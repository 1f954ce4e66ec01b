//! A temporary database inside a running server, as a state machine.
//!
//! The caller performs each [`Action`] on the administrative connection
//! it opened for this one sandbox and answers with an [`Event`]. The
//! machine decides what comes next: DROP DATABASE before DROP ROLE, both
//! attempted whatever the task did, and the earliest failure reported.

use crate::error::{record_cleanup, spec_conclude, spec_record_cleanup, CleanupStep, Error, Failure};
use crate::sql::Statement;
use vstd::prelude::*;

verus! {

/// What the machine is waiting for.
#[derive(Clone, Copy, Debug, PartialEq, Eq, Structural)]
pub enum Phase {
    Connecting,
    CreatingRole,
    CreatingDatabase,
    Revoking,
    Running,
    DroppingDatabase,
    DroppingRole,
    Finished,
}

/// What the caller is to do next.
#[derive(Debug, PartialEq, Eq)]
pub enum Action<T> {
    /// Open the administrative connection.
    Connect,
    /// Send this statement, alone, over the administrative connection.
    Execute(Statement),
    /// Run the task with the sandbox's parameters.
    RunTask,
    /// Close the connection and return this.
    Finish(Result<T, Failure>),
    /// The event did not answer what was asked for; nothing has changed.
    Rejected,
}

/// What happened when the caller did as asked.
#[derive(Debug, PartialEq, Eq)]
pub enum Event<T> {
    /// The connection was opened, or the statement went through.
    Succeeded,
    /// The collaborator reported this error.
    Failed(String),
    /// The task returned this value.
    Returned(T),
}

/// The lifecycle of one sandbox.
#[derive(Debug, PartialEq, Eq)]
pub struct TemporaryDatabase<T> {
    pub phase: Phase,
    /// What the task returned, kept until teardown is over.
    pub value: Option<T>,
    /// The earliest failure so far, with later teardown failures attached.
    pub failure: Option<Failure>,
}

/// The teardown statements that are still to be sent in `phase`, in the order
/// in which they are due: what was created and has not been dropped yet.
pub open spec fn owed(phase: Phase) -> Seq<Statement> {
    match phase {
        Phase::Connecting | Phase::CreatingRole => seq![],
        Phase::CreatingDatabase => seq![Statement::DropRole],
        Phase::Revoking | Phase::Running => seq![Statement::DropDatabase, Statement::DropRole],
        Phase::DroppingDatabase => seq![Statement::DropRole],
        Phase::DroppingRole | Phase::Finished => seq![],
    }
}

impl<T> TemporaryDatabase<T> {
    /// Nothing has failed before the task has run; during teardown there is
    /// a value to return or a failure to report; at the end both are handed
    /// out.
    pub open spec fn wf(&self) -> bool {
        match self.phase {
            Phase::Connecting | Phase::CreatingRole | Phase::CreatingDatabase | Phase::Revoking
            | Phase::Running | Phase::Finished => self.value is None && self.failure is None,
            Phase::DroppingDatabase => (self.value is Some) != (self.failure is Some),
            Phase::DroppingRole => self.value is Some || self.failure is Some,
        }
    }

    /// Whether `event` answers what the machine is waiting for.
    pub open spec fn expects(&self, event: Event<T>) -> bool {
        match self.phase {
            Phase::Running => event is Returned,
            Phase::Finished => false,
            _ => !(event is Returned),
        }
    }

    /// The machine after `event`, and what it asks for next.
    pub open spec fn next(self, event: Event<T>) -> (Self, Action<T>) {
        let done = TemporaryDatabase { phase: Phase::Finished, value: None, failure: None };
        match (self.phase, event) {
            (Phase::Connecting, Event::Succeeded) => (
                TemporaryDatabase { phase: Phase::CreatingRole, ..self },
                Action::Execute(Statement::CreateRole),
            ),
            (Phase::Connecting, Event::Failed(m)) => (
                done,
                Action::Finish(Err(Failure::spec_first(Error::DatabaseProtocolError(m)))),
            ),
            (Phase::CreatingRole, Event::Succeeded) => (
                TemporaryDatabase { phase: Phase::CreatingDatabase, ..self },
                Action::Execute(Statement::CreateDatabase),
            ),
            (Phase::CreatingRole, Event::Failed(m)) => (
                done,
                Action::Finish(Err(Failure::spec_first(Error::DatabaseProtocolError(m)))),
            ),
            (Phase::CreatingDatabase, Event::Succeeded) => (
                TemporaryDatabase { phase: Phase::Revoking, ..self },
                Action::Execute(Statement::RevokePublic),
            ),
            (Phase::CreatingDatabase, Event::Failed(m)) => (
                TemporaryDatabase {
                    phase: Phase::DroppingRole,
                    value: None,
                    failure: Some(Failure::spec_first(Error::DatabaseProtocolError(m))),
                },
                Action::Execute(Statement::DropRole),
            ),
            (Phase::Revoking, Event::Succeeded) => (
                TemporaryDatabase { phase: Phase::Running, ..self },
                Action::RunTask,
            ),
            (Phase::Revoking, Event::Failed(m)) => (
                TemporaryDatabase {
                    phase: Phase::DroppingDatabase,
                    value: None,
                    failure: Some(Failure::spec_first(Error::DatabaseProtocolError(m))),
                },
                Action::Execute(Statement::DropDatabase),
            ),
            (Phase::Running, Event::Returned(t)) => (
                TemporaryDatabase { phase: Phase::DroppingDatabase, value: Some(t), failure: None },
                Action::Execute(Statement::DropDatabase),
            ),
            (Phase::DroppingDatabase, Event::Succeeded) => (
                TemporaryDatabase { phase: Phase::DroppingRole, ..self },
                Action::Execute(Statement::DropRole),
            ),
            (Phase::DroppingDatabase, Event::Failed(m)) => (
                TemporaryDatabase {
                    phase: Phase::DroppingRole,
                    value: self.value,
                    failure: Some(spec_record_cleanup(self.failure, CleanupStep::Inner, m)),
                },
                Action::Execute(Statement::DropRole),
            ),
            (Phase::DroppingRole, Event::Succeeded) => match spec_conclude(
                self.value,
                self.failure,
            ) {
                Some(result) => (done, Action::Finish(result)),
                None => (self, Action::Rejected),
            },
            (Phase::DroppingRole, Event::Failed(m)) => (
                done,
                Action::Finish(Err(spec_record_cleanup(self.failure, CleanupStep::Outer, m))),
            ),
            _ => (self, Action::Rejected),
        }
    }

    /// A new lifecycle. The first thing to do is to connect.
    pub fn begin() -> (r: (Self, Action<T>))
        ensures
            r.0 == fresh::<T>(),
            r.0.wf(),
            r.1 == Action::<T>::Connect,
    {
        (TemporaryDatabase { phase: Phase::Connecting, value: None, failure: None }, Action::Connect)
    }

    /// Whether `event` answers what the machine is waiting for.
    pub fn accepts(&self, event: &Event<T>) -> (b: bool)
        ensures
            b == self.expects(*event),
    {
        match self.phase {
            Phase::Running => match event {
                Event::Returned(_) => true,
                _ => false,
            },
            Phase::Finished => false,
            _ => match event {
                Event::Returned(_) => false,
                _ => true,
            },
        }
    }

    /// Takes the answer to the last action and says what to do next.
    pub fn step(self, event: Event<T>) -> (r: (Self, Action<T>))
        requires
            self.wf(),
        ensures
            r == self.next(event),
            r.0.wf(),
            !self.expects(event) <==> r.1 == Action::<T>::Rejected,
    {
        let TemporaryDatabase { phase, value, failure } = self;
        match (phase, event) {
            (Phase::Connecting, Event::Succeeded) => (
                TemporaryDatabase { phase: Phase::CreatingRole, value, failure },
                Action::Execute(Statement::CreateRole),
            ),
            (Phase::Connecting, Event::Failed(m)) | (Phase::CreatingRole, Event::Failed(m)) => (
                TemporaryDatabase { phase: Phase::Finished, value: None, failure: None },
                Action::Finish(Err(Failure::first(Error::DatabaseProtocolError(m)))),
            ),
            (Phase::CreatingRole, Event::Succeeded) => (
                TemporaryDatabase { phase: Phase::CreatingDatabase, value, failure },
                Action::Execute(Statement::CreateDatabase),
            ),
            (Phase::CreatingDatabase, Event::Succeeded) => (
                TemporaryDatabase { phase: Phase::Revoking, value, failure },
                Action::Execute(Statement::RevokePublic),
            ),
            (Phase::CreatingDatabase, Event::Failed(m)) => (
                TemporaryDatabase {
                    phase: Phase::DroppingRole,
                    value: None,
                    failure: Some(Failure::first(Error::DatabaseProtocolError(m))),
                },
                Action::Execute(Statement::DropRole),
            ),
            (Phase::Revoking, Event::Succeeded) => (
                TemporaryDatabase { phase: Phase::Running, value, failure },
                Action::RunTask,
            ),
            (Phase::Revoking, Event::Failed(m)) => (
                TemporaryDatabase {
                    phase: Phase::DroppingDatabase,
                    value: None,
                    failure: Some(Failure::first(Error::DatabaseProtocolError(m))),
                },
                Action::Execute(Statement::DropDatabase),
            ),
            (Phase::Running, Event::Returned(t)) => (
                TemporaryDatabase { phase: Phase::DroppingDatabase, value: Some(t), failure: None },
                Action::Execute(Statement::DropDatabase),
            ),
            (Phase::DroppingDatabase, Event::Succeeded) => (
                TemporaryDatabase { phase: Phase::DroppingRole, value, failure },
                Action::Execute(Statement::DropRole),
            ),
            (Phase::DroppingDatabase, Event::Failed(m)) => (
                TemporaryDatabase {
                    phase: Phase::DroppingRole,
                    value,
                    failure: Some(record_cleanup(failure, CleanupStep::Inner, m)),
                },
                Action::Execute(Statement::DropRole),
            ),
            (Phase::DroppingRole, Event::Succeeded) => {
                let done = TemporaryDatabase { phase: Phase::Finished, value: None, failure: None };
                match failure {
                    Some(f) => (done, Action::Finish(Err(f))),
                    None => match value {
                        Some(v) => (done, Action::Finish(Ok(v))),
                        None => (
                            TemporaryDatabase { phase, value: None, failure: None },
                            Action::Rejected,
                        ),
                    },
                }
            },
            (Phase::DroppingRole, Event::Failed(m)) => (
                TemporaryDatabase { phase: Phase::Finished, value: None, failure: None },
                Action::Finish(Err(record_cleanup(failure, CleanupStep::Outer, m))),
            ),
            (phase, _) => (TemporaryDatabase { phase, value, failure }, Action::Rejected),
        }
    }
}

/// The machine finishes only when nothing is owed, and sends the teardown
/// statements exactly in the order in which they are owed: whatever was
/// created is dropped before the run ends, the database before the role.
pub proof fn lemma_teardown_is_complete_and_ordered<T>(
    machine: TemporaryDatabase<T>,
    event: Event<T>,
)
    requires
        machine.wf(),
    ensures
        ({
            let (after, action) = machine.next(event);
            &&& action is Finish ==> owed(machine.phase).len() == 0
            &&& after.phase == Phase::Finished ==> action is Finish || machine.phase
                == Phase::Finished
            &&& action matches Action::Execute(statement) ==> (statement.is_drop() ==> {
                &&& owed(machine.phase).len() > 0
                &&& owed(machine.phase)[0] == statement
                &&& owed(after.phase) == owed(machine.phase).drop_first()
            })
            &&& !(action is Finish) && !(action matches Action::Execute(statement)
                && statement.is_drop()) ==> owed(after.phase).len() >= owed(machine.phase).len()
            &&& action == Action::<T>::Execute(Statement::DropRole) ==> machine.phase
                == Phase::DroppingDatabase || (machine.phase == Phase::CreatingDatabase
                && event is Failed)
            &&& machine.phase == Phase::DroppingDatabase && machine.expects(event) ==> action
                == Action::<T>::Execute(Statement::DropRole)
            &&& action is Rejected ==> after == machine
        }),
{
    let (after, action) = machine.next(event);
    assert(action is Execute ==> owed(after.phase) =~= owed(machine.phase).drop_first()
        || !action->Execute_0.is_drop());
}

/// What a task returns survives a clean teardown: once the task has
/// returned `value`, the database is dropped, then the role, and where both
/// go through the run ends with `Ok(value)`.
pub proof fn lemma_task_value_is_returned<T>(machine: TemporaryDatabase<T>, value: T)
    requires
        machine.wf(),
        machine.phase == Phase::Running,
    ensures
        ({
            let (first, drop_database) = machine.next(Event::Returned(value));
            let (second, drop_role) = first.next(Event::Succeeded);
            let (last, finish) = second.next(Event::Succeeded);
            &&& drop_database == Action::<T>::Execute(Statement::DropDatabase)
            &&& drop_role == Action::<T>::Execute(Statement::DropRole)
            &&& finish == Action::Finish(Ok::<T, Failure>(value))
            &&& last.phase == Phase::Finished
        }),
{
}

/// A database that could not be created leaves no role behind, and the run
/// reports that failure: the role is dropped next, and the run ends with the
/// creation error first, whether or not the drop went through.
pub proof fn lemma_failed_creation_drops_role<T>(
    machine: TemporaryDatabase<T>,
    reason: String,
    cleanup: Event<T>,
)
    requires
        machine.wf(),
        machine.phase == Phase::CreatingDatabase,
        !(cleanup is Returned),
    ensures
        ({
            let (first, drop_role) = machine.next(Event::Failed(reason));
            let (last, finish) = first.next(cleanup);
            &&& drop_role == Action::<T>::Execute(Statement::DropRole)
            &&& last.phase == Phase::Finished
            &&& finish matches Action::Finish(Err(failure))
            &&& failure.error == Error::DatabaseProtocolError(reason)
            &&& failure.inner_cleanup is None
            &&& cleanup is Succeeded ==> failure.outer_cleanup is None
            &&& cleanup matches Event::Failed(m) ==> failure.outer_cleanup == Some(
                Error::CleanupFailed(m),
            )
        }),
{
}

/// The earliest failure keeps its place: no later step replaces the error on
/// record, and a run that has a failure on record cannot end well.
pub proof fn lemma_earliest_failure_is_kept<T>(machine: TemporaryDatabase<T>, event: Event<T>)
    requires
        machine.wf(),
        machine.failure is Some,
    ensures
        ({
            let (after, action) = machine.next(event);
            let error = machine.failure->0.error;
            &&& !(action is Finish) ==> after.failure is Some && after.failure->0.error == error
            &&& action matches Action::Finish(result) ==> result is Err && result->Err_0.error
                == error
        }),
{
}

/// The task runs only after the whole setup went through; a failed teardown
/// is the reported error only where nothing failed before it; and a run ends
/// well only where the role was dropped and nothing failed on the way, with
/// the value that the task returned.
pub proof fn lemma_task_runs_after_setup<T>(machine: TemporaryDatabase<T>, event: Event<T>)
    requires
        machine.wf(),
    ensures
        ({
            let (after, action) = machine.next(event);
            &&& action is RunTask ==> machine.phase == Phase::Revoking && event is Succeeded
                && after.failure is None
            &&& action matches Action::Finish(Err(failure)) ==> (failure.error is CleanupFailed
                ==> machine.failure is None || machine.failure->0.error is CleanupFailed)
            &&& action matches Action::Finish(Ok(value)) ==> machine.phase == Phase::DroppingRole
                && event is Succeeded && machine.failure is None && machine.value == Some(value)
            &&& event is Failed && machine.expects(event) ==> after.failure is Some
                || action is Finish
        }),
{
}

/// A lifecycle that has not seen any event yet.
pub open spec fn fresh<T>() -> TemporaryDatabase<T> {
    TemporaryDatabase { phase: Phase::Connecting, value: None, failure: None }
}

/// The machine after `events`, fed in order to `machine`, and the actions it
/// asked for in answer to them.
pub open spec fn run<T>(machine: TemporaryDatabase<T>, events: Seq<Event<T>>) -> (
    TemporaryDatabase<T>,
    Seq<Action<T>>,
)
    decreases events.len(),
{
    if events.len() == 0 {
        (machine, Seq::empty())
    } else {
        let (before, actions) = run(machine, events.drop_last());
        let (after, action) = before.next(events.last());
        (after, actions.push(action))
    }
}

/// `statement` was asked for somewhere among `actions`.
pub open spec fn sent<T>(actions: Seq<Action<T>>, statement: Statement) -> bool {
    actions.contains(Action::Execute(statement))
}

/// Wherever DROP ROLE stands among `actions`, a database that was created
/// before it (its creation was followed by the REVOKE) was also dropped
/// before it.
pub open spec fn database_dropped_before_role<T>(actions: Seq<Action<T>>) -> bool {
    forall|i: int|
        0 <= i < actions.len() && #[trigger] actions[i] == Action::<T>::Execute(
            Statement::DropRole,
        ) && sent(actions.take(i), Statement::RevokePublic) ==> sent(
            actions.take(i),
            Statement::DropDatabase,
        )
}

/// What the actions asked for so far say about the phase, and the phase
/// about them.
pub open spec fn consistent<T>(machine: TemporaryDatabase<T>, actions: Seq<Action<T>>) -> bool {
    let role = sent(actions, Statement::CreateDatabase);
    let database = sent(actions, Statement::RevokePublic);
    let database_dropped = sent(actions, Statement::DropDatabase);
    let role_dropped = sent(actions, Statement::DropRole);
    &&& machine.wf()
    &&& database_dropped_before_role(actions)
    &&& match machine.phase {
        Phase::Connecting | Phase::CreatingRole => !role && !database && !database_dropped
            && !role_dropped,
        Phase::CreatingDatabase => role && !database && !database_dropped && !role_dropped,
        Phase::Revoking | Phase::Running => role && database && !database_dropped
            && !role_dropped,
        Phase::DroppingDatabase => role && database && database_dropped && !role_dropped,
        Phase::DroppingRole | Phase::Finished => (role ==> role_dropped) && (database
            ==> database_dropped),
    }
}

proof fn lemma_sent_after_push<T>(actions: Seq<Action<T>>, action: Action<T>, statement: Statement)
    ensures
        sent(actions.push(action), statement) <==> sent(actions, statement) || action
            == Action::<T>::Execute(statement),
{
    let pushed = actions.push(action);
    let wanted = Action::<T>::Execute(statement);
    if sent(actions, statement) {
        let i = choose|i: int| 0 <= i < actions.len() && actions[i] == wanted;
        assert(pushed[i] == wanted);
    }
    if action == wanted {
        assert(pushed[actions.len() as int] == wanted);
    }
    if sent(pushed, statement) {
        let i = choose|i: int| 0 <= i < pushed.len() && pushed[i] == wanted;
        if i < actions.len() {
            assert(actions[i] == wanted);
        }
    }
}

proof fn lemma_step_keeps_consistency<T>(
    machine: TemporaryDatabase<T>,
    actions: Seq<Action<T>>,
    event: Event<T>,
)
    requires
        consistent(machine, actions),
    ensures
        consistent(machine.next(event).0, actions.push(machine.next(event).1)),
{
    let (after, action) = machine.next(event);
    let pushed = actions.push(action);
    lemma_sent_after_push(actions, action, Statement::CreateDatabase);
    lemma_sent_after_push(actions, action, Statement::RevokePublic);
    lemma_sent_after_push(actions, action, Statement::DropDatabase);
    lemma_sent_after_push(actions, action, Statement::DropRole);
    assert forall|i: int|
        0 <= i < pushed.len() && #[trigger] pushed[i] == Action::<T>::Execute(
            Statement::DropRole,
        ) && sent(pushed.take(i), Statement::RevokePublic) implies sent(
        pushed.take(i),
        Statement::DropDatabase,
    ) by {
        if i < actions.len() {
            assert(pushed.take(i) =~= actions.take(i));
            assert(actions[i] == pushed[i]);
        } else {
            assert(pushed.take(i) =~= actions);
        }
    }
}

/// Whatever the collaborators answer, from the first event on: DROP ROLE is
/// never sent before the DROP DATABASE of a database that was created, and a
/// run that has ended has sent DROP ROLE if the role was created (CREATE
/// DATABASE is only asked for once it was) and DROP DATABASE if the database
/// was (the REVOKE is only asked for once it was).
pub proof fn lemma_run_leaves_nothing_behind<T>(events: Seq<Event<T>>)
    ensures
        ({
            let (machine, actions) = run(fresh::<T>(), events);
            &&& machine.wf()
            &&& actions.len() == events.len()
            &&& database_dropped_before_role(actions)
            &&& machine.phase == Phase::Finished ==> {
                &&& sent(actions, Statement::CreateDatabase) ==> sent(actions, Statement::DropRole)
                &&& sent(actions, Statement::RevokePublic) ==> sent(
                    actions,
                    Statement::DropDatabase,
                )
            }
            &&& consistent(machine, actions)
        }),
    decreases events.len(),
{
    if events.len() == 0 {
        let actions = Seq::<Action<T>>::empty();
        assert(consistent(fresh::<T>(), actions));
    } else {
        lemma_run_leaves_nothing_behind(events.drop_last());
        let (before, actions) = run(fresh::<T>(), events.drop_last());
        lemma_step_keeps_consistency(before, actions, events.last());
    }
}

} // verus!
