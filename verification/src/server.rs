//! A temporary server in a container, as a state machine.
//!
//! The caller performs each [`Action`] against the container runtime
//! and the new server and answers with an [`Event`]. The machine decides
//! what comes next: how often to try to connect, that the container is
//! stopped and then removed whatever happened, and which failure is reported.

use crate::error::{record_cleanup, spec_conclude, spec_record_cleanup, CleanupStep, Error, Failure};
use vstd::prelude::*;

verus! {

/// The image the container is created from.
pub const IMAGE: &'static str = "postgres:11";

/// The port the server listens on inside the container.
pub const SERVER_PORT: u16 = 5432;

/// How many times a connection is attempted before giving up.
pub const MAX_ATTEMPTS: u32 = 100;

/// Milliseconds to wait before each further attempt.
pub const RETRY_INTERVAL_MS: u64 = 100;

/// Seconds the container is given to stop.
pub const STOP_GRACE_SECS: u64 = 5;

/// One published port of a container.
#[derive(Clone, Copy, Debug, PartialEq, Eq, Structural)]
pub struct PortMapping {
    /// The port inside the container.
    pub private_port: u16,
    /// The port on the host, where one was assigned.
    pub public_port: Option<u16>,
}

/// The host port of the first mapping at or after `from` that publishes
/// `private_port`.
pub open spec fn published_port_from(ports: Seq<PortMapping>, private_port: u16, from: int)
    -> Option<u16>
    decreases ports.len() - from,
{
    if from < 0 || from >= ports.len() {
        None
    } else if ports[from].private_port == private_port && ports[from].public_port is Some {
        ports[from].public_port
    } else {
        published_port_from(ports, private_port, from + 1)
    }
}

/// The host port of the first mapping that publishes `private_port`.
pub open spec fn published_port(ports: Seq<PortMapping>, private_port: u16) -> Option<u16> {
    published_port_from(ports, private_port, 0)
}

/// A port is found exactly where some mapping publishes `private_port`, and
/// it is the host port of the first that does.
pub proof fn lemma_published_port(ports: Seq<PortMapping>, private_port: u16, from: int)
    requires
        0 <= from <= ports.len(),
    ensures
        published_port_from(ports, private_port, from) is None <==> forall|i: int|
            from <= i < ports.len() ==> !((#[trigger] ports[i]).private_port == private_port
                && ports[i].public_port is Some),
        published_port_from(ports, private_port, from) is Some ==> exists|i: int|
            {
                &&& from <= i < ports.len()
                &&& (#[trigger] ports[i]).private_port == private_port
                &&& ports[i].public_port == published_port_from(ports, private_port, from)
                &&& forall|j: int|
                    from <= j < i ==> !((#[trigger] ports[j]).private_port == private_port
                        && ports[j].public_port is Some)
            },
    decreases ports.len() - from,
{
    if from < ports.len() {
        if ports[from].private_port == private_port && ports[from].public_port is Some {
            assert(ports[from].public_port == published_port_from(ports, private_port, from));
        } else {
            lemma_published_port(ports, private_port, from + 1);
            if published_port_from(ports, private_port, from) is Some {
                let i = choose|i: int|
                    {
                        &&& from + 1 <= i < ports.len()
                        &&& (#[trigger] ports[i]).private_port == private_port
                        &&& ports[i].public_port == published_port_from(
                            ports,
                            private_port,
                            from + 1,
                        )
                        &&& forall|j: int|
                            from + 1 <= j < i ==> !((#[trigger] ports[j]).private_port
                                == private_port && ports[j].public_port is Some)
                    };
                assert(from <= i < ports.len() && ports[i].private_port == private_port);
            }
        }
    }
}

/// The host port under which `private_port` is published: that of the first
/// mapping for it that has one.
pub fn find_published_port(ports: &Vec<PortMapping>, private_port: u16) -> (found: Option<u16>)
    ensures
        found == published_port(ports@, private_port),
{
    let mut i: usize = 0;
    while i < ports.len()
        invariant
            i <= ports.len(),
            published_port(ports@, private_port) == published_port_from(
                ports@,
                private_port,
                i as int,
            ),
        decreases ports.len() - i,
    {
        if ports[i].private_port == private_port {
            if let Some(port) = ports[i].public_port {
                return Some(port);
            }
        }
        i += 1;
    }
    None
}

/// What the machine is waiting for.
#[derive(Clone, Copy, Debug, PartialEq, Eq, Structural)]
pub enum Phase {
    Creating,
    Starting,
    Inspecting,
    Connecting,
    Running,
    Stopping,
    Removing,
    Finished,
}

/// A teardown step.
#[derive(Clone, Copy, Debug, PartialEq, Eq, Structural)]
pub enum Teardown {
    Stop,
    Remove,
}

/// What the caller is to do next.
#[derive(Debug, PartialEq, Eq)]
pub enum Action<T> {
    /// Create a container from [`IMAGE`] with all its ports published.
    CreateContainer,
    /// Start the container.
    StartContainer,
    /// List the container's published ports.
    InspectContainer,
    /// Wait `wait_ms` milliseconds, then try to connect to `port` on this
    /// machine.
    Connect { port: u16, wait_ms: u64 },
    /// Run the task on the connection to `port`.
    RunTask { port: u16 },
    /// Stop the container, giving it [`STOP_GRACE_SECS`] seconds.
    StopContainer,
    /// Remove the container by force, with its volumes.
    RemoveContainer,
    /// Return this.
    Finish(Result<T, Failure>),
    /// The event did not answer what was asked for; nothing has changed.
    Rejected,
}

/// What happened when the caller did as asked.
#[derive(Debug, PartialEq, Eq)]
pub enum Event<T> {
    /// The call went through.
    Succeeded,
    /// The collaborator reported this error.
    Failed(String),
    /// The container publishes these ports.
    Listed(Vec<PortMapping>),
    /// The task returned this value.
    Returned(T),
}

/// The lifecycle of one container.
#[derive(Debug, PartialEq, Eq)]
pub struct TemporaryPostgres<T> {
    pub phase: Phase,
    /// The host port of the server, once discovered.
    pub port: u16,
    /// Connection attempts made so far, the one under way included.
    pub attempts: u32,
    /// What the task returned, kept until teardown is over.
    pub value: Option<T>,
    /// The earliest failure so far, with later teardown failures attached.
    pub failure: Option<Failure>,
}

/// The teardown steps that are still to be taken in `phase`, in the order
/// in which they are due.
pub open spec fn owed(phase: Phase) -> Seq<Teardown> {
    match phase {
        Phase::Creating => seq![],
        Phase::Starting => seq![Teardown::Remove],
        Phase::Inspecting | Phase::Connecting | Phase::Running => seq![
            Teardown::Stop,
            Teardown::Remove,
        ],
        Phase::Stopping => seq![Teardown::Remove],
        Phase::Removing | Phase::Finished => seq![],
    }
}

impl<T> Action<T> {
    /// The teardown step that this action takes, if it is one.
    pub open spec fn teardown(self) -> Option<Teardown> {
        match self {
            Action::StopContainer => Some(Teardown::Stop),
            Action::RemoveContainer => Some(Teardown::Remove),
            _ => None,
        }
    }
}

impl<T> TemporaryPostgres<T> {
    /// Nothing has failed before the task has run; while connecting, between
    /// one and [`MAX_ATTEMPTS`] attempts were made; during teardown there is a
    /// value to return or a failure to report.
    pub open spec fn wf(&self) -> bool {
        match self.phase {
            Phase::Connecting => self.value is None && self.failure is None && 1 <= self.attempts
                <= MAX_ATTEMPTS,
            Phase::Creating | Phase::Starting | Phase::Inspecting | Phase::Running
            | Phase::Finished => self.value is None && self.failure is None,
            Phase::Stopping => (self.value is Some) != (self.failure is Some),
            Phase::Removing => self.value is Some || self.failure is Some,
        }
    }

    /// Whether `event` answers what the machine is waiting for.
    pub open spec fn expects(&self, event: Event<T>) -> bool {
        match self.phase {
            Phase::Inspecting => event is Listed || event is Failed,
            Phase::Running => event is Returned,
            Phase::Finished => false,
            _ => event is Succeeded || event is Failed,
        }
    }

    /// The machine after `event`, and what it asks for next.
    pub open spec fn next(self, event: Event<T>) -> (Self, Action<T>) {
        let done = TemporaryPostgres { phase: Phase::Finished, value: None, failure: None, ..self };
        match (self.phase, event) {
            (Phase::Creating, Event::Succeeded) => (
                TemporaryPostgres { phase: Phase::Starting, ..self },
                Action::StartContainer,
            ),
            (Phase::Creating, Event::Failed(m)) => (
                done,
                Action::Finish(Err(Failure::spec_first(Error::ContainerCreationFailed(m)))),
            ),
            (Phase::Starting, Event::Succeeded) => (
                TemporaryPostgres { phase: Phase::Inspecting, ..self },
                Action::InspectContainer,
            ),
            (Phase::Starting, Event::Failed(m)) => (
                TemporaryPostgres {
                    phase: Phase::Removing,
                    failure: Some(Failure::spec_first(Error::ContainerStartFailed(m))),
                    ..self
                },
                Action::RemoveContainer,
            ),
            (Phase::Inspecting, Event::Listed(ports)) => match published_port(
                ports@,
                SERVER_PORT,
            ) {
                Some(port) => (
                    TemporaryPostgres { phase: Phase::Connecting, port, attempts: 1, ..self },
                    Action::Connect { port, wait_ms: 0 },
                ),
                None => (
                    TemporaryPostgres {
                        phase: Phase::Stopping,
                        failure: Some(Failure::spec_first(Error::PortDiscoveryFailed(None))),
                        ..self
                    },
                    Action::StopContainer,
                ),
            },
            (Phase::Inspecting, Event::Failed(m)) => (
                TemporaryPostgres {
                    phase: Phase::Stopping,
                    failure: Some(Failure::spec_first(Error::PortDiscoveryFailed(Some(m)))),
                    ..self
                },
                Action::StopContainer,
            ),
            (Phase::Connecting, Event::Succeeded) => (
                TemporaryPostgres { phase: Phase::Running, ..self },
                Action::RunTask { port: self.port },
            ),
            (Phase::Connecting, Event::Failed(m)) => if self.attempts >= MAX_ATTEMPTS {
                (
                    TemporaryPostgres {
                        phase: Phase::Stopping,
                        failure: Some(Failure::spec_first(Error::ConnectionTimeout(m))),
                        ..self
                    },
                    Action::StopContainer,
                )
            } else {
                (
                    TemporaryPostgres { attempts: (self.attempts + 1) as u32, ..self },
                    Action::Connect { port: self.port, wait_ms: RETRY_INTERVAL_MS },
                )
            },
            (Phase::Running, Event::Returned(t)) => (
                TemporaryPostgres { phase: Phase::Stopping, value: Some(t), ..self },
                Action::StopContainer,
            ),
            (Phase::Stopping, Event::Succeeded) => (
                TemporaryPostgres { phase: Phase::Removing, ..self },
                Action::RemoveContainer,
            ),
            (Phase::Stopping, Event::Failed(m)) => (
                TemporaryPostgres {
                    phase: Phase::Removing,
                    failure: Some(spec_record_cleanup(self.failure, CleanupStep::Inner, m)),
                    ..self
                },
                Action::RemoveContainer,
            ),
            (Phase::Removing, Event::Succeeded) => match spec_conclude(self.value, self.failure) {
                Some(result) => (done, Action::Finish(result)),
                None => (self, Action::Rejected),
            },
            (Phase::Removing, Event::Failed(m)) => (
                done,
                Action::Finish(Err(spec_record_cleanup(self.failure, CleanupStep::Outer, m))),
            ),
            _ => (self, Action::Rejected),
        }
    }

    /// A new lifecycle. The first thing to do is to create the container.
    pub fn begin() -> (r: (Self, Action<T>))
        ensures
            r.0 == fresh::<T>(),
            r.0.wf(),
            r.1 == Action::<T>::CreateContainer,
    {
        (
            TemporaryPostgres {
                phase: Phase::Creating,
                port: 0,
                attempts: 0,
                value: None,
                failure: None,
            },
            Action::CreateContainer,
        )
    }

    /// Whether `event` answers what the machine is waiting for.
    pub fn accepts(&self, event: &Event<T>) -> (b: bool)
        ensures
            b == self.expects(*event),
    {
        match self.phase {
            Phase::Inspecting => match event {
                Event::Listed(_) | Event::Failed(_) => true,
                _ => false,
            },
            Phase::Running => match event {
                Event::Returned(_) => true,
                _ => false,
            },
            Phase::Finished => false,
            _ => match event {
                Event::Succeeded | Event::Failed(_) => true,
                _ => false,
            },
        }
    }

    /// Takes the answer to the last action and says what to do next.
    pub fn step(self, event: Event<T>) -> (r: (Self, Action<T>))
        requires
            self.wf(),
        ensures
            r == self.next(event),
            r.0.wf(),
            !self.expects(event) <==> r.1 == Action::<T>::Rejected,
    {
        let TemporaryPostgres { phase, port, attempts, value, failure } = self;
        match (phase, event) {
            (Phase::Creating, Event::Succeeded) => (
                TemporaryPostgres { phase: Phase::Starting, port, attempts, value, failure },
                Action::StartContainer,
            ),
            (Phase::Creating, Event::Failed(m)) => (
                TemporaryPostgres {
                    phase: Phase::Finished,
                    port,
                    attempts,
                    value: None,
                    failure: None,
                },
                Action::Finish(Err(Failure::first(Error::ContainerCreationFailed(m)))),
            ),
            (Phase::Starting, Event::Succeeded) => (
                TemporaryPostgres { phase: Phase::Inspecting, port, attempts, value, failure },
                Action::InspectContainer,
            ),
            (Phase::Starting, Event::Failed(m)) => (
                TemporaryPostgres {
                    phase: Phase::Removing,
                    port,
                    attempts,
                    value,
                    failure: Some(Failure::first(Error::ContainerStartFailed(m))),
                },
                Action::RemoveContainer,
            ),
            (Phase::Inspecting, Event::Listed(ports)) => match find_published_port(
                &ports,
                SERVER_PORT,
            ) {
                Some(found) => (
                    TemporaryPostgres {
                        phase: Phase::Connecting,
                        port: found,
                        attempts: 1,
                        value,
                        failure,
                    },
                    Action::Connect { port: found, wait_ms: 0 },
                ),
                None => (
                    TemporaryPostgres {
                        phase: Phase::Stopping,
                        port,
                        attempts,
                        value,
                        failure: Some(Failure::first(Error::PortDiscoveryFailed(None))),
                    },
                    Action::StopContainer,
                ),
            },
            (Phase::Inspecting, Event::Failed(m)) => (
                TemporaryPostgres {
                    phase: Phase::Stopping,
                    port,
                    attempts,
                    value,
                    failure: Some(Failure::first(Error::PortDiscoveryFailed(Some(m)))),
                },
                Action::StopContainer,
            ),
            (Phase::Connecting, Event::Succeeded) => (
                TemporaryPostgres { phase: Phase::Running, port, attempts, value, failure },
                Action::RunTask { port },
            ),
            (Phase::Connecting, Event::Failed(m)) => if attempts >= MAX_ATTEMPTS {
                (
                    TemporaryPostgres {
                        phase: Phase::Stopping,
                        port,
                        attempts,
                        value,
                        failure: Some(Failure::first(Error::ConnectionTimeout(m))),
                    },
                    Action::StopContainer,
                )
            } else {
                (
                    TemporaryPostgres { phase, port, attempts: attempts + 1, value, failure },
                    Action::Connect { port, wait_ms: RETRY_INTERVAL_MS },
                )
            },
            (Phase::Running, Event::Returned(t)) => (
                TemporaryPostgres { phase: Phase::Stopping, port, attempts, value: Some(t), failure },
                Action::StopContainer,
            ),
            (Phase::Stopping, Event::Succeeded) => (
                TemporaryPostgres { phase: Phase::Removing, port, attempts, value, failure },
                Action::RemoveContainer,
            ),
            (Phase::Stopping, Event::Failed(m)) => (
                TemporaryPostgres {
                    phase: Phase::Removing,
                    port,
                    attempts,
                    value,
                    failure: Some(record_cleanup(failure, CleanupStep::Inner, m)),
                },
                Action::RemoveContainer,
            ),
            (Phase::Removing, Event::Succeeded) => match failure {
                Some(f) => (
                    TemporaryPostgres {
                        phase: Phase::Finished,
                        port,
                        attempts,
                        value: None,
                        failure: None,
                    },
                    Action::Finish(Err(f)),
                ),
                None => match value {
                    Some(v) => (
                        TemporaryPostgres {
                            phase: Phase::Finished,
                            port,
                            attempts,
                            value: None,
                            failure: None,
                        },
                        Action::Finish(Ok(v)),
                    ),
                    None => (
                        TemporaryPostgres { phase, port, attempts, value: None, failure: None },
                        Action::Rejected,
                    ),
                },
            },
            (Phase::Removing, Event::Failed(m)) => (
                TemporaryPostgres {
                    phase: Phase::Finished,
                    port,
                    attempts,
                    value: None,
                    failure: None,
                },
                Action::Finish(Err(record_cleanup(failure, CleanupStep::Outer, m))),
            ),
            (phase, _) => (
                TemporaryPostgres { phase, port, attempts, value, failure },
                Action::Rejected,
            ),
        }
    }
}

/// The machine after one failed connection attempt for each of `reasons`, in
/// order.
pub open spec fn after_failed_attempts<T>(machine: TemporaryPostgres<T>, reasons: Seq<String>)
    -> TemporaryPostgres<T>
    decreases reasons.len(),
{
    if reasons.len() == 0 {
        machine
    } else {
        after_failed_attempts(machine, reasons.drop_last()).next(Event::Failed(reasons.last())).0
    }
}

/// The machine finishes only when nothing is owed, and takes the teardown
/// steps exactly in the order in which they are owed: a container that was
/// created is removed before the run ends, and one that was started is
/// stopped first. Removal follows a stop whether or not the stop went through.
pub proof fn lemma_teardown_is_complete_and_ordered<T>(
    machine: TemporaryPostgres<T>,
    event: Event<T>,
)
    requires
        machine.wf(),
    ensures
        ({
            let (after, action) = machine.next(event);
            &&& action is Finish ==> owed(machine.phase).len() == 0
            &&& after.phase == Phase::Finished ==> action is Finish || machine.phase
                == Phase::Finished
            &&& action.teardown() matches Some(step) ==> {
                &&& owed(machine.phase).len() > 0
                &&& owed(machine.phase)[0] == step
                &&& owed(after.phase) == owed(machine.phase).drop_first()
            }
            &&& action.teardown() is None && !(action is Finish) ==> owed(after.phase).len()
                >= owed(machine.phase).len()
            &&& machine.phase == Phase::Stopping && machine.expects(event) ==> action
                == Action::<T>::RemoveContainer
            &&& action is Rejected ==> after == machine
        }),
{
    let (after, action) = machine.next(event);
    assert(action.teardown() is Some ==> owed(after.phase) =~= owed(machine.phase).drop_first());
}

/// A server that never accepts a connection is given up after exactly
/// [`MAX_ATTEMPTS`] attempts: while fewer have failed the machine asks for
/// another, [`RETRY_INTERVAL_MS`] milliseconds later, on the same port; when
/// the last one fails it turns to teardown with a timeout that holds the last
/// error.
pub proof fn lemma_connection_attempts_are_bounded<T>(
    machine: TemporaryPostgres<T>,
    reasons: Seq<String>,
)
    requires
        machine.wf(),
        machine.phase == Phase::Connecting,
        machine.attempts == 1,
        1 <= reasons.len() <= MAX_ATTEMPTS,
    ensures
        ({
            let before = after_failed_attempts(machine, reasons.drop_last());
            let (after, action) = before.next(Event::Failed(reasons.last()));
            &&& after == after_failed_attempts(machine, reasons)
            &&& before.wf() && before.phase == Phase::Connecting && before.attempts
                == reasons.len()
            &&& reasons.len() < MAX_ATTEMPTS ==> {
                &&& action == (Action::<T>::Connect {
                    port: machine.port,
                    wait_ms: RETRY_INTERVAL_MS,
                })
                &&& after.phase == Phase::Connecting
                &&& after.attempts == reasons.len() + 1
                &&& after.failure is None
            }
            &&& reasons.len() == MAX_ATTEMPTS ==> {
                &&& action == Action::<T>::StopContainer
                &&& after.phase == Phase::Stopping
                &&& after.failure == Some(
                    Failure::spec_first(Error::ConnectionTimeout(reasons.last())),
                )
                &&& after.next(Event::Succeeded).1 == Action::<T>::RemoveContainer
                &&& after.next(Event::Succeeded).0.next(Event::Succeeded).1 == Action::<
                    T,
                >::Finish(Err(Failure::spec_first(Error::ConnectionTimeout(reasons.last()))))
            }
        }),
    decreases reasons.len(),
{
    let earlier = reasons.drop_last();
    let before = after_failed_attempts(machine, earlier);
    lemma_port_is_kept(machine, earlier);
    if earlier.len() > 0 {
        lemma_connection_attempts_are_bounded(machine, earlier);
    }
}

/// Failed attempts do not change the port that was discovered.
proof fn lemma_port_is_kept<T>(machine: TemporaryPostgres<T>, reasons: Seq<String>)
    ensures
        after_failed_attempts(machine, reasons).port == machine.port,
    decreases reasons.len(),
{
    if reasons.len() > 0 {
        lemma_port_is_kept(machine, reasons.drop_last());
    }
}

/// What a task returns survives a clean teardown: once the task has
/// returned `value`, the container is stopped, then removed, and where both
/// go through the run ends with `Ok(value)`.
pub proof fn lemma_task_value_is_returned<T>(machine: TemporaryPostgres<T>, value: T)
    requires
        machine.wf(),
        machine.phase == Phase::Running,
    ensures
        ({
            let (first, stop) = machine.next(Event::Returned(value));
            let (second, remove) = first.next(Event::Succeeded);
            let (last, finish) = second.next(Event::Succeeded);
            &&& stop == Action::<T>::StopContainer
            &&& remove == Action::<T>::RemoveContainer
            &&& finish == Action::Finish(Ok::<T, Failure>(value))
            &&& last.phase == Phase::Finished
        }),
{
}

/// The earliest failure keeps its place: no later step replaces the error on
/// record, and a run that has a failure on record cannot end well.
pub proof fn lemma_earliest_failure_is_kept<T>(machine: TemporaryPostgres<T>, event: Event<T>)
    requires
        machine.wf(),
        machine.failure is Some,
    ensures
        ({
            let (after, action) = machine.next(event);
            let error = machine.failure->0.error;
            &&& !(action is Finish) ==> after.failure is Some && after.failure->0.error == error
            &&& action matches Action::Finish(result) ==> result is Err && result->Err_0.error
                == error
        }),
{
}

/// The task runs only on a connection that was opened, after every step of
/// the setup went through; a failed teardown is the reported error only
/// where nothing failed before it; and a run ends well only where the
/// container was removed and nothing but early connection attempts failed on
/// the way, with the value that the task returned.
pub proof fn lemma_task_runs_after_setup<T>(machine: TemporaryPostgres<T>, event: Event<T>)
    requires
        machine.wf(),
    ensures
        ({
            let (after, action) = machine.next(event);
            &&& action is RunTask ==> machine.phase == Phase::Connecting && event is Succeeded
                && after.failure is None && action->RunTask_port == machine.port
            &&& action matches Action::Finish(Err(failure)) ==> (failure.error is CleanupFailed
                ==> machine.failure is None || machine.failure->0.error is CleanupFailed)
            &&& action matches Action::Finish(Ok(value)) ==> machine.phase == Phase::Removing
                && event is Succeeded && machine.failure is None && machine.value == Some(value)
            &&& event is Failed && machine.expects(event) ==> after.failure is Some
                || action is Finish || (machine.phase == Phase::Connecting && machine.attempts
                < MAX_ATTEMPTS)
        }),
{
}

/// A lifecycle that has not seen any event yet.
pub open spec fn fresh<T>() -> TemporaryPostgres<T> {
    TemporaryPostgres { phase: Phase::Creating, port: 0, attempts: 0, value: None, failure: None }
}

/// The machine after `events`, fed in order to `machine`, and the actions it
/// asked for in answer to them.
pub open spec fn run<T>(machine: TemporaryPostgres<T>, events: Seq<Event<T>>) -> (
    TemporaryPostgres<T>,
    Seq<Action<T>>,
)
    decreases events.len(),
{
    if events.len() == 0 {
        (machine, Seq::empty())
    } else {
        let (before, actions) = run(machine, events.drop_last());
        let (after, action) = before.next(events.last());
        (after, actions.push(action))
    }
}

/// Wherever the removal stands among `actions`, a container that was
/// started before it (its start was followed by the listing) was also
/// stopped before it.
pub open spec fn stopped_before_removed<T>(actions: Seq<Action<T>>) -> bool {
    forall|i: int|
        0 <= i < actions.len() && #[trigger] actions[i] == Action::<T>::RemoveContainer
            && actions.take(i).contains(Action::InspectContainer) ==> actions.take(i).contains(
            Action::StopContainer,
        )
}

/// What the actions asked for so far say about the phase, and the phase
/// about them.
pub open spec fn consistent<T>(machine: TemporaryPostgres<T>, actions: Seq<Action<T>>) -> bool {
    let created = actions.contains(Action::StartContainer);
    let started = actions.contains(Action::InspectContainer);
    let stopped = actions.contains(Action::StopContainer);
    let removed = actions.contains(Action::RemoveContainer);
    &&& machine.wf()
    &&& stopped_before_removed(actions)
    &&& match machine.phase {
        Phase::Creating => !created && !started && !stopped && !removed,
        Phase::Starting => created && !started && !stopped && !removed,
        Phase::Inspecting | Phase::Connecting | Phase::Running => created && started && !stopped
            && !removed,
        Phase::Stopping => created && started && stopped && !removed,
        Phase::Removing | Phase::Finished => (created ==> removed) && (started ==> stopped),
    }
}

proof fn lemma_contains_after_push<T>(actions: Seq<Action<T>>, action: Action<T>, wanted: Action<T>)
    ensures
        actions.push(action).contains(wanted) <==> actions.contains(wanted) || action == wanted,
{
    let pushed = actions.push(action);
    if actions.contains(wanted) {
        let i = choose|i: int| 0 <= i < actions.len() && actions[i] == wanted;
        assert(pushed[i] == wanted);
    }
    if action == wanted {
        assert(pushed[actions.len() as int] == wanted);
    }
    if pushed.contains(wanted) {
        let i = choose|i: int| 0 <= i < pushed.len() && pushed[i] == wanted;
        if i < actions.len() {
            assert(actions[i] == wanted);
        }
    }
}

proof fn lemma_step_keeps_consistency<T>(
    machine: TemporaryPostgres<T>,
    actions: Seq<Action<T>>,
    event: Event<T>,
)
    requires
        consistent(machine, actions),
    ensures
        consistent(machine.next(event).0, actions.push(machine.next(event).1)),
{
    let (after, action) = machine.next(event);
    let pushed = actions.push(action);
    lemma_contains_after_push(actions, action, Action::StartContainer);
    lemma_contains_after_push(actions, action, Action::InspectContainer);
    lemma_contains_after_push(actions, action, Action::StopContainer);
    lemma_contains_after_push(actions, action, Action::RemoveContainer);
    assert forall|i: int|
        0 <= i < pushed.len() && #[trigger] pushed[i] == Action::<T>::RemoveContainer
            && pushed.take(i).contains(Action::InspectContainer) implies pushed.take(i).contains(
        Action::StopContainer,
    ) by {
        if i < actions.len() {
            assert(pushed.take(i) =~= actions.take(i));
            assert(actions[i] == pushed[i]);
        } else {
            assert(pushed.take(i) =~= actions);
        }
    }
}

/// Whatever the collaborators answer, from the first event on: the removal
/// of a container that was started is never asked for before its stop, and a
/// run that has ended has asked for the removal if the container was created
/// (the start is only asked for once it was) and for the stop if it was
/// started (the listing is only asked for once it was).
pub proof fn lemma_run_leaves_nothing_behind<T>(events: Seq<Event<T>>)
    ensures
        ({
            let (machine, actions) = run(fresh::<T>(), events);
            &&& machine.wf()
            &&& actions.len() == events.len()
            &&& stopped_before_removed(actions)
            &&& machine.phase == Phase::Finished ==> {
                &&& actions.contains(Action::StartContainer) ==> actions.contains(
                    Action::RemoveContainer,
                )
                &&& actions.contains(Action::InspectContainer) ==> actions.contains(
                    Action::StopContainer,
                )
            }
            &&& consistent(machine, actions)
        }),
    decreases events.len(),
{
    if events.len() == 0 {
        let actions = Seq::<Action<T>>::empty();
        assert(consistent(fresh::<T>(), actions));
    } else {
        lemma_run_leaves_nothing_behind(events.drop_last());
        let (before, actions) = run(fresh::<T>(), events.drop_last());
        lemma_step_keeps_consistency(before, actions, events.last());
    }
}

} // verus!
