use kpg_fixture::database::{Action, Event, Phase, TemporaryDatabase};
use kpg_fixture::error::{Error, Failure};
use kpg_fixture::sql::Statement;

/// Feeds `events` to a new machine and returns every action it asked for.
fn drive<T>(events: Vec<Event<T>>) -> (TemporaryDatabase<T>, Vec<Action<T>>) {
    let (mut machine, first) = TemporaryDatabase::begin();
    let mut actions = vec![first];
    for event in events {
        let (next, action) = machine.step(event);
        machine = next;
        actions.push(action);
    }
    (machine, actions)
}

fn failed<T>(message: &str) -> Event<T> {
    Event::Failed(message.to_string())
}

fn protocol(message: &str) -> Error {
    Error::DatabaseProtocolError(message.to_string())
}

fn cleanup(message: &str) -> Error {
    Error::CleanupFailed(message.to_string())
}

#[test]
fn temp_db() {
    let task: Result<(), Error> = Ok(());
    let (machine, actions) = drive(vec![
        Event::Succeeded,
        Event::Succeeded,
        Event::Succeeded,
        Event::Succeeded,
        Event::Returned(task),
        Event::Succeeded,
        Event::Succeeded,
    ]);
    assert_eq!(machine.phase, Phase::Finished);
    assert_eq!(
        actions,
        vec![
            Action::Connect,
            Action::Execute(Statement::CreateRole),
            Action::Execute(Statement::CreateDatabase),
            Action::Execute(Statement::RevokePublic),
            Action::RunTask,
            Action::Execute(Statement::DropDatabase),
            Action::Execute(Statement::DropRole),
            Action::Finish(Ok(Ok(()))),
        ]
    );
}

#[test]
fn failing_task_is_returned_after_teardown() {
    let task: Result<(), String> = Err("table missing".to_string());
    let (machine, actions) = drive(vec![
        Event::Succeeded,
        Event::Succeeded,
        Event::Succeeded,
        Event::Succeeded,
        Event::Returned(task),
        Event::Succeeded,
        Event::Succeeded,
    ]);
    assert_eq!(machine.phase, Phase::Finished);
    assert_eq!(actions[5], Action::Execute(Statement::DropDatabase));
    assert_eq!(actions[6], Action::Execute(Statement::DropRole));
    assert_eq!(actions[7], Action::Finish(Ok(Err("table missing".to_string()))));
}

#[test]
fn connect_failure_ends_the_run() {
    let (machine, actions) = drive::<u8>(vec![failed("refused")]);
    assert_eq!(machine.phase, Phase::Finished);
    assert_eq!(
        actions,
        vec![
            Action::Connect,
            Action::Finish(Err(Failure {
                error: protocol("refused"),
                inner_cleanup: None,
                outer_cleanup: None,
            })),
        ]
    );
}

#[test]
fn role_creation_failure_needs_no_teardown() {
    let (_, actions) = drive::<u8>(vec![Event::Succeeded, failed("role exists")]);
    assert_eq!(
        actions[2],
        Action::Finish(Err(Failure {
            error: protocol("role exists"),
            inner_cleanup: None,
            outer_cleanup: None,
        }))
    );
    assert_eq!(actions.len(), 3);
}

#[test]
fn database_creation_failure_drops_the_role() {
    let (machine, actions) = drive::<u8>(vec![
        Event::Succeeded,
        Event::Succeeded,
        failed("disk full"),
        Event::Succeeded,
    ]);
    assert_eq!(machine.phase, Phase::Finished);
    assert_eq!(
        actions,
        vec![
            Action::Connect,
            Action::Execute(Statement::CreateRole),
            Action::Execute(Statement::CreateDatabase),
            Action::Execute(Statement::DropRole),
            Action::Finish(Err(Failure {
                error: protocol("disk full"),
                inner_cleanup: None,
                outer_cleanup: None,
            })),
        ]
    );
}

#[test]
fn revoke_failure_drops_database_then_role() {
    let (_, actions) = drive::<u8>(vec![
        Event::Succeeded,
        Event::Succeeded,
        Event::Succeeded,
        failed("no such database"),
        Event::Succeeded,
        Event::Succeeded,
    ]);
    assert_eq!(actions[4], Action::Execute(Statement::DropDatabase));
    assert_eq!(actions[5], Action::Execute(Statement::DropRole));
    assert_eq!(
        actions[6],
        Action::Finish(Err(Failure {
            error: protocol("no such database"),
            inner_cleanup: None,
            outer_cleanup: None,
        }))
    );
    assert!(!actions.contains(&Action::RunTask));
}

#[test]
fn role_is_dropped_even_when_dropping_the_database_fails() {
    let (_, actions) = drive(vec![
        Event::Succeeded,
        Event::Succeeded,
        Event::Succeeded,
        Event::Succeeded,
        Event::Returned(5u8),
        failed("database in use"),
        Event::Succeeded,
    ]);
    assert_eq!(actions[6], Action::Execute(Statement::DropRole));
    assert_eq!(
        actions[7],
        Action::Finish(Err(Failure {
            error: cleanup("database in use"),
            inner_cleanup: None,
            outer_cleanup: None,
        }))
    );
}

#[test]
fn teardown_failures_are_attached_to_the_earlier_failure() {
    let (_, actions) = drive::<u8>(vec![
        Event::Succeeded,
        Event::Succeeded,
        Event::Succeeded,
        failed("revoke refused"),
        failed("database in use"),
        failed("role in use"),
    ]);
    assert_eq!(
        actions[6],
        Action::Finish(Err(Failure {
            error: protocol("revoke refused"),
            inner_cleanup: Some(cleanup("database in use")),
            outer_cleanup: Some(cleanup("role in use")),
        }))
    );
}

#[test]
fn second_teardown_failure_follows_the_first() {
    let (_, actions) = drive(vec![
        Event::Succeeded,
        Event::Succeeded,
        Event::Succeeded,
        Event::Succeeded,
        Event::Returned(1u8),
        failed("database in use"),
        failed("role in use"),
    ]);
    assert_eq!(
        actions[7],
        Action::Finish(Err(Failure {
            error: cleanup("database in use"),
            inner_cleanup: None,
            outer_cleanup: Some(cleanup("role in use")),
        }))
    );
}

#[test]
fn drop_role_failure_alone_is_reported() {
    let (_, actions) = drive(vec![
        Event::Succeeded,
        Event::Succeeded,
        Event::Succeeded,
        Event::Succeeded,
        Event::Returned(1u8),
        Event::Succeeded,
        failed("role in use"),
    ]);
    assert_eq!(
        actions[7],
        Action::Finish(Err(Failure {
            error: cleanup("role in use"),
            inner_cleanup: None,
            outer_cleanup: None,
        }))
    );
}

#[test]
fn database_is_always_dropped_before_the_role() {
    let scripts: Vec<Vec<Event<u8>>> = vec![
        vec![Event::Succeeded, Event::Succeeded, Event::Succeeded, Event::Succeeded,
             Event::Returned(0), Event::Succeeded, Event::Succeeded],
        vec![Event::Succeeded, Event::Succeeded, Event::Succeeded, Event::Succeeded,
             Event::Returned(0), failed("x"), failed("y")],
        vec![Event::Succeeded, Event::Succeeded, Event::Succeeded, failed("x"),
             Event::Succeeded, Event::Succeeded],
    ];
    for script in scripts {
        let (_, actions) = drive(script);
        let database = actions
            .iter()
            .position(|a| *a == Action::Execute(Statement::DropDatabase))
            .unwrap();
        let role = actions
            .iter()
            .position(|a| *a == Action::Execute(Statement::DropRole))
            .unwrap();
        assert!(database < role);
        assert_eq!(role, database + 1);
    }
}

#[test]
fn events_that_answer_nothing_are_rejected() {
    let (machine, _) = TemporaryDatabase::<u8>::begin();
    assert!(!machine.accepts(&Event::Returned(1)));
    assert!(machine.accepts(&Event::Succeeded));
    let (machine, action) = machine.step(Event::Returned(1));
    assert_eq!(action, Action::Rejected);
    assert_eq!(machine.phase, Phase::Connecting);

    let (machine, actions) = drive::<u8>(vec![failed("refused")]);
    assert_eq!(actions.len(), 2);
    assert!(!machine.accepts(&Event::Succeeded));
    let (machine, action) = machine.step(Event::Succeeded);
    assert_eq!(action, Action::Rejected);
    assert_eq!(machine.phase, Phase::Finished);

    let (machine, _) = drive::<u8>(vec![
        Event::Succeeded,
        Event::Succeeded,
        Event::Succeeded,
        Event::Succeeded,
    ]);
    assert_eq!(machine.phase, Phase::Running);
    assert!(!machine.accepts(&Event::Succeeded));
    let (machine, action) = machine.step(failed("x"));
    assert_eq!(action, Action::Rejected);
    assert_eq!(machine.phase, Phase::Running);
}
