use kpg_fixture::error::{Error, Failure};
use kpg_fixture::server::{
    find_published_port, Action, Event, Phase, PortMapping, TemporaryPostgres, IMAGE,
    MAX_ATTEMPTS, RETRY_INTERVAL_MS, SERVER_PORT, STOP_GRACE_SECS,
};

fn drive_server<T>(events: Vec<Event<T>>) -> (TemporaryPostgres<T>, Vec<Action<T>>) {
    let (mut machine, first) = TemporaryPostgres::begin();
    let mut actions = vec![first];
    for event in events {
        let (next, action) = machine.step(event);
        machine = next;
        actions.push(action);
    }
    (machine, actions)
}

fn server_failed<T>(message: &str) -> Event<T> {
    Event::Failed(message.to_string())
}

fn only(error: Error) -> Failure {
    Failure { error, inner_cleanup: None, outer_cleanup: None }
}

fn published(private_port: u16, public_port: u16) -> PortMapping {
    PortMapping { private_port, public_port: Some(public_port) }
}

#[test]
fn constants() {
    assert_eq!(IMAGE, "postgres:11");
    assert_eq!(SERVER_PORT, 5432);
    assert_eq!(MAX_ATTEMPTS, 100);
    assert_eq!(RETRY_INTERVAL_MS, 100);
    assert_eq!(STOP_GRACE_SECS, 5);
}

#[test]
fn first_published_mapping_wins() {
    let ports = vec![
        published(80, 8080),
        PortMapping { private_port: 5432, public_port: None },
        published(5432, 32768),
        published(5432, 32769),
    ];
    assert_eq!(find_published_port(&ports, 5432), Some(32768));
    assert_eq!(find_published_port(&ports, 80), Some(8080));
    assert_eq!(find_published_port(&ports, 443), None);
    assert_eq!(find_published_port(&Vec::new(), 5432), None);
    assert_eq!(
        find_published_port(&vec![PortMapping { private_port: 5432, public_port: None }], 5432),
        None
    );
}

#[test]
fn temp_pg() {
    let task: Result<(), Error> = Ok(());
    let (machine, actions) = drive_server(vec![
        Event::Succeeded,
        Event::Succeeded,
        Event::Listed(vec![published(5432, 32768)]),
        server_failed("starting up"),
        Event::Succeeded,
        Event::Returned(task),
        Event::Succeeded,
        Event::Succeeded,
    ]);
    assert_eq!(machine.phase, Phase::Finished);
    assert_eq!(
        actions,
        vec![
            Action::CreateContainer,
            Action::StartContainer,
            Action::InspectContainer,
            Action::Connect { port: 32768, wait_ms: 0 },
            Action::Connect { port: 32768, wait_ms: 100 },
            Action::RunTask { port: 32768 },
            Action::StopContainer,
            Action::RemoveContainer,
            Action::Finish(Ok(Ok(()))),
        ]
    );
}

#[test]
fn creation_failure_ends_the_run() {
    let (machine, actions) = drive_server::<u8>(vec![server_failed("no such image")]);
    assert_eq!(machine.phase, Phase::Finished);
    assert_eq!(
        actions,
        vec![
            Action::CreateContainer,
            Action::Finish(Err(only(Error::ContainerCreationFailed("no such image".to_string())))),
        ]
    );
}

#[test]
fn start_failure_removes_the_container() {
    let (_, actions) = drive_server::<u8>(vec![
        Event::Succeeded,
        server_failed("port taken"),
        server_failed("busy"),
    ]);
    assert_eq!(
        actions,
        vec![
            Action::CreateContainer,
            Action::StartContainer,
            Action::RemoveContainer,
            Action::Finish(Err(Failure {
                error: Error::ContainerStartFailed("port taken".to_string()),
                inner_cleanup: None,
                outer_cleanup: Some(Error::CleanupFailed("busy".to_string())),
            })),
        ]
    );
}

#[test]
fn missing_port_stops_and_removes() {
    let (_, actions) = drive_server::<u8>(vec![
        Event::Succeeded,
        Event::Succeeded,
        Event::Listed(vec![published(80, 8080)]),
        Event::Succeeded,
        Event::Succeeded,
    ]);
    assert_eq!(
        actions[3..],
        [
            Action::StopContainer,
            Action::RemoveContainer,
            Action::Finish(Err(only(Error::PortDiscoveryFailed(None)))),
        ]
    );
}

#[test]
fn failed_listing_stops_and_removes() {
    let (_, actions) = drive_server::<u8>(vec![
        Event::Succeeded,
        Event::Succeeded,
        server_failed("daemon gone"),
        Event::Succeeded,
        Event::Succeeded,
    ]);
    assert_eq!(
        actions[3..],
        [
            Action::StopContainer,
            Action::RemoveContainer,
            Action::Finish(Err(only(Error::PortDiscoveryFailed(Some("daemon gone".to_string()))))),
        ]
    );
}

#[test]
fn unreachable_server_times_out_after_one_hundred_attempts() {
    let mut events: Vec<Event<u8>> = vec![
        Event::Succeeded,
        Event::Succeeded,
        Event::Listed(vec![published(5432, 40000)]),
    ];
    for n in 1..=100 {
        events.push(server_failed(&format!("refused {}", n)));
    }
    events.push(Event::Succeeded);
    events.push(Event::Succeeded);
    let (machine, actions) = drive_server(events);
    assert_eq!(machine.phase, Phase::Finished);
    let attempts: Vec<&Action<u8>> =
        actions.iter().filter(|a| matches!(a, Action::Connect { .. })).collect();
    assert_eq!(attempts.len(), 100);
    let mut waited: u64 = 0;
    for attempt in attempts {
        match attempt {
            Action::Connect { port, wait_ms } => {
                assert_eq!(*port, 40000);
                waited += *wait_ms;
            }
            _ => unreachable!(),
        }
    }
    assert_eq!(waited, 9900);
    assert_eq!(actions[3], Action::Connect { port: 40000, wait_ms: 0 });
    assert_eq!(actions[102], Action::Connect { port: 40000, wait_ms: 100 });
    assert_eq!(actions[103], Action::StopContainer);
    assert_eq!(actions[104], Action::RemoveContainer);
    assert_eq!(
        actions[105],
        Action::Finish(Err(only(Error::ConnectionTimeout("refused 100".to_string()))))
    );
    assert!(!actions.iter().any(|a| matches!(a, Action::RunTask { .. })));
}

#[test]
fn server_reached_at_the_last_attempt() {
    let mut events: Vec<Event<u8>> = vec![
        Event::Succeeded,
        Event::Succeeded,
        Event::Listed(vec![published(5432, 40000)]),
    ];
    for _ in 1..100 {
        events.push(server_failed("refused"));
    }
    events.push(Event::Succeeded);
    let (machine, actions) = drive_server(events);
    assert_eq!(machine.phase, Phase::Running);
    assert_eq!(machine.attempts, 100);
    assert_eq!(actions.last(), Some(&Action::RunTask { port: 40000 }));
}

#[test]
fn container_is_removed_even_when_stopping_fails() {
    let (_, actions) = drive_server(vec![
        Event::Succeeded,
        Event::Succeeded,
        Event::Listed(vec![published(5432, 40000)]),
        Event::Succeeded,
        Event::Returned(3u8),
        server_failed("will not stop"),
        Event::Succeeded,
    ]);
    assert_eq!(actions[5], Action::StopContainer);
    assert_eq!(actions[6], Action::RemoveContainer);
    assert_eq!(
        actions[7],
        Action::Finish(Err(only(Error::CleanupFailed("will not stop".to_string()))))
    );
}

#[test]
fn failing_server_task_is_returned_after_teardown() {
    let task: Result<u8, String> = Err("query failed".to_string());
    let (_, actions) = drive_server(vec![
        Event::Succeeded,
        Event::Succeeded,
        Event::Listed(vec![published(5432, 40000)]),
        Event::Succeeded,
        Event::Returned(task),
        Event::Succeeded,
        Event::Succeeded,
    ]);
    assert_eq!(actions[5], Action::StopContainer);
    assert_eq!(actions[6], Action::RemoveContainer);
    assert_eq!(actions[7], Action::Finish(Ok(Err("query failed".to_string()))));
}

#[test]
fn server_rejects_events_that_answer_nothing() {
    let (machine, _) = TemporaryPostgres::<u8>::begin();
    assert!(!machine.accepts(&Event::Listed(Vec::new())));
    assert!(!machine.accepts(&Event::Returned(0)));
    assert!(machine.accepts(&Event::Succeeded));
    let (machine, action) = machine.step(Event::Listed(Vec::new()));
    assert_eq!(action, Action::Rejected);
    assert_eq!(machine.phase, Phase::Creating);
    let (machine, _) = machine.step(Event::Succeeded);
    let (machine, _) = machine.step(Event::Succeeded);
    assert_eq!(machine.phase, Phase::Inspecting);
    assert!(!machine.accepts(&Event::Succeeded));
    let (machine, action) = machine.step(Event::Succeeded);
    assert_eq!(action, Action::Rejected);
    assert_eq!(machine.phase, Phase::Inspecting);
}
