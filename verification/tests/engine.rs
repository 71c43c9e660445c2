use networkless::engine::{
    on_signal, Command, Engine, FailurePolicy, Signal, SignalSource, FIRST_PRIMARY_LISTENER,
    QUEUE_CAPACITY,
};
use networkless::event::Event;
use networkless::service::{Failure, Outcome};

/// The listeners that run once every command has been carried out.
fn engine_listeners(commands: &[Command]) -> Vec<u64> {
    let mut running: Vec<u64> = Vec::new();
    for command in commands {
        match command {
            Command::Spawn { id, .. } => running.push(*id),
            Command::Cancel { id } => running.retain(|other| other != id),
            _ => {}
        }
    }
    running
}

#[test]
fn engine_starts_one_listener_on_each_source_and_the_dispatcher() {
    let (engine, commands) = Engine::start(FailurePolicy::Stop);
    assert!(engine.is_running());
    assert_eq!(engine.primary_listener(), FIRST_PRIMARY_LISTENER);
    assert_eq!(
        commands,
        vec![
            Command::Spawn { id: 0, source: SignalSource::NetworkState },
            Command::Spawn { id: 1, source: SignalSource::DeviceAdded },
            Command::Spawn { id: 2, source: SignalSource::DeviceRemoved },
            Command::Spawn { id: 3, source: SignalSource::PrimaryConnection },
            Command::StartDispatcher,
        ]
    );
}

#[test]
fn queues_hold_thirty_two_entries() {
    assert_eq!(QUEUE_CAPACITY, 32);
}

#[test]
fn init_brings_a_pass_and_keeps_the_listeners() {
    let (mut engine, _) = Engine::start(FailurePolicy::Stop);
    assert_eq!(engine.on_event(Event::Init), vec![Command::Reconcile]);
    assert_eq!(engine.primary_listener(), 3);
    assert!(engine.is_running());
}

#[test]
fn update_cancels_the_primary_listener_once_and_spawns_one() {
    let (mut engine, _) = Engine::start(FailurePolicy::Stop);
    let commands = engine.on_event(Event::Update);
    assert_eq!(
        commands,
        vec![
            Command::Cancel { id: 3 },
            Command::Spawn { id: 4, source: SignalSource::PrimaryConnection },
            Command::Reconcile,
        ]
    );
    assert_eq!(engine.primary_listener(), 4);
    let cancels = commands.iter().filter(|c| matches!(c, Command::Cancel { .. })).count();
    let spawns = commands.iter().filter(|c| matches!(c, Command::Spawn { .. })).count();
    assert_eq!((cancels, spawns), (1, 1));
}

#[test]
fn four_listeners_run_after_any_row_of_events() {
    let (mut engine, mut commands) = Engine::start(FailurePolicy::Retry);
    let events = [
        Event::Init,
        Event::Update,
        Event::Update,
        Event::Init,
        Event::Update,
        Event::Update,
        Event::Update,
    ];
    for event in events {
        commands.extend(engine.on_event(event));
        commands.extend(engine.on_pass_finished(Outcome::Failed(Failure::Read)));
        let mut running = engine_listeners(&commands);
        running.sort();
        assert_eq!(running, vec![0, 1, 2, engine.primary_listener()]);
    }
    assert_eq!(engine.primary_listener(), 8);
}

#[test]
fn shutdown_ends_the_loop() {
    let (mut engine, _) = Engine::start(FailurePolicy::Stop);
    assert_eq!(engine.on_event(Event::Shutdown), vec![Command::Stop]);
    assert!(!engine.is_running());
    assert_eq!(engine.on_event(Event::Update), vec![]);
    assert_eq!(engine.on_event(Event::Init), vec![]);
    assert_eq!(engine.on_event(Event::Shutdown), vec![]);
    assert_eq!(engine.on_pass_finished(Outcome::Failed(Failure::Read)), vec![]);
    assert_eq!(engine.primary_listener(), 3);
}

#[test]
fn failed_pass_ends_the_loop_under_the_stop_policy() {
    let (mut engine, _) = Engine::start(FailurePolicy::Stop);
    assert_eq!(engine.on_pass_finished(Outcome::Completed), vec![]);
    assert!(engine.is_running());
    assert_eq!(engine.on_pass_finished(Outcome::Failed(Failure::Read)), vec![Command::Stop]);
    assert!(!engine.is_running());
}

#[test]
fn failed_pass_is_retried_under_the_retry_policy() {
    let (mut engine, _) = Engine::start(FailurePolicy::Retry);
    assert_eq!(engine.on_pass_finished(Outcome::Failed(Failure::Read)), vec![]);
    assert!(engine.is_running());
    assert_eq!(
        engine.on_event(Event::Update),
        vec![
            Command::Cancel { id: 3 },
            Command::Spawn { id: 4, source: SignalSource::PrimaryConnection },
            Command::Reconcile,
        ]
    );
}

#[test]
fn every_readable_signal_asks_for_a_pass() {
    assert_eq!(on_signal(&Signal::StateChanged(Some(70))), Some(Event::Update));
    assert_eq!(on_signal(&Signal::StateChanged(Some(0))), Some(Event::Update));
    assert_eq!(on_signal(&Signal::DeviceAdded(Some("/dev/1".to_string()))), Some(Event::Update));
    assert_eq!(on_signal(&Signal::DeviceRemoved(Some("/dev/1".to_string()))), Some(Event::Update));
    assert_eq!(on_signal(&Signal::ConnectionStateChanged(Some(2))), Some(Event::Update));
}

#[test]
fn unreadable_signal_ends_the_listener() {
    assert_eq!(on_signal(&Signal::StateChanged(None)), None);
    assert_eq!(on_signal(&Signal::DeviceAdded(None)), None);
    assert_eq!(on_signal(&Signal::DeviceRemoved(None)), None);
    assert_eq!(on_signal(&Signal::ConnectionStateChanged(None)), None);
}
