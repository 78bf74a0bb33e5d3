use light_poller::config::Config;
use light_poller::error::RunError;
use light_poller::replay::replay;
use light_poller::run::{Action, Awaiting, Event, State};
use light_poller::scanner::{find_light, Advertisement};

fn config(read_count: u32) -> Config {
    Config { read_count, ..Config::default() }
}

fn advertisement(name: &str) -> Advertisement {
    Advertisement::Received { local_name: Some(name.to_string()) }
}

fn named(name: &str) -> Event {
    Event::Properties(advertisement(name))
}

fn reads(actions: &[Action]) -> usize {
    actions.iter().filter(|action| matches!(action, Action::Read { .. })).count()
}

fn emitted(actions: &[Action]) -> Vec<Vec<u8>> {
    let mut values: Vec<Vec<u8>> = Vec::new();
    for action in actions {
        if let Action::Emit { value, .. } = action {
            values.push(value.clone());
        }
    }
    values
}

fn connects(actions: &[Action]) -> usize {
    actions.iter().filter(|action| matches!(action, Action::Connect { .. })).count()
}

/// The events up to the first read, for a peripheral list of two names of
/// which the second matches, and a characteristic list that holds the target.
fn up_to_polling() -> Vec<Event> {
    vec![
        Event::AdaptersListed { count: 1 },
        Event::PeripheralsListed { count: 2 },
        named("OtherDevice"),
        named("ChoiceMMed-1234"),
        Event::ConnectionOpened,
        Event::ServicesDiscovered,
        Event::CharacteristicsListed { uuids: vec![0x1800, Config::default().target_uuid] },
    ]
}

#[test]
fn run_with_three_good_reads_completes() {
    let mut events = up_to_polling();
    for _ in 0..3 {
        events.push(Event::ReadCompleted { value: vec![0x01] });
        events.push(Event::DelayElapsed);
    }
    let trace = replay(&config(3), events);
    assert_eq!(trace.state, State::Done);
    assert_eq!(
        trace.actions,
        vec![
            Action::EnumerateAdapters,
            Action::Scan { adapter: 0, duration: 2000 },
            Action::FetchProperties { peripheral: 0 },
            Action::FetchProperties { peripheral: 1 },
            Action::Connect { peripheral: 1 },
            Action::DiscoverServices { peripheral: 1 },
            Action::ListCharacteristics { peripheral: 1 },
            Action::Read { peripheral: 1, characteristic: 1 },
            Action::Emit { value: vec![0x01], delay: 200 },
            Action::Read { peripheral: 1, characteristic: 1 },
            Action::Emit { value: vec![0x01], delay: 200 },
            Action::Read { peripheral: 1, characteristic: 1 },
            Action::Emit { value: vec![0x01], delay: 200 },
            Action::Finish,
        ]
    );
    assert_eq!(reads(&trace.actions), 3);
    assert_eq!(emitted(&trace.actions), vec![vec![0x01u8], vec![0x01], vec![0x01]]);
}

#[test]
fn run_without_a_matching_name_fails_before_any_read() {
    let events = vec![
        Event::AdaptersListed { count: 1 },
        Event::PeripheralsListed { count: 1 },
        named("OtherDevice"),
        Event::ConnectionOpened,
        Event::ReadCompleted { value: vec![0x01] },
    ];
    let trace = replay(&config(3), events);
    assert_eq!(trace.state, State::Failed { reason: RunError::NoMatchFound });
    assert_eq!(
        trace.actions,
        vec![
            Action::EnumerateAdapters,
            Action::Scan { adapter: 0, duration: 2000 },
            Action::FetchProperties { peripheral: 0 },
            Action::Fail { reason: RunError::NoMatchFound },
        ]
    );
    assert_eq!(reads(&trace.actions), 0);
    assert_eq!(connects(&trace.actions), 0);
}

#[test]
fn run_without_the_characteristic_fails_before_any_read() {
    let events = vec![
        Event::AdaptersListed { count: 1 },
        Event::PeripheralsListed { count: 2 },
        named("OtherDevice"),
        named("ChoiceMMed-1234"),
        Event::ConnectionOpened,
        Event::ServicesDiscovered,
        Event::CharacteristicsListed { uuids: vec![0x1800, 0x1801] },
        Event::ReadCompleted { value: vec![0x01] },
    ];
    let trace = replay(&config(3), events);
    assert_eq!(trace.state, State::Failed { reason: RunError::CharacteristicNotFound });
    assert_eq!(trace.actions.last(), Some(&Action::Fail { reason: RunError::CharacteristicNotFound }));
    assert_eq!(reads(&trace.actions), 0);
    assert!(emitted(&trace.actions).is_empty());
    assert_eq!(connects(&trace.actions), 1);
}

#[test]
fn run_stops_at_the_first_failed_read() {
    let mut events = up_to_polling();
    events.push(Event::ReadCompleted { value: vec![0x00] });
    events.push(Event::DelayElapsed);
    events.push(Event::ReadCompleted { value: vec![0x01] });
    events.push(Event::DelayElapsed);
    events.push(Event::ReadFailed);
    events.push(Event::DelayElapsed);
    events.push(Event::ReadCompleted { value: vec![0x02] });
    events.push(Event::DelayElapsed);
    let trace = replay(&config(20), events);
    assert_eq!(trace.state, State::Failed { reason: RunError::Read });
    assert_eq!(emitted(&trace.actions), vec![vec![0x00u8], vec![0x01]]);
    assert_eq!(reads(&trace.actions), 3);
    assert_eq!(trace.actions.last(), Some(&Action::Fail { reason: RunError::Read }));
    assert_eq!(trace.actions.len(), 7 + 6);
}

#[test]
fn run_with_default_options_reads_twenty_times() {
    let mut events = up_to_polling();
    for round in 0..25u8 {
        events.push(Event::ReadCompleted { value: vec![round] });
        events.push(Event::DelayElapsed);
    }
    let trace = replay(&Config::default(), events);
    assert_eq!(trace.state, State::Done);
    assert_eq!(reads(&trace.actions), 20);
    let values = emitted(&trace.actions);
    assert_eq!(values.len(), 20);
    for (round, value) in values.iter().enumerate() {
        assert_eq!(value, &vec![round as u8]);
    }
}

#[test]
fn run_in_progress_has_asked_for_one_read_more_than_it_has_values() {
    let mut events = up_to_polling();
    events.push(Event::ReadCompleted { value: vec![9] });
    events.push(Event::DelayElapsed);
    let trace = replay(&config(5), events);
    assert_eq!(
        trace.state,
        State::Polling { peripheral: 1, characteristic: 1, completed: 1, awaiting: Awaiting::Read }
    );
    assert_eq!(reads(&trace.actions), 2);
    assert_eq!(emitted(&trace.actions).len(), 1);
}

#[test]
fn run_without_events_has_only_asked_for_the_adapters() {
    let trace = replay(&config(3), Vec::new());
    assert_eq!(trace.state, State::Idle);
    assert_eq!(trace.actions, vec![Action::EnumerateAdapters]);
}

#[test]
fn run_without_an_adapter_fails_at_once() {
    let trace = replay(
        &config(3),
        vec![Event::AdaptersListed { count: 0 }, Event::PeripheralsListed { count: 2 }],
    );
    assert_eq!(trace.state, State::Failed { reason: RunError::NoAdapter });
    assert_eq!(
        trace.actions,
        vec![Action::EnumerateAdapters, Action::Fail { reason: RunError::NoAdapter }]
    );
}

#[test]
fn run_fails_where_the_link_or_the_discovery_fails() {
    let mut events = up_to_polling();
    events.truncate(4);
    events.push(Event::ConnectionFailed);
    events.push(Event::ServicesDiscovered);
    let trace = replay(&config(3), events);
    assert_eq!(trace.state, State::Failed { reason: RunError::Connection });
    assert_eq!(reads(&trace.actions), 0);

    let mut events = up_to_polling();
    events.truncate(5);
    events.push(Event::DiscoveryFailed);
    events.push(Event::CharacteristicsListed { uuids: vec![Config::default().target_uuid] });
    let trace = replay(&config(3), events);
    assert_eq!(trace.state, State::Failed { reason: RunError::Discovery });
    assert_eq!(reads(&trace.actions), 0);
}

#[test]
fn characteristics_are_not_looked_up_before_discovery() {
    let events = vec![
        Event::AdaptersListed { count: 1 },
        Event::PeripheralsListed { count: 1 },
        named("ChoiceMMed-1234"),
        Event::ConnectionOpened,
        Event::CharacteristicsListed { uuids: vec![Config::default().target_uuid] },
    ];
    let trace = replay(&config(3), events);
    assert_eq!(trace.state, State::Connected { peripheral: 0 });
    assert_eq!(reads(&trace.actions), 0);
    assert_eq!(trace.actions.last(), Some(&Action::DiscoverServices { peripheral: 0 }));
}

#[test]
fn no_read_is_asked_for_before_the_characteristic_is_found() {
    let events = vec![
        Event::ReadCompleted { value: vec![1] },
        Event::AdaptersListed { count: 1 },
        Event::DelayElapsed,
        Event::PeripheralsListed { count: 1 },
        Event::ReadCompleted { value: vec![1] },
        named("ChoiceMMed-1234"),
        Event::DelayElapsed,
        Event::ConnectionOpened,
        Event::ReadCompleted { value: vec![1] },
        Event::ServicesDiscovered,
        Event::DelayElapsed,
    ];
    let trace = replay(&config(3), events);
    assert_eq!(trace.state, State::ServicesResolved { peripheral: 0 });
    assert_eq!(reads(&trace.actions), 0);
    assert!(emitted(&trace.actions).is_empty());
}

#[test]
fn scan_by_steps_agrees_with_find_light() {
    let lists: Vec<Vec<Advertisement>> = vec![
        Vec::new(),
        vec![advertisement("OtherDevice"), advertisement("ChoiceMMed-1234")],
        vec![advertisement("OtherDevice")],
        vec![advertisement("a"), Advertisement::Unavailable, advertisement("choicemmed")],
        vec![advertisement("choicemmed"), Advertisement::Unavailable],
        vec![Advertisement::Received { local_name: None }, advertisement("CHOICEMMED")],
    ];
    for list in lists {
        let mut events = vec![
            Event::AdaptersListed { count: 1 },
            Event::PeripheralsListed { count: list.len() },
        ];
        for entry in list.iter() {
            events.push(Event::Properties(entry.clone()));
        }
        let trace = replay(&config(3), events);
        let expected = match find_light(&list, "choicemmed") {
            Ok(Some(peripheral)) => State::PeripheralFound { peripheral },
            Ok(None) => State::Failed { reason: RunError::NoMatchFound },
            Err(reason) => State::Failed { reason },
        };
        assert_eq!(trace.state, expected);
    }
}
