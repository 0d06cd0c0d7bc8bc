use wayland_submitter::errors::FatalError;
use wayland_submitter::registry::{resolve, GlobalEntry, GlobalSnapshot, QueueEvent};

fn global(name: u32, interface: &str, version: u32) -> QueueEvent {
    QueueEvent::Global { name, interface: interface.to_owned(), version }
}

fn entry(name: u32, interface: &str, version: u32) -> GlobalEntry {
    GlobalEntry { name, interface: interface.to_owned(), version }
}

#[test]
fn round_trip_collects_globals_before_done() {
    let events = vec![
        global(1, "wl_seat", 7),
        global(2, "zwp_virtual_keyboard_manager_v1", 1),
        QueueEvent::Done,
    ];
    let snapshot = resolve(&events).expect("round-trip should complete");
    assert_eq!(
        snapshot.entries,
        vec![
            entry(1, "wl_seat", 7),
            entry(2, "zwp_virtual_keyboard_manager_v1", 1),
        ]
    );
}

#[test]
fn round_trip_ignores_globals_after_done() {
    let events = vec![
        global(1, "wl_seat", 7),
        QueueEvent::Done,
        global(9, "zwp_input_method_manager_v2", 2),
    ];
    let snapshot = resolve(&events).expect("round-trip should complete");
    assert_eq!(snapshot.entries, vec![entry(1, "wl_seat", 7)]);
}

#[test]
fn round_trip_with_no_globals_is_empty() {
    let events = vec![QueueEvent::Done];
    let snapshot = resolve(&events).expect("round-trip should complete");
    assert!(snapshot.entries.is_empty());
}

#[test]
fn round_trip_is_idempotent_on_a_static_global_set() {
    let events = vec![
        global(1, "wl_seat", 7),
        global(2, "zwp_input_method_manager_v2", 2),
        QueueEvent::Done,
    ];
    let first = resolve(&events).expect("round-trip should complete");
    let second = resolve(&events).expect("round-trip should complete");
    assert_eq!(first, second);
}

#[test]
fn round_trip_keeps_every_ordering_of_advertisements() {
    let one_way = vec![
        global(1, "wl_seat", 7),
        global(2, "zwp_virtual_keyboard_manager_v1", 1),
        QueueEvent::Done,
    ];
    let other_way = vec![
        global(2, "zwp_virtual_keyboard_manager_v1", 1),
        global(1, "wl_seat", 7),
        QueueEvent::Done,
    ];
    let first = resolve(&one_way).expect("round-trip should complete");
    let second = resolve(&other_way).expect("round-trip should complete");
    let mut first_names: Vec<u32> = first.entries.iter().map(|e| e.name).collect();
    let mut second_names: Vec<u32> = second.entries.iter().map(|e| e.name).collect();
    first_names.sort();
    second_names.sort();
    assert_eq!(first_names, vec![1, 2]);
    assert_eq!(second_names, vec![1, 2]);
}

#[test]
fn orphan_event_during_round_trip_is_fatal() {
    let events = vec![global(1, "wl_seat", 7), QueueEvent::Orphan, QueueEvent::Done];
    let result = resolve(&events);
    assert_eq!(result, Err(FatalError::UnexpectedEvent));
}

#[test]
fn snapshot_lookup_returns_first_matching_global() {
    let snapshot = GlobalSnapshot {
        entries: vec![entry(3, "wl_seat", 5), entry(8, "wl_seat", 7)],
    };
    let found = snapshot.lookup(&"wl_seat".to_owned());
    assert_eq!(found, Some((3, 5)));
    let missing = snapshot.lookup(&"wl_output".to_owned());
    assert_eq!(missing, None);
}
