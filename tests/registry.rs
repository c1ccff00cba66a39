use matrix_mozilla_bot::bot::Command;
use matrix_mozilla_bot::registry::WatchRegistry;

#[test]
fn watch_then_leave_sequence() {
    let mut reg = WatchRegistry::new();
    reg.apply(Command::Watch, "!a:hs");
    reg.apply(Command::Watch, "!b:hs");
    reg.apply(Command::Ping, "!c:hs");
    reg.apply(Command::Leave, "!a:hs");
    reg.apply(Command::Watch, "!c:hs");
    reg.apply(Command::Leave, "!c:hs");
    reg.apply(Command::Watch, "!c:hs");
    let mut rooms = reg.rooms();
    rooms.sort();
    assert_eq!(rooms, vec!["!b:hs".to_string(), "!c:hs".to_string()]);
    assert!(!reg.is_watched("!a:hs"));
}

#[test]
fn watch_is_idempotent() {
    let mut reg = WatchRegistry::new();
    assert!(reg.watch("!a:hs"));
    assert!(!reg.watch("!a:hs"));
    assert_eq!(reg.rooms(), vec!["!a:hs".to_string()]);
}

#[test]
fn unwatch_reports_presence() {
    let mut reg = WatchRegistry::new();
    assert!(!reg.unwatch("!a:hs"));
    reg.watch("!a:hs");
    assert!(reg.unwatch("!a:hs"));
    assert!(reg.rooms().is_empty());
}

#[test]
fn registry_serialises_as_json_array() {
    let mut reg = WatchRegistry::new();
    assert_eq!(reg.to_json(), "[]");
    reg.watch("!a:hs");
    reg.watch("!b:hs");
    assert_eq!(reg.to_json(), "[\"!a:hs\",\"!b:hs\"]");
}
