use offset_watch::debounce::{is_target, Debouncer, Input};
use offset_watch::location::{
    get_path_to_game_settings, resolve_settings_path, ConfigPathError,
};
use offset_watch::reader::{get_offset_from_game_settings, offset_from_text, FileRead, ReadError};
use offset_watch::task::{notification, Action, Notification, WatcherTask, CONFIG_CHANGED_EVENT};

const SUFFIX: &str =
    "\\..\\LocalLow\\D-CELL GAMES\\UNBEATABLE [white label]\\SYSTEM\\system-options.json";

fn raw(at: u64) -> Input {
    Input::Raw { at, target: true }
}

fn tick(at: u64) -> Input {
    Input::Tick { at }
}

fn publishes(task: &mut WatcherTask, inputs: &[Input]) -> usize {
    inputs
        .iter()
        .filter(|i| task.handle(**i) == Action::ReadAndPublish)
        .count()
}

#[test]
fn settings_path_appends_fixed_segments() {
    let p = get_path_to_game_settings("C:\\Users\\me\\AppData\\Roaming");
    assert_eq!(
        p,
        "C:\\Users\\me\\AppData\\Roaming\\..\\LocalLow\\D-CELL GAMES\\UNBEATABLE [white label]\\SYSTEM\\system-options.json"
    );
    assert_eq!(get_path_to_game_settings(""), SUFFIX);
}

#[test]
fn resolve_without_appdata_fails() {
    assert_eq!(resolve_settings_path(None), Err(ConfigPathError::MissingAppData));
    assert_eq!(resolve_settings_path(Some("R")), Ok(format!("R{}", SUFFIX)));
}

#[test]
fn well_formed_file_yields_offset() {
    let r = offset_from_text("{\"rhythmTrackerPositionOffset\": 0.42}");
    match r {
        Ok(n) => assert_eq!(n.as_f64(), Some(0.42)),
        Err(e) => panic!("unexpected failure: {}", e.message()),
    }
}

#[test]
fn offset_among_other_fields() {
    let text = "{\"volume\": 3, \"rhythmTrackerPositionOffset\": -12, \"name\": \"x\"}";
    match offset_from_text(text) {
        Ok(n) => assert_eq!(n.as_f64(), Some(-12.0)),
        Err(e) => panic!("unexpected failure: {}", e.message()),
    }
}

#[test]
fn missing_field_is_reported() {
    let r = offset_from_text("{\"volume\": 0.5}");
    match r {
        Err(e) => {
            assert!(matches!(e, ReadError::FieldMissing));
            assert_eq!(e.message(), "Failed to get offset from settings file: field rhythmTrackerPositionOffset is absent or not a number");
        }
        Ok(_) => panic!("expected a failure"),
    }
}

#[test]
fn field_of_wrong_type_is_missing() {
    let r = offset_from_text("{\"rhythmTrackerPositionOffset\": \"0.42\"}");
    assert!(matches!(r, Err(ReadError::FieldMissing)));
    let r = offset_from_text("[0.42]");
    assert!(matches!(r, Err(ReadError::FieldMissing)));
}

#[test]
fn malformed_json_is_a_parse_failure() {
    let r = offset_from_text("{\"rhythmTrackerPositionOffset\": ");
    match r {
        Err(ReadError::Parse { detail }) => {
            assert!(!detail.is_empty());
            let e = ReadError::Parse { detail: detail.clone() };
            assert_eq!(e.message(), format!("Failed to parse settings file: {}", detail));
        }
        other => panic!("expected a parse failure, got {:?}", other),
    }
}

#[test]
fn missing_and_unreadable_files() {
    match get_offset_from_game_settings("C:\\x.json", FileRead::Missing) {
        Err(e) => {
            assert!(matches!(e, ReadError::NotFound { .. }));
            assert_eq!(e.message(), "Could not find settings file at C:\\x.json");
        }
        Ok(_) => panic!("expected a failure"),
    }
    let file = FileRead::Unreadable { detail: "denied".to_string() };
    match get_offset_from_game_settings("p", file) {
        Err(e) => assert_eq!(e.message(), "Failed to read settings file: denied"),
        Ok(_) => panic!("expected a failure"),
    }
}

#[test]
fn file_contents_are_parsed() {
    let file = FileRead::Contents { text: "{\"rhythmTrackerPositionOffset\": 1.5}".to_string() };
    match get_offset_from_game_settings("p", file) {
        Ok(n) => assert_eq!(n.as_f64(), Some(1.5)),
        Err(e) => panic!("unexpected failure: {}", e.message()),
    }
}

#[test]
fn burst_in_one_window_signals_once_after_quiet() {
    let mut d = Debouncer::new(10);
    for at in [100u64, 102, 105, 107, 109] {
        assert!(!d.step(raw(at)));
    }
    assert_eq!(d.deadline(), Some(119));
    assert!(!d.step(tick(110)));
    assert!(!d.step(tick(118)));
    assert!(d.step(tick(119)));
    assert_eq!(d.deadline(), None);
    assert!(!d.step(tick(200)));
}

#[test]
fn event_restarts_the_window() {
    let mut d = Debouncer::new(10);
    assert!(!d.step(raw(0)));
    assert!(!d.step(tick(9)));
    assert!(!d.step(raw(9)));
    assert!(!d.step(tick(10)));
    assert!(d.step(tick(19)));
}

#[test]
fn sibling_events_are_ignored() {
    let target = "C:\\a\\SYSTEM\\system-options.json".to_string();
    let sibling = "C:\\a\\SYSTEM\\other.json".to_string();
    assert!(is_target(&target.clone(), &target));
    assert!(!is_target(&sibling, &target));
    let mut d = Debouncer::new(10);
    assert!(!d.step(Input::Raw { at: 0, target: is_target(&sibling, &target) }));
    assert_eq!(d.deadline(), None);
    assert!(!d.step(tick(50)));
}

#[test]
fn deadline_saturates() {
    let mut d = Debouncer::new(10);
    d.step(raw(u64::MAX - 3));
    assert_eq!(d.deadline(), Some(u64::MAX));
    assert!(!d.step(tick(u64::MAX - 1)));
    assert!(!d.step(tick(u64::MAX)));
}

#[test]
fn two_separate_edits_publish_twice() {
    let mut t = WatcherTask::start(true, 10);
    let n = publishes(&mut t, &[raw(0), raw(3), tick(13), raw(50), tick(55), tick(60)]);
    assert_eq!(n, 2);
}

#[test]
fn spurious_repeat_in_window_publishes_once() {
    let mut t = WatcherTask::start(true, 10);
    let n = publishes(&mut t, &[raw(0), tick(5), raw(6), tick(15), tick(16), tick(40)]);
    assert_eq!(n, 1);
}

#[test]
fn missing_file_at_startup_never_publishes() {
    let mut t = WatcherTask::start(false, 10);
    let n = publishes(&mut t, &[raw(0), tick(100), raw(200), tick(300)]);
    assert_eq!(n, 0);
    assert_eq!(t.deadline(), None);
    let file = FileRead::Contents { text: "{\"rhythmTrackerPositionOffset\": 0.42}".to_string() };
    match get_offset_from_game_settings("p", file) {
        Ok(n) => assert_eq!(n.as_f64(), Some(0.42)),
        Err(e) => panic!("unexpected failure: {}", e.message()),
    }
}

#[test]
fn stopped_task_is_inert() {
    let mut t = WatcherTask::start(true, 10);
    t.handle(raw(0));
    t.stop();
    assert_eq!(t.handle(tick(100)), Action::Wait);
    assert_eq!(t.deadline(), None);
}

#[test]
fn notifications_carry_value_or_reason() {
    assert_eq!(CONFIG_CHANGED_EVENT, "config_changed");
    match notification(offset_from_text("{\"rhythmTrackerPositionOffset\": 0.25}")) {
        Notification::Offset(n) => assert_eq!(n.as_f64(), Some(0.25)),
        other => panic!("unexpected {:?}", other),
    }
    match notification(offset_from_text("{}")) {
        Notification::Failure(m) => assert_eq!(m, "Failed to get offset from settings file: field rhythmTrackerPositionOffset is absent or not a number"),
        other => panic!("unexpected {:?}", other),
    }
}

#[test]
fn greet_formats_name() {
    assert_eq!(
        offset_watch::commands::greet("Ada"),
        "Hello, Ada! You've been greeted from Rust!"
    );
}

#[test]
fn same_contents_read_twice_agree() {
    let text = "{\"rhythmTrackerPositionOffset\": 0.42, \"x\": [1, 2]}";
    let a = offset_from_text(text);
    let b = offset_from_text(text);
    match (a, b) {
        (Ok(x), Ok(y)) => assert_eq!(x.as_f64(), y.as_f64()),
        other => panic!("unexpected {:?}", other),
    }
}

#[test]
fn interleaved_burst_publishes_once() {
    let mut t = WatcherTask::start(true, 10);
    let n = publishes(
        &mut t,
        &[raw(0), tick(0), raw(4), tick(4), tick(12), raw(13), tick(13), tick(22), tick(23), tick(90)],
    );
    assert_eq!(n, 1);
}
