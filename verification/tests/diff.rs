use chrono::{DateTime, Offset};
use chrono_tz::{Tz, UTC};
use faff_plugin_matrix_rust::moment::Moment;
use faff_plugin_matrix_rust::session::{Session, Snapshot};
use faff_plugin_matrix_rust::transition::{diff, Templates, Transition};

fn moment(time: DateTime<Tz>) -> Moment {
    Moment::new(
        time.timestamp(),
        time.timestamp_subsec_nanos(),
        time.offset().fix().local_minus_utc(),
    )
    .unwrap()
}

fn ts(h: u32, m: u32) -> Moment {
    moment(
        chrono::NaiveDate::from_ymd_opt(2026, 4, 8)
            .unwrap()
            .and_hms_opt(h, m, 0)
            .unwrap()
            .and_local_timezone(UTC)
            .unwrap(),
    )
}

fn snap(title: &str, h: u32, m: u32) -> Snapshot {
    Snapshot {
        title: title.into(),
        role: String::new(),
        impact: String::new(),
        mode: String::new(),
        subject: String::new(),
        trackers: String::new(),
        start: ts(h, m),
    }
}

fn templates() -> Templates {
    Templates {
        start: "[start] {title}".to_string(),
        stop: "[stop] {title} ({duration})".to_string(),
        switch: "[switch] {prev_title} -> {title} ({prev_duration})".to_string(),
    }
}

#[test]
fn diff_none_to_none_is_no_op() {
    let templates = templates();
    assert!(diff(None, None, ts(12, 0), &templates).is_none());
}

#[test]
fn diff_none_to_some_is_start() {
    let templates = templates();
    let curr = snap("hack", 9, 0);
    let (kind, body) = diff(None, Some(&curr), ts(9, 5), &templates).unwrap();
    assert!(matches!(kind, Transition::Start));
    assert_eq!(body, "[start] hack");
}

#[test]
fn diff_some_to_none_is_stop() {
    let templates = templates();
    let prev = snap("hack", 9, 0);
    let (kind, body) = diff(Some(&prev), None, ts(9, 30), &templates).unwrap();
    assert!(matches!(kind, Transition::Stop));
    assert_eq!(body, "[stop] hack (30m)");
}

#[test]
fn diff_same_start_is_no_op() {
    let templates = templates();
    let prev = snap("hack", 9, 0);
    let curr = snap("hack", 9, 0);
    assert!(diff(Some(&prev), Some(&curr), ts(9, 30), &templates).is_none());
}

#[test]
fn diff_different_start_is_switch() {
    let templates = templates();
    let prev = snap("hack", 9, 0);
    let curr = snap("review", 10, 0);
    let (kind, body) = diff(Some(&prev), Some(&curr), ts(10, 5), &templates).unwrap();
    assert!(matches!(kind, Transition::Switch));
    assert!(body.contains("hack"));
    assert!(body.contains("review"));
    assert_eq!(body, "[switch] hack -> review (1h05m)");
}

#[test]
fn diff_same_start_with_other_notes_is_no_op() {
    let templates = templates();
    let prev = snap("hack", 9, 0);
    let curr = snap("hack, renamed", 9, 0);
    assert!(diff(Some(&prev), Some(&curr), ts(9, 30), &templates).is_none());
}

#[test]
fn diff_same_instant_on_another_clock_is_no_op() {
    let templates = templates();
    let prev = snap("hack", 9, 0);
    let berlin = chrono::NaiveDate::from_ymd_opt(2026, 4, 8)
        .unwrap()
        .and_hms_opt(11, 0, 0)
        .unwrap()
        .and_local_timezone(chrono_tz::Europe::Berlin)
        .unwrap();
    let curr = Snapshot {
        start: moment(berlin),
        ..snap("hack", 9, 0)
    };
    assert!(prev.start == curr.start);
    assert!(diff(Some(&prev), Some(&curr), ts(9, 30), &templates).is_none());
    assert_eq!(prev.start.clock(), "09:00");
    assert_eq!(curr.start.clock(), "11:00");
}

#[test]
fn transition_names() {
    assert_eq!(Transition::Start.name(), "start");
    assert_eq!(Transition::Stop.name(), "stop");
    assert_eq!(Transition::Switch.name(), "switch");
}

#[test]
fn snapshot_of_a_session_fills_in_what_is_missing() {
    let session = Session {
        title: Some("hack".to_string()),
        role: None,
        impact: Some("big".to_string()),
        mode: None,
        subject: Some("code".to_string()),
        trackers: vec!["A-1".to_string(), "B-2".to_string(), "C-3".to_string()],
        start: ts(9, 7),
    };
    let snapshot = Snapshot::from_session(&session);
    assert_eq!(snapshot.title, "hack");
    assert_eq!(snapshot.role, "");
    assert_eq!(snapshot.impact, "big");
    assert_eq!(snapshot.mode, "");
    assert_eq!(snapshot.subject, "code");
    assert_eq!(snapshot.trackers, "A-1, B-2, C-3");
    assert!(snapshot.start == ts(9, 7));

    let fields = snapshot.fields();
    assert_eq!(fields.get("title").unwrap(), "hack");
    assert_eq!(fields.get("role").unwrap(), "");
    assert_eq!(fields.get("impact").unwrap(), "big");
    assert_eq!(fields.get("mode").unwrap(), "");
    assert_eq!(fields.get("subject").unwrap(), "code");
    assert_eq!(fields.get("trackers").unwrap(), "A-1, B-2, C-3");
    assert_eq!(fields.get("start_time").unwrap(), "09:07");
    assert!(fields.get("duration").is_none());
}

#[test]
fn trackers_of_a_session_without_any_are_empty() {
    let session = Session {
        title: None,
        role: None,
        impact: None,
        mode: None,
        subject: None,
        trackers: vec![],
        start: ts(0, 0),
    };
    assert_eq!(Snapshot::from_session(&session).trackers, "");
}

#[test]
fn built_in_templates_say_who_when_and_how_long() {
    let templates = Templates {
        start: "[faff] started: {title} ({start_time})".to_string(),
        stop: "[faff] stopped: {title} after {duration}".to_string(),
        switch: "[faff] switched: {prev_title} -> {title}".to_string(),
    };
    let hack = snap("hack", 9, 0);
    let review = snap("review", 10, 0);
    let (_, start) = diff(None, Some(&hack), ts(9, 1), &templates).unwrap();
    assert_eq!(start, "[faff] started: hack (09:00)");
    let (_, stop) = diff(Some(&hack), None, ts(11, 0), &templates).unwrap();
    assert_eq!(stop, "[faff] stopped: hack after 2h00m");
    let (_, switch) = diff(Some(&hack), Some(&review), ts(10, 1), &templates).unwrap();
    assert_eq!(switch, "[faff] switched: hack -> review");
}
