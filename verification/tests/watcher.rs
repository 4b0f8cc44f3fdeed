use faff_plugin_matrix_rust::config::{Config, RawConfig, RawConnection, RawOptions};
use faff_plugin_matrix_rust::delivery::{cmd_now, cmd_test, send_text, Delivery};
use faff_plugin_matrix_rust::moment::Moment;
use faff_plugin_matrix_rust::session::Snapshot;
use faff_plugin_matrix_rust::watcher::{Event, Next, Reading, Watcher};

fn config(notify_on: Option<&[&str]>, announce: bool, dry_run: bool) -> Config {
    let raw = RawConfig {
        id: None,
        connection: RawConnection {
            homeserver: "https://example.org".to_string(),
            user_id: "@bot:example.org".to_string(),
            device_id: "DEVICE".to_string(),
            access_token: Some("token".to_string()),
            access_token_env: None,
            store_passphrase: None,
            store_passphrase_env: None,
            room: "!room:example.org".to_string(),
        },
        options: RawOptions {
            notify_on: notify_on.map(|kinds| kinds.iter().map(|k| k.to_string()).collect()),
            announce_on_startup: Some(announce),
            dry_run: Some(dry_run),
            templates: None,
        },
    };
    Config::load(&raw, &None, &None).unwrap()
}

fn at(minute: i64) -> Moment {
    Moment::new(minute * 60, 0, 0).unwrap()
}

fn session(title: &str, minute: i64) -> Snapshot {
    Snapshot {
        title: title.to_string(),
        role: String::new(),
        impact: String::new(),
        mode: String::new(),
        subject: String::new(),
        trackers: String::new(),
        start: at(minute),
    }
}

fn send(body: &str) -> Option<Delivery> {
    Some(Delivery::Send(body.to_string()))
}

fn active(title: &str, minute: i64) -> Reading {
    Reading::Active(Some(session(title, minute)))
}

#[test]
fn events_lead_to_what_comes_next() {
    assert_eq!(Event::LogChanged.next(), Next::ReadChange);
    assert_eq!(Event::PlanChanged.next(), Next::Wait);
    assert_eq!(Event::Lagged.next(), Next::ReadAfterLag);
    assert_eq!(Event::Closed.next(), Next::Stop);
    assert_eq!(Event::Interrupted.next(), Next::Stop);
    assert_eq!(Event::Terminated.next(), Next::Stop);
}

#[test]
fn each_change_is_posted_once() {
    let config = config(None, false, false);
    let mut watcher = Watcher::new(None);
    assert_eq!(
        watcher.on_change(&config, active("a", 60), at(61)),
        send("[faff] started: a (01:00)")
    );
    assert_eq!(watcher.on_change(&config, active("a", 60), at(62)), None);
    assert_eq!(
        watcher.on_change(&config, active("b", 70), at(70)),
        send("[faff] switched: a -> b")
    );
    assert_eq!(
        watcher.on_change(&config, Reading::Active(None), at(135)),
        send("[faff] stopped: b after 1h05m")
    );
    assert_eq!(watcher.on_change(&config, Reading::Active(None), at(136)), None);
}

#[test]
fn failed_readings_leave_no_trace() {
    let config = config(None, false, false);
    let mut watcher = Watcher::new(Some(session("a", 0)));
    assert_eq!(watcher.on_change(&config, Reading::Failed, at(1)), None);
    watcher.on_lag(Reading::Failed);
    assert_eq!(watcher.prev.as_ref().unwrap().title, "a");
    assert_eq!(
        watcher.on_change(&config, Reading::Active(None), at(2)),
        send("[faff] stopped: a after 2m")
    );
}

#[test]
fn what_was_missed_is_not_posted() {
    let config = config(None, false, false);
    let mut watcher = Watcher::new(Some(session("a", 0)));
    watcher.on_lag(active("b", 5));
    assert_eq!(watcher.on_change(&config, active("b", 5), at(6)), None);
    assert_eq!(
        watcher.on_change(&config, Reading::Active(None), at(7)),
        send("[faff] stopped: b after 2m")
    );
}

#[test]
fn disabled_kinds_are_followed_in_silence() {
    let config = config(Some(&["stop"]), true, false);
    let mut watcher = Watcher::new(None);
    assert_eq!(watcher.on_change(&config, active("a", 0), at(1)), None);
    assert_eq!(watcher.on_startup(&config), None);
    assert_eq!(watcher.on_change(&config, active("b", 2), at(2)), None);
    assert_eq!(
        watcher.on_change(&config, Reading::Active(None), at(3)),
        send("[faff] stopped: b after 1m")
    );
}

#[test]
fn starts_and_stops_balance_over_a_run() {
    let config = config(None, false, false);
    let mut watcher = Watcher::new(Some(session("a", 0)));
    let (mut starts, mut stops) = (0, 0);
    let run = [None, Some(1), Some(2), None, None, Some(3), None];
    for (i, minute) in run.into_iter().enumerate() {
        let reading = Reading::Active(minute.map(|m| session("s", m)));
        if let Some(Delivery::Send(body)) = watcher.on_change(&config, reading, at(i as i64)) {
            starts += i32::from(body.starts_with("[faff] started"));
            stops += i32::from(body.starts_with("[faff] stopped"));
        }
    }
    assert_eq!((starts, stops), (2, 3));
}

#[test]
fn the_active_session_is_announced_on_request() {
    let watcher = Watcher::new(Some(session("a", 60)));
    assert_eq!(watcher.on_startup(&config(None, false, false)), None);
    assert_eq!(
        watcher.on_startup(&config(None, true, false)),
        send("[faff] started: a (01:00)")
    );
    assert_eq!(
        watcher.on_startup(&config(None, true, true)),
        Some(Delivery::Print("[dry_run] [faff] started: a (01:00)".to_string()))
    );
    assert_eq!(Watcher::new(None).on_startup(&config(None, true, false)), None);
}

#[test]
fn a_dry_run_prints_in_place_of_sending() {
    assert_eq!(
        send_text("hi".to_string(), true),
        Delivery::Print("[dry_run] hi".to_string())
    );
    assert_eq!(send_text("hi".to_string(), false), Delivery::Send("hi".to_string()));
    let mut watcher = Watcher::new(None);
    assert_eq!(
        watcher.on_change(&config(None, false, true), active("a", 0), at(1)),
        Some(Delivery::Print("[dry_run] [faff] started: a (00:00)".to_string()))
    );
}

#[test]
fn now_posts_the_active_session() {
    let snapshot = session("a", 60);
    assert_eq!(
        cmd_now(&config(Some(&[]), false, false), Some(&snapshot)),
        Delivery::Send("[faff] started: a (01:00)".to_string())
    );
    assert_eq!(
        cmd_now(&config(None, false, true), Some(&snapshot)),
        Delivery::Print("[dry_run] [faff] started: a (01:00)".to_string())
    );
    assert_eq!(
        cmd_now(&config(None, false, false), None),
        Delivery::Print("no active session".to_string())
    );
}

#[test]
fn the_probe_counts_the_others() {
    let members = |list: &[&str]| list.iter().map(|m| m.to_string()).collect::<Vec<String>>();
    let live = config(None, false, false);
    let alone = cmd_test(&live, &members(&["@bot:example.org"]));
    assert_eq!(alone.other_joined, 0);
    assert_eq!(alone.delivery, Delivery::Send("[faff] connection test ok".to_string()));
    let company = members(&["@a:x", "@bot:example.org", "@b:x", "@a:x"]);
    assert_eq!(cmd_test(&live, &company).other_joined, 3);
    assert_eq!(cmd_test(&live, &members(&[])).other_joined, 0);
    assert_eq!(
        cmd_test(&config(None, false, true), &company).delivery,
        Delivery::Print("dry_run set; not posting probe.".to_string())
    );
}
