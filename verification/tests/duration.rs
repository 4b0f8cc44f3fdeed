use chrono::{DateTime, NaiveDate, Offset, Timelike};
use chrono_tz::{Tz, UTC};
use faff_plugin_matrix_rust::moment::{fmt_duration, Moment, MAX_SECS, MIN_SECS};

fn moment(time: DateTime<Tz>) -> Moment {
    Moment::new(
        time.timestamp(),
        time.timestamp_subsec_nanos(),
        time.offset().fix().local_minus_utc(),
    )
    .unwrap()
}

fn at(h: u32, m: u32) -> DateTime<Tz> {
    NaiveDate::from_ymd_opt(2026, 4, 8)
        .unwrap()
        .and_hms_opt(h, m, 0)
        .unwrap()
        .and_local_timezone(UTC)
        .unwrap()
}

fn ts(h: u32, m: u32) -> Moment {
    moment(at(h, m))
}

#[test]
fn fmt_duration_minutes_only() {
    assert_eq!(fmt_duration(ts(9, 0), ts(9, 5)), "5m");
}

#[test]
fn fmt_duration_hours_and_minutes() {
    assert_eq!(fmt_duration(ts(9, 0), ts(11, 30)), "2h30m");
}

#[test]
fn fmt_duration_zero() {
    assert_eq!(fmt_duration(ts(9, 0), ts(9, 0)), "0m");
}

#[test]
fn fmt_duration_negative_clamps_to_zero() {
    assert_eq!(fmt_duration(ts(11, 0), ts(9, 0)), "0m");
}

#[test]
fn fmt_duration_pads_minutes_when_hours_present() {
    assert_eq!(fmt_duration(ts(9, 0), ts(10, 5)), "1h05m");
}

#[test]
fn seconds_below_a_minute_are_left_out() {
    let start = Moment::new(1_000_000, 0, 0).unwrap();
    let end = |secs: i64| Moment::new(1_000_000 + secs, 0, 0).unwrap();
    assert_eq!(fmt_duration(start, end(1)), "0m");
    assert_eq!(fmt_duration(start, end(59)), "0m");
    assert_eq!(fmt_duration(start, end(60)), "1m");
    assert_eq!(fmt_duration(start, end(3599)), "59m");
    assert_eq!(fmt_duration(start, end(3600)), "1h00m");
    assert_eq!(fmt_duration(start, end(3659)), "1h00m");
    assert_eq!(fmt_duration(start, end(86_400 + 60)), "24h01m");
}

#[test]
fn durations_of_all_time() {
    let first = Moment::new(MIN_SECS, 0, 0).unwrap();
    let last = Moment::new(MAX_SECS, 1_999_999_999, 0).unwrap();
    assert_eq!(first.seconds_until(&last), MAX_SECS - MIN_SECS + 1);
    assert_eq!(last.seconds_until(&first), MIN_SECS - MAX_SECS - 1);
    assert_eq!(fmt_duration(first, last), "4595796696h00m");
    assert_eq!(fmt_duration(last, first), "0m");
}

#[test]
fn numbers_outside_of_the_calendar_are_no_moment() {
    assert!(Moment::new(MIN_SECS - 1, 0, 0).is_none());
    assert!(Moment::new(MAX_SECS + 1, 0, 0).is_none());
    assert!(Moment::new(0, 2_000_000_000, 0).is_none());
    assert!(Moment::new(0, 0, 86_400).is_none());
    assert!(Moment::new(0, 0, -86_400).is_none());
    assert!(Moment::new(0, 1_999_999_999, 86_399).is_some());
    assert_eq!(DateTime::<chrono::Utc>::MIN_UTC.timestamp(), MIN_SECS);
    assert_eq!(DateTime::<chrono::Utc>::MAX_UTC.timestamp(), MAX_SECS);
}

#[test]
fn parts_of_a_second_are_cut_towards_zero() {
    let a = Moment::new(10, 900_000_000, 0).unwrap();
    let b = Moment::new(12, 100_000_000, 0).unwrap();
    assert_eq!(a.seconds_until(&b), 1);
    assert_eq!(b.seconds_until(&a), -1);
    let c = Moment::new(11, 0, 0).unwrap();
    assert_eq!(a.seconds_until(&c), 0);
    assert_eq!(c.seconds_until(&a), 0);
}

#[test]
fn leap_seconds_count_as_seconds() {
    // 2015-06-30T23:59:60.5Z, half a second into a leap second.
    let leap = Moment::new(1_435_708_799, 1_500_000_000, 0).unwrap();
    let before = Moment::new(1_435_708_799, 0, 0).unwrap();
    let after = Moment::new(1_435_708_800, 0, 0).unwrap();
    assert_eq!(before.seconds_until(&leap), 1);
    assert_eq!(leap.seconds_until(&after), 0);
    assert!(leap != before);
    assert_eq!(leap.clock(), "23:59");
    // The same by time of day within one day.
    let strange = Moment::new(100, 1_500_000_000, 0).unwrap();
    let later = Moment::new(200, 0, 0).unwrap();
    assert_eq!(strange.seconds_until(&later), 99);
    assert_eq!(later.seconds_until(&strange), -99);
}

#[test]
fn moments_agree_with_the_calendar() {
    let zones = [
        UTC,
        chrono_tz::Europe::Berlin,
        chrono_tz::America::New_York,
        chrono_tz::Asia::Kolkata,
        chrono_tz::Pacific::Kiritimati,
        chrono_tz::Africa::Monrovia,
    ];
    let naive = |y: i32, mo: u32, d: u32, h: u32, mi: u32, s: u32, n: u32| {
        NaiveDate::from_ymd_opt(y, mo, d)
            .unwrap()
            .and_hms_opt(h, mi, s)
            .unwrap()
            .with_nanosecond(n)
            .unwrap()
            .and_utc()
    };
    let times = [
        naive(1950, 1, 1, 0, 0, 0, 0),
        naive(1969, 12, 31, 23, 59, 59, 1),
        naive(2026, 3, 29, 0, 59, 59, 999_999_999),
        naive(2026, 3, 29, 1, 0, 0, 0),
        naive(2026, 7, 1, 23, 59, 59, 1_700_000_000),
        naive(2026, 7, 1, 12, 30, 31, 1_000_000_000),
        naive(2030, 11, 5, 18, 1, 2, 3),
    ];
    for zone in zones {
        for a in times {
            let a = a.with_timezone(&zone);
            assert_eq!(moment(a).clock(), a.format("%H:%M").to_string());
            for b in times {
                let b = b.with_timezone(&chrono_tz::Europe::Berlin);
                let b_here = b.with_timezone(&zone);
                assert_eq!(moment(a).seconds_until(&moment(b)), (b_here - a).num_seconds());
                assert_eq!(moment(a) == moment(b), a == b_here);
            }
        }
    }
}
