//! Points in time with the offset of the clock on which they are read.
use vstd::prelude::*;
#[allow(unused_imports)]
use vstd::std_specs::cmp::PartialEqSpec;
use vstd::string::StringExecFns;

use crate::text::{append_decimal, append_two_digits};
#[allow(unused_imports)]
use crate::text::{decimal, decimal_is_digits, decimal_is_injective, digit, two_digits};

verus! {

/// The seconds since 1970-01-01T00:00:00Z of the first second of the calendar, in the year -262143.
pub const MIN_SECS: i64 = -8_334_601_228_800;

/// The seconds since 1970-01-01T00:00:00Z of the last second of the calendar, in the year 262142.
pub const MAX_SECS: i64 = 8_210_266_876_799;

/// A moment as numbers: seconds since 1970-01-01T00:00:00Z, the nanoseconds past that second, which
/// reach two seconds where a leap second is meant, and the seconds by which local time is ahead of
/// UTC.
pub struct MomentView {
    pub secs: int,
    pub nanos: int,
    pub offset: int,
}

impl MomentView {
    /// The values that a moment can have.
    pub open spec fn valid(self) -> bool {
        &&& MIN_SECS <= self.secs <= MAX_SECS
        &&& 0 <= self.nanos < 2_000_000_000
        &&& -86_400 < self.offset < 86_400
    }

    /// The same point in time, on whatever clock.
    pub open spec fn same_instant(self, other: MomentView) -> bool {
        self.secs == other.secs && self.nanos == other.nanos
    }

    /// The second of the UTC day.
    pub open spec fn second_of_day(self) -> int {
        self.secs % 86_400
    }

    /// The second of the day on the local clock.
    pub open spec fn local_second_of_day(self) -> int {
        (self.secs + self.offset) % 86_400
    }

    /// The hour and minute of the local clock, each in two digits.
    pub open spec fn clock_text(self) -> Seq<char> {
        let second = self.local_second_of_day();
        two_digits((second / 3600) as nat) + ":"@ + two_digits((second % 3600 / 60) as nat)
    }
}

/// The nanoseconds from one moment to another. A leap second, which shares its number with the
/// second before it, counts where it lies between the two by the time of day.
pub open spec fn elapsed_nanos(start: MomentView, end: MomentView) -> int {
    let leap: int = if end.second_of_day() > start.second_of_day() && start.nanos
        >= 1_000_000_000 {
        1
    } else if end.second_of_day() < start.second_of_day() && end.nanos >= 1_000_000_000 {
        -1
    } else {
        0
    };
    (end.secs - start.secs + leap) * 1_000_000_000 + end.nanos - start.nanos
}

/// The whole seconds from one moment to another, negative where the second comes first. A part of
/// a second counts for nothing in either direction.
pub open spec fn elapsed_secs(start: MomentView, end: MomentView) -> int {
    let nanos = elapsed_nanos(start, end);
    if nanos >= 0 {
        nanos / 1_000_000_000
    } else {
        -(-nanos / 1_000_000_000)
    }
}

/// A number of seconds in words: minutes, and hours where there are any. The part of a minute is
/// left out, and a negative number counts as none.
pub open spec fn duration_text(secs: int) -> Seq<char> {
    if secs <= 0 {
        "0m"@
    } else if secs < 3600 {
        decimal((secs / 60) as nat) + "m"@
    } else {
        decimal((secs / 3600) as nat) + "h"@ + two_digits((secs % 3600 / 60) as nat) + "m"@
    }
}

/// A point in time with the offset of its local clock.
#[derive(Clone, Copy, Debug)]
pub struct Moment {
    secs: i64,
    nanos: u32,
    offset: i32,
}

impl View for Moment {
    type V = MomentView;

    closed spec fn view(&self) -> MomentView {
        MomentView { secs: self.secs as int, nanos: self.nanos as int, offset: self.offset as int }
    }
}

impl Moment {
    #[verifier::type_invariant]
    closed spec fn in_calendar(&self) -> bool {
        self@.valid()
    }

    /// The moment with these numbers, where there is one.
    pub fn new(secs: i64, nanos: u32, offset: i32) -> (moment: Option<Moment>)
        ensures
            ({
                let view = MomentView {
                    secs: secs as int,
                    nanos: nanos as int,
                    offset: offset as int,
                };
                &&& moment is Some <==> view.valid()
                &&& moment matches Some(m) ==> m@ == view
            }),
    {
        if MIN_SECS <= secs && secs <= MAX_SECS && nanos < 2_000_000_000 && -86_400 < offset
            && offset < 86_400 {
            Some(Moment { secs, nanos, offset })
        } else {
            None
        }
    }

    /// The hour and minute of the local clock.
    pub fn clock(&self) -> (text: String)
        ensures
            self@.valid(),
            text@ == self@.clock_text(),
    {
        proof {
            use_type_invariant(self);
        }
        format_local(self.secs, self.nanos, self.offset, "%H:%M")
    }

    /// The whole seconds from this moment to another.
    pub fn seconds_until(&self, end: &Moment) -> (secs: i64)
        ensures
            self@.valid(),
            end@.valid(),
            secs == elapsed_secs(self@, end@),
    {
        proof {
            use_type_invariant(self);
            use_type_invariant(end);
        }
        subtract(self.secs, self.nanos, end.secs, end.nanos)
    }
}

impl PartialEq for Moment {
    fn eq(&self, other: &Moment) -> (same: bool) {
        self.secs == other.secs && self.nanos == other.nanos
    }
}

impl vstd::std_specs::cmp::PartialEqSpecImpl for Moment {
    open spec fn obeys_eq_spec() -> bool {
        true
    }

    open spec fn eq_spec(&self, other: &Moment) -> bool {
        self@.same_instant(other@)
    }
}

/// `chrono::DateTime::format` with the pattern `%H:%M`: the local time of day is the UTC time
/// shifted by the offset, and of it stand the hour and the minute, each padded to two digits, with
/// a colon between them.
#[verifier::external_body]
fn format_local(secs: i64, nanos: u32, offset: i32, pattern: &str) -> (text: String)
    requires
        (MomentView { secs: secs as int, nanos: nanos as int, offset: offset as int }).valid(),
        pattern@ == "%H:%M"@,
    ensures
        text@ == (MomentView {
            secs: secs as int,
            nanos: nanos as int,
            offset: offset as int,
        }).clock_text(),
{
    let zone = chrono::FixedOffset::east_opt(offset).unwrap();
    let second = chrono::DateTime::from_timestamp(secs, 0).unwrap().naive_utc();
    let utc = chrono::Timelike::with_nanosecond(&second, nanos).unwrap().and_utc();
    utc.with_timezone(&zone).format(pattern).to_string()
}

/// The difference of two `chrono::DateTime` values in whole seconds, `TimeDelta::num_seconds`: the
/// seconds between them, rounded towards zero.
#[verifier::external_body]
fn subtract(start_secs: i64, start_nanos: u32, end_secs: i64, end_nanos: u32) -> (secs: i64)
    requires
        MIN_SECS <= start_secs <= MAX_SECS,
        MIN_SECS <= end_secs <= MAX_SECS,
        start_nanos < 2_000_000_000,
        end_nanos < 2_000_000_000,
    ensures
        secs == elapsed_secs(
            MomentView { secs: start_secs as int, nanos: start_nanos as int, offset: 0 },
            MomentView { secs: end_secs as int, nanos: end_nanos as int, offset: 0 },
        ),
{
    let start_second = chrono::DateTime::from_timestamp(start_secs, 0).unwrap().naive_utc();
    let start = chrono::Timelike::with_nanosecond(&start_second, start_nanos).unwrap().and_utc();
    let end_second = chrono::DateTime::from_timestamp(end_secs, 0).unwrap().naive_utc();
    let end = chrono::Timelike::with_nanosecond(&end_second, end_nanos).unwrap().and_utc();
    (end - start).num_seconds()
}

/// The time from one moment to another, for a message.
pub fn fmt_duration(start: Moment, end: Moment) -> (text: String)
    ensures
        text@ == duration_text(elapsed_secs(start@, end@)),
{
    let secs = start.seconds_until(&end);
    let mut text = String::new();
    if secs <= 0 {
        text.append("0m");
        return text;
    }
    let total: u64 = secs as u64;
    let hours: u64 = total / 3600;
    let minutes: u64 = total % 3600 / 60;
    if hours > 0 {
        append_decimal(&mut text, hours);
        text.append("h");
        append_two_digits(&mut text, minutes);
    } else {
        append_decimal(&mut text, minutes);
    }
    text.append("m");
    text
}

/// The whole minutes of a number of seconds; a negative number has none.
pub open spec fn whole_minutes(secs: int) -> int {
    if secs <= 0 {
        0
    } else {
        secs / 60
    }
}

/// Seen from the other end the same time has passed, with the opposite sign.
pub proof fn elapsed_is_antisymmetric(a: MomentView, b: MomentView)
    ensures
        elapsed_secs(b, a) == -elapsed_secs(a, b),
{
    assert(elapsed_nanos(b, a) == -elapsed_nanos(a, b));
}

/// Between two moments of whole seconds the seconds are those between their numbers.
pub proof fn elapsed_between_whole_seconds(a: MomentView, b: MomentView)
    requires
        a.nanos == 0,
        b.nanos == 0,
    ensures
        elapsed_secs(a, b) == b.secs - a.secs,
{
    let secs = b.secs - a.secs;
    assert(elapsed_nanos(a, b) == secs * 1_000_000_000);
    assert(secs >= 0 ==> secs * 1_000_000_000 / 1_000_000_000 == secs);
    assert(secs < 0 ==> -secs * 1_000_000_000 / 1_000_000_000 == -secs);
}

/// Where the end does not come after the start, the clocks disagree, and the duration is nothing.
pub proof fn clock_skew_counts_as_nothing(start: MomentView, end: MomentView)
    requires
        start.valid(),
        end.valid(),
        end.secs < start.secs || end.secs == start.secs && end.nanos <= start.nanos,
    ensures
        elapsed_secs(start, end) <= 0,
        duration_text(elapsed_secs(start, end)) == "0m"@,
{
}

/// The clocks on which the two moments are read do not matter to the time between them.
pub proof fn elapsed_ignores_the_clocks(
    start: MomentView,
    end: MomentView,
    start_elsewhere: MomentView,
    end_elsewhere: MomentView,
)
    requires
        start.same_instant(start_elsewhere),
        end.same_instant(end_elsewhere),
    ensures
        elapsed_secs(start, end) == elapsed_secs(start_elsewhere, end_elsewhere),
{
}

/// Two durations read the same just where they have the same whole minutes.
pub proof fn duration_tells_whole_minutes(a: int, b: int)
    ensures
        duration_text(a) == duration_text(b) <==> whole_minutes(a) == whole_minutes(b),
{
    duration_shape(a);
    duration_shape(b);
    let (x, y) = (duration_text(a), duration_text(b));
    if x == y {
        if a >= 3600 && b >= 3600 {
            let (h, k) = ((a / 3600) as nat, (b / 3600) as nat);
            assert(decimal(h) == x.take(x.len() - 4));
            assert(decimal(k) == y.take(y.len() - 4));
            decimal_is_injective(h, k);
            assert(x[x.len() - 3] == y[y.len() - 3] && x[x.len() - 2] == y[y.len() - 2]);
        } else if a < 3600 && b < 3600 {
            let (m, n) = (whole_minutes(a) as nat, whole_minutes(b) as nat);
            assert(decimal(m) == x.drop_last());
            assert(decimal(n) == y.drop_last());
            decimal_is_injective(m, n);
        }
    }
}

proof fn duration_shape(secs: int)
    ensures
        secs < 3600 ==> duration_text(secs) == decimal(whole_minutes(secs) as nat).push('m')
            && duration_text(secs).len() <= 3,
        secs >= 3600 ==> {
            &&& duration_text(secs) == decimal((secs / 3600) as nat) + seq!['h'] + two_digits(
                (secs % 3600 / 60) as nat,
            ) + seq!['m']
            &&& duration_text(secs).len() >= 5
        },
{
    reveal_strlit("0m");
    reveal_strlit("h");
    reveal_strlit("m");
    assert("h"@ =~= seq!['h'] && "m"@ =~= seq!['m']);
    if secs < 3600 {
        let minutes = whole_minutes(secs) as nat;
        if minutes >= 10 {
            assert(decimal(minutes) == decimal(minutes / 10).push(digit(minutes)));
            assert(decimal(minutes / 10).len() == 1);
        }
        if secs <= 0 {
            assert("0m"@ =~= decimal(0).push('m'));
        }
        assert(duration_text(secs) =~= decimal(minutes).push('m'));
    } else {
        decimal_is_digits((secs / 3600) as nat);
    }
}

/// The clock shows five characters, of an hour below 24 and a minute below 60.
pub proof fn clock_is_hours_and_minutes(moment: MomentView)
    ensures
        ({
            let second = moment.local_second_of_day();
            &&& 0 <= second / 3600 < 24
            &&& 0 <= second % 3600 / 60 < 60
            &&& moment.clock_text().len() == 5
            &&& moment.clock_text()[2] == ':'
        }),
{
    reveal_strlit(":");
    assert(":"@ =~= seq![':']);
}

/// A moment has seconds from the first to the last of the calendar, less than two seconds of
/// nanoseconds, and an offset of less than a day in either direction; each is bounded by itself.
pub proof fn bounds_of_a_moment(moment: MomentView)
    ensures
        moment.valid() <==> {
            &&& -8_334_601_228_800 <= moment.secs < 8_210_266_876_800
            &&& 0 <= moment.nanos < 2_000_000_000
            &&& -86_400 < moment.offset < 86_400
        },
{
}

/// Moments are the same where their seconds and nanoseconds are, on whatever clocks.
pub proof fn clocks_do_not_part_moments(a: MomentView, b: MomentView)
    ensures
        a.same_instant(b) <==> a.secs == b.secs && a.nanos == b.nanos,
{
}

/// The digits of the clock, read as hours and minutes, count the whole minutes of the local day.
pub proof fn clock_counts_the_minutes_of_the_day(moment: MomentView)
    ensures
        ({
            let text = moment.clock_text();
            let zero = '0' as int;
            let hours = 10 * (text[0] as int - zero) + (text[1] as int - zero);
            let minutes = 10 * (text[3] as int - zero) + (text[4] as int - zero);
            &&& text.len() == 5
            &&& text[2] == ':'
            &&& forall|i: int| 0 <= i < 5 && i != 2 ==> '0' <= #[trigger] text[i] <= '9'
            &&& 0 <= minutes < 60
            &&& 60 * hours + minutes == (moment.secs + moment.offset) % 86_400 / 60
        }),
{
    clock_is_hours_and_minutes(moment);
    reveal_strlit(":");
    let second = moment.local_second_of_day();
    let hour = (second / 3600) as nat;
    let minute = (second % 3600 / 60) as nat;
    let text = moment.clock_text();
    assert(text =~= seq![digit(hour / 10), digit(hour), ':', digit(minute / 10), digit(minute)]);
    assert(60 * hour + minute == second / 60);
}

/// The seconds between two moments, times a thousand million, are the nanoseconds between them
/// without the part of a second, where no leap second lies in between.
pub proof fn elapsed_drops_the_part_of_a_second(start: MomentView, end: MomentView)
    requires
        start.secs % 86_400 < end.secs % 86_400 ==> start.nanos < 1_000_000_000,
        end.secs % 86_400 < start.secs % 86_400 ==> end.nanos < 1_000_000_000,
    ensures
        ({
            let nanos = (end.secs * 1_000_000_000 + end.nanos) - (start.secs * 1_000_000_000
                + start.nanos);
            let whole = elapsed_secs(start, end) * 1_000_000_000;
            &&& nanos >= 0 ==> whole <= nanos < whole + 1_000_000_000
            &&& nanos <= 0 ==> whole - 1_000_000_000 < nanos <= whole
        }),
{
}

/// A leap second counts in full towards what is later in the day: the time is as long as from the
/// second whose number it shares.
pub proof fn leap_second_counts(leap: MomentView, later: MomentView)
    requires
        1_000_000_000 <= leap.nanos < 2_000_000_000,
        leap.secs % 86_400 < later.secs % 86_400,
    ensures
        ({
            let before = MomentView { nanos: leap.nanos - 1_000_000_000, ..leap };
            &&& elapsed_secs(leap, later) == elapsed_secs(before, later)
            &&& elapsed_secs(later, leap) == elapsed_secs(later, before)
        }),
{
    let before = MomentView { nanos: leap.nanos - 1_000_000_000, ..leap };
    assert(elapsed_nanos(leap, later) == elapsed_nanos(before, later));
    assert(elapsed_nanos(later, leap) == elapsed_nanos(later, before));
}

/// A duration of hours, minutes and seconds reads as the hours and two digits of minutes, or as
/// the minutes alone where there are no hours.
pub proof fn duration_reads_as_hours_and_minutes(hours: nat, minutes: nat, secs: nat)
    requires
        minutes < 60,
        secs < 60,
    ensures
        duration_text((60 * minutes + secs) as int) == decimal(minutes) + "m"@,
        hours > 0 ==> duration_text((3600 * hours + 60 * minutes + secs) as int) == decimal(hours)
            + "h"@ + two_digits(minutes) + "m"@,
{
    reveal_strlit("m");
    reveal_strlit("0m");
    assert("0m"@ =~= decimal(0) + "m"@);
    assert((60 * minutes + secs) / 60 == minutes);
    let total = 3600 * hours + 60 * minutes + secs;
    assert(total / 3600 == hours && total % 3600 == 60 * minutes + secs);
}

/// Without time, or where the end comes first, no minutes have passed.
pub proof fn duration_is_never_negative(secs: int)
    requires
        secs <= 0,
    ensures
        duration_text(secs) == decimal(0) + "m"@,
{
    reveal_strlit("m");
    reveal_strlit("0m");
    assert("0m"@ =~= decimal(0) + "m"@);
}

/// Two moments compare as equal where their seconds and nanoseconds are.
pub proof fn moments_compare_by_their_instants(a: Moment, b: Moment)
    ensures
        a.eq_spec(&b) <==> a@.secs == b@.secs && a@.nanos == b@.nanos,
{
}

} // verus!
