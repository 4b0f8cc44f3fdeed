//! The watcher: it follows the log, and posts each change of the active session.
use vstd::prelude::*;

use crate::config::Config;
#[allow(unused_imports)]
use crate::config::ConfigView;
use crate::delivery::{send_text, Delivery};
#[allow(unused_imports)]
use crate::delivery::{delivered, now_delivery, DeliveryView};
use crate::moment::Moment;
#[allow(unused_imports)]
use crate::moment::MomentView;
use crate::session::Snapshot;
#[allow(unused_imports)]
use crate::session::SnapshotView;
use crate::template::render;
use crate::transition::diff;
#[allow(unused_imports)]
use crate::transition::{start_message, transition, transition_message, Transition};

verus! {

/// What wakes the watcher.
#[derive(Clone, Copy, Debug)]
pub enum Event {
    /// The log has changed.
    LogChanged,
    /// The plan has changed.
    PlanChanged,
    /// Events were dropped.
    Lagged,
    /// No more events will come.
    Closed,
    /// The user has interrupted the program.
    Interrupted,
    /// The system has asked the program to end.
    Terminated,
}

/// What the watcher does next.
#[derive(Clone, Copy, Debug, PartialEq, Eq, Structural)]
pub enum Next {
    /// It reads the active session, to tell of a change.
    ReadChange,
    /// It reads the active session, to catch up in silence.
    ReadAfterLag,
    /// It waits for the next event.
    Wait,
    /// It ends.
    Stop,
}

impl Event {
    /// What the watcher does upon this event.
    pub open spec fn spec_next(self) -> Next {
        match self {
            Event::LogChanged => Next::ReadChange,
            Event::PlanChanged => Next::Wait,
            Event::Lagged => Next::ReadAfterLag,
            Event::Closed => Next::Stop,
            Event::Interrupted => Next::Stop,
            Event::Terminated => Next::Stop,
        }
    }

    /// What the watcher does upon this event.
    pub fn next(&self) -> (next: Next)
        ensures
            next == self.spec_next(),
    {
        match self {
            Event::LogChanged => Next::ReadChange,
            Event::PlanChanged => Next::Wait,
            Event::Lagged => Next::ReadAfterLag,
            Event::Closed => Next::Stop,
            Event::Interrupted => Next::Stop,
            Event::Terminated => Next::Stop,
        }
    }
}

/// What reading the active session gave.
#[derive(Debug)]
pub enum Reading {
    /// The log could not be read.
    Failed,
    /// The active session, where there is one.
    Active(Option<Snapshot>),
}

/// What reading the active session gave, as text and numbers.
pub enum ReadingView {
    Failed,
    Active(Option<SnapshotView>),
}

impl View for Reading {
    type V = ReadingView;

    open spec fn view(&self) -> ReadingView {
        match self {
            Reading::Failed => ReadingView::Failed,
            Reading::Active(active) => ReadingView::Active(active.deep_view()),
        }
    }
}

/// The session that the watcher knows after a reading: the one that was read, or, where the
/// reading failed, still the one it knew.
pub open spec fn known_after(prev: Option<SnapshotView>, reading: ReadingView) -> Option<
    SnapshotView,
> {
    match reading {
        ReadingView::Failed => prev,
        ReadingView::Active(curr) => curr,
    }
}

/// What is posted of a reading that follows a change of the log: the change of the session, where
/// there is one and the configuration enables its kind.
pub open spec fn change_posted(
    config: ConfigView,
    prev: Option<SnapshotView>,
    reading: ReadingView,
    now: MomentView,
) -> Option<DeliveryView> {
    match reading {
        ReadingView::Failed => None,
        ReadingView::Active(curr) => match transition(prev, curr) {
            Some(kind) if config.notify_on.contains(kind.spec_name()) => Some(
                delivered(
                    transition_message(prev, curr, now, config.templates),
                    config.dry_run,
                ),
            ),
            _ => None,
        },
    }
}

/// What is posted when the watcher begins: the active session, where the configuration asks for
/// that and enables the kind.
pub open spec fn startup_posted(config: ConfigView, prev: Option<SnapshotView>) -> Option<
    DeliveryView,
> {
    match prev {
        Some(snapshot) if config.announce_on_startup && config.notify_on.contains("start"@) => Some(
            delivered(start_message(snapshot, config.templates), config.dry_run),
        ),
        _ => None,
    }
}

/// The watcher's memory: the active session as it was last read.
#[derive(Debug)]
pub struct Watcher {
    pub prev: Option<Snapshot>,
}

impl View for Watcher {
    type V = Option<SnapshotView>;

    open spec fn view(&self) -> Option<SnapshotView> {
        self.prev.deep_view()
    }
}

impl Watcher {
    /// A watcher that knows the active session.
    pub fn new(prev: Option<Snapshot>) -> (watcher: Watcher)
        ensures
            watcher@ == prev.deep_view(),
    {
        Watcher { prev }
    }

    /// What is posted when the watcher begins.
    pub fn on_startup(&self, config: &Config) -> (posted: Option<Delivery>)
        ensures
            posted.deep_view() == startup_posted(config@, self@),
    {
        if config.announce_on_startup {
            if let Some(snapshot) = &self.prev {
                if config.notify_on.contains("start") {
                    let body = render(config.templates.start.as_str(), &snapshot.fields());
                    return Some(send_text(body, config.dry_run));
                }
            }
        }
        None
    }

    /// Takes in a reading that follows a change of the log, and tells what is posted of it.
    pub fn on_change(&mut self, config: &Config, reading: Reading, now: Moment) -> (posted: Option<
        Delivery,
    >)
        ensures
            final(self)@ == known_after(old(self)@, reading@),
            posted.deep_view() == change_posted(config@, old(self)@, reading@, now@),
    {
        match reading {
            Reading::Failed => None,
            Reading::Active(curr) => {
                let mut posted: Option<Delivery> = None;
                if let Some((kind, body)) = diff(
                    self.prev.as_ref(),
                    curr.as_ref(),
                    now,
                    &config.templates,
                ) {
                    if config.notify_on.contains(kind.name()) {
                        posted = Some(send_text(body, config.dry_run));
                    }
                }
                self.prev = curr;
                posted
            },
        }
    }

    /// Takes in a reading that follows dropped events, of which nothing is posted.
    pub fn on_lag(&mut self, reading: Reading)
        ensures
            final(self)@ == known_after(old(self)@, reading@),
    {
        match reading {
            Reading::Failed => {},
            Reading::Active(curr) => {
                self.prev = curr;
            },
        }
    }
}

/// A reading with what caused it.
pub enum Input {
    /// The log had changed; this was the time then.
    Change(ReadingView, MomentView),
    /// Events had been dropped.
    Lag(ReadingView),
}

impl Input {
    /// What was read.
    pub open spec fn reading(self) -> ReadingView {
        match self {
            Input::Change(reading, _) => reading,
            Input::Lag(reading) => reading,
        }
    }

    /// The log could be read.
    pub open spec fn succeeded(self) -> bool {
        self.reading() is Active
    }

    /// What is posted of it, if anything.
    pub open spec fn posted(self, config: ConfigView, prev: Option<SnapshotView>) -> Seq<
        DeliveryView,
    > {
        match self {
            Input::Change(reading, now) => match change_posted(config, prev, reading, now) {
                Some(delivery) => seq![delivery],
                None => seq![],
            },
            Input::Lag(_) => seq![],
        }
    }
}

/// The session that the watcher knows after a run of readings.
pub open spec fn known_after_all(prev: Option<SnapshotView>, inputs: Seq<Input>) -> Option<
    SnapshotView,
>
    decreases inputs.len(),
{
    if inputs.len() == 0 {
        prev
    } else {
        known_after(known_after_all(prev, inputs.drop_last()), inputs.last().reading())
    }
}

/// All that is posted in a run of readings.
pub open spec fn posted_in_all(
    config: ConfigView,
    prev: Option<SnapshotView>,
    inputs: Seq<Input>,
) -> Seq<DeliveryView>
    decreases inputs.len(),
{
    if inputs.len() == 0 {
        seq![]
    } else {
        let front = inputs.drop_last();
        posted_in_all(config, prev, front) + inputs.last().posted(
            config,
            known_after_all(prev, front),
        )
    }
}

/// Readings that fail leave no trace: without them the run ends in the same memory and has posted
/// the same.
pub proof fn failed_readings_leave_no_trace(
    config: ConfigView,
    prev: Option<SnapshotView>,
    inputs: Seq<Input>,
)
    ensures
        ({
            let kept = inputs.filter(|input: Input| input.succeeded());
            &&& known_after_all(prev, inputs) == known_after_all(prev, kept)
            &&& posted_in_all(config, prev, inputs) == posted_in_all(config, prev, kept)
        }),
    decreases inputs.len(),
{
    reveal(Seq::filter);
    if inputs.len() > 0 {
        let front = inputs.drop_last();
        failed_readings_leave_no_trace(config, prev, front);
        let kept = front.filter(|input: Input| input.succeeded());
        if inputs.last().succeeded() {
            assert(kept.push(inputs.last()).drop_last() == kept);
        } else {
            assert(inputs.last().posted(config, known_after_all(prev, front)) =~= seq![]);
        }
    }
}

/// After a reading the watcher knows what was read, whatever it knew and whatever it has posted.
pub proof fn last_reading_is_known(
    prev: Option<SnapshotView>,
    inputs: Seq<Input>,
    curr: Option<SnapshotView>,
)
    requires
        inputs.len() > 0,
        inputs.last().reading() == ReadingView::Active(curr),
    ensures
        known_after_all(prev, inputs) == curr,
{
}

/// A change of the log that leaves the active session as it was posts nothing.
pub proof fn repeated_reading_is_silent(
    config: ConfigView,
    prev: Option<SnapshotView>,
    inputs: Seq<Input>,
    curr: Option<SnapshotView>,
    first: MomentView,
    second: MomentView,
)
    ensures
        ({
            let once = inputs.push(Input::Change(ReadingView::Active(curr), first));
            let twice = once.push(Input::Change(ReadingView::Active(curr), second));
            &&& posted_in_all(config, prev, twice) == posted_in_all(config, prev, once)
            &&& known_after_all(prev, twice) == known_after_all(prev, once)
        }),
{
    let once = inputs.push(Input::Change(ReadingView::Active(curr), first));
    let twice = once.push(Input::Change(ReadingView::Active(curr), second));
    assert(twice.drop_last() == once);
    assert(once.drop_last() == inputs);
}

/// What happened while events were dropped is never posted: the reading that catches up posts
/// nothing, and the next change is told from there.
pub proof fn lag_is_silent(
    config: ConfigView,
    prev: Option<SnapshotView>,
    inputs: Seq<Input>,
    missed: Option<SnapshotView>,
    curr: Option<SnapshotView>,
    now: MomentView,
)
    ensures
        ({
            let caught_up = inputs.push(Input::Lag(ReadingView::Active(missed)));
            let change = Input::Change(ReadingView::Active(curr), now);
            &&& posted_in_all(config, prev, caught_up) == posted_in_all(config, prev, inputs)
            &&& posted_in_all(config, prev, caught_up.push(change)) == posted_in_all(
                config,
                prev,
                inputs,
            ) + change.posted(config, missed)
        }),
{
    let caught_up = inputs.push(Input::Lag(ReadingView::Active(missed)));
    let change = Input::Change(ReadingView::Active(curr), now);
    assert(caught_up.drop_last() == inputs);
    assert(caught_up.push(change).drop_last() == caught_up);
    assert(posted_in_all(config, prev, caught_up) =~= posted_in_all(config, prev, inputs));
    assert(known_after_all(prev, caught_up) == missed);
}

/// A dry run sends nothing: all it posts is printed, with its mark.
pub proof fn dry_run_sends_nothing(
    config: ConfigView,
    prev: Option<SnapshotView>,
    inputs: Seq<Input>,
)
    requires
        config.dry_run,
    ensures
        startup_posted(config, prev) matches Some(delivery) ==> is_dry(delivery),
        forall|i: int|
            0 <= i < posted_in_all(config, prev, inputs).len() ==> is_dry(
                #[trigger] posted_in_all(config, prev, inputs)[i],
            ),
    decreases inputs.len(),
{
    if let Some(snapshot) = prev {
        lemma_dry(start_message(snapshot, config.templates));
    }
    if inputs.len() > 0 {
        let front = inputs.drop_last();
        dry_run_sends_nothing(config, prev, front);
        let known = known_after_all(prev, front);
        if let Input::Change(ReadingView::Active(curr), now) = inputs.last() {
            lemma_dry(transition_message(known, curr, now, config.templates));
        }
        let posted = posted_in_all(config, prev, front);
        let more = inputs.last().posted(config, known);
        assert forall|i: int| 0 <= i < posted_in_all(config, prev, inputs).len() implies is_dry(
            #[trigger] posted_in_all(config, prev, inputs)[i],
        ) by {
            if i < posted.len() {
                assert(is_dry(posted[i]));
            } else {
                assert(more.len() == 1 && i == posted.len());
            }
        }
    }
}

/// A line that a dry run prints in place of a message.
pub open spec fn is_dry(delivery: DeliveryView) -> bool {
    delivery matches DeliveryView::Print(line) && exists|body: Seq<char>|
        line == #[trigger] ("[dry_run] "@ + body)
}

proof fn lemma_dry(body: Seq<char>)
    ensures
        is_dry(delivered(body, true)),
{
}

/// With all three kinds enabled each start, stop and switch is posted, and nothing else is.
pub proof fn every_change_is_posted(
    config: ConfigView,
    prev: Option<SnapshotView>,
    curr: Option<SnapshotView>,
    now: MomentView,
)
    requires
        config.notify_on.contains("start"@),
        config.notify_on.contains("stop"@),
        config.notify_on.contains("switch"@),
    ensures
        change_posted(config, prev, ReadingView::Active(curr), now) is Some <==> transition(
            prev,
            curr,
        ) is Some,
{
}

/// A kind that is not enabled is never posted.
pub proof fn disabled_kind_is_not_posted(
    config: ConfigView,
    prev: Option<SnapshotView>,
    curr: Option<SnapshotView>,
    now: MomentView,
)
    requires
        transition(prev, curr) matches Some(kind) && !config.notify_on.contains(kind.spec_name()),
    ensures
        change_posted(config, prev, ReadingView::Active(curr), now) is None,
{
}

/// How often a kind of change occurs in a run of readings.
pub open spec fn occurrences(
    kind: Transition,
    prev: Option<SnapshotView>,
    readings: Seq<Option<SnapshotView>>,
) -> int
    decreases readings.len(),
{
    if readings.len() == 0 {
        0
    } else {
        let front = readings.drop_last();
        let before = if front.len() == 0 {
            prev
        } else {
            front.last()
        };
        occurrences(kind, prev, front) + if transition(before, readings.last()) == Some(kind) {
            1int
        } else {
            0int
        }
    }
}

/// Starts and stops balance: in a run of readings the starts are as many as the stops, but for a
/// session that is active at one end of the run only.
pub proof fn starts_and_stops_balance(
    prev: Option<SnapshotView>,
    readings: Seq<Option<SnapshotView>>,
)
    ensures
        ({
            let last = if readings.len() == 0 {
                prev
            } else {
                readings.last()
            };
            let begun: int = if last is Some {
                1
            } else {
                0
            };
            let had: int = if prev is Some {
                1
            } else {
                0
            };
            occurrences(Transition::Start, prev, readings) - occurrences(
                Transition::Stop,
                prev,
                readings,
            ) == begun - had
        }),
    decreases readings.len(),
{
    if readings.len() > 0 {
        starts_and_stops_balance(prev, readings.drop_last());
    }
}

/// The watcher tells of a change upon a change of the log alone, catches up upon dropped events
/// alone, and ends when no more events come or it is told to; a change of the plan is ignored.
pub proof fn each_event_has_its_step(event: Event)
    ensures
        event.spec_next() == Next::ReadChange <==> event is LogChanged,
        event.spec_next() == Next::ReadAfterLag <==> event is Lagged,
        event.spec_next() == Next::Wait <==> event is PlanChanged,
        event.spec_next() == Next::Stop <==> event is Closed || event is Interrupted
            || event is Terminated,
{
}

/// A reading is known from then on, whatever was known before; one that failed changes nothing and
/// posts nothing.
pub proof fn reading_is_known_unless_it_failed(
    config: ConfigView,
    prev: Option<SnapshotView>,
    curr: Option<SnapshotView>,
    now: MomentView,
)
    ensures
        known_after(prev, ReadingView::Active(curr)) == curr,
        known_after(prev, ReadingView::Failed) == prev,
        change_posted(config, prev, ReadingView::Failed, now) is None,
{
}

/// Each kind of change is posted just where its own name is enabled, whatever other names are.
pub proof fn each_kind_is_enabled_by_its_name(
    config: ConfigView,
    prev: SnapshotView,
    curr: SnapshotView,
    now: MomentView,
)
    ensures
        change_posted(config, None, ReadingView::Active(Some(curr)), now) is Some
            <==> config.notify_on.contains("start"@),
        change_posted(config, Some(prev), ReadingView::Active(None), now) is Some
            <==> config.notify_on.contains("stop"@),
        change_posted(config, Some(prev), ReadingView::Active(Some(curr)), now) is Some
            <==> config.notify_on.contains("switch"@) && (prev.start.secs != curr.start.secs
            || prev.start.nanos != curr.start.nanos),
        change_posted(config, None, ReadingView::Active(None), now) is None,
{
}

/// A change whose kind is enabled is posted, whatever other names the configuration enables.
pub proof fn enabled_kind_is_posted(
    config: ConfigView,
    prev: Option<SnapshotView>,
    curr: Option<SnapshotView>,
    now: MomentView,
)
    requires
        transition(prev, curr) matches Some(kind) && config.notify_on.contains(kind.spec_name()),
    ensures
        change_posted(config, prev, ReadingView::Active(curr), now) is Some,
{
}

/// What is posted of a change is its message: sent as it is, or printed behind the mark of a dry
/// run.
pub proof fn posted_change_is_its_message(
    config: ConfigView,
    prev: Option<SnapshotView>,
    curr: Option<SnapshotView>,
    now: MomentView,
)
    ensures
        change_posted(config, prev, ReadingView::Active(curr), now) matches Some(delivery) ==> {
            let message = transition_message(prev, curr, now, config.templates);
            &&& !config.dry_run ==> delivery == DeliveryView::Send(message)
            &&& config.dry_run ==> delivery == DeliveryView::Print("[dry_run] "@ + message)
        },
{
}

/// Two configurations that agree on whether a kind is enabled, on the templates and on whether the
/// run is dry post the same of a change of that kind.
pub proof fn other_kinds_do_not_matter(
    config: ConfigView,
    other: ConfigView,
    prev: Option<SnapshotView>,
    curr: Option<SnapshotView>,
    now: MomentView,
)
    requires
        transition(prev, curr) matches Some(kind) ==> config.notify_on.contains(kind.spec_name())
            == other.notify_on.contains(kind.spec_name()),
        config.templates == other.templates,
        config.dry_run == other.dry_run,
    ensures
        change_posted(config, prev, ReadingView::Active(curr), now) == change_posted(
            other,
            prev,
            ReadingView::Active(curr),
            now,
        ),
{
}

/// When the watcher begins the active session is announced just where there is one, the
/// configuration asks for that, and starts are enabled.
pub proof fn startup_is_announced_on_demand(config: ConfigView, prev: Option<SnapshotView>)
    ensures
        startup_posted(config, prev) is Some <==> prev is Some && config.announce_on_startup
            && config.notify_on.contains("start"@),
{
}

/// A session is told of in the same way by the `now` command, when it is announced as the watcher
/// begins, and when it is seen to start.
pub proof fn session_is_told_of_alike(config: ConfigView, active: SnapshotView, now: MomentView)
    ensures
        startup_posted(config, Some(active)) matches Some(delivery) ==> delivery == now_delivery(
            config,
            Some(active),
        ),
        change_posted(config, None, ReadingView::Active(Some(active)), now) matches Some(delivery)
            ==> delivery == now_delivery(config, Some(active)),
{
}

/// The views of a reading and of the watcher show what was read.
pub proof fn readings_show_what_was_read(reading: Reading, watcher: Watcher)
    ensures
        reading is Failed <==> reading@ is Failed,
        reading matches Reading::Active(None) ==> reading@ == ReadingView::Active(None),
        reading matches Reading::Active(Some(active)) ==> reading@ == ReadingView::Active(
            Some(active@),
        ),
        watcher.prev is None <==> watcher@ is None,
        watcher.prev matches Some(active) ==> watcher@ == Some(active@),
{
}

} // verus!
