//! What happened between two readings of the log, and the message that tells of it.
use vstd::prelude::*;

use crate::moment::{fmt_duration, Moment};
#[allow(unused_imports)]
use crate::moment::{duration_text, elapsed_secs, MomentView};
use crate::session::Snapshot;
#[allow(unused_imports)]
use crate::session::{field_names_differ, fields_read_back, SnapshotView};
use crate::template::render;
#[allow(unused_imports)]
use crate::template::{
    leading_text_is_kept, placeholder_is_replaced, plain_text_is_kept, rendered,
};

verus! {

/// The templates of the three kinds of message.
#[derive(Clone, Debug)]
pub struct Templates {
    pub start: String,
    pub stop: String,
    pub switch: String,
}

/// The templates as text.
pub struct TemplatesView {
    pub start: Seq<char>,
    pub stop: Seq<char>,
    pub switch: Seq<char>,
}

impl View for Templates {
    type V = TemplatesView;

    open spec fn view(&self) -> TemplatesView {
        TemplatesView { start: self.start@, stop: self.stop@, switch: self.switch@ }
    }
}

/// A kind of change of the active session.
#[derive(Debug)]
pub enum Transition {
    Start,
    Stop,
    Switch,
}

impl Transition {
    /// The name under which a configuration enables this kind.
    pub open spec fn spec_name(self) -> Seq<char> {
        match self {
            Transition::Start => "start"@,
            Transition::Stop => "stop"@,
            Transition::Switch => "switch"@,
        }
    }

    /// The name under which a configuration enables this kind.
    pub fn name(&self) -> (name: &'static str)
        ensures
            name@ == self.spec_name(),
    {
        match self {
            Transition::Start => "start",
            Transition::Stop => "stop",
            Transition::Switch => "switch",
        }
    }
}

/// The change from one reading to the next: a session began, the session ended, or a session with
/// another start took its place.
pub open spec fn transition(
    prev: Option<SnapshotView>,
    curr: Option<SnapshotView>,
) -> Option<Transition> {
    match (prev, curr) {
        (None, None) => None,
        (None, Some(_)) => Some(Transition::Start),
        (Some(_), None) => Some(Transition::Stop),
        (Some(p), Some(c)) => if p.start.same_instant(c.start) {
            None
        } else {
            Some(Transition::Switch)
        },
    }
}

/// The message of a session that began.
pub open spec fn start_message(curr: SnapshotView, templates: TemplatesView) -> Seq<char> {
    rendered(templates.start, curr.fields())
}

/// The message of a session that ended, which can name its duration.
pub open spec fn stop_message(
    prev: SnapshotView,
    now: MomentView,
    templates: TemplatesView,
) -> Seq<char> {
    rendered(
        templates.stop,
        prev.fields().insert("duration"@, duration_text(elapsed_secs(prev.start, now))),
    )
}

/// The message of a session that took another's place, which can name the other's title and
/// duration.
pub open spec fn switch_message(
    prev: SnapshotView,
    curr: SnapshotView,
    now: MomentView,
    templates: TemplatesView,
) -> Seq<char> {
    rendered(
        templates.switch,
        curr.fields().insert("prev_title"@, prev.title).insert(
            "prev_duration"@,
            duration_text(elapsed_secs(prev.start, now)),
        ),
    )
}

/// The message of the change from one reading to the next, where there is a change.
pub open spec fn transition_message(
    prev: Option<SnapshotView>,
    curr: Option<SnapshotView>,
    now: MomentView,
    templates: TemplatesView,
) -> Seq<char> {
    match (prev, curr) {
        (None, None) => Seq::empty(),
        (None, Some(c)) => start_message(c, templates),
        (Some(p), None) => stop_message(p, now, templates),
        (Some(p), Some(c)) => switch_message(p, c, now, templates),
    }
}

/// The change from one reading to the next and its message.
pub fn diff(
    prev: Option<&Snapshot>,
    curr: Option<&Snapshot>,
    now: Moment,
    templates: &Templates,
) -> (change: Option<(Transition, String)>)
    ensures
        match change {
            None => transition(prev.deep_view(), curr.deep_view()) is None,
            Some((kind, body)) => {
                &&& transition(prev.deep_view(), curr.deep_view()) == Some(kind)
                &&& body@ == transition_message(
                    prev.deep_view(),
                    curr.deep_view(),
                    now@,
                    templates@,
                )
            },
        },
{
    match (prev, curr) {
        (None, None) => None,
        (None, Some(c)) => Some(
            (Transition::Start, render(templates.start.as_str(), &c.fields())),
        ),
        (Some(p), None) => {
            let mut f = p.fields();
            f.insert("duration", fmt_duration(p.start, now));
            Some((Transition::Stop, render(templates.stop.as_str(), &f)))
        },
        (Some(p), Some(c)) => {
            if p.start == c.start {
                return None;
            }
            let mut f = c.fields();
            f.insert("prev_title", p.title.clone());
            f.insert("prev_duration", fmt_duration(p.start, now));
            Some((Transition::Switch, render(templates.switch.as_str(), &f)))
        },
    }
}

/// A reading that finds what the one before it found is no change, and so is one in which the
/// session has the same start but other notes.
pub proof fn same_start_is_no_change(prev: Option<SnapshotView>, curr: Option<SnapshotView>)
    ensures
        transition(prev, prev) is None,
        transition(prev, curr) is None <==> match (prev, curr) {
            (Some(p), Some(c)) => p.start.same_instant(c.start),
            _ => prev is None && curr is None,
        },
{
}

/// A change and the change back: what begins one way ends the other, and a switch is a switch both
/// ways.
pub proof fn change_back(prev: Option<SnapshotView>, curr: Option<SnapshotView>)
    ensures
        transition(prev, curr) == Some(Transition::Start) <==> transition(curr, prev) == Some(
            Transition::Stop,
        ),
        transition(prev, curr) == Some(Transition::Switch) <==> transition(curr, prev) == Some(
            Transition::Switch,
        ),
{
}

/// The names of the three kinds differ, so that each can be enabled by itself.
pub proof fn kind_names_differ(a: Transition, b: Transition)
    ensures
        a.spec_name() == b.spec_name() ==> a == b,
{
    reveal_strlit("start");
    reveal_strlit("stop");
    reveal_strlit("switch");
    assert("start"@.len() == 5 && "stop"@.len() == 4 && "switch"@.len() == 6);
}

/// What the built-in template says of a session that began.
pub proof fn built_in_start_message(curr: SnapshotView, templates: TemplatesView)
    requires
        templates.start == "[faff] started: {title} ({start_time})"@,
    ensures
        start_message(curr, templates) == "[faff] started: "@ + curr.title + " ("@
            + curr.start.clock_text() + ")"@,
{
    reveal_strlit("[faff] started: {title} ({start_time})");
    reveal_strlit("[faff] started: ");
    reveal_strlit("title");
    reveal_strlit(" (");
    reveal_strlit("start_time");
    reveal_strlit(")");
    let fields = curr.fields();
    let second = seq!['{'] + "start_time"@ + seq!['}'] + ")"@;
    let first = seq!['{'] + "title"@ + seq!['}'] + (" ("@ + second);
    assert(templates.start =~= "[faff] started: "@ + first);
    leading_text_is_kept("[faff] started: "@, first, fields);
    placeholder_is_replaced("title"@, " ("@ + second, fields);
    leading_text_is_kept(" ("@, second, fields);
    placeholder_is_replaced("start_time"@, ")"@, fields);
    plain_text_is_kept(")"@, fields);
    fields_read_back(curr);
    assert(start_message(curr, templates) =~= "[faff] started: "@ + curr.title + " ("@
        + curr.start.clock_text() + ")"@);
}

/// What the built-in template says of a session that ended.
pub proof fn built_in_stop_message(prev: SnapshotView, now: MomentView, templates: TemplatesView)
    requires
        templates.stop == "[faff] stopped: {title} after {duration}"@,
    ensures
        stop_message(prev, now, templates) == "[faff] stopped: "@ + prev.title + " after "@
            + duration_text(elapsed_secs(prev.start, now)),
{
    reveal_strlit("[faff] stopped: {title} after {duration}");
    reveal_strlit("[faff] stopped: ");
    reveal_strlit("title");
    reveal_strlit(" after ");
    reveal_strlit("duration");
    let duration = duration_text(elapsed_secs(prev.start, now));
    let fields = prev.fields().insert("duration"@, duration);
    let nothing = Seq::<char>::empty();
    let second = seq!['{'] + "duration"@ + seq!['}'] + nothing;
    let first = seq!['{'] + "title"@ + seq!['}'] + (" after "@ + second);
    assert(templates.stop =~= "[faff] stopped: "@ + first);
    leading_text_is_kept("[faff] stopped: "@, first, fields);
    placeholder_is_replaced("title"@, " after "@ + second, fields);
    leading_text_is_kept(" after "@, second, fields);
    placeholder_is_replaced("duration"@, nothing, fields);
    plain_text_is_kept(nothing, fields);
    fields_read_back(prev);
    field_names_differ();
    assert(stop_message(prev, now, templates) =~= "[faff] stopped: "@ + prev.title + " after "@
        + duration);
}

/// What the built-in template says of a session that took another's place.
pub proof fn built_in_switch_message(
    prev: SnapshotView,
    curr: SnapshotView,
    now: MomentView,
    templates: TemplatesView,
)
    requires
        templates.switch == "[faff] switched: {prev_title} -> {title}"@,
    ensures
        switch_message(prev, curr, now, templates) == "[faff] switched: "@ + prev.title + " -> "@
            + curr.title,
{
    reveal_strlit("[faff] switched: {prev_title} -> {title}");
    reveal_strlit("[faff] switched: ");
    reveal_strlit("prev_title");
    reveal_strlit(" -> ");
    reveal_strlit("title");
    let fields = curr.fields().insert("prev_title"@, prev.title).insert(
        "prev_duration"@,
        duration_text(elapsed_secs(prev.start, now)),
    );
    let nothing = Seq::<char>::empty();
    let second = seq!['{'] + "title"@ + seq!['}'] + nothing;
    let first = seq!['{'] + "prev_title"@ + seq!['}'] + (" -> "@ + second);
    assert(templates.switch =~= "[faff] switched: "@ + first);
    leading_text_is_kept("[faff] switched: "@, first, fields);
    placeholder_is_replaced("prev_title"@, " -> "@ + second, fields);
    leading_text_is_kept(" -> "@, second, fields);
    placeholder_is_replaced("title"@, nothing, fields);
    plain_text_is_kept(nothing, fields);
    fields_read_back(curr);
    field_names_differ();
    assert(switch_message(prev, curr, now, templates) =~= "[faff] switched: "@ + prev.title
        + " -> "@ + curr.title);
}

/// The message of a start is the start template, filled with what is noted of the session that
/// began and with nothing else.
pub proof fn start_message_names_the_new_session(
    curr: SnapshotView,
    now: MomentView,
    templates: TemplatesView,
    fields: Map<Seq<char>, Seq<char>>,
)
    requires
        fields.dom() == set![
            "title"@,
            "role"@,
            "impact"@,
            "mode"@,
            "subject"@,
            "trackers"@,
            "start_time"@,
        ],
        fields["title"@] == curr.title,
        fields["role"@] == curr.role,
        fields["impact"@] == curr.impact,
        fields["mode"@] == curr.mode,
        fields["subject"@] == curr.subject,
        fields["trackers"@] == curr.trackers,
        fields["start_time"@] == curr.start.clock_text(),
    ensures
        transition_message(None, Some(curr), now, templates) == rendered(
            templates.start,
            fields,
        ),
        start_message(curr, templates) == rendered(templates.start, fields),
{
    fields_read_back(curr);
    assert(fields =~= curr.fields());
}

/// The message of a stop is the stop template, filled with what is noted of the session that ended
/// and with the time from its start until now.
pub proof fn stop_message_names_the_old_session(
    prev: SnapshotView,
    now: MomentView,
    templates: TemplatesView,
    fields: Map<Seq<char>, Seq<char>>,
)
    requires
        fields.dom() == set![
            "title"@,
            "role"@,
            "impact"@,
            "mode"@,
            "subject"@,
            "trackers"@,
            "start_time"@,
            "duration"@,
        ],
        fields["title"@] == prev.title,
        fields["role"@] == prev.role,
        fields["impact"@] == prev.impact,
        fields["mode"@] == prev.mode,
        fields["subject"@] == prev.subject,
        fields["trackers"@] == prev.trackers,
        fields["start_time"@] == prev.start.clock_text(),
        fields["duration"@] == duration_text(elapsed_secs(prev.start, now)),
    ensures
        transition_message(Some(prev), None, now, templates) == rendered(
            templates.stop,
            fields,
        ),
{
    fields_read_back(prev);
    field_names_differ();
    assert(fields =~= prev.fields().insert(
        "duration"@,
        duration_text(elapsed_secs(prev.start, now)),
    ));
}

/// The message of a switch is the switch template, filled with what is noted of the session that
/// began, and with the title of the one that ended and the time from its start until now.
pub proof fn switch_message_names_both_sessions(
    prev: SnapshotView,
    curr: SnapshotView,
    now: MomentView,
    templates: TemplatesView,
    fields: Map<Seq<char>, Seq<char>>,
)
    requires
        fields.dom() == set![
            "title"@,
            "role"@,
            "impact"@,
            "mode"@,
            "subject"@,
            "trackers"@,
            "start_time"@,
            "prev_title"@,
            "prev_duration"@,
        ],
        fields["title"@] == curr.title,
        fields["role"@] == curr.role,
        fields["impact"@] == curr.impact,
        fields["mode"@] == curr.mode,
        fields["subject"@] == curr.subject,
        fields["trackers"@] == curr.trackers,
        fields["start_time"@] == curr.start.clock_text(),
        fields["prev_title"@] == prev.title,
        fields["prev_duration"@] == duration_text(elapsed_secs(prev.start, now)),
    ensures
        transition_message(Some(prev), Some(curr), now, templates) == rendered(
            templates.switch,
            fields,
        ),
{
    fields_read_back(curr);
    field_names_differ();
    assert(fields =~= curr.fields().insert("prev_title"@, prev.title).insert(
        "prev_duration"@,
        duration_text(elapsed_secs(prev.start, now)),
    ));
}

/// In the message of a start text stays, and each placeholder is replaced by what is noted under
/// its name of the session that began, or by nothing where the name is unknown.
pub proof fn start_message_fills_each_placeholder(
    curr: SnapshotView,
    now: MomentView,
    templates: TemplatesView,
    text: Seq<char>,
    key: Seq<char>,
    value: Seq<char>,
    rest: Seq<char>,
)
    requires
        !text.contains('{'),
        !key.contains('}'),
        ({
            ||| key == "title"@ && value == curr.title
            ||| key == "role"@ && value == curr.role
            ||| key == "impact"@ && value == curr.impact
            ||| key == "mode"@ && value == curr.mode
            ||| key == "subject"@ && value == curr.subject
            ||| key == "trackers"@ && value == curr.trackers
            ||| key == "start_time"@ && value == curr.start.clock_text()
            ||| value == Seq::<char>::empty() && !set![
                "title"@,
                "role"@,
                "impact"@,
                "mode"@,
                "subject"@,
                "trackers"@,
                "start_time"@,
            ].contains(key)
        }),
    ensures
        ({
            let whole = text + seq!['{'] + key + seq!['}'] + rest;
            &&& transition_message(
                None,
                Some(curr),
                now,
                TemplatesView { start: whole, ..templates },
            ) == text + value + transition_message(
                None,
                Some(curr),
                now,
                TemplatesView { start: rest, ..templates },
            )
            &&& transition_message(
                None,
                Some(curr),
                now,
                TemplatesView { start: text, ..templates },
            ) == text
        }),
{
    let fields = curr.fields();
    let placeholder = seq!['{'] + key + seq!['}'] + rest;
    let whole = text + seq!['{'] + key + seq!['}'] + rest;
    fields_read_back(curr);
    field_names_differ();
    assert(whole == text + placeholder);
    leading_text_is_kept(text, placeholder, fields);
    placeholder_is_replaced(key, rest, fields);
    plain_text_is_kept(text, fields);
    assert(rendered(whole, fields) == text + value + rendered(rest, fields));
}

/// In the message of a stop text stays, and each placeholder is replaced by what is noted under its
/// name of the session that ended, with its duration until now, or by nothing.
pub proof fn stop_message_fills_each_placeholder(
    prev: SnapshotView,
    now: MomentView,
    templates: TemplatesView,
    text: Seq<char>,
    key: Seq<char>,
    value: Seq<char>,
    rest: Seq<char>,
)
    requires
        !text.contains('{'),
        !key.contains('}'),
        ({
            ||| key == "title"@ && value == prev.title
            ||| key == "role"@ && value == prev.role
            ||| key == "impact"@ && value == prev.impact
            ||| key == "mode"@ && value == prev.mode
            ||| key == "subject"@ && value == prev.subject
            ||| key == "trackers"@ && value == prev.trackers
            ||| key == "start_time"@ && value == prev.start.clock_text()
            ||| key == "duration"@ && value == duration_text(elapsed_secs(prev.start, now))
            ||| value == Seq::<char>::empty() && !set![
                "title"@,
                "role"@,
                "impact"@,
                "mode"@,
                "subject"@,
                "trackers"@,
                "start_time"@,
                "duration"@,
            ].contains(key)
        }),
    ensures
        ({
            let whole = text + seq!['{'] + key + seq!['}'] + rest;
            &&& transition_message(
                Some(prev),
                None,
                now,
                TemplatesView { stop: whole, ..templates },
            ) == text + value + transition_message(
                Some(prev),
                None,
                now,
                TemplatesView { stop: rest, ..templates },
            )
            &&& transition_message(
                Some(prev),
                None,
                now,
                TemplatesView { stop: text, ..templates },
            ) == text
        }),
{
    let fields = prev.fields().insert(
        "duration"@,
        duration_text(elapsed_secs(prev.start, now)),
    );
    let placeholder = seq!['{'] + key + seq!['}'] + rest;
    let whole = text + seq!['{'] + key + seq!['}'] + rest;
    fields_read_back(prev);
    field_names_differ();
    assert(whole == text + placeholder);
    leading_text_is_kept(text, placeholder, fields);
    placeholder_is_replaced(key, rest, fields);
    plain_text_is_kept(text, fields);
    assert(rendered(whole, fields) == text + value + rendered(rest, fields));
}

/// In the message of a switch text stays, and each placeholder is replaced by what is noted under
/// its name of the session that began, or of the one that ended where the name asks for that.
pub proof fn switch_message_fills_each_placeholder(
    prev: SnapshotView,
    curr: SnapshotView,
    now: MomentView,
    templates: TemplatesView,
    text: Seq<char>,
    key: Seq<char>,
    value: Seq<char>,
    rest: Seq<char>,
)
    requires
        !text.contains('{'),
        !key.contains('}'),
        ({
            ||| key == "title"@ && value == curr.title
            ||| key == "role"@ && value == curr.role
            ||| key == "impact"@ && value == curr.impact
            ||| key == "mode"@ && value == curr.mode
            ||| key == "subject"@ && value == curr.subject
            ||| key == "trackers"@ && value == curr.trackers
            ||| key == "start_time"@ && value == curr.start.clock_text()
            ||| key == "prev_title"@ && value == prev.title
            ||| key == "prev_duration"@ && value == duration_text(elapsed_secs(prev.start, now))
            ||| value == Seq::<char>::empty() && !set![
                "title"@,
                "role"@,
                "impact"@,
                "mode"@,
                "subject"@,
                "trackers"@,
                "start_time"@,
                "prev_title"@,
                "prev_duration"@,
            ].contains(key)
        }),
    ensures
        ({
            let whole = text + seq!['{'] + key + seq!['}'] + rest;
            &&& transition_message(
                Some(prev),
                Some(curr),
                now,
                TemplatesView { switch: whole, ..templates },
            ) == text + value + transition_message(
                Some(prev),
                Some(curr),
                now,
                TemplatesView { switch: rest, ..templates },
            )
            &&& transition_message(
                Some(prev),
                Some(curr),
                now,
                TemplatesView { switch: text, ..templates },
            ) == text
        }),
{
    let fields = curr.fields().insert("prev_title"@, prev.title).insert(
        "prev_duration"@,
        duration_text(elapsed_secs(prev.start, now)),
    );
    let placeholder = seq!['{'] + key + seq!['}'] + rest;
    let whole = text + seq!['{'] + key + seq!['}'] + rest;
    fields_read_back(curr);
    field_names_differ();
    assert(whole == text + placeholder);
    leading_text_is_kept(text, placeholder, fields);
    placeholder_is_replaced(key, rest, fields);
    plain_text_is_kept(text, fields);
    assert(rendered(whole, fields) == text + value + rendered(rest, fields));
}

/// A session where there was none is a start, none where there was one is a stop, and of two
/// sessions the second is a switch where their starts differ in seconds or nanoseconds, on whatever
/// clocks they are read and whatever is noted of them.
pub proof fn change_is_told_by_the_starts(a: SnapshotView, b: SnapshotView)
    ensures
        transition(None, None) is None,
        transition(None, Some(b)) == Some(Transition::Start),
        transition(Some(a), None) == Some(Transition::Stop),
        a.start.secs == b.start.secs && a.start.nanos == b.start.nanos ==> transition(
            Some(a),
            Some(b),
        ) is None,
        a.start.secs != b.start.secs || a.start.nanos != b.start.nanos ==> transition(
            Some(a),
            Some(b),
        ) == Some(Transition::Switch),
{
}

/// The clocks on which two starts are read do not matter to the change that is told.
pub proof fn clocks_do_not_matter_to_a_change(
    prev: SnapshotView,
    curr: SnapshotView,
    prev_offset: int,
    curr_offset: int,
)
    ensures
        ({
            let p = SnapshotView {
                start: MomentView { offset: prev_offset, ..prev.start },
                ..prev
            };
            let c = SnapshotView {
                start: MomentView { offset: curr_offset, ..curr.start },
                ..curr
            };
            transition(Some(p), Some(c)) == transition(Some(prev), Some(curr))
        }),
{
}

/// The names under which the kinds are enabled.
pub proof fn kinds_have_their_names()
    ensures
        Transition::Start.spec_name() == "start"@,
        Transition::Stop.spec_name() == "stop"@,
        Transition::Switch.spec_name() == "switch"@,
{
}

/// The templates' view shows each of them under its own name.
pub proof fn templates_show_their_parts(templates: Templates)
    ensures
        templates@.start == templates.start@,
        templates@.stop == templates.stop@,
        templates@.switch == templates.switch@,
{
}

} // verus!
