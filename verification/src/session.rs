//! The active session and what a message can say of it.
use vstd::prelude::*;

use crate::collections::TextMap;
use crate::moment::Moment;
#[allow(unused_imports)]
use crate::moment::MomentView;
use crate::text::join;
#[allow(unused_imports)]
use crate::text::joined;
#[allow(unused_imports)]
use crate::text::views;

verus! {

/// A session of the log: what was noted of it, and when it began.
#[derive(Debug)]
pub struct Session {
    pub title: Option<String>,
    pub role: Option<String>,
    pub impact: Option<String>,
    pub mode: Option<String>,
    pub subject: Option<String>,
    pub trackers: Vec<String>,
    pub start: Moment,
}

/// A note, or nothing where none was made.
pub open spec fn text_or_empty(text: Option<String>) -> Seq<char> {
    match text {
        Some(t) => t@,
        None => Seq::empty(),
    }
}

/// A session as it was at one reading of the log.
#[derive(Clone, Debug, PartialEq)]
pub struct Snapshot {
    pub title: String,
    pub role: String,
    pub impact: String,
    pub mode: String,
    pub subject: String,
    pub trackers: String,
    pub start: Moment,
}

/// A snapshot as text and numbers.
pub struct SnapshotView {
    pub title: Seq<char>,
    pub role: Seq<char>,
    pub impact: Seq<char>,
    pub mode: Seq<char>,
    pub subject: Seq<char>,
    pub trackers: Seq<char>,
    pub start: MomentView,
}

impl SnapshotView {
    /// The fields that a template can name.
    pub open spec fn fields(self) -> Map<Seq<char>, Seq<char>> {
        map![
            "title"@ => self.title,
            "role"@ => self.role,
            "impact"@ => self.impact,
            "mode"@ => self.mode,
            "subject"@ => self.subject,
            "trackers"@ => self.trackers,
            "start_time"@ => self.start.clock_text(),
        ]
    }
}

impl View for Snapshot {
    type V = SnapshotView;

    open spec fn view(&self) -> SnapshotView {
        SnapshotView {
            title: self.title@,
            role: self.role@,
            impact: self.impact@,
            mode: self.mode@,
            subject: self.subject@,
            trackers: self.trackers@,
            start: self.start@,
        }
    }
}

impl DeepView for Snapshot {
    type V = SnapshotView;

    open spec fn deep_view(&self) -> SnapshotView {
        self@
    }
}

impl Session {
    /// The snapshot of this session: missing notes are empty, and the trackers stand in one list.
    pub open spec fn snapshot(self) -> SnapshotView {
        SnapshotView {
            title: text_or_empty(self.title),
            role: text_or_empty(self.role),
            impact: text_or_empty(self.impact),
            mode: text_or_empty(self.mode),
            subject: text_or_empty(self.subject),
            trackers: joined(views(self.trackers@), ", "@),
            start: self.start@,
        }
    }
}

fn or_empty(text: &Option<String>) -> (value: String)
    ensures
        value@ == text_or_empty(*text),
{
    match text {
        Some(t) => t.clone(),
        None => String::new(),
    }
}

impl Snapshot {
    /// The snapshot of a session.
    pub fn from_session(session: &Session) -> (snapshot: Snapshot)
        ensures
            snapshot@ == session.snapshot(),
    {
        Snapshot {
            title: or_empty(&session.title),
            role: or_empty(&session.role),
            impact: or_empty(&session.impact),
            mode: or_empty(&session.mode),
            subject: or_empty(&session.subject),
            trackers: join(&session.trackers, ", "),
            start: session.start,
        }
    }

    /// The fields that a template can name.
    pub fn fields(&self) -> (fields: TextMap)
        ensures
            fields@ == self@.fields(),
    {
        let mut m = TextMap::new();
        m.insert("title", self.title.clone());
        m.insert("role", self.role.clone());
        m.insert("impact", self.impact.clone());
        m.insert("mode", self.mode.clone());
        m.insert("subject", self.subject.clone());
        m.insert("trackers", self.trackers.clone());
        m.insert("start_time", self.start.clock());
        m
    }
}

/// The lengths of the field names, and the first characters of those that are equally long: no two
/// names are the same.
pub proof fn field_names_differ()
    ensures
        "title"@.len() == 5,
        "role"@.len() == 4 && "role"@[0] == 'r',
        "mode"@.len() == 4 && "mode"@[0] == 'm',
        "impact"@.len() == 6,
        "subject"@.len() == 7,
        "trackers"@.len() == 8 && "trackers"@[0] == 't',
        "duration"@.len() == 8 && "duration"@[0] == 'd',
        "start_time"@.len() == 10 && "start_time"@[0] == 's',
        "prev_title"@.len() == 10 && "prev_title"@[0] == 'p',
        "prev_duration"@.len() == 13,
{
    reveal_strlit("title");
    reveal_strlit("role");
    reveal_strlit("impact");
    reveal_strlit("mode");
    reveal_strlit("subject");
    reveal_strlit("trackers");
    reveal_strlit("start_time");
    reveal_strlit("duration");
    reveal_strlit("prev_title");
    reveal_strlit("prev_duration");
}

/// Each field of a snapshot reads back as what the snapshot holds, and it has no others.
pub proof fn fields_read_back(snapshot: SnapshotView)
    ensures
        ({
            let fields = snapshot.fields();
            &&& fields["title"@] == snapshot.title
            &&& fields["role"@] == snapshot.role
            &&& fields["impact"@] == snapshot.impact
            &&& fields["mode"@] == snapshot.mode
            &&& fields["subject"@] == snapshot.subject
            &&& fields["trackers"@] == snapshot.trackers
            &&& fields["start_time"@] == snapshot.start.clock_text()
            &&& fields.dom() == set![
                "title"@,
                "role"@,
                "impact"@,
                "mode"@,
                "subject"@,
                "trackers"@,
                "start_time"@,
            ]
        }),
{
    field_names_differ();
}

/// Each note of a session stands in its snapshot under its own name, and is empty there where none
/// was made, whatever the other notes are; the snapshot begins when the session did.
pub proof fn snapshot_keeps_each_note(session: Session)
    ensures
        session.title matches Some(title) ==> session.snapshot().title == title@,
        session.title is None ==> session.snapshot().title == Seq::<char>::empty(),
        session.role matches Some(role) ==> session.snapshot().role == role@,
        session.role is None ==> session.snapshot().role == Seq::<char>::empty(),
        session.impact matches Some(impact) ==> session.snapshot().impact == impact@,
        session.impact is None ==> session.snapshot().impact == Seq::<char>::empty(),
        session.mode matches Some(mode) ==> session.snapshot().mode == mode@,
        session.mode is None ==> session.snapshot().mode == Seq::<char>::empty(),
        session.subject matches Some(subject) ==> session.snapshot().subject == subject@,
        session.subject is None ==> session.snapshot().subject == Seq::<char>::empty(),
        session.snapshot().start == session.start@,
{
}

/// Without trackers the list of them is empty, and one tracker is the list.
pub proof fn few_trackers_stand_alone(session: Session)
    ensures
        session.trackers@.len() == 0 ==> session.snapshot().trackers == Seq::<char>::empty(),
        session.trackers@.len() == 1 ==> session.snapshot().trackers == session.trackers@[0]@,
{
}

/// A session with one tracker more has it at the end of the list, behind a comma and a space.
pub proof fn trackers_are_listed_in_order(session: Session, more: Session, tracker: String)
    requires
        session.trackers@.len() > 0,
        more.trackers@ == session.trackers@.push(tracker),
    ensures
        more.snapshot().trackers == session.snapshot().trackers + seq![',', ' '] + tracker@,
{
    reveal_strlit(", ");
    assert(", "@ =~= seq![',', ' ']);
    let parts = views(more.trackers@);
    assert(parts.drop_last() == views(session.trackers@));
    assert(parts.last() == tracker@);
}

/// A snapshot's view shows each of its parts under its own name.
pub proof fn snapshot_shows_its_parts(snapshot: Snapshot)
    ensures
        snapshot@.title == snapshot.title@,
        snapshot@.role == snapshot.role@,
        snapshot@.impact == snapshot.impact@,
        snapshot@.mode == snapshot.mode@,
        snapshot@.subject == snapshot.subject@,
        snapshot@.trackers == snapshot.trackers@,
        snapshot@.start == snapshot.start@,
        snapshot.deep_view() == snapshot@,
{
}

} // verus!
