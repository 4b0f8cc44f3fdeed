//! What becomes of a message, and the messages of the commands that run once.
use vstd::prelude::*;
use vstd::string::StringExecFns;

use crate::config::Config;
#[allow(unused_imports)]
use crate::config::ConfigView;
use crate::session::Snapshot;
#[allow(unused_imports)]
use crate::session::SnapshotView;
use crate::template::render;
use crate::text::same_text;
#[allow(unused_imports)]
use crate::template::rendered;
#[allow(unused_imports)]
use crate::text::views;
#[allow(unused_imports)]
use crate::transition::start_message;

verus! {

/// What is done with a message.
#[derive(Debug, PartialEq)]
pub enum Delivery {
    /// The line is printed and nothing is sent.
    Print(String),
    /// The message is sent to the room, and printed once it is.
    Send(String),
}

/// What is done with a message, as text.
pub enum DeliveryView {
    Print(Seq<char>),
    Send(Seq<char>),
}

impl View for Delivery {
    type V = DeliveryView;

    open spec fn view(&self) -> DeliveryView {
        match self {
            Delivery::Print(line) => DeliveryView::Print(line@),
            Delivery::Send(body) => DeliveryView::Send(body@),
        }
    }
}

impl DeepView for Delivery {
    type V = DeliveryView;

    open spec fn deep_view(&self) -> DeliveryView {
        self@
    }
}

/// What is done with a message: in a dry run it is printed with a mark, otherwise it is sent.
pub open spec fn delivered(body: Seq<char>, dry_run: bool) -> DeliveryView {
    if dry_run {
        DeliveryView::Print("[dry_run] "@ + body)
    } else {
        DeliveryView::Send(body)
    }
}

/// Decides what is done with a message.
pub fn send_text(body: String, dry_run: bool) -> (delivery: Delivery)
    ensures
        delivery@ == delivered(body@, dry_run),
{
    if dry_run {
        Delivery::Print("[dry_run] ".to_owned().concat(body.as_str()))
    } else {
        Delivery::Send(body)
    }
}

/// What the `now` command does: it posts the active session, and says so where there is none.
pub open spec fn now_delivery(config: ConfigView, active: Option<SnapshotView>) -> DeliveryView {
    match active {
        None => DeliveryView::Print("no active session"@),
        Some(snapshot) => delivered(start_message(snapshot, config.templates), config.dry_run),
    }
}

/// Decides what the `now` command does.
pub fn cmd_now(config: &Config, active: Option<&Snapshot>) -> (delivery: Delivery)
    ensures
        delivery@ == now_delivery(config@, active.deep_view()),
{
    match active {
        None => Delivery::Print("no active session".to_owned()),
        Some(snapshot) => {
            let body = render(config.templates.start.as_str(), &snapshot.fields());
            send_text(body, config.dry_run)
        },
    }
}

/// What the `test` command finds and does.
#[derive(Debug)]
pub struct Probe {
    /// How many others have joined the room; with none, nobody can read the probe.
    pub other_joined: usize,
    /// What is done with the probe message.
    pub delivery: Delivery,
}

/// The joined members other than the account itself.
pub open spec fn others(members: Seq<Seq<char>>, user_id: Seq<char>) -> Seq<Seq<char>> {
    members.filter(|member: Seq<char>| member != user_id)
}

/// What is done with the probe message.
pub open spec fn probe_delivery(dry_run: bool) -> DeliveryView {
    if dry_run {
        DeliveryView::Print("dry_run set; not posting probe."@)
    } else {
        DeliveryView::Send("[faff] connection test ok"@)
    }
}

/// Decides what the `test` command does in a room with these joined members.
pub fn cmd_test(config: &Config, joined: &Vec<String>) -> (probe: Probe)
    ensures
        probe.other_joined == others(views(joined@), config@.user_id).len(),
        probe.delivery@ == probe_delivery(config@.dry_run),
{
    let mut other_joined: usize = 0;
    let mut i: usize = 0;
    let ghost members = views(joined@);
    proof {
        reveal(Seq::filter);
        assert(others(members.take(0), config@.user_id).len() == 0);
    }
    while i < joined.len()
        invariant
            i <= joined@.len(),
            members == views(joined@),
            other_joined == others(members.take(i as int), config@.user_id).len(),
            other_joined <= i,
        decreases joined@.len() - i,
    {
        proof {
            reveal(Seq::filter);
            assert(members.take(i + 1).drop_last() == members.take(i as int));
            assert(members.take(i + 1).last() == joined@[i as int]@);
        }
        if !same_text(joined[i].as_str(), config.user_id.as_str()) {
            other_joined = other_joined + 1;
        }
        i = i + 1;
    }
    assert(members.take(members.len() as int) == members);
    let delivery = if config.dry_run {
        Delivery::Print("dry_run set; not posting probe.".to_owned())
    } else {
        Delivery::Send("[faff] connection test ok".to_owned())
    };
    Probe { other_joined, delivery }
}

/// In a dry run the commands that run once send nothing, and otherwise they send what they post.
pub proof fn only_a_live_run_sends(config: ConfigView, active: Option<SnapshotView>)
    ensures
        now_delivery(config, active) is Send <==> active is Some && !config.dry_run,
        probe_delivery(config.dry_run) is Send <==> !config.dry_run,
{
}

/// A message is sent as it is, and a dry run prints the same message behind its mark.
pub proof fn message_is_delivered_as_it_is(body: Seq<char>)
    ensures
        delivered(body, false) == DeliveryView::Send(body),
        delivered(body, true) == DeliveryView::Print("[dry_run] "@ + body),
{
}

/// The `now` command posts the configured start template, filled with what is noted of the active
/// session, or prints it behind the mark of a dry run; without a session it says that there is
/// none, in a dry run and otherwise.
pub proof fn now_fills_the_start_template(config: ConfigView, active: SnapshotView)
    ensures
        !config.dry_run ==> now_delivery(config, Some(active)) == DeliveryView::Send(
            rendered(config.templates.start, active.fields()),
        ),
        config.dry_run ==> now_delivery(config, Some(active)) == DeliveryView::Print(
            "[dry_run] "@ + rendered(config.templates.start, active.fields()),
        ),
        now_delivery(config, None) == DeliveryView::Print("no active session"@),
{
}

/// What the `now` command does depends on nothing in the configuration but the start template and
/// whether the run is dry.
pub proof fn now_looks_at_the_start_template(
    config: ConfigView,
    other: ConfigView,
    active: Option<SnapshotView>,
)
    requires
        config.templates.start == other.templates.start,
        config.dry_run == other.dry_run,
    ensures
        now_delivery(config, active) == now_delivery(other, active),
{
}

/// The probe is one message whatever the configuration, and a dry run only says that it is not
/// posted.
pub proof fn probe_is_one_message()
    ensures
        probe_delivery(false) == DeliveryView::Send("[faff] connection test ok"@),
        probe_delivery(true) == DeliveryView::Print("dry_run set; not posting probe."@),
{
}

/// An empty room has no others; one more member is one more of the others, unless it is the
/// account itself.
pub proof fn others_are_counted_one_by_one(
    members: Seq<Seq<char>>,
    member: Seq<char>,
    user_id: Seq<char>,
)
    ensures
        others(seq![], user_id).len() == 0,
        member == user_id ==> others(members.push(member), user_id).len() == others(
            members,
            user_id,
        ).len(),
        member != user_id ==> others(members.push(member), user_id).len() == others(
            members,
            user_id,
        ).len() + 1,
{
    reveal(Seq::filter);
    assert(members.push(member).drop_last() == members);
}

/// A delivery's view shows whether it is printed or sent, and the text.
pub proof fn delivery_shows_its_text(delivery: Delivery)
    ensures
        delivery matches Delivery::Print(line) ==> delivery@ == DeliveryView::Print(line@),
        delivery matches Delivery::Send(body) ==> delivery@ == DeliveryView::Send(body@),
        delivery.deep_view() == delivery@,
{
}

} // verus!
