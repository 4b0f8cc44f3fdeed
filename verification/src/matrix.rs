//! Matrix identifiers, the account's identity and its cross-signing keys.
use vstd::prelude::*;

use crate::error::PluginError;
#[allow(unused_imports)]
use crate::error::ProblemView;
use crate::text::{begins_with, same_text};

verus! {

/// A parsed identifier, or why it is none, as text.
pub open spec fn parsed_view(parsed: Result<String, String>) -> Result<Seq<char>, Seq<char>> {
    match parsed {
        Ok(id) => Ok(id@),
        Err(reason) => Err(reason@),
    }
}

/// Whether a string begins with a character.
pub open spec fn has_sigil(s: Seq<char>, sigil: char) -> bool {
    s.len() > 0 && s[0] == sigil
}

/// The refusal of a string for its first character.
pub open spec fn sigil_refused() -> Result<Seq<char>, Seq<char>> {
    Err("leading sigil is incorrect or missing"@)
}

/// The refusal of a string that has no colon before a server name.
pub open spec fn colon_refused() -> Result<Seq<char>, Seq<char>> {
    Err("required colon is missing"@)
}

/// What parsing a string as a user ID gives: the ID, or the text of the error.
pub uninterp spec fn user_id_parse(s: Seq<char>) -> Result<Seq<char>, Seq<char>>;

/// What parsing a string as a room alias gives: the alias, or the text of the error.
pub uninterp spec fn room_alias_parse(s: Seq<char>) -> Result<Seq<char>, Seq<char>>;

/// What parsing a string as a room ID gives. An ID begins with `!` and has no NUL character.
pub open spec fn room_id_parse(s: Seq<char>) -> Result<Seq<char>, Seq<char>> {
    if !has_sigil(s, '!') {
        sigil_refused()
    } else if s.contains('\0') {
        Err("identifier contains invalid characters"@)
    } else {
        Ok(s)
    }
}

/// `matrix_sdk::ruma::OwnedUserId::try_from`, whose error is given by its text. An ID that it
/// accepts is the string itself, begins with `@` and has a colon; a string that does not begin with
/// `@` is refused for that, and one that does and has no colon is refused for the colon. Which
/// server names it accepts is not said here.
#[verifier::external_body]
pub(crate) fn parse_user_id(s: &str) -> (parsed: Result<String, String>)
    ensures
        parsed_view(parsed) == user_id_parse(s@),
        parsed matches Ok(id) ==> id@ == s@ && has_sigil(id@, '@') && id@.contains(':'),
        !has_sigil(s@, '@') ==> parsed_view(parsed) == sigil_refused(),
        has_sigil(s@, '@') && !s@.contains(':') ==> parsed_view(parsed) == colon_refused(),
{
    match matrix_sdk::ruma::OwnedUserId::try_from(s.to_string()) {
        Ok(id) => Ok(id.to_string()),
        Err(e) => Err(e.to_string()),
    }
}

/// `str::parse` to a `matrix_sdk::ruma::OwnedRoomId`, whose error is given by its text: a string
/// that begins with `!` and has no NUL character is a room ID. `matrix_sdk` builds `ruma` with its
/// limit on the length of identifiers turned off, so the length does not matter.
#[verifier::external_body]
fn parse_room_id(s: &str) -> (parsed: Result<String, String>)
    ensures
        parsed_view(parsed) == room_id_parse(s@),
{
    match s.parse::<matrix_sdk::ruma::OwnedRoomId>() {
        Ok(id) => Ok(id.to_string()),
        Err(e) => Err(e.to_string()),
    }
}

/// `<&matrix_sdk::ruma::RoomAliasId>::try_from`, whose error is given by its text. An alias that it
/// accepts is the string itself, begins with `#` and has a colon; a string that does not begin with
/// `#` is refused for that, and one that does and has no colon is refused for the colon. As for a
/// room ID the length does not matter. Which server names it accepts is not said here.
#[verifier::external_body]
fn parse_room_alias(s: &str) -> (parsed: Result<String, String>)
    ensures
        parsed_view(parsed) == room_alias_parse(s@),
        parsed matches Ok(alias) ==> alias@ == s@ && has_sigil(alias@, '#')
            && alias@.contains(':'),
        !has_sigil(s@, '#') ==> parsed_view(parsed) == sigil_refused(),
        has_sigil(s@, '#') && !s@.contains(':') ==> parsed_view(parsed) == colon_refused(),
{
    match <&matrix_sdk::ruma::RoomAliasId>::try_from(s) {
        Ok(alias) => Ok(alias.to_string()),
        Err(e) => Err(e.to_string()),
    }
}

/// How a configured room is found.
#[derive(Debug, PartialEq)]
pub enum RoomTarget {
    /// By its ID, without asking.
    Id(String),
    /// By an alias, which the server resolves.
    Alias(String),
}

/// How a configured room is found, as text.
pub enum RoomTargetView {
    Id(Seq<char>),
    Alias(Seq<char>),
}

impl View for RoomTarget {
    type V = RoomTargetView;

    open spec fn view(&self) -> RoomTargetView {
        match self {
            RoomTarget::Id(id) => RoomTargetView::Id(id@),
            RoomTarget::Alias(alias) => RoomTargetView::Alias(alias@),
        }
    }
}

/// A room target or a problem, as text.
pub open spec fn target_view(
    target: Result<RoomTarget, PluginError>,
) -> Result<RoomTargetView, ProblemView> {
    match target {
        Ok(t) => Ok(t@),
        Err(e) => Err(e@),
    }
}

/// How a configured room is found, given what parsing it as an alias gives: `!` marks an ID, `#` an
/// alias, and anything else is refused.
pub open spec fn room_target(
    room: Seq<char>,
    alias: Result<Seq<char>, Seq<char>>,
) -> Result<RoomTargetView, ProblemView> {
    if has_sigil(room, '!') {
        match room_id_parse(room) {
            Ok(id) => Ok(RoomTargetView::Id(id)),
            Err(reason) => Err(ProblemView::InvalidRoomId { reason }),
        }
    } else if has_sigil(room, '#') {
        match alias {
            Ok(alias) => Ok(RoomTargetView::Alias(alias)),
            Err(reason) => Err(ProblemView::InvalidRoomAlias { room, reason }),
        }
    } else {
        Err(ProblemView::InvalidRoom { room })
    }
}

/// How a configured room is found, given what parsing it as an alias gave.
pub fn resolve_room_with(room: &str, alias: Result<String, String>) -> (target: Result<
    RoomTarget,
    PluginError,
>)
    ensures
        target_view(target) == room_target(room@, parsed_view(alias)),
{
    if begins_with(room, '!') {
        match parse_room_id(room) {
            Ok(id) => Ok(RoomTarget::Id(id)),
            Err(reason) => Err(PluginError::InvalidRoomId { reason }),
        }
    } else if begins_with(room, '#') {
        match alias {
            Ok(alias) => Ok(RoomTarget::Alias(alias)),
            Err(reason) => Err(PluginError::InvalidRoomAlias { room: room.to_owned(), reason }),
        }
    } else {
        Err(PluginError::InvalidRoom { room: room.to_owned() })
    }
}

/// How a configured room is found.
pub fn resolve_room(room: &str) -> (target: Result<RoomTarget, PluginError>)
    ensures
        target_view(target) == room_target(room@, room_alias_parse(room@)),
        target matches Ok(RoomTarget::Id(id)) ==> id@ == room@ && has_sigil(id@, '!'),
        target matches Ok(RoomTarget::Alias(alias)) ==> {
            &&& alias@ == room@
            &&& has_sigil(alias@, '#')
            &&& alias@.contains(':')
        },
        has_sigil(room@, '#') && !room@.contains(':') ==> target_view(target) == room_target(
            room@,
            colon_refused(),
        ),
{
    let alias = parse_room_alias(room);
    resolve_room_with(room, alias)
}

/// What is wrong with the account that a token belongs to, where the server says something else
/// than the configuration. A server that names no device leaves the device unchecked.
pub open spec fn identity_problem(
    user_id: Seq<char>,
    device_id: Seq<char>,
    server_user_id: Seq<char>,
    server_device_id: Option<Seq<char>>,
) -> Option<ProblemView> {
    if server_user_id != user_id {
        Some(ProblemView::UserMismatch { config: user_id, server: server_user_id })
    } else {
        match server_device_id {
            Some(device) if device != device_id => Some(
                ProblemView::DeviceMismatch { config: device_id, server: device },
            ),
            _ => None,
        }
    }
}

/// Checks the configured user and device against what the server says of the token.
pub fn check_identity(
    user_id: &str,
    device_id: &str,
    server_user_id: &str,
    server_device_id: Option<&str>,
) -> (checked: Result<(), PluginError>)
    ensures
        match identity_problem(
            user_id@,
            device_id@,
            server_user_id@,
            server_device_id.deep_view(),
        ) {
            None => checked is Ok,
            Some(problem) => checked matches Err(e) && e@ == problem,
        },
{
    if !same_text(server_user_id, user_id) {
        return Err(
            PluginError::UserMismatch {
                config: user_id.to_owned(),
                server: server_user_id.to_owned(),
            },
        );
    }
    if let Some(device) = server_device_id {
        if !same_text(device, device_id) {
            return Err(
                PluginError::DeviceMismatch {
                    config: device_id.to_owned(),
                    server: device.to_owned(),
                },
            );
        }
    }
    Ok(())
}

/// Which of an account's cross-signing keys exist.
#[derive(Clone, Copy, Debug)]
pub struct CrossSigning {
    pub has_master: bool,
    pub has_self_signing: bool,
    pub has_user_signing: bool,
}

impl CrossSigning {
    /// All three keys exist.
    pub open spec fn complete(self) -> bool {
        self.has_master && self.has_self_signing && self.has_user_signing
    }
}

/// Whether the cross-signing keys have to be set up: unless all of them are known to exist.
pub fn needs_cross_signing(status: Option<CrossSigning>) -> (needed: bool)
    ensures
        needed <==> !(status matches Some(keys) && keys.complete()),
        status is None ==> needed,
        status matches Some(keys) ==> needed == (!keys.has_master || !keys.has_self_signing
            || !keys.has_user_signing),
{
    match status {
        Some(keys) => !(keys.has_master && keys.has_self_signing && keys.has_user_signing),
        None => true,
    }
}

/// A room is found by the configured string itself, and only where that begins with `!` or `#`.
pub proof fn room_is_an_id_or_an_alias(room: Seq<char>, alias: Result<Seq<char>, Seq<char>>)
    ensures
        room_target(room, alias) is Ok ==> has_sigil(room, '!') || has_sigil(room, '#'),
        !has_sigil(room, '!') && !has_sigil(room, '#') ==> room_target(room, alias) == Err::<
            RoomTargetView,
            ProblemView,
        >(ProblemView::InvalidRoom { room }),
        room_target(room, alias) matches Ok(RoomTargetView::Id(id)) ==> id == room,
        has_sigil(room, '!') && !room.contains('\0') ==> room_target(room, alias) == Ok::<
            RoomTargetView,
            ProblemView,
        >(RoomTargetView::Id(room)),
{
}

/// The account is accepted just where the server names the configured user, and the configured
/// device or none.
pub proof fn identity_is_accepted_on_match(
    user_id: Seq<char>,
    device_id: Seq<char>,
    server_user_id: Seq<char>,
    server_device_id: Option<Seq<char>>,
)
    ensures
        identity_problem(user_id, device_id, server_user_id, server_device_id) is None <==> {
            &&& server_user_id == user_id
            &&& server_device_id matches Some(device) ==> device == device_id
        },
{
}

/// A room that begins with `!` is found by its ID, which is the configured string, unless a NUL
/// character is in it, and whatever an alias of that text would be.
pub proof fn room_id_is_taken_as_it_is(room: Seq<char>, alias: Result<Seq<char>, Seq<char>>)
    requires
        room.len() > 0,
        room[0] == '!',
    ensures
        !room.contains('\0') ==> room_target(room, alias) == Ok::<RoomTargetView, ProblemView>(
            RoomTargetView::Id(room),
        ),
        room.contains('\0') ==> room_target(room, alias) == Err::<RoomTargetView, ProblemView>(
            ProblemView::InvalidRoomId { reason: "identifier contains invalid characters"@ },
        ),
{
}

/// A room that begins with `#` is found by the alias that parsing it gave, and is refused for the
/// reason that parsing it gave.
pub proof fn room_alias_is_the_parsed_one(room: Seq<char>, alias: Result<Seq<char>, Seq<char>>)
    requires
        room.len() > 0,
        room[0] == '#',
    ensures
        alias matches Ok(name) ==> room_target(room, alias) == Ok::<RoomTargetView, ProblemView>(
            RoomTargetView::Alias(name),
        ),
        alias matches Err(reason) ==> room_target(room, alias) == Err::<
            RoomTargetView,
            ProblemView,
        >(ProblemView::InvalidRoomAlias { room, reason }),
{
}

/// A room that begins with neither, or is empty, is refused as it stands.
pub proof fn other_rooms_are_refused(room: Seq<char>, alias: Result<Seq<char>, Seq<char>>)
    requires
        room.len() > 0 ==> room[0] != '!' && room[0] != '#',
    ensures
        room_target(room, alias) == Err::<RoomTargetView, ProblemView>(
            ProblemView::InvalidRoom { room },
        ),
{
}

/// The texts of the two refusals that do not depend on a server name, and what a sigil is.
pub proof fn refusals_have_their_texts(s: Seq<char>, sigil: char)
    ensures
        has_sigil(s, sigil) <==> s.len() > 0 && s[0] == sigil,
        sigil_refused() == Err::<Seq<char>, Seq<char>>("leading sigil is incorrect or missing"@),
        colon_refused() == Err::<Seq<char>, Seq<char>>("required colon is missing"@),
{
}

/// Another user is told of before another device, and each with the configured value and the
/// server's.
pub proof fn mismatch_names_both_sides(
    user_id: Seq<char>,
    device_id: Seq<char>,
    server_user_id: Seq<char>,
    server_device_id: Option<Seq<char>>,
)
    ensures
        server_user_id != user_id ==> identity_problem(
            user_id,
            device_id,
            server_user_id,
            server_device_id,
        ) == Some(ProblemView::UserMismatch { config: user_id, server: server_user_id }),
        server_device_id matches Some(device) ==> (server_user_id == user_id && device != device_id
            ==> identity_problem(user_id, device_id, server_user_id, server_device_id) == Some(
            ProblemView::DeviceMismatch { config: device_id, server: device },
        )),
{
}

/// The views of a room target and of what parsing gave show the text and which of the two it is.
pub proof fn targets_show_their_text(
    id: String,
    alias: String,
    reason: String,
    problem: PluginError,
)
    ensures
        target_view(Ok(RoomTarget::Id(id))) == Ok::<RoomTargetView, ProblemView>(
            RoomTargetView::Id(id@),
        ),
        target_view(Ok(RoomTarget::Alias(alias))) == Ok::<RoomTargetView, ProblemView>(
            RoomTargetView::Alias(alias@),
        ),
        target_view(Err(problem)) == Err::<RoomTargetView, ProblemView>(problem@),
        parsed_view(Ok(id)) == Ok::<Seq<char>, Seq<char>>(id@),
        parsed_view(Err(reason)) == Err::<Seq<char>, Seq<char>>(reason@),
{
}

} // verus!
