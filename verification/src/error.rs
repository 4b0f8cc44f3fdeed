//! What can be wrong with a configuration or with the account it names.
use vstd::prelude::*;
use vstd::string::StringExecFns;

verus! {

/// A problem that ends the program.
#[derive(Debug, PartialEq)]
pub enum PluginError {
    /// No access token was given.
    MissingToken,
    /// The configured user ID is malformed.
    InvalidUserId { user_id: String, reason: String },
    /// The configured room ID is malformed.
    InvalidRoomId { reason: String },
    /// The configured room alias is malformed.
    InvalidRoomAlias { room: String, reason: String },
    /// The configured room is neither an ID nor an alias.
    InvalidRoom { room: String },
    /// The token belongs to another user.
    UserMismatch { config: String, server: String },
    /// The token belongs to another device.
    DeviceMismatch { config: String, server: String },
    /// The account has not joined the room.
    NotAMember { room_id: String },
}

/// A problem with its details as text.
pub enum ProblemView {
    MissingToken,
    InvalidUserId { user_id: Seq<char>, reason: Seq<char> },
    InvalidRoomId { reason: Seq<char> },
    InvalidRoomAlias { room: Seq<char>, reason: Seq<char> },
    InvalidRoom { room: Seq<char> },
    UserMismatch { config: Seq<char>, server: Seq<char> },
    DeviceMismatch { config: Seq<char>, server: Seq<char> },
    NotAMember { room_id: Seq<char> },
}

impl View for PluginError {
    type V = ProblemView;

    open spec fn view(&self) -> ProblemView {
        match self {
            PluginError::MissingToken => ProblemView::MissingToken,
            PluginError::InvalidUserId { user_id, reason } => ProblemView::InvalidUserId {
                user_id: user_id@,
                reason: reason@,
            },
            PluginError::InvalidRoomId { reason } => ProblemView::InvalidRoomId { reason: reason@ },
            PluginError::InvalidRoomAlias { room, reason } => ProblemView::InvalidRoomAlias {
                room: room@,
                reason: reason@,
            },
            PluginError::InvalidRoom { room } => ProblemView::InvalidRoom { room: room@ },
            PluginError::UserMismatch { config, server } => ProblemView::UserMismatch {
                config: config@,
                server: server@,
            },
            PluginError::DeviceMismatch { config, server } => ProblemView::DeviceMismatch {
                config: config@,
                server: server@,
            },
            PluginError::NotAMember { room_id } => ProblemView::NotAMember { room_id: room_id@ },
        }
    }
}

impl ProblemView {
    /// The part of the configuration that the message quotes; empty where it quotes none.
    pub open spec fn subject(self) -> Seq<char> {
        match self {
            ProblemView::InvalidUserId { user_id, .. } => user_id,
            ProblemView::InvalidRoomAlias { room, .. } => room,
            ProblemView::InvalidRoom { room } => room,
            _ => Seq::empty(),
        }
    }

    /// The message, given what quoting the subject gives.
    pub open spec fn message(self, quote: Seq<char>) -> Seq<char> {
        match self {
            ProblemView::MissingToken =>
                "config: provide connection.access_token or set the env var named by connection.access_token_env"@,
            ProblemView::InvalidUserId { reason, .. } => "invalid user_id "@ + quote + ": "@
                + reason,
            ProblemView::InvalidRoomId { reason } => reason,
            ProblemView::InvalidRoomAlias { reason, .. } => "invalid room alias "@ + quote + ": "@
                + reason,
            ProblemView::InvalidRoom { .. } => "invalid room identifier "@ + quote
                + " \u{2014} must start with # or !"@,
            ProblemView::UserMismatch { config, server } => "config user_id ("@ + config
                + ") does not match server ("@ + server + ")"@,
            ProblemView::DeviceMismatch { config, server } => "config device_id ("@ + config
                + ") does not match server ("@ + server + ")"@,
            ProblemView::NotAMember { room_id } => "bot user is not a member of "@ + room_id
                + "; invite + accept first"@,
        }
    }
}

/// What the `Debug` formatting of a string gives.
pub uninterp spec fn debug_text(s: Seq<char>) -> Seq<char>;

/// `format!` with `{:?}` on a string: the string in double quotes, with escapes.
#[verifier::external_body]
fn debug_format(s: &str) -> (text: String)
    ensures
        text@ == debug_text(s@),
{
    format!("{s:?}")
}

fn concat3(a: &str, b: &str, c: &str) -> (text: String)
    ensures
        text@ == a@ + b@ + c@,
{
    a.to_owned().concat(b).concat(c)
}

impl PluginError {
    /// The message of this problem, with `quote` where it quotes the configuration.
    pub fn message_quoting(&self, quote: &str) -> (text: String)
        ensures
            text@ == self@.message(quote@),
    {
        match self {
            PluginError::MissingToken =>
                "config: provide connection.access_token or set the env var named by connection.access_token_env".to_owned(),
            PluginError::InvalidUserId { reason, .. } => concat3(
                "invalid user_id ",
                quote,
                ": ",
            ).concat(reason.as_str()),
            PluginError::InvalidRoomId { reason } => reason.clone(),
            PluginError::InvalidRoomAlias { reason, .. } => concat3(
                "invalid room alias ",
                quote,
                ": ",
            ).concat(reason.as_str()),
            PluginError::InvalidRoom { .. } => concat3(
                "invalid room identifier ",
                quote,
                " \u{2014} must start with # or !",
            ),
            PluginError::UserMismatch { config, server } => concat3(
                "config user_id (",
                config.as_str(),
                ") does not match server (",
            ).concat(server.as_str()).concat(")"),
            PluginError::DeviceMismatch { config, server } => concat3(
                "config device_id (",
                config.as_str(),
                ") does not match server (",
            ).concat(server.as_str()).concat(")"),
            PluginError::NotAMember { room_id } => concat3(
                "bot user is not a member of ",
                room_id.as_str(),
                "; invite + accept first",
            ),
        }
    }

    /// The message of this problem.
    pub fn message(&self) -> (text: String)
        ensures
            text@ == self@.message(debug_text(self@.subject())),
    {
        let quote = match self {
            PluginError::InvalidUserId { user_id, .. } => debug_format(user_id.as_str()),
            PluginError::InvalidRoomAlias { room, .. } => debug_format(room.as_str()),
            PluginError::InvalidRoom { room } => debug_format(room.as_str()),
            _ => String::new(),
        };
        self.message_quoting(quote.as_str())
    }
}

/// The message quotes the part of the configuration that is malformed, and nothing where another
/// thing is wrong.
pub proof fn message_quotes_what_is_malformed(text: Seq<char>, detail: Seq<char>)
    ensures
        (ProblemView::InvalidUserId { user_id: text, reason: detail }).subject() == text,
        (ProblemView::InvalidRoomAlias { room: text, reason: detail }).subject() == text,
        (ProblemView::InvalidRoom { room: text }).subject() == text,
        ProblemView::MissingToken.subject() == Seq::<char>::empty(),
        (ProblemView::InvalidRoomId { reason: detail }).subject() == Seq::<char>::empty(),
        (ProblemView::UserMismatch { config: text, server: detail }).subject() == Seq::<
            char,
        >::empty(),
        (ProblemView::DeviceMismatch { config: text, server: detail }).subject() == Seq::<
            char,
        >::empty(),
        (ProblemView::NotAMember { room_id: text }).subject() == Seq::<char>::empty(),
{
}

/// What is malformed is named with its quotation first and the reason last.
pub proof fn malformed_part_is_named(text: Seq<char>, reason: Seq<char>, quote: Seq<char>)
    ensures
        (ProblemView::InvalidUserId { user_id: text, reason }).message(quote) == "invalid user_id "@
            + quote + ": "@ + reason,
        (ProblemView::InvalidRoomAlias { room: text, reason }).message(quote)
            == "invalid room alias "@ + quote + ": "@ + reason,
        (ProblemView::InvalidRoom { room: text }).message(quote) == "invalid room identifier "@
            + quote + " \u{2014} must start with # or !"@,
        (ProblemView::InvalidRoomId { reason }).message(quote) == reason,
{
}

/// Where the server disagrees the message has the configured value first and the server's second,
/// and where the account is no member it has the room.
pub proof fn disagreement_is_named(
    configured: Seq<char>,
    server: Seq<char>,
    room_id: Seq<char>,
    quote: Seq<char>,
)
    ensures
        (ProblemView::UserMismatch { config: configured, server }).message(quote)
            == "config user_id ("@ + configured + ") does not match server ("@ + server + ")"@,
        (ProblemView::DeviceMismatch { config: configured, server }).message(quote)
            == "config device_id ("@ + configured + ") does not match server ("@ + server + ")"@,
        (ProblemView::NotAMember { room_id }).message(quote) == "bot user is not a member of "@
            + room_id + "; invite + accept first"@,
        ProblemView::MissingToken.message(quote)
            == "config: provide connection.access_token or set the env var named by connection.access_token_env"@,
{
}

/// A problem's view shows its kind and its details, each under its own name.
pub proof fn problem_shows_its_details(problem: PluginError)
    ensures
        problem is MissingToken ==> problem@ is MissingToken,
        problem matches PluginError::InvalidUserId { user_id, reason } ==> problem@ == (
        ProblemView::InvalidUserId { user_id: user_id@, reason: reason@ }),
        problem matches PluginError::InvalidRoomId { reason } ==> problem@ == (
        ProblemView::InvalidRoomId { reason: reason@ }),
        problem matches PluginError::InvalidRoomAlias { room, reason } ==> problem@ == (
        ProblemView::InvalidRoomAlias { room: room@, reason: reason@ }),
        problem matches PluginError::InvalidRoom { room } ==> problem@ == (
        ProblemView::InvalidRoom { room: room@ }),
        problem matches PluginError::UserMismatch { config, server } ==> problem@ == (
        ProblemView::UserMismatch { config: config@, server: server@ }),
        problem matches PluginError::DeviceMismatch { config, server } ==> problem@ == (
        ProblemView::DeviceMismatch { config: config@, server: server@ }),
        problem matches PluginError::NotAMember { room_id } ==> problem@ == (
        ProblemView::NotAMember { room_id: room_id@ }),
{
}

} // verus!
