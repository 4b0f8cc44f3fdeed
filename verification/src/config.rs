//! The plugin's configuration: what the file holds, and what follows from it.
use vstd::prelude::*;

use crate::collections::{TextMap, TextSet};
use crate::error::PluginError;
#[allow(unused_imports)]
use crate::error::ProblemView;
use crate::matrix::parse_user_id;
#[allow(unused_imports)]
use crate::matrix::{colon_refused, has_sigil, parsed_view, sigil_refused, user_id_parse};
use crate::text::trim_end;
#[allow(unused_imports)]
use crate::text::{trimmed_end, trimming_cuts_only_the_end, views};
use crate::transition::Templates;
#[allow(unused_imports)]
use crate::transition::{TemplatesView, Transition};

verus! {

/// The configuration file.
#[derive(Debug)]
pub struct RawConfig {
    pub id: Option<String>,
    pub connection: RawConnection,
    pub options: RawOptions,
}

/// The section on the server, the account and the room.
#[derive(Debug)]
pub struct RawConnection {
    pub homeserver: String,
    pub user_id: String,
    pub device_id: String,
    pub access_token: Option<String>,
    pub access_token_env: Option<String>,
    pub store_passphrase: Option<String>,
    pub store_passphrase_env: Option<String>,
    pub room: String,
}

/// The section on what is posted.
#[derive(Debug, Default)]
pub struct RawOptions {
    pub notify_on: Option<Vec<String>>,
    pub announce_on_startup: Option<bool>,
    pub dry_run: Option<bool>,
    pub templates: Option<TextMap>,
}

/// The configuration in effect.
#[derive(Clone, Debug)]
pub struct Config {
    pub instance_id: String,
    pub homeserver: String,
    pub user_id: String,
    pub device_id: String,
    pub access_token: String,
    /// The passphrase of the store on disk; without one the store is not encrypted.
    pub store_passphrase: Option<String>,
    pub room: String,
    pub notify_on: TextSet,
    pub announce_on_startup: bool,
    pub dry_run: bool,
    pub templates: Templates,
}

/// The configuration in effect, as text and flags.
pub struct ConfigView {
    pub instance_id: Seq<char>,
    pub homeserver: Seq<char>,
    pub user_id: Seq<char>,
    pub device_id: Seq<char>,
    pub access_token: Seq<char>,
    pub store_passphrase: Option<Seq<char>>,
    pub room: Seq<char>,
    pub notify_on: Set<Seq<char>>,
    pub announce_on_startup: bool,
    pub dry_run: bool,
    pub templates: TemplatesView,
}

impl View for Config {
    type V = ConfigView;

    open spec fn view(&self) -> ConfigView {
        ConfigView {
            instance_id: self.instance_id@,
            homeserver: self.homeserver@,
            user_id: self.user_id@,
            device_id: self.device_id@,
            access_token: self.access_token@,
            store_passphrase: self.store_passphrase.deep_view(),
            room: self.room@,
            notify_on: self.notify_on@,
            announce_on_startup: self.announce_on_startup,
            dry_run: self.dry_run,
            templates: self.templates@,
        }
    }
}

/// A configuration or a problem, as text.
pub open spec fn config_view(config: Result<Config, PluginError>) -> Result<
    ConfigView,
    ProblemView,
> {
    match config {
        Ok(c) => Ok(c@),
        Err(e) => Err(e@),
    }
}

/// A text, unless it is empty.
pub open spec fn non_empty(text: Option<Seq<char>>) -> Option<Seq<char>> {
    match text {
        Some(t) if t.len() > 0 => Some(t),
        _ => None,
    }
}

/// A secret that the file gives directly or through an environment variable: the variable counts
/// where the file names one and it is set and not empty, and otherwise the direct value. An empty
/// secret is none.
pub open spec fn secret(
    variable: Option<Seq<char>>,
    variable_value: Option<Seq<char>>,
    direct: Option<Seq<char>>,
) -> Option<Seq<char>> {
    if non_empty(variable) is Some && non_empty(variable_value) is Some {
        variable_value
    } else {
        non_empty(direct)
    }
}

/// The environment variable that a secret is read from, where the file names one.
pub fn variable_to_read(variable: &Option<String>) -> (name: Option<&str>)
    ensures
        name.deep_view() == non_empty(variable.deep_view()),
{
    match variable {
        Some(v) => {
            if v.as_str().is_empty() {
                None
            } else {
                Some(v.as_str())
            }
        },
        None => None,
    }
}

/// A copy of a text, unless it is empty.
fn unless_empty(text: &Option<String>) -> (kept: Option<String>)
    ensures
        kept.deep_view() == non_empty(text.deep_view()),
{
    match text {
        Some(t) => {
            if t.as_str().is_empty() {
                None
            } else {
                Some(t.clone())
            }
        },
        None => None,
    }
}

/// Picks a secret, given the value of its environment variable where that is set.
pub fn pick_secret(
    variable: &Option<String>,
    variable_value: &Option<String>,
    direct: &Option<String>,
) -> (picked: Option<String>)
    ensures
        picked.deep_view() == secret(
            variable.deep_view(),
            variable_value.deep_view(),
            direct.deep_view(),
        ),
{
    if variable_to_read(variable).is_some() {
        let from_variable = unless_empty(variable_value);
        if from_variable.is_some() {
            return from_variable;
        }
    }
    unless_empty(direct)
}

/// The kinds of transition that are posted unless the file says otherwise.
pub open spec fn default_kinds() -> Set<Seq<char>> {
    set!["start"@, "stop"@, "switch"@]
}

impl RawOptions {
    /// The kinds of transition that are posted.
    pub open spec fn kinds(self) -> Set<Seq<char>> {
        match self.notify_on {
            Some(kinds) => views(kinds@).to_set(),
            None => default_kinds(),
        }
    }

    /// The template of a kind, or `default` where the file has none.
    pub open spec fn template(self, kind: Seq<char>, default: Seq<char>) -> Seq<char> {
        match self.templates {
            Some(map) if map@.contains_key(kind) => map@[kind],
            _ => default,
        }
    }

    /// The three templates.
    pub open spec fn all_templates(self) -> TemplatesView {
        TemplatesView {
            start: self.template("start"@, "[faff] started: {title} ({start_time})"@),
            stop: self.template("stop"@, "[faff] stopped: {title} after {duration}"@),
            switch: self.template("switch"@, "[faff] switched: {prev_title} -> {title}"@),
        }
    }

    /// The kinds of transition that are posted.
    fn notify_kinds(&self) -> (kinds: TextSet)
        ensures
            kinds@ == self.kinds(),
    {
        match &self.notify_on {
            Some(kinds) => TextSet::from_list(kinds),
            None => {
                let mut kinds: Vec<String> = Vec::new();
                kinds.push("start".to_owned());
                kinds.push("stop".to_owned());
                kinds.push("switch".to_owned());
                let set = TextSet::from_list(&kinds);
                proof {
                    let list = views(kinds@);
                    assert(list[0] == "start"@ && list[1] == "stop"@ && list[2] == "switch"@);
                    assert(list.to_set() =~= default_kinds());
                }
                set
            },
        }
    }

    /// The template of a kind, or `default` where the file has none.
    fn template_or(&self, kind: &str, default: &str) -> (template: String)
        ensures
            template@ == self.template(kind@, default@),
    {
        if let Some(map) = &self.templates {
            if let Some(template) = map.get(kind) {
                return template.clone();
            }
        }
        default.to_owned()
    }
}

impl RawConfig {
    /// What follows from the file, given the values of the two environment variables and what
    /// parsing the user ID gives.
    pub open spec fn configured(
        self,
        token_value: Option<Seq<char>>,
        passphrase_value: Option<Seq<char>>,
        user_id: Result<Seq<char>, Seq<char>>,
    ) -> Result<ConfigView, ProblemView> {
        let c = self.connection;
        match secret(c.access_token_env.deep_view(), token_value, c.access_token.deep_view()) {
            None => Err(ProblemView::MissingToken),
            Some(token) => match user_id {
                Err(reason) => Err(ProblemView::InvalidUserId { user_id: c.user_id@, reason }),
                Ok(user_id) => Ok(
                    ConfigView {
                        instance_id: match self.id {
                            Some(id) => id@,
                            None => "default"@,
                        },
                        homeserver: trimmed_end(c.homeserver@, '/'),
                        user_id,
                        device_id: c.device_id@,
                        access_token: token,
                        store_passphrase: secret(
                            c.store_passphrase_env.deep_view(),
                            passphrase_value,
                            c.store_passphrase.deep_view(),
                        ),
                        room: c.room@,
                        notify_on: self.options.kinds(),
                        announce_on_startup: self.options.announce_on_startup == Some(true),
                        dry_run: self.options.dry_run == Some(true),
                        templates: self.options.all_templates(),
                    },
                ),
            },
        }
    }
}

impl Config {
    /// The configuration in effect, given what parsing the user ID gave.
    pub fn load_with(
        raw: &RawConfig,
        token_value: &Option<String>,
        passphrase_value: &Option<String>,
        user_id: Result<String, String>,
    ) -> (config: Result<Config, PluginError>)
        ensures
            config_view(config) == raw.configured(
                token_value.deep_view(),
                passphrase_value.deep_view(),
                parsed_view(user_id),
            ),
    {
        let c = &raw.connection;
        let token = match pick_secret(&c.access_token_env, token_value, &c.access_token) {
            Some(token) => token,
            None => {
                return Err(PluginError::MissingToken);
            },
        };
        let store_passphrase = pick_secret(
            &c.store_passphrase_env,
            passphrase_value,
            &c.store_passphrase,
        );
        let user_id = match user_id {
            Ok(id) => id,
            Err(reason) => {
                return Err(PluginError::InvalidUserId { user_id: c.user_id.clone(), reason });
            },
        };
        let opts = &raw.options;
        Ok(
            Config {
                instance_id: match &raw.id {
                    Some(id) => id.clone(),
                    None => "default".to_owned(),
                },
                homeserver: trim_end(c.homeserver.as_str(), '/'),
                user_id,
                device_id: c.device_id.clone(),
                access_token: token,
                store_passphrase,
                room: c.room.clone(),
                notify_on: opts.notify_kinds(),
                announce_on_startup: opts.announce_on_startup.unwrap_or(false),
                dry_run: opts.dry_run.unwrap_or(false),
                templates: Templates {
                    start: opts.template_or("start", "[faff] started: {title} ({start_time})"),
                    stop: opts.template_or("stop", "[faff] stopped: {title} after {duration}"),
                    switch: opts.template_or("switch", "[faff] switched: {prev_title} -> {title}"),
                },
            },
        )
    }

    /// The configuration in effect, given the values of the two environment variables that the
    /// file names, where they are set.
    pub fn load(
        raw: &RawConfig,
        token_value: &Option<String>,
        passphrase_value: &Option<String>,
    ) -> (config: Result<Config, PluginError>)
        ensures
            config_view(config) == raw.configured(
                token_value.deep_view(),
                passphrase_value.deep_view(),
                user_id_parse(raw.connection.user_id@),
            ),
            config matches Ok(c) ==> {
                &&& c@.user_id == raw.connection.user_id@
                &&& has_sigil(c@.user_id, '@')
                &&& c@.user_id.contains(':')
            },
            !has_sigil(raw.connection.user_id@, '@') ==> config_view(config) == raw.configured(
                token_value.deep_view(),
                passphrase_value.deep_view(),
                sigil_refused(),
            ),
            has_sigil(raw.connection.user_id@, '@') && !raw.connection.user_id@.contains(':')
                ==> config_view(config) == raw.configured(
                token_value.deep_view(),
                passphrase_value.deep_view(),
                colon_refused(),
            ),
    {
        let user_id = parse_user_id(raw.connection.user_id.as_str());
        Config::load_with(raw, token_value, passphrase_value, user_id)
    }
}

/// A configuration that was accepted has a token, a server without a slash at its end, and no
/// empty passphrase.
pub proof fn accepted_config_is_usable(
    raw: RawConfig,
    token_value: Option<Seq<char>>,
    passphrase_value: Option<Seq<char>>,
    user_id: Result<Seq<char>, Seq<char>>,
)
    ensures
        raw.configured(token_value, passphrase_value, user_id) matches Ok(config) ==> {
            &&& config.access_token.len() > 0
            &&& config.homeserver.len() > 0 ==> config.homeserver.last() != '/'
            &&& config.store_passphrase matches Some(passphrase) ==> passphrase.len() > 0
        },
{
    trimming_cuts_only_the_end(raw.connection.homeserver@, '/');
}

/// A configuration is refused just where it has no token, or where its user ID is malformed; the
/// token is looked at first.
pub proof fn refused_configs(
    raw: RawConfig,
    token_value: Option<Seq<char>>,
    passphrase_value: Option<Seq<char>>,
    user_id: Result<Seq<char>, Seq<char>>,
)
    ensures
        ({
            let c = raw.connection;
            let token = secret(
                c.access_token_env.deep_view(),
                token_value,
                c.access_token.deep_view(),
            );
            let config = raw.configured(token_value, passphrase_value, user_id);
            &&& config is Ok <==> token is Some && user_id is Ok
            &&& token is None ==> config == Err::<ConfigView, ProblemView>(
                ProblemView::MissingToken,
            )
        }),
{
}

/// A variable that is set and not empty wins over the direct value; one that is not named, not set
/// or empty leaves the direct value in force; and an empty direct value is none.
pub proof fn variable_wins_over_direct_value(
    variable: Seq<char>,
    value: Option<Seq<char>>,
    direct: Option<Seq<char>>,
)
    ensures
        variable.len() > 0 ==> (value matches Some(v) && v.len() > 0 ==> secret(
            Some(variable),
            value,
            direct,
        ) == value),
        non_empty(value) is None ==> secret(Some(variable), value, direct) == non_empty(direct),
        secret(None, value, direct) == non_empty(direct),
        secret(Some(Seq::empty()), value, direct) == non_empty(direct),
        secret(None, value, Some(Seq::empty())) is None,
{
}

/// With no option set all three kinds are posted, nothing is announced at the start, messages are
/// sent, and the templates are the built-in ones.
pub proof fn defaults_of_options(
    raw: RawConfig,
    token_value: Option<Seq<char>>,
    passphrase_value: Option<Seq<char>>,
    user_id: Result<Seq<char>, Seq<char>>,
)
    requires
        raw.options.notify_on is None,
        raw.options.announce_on_startup is None,
        raw.options.dry_run is None,
        raw.options.templates is None,
    ensures
        raw.configured(token_value, passphrase_value, user_id) matches Ok(config) ==> {
            &&& config.notify_on == default_kinds()
            &&& forall|kind: Transition| #[trigger] config.notify_on.contains(kind.spec_name())
            &&& !config.announce_on_startup
            &&& !config.dry_run
            &&& config.templates == (TemplatesView {
                start: "[faff] started: {title} ({start_time})"@,
                stop: "[faff] stopped: {title} after {duration}"@,
                switch: "[faff] switched: {prev_title} -> {title}"@,
            })
        },
{
}

/// The variable's value is the secret where the file names the variable and it is set, neither of
/// them empty. Otherwise the direct value is, and there is none where that is missing or empty.
pub proof fn secret_comes_from_one_place(
    variable: Option<Seq<char>>,
    value: Option<Seq<char>>,
    direct: Option<Seq<char>>,
)
    ensures
        ({
            let named = variable matches Some(v) && v.len() > 0;
            let set = value matches Some(v) && v.len() > 0;
            let given = direct matches Some(d) && d.len() > 0;
            &&& named && set ==> secret(variable, value, direct) == value
            &&& !(named && set) && given ==> secret(variable, value, direct) == direct
            &&& !(named && set) && !given ==> secret(variable, value, direct) is None
        }),
{
}

/// A text that is not empty is kept as it is, and an empty one counts as none.
pub proof fn empty_text_counts_as_none(text: Seq<char>)
    ensures
        text.len() > 0 ==> non_empty(Some(text)) == Some(text),
        text.len() == 0 ==> non_empty(Some(text)) is None,
        non_empty(None) is None,
{
}

/// The access token is the value of its own variable where the file names that and it is set, and
/// otherwise the file's own token; a configuration without either is refused, and with either it is
/// refused just where the user ID is malformed, for the reason that parsing it gave.
pub proof fn token_is_required(
    raw: RawConfig,
    token_value: Option<Seq<char>>,
    passphrase_value: Option<Seq<char>>,
    user_id: Result<Seq<char>, Seq<char>>,
)
    ensures
        ({
            let c = raw.connection;
            let named = c.access_token_env matches Some(v) && v@.len() > 0;
            let set = token_value matches Some(v) && v.len() > 0;
            let given = c.access_token matches Some(t) && t@.len() > 0;
            let config = raw.configured(token_value, passphrase_value, user_id);
            &&& !(named && set) && !given ==> config == Err::<ConfigView, ProblemView>(
                ProblemView::MissingToken,
            )
            &&& (named && set) || given ==> match user_id {
                Err(reason) => config == Err::<ConfigView, ProblemView>(
                    ProblemView::InvalidUserId { user_id: c.user_id@, reason },
                ),
                Ok(_) => config is Ok,
            }
            &&& named && set && user_id is Ok ==> Some(config->Ok_0.access_token) == token_value
            &&& !(named && set) && given && user_id is Ok ==> config->Ok_0.access_token
                == c.access_token->0@
        }),
{
}

/// The passphrase is the value of its own variable where the file names that and it is set, and
/// otherwise the file's own passphrase; a configuration can do without either.
pub proof fn passphrase_is_optional(
    raw: RawConfig,
    token_value: Option<Seq<char>>,
    passphrase_value: Option<Seq<char>>,
    user_id: Result<Seq<char>, Seq<char>>,
)
    ensures
        raw.configured(token_value, passphrase_value, user_id) matches Ok(config) ==> {
            let c = raw.connection;
            let named = c.store_passphrase_env matches Some(v) && v@.len() > 0;
            let set = passphrase_value matches Some(v) && v.len() > 0;
            let given = c.store_passphrase matches Some(p) && p@.len() > 0;
            &&& named && set ==> config.store_passphrase == passphrase_value
            &&& !(named && set) && given ==> config.store_passphrase == Some(
                c.store_passphrase->0@,
            )
            &&& !(named && set) && !given ==> config.store_passphrase is None
        },
{
}

/// An accepted configuration has the user ID that was parsed, the file's device and room as they
/// stand, the file's name for the instance or the default one, and the file's server without the
/// slashes at its end.
pub proof fn account_and_room_are_those_of_the_file(
    raw: RawConfig,
    token_value: Option<Seq<char>>,
    passphrase_value: Option<Seq<char>>,
    user_id: Result<Seq<char>, Seq<char>>,
)
    ensures
        raw.configured(token_value, passphrase_value, user_id) matches Ok(config) ==> {
            let server = raw.connection.homeserver@;
            let kept = config.homeserver.len() as int;
            &&& user_id == Ok::<Seq<char>, Seq<char>>(config.user_id)
            &&& config.device_id == raw.connection.device_id@
            &&& config.room == raw.connection.room@
            &&& raw.id matches Some(id) ==> config.instance_id == id@
            &&& raw.id is None ==> config.instance_id == "default"@
            &&& kept <= server.len()
            &&& config.homeserver == server.take(kept)
            &&& forall|i: int| kept <= i < server.len() ==> server[i] == '/'
            &&& kept > 0 ==> server[kept - 1] != '/'
        },
{
    trimming_cuts_only_the_end(raw.connection.homeserver@, '/');
}

/// A kind is enabled just where the file lists its name; a file without a list enables the three
/// kinds and nothing else. An announcement and a dry run happen just where the file asks for them.
pub proof fn options_are_those_of_the_file(
    raw: RawConfig,
    token_value: Option<Seq<char>>,
    passphrase_value: Option<Seq<char>>,
    user_id: Result<Seq<char>, Seq<char>>,
)
    ensures
        raw.configured(token_value, passphrase_value, user_id) matches Ok(config) ==> {
            let options = raw.options;
            &&& options.notify_on matches Some(kinds) ==> forall|name: Seq<char>|
                #![trigger config.notify_on.contains(name)]
                config.notify_on.contains(name) <==> exists|i: int|
                    0 <= i < kinds@.len() && (#[trigger] kinds@[i])@ == name
            &&& options.notify_on is None ==> forall|name: Seq<char>|
                #![trigger config.notify_on.contains(name)]
                config.notify_on.contains(name) <==> name == "start"@ || name == "stop"@ || name
                    == "switch"@
            &&& config.announce_on_startup <==> options.announce_on_startup == Some(true)
            &&& config.dry_run <==> options.dry_run == Some(true)
        },
{
    if let Some(kinds) = raw.options.notify_on {
        let list = views(kinds@);
        assert forall|name: Seq<char>| #[trigger] list.to_set().contains(name) <==> exists|i: int|
            0 <= i < kinds@.len() && (#[trigger] kinds@[i])@ == name by {
            if list.to_set().contains(name) {
                let i = choose|i: int| 0 <= i < list.len() && list[i] == name;
                assert(kinds@[i]@ == name);
            }
            if exists|i: int| 0 <= i < kinds@.len() && (#[trigger] kinds@[i])@ == name {
                let i = choose|i: int| 0 <= i < kinds@.len() && (#[trigger] kinds@[i])@ == name;
                assert(list[i] == name);
            }
        }
    }
}

/// A template that the file has for a kind is the template of that kind and of no other; a kind for
/// which the file has none keeps the built-in one, whatever the file has for the others.
pub proof fn each_kind_has_its_own_template(
    raw: RawConfig,
    token_value: Option<Seq<char>>,
    passphrase_value: Option<Seq<char>>,
    user_id: Result<Seq<char>, Seq<char>>,
)
    ensures
        raw.configured(token_value, passphrase_value, user_id) matches Ok(config) ==> {
            let file = match raw.options.templates {
                Some(map) => map@,
                None => Map::<Seq<char>, Seq<char>>::empty(),
            };
            &&& file.contains_key("start"@) ==> config.templates.start == file["start"@]
            &&& file.contains_key("stop"@) ==> config.templates.stop == file["stop"@]
            &&& file.contains_key("switch"@) ==> config.templates.switch == file["switch"@]
            &&& !file.contains_key("start"@) ==> config.templates.start
                == "[faff] started: {title} ({start_time})"@
            &&& !file.contains_key("stop"@) ==> config.templates.stop
                == "[faff] stopped: {title} after {duration}"@
            &&& !file.contains_key("switch"@) ==> config.templates.switch
                == "[faff] switched: {prev_title} -> {title}"@
        },
{
}

/// A configuration's view shows each of its parts under its own name.
pub proof fn config_shows_its_parts(config: Config)
    ensures
        config@.instance_id == config.instance_id@,
        config@.homeserver == config.homeserver@,
        config@.user_id == config.user_id@,
        config@.device_id == config.device_id@,
        config@.access_token == config.access_token@,
        config.store_passphrase matches Some(p) ==> config@.store_passphrase == Some(p@),
        config.store_passphrase is None ==> config@.store_passphrase is None,
        config@.room == config.room@,
        config@.notify_on == config.notify_on@,
        config@.announce_on_startup == config.announce_on_startup,
        config@.dry_run == config.dry_run,
        config@.templates == config.templates@,
        config_view(Ok(config)) == Ok::<ConfigView, ProblemView>(config@),
{
}

/// What a refused configuration shows is the problem.
pub proof fn refusal_shows_its_problem(problem: PluginError)
    ensures
        config_view(Err(problem)) == Err::<ConfigView, ProblemView>(problem@),
{
}

} // verus!
