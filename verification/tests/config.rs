use faff_plugin_matrix_rust::collections::TextMap;
use faff_plugin_matrix_rust::config::{
    pick_secret, variable_to_read, Config, RawConfig, RawConnection, RawOptions,
};
use faff_plugin_matrix_rust::error::PluginError;

fn text(s: &str) -> Option<String> {
    Some(s.to_string())
}

fn raw() -> RawConfig {
    RawConfig {
        id: None,
        connection: RawConnection {
            homeserver: "https://matrix.example.org//".to_string(),
            user_id: "@bot:example.org".to_string(),
            device_id: "DEVICE".to_string(),
            access_token: text("direct"),
            access_token_env: None,
            store_passphrase: None,
            store_passphrase_env: None,
            room: "#faff:example.org".to_string(),
        },
        options: RawOptions::default(),
    }
}

#[test]
fn a_minimal_file_gets_the_defaults() {
    let config = Config::load(&raw(), &None, &None).unwrap();
    assert_eq!(config.instance_id, "default");
    assert_eq!(config.homeserver, "https://matrix.example.org");
    assert_eq!(config.user_id, "@bot:example.org");
    assert_eq!(config.device_id, "DEVICE");
    assert_eq!(config.access_token, "direct");
    assert_eq!(config.store_passphrase, None);
    assert_eq!(config.room, "#faff:example.org");
    assert!(config.notify_on.contains("start"));
    assert!(config.notify_on.contains("stop"));
    assert!(config.notify_on.contains("switch"));
    assert!(!config.notify_on.contains("pause"));
    assert!(!config.announce_on_startup);
    assert!(!config.dry_run);
    assert_eq!(config.templates.start, "[faff] started: {title} ({start_time})");
    assert_eq!(config.templates.stop, "[faff] stopped: {title} after {duration}");
    assert_eq!(config.templates.switch, "[faff] switched: {prev_title} -> {title}");
}

#[test]
fn options_take_the_place_of_the_defaults() {
    let mut templates = TextMap::new();
    templates.insert("stop", "bye {title}".to_string());
    templates.insert("unknown", "?".to_string());
    let mut raw = raw();
    raw.id = text("work");
    raw.options = RawOptions {
        notify_on: Some(vec!["stop".to_string(), "stop".to_string()]),
        announce_on_startup: Some(true),
        dry_run: Some(true),
        templates: Some(templates),
    };
    let config = Config::load(&raw, &None, &None).unwrap();
    assert_eq!(config.instance_id, "work");
    assert!(config.notify_on.contains("stop"));
    assert!(!config.notify_on.contains("start"));
    assert!(config.announce_on_startup);
    assert!(config.dry_run);
    assert_eq!(config.templates.start, "[faff] started: {title} ({start_time})");
    assert_eq!(config.templates.stop, "bye {title}");
}

#[test]
fn an_empty_list_posts_nothing() {
    let mut raw = raw();
    raw.options.notify_on = Some(vec![]);
    let config = Config::load(&raw, &None, &None).unwrap();
    assert!(!config.notify_on.contains("start"));
}

#[test]
fn a_variable_wins_over_the_direct_value() {
    let name = text("TOKEN");
    assert_eq!(pick_secret(&name, &text("env"), &text("direct")), text("env"));
    assert_eq!(pick_secret(&name, &text(""), &text("direct")), text("direct"));
    assert_eq!(pick_secret(&name, &None, &text("direct")), text("direct"));
    assert_eq!(pick_secret(&text(""), &text("env"), &text("direct")), text("direct"));
    assert_eq!(pick_secret(&None, &text("env"), &text("direct")), text("direct"));
    assert_eq!(pick_secret(&name, &None, &text("")), None);
    assert_eq!(pick_secret(&name, &text("env"), &None), text("env"));
    assert_eq!(pick_secret(&None, &None, &None), None);
}

#[test]
fn only_a_named_variable_is_read() {
    assert_eq!(variable_to_read(&text("TOKEN")), Some("TOKEN"));
    assert_eq!(variable_to_read(&text("")), None);
    assert_eq!(variable_to_read(&None), None);
}

#[test]
fn secrets_come_from_their_own_variables() {
    let mut raw = raw();
    raw.connection.access_token_env = text("TOKEN");
    raw.connection.store_passphrase_env = text("PASSPHRASE");
    raw.connection.store_passphrase = text("direct passphrase");
    let config = Config::load(&raw, &text("env token"), &text("env passphrase")).unwrap();
    assert_eq!(config.access_token, "env token");
    assert_eq!(config.store_passphrase, text("env passphrase"));
    let config = Config::load(&raw, &None, &None).unwrap();
    assert_eq!(config.access_token, "direct");
    assert_eq!(config.store_passphrase, text("direct passphrase"));
}

#[test]
fn a_file_without_token_is_refused() {
    let mut raw = raw();
    raw.connection.access_token = text("");
    raw.connection.user_id = "bot".to_string();
    let refused = Config::load(&raw, &None, &None).unwrap_err();
    assert_eq!(refused, PluginError::MissingToken);
    assert_eq!(
        refused.message(),
        "config: provide connection.access_token or set the env var named by connection.access_token_env"
    );
}

#[test]
fn a_malformed_user_id_is_refused() {
    let message = |user_id: &str| {
        let mut raw = raw();
        raw.connection.user_id = user_id.to_string();
        Config::load(&raw, &None, &None).unwrap_err().message()
    };
    assert_eq!(
        message("bot:example.org"),
        "invalid user_id \"bot:example.org\": leading sigil is incorrect or missing"
    );
    assert_eq!(message("@bot"), "invalid user_id \"@bot\": required colon is missing");
    assert_eq!(
        message("@bot:"),
        "invalid user_id \"@bot:\": server name is not a valid IP address or domain name"
    );
}

#[test]
fn the_parsed_user_id_is_the_one_in_effect() {
    let config = Config::load_with(&raw(), &None, &None, Ok("@parsed:x".to_string())).unwrap();
    assert_eq!(config.user_id, "@parsed:x");
    let refused = Config::load_with(&raw(), &None, &None, Err("why".to_string())).unwrap_err();
    assert_eq!(
        refused,
        PluginError::InvalidUserId {
            user_id: "@bot:example.org".to_string(),
            reason: "why".to_string()
        }
    );
}

#[test]
fn slashes_are_trimmed_from_the_end_only() {
    let trimmed = |homeserver: &str| {
        let mut raw = raw();
        raw.connection.homeserver = homeserver.to_string();
        Config::load(&raw, &None, &None).unwrap().homeserver
    };
    assert_eq!(trimmed("https://x/y/"), "https://x/y");
    assert_eq!(trimmed("https://x/y"), "https://x/y");
    assert_eq!(trimmed("///"), "");
    assert_eq!(trimmed(""), "");
}
