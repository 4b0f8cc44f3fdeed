use faff_plugin_matrix_rust::error::PluginError;
use faff_plugin_matrix_rust::matrix::{
    check_identity, needs_cross_signing, resolve_room, resolve_room_with, CrossSigning, RoomTarget,
};

#[test]
fn a_room_id_is_taken_as_it_is() {
    assert_eq!(
        resolve_room("!abc:example.org"),
        Ok(RoomTarget::Id("!abc:example.org".to_string()))
    );
    assert_eq!(resolve_room("!abc"), Ok(RoomTarget::Id("!abc".to_string())));
    let long = format!("!{}", "x".repeat(1000));
    assert_eq!(resolve_room(&long), Ok(RoomTarget::Id(long.clone())));
}

#[test]
fn a_room_id_with_nul_is_refused() {
    let refused = resolve_room("!a\0b:example.org").unwrap_err();
    assert_eq!(refused.message(), "identifier contains invalid characters");
}

#[test]
fn a_room_alias_is_left_to_the_server() {
    assert_eq!(
        resolve_room("#faff:example.org"),
        Ok(RoomTarget::Alias("#faff:example.org".to_string()))
    );
}

#[test]
fn a_malformed_alias_is_refused() {
    let refused = resolve_room("#faff").unwrap_err();
    assert_eq!(refused.message(), "invalid room alias \"#faff\": required colon is missing");
    let refused = resolve_room("#faff:exa mple").unwrap_err();
    assert_eq!(
        refused.message(),
        "invalid room alias \"#faff:exa mple\": server name is not a valid IP address or domain name"
    );
}

#[test]
fn any_other_room_is_refused() {
    let refused = resolve_room("faff \"room\"").unwrap_err();
    assert_eq!(
        refused.message(),
        "invalid room identifier \"faff \\\"room\\\"\" — must start with # or !"
    );
    assert_eq!(
        resolve_room("").unwrap_err().message(),
        "invalid room identifier \"\" — must start with # or !"
    );
}

#[test]
fn a_parsed_alias_matters_to_aliases_only() {
    let alias = || Ok("#other:example.org".to_string());
    assert_eq!(
        resolve_room_with("#faff", alias()),
        Ok(RoomTarget::Alias("#other:example.org".to_string()))
    );
    assert_eq!(
        resolve_room_with("!id", alias()),
        Ok(RoomTarget::Id("!id".to_string()))
    );
    assert_eq!(
        resolve_room_with("id", alias()),
        Err(PluginError::InvalidRoom { room: "id".to_string() })
    );
}

#[test]
fn the_server_must_name_the_configured_account() {
    let check = |user: &str, device: Option<&str>| check_identity("@a:x", "D1", user, device);
    assert_eq!(check("@a:x", Some("D1")), Ok(()));
    assert_eq!(check("@a:x", None), Ok(()));
    assert_eq!(
        check("@b:x", Some("D2")).unwrap_err().message(),
        "config user_id (@a:x) does not match server (@b:x)"
    );
    assert_eq!(
        check("@a:x", Some("D2")).unwrap_err().message(),
        "config device_id (D1) does not match server (D2)"
    );
}

#[test]
fn an_account_outside_of_the_room_is_told_so() {
    let problem = PluginError::NotAMember { room_id: "!abc:x".to_string() };
    assert_eq!(
        problem.message(),
        "bot user is not a member of !abc:x; invite + accept first"
    );
}

#[test]
fn messages_quote_what_they_are_given() {
    let problem = PluginError::InvalidRoom { room: "faff".to_string() };
    assert_eq!(
        problem.message_quoting("<faff>"),
        "invalid room identifier <faff> — must start with # or !"
    );
}

#[test]
fn complete_cross_signing_is_left_alone() {
    let keys = |has_master, has_self_signing, has_user_signing| {
        Some(CrossSigning { has_master, has_self_signing, has_user_signing })
    };
    assert!(!needs_cross_signing(keys(true, true, true)));
    assert!(needs_cross_signing(keys(false, true, true)));
    assert!(needs_cross_signing(keys(true, false, true)));
    assert!(needs_cross_signing(keys(true, true, false)));
    assert!(needs_cross_signing(None));
}
