use confluence_cli::config::{resolve_profile_state, AuthKind, Profile, ProfileOverrides};
use confluence_cli::error::ConfluenceCliError;

#[test]
fn fails_on_missing_basic_auth_secret() {
    let profile = Profile {
        domain: Some("workspace.example.atlassian.net".to_owned()),
        auth_type: Some(AuthKind::Basic),
        email: Some("oscar@example.com".to_owned()),
        ..Profile::default()
    };

    let error = resolve_profile_state(Some("work".to_owned()), "work", profile, None)
        .expect_err("basic auth without token should fail");

    assert!(matches!(error, ConfluenceCliError::Config(_)));
}

#[test]
fn defaults_fill_protocol_path_auth_and_access() {
    let profile = Profile {
        domain: Some("team.atlassian.net".to_owned()),
        email: Some("a@example.com".to_owned()),
        api_token: Some("t".to_owned()),
        ..Profile::default()
    };
    let resolved = resolve_profile_state(None, "work", profile, None).expect("profile should resolve");
    assert_eq!(resolved.protocol, "https");
    assert_eq!(resolved.api_path, "/wiki/rest/api");
    assert_eq!(resolved.auth_type, AuthKind::Basic);
    assert!(!resolved.read_only);
    assert_eq!(resolved.name.as_deref(), Some("work"));
}

#[test]
fn servers_outside_atlassian_cloud_use_the_plain_api_path() {
    let profile = Profile {
        domain: Some("wiki.example.internal".to_owned()),
        auth_type: Some(AuthKind::Bearer),
        api_token: Some("t".to_owned()),
        ..Profile::default()
    };
    let resolved = resolve_profile_state(None, "onprem", profile, None).expect("profile should resolve");
    assert_eq!(resolved.api_path, "/rest/api");
}

#[test]
fn environment_overrides_win_over_the_profile() {
    let profile = Profile {
        domain: Some("workspace.example.atlassian.net".to_owned()),
        auth_type: Some(AuthKind::Basic),
        email: Some("from-file@example.com".to_owned()),
        api_token: Some("token-file".to_owned()),
        read_only: Some(false),
        ..Profile::default()
    };
    let overrides = ProfileOverrides {
        domain: Some("custom.example.internal".to_owned()),
        protocol: None,
        api_path: None,
        auth_type: None,
        email: Some("from-env@example.com".to_owned()),
        username: None,
        api_token: Some("token-env".to_owned()),
        password: None,
        read_only: Some(true),
    };
    let resolved = resolve_profile_state(None, "work", profile, Some(overrides)).expect("profile should resolve");
    assert_eq!(resolved.domain, "custom.example.internal");
    assert_eq!(resolved.api_path, "/rest/api");
    assert_eq!(resolved.email.as_deref(), Some("from-env@example.com"));
    assert_eq!(resolved.api_token.as_deref(), Some("token-env"));
    assert!(resolved.read_only);
}

#[test]
fn a_profile_without_domain_is_refused() {
    let profile = Profile {
        auth_type: Some(AuthKind::Bearer),
        api_token: Some("t".to_owned()),
        ..Profile::default()
    };
    assert!(matches!(
        resolve_profile_state(None, "work", profile, None),
        Err(ConfluenceCliError::Config(_))
    ));
}

#[test]
fn bearer_auth_needs_a_token() {
    let profile = Profile {
        domain: Some("team.atlassian.net".to_owned()),
        auth_type: Some(AuthKind::Bearer),
        ..Profile::default()
    };
    assert!(matches!(
        resolve_profile_state(None, "work", profile, None),
        Err(ConfluenceCliError::Config(_))
    ));
}
