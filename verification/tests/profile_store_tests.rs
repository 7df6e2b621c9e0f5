use confluence_cli::application::profiles::{ProfileDraft, ProfileSecrets};
use confluence_cli::config::{AuthKind, ConfigFile, Profile, ProfileOverrides};
use confluence_cli::error::ConfluenceCliError;
use confluence_cli::profile_manager::{
    existing_profile_id, init_config, profile_entry, remove_profile, set_active_profile, upsert_profile,
};
use confluence_cli::runtime_loader::{auth_type_from_env, load_runtime, read_only_from_env};

fn has_profile(config: &ConfigFile, name: &str) -> bool {
    config.profiles.iter().any(|(n, _)| n == name)
}

fn no_overrides() -> ProfileOverrides {
    ProfileOverrides::default()
}

#[test]
fn init_and_upsert_profile_persist_to_disk() {
    let config = init_config(
        ConfigFile::default(),
        "default",
        Profile {
            domain: Some("example.atlassian.net".to_owned()),
            auth_type: Some(AuthKind::Bearer),
            ..Profile::default()
        },
    );
    let config = upsert_profile(
        config,
        "work",
        Profile {
            domain: Some("work.atlassian.net".to_owned()),
            auth_type: Some(AuthKind::Basic),
            email: Some("oscar@example.com".to_owned()),
            api_token: Some("token".to_owned()),
            ..Profile::default()
        },
        true,
    );

    assert_eq!(config.active_profile.as_deref(), Some("work"));
    assert!(has_profile(&config, "default"));
    assert!(has_profile(&config, "work"));
}

#[test]
fn set_active_and_remove_profile_update_active_profile() {
    let config = ConfigFile {
        active_profile: Some("default".to_owned()),
        profiles: vec![
            (
                "default".to_owned(),
                Profile {
                    domain: Some("example.atlassian.net".to_owned()),
                    auth_type: Some(AuthKind::Bearer),
                    ..Profile::default()
                },
            ),
            (
                "work".to_owned(),
                Profile {
                    domain: Some("work.atlassian.net".to_owned()),
                    auth_type: Some(AuthKind::Bearer),
                    ..Profile::default()
                },
            ),
        ],
    };

    let updated = set_active_profile(config, "work").expect("active profile should change");
    assert_eq!(updated.active_profile.as_deref(), Some("work"));

    let updated = remove_profile(updated, "work").expect("profile should be removed");
    assert_eq!(updated.active_profile.as_deref(), Some("default"));
    assert!(!has_profile(&updated, "work"));
}

#[test]
fn upsert_replaces_in_place_and_keeps_the_active_profile() {
    let config = ConfigFile {
        active_profile: Some("a".to_owned()),
        profiles: vec![("a".to_owned(), Profile::default()), ("b".to_owned(), Profile::default())],
    };
    let replacement = Profile { domain: Some("b.example".to_owned()), ..Profile::default() };
    let updated = upsert_profile(config, "b", replacement.clone(), false);
    assert_eq!(updated.active_profile.as_deref(), Some("a"));
    assert_eq!(updated.profiles.len(), 2);
    assert_eq!(updated.profiles[1], ("b".to_owned(), replacement));
}

#[test]
fn upsert_activates_when_nothing_is_active() {
    let updated = upsert_profile(ConfigFile::default(), "solo", Profile::default(), false);
    assert_eq!(updated.active_profile.as_deref(), Some("solo"));
    assert_eq!(updated.profiles.len(), 1);
}

#[test]
fn selecting_or_removing_an_unknown_profile_is_refused() {
    let config = ConfigFile { active_profile: None, profiles: vec![("a".to_owned(), Profile::default())] };
    match set_active_profile(config.clone(), "missing") {
        Err(ConfluenceCliError::Config(message)) => assert_eq!(message, "profile 'missing' does not exist"),
        other => panic!("unexpected: {other:?}"),
    }
    match remove_profile(config, "missing") {
        Err(ConfluenceCliError::Config(message)) => assert_eq!(message, "profile 'missing' does not exist"),
        other => panic!("unexpected: {other:?}"),
    }
}

#[test]
fn removing_the_last_profile_leaves_none_active() {
    let config = ConfigFile { active_profile: Some("a".to_owned()), profiles: vec![("a".to_owned(), Profile::default())] };
    let updated = remove_profile(config, "a").expect("profile should be removed");
    assert_eq!(updated.active_profile, None);
    assert!(updated.profiles.is_empty());
}

#[test]
fn stored_profiles_get_an_id_and_keep_their_secrets() {
    let draft = ProfileDraft {
        id: None,
        domain: "example.atlassian.net".to_owned(),
        protocol: None,
        api_path: None,
        auth_type: Some(AuthKind::Bearer),
        email: None,
        username: None,
        read_only: Some(false),
        has_secrets: true,
    };
    let secrets = ProfileSecrets { api_token: Some("t".to_owned()), password: None };
    let profile = profile_entry("work", draft, &secrets);
    assert_eq!(profile.id.as_deref(), Some("profile-work"));
    assert_eq!(profile.domain.as_deref(), Some("example.atlassian.net"));
    assert_eq!(profile.api_token.as_deref(), Some("t"));

    let config = ConfigFile { active_profile: None, profiles: vec![("work".to_owned(), profile)] };
    assert_eq!(existing_profile_id(&config, "work").as_deref(), Some("profile-work"));
    assert_eq!(existing_profile_id(&config, "other"), None);
}

fn work_file(read_only: bool, email: &str, token: &str) -> ConfigFile {
    ConfigFile {
        active_profile: Some("work".to_owned()),
        profiles: vec![(
            "work".to_owned(),
            Profile {
                domain: Some("workspace.example.atlassian.net".to_owned()),
                auth_type: Some(AuthKind::Basic),
                email: Some(email.to_owned()),
                api_token: Some(token.to_owned()),
                read_only: Some(read_only),
                ..Profile::default()
            },
        )],
    }
}

#[test]
fn resolves_profile_from_file() {
    let runtime = load_runtime(
        "config.json".to_owned(),
        work_file(true, "oscar@example.com", "token-1"),
        None,
        None,
        Ok(no_overrides()),
    )
    .expect("runtime should load");
    let profile = runtime.resolved_profile.expect("resolved profile should exist");

    assert_eq!(profile.domain, "workspace.example.atlassian.net");
    assert_eq!(profile.api_path, "/wiki/rest/api");
    assert_eq!(profile.email.as_deref(), Some("oscar@example.com"));
    assert_eq!(profile.api_token.as_deref(), Some("token-1"));
    assert!(profile.read_only);
}

#[test]
fn environment_overrides_profile_values() {
    let overrides = ProfileOverrides {
        domain: Some("custom.example.internal".to_owned()),
        email: Some("from-env@example.com".to_owned()),
        api_token: Some("token-env".to_owned()),
        read_only: Some(read_only_from_env("true")),
        ..ProfileOverrides::default()
    };
    let runtime = load_runtime(
        "config.json".to_owned(),
        work_file(false, "from-file@example.com", "token-file"),
        None,
        None,
        Ok(overrides),
    )
    .expect("runtime should load");
    let profile = runtime.resolved_profile.expect("resolved profile should exist");

    assert_eq!(profile.domain, "custom.example.internal");
    assert_eq!(profile.api_path, "/rest/api");
    assert_eq!(profile.email.as_deref(), Some("from-env@example.com"));
    assert_eq!(profile.api_token.as_deref(), Some("token-env"));
    assert!(profile.read_only);
}

#[test]
fn a_named_profile_the_file_lacks_is_refused() {
    let result = load_runtime("c".to_owned(), work_file(false, "e", "t"), None, Some("other".to_owned()), Ok(no_overrides()));
    match result {
        Err(ConfluenceCliError::Config(message)) => assert_eq!(message, "profile 'other' does not exist"),
        other => panic!("unexpected: {other:?}"),
    }
}

#[test]
fn the_command_line_profile_wins_over_the_environment() {
    let mut config = work_file(false, "e", "t");
    config.profiles.push((
        "cli".to_owned(),
        Profile {
            domain: Some("cli.example".to_owned()),
            auth_type: Some(AuthKind::Bearer),
            api_token: Some("x".to_owned()),
            ..Profile::default()
        },
    ));
    let runtime = load_runtime("c".to_owned(), config, Some("cli".to_owned()), Some("work".to_owned()), Ok(no_overrides()))
        .expect("runtime should load");
    let profile = runtime.resolved_profile.expect("resolved profile should exist");
    assert_eq!(profile.domain, "cli.example");
    assert_eq!(profile.name.as_deref(), Some("cli"));
    assert_eq!(runtime.profiles.profiles, vec!["work".to_owned(), "cli".to_owned()]);
}

#[test]
fn without_a_profile_nothing_is_resolved_and_overrides_are_not_read() {
    let config = ConfigFile { active_profile: None, profiles: Vec::new() };
    let failing = Err(ConfluenceCliError::Config("unsupported CONFLUENCE_AUTH_TYPE: x".to_owned()));
    let runtime = load_runtime("c".to_owned(), config, None, None, failing).expect("runtime should load");
    assert!(runtime.resolved_profile.is_none());
}

#[test]
fn environment_values_are_read_ignoring_case() {
    assert_eq!(auth_type_from_env("Bearer").ok(), Some(AuthKind::Bearer));
    assert_eq!(auth_type_from_env("MTLS").ok(), Some(AuthKind::Mtls));
    match auth_type_from_env("Token") {
        Err(ConfluenceCliError::Config(message)) => assert_eq!(message, "unsupported CONFLUENCE_AUTH_TYPE: token"),
        other => panic!("unexpected: {other:?}"),
    }
    assert!(read_only_from_env("YES"));
    assert!(read_only_from_env("1"));
    assert!(!read_only_from_env("no"));
    assert!(!read_only_from_env(""));
}
