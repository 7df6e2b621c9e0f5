use confluence_cli::application::runtime::{RuntimeConfig, RuntimeContext, RuntimeProfiles};
use confluence_cli::cli::args::{
    CliAuthKind, CliBodyFormat, ConvertCommand, GlobalArgs, OutputFormat, ProfileArgs,
};
use confluence_cli::cli::bootstrap::{profile_from_args, runtime_api_config};
use confluence_cli::cli::dispatch::{dispatch_convert, CommandReport};
use confluence_cli::cli::input::{
    convert_body_to_storage, default_export_dir, parse_move_target, parse_property_value,
    read_command_input, read_optional_json,
};
use confluence_cli::cli::prompt::{auth_kind_answer, bool_answer, bool_label, optional_answer};
use confluence_cli::cli::session::{SessionAction, ShellSession};
use confluence_cli::config::AuthKind;
use confluence_cli::domain::{MoveTarget, PageId, PageRef};
use confluence_cli::error::{ConfluenceCliError, Result};
use confluence_cli::shell::ShellControl;

fn no_files(path: String) -> Result<String> {
    Err(ConfluenceCliError::Io(format!("no such file: {path}")))
}

fn one_file(path: String) -> Result<String> {
    if path == "page.md" {
        Ok("# From file".to_owned())
    } else {
        no_files(path)
    }
}

fn config_message<T: std::fmt::Debug>(r: Result<T>) -> String {
    match r {
        Err(ConfluenceCliError::Config(m)) => m,
        other => panic!("expected a configuration error, got {other:?}"),
    }
}

fn global(profile: Option<&str>) -> GlobalArgs {
    GlobalArgs {
        config_path: None,
        profile: profile.map(str::to_owned),
        output: OutputFormat::Human,
    }
}

fn words(items: &[&str]) -> Vec<String> {
    items.iter().map(|s| s.to_string()).collect()
}

#[test]
fn convert_command_requires_a_single_input_source() {
    let error = read_command_input(Some("a".to_owned()), Some("page.md".to_owned()), "missing", &no_files)
        .expect_err("duplicate input sources should fail");
    assert!(matches!(error, ConfluenceCliError::Config(_)));
}

#[test]
fn command_input_comes_inline_or_from_a_file() {
    assert_eq!(read_command_input(Some("inline".to_owned()), None, "missing", &no_files).unwrap(), "inline");
    assert_eq!(read_command_input(None, Some("page.md".to_owned()), "missing", &one_file).unwrap(), "# From file");
    assert_eq!(config_message(read_command_input(None, None, "missing input", &no_files)), "missing input");
    assert!(matches!(
        read_command_input(None, Some("gone.md".to_owned()), "missing", &one_file),
        Err(ConfluenceCliError::Io(_))
    ));
}

#[test]
fn optional_json_is_absent_or_parsed() {
    assert!(read_optional_json(None, None, "", &no_files).unwrap().is_none());
    assert_eq!(config_message(read_optional_json(None, None, "needs json", &no_files)), "needs json");
    let value = read_optional_json(Some("{\"a\":1}".to_owned()), None, "", &no_files).unwrap();
    assert_eq!(value.unwrap()["a"], 1);
    let error = config_message(read_optional_json(Some("{".to_owned()), None, "", &no_files));
    assert!(error.starts_with("JSON input must be valid JSON: "));
}

#[test]
fn property_values_must_be_json() {
    assert_eq!(parse_property_value("{\"team\":\"eng\"}").unwrap()["team"], "eng");
    let error = config_message(parse_property_value("team eng"));
    assert!(error.starts_with("property value must be valid JSON: "));
}

#[test]
fn storage_bodies_pass_through_and_markdown_converts() {
    assert_eq!(convert_body_to_storage("<p>x</p>".to_owned(), CliBodyFormat::Storage).unwrap(), "<p>x</p>");
    assert_eq!(convert_body_to_storage("# Hello".to_owned(), CliBodyFormat::Markdown).unwrap(), "<h1>Hello</h1>");
}

#[test]
fn move_target_needs_exactly_one_option() {
    let page = || Some(PageRef::Id(PageId::new(2)));
    assert_eq!(
        parse_move_target(page(), None, None).unwrap(),
        MoveTarget::Parent(PageRef::Id(PageId::new(2)))
    );
    assert_eq!(
        parse_move_target(None, None, page()).unwrap(),
        MoveTarget::After(PageRef::Id(PageId::new(2)))
    );
    let expected = "page move requires exactly one of --to-parent, --before, or --after";
    assert_eq!(config_message(parse_move_target(None, None, None)), expected);
    assert_eq!(config_message(parse_move_target(page(), page(), None)), expected);
}

#[test]
fn export_directory_is_named_after_the_page() {
    assert_eq!(default_export_dir(&PageRef::Id(PageId::new(12345))), "page-export-12345");
    assert_eq!(default_export_dir(&PageRef::Url("https://x/pages/1".to_owned())), "page-export");
}

#[test]
fn convert_dispatch_converts_the_input() {
    let command = ConvertCommand {
        from: CliBodyFormat::Markdown,
        to: CliBodyFormat::Storage,
        input: Some("# Hello".to_owned()),
        input_file: None,
    };
    match dispatch_convert(command, &no_files) {
        Ok(CommandReport::Text(text)) => assert_eq!(text, "<h1>Hello</h1>"),
        other => panic!("unexpected {other:?}"),
    }
}

#[test]
fn convert_dispatch_names_the_missing_input() {
    let command = ConvertCommand {
        from: CliBodyFormat::Markdown,
        to: CliBodyFormat::Storage,
        input: None,
        input_file: None,
    };
    assert_eq!(config_message(dispatch_convert(command, &no_files)), "convert requires --input or --input-file");
}

#[test]
fn profile_settings_infer_the_auth_kind() {
    let args = ProfileArgs {
        domain: Some("example.atlassian.net".to_owned()),
        email: Some("a@example.com".to_owned()),
        api_token: Some("t".to_owned()),
        ..ProfileArgs::default()
    };
    let (draft, secrets) = profile_from_args(args, None).unwrap();
    assert_eq!(draft.auth_type, Some(AuthKind::Basic));
    assert!(draft.has_secrets);
    assert_eq!(secrets.api_token.as_deref(), Some("t"));

    let bearer = ProfileArgs {
        domain: Some("example.atlassian.net".to_owned()),
        api_token: Some("t".to_owned()),
        ..ProfileArgs::default()
    };
    assert_eq!(profile_from_args(bearer, None).unwrap().0.auth_type, Some(AuthKind::Bearer));

    let explicit = ProfileArgs {
        domain: Some("example.atlassian.net".to_owned()),
        auth_type: Some(CliAuthKind::Mtls),
        email: Some("a@example.com".to_owned()),
        ..ProfileArgs::default()
    };
    let (draft, _) = profile_from_args(explicit, None).unwrap();
    assert_eq!(draft.auth_type, Some(AuthKind::Mtls));
    assert!(!draft.has_secrets);
}

#[test]
fn profile_settings_need_a_domain() {
    assert_eq!(
        config_message(profile_from_args(ProfileArgs::default(), None)),
        "profile configuration requires --domain"
    );
}

#[test]
fn a_runtime_without_profile_has_no_api() {
    let runtime = RuntimeContext {
        runtime_config: RuntimeConfig {
            profiles: RuntimeProfiles { active_profile: None, profiles: Vec::new() },
            resolved_profile: None,
        },
    };
    assert_eq!(config_message(runtime_api_config(&runtime)), "no active or selected profile");
}

#[test]
fn prompt_answers_are_read_leniently() {
    assert_eq!(auth_kind_answer(""), Some(CliAuthKind::Basic));
    assert_eq!(auth_kind_answer("BEARER"), Some(CliAuthKind::Bearer));
    assert_eq!(auth_kind_answer("token"), None);
    assert_eq!(bool_answer("", true), Some(true));
    assert_eq!(bool_answer("No", true), Some(false));
    assert_eq!(bool_answer("maybe", true), None);
    assert_eq!(bool_label("Read only", false), "Read only [y/N]: ");
    assert_eq!(optional_answer(String::new()), None);
    assert_eq!(optional_answer("x".to_owned()), Some("x".to_owned()));
}

#[test]
fn session_prompt_shows_the_context() {
    let mut session = ShellSession::new(global(None));
    assert_eq!(session.prompt(), "confluence> ");
    session.apply_use(&words(&["profile", "work"])).unwrap();
    session.apply_use(&words(&["space-key", "ENG"])).unwrap();
    session.apply_use(&words(&["page", "123"])).unwrap();
    assert_eq!(session.prompt(), "confluence[profile=work, space=ENG, page=123]> ");
    assert_eq!(
        session.context_text(),
        "profile: work\nspace-key: ENG\nspace-id: (none)\npage: 123\n"
    );
}

#[test]
fn session_refuses_an_invalid_page() {
    let mut session = ShellSession::new(global(None));
    assert!(matches!(
        session.apply_use(&words(&["page", "nope"])),
        Err(ConfluenceCliError::InvalidPageRef(_))
    ));
    assert_eq!(session.prompt(), "confluence> ");
}

#[test]
fn session_lines_exit_or_run() {
    let mut session = ShellSession::new(global(Some("work")));
    assert!(matches!(session.run_line("exit"), Ok(SessionAction::Done(ShellControl::Exit))));
    assert!(matches!(session.run_line(""), Ok(SessionAction::Done(ShellControl::Continue))));
    assert!(matches!(session.run_line("page read \"unterminated"), Err(ConfluenceCliError::Config(_))));
    session.run_line("use page 42").unwrap();
    match session.run_line("page read") {
        Ok(SessionAction::Run(argv)) => {
            assert!(argv.ends_with(&words(&["page", "read", "42"])));
            assert!(argv.contains(&"work".to_owned()));
        }
        other => panic!("unexpected {other:?}"),
    }
}

#[test]
fn session_back_clears_the_page_and_reports_the_context() {
    let mut session = ShellSession::new(global(None));
    session.run_line("use space-key ENG").unwrap();
    session.run_line("use page 42").unwrap();
    match session.run_line("back") {
        Ok(SessionAction::Print(text)) => {
            assert_eq!(text, "profile: (resolver default)\nspace-key: ENG\nspace-id: (none)\npage: (none)\n")
        }
        other => panic!("unexpected {other:?}"),
    }
    assert_eq!(session.current_page, None);
    assert_eq!(session.current_space_key.as_deref(), Some("ENG"));
}

#[test]
fn session_use_and_unset_change_the_context_or_refuse() {
    let mut session = ShellSession::new(global(None));
    match session.run_line("use profile work") {
        Ok(SessionAction::Print(text)) => assert!(text.starts_with("profile: work\n")),
        other => panic!("unexpected {other:?}"),
    }
    assert!(matches!(session.run_line("use colour red"), Err(ConfluenceCliError::Config(_))));
    assert_eq!(session.global.profile.as_deref(), Some("work"));
    match session.run_line("unset profile") {
        Ok(SessionAction::Print(text)) => assert!(text.starts_with("profile: (resolver default)\n")),
        other => panic!("unexpected {other:?}"),
    }
    assert!(matches!(session.run_line("unset"), Err(ConfluenceCliError::Config(_))));
    assert_eq!(session.global.profile, None);
}
