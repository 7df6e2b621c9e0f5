use confluence_cli::application::models::PageContentKind;
use confluence_cli::application::runtime::{
    ResolvedProfile, RuntimeConfig, RuntimeContext, RuntimeProfiles,
};
use confluence_cli::application::vfs::{
    DirEntry, NodeCapability, NodeHandle, NodeKind, NodeStat, PageNode, SpaceNode,
    VirtualFileSystem,
};
use confluence_cli::cli::args::{GlobalArgs, OutputFormat};
use confluence_cli::config::AuthKind;
use confluence_cli::error::{ConfluenceCliError, Result};
use confluence_cli::shell::commands::tail::{parse_n, TailMode};
use confluence_cli::shell::commands::{help_for, is_registered};
use confluence_cli::shell::format::{render_listing, ListingStyle};
use confluence_cli::shell::parser::ShellParser;
use confluence_cli::shell::pipeline::{execute, PipelineStep};
use confluence_cli::shell::state::ShellState;
use confluence_cli::shell::{ShellControl, ShellRequest};

struct FakeVfs;

fn space_entry() -> DirEntry {
    DirEntry {
        name: "ALPHA".to_owned(),
        handle: NodeHandle::Space(SpaceNode {
            id: "100".to_owned(),
            key: "ALPHA".to_owned(),
            name: "Workspace Alpha".to_owned(),
            homepage_id: Some(1),
        }),
        stat: NodeStat {
            kind: NodeKind::Space,
            name: "ALPHA".to_owned(),
            capabilities: vec![NodeCapability::List, NodeCapability::Traverse, NodeCapability::Create],
            has_children: None,
        },
    }
}

fn page_entry(id: u64, title: &str) -> DirEntry {
    DirEntry {
        name: title.to_owned(),
        handle: NodeHandle::Page(PageNode {
            id,
            title: title.to_owned(),
            space_id: Some("100".to_owned()),
            content_kind: PageContentKind::Page,
        }),
        stat: NodeStat {
            kind: NodeKind::Page,
            name: title.to_owned(),
            capabilities: vec![NodeCapability::Read, NodeCapability::List, NodeCapability::Traverse],
            has_children: None,
        },
    }
}

impl VirtualFileSystem for FakeVfs {
    fn stat(&self, handle: &NodeHandle) -> Result<NodeStat> {
        Ok(match handle {
            NodeHandle::Root => NodeStat {
                kind: NodeKind::Root,
                name: "/".to_owned(),
                capabilities: vec![NodeCapability::List, NodeCapability::Traverse],
                has_children: None,
            },
            NodeHandle::Space(_) => space_entry().stat,
            NodeHandle::Page(page) => page_entry(page.id, &page.title).stat,
        })
    }

    fn read_dir(&self, handle: &NodeHandle) -> Result<Vec<DirEntry>> {
        Ok(match handle {
            NodeHandle::Root => vec![space_entry()],
            NodeHandle::Space(_) => vec![page_entry(1, "Project Notes"), page_entry(2, "User Guide")],
            NodeHandle::Page(_) => Vec::new(),
        })
    }

    fn open_child(&self, parent: &NodeHandle, name: &str) -> Result<NodeHandle> {
        self.read_dir(parent)?
            .into_iter()
            .find(|entry| entry.name == name)
            .map(|entry| entry.handle)
            .ok_or_else(|| ConfluenceCliError::Config(format!("'{name}' not found")))
    }

    fn read(&self, handle: &NodeHandle) -> Result<String> {
        match handle {
            NodeHandle::Page(page) => Ok(format!("<p>{} line one</p><p>second line</p><p>keyword here</p>", page.title)),
            _ => Ok(String::new()),
        }
    }
}

fn runtime(read_only: Option<bool>) -> RuntimeContext {
    RuntimeContext {
        runtime_config: RuntimeConfig {
            profiles: RuntimeProfiles {
                active_profile: Some("work".to_owned()),
                profiles: vec!["work".to_owned()],
            },
            resolved_profile: read_only.map(|read_only| ResolvedProfile {
                id: "p-1".to_owned(),
                name: Some("work".to_owned()),
                domain: "example.atlassian.net".to_owned(),
                protocol: "https".to_owned(),
                api_path: "/wiki/rest/api".to_owned(),
                auth_type: AuthKind::Bearer,
                email: None,
                username: None,
                api_token: Some("token".to_owned()),
                password: None,
                read_only,
                secret_backend: None,
            }),
        },
    }
}

fn global() -> GlobalArgs {
    GlobalArgs {
        config_path: None,
        profile: Some("work".to_owned()),
        output: OutputFormat::Human,
    }
}

fn shell() -> ShellState<FakeVfs> {
    ShellState::new(global(), runtime(None), FakeVfs)
}

fn run(state: &mut ShellState<FakeVfs>, line: &str) -> Result<PipelineStep> {
    let parsed = ShellParser::parse(line)?;
    execute(state, parsed)
}

fn output_of(step: Result<PipelineStep>) -> String {
    match step {
        Ok(PipelineStep::Finished(outcome)) => outcome.output.unwrap_or_default(),
        other => panic!("expected a finished line, got {other:?}"),
    }
}

fn config_message<T: std::fmt::Debug>(r: Result<T>) -> String {
    match r {
        Err(ConfluenceCliError::Config(m)) => m,
        other => panic!("expected a configuration error, got {other:?}"),
    }
}

#[test]
fn registry_knows_shell_native_commands() {
    assert!(is_registered("cat"));
    assert!(is_registered("grep"));
    assert!(is_registered("find"));
    assert!(is_registered("mkdir"));
    assert!(is_registered("mv"));
    assert!(is_registered("cp"));
    assert!(is_registered("rm"));
    assert!(is_registered("rmdir"));
    assert!(is_registered("whoami"));
    assert!(is_registered("id"));
    assert!(is_registered("seq"));
    assert!(is_registered("sleep"));
    assert!(is_registered("tail"));
    assert!(!is_registered("page"));
}

#[test]
fn help_entries_exist_for_registered_commands() {
    assert!(help_for("cat").unwrap().contains("markdown"));
    assert!(help_for("grep").unwrap().contains("pattern"));
    assert!(help_for("find").unwrap().contains("--name"));
    assert!(help_for("mkdir").unwrap().contains("folder"));
    assert!(help_for("mv").unwrap().contains("Move or rename"));
    assert!(help_for("cp").unwrap().contains("Copy a page"));
    assert!(help_for("rm").unwrap().contains("Remove a page"));
    assert!(help_for("rmdir").unwrap().contains("empty folder"));
    assert!(help_for("whoami").unwrap().contains("identity"));
    assert!(help_for("id").unwrap().contains("identity"));
    assert!(help_for("seq").unwrap().contains("sequence"));
    assert!(help_for("sleep").unwrap().contains("duration"));
    assert!(help_for("tail").unwrap().contains("last lines"));
}

#[test]
fn parses_last_n_mode() {
    assert_eq!(parse_n("5").unwrap(), TailMode::Last(5));
}

#[test]
fn parses_from_n_mode() {
    assert_eq!(parse_n("+3").unwrap(), TailMode::From(3));
}

#[test]
fn simple_listing_uses_columns_for_short_entries() {
    let entries = vec![
        page_entry(1, "Alpha"),
        page_entry(1, "Beta"),
        page_entry(1, "Gamma"),
        page_entry(1, "Delta"),
    ];
    let rendered = render_listing(&entries, ListingStyle::Simple);
    assert!(rendered.lines().count() < entries.len());
}

#[test]
fn parses_quoted_argument() {
    let parsed = ShellParser::parse("ls \"People Docs\"").expect("parser should succeed");
    assert_eq!(parsed.pipeline.commands.len(), 1);
    assert_eq!(parsed.pipeline.commands[0].argv, vec!["ls", "People Docs"]);
}

#[test]
fn parses_pipeline() {
    let parsed = ShellParser::parse("ls ALPHA | grep Project").expect("parser should succeed");
    assert_eq!(parsed.pipeline.commands.len(), 2);
    assert_eq!(parsed.pipeline.commands[0].argv, vec!["ls", "ALPHA"]);
    assert_eq!(parsed.pipeline.commands[1].argv, vec!["grep", "Project"]);
}

#[test]
fn rejects_empty_pipeline_stage() {
    let error = ShellParser::parse("ls || grep x").expect_err("parser should reject empty stage");
    assert!(error.message().contains("empty command"));
}

#[test]
fn resolve_parent_for_create_splits_leaf_from_path() {
    let state = shell();
    let (lineage, leaf) = state.resolve_parent_for_create("ALPHA/New Page").unwrap();
    assert_eq!(leaf, "New Page");
    assert_eq!(state.render_lineage(&lineage), "/ALPHA");
}

#[test]
fn ensure_writable_rejects_read_only_runtime() {
    let state = ShellState::new(global(), runtime(Some(true)), FakeVfs);
    let error = state.ensure_writable().expect_err("read-only runtime should fail");
    assert!(matches!(error, ConfluenceCliError::Config(_)));
}

#[test]
fn writable_runtime_passes_the_shell_check() {
    let state = ShellState::new(global(), runtime(Some(false)), FakeVfs);
    assert!(state.ensure_writable().is_ok());
}

#[test]
fn unmatched_quotes_are_refused() {
    let error = ShellParser::parse("ls \"open").expect_err("unmatched quote should fail");
    assert_eq!(error.message(), "shell input has unmatched quotes");
}

#[test]
fn cd_moves_down_up_and_to_the_root() {
    let mut state = shell();
    assert_eq!(state.cwd_display(), "/");
    state.change_directory("ALPHA").expect("cd into the space");
    state.change_directory("Project Notes").expect("cd into the page");
    assert_eq!(state.cwd_display(), "/ALPHA/Project Notes");
    state.change_directory("..").expect("cd up");
    assert_eq!(state.cwd_display(), "/ALPHA");
    state.change_directory("/").expect("cd to the root");
    assert_eq!(state.cwd_display(), "/");
    state.change_directory("..").expect("cd up at the root stays");
    assert_eq!(state.cwd_display(), "/");
}

#[test]
fn failed_cd_keeps_the_directory() {
    let mut state = shell();
    state.change_directory("ALPHA").expect("cd into the space");
    assert!(state.change_directory("Missing").is_err());
    assert_eq!(state.cwd_display(), "/ALPHA");
}

#[test]
fn pwd_prints_the_logical_path() {
    let mut state = shell();
    state.change_directory("ALPHA").unwrap();
    assert_eq!(output_of(run(&mut state, "pwd")), "/ALPHA\n");
}

#[test]
fn ls_piped_into_grep_keeps_matching_lines() {
    let mut state = shell();
    let out = output_of(run(&mut state, "ls ALPHA | grep Guide"));
    assert!(out.contains("User Guide"));
    assert!(!out.contains("Project Notes"));
}

#[test]
fn stateful_builtins_are_refused_in_pipelines() {
    let mut state = shell();
    assert_eq!(config_message(run(&mut state, "cd ALPHA | grep x")), "`cd` cannot be used in a pipeline");
    assert_eq!(config_message(run(&mut state, "exit | grep x")), "`exit` cannot be used in a pipeline");
    assert_eq!(state.cwd_display(), "/");
}

#[test]
fn pipelines_deeper_than_the_cap_are_refused() {
    let mut state = shell();
    let line = vec!["pwd"; 17].join(" | ");
    assert_eq!(config_message(run(&mut state, &line)), "pipeline depth exceeds maximum of 16 stages");
    let line = vec!["pwd"; 16].join(" | ");
    assert_eq!(output_of(run(&mut state, &line)), "/\n");
}

#[test]
fn exit_ends_the_shell() {
    let mut state = shell();
    match run(&mut state, "exit") {
        Ok(PipelineStep::Finished(outcome)) => assert_eq!(outcome.control, ShellControl::Exit),
        other => panic!("unexpected outcome {other:?}"),
    }
}

#[test]
fn use_profile_asks_the_host_to_load_it() {
    let mut state = shell();
    match run(&mut state, "use profile other") {
        Ok(PipelineStep::Paused { request, stage }) => {
            assert_eq!(request, ShellRequest::LoadProfile("other".to_owned()));
            assert_eq!(stage, 0);
        }
        other => panic!("unexpected outcome {other:?}"),
    }
}

#[test]
fn page_commands_are_forwarded_with_the_current_page() {
    let mut state = shell();
    state.change_directory("ALPHA").unwrap();
    state.change_directory("Project Notes").unwrap();
    match run(&mut state, "page info") {
        Ok(PipelineStep::Paused { request: ShellRequest::Forward(argv), .. }) => {
            assert!(argv.ends_with(&["page".to_owned(), "info".to_owned(), "1".to_owned()]));
        }
        other => panic!("unexpected outcome {other:?}"),
    }
}

#[test]
fn explicit_page_wins_over_the_current_page() {
    let mut state = shell();
    state.change_directory("ALPHA").unwrap();
    state.change_directory("Project Notes").unwrap();
    match run(&mut state, "page info 777") {
        Ok(PipelineStep::Paused { request: ShellRequest::Forward(argv), .. }) => {
            assert!(argv.ends_with(&["page".to_owned(), "info".to_owned(), "777".to_owned()]));
            assert!(!argv.contains(&"1".to_owned()));
        }
        other => panic!("unexpected outcome {other:?}"),
    }
}

#[test]
fn unknown_commands_are_not_pipe_aware() {
    let mut state = shell();
    assert_eq!(config_message(run(&mut state, "pwd | page info")), "`page` is not pipe-aware yet");
}

#[test]
fn cat_prints_page_text() {
    let mut state = shell();
    state.change_directory("ALPHA").unwrap();
    let out = output_of(run(&mut state, "cat \"User Guide\""));
    assert!(out.contains("User Guide line one"));
    assert!(out.contains("keyword here"));
}

#[test]
fn grep_finds_matching_page_lines() {
    let mut state = shell();
    state.change_directory("ALPHA").unwrap();
    let out = output_of(run(&mut state, "grep keyword"));
    assert!(out.contains("keyword here"));
    assert!(!out.contains("second line"));
}

#[test]
fn find_with_star_lists_every_page() {
    let mut state = shell();
    state.change_directory("ALPHA").unwrap();
    let out = output_of(run(&mut state, "find . --name '*'"));
    assert!(out.contains("Project Notes"));
    assert!(out.contains("User Guide"));
}

#[test]
fn cat_renders_in_the_mode_its_flag_names() {
    let mut state = shell();
    state.change_directory("ALPHA").unwrap();
    let raw = output_of(run(&mut state, "cat --raw \"User Guide\""));
    assert_eq!(raw, "<p>User Guide line one</p><p>second line</p><p>keyword here</p>\n");
    let text = output_of(run(&mut state, "cat --text \"User Guide\""));
    assert!(text.contains("User Guide line one"));
    assert!(!text.contains("<p>"));
    let markdown = output_of(run(&mut state, "cat \"User Guide\""));
    assert_eq!(markdown, output_of(run(&mut state, "cat --markdown \"User Guide\"")));
    let html = output_of(run(&mut state, "cat --html \"User Guide\""));
    assert!(html.contains("<p>"));
    assert_eq!(
        config_message(run(&mut state, "cat --text a b")),
        "usage: cat [--raw|--text|--markdown|--html] [target]"
    );
}
