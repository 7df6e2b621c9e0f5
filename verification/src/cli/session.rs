//! The line-oriented shell of earlier releases: it keeps a current profile, space and
//! page, fills them into the commands typed, and hands each command line to the
//! one-shot command runner.
use vstd::prelude::*;

use crate::config::opt_view;
use crate::domain::{spec_parse_page_ref, PageRef};
use crate::error::{ConfluenceCliError, Result};
use crate::shell::forward::{apply_command_context, insert_page_token, spec_apply_context, spec_insert_page};
use crate::shell::state::unit_result;
use crate::shell::ShellControl;
use crate::text::{copy_str, join, spec_join, str_eq, strings_view};

use super::args::{GlobalArgs, OutputFormat};

verus! {

/// The overview `help` prints in this shell.
pub const SESSION_HELP: &'static str = "Confluence shell commands:\n  help [topic]         Show shell or command help\n  context              Show current shell context\n  pwd                  Alias for context\n  use profile <name>   Set the shell-local profile\n  use page <ref>       Set the current page id or URL\n  use space-key <key>  Set the current space key for page create\n  use space-id <id>    Set the current space id for page create\n  unset profile        Clear the shell-local profile\n  unset page           Clear the current page\n  unset space          Clear the current space key/id\n  back                 Clear the current page\n  exit | quit          Leave the shell\n\nForwarded commands keep the same grammar as the one-liner CLI:\n  page info\n  page search \"release notes\"\n  attachment list\n  property list\n  comment list";

/// What `shlex::split` gives for a line.
pub uninterp spec fn spec_shlex_split(line: Seq<char>) -> Option<Seq<Seq<char>>>;

/// `shlex::split`: the words of a line split as a POSIX shell does, or `None` when the
/// line is malformed (an unclosed quote or a trailing backslash).
#[verifier::external_body]
fn shlex_split(line: &str) -> (r: Option<Vec<String>>)
    ensures
        match (r, spec_shlex_split(line@)) {
            (Some(v), Some(w)) => strings_view(v@) == w,
            (None, None) => true,
            _ => false,
        },
{
    shlex::split(line)
}

/// What the host does after a line.
#[derive(Debug, Clone, PartialEq, Eq)]
pub enum SessionAction {
    /// Nothing more to do; go on or leave.
    Done(ShellControl),
    /// Print the text and go on.
    Print(String),
    /// Run this command line with the one-shot command runner, print its error if it
    /// fails, and go on.
    Run(Vec<String>),
}

/// The session's context.
#[derive(Debug, Clone)]
pub struct ShellSession {
    pub global: GlobalArgs,
    pub current_page: Option<String>,
    pub current_space_id: Option<String>,
    pub current_space_key: Option<String>,
}

/// The prompt: the context in brackets when any is set.
pub open spec fn spec_session_prompt(s: ShellSession) -> Seq<char> {
    let a: Seq<Seq<char>> = match s.global.profile {
        Some(p) => seq!["profile="@ + p@],
        None => Seq::empty(),
    };
    let b = match s.current_space_key {
        Some(k) => a.push("space="@ + k@),
        None => match s.current_space_id {
            Some(i) => a.push("space-id="@ + i@),
            None => a,
        },
    };
    let c = match s.current_page {
        Some(p) => b.push("page="@ + p@),
        None => b,
    };
    if c.len() == 0 {
        "confluence> "@
    } else {
        "confluence["@ + spec_join(c, ", "@) + "]> "@
    }
}

/// The context report printed after each change.
pub open spec fn spec_context_text(s: ShellSession) -> Seq<char> {
    "profile: "@ + match s.global.profile {
        Some(p) => p@,
        None => "(resolver default)"@,
    } + "\nspace-key: "@ + match s.current_space_key {
        Some(k) => k@,
        None => "(none)"@,
    } + "\nspace-id: "@ + match s.current_space_id {
        Some(i) => i@,
        None => "(none)"@,
    } + "\npage: "@ + match s.current_page {
        Some(p) => p@,
        None => "(none)"@,
    } + "\n"@
}

/// The words of a command line with the session's context filled in.
pub open spec fn spec_session_context(s: ShellSession, tokens: Seq<Seq<char>>) -> Seq<Seq<char>> {
    spec_apply_context(
        tokens,
        opt_view(s.current_page),
        match s.current_space_key {
            Some(k) => Some(("--space-key"@, k@)),
            None => match s.current_space_id {
                Some(i) => Some(("--space-id"@, i@)),
                None => None,
            },
        },
    )
}

/// The global options written back as words.
pub open spec fn spec_session_global_words(g: GlobalArgs) -> Seq<Seq<char>> {
    crate::shell::forward::spec_global_words(g)
}

/// What `use` with the words `a` after it does to the session `o`: the session `f`
/// after it and the outcome `r`.
pub open spec fn spec_apply_use(a: Seq<Seq<char>>, o: ShellSession, f: ShellSession, r: Result<()>) -> bool {
    if a.len() == 2 && a[0] == "profile"@ {
        r is Ok && opt_view(f.global.profile) == Some(a[1]) && f.global.config_path
            == o.global.config_path && f.global.output == o.global.output && f.current_page
            == o.current_page && f.current_space_id == o.current_space_id && f.current_space_key
            == o.current_space_key
    } else if a.len() == 2 && a[0] == "page"@ {
        if spec_parse_page_ref(a[1]) is None {
            r matches Err(ConfluenceCliError::InvalidPageRef(m)) && m@ == a[1] && f == o
        } else {
            r is Ok && opt_view(f.current_page) == Some(a[1]) && f.global == o.global
                && f.current_space_id == o.current_space_id && f.current_space_key
                == o.current_space_key
        }
    } else if a.len() == 2 && a[0] == "space-key"@ {
        r is Ok && opt_view(f.current_space_key) == Some(a[1]) && f.current_space_id is None
            && f.global == o.global && f.current_page == o.current_page
    } else if a.len() == 2 && a[0] == "space-id"@ {
        r is Ok && opt_view(f.current_space_id) == Some(a[1]) && f.current_space_key is None
            && f.global == o.global && f.current_page == o.current_page
    } else {
        r matches Err(ConfluenceCliError::Config(m)) && m@ == spec_use_usage() && f == o
    }
}

/// What `unset` with the words `a` after it does to the session `o`: the session `f`
/// after it and the outcome `r`.
pub open spec fn spec_apply_unset(a: Seq<Seq<char>>, o: ShellSession, f: ShellSession, r: Result<()>) -> bool {
    if a.len() == 1 && a[0] == "profile"@ {
        r is Ok && f.global.profile is None && f.global.config_path == o.global.config_path
            && f.global.output == o.global.output && f.current_page == o.current_page
            && f.current_space_id == o.current_space_id && f.current_space_key
            == o.current_space_key
    } else if a.len() == 1 && a[0] == "page"@ {
        r is Ok && f.current_page is None && f.global == o.global && f.current_space_id
            == o.current_space_id && f.current_space_key == o.current_space_key
    } else if a.len() == 1 && (a[0] == "space"@ || a[0] == "space-key"@ || a[0] == "space-id"@) {
        r is Ok && f.current_space_key is None && f.current_space_id is None && f.global
            == o.global && f.current_page == o.current_page
    } else {
        r matches Err(ConfluenceCliError::Config(m)) && m@ == spec_unset_usage() && f == o
    }
}

/// The usage of `use`.
pub open spec fn spec_use_usage() -> Seq<char> {
    "usage: use profile <name> | use page <page-ref> | use space-key <key> | use space-id <id>"@
}

/// The usage of `unset`.
pub open spec fn spec_unset_usage() -> Seq<char> {
    "usage: unset profile | unset page | unset space"@
}

/// The words of `help` after the first when they ask for a command's help: the command
/// line with `--help` added unless an help flag is there.
pub open spec fn spec_help_argv(args: Seq<Seq<char>>) -> Seq<Seq<char>> {
    let argv = seq!["confluence"@] + args;
    if exists|i: int| 0 <= i < argv.len() && (#[trigger] argv[i] == "--help"@ || argv[i] == "-h"@) {
        argv
    } else {
        argv.push("--help"@)
    }
}

impl ShellSession {
    /// A session with no context beyond the global options.
    pub fn new(global: GlobalArgs) -> (r: Self)
        ensures
            r.global == global,
            r.current_page is None,
            r.current_space_id is None,
            r.current_space_key is None,
    {
        ShellSession { global, current_page: None, current_space_id: None, current_space_key: None }
    }

    /// The prompt.
    pub fn prompt(&self) -> (r: String)
        ensures
            r@ == spec_session_prompt(*self),
    {
        let mut segments: Vec<String> = Vec::new();
        if let Some(profile) = &self.global.profile {
            let mut s = copy_str("profile=");
            s.append(profile.as_str());
            segments.push(s);
            assert(strings_view(segments@) == seq!["profile="@ + profile@]);
        } else {
            assert(strings_view(segments@) == Seq::<Seq<char>>::empty());
        }
        let ghost a = strings_view(segments@);
        if let Some(key) = &self.current_space_key {
            let mut s = copy_str("space=");
            s.append(key.as_str());
            segments.push(s);
            assert(strings_view(segments@) == a.push("space="@ + key@));
        } else if let Some(id) = &self.current_space_id {
            let mut s = copy_str("space-id=");
            s.append(id.as_str());
            segments.push(s);
            assert(strings_view(segments@) == a.push("space-id="@ + id@));
        }
        let ghost b = strings_view(segments@);
        if let Some(page) = &self.current_page {
            let mut s = copy_str("page=");
            s.append(page.as_str());
            segments.push(s);
            assert(strings_view(segments@) == b.push("page="@ + page@));
        }
        if segments.len() == 0 {
            return copy_str("confluence> ");
        }
        let mut out = copy_str("confluence[");
        let joined = join(segments.as_slice(), ", ");
        out.append(joined.as_str());
        out.append("]> ");
        out
    }

    /// The context report.
    pub fn context_text(&self) -> (r: String)
        ensures
            r@ == spec_context_text(*self),
    {
        let mut out = copy_str("profile: ");
        match &self.global.profile {
            Some(p) => out.append(p.as_str()),
            None => out.append("(resolver default)"),
        }
        out.append("\nspace-key: ");
        match &self.current_space_key {
            Some(k) => out.append(k.as_str()),
            None => out.append("(none)"),
        }
        out.append("\nspace-id: ");
        match &self.current_space_id {
            Some(i) => out.append(i.as_str()),
            None => out.append("(none)"),
        }
        out.append("\npage: ");
        match &self.current_page {
            Some(p) => out.append(p.as_str()),
            None => out.append("(none)"),
        }
        out.append("\n");
        out
    }

    /// Inserts the current page as the third word where the command expects it.
    pub fn inject_page_ref(&self, tokens: &mut Vec<String>, allow_second_positional: bool) -> (r: Result<()>)
        requires
            old(tokens)@.len() >= 2,
        ensures
            r is Ok,
            strings_view(final(tokens)@) == spec_insert_page(
                strings_view(old(tokens)@),
                allow_second_positional,
                opt_view(self.current_page),
            ),
    {
        match &self.current_page {
            Some(p) => insert_page_token(tokens, allow_second_positional, Some(p.as_str())),
            None => insert_page_token(tokens, allow_second_positional, None),
        }
        Ok(())
    }

    /// Fills the session's page and space into command words.
    pub fn apply_context(&self, tokens: &mut Vec<String>) -> (r: Result<()>)
        ensures
            r is Ok,
            strings_view(final(tokens)@) == spec_session_context(*self, strings_view(old(tokens)@)),
    {
        let page = match &self.current_page {
            Some(p) => Some(p.as_str()),
            None => None,
        };
        match &self.current_space_key {
            Some(k) => apply_command_context(tokens, page, Some(("--space-key", k.as_str()))),
            None => match &self.current_space_id {
                Some(i) => apply_command_context(tokens, page, Some(("--space-id", i.as_str()))),
                None => apply_command_context(tokens, page, None),
            },
        }
        Ok(())
    }

    /// The command line a typed command runs as.
    pub fn build_argv(&self, tokens: &[String]) -> (r: Result<Vec<String>>)
        ensures
            r matches Ok(v) && strings_view(v@) == spec_session_global_words(self.global) + spec_session_context(
                *self,
                strings_view(tokens@),
            ),
    {
        let mut forwarded = crate::text::clone_strings(tokens);
        self.apply_context(&mut forwarded)?;
        let mut argv: Vec<String> = Vec::new();
        argv.push(copy_str("confluence"));
        match &self.global.config_path {
            Some(p) => {
                argv.push(copy_str("--config-path"));
                argv.push(p.clone());
            },
            None => {},
        }
        match &self.global.profile {
            Some(p) => {
                argv.push(copy_str("--profile"));
                argv.push(p.clone());
            },
            None => {},
        }
        if self.global.output != OutputFormat::Human {
            argv.push(copy_str("--output"));
            argv.push(copy_str("json"));
        }
        assert(strings_view(argv@) == spec_session_global_words(self.global));
        let ghost head = strings_view(argv@);
        let ghost tail = strings_view(forwarded@);
        let mut i: usize = 0;
        while i < forwarded.len()
            invariant
                i <= forwarded.len(),
                tail == strings_view(forwarded@),
                strings_view(argv@) == head + tail.take(i as int),
            decreases forwarded.len() - i,
        {
            let ghost before = strings_view(argv@);
            argv.push(forwarded[i].clone());
            assert(strings_view(argv@) == before.push(forwarded@[i as int]@));
            assert(tail.take(i + 1) == tail.take(i as int).push(tail[i as int]));
            i = i + 1;
        }
        assert(tail.take(forwarded.len() as int) == tail);
        Ok(argv)
    }

    /// `use <kind> <value>`: sets the profile, the page (a valid page reference), or the
    /// space by key or by id, the other one cleared.
    pub fn apply_use(&mut self, args: &[String]) -> (r: Result<()>)
        ensures
            spec_apply_use(strings_view(args@), *old(self), *final(self), r),
    {
        proof {
            reveal_strlit("profile");
            reveal_strlit("page");
            reveal_strlit("space-key");
            reveal_strlit("space-id");
        }
        let ghost a = strings_view(args@);
        if args.len() == 2 {
            assert(a[0] == args@[0]@ && a[1] == args@[1]@);
            let kind = args[0].as_str();
            if str_eq(kind, "profile") {
                self.global.profile = Some(args[1].clone());
                return Ok(());
            }
            if str_eq(kind, "page") {
                PageRef::parse(args[1].as_str())?;
                self.current_page = Some(args[1].clone());
                return Ok(());
            }
            if str_eq(kind, "space-key") {
                self.current_space_key = Some(args[1].clone());
                self.current_space_id = None;
                return Ok(());
            }
            if str_eq(kind, "space-id") {
                self.current_space_id = Some(args[1].clone());
                self.current_space_key = None;
                return Ok(());
            }
        }
        Err(ConfluenceCliError::Config(copy_str("usage: use profile <name> | use page <page-ref> | use space-key <key> | use space-id <id>")))
    }

    /// `unset <kind>`: clears the profile, the page, or the space.
    pub fn apply_unset(&mut self, args: &[String]) -> (r: Result<()>)
        ensures
            spec_apply_unset(strings_view(args@), *old(self), *final(self), r),
    {
        proof {
            reveal_strlit("profile");
            reveal_strlit("page");
            reveal_strlit("space");
            reveal_strlit("space-key");
            reveal_strlit("space-id");
        }
        let ghost a = strings_view(args@);
        if args.len() == 1 {
            assert(a[0] == args@[0]@);
            let kind = args[0].as_str();
            if str_eq(kind, "profile") {
                self.global.profile = None;
                return Ok(());
            }
            if str_eq(kind, "page") {
                self.current_page = None;
                return Ok(());
            }
            if str_eq(kind, "space") || str_eq(kind, "space-key") || str_eq(kind, "space-id") {
                self.current_space_key = None;
                self.current_space_id = None;
                return Ok(());
            }
        }
        Err(ConfluenceCliError::Config(copy_str("usage: unset profile | unset page | unset space")))
    }

    /// The command line that shows a command's own help.
    pub fn help_argv(&self, args: &[String]) -> (r: Vec<String>)
        ensures
            strings_view(r@) == spec_help_argv(strings_view(args@)),
    {
        let ghost av = strings_view(args@);
        let mut argv: Vec<String> = Vec::new();
        argv.push(copy_str("confluence"));
        let mut has_help = false;
        let mut i: usize = 0;
        proof {
            reveal_strlit("confluence");
            reveal_strlit("--help");
            reveal_strlit("-h");
            assert(strings_view(argv@)[0] == "confluence"@);
            assert("confluence"@.len() == 10);
            assert("--help"@.len() == 6);
            assert("-h"@.len() == 2);
            assert(strings_view(argv@).len() == 1);
        }
        assert(strings_view(argv@) == seq!["confluence"@] + av.take(0));
        while i < args.len()
            invariant
                i <= args.len(),
                av == strings_view(args@),
                strings_view(argv@) == seq!["confluence"@] + av.take(i as int),
                has_help == exists|j: int|
                    0 <= j < strings_view(argv@).len() && (#[trigger] strings_view(argv@)[j] == "--help"@
                        || strings_view(argv@)[j] == "-h"@),
            decreases args.len() - i,
        {
            let ghost before = strings_view(argv@);
            if str_eq(args[i].as_str(), "--help") || str_eq(args[i].as_str(), "-h") {
                has_help = true;
            }
            argv.push(args[i].clone());
            proof {
                let now = strings_view(argv@);
                assert(now == before.push(av[i as int]));
                assert(av.take(i + 1) == av.take(i as int).push(av[i as int]));
                if has_help {
                    if exists|j: int| 0 <= j < before.len() && (#[trigger] before[j] == "--help"@ || before[j] == "-h"@) {
                        let j = choose|j: int| 0 <= j < before.len() && (#[trigger] before[j] == "--help"@ || before[j] == "-h"@);
                        assert(now[j] == before[j]);
                    } else {
                        assert(now[before.len() as int] == av[i as int]);
                    }
                } else {
                    assert forall|j: int| 0 <= j < now.len() implies !(#[trigger] now[j] == "--help"@ || now[j] == "-h"@) by {
                        if j < before.len() {
                            assert(now[j] == before[j]);
                        }
                    }
                }
            }
            i = i + 1;
        }
        assert(av.take(args.len() as int) == av);
        if !has_help {
            let ghost before = strings_view(argv@);
            argv.push(copy_str("--help"));
            assert(strings_view(argv@) == before.push("--help"@));
        }
        argv
    }

    /// Runs one typed line: the session's own commands change or report the context;
    /// any other command is handed to the host to run with the context filled in.
    pub fn run_line(&mut self, line: &str) -> (r: Result<SessionAction>)
        ensures
            match spec_shlex_split(line@) {
                None => r matches Err(ConfluenceCliError::Config(m)) && m@ == "shell input has unmatched quotes"@
                    && *final(self) == *old(self),
                Some(t) => if t.len() == 0 {
                    r matches Ok(SessionAction::Done(c)) && c == ShellControl::Continue && *final(self)
                        == *old(self)
                } else if t[0] == "exit"@ || t[0] == "quit"@ {
                    r matches Ok(SessionAction::Done(c)) && c == ShellControl::Exit && *final(self)
                        == *old(self)
                } else if t[0] == "help"@ {
                    *final(self) == *old(self) && if t.len() == 1 || t[1] == "shell"@ {
                        r matches Ok(SessionAction::Print(s)) && s@ == SESSION_HELP@ + "\n"@
                    } else {
                        r matches Ok(SessionAction::Run(v)) && strings_view(v@) == spec_help_argv(t.skip(1))
                    }
                } else if t[0] == "context"@ || t[0] == "pwd"@ {
                    r matches Ok(SessionAction::Print(s)) && s@ == spec_context_text(*old(self)) && *final(self)
                        == *old(self)
                } else if t[0] == "use"@ {
                    &&& spec_apply_use(t.skip(1), *old(self), *final(self), unit_result(r))
                    &&& r is Ok ==> (r matches Ok(SessionAction::Print(s)) && s@ == spec_context_text(*final(self)))
                } else if t[0] == "unset"@ {
                    &&& spec_apply_unset(t.skip(1), *old(self), *final(self), unit_result(r))
                    &&& r is Ok ==> (r matches Ok(SessionAction::Print(s)) && s@ == spec_context_text(*final(self)))
                } else if t[0] == "back"@ {
                    &&& final(self).current_page is None
                    &&& final(self).global == old(self).global
                    &&& final(self).current_space_id == old(self).current_space_id
                    &&& final(self).current_space_key == old(self).current_space_key
                    &&& r matches Ok(SessionAction::Print(s)) && s@ == spec_context_text(*final(self))
                } else if t[0] == "shell"@ {
                    r matches Err(ConfluenceCliError::Config(m)) && m@
                        == "nested `confluence shell` sessions are not supported"@ && *final(self) == *old(self)
                } else if t[0] == "login"@ {
                    r matches Err(ConfluenceCliError::Config(m)) && m@
                        == "run `confluence login` outside the shell; shell sessions reuse the active profile"@
                        && *final(self) == *old(self)
                } else {
                    r matches Ok(SessionAction::Run(v)) && strings_view(v@) == spec_session_global_words(
                        old(self).global,
                    ) + spec_session_context(*old(self), t) && *final(self) == *old(self)
                },
            },
    {
        proof {
            reveal_strlit("exit");
            reveal_strlit("quit");
            reveal_strlit("help");
            reveal_strlit("context");
            reveal_strlit("pwd");
            reveal_strlit("use");
            reveal_strlit("unset");
            reveal_strlit("back");
            reveal_strlit("shell");
            reveal_strlit("login");
        }
        let tokens = match shlex_split(line) {
            Some(t) => t,
            None => {
                return Err(ConfluenceCliError::Config(copy_str("shell input has unmatched quotes")));
            },
        };
        let ghost t = strings_view(tokens@);
        if tokens.len() == 0 {
            return Ok(SessionAction::Done(ShellControl::Continue));
        }
        assert(t[0] == tokens@[0]@);
        let first = tokens[0].as_str();
        let rest = crate::text::strings_from(tokens.as_slice(), 1);
        if str_eq(first, "exit") || str_eq(first, "quit") {
            return Ok(SessionAction::Done(ShellControl::Exit));
        }
        if str_eq(first, "help") {
            if rest.len() == 0 || str_eq(rest[0].as_str(), "shell") {
                proof {
                    assert(strings_view(rest@).len() == rest@.len());
                    if rest@.len() > 0 {
                        assert(t.len() >= 2);
                        assert(strings_view(rest@)[0] == rest@[0]@);
                        assert(t.skip(1)[0] == t[1]);
                    }
                }
                let mut s = copy_str(SESSION_HELP);
                s.append("\n");
                return Ok(SessionAction::Print(s));
            }
            assert(strings_view(rest@).len() == rest@.len());
            assert(t.len() >= 2);
            assert(strings_view(rest@)[0] == rest@[0]@);
            assert(t.skip(1)[0] == t[1]);
            return Ok(SessionAction::Run(self.help_argv(rest.as_slice())));
        }
        if str_eq(first, "context") || str_eq(first, "pwd") {
            return Ok(SessionAction::Print(self.context_text()));
        }
        if str_eq(first, "use") {
            match self.apply_use(rest.as_slice()) {
                Ok(()) => return Ok(SessionAction::Print(self.context_text())),
                Err(e) => return Err(e),
            }
        }
        if str_eq(first, "unset") {
            match self.apply_unset(rest.as_slice()) {
                Ok(()) => return Ok(SessionAction::Print(self.context_text())),
                Err(e) => return Err(e),
            }
        }
        if str_eq(first, "back") {
            self.current_page = None;
            return Ok(SessionAction::Print(self.context_text()));
        }
        if str_eq(first, "shell") {
            return Err(ConfluenceCliError::Config(copy_str("nested `confluence shell` sessions are not supported")));
        }
        if str_eq(first, "login") {
            return Err(ConfluenceCliError::Config(copy_str("run `confluence login` outside the shell; shell sessions reuse the active profile")));
        }
        let argv = self.build_argv(tokens.as_slice())?;
        Ok(SessionAction::Run(argv))
    }
}

} // verus!
