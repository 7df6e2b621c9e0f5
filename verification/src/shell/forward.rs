//! Handing a command line to the one-shot command runner, with the shell's context
//! filled in: the current page where the command takes one, the current space for
//! `page create`, and the global options.
use vstd::prelude::*;

use crate::application::vfs::{NodeHandleView, VirtualFileSystem};
use crate::cli::args::{GlobalArgs, OutputFormat};
use crate::domain::{spec_is_http_url, spec_parse_page_ref, PageRef, PageRefView};
use crate::error::Result;
use crate::text::{copy_str, lemma_decimal_reads_back, spec_decimal, spec_is_digit, spec_starts_with, str_eq, str_starts_with, strings_view, u64_to_string};

use super::state::ShellState;
use super::{ShellRequest, StageResult};

verus! {

/// Whether the page is put into the command: when there is no third word, when the third
/// word is an option, or, where a second positional argument is allowed, when the third
/// word is not itself a page reference.
pub open spec fn spec_should_insert(tokens: Seq<Seq<char>>, allow_second_positional: bool) -> bool {
    if tokens.len() <= 2 {
        true
    } else if spec_starts_with(tokens[2], "-"@) {
        true
    } else if allow_second_positional {
        spec_parse_page_ref(tokens[2]) is None
    } else {
        false
    }
}

/// The words with the page inserted as the third word, where it belongs.
pub open spec fn spec_insert_page(tokens: Seq<Seq<char>>, allow_second_positional: bool, page: Option<Seq<char>>) -> Seq<Seq<char>> {
    match page {
        None => tokens,
        Some(p) => if spec_should_insert(tokens, allow_second_positional) {
            tokens.insert(2, p)
        } else {
            tokens
        },
    }
}

/// Inserts the page as the third word where the command expects it and it is missing.
pub fn insert_page_token(tokens: &mut Vec<String>, allow_second_positional: bool, page: Option<&str>)
    requires
        old(tokens)@.len() >= 2,
    ensures
        strings_view(final(tokens)@) == spec_insert_page(
            strings_view(old(tokens)@),
            allow_second_positional,
            match page {
                Some(p) => Some(p@),
                None => None,
            },
        ),
{
    let p = match page {
        None => {
            return;
        },
        Some(p) => p,
    };
    let ghost tv = strings_view(tokens@);
    let should_insert = if tokens.len() <= 2 {
        true
    } else {
        assert(tv[2] == tokens@[2]@);
        if str_starts_with(tokens[2].as_str(), "-") {
            true
        } else if allow_second_positional {
            PageRef::parse(tokens[2].as_str()).is_err()
        } else {
            false
        }
    };
    if should_insert {
        tokens.insert(2, copy_str(p));
        assert(strings_view(tokens@) == tv.insert(2, p@));
    }
}

/// The text that stands for a page reference on a command line.
pub open spec fn spec_page_text(page: PageRefView) -> Seq<char> {
    match page {
        PageRefView::Id(v) => spec_decimal(v as nat),
        PageRefView::Url(u) => u,
    }
}

/// The page the shell writes into a command line reads back as the same page: an id as
/// its decimal digits, a URL, which begins with `http://` or `https://`, as itself.
pub proof fn lemma_page_text_reads_back(page: PageRefView)
    requires
        page matches PageRefView::Url(u) ==> spec_is_http_url(u),
    ensures
        spec_parse_page_ref(spec_page_text(page)) == Some(page),
{
    match page {
        PageRefView::Id(v) => {
            lemma_decimal_reads_back(v as nat);
            let d = spec_decimal(v as nat);
            assert(spec_is_digit(d[0]));
            assert(crate::text::spec_unsigned_digits(d) == Some(d));
        },
        PageRefView::Url(u) => {
            reveal_strlit("http://");
            reveal_strlit("https://");
            if spec_starts_with(u, "http://"@) {
                assert(u.take(7)[0] == u[0]);
            } else {
                assert(u.take(8)[0] == u[0]);
            }
            assert(u[0] == 'h');
            assert(!spec_is_digit(u[0]));
            assert(crate::text::spec_unsigned_digits(u) is None);
        },
    }
}

/// Inserts the current page, written as its id or URL, as the third word where the
/// command expects it and it is missing.
pub fn inject_page_ref(tokens: &mut Vec<String>, allow_second_positional: bool, current_page: Option<PageRef>) -> (r: Result<()>)
    requires
        old(tokens)@.len() >= 2,
    ensures
        r is Ok,
        strings_view(final(tokens)@) == spec_insert_page(
            strings_view(old(tokens)@),
            allow_second_positional,
            match current_page {
                Some(p) => Some(spec_page_text(p@)),
                None => None,
            },
        ),
{
    match current_page {
        None => Ok(()),
        Some(page) => {
            let text = match page {
                PageRef::Id(id) => u64_to_string(id.get()),
                PageRef::Url(url) => url,
            };
            insert_page_token(tokens, allow_second_positional, Some(text.as_str()));
            Ok(())
        },
    }
}

/// `page` commands that act on an existing page.
pub open spec fn spec_page_command_takes_page(c: Seq<char>) -> bool {
    ||| c == "read"@
    ||| c == "info"@
    ||| c == "children"@
    ||| c == "create-child"@
    ||| c == "update"@
    ||| c == "patch"@
    ||| c == "move"@
    ||| c == "archive"@
    ||| c == "delete"@
    ||| c == "export"@
}

/// Whether a word is one of the options that name a space.
pub open spec fn spec_is_space_option(t: Seq<char>) -> bool {
    t == "--space-key"@ || t == "--space-id"@
}

/// The command words with the shell's context filled in: the page as the third word of
/// the commands that act on a page, and, for `page create` without a space option, the
/// space option given.
pub open spec fn spec_apply_context(
    tokens: Seq<Seq<char>>,
    page: Option<Seq<char>>,
    space: Option<(Seq<char>, Seq<char>)>,
) -> Seq<Seq<char>> {
    if tokens.len() < 2 {
        tokens
    } else {
        let group = tokens[0];
        let command = tokens[1];
        if group == "page"@ {
            if spec_page_command_takes_page(command) {
                spec_insert_page(tokens, false, page)
            } else if command == "create"@ && !(exists|i: int|
                0 <= i < tokens.len() && spec_is_space_option(#[trigger] tokens[i])) {
                match space {
                    Some((flag, value)) => tokens.push(flag).push(value),
                    None => tokens,
                }
            } else {
                tokens
            }
        } else if group == "attachment"@ {
            spec_insert_page(tokens, command == "delete"@, page)
        } else if group == "property"@ {
            spec_insert_page(tokens, command == "get"@ || command == "set"@ || command == "delete"@, page)
        } else if group == "comment"@ {
            if command == "list"@ || command == "create"@ {
                spec_insert_page(tokens, false, page)
            } else if command == "reply"@ {
                spec_insert_page(tokens, true, page)
            } else {
                tokens
            }
        } else {
            tokens
        }
    }
}

/// The shell's context only adds words: the user's words all stay, in order, with the
/// page inserted as the third word or the space option appended; a page the user wrote
/// as the third word is never displaced; a space option the user gave makes the shell's
/// space irrelevant.
pub proof fn lemma_context_keeps_explicit_words(
    tokens: Seq<Seq<char>>,
    page: Option<Seq<char>>,
    space: Option<(Seq<char>, Seq<char>)>,
)
    ensures
        ({
            let out = spec_apply_context(tokens, page, space);
            ||| out == tokens
            ||| (page matches Some(p) && out == tokens.insert(2, p))
            ||| (space matches Some((f, v)) && out == tokens.push(f).push(v))
        }),
        tokens.len() > 2 && !spec_starts_with(tokens[2], "-"@) && spec_parse_page_ref(tokens[2]) is Some
            ==> spec_apply_context(tokens, page, space).take(3) == tokens.take(3),
        (exists|i: int| 0 <= i < tokens.len() && spec_is_space_option(#[trigger] tokens[i]))
            ==> spec_apply_context(tokens, page, space) == spec_apply_context(tokens, page, None),
{
    if tokens.len() > 2 {
        if let Some((f, v)) = space {
            assert(tokens.push(f).push(v).take(3) =~= tokens.take(3));
        }
    }
}

fn has_space_option(tokens: &Vec<String>) -> (r: bool)
    ensures
        r == exists|i: int| 0 <= i < tokens@.len() && spec_is_space_option(#[trigger] strings_view(tokens@)[i]),
{
    let ghost tv = strings_view(tokens@);
    let mut i: usize = 0;
    while i < tokens.len()
        invariant
            i <= tokens.len(),
            tv == strings_view(tokens@),
            forall|j: int| 0 <= j < i ==> !spec_is_space_option(#[trigger] tv[j]),
        decreases tokens.len() - i,
    {
        assert(tv[i as int] == tokens@[i as int]@);
        if str_eq(tokens[i].as_str(), "--space-key") || str_eq(tokens[i].as_str(), "--space-id") {
            assert(spec_is_space_option(tv[i as int]));
            return true;
        }
        i = i + 1;
    }
    false
}

/// Fills the shell's context into command words.
pub fn apply_command_context(tokens: &mut Vec<String>, page: Option<&str>, space: Option<(&str, &str)>)
    ensures
        strings_view(final(tokens)@) == spec_apply_context(
            strings_view(old(tokens)@),
            match page {
                Some(p) => Some(p@),
                None => None,
            },
            match space {
                Some((f, v)) => Some((f@, v@)),
                None => None,
            },
        ),
{
    let ghost tv = strings_view(tokens@);
    if tokens.len() < 2 {
        return;
    }
    assert(tv[0] == tokens@[0]@ && tv[1] == tokens@[1]@);
    let group = tokens[0].clone();
    let command = tokens[1].clone();
    let g = group.as_str();
    let c = command.as_str();
    if str_eq(g, "page") {
        if str_eq(c, "read") || str_eq(c, "info") || str_eq(c, "children") || str_eq(c, "create-child")
            || str_eq(c, "update") || str_eq(c, "patch") || str_eq(c, "move") || str_eq(c, "archive")
            || str_eq(c, "delete") || str_eq(c, "export") {
            insert_page_token(tokens, false, page);
        } else if str_eq(c, "create") && !has_space_option(tokens) {
            proof {
                reveal_strlit("create");
                reveal_strlit("read");
                reveal_strlit("info");
                reveal_strlit("children");
                reveal_strlit("create-child");
                reveal_strlit("update");
                reveal_strlit("patch");
                reveal_strlit("move");
                reveal_strlit("archive");
                reveal_strlit("delete");
                reveal_strlit("export");
            }
            match space {
                Some((flag, value)) => {
                    tokens.push(copy_str(flag));
                    tokens.push(copy_str(value));
                    assert(strings_view(tokens@) == tv.push(flag@).push(value@));
                },
                None => {},
            }
        }
    } else if str_eq(g, "attachment") {
        let allow = str_eq(c, "delete");
        insert_page_token(tokens, allow, page);
    } else if str_eq(g, "property") {
        let allow = str_eq(c, "get") || str_eq(c, "set") || str_eq(c, "delete");
        insert_page_token(tokens, allow, page);
    } else if str_eq(g, "comment") {
        if str_eq(c, "list") || str_eq(c, "create") {
            insert_page_token(tokens, false, page);
        } else if str_eq(c, "reply") {
            insert_page_token(tokens, true, page);
        }
    }
}

/// The command words with the shell's current page and space filled in.
pub open spec fn spec_shell_context(tokens: Seq<Seq<char>>, current: NodeHandleView) -> Seq<Seq<char>> {
    spec_apply_context(
        tokens,
        match current {
            NodeHandleView::Page(p) => Some(spec_decimal(p.id as nat)),
            _ => None,
        },
        match current {
            NodeHandleView::Space(s) => Some(("--space-id"@, s.id)),
            _ => None,
        },
    )
}

/// Fills the current page and space of the shell into command words.
pub fn apply_context<V: VirtualFileSystem>(state: &ShellState<V>, tokens: &mut Vec<String>) -> (r: Result<()>)
    requires
        state.wf(),
    ensures
        r is Ok,
        strings_view(final(tokens)@) == spec_shell_context(strings_view(old(tokens)@), state.lineage().last()),
{
    let current = state.current();
    let page_text: Option<String> = match state.current_page_ref() {
        Some(PageRef::Id(id)) => Some(u64_to_string(id.get())),
        _ => None,
    };
    let page = match &page_text {
        Some(p) => Some(p.as_str()),
        None => None,
    };
    match current.as_space() {
        Some(space) => apply_command_context(tokens, page, Some(("--space-id", space.id.as_str()))),
        None => apply_command_context(tokens, page, None),
    }
    Ok(())
}

/// The global options written back as words, for a command line run on its own.
pub open spec fn spec_global_words(global: GlobalArgs) -> Seq<Seq<char>> {
    let a = seq!["confluence"@];
    let b = match global.config_path {
        Some(p) => a.push("--config-path"@).push(p@),
        None => a,
    };
    let c = match global.profile {
        Some(p) => b.push("--profile"@).push(p@),
        None => b,
    };
    if global.output != OutputFormat::Human {
        c.push("--output"@).push("json"@)
    } else {
        c
    }
}

/// The command line a shell command is forwarded as: the program name, the global
/// options, then the command words with the context filled in.
pub fn build_forwarded_argv<V: VirtualFileSystem>(state: &ShellState<V>, tokens: Vec<String>) -> (r: Result<Vec<String>>)
    requires
        state.wf(),
    ensures
        r matches Ok(v) && strings_view(v@) == spec_global_words(state.global_args()) + spec_shell_context(
            strings_view(tokens@),
            state.lineage().last(),
        ),
{
    let mut forwarded = tokens;
    apply_context(state, &mut forwarded)?;
    let global = state.global();
    let mut argv: Vec<String> = Vec::new();
    argv.push(copy_str("confluence"));
    match &global.config_path {
        Some(p) => {
            argv.push(copy_str("--config-path"));
            argv.push(p.clone());
        },
        None => {},
    }
    match &global.profile {
        Some(p) => {
            argv.push(copy_str("--profile"));
            argv.push(p.clone());
        },
        None => {},
    }
    if global.output != OutputFormat::Human {
        argv.push(copy_str("--output"));
        argv.push(copy_str("json"));
    }
    assert(strings_view(argv@) == spec_global_words(state.global_args()));
    let ghost head = strings_view(argv@);
    let ghost tail = strings_view(forwarded@);
    let mut i: usize = 0;
    while i < forwarded.len()
        invariant
            i <= forwarded.len(),
            tail == strings_view(forwarded@),
            strings_view(argv@) == head + tail.take(i as int),
        decreases forwarded.len() - i,
    {
        let ghost before = strings_view(argv@);
        argv.push(forwarded[i].clone());
        assert(strings_view(argv@) == before.push(forwarded@[i as int]@));
        assert(tail.take(i + 1) == tail.take(i as int).push(tail[i as int]));
        i = i + 1;
    }
    assert(tail.take(forwarded.len() as int) == tail);
    Ok(argv)
}

/// A command that is neither built in nor the shell's own: handed to the host to run
/// on its own, with the context filled in.
pub fn execute_single<V: VirtualFileSystem>(state: &ShellState<V>, tokens: Vec<String>) -> (r: Result<StageResult>)
    requires
        state.wf(),
    ensures
        r matches Ok(StageResult::Request(ShellRequest::Forward(v))) && strings_view(v@)
            == spec_global_words(state.global_args()) + spec_shell_context(strings_view(tokens@), state.lineage().last()),
{
    let argv = build_forwarded_argv(state, tokens)?;
    Ok(StageResult::Request(ShellRequest::Forward(argv)))
}

} // verus!
