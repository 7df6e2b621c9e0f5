//! `tail [-n <count>|-n +<start>] [target]`: the last lines of piped input or of a page.
use vstd::prelude::*;

use crate::application::vfs::{handles_view, NodeHandle, NodeHandleView, VirtualFileSystem};
use crate::error::{ConfluenceCliError, Result};
use crate::text::{
    chars_of, copy_str, join, lines, parse_usize, spec_join, spec_lines, spec_parse_usize,
    str_eq, string_of, strings_view,
};

use super::super::state::{lineage_result, ShellState};
use super::super::CommandOutput;
use super::{read_page_text, spec_page_text, spec_target_lineage, text_result};

verus! {

/// Which lines `tail` keeps.
#[derive(Debug, Clone, Copy, PartialEq, Eq, Structural)]
pub enum TailMode {
    /// The last `n` lines.
    Last(usize),
    /// The lines from the `n`-th on, counting from 1.
    From(usize),
}

/// The mode a `-n` value names: `+k` for the lines from the k-th on, `k` for the last k.
pub open spec fn spec_parse_n(raw: Seq<char>) -> Option<TailMode> {
    if raw.len() > 0 && raw[0] == '+' {
        match spec_parse_usize(raw.drop_first()) {
            Some(v) => Some(TailMode::From(v)),
            None => None,
        }
    } else {
        match spec_parse_usize(raw) {
            Some(v) => Some(TailMode::Last(v)),
            None => None,
        }
    }
}

/// Reads the value of `-n`.
pub fn parse_n(raw: &str) -> (r: Result<TailMode>)
    ensures
        match spec_parse_n(raw@) {
            Some(m) => r matches Ok(x) && x == m,
            None => r matches Err(ConfluenceCliError::Config(msg)) && msg@ == "invalid tail line count: "@
                + raw@,
        },
{
    let chars = chars_of(raw);
    let parsed = if chars.len() > 0 && chars[0] == '+' {
        let rest = crate::text::slice_range(chars.as_slice(), 1, chars.len());
        assert(rest@ == raw@.drop_first());
        match parse_usize(rest.as_slice()) {
            Some(v) => Some(TailMode::From(v)),
            None => None,
        }
    } else {
        match parse_usize(chars.as_slice()) {
            Some(v) => Some(TailMode::Last(v)),
            None => None,
        }
    };
    match parsed {
        Some(m) => Ok(m),
        None => {
            let mut msg = copy_str("invalid tail line count: ");
            msg.append(raw);
            Err(ConfluenceCliError::Config(msg))
        },
    }
}

pub open spec fn spec_tail_usage() -> Seq<char> {
    "usage: tail [-n <count>|-n +<start>] [target]"@
}

/// The mode and target of `tail`, reading the words from position `i`.
pub open spec fn spec_tail_args_from(
    argv: Seq<Seq<char>>,
    i: int,
    mode: TailMode,
    target: Option<Seq<char>>,
) -> core::result::Result<(TailMode, Option<Seq<char>>), Seq<char>>
    decreases argv.len() - i,
{
    if i < 0 || i >= argv.len() {
        Ok((mode, target))
    } else if argv[i] == "-n"@ {
        if i + 1 >= argv.len() {
            Err(spec_tail_usage())
        } else {
            match spec_parse_n(argv[i + 1]) {
                None => Err("invalid tail line count: "@ + argv[i + 1]),
                Some(m) => spec_tail_args_from(argv, i + 2, m, target),
            }
        }
    } else if target is None {
        spec_tail_args_from(argv, i + 1, mode, Some(argv[i]))
    } else {
        Err(spec_tail_usage())
    }
}

/// The mode and target of `tail`: ten last lines of the current page by default.
pub open spec fn spec_tail_args(argv: Seq<Seq<char>>) -> core::result::Result<(TailMode, Option<Seq<char>>), Seq<char>> {
    spec_tail_args_from(argv, 1, TailMode::Last(10), None)
}

/// Reads the words of `tail`.
fn parse_args(argv: &[String]) -> (r: Result<(TailMode, Option<String>)>)
    ensures
        match spec_tail_args(strings_view(argv@)) {
            Ok((m, t)) => r matches Ok((rm, rt)) && rm == m && match (rt, t) {
                (Some(a), Some(b)) => a@ == b,
                (None, None) => true,
                _ => false,
            },
            Err(msg) => r matches Err(ConfluenceCliError::Config(x)) && x@ == msg,
        },
{
    let ghost av = strings_view(argv@);
    let mut mode = TailMode::Last(10);
    let mut target: Option<String> = None;
    let mut i: usize = 1;
    proof {
        reveal_strlit("-n");
    }
    while i < argv.len()
        invariant
            1 <= i,
            av == strings_view(argv@),
            spec_tail_args(av) == spec_tail_args_from(av, i as int, mode, match target {
                Some(t) => Some(t@),
                None => None,
            }),
        decreases argv.len() - i,
    {
        assert(av[i as int] == argv@[i as int]@);
        if str_eq(argv[i].as_str(), "-n") {
            if i + 1 >= argv.len() {
                return Err(ConfluenceCliError::Config(copy_str("usage: tail [-n <count>|-n +<start>] [target]")));
            }
            assert(av[i + 1] == argv@[i + 1]@);
            mode = parse_n(argv[i + 1].as_str())?;
            i = i + 2;
        } else if target.is_none() {
            target = Some(argv[i].clone());
            i = i + 1;
        } else {
            return Err(ConfluenceCliError::Config(copy_str("usage: tail [-n <count>|-n +<start>] [target]")));
        }
    }
    Ok((mode, target))
}

/// The lines `tail` keeps, or why it refuses.
pub open spec fn spec_tail_select(ls: Seq<Seq<char>>, mode: TailMode) -> core::result::Result<Seq<Seq<char>>, Seq<char>> {
    match mode {
        TailMode::Last(c) => {
            let keep = if c < ls.len() {
                c as int
            } else {
                ls.len() as int
            };
            Ok(ls.skip(ls.len() - keep))
        },
        TailMode::From(s) => if s == 0 {
            Err("tail starting line must be >= 1"@)
        } else if s - 1 >= ls.len() {
            Ok(Seq::empty())
        } else {
            Ok(ls.skip(s - 1))
        },
    }
}

/// `tail -n c` keeps the last `c` lines, or all of them when there are fewer: the kept
/// lines are the text's lines with only a prefix left out, and there are `min(c, n)`.
pub proof fn lemma_tail_last_keeps_the_last_lines(ls: Seq<Seq<char>>, c: usize)
    ensures
        spec_tail_select(ls, TailMode::Last(c)) matches Ok(sel) && sel.len() == (if c < ls.len() {
            c as int
        } else {
            ls.len() as int
        }) && ls == ls.take(ls.len() - sel.len()) + sel,
{
    let sel = spec_tail_select(ls, TailMode::Last(c))->Ok_0;
    assert(ls =~= ls.take(ls.len() - sel.len()) + sel);
}

/// `tail -n +s` keeps the lines from the `s`-th on, counting from 1: all lines but the
/// first `s - 1`, and none when there are fewer; `+0` is refused.
pub proof fn lemma_tail_from_skips_the_first_lines(ls: Seq<Seq<char>>, s: usize)
    ensures
        s == 0 ==> spec_tail_select(ls, TailMode::From(s)) is Err,
        s >= 1 ==> (spec_tail_select(ls, TailMode::From(s)) matches Ok(sel) && sel.len() == (if s - 1
            < ls.len() {
            ls.len() - (s - 1)
        } else {
            0
        }) && ls == ls.take(ls.len() - sel.len()) + sel),
{
    if s >= 1 {
        let sel = spec_tail_select(ls, TailMode::From(s))->Ok_0;
        assert(ls =~= ls.take(ls.len() - sel.len()) + sel);
    }
}

/// Lines printed one per line, nothing for no lines.
pub open spec fn spec_lines_output(ls: Seq<Seq<char>>) -> Seq<char> {
    if ls.len() == 0 {
        Seq::empty()
    } else {
        spec_join(ls, "\n"@) + "\n"@
    }
}

/// What `tail` prints for the lines of a text.
pub open spec fn spec_tail_result(text: Seq<char>, mode: TailMode, r: Result<CommandOutput>) -> bool {
    match spec_tail_select(spec_lines(text), mode) {
        Err(m) => r matches Err(ConfluenceCliError::Config(x)) && x@ == m,
        Ok(sel) => r matches Ok(CommandOutput::Text(t)) && t@ == spec_lines_output(sel),
    }
}

/// Selects and prints the lines of `text`.
fn tail_text(text: &str, mode: TailMode) -> (r: Result<CommandOutput>)
    ensures
        spec_tail_result(text@, mode, r),
{
    let chars = chars_of(text);
    let ls = lines(chars.as_slice());
    let ghost lv = ls@.map_values(|l: Vec<char>| l@);
    assert(lv == spec_lines(text@));
    let n = ls.len();
    let start: usize = match mode {
        TailMode::Last(c) => {
            let keep = if c < n {
                c
            } else {
                n
            };
            n - keep
        },
        TailMode::From(s) => {
            if s == 0 {
                return Err(ConfluenceCliError::Config(copy_str("tail starting line must be >= 1")));
            }
            if s - 1 >= n {
                n
            } else {
                s - 1
            }
        },
    };
    let ghost sel = lv.skip(start as int);
    let mut picked: Vec<String> = Vec::new();
    let mut i: usize = start;
    while i < n
        invariant
            start <= i <= n,
            n == ls.len(),
            lv == ls@.map_values(|l: Vec<char>| l@),
            sel == lv.skip(start as int),
            strings_view(picked@) == sel.take(i - start),
        decreases n - i,
    {
        let ghost before = strings_view(picked@);
        picked.push(string_of(ls[i].as_slice()));
        assert(strings_view(picked@) == before.push(lv[i as int]));
        assert(sel.take(i + 1 - start) == sel.take(i - start).push(sel[i - start]));
        i = i + 1;
    }
    assert(sel.take(n - start) == sel);
    assert(match mode {
        TailMode::From(s) => s - 1 >= n ==> sel.len() == 0,
        _ => true,
    });
    if picked.len() == 0 {
        assert(sel.len() == 0);
        return Ok(CommandOutput::Text(String::new()));
    }
    let mut out = join(picked.as_slice(), "\n");
    out.append("\n");
    Ok(CommandOutput::Text(out))
}

/// `tail`: the last lines of piped input, or of the current or named page as text.
pub fn execute<V: VirtualFileSystem>(state: &ShellState<V>, argv: &[String], input: Option<String>) -> (r: Result<CommandOutput>)
    requires
        state.wf(),
    ensures
        match spec_tail_args(strings_view(argv@)) {
            Err(m) => r matches Err(ConfluenceCliError::Config(x)) && x@ == m,
            Ok((mode, target)) => match input {
                Some(i) => if target is Some {
                    r matches Err(ConfluenceCliError::Config(x)) && x@
                        == "tail does not accept both piped input and an explicit target"@
                } else {
                    spec_tail_result(i@, mode, r)
                },
                None => exists|res: Result<Seq<NodeHandleView>>|
                    #[trigger] spec_target_lineage(state.file_system(), state.lineage(), target, res)
                        && match res {
                        Err(e) => r == Err::<CommandOutput, ConfluenceCliError>(e),
                        Ok(l) => if !(l.last() is Page) {
                            r matches Err(ConfluenceCliError::Config(x)) && x@
                                == "tail requires a page target or a current page"@
                        } else {
                            exists|t: Result<Seq<char>>|
                                #[trigger] spec_page_text(state.file_system(), l.last(), t) && match t {
                                    Err(e) => r == Err::<CommandOutput, ConfluenceCliError>(e),
                                    Ok(text) => spec_tail_result(text, mode, r),
                                }
                        },
                    },
            },
        },
{
    let (mode, target) = parse_args(argv)?;
    match input {
        Some(text) => {
            if target.is_some() {
                return Err(ConfluenceCliError::Config(copy_str("tail does not accept both piped input and an explicit target")));
            }
            tail_text(text.as_str(), mode)
        },
        None => {
            let t = match &target {
                Some(s) => Some(s.as_str()),
                None => None,
            };
            let lr = state.resolve_target_lineage(t);
            let ghost res = lineage_result(lr);
            assert(spec_target_lineage(state.file_system(), state.lineage(), match target {
                Some(s) => Some(s@),
                None => None,
            }, res));
            let lineage = lr?;
            let n = lineage.len();
            let handle = &lineage[n - 1];
            assert(handle@ == handles_view(lineage@).last());
            match handle {
                NodeHandle::Page(_) => {},
                _ => {
                    return Err(ConfluenceCliError::Config(copy_str("tail requires a page target or a current page")));
                },
            }
            let text = read_page_text(state, handle);
            let ghost tr = text_result(text);
            assert(spec_page_text(state.file_system(), handle@, tr));
            let text = text?;
            tail_text(text.as_str(), mode)
        },
    }
}

} // verus!
