//! `cat [--raw|--text|--markdown|--html] [target]`: piped input as it is, or a page in
//! the chosen representation (markdown when none is chosen).
use vstd::prelude::*;

use crate::application::vfs::{handles_view, NodeHandle, NodeHandleView, VirtualFileSystem};
use crate::convert::{convert_text, spec_convert_outcome};
use crate::domain::BodyFormat;
use crate::error::{ConfluenceCliError, Result};
use crate::text::{copy_str, str_eq, strings_view};

use super::super::state::{lineage_result, ShellState};
use super::super::CommandOutput;
use super::{spec_target_lineage, text_result};

verus! {

/// The representation a `cat` flag asks for: `--raw` is the storage markup itself.
pub open spec fn spec_cat_flag(word: Seq<char>) -> Option<BodyFormat> {
    if word == "--raw"@ {
        Some(BodyFormat::Storage)
    } else if word == "--text"@ {
        Some(BodyFormat::Text)
    } else if word == "--markdown"@ {
        Some(BodyFormat::Markdown)
    } else if word == "--html"@ {
        Some(BodyFormat::Html)
    } else {
        None
    }
}

/// The representation and target of `cat`: an optional flag first, then at most one
/// target; `None` for more words.
pub open spec fn spec_cat_args(argv: Seq<Seq<char>>) -> Option<(BodyFormat, Option<Seq<char>>)> {
    let words = if argv.len() >= 1 {
        argv.skip(1)
    } else {
        Seq::empty()
    };
    let (format, rest) = if words.len() >= 1 && spec_cat_flag(words[0]) is Some {
        (spec_cat_flag(words[0])->0, words.skip(1))
    } else {
        (BodyFormat::Markdown, words)
    };
    if rest.len() > 1 {
        None
    } else if rest.len() == 1 {
        Some((format, Some(rest[0])))
    } else {
        Some((format, None))
    }
}

/// A possible outcome of reading a page in representation `to`: its storage body, read
/// by the file system, converted.
pub open spec fn spec_page_as<V: VirtualFileSystem>(vfs: V, handle: NodeHandleView, to: BodyFormat, r: Result<Seq<char>>) -> bool {
    exists|res: Result<String>|
        #[trigger] vfs.read_post(handle, res) && match res {
            Err(e) => r == Err::<Seq<char>, ConfluenceCliError>(e),
            Ok(body) => exists|c: Result<String>|
                #[trigger] spec_convert_outcome(body@, BodyFormat::Storage, to, c) && match c {
                    Ok(s) => r == Ok::<Seq<char>, ConfluenceCliError>(s@),
                    Err(e) => r == Err::<Seq<char>, ConfluenceCliError>(e),
                },
        }
}

fn cat_flag(word: &str) -> (r: Option<BodyFormat>)
    ensures
        r == spec_cat_flag(word@),
{
    if str_eq(word, "--raw") {
        Some(BodyFormat::Storage)
    } else if str_eq(word, "--text") {
        Some(BodyFormat::Text)
    } else if str_eq(word, "--markdown") {
        Some(BodyFormat::Markdown)
    } else if str_eq(word, "--html") {
        Some(BodyFormat::Html)
    } else {
        None
    }
}

/// A page's storage body, read through the file system and converted to `to`.
fn read_page_as<V: VirtualFileSystem>(state: &ShellState<V>, handle: &NodeHandle, to: BodyFormat) -> (r: Result<String>)
    ensures
        spec_page_as(state.file_system(), handle@, to, text_result(r)),
{
    let vfs = state.vfs();
    let res = vfs.read(handle);
    let ghost gres = res;
    match res {
        Ok(body) => {
            let c = convert_text(body.as_str(), BodyFormat::Storage, to);
            proof {
                assert(spec_convert_outcome(body@, BodyFormat::Storage, to, c));
                assert(vfs.read_post(handle@, gres));
            }
            c
        },
        Err(e) => {
            assert(vfs.read_post(handle@, gres));
            Err(e)
        },
    }
}

pub open spec fn spec_cat_usage() -> Seq<char> {
    "usage: cat [--raw|--text|--markdown|--html] [target]"@
}

/// `cat`: with piped input and no target, the input; else the current or named page,
/// read as storage markup and printed in the chosen representation (markdown by
/// default) on lines of its own.
pub fn execute<V: VirtualFileSystem>(state: &ShellState<V>, argv: &[String], input: Option<String>) -> (r: Result<CommandOutput>)
    requires
        state.wf(),
    ensures
        match spec_cat_args(strings_view(argv@)) {
            None => r matches Err(ConfluenceCliError::Config(m)) && m@ == spec_cat_usage(),
            Some((format, target)) => if target is None && input is Some {
                r matches Ok(CommandOutput::Text(t)) && t@ == input->0@
            } else {
                exists|res: Result<Seq<NodeHandleView>>|
                    #[trigger] spec_target_lineage(state.file_system(), state.lineage(), target, res)
                        && match res {
                        Err(e) => r == Err::<CommandOutput, ConfluenceCliError>(e),
                        Ok(l) => if !(l.last() is Page) {
                            r matches Err(ConfluenceCliError::Config(m)) && m@
                                == "cat requires a page target or a current page"@
                        } else {
                            exists|t: Result<Seq<char>>|
                                #[trigger] spec_page_as(state.file_system(), l.last(), format, t) && match t {
                                    Err(e) => r == Err::<CommandOutput, ConfluenceCliError>(e),
                                    Ok(text) => r matches Ok(CommandOutput::Text(o)) && o@ == text + "\n"@,
                                }
                        },
                    }
            },
        },
{
    let ghost av = strings_view(argv@);
    let ghost words = if av.len() >= 1 {
        av.skip(1)
    } else {
        Seq::<Seq<char>>::empty()
    };
    let mut format = BodyFormat::Markdown;
    let mut first: usize = 1;
    if argv.len() >= 2 {
        assert(words[0] == argv@[1]@);
        if let Some(f) = cat_flag(argv[1].as_str()) {
            format = f;
            first = 2;
        }
    }
    if argv.len() > first + 1 {
        return Err(ConfluenceCliError::Config(copy_str("usage: cat [--raw|--text|--markdown|--html] [target]")));
    }
    let target = if argv.len() == first + 1 {
        Some(argv[first].as_str())
    } else {
        None
    };
    proof {
        if av.len() == 0 {
            assert(words.len() == 0);
        } else {
            assert(words.len() == av.len() - 1);
        }
        if first == 2 {
            assert(words.len() >= 1 && spec_cat_flag(words[0]) == Some(format));
            assert(words.skip(1) =~= av.skip(2));
        } else if av.len() >= 1 {
            assert(words =~= av.skip(1));
            assert(!(words.len() >= 1 && spec_cat_flag(words[0]) is Some));
        } else {
            assert(!(words.len() >= 1 && spec_cat_flag(words[0]) is Some));
            assert(format == BodyFormat::Markdown);
        }
        if argv.len() == first + 1 {
            assert(av.skip(first as int)[0] == argv@[first as int]@);
        }
    }
    let ghost tv = match target {
        Some(t) => Some(t@),
        None => None::<Seq<char>>,
    };
    assert(spec_cat_args(av) == Some((format, tv)));
    if target.is_none() {
        if let Some(text) = input {
            return Ok(CommandOutput::Text(text));
        }
    }
    let lr = state.resolve_target_lineage(target);
    let ghost res = lineage_result(lr);
    assert(spec_target_lineage(state.file_system(), state.lineage(), tv, res));
    let lineage = lr?;
    let n = lineage.len();
    let handle = &lineage[n - 1];
    assert(handle@ == handles_view(lineage@).last());
    match handle {
        NodeHandle::Page(_) => {},
        _ => {
            return Err(ConfluenceCliError::Config(copy_str("cat requires a page target or a current page")));
        },
    }
    let text = read_page_as(state, handle, format);
    let ghost tr = text_result(text);
    assert(spec_page_as(state.file_system(), handle@, format, tr));
    let mut text = text?;
    text.append("\n");
    Ok(CommandOutput::Text(text))
}

} // verus!
