//! The shell's own commands: reading, searching and changing the tree.
use vstd::prelude::*;

pub mod cat;
pub mod grep;
pub mod find;
pub mod tail;
pub mod whoami;
pub mod sleep;
pub mod mkdir;
pub mod mv;
pub mod cp;
pub mod rm;
pub mod rmdir;

use crate::application::vfs::{NodeHandle, NodeHandleView, VirtualFileSystem};
use crate::convert::{convert_text, spec_convert_outcome};
use crate::domain::BodyFormat;
use crate::error::{ConfluenceCliError, Result};
use crate::text::{clone_strings, str_eq, strings_view};

use super::state::{spec_resolve, ShellState};
use super::{CommandOutput, ShellControl, ShellRequest, StageResult};

verus! {

pub const CAT_HELP: &'static str = "cat [--raw|--text|--markdown|--html] [target]\n  Read page content. Without a target, reads the current page or piped input. Default output is markdown.";

pub const GREP_HELP: &'static str = "grep <pattern> [target]\n  Search shell text input or recursively search page text under the target subtree.";

pub const FIND_HELP: &'static str = "find [target] [--name <pattern>]\n  Recursively walk spaces/pages under the target subtree.";

pub const MKDIR_HELP: &'static str = "mkdir <target>\n  Create a folder under a space or page parent.";

pub const MV_HELP: &'static str = "mv <source> <destination>\n  Move or rename a page or folder.";

pub const CP_HELP: &'static str = "cp <source> <destination>\n  Copy a page to a new destination. Folder copy is not supported yet.";

pub const RM_HELP: &'static str = "rm <target>\n  Remove a page by moving it to the archive/trash path.";

pub const RMDIR_HELP: &'static str = "rmdir <target>\n  Remove an empty folder.";

pub const TAIL_HELP: &'static str = "tail [-n <count>|-n +<start>] [target]\n  Print the last lines of piped input or the current/target page rendered as text.";

pub const WHOAMI_HELP: &'static str = "whoami\n  Show the active shell identity derived from the resolved Confluence profile.";

pub const SEQ_HELP: &'static str = "seq <end> | seq <start> <end> | seq <start> <step> <end>\n  Print a numeric sequence.";

pub const SLEEP_HELP: &'static str = "sleep <duration>\n  Delay for a duration like 1s, 250ms, 2m, or 1h.";

/// The names of the shell's own commands.
pub open spec fn spec_is_registered(name: Seq<char>) -> bool {
    ||| name == "cat"@
    ||| name == "grep"@
    ||| name == "find"@
    ||| name == "mkdir"@
    ||| name == "mv"@
    ||| name == "cp"@
    ||| name == "rm"@
    ||| name == "rmdir"@
    ||| name == "whoami"@
    ||| name == "id"@
    ||| name == "seq"@
    ||| name == "sleep"@
    ||| name == "tail"@
}

/// The help text of a command, if it has one.
pub open spec fn spec_help_for(name: Seq<char>) -> Option<Seq<char>> {
    if name == "cat"@ {
        Some(CAT_HELP@)
    } else if name == "grep"@ {
        Some(GREP_HELP@)
    } else if name == "find"@ {
        Some(FIND_HELP@)
    } else if name == "mkdir"@ {
        Some(MKDIR_HELP@)
    } else if name == "mv"@ {
        Some(MV_HELP@)
    } else if name == "cp"@ {
        Some(CP_HELP@)
    } else if name == "rm"@ {
        Some(RM_HELP@)
    } else if name == "rmdir"@ {
        Some(RMDIR_HELP@)
    } else if name == "tail"@ {
        Some(TAIL_HELP@)
    } else if name == "whoami"@ || name == "id"@ {
        Some(WHOAMI_HELP@)
    } else if name == "seq"@ {
        Some(SEQ_HELP@)
    } else if name == "sleep"@ {
        Some(SLEEP_HELP@)
    } else {
        None
    }
}

/// Whether `name` is one of the shell's own commands.
pub fn is_registered(name: &str) -> (r: bool)
    ensures
        r == spec_is_registered(name@),
{
    str_eq(name, "cat") || str_eq(name, "grep") || str_eq(name, "find") || str_eq(name, "mkdir")
        || str_eq(name, "mv") || str_eq(name, "cp") || str_eq(name, "rm") || str_eq(name, "rmdir")
        || str_eq(name, "whoami") || str_eq(name, "id") || str_eq(name, "seq") || str_eq(
        name,
        "sleep",
    ) || str_eq(name, "tail")
}

/// The help text of a command.
pub fn help_for(name: &str) -> (r: Option<&'static str>)
    ensures
        match r {
            Some(h) => spec_help_for(name@) == Some(h@),
            None => spec_help_for(name@) is None,
        },
{
    if str_eq(name, "cat") {
        Some(CAT_HELP)
    } else if str_eq(name, "grep") {
        Some(GREP_HELP)
    } else if str_eq(name, "find") {
        Some(FIND_HELP)
    } else if str_eq(name, "mkdir") {
        Some(MKDIR_HELP)
    } else if str_eq(name, "mv") {
        Some(MV_HELP)
    } else if str_eq(name, "cp") {
        Some(CP_HELP)
    } else if str_eq(name, "rm") {
        Some(RM_HELP)
    } else if str_eq(name, "rmdir") {
        Some(RMDIR_HELP)
    } else if str_eq(name, "tail") {
        Some(TAIL_HELP)
    } else if str_eq(name, "whoami") || str_eq(name, "id") {
        Some(WHOAMI_HELP)
    } else if str_eq(name, "seq") {
        Some(SEQ_HELP)
    } else if str_eq(name, "sleep") {
        Some(SLEEP_HELP)
    } else {
        None
    }
}

/// A possible outcome of resolving an optional target: the current path when there is
/// none.
pub open spec fn spec_target_lineage<V: VirtualFileSystem>(
    vfs: V,
    lineage: Seq<NodeHandleView>,
    target: Option<Seq<char>>,
    r: Result<Seq<NodeHandleView>>,
) -> bool {
    match target {
        None => r == Ok::<Seq<NodeHandleView>, ConfluenceCliError>(lineage),
        Some(t) => spec_resolve(vfs, lineage, t, r),
    }
}

/// The second word of a command line, if any.
pub open spec fn spec_arg(argv: Seq<Seq<char>>, i: int) -> Option<Seq<char>> {
    if 0 <= i < argv.len() {
        Some(argv[i])
    } else {
        None
    }
}

/// A possible outcome of reading a page as plain text: the page's storage body, read
/// by the file system, converted to text.
pub open spec fn spec_page_text<V: VirtualFileSystem>(vfs: V, handle: NodeHandleView, r: Result<Seq<char>>) -> bool {
    exists|res: Result<String>|
        #[trigger] vfs.read_post(handle, res) && match res {
            Err(e) => r == Err::<Seq<char>, ConfluenceCliError>(e),
            Ok(body) => exists|c: Result<String>|
                #[trigger] spec_convert_outcome(body@, BodyFormat::Storage, BodyFormat::Text, c)
                    && match c {
                    Ok(s) => r == Ok::<Seq<char>, ConfluenceCliError>(s@),
                    Err(e) => r == Err::<Seq<char>, ConfluenceCliError>(e),
                },
        }
}

/// The view of a text result.
pub open spec fn text_result(r: Result<String>) -> Result<Seq<char>> {
    match r {
        Ok(s) => Ok(s@),
        Err(e) => Err(e),
    }
}

/// A page's storage body, read through the file system and rendered as plain text.
pub fn read_page_text<V: VirtualFileSystem>(state: &ShellState<V>, handle: &NodeHandle) -> (r: Result<String>)
    ensures
        spec_page_text(state.file_system(), handle@, text_result(r)),
{
    let vfs = state.vfs();
    let res = vfs.read(handle);
    let ghost gres = res;
    match res {
        Ok(body) => {
            let c = convert_text(body.as_str(), BodyFormat::Storage, BodyFormat::Text);
            proof {
                assert(spec_convert_outcome(body@, BodyFormat::Storage, BodyFormat::Text, c));
                assert(vfs.read_post(handle@, gres));
            }
            c
        },
        Err(e) => {
            assert(vfs.read_post(handle@, gres));
            Err(e)
        },
    }
}

/// The words of a stage, copied.
pub fn copy_argv(argv: &[String]) -> (r: Vec<String>)
    ensures
        strings_view(r@) == strings_view(argv@),
{
    clone_strings(argv)
}

/// Runs one of the shell's own commands. `seq` computes with floating point and is
/// handed to the host.
pub fn execute<V: VirtualFileSystem>(state: &ShellState<V>, argv: &[String], input: Option<String>) -> (r: Result<StageResult>)
    requires
        state.wf(),
        argv@.len() >= 1,
        spec_is_registered(argv@[0]@),
    ensures
        argv@[0]@ == "seq"@ ==> (r matches Ok(StageResult::Request(ShellRequest::NumberSequence(a, i))) && strings_view(a@)
            == strings_view(argv@) && i == input),
        argv@[0]@ == "sleep"@ ==> sleep::spec_sleep_outcome(strings_view(argv@), input, r),
        r matches Ok(StageResult::Done(c, _)) ==> c == ShellControl::Continue,
{
    let name = argv[0].as_str();
    proof {
        reveal_strlit("seq");
        reveal_strlit("sleep");
    }
    if str_eq(name, "seq") {
        assert(argv@[0]@ == "seq"@);
        assert("seq"@.len() != "sleep"@.len());
        return Ok(StageResult::Request(ShellRequest::NumberSequence(copy_argv(argv), input)));
    }
    if str_eq(name, "sleep") {
        return sleep::execute(argv, input);
    }
    let out = if str_eq(name, "cat") {
        cat::execute(state, argv, input)
    } else if str_eq(name, "grep") {
        grep::execute(state, argv, input)
    } else if str_eq(name, "find") {
        find::execute(state, argv, input)
    } else if str_eq(name, "mkdir") {
        mkdir::execute(state, argv, input)
    } else if str_eq(name, "mv") {
        mv::execute(state, argv, input)
    } else if str_eq(name, "cp") {
        cp::execute(state, argv, input)
    } else if str_eq(name, "rm") {
        rm::execute(state, argv, input)
    } else if str_eq(name, "rmdir") {
        rmdir::execute(state, argv, input)
    } else if str_eq(name, "tail") {
        tail::execute(state, argv, input)
    } else {
        whoami::execute(state, argv, input)
    };
    match out {
        Ok(o) => Ok(StageResult::Done(ShellControl::Continue, o)),
        Err(e) => Err(e),
    }
}

} // verus!
