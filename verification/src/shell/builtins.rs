//! Commands built into the shell: help, navigation, profile switching and exit.
use vstd::prelude::*;

use crate::application::vfs::{handles_view, DirEntry, NodeHandle, NodeHandleView, VirtualFileSystem};
use crate::error::{ConfluenceCliError, Result};
use crate::text::{copy_str, join, spec_decimal, spec_join, str_eq, strings_view, u64_to_string};

use super::commands::{help_for, spec_arg, spec_help_for, spec_target_lineage};
use super::state::{spec_change_directory, spec_render_lineage, unit_result, ShellState};
use super::{CommandOutput, ShellControl, ShellRequest, StageResult, SHELL_HELP};

verus! {

/// A built-in command.
#[derive(Debug, Clone, Copy, PartialEq, Eq, Structural)]
pub enum Builtin {
    Help,
    Pwd,
    Ls,
    Cd,
    UseProfile,
    Exit,
    CompatPwd,
    CompatBack,
    CompatUnset,
}

/// The built-in a command name stands for.
pub open spec fn spec_builtin(name: Seq<char>) -> Option<Builtin> {
    if name == "help"@ {
        Some(Builtin::Help)
    } else if name == "pwd"@ {
        Some(Builtin::Pwd)
    } else if name == "ls"@ {
        Some(Builtin::Ls)
    } else if name == "cd"@ {
        Some(Builtin::Cd)
    } else if name == "use"@ {
        Some(Builtin::UseProfile)
    } else if name == "exit"@ || name == "quit"@ {
        Some(Builtin::Exit)
    } else if name == "context"@ {
        Some(Builtin::CompatPwd)
    } else if name == "back"@ {
        Some(Builtin::CompatBack)
    } else if name == "unset"@ {
        Some(Builtin::CompatUnset)
    } else {
        None
    }
}

/// The built-in a command name stands for, if any.
pub fn resolve(name: &str) -> (r: Option<Builtin>)
    ensures
        r == spec_builtin(name@),
{
    if str_eq(name, "help") {
        Some(Builtin::Help)
    } else if str_eq(name, "pwd") {
        Some(Builtin::Pwd)
    } else if str_eq(name, "ls") {
        Some(Builtin::Ls)
    } else if str_eq(name, "cd") {
        Some(Builtin::Cd)
    } else if str_eq(name, "use") {
        Some(Builtin::UseProfile)
    } else if str_eq(name, "exit") || str_eq(name, "quit") {
        Some(Builtin::Exit)
    } else if str_eq(name, "context") {
        Some(Builtin::CompatPwd)
    } else if str_eq(name, "back") {
        Some(Builtin::CompatBack)
    } else if str_eq(name, "unset") {
        Some(Builtin::CompatUnset)
    } else {
        None
    }
}

/// The usage line of a built-in.
pub open spec fn spec_usage_for(command: Seq<char>) -> Seq<char> {
    if command == "pwd"@ {
        "pwd"@
    } else if command == "ls"@ {
        "ls [target]"@
    } else if command == "cd"@ {
        "cd <space|page|..|/>"@
    } else if command == "help"@ {
        "help [topic]"@
    } else if command == "exit"@ {
        "exit"@
    } else {
        command
    }
}

/// The usage line of a built-in.
pub fn usage_for(command: &str) -> (r: String)
    ensures
        r@ == spec_usage_for(command@),
{
    if str_eq(command, "pwd") {
        copy_str("pwd")
    } else if str_eq(command, "ls") {
        copy_str("ls [target]")
    } else if str_eq(command, "cd") {
        copy_str("cd <space|page|..|/>")
    } else if str_eq(command, "help") {
        copy_str("help [topic]")
    } else if str_eq(command, "exit") {
        copy_str("exit")
    } else {
        copy_str(command)
    }
}

/// The error for a malformed built-in.
pub open spec fn is_usage_error<T>(r: Result<T>, command: Seq<char>) -> bool {
    r matches Err(ConfluenceCliError::Config(m)) && m@ == "usage: "@ + spec_usage_for(command)
}

fn usage_error(command: &str) -> (e: ConfluenceCliError)
    ensures
        e matches ConfluenceCliError::Config(m) && m@ == "usage: "@ + spec_usage_for(command@),
{
    let mut m = copy_str("usage: ");
    let u = usage_for(command);
    m.append(u.as_str());
    ConfluenceCliError::Config(m)
}

/// Refuses a built-in given the wrong number of words.
pub fn require_arity(command: &str, argv: &[String], expected: usize) -> (r: Result<()>)
    ensures
        argv@.len() == expected ==> r is Ok,
        argv@.len() != expected ==> is_usage_error(r, command@),
{
    if argv.len() == expected {
        Ok(())
    } else {
        Err(usage_error(command))
    }
}

/// Refuses a built-in given a number of words outside `min..=max`.
pub fn require_range(command: &str, argv: &[String], min: usize, max: usize) -> (r: Result<()>)
    ensures
        min <= argv@.len() <= max ==> r is Ok,
        !(min <= argv@.len() <= max) ==> is_usage_error(r, command@),
{
    if argv.len() >= min && argv.len() <= max {
        Ok(())
    } else {
        Err(usage_error(command))
    }
}

/// The error for a built-in that cannot run inside a pipeline.
pub open spec fn is_pipeline_error<T>(r: Result<T>, command: Seq<char>) -> bool {
    r matches Err(ConfluenceCliError::Config(m)) && m@ == "`"@ + command + "` cannot be used in a pipeline"@
}

/// Refuses a built-in inside a pipeline.
pub fn reject_in_pipeline(command: &str, in_pipeline: bool) -> (r: Result<()>)
    ensures
        in_pipeline ==> is_pipeline_error(r, command@),
        !in_pipeline ==> r is Ok,
{
    if in_pipeline {
        let mut m = copy_str("`");
        m.append(command);
        m.append("` cannot be used in a pipeline");
        Err(ConfluenceCliError::Config(m))
    } else {
        Ok(())
    }
}

/// The help for a topic: the shell overview for none or `shell`, a command's own help,
/// or a pointer to the one-shot command's help.
pub open spec fn spec_render_help(topic: Seq<Seq<char>>) -> Seq<char> {
    if topic.len() == 0 || topic[0] == "shell"@ {
        SHELL_HELP@ + "\n"@
    } else if topic.len() == 1 && spec_help_for(topic[0]) is Some {
        spec_help_for(topic[0])->0 + "\n"@
    } else {
        "help for shell-native command topics is not implemented yet; use `confluence "@ + spec_join(
            topic,
            " "@,
        ) + " --help`\n"@
    }
}

/// The help text for a topic.
pub fn render_help(topic: Vec<String>) -> (r: String)
    ensures
        r@ == spec_render_help(strings_view(topic@)),
{
    let ghost tv = strings_view(topic@);
    if topic.len() == 0 || str_eq(topic[0].as_str(), "shell") {
        let mut s = copy_str(SHELL_HELP);
        s.append("\n");
        return s;
    }
    assert(tv[0] == topic@[0]@);
    if topic.len() == 1 {
        if let Some(help) = help_for(topic[0].as_str()) {
            let mut s = copy_str(help);
            s.append("\n");
            return s;
        }
    }
    let mut s = copy_str("help for shell-native command topics is not implemented yet; use `confluence ");
    let joined = join(topic.as_slice(), " ");
    s.append(joined.as_str());
    s.append(" --help`\n");
    s
}

/// One line of `ls`: spaces with their name and id, pages with their id, a `/` after
/// those with children.
pub open spec fn spec_ls_entry(e: DirEntry) -> Seq<char> {
    match e.handle@ {
        NodeHandleView::Space(s) => "- "@ + s.key + "/  "@ + s.name + " ["@ + s.id + "]"@,
        NodeHandleView::Page(p) => "- "@ + p.title + (if e.stat.has_children == Some(true) {
            "/"@
        } else {
            ""@
        }) + " ["@ + spec_decimal(p.id as nat) + "]"@,
        NodeHandleView::Root => "- /"@,
    }
}

/// The lines of `ls` for the entries, each ending in a line break.
pub open spec fn spec_ls_lines(entries: Seq<DirEntry>) -> Seq<char>
    decreases entries.len(),
{
    if entries.len() == 0 {
        Seq::empty()
    } else {
        spec_ls_lines(entries.drop_last()) + spec_ls_entry(entries.last()) + "\n"@
    }
}

/// What `ls` prints for a node's entries: a note when there are none.
pub open spec fn spec_ls_output(handle: NodeHandleView, entries: Seq<DirEntry>) -> Seq<char> {
    if entries.len() == 0 {
        if handle is Root {
            "No spaces found.\n"@
        } else {
            "No child pages found.\n"@
        }
    } else {
        spec_ls_lines(entries)
    }
}

fn render_entry(entry: &DirEntry) -> (r: String)
    ensures
        r@ == spec_ls_entry(*entry),
{
    match &entry.handle {
        NodeHandle::Space(space) => {
            let mut s = copy_str("- ");
            s.append(space.key.as_str());
            s.append("/  ");
            s.append(space.name.as_str());
            s.append(" [");
            s.append(space.id.as_str());
            s.append("]");
            s
        },
        NodeHandle::Page(page) => {
            let mut s = copy_str("- ");
            s.append(page.title.as_str());
            if entry.stat.has_children == Some(true) {
                s.append("/");
            } else {
                s.append("");
            }
            s.append(" [");
            let digits = u64_to_string(page.id);
            s.append(digits.as_str());
            s.append("]");
            s
        },
        NodeHandle::Root => copy_str("- /"),
    }
}

/// The `ls` text for the entries of `handle`.
fn listing_text(handle: &NodeHandle, entries: &Vec<DirEntry>) -> (r: String)
    ensures
        r@ == spec_ls_output(handle@, entries@),
{
    if entries.len() == 0 {
        return match handle {
            NodeHandle::Root => copy_str("No spaces found.\n"),
            _ => copy_str("No child pages found.\n"),
        };
    }
    let mut out = String::new();
    let mut i: usize = 0;
    while i < entries.len()
        invariant
            i <= entries.len(),
            out@ == spec_ls_lines(entries@.take(i as int)),
        decreases entries.len() - i,
    {
        let line = render_entry(&entries[i]);
        out.append(line.as_str());
        out.append("\n");
        assert(entries@.take(i + 1).drop_last() == entries@.take(i as int));
        i = i + 1;
    }
    assert(entries@.take(entries.len() as int) == entries@);
    out
}

/// A possible outcome of listing a node.
pub open spec fn spec_listing<V: VirtualFileSystem>(vfs: V, handle: NodeHandleView, r: Result<String>) -> bool {
    exists|res: Result<Vec<DirEntry>>|
        #[trigger] vfs.read_dir_post(handle, res) && match res {
            Err(e) => r == Err::<String, ConfluenceCliError>(e),
            Ok(entries) => r matches Ok(s) && s@ == spec_ls_output(handle, entries@),
        }
}

/// Lists the entries of a node.
pub fn render_listing<V: VirtualFileSystem>(state: &ShellState<V>, handle: &NodeHandle) -> (r: Result<String>)
    ensures
        spec_listing(state.file_system(), handle@, r),
{
    let res = state.vfs().read_dir(handle);
    let ghost g = res;
    assert(state.file_system().read_dir_post(handle@, g));
    let entries = res?;
    Ok(listing_text(handle, &entries))
}

/// A possible outcome of `ls` on the last node of a path.
pub open spec fn spec_ls_of<V: VirtualFileSystem>(vfs: V, l: Seq<NodeHandleView>, r: Result<StageResult>) -> bool {
    exists|s: Result<String>|
        #[trigger] spec_listing(vfs, l.last(), s) && match s {
            Err(e) => r == Err::<StageResult, ConfluenceCliError>(e),
            Ok(text) => r matches Ok(StageResult::Done(ShellControl::Continue, CommandOutput::Text(t)))
                && t@ == text@,
        }
}

/// What a built-in does, apart from `cd`'s move and the host's work it asks for.
pub open spec fn spec_builtin_outcome<V: VirtualFileSystem>(
    vfs: V,
    lineage: Seq<NodeHandleView>,
    builtin: Builtin,
    argv: Seq<Seq<char>>,
    in_pipeline: bool,
    r: Result<StageResult>,
) -> bool {
    match builtin {
        Builtin::Help => if argv.len() < 1 {
            is_usage_error(r, "help"@)
        } else {
            r matches Ok(StageResult::Done(ShellControl::Continue, CommandOutput::Text(t))) && t@
                == spec_render_help(argv.skip(1))
        },
        Builtin::Pwd => if argv.len() != 1 {
            is_usage_error(r, "pwd"@)
        } else {
            r matches Ok(StageResult::Done(ShellControl::Continue, CommandOutput::Text(t))) && t@
                == spec_render_lineage(lineage) + "\n"@
        },
        Builtin::Ls => if !(1 <= argv.len() <= 2) {
            is_usage_error(r, "ls"@)
        } else {
            exists|res: Result<Seq<NodeHandleView>>|
                #[trigger] spec_target_lineage(vfs, lineage, spec_arg(argv, 1), res) && match res {
                    Err(e) => r == Err::<StageResult, ConfluenceCliError>(e),
                    Ok(l) => spec_ls_of(vfs, l, r),
                }
        },
        Builtin::Cd => if in_pipeline {
            is_pipeline_error(r, "cd"@)
        } else if argv.len() != 2 {
            is_usage_error(r, "cd"@)
        } else {
            r is Err || r matches Ok(StageResult::Done(ShellControl::Continue, CommandOutput::Empty))
        },
        Builtin::UseProfile => if in_pipeline {
            is_pipeline_error(r, "use profile"@)
        } else if argv.len() == 3 && argv[0] == "use"@ && argv[1] == "profile"@ {
            r matches Ok(StageResult::Request(ShellRequest::LoadProfile(p))) && p@ == argv[2]
        } else if argv.len() >= 1 && argv[0] == "use"@ {
            r matches Err(ConfluenceCliError::Config(m)) && m@
                == "filesystem shell navigation uses `cd`; only `use profile <name>` remains supported"@
        } else {
            r matches Err(ConfluenceCliError::Config(m)) && m@ == "usage: use profile <name>"@
        },
        Builtin::Exit => if in_pipeline {
            is_pipeline_error(r, "exit"@)
        } else if argv.len() != 1 {
            is_usage_error(r, "exit"@)
        } else {
            r matches Ok(StageResult::Done(ShellControl::Exit, CommandOutput::Empty))
        },
        Builtin::CompatPwd => r matches Err(ConfluenceCliError::Config(m)) && m@
            == "`context` was replaced by `pwd`"@,
        Builtin::CompatBack => r matches Err(ConfluenceCliError::Config(m)) && m@
            == "`back` was replaced by `cd ..`"@,
        Builtin::CompatUnset => r matches Err(ConfluenceCliError::Config(m)) && m@
            == "filesystem shell navigation uses `cd` and `pwd`; `unset` is no longer supported"@,
    }
}

/// Runs a built-in. Only `cd` changes the state; `use profile` asks the host to load the
/// profile.
pub fn execute<V: VirtualFileSystem>(
    state: &mut ShellState<V>,
    builtin: Builtin,
    argv: &[String],
    in_pipeline: bool,
) -> (r: Result<StageResult>)
    requires
        old(state).wf(),
    ensures
        final(state).wf(),
        final(state).global_args() == old(state).global_args(),
        final(state).runtime_ctx() == old(state).runtime_ctx(),
        final(state).file_system() == old(state).file_system(),
        builtin != Builtin::Cd || in_pipeline ==> final(state).lineage() == old(state).lineage(),
        builtin == Builtin::Cd && !in_pipeline && argv@.len() == 2 ==> spec_change_directory(
            old(state).file_system(),
            old(state).lineage(),
            argv@[1]@,
            unit_result(r),
            final(state).lineage(),
        ),
        builtin == Builtin::Cd && !in_pipeline && argv@.len() != 2 ==> final(state).lineage() == old(state).lineage(),
        spec_builtin_outcome(
            old(state).file_system(),
            old(state).lineage(),
            builtin,
            strings_view(argv@),
            in_pipeline,
            r,
        ),
{
    let ghost av = strings_view(argv@);
    assert(state.file_system() == old(state).file_system());
    assert(state.lineage() == old(state).lineage());
    match builtin {
        Builtin::Help => {
            if argv.len() < 1 {
                let e = usage_error("help");
                assert(is_usage_error(Err::<StageResult, ConfluenceCliError>(e), "help"@));
                return Err(e);
            }
            let mut topic: Vec<String> = Vec::new();
            let mut i: usize = 1;
            while i < argv.len()
                invariant
                    1 <= i <= argv.len(),
                    av == strings_view(argv@),
                    strings_view(topic@) == av.skip(1).take(i - 1),
                decreases argv.len() - i,
            {
                let ghost before = strings_view(topic@);
                topic.push(argv[i].clone());
                assert(strings_view(topic@) == before.push(av[i as int]));
                assert(av.skip(1).take(i as int) == av.skip(1).take(i - 1).push(av[i as int]));
                i = i + 1;
            }
            assert(av.skip(1).take(argv.len() - 1) == av.skip(1));
            Ok(StageResult::Done(ShellControl::Continue, CommandOutput::Text(render_help(topic))))
        },
        Builtin::Pwd => {
            require_arity("pwd", argv, 1)?;
            let mut s = state.cwd_display();
            s.append("\n");
            Ok(StageResult::Done(ShellControl::Continue, CommandOutput::Text(s)))
        },
        Builtin::Ls => {
            require_range("ls", argv, 1, 2)?;
            let target = if argv.len() == 2 {
                Some(argv[1].as_str())
            } else {
                None
            };
            let tl = state.resolve_target_lineage(target);
            let ghost res = super::state::lineage_result(tl);
            assert(spec_target_lineage(state.file_system(), state.lineage(), spec_arg(av, 1), res));
            let lineage = match tl {
                Ok(l) => l,
                Err(e) => {
                    return Err(e);
                },
            };
            let n = lineage.len();
            let handle = &lineage[n - 1];
            assert(handle@ == crate::application::vfs::handles_view(lineage@).last());
            let listing = render_listing(state, handle);
            let ghost g = listing;
            assert(spec_listing(state.file_system(), handle@, g));
            proof {
                let l = crate::application::vfs::handles_view(lineage@);
                assert(res == Ok::<Seq<NodeHandleView>, ConfluenceCliError>(l));
                assert(l.last() == handle@);
            }
            let text = match listing {
                Ok(t) => t,
                Err(e) => {
                    assert(g == Err::<String, ConfluenceCliError>(e));
                    assert(spec_ls_of(state.file_system(), handles_view(lineage@), Err::<StageResult, ConfluenceCliError>(e)));
                    return Err(e);
                },
            };
            let out = StageResult::Done(ShellControl::Continue, CommandOutput::Text(text));
            let ghost rr = Ok::<StageResult, ConfluenceCliError>(out);
            assert(spec_ls_of(state.file_system(), handles_view(lineage@), rr));
            Ok(out)
        },
        Builtin::Cd => {
            reject_in_pipeline("cd", in_pipeline)?;
            require_arity("cd", argv, 2)?;
            let moved = state.change_directory(argv[1].as_str());
            match moved {
                Ok(()) => Ok(StageResult::Done(ShellControl::Continue, CommandOutput::Empty)),
                Err(e) => Err(e),
            }
        },
        Builtin::UseProfile => {
            reject_in_pipeline("use profile", in_pipeline)?;
            proof {
                reveal_strlit("use");
                reveal_strlit("profile");
            }
            if argv.len() == 3 && str_eq(argv[0].as_str(), "use") && str_eq(argv[1].as_str(), "profile") {
                assert(av[0] == argv@[0]@ && av[1] == argv@[1]@ && av[2] == argv@[2]@);
                return Ok(StageResult::Request(ShellRequest::LoadProfile(argv[2].clone())));
            }
            if argv.len() >= 1 && str_eq(argv[0].as_str(), "use") {
                return Err(ConfluenceCliError::Config(copy_str("filesystem shell navigation uses `cd`; only `use profile <name>` remains supported")));
            }
            proof {
                if av.len() >= 1 {
                    assert(av[0] == argv@[0]@);
                }
                if av.len() == 3 {
                    assert(av[1] == argv@[1]@);
                }
            }
            Err(ConfluenceCliError::Config(copy_str("usage: use profile <name>")))
        },
        Builtin::Exit => {
            reject_in_pipeline("exit", in_pipeline)?;
            require_arity("exit", argv, 1)?;
            Ok(StageResult::Done(ShellControl::Exit, CommandOutput::Empty))
        },
        Builtin::CompatPwd => Err(ConfluenceCliError::Config(copy_str("`context` was replaced by `pwd`"))),
        Builtin::CompatBack => Err(ConfluenceCliError::Config(copy_str("`back` was replaced by `cd ..`"))),
        Builtin::CompatUnset => Err(
            ConfluenceCliError::Config(
                copy_str("filesystem shell navigation uses `cd` and `pwd`; `unset` is no longer supported"),
            ),
        ),
    }
}

} // verus!
