//! `mkdir <target>`: create a folder.
use vstd::prelude::*;

use crate::application::runtime::spec_is_read_only;
use crate::application::vfs::{handles_view, spec_create_child_outcome, NodeHandle, NodeHandleView, NodeKind, VirtualFileSystem};
use crate::error::{ConfluenceCliError, Result};
use crate::text::copy_str;

use super::super::state::{created_view, spec_parent_for_create, spec_split_parent, ShellState};
use super::super::CommandOutput;

verus! {

/// Whether a path can name a new node: something is left after its trailing slashes
/// and its last segment is neither `.` nor `..`.
pub open spec fn spec_creatable(path: Seq<char>) -> bool {
    match spec_split_parent(path) {
        Some((_, leaf)) => leaf != "."@ && leaf != ".."@,
        None => false,
    }
}

/// Creating a folder under a node: what the file system gives.
pub open spec fn spec_created_in<V: VirtualFileSystem>(vfs: V, parent: NodeHandleView, leaf: Seq<char>, r: Result<CommandOutput>) -> bool {
    exists|c: Result<NodeHandle>|
        #[trigger] spec_create_child_outcome(vfs, parent, leaf, NodeKind::Folder, c) && match c {
            Err(e) => r == Err::<CommandOutput, ConfluenceCliError>(e),
            Ok(_) => r == Ok::<CommandOutput, ConfluenceCliError>(CommandOutput::Empty),
        }
}

/// `mkdir`: creates a folder named by the last segment of the path under the node its
/// other segments name.
pub fn execute<V: VirtualFileSystem>(state: &ShellState<V>, argv: &[String], input: Option<String>) -> (r: Result<CommandOutput>)
    requires
        state.wf(),
    ensures
        input is Some ==> (r matches Err(ConfluenceCliError::Config(m)) && m@
            == "mkdir does not accept piped input"@),
        input is None && argv@.len() != 2 ==> (r matches Err(ConfluenceCliError::Config(m)) && m@
            == "usage: mkdir <target>"@),
        input is None && argv@.len() == 2 && spec_is_read_only(state.runtime_ctx()) ==> (r matches Err(
            ConfluenceCliError::Config(m),
        ) && m@ == "active profile is read-only; this command would mutate Confluence"@),
        input is None && argv@.len() == 2 && !spec_is_read_only(state.runtime_ctx()) ==> exists|
            res: Result<(Seq<NodeHandleView>, Seq<char>)>,
        |
            #[trigger] spec_parent_for_create(state.file_system(), state.lineage(), argv@[1]@, res) && match res {
                Err(e) => r == Err::<CommandOutput, ConfluenceCliError>(e),
                Ok((l, leaf)) => spec_created_in(state.file_system(), l.last(), leaf, r),
            },
        r is Ok ==> spec_creatable(argv@[1]@),
{
    if input.is_some() {
        return Err(ConfluenceCliError::Config(copy_str("mkdir does not accept piped input")));
    }
    if argv.len() != 2 {
        return Err(ConfluenceCliError::Config(copy_str("usage: mkdir <target>")));
    }
    state.ensure_writable()?;
    let res = state.resolve_parent_for_create(argv[1].as_str());
    let ghost gres = created_view(res);
    assert(spec_parent_for_create(state.file_system(), state.lineage(), argv@[1]@, gres));
    let (parent_lineage, leaf) = match res {
        Ok(x) => x,
        Err(e) => {
            return Err(e);
        },
    };
    let n = parent_lineage.len();
    let parent = &parent_lineage[n - 1];
    assert(parent@ == handles_view(parent_lineage@).last());
    let c = state.vfs().create_child(parent, leaf.as_str(), NodeKind::Folder);
    let ghost gc = c;
    assert(spec_create_child_outcome(state.file_system(), parent@, leaf@, NodeKind::Folder, gc));
    match c {
        Ok(_) => Ok(CommandOutput::Empty),
        Err(e) => Err(e),
    }
}

} // verus!
