//! `rmdir <target>`: remove an empty folder.
use vstd::prelude::*;

use crate::application::models::PageContentKind;
use crate::application::runtime::spec_is_read_only;
use crate::application::vfs::{handles_view, spec_remove_outcome, DirEntry, NodeHandle, NodeHandleView, VirtualFileSystem};
use crate::error::{ConfluenceCliError, Result};
use crate::text::copy_str;

use super::super::state::{lineage_result, spec_resolve, ShellState};
use super::rm::spec_removed;
use super::super::CommandOutput;

verus! {

/// Whether a node is a folder.
pub open spec fn spec_is_folder(h: NodeHandleView) -> bool {
    h matches NodeHandleView::Page(p) && p.content_kind == PageContentKind::Folder
}

/// Removing a folder once found: refused unless the file system lists it as empty.
pub open spec fn spec_rmdir_at<V: VirtualFileSystem>(vfs: V, folder: NodeHandleView, r: Result<CommandOutput>) -> bool {
    exists|rd: Result<Vec<DirEntry>>|
        #[trigger] vfs.read_dir_post(folder, rd) && match rd {
            Err(e) => r == Err::<CommandOutput, ConfluenceCliError>(e),
            Ok(children) => if children@.len() > 0 {
                r matches Err(ConfluenceCliError::Config(m)) && m@ == "rmdir only removes empty folders"@
            } else {
                spec_removed(vfs, folder, r)
            },
        }
}

/// `rmdir`: removes a folder that the file system lists as empty.
pub fn execute<V: VirtualFileSystem>(state: &ShellState<V>, argv: &[String], input: Option<String>) -> (r: Result<CommandOutput>)
    requires
        state.wf(),
    ensures
        input is Some ==> (r matches Err(ConfluenceCliError::Config(m)) && m@
            == "rmdir does not accept piped input"@),
        input is None && argv@.len() != 2 ==> (r matches Err(ConfluenceCliError::Config(m)) && m@
            == "usage: rmdir <target>"@),
        input is None && argv@.len() == 2 && spec_is_read_only(state.runtime_ctx()) ==> (r matches Err(
            ConfluenceCliError::Config(m),
        ) && m@ == "active profile is read-only; this command would mutate Confluence"@),
        input is None && argv@.len() == 2 && !spec_is_read_only(state.runtime_ctx()) ==> exists|
            res: Result<Seq<NodeHandleView>>,
        |
            #[trigger] spec_resolve(state.file_system(), state.lineage(), argv@[1]@, res) && match res {
                Err(e) => r == Err::<CommandOutput, ConfluenceCliError>(e),
                Ok(l) => if !spec_is_folder(l.last()) {
                    r matches Err(ConfluenceCliError::Config(m)) && m@ == "rmdir only supports folders"@
                } else {
                    spec_rmdir_at(state.file_system(), l.last(), r)
                },
            },
{
    if input.is_some() {
        return Err(ConfluenceCliError::Config(copy_str("rmdir does not accept piped input")));
    }
    if argv.len() != 2 {
        return Err(ConfluenceCliError::Config(copy_str("usage: rmdir <target>")));
    }
    state.ensure_writable()?;
    let res = state.resolve_target_lineage(Some(argv[1].as_str()));
    let ghost gres = lineage_result(res);
    assert(spec_resolve(state.file_system(), state.lineage(), argv@[1]@, gres));
    let lineage = match res {
        Ok(l) => l,
        Err(e) => {
            return Err(e);
        },
    };
    let n = lineage.len();
    let handle = &lineage[n - 1];
    assert(handle@ == handles_view(lineage@).last());
    match handle {
        NodeHandle::Page(page) => {
            if page.content_kind != PageContentKind::Folder {
                return Err(ConfluenceCliError::Config(copy_str("rmdir only supports folders")));
            }
        },
        _ => {
            return Err(ConfluenceCliError::Config(copy_str("rmdir only supports folders")));
        },
    }
    let rd = state.vfs().read_dir(handle);
    let ghost grd = rd;
    assert(state.file_system().read_dir_post(handle@, grd));
    let children = match rd {
        Ok(c) => c,
        Err(e) => {
            return Err(e);
        },
    };
    if children.len() > 0 {
        return Err(ConfluenceCliError::Config(copy_str("rmdir only removes empty folders")));
    }
    let c = state.vfs().remove_node(handle);
    let ghost gc = c;
    assert(spec_remove_outcome(state.file_system(), handle@, gc));
    let r = match c {
        Ok(_) => Ok(CommandOutput::Empty),
        Err(e) => Err(e),
    };
    assert(spec_rmdir_at(state.file_system(), handle@, r));
    r
}

} // verus!
