//! `rm <target>`: remove a page.
use vstd::prelude::*;

use crate::application::models::PageContentKind;
use crate::application::runtime::spec_is_read_only;
use crate::application::vfs::{handles_view, spec_remove_outcome, NodeHandle, NodeHandleView, VirtualFileSystem};
use crate::error::{ConfluenceCliError, Result};
use crate::text::copy_str;

use super::super::state::{lineage_result, spec_resolve, ShellState};
use super::super::CommandOutput;

verus! {

/// Whether a node is a page that is not a folder.
pub open spec fn spec_is_plain_page(h: NodeHandleView) -> bool {
    h matches NodeHandleView::Page(p) && p.content_kind == PageContentKind::Page
}

/// Removing a node: what the file system gives.
pub open spec fn spec_removed<V: VirtualFileSystem>(vfs: V, handle: NodeHandleView, r: Result<CommandOutput>) -> bool {
    exists|c: Result<()>|
        #[trigger] spec_remove_outcome(vfs, handle, c) && match c {
            Err(e) => r == Err::<CommandOutput, ConfluenceCliError>(e),
            Ok(_) => r == Ok::<CommandOutput, ConfluenceCliError>(CommandOutput::Empty),
        }
}

/// `rm`: removes a page; folders are left to `rmdir`.
pub fn execute<V: VirtualFileSystem>(state: &ShellState<V>, argv: &[String], input: Option<String>) -> (r: Result<CommandOutput>)
    requires
        state.wf(),
    ensures
        input is Some ==> (r matches Err(ConfluenceCliError::Config(m)) && m@
            == "rm does not accept piped input"@),
        input is None && argv@.len() != 2 ==> (r matches Err(ConfluenceCliError::Config(m)) && m@
            == "usage: rm <target>"@),
        input is None && argv@.len() == 2 && spec_is_read_only(state.runtime_ctx()) ==> (r matches Err(
            ConfluenceCliError::Config(m),
        ) && m@ == "active profile is read-only; this command would mutate Confluence"@),
        input is None && argv@.len() == 2 && !spec_is_read_only(state.runtime_ctx()) ==> exists|
            res: Result<Seq<NodeHandleView>>,
        |
            #[trigger] spec_resolve(state.file_system(), state.lineage(), argv@[1]@, res) && match res {
                Err(e) => r == Err::<CommandOutput, ConfluenceCliError>(e),
                Ok(l) => if !spec_is_plain_page(l.last()) {
                    r matches Err(ConfluenceCliError::Config(m)) && m@
                        == "rm only supports pages; use rmdir for folders"@
                } else {
                    spec_removed(state.file_system(), l.last(), r)
                },
            },
{
    if input.is_some() {
        return Err(ConfluenceCliError::Config(copy_str("rm does not accept piped input")));
    }
    if argv.len() != 2 {
        return Err(ConfluenceCliError::Config(copy_str("usage: rm <target>")));
    }
    state.ensure_writable()?;
    let res = state.resolve_target_lineage(Some(argv[1].as_str()));
    let ghost gres = lineage_result(res);
    assert(spec_resolve(state.file_system(), state.lineage(), argv@[1]@, gres));
    let lineage = match res {
        Ok(l) => l,
        Err(e) => {
            return Err(e);
        },
    };
    let n = lineage.len();
    let handle = &lineage[n - 1];
    assert(handle@ == handles_view(lineage@).last());
    match handle {
        NodeHandle::Page(page) => {
            if page.content_kind == PageContentKind::Folder {
                return Err(ConfluenceCliError::Config(copy_str("rm only supports pages; use rmdir for folders")));
            }
        },
        _ => {
            return Err(ConfluenceCliError::Config(copy_str("rm only supports pages; use rmdir for folders")));
        },
    }
    let c = state.vfs().remove_node(handle);
    let ghost gc = c;
    assert(spec_remove_outcome(state.file_system(), handle@, gc));
    match c {
        Ok(_) => Ok(CommandOutput::Empty),
        Err(e) => Err(e),
    }
}

} // verus!
