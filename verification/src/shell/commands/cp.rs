//! `cp <source> <destination>`: copy a page.
use vstd::prelude::*;

use crate::application::models::PageContentKind;
use crate::application::runtime::spec_is_read_only;
use crate::application::vfs::{handles_view, opt_name, spec_copy_outcome, NodeHandle, NodeHandleView, VirtualFileSystem};
use crate::error::{ConfluenceCliError, Result};
use crate::text::copy_str;

use super::super::state::{lineage_result, spec_resolve, ShellState};
use super::super::CommandOutput;
use super::mv::{destination_view, resolve_destination, spec_destination};
use super::rm::spec_is_plain_page;

verus! {

/// Copying the source, once found: where the copy goes, then what the file system gives.
pub open spec fn spec_copied_to<V: VirtualFileSystem>(
    vfs: V,
    lineage: Seq<NodeHandleView>,
    source: NodeHandleView,
    destination: Seq<char>,
    r: Result<CommandOutput>,
) -> bool {
    exists|d: Result<(Seq<NodeHandleView>, Option<Seq<char>>)>|
        #[trigger] spec_destination(vfs, lineage, source, destination, d) && match d {
            Err(e) => r == Err::<CommandOutput, ConfluenceCliError>(e),
            Ok((pl, name)) => spec_copy_done(vfs, source, pl.last(), name, r),
        }
}

/// What copying gives once the destination is known.
pub open spec fn spec_copy_done<V: VirtualFileSystem>(
    vfs: V,
    source: NodeHandleView,
    parent: NodeHandleView,
    name: Option<Seq<char>>,
    r: Result<CommandOutput>,
) -> bool {
    exists|c: Result<NodeHandle>|
        #[trigger] spec_copy_outcome(vfs, source, parent, name, c) && match c {
            Err(e) => r == Err::<CommandOutput, ConfluenceCliError>(e),
            Ok(_) => r == Ok::<CommandOutput, ConfluenceCliError>(CommandOutput::Empty),
        }
}

/// `cp`: copies a page (not a folder) into the destination, or under a new name.
pub fn execute<V: VirtualFileSystem>(state: &ShellState<V>, argv: &[String], input: Option<String>) -> (r: Result<CommandOutput>)
    requires
        state.wf(),
    ensures
        input is Some ==> (r matches Err(ConfluenceCliError::Config(m)) && m@
            == "cp does not accept piped input"@),
        input is None && argv@.len() != 3 ==> (r matches Err(ConfluenceCliError::Config(m)) && m@
            == "usage: cp <source> <destination>"@),
        input is None && argv@.len() == 3 && spec_is_read_only(state.runtime_ctx()) ==> (r matches Err(
            ConfluenceCliError::Config(m),
        ) && m@ == "active profile is read-only; this command would mutate Confluence"@),
        input is None && argv@.len() == 3 && !spec_is_read_only(state.runtime_ctx()) ==> exists|
            src: Result<Seq<NodeHandleView>>,
        |
            #[trigger] spec_resolve(state.file_system(), state.lineage(), argv@[1]@, src) && match src {
                Err(e) => r == Err::<CommandOutput, ConfluenceCliError>(e),
                Ok(sl) => if !spec_is_plain_page(sl.last()) {
                    r matches Err(ConfluenceCliError::Config(m)) && m@ == "cp only supports pages for now"@
                } else {
                    spec_copied_to(state.file_system(), state.lineage(), sl.last(), argv@[2]@, r)
                },
            },
{
    if input.is_some() {
        return Err(ConfluenceCliError::Config(copy_str("cp does not accept piped input")));
    }
    if argv.len() != 3 {
        return Err(ConfluenceCliError::Config(copy_str("usage: cp <source> <destination>")));
    }
    state.ensure_writable()?;
    let src = state.resolve_target_lineage(Some(argv[1].as_str()));
    let ghost gsrc = lineage_result(src);
    assert(spec_resolve(state.file_system(), state.lineage(), argv@[1]@, gsrc));
    let source_lineage = match src {
        Ok(l) => l,
        Err(e) => {
            return Err(e);
        },
    };
    let n = source_lineage.len();
    let source = &source_lineage[n - 1];
    assert(source@ == handles_view(source_lineage@).last());
    match source {
        NodeHandle::Page(page) => {
            if page.content_kind == PageContentKind::Folder {
                return Err(ConfluenceCliError::Config(copy_str("cp only supports pages for now")));
            }
        },
        _ => {
            return Err(ConfluenceCliError::Config(copy_str("cp only supports pages for now")));
        },
    }
    let d = resolve_destination(state, source, argv[2].as_str());
    let ghost gd = destination_view(d);
    assert(spec_destination(state.file_system(), state.lineage(), source@, argv@[2]@, gd));
    let (parent_lineage, new_name) = match d {
        Ok(x) => x,
        Err(e) => {
            return Err(e);
        },
    };
    let m = parent_lineage.len();
    let parent = &parent_lineage[m - 1];
    assert(parent@ == handles_view(parent_lineage@).last());
    let name = match &new_name {
        Some(s) => Some(s.as_str()),
        None => None,
    };
    let c = state.vfs().copy_node(source, parent, name);
    let ghost gc = c;
    assert(spec_copy_outcome(state.file_system(), source@, parent@, opt_name(name), gc));
    let r = match c {
        Ok(_) => Ok(CommandOutput::Empty),
        Err(e) => Err(e),
    };
    assert(spec_copy_done(state.file_system(), source@, parent@, opt_name(name), r));
    r
}

} // verus!
