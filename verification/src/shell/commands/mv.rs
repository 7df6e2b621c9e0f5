//! `mv <source> <destination>`: move or rename a node.
use vstd::prelude::*;

use crate::application::runtime::spec_is_read_only;
use crate::application::vfs::{handles_view, opt_name, spec_move_outcome, NodeHandle, NodeHandleView, VirtualFileSystem};
use crate::error::{spec_message, ConfluenceCliError, Result};
use crate::text::{copy_str, spec_contains, str_contains};

use super::super::state::{created_view, lineage_result, spec_lineage_wf, spec_parent_for_create, spec_resolve, ShellState};
use super::super::CommandOutput;

verus! {

/// The name a moved or copied node keeps when it goes into an existing directory.
pub open spec fn spec_source_name(source: NodeHandleView) -> Option<Seq<char>> {
    match source {
        NodeHandleView::Root => None,
        NodeHandleView::Space(s) => Some(s.name),
        NodeHandleView::Page(p) => Some(p.title),
    }
}

/// The name a moved or copied node keeps.
pub fn source_name(source: &NodeHandle) -> (r: Option<String>)
    ensures
        match (r, spec_source_name(source@)) {
            (Some(a), Some(b)) => a@ == b,
            (None, None) => true,
            _ => false,
        },
{
    match source {
        NodeHandle::Root => None,
        NodeHandle::Space(space) => Some(space.name.clone()),
        NodeHandle::Page(page) => Some(page.title.clone()),
    }
}

/// The views of a destination's parent path and new name.
pub open spec fn destination_view(r: Result<(Vec<NodeHandle>, Option<String>)>) -> Result<(Seq<NodeHandleView>, Option<Seq<char>>)> {
    match r {
        Ok((l, n)) => Ok((handles_view(l@), match n {
            Some(s) => Some(s@),
            None => None,
        })),
        Err(e) => Err(e),
    }
}

/// A destination that names a node not yet there: its parent and the new name.
pub open spec fn spec_new_destination<V: VirtualFileSystem>(
    vfs: V,
    lineage: Seq<NodeHandleView>,
    destination: Seq<char>,
    r: Result<(Seq<NodeHandleView>, Option<Seq<char>>)>,
) -> bool {
    exists|c: Result<(Seq<NodeHandleView>, Seq<char>)>|
        #[trigger] spec_parent_for_create(vfs, lineage, destination, c) && match c {
            Err(e) => r == Err::<(Seq<NodeHandleView>, Option<Seq<char>>), ConfluenceCliError>(e),
            Ok((l, leaf)) => r == Ok::<(Seq<NodeHandleView>, Option<Seq<char>>), ConfluenceCliError>((l, Some(leaf))),
        }
}

/// Where a moved or copied node goes: into the destination when it resolves, keeping
/// its name; when the destination is not found, under its parent with its last segment
/// as the new name; any other failure is the error.
pub open spec fn spec_destination<V: VirtualFileSystem>(
    vfs: V,
    lineage: Seq<NodeHandleView>,
    source: NodeHandleView,
    destination: Seq<char>,
    r: Result<(Seq<NodeHandleView>, Option<Seq<char>>)>,
) -> bool {
    exists|res: Result<Seq<NodeHandleView>>|
        #[trigger] spec_resolve(vfs, lineage, destination, res) && match res {
            Ok(l) => r == Ok::<(Seq<NodeHandleView>, Option<Seq<char>>), ConfluenceCliError>((l, spec_source_name(source))),
            Err(e) => if !spec_contains(spec_message(e), "not found"@) {
                r == Err::<(Seq<NodeHandleView>, Option<Seq<char>>), ConfluenceCliError>(e)
            } else {
                spec_new_destination(vfs, lineage, destination, r)
            },
        }
}

/// Where a moved or copied node goes: into the destination when it exists, keeping its
/// name; when the destination is not found, under the destination's parent with the
/// destination's last segment as its new name.
pub fn resolve_destination<V: VirtualFileSystem>(
    state: &ShellState<V>,
    source: &NodeHandle,
    destination: &str,
) -> (r: Result<(Vec<NodeHandle>, Option<String>)>)
    requires
        state.wf(),
    ensures
        r matches Ok((l, _)) ==> spec_lineage_wf(handles_view(l@)),
        spec_destination(state.file_system(), state.lineage(), source@, destination@, destination_view(r)),
{
    let res = state.resolve_target_lineage(Some(destination));
    let ghost gres = lineage_result(res);
    assert(spec_resolve(state.file_system(), state.lineage(), destination@, gres));
    match res {
        Ok(lineage) => Ok((lineage, source_name(source))),
        Err(error) => {
            let text = error.message();
            if !str_contains(text.as_str(), "not found") {
                return Err(error);
            }
            let c = state.resolve_parent_for_create(destination);
            let ghost gc = created_view(c);
            assert(spec_parent_for_create(state.file_system(), state.lineage(), destination@, gc));
            let r = match c {
                Ok((parent_lineage, leaf)) => Ok((parent_lineage, Some(leaf))),
                Err(e) => Err(e),
            };
            assert(spec_new_destination(state.file_system(), state.lineage(), destination@, destination_view(r)));
            r
        },
    }
}

/// Moving the source, once found: where it goes, then what the file system gives.
pub open spec fn spec_moved_to<V: VirtualFileSystem>(
    vfs: V,
    lineage: Seq<NodeHandleView>,
    source: NodeHandleView,
    destination: Seq<char>,
    r: Result<CommandOutput>,
) -> bool {
    exists|d: Result<(Seq<NodeHandleView>, Option<Seq<char>>)>|
        #[trigger] spec_destination(vfs, lineage, source, destination, d) && match d {
            Err(e) => r == Err::<CommandOutput, ConfluenceCliError>(e),
            Ok((pl, name)) => spec_move_done(vfs, source, pl.last(), name, r),
        }
}

/// What moving gives once the destination is known.
pub open spec fn spec_move_done<V: VirtualFileSystem>(
    vfs: V,
    source: NodeHandleView,
    parent: NodeHandleView,
    name: Option<Seq<char>>,
    r: Result<CommandOutput>,
) -> bool {
    exists|c: Result<NodeHandle>|
        #[trigger] spec_move_outcome(vfs, source, parent, name, c) && match c {
            Err(e) => r == Err::<CommandOutput, ConfluenceCliError>(e),
            Ok(_) => r == Ok::<CommandOutput, ConfluenceCliError>(CommandOutput::Empty),
        }
}

/// `mv`: moves the source node into the destination, or renames it when the
/// destination names a new node.
pub fn execute<V: VirtualFileSystem>(state: &ShellState<V>, argv: &[String], input: Option<String>) -> (r: Result<CommandOutput>)
    requires
        state.wf(),
    ensures
        input is Some ==> (r matches Err(ConfluenceCliError::Config(m)) && m@
            == "mv does not accept piped input"@),
        input is None && argv@.len() != 3 ==> (r matches Err(ConfluenceCliError::Config(m)) && m@
            == "usage: mv <source> <destination>"@),
        input is None && argv@.len() == 3 && spec_is_read_only(state.runtime_ctx()) ==> (r matches Err(
            ConfluenceCliError::Config(m),
        ) && m@ == "active profile is read-only; this command would mutate Confluence"@),
        input is None && argv@.len() == 3 && !spec_is_read_only(state.runtime_ctx()) ==> exists|
            src: Result<Seq<NodeHandleView>>,
        |
            #[trigger] spec_resolve(state.file_system(), state.lineage(), argv@[1]@, src) && match src {
                Err(e) => r == Err::<CommandOutput, ConfluenceCliError>(e),
                Ok(sl) => spec_moved_to(state.file_system(), state.lineage(), sl.last(), argv@[2]@, r),
            },
{
    if input.is_some() {
        return Err(ConfluenceCliError::Config(copy_str("mv does not accept piped input")));
    }
    if argv.len() != 3 {
        return Err(ConfluenceCliError::Config(copy_str("usage: mv <source> <destination>")));
    }
    state.ensure_writable()?;
    let src = state.resolve_target_lineage(Some(argv[1].as_str()));
    let ghost gsrc = lineage_result(src);
    assert(spec_resolve(state.file_system(), state.lineage(), argv@[1]@, gsrc));
    let source_lineage = match src {
        Ok(l) => l,
        Err(e) => {
            return Err(e);
        },
    };
    let n = source_lineage.len();
    let source = &source_lineage[n - 1];
    assert(source@ == handles_view(source_lineage@).last());
    let d = resolve_destination(state, source, argv[2].as_str());
    let ghost gd = destination_view(d);
    assert(spec_destination(state.file_system(), state.lineage(), source@, argv@[2]@, gd));
    let (parent_lineage, new_name) = match d {
        Ok(x) => x,
        Err(e) => {
            return Err(e);
        },
    };
    let m = parent_lineage.len();
    let parent = &parent_lineage[m - 1];
    assert(parent@ == handles_view(parent_lineage@).last());
    let name = match &new_name {
        Some(s) => Some(s.as_str()),
        None => None,
    };
    let c = state.vfs().move_node(source, parent, name);
    let ghost gc = c;
    assert(spec_move_outcome(state.file_system(), source@, parent@, opt_name(name), gc));
    let r = match c {
        Ok(_) => Ok(CommandOutput::Empty),
        Err(e) => Err(e),
    };
    assert(spec_move_done(state.file_system(), source@, parent@, opt_name(name), r));
    r
}

} // verus!
