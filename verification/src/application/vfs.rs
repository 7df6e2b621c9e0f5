//! Confluence seen as a tree of directories: the root lists spaces, a space lists its
//! top-level pages, and a page lists its children.
use vstd::prelude::*;

use crate::domain::{PageId, PageRef, PageRefView};
use crate::error::{ConfluenceCliError, Result};
use crate::text::copy_str;

use super::models::PageContentKind;

verus! {

/// A space as a directory.
#[derive(Debug, Clone, PartialEq, Eq)]
pub struct SpaceNode {
    pub id: String,
    pub key: String,
    pub name: String,
    pub homepage_id: Option<u64>,
}

/// A page or folder as a directory.
#[derive(Debug, Clone, PartialEq, Eq)]
pub struct PageNode {
    pub id: u64,
    pub title: String,
    pub space_id: Option<String>,
    pub content_kind: PageContentKind,
}

/// A node of the tree.
#[derive(Debug, Clone, PartialEq, Eq)]
pub enum NodeHandle {
    Root,
    Space(SpaceNode),
    Page(PageNode),
}

pub struct SpaceNodeView {
    pub id: Seq<char>,
    pub key: Seq<char>,
    pub name: Seq<char>,
    pub homepage_id: Option<u64>,
}

pub struct PageNodeView {
    pub id: u64,
    pub title: Seq<char>,
    pub space_id: Option<Seq<char>>,
    pub content_kind: PageContentKind,
}

/// The mathematical value of a node.
pub enum NodeHandleView {
    Root,
    Space(SpaceNodeView),
    Page(PageNodeView),
}

impl View for SpaceNode {
    type V = SpaceNodeView;

    open spec fn view(&self) -> SpaceNodeView {
        SpaceNodeView { id: self.id@, key: self.key@, name: self.name@, homepage_id: self.homepage_id }
    }
}

impl View for PageNode {
    type V = PageNodeView;

    open spec fn view(&self) -> PageNodeView {
        PageNodeView {
            id: self.id,
            title: self.title@,
            space_id: match &self.space_id {
                Some(s) => Some(s@),
                None => None,
            },
            content_kind: self.content_kind,
        }
    }
}

impl View for NodeHandle {
    type V = NodeHandleView;

    open spec fn view(&self) -> NodeHandleView {
        match self {
            NodeHandle::Root => NodeHandleView::Root,
            NodeHandle::Space(s) => NodeHandleView::Space(s@),
            NodeHandle::Page(p) => NodeHandleView::Page(p@),
        }
    }
}

/// What a node is.
#[derive(Debug, Clone, Copy, PartialEq, Eq, Structural)]
pub enum NodeKind {
    Root,
    Space,
    Page,
    Folder,
}

/// What can be done with a node.
#[derive(Debug, Clone, Copy, PartialEq, Eq, Structural)]
pub enum NodeCapability {
    Read,
    List,
    Traverse,
    Search,
    Create,
    Delete,
    Move,
    Copy,
}

/// A node's description.
#[derive(Debug, Clone, PartialEq, Eq)]
pub struct NodeStat {
    pub kind: NodeKind,
    pub name: String,
    pub capabilities: Vec<NodeCapability>,
    pub has_children: Option<bool>,
}

impl NodeStat {
    /// Whether the node offers `capability`.
    pub fn supports(&self, capability: NodeCapability) -> (r: bool)
        ensures
            r == self.capabilities@.contains(capability),
    {
        let mut i: usize = 0;
        while i < self.capabilities.len()
            invariant
                i <= self.capabilities.len(),
                forall|j: int| 0 <= j < i ==> self.capabilities@[j] != capability,
            decreases self.capabilities.len() - i,
        {
            if self.capabilities[i] == capability {
                return true;
            }
            i = i + 1;
        }
        false
    }
}

/// A child of a directory.
#[derive(Debug, Clone, PartialEq, Eq)]
pub struct DirEntry {
    pub name: String,
    pub handle: NodeHandle,
    pub stat: NodeStat,
}

/// The error a file system gives for an operation it does not offer.
pub open spec fn is_not_implemented<T>(r: Result<T>, what: Seq<char>) -> bool {
    r matches Err(ConfluenceCliError::NotImplemented(m)) && m@ == what
}

/// The name under which a node kind is reported.
pub open spec fn spec_kind_name(kind: NodeKind) -> Seq<char> {
    match kind {
        NodeKind::Root => "Root"@,
        NodeKind::Space => "Space"@,
        NodeKind::Page => "Page"@,
        NodeKind::Folder => "Folder"@,
    }
}

/// The name of a node kind.
pub fn kind_name(kind: NodeKind) -> (r: &'static str)
    ensures
        r@ == spec_kind_name(kind),
{
    match kind {
        NodeKind::Root => "Root",
        NodeKind::Space => "Space",
        NodeKind::Page => "Page",
        NodeKind::Folder => "Folder",
    }
}

/// A tree of Confluence content that the shell walks.
///
/// What a node holds depends on the remote service, so each reading operation is
/// described by a relation between its inputs and its result that the implementation
/// defines; one that does not define it claims nothing of the outcome. One fact is asked
/// of every implementation: a child is never the root.
pub trait VirtualFileSystem {
    closed spec fn stat_post(&self, handle: NodeHandleView, r: Result<NodeStat>) -> bool {
        true
    }

    closed spec fn read_dir_post(&self, handle: NodeHandleView, r: Result<Vec<DirEntry>>) -> bool {
        true
    }

    closed spec fn open_child_post(&self, parent: NodeHandleView, name: Seq<char>, r: Result<NodeHandle>) -> bool {
        true
    }

    closed spec fn read_post(&self, handle: NodeHandleView, r: Result<String>) -> bool {
        true
    }

    closed spec fn create_child_post(
        &self,
        parent: NodeHandleView,
        name: Seq<char>,
        kind: NodeKind,
        r: Result<NodeHandle>,
    ) -> bool {
        true
    }

    closed spec fn remove_node_post(&self, handle: NodeHandleView, r: Result<()>) -> bool {
        true
    }

    closed spec fn move_node_post(
        &self,
        handle: NodeHandleView,
        new_parent: NodeHandleView,
        new_name: Option<Seq<char>>,
        r: Result<NodeHandle>,
    ) -> bool {
        true
    }

    closed spec fn copy_node_post(
        &self,
        handle: NodeHandleView,
        new_parent: NodeHandleView,
        new_name: Option<Seq<char>>,
        r: Result<NodeHandle>,
    ) -> bool {
        true
    }

    /// The root of the tree.
    fn root(&self) -> (r: NodeHandle)
        ensures
            r is Root,
    {
        NodeHandle::Root
    }

    fn stat(&self, handle: &NodeHandle) -> (r: Result<NodeStat>)
        ensures
            self.stat_post(handle@, r),
    ;

    fn read_dir(&self, handle: &NodeHandle) -> (r: Result<Vec<DirEntry>>)
        ensures
            self.read_dir_post(handle@, r),
            r matches Ok(entries) ==> forall|i: int|
                0 <= i < entries@.len() ==> !(#[trigger] entries@[i]).handle.is_root(),
    ;

    fn open_child(&self, parent: &NodeHandle, name: &str) -> (r: Result<NodeHandle>)
        ensures
            self.open_child_post(parent@, name@, r),
            r matches Ok(h) ==> !h.is_root(),
    ;

    fn read(&self, handle: &NodeHandle) -> (r: Result<String>)
        ensures
            self.read_post(handle@, r),
    ;

    /// Creates a child node; a file system that cannot create nodes refuses.
    fn create_child(&self, parent: &NodeHandle, name: &str, kind: NodeKind) -> (r: Result<NodeHandle>)
        ensures
            self.create_child_post(parent@, name@, kind, r) || is_not_implemented(
                r,
                "create_child for "@ + spec_kind_name(kind),
            ),
    {
        let mut m = copy_str("create_child for ");
        m.append(kind_name(kind));
        Err(ConfluenceCliError::NotImplemented(m))
    }

    /// Removes a node; a file system that cannot remove nodes refuses.
    fn remove_node(&self, handle: &NodeHandle) -> (r: Result<()>)
        ensures
            self.remove_node_post(handle@, r) || is_not_implemented(r, "remove_node"@),
    {
        Err(ConfluenceCliError::NotImplemented(copy_str("remove_node")))
    }

    /// Moves a node under a new parent, optionally renaming it.
    fn move_node(&self, handle: &NodeHandle, new_parent: &NodeHandle, new_name: Option<&str>) -> (r: Result<
        NodeHandle,
    >)
        ensures
            self.move_node_post(handle@, new_parent@, opt_name(new_name), r) || is_not_implemented(
                r,
                "move_node"@,
            ),
    {
        Err(ConfluenceCliError::NotImplemented(copy_str("move_node")))
    }

    /// Copies a node under a new parent, optionally renaming it.
    fn copy_node(&self, handle: &NodeHandle, new_parent: &NodeHandle, new_name: Option<&str>) -> (r: Result<
        NodeHandle,
    >)
        ensures
            self.copy_node_post(handle@, new_parent@, opt_name(new_name), r) || is_not_implemented(
                r,
                "copy_node"@,
            ),
    {
        Err(ConfluenceCliError::NotImplemented(copy_str("copy_node")))
    }
}

/// The view of an optional name.
pub open spec fn opt_name(o: Option<&str>) -> Option<Seq<char>> {
    match o {
        Some(s) => Some(s@),
        None => None,
    }
}

/// What creating a child gives: what the file system defines, or its refusal.
pub open spec fn spec_create_child_outcome<V: VirtualFileSystem>(
    vfs: V,
    parent: NodeHandleView,
    name: Seq<char>,
    kind: NodeKind,
    r: Result<NodeHandle>,
) -> bool {
    vfs.create_child_post(parent, name, kind, r) || is_not_implemented(r, "create_child for "@ + spec_kind_name(kind))
}

/// What removing a node gives: what the file system defines, or its refusal.
pub open spec fn spec_remove_outcome<V: VirtualFileSystem>(vfs: V, handle: NodeHandleView, r: Result<()>) -> bool {
    vfs.remove_node_post(handle, r) || is_not_implemented(r, "remove_node"@)
}

/// What moving a node gives: what the file system defines, or its refusal.
pub open spec fn spec_move_outcome<V: VirtualFileSystem>(
    vfs: V,
    handle: NodeHandleView,
    new_parent: NodeHandleView,
    new_name: Option<Seq<char>>,
    r: Result<NodeHandle>,
) -> bool {
    vfs.move_node_post(handle, new_parent, new_name, r) || is_not_implemented(r, "move_node"@)
}

/// What copying a node gives: what the file system defines, or its refusal.
pub open spec fn spec_copy_outcome<V: VirtualFileSystem>(
    vfs: V,
    handle: NodeHandleView,
    new_parent: NodeHandleView,
    new_name: Option<Seq<char>>,
    r: Result<NodeHandle>,
) -> bool {
    vfs.copy_node_post(handle, new_parent, new_name, r) || is_not_implemented(r, "copy_node"@)
}


impl NodeHandle {
    pub open spec fn is_root(&self) -> bool {
        self is Root
    }

    /// The page this node stands for, by id.
    pub fn as_page_ref(&self) -> (r: Option<PageRef>)
        ensures
            match self@ {
                NodeHandleView::Page(p) => r matches Some(pr) && pr@ == PageRefView::Id(p.id),
                _ => r is None,
            },
    {
        match self {
            NodeHandle::Page(page) => Some(PageRef::Id(PageId::new(page.id))),
            _ => None,
        }
    }

    /// The space this node stands for.
    pub fn as_space(&self) -> (r: Option<&SpaceNode>)
        ensures
            match self {
                NodeHandle::Space(s) => r == Some(s),
                _ => r is None,
            },
    {
        match self {
            NodeHandle::Space(space) => Some(space),
            _ => None,
        }
    }
}

/// The views of a sequence of nodes.
pub open spec fn handles_view(v: Seq<NodeHandle>) -> Seq<NodeHandleView> {
    v.map_values(|h: NodeHandle| h@)
}

fn copy_opt_string(o: &Option<String>) -> (r: Option<String>)
    ensures
        match (o, r) {
            (Some(a), Some(b)) => a@ == b@,
            (None, None) => true,
            _ => false,
        },
{
    match o {
        Some(s) => Some(s.clone()),
        None => None,
    }
}

impl SpaceNode {
    /// A copy of the node.
    pub fn duplicate(&self) -> (r: SpaceNode)
        ensures
            r@ == self@,
    {
        SpaceNode {
            id: self.id.clone(),
            key: self.key.clone(),
            name: self.name.clone(),
            homepage_id: self.homepage_id,
        }
    }
}

impl PageNode {
    /// A copy of the node.
    pub fn duplicate(&self) -> (r: PageNode)
        ensures
            r@ == self@,
    {
        PageNode {
            id: self.id,
            title: self.title.clone(),
            space_id: copy_opt_string(&self.space_id),
            content_kind: self.content_kind,
        }
    }
}

impl NodeHandle {
    /// A copy of the node.
    pub fn duplicate(&self) -> (r: NodeHandle)
        ensures
            r@ == self@,
    {
        match self {
            NodeHandle::Root => NodeHandle::Root,
            NodeHandle::Space(s) => NodeHandle::Space(s.duplicate()),
            NodeHandle::Page(p) => NodeHandle::Page(p.duplicate()),
        }
    }
}

/// A copy of each node.
pub fn duplicate_handles(v: &[NodeHandle]) -> (r: Vec<NodeHandle>)
    ensures
        handles_view(r@) == handles_view(v@),
{
    let mut out: Vec<NodeHandle> = Vec::new();
    let mut i: usize = 0;
    while i < v.len()
        invariant
            i <= v.len(),
            out@.len() == i,
            forall|j: int| 0 <= j < i ==> (#[trigger] out@[j])@ == v@[j]@,
        decreases v.len() - i,
    {
        out.push(v[i].duplicate());
        i = i + 1;
    }
    assert(handles_view(out@) == handles_view(v@));
    out
}

} // verus!
