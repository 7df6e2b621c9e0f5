//! The Confluence site as the tree the shell walks: the spaces at the root, the children
//! of a space's home page below the space, and the children of each page or folder
//! below it. Every operation is one or two calls of the pages service.
use vstd::prelude::*;

use crate::cli::prompt::{ascii_lowercase, spec_ascii_lowercase};
use crate::domain::{BodyFormat, DeleteMode, MoveTarget, MoveTargetView, PageId, PageRef, PageRefView};
use crate::error::{ConfluenceCliError, Result};
use crate::text::{copy_str, spec_decimal, str_eq, u64_to_string};

use super::models::{
    CreateFolderRequest, CreateFolderRequestView, CreatePageRequest, CreatePageRequestView,
    MovePageRequest, MovePageRequestView, PageContentKind, PageSummary, SpaceSummary,
};
use super::ports::PagesApi;
use super::vfs::{
    is_not_implemented, opt_name, DirEntry, NodeCapability, NodeHandle, NodeHandleView, NodeKind, NodeStat,
    PageNode, PageNodeView, SpaceNode, SpaceNodeView, VirtualFileSystem,
};

verus! {

/// The site's content through the pages service.
pub struct ConfluenceVfs<A: PagesApi> {
    pub api: A,
}

/// The name a node is listed under: `/`, a space's key, a page's title.
pub open spec fn spec_listed_name(h: NodeHandleView) -> Seq<char> {
    match h {
        NodeHandleView::Root => "/"@,
        NodeHandleView::Space(s) => s.key,
        NodeHandleView::Page(p) => p.title,
    }
}

/// What a node is.
pub open spec fn spec_node_kind(h: NodeHandleView) -> NodeKind {
    match h {
        NodeHandleView::Root => NodeKind::Root,
        NodeHandleView::Space(_) => NodeKind::Space,
        NodeHandleView::Page(p) => match p.content_kind {
            PageContentKind::Page => NodeKind::Page,
            PageContentKind::Folder => NodeKind::Folder,
        },
    }
}

/// What can be done with a node: the root and spaces are listed and entered, spaces
/// searched and created in; pages and folders also take new children and can be
/// removed, moved and copied, and pages read.
pub open spec fn spec_capabilities(h: NodeHandleView) -> Seq<NodeCapability> {
    match h {
        NodeHandleView::Root => seq![NodeCapability::List, NodeCapability::Traverse],
        NodeHandleView::Space(_) => seq![
            NodeCapability::List,
            NodeCapability::Traverse,
            NodeCapability::Search,
            NodeCapability::Create,
        ],
        NodeHandleView::Page(p) => (if p.content_kind is Page {
            seq![NodeCapability::Read]
        } else {
            Seq::empty()
        }) + seq![
            NodeCapability::List,
            NodeCapability::Traverse,
            NodeCapability::Create,
            NodeCapability::Delete,
            NodeCapability::Move,
            NodeCapability::Copy,
        ],
    }
}

/// The description of a node.
pub open spec fn spec_stat_of(h: NodeHandleView, s: NodeStat) -> bool {
    &&& s.kind == spec_node_kind(h)
    &&& s.name@ == spec_listed_name(h)
    &&& s.capabilities@ == spec_capabilities(h)
    &&& s.has_children is None
}

/// The listing of a node.
pub open spec fn spec_entry_of(h: NodeHandleView, e: DirEntry) -> bool {
    e.handle@ == h && e.name@ == spec_listed_name(h) && spec_stat_of(h, e.stat)
}

/// The node of a space.
pub open spec fn spec_space_node(s: SpaceSummary) -> NodeHandleView {
    NodeHandleView::Space(SpaceNodeView { id: s.id@, key: s.key@, name: s.name@, homepage_id: s.homepage_id })
}

/// The view of a page or folder as a node.
pub open spec fn spec_page_view(p: PageSummary) -> PageNodeView {
    PageNodeView {
        id: p.id,
        title: p.title@,
        space_id: match p.space_id {
            Some(s) => Some(s@),
            None => None,
        },
        content_kind: p.content_kind,
    }
}

/// The node of a page or folder.
pub open spec fn spec_page_node(p: PageSummary) -> NodeHandleView {
    NodeHandleView::Page(spec_page_view(p))
}

/// The listings of spaces, in order.
pub open spec fn spec_space_entries(ss: Seq<SpaceSummary>, es: Seq<DirEntry>) -> bool {
    es.len() == ss.len() && forall|i: int| 0 <= i < ss.len() ==> spec_entry_of(spec_space_node(ss[i]), #[trigger] es[i])
}

/// The listings of pages and folders, in order.
pub open spec fn spec_page_entries(ps: Seq<PageSummary>, es: Seq<DirEntry>) -> bool {
    es.len() == ps.len() && forall|i: int| 0 <= i < ps.len() ==> spec_entry_of(spec_page_node(ps[i]), #[trigger] es[i])
}

/// A possible listing of the children of a page or folder: what the service lists,
/// or its error.
pub open spec fn spec_children_listed<A: PagesApi>(
    api: A,
    parent: PageRefView,
    kind: PageContentKind,
    r: Result<Vec<DirEntry>>,
) -> bool {
    exists|res: Result<Vec<PageSummary>>|
        #[trigger] api.list_child_content_post(parent, kind, res) && match res {
            Err(e) => r == Err::<Vec<DirEntry>, ConfluenceCliError>(e),
            Ok(ps) => r matches Ok(es) && spec_page_entries(ps@, es@),
        }
}

/// Whether a listed child answers to `name`: its listed name, a space's key ignoring
/// ASCII case, or a page's id.
pub open spec fn spec_answers_to(e: DirEntry, name: Seq<char>) -> bool {
    e.name@ == name || match e.handle@ {
        NodeHandleView::Space(s) => spec_ascii_lowercase(s.key) == spec_ascii_lowercase(name),
        NodeHandleView::Page(p) => spec_decimal(p.id as nat) == name,
        NodeHandleView::Root => false,
    }
}

/// The first child from position `i` on that answers to `name`.
pub open spec fn spec_first_answering(es: Seq<DirEntry>, name: Seq<char>, i: int) -> Option<int>
    decreases es.len() - i,
{
    if i < 0 || i >= es.len() {
        None
    } else if spec_answers_to(es[i], name) {
        Some(i)
    } else {
        spec_first_answering(es, name, i + 1)
    }
}

/// The space new content under a node goes into, or the complaint.
pub open spec fn spec_space_of(h: NodeHandleView) -> core::result::Result<Seq<char>, Seq<char>> {
    match h {
        NodeHandleView::Space(s) => Ok(s.id),
        NodeHandleView::Page(p) => match p.space_id {
            Some(id) => Ok(id),
            None => Err("page '"@ + p.title + "' has no space"@),
        },
        NodeHandleView::Root => Err("the root holds spaces only"@),
    }
}

/// The page new content under a node hangs from: the page itself, or a space's home
/// page.
pub open spec fn spec_parent_id(h: NodeHandleView) -> Option<u64> {
    match h {
        NodeHandleView::Page(p) => Some(p.id),
        NodeHandleView::Space(s) => s.homepage_id,
        NodeHandleView::Root => None,
    }
}

/// A result that is the node of the page the service gave, or its error.
pub open spec fn spec_node_result(res: Result<PageSummary>, r: Result<NodeHandle>) -> bool {
    match res {
        Err(e) => r == Err::<NodeHandle, ConfluenceCliError>(e),
        Ok(p) => r matches Ok(h) && h@ == spec_page_node(p),
    }
}

/// A possible outcome of creating a page or folder named `name` under `parent`.
pub open spec fn spec_created_under<A: PagesApi>(
    api: A,
    parent: NodeHandleView,
    name: Seq<char>,
    kind: NodeKind,
    r: Result<NodeHandle>,
) -> bool {
    match spec_space_of(parent) {
        Err(msg) => r matches Err(ConfluenceCliError::Config(m)) && m@ == msg,
        Ok(space_id) => match kind {
            NodeKind::Folder => exists|res: Result<PageSummary>|
                #[trigger] api.create_folder_post(
                    CreateFolderRequestView { title: name, space_id, parent_id: spec_parent_id(parent) },
                    res,
                ) && spec_node_result(res, r),
            NodeKind::Page => exists|res: Result<PageSummary>|
                #[trigger] api.create_page_post(
                    CreatePageRequestView {
                        title: name,
                        storage_body: "<p></p>"@,
                        space_id,
                        parent_id: spec_parent_id(parent),
                    },
                    res,
                ) && spec_node_result(res, r),
            _ => is_not_implemented(r, "creating spaces"@),
        },
    }
}

/// A possible outcome of moving a page or folder under `new_parent`.
pub open spec fn spec_moved_under<A: PagesApi>(
    api: A,
    handle: NodeHandleView,
    new_parent: NodeHandleView,
    new_name: Option<Seq<char>>,
    r: Result<NodeHandle>,
) -> bool {
    match handle {
        NodeHandleView::Page(p) => match spec_parent_id(new_parent) {
            None => r matches Err(ConfluenceCliError::Config(m)) && m@ == "the destination holds no pages"@,
            Some(pid) => exists|res: Result<PageSummary>|
                #[trigger] api.move_page_post(
                    MovePageRequestView {
                        page: PageRefView::Id(p.id),
                        target: MoveTargetView::Parent(PageRefView::Id(pid)),
                        title: new_name,
                    },
                    res,
                ) && match res {
                    Err(e) => r == Err::<NodeHandle, ConfluenceCliError>(e),
                    Ok(m) => r matches Ok(h) && h@ == NodeHandleView::Page(
                        PageNodeView { content_kind: p.content_kind, ..spec_page_view(m) },
                    ),
                },
        },
        _ => is_not_implemented(r, "moving spaces"@),
    }
}

/// A possible outcome of making a page: its node, or the service's error.
pub open spec fn spec_page_made<A: PagesApi>(api: A, request: CreatePageRequestView, r: Result<NodeHandle>) -> bool {
    exists|res: Result<PageSummary>| #[trigger] api.create_page_post(request, res) && spec_node_result(res, r)
}

/// A possible outcome of copying a page under `new_parent`: its storage body read, then
/// a new page made with it.
pub open spec fn spec_copied_under<A: PagesApi>(
    api: A,
    handle: NodeHandleView,
    new_parent: NodeHandleView,
    new_name: Option<Seq<char>>,
    r: Result<NodeHandle>,
) -> bool {
    if spec_node_kind(handle) is Page {
        let p = handle->Page_0;
        let title = match new_name {
            Some(n) => n,
            None => p.title,
        };
        exists|body: Result<super::models::PageBody>|
            #[trigger] api.read_page_post(PageRefView::Id(p.id), BodyFormat::Storage, body) && match body {
                Err(e) => r == Err::<NodeHandle, ConfluenceCliError>(e),
                Ok(b) => match spec_space_of(new_parent) {
                    Err(msg) => r matches Err(ConfluenceCliError::Config(m)) && m@ == msg,
                    Ok(space_id) => spec_page_made(
                        api,
                        CreatePageRequestView {
                            title,
                            storage_body: b.content@,
                            space_id,
                            parent_id: spec_parent_id(new_parent),
                        },
                        r,
                    ),
                },
            }
    } else {
        is_not_implemented(r, "copying anything but pages"@)
    }
}

/// A possible outcome of reading a node: a page's storage body, or the complaint that
/// the node is no page.
pub open spec fn spec_page_read<A: PagesApi>(api: A, handle: NodeHandleView, r: Result<String>) -> bool {
    if spec_node_kind(handle) is Page {
        exists|res: Result<super::models::PageBody>|
            #[trigger] api.read_page_post(PageRefView::Id(handle->Page_0.id), BodyFormat::Storage, res) && match res {
                Err(e) => r == Err::<String, ConfluenceCliError>(e),
                Ok(b) => r matches Ok(c) && c@ == b.content@,
            }
    } else {
        r matches Err(ConfluenceCliError::Config(m)) && m@ == "'"@ + spec_listed_name(handle) + "' is not a page"@
    }
}

fn push_capability(v: &mut Vec<NodeCapability>, c: NodeCapability)
    ensures
        final(v)@ == old(v)@.push(c),
{
    v.push(c);
}

/// The description of a node.
pub fn stat_of(h: &NodeHandle) -> (r: NodeStat)
    ensures
        spec_stat_of(h@, r),
{
    let mut caps: Vec<NodeCapability> = Vec::new();
    match h {
        NodeHandle::Root => {
            push_capability(&mut caps, NodeCapability::List);
            push_capability(&mut caps, NodeCapability::Traverse);
            assert(caps@ =~= spec_capabilities(h@));
            NodeStat { kind: NodeKind::Root, name: copy_str("/"), capabilities: caps, has_children: None }
        },
        NodeHandle::Space(space) => {
            push_capability(&mut caps, NodeCapability::List);
            push_capability(&mut caps, NodeCapability::Traverse);
            push_capability(&mut caps, NodeCapability::Search);
            push_capability(&mut caps, NodeCapability::Create);
            assert(caps@ =~= spec_capabilities(h@));
            NodeStat { kind: NodeKind::Space, name: space.key.clone(), capabilities: caps, has_children: None }
        },
        NodeHandle::Page(page) => {
            let kind = match page.content_kind {
                PageContentKind::Page => {
                    push_capability(&mut caps, NodeCapability::Read);
                    NodeKind::Page
                },
                PageContentKind::Folder => NodeKind::Folder,
            };
            push_capability(&mut caps, NodeCapability::List);
            push_capability(&mut caps, NodeCapability::Traverse);
            push_capability(&mut caps, NodeCapability::Create);
            push_capability(&mut caps, NodeCapability::Delete);
            push_capability(&mut caps, NodeCapability::Move);
            push_capability(&mut caps, NodeCapability::Copy);
            assert(caps@ =~= spec_capabilities(h@));
            NodeStat { kind, name: page.title.clone(), capabilities: caps, has_children: None }
        },
    }
}

/// The listing of a node.
pub fn entry(handle: NodeHandle) -> (r: DirEntry)
    ensures
        spec_entry_of(handle@, r),
{
    let stat = stat_of(&handle);
    DirEntry { name: stat.name.clone(), handle, stat }
}

fn copy_opt(o: &Option<String>) -> (r: Option<String>)
    ensures
        r == *o,
{
    match o {
        Some(s) => Some(s.clone()),
        None => None,
    }
}

/// The node of a page or folder.
pub fn page_node(summary: &PageSummary) -> (r: PageNode)
    ensures
        r@ == spec_page_view(*summary),
{
    PageNode {
        id: summary.id,
        title: summary.title.clone(),
        space_id: copy_opt(&summary.space_id),
        content_kind: summary.content_kind,
    }
}

fn space_entries(spaces: &Vec<SpaceSummary>) -> (r: Vec<DirEntry>)
    ensures
        spec_space_entries(spaces@, r@),
{
    let mut out: Vec<DirEntry> = Vec::new();
    let mut i: usize = 0;
    while i < spaces.len()
        invariant
            i <= spaces.len(),
            out@.len() == i,
            forall|j: int| 0 <= j < i ==> spec_entry_of(spec_space_node(spaces@[j]), #[trigger] out@[j]),
        decreases spaces.len() - i,
    {
        let s = &spaces[i];
        let node = SpaceNode { id: s.id.clone(), key: s.key.clone(), name: s.name.clone(), homepage_id: s.homepage_id };
        out.push(entry(NodeHandle::Space(node)));
        i = i + 1;
    }
    out
}

fn page_entries(pages: &Vec<PageSummary>) -> (r: Vec<DirEntry>)
    ensures
        spec_page_entries(pages@, r@),
{
    let mut out: Vec<DirEntry> = Vec::new();
    let mut i: usize = 0;
    while i < pages.len()
        invariant
            i <= pages.len(),
            out@.len() == i,
            forall|j: int| 0 <= j < i ==> spec_entry_of(spec_page_node(pages@[j]), #[trigger] out@[j]),
        decreases pages.len() - i,
    {
        out.push(entry(NodeHandle::Page(page_node(&pages[i]))));
        i = i + 1;
    }
    out
}

/// The space new content under a node goes into.
pub fn space_of(h: &NodeHandle) -> (r: Result<String>)
    ensures
        match spec_space_of(h@) {
            Ok(id) => r matches Ok(s) && s@ == id,
            Err(msg) => r matches Err(ConfluenceCliError::Config(m)) && m@ == msg,
        },
{
    match h {
        NodeHandle::Space(space) => Ok(space.id.clone()),
        NodeHandle::Page(page) => match &page.space_id {
            Some(id) => Ok(id.clone()),
            None => {
                let mut m = copy_str("page '");
                m.append(page.title.as_str());
                m.append("' has no space");
                Err(ConfluenceCliError::Config(m))
            },
        },
        NodeHandle::Root => Err(ConfluenceCliError::Config(copy_str("the root holds spaces only"))),
    }
}

/// The page new content under a node hangs from.
pub fn parent_id(h: &NodeHandle) -> (r: Option<PageId>)
    ensures
        match r {
            Some(p) => spec_parent_id(h@) == Some(p@),
            None => spec_parent_id(h@) is None,
        },
{
    match h {
        NodeHandle::Page(page) => Some(PageId::new(page.id)),
        NodeHandle::Space(space) => match space.homepage_id {
            Some(home) => Some(PageId::new(home)),
            None => None,
        },
        NodeHandle::Root => None,
    }
}

fn node_result(res: Result<PageSummary>) -> (r: Result<NodeHandle>)
    ensures
        spec_node_result(res, r),
{
    match res {
        Ok(p) => Ok(NodeHandle::Page(page_node(&p))),
        Err(e) => Err(e),
    }
}

/// Whether a listed child answers to `name`.
fn answers_to(e: &DirEntry, name: &str) -> (r: bool)
    ensures
        r == spec_answers_to(*e, name@),
{
    if str_eq(e.name.as_str(), name) {
        return true;
    }
    match &e.handle {
        NodeHandle::Space(space) => {
            let a = ascii_lowercase(space.key.as_str());
            let b = ascii_lowercase(name);
            str_eq(a.as_str(), b.as_str())
        },
        NodeHandle::Page(page) => {
            let digits = u64_to_string(page.id);
            str_eq(digits.as_str(), name)
        },
        NodeHandle::Root => false,
    }
}

impl<A: PagesApi> VirtualFileSystem for ConfluenceVfs<A> {
    open spec fn stat_post(&self, handle: NodeHandleView, r: Result<NodeStat>) -> bool {
        r matches Ok(s) && spec_stat_of(handle, s)
    }

    open spec fn read_dir_post(&self, handle: NodeHandleView, r: Result<Vec<DirEntry>>) -> bool {
        match handle {
            NodeHandleView::Root => exists|res: Result<Vec<SpaceSummary>>|
                #[trigger] self.api.list_spaces_post(res) && match res {
                    Err(e) => r == Err::<Vec<DirEntry>, ConfluenceCliError>(e),
                    Ok(ss) => r matches Ok(es) && spec_space_entries(ss@, es@),
                },
            NodeHandleView::Space(s) => match s.homepage_id {
                None => r matches Ok(es) && es@.len() == 0,
                Some(home) => spec_children_listed(self.api, PageRefView::Id(home), PageContentKind::Page, r),
            },
            NodeHandleView::Page(p) => spec_children_listed(self.api, PageRefView::Id(p.id), p.content_kind, r),
        }
    }

    open spec fn open_child_post(&self, parent: NodeHandleView, name: Seq<char>, r: Result<NodeHandle>) -> bool {
        exists|rd: Result<Vec<DirEntry>>|
            #[trigger] self.read_dir_post(parent, rd) && match rd {
                Err(e) => r == Err::<NodeHandle, ConfluenceCliError>(e),
                Ok(es) => match spec_first_answering(es@, name, 0) {
                    Some(i) => r matches Ok(h) && h@ == es@[i].handle@,
                    None => r matches Err(ConfluenceCliError::Config(m)) && m@ == "'"@ + name + "' not found"@,
                },
            }
    }

    open spec fn read_post(&self, handle: NodeHandleView, r: Result<String>) -> bool {
        spec_page_read(self.api, handle, r)
    }

    open spec fn create_child_post(&self, parent: NodeHandleView, name: Seq<char>, kind: NodeKind, r: Result<NodeHandle>) -> bool {
        spec_created_under(self.api, parent, name, kind, r)
    }

    open spec fn remove_node_post(&self, handle: NodeHandleView, r: Result<()>) -> bool {
        match handle {
            NodeHandleView::Page(p) => match p.content_kind {
                PageContentKind::Page => self.api.delete_page_post(PageRefView::Id(p.id), DeleteMode::Trash, r),
                PageContentKind::Folder => self.api.delete_folder_post(PageRefView::Id(p.id), r),
            },
            _ => is_not_implemented(r, "removing spaces"@),
        }
    }

    open spec fn move_node_post(
        &self,
        handle: NodeHandleView,
        new_parent: NodeHandleView,
        new_name: Option<Seq<char>>,
        r: Result<NodeHandle>,
    ) -> bool {
        spec_moved_under(self.api, handle, new_parent, new_name, r)
    }

    open spec fn copy_node_post(
        &self,
        handle: NodeHandleView,
        new_parent: NodeHandleView,
        new_name: Option<Seq<char>>,
        r: Result<NodeHandle>,
    ) -> bool {
        spec_copied_under(self.api, handle, new_parent, new_name, r)
    }

    fn stat(&self, handle: &NodeHandle) -> (r: Result<NodeStat>) {
        Ok(stat_of(handle))
    }

    fn read_dir(&self, handle: &NodeHandle) -> (r: Result<Vec<DirEntry>>) {
        match handle {
            NodeHandle::Root => {
                let res = self.api.list_spaces();
                let ghost g = res;
                match res {
                    Ok(spaces) => Ok(space_entries(&spaces)),
                    Err(e) => Err(e),
                }
            },
            NodeHandle::Space(space) => match space.homepage_id {
                Some(home) => {
                    let res = self.api.list_child_content(&PageRef::Id(PageId::new(home)), PageContentKind::Page);
                    match res {
                        Ok(pages) => Ok(page_entries(&pages)),
                        Err(e) => Err(e),
                    }
                },
                None => Ok(Vec::new()),
            },
            NodeHandle::Page(page) => {
                let res = self.api.list_child_content(&PageRef::Id(PageId::new(page.id)), page.content_kind);
                match res {
                    Ok(pages) => Ok(page_entries(&pages)),
                    Err(e) => Err(e),
                }
            },
        }
    }

    fn open_child(&self, parent: &NodeHandle, name: &str) -> (r: Result<NodeHandle>) {
        let rd = self.read_dir(parent);
        let ghost g = rd;
        assert(self.read_dir_post(parent@, g));
        let entries = match rd {
            Ok(es) => es,
            Err(e) => {
                return Err(e);
            },
        };
        let mut i: usize = 0;
        while i < entries.len()
            invariant
                i <= entries.len(),
                g == Ok::<Vec<DirEntry>, ConfluenceCliError>(entries),
                self.read_dir_post(parent@, g),
                forall|j: int| 0 <= j < entries@.len() ==> !(#[trigger] entries@[j]).handle.is_root(),
                spec_first_answering(entries@, name@, 0) == spec_first_answering(entries@, name@, i as int),
            decreases entries.len() - i,
        {
            if answers_to(&entries[i], name) {
                assert(spec_first_answering(entries@, name@, i as int) == Some(i as int));
                assert(!entries@[i as int].handle.is_root());
                return Ok(entries[i].handle.duplicate());
            }
            i = i + 1;
        }
        let mut m = copy_str("'");
        m.append(name);
        m.append("' not found");
        Err(ConfluenceCliError::Config(m))
    }

    fn read(&self, handle: &NodeHandle) -> (r: Result<String>) {
        match handle {
            NodeHandle::Page(page) => {
                if page.content_kind == PageContentKind::Page {
                    let res = self.api.read_page(&PageRef::Id(PageId::new(page.id)), BodyFormat::Storage);
                    let ghost g = res;
                    assert(self.api.read_page_post(PageRefView::Id(page.id), BodyFormat::Storage, g));
                    let out = match res {
                        Ok(body) => Ok(body.content),
                        Err(e) => Err(e),
                    };
                    assert(spec_node_kind(handle@) is Page);
                    assert(handle@->Page_0.id == page.id);
                    assert(match g {
                        Err(e) => out == Err::<String, ConfluenceCliError>(e),
                        Ok(b) => out matches Ok(c) && c@ == b.content@,
                    });
                    assert(spec_page_read(self.api, handle@, out));
                    return out;
                }
            },
            _ => {},
        }
        let stat = stat_of(handle);
        let mut m = copy_str("'");
        m.append(stat.name.as_str());
        m.append("' is not a page");
        Err(ConfluenceCliError::Config(m))
    }

    fn create_child(&self, parent: &NodeHandle, name: &str, kind: NodeKind) -> (r: Result<NodeHandle>) {
        let space_id = match space_of(parent) {
            Ok(s) => s,
            Err(e) => {
                return Err(e);
            },
        };
        let parent = parent_id(parent);
        match kind {
            NodeKind::Folder => node_result(
                self.api.create_folder(CreateFolderRequest { title: copy_str(name), space_id, parent_id: parent }),
            ),
            NodeKind::Page => node_result(
                self.api.create_page(
                    CreatePageRequest {
                        title: copy_str(name),
                        storage_body: copy_str("<p></p>"),
                        space_id,
                        parent_id: parent,
                    },
                ),
            ),
            _ => Err(ConfluenceCliError::NotImplemented(copy_str("creating spaces"))),
        }
    }

    fn remove_node(&self, handle: &NodeHandle) -> (r: Result<()>) {
        match handle {
            NodeHandle::Page(page) => match page.content_kind {
                PageContentKind::Page => self.api.delete_page(&PageRef::Id(PageId::new(page.id)), DeleteMode::Trash),
                PageContentKind::Folder => self.api.delete_folder(&PageRef::Id(PageId::new(page.id))),
            },
            _ => Err(ConfluenceCliError::NotImplemented(copy_str("removing spaces"))),
        }
    }

    fn move_node(&self, handle: &NodeHandle, new_parent: &NodeHandle, new_name: Option<&str>) -> (r: Result<NodeHandle>) {
        let page = match handle {
            NodeHandle::Page(page) => page,
            _ => {
                return Err(ConfluenceCliError::NotImplemented(copy_str("moving spaces")));
            },
        };
        let target = match parent_id(new_parent) {
            Some(p) => p,
            None => {
                return Err(ConfluenceCliError::Config(copy_str("the destination holds no pages")));
            },
        };
        let title = match new_name {
            Some(n) => Some(copy_str(n)),
            None => None,
        };
        let res = self.api.move_page(
            MovePageRequest {
                page: PageRef::Id(PageId::new(page.id)),
                target: MoveTarget::Parent(PageRef::Id(target)),
                title,
            },
        );
        match res {
            Ok(moved) => {
                let node = page_node(&moved);
                Ok(NodeHandle::Page(PageNode { content_kind: page.content_kind, ..node }))
            },
            Err(e) => Err(e),
        }
    }

    fn copy_node(&self, handle: &NodeHandle, new_parent: &NodeHandle, new_name: Option<&str>) -> (r: Result<NodeHandle>) {
        let page = match handle {
            NodeHandle::Page(page) => page,
            _ => {
                return Err(ConfluenceCliError::NotImplemented(copy_str("copying anything but pages")));
            },
        };
        if page.content_kind != PageContentKind::Page {
            return Err(ConfluenceCliError::NotImplemented(copy_str("copying anything but pages")));
        }
        let title = match new_name {
            Some(n) => copy_str(n),
            None => page.title.clone(),
        };
        let read = self.api.read_page(&PageRef::Id(PageId::new(page.id)), BodyFormat::Storage);
        let ghost g = read;
        assert(self.api.read_page_post(PageRefView::Id(page.id), BodyFormat::Storage, g));
        assert(spec_node_kind(handle@) is Page && handle@->Page_0.id == page.id);
        let body = match read {
            Ok(b) => b,
            Err(e) => {
                assert(spec_copied_under(self.api, handle@, new_parent@, opt_name(new_name), Err::<NodeHandle, ConfluenceCliError>(e)));
                return Err(e);
            },
        };
        let space_id = match space_of(new_parent) {
            Ok(s) => s,
            Err(e) => {
                assert(spec_copied_under(self.api, handle@, new_parent@, opt_name(new_name), Err::<NodeHandle, ConfluenceCliError>(e)));
                return Err(e);
            },
        };
        let parent = parent_id(new_parent);
        let request = CreatePageRequest { title, storage_body: body.content, space_id, parent_id: parent };
        let ghost rv = request@;
        let created = self.api.create_page(request);
        let ghost gc = created;
        assert(self.api.create_page_post(rv, gc));
        let out = node_result(created);
        assert(g matches Ok(b) && b.content@ == rv.storage_body);
        assert(spec_space_of(new_parent@) == Ok::<Seq<char>, Seq<char>>(rv.space_id));
        assert(rv.parent_id == spec_parent_id(new_parent@));
        assert(rv == CreatePageRequestView {
            title: match opt_name(new_name) {
                Some(n) => n,
                None => handle@->Page_0.title,
            },
            storage_body: g->Ok_0.content@,
            space_id: spec_space_of(new_parent@)->Ok_0,
            parent_id: spec_parent_id(new_parent@),
        });
        assert(spec_node_result(gc, out));
        assert(spec_page_made(self.api, rv, out));
        assert(spec_copied_under(self.api, handle@, new_parent@, opt_name(new_name), out));
        out
    }
}

} // verus!
