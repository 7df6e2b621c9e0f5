//! Page operations: validation of the request, then the API call.
use vstd::prelude::*;

use crate::convert::{
    apply_unified_patch, build_bundle_metadata, convert_text, spec_convert_outcome, spec_patch_outcome,
    spec_stable_hash, ManagedBundleMetadata,
};
use crate::domain::{BodyFormat, DeleteMode, MoveTarget, PageId, PageRef, PageRefView};
use crate::error::{ConfluenceCliError, Result, is_config_error};
use crate::text::{copy_str, push_str, spec_is_blank, str_is_blank, chars_of};

use super::models::{
    ArchiveResult, CreatePageRequest, CreatePageRequestView, MovePageRequest, PageBody,
    PageSummary, SpaceSummary, UpdatePageRequest, UpdatePageRequestView, MovePageRequestView,
};
use super::ports::{AttachmentsApi, PagesApi};

verus! {

/// Where an exported page was written.
#[derive(Debug, Clone, PartialEq, Eq)]
pub struct PageExportResult {
    pub directory: String,
    pub content_path: String,
    pub attachment_count: usize,
}

/// What an export writes: the content file's name and text, and the bundle metadata.
#[derive(Debug, Clone, PartialEq, Eq)]
pub struct PageExportContent {
    pub file_name: String,
    pub content: String,
    pub metadata: ManagedBundleMetadata,
}

/// The spaces.
pub fn list_spaces<A: PagesApi>(api: &A) -> (r: Result<Vec<SpaceSummary>>)
    ensures
        api.list_spaces_post(r),
{
    api.list_spaces()
}

/// A page's metadata.
pub fn page_info<A: PagesApi>(api: &A, page: &PageRef) -> (r: Result<PageSummary>)
    ensures
        api.get_page_info_post(page@, r),
{
    api.get_page_info(page)
}

/// A page's children.
pub fn page_children<A: PagesApi>(api: &A, page: &PageRef) -> (r: Result<Vec<PageSummary>>)
    ensures
        api.list_child_pages_post(page@, r),
{
    api.list_child_pages(page)
}

/// A page's body in the given representation.
pub fn page_read<A: PagesApi>(api: &A, page: &PageRef, format: BodyFormat) -> (r: Result<PageBody>)
    ensures
        api.read_page_post(page@, format, r),
{
    api.read_page(page, format)
}

/// Searches pages by text; a blank query is refused.
pub fn page_search<A: PagesApi>(api: &A, query: &str) -> (r: Result<Vec<PageSummary>>)
    ensures
        spec_is_blank(query@) ==> is_config_error(r, "search query must not be empty"@),
        !spec_is_blank(query@) ==> api.search_pages_post(query@, r),
{
    if str_is_blank(query) {
        return Err(ConfluenceCliError::Config(copy_str("search query must not be empty")));
    }
    api.search_pages(query)
}

/// Searches pages with a CQL query; a blank query is refused.
pub fn page_search_cql<A: PagesApi>(api: &A, query: &str) -> (r: Result<Vec<PageSummary>>)
    ensures
        spec_is_blank(query@) ==> is_config_error(r, "search query must not be empty"@),
        !spec_is_blank(query@) ==> api.search_pages_cql_post(query@, r),
{
    if str_is_blank(query) {
        return Err(ConfluenceCliError::Config(copy_str("search query must not be empty")));
    }
    api.search_pages_cql(query)
}

/// Archives a page.
pub fn page_archive<A: PagesApi>(api: &A, page: &PageRef) -> (r: Result<ArchiveResult>)
    ensures
        api.archive_page_post(page@, r),
{
    api.archive_page(page)
}

/// Deletes a page; purging needs explicit confirmation.
pub fn page_delete<A: PagesApi>(api: &A, page: &PageRef, mode: DeleteMode, yes_im_sure: bool) -> (r: Result<()>)
    ensures
        mode == DeleteMode::Purge && !yes_im_sure ==> is_config_error(r, "purge requires --yes-im-sure"@),
        !(mode == DeleteMode::Purge && !yes_im_sure) ==> api.delete_page_post(page@, mode, r),
{
    if mode == DeleteMode::Purge && !yes_im_sure {
        return Err(ConfluenceCliError::Config(copy_str("purge requires --yes-im-sure")));
    }
    api.delete_page(page, mode)
}

/// Replaces a page's title and storage body; both must be non-blank.
pub fn page_update<A: PagesApi>(
    api: &A,
    page: &PageRef,
    title: String,
    storage_body: String,
    version: u32,
) -> (r: Result<PageSummary>)
    ensures
        spec_is_blank(title@) ==> is_config_error(r, "page update requires a non-empty title"@),
        !spec_is_blank(title@) && spec_is_blank(storage_body@) ==> is_config_error(
            r,
            "page update requires a non-empty storage body"@,
        ),
        !spec_is_blank(title@) && !spec_is_blank(storage_body@) ==> api.update_page_post(
            UpdatePageRequestView {
                page: page@,
                title: title@,
                storage_body: storage_body@,
                version,
            },
            r,
        ),
{
    if str_is_blank(title.as_str()) {
        return Err(ConfluenceCliError::Config(copy_str("page update requires a non-empty title")));
    }
    if str_is_blank(storage_body.as_str()) {
        return Err(
            ConfluenceCliError::Config(copy_str("page update requires a non-empty storage body")),
        );
    }
    let request = UpdatePageRequest { page: page.duplicate(), title, storage_body, version };
    api.update_page(request)
}

/// Whether two strings are equal ignoring ASCII case.
pub open spec fn spec_eq_ignore_ascii_case(a: Seq<char>, b: Seq<char>) -> bool {
    a.len() == b.len() && forall|i: int| 0 <= i < a.len() ==> spec_ascii_lower(#[trigger] a[i])
        == spec_ascii_lower(b[i])
}

/// The code point of `c` lowered to ASCII lower case.
pub open spec fn spec_ascii_lower(c: char) -> u32 {
    if 'A' <= c && c <= 'Z' {
        (c as u32 + 32) as u32
    } else {
        c as u32
    }
}

fn ascii_lower(c: char) -> (r: u32)
    ensures
        r == spec_ascii_lower(c),
{
    if 'A' <= c && c <= 'Z' {
        c as u32 + 32
    } else {
        c as u32
    }
}

/// `a.eq_ignore_ascii_case(b)`.
pub fn eq_ignore_ascii_case(a: &str, b: &str) -> (r: bool)
    ensures
        r == spec_eq_ignore_ascii_case(a@, b@),
{
    let x = chars_of(a);
    let y = chars_of(b);
    if x.len() != y.len() {
        return false;
    }
    let mut i: usize = 0;
    while i < x.len()
        invariant
            x@ == a@,
            y@ == b@,
            x.len() == y.len(),
            i <= x.len(),
            forall|j: int| 0 <= j < i ==> spec_ascii_lower(#[trigger] x@[j]) == spec_ascii_lower(y@[j]),
        decreases x.len() - i,
    {
        if ascii_lower(x[i]) != ascii_lower(y[i]) {
            return false;
        }
        i = i + 1;
    }
    true
}

/// Whether the space at position `i` is the first whose key matches `key`, ignoring
/// ASCII case.
pub open spec fn spec_first_key_match(spaces: Seq<SpaceSummary>, key: Seq<char>, i: int) -> bool {
    &&& 0 <= i < spaces.len()
    &&& spec_eq_ignore_ascii_case(spaces[i].key@, key)
    &&& forall|j: int| 0 <= j < i ==> !spec_eq_ignore_ascii_case(#[trigger] spaces[j].key@, key)
}

/// The id of the first space whose key matches `key`, ignoring ASCII case.
fn find_space_id(spaces: &Vec<SpaceSummary>, key: &str) -> (r: Option<String>)
    ensures
        match r {
            Some(id) => exists|i: int| #[trigger] spec_first_key_match(spaces@, key@, i) && id@ == spaces@[i].id@,
            None => forall|i: int|
                0 <= i < spaces@.len() ==> !spec_eq_ignore_ascii_case(#[trigger] spaces@[i].key@, key@),
        },
{
    let mut i: usize = 0;
    while i < spaces.len()
        invariant
            i <= spaces.len(),
            forall|j: int| 0 <= j < i ==> !spec_eq_ignore_ascii_case(#[trigger] spaces@[j].key@, key@),
        decreases spaces.len() - i,
    {
        if eq_ignore_ascii_case(spaces[i].key.as_str(), key) {
            assert(spec_first_key_match(spaces@, key@, i as int));
            return Some(spaces[i].id.clone());
        }
        i = i + 1;
    }
    None
}

/// The request a page is created with.
pub open spec fn spec_create_request(
    title: Seq<char>,
    body: Seq<char>,
    space_id: Seq<char>,
    parent_id: Option<u64>,
) -> CreatePageRequestView {
    CreatePageRequestView { title, storage_body: body, space_id, parent_id }
}

/// Creating a page in the space of the parent page, read from the service.
pub open spec fn spec_create_in_parent_space<A: PagesApi>(
    api: A,
    title: Seq<char>,
    body: Seq<char>,
    parent: PageRefView,
    parent_id: Option<u64>,
    r: Result<PageSummary>,
) -> bool {
    exists|info: Result<PageSummary>|
        #[trigger] api.get_page_info_post(parent, info) && match info {
            Err(e) => r == Err::<PageSummary, ConfluenceCliError>(e),
            Ok(p) => match p.space_id {
                None => is_config_error(r, "parent page did not expose a space id"@),
                Some(sid) => api.create_page_post(spec_create_request(title, body, sid@, parent_id), r),
            },
        }
}

/// Creating a page in the first space whose key matches, read from the service.
pub open spec fn spec_create_in_keyed_space<A: PagesApi>(
    api: A,
    title: Seq<char>,
    body: Seq<char>,
    key: Seq<char>,
    parent_id: Option<u64>,
    r: Result<PageSummary>,
) -> bool {
    exists|listed: Result<Vec<SpaceSummary>>|
        #[trigger] api.list_spaces_post(listed) && match listed {
            Err(e) => r == Err::<PageSummary, ConfluenceCliError>(e),
            Ok(spaces) => if exists|i: int| #[trigger] spec_first_key_match(spaces@, key, i) {
                exists|i: int|
                    #[trigger] spec_first_key_match(spaces@, key, i) && api.create_page_post(
                        spec_create_request(title, body, spaces@[i].id@, parent_id),
                        r,
                    )
            } else {
                is_config_error(r, "space key '"@ + key + "' not found"@)
            },
        }
}

/// Creating a page once the parent's id is known: in the space given by id, else by
/// key, else in the parent's space.
pub open spec fn spec_create_with_parent_id<A: PagesApi>(
    api: A,
    title: Seq<char>,
    body: Seq<char>,
    space_id: Option<Seq<char>>,
    space_key: Option<Seq<char>>,
    parent: Option<PageRefView>,
    parent_id: Option<u64>,
    r: Result<PageSummary>,
) -> bool {
    match space_id {
        Some(s) => api.create_page_post(spec_create_request(title, body, s, parent_id), r),
        None => match space_key {
            Some(k) => spec_create_in_keyed_space(api, title, body, k, parent_id, r),
            None => match parent {
                None => is_config_error(r, "page create requires either --space-id, --space-key, or --parent"@),
                Some(p) => spec_create_in_parent_space(api, title, body, p, parent_id, r),
            },
        },
    }
}

/// What creating a page gives: the checks on title, body and space options, then the
/// parent's id (read from the service for a parent given by URL), then the space.
pub open spec fn spec_page_create<A: PagesApi>(
    api: A,
    title: Seq<char>,
    body: Seq<char>,
    space_id: Option<Seq<char>>,
    space_key: Option<Seq<char>>,
    parent: Option<PageRefView>,
    r: Result<PageSummary>,
) -> bool {
    if spec_is_blank(title) {
        is_config_error(r, "page create requires a non-empty title"@)
    } else if spec_is_blank(body) {
        is_config_error(r, "page create requires a non-empty storage body"@)
    } else if space_id is Some && space_key is Some {
        is_config_error(r, "page create accepts either space id or space key, not both"@)
    } else {
        match parent {
            None => spec_create_with_parent_id(api, title, body, space_id, space_key, parent, None, r),
            Some(PageRefView::Id(p)) => spec_create_with_parent_id(api, title, body, space_id, space_key, parent, Some(p), r),
            Some(PageRefView::Url(u)) => exists|info: Result<PageSummary>|
                #[trigger] api.get_page_info_post(PageRefView::Url(u), info) && match info {
                    Err(e) => r == Err::<PageSummary, ConfluenceCliError>(e),
                    Ok(p) => spec_create_with_parent_id(api, title, body, space_id, space_key, parent, Some(p.id), r),
                },
        }
    }
}

/// The view of an optional string.
pub open spec fn opt_str(o: Option<String>) -> Option<Seq<char>> {
    match o {
        Some(s) => Some(s@),
        None => None,
    }
}

/// The view of an optional page reference.
pub open spec fn opt_ref(o: Option<PageRef>) -> Option<PageRefView> {
    match o {
        Some(p) => Some(p@),
        None => None,
    }
}

/// Creates the page once its parent's id is known.
fn create_with_parent_id<A: PagesApi>(
    api: &A,
    title: String,
    storage_body: String,
    space_id: Option<String>,
    space_key: Option<String>,
    parent: &Option<PageRef>,
    parent_id: Option<PageId>,
) -> (r: Result<PageSummary>)
    ensures
        spec_create_with_parent_id(
            *api,
            title@,
            storage_body@,
            opt_str(space_id),
            opt_str(space_key),
            opt_ref(*parent),
            match parent_id {
                Some(p) => Some(p@),
                None => None,
            },
            r,
        ),
{
    let ghost pid = match parent_id {
        Some(p) => Some(p@),
        None => None,
    };
    let ghost (t, b) = (title@, storage_body@);
    let resolved_space_id: String = match space_id {
        Some(id) => id,
        None => match space_key {
            Some(key) => {
                let listed = api.list_spaces();
                let ghost gl = listed;
                assert(api.list_spaces_post(gl));
                let spaces = match listed {
                    Ok(s) => s,
                    Err(e) => return Err(e),
                };
                match find_space_id(&spaces, key.as_str()) {
                    Some(id) => {
                        let request = CreatePageRequest { title, storage_body, space_id: id, parent_id };
                        let ghost rv = request@;
                        let r = api.create_page(request);
                        assert(api.create_page_post(rv, r));
                        assert(spec_create_in_keyed_space(*api, t, b, key@, pid, r));
                        return r;
                    },
                    None => {
                        let mut m = copy_str("space key '");
                        push_str(&mut m, key.as_str());
                        push_str(&mut m, "' not found");
                        assert(spec_create_in_keyed_space(*api, t, b, key@, pid, Err(ConfluenceCliError::Config(m))));
                        return Err(ConfluenceCliError::Config(m));
                    },
                }
            },
            None => match parent {
                Some(p) => {
                    let info = api.get_page_info(p);
                    let ghost gi = info;
                    assert(api.get_page_info_post(p@, gi));
                    match info {
                        Ok(info) => match info.space_id {
                            Some(id) => id,
                            None => {
                                return Err(ConfluenceCliError::Config(copy_str("parent page did not expose a space id")));
                            },
                        },
                        Err(e) => return Err(e),
                    }
                },
                None => {
                    return Err(
                        ConfluenceCliError::Config(
                            copy_str("page create requires either --space-id, --space-key, or --parent"),
                        ),
                    );
                },
            },
        },
    };
    let request = CreatePageRequest { title, storage_body, space_id: resolved_space_id, parent_id };
    let ghost rv = request@;
    let r = api.create_page(request);
    assert(api.create_page_post(rv, r));
    r
}

/// Creates a page in a space given by id or key, or under a parent page, whose space is
/// then used. Title and body must be non-blank, and at most one of space id and key
/// may be given.
pub fn page_create<A: PagesApi>(
    api: &A,
    title: String,
    storage_body: String,
    space_id: Option<String>,
    space_key: Option<String>,
    parent: Option<PageRef>,
) -> (r: Result<PageSummary>)
    ensures
        spec_page_create(*api, title@, storage_body@, opt_str(space_id), opt_str(space_key), opt_ref(parent), r),
{
    if str_is_blank(title.as_str()) {
        return Err(ConfluenceCliError::Config(copy_str("page create requires a non-empty title")));
    }
    if str_is_blank(storage_body.as_str()) {
        return Err(
            ConfluenceCliError::Config(copy_str("page create requires a non-empty storage body")),
        );
    }
    if space_id.is_some() && space_key.is_some() {
        return Err(
            ConfluenceCliError::Config(
                copy_str("page create accepts either space id or space key, not both"),
            ),
        );
    }
    match &parent {
        Some(PageRef::Id(page_id)) => {
            let pid = *page_id;
            create_with_parent_id(api, title, storage_body, space_id, space_key, &parent, Some(pid))
        },
        Some(p) => {
            let ghost (t, b, si, sk, pv) = (title@, storage_body@, opt_str(space_id), opt_str(space_key), opt_ref(parent));
            let info = api.get_page_info(p);
            let ghost gi = info;
            assert(api.get_page_info_post(p@, gi));
            let r = match info {
                Ok(info) => create_with_parent_id(
                    api,
                    title,
                    storage_body,
                    space_id,
                    space_key,
                    &parent,
                    Some(PageId::new(info.id)),
                ),
                Err(e) => Err(e),
            };
            assert(p@ matches PageRefView::Url(u) && api.get_page_info_post(PageRefView::Url(u), gi) && match gi {
                Err(e) => r == Err::<PageSummary, ConfluenceCliError>(e),
                Ok(q) => spec_create_with_parent_id(*api, t, b, si, sk, pv, Some(q.id), r),
            });
            r
        },
        None => create_with_parent_id(api, title, storage_body, space_id, space_key, &parent, None),
    }
}

/// Patching a page whose current storage body was read as `current`.
pub open spec fn spec_patch_current<A: PagesApi>(
    api: A,
    page: PageRefView,
    base: Seq<char>,
    patch: Seq<char>,
    current: PageBody,
    r: Result<PageSummary>,
) -> bool {
    if current.content@ != base {
        is_config_error(r, "page patch base file does not match the current remote storage body"@)
    } else {
        match current.page.version {
            None => is_config_error(r, "page patch requires a current version"@),
            Some(v) => if v == u32::MAX {
                is_config_error(r, "page version cannot be incremented"@)
            } else {
                exists|u: Result<String>|
                    #[trigger] spec_patch_outcome(base, patch, u) && match u {
                        Err(e) => r == Err::<PageSummary, ConfluenceCliError>(e),
                        Ok(b) => api.update_page_post(
                            UpdatePageRequestView {
                                page,
                                title: current.page.title@,
                                storage_body: b@,
                                version: (v + 1) as u32,
                            },
                            r,
                        ),
                    }
            },
        }
    }
}

/// What patching a page gives: the current storage body is read, and the page is updated
/// only when `base` is exactly that body.
pub open spec fn spec_page_patch<A: PagesApi>(
    api: A,
    page: PageRefView,
    base: Seq<char>,
    patch: Seq<char>,
    r: Result<PageSummary>,
) -> bool {
    exists|cur: Result<PageBody>|
        #[trigger] api.read_page_post(page, BodyFormat::Storage, cur) && match cur {
            Err(e) => r == Err::<PageSummary, ConfluenceCliError>(e),
            Ok(c) => spec_patch_current(api, page, base, patch, c, r),
        }
}

/// Applies a unified diff to a page, but only when `base` is exactly the page's current
/// storage body; the update carries the next version number.
pub fn page_patch<A: PagesApi>(api: &A, page: &PageRef, base: &str, patch: &str) -> (r: Result<PageSummary>)
    ensures
        spec_page_patch(*api, page@, base@, patch@, r),
{
    let cur = api.read_page(page, BodyFormat::Storage);
    let ghost gcur = cur;
    assert(api.read_page_post(page@, BodyFormat::Storage, gcur));
    let current = match cur {
        Ok(c) => c,
        Err(e) => return Err(e),
    };
    let ghost cur = current;
    if !crate::text::str_eq(current.content.as_str(), base) {
        return Err(
            ConfluenceCliError::Config(
                copy_str("page patch base file does not match the current remote storage body"),
            ),
        );
    }
    let version = match current.page.version {
        Some(v) => v,
        None => {
            return Err(ConfluenceCliError::Config(copy_str("page patch requires a current version")));
        },
    };
    if version == u32::MAX {
        return Err(ConfluenceCliError::Config(copy_str("page version cannot be incremented")));
    }
    let u = apply_unified_patch(base, patch);
    let ghost gu = u;
    assert(spec_patch_outcome(base@, patch@, gu));
    let updated_body = match u {
        Ok(b) => b,
        Err(e) => return Err(e),
    };
    let request = UpdatePageRequest {
        page: page.duplicate(),
        title: current.page.title,
        storage_body: updated_body,
        version: version + 1,
    };
    let ghost rv = request@;
    let r = api.update_page(request);
    assert(api.update_page_post(rv, r));
    r
}

/// Moves a page as the target says, optionally renaming it.
pub fn page_move<A: PagesApi>(api: &A, page: &PageRef, target: MoveTarget, title: Option<String>) -> (r: Result<PageSummary>)
    ensures
        api.move_page_post(
            MovePageRequestView {
                page: page@,
                target: target@,
                title: match title {
                    Some(t) => Some(t@),
                    None => None,
                },
            },
            r,
        ),
{
    api.move_page(MovePageRequest { page: page.duplicate(), target, title })
}

/// The export holds the given file, with the metadata of the page's summary and storage
/// body.
pub open spec fn spec_export_holds(
    c: PageExportContent,
    file_name: Seq<char>,
    content: Seq<char>,
    summary: PageSummary,
    storage: PageBody,
) -> bool {
    &&& c.file_name@ == file_name
    &&& c.content@ == content
    &&& c.metadata.page_id == Some(summary.id)
    &&& c.metadata.title matches Some(t) && t@ == summary.title@
    &&& c.metadata.version == summary.version
    &&& c.metadata.body_hash@ == spec_stable_hash(storage.content@)
}

/// An export whose content is the outcome of a conversion.
pub open spec fn spec_export_converted(
    converted: Result<String>,
    file_name: Seq<char>,
    summary: PageSummary,
    storage: PageBody,
    r: Result<PageExportContent>,
) -> bool {
    match converted {
        Err(e) => r == Err::<PageExportContent, ConfluenceCliError>(e),
        Ok(t) => r matches Ok(c) && spec_export_holds(c, file_name, t@, summary, storage),
    }
}

/// The export once the page's summary and storage body are read: markdown and text
/// converted from storage, storage as it is, html read as the server renders it.
pub open spec fn spec_export_content<A: PagesApi>(
    api: A,
    page: PageRefView,
    format: BodyFormat,
    summary: PageSummary,
    storage: PageBody,
    r: Result<PageExportContent>,
) -> bool {
    match format {
        BodyFormat::Markdown => exists|c: Result<String>|
            #[trigger] spec_convert_outcome(storage.content@, BodyFormat::Storage, BodyFormat::Markdown, c)
                && spec_export_converted(c, "page.md"@, summary, storage, r),
        BodyFormat::Text => exists|c: Result<String>|
            #[trigger] spec_convert_outcome(storage.content@, BodyFormat::Storage, BodyFormat::Text, c)
                && spec_export_converted(c, "page.txt"@, summary, storage, r),
        BodyFormat::Storage => r matches Ok(c) && spec_export_holds(c, "page.storage"@, storage.content@, summary, storage),
        BodyFormat::Html => exists|h: Result<PageBody>|
            #[trigger] api.read_page_post(page, BodyFormat::Html, h) && match h {
                Err(e) => r == Err::<PageExportContent, ConfluenceCliError>(e),
                Ok(b) => r matches Ok(c) && spec_export_holds(c, "page.html"@, b.content@, summary, storage),
            },
    }
}

/// The export once the page's summary is read.
pub open spec fn spec_export_after_summary<A: PagesApi>(
    api: A,
    page: PageRefView,
    format: BodyFormat,
    summary: PageSummary,
    r: Result<PageExportContent>,
) -> bool {
    exists|st: Result<PageBody>|
        #[trigger] api.read_page_post(page, BodyFormat::Storage, st) && match st {
            Err(e) => r == Err::<PageExportContent, ConfluenceCliError>(e),
            Ok(storage) => spec_export_content(api, page, format, summary, storage, r),
        }
}

/// What exporting a page gives: its summary and storage body are read, then the content
/// file for the format is made.
pub open spec fn spec_page_export<A: PagesApi>(api: A, page: PageRefView, format: BodyFormat, r: Result<PageExportContent>) -> bool {
    exists|info: Result<PageSummary>|
        #[trigger] api.get_page_info_post(page, info) && match info {
            Err(e) => r == Err::<PageExportContent, ConfluenceCliError>(e),
            Ok(summary) => spec_export_after_summary(api, page, format, summary, r),
        }
}

/// The content file an export writes for a format, and the storage body's metadata:
/// markdown and text are converted from storage, html is read as rendered by the server.
pub fn page_export<A: PagesApi + AttachmentsApi>(api: &A, page: &PageRef, format: BodyFormat) -> (r: Result<PageExportContent>)
    ensures
        spec_page_export(*api, page@, format, r),
{
    let info = api.get_page_info(page);
    let ghost gi = info;
    assert(api.get_page_info_post(page@, gi));
    let summary = match info {
        Ok(s) => s,
        Err(e) => return Err(e),
    };
    let st = api.read_page(page, BodyFormat::Storage);
    let ghost gst = st;
    assert(api.read_page_post(page@, BodyFormat::Storage, gst));
    let storage = match st {
        Ok(s) => s,
        Err(e) => {
            assert(spec_export_after_summary(*api, page@, format, summary, Err::<PageExportContent, ConfluenceCliError>(e)));
            return Err(e);
        },
    };
    let metadata = build_bundle_metadata(
        Some(summary.id),
        Some(summary.title.clone()),
        summary.version,
        storage.content.as_str(),
    );
    let r = match format {
        BodyFormat::Markdown => {
            let c = convert_text(storage.content.as_str(), BodyFormat::Storage, BodyFormat::Markdown);
            assert(spec_convert_outcome(storage.content@, BodyFormat::Storage, BodyFormat::Markdown, c));
            match c {
                Ok(content) => Ok(PageExportContent { file_name: copy_str("page.md"), content, metadata }),
                Err(e) => Err(e),
            }
        },
        BodyFormat::Storage => Ok(
            PageExportContent { file_name: copy_str("page.storage"), content: storage.content.clone(), metadata },
        ),
        BodyFormat::Text => {
            let c = convert_text(storage.content.as_str(), BodyFormat::Storage, BodyFormat::Text);
            assert(spec_convert_outcome(storage.content@, BodyFormat::Storage, BodyFormat::Text, c));
            match c {
                Ok(content) => Ok(PageExportContent { file_name: copy_str("page.txt"), content, metadata }),
                Err(e) => Err(e),
            }
        },
        BodyFormat::Html => {
            let h = api.read_page(page, BodyFormat::Html);
            let ghost gh = h;
            assert(api.read_page_post(page@, BodyFormat::Html, gh));
            match h {
                Ok(b) => Ok(PageExportContent { file_name: copy_str("page.html"), content: b.content, metadata }),
                Err(e) => Err(e),
            }
        },
    };
    assert(spec_export_content(*api, page@, format, summary, storage, r));
    assert(spec_export_after_summary(*api, page@, format, summary, r));
    r
}

} // verus!
