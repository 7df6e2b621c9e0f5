//! The shapes of the Confluence REST responses, and how each becomes a value of the
//! library. Decoding the JSON into these shapes is the host's work.
use vstd::prelude::*;

use serde_json::Value;

use crate::application::models::{
    AttachmentSummary, CommentSummary, ContentProperty, PageContentKind, PageSummary, SpaceSummary,
};
use crate::config::opt_view;
use crate::domain::CommentLocation;
use crate::text::{chars_of, parse_u64, spec_parse_u64, str_eq};

use super::{parse_comment_location, spec_next_start, spec_parse_comment_location, HttpConfluenceApi};

verus! {

/// A list of spaces.
pub struct SpacesResponse {
    pub results: Vec<SpaceV2>,
}

/// A space as the v2 API describes it.
pub struct SpaceV2 {
    pub id: String,
    pub key: String,
    pub name: String,
    pub homepage_id: Option<String>,
}

/// A page as the v2 API describes it.
#[derive(Clone)]
pub struct PageV2 {
    pub id: String,
    pub title: String,
    pub status: Option<String>,
    pub space_id: Option<String>,
    pub body: Option<PageBodyContainer>,
    pub version: Option<PageVersion>,
}

/// A page of child pages, with the link to the next page of results.
pub struct PageChildrenResponse {
    pub results: Vec<PageV2>,
    pub links: Option<V2Links>,
}

pub struct V2Links {
    pub next: Option<String>,
}

/// A version number.
#[derive(Clone, Copy)]
pub struct PageVersion {
    pub number: u32,
}

/// A page as the v1 API describes it.
#[derive(Clone)]
pub struct PageV1 {
    pub id: String,
    pub title: String,
    pub status: Option<String>,
    pub version: Option<PageVersion>,
    pub space: Option<PageSpace>,
    pub body: Option<PageBodyContainer>,
    pub ancestors: Vec<PageAncestor>,
}

#[derive(Clone)]
pub struct PageSpace {
    pub id: String,
    pub key: Option<String>,
}

#[derive(Clone)]
pub struct PageAncestor {
    pub id: String,
}

/// A page's body in the representations asked for.
#[derive(Clone)]
pub struct PageBodyContainer {
    pub storage: Option<PageBodySection>,
    pub view: Option<PageBodySection>,
    pub export_view: Option<PageBodySection>,
    pub atlas_doc_format: Option<PageBodySection>,
}

#[derive(Clone)]
pub struct PageBodySection {
    pub value: Option<String>,
}

/// Search results with the link to the next page of results.
pub struct SearchResponse {
    pub results: Vec<PageV1>,
    pub links: ResponseLinks,
}

/// The task that archives pages.
pub struct ArchiveResponse {
    pub id: String,
    pub state: Option<String>,
}

/// Links of a v1 response.
#[derive(Clone, Default)]
pub struct ResponseLinks {
    pub next: Option<String>,
    pub download: Option<String>,
}

pub struct AttachmentListResponse {
    pub results: Vec<AttachmentV1>,
    pub links: ResponseLinks,
}

/// An attachment as the v1 API describes it.
pub struct AttachmentV1 {
    pub id: String,
    pub title: String,
    pub metadata: Option<AttachmentMetadata>,
    pub extensions: Option<AttachmentExtensions>,
    pub version: Option<PageVersion>,
    pub links: ResponseLinks,
}

pub struct AttachmentMetadata {
    pub media_type: Option<String>,
}

pub struct AttachmentExtensions {
    pub file_size: Option<u64>,
}

pub struct PropertyListResponse {
    pub results: Vec<PropertyV1>,
    pub links: ResponseLinks,
}

/// A content property as the v1 API describes it.
pub struct PropertyV1 {
    pub key: String,
    pub value: Value,
    pub version: Option<PageVersion>,
}

pub struct CommentListResponse {
    pub results: Vec<CommentV1>,
    pub links: ResponseLinks,
}

/// A comment as the v1 API describes it.
pub struct CommentV1 {
    pub id: String,
    pub status: Option<String>,
    pub body: Option<PageBodyContainer>,
    pub history: Option<CommentHistory>,
    pub version: Option<PageVersion>,
    pub ancestors: Option<Vec<CommentAncestor>>,
    pub extensions: Option<CommentExtensions>,
}

pub struct CommentHistory {
    pub created_by: Option<CommentUser>,
    pub created_date: Option<String>,
}

pub struct CommentUser {
    pub display_name: Option<String>,
}

pub struct CommentAncestor {
    pub id: String,
    pub item_type: Option<String>,
}

pub struct CommentExtensions {
    pub location: Option<String>,
    pub resolution: Option<CommentResolution>,
    pub inline_properties: Option<Value>,
}

pub struct CommentResolution {
    pub status: Option<String>,
}

/// An inline comment as the v2 API describes it.
pub struct InlineCommentV2 {
    pub id: String,
    pub status: Option<String>,
    pub version: PageVersion,
    pub resolution_status: Option<String>,
    pub body: Option<InlineCommentBody>,
    pub properties: Option<InlineCommentProperties>,
}

pub struct InlineCommentBody {
    pub storage: Option<InlineCommentBodyStorage>,
}

pub struct InlineCommentBodyStorage {
    pub value: Option<String>,
}

pub struct InlineCommentProperties {
    pub inline_marker_ref: Option<String>,
    pub inline_original_selection: Option<String>,
}

/// The numeric id a response gives as text, 0 when it is not one.
pub open spec fn spec_numeric_id(id: Seq<char>) -> u64 {
    match spec_parse_u64(id) {
        Some(v) => v,
        None => 0,
    }
}

/// The numeric id written in `id`, or 0.
pub fn numeric_id(id: &str) -> (r: u64)
    ensures
        r == spec_numeric_id(id@),
{
    let chars = chars_of(id);
    match parse_u64(chars.as_slice()) {
        Some(v) => v,
        None => 0,
    }
}

/// The version number, if there is a version.
pub open spec fn spec_version_number(v: Option<PageVersion>) -> Option<u32> {
    match v {
        Some(p) => Some(p.number),
        None => None,
    }
}

/// The body section a representation name selects.
pub open spec fn spec_section(body: PageBodyContainer, format: Seq<char>) -> Option<PageBodySection> {
    if format == "storage"@ {
        body.storage
    } else if format == "view"@ {
        body.view
    } else if format == "export_view"@ {
        body.export_view
    } else if format == "atlas_doc_format"@ {
        body.atlas_doc_format
    } else {
        None
    }
}

/// The content of the body in a representation, if the response carries it.
pub open spec fn spec_body_value(body: Option<PageBodyContainer>, format: Seq<char>) -> Option<Seq<char>> {
    match body {
        Some(b) => match spec_section(b, format) {
            Some(s) => opt_view(s.value),
            None => None,
        },
        None => None,
    }
}

impl PageBodyContainer {
    /// The section of a representation, by its API name.
    pub fn section(&self, format: &str) -> (r: Option<&PageBodySection>)
        ensures
            match (r, spec_section(*self, format@)) {
                (Some(a), Some(b)) => *a == b,
                (None, None) => true,
                _ => false,
            },
    {
        if str_eq(format, "storage") {
            self.storage.as_ref()
        } else if str_eq(format, "view") {
            self.view.as_ref()
        } else if str_eq(format, "export_view") {
            self.export_view.as_ref()
        } else if str_eq(format, "atlas_doc_format") {
            self.atlas_doc_format.as_ref()
        } else {
            None
        }
    }
}

fn body_value_of(body: &Option<PageBodyContainer>, format: &str) -> (r: Option<String>)
    ensures
        opt_view(r) == spec_body_value(*body, format@),
{
    match body {
        Some(b) => match b.section(format) {
            Some(s) => match &s.value {
                Some(v) => Some(v.clone()),
                None => None,
            },
            None => None,
        },
        None => None,
    }
}

impl SpaceV2 {
    /// The space as the library describes it; the home page id when it is numeric.
    pub fn into_summary(self) -> (r: SpaceSummary)
        ensures
            r.id@ == self.id@,
            r.key@ == self.key@,
            r.name@ == self.name@,
            r.homepage_id == match self.homepage_id {
                Some(h) => spec_parse_u64(h@),
                None => None,
            },
    {
        let homepage_id = match &self.homepage_id {
            Some(h) => {
                let chars = chars_of(h.as_str());
                parse_u64(chars.as_slice())
            },
            None => None,
        };
        SpaceSummary { id: self.id, key: self.key, name: self.name, homepage_id }
    }
}

impl PageV2 {
    /// The page as the library describes it.
    pub fn into_summary(self) -> (r: PageSummary)
        ensures
            r.id == spec_numeric_id(self.id@),
            r.title@ == self.title@,
            opt_view(r.status) == opt_view(self.status),
            opt_view(r.space_id) == opt_view(self.space_id),
            r.version == spec_version_number(self.version),
            r.content_kind == PageContentKind::Page,
    {
        PageSummary {
            id: numeric_id(self.id.as_str()),
            title: self.title,
            status: self.status,
            space_id: self.space_id,
            version: match self.version {
                Some(v) => Some(v.number),
                None => None,
            },
            content_kind: PageContentKind::Page,
        }
    }

    /// The body in a representation, if the response carries it.
    pub fn body_value(&self, format: &str) -> (r: Option<String>)
        ensures
            opt_view(r) == spec_body_value(self.body, format@),
    {
        body_value_of(&self.body, format)
    }
}

impl PageV1 {
    /// The page as the library describes it; its space is named by id.
    pub fn into_summary(self) -> (r: PageSummary)
        ensures
            r.id == spec_numeric_id(self.id@),
            r.title@ == self.title@,
            opt_view(r.status) == opt_view(self.status),
            opt_view(r.space_id) == match self.space {
                Some(s) => Some(s.id@),
                None => None,
            },
            r.version == spec_version_number(self.version),
            r.content_kind == PageContentKind::Page,
    {
        PageSummary {
            id: numeric_id(self.id.as_str()),
            title: self.title,
            status: self.status,
            space_id: match self.space {
                Some(s) => Some(s.id),
                None => None,
            },
            version: match self.version {
                Some(v) => Some(v.number),
                None => None,
            },
            content_kind: PageContentKind::Page,
        }
    }

    /// The body in a representation, if the response carries it.
    pub fn body_value(&self, format: &str) -> (r: Option<String>)
        ensures
            opt_view(r) == spec_body_value(self.body, format@),
    {
        body_value_of(&self.body, format)
    }
}

/// `r` is the summary the library makes of the attachment `a`: missing media type and
/// size read as empty and 0, and the download link made absolute.
pub open spec fn spec_summarizes(api: HttpConfluenceApi, a: AttachmentV1, r: AttachmentSummary) -> bool {
    &&& r.id@ == a.id@
    &&& r.title@ == a.title@
    &&& r.media_type@ == match a.metadata {
        Some(m) => match m.media_type {
            Some(t) => t@,
            None => Seq::empty(),
        },
        None => Seq::empty(),
    }
    &&& r.file_size == match a.extensions {
        Some(e) => match e.file_size {
            Some(s) => s,
            None => 0,
        },
        None => 0,
    }
    &&& r.version == spec_version_number(a.version)
    &&& opt_view(r.download_link) == match a.links.download {
        Some(d) => Some(api.spec_absolute_url(d@)),
        None => None,
    }
}

impl AttachmentV1 {
    /// The attachment as the library describes it.
    pub fn into_summary(self, api: &HttpConfluenceApi) -> (r: AttachmentSummary)
        ensures
            spec_summarizes(*api, self, r),
    {
        let media_type = match self.metadata {
            Some(m) => match m.media_type {
                Some(t) => t,
                None => String::new(),
            },
            None => String::new(),
        };
        let file_size = match self.extensions {
            Some(e) => match e.file_size {
                Some(s) => s,
                None => 0,
            },
            None => 0,
        };
        let download_link = match &self.links.download {
            Some(path) => Some(api.absolute_url(path.as_str())),
            None => None,
        };
        AttachmentSummary {
            id: self.id,
            title: self.title,
            media_type,
            file_size,
            version: match self.version {
                Some(v) => Some(v.number),
                None => None,
            },
            download_link,
        }
    }
}

impl AttachmentListResponse {
    /// Adds the attachments of one page of a listing to `items`, in order, and gives the
    /// `start` of the next page, or `None` when this page was the last.
    pub fn collect_into(self, api: &HttpConfluenceApi, items: &mut Vec<AttachmentSummary>) -> (next: Option<u64>)
        ensures
            next == match self.links.next {
                Some(n) => spec_next_start(n@),
                None => None,
            },
            final(items)@.len() == old(items)@.len() + self.results@.len(),
            final(items)@.take(old(items)@.len() as int) == old(items)@,
            forall|j: int|
                0 <= j < self.results@.len() ==> spec_summarizes(
                    *api,
                    #[trigger] self.results@[j],
                    final(items)@[old(items)@.len() + j],
                ),
    {
        let ghost before = items@;
        let ghost all = self.results@;
        let next = api.parse_next_start(
            match &self.links.next {
                Some(n) => Some(n.as_str()),
                None => None,
            },
        );
        let total = self.results.len();
        let mut rest = self.results;
        let mut k: usize = 0;
        while rest.len() > 0
            invariant
                total == all.len(),
                k <= all.len(),
                rest@ == all.skip(k as int),
                items@.len() == before.len() + k,
                items@.take(before.len() as int) == before,
                forall|j: int| 0 <= j < k ==> spec_summarizes(*api, #[trigger] all[j], items@[before.len() + j]),
            decreases rest.len(),
        {
            let ghost prev = items@;
            assert(all.skip(k as int).len() == all.len() - k);
            let a = rest.remove(0);
            assert(a == all[k as int]);
            let s = a.into_summary(api);
            items.push(s);
            assert(items@.take(before.len() as int) == prev.take(before.len() as int));
            assert(items@[before.len() + k] == s);
            assert(rest@ == all.skip(k + 1));
            k = k + 1;
        }
        next
    }
}

impl PropertyV1 {
    /// The property as the library describes it; version 1 when none is given.
    pub fn into_property(self) -> (r: ContentProperty)
        ensures
            r.key@ == self.key@,
            r.value == self.value,
            r.version == match self.version {
                Some(v) => v.number,
                None => 1,
            },
    {
        ContentProperty {
            key: self.key,
            value: self.value,
            version: match self.version {
                Some(v) => v.number,
                None => 1,
            },
        }
    }
}

/// The id of the nearest ancestor that is a comment: the last one listed.
pub open spec fn spec_parent_comment(ancestors: Seq<CommentAncestor>) -> Option<Seq<char>>
    decreases ancestors.len(),
{
    if ancestors.len() == 0 {
        None
    } else if opt_view(ancestors.last().item_type) == Some("comment"@) {
        Some(ancestors.last().id@)
    } else {
        spec_parent_comment(ancestors.drop_last())
    }
}

fn parent_comment(ancestors: &Vec<CommentAncestor>) -> (r: Option<String>)
    ensures
        opt_view(r) == spec_parent_comment(ancestors@),
{
    let mut i = ancestors.len();
    assert(ancestors@.take(i as int) == ancestors@);
    while i > 0
        invariant
            i <= ancestors.len(),
            spec_parent_comment(ancestors@) == spec_parent_comment(ancestors@.take(i as int)),
        decreases i,
    {
        let a = &ancestors[i - 1];
        let ghost t = ancestors@.take(i as int);
        assert(t.last() == ancestors@[i - 1]);
        assert(t.drop_last() == ancestors@.take(i - 1));
        let is_comment = match &a.item_type {
            Some(t) => str_eq(t.as_str(), "comment"),
            None => false,
        };
        if is_comment {
            return Some(a.id.clone());
        }
        i = i - 1;
    }
    None
}

impl CommentV1 {
    /// The comment as the library describes it: the storage body (empty when absent),
    /// the location read from its name, the nearest comment ancestor as its parent, the
    /// author's display name, the creation date, and the resolution status.
    pub fn into_summary(self) -> (r: CommentSummary)
        ensures
            r.id@ == self.id@,
            opt_view(r.status) == opt_view(self.status),
            r.body_storage@ == match spec_body_value(self.body, "storage"@) {
                Some(v) => v,
                None => Seq::empty(),
            },
            r.location == match self.extensions {
                Some(e) => spec_parse_comment_location(opt_view(e.location)),
                None => None,
            },
            opt_view(r.parent_id) == match self.ancestors {
                Some(a) => spec_parent_comment(a@),
                None => None,
            },
            opt_view(r.author) == match self.history {
                Some(h) => match h.created_by {
                    Some(u) => opt_view(u.display_name),
                    None => None,
                },
                None => None,
            },
            opt_view(r.created_at) == match self.history {
                Some(h) => opt_view(h.created_date),
                None => None,
            },
            r.version == spec_version_number(self.version),
            opt_view(r.resolution) == match self.extensions {
                Some(e) => match e.resolution {
                    Some(res) => opt_view(res.status),
                    None => None,
                },
                None => None,
            },
            r.inline_properties == match self.extensions {
                Some(e) => e.inline_properties,
                None => None,
            },
            r.inline_marker_ref is None,
            r.inline_original_selection is None,
    {
        let body_storage = match body_value_of(&self.body, "storage") {
            Some(v) => v,
            None => String::new(),
        };
        let parent_id = match &self.ancestors {
            Some(a) => parent_comment(a),
            None => None,
        };
        let (author, created_at) = match self.history {
            Some(h) => {
                let author = match h.created_by {
                    Some(u) => u.display_name,
                    None => None,
                };
                (author, h.created_date)
            },
            None => (None, None),
        };
        let (location, resolution, inline_properties) = match self.extensions {
            Some(e) => {
                let location = match &e.location {
                    Some(l) => parse_comment_location(Some(l.as_str())),
                    None => parse_comment_location(None),
                };
                let resolution = match e.resolution {
                    Some(res) => res.status,
                    None => None,
                };
                (location, resolution, e.inline_properties)
            },
            None => (None, None, None),
        };
        CommentSummary {
            id: self.id,
            status: self.status,
            body_storage,
            location,
            parent_id,
            author,
            created_at,
            version: match self.version {
                Some(v) => Some(v.number),
                None => None,
            },
            resolution,
            inline_properties,
            inline_marker_ref: None,
            inline_original_selection: None,
        }
    }
}

impl InlineCommentV2 {
    /// The inline comment as the library describes it.
    pub fn into_summary(self) -> (r: CommentSummary)
        ensures
            r.id@ == self.id@,
            opt_view(r.status) == opt_view(self.status),
            r.body_storage@ == match self.body {
                Some(b) => match b.storage {
                    Some(s) => match s.value {
                        Some(v) => v@,
                        None => Seq::empty(),
                    },
                    None => Seq::empty(),
                },
                None => Seq::empty(),
            },
            r.location == Some(CommentLocation::Inline),
            r.parent_id is None,
            r.author is None,
            r.created_at is None,
            r.version == Some(self.version.number),
            opt_view(r.resolution) == opt_view(self.resolution_status),
            r.inline_properties is None,
            opt_view(r.inline_marker_ref) == match self.properties {
                Some(p) => opt_view(p.inline_marker_ref),
                None => None,
            },
            opt_view(r.inline_original_selection) == match self.properties {
                Some(p) => opt_view(p.inline_original_selection),
                None => None,
            },
    {
        let body_storage = match self.body {
            Some(b) => match b.storage {
                Some(s) => match s.value {
                    Some(v) => v,
                    None => String::new(),
                },
                None => String::new(),
            },
            None => String::new(),
        };
        let (marker, selection) = match self.properties {
            Some(p) => (p.inline_marker_ref, p.inline_original_selection),
            None => (None, None),
        };
        CommentSummary {
            id: self.id,
            status: self.status,
            body_storage,
            location: Some(CommentLocation::Inline),
            parent_id: None,
            author: None,
            created_at: None,
            version: Some(self.version.number),
            resolution: self.resolution_status,
            inline_properties: None,
            inline_marker_ref: marker,
            inline_original_selection: selection,
        }
    }
}

} // verus!
