//! The values exchanged with the Confluence API.
use vstd::prelude::*;

use serde_json::Value;

use crate::domain::{BodyFormat, CommentLocation, MoveTarget, MoveTargetView, PageId, PageRef, PageRefView};

verus! {

#[verifier::external_type_specification]
#[verifier::external_body]
pub struct ExJsonValue(Value);

/// `serde_json::Value::clone`, used by the derived `Clone` impls. Nothing is claimed of
/// the copy.
pub assume_specification[ <Value as Clone>::clone ](v: &Value) -> Value;

/// A space as listed by the API.
#[derive(Debug, Clone, PartialEq, Eq)]
pub struct SpaceSummary {
    pub id: String,
    pub key: String,
    pub name: String,
    pub homepage_id: Option<u64>,
}

/// Whether a content item is a page or a folder.
#[derive(Debug, Clone, Copy, PartialEq, Eq, Structural)]
pub enum PageContentKind {
    Page,
    Folder,
}

impl Default for PageContentKind {
    /// The kind assumed when none is given: a page.
    fn default() -> (r: Self)
        ensures
            r == PageContentKind::Page,
    {
        PageContentKind::Page
    }
}

/// A page's metadata.
#[derive(Debug, Clone, PartialEq, Eq)]
pub struct PageSummary {
    pub id: u64,
    pub title: String,
    pub status: Option<String>,
    pub space_id: Option<String>,
    pub version: Option<u32>,
    pub content_kind: PageContentKind,
}

/// A page's body in one representation.
#[derive(Debug, Clone, PartialEq, Eq)]
pub struct PageBody {
    pub page: PageSummary,
    pub format: BodyFormat,
    pub content: String,
}

/// The task that archives a page.
#[derive(Debug, Clone, PartialEq, Eq)]
pub struct ArchiveResult {
    pub task_id: String,
    pub state: Option<String>,
}

/// A request to create a page.
#[derive(Debug, Clone, PartialEq, Eq)]
pub struct CreatePageRequest {
    pub title: String,
    pub storage_body: String,
    pub space_id: String,
    pub parent_id: Option<PageId>,
}

pub struct CreatePageRequestView {
    pub title: Seq<char>,
    pub storage_body: Seq<char>,
    pub space_id: Seq<char>,
    pub parent_id: Option<u64>,
}

impl View for CreatePageRequest {
    type V = CreatePageRequestView;

    open spec fn view(&self) -> CreatePageRequestView {
        CreatePageRequestView {
            title: self.title@,
            storage_body: self.storage_body@,
            space_id: self.space_id@,
            parent_id: match self.parent_id {
                Some(p) => Some(p@),
                None => None,
            },
        }
    }
}

/// A request to create a folder.
#[derive(Debug, Clone, PartialEq, Eq)]
pub struct CreateFolderRequest {
    pub title: String,
    pub space_id: String,
    pub parent_id: Option<PageId>,
}

pub struct CreateFolderRequestView {
    pub title: Seq<char>,
    pub space_id: Seq<char>,
    pub parent_id: Option<u64>,
}

impl View for CreateFolderRequest {
    type V = CreateFolderRequestView;

    open spec fn view(&self) -> CreateFolderRequestView {
        CreateFolderRequestView {
            title: self.title@,
            space_id: self.space_id@,
            parent_id: match self.parent_id {
                Some(p) => Some(p@),
                None => None,
            },
        }
    }
}

/// A request to replace a page's title and body.
#[derive(Debug, Clone, PartialEq, Eq)]
pub struct UpdatePageRequest {
    pub page: PageRef,
    pub title: String,
    pub storage_body: String,
    pub version: u32,
}

pub struct UpdatePageRequestView {
    pub page: PageRefView,
    pub title: Seq<char>,
    pub storage_body: Seq<char>,
    pub version: u32,
}

impl View for UpdatePageRequest {
    type V = UpdatePageRequestView;

    open spec fn view(&self) -> UpdatePageRequestView {
        UpdatePageRequestView {
            page: self.page@,
            title: self.title@,
            storage_body: self.storage_body@,
            version: self.version,
        }
    }
}

/// A request to move a page.
#[derive(Debug, Clone, PartialEq, Eq)]
pub struct MovePageRequest {
    pub page: PageRef,
    pub target: MoveTarget,
    pub title: Option<String>,
}

pub struct MovePageRequestView {
    pub page: PageRefView,
    pub target: MoveTargetView,
    pub title: Option<Seq<char>>,
}

impl View for MovePageRequest {
    type V = MovePageRequestView;

    open spec fn view(&self) -> MovePageRequestView {
        MovePageRequestView {
            page: self.page@,
            target: self.target@,
            title: match &self.title {
                Some(t) => Some(t@),
                None => None,
            },
        }
    }
}

/// An attachment's metadata.
#[derive(Debug, Clone, PartialEq, Eq)]
pub struct AttachmentSummary {
    pub id: String,
    pub title: String,
    pub media_type: String,
    pub file_size: u64,
    pub version: Option<u32>,
    pub download_link: Option<String>,
}

/// A request to upload a file as an attachment.
#[derive(Debug, Clone, PartialEq, Eq)]
pub struct AttachmentUploadRequest {
    pub page: PageRef,
    pub file_name: String,
    pub content: Vec<u8>,
    pub comment: Option<String>,
    pub minor_edit: bool,
    pub replace: bool,
}

/// A content property: a key and its JSON value.
#[derive(Debug, Clone, PartialEq)]
pub struct ContentProperty {
    pub key: String,
    pub value: Value,
    pub version: u32,
}

/// A comment's metadata and body.
#[derive(Debug, Clone, PartialEq, Eq)]
pub struct CommentSummary {
    pub id: String,
    pub status: Option<String>,
    pub body_storage: String,
    pub location: Option<CommentLocation>,
    pub parent_id: Option<String>,
    pub author: Option<String>,
    pub created_at: Option<String>,
    pub version: Option<u32>,
    pub resolution: Option<String>,
    pub inline_properties: Option<Value>,
    pub inline_marker_ref: Option<String>,
    pub inline_original_selection: Option<String>,
}

/// A request to create a comment or a reply.
#[derive(Debug, Clone, PartialEq)]
pub struct CommentCreateRequest {
    pub page: PageRef,
    pub body_storage: String,
    pub parent_id: Option<String>,
    pub location: CommentLocation,
    pub inline_properties: Option<Value>,
}

pub struct CommentCreateRequestView {
    pub page: PageRefView,
    pub body_storage: Seq<char>,
    pub parent_id: Option<Seq<char>>,
    pub location: CommentLocation,
    pub inline_properties: Option<Value>,
}

impl View for CommentCreateRequest {
    type V = CommentCreateRequestView;

    open spec fn view(&self) -> CommentCreateRequestView {
        CommentCreateRequestView {
            page: self.page@,
            body_storage: self.body_storage@,
            parent_id: match &self.parent_id {
                Some(p) => Some(p@),
                None => None,
            },
            location: self.location,
            inline_properties: self.inline_properties,
        }
    }
}

} // verus!
