//! The services the command logic relies on: the Confluence API and the profile store.
//!
//! Each operation's outcome depends on the remote service or the disk, so each is
//! described by a relation between its inputs and its result that the implementation
//! defines (one that does not define it claims nothing of the outcome); the command
//! logic states what it hands to these operations.
use vstd::prelude::*;

use serde_json::Value;

use crate::domain::{BodyFormat, CommentLocation, DeleteMode, PageRef, PageRefView};
use crate::error::Result;

use super::models::{
    ArchiveResult, AttachmentSummary, AttachmentUploadRequest, CommentCreateRequest,
    CommentCreateRequestView, CommentSummary, ContentProperty, CreateFolderRequest,
    CreateFolderRequestView, CreatePageRequest, CreatePageRequestView, MovePageRequest, MovePageRequestView, PageBody,
    PageContentKind, PageSummary, SpaceSummary, UpdatePageRequest, UpdatePageRequestView,
};
use super::profiles::{ProfileDraft, ProfileSecrets};
use super::runtime::RuntimeConfig;

verus! {

/// Reading and changing pages.
pub trait PagesApi {
    closed spec fn list_spaces_post(&self, r: Result<Vec<SpaceSummary>>) -> bool {
        true
    }

    closed spec fn create_page_post(&self, request: CreatePageRequestView, r: Result<PageSummary>) -> bool {
        true
    }

    closed spec fn get_page_info_post(&self, page: PageRefView, r: Result<PageSummary>) -> bool {
        true
    }

    closed spec fn list_child_pages_post(&self, page: PageRefView, r: Result<Vec<PageSummary>>) -> bool {
        true
    }

    closed spec fn read_page_post(&self, page: PageRefView, format: BodyFormat, r: Result<PageBody>) -> bool {
        true
    }

    closed spec fn search_pages_post(&self, query: Seq<char>, r: Result<Vec<PageSummary>>) -> bool {
        true
    }

    closed spec fn search_pages_cql_post(&self, query: Seq<char>, r: Result<Vec<PageSummary>>) -> bool {
        true
    }

    closed spec fn archive_page_post(&self, page: PageRefView, r: Result<ArchiveResult>) -> bool {
        true
    }

    closed spec fn delete_page_post(&self, page: PageRefView, mode: DeleteMode, r: Result<()>) -> bool {
        true
    }

    closed spec fn update_page_post(&self, request: UpdatePageRequestView, r: Result<PageSummary>) -> bool {
        true
    }

    closed spec fn move_page_post(&self, request: MovePageRequestView, r: Result<PageSummary>) -> bool {
        true
    }

    closed spec fn create_folder_post(&self, request: CreateFolderRequestView, r: Result<PageSummary>) -> bool {
        true
    }

    closed spec fn list_child_content_post(
        &self,
        parent: PageRefView,
        parent_kind: PageContentKind,
        r: Result<Vec<PageSummary>>,
    ) -> bool {
        true
    }

    closed spec fn delete_folder_post(&self, folder: PageRefView, r: Result<()>) -> bool {
        true
    }

    fn list_spaces(&self) -> (r: Result<Vec<SpaceSummary>>)
        ensures
            self.list_spaces_post(r),
    ;

    fn create_page(&self, request: CreatePageRequest) -> (r: Result<PageSummary>)
        ensures
            self.create_page_post(request@, r),
    ;

    fn create_folder(&self, request: CreateFolderRequest) -> (r: Result<PageSummary>)
        ensures
            self.create_folder_post(request@, r),
    ;

    fn list_child_pages(&self, page: &PageRef) -> (r: Result<Vec<PageSummary>>)
        ensures
            self.list_child_pages_post(page@, r),
    ;

    fn list_child_content(&self, parent: &PageRef, parent_kind: PageContentKind) -> (r: Result<
        Vec<PageSummary>,
    >)
        ensures
            self.list_child_content_post(parent@, parent_kind, r),
    ;

    fn get_page_info(&self, page: &PageRef) -> (r: Result<PageSummary>)
        ensures
            self.get_page_info_post(page@, r),
    ;

    fn read_page(&self, page: &PageRef, format: BodyFormat) -> (r: Result<PageBody>)
        ensures
            self.read_page_post(page@, format, r),
    ;

    fn search_pages(&self, query: &str) -> (r: Result<Vec<PageSummary>>)
        ensures
            self.search_pages_post(query@, r),
    ;

    fn search_pages_cql(&self, query: &str) -> (r: Result<Vec<PageSummary>>)
        ensures
            self.search_pages_cql_post(query@, r),
    ;

    fn archive_page(&self, page: &PageRef) -> (r: Result<ArchiveResult>)
        ensures
            self.archive_page_post(page@, r),
    ;

    fn delete_page(&self, page: &PageRef, mode: DeleteMode) -> (r: Result<()>)
        ensures
            self.delete_page_post(page@, mode, r),
    ;

    fn delete_folder(&self, folder: &PageRef) -> (r: Result<()>)
        ensures
            self.delete_folder_post(folder@, r),
    ;

    fn update_page(&self, request: UpdatePageRequest) -> (r: Result<PageSummary>)
        ensures
            self.update_page_post(request@, r),
    ;

    fn move_page(&self, request: MovePageRequest) -> (r: Result<PageSummary>)
        ensures
            self.move_page_post(request@, r),
    ;
}

/// Reading and changing attachments.
pub trait AttachmentsApi {
    closed spec fn list_attachments_post(&self, page: PageRefView, r: Result<Vec<AttachmentSummary>>) -> bool {
        true
    }

    closed spec fn delete_attachment_post(&self, page: PageRefView, attachment_id: Seq<char>, r: Result<()>) -> bool {
        true
    }

    fn list_attachments(&self, page: &PageRef) -> (r: Result<Vec<AttachmentSummary>>)
        ensures
            self.list_attachments_post(page@, r),
    ;

    fn download_attachment(&self, page: &PageRef, attachment_id: &str) -> Result<Vec<u8>>;

    fn upload_attachment(&self, request: AttachmentUploadRequest) -> Result<Vec<AttachmentSummary>>;

    fn delete_attachment(&self, page: &PageRef, attachment_id: &str) -> (r: Result<()>)
        ensures
            self.delete_attachment_post(page@, attachment_id@, r),
    ;
}

/// Reading and changing content properties.
pub trait PropertiesApi {
    closed spec fn list_properties_post(&self, page: PageRefView, r: Result<Vec<ContentProperty>>) -> bool {
        true
    }

    closed spec fn get_property_post(&self, page: PageRefView, key: Seq<char>, r: Result<ContentProperty>) -> bool {
        true
    }

    closed spec fn set_property_post(
        &self,
        page: PageRefView,
        key: Seq<char>,
        value: Value,
        r: Result<ContentProperty>,
    ) -> bool {
        true
    }

    closed spec fn delete_property_post(&self, page: PageRefView, key: Seq<char>, r: Result<()>) -> bool {
        true
    }

    fn list_properties(&self, page: &PageRef) -> (r: Result<Vec<ContentProperty>>)
        ensures
            self.list_properties_post(page@, r),
    ;

    fn get_property(&self, page: &PageRef, key: &str) -> (r: Result<ContentProperty>)
        ensures
            self.get_property_post(page@, key@, r),
    ;

    fn set_property(&self, page: &PageRef, key: &str, value: Value) -> (r: Result<ContentProperty>)
        ensures
            self.set_property_post(page@, key@, value, r),
    ;

    fn delete_property(&self, page: &PageRef, key: &str) -> (r: Result<()>)
        ensures
            self.delete_property_post(page@, key@, r),
    ;
}

/// Reading and changing comments.
pub trait CommentsApi {
    closed spec fn list_comments_post(
        &self,
        page: PageRefView,
        location: Option<CommentLocation>,
        r: Result<Vec<CommentSummary>>,
    ) -> bool {
        true
    }

    closed spec fn get_comment_post(&self, comment_id: Seq<char>, r: Result<CommentSummary>) -> bool {
        true
    }

    closed spec fn create_comment_post(&self, request: CommentCreateRequestView, r: Result<CommentSummary>) -> bool {
        true
    }

    closed spec fn set_resolution_post(&self, comment_id: Seq<char>, resolved: bool, r: Result<CommentSummary>) -> bool {
        true
    }

    closed spec fn delete_comment_post(&self, comment_id: Seq<char>, r: Result<()>) -> bool {
        true
    }

    fn list_comments(&self, page: &PageRef, location: Option<CommentLocation>) -> (r: Result<
        Vec<CommentSummary>,
    >)
        ensures
            self.list_comments_post(page@, location, r),
    ;

    fn get_comment(&self, comment_id: &str) -> (r: Result<CommentSummary>)
        ensures
            self.get_comment_post(comment_id@, r),
    ;

    fn create_comment(&self, request: CommentCreateRequest) -> (r: Result<CommentSummary>)
        ensures
            self.create_comment_post(request@, r),
    ;

    fn set_inline_comment_resolution(&self, comment_id: &str, resolved: bool) -> (r: Result<
        CommentSummary,
    >)
        ensures
            self.set_resolution_post(comment_id@, resolved, r),
    ;

    fn delete_comment(&self, comment_id: &str) -> (r: Result<()>)
        ensures
            self.delete_comment_post(comment_id@, r),
    ;
}

/// The configuration file and secret store.
pub trait ProfilesStore {
    closed spec fn init_profile_post(
        &self,
        name: Seq<char>,
        draft: ProfileDraft,
        secrets: ProfileSecrets,
        r: Result<RuntimeConfig>,
    ) -> bool {
        true
    }

    closed spec fn add_or_update_profile_post(
        &self,
        name: Seq<char>,
        draft: ProfileDraft,
        secrets: ProfileSecrets,
        activate: bool,
        r: Result<RuntimeConfig>,
    ) -> bool {
        true
    }

    closed spec fn use_profile_post(&self, name: Seq<char>, r: Result<RuntimeConfig>) -> bool {
        true
    }

    closed spec fn remove_profile_post(&self, name: Seq<char>, r: Result<RuntimeConfig>) -> bool {
        true
    }

    closed spec fn list_profiles_post(&self, r: Result<RuntimeConfig>) -> bool {
        true
    }

    fn init_profile(&self, name: &str, draft: ProfileDraft, secrets: &ProfileSecrets) -> (r: Result<
        RuntimeConfig,
    >)
        ensures
            self.init_profile_post(name@, draft, *secrets, r),
    ;

    fn add_or_update_profile(
        &self,
        name: &str,
        draft: ProfileDraft,
        secrets: &ProfileSecrets,
        activate: bool,
    ) -> (r: Result<RuntimeConfig>)
        ensures
            self.add_or_update_profile_post(name@, draft, *secrets, activate, r),
    ;

    fn use_profile(&self, name: &str) -> (r: Result<RuntimeConfig>)
        ensures
            self.use_profile_post(name@, r),
    ;

    fn remove_profile(&self, name: &str) -> (r: Result<RuntimeConfig>)
        ensures
            self.remove_profile_post(name@, r),
    ;

    fn list_profiles(&self) -> (r: Result<RuntimeConfig>)
        ensures
            self.list_profiles_post(r),
    ;
}

} // verus!
