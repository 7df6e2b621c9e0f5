//! Comment operations.
use vstd::prelude::*;

use serde_json::Value;

use crate::domain::{CommentLocation, PageRef};
use crate::error::{ConfluenceCliError, Result, is_config_error};
use crate::text::{copy_str, spec_is_blank, str_is_blank};

use super::models::{CommentCreateRequest, CommentCreateRequestView, CommentSummary};
use super::ports::CommentsApi;

verus! {

/// A page's comments, optionally of one location.
pub fn comment_list<A: CommentsApi>(api: &A, page: &PageRef, location: Option<CommentLocation>) -> (r: Result<Vec<CommentSummary>>)
    ensures
        api.list_comments_post(page@, location, r),
{
    api.list_comments(page, location)
}

/// One comment; a blank id is refused.
pub fn comment_info<A: CommentsApi>(api: &A, comment_id: &str) -> (r: Result<CommentSummary>)
    ensures
        spec_is_blank(comment_id@) ==> is_config_error(r, "comment info requires a non-empty comment id"@),
        !spec_is_blank(comment_id@) ==> api.get_comment_post(comment_id@, r),
{
    if str_is_blank(comment_id) {
        return Err(ConfluenceCliError::Config(copy_str("comment info requires a non-empty comment id")));
    }
    api.get_comment(comment_id)
}

/// Creates a comment or reply. The body must be non-blank, and an inline comment needs
/// its inline properties.
pub fn comment_create<A: CommentsApi>(
    api: &A,
    page: &PageRef,
    body_storage: String,
    location: CommentLocation,
    parent_id: Option<String>,
    inline_properties: Option<Value>,
) -> (r: Result<CommentSummary>)
    ensures
        spec_is_blank(body_storage@) ==> is_config_error(r, "comment create requires a non-empty body"@),
        !spec_is_blank(body_storage@) && location == CommentLocation::Inline && inline_properties is None
            ==> (r matches Err(ConfluenceCliError::NotImplemented(m)) && m@
            == "inline comment creation requires explicit inline properties"@),
        !spec_is_blank(body_storage@) && !(location == CommentLocation::Inline && inline_properties is None)
            ==> api.create_comment_post(
            CommentCreateRequestView {
                page: page@,
                body_storage: body_storage@,
                parent_id: match parent_id {
                    Some(p) => Some(p@),
                    None => None,
                },
                location,
                inline_properties,
            },
            r,
        ),
{
    if str_is_blank(body_storage.as_str()) {
        return Err(ConfluenceCliError::Config(copy_str("comment create requires a non-empty body")));
    }
    if location == CommentLocation::Inline && inline_properties.is_none() {
        return Err(
            ConfluenceCliError::NotImplemented(
                copy_str("inline comment creation requires explicit inline properties"),
            ),
        );
    }
    let request = CommentCreateRequest {
        page: page.duplicate(),
        body_storage,
        parent_id,
        location,
        inline_properties,
    };
    api.create_comment(request)
}

/// Deletes a comment; a blank id is refused.
pub fn comment_delete<A: CommentsApi>(api: &A, comment_id: &str) -> (r: Result<()>)
    ensures
        spec_is_blank(comment_id@) ==> is_config_error(r, "comment delete requires a non-empty comment id"@),
        !spec_is_blank(comment_id@) ==> api.delete_comment_post(comment_id@, r),
{
    if str_is_blank(comment_id) {
        return Err(ConfluenceCliError::Config(copy_str("comment delete requires a non-empty comment id")));
    }
    api.delete_comment(comment_id)
}

/// Marks an inline comment resolved; a blank id is refused.
pub fn comment_resolve<A: CommentsApi>(api: &A, comment_id: &str) -> (r: Result<CommentSummary>)
    ensures
        spec_is_blank(comment_id@) ==> is_config_error(r, "comment resolve requires a non-empty comment id"@),
        !spec_is_blank(comment_id@) ==> api.set_resolution_post(comment_id@, true, r),
{
    if str_is_blank(comment_id) {
        return Err(ConfluenceCliError::Config(copy_str("comment resolve requires a non-empty comment id")));
    }
    api.set_inline_comment_resolution(comment_id, true)
}

/// Reopens an inline comment; a blank id is refused.
pub fn comment_reopen<A: CommentsApi>(api: &A, comment_id: &str) -> (r: Result<CommentSummary>)
    ensures
        spec_is_blank(comment_id@) ==> is_config_error(r, "comment reopen requires a non-empty comment id"@),
        !spec_is_blank(comment_id@) ==> api.set_resolution_post(comment_id@, false, r),
{
    if str_is_blank(comment_id) {
        return Err(ConfluenceCliError::Config(copy_str("comment reopen requires a non-empty comment id")));
    }
    api.set_inline_comment_resolution(comment_id, false)
}

} // verus!
