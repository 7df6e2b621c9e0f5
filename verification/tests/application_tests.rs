use std::cell::RefCell;

use confluence_cli::application::attachments::{attachment_candidate_name, attachment_delete};
use confluence_cli::application::comments::{
    comment_create, comment_delete, comment_info, comment_reopen, comment_resolve,
};
use confluence_cli::application::models::{
    ArchiveResult, AttachmentSummary, AttachmentUploadRequest, CommentCreateRequest,
    CommentSummary, ContentProperty, CreateFolderRequest, CreatePageRequest, MovePageRequest,
    PageBody, PageContentKind, PageSummary, SpaceSummary, UpdatePageRequest,
};
use confluence_cli::application::pages::{
    page_create, page_delete, page_move, page_patch, page_search, page_update,
};
use confluence_cli::application::ports::{AttachmentsApi, CommentsApi, PagesApi, PropertiesApi};
use confluence_cli::application::properties::{property_get, property_set};
use confluence_cli::application::runtime::{
    ensure_writable, ResolvedProfile, RuntimeConfig, RuntimeContext, RuntimeProfiles,
};
use confluence_cli::config::{AuthKind, SecretBackend};
use confluence_cli::domain::{BodyFormat, CommentLocation, DeleteMode, MoveTarget, PageId, PageRef};
use confluence_cli::error::{ConfluenceCliError, Result};
use serde_json::Value;
use confluence_cli::application::site::ConfluenceVfs;
use confluence_cli::application::vfs::{NodeCapability, NodeHandle, NodeKind, PageNode, SpaceNode, VirtualFileSystem};

#[derive(Default)]
struct FakeApi {
    deleted: RefCell<Vec<(PageRef, DeleteMode)>>,
    updates: RefCell<Vec<UpdatePageRequest>>,
    moved: RefCell<Vec<MovePageRequest>>,
    comments: RefCell<Vec<CommentCreateRequest>>,
    created: RefCell<Vec<CreatePageRequest>>,
}

fn summary(id: u64, title: &str, version: u32) -> PageSummary {
    PageSummary {
        id,
        title: title.to_owned(),
        status: Some("current".to_owned()),
        space_id: Some("100".to_owned()),
        version: Some(version),
        content_kind: PageContentKind::Page,
    }
}

fn comment(id: &str, location: Option<CommentLocation>) -> CommentSummary {
    CommentSummary {
        id: id.to_owned(),
        status: Some("current".to_owned()),
        body_storage: "<p>Hello</p>".to_owned(),
        location,
        parent_id: None,
        author: Some("Ada".to_owned()),
        created_at: Some("2025-01-01".to_owned()),
        version: Some(1),
        resolution: None,
        inline_properties: None,
        inline_marker_ref: None,
        inline_original_selection: None,
    }
}

impl PagesApi for FakeApi {
    fn list_spaces(&self) -> Result<Vec<SpaceSummary>> {
        Ok(vec![SpaceSummary {
            id: "100".to_owned(),
            key: "ENG".to_owned(),
            name: "Engineering".to_owned(),
            homepage_id: None,
        }])
    }

    fn create_page(&self, request: CreatePageRequest) -> Result<PageSummary> {
        self.created.borrow_mut().push(request.clone());
        Ok(PageSummary {
            id: request.parent_id.map_or(10, |parent| parent.get() + 1),
            title: request.title,
            status: Some("current".to_owned()),
            space_id: Some(request.space_id),
            version: Some(1),
            content_kind: PageContentKind::Page,
        })
    }

    fn create_folder(&self, request: CreateFolderRequest) -> Result<PageSummary> {
        Ok(PageSummary {
            id: 20,
            title: request.title,
            status: Some("current".to_owned()),
            space_id: Some(request.space_id),
            version: Some(1),
            content_kind: PageContentKind::Folder,
        })
    }

    fn list_child_pages(&self, _page: &PageRef) -> Result<Vec<PageSummary>> {
        Ok(vec![summary(2, "Child Page", 1)])
    }

    fn list_child_content(&self, _parent: &PageRef, _parent_kind: PageContentKind) -> Result<Vec<PageSummary>> {
        Ok(vec![summary(2, "Child Page", 1)])
    }

    fn get_page_info(&self, _page: &PageRef) -> Result<PageSummary> {
        Ok(summary(1, "Design Doc", 3))
    }

    fn read_page(&self, page: &PageRef, format: BodyFormat) -> Result<PageBody> {
        let content = match format {
            BodyFormat::Html => "<div>Hello</div>",
            _ => "<p>Hello</p>",
        };
        Ok(PageBody {
            page: self.get_page_info(page)?,
            format,
            content: content.to_owned(),
        })
    }

    fn search_pages(&self, _query: &str) -> Result<Vec<PageSummary>> {
        Ok(vec![summary(1, "Design Doc", 3)])
    }

    fn search_pages_cql(&self, _query: &str) -> Result<Vec<PageSummary>> {
        Ok(vec![summary(1, "Design Doc", 3)])
    }

    fn archive_page(&self, _page: &PageRef) -> Result<ArchiveResult> {
        Ok(ArchiveResult {
            task_id: "task-1".to_owned(),
            state: Some("RUNNING".to_owned()),
        })
    }

    fn delete_page(&self, page: &PageRef, mode: DeleteMode) -> Result<()> {
        self.deleted.borrow_mut().push((page.clone(), mode));
        Ok(())
    }

    fn delete_folder(&self, _folder: &PageRef) -> Result<()> {
        Ok(())
    }

    fn update_page(&self, request: UpdatePageRequest) -> Result<PageSummary> {
        self.updates.borrow_mut().push(request.clone());
        Ok(PageSummary {
            id: 1,
            title: request.title,
            status: Some("current".to_owned()),
            space_id: Some("100".to_owned()),
            version: Some(request.version),
            content_kind: PageContentKind::Page,
        })
    }

    fn move_page(&self, request: MovePageRequest) -> Result<PageSummary> {
        self.moved.borrow_mut().push(request.clone());
        Ok(PageSummary {
            id: 1,
            title: request.title.unwrap_or_else(|| "Design Doc".to_owned()),
            status: Some("current".to_owned()),
            space_id: Some("100".to_owned()),
            version: Some(4),
            content_kind: PageContentKind::Page,
        })
    }
}

impl AttachmentsApi for FakeApi {
    fn list_attachments(&self, _page: &PageRef) -> Result<Vec<AttachmentSummary>> {
        Ok(vec![AttachmentSummary {
            id: "a-1".to_owned(),
            title: "diagram.png".to_owned(),
            media_type: "image/png".to_owned(),
            file_size: 12,
            version: Some(1),
            download_link: Some("https://example.test/file".to_owned()),
        }])
    }

    fn download_attachment(&self, _page: &PageRef, attachment_id: &str) -> Result<Vec<u8>> {
        Ok(format!("bytes:{attachment_id}").into_bytes())
    }

    fn upload_attachment(&self, request: AttachmentUploadRequest) -> Result<Vec<AttachmentSummary>> {
        Ok(vec![AttachmentSummary {
            id: "uploaded".to_owned(),
            title: request.file_name,
            media_type: "application/octet-stream".to_owned(),
            file_size: 1,
            version: Some(if request.replace { 2 } else { 1 }),
            download_link: None,
        }])
    }

    fn delete_attachment(&self, _page: &PageRef, _attachment_id: &str) -> Result<()> {
        Ok(())
    }
}

impl PropertiesApi for FakeApi {
    fn list_properties(&self, _page: &PageRef) -> Result<Vec<ContentProperty>> {
        Ok(vec![ContentProperty {
            key: "color".to_owned(),
            value: Value::String("#fff".to_owned()),
            version: 1,
        }])
    }

    fn get_property(&self, _page: &PageRef, key: &str) -> Result<ContentProperty> {
        Ok(ContentProperty {
            key: key.to_owned(),
            value: Value::Bool(true),
            version: 2,
        })
    }

    fn set_property(&self, _page: &PageRef, key: &str, value: Value) -> Result<ContentProperty> {
        Ok(ContentProperty {
            key: key.to_owned(),
            value,
            version: 3,
        })
    }

    fn delete_property(&self, _page: &PageRef, _key: &str) -> Result<()> {
        Ok(())
    }
}

impl CommentsApi for FakeApi {
    fn list_comments(&self, _page: &PageRef, location: Option<CommentLocation>) -> Result<Vec<CommentSummary>> {
        Ok(vec![comment("c-1", location)])
    }

    fn get_comment(&self, comment_id: &str) -> Result<CommentSummary> {
        let mut found = comment(comment_id, Some(CommentLocation::Inline));
        found.version = Some(2);
        found.resolution = Some("open".to_owned());
        found.inline_marker_ref = Some("m-1".to_owned());
        found.inline_original_selection = Some("selected text".to_owned());
        Ok(found)
    }

    fn create_comment(&self, request: CommentCreateRequest) -> Result<CommentSummary> {
        self.comments.borrow_mut().push(request.clone());
        let mut created = comment("c-2", Some(request.location));
        created.body_storage = request.body_storage;
        created.parent_id = request.parent_id;
        created.inline_properties = request.inline_properties;
        Ok(created)
    }

    fn set_inline_comment_resolution(&self, comment_id: &str, resolved: bool) -> Result<CommentSummary> {
        let mut changed = comment(comment_id, Some(CommentLocation::Inline));
        changed.version = Some(3);
        changed.resolution = Some(if resolved { "resolved" } else { "open" }.to_owned());
        changed.inline_marker_ref = Some("m-1".to_owned());
        changed.inline_original_selection = Some("selected text".to_owned());
        Ok(changed)
    }

    fn delete_comment(&self, _comment_id: &str) -> Result<()> {
        Ok(())
    }
}

fn runtime(read_only: bool) -> RuntimeContext {
    RuntimeContext {
        runtime_config: RuntimeConfig {
            profiles: RuntimeProfiles {
                active_profile: None,
                profiles: Vec::new(),
            },
            resolved_profile: Some(ResolvedProfile {
                id: "profile-1".to_owned(),
                name: Some("work".to_owned()),
                domain: "example.atlassian.net".to_owned(),
                protocol: "https".to_owned(),
                api_path: "/wiki/rest/api".to_owned(),
                auth_type: AuthKind::Bearer,
                email: None,
                username: None,
                api_token: Some("token".to_owned()),
                password: None,
                read_only,
                secret_backend: Some(SecretBackend::Keyring),
            }),
        },
    }
}

fn config_message<T: std::fmt::Debug>(r: Result<T>) -> String {
    match r {
        Err(ConfluenceCliError::Config(m)) => m,
        other => panic!("expected a configuration error, got {other:?}"),
    }
}

#[test]
fn rejects_empty_search_queries() {
    let api = FakeApi::default();
    let error = page_search(&api, "   ").expect_err("empty queries should fail");
    assert!(matches!(error, ConfluenceCliError::Config(_)));
}

#[test]
fn requires_yes_im_sure_for_purge() {
    let api = FakeApi::default();
    let error = page_delete(&api, &PageRef::Id(PageId::new(1)), DeleteMode::Purge, false)
        .expect_err("purge should require explicit confirmation");
    assert!(matches!(error, ConfluenceCliError::Config(_)));
}

#[test]
fn updates_require_title_and_body() {
    let api = FakeApi::default();
    let error = page_update(
        &api,
        &PageRef::Id(PageId::new(1)),
        " ".to_owned(),
        "<p>x</p>".to_owned(),
        2,
    )
    .expect_err("blank titles should fail");
    assert!(matches!(error, ConfluenceCliError::Config(_)));
}

#[test]
fn passes_update_request_to_api() {
    let api = FakeApi::default();
    let summary = page_update(
        &api,
        &PageRef::Id(PageId::new(1)),
        "New Title".to_owned(),
        "<p>Updated</p>".to_owned(),
        5,
    )
    .expect("update should succeed");

    assert_eq!(summary.title, "New Title");
    assert_eq!(summary.version, Some(5));
    assert_eq!(api.updates.borrow().len(), 1);
}

#[test]
fn move_requests_are_forwarded() {
    let api = FakeApi::default();
    let summary = page_move(
        &api,
        &PageRef::Id(PageId::new(1)),
        MoveTarget::Parent(PageRef::Id(PageId::new(2))),
        Some("Moved".to_owned()),
    )
    .expect("move should succeed");

    assert_eq!(summary.title, "Moved");
    assert_eq!(api.moved.borrow().len(), 1);
}

#[test]
fn inline_comments_require_inline_properties() {
    let api = FakeApi::default();
    let error = comment_create(
        &api,
        &PageRef::Id(PageId::new(1)),
        "<p>Hello</p>".to_owned(),
        CommentLocation::Inline,
        None,
        None,
    )
    .expect_err("inline comments should stay explicit");

    assert!(matches!(error, ConfluenceCliError::NotImplemented(_)));
}

#[test]
fn property_keys_must_not_be_blank() {
    let api = FakeApi::default();
    let error = property_get(&api, &PageRef::Id(PageId::new(1)), "  ")
        .expect_err("blank property keys should fail");
    assert!(matches!(error, ConfluenceCliError::Config(_)));
}

#[test]
fn create_page_can_resolve_space_key() {
    let api = FakeApi::default();
    let summary = page_create(
        &api,
        "New Page".to_owned(),
        "<p>Hello</p>".to_owned(),
        None,
        Some("ENG".to_owned()),
        None,
    )
    .expect("page create should succeed");

    assert_eq!(summary.title, "New Page");
    assert_eq!(summary.space_id.as_deref(), Some("100"));
}

#[test]
fn patch_requires_matching_base() {
    let api = FakeApi::default();
    let error = page_patch(
        &api,
        &PageRef::Id(PageId::new(1)),
        "<p>Different</p>",
        "--- original\n+++ updated\n@@ -1 +1 @@\n-<p>Different</p>\n+<p>Hello</p>\n",
    )
    .expect_err("mismatched patch bases should fail");

    assert!(matches!(error, ConfluenceCliError::Config(_)));
}

#[test]
fn read_only_runtime_rejects_mutations() {
    let error = ensure_writable(&runtime(true)).expect_err("read-only runtime should fail");
    assert!(matches!(error, ConfluenceCliError::Config(_)));
}

#[test]
fn comment_info_returns_richer_inline_metadata() {
    let api = FakeApi::default();
    let comment = comment_info(&api, "c-1").expect("comment info should succeed");
    assert_eq!(comment.inline_marker_ref.as_deref(), Some("m-1"));
    assert_eq!(comment.inline_original_selection.as_deref(), Some("selected text"));
}

#[test]
fn comment_resolve_and_reopen_update_status() {
    let api = FakeApi::default();
    let resolved = comment_resolve(&api, "c-1").expect("resolve should succeed");
    let reopened = comment_reopen(&api, "c-1").expect("reopen should succeed");
    assert_eq!(resolved.resolution.as_deref(), Some("resolved"));
    assert_eq!(reopened.resolution.as_deref(), Some("open"));
}

#[test]
fn writable_runtime_is_accepted() {
    assert!(ensure_writable(&runtime(false)).is_ok());
}

#[test]
fn read_only_error_names_the_reason() {
    let message = config_message(ensure_writable(&runtime(true)));
    assert_eq!(message, "active profile is read-only; this command would mutate Confluence");
}

#[test]
fn patch_with_matching_base_updates_to_next_version() {
    let api = FakeApi::default();
    let summary = page_patch(
        &api,
        &PageRef::Id(PageId::new(1)),
        "<p>Hello</p>\n",
        "--- original\n+++ updated\n@@ -1 +1 @@\n-<p>Hello</p>\n+<p>Bye</p>\n",
    );
    // The fake page's body has no trailing newline, so the base does not match.
    assert_eq!(
        config_message(summary),
        "page patch base file does not match the current remote storage body"
    );
}

#[test]
fn patch_message_names_the_mismatch() {
    let api = FakeApi::default();
    let error = page_patch(&api, &PageRef::Id(PageId::new(1)), "<p>Different</p>", "");
    assert_eq!(
        config_message(error),
        "page patch base file does not match the current remote storage body"
    );
    assert!(api.updates.borrow().is_empty());
}

#[test]
fn purge_with_confirmation_reaches_the_service() {
    let api = FakeApi::default();
    page_delete(&api, &PageRef::Id(PageId::new(7)), DeleteMode::Purge, true).expect("purge should pass");
    let deleted = api.deleted.borrow();
    assert_eq!(deleted.len(), 1);
    assert_eq!(deleted[0], (PageRef::Id(PageId::new(7)), DeleteMode::Purge));
}

#[test]
fn purge_message_names_the_flag() {
    let api = FakeApi::default();
    let error = page_delete(&api, &PageRef::Id(PageId::new(1)), DeleteMode::Purge, false);
    assert_eq!(config_message(error), "purge requires --yes-im-sure");
    assert!(api.deleted.borrow().is_empty());
}

#[test]
fn create_page_under_parent_passes_parent_id() {
    let api = FakeApi::default();
    let summary = page_create(
        &api,
        "Child".to_owned(),
        "<p>x</p>".to_owned(),
        None,
        None,
        Some(PageRef::Id(PageId::new(41))),
    )
    .expect("child create should succeed");
    assert_eq!(summary.id, 42);
    let created = api.created.borrow();
    assert_eq!(created[0].parent_id, Some(PageId::new(41)));
    assert_eq!(created[0].space_id, "100");
}

#[test]
fn create_page_with_unknown_space_key_fails() {
    let api = FakeApi::default();
    let error = page_create(
        &api,
        "New Page".to_owned(),
        "<p>Hello</p>".to_owned(),
        None,
        Some("NOPE".to_owned()),
        None,
    );
    assert!(matches!(error, Err(ConfluenceCliError::Config(_))));
    assert!(api.created.borrow().is_empty());
}

#[test]
fn comment_with_blank_body_is_refused() {
    let api = FakeApi::default();
    let error = comment_create(
        &api,
        &PageRef::Id(PageId::new(1)),
        "  ".to_owned(),
        CommentLocation::Footer,
        None,
        None,
    );
    assert_eq!(config_message(error), "comment create requires a non-empty body");
    assert!(api.comments.borrow().is_empty());
}

#[test]
fn footer_comment_request_reaches_the_service() {
    let api = FakeApi::default();
    let created = comment_create(
        &api,
        &PageRef::Id(PageId::new(1)),
        "<p>Hi</p>".to_owned(),
        CommentLocation::Footer,
        Some("c-1".to_owned()),
        None,
    )
    .expect("footer comment should be created");
    assert_eq!(created.parent_id.as_deref(), Some("c-1"));
    assert_eq!(api.comments.borrow()[0].body_storage, "<p>Hi</p>");
}

#[test]
fn blank_comment_ids_are_refused() {
    let api = FakeApi::default();
    assert_eq!(config_message(comment_info(&api, " ")), "comment info requires a non-empty comment id");
    assert_eq!(config_message(comment_delete(&api, "")), "comment delete requires a non-empty comment id");
    assert_eq!(config_message(comment_resolve(&api, "")), "comment resolve requires a non-empty comment id");
    assert_eq!(config_message(comment_reopen(&api, "")), "comment reopen requires a non-empty comment id");
}

#[test]
fn blank_attachment_ids_are_refused() {
    let api = FakeApi::default();
    let error = attachment_delete(&api, &PageRef::Id(PageId::new(1)), "  ");
    assert_eq!(config_message(error), "attachment delete requires a non-empty attachment id");
}

#[test]
fn property_set_keeps_the_value() {
    let api = FakeApi::default();
    let property = property_set(&api, &PageRef::Id(PageId::new(1)), "owner", Value::Bool(false))
        .expect("property set should succeed");
    assert_eq!(property.key, "owner");
    assert_eq!(property.value, Value::Bool(false));
}

#[test]
fn attachment_names_count_up_for_duplicates() {
    assert_eq!(attachment_candidate_name("diagram.png", 0), "diagram.png");
    assert_eq!(attachment_candidate_name("diagram.png", 1), "diagram (1).png");
    assert_eq!(attachment_candidate_name("notes", 2), "notes (2)");
}

fn site() -> ConfluenceVfs<FakeApi> {
    ConfluenceVfs { api: FakeApi::default() }
}

fn page_handle(id: u64, title: &str, kind: PageContentKind) -> NodeHandle {
    NodeHandle::Page(PageNode {
        id,
        title: title.to_owned(),
        space_id: Some("100".to_owned()),
        content_kind: kind,
    })
}

#[test]
fn site_root_lists_spaces_by_key() {
    let vfs = site();
    let entries = vfs.read_dir(&NodeHandle::Root).expect("root should list");
    assert_eq!(entries.len(), 1);
    assert_eq!(entries[0].name, "ENG");
    assert_eq!(entries[0].stat.kind, NodeKind::Space);
    assert!(entries[0].stat.supports(NodeCapability::Search));
    assert!(!entries[0].stat.supports(NodeCapability::Read));
}

#[test]
fn site_children_are_found_by_title_key_or_id() {
    let vfs = site();
    let space = vfs.open_child(&NodeHandle::Root, "eng").expect("space key ignores case");
    assert!(matches!(space, NodeHandle::Space(ref s) if s.key == "ENG"));
    let parent = page_handle(1, "Design Doc", PageContentKind::Page);
    let by_title = vfs.open_child(&parent, "Child Page").expect("child by title");
    let by_id = vfs.open_child(&parent, "2").expect("child by id");
    assert_eq!(by_title, by_id);
    match vfs.open_child(&parent, "Nothing") {
        Err(ConfluenceCliError::Config(message)) => assert_eq!(message, "'Nothing' not found"),
        other => panic!("unexpected: {other:?}"),
    }
}

#[test]
fn site_reads_pages_but_not_folders() {
    let vfs = site();
    assert_eq!(vfs.read(&page_handle(1, "Design Doc", PageContentKind::Page)).expect("page reads"), "<p>Hello</p>");
    match vfs.read(&page_handle(3, "Drafts", PageContentKind::Folder)) {
        Err(ConfluenceCliError::Config(message)) => assert_eq!(message, "'Drafts' is not a page"),
        other => panic!("unexpected: {other:?}"),
    }
}

#[test]
fn site_creates_pages_and_folders_under_a_page() {
    let vfs = site();
    let parent = page_handle(1, "Design Doc", PageContentKind::Page);
    let page = vfs.create_child(&parent, "Notes", NodeKind::Page).expect("page created");
    assert!(matches!(page, NodeHandle::Page(ref p) if p.id == 2 && p.title == "Notes"));
    let created = vfs.api.created.borrow();
    assert_eq!(created[0].storage_body, "<p></p>");
    assert_eq!(created[0].parent_id, Some(PageId::new(1)));
    let folder = vfs.create_child(&parent, "Drafts", NodeKind::Folder).expect("folder created");
    assert!(matches!(folder, NodeHandle::Page(ref p) if p.content_kind == PageContentKind::Folder));
    match vfs.create_child(&NodeHandle::Root, "X", NodeKind::Page) {
        Err(ConfluenceCliError::Config(message)) => assert_eq!(message, "the root holds spaces only"),
        other => panic!("unexpected: {other:?}"),
    }
    match vfs.create_child(&parent, "X", NodeKind::Space) {
        Err(ConfluenceCliError::NotImplemented(message)) => assert_eq!(message, "creating spaces"),
        other => panic!("unexpected: {other:?}"),
    }
}

#[test]
fn site_removes_pages_to_trash_and_copies_pages_only() {
    let vfs = site();
    vfs.remove_node(&page_handle(5, "Old", PageContentKind::Page)).expect("page removed");
    assert_eq!(vfs.api.deleted.borrow()[0], (PageRef::Id(PageId::new(5)), DeleteMode::Trash));
    let target = page_handle(1, "Design Doc", PageContentKind::Page);
    let copy = vfs.copy_node(&page_handle(5, "Old", PageContentKind::Page), &target, Some("Copy")).expect("copied");
    assert!(matches!(copy, NodeHandle::Page(ref p) if p.title == "Copy"));
    assert_eq!(vfs.api.created.borrow()[0].storage_body, "<p>Hello</p>");
    match vfs.copy_node(&page_handle(3, "Drafts", PageContentKind::Folder), &target, None) {
        Err(ConfluenceCliError::NotImplemented(message)) => assert_eq!(message, "copying anything but pages"),
        other => panic!("unexpected: {other:?}"),
    }
}

#[test]
fn site_moves_keep_the_content_kind_and_need_a_page_destination() {
    let vfs = site();
    let folder = page_handle(3, "Drafts", PageContentKind::Folder);
    let moved = vfs.move_node(&folder, &page_handle(1, "Design Doc", PageContentKind::Page), None).expect("moved");
    assert!(matches!(moved, NodeHandle::Page(ref p) if p.content_kind == PageContentKind::Folder));
    assert_eq!(vfs.api.moved.borrow()[0].target, MoveTarget::Parent(PageRef::Id(PageId::new(1))));
    let bare_space = NodeHandle::Space(SpaceNode {
        id: "100".to_owned(),
        key: "ENG".to_owned(),
        name: "Engineering".to_owned(),
        homepage_id: None,
    });
    match vfs.move_node(&folder, &bare_space, None) {
        Err(ConfluenceCliError::Config(message)) => assert_eq!(message, "the destination holds no pages"),
        other => panic!("unexpected: {other:?}"),
    }
}
