use confluence_cli::application::models::{AttachmentSummary, CommentSummary, PageContentKind, PageSummary};
use confluence_cli::application::runtime::{RuntimeConfig, RuntimeProfiles};
use confluence_cli::domain::CommentLocation;
use confluence_cli::render::{
    render_archive_task, render_attachments_human, render_comment_action, render_comments_human,
    render_page_action, render_page_summaries_human, render_page_summary_human, render_profiles_human,
};

fn page(id: u64, title: &str) -> PageSummary {
    PageSummary {
        id,
        title: title.to_owned(),
        status: Some("current".to_owned()),
        space_id: None,
        version: Some(7),
        content_kind: PageContentKind::Page,
    }
}

fn comment(id: &str) -> CommentSummary {
    CommentSummary {
        id: id.to_owned(),
        status: None,
        body_storage: "<p>Hi</p>".to_owned(),
        location: Some(CommentLocation::Inline),
        parent_id: None,
        author: Some("Ada".to_owned()),
        created_at: None,
        version: None,
        resolution: Some("open".to_owned()),
        inline_properties: None,
        inline_marker_ref: None,
        inline_original_selection: None,
    }
}

#[test]
fn page_description_lists_known_fields_only() {
    assert_eq!(render_page_summary_human(&page(12, "Design")), "id: 12\ntitle: Design\nstatus: current\nversion: 7");
}

#[test]
fn page_lists_use_one_line_per_page_or_the_note() {
    assert_eq!(render_page_summaries_human(&[page(1, "A"), page(22, "B")], "none"), "1\tA\n22\tB");
    assert_eq!(render_page_summaries_human(&[], "No pages found."), "No pages found.");
}

#[test]
fn attachments_show_type_and_size() {
    let attachment = AttachmentSummary {
        id: "att1".to_owned(),
        title: "diagram.png".to_owned(),
        media_type: "image/png".to_owned(),
        file_size: 2048,
        version: None,
        download_link: None,
    };
    assert_eq!(render_attachments_human(&[attachment]), "att1\tdiagram.png\timage/png\t2048 bytes");
    assert_eq!(render_attachments_human(&[]), "No attachments found.");
}

#[test]
fn comments_show_location_author_and_resolution() {
    assert_eq!(render_comments_human(&[comment("c-1")]), "c-1 [inline] by Ada (open)\n  <p>Hi</p>");
    assert_eq!(render_comments_human(&[]), "No comments found.");
}

#[test]
fn profiles_mark_the_active_one() {
    let runtime = RuntimeConfig {
        profiles: RuntimeProfiles {
            active_profile: Some("work".to_owned()),
            profiles: vec!["default".to_owned(), "work".to_owned()],
        },
        resolved_profile: None,
    };
    assert_eq!(render_profiles_human(&runtime), "  default\n* work");
    let empty = RuntimeConfig {
        profiles: RuntimeProfiles { active_profile: None, profiles: Vec::new() },
        resolved_profile: None,
    };
    assert_eq!(render_profiles_human(&empty), "No profiles configured.");
}

#[test]
fn acknowledgements_name_what_changed() {
    assert_eq!(render_page_action("Updated", &page(5, "Doc")), "Updated Doc [5]");
    assert_eq!(render_archive_task("task-9"), "Archive task queued: task-9");
    assert_eq!(render_comment_action("Deleted comment", &comment("c-2")), "Deleted comment c-2");
}
