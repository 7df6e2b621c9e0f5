use confluence_cli::convert::markdown::markdown_to_document;
use confluence_cli::convert::{apply_unified_patch, convert_text, document_to_markdown, escape_html, Block, Document, Inline};
use confluence_cli::domain::BodyFormat;
use confluence_cli::error::ConfluenceCliError;

#[test]
fn markdown_round_trip_preserves_supported_blocks() {
    let source = "# Title\n\nParagraph with **strong** and [link](https://example.com).\n\n- item one\n- item two";
    let storage = convert_text(source, BodyFormat::Markdown, BodyFormat::Storage)
        .expect("markdown should convert to storage");
    let markdown = convert_text(&storage, BodyFormat::Storage, BodyFormat::Markdown)
        .expect("storage should convert back to markdown");

    assert!(markdown.contains("# Title"));
    assert!(markdown.contains("**strong**"));
    assert!(markdown.contains("[link](https://example.com)"));
    assert!(markdown.contains("- item one"));
}

#[test]
fn storage_to_text_works_for_simple_document() {
    let text = convert_text(
        "<h1>Title</h1><p>Hello <strong>world</strong></p>",
        BodyFormat::Storage,
        BodyFormat::Text,
    )
    .expect("storage should convert to text");

    assert!(text.contains("Title"));
    assert!(text.contains("Hello world"));
}

#[test]
fn unified_patch_applies_successfully() {
    let base = "Hello\nWorld\n";
    let patch = "--- original\n+++ updated\n@@ -1,2 +1,2 @@\n Hello\n-World\n+Confluence\n";
    let updated = apply_unified_patch(base, patch).expect("patch should apply");
    assert_eq!(updated, "Hello\nConfluence\n");
}

#[test]
fn same_format_conversion_returns_the_input() {
    for format in [BodyFormat::Markdown, BodyFormat::Storage, BodyFormat::Html, BodyFormat::Text] {
        assert_eq!(convert_text("<p>as <b>is</b></p>", format, format).unwrap(), "<p>as <b>is</b></p>");
    }
}

#[test]
fn markdown_heading_becomes_storage_heading() {
    let storage = convert_text("# Title", BodyFormat::Markdown, BodyFormat::Storage).unwrap();
    assert_eq!(storage, "<h1>Title</h1>");
}

#[test]
fn escaping_replaces_markup_characters() {
    assert_eq!(escape_html("a < b & \"c\" > d"), "a &lt; b &amp; &quot;c&quot; &gt; d");
}

#[test]
fn malformed_storage_is_reported() {
    let error = convert_text("<p>open", BodyFormat::Storage, BodyFormat::Markdown);
    assert!(matches!(error, Err(ConfluenceCliError::Config(_))));
}

#[test]
fn invalid_patch_text_is_refused() {
    match apply_unified_patch("a\n", "not a patch at all\n@@ nonsense") {
        Err(ConfluenceCliError::Config(m)) => {
            assert!(m.starts_with("invalid patch: ") || m.starts_with("patch failed: "))
        }
        other => panic!("unexpected {other:?}"),
    }
}

#[test]
fn plain_documents_read_back_from_their_markdown() {
    let document = Document {
        blocks: vec![
            Block::Heading { level: 2, content: vec![Inline::Text("Release notes".to_owned())] },
            Block::Paragraph(vec![Inline::Text("Shipped on time.".to_owned())]),
            Block::BulletList(vec![vec![Inline::Text("one item".to_owned())]]),
        ],
    };
    let markdown = document_to_markdown(&document);
    assert_eq!(markdown, "## Release notes\n\nShipped on time.\n\n- one item");
    assert_eq!(markdown_to_document(&markdown), document);
}

#[test]
fn a_hunk_that_does_not_apply_is_a_patch_failure() {
    let patch = "--- original\n+++ updated\n@@ -1,2 +1,2 @@\n Hello\n-World\n+Confluence\n";
    match apply_unified_patch("Goodbye\nEveryone\n", patch) {
        Err(ConfluenceCliError::Config(message)) => assert!(message.starts_with("patch failed: ")),
        other => panic!("unexpected: {other:?}"),
    }
}
