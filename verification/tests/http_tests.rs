use confluence_cli::application::models::AttachmentSummary;
use confluence_cli::config::AuthKind;
use confluence_cli::http::dto::{
    AttachmentExtensions, AttachmentListResponse, AttachmentMetadata, AttachmentV1, ResponseLinks,
};
use confluence_cli::http::pages::{next_version_number, text_search_cql};
use confluence_cli::http::{extract_page_id_from_url, HttpApiConfig, HttpConfluenceApi};

fn api() -> HttpConfluenceApi {
    HttpConfluenceApi::new(HttpApiConfig {
        domain: "example.atlassian.net".to_owned(),
        protocol: "https".to_owned(),
        api_path: "/wiki/rest/api".to_owned(),
        auth_type: AuthKind::Bearer,
        email: None,
        username: None,
        api_token: Some("token".to_owned()),
        password: None,
    })
    .expect("api should initialize")
}

#[test]
fn http_extracts_page_id_from_query_parameter() {
    let page_id = extract_page_id_from_url(
        "https://example.atlassian.net/wiki/pages/viewpage.action?pageId=12345",
    )
    .expect("page id should be extracted");

    assert_eq!(page_id.get(), 12345);
}

#[test]
fn http_extracts_page_id_from_pretty_url() {
    let page_id = extract_page_id_from_url(
        "https://example.atlassian.net/wiki/spaces/ENG/pages/99887/some-page",
    )
    .expect("page id should be extracted");

    assert_eq!(page_id.get(), 99887);
}

#[test]
fn http_parses_next_start_from_paged_link() {
    let start = api().parse_next_start(Some(
        "/wiki/rest/api/content/123/child/attachment?start=100&limit=100",
    ));
    assert_eq!(start, Some(100));
}

#[test]
fn mod_extracts_page_id_from_query_parameter() {
    let page_id = extract_page_id_from_url(
        "https://example.atlassian.net/wiki/pages/viewpage.action?pageId=12345",
    )
    .expect("page id should be extracted");

    assert_eq!(page_id.get(), 12345);
}

#[test]
fn mod_extracts_page_id_from_pretty_url() {
    let page_id = extract_page_id_from_url(
        "https://example.atlassian.net/wiki/spaces/ENG/pages/99887/some-page",
    )
    .expect("page id should be extracted");

    assert_eq!(page_id.get(), 99887);
}

#[test]
fn mod_parses_next_start_from_paged_link() {
    let start = api().parse_next_start(Some(
        "/wiki/rest/api/content/123/child/attachment?start=100&limit=100",
    ));
    assert_eq!(start, Some(100));
}

#[test]
fn urls_without_an_id_give_none() {
    assert!(extract_page_id_from_url("https://example.atlassian.net/wiki/spaces/ENG/overview").is_none());
    assert!(extract_page_id_from_url("https://example.atlassian.net/wiki/pages/viewpage.action?pageId=abc").is_none());
}

#[test]
fn links_without_a_start_give_none() {
    assert_eq!(api().parse_next_start(None), None);
    assert_eq!(api().parse_next_start(Some("/wiki/rest/api/content?limit=25")), None);
}

#[test]
fn version_numbers_count_up_until_the_limit() {
    assert_eq!(next_version_number(7).unwrap(), 8);
    assert!(next_version_number(u32::MAX).is_err());
}

#[test]
fn text_search_quotes_the_query() {
    let cql = text_search_cql("release \"notes\"");
    assert_eq!(cql, "type=page and text~\"release \\\"notes\\\"\"");
}

#[test]
fn property_keys_are_percent_encoded_byte_by_byte() {
    assert_eq!(api().encode_property_key("a b/c-d_e.f~g"), "a%20b%2Fc-d_e.f~g");
    assert_eq!(api().encode_property_key("é"), "%C3%A9");
}

#[test]
fn attachment_listing_pages_are_collected_in_order() {
    let item = |id: &str, title: &str, download: Option<&str>| AttachmentV1 {
        id: id.to_owned(),
        title: title.to_owned(),
        metadata: Some(AttachmentMetadata { media_type: Some("image/png".to_owned()) }),
        extensions: Some(AttachmentExtensions { file_size: Some(12) }),
        version: None,
        links: ResponseLinks { next: None, download: download.map(str::to_owned) },
    };
    let mut items: Vec<AttachmentSummary> = Vec::new();
    let first = AttachmentListResponse {
        results: vec![item("a-1", "one.png", Some("/wiki/download/attachments/1/one.png"))],
        links: ResponseLinks {
            next: Some("/wiki/rest/api/content/1/child/attachment?start=1&limit=100".to_owned()),
            download: None,
        },
    };
    assert_eq!(first.collect_into(&api(), &mut items), Some(1));
    let last = AttachmentListResponse {
        results: vec![item("a-2", "two.png", None)],
        links: ResponseLinks { next: None, download: None },
    };
    assert_eq!(last.collect_into(&api(), &mut items), None);
    assert_eq!(items.len(), 2);
    assert_eq!(items[0].id, "a-1");
    assert_eq!(items[0].media_type, "image/png");
    assert_eq!(items[0].file_size, 12);
    assert_eq!(
        items[0].download_link.as_deref(),
        Some("https://example.atlassian.net/wiki/download/attachments/1/one.png")
    );
    assert_eq!(items[1].title, "two.png");
    assert_eq!(items[1].download_link, None);
}
