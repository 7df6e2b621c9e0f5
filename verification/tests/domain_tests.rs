use confluence_cli::domain::{PageId, PageRef};
use confluence_cli::error::ConfluenceCliError;

#[test]
fn parses_numeric_page_ref() {
    let page_ref = PageRef::parse("123").expect("page ref should parse");
    assert_eq!(page_ref, PageRef::Id(PageId::new(123)));
}

#[test]
fn parses_url_page_ref() {
    let page_ref = PageRef::parse("https://example.atlassian.net/wiki/spaces/ENG/pages/123")
        .expect("page ref should parse");

    assert_eq!(
        page_ref,
        PageRef::Url("https://example.atlassian.net/wiki/spaces/ENG/pages/123".to_owned())
    );
}

#[test]
fn rejects_invalid_page_ref() {
    let error = PageRef::parse("not-a-page-ref").expect_err("page ref should fail");
    assert!(matches!(error, ConfluenceCliError::InvalidPageRef(_)));
}

#[test]
fn largest_page_id_parses_and_one_more_does_not() {
    assert_eq!(
        PageRef::parse("18446744073709551615").unwrap(),
        PageRef::Id(PageId::new(u64::MAX))
    );
    assert!(matches!(
        PageRef::parse("18446744073709551616"),
        Err(ConfluenceCliError::InvalidPageRef(_))
    ));
}

#[test]
fn plain_http_urls_are_page_refs() {
    assert_eq!(
        PageRef::parse("http://wiki.local/pages/5").unwrap(),
        PageRef::Url("http://wiki.local/pages/5".to_owned())
    );
}

#[test]
fn an_id_written_out_reads_back() {
    let id = 9_876_543_210u64;
    assert_eq!(PageRef::parse(&id.to_string()).unwrap(), PageRef::Id(PageId::new(id)));
}

#[test]
fn page_refs_parse_through_from_str() {
    let parsed: PageRef = "12345".parse().expect("numeric ref should parse");
    assert_eq!(parsed, PageRef::Id(PageId::new(12345)));
    assert_eq!(
        confluence_cli::application::models::PageContentKind::default(),
        confluence_cli::application::models::PageContentKind::Page
    );
}
