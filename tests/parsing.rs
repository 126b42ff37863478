use fluxfeed::entry::{generate_guid, normalize_entry, RawEntry};
use fluxfeed::fetch::{classify_response, extract_ttl_from_xml, read_feed_body, FetchError, FetchResult, ResponseClass};
use fluxfeed::forms::{parse_ids, FetchResponse};
use fluxfeed::import::{import_result, parse_import_input, ImportJob, ImportJobStatus, ParsedFeedEntry};
use fluxfeed::frequency::FeedServiceError;
use fluxfeed::enrichment::{extract_page_preview, safe_image_url};
use fluxfeed::feeds::{new_feed_request, validate_feed_edit};
use fluxfeed::models::FetchMode;
use fluxfeed::config::{Config, ConfigError};
use fluxfeed::text::split_on;
use fluxfeed::ssrf::{prepare_url_check, SsrfError};

fn raw(id: &str, title: Option<&str>, link: Option<&str>, published: Option<&str>) -> RawEntry {
    RawEntry {
        id: id.to_string(),
        title: title.map(|t| t.to_string()),
        links: link.map(|l| vec![l.to_string()]).unwrap_or_default(),
        content_body: None,
        summary: Some("<b>s</b><script>evil()</script>".to_string()),
        authors: vec!["Ann".to_string(), "Bob".to_string()],
        published: published.map(|p| p.to_string()),
        updated: None,
    }
}

#[test]
fn guid_order_of_preference() {
    let now = "2024-01-01T00:00:00+00:00";
    assert_eq!(generate_guid(&raw("id-1", Some("T"), Some("https://x/1"), None), now), "id-1");
    assert_eq!(generate_guid(&raw("", Some("T"), Some("https://x/1"), None), now), "https://x/1-T");
    assert_eq!(generate_guid(&raw("", None, Some("https://x/1"), None), now), "https://x/1-");
    assert_eq!(
        generate_guid(&raw("", Some("T"), None, Some("2023-05-06T07:08:09+00:00")), now),
        "T-2023-05-06T07:08:09+00:00"
    );
    assert_eq!(generate_guid(&raw("", None, None, None), now), "untitled-2024-01-01T00:00:00+00:00");
}

#[test]
fn normalized_entry_fields() {
    let a = normalize_entry(7, &raw("", None, Some("https://x/1"), None), "now");
    assert_eq!(a.feed_id, 7);
    assert_eq!(a.title, "Untitled");
    assert_eq!(a.url.as_deref(), Some("https://x/1"));
    assert_eq!(a.author.as_deref(), Some("Ann"));
    assert_eq!(a.summary.as_deref(), Some("<b>s</b>"));
    assert_eq!(a.content, None);
}

#[test]
fn response_classes() {
    assert_eq!(classify_response(304, None), ResponseClass::NotModified);
    assert_eq!(classify_response(200, None), ResponseClass::ReadBody);
    assert_eq!(
        classify_response(503, Some("60".to_string())),
        ResponseClass::Failed(FetchError::RequestFailed {
            status: 503,
            message: "503 - Service Unavailable".to_string(),
            retry_after: Some("60".to_string()),
        })
    );
    assert_eq!(
        classify_response(599, None),
        ResponseClass::Failed(FetchError::RequestFailed { status: 599, message: "599 - Unknown".to_string(), retry_after: None })
    );
}

#[test]
fn ttl_inside_channel_only() {
    let xml = "<rss><channel><title>t</title><ttl>45</ttl></channel></rss>";
    assert_eq!(extract_ttl_from_xml(xml), Some(45));
    assert_eq!(extract_ttl_from_xml("<rss><ttl>45</ttl><channel></channel></rss>"), None);
    assert_eq!(extract_ttl_from_xml("<rss><channel><ttl>0</ttl></channel></rss>"), None);
    assert_eq!(extract_ttl_from_xml("<rss><channel><ttl>abc</ttl><ttl>15</ttl></channel></rss>"), Some(15));
    assert_eq!(extract_ttl_from_xml(""), None);
}

#[test]
fn feed_body_is_parsed() {
    let xml = "<?xml version=\"1.0\"?><rss version=\"2.0\"><channel><title>Blog</title><link>https://blog.example/</link><description>About</description><ttl>90</ttl><item><title>Post</title><link>https://blog.example/post-1</link><guid>post-1</guid></item></channel></rss>";
    match read_feed_body(xml, Some("e".to_string()), None).unwrap() {
        FetchResult::Updated { feed, etag, last_modified, ttl } => {
            assert_eq!(feed.title.as_deref(), Some("Blog"));
            assert_eq!(feed.description.as_deref(), Some("About"));
            assert_eq!(feed.entries.len(), 1);
            assert_eq!(feed.entries[0].id, "post-1");
            assert_eq!(etag.as_deref(), Some("e"));
            assert_eq!(last_modified, None);
            assert_eq!(ttl, Some(90));
        }
        FetchResult::NotModified => panic!("expected a document"),
    }
    assert!(matches!(read_feed_body("not xml at all", None, None), Err(FetchError::ParseError(_))));
}

#[test]
fn ids_from_comma_list() {
    assert_eq!(parse_ids(Some("1, 2,x,,-3 ")), vec![1, 2, -3]);
    assert_eq!(parse_ids(None), Vec::<i64>::new());
    assert_eq!(parse_ids(Some("")), Vec::<i64>::new());
}

#[test]
fn split_keeps_empty_pieces() {
    assert_eq!(split_on("a,,b,", ','), vec!["a", "", "b", ""]);
    assert_eq!(split_on("", ','), vec![""]);
}

#[test]
fn import_lines() {
    let e = parse_import_input("https://a.example/feed  My  Feed \r\n\n   \nhttps://b.example/rss\nhttps://c.example/x \n");
    assert_eq!(e.len(), 3);
    assert_eq!(e[0].url, "https://a.example/feed");
    assert_eq!(e[0].title.as_deref(), Some("My  Feed"));
    assert_eq!(e[1].url, "https://b.example/rss");
    assert_eq!(e[1].title, None);
    assert_eq!(e[2].url, "https://c.example/x");
    assert_eq!(e[2].title, None);
}

#[test]
fn import_job_progress() {
    let mut job = ImportJob::new(2);
    assert_eq!(job.status, ImportJobStatus::Processing);
    let ok = import_result(
        ParsedFeedEntry { url: "u".to_string(), title: None },
        Ok(("https://a/".to_string(), "A".to_string())),
    );
    job.record(ok);
    let bad = import_result(ParsedFeedEntry { url: "u2".to_string(), title: Some("t".to_string()) }, Err(FeedServiceError::DuplicateUrl));
    assert_eq!(bad.error.as_deref(), Some("Feed URL already exists"));
    job.record(bad);
    job.complete();
    assert_eq!((job.processed, job.success_count, job.status), (2, 1, ImportJobStatus::Completed));
    let ssrf = import_result(ParsedFeedEntry { url: "u".to_string(), title: None }, Err(FeedServiceError::SsrfBlocked));
    assert_eq!(ssrf.error.as_deref(), Some("URL points to internal/private network (blocked for security)"));
}

#[test]
fn preview_image_must_be_http() {
    assert_eq!(safe_image_url(Some("javascript:alert(1)".to_string())), None);
    assert_eq!(safe_image_url(Some("https://img/x.png".to_string())).as_deref(), Some("https://img/x.png"));
    let html = "<html><head><meta property=\"og:image\" content=\"data:image/png;base64,AAA\"><meta property=\"og:site_name\" content=\"Site<script>x</script>\"></head></html>";
    let p = extract_page_preview(html, "https://site.example/");
    assert_eq!(p.og_image, None);
    assert_eq!(p.og_site_name.as_deref(), Some("Site"));
}

#[test]
fn new_feed_needs_http_scheme() {
    assert_eq!(
        new_feed_request("ftp://x".to_string(), None).unwrap_err(),
        FeedServiceError::InvalidUrl("URL must start with http:// or https://".to_string())
    );
    let c = new_feed_request("https://x/feed".to_string(), None).unwrap();
    assert_eq!(c.title, "https://x/feed");
}

#[test]
fn config_defaults_and_port() {
    let c = Config::from_values(None, None, None).unwrap();
    assert_eq!((c.database_url.as_str(), c.port, c.host.as_str()), ("sqlite://fluxfeed.db", 3000, "0.0.0.0"));
    assert_eq!(Config::from_values(None, Some("8080".to_string()), None).unwrap().port, 8080);
    assert!(matches!(Config::from_values(None, Some("70000".to_string()), None), Err(ConfigError::InvalidPort(_))));
    assert!(matches!(Config::from_values(None, Some("-0".to_string()), None), Err(ConfigError::InvalidPort(_))));
}

#[test]
fn manual_fetch_responses() {
    let r = FetchResponse::completed(2, 5);
    assert_eq!((r.message.as_str(), r.feeds_updated, r.new_articles), ("Feed fetch completed successfully", 2, 5));
    assert_eq!(FetchResponse::failed().message, "Feed fetch failed. Please try again later.");
}

fn edit_form(url: &str, color: &str, freq: &str, description: Option<&str>) -> fluxfeed::forms::UpdateFeedForm {
    fluxfeed::forms::UpdateFeedForm {
        title: "Updated Feed".to_string(),
        url: url.to_string(),
        description: description.map(|d| d.to_string()),
        fetch_frequency: freq.to_string(),
        color: color.to_string(),
        tag_ids: vec![],
        custom_hours: None,
    }
}

#[test]
fn feed_edit_validation() {
    assert_eq!(
        validate_feed_edit(edit_form("ftp://x", "#3b82f6", "adaptive", None)).unwrap_err(),
        FeedServiceError::InvalidUrl("URL must start with http:// or https://".to_string())
    );
    assert_eq!(
        validate_feed_edit(edit_form("https://example.com/feed.xml", "3b82f6", "adaptive", None)).unwrap_err(),
        FeedServiceError::InvalidUrl("Color must be in hex format (#RRGGBB)".to_string())
    );
    assert_eq!(
        validate_feed_edit(edit_form("https://example.com/feed.xml", "#3b82f6", "200", None)).unwrap_err(),
        FeedServiceError::InvalidFrequency
    );
    let e = validate_feed_edit(edit_form("https://example.com/feed.xml", "#3b82f6", "adaptive", Some("   "))).unwrap();
    assert_eq!((e.fetch_frequency, e.fetch_interval_minutes, e.description), (FetchMode::Adaptive, 60, None));
    let e = validate_feed_edit(edit_form("https://example.com/feed.xml", "#3b82f6", "12", Some("A test description"))).unwrap();
    assert_eq!((e.fetch_frequency, e.fetch_interval_minutes), (FetchMode::CustomHours(12), 720));
    assert_eq!(e.description.as_deref(), Some("A test description"));

    let mut store = fluxfeed::store::Store::new();
    store
        .create_feed(fluxfeed::models::CreateFeed { url: "https://example.com/feed".to_string(), title: "T".to_string(), description: None })
        .unwrap();
    store.apply_feed_edit(0, e);
    assert_eq!(store.feeds[0].url, "https://example.com/feed.xml");
    assert_eq!(store.feeds[0].fetch_interval_minutes, 720);
    assert_eq!(store.feeds[0].fetch_frequency, FetchMode::CustomHours(12));
}

#[test]
fn preview_skips_pages_the_parser_cannot_read_safely() {
    let risky = "<html><head><meta property=\"og:image\" content=\"https://img/a.png\"><meta property=\"og:image\u{e9}x\" content=\"y\"></head></html>";
    let p = extract_page_preview(risky, "https://site.example/");
    assert_eq!((p.og_image, p.og_description, p.og_site_name), (None, None, None));
    let with_entity = "<html><head><meta property=\"og:site_name\" content=\"A &amp; B\"></head></html>";
    assert_eq!(extract_page_preview(with_entity, "https://site.example/").og_site_name, None);
    let fine = "<html><head><meta property=\"og:image\" content=\"https://img/a.png\"><meta property=\"og:image\" content=\"https://img/b.png\"><meta property=\"og:description\" content=\"About\"></head></html>";
    let p = extract_page_preview(fine, "https://site.example/");
    assert_eq!(p.og_image.as_deref(), Some("https://img/a.png"));
    assert_eq!(p.og_description.as_deref(), Some("About"));
}

#[test]
fn unparsable_url_is_invalid() {
    assert!(matches!(prepare_url_check("http://"), Err(SsrfError::InvalidUrl(_))));
}
