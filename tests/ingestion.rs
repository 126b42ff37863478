use fluxfeed::entry::RawEntry;
use fluxfeed::fetch::{FeedDocument, FetchError, FetchResult};
use fluxfeed::models::{CreateFeed, FetchMode, LogType, NewArticle};
use fluxfeed::scheduler::{fetch_single_feed, update_adaptive_interval, CycleSummary, FetchSingleFeedResult};
use fluxfeed::store::Store;

const NOW: i64 = 1_700_000_000;
const NOW_TEXT: &str = "2023-11-14T22:13:20+00:00";

fn new_article(guid: &str, title: &str, content: &str) -> NewArticle {
    NewArticle {
        feed_id: 1,
        guid: guid.to_string(),
        title: title.to_string(),
        url: Some("https://example.com/article".to_string()),
        content: Some(content.to_string()),
        summary: Some("Summary".to_string()),
        author: Some("Author".to_string()),
        published_at: None,
        og_image: None,
        og_description: None,
        og_site_name: None,
    }
}

fn store_with_feed() -> Store {
    let mut store = Store::new();
    let k = store
        .create_feed(CreateFeed {
            url: "https://example.com/feed".to_string(),
            title: "Test Feed".to_string(),
            description: None,
        })
        .unwrap();
    assert_eq!(k, 0);
    store
}

fn entry(id: &str, title: &str, link: Option<&str>) -> RawEntry {
    RawEntry {
        id: id.to_string(),
        title: Some(title.to_string()),
        links: link.map(|l| vec![l.to_string()]).unwrap_or_default(),
        content_body: Some("<p>hi</p><script>x()</script>".to_string()),
        summary: None,
        authors: vec![],
        published: None,
        updated: None,
    }
}

fn updated(entries: Vec<RawEntry>) -> Result<FetchResult, FetchError> {
    Ok(FetchResult::Updated {
        feed: FeedDocument {
            title: Some("Remote Title".to_string()),
            description: None,
            links: vec!["https://example.com".to_string()],
            entries,
        },
        etag: Some("etag-123".to_string()),
        last_modified: Some("Mon, 01 Jan 2024 00:00:00 GMT".to_string()),
        ttl: None,
    })
}

#[test]
fn test_insert_article_if_new() {
    let mut store = store_with_feed();
    let first = store.insert_article_if_new(new_article("guid-123", "Test Article", "Article content"));
    let first = first.expect("first insert creates the article");
    assert_eq!(first.guid, "guid-123");
    assert_eq!(first.title, "Test Article");

    let second = store.insert_article_if_new(new_article("guid-123", "Test Article Updated", "Updated content"));
    assert!(second.is_none());
    assert_eq!(store.articles.len(), 1);
    assert_eq!(store.articles[0].title, "Test Article");
    assert_eq!(store.articles[0].content.as_deref(), Some("Article content"));
}

#[test]
fn same_guid_in_another_feed_is_stored() {
    let mut store = store_with_feed();
    assert!(store.insert_article_if_new(new_article("g", "A", "a")).is_some());
    let mut other = new_article("g", "B", "b");
    other.feed_id = 2;
    assert!(store.insert_article_if_new(other).is_some());
    assert_eq!(store.articles.len(), 2);
    assert_eq!(store.articles[1].id, 2);
}

#[test]
fn connect_timeout_advances_last_fetched_at() {
    let mut store = store_with_feed();
    let err = FetchError::NetworkError { is_connect: false, is_timeout: true, message: "operation timed out".to_string() };
    let (r, queue) = fetch_single_feed(&mut store, 0, Err(err.clone()), NOW, NOW_TEXT);
    assert_eq!(r, Err(err));
    assert!(queue.is_empty());
    assert_eq!(store.feeds[0].last_fetched_at, Some(NOW));
    assert_eq!(store.logs.len(), 1);
    assert_eq!(store.logs[0].log_type, LogType::Error);
    assert_eq!(store.logs[0].status_code, None);
}

#[test]
fn dns_message_is_feed_side() {
    let mut store = store_with_feed();
    let err = FetchError::NetworkError { is_connect: false, is_timeout: false, message: "error trying to connect: DNS error".to_string() };
    let _ = fetch_single_feed(&mut store, 0, Err(err), NOW, NOW_TEXT);
    assert_eq!(store.feeds[0].last_fetched_at, Some(NOW));
    let mut store = store_with_feed();
    let err = FetchError::NetworkError { is_connect: false, is_timeout: false, message: "body was cut short".to_string() };
    let _ = fetch_single_feed(&mut store, 0, Err(err), NOW, NOW_TEXT);
    assert_eq!(store.feeds[0].last_fetched_at, None);
}

#[test]
fn http_500_leaves_last_fetched_at() {
    let mut store = store_with_feed();
    let err = FetchError::RequestFailed { status: 500, message: "500 - Internal Server Error".to_string(), retry_after: None };
    let (r, _) = fetch_single_feed(&mut store, 0, Err(err.clone()), NOW, NOW_TEXT);
    assert_eq!(r, Err(err));
    assert_eq!(store.feeds[0].last_fetched_at, None);
    assert_eq!(store.logs[0].log_type, LogType::Error);
    assert_eq!(store.logs[0].status_code, Some(500));
    assert_eq!(
        store.logs[0].error_message.as_deref(),
        Some("HTTP request failed with status 500 Internal Server Error: 500 - Internal Server Error")
    );
    assert_eq!(store.feeds[0].fetch_interval_minutes, 120);
}

#[test]
fn http_429_is_rate_limited_with_retry_after() {
    let mut store = store_with_feed();
    let err = FetchError::RequestFailed { status: 429, message: "429 - Too Many Requests".to_string(), retry_after: Some("120".to_string()) };
    let _ = fetch_single_feed(&mut store, 0, Err(err), NOW, NOW_TEXT);
    assert_eq!(store.logs[0].log_type, LogType::RateLimited);
    assert_eq!(store.logs[0].retry_after.as_deref(), Some("120"));
    assert_eq!(store.feeds[0].last_fetched_at, None);
}

#[test]
fn not_modified_logs_and_doubles() {
    let mut store = store_with_feed();
    let (r, queue) = fetch_single_feed(&mut store, 0, Ok(FetchResult::NotModified), NOW, NOW_TEXT);
    assert_eq!(r, Ok(FetchSingleFeedResult::NotModified));
    assert!(queue.is_empty());
    assert!(store.articles.is_empty());
    assert_eq!(store.logs.len(), 1);
    assert_eq!(store.logs[0].log_type, LogType::NotModified);
    assert_eq!(store.feeds[0].fetch_interval_minutes, 120);
    assert_eq!(store.feeds[0].consecutive_new_articles, 0);
    assert_eq!(store.feeds[0].last_fetched_at, Some(NOW));
}

#[test]
fn three_fetch_scenario() {
    let mut store = store_with_feed();
    let a = vec![
        entry("a1", "One", Some("https://example.com/1")),
        entry("a2", "Two", None),
        entry("a3", "Three", Some("https://example.com/3")),
    ];
    let (r, queue) = fetch_single_feed(&mut store, 0, updated(a.clone()), NOW, NOW_TEXT);
    assert_eq!(r, Ok(FetchSingleFeedResult::Updated { new_articles_count: 3 }));
    assert_eq!(queue, vec![(1, "https://example.com/1".to_string()), (3, "https://example.com/3".to_string())]);
    assert_eq!((store.feeds[0].fetch_interval_minutes, store.feeds[0].consecutive_new_articles), (60, 1));

    let mut b = a.clone();
    b.push(entry("b1", "Four", None));
    let (r, _) = fetch_single_feed(&mut store, 0, updated(b.clone()), NOW + 3600, NOW_TEXT);
    assert_eq!(r, Ok(FetchSingleFeedResult::Updated { new_articles_count: 1 }));
    assert_eq!((store.feeds[0].fetch_interval_minutes, store.feeds[0].consecutive_new_articles), (60, 2));

    let (r, _) = fetch_single_feed(&mut store, 0, updated(b), NOW + 7200, NOW_TEXT);
    assert_eq!(r, Ok(FetchSingleFeedResult::Updated { new_articles_count: 0 }));
    assert_eq!((store.feeds[0].fetch_interval_minutes, store.feeds[0].consecutive_new_articles), (120, 0));
    assert_eq!(store.articles.len(), 4);
    assert_eq!(store.logs.len(), 3);
    assert!(store.logs.iter().all(|l| l.log_type == LogType::Success));
}

#[test]
fn test_update_feed_metadata() {
    let mut store = store_with_feed();
    let _ = fetch_single_feed(&mut store, 0, updated(vec![]), NOW, NOW_TEXT);
    let f = &store.feeds[0];
    assert_eq!(f.etag.as_deref(), Some("etag-123"));
    assert_eq!(f.last_modified.as_deref(), Some("Mon, 01 Jan 2024 00:00:00 GMT"));
    assert_eq!(f.title, "Remote Title");
    assert_eq!(f.description.as_deref(), Some("Remote Title"));
    assert_eq!(f.site_url.as_deref(), Some("https://example.com"));
    assert_eq!(f.last_fetched_at, Some(NOW));
}

#[test]
fn ttl_is_stored_without_touching_interval() {
    let mut store = store_with_feed();
    let res = Ok(FetchResult::Updated {
        feed: FeedDocument { title: None, description: None, links: vec![], entries: vec![entry("x", "X", None)] },
        etag: None,
        last_modified: None,
        ttl: Some(30),
    });
    let _ = fetch_single_feed(&mut store, 0, res, NOW, NOW_TEXT);
    assert_eq!(store.feeds[0].ttl_minutes, Some(30));
    assert_eq!(store.feeds[0].fetch_interval_minutes, 60);
    assert_eq!(store.feeds[0].description.as_deref(), Some("https://example.com/feed"));
    assert_eq!(store.articles[0].content.as_deref(), Some("<p>hi</p>"));
}

#[test]
fn custom_mode_interval_never_adapts() {
    let mut store = store_with_feed();
    store.feeds[0].fetch_frequency = FetchMode::CustomHours(2);
    store.feeds[0].fetch_interval_minutes = 120;
    assert_eq!(update_adaptive_interval(&store.feeds[0], 0), None);
    let _ = fetch_single_feed(&mut store, 0, Ok(FetchResult::NotModified), NOW, NOW_TEXT);
    assert_eq!(store.feeds[0].fetch_interval_minutes, 120);
}

#[test]
fn due_feeds_and_duplicate_registration() {
    let mut store = store_with_feed();
    let dup = store.create_feed(CreateFeed { url: "https://example.com/feed".to_string(), title: "x".to_string(), description: None });
    assert_eq!(dup, Err(fluxfeed::frequency::FeedServiceError::DuplicateUrl));
    store.create_feed(CreateFeed { url: "https://b.example/feed".to_string(), title: "b".to_string(), description: None }).unwrap();
    assert_eq!(store.feeds_due_for_fetch(NOW), vec![0, 1]);
    store.touch_feed(1, NOW);
    assert_eq!(store.feeds_due_for_fetch(NOW + 60 * 60 - 1), vec![0]);
    assert_eq!(store.feeds_due_for_fetch(NOW + 60 * 60), vec![0, 1]);
}

#[test]
fn cycle_summary_counts() {
    let mut s = CycleSummary::new();
    s.record(&Ok(FetchSingleFeedResult::Updated { new_articles_count: 3 }));
    s.record(&Ok(FetchSingleFeedResult::NotModified));
    s.record(&Err(FetchError::InvalidFormat));
    assert_eq!(s, CycleSummary { updated_feeds: 1, new_articles: 3, failed_feeds: 1 });
}

#[test]
fn due_feeds_oldest_first_never_fetched_first() {
    let mut store = store_with_feed();
    store.create_feed(CreateFeed { url: "https://b.example/feed".to_string(), title: "b".to_string(), description: None }).unwrap();
    store.create_feed(CreateFeed { url: "https://c.example/feed".to_string(), title: "c".to_string(), description: None }).unwrap();
    store.touch_feed(0, 0);
    store.touch_feed(2, 100);
    assert_eq!(store.feeds_due_for_fetch(3600), vec![1, 0]);
    assert_eq!(store.feeds_due_for_fetch(3700), vec![1, 0, 2]);
}

#[test]
fn entry_without_id_keeps_link_title_guid() {
    let xml = "<rss version=\"2.0\"><channel><title>B</title><item><title>T</title><link>https://b.example/1</link></item></channel></rss>";
    let doc = match fluxfeed::fetch::read_feed_body(xml, None, None).unwrap() {
        FetchResult::Updated { feed, .. } => feed,
        FetchResult::NotModified => panic!("expected a document"),
    };
    assert_eq!(doc.entries[0].id, "");
    assert_eq!(fluxfeed::entry::generate_guid(&doc.entries[0], NOW_TEXT), "https://b.example/1-T");
}
