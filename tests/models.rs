use fluxfeed::models::{CreateFeed, LogType};

#[test]
fn test_create_feed_without_description() {
    let feed = CreateFeed {
        url: "https://example.com/feed".to_string(),
        title: "Test Feed".to_string(),
        description: None,
    };

    assert_eq!(feed.url, "https://example.com/feed");
    assert_eq!(feed.title, "Test Feed");
    assert!(feed.description.is_none());
}

#[test]
fn log_type_names() {
    assert_eq!(LogType::Success.as_str(), "success");
    assert_eq!(LogType::NotModified.as_str(), "not_modified");
    assert_eq!(LogType::Error.as_str(), "error");
    assert_eq!(LogType::RateLimited.as_str(), "rate_limited");
}

#[test]
fn user_agent_names_the_package() {
    assert_eq!(fluxfeed::user_agent(), "FluxFeed/0.1.0");
}
