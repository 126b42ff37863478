//! Feeds, articles and fetch log records.
use vstd::prelude::*;

verus! {

/// How a feed's polling interval is chosen.
#[derive(Clone, Copy, Debug, PartialEq, Eq, Structural)]
pub enum FetchMode {
    /// The interval follows the feed's observed update behaviour.
    Adaptive,
    /// The user fixed the interval, in hours.
    CustomHours(i64),
}

/// A subscribed feed. Timestamps are seconds since the Unix epoch.
#[derive(Clone, Debug)]
pub struct Feed {
    pub id: i64,
    pub url: String,
    pub title: String,
    pub description: Option<String>,
    pub site_url: Option<String>,
    pub last_fetched_at: Option<i64>,
    pub last_modified: Option<String>,
    pub etag: Option<String>,
    pub fetch_interval_minutes: i64,
    pub fetch_frequency: FetchMode,
    pub ttl_minutes: Option<i64>,
    pub consecutive_new_articles: i64,
}

/// The fields of a feed as a user registers it.
#[derive(Clone, Debug)]
pub struct CreateFeed {
    pub url: String,
    pub title: String,
    pub description: Option<String>,
}

/// An article ready to be stored, before it has an id.
#[derive(Clone, Debug)]
pub struct NewArticle {
    pub feed_id: i64,
    pub guid: String,
    pub title: String,
    pub url: Option<String>,
    pub content: Option<String>,
    pub summary: Option<String>,
    pub author: Option<String>,
    /// RFC 3339 timestamp.
    pub published_at: Option<String>,
    pub og_image: Option<String>,
    pub og_description: Option<String>,
    pub og_site_name: Option<String>,
}

/// A stored article.
#[derive(Clone, Debug)]
pub struct Article {
    pub id: i64,
    pub feed_id: i64,
    pub guid: String,
    pub title: String,
    pub url: Option<String>,
    pub content: Option<String>,
    pub summary: Option<String>,
    pub author: Option<String>,
    pub published_at: Option<String>,
    pub og_image: Option<String>,
    pub og_description: Option<String>,
    pub og_site_name: Option<String>,
}

/// The kind of a fetch log record.
#[derive(Clone, Copy, Debug, PartialEq, Eq, Structural)]
pub enum LogType {
    Success,
    NotModified,
    Error,
    RateLimited,
}

impl LogType {
    /// The name under which the kind is stored.
    pub fn as_str(&self) -> (r: &'static str)
        ensures
            *self == LogType::Success ==> r@ == "success"@,
            *self == LogType::NotModified ==> r@ == "not_modified"@,
            *self == LogType::Error ==> r@ == "error"@,
            *self == LogType::RateLimited ==> r@ == "rate_limited"@,
    {
        match self {
            LogType::Success => "success",
            LogType::NotModified => "not_modified",
            LogType::Error => "error",
            LogType::RateLimited => "rate_limited",
        }
    }
}

/// One audit record of a fetch attempt.
#[derive(Clone, Debug)]
pub struct FetchLog {
    pub feed_id: i64,
    pub log_type: LogType,
    pub status_code: Option<i32>,
    pub error_message: Option<String>,
    pub retry_after: Option<String>,
    pub fetched_at: i64,
}

impl NewArticle {
    /// The stored form of this article under id `id`.
    pub open spec fn stored_as(self, id: i64) -> Article {
        Article {
            id,
            feed_id: self.feed_id,
            guid: self.guid,
            title: self.title,
            url: self.url,
            content: self.content,
            summary: self.summary,
            author: self.author,
            published_at: self.published_at,
            og_image: self.og_image,
            og_description: self.og_description,
            og_site_name: self.og_site_name,
        }
    }
}

} // verus!
