//! Registering a feed.
use vstd::prelude::*;
use crate::forms::UpdateFeedForm;
use crate::frequency::{frequency_minutes, parse_fetch_frequency, trim, trim_of, FeedServiceError};
use crate::interval::MIN_INTERVAL_MINUTES;
use crate::models::{CreateFeed, Feed, FetchMode};
use crate::store::Store;
use crate::text::{begins_with, starts_with, str_eq};
use vstd::utf8::encode_utf8;

verus! {

/// The first check of a new subscription, before its host is resolved: the
/// URL must be http or https. A feed without a title is named by its URL
/// until its first fetch.
pub fn new_feed_request(url: String, title: Option<String>) -> (r: Result<CreateFeed, FeedServiceError>)
    ensures
        !(begins_with(url@, "http://"@) || begins_with(url@, "https://"@)) ==> (match r {
            Err(FeedServiceError::InvalidUrl(m)) => m@ == "URL must start with http:// or https://"@,
            _ => false,
        }),
        (begins_with(url@, "http://"@) || begins_with(url@, "https://"@)) ==> (match r {
            Ok(c) => c.url == url && c.title == (match title {
                Some(t) => t,
                None => url,
            }) && c.description is None,
            _ => false,
        }),
{
    if !starts_with(url.as_str(), "http://") && !starts_with(url.as_str(), "https://") {
        return Err(FeedServiceError::InvalidUrl(String::from_str("URL must start with http:// or https://")));
    }
    let feed_title = match title {
        Some(t) => t,
        None => url.clone(),
    };
    Ok(CreateFeed { url, title: feed_title, description: None })
}

/// The validated fields of an edited feed.
#[derive(Clone, Debug)]
pub struct FeedEdit {
    pub title: String,
    pub url: String,
    pub description: Option<String>,
    pub fetch_frequency: FetchMode,
    pub fetch_interval_minutes: i64,
    pub color: String,
}

/// A colour written `#RRGGBB`: a `#` and seven bytes in all.
pub open spec fn hex_color_shape(c: Seq<char>) -> bool {
    begins_with(c, "#"@) && encode_utf8(c).len() == 7
}

/// The polling mode that a frequency field selects: only the exact word
/// `adaptive` selects adaptive mode; anything else that reads as hours fixes
/// the interval.
pub open spec fn mode_of(frequency: Seq<char>, minutes: i64) -> FetchMode {
    if frequency == "adaptive"@ {
        FetchMode::Adaptive
    } else {
        FetchMode::CustomHours((minutes / 60) as i64)
    }
}

/// Checks an edited feed: an http or https URL, a `#RRGGBB` colour and a
/// valid fetch frequency, in that order. A description that is only
/// whitespace is dropped.
pub fn validate_feed_edit(form: UpdateFeedForm) -> (r: Result<FeedEdit, FeedServiceError>)
    ensures
        !(begins_with(form.url@, "http://"@) || begins_with(form.url@, "https://"@)) ==> (match r {
            Err(FeedServiceError::InvalidUrl(m)) => m@ == "URL must start with http:// or https://"@,
            _ => false,
        }),
        (begins_with(form.url@, "http://"@) || begins_with(form.url@, "https://"@)) && !hex_color_shape(form.color@) ==> (match r {
            Err(FeedServiceError::InvalidUrl(m)) => m@ == "Color must be in hex format (#RRGGBB)"@,
            _ => false,
        }),
        (begins_with(form.url@, "http://"@) || begins_with(form.url@, "https://"@)) && hex_color_shape(form.color@) ==> match frequency_minutes(trim_of(form.fetch_frequency@)) {
            None => r == Err::<FeedEdit, FeedServiceError>(FeedServiceError::InvalidFrequency),
            Some(m) => r matches Ok(e) && e.fetch_interval_minutes == m && e.fetch_frequency == mode_of(
                form.fetch_frequency@,
                m,
            ) && e.title == form.title && e.url == form.url && e.color == form.color && e.description == (match form.description {
                Some(d) => if trim_of(d@).len() == 0 {
                    None
                } else {
                    Some(d)
                },
                None => None,
            }),
        },
{
    if !starts_with(form.url.as_str(), "http://") && !starts_with(form.url.as_str(), "https://") {
        return Err(FeedServiceError::InvalidUrl(String::from_str("URL must start with http:// or https://")));
    }
    let color_bytes = form.color.as_str().as_bytes();
    if !(starts_with(form.color.as_str(), "#") && color_bytes.len() == 7) {
        return Err(FeedServiceError::InvalidUrl(String::from_str("Color must be in hex format (#RRGGBB)")));
    }
    let minutes = parse_fetch_frequency(form.fetch_frequency.as_str())?;
    let mode = if str_eq(form.fetch_frequency.as_str(), "adaptive") {
        FetchMode::Adaptive
    } else {
        FetchMode::CustomHours((minutes / 60) as i64)
    };
    let description = match form.description {
        Some(d) => if trim(d.as_str()).unicode_len() == 0 {
            None
        } else {
            Some(d)
        },
        None => None,
    };
    Ok(FeedEdit {
        title: form.title,
        url: form.url,
        description,
        fetch_frequency: mode,
        fetch_interval_minutes: minutes,
        color: form.color,
    })
}

/// Whether some feed of `feeds` has URL `url`.
pub open spec fn url_taken(feeds: Seq<Feed>, url: Seq<char>) -> bool {
    exists|i: int| 0 <= i < feeds.len() && (#[trigger] feeds[i]).url@ == url
}

/// A newly registered feed: adaptive, polled hourly, never fetched.
pub open spec fn registered(c: CreateFeed, id: i64) -> Feed {
    Feed {
        id,
        url: c.url,
        title: c.title,
        description: c.description,
        site_url: None,
        last_fetched_at: None,
        last_modified: None,
        etag: None,
        fetch_interval_minutes: MIN_INTERVAL_MINUTES,
        fetch_frequency: FetchMode::Adaptive,
        ttl_minutes: None,
        consecutive_new_articles: 0,
    }
}

impl Store {
    /// Registers a feed, refusing a URL that is already subscribed. Gives the
    /// index of the new feed.
    pub fn create_feed(&mut self, c: CreateFeed) -> (r: Result<usize, FeedServiceError>)
        requires
            old(self).feeds@.len() < i64::MAX,
        ensures
            final(self).articles == old(self).articles,
            final(self).logs == old(self).logs,
            url_taken(old(self).feeds@, c.url@) ==> r == Err::<usize, FeedServiceError>(FeedServiceError::DuplicateUrl)
                && final(self).feeds == old(self).feeds,
            !url_taken(old(self).feeds@, c.url@) ==> r == Ok::<usize, FeedServiceError>(old(self).feeds@.len() as usize)
                && final(self).feeds@ == old(self).feeds@.push(registered(c, (old(self).feeds@.len() + 1) as i64)),
    {
        let mut i: usize = 0;
        while i < self.feeds.len()
            invariant
                i <= self.feeds@.len(),
                forall|j: int| 0 <= j < i ==> (#[trigger] self.feeds@[j]).url@ != c.url@,
            decreases self.feeds@.len() - i,
        {
            if self.feeds[i].url == c.url {
                return Err(FeedServiceError::DuplicateUrl);
            }
            i += 1;
        }
        let k = self.feeds.len();
        let id = k as i64 + 1;
        self.feeds.push(Feed {
            id,
            url: c.url,
            title: c.title,
            description: c.description,
            site_url: None,
            last_fetched_at: None,
            last_modified: None,
            etag: None,
            fetch_interval_minutes: MIN_INTERVAL_MINUTES,
            fetch_frequency: FetchMode::Adaptive,
            ttl_minutes: None,
            consecutive_new_articles: 0,
        });
        Ok(k)
    }

    /// Stores the edited fields of feed `k`.
    pub fn apply_feed_edit(&mut self, k: usize, edit: FeedEdit)
        requires
            k < old(self).feeds@.len(),
        ensures
            final(self).feeds@ == old(self).feeds@.update(k as int, Feed {
                title: edit.title,
                url: edit.url,
                description: edit.description,
                fetch_frequency: edit.fetch_frequency,
                fetch_interval_minutes: edit.fetch_interval_minutes,
                ..old(self).feeds@[k as int]
            }),
            final(self).articles == old(self).articles,
            final(self).logs == old(self).logs,
    {
        self.feeds[k].title = edit.title;
        self.feeds[k].url = edit.url;
        self.feeds[k].description = edit.description;
        self.feeds[k].fetch_frequency = edit.fetch_frequency;
        self.feeds[k].fetch_interval_minutes = edit.fetch_interval_minutes;
    }
}

} // verus!
