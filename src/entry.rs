//! Turns a raw feed entry into an article: a stable identity and clean fields.
use vstd::prelude::*;
use crate::models::NewArticle;
use crate::store::clone_opt;

verus! {

/// A feed entry as the feed parser delivered it. Dates are RFC 3339 strings
/// in UTC.
#[derive(Clone, Debug)]
pub struct RawEntry {
    pub id: String,
    pub title: Option<String>,
    pub links: Vec<String>,
    pub content_body: Option<String>,
    pub summary: Option<String>,
    pub authors: Vec<String>,
    pub published: Option<String>,
    pub updated: Option<String>,
}

/// What `ammonia::clean` makes of an HTML fragment.
pub uninterp spec fn clean_html(s: Seq<char>) -> Seq<char>;

/// Relies on `ammonia::clean`: the fragment with scripts and unsafe markup
/// removed; the result depends on the input alone.
#[verifier::external_body]
pub(crate) fn sanitize_html(s: &str) -> (r: String)
    ensures
        r@ == clean_html(s@),
{
    ammonia::clean(s)
}

/// The entry's title, or `default` when it has none.
pub open spec fn title_or(e: RawEntry, default: Seq<char>) -> Seq<char> {
    match e.title {
        Some(t) => t@,
        None => default,
    }
}

/// The entry's publication date, else its update date.
pub open spec fn date_of(e: RawEntry) -> Option<String> {
    match e.published {
        Some(p) => Some(p),
        None => e.updated,
    }
}

/// The dedup identity of an entry: its id if not empty; else its first link,
/// a dash and its title; else its title (or `untitled`), a dash and its date
/// (or the time `now` of the fetch).
pub open spec fn guid_of(e: RawEntry, now: Seq<char>) -> Seq<char> {
    if e.id@.len() > 0 {
        e.id@
    } else if e.links@.len() > 0 {
        e.links@[0]@ + "-"@ + title_or(e, ""@)
    } else {
        title_or(e, "untitled"@) + "-"@ + match date_of(e) {
            Some(d) => d@,
            None => now,
        }
    }
}

/// Computes the dedup identity of an entry; `now` is the RFC 3339 time of
/// the fetch.
pub fn generate_guid(e: &RawEntry, now: &str) -> (r: String)
    ensures
        r@ == guid_of(*e, now@),
{
    if e.id.unicode_len() > 0 {
        e.id.clone()
    } else if e.links.len() > 0 {
        let mut g = e.links[0].clone();
        g.append("-");
        match &e.title {
            Some(t) => g.append(t.as_str()),
            None => g.append(""),
        }
        g
    } else {
        let mut g = match &e.title {
            Some(t) => t.clone(),
            None => String::from_str("untitled"),
        };
        g.append("-");
        match &e.published {
            Some(p) => g.append(p.as_str()),
            None => match &e.updated {
                Some(u) => g.append(u.as_str()),
                None => g.append(now),
            },
        }
        g
    }
}

/// The entry's title, or `Untitled`.
pub fn extract_title(e: &RawEntry) -> (r: String)
    ensures
        r@ == title_or(*e, "Untitled"@),
{
    match &e.title {
        Some(t) => t.clone(),
        None => String::from_str("Untitled"),
    }
}

/// The first link of the entry, if any.
pub fn extract_url(e: &RawEntry) -> (r: Option<String>)
    ensures
        e.links@.len() > 0 ==> r == Some(e.links@[0]),
        e.links@.len() == 0 ==> r is None,
{
    if e.links.len() > 0 {
        Some(e.links[0].clone())
    } else {
        None
    }
}

/// The sanitized form of an optional HTML fragment.
pub open spec fn cleaned(o: Option<String>) -> Option<Seq<char>> {
    match o {
        Some(s) => Some(clean_html(s@)),
        None => None,
    }
}

pub open spec fn view_opt(o: Option<String>) -> Option<Seq<char>> {
    match o {
        Some(s) => Some(s@),
        None => None,
    }
}

fn sanitize_opt(o: &Option<String>) -> (r: Option<String>)
    ensures
        view_opt(r) == cleaned(*o),
{
    match o {
        Some(s) => Some(sanitize_html(s.as_str())),
        None => None,
    }
}

/// The sanitized content body of the entry, if any.
pub fn extract_content(e: &RawEntry) -> (r: Option<String>)
    ensures
        view_opt(r) == cleaned(e.content_body),
{
    sanitize_opt(&e.content_body)
}

/// The sanitized summary of the entry, if any.
pub fn extract_summary(e: &RawEntry) -> (r: Option<String>)
    ensures
        view_opt(r) == cleaned(e.summary),
{
    sanitize_opt(&e.summary)
}

/// The name of the entry's first author, if any.
pub fn extract_author(e: &RawEntry) -> (r: Option<String>)
    ensures
        e.authors@.len() > 0 ==> r == Some(e.authors@[0]),
        e.authors@.len() == 0 ==> r is None,
{
    if e.authors.len() > 0 {
        Some(e.authors[0].clone())
    } else {
        None
    }
}

/// The entry's publication date, else its update date.
pub fn extract_published_date(e: &RawEntry) -> (r: Option<String>)
    ensures
        r == date_of(*e),
{
    match &e.published {
        Some(p) => Some(p.clone()),
        None => clone_opt(&e.updated),
    }
}

/// The article of feed `feed_id` that an entry stands for.
pub open spec fn article_of(feed_id: i64, e: RawEntry, now: Seq<char>, a: NewArticle) -> bool {
    &&& a.feed_id == feed_id
    &&& a.guid@ == guid_of(e, now)
    &&& a.title@ == title_or(e, "Untitled"@)
    &&& a.url == (if e.links@.len() > 0 { Some(e.links@[0]) } else { None })
    &&& view_opt(a.content) == cleaned(e.content_body)
    &&& view_opt(a.summary) == cleaned(e.summary)
    &&& a.author == (if e.authors@.len() > 0 { Some(e.authors@[0]) } else { None })
    &&& a.published_at == date_of(e)
    &&& a.og_image is None
    &&& a.og_description is None
    &&& a.og_site_name is None
}

/// Normalizes an entry into an article of feed `feed_id`, with no page
/// preview yet.
pub fn normalize_entry(feed_id: i64, e: &RawEntry, now: &str) -> (r: NewArticle)
    ensures
        article_of(feed_id, *e, now@, r),
{
    NewArticle {
        feed_id,
        guid: generate_guid(e, now),
        title: extract_title(e),
        url: extract_url(e),
        content: extract_content(e),
        summary: extract_summary(e),
        author: extract_author(e),
        published_at: extract_published_date(e),
        og_image: None,
        og_description: None,
        og_site_name: None,
    }
}

} // verus!
