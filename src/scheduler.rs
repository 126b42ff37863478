//! The fetch orchestrator: what one fetch of one feed does to the store, and
//! which feeds a scheduler tick fetches.
use vstd::prelude::*;
use crate::entry::{article_of, guid_of, normalize_entry, RawEntry};
use crate::fetch::{decimal, decimal_string, feed_side, is_feed_side_problem, reason_of, FeedDocument, FetchError, FetchResult};
use crate::interval::{next_adaptive_state, next_state, valid_interval, AdaptiveState};
use crate::models::{Article, Feed, FetchLog, FetchMode, LogType, NewArticle};
use crate::store::{clone_opt, has_key, Store};

verus! {

/// How a fetch of one feed ended, when it did not fail.
#[derive(Clone, Copy, Debug, PartialEq, Eq, Structural)]
pub enum FetchSingleFeedResult {
    Updated { new_articles_count: usize },
    NotModified,
}

/// The adaptive state of a feed.
pub open spec fn state_of(f: Feed) -> AdaptiveState {
    AdaptiveState { fetch_interval_minutes: f.fetch_interval_minutes, consecutive_new_articles: f.consecutive_new_articles }
}

/// The feed after a fetch that found `n` new articles: in adaptive mode its
/// interval and counter move as the controller says; in custom mode nothing
/// changes.
pub open spec fn adapted(f: Feed, n: nat) -> Feed {
    match f.fetch_frequency {
        FetchMode::Adaptive => Feed {
            fetch_interval_minutes: next_state(state_of(f), n).fetch_interval_minutes,
            consecutive_new_articles: next_state(state_of(f), n).consecutive_new_articles,
            ..f
        },
        FetchMode::CustomHours(_) => f,
    }
}

/// The controller keeps a valid interval valid, in either mode.
pub proof fn lemma_adapted_interval_valid(f: Feed, n: nat)
    requires
        valid_interval(f.fetch_interval_minutes as int),
    ensures
        valid_interval(adapted(f, n).fetch_interval_minutes as int),
        adapted(f, n).id == f.id,
        adapted(f, n).last_fetched_at == f.last_fetched_at,
{
}

/// The adaptive state to store after a fetch with `new_articles_count` new
/// articles: `None` for a custom-mode feed, and when nothing changed.
pub fn update_adaptive_interval(feed: &Feed, new_articles_count: usize) -> (r: Option<AdaptiveState>)
    requires
        valid_interval(feed.fetch_interval_minutes as int),
    ensures
        feed.fetch_frequency is CustomHours ==> r is None,
        feed.fetch_frequency is Adaptive ==> (if next_state(state_of(*feed), new_articles_count as nat) == state_of(*feed) {
            r is None
        } else {
            r == Some(next_state(state_of(*feed), new_articles_count as nat))
        }),
{
    match feed.fetch_frequency {
        FetchMode::CustomHours(_) => None,
        FetchMode::Adaptive => {
            let current = AdaptiveState {
                fetch_interval_minutes: feed.fetch_interval_minutes,
                consecutive_new_articles: feed.consecutive_new_articles,
            };
            let next = next_adaptive_state(current, new_articles_count);
            if next.fetch_interval_minutes != current.fetch_interval_minutes
                || next.consecutive_new_articles != current.consecutive_new_articles {
                Some(next)
            } else {
                None
            }
        },
    }
}

/// Applies the adaptive controller to feed `k` of the store.
fn apply_adaptive_interval(store: &mut Store, k: usize, new_articles_count: usize)
    requires
        k < old(store).feeds@.len(),
        valid_interval(old(store).feeds@[k as int].fetch_interval_minutes as int),
    ensures
        final(store).feeds@ == old(store).feeds@.update(k as int, adapted(old(store).feeds@[k as int], new_articles_count as nat)),
        final(store).articles == old(store).articles,
        final(store).logs == old(store).logs,
{
    match update_adaptive_interval(&store.feeds[k], new_articles_count) {
        Some(next) => {
            store.update_adaptive_state(k, next.consecutive_new_articles, next.fetch_interval_minutes);
        },
        None => {
            assert(old(store).feeds@[k as int] == adapted(old(store).feeds@[k as int], new_articles_count as nat));
            assert(old(store).feeds@ =~= old(store).feeds@.update(k as int, old(store).feeds@[k as int]));
        },
    }
}

/// The text of a fetch error, as it is written to the fetch log.
pub open spec fn error_text(e: FetchError) -> Seq<char> {
    match e {
        FetchError::RequestFailed { status, message, .. } => "HTTP request failed with status "@ + decimal(
            status as nat,
        ) + " "@ + match reason_of(status) {
            Some(r) => r,
            None => "<unknown status code>"@,
        } + ": "@ + message@,
        FetchError::NetworkError { message, .. } => "Network error: "@ + message@,
        FetchError::ParseError(m) => "Feed parsing failed: "@ + m@,
        FetchError::InvalidFormat => "Invalid feed format"@,
    }
}

/// Writes the text of a fetch error.
pub fn describe_error(e: &FetchError) -> (r: String)
    ensures
        r@ == error_text(*e),
{
    match e {
        FetchError::RequestFailed { status, message, .. } => {
            let mut s = String::from_str("HTTP request failed with status ");
            let code = decimal_string(*status);
            s.append(code.as_str());
            s.append(" ");
            match crate::fetch::canonical_reason(*status) {
                Some(r) => s.append(r.as_str()),
                None => s.append("<unknown status code>"),
            }
            s.append(": ");
            s.append(message.as_str());
            s
        },
        FetchError::NetworkError { message, .. } => {
            let mut s = String::from_str("Network error: ");
            s.append(message.as_str());
            s
        },
        FetchError::ParseError(m) => {
            let mut s = String::from_str("Feed parsing failed: ");
            s.append(m.as_str());
            s
        },
        FetchError::InvalidFormat => String::from_str("Invalid feed format"),
    }
}

/// The log record of a failed fetch: `rate_limited` for HTTP 429, `error`
/// otherwise, with the HTTP status and `Retry-After` where there were any.
pub open spec fn error_log_ok(e: FetchError, feed_id: i64, now: i64, log: FetchLog) -> bool {
    &&& log.feed_id == feed_id
    &&& log.fetched_at == now
    &&& (match log.error_message {
        Some(m) => m@ == error_text(e),
        None => false,
    })
    &&& match e {
        FetchError::RequestFailed { status, retry_after, .. } => {
            &&& log.log_type == (if status == 429 { LogType::RateLimited } else { LogType::Error })
            &&& log.status_code == Some(status as i32)
            &&& log.retry_after == retry_after
        },
        _ => log.log_type == LogType::Error && log.status_code is None && log.retry_after is None,
    }
}

/// Records a failed fetch of feed `k`: writes the log record, advances the
/// feed's `last_fetched_at` only for a feed-side failure (so a transient
/// failure is retried on the next tick), and doubles the interval of an
/// adaptive feed as for any fetch without new articles. The error is handed
/// back.
pub fn handle_feed_fetch_error(store: &mut Store, k: usize, error: FetchError, now: i64) -> (r: FetchError)
    requires
        k < old(store).feeds@.len(),
        valid_interval(old(store).feeds@[k as int].fetch_interval_minutes as int),
    ensures
        r == error,
        final(store).articles == old(store).articles,
        final(store).logs@.len() == old(store).logs@.len() + 1,
        final(store).logs@.drop_last() == old(store).logs@,
        error_log_ok(error, old(store).feeds@[k as int].id, now, final(store).logs@.last()),
        ({
            let f = old(store).feeds@[k as int];
            let touched = if feed_side(error) { Feed { last_fetched_at: Some(now), ..f } } else { f };
            final(store).feeds@ == old(store).feeds@.update(k as int, adapted(touched, 0))
        }),
{
    let feed_id = store.feeds[k].id;
    let (log_type, status_code, retry_after) = match &error {
        FetchError::RequestFailed { status, retry_after, .. } => {
            let t = if *status == 429 {
                LogType::RateLimited
            } else {
                LogType::Error
            };
            (t, Some(*status as i32), clone_opt(retry_after))
        },
        _ => (LogType::Error, None, None),
    };
    let message = describe_error(&error);
    store.insert_log(FetchLog { feed_id, log_type, status_code, error_message: Some(message), retry_after, fetched_at: now });
    if is_feed_side_problem(&error) {
        store.touch_feed(k, now);
    }
    apply_adaptive_interval(store, k, 0);
    proof {
        assert(final(store).logs@.drop_last() =~= old(store).logs@);
    }
    error
}

/// Records a `304 Not Modified`: a `not_modified` log record, the feed marked
/// as fetched, no article, and the interval of an adaptive feed doubled as for
/// any fetch without new articles.
pub fn handle_feed_not_modified(store: &mut Store, k: usize, now: i64) -> (r: FetchSingleFeedResult)
    requires
        k < old(store).feeds@.len(),
        valid_interval(old(store).feeds@[k as int].fetch_interval_minutes as int),
    ensures
        r == FetchSingleFeedResult::NotModified,
        final(store).articles == old(store).articles,
        final(store).logs@ == old(store).logs@.push(FetchLog {
            feed_id: old(store).feeds@[k as int].id,
            log_type: LogType::NotModified,
            status_code: None,
            error_message: None,
            retry_after: None,
            fetched_at: now,
        }),
        ({
            let f = old(store).feeds@[k as int];
            final(store).feeds@ == old(store).feeds@.update(k as int, adapted(Feed { last_fetched_at: Some(now), ..f }, 0))
        }),
{
    let feed_id = store.feeds[k].id;
    store.insert_log(FetchLog {
        feed_id,
        log_type: LogType::NotModified,
        status_code: None,
        error_message: None,
        retry_after: None,
        fetched_at: now,
    });
    store.touch_feed(k, now);
    apply_adaptive_interval(store, k, 0);
    FetchSingleFeedResult::NotModified
}

/// Articles `from..` of `articles` belong to feed `feed_id`.
pub open spec fn tail_of_feed(articles: Seq<Article>, from: int, feed_id: i64) -> bool {
    forall|m: int| from <= m < articles.len() ==> (#[trigger] articles[m]).feed_id == feed_id
}

/// Whether some entry listed in `picked` has guid `g`.
pub open spec fn guid_picked(entries: Seq<RawEntry>, picked: Seq<int>, now: Seq<char>, g: Seq<char>) -> bool {
    exists|x: int| 0 <= x < picked.len() && 0 <= picked[x] < entries.len() && guid_of(#[trigger] entries[picked[x]], now) == g
}

/// Positions of the entries that create an article: for each guid that the
/// feed does not have yet in `stored`, the first entry with that guid, in
/// entry order.
pub open spec fn fresh_entries(stored: Seq<Article>, feed_id: i64, entries: Seq<RawEntry>, now: Seq<char>) -> Seq<int>
    decreases entries.len(),
{
    if entries.len() == 0 {
        Seq::empty()
    } else {
        let prev = fresh_entries(stored, feed_id, entries.drop_last(), now);
        let g = guid_of(entries.last(), now);
        if has_key(stored, feed_id, g) || guid_picked(entries, prev, now, g) {
            prev
        } else {
            prev.push(entries.len() - 1)
        }
    }
}

/// An article without its id.
pub open spec fn as_new(a: Article) -> NewArticle {
    NewArticle {
        feed_id: a.feed_id,
        guid: a.guid,
        title: a.title,
        url: a.url,
        content: a.content,
        summary: a.summary,
        author: a.author,
        published_at: a.published_at,
        og_image: a.og_image,
        og_description: a.og_description,
        og_site_name: a.og_site_name,
    }
}

/// Article `a` is entry `e` of feed `feed_id`, normalized and stored under
/// id `id`.
pub open spec fn stored_from(a: Article, id: int, feed_id: i64, e: RawEntry, now: Seq<char>) -> bool {
    a.id == id && article_of(feed_id, e, now, as_new(a))
}

/// The id and URL of each article that has a URL, in order.
pub open spec fn url_queue(articles: Seq<Article>) -> Seq<(i64, String)>
    decreases articles.len(),
{
    if articles.len() == 0 {
        Seq::empty()
    } else {
        let q = url_queue(articles.drop_last());
        match articles.last().url {
            Some(u) => q.push((articles.last().id, u)),
            None => q,
        }
    }
}

/// Normalizes and stores the entries of one fetch of feed `feed_id`, skipping
/// those whose guid the feed already has. Gives the number of articles
/// created, and the id and URL of each new article that has a URL, for the
/// page-preview worker.
pub fn insert_articles_from_entries(store: &mut Store, feed_id: i64, entries: &Vec<RawEntry>, now: &str) -> (r: (usize, Vec<(i64, String)>))
    requires
        old(store).wf(),
        old(store).articles@.len() + entries@.len() < i64::MAX,
    ensures
        final(store).wf(),
        final(store).feeds == old(store).feeds,
        final(store).logs == old(store).logs,
        final(store).articles@.len() == old(store).articles@.len() + r.0,
        final(store).articles@.subrange(0, old(store).articles@.len() as int) == old(store).articles@,
        tail_of_feed(final(store).articles@, old(store).articles@.len() as int, feed_id),
        forall|j: int| 0 <= j < entries@.len() ==> has_key(final(store).articles@, feed_id, guid_of(#[trigger] entries@[j], now@)),
        r.0 == fresh_entries(old(store).articles@, feed_id, entries@, now@).len(),
        forall|x: int| 0 <= x < r.0 ==> stored_from(
            #[trigger] final(store).articles@[old(store).articles@.len() + x],
            old(store).articles@.len() + x + 1,
            feed_id,
            entries@[fresh_entries(old(store).articles@, feed_id, entries@, now@)[x]],
            now@,
        ),
        r.1@ == url_queue(final(store).articles@.subrange(old(store).articles@.len() as int, final(store).articles@.len() as int)),
{
    let ghost start = old(store).articles@.len() as int;
    let mut count: usize = 0;
    let mut queue: Vec<(i64, String)> = Vec::new();
    let mut i: usize = 0;
    while i < entries.len()
        invariant
            store.wf(),
            store.feeds == old(store).feeds,
            store.logs == old(store).logs,
            start == old(store).articles@.len(),
            i <= entries@.len(),
            count <= i,
            start + entries@.len() < i64::MAX,
            store.articles@.len() == start + count,
            store.articles@.subrange(0, start) == old(store).articles@,
            tail_of_feed(store.articles@, start, feed_id),
            forall|j: int| 0 <= j < i ==> has_key(store.articles@, feed_id, guid_of(#[trigger] entries@[j], now@)),
            count == fresh_entries(old(store).articles@, feed_id, entries@.take(i as int), now@).len(),
            forall|x: int| 0 <= x < count ==> 0 <= #[trigger] fresh_entries(old(store).articles@, feed_id, entries@.take(i as int), now@)[x] < i,
            forall|x: int| 0 <= x < count ==> stored_from(
                #[trigger] store.articles@[start + x],
                start + x + 1,
                feed_id,
                entries@[fresh_entries(old(store).articles@, feed_id, entries@.take(i as int), now@)[x]],
                now@,
            ),
            forall|g: Seq<char>| #[trigger] has_key(store.articles@, feed_id, g) <==> (has_key(old(store).articles@, feed_id, g)
                || guid_picked(entries@, fresh_entries(old(store).articles@, feed_id, entries@.take(i as int), now@), now@, g)),
            queue@ == url_queue(store.articles@.subrange(start, store.articles@.len() as int)),
        decreases entries@.len() - i,
    {
        let ghost before = store.articles@;
        let ghost stored_before = old(store).articles@;
        let ghost e_all = entries@;
        let ghost prev = fresh_entries(stored_before, feed_id, e_all.take(i as int), now@);
        let ghost t1 = e_all.take(i + 1);
        let ghost g = guid_of(e_all[i as int], now@);
        proof {
            assert(t1.drop_last() =~= e_all.take(i as int));
            assert(t1.last() == e_all[i as int]);
            assert(guid_picked(t1, prev, now@, g) == guid_picked(e_all, prev, now@, g)) by {
                if guid_picked(t1, prev, now@, g) {
                    let x = choose|x: int| 0 <= x < prev.len() && 0 <= prev[x] < t1.len() && guid_of(#[trigger] t1[prev[x]], now@) == g;
                    assert(t1[prev[x]] == e_all[prev[x]]);
                }
                if guid_picked(e_all, prev, now@, g) {
                    let x = choose|x: int| 0 <= x < prev.len() && 0 <= prev[x] < e_all.len() && guid_of(#[trigger] e_all[prev[x]], now@) == g;
                    assert(0 <= prev[x] < i);
                    assert(t1[prev[x]] == e_all[prev[x]]);
                }
            }
            assert(has_key(before, feed_id, g) == (has_key(stored_before, feed_id, g) || guid_picked(e_all, prev, now@, g)));
        }
        let article = normalize_entry(feed_id, &entries[i], now);
        let ghost art = article;
        let url = clone_opt(&article.url);
        match store.insert_article_if_new(article) {
            Some(stored) => {
                count += 1;
                if let Some(u) = url {
                    queue.push((stored.id, u));
                }
                proof {
                    let after = store.articles@;
                    let fresh1 = fresh_entries(stored_before, feed_id, t1, now@);
                    assert(after == before.push(stored));
                    assert(fresh1 == prev.push(i as int));
                    assert(after.subrange(0, start) =~= before.subrange(0, start));
                    assert(as_new(stored) == art);
                    assert forall|j: int| 0 <= j <= i implies has_key(after, feed_id, guid_of(#[trigger] entries@[j], now@)) by {
                        if j < i {
                            let w = choose|w: int| 0 <= w < before.len() && #[trigger] before[w].feed_id == feed_id && before[w].guid@ == guid_of(entries@[j], now@);
                            assert(after[w] == before[w]);
                        } else {
                            assert(after[before.len() as int] == stored);
                            assert(after[before.len() as int].feed_id == feed_id);
                        }
                    }
                    assert forall|x: int| 0 <= x < count implies 0 <= #[trigger] fresh1[x] < i + 1 by {
                        if x < count - 1 {
                            assert(fresh1[x] == prev[x]);
                        }
                    }
                    assert forall|x: int| 0 <= x < count implies stored_from(
                        #[trigger] after[start + x],
                        start + x + 1,
                        feed_id,
                        e_all[fresh1[x]],
                        now@,
                    ) by {
                        if x < count - 1 {
                            assert(after[start + x] == before[start + x]);
                            assert(fresh1[x] == prev[x]);
                        } else {
                            assert(after[start + x] == stored);
                        }
                    }
                    assert forall|h: Seq<char>| #[trigger] has_key(after, feed_id, h) <==> (has_key(stored_before, feed_id, h)
                        || guid_picked(e_all, fresh1, now@, h)) by {
                        if has_key(after, feed_id, h) {
                            let w = choose|w: int| 0 <= w < after.len() && #[trigger] after[w].feed_id == feed_id && after[w].guid@ == h;
                            if w < before.len() {
                                assert(after[w] == before[w]);
                                assert(has_key(before, feed_id, h));
                                if guid_picked(e_all, prev, now@, h) {
                                    let x = choose|x: int| 0 <= x < prev.len() && 0 <= prev[x] < e_all.len() && guid_of(#[trigger] e_all[prev[x]], now@) == h;
                                    assert(fresh1[x] == prev[x]);
                                }
                            } else {
                                assert(after[w] == stored);
                                assert(fresh1[prev.len() as int] == i);
                            }
                        }
                        if guid_picked(e_all, fresh1, now@, h) {
                            let x = choose|x: int| 0 <= x < fresh1.len() && 0 <= fresh1[x] < e_all.len() && guid_of(#[trigger] e_all[fresh1[x]], now@) == h;
                            if x < prev.len() {
                                assert(fresh1[x] == prev[x]);
                                assert(guid_picked(e_all, prev, now@, h));
                                assert(has_key(before, feed_id, h));
                                let w = choose|w: int| 0 <= w < before.len() && #[trigger] before[w].feed_id == feed_id && before[w].guid@ == h;
                                assert(after[w] == before[w]);
                            } else {
                                assert(after[before.len() as int] == stored);
                            }
                        }
                        if has_key(stored_before, feed_id, h) {
                            assert(has_key(before, feed_id, h));
                            let w = choose|w: int| 0 <= w < before.len() && #[trigger] before[w].feed_id == feed_id && before[w].guid@ == h;
                            assert(after[w] == before[w]);
                        }
                    }
                    let sub = after.subrange(start, after.len() as int);
                    assert(sub.drop_last() =~= before.subrange(start, before.len() as int));
                    assert(sub.last() == stored);
                }
            },
            None => {
                proof {
                    assert(fresh_entries(stored_before, feed_id, t1, now@) == prev);
                    assert(has_key(before, feed_id, guid_of(entries@[i as int], now@)));
                    assert forall|j: int| 0 <= j <= i implies has_key(store.articles@, feed_id, guid_of(#[trigger] entries@[j], now@)) by {
                    }
                }
            },
        }
        i += 1;
    }
    assert(entries@.take(entries@.len() as int) =~= entries@);
    (count, queue)
}

/// The feed after a successful fetch, before the adaptive controller runs:
/// the feed's title where it gives one; a description only where the feed had
/// none (the feed's description, else its title, else its URL); site URL and
/// cache validators as fetched; the advisory TTL where one came; and the time
/// of the fetch.
pub open spec fn refreshed(
    f: Feed,
    doc: FeedDocument,
    etag: Option<String>,
    last_modified: Option<String>,
    ttl: Option<i64>,
    now: i64,
) -> Feed {
    Feed {
        title: match doc.title {
            Some(t) => t,
            None => f.title,
        },
        description: match f.description {
            Some(d) => Some(d),
            None => match doc.description {
                Some(d) => Some(d),
                None => match doc.title {
                    Some(t) => Some(t),
                    None => Some(f.url),
                },
            },
        },
        site_url: if doc.links@.len() > 0 {
            Some(doc.links@[0])
        } else {
            None
        },
        etag,
        last_modified,
        ttl_minutes: match ttl {
            Some(t) => Some(t),
            None => f.ttl_minutes,
        },
        last_fetched_at: Some(now),
        ..f
    }
}

/// What a successful fetch of feed `k` that created `n` articles did to the
/// store.
pub open spec fn update_effect(
    before: Store,
    after: Store,
    k: int,
    doc: FeedDocument,
    etag: Option<String>,
    last_modified: Option<String>,
    ttl: Option<i64>,
    now: i64,
    now_text: Seq<char>,
    n: nat,
    queue: Seq<(i64, String)>,
) -> bool {
    let f = before.feeds@[k];
    let start = before.articles@.len() as int;
    &&& after.wf()
    &&& after.logs@ == before.logs@.push(FetchLog {
        feed_id: f.id,
        log_type: LogType::Success,
        status_code: None,
        error_message: None,
        retry_after: None,
        fetched_at: now,
    })
    &&& after.feeds@ == before.feeds@.update(k, adapted(refreshed(f, doc, etag, last_modified, ttl, now), n))
    &&& after.articles@.len() == start + n
    &&& after.articles@.subrange(0, start) == before.articles@
    &&& tail_of_feed(after.articles@, start, f.id)
    &&& forall|j: int| 0 <= j < doc.entries@.len() ==> has_key(after.articles@, f.id, guid_of(#[trigger] doc.entries@[j], now_text))
    &&& n == fresh_entries(before.articles@, f.id, doc.entries@, now_text).len()
    &&& forall|x: int| 0 <= x < n ==> stored_from(
        #[trigger] after.articles@[start + x],
        start + x + 1,
        f.id,
        doc.entries@[fresh_entries(before.articles@, f.id, doc.entries@, now_text)[x]],
        now_text,
    )
    &&& queue == url_queue(after.articles@.subrange(start, after.articles@.len() as int))
}

/// Records a successful fetch of feed `k`: a `success` log record, the
/// feed's details, cache validators and advisory TTL, the new articles, and
/// the adaptive controller's step for their number. Gives the number of new
/// articles and the page-preview queue.
pub fn handle_feed_update(
    store: &mut Store,
    k: usize,
    doc: FeedDocument,
    etag: Option<String>,
    last_modified: Option<String>,
    ttl: Option<i64>,
    now: i64,
    now_text: &str,
) -> (r: (FetchSingleFeedResult, Vec<(i64, String)>))
    requires
        old(store).wf(),
        k < old(store).feeds@.len(),
        valid_interval(old(store).feeds@[k as int].fetch_interval_minutes as int),
        old(store).articles@.len() + doc.entries@.len() < i64::MAX,
    ensures
        r.0 matches FetchSingleFeedResult::Updated { new_articles_count: n } && update_effect(
            *old(store),
            *final(store),
            k as int,
            doc,
            etag,
            last_modified,
            ttl,
            now,
            now_text@,
            n as nat,
            r.1@,
        ),
{
    let ghost f = old(store).feeds@[k as int];
    let feed_id = store.feeds[k].id;
    store.insert_log(FetchLog {
        feed_id,
        log_type: LogType::Success,
        status_code: None,
        error_message: None,
        retry_after: None,
        fetched_at: now,
    });
    if let Some(t) = ttl {
        let changed = match store.feeds[k].ttl_minutes {
            Some(old_t) => old_t != t,
            None => true,
        };
        if changed {
            store.update_ttl_display(k, ttl);
        }
    }
    let ghost f1 = store.feeds@[k as int];
    assert(f1 == Feed { ttl_minutes: match ttl { Some(t) => Some(t), None => f.ttl_minutes }, ..f });
    let description = match &store.feeds[k].description {
        Some(_) => None,
        None => match &doc.description {
            Some(d) => Some(d.clone()),
            None => match &doc.title {
                Some(t) => Some(t.clone()),
                None => Some(store.feeds[k].url.clone()),
            },
        },
    };
    let title = clone_opt(&doc.title);
    let site_url = if doc.links.len() > 0 {
        Some(doc.links[0].clone())
    } else {
        None
    };
    store.update_feed_details(k, title, description, site_url, etag, last_modified, now);
    let ghost f2 = store.feeds@[k as int];
    assert(f2 == refreshed(f, doc, etag, last_modified, ttl, now));
    let ghost mid = *store;
    let (count, queue) = insert_articles_from_entries(store, feed_id, &doc.entries, now_text);
    apply_adaptive_interval(store, k, count);
    proof {
        let start = old(store).articles@.len() as int;
        assert(mid.articles == old(store).articles);
        assert(store.logs == mid.logs);
        assert(store.wf());
        assert(store.feeds@ == old(store).feeds@.update(k as int, adapted(refreshed(f, doc, etag, last_modified, ttl, now), count as nat)));
        assert(store.articles@.len() == start + count);
        assert(store.articles@.subrange(0, start) == old(store).articles@);
        assert(tail_of_feed(store.articles@, start, f.id));
        assert(queue@ == url_queue(store.articles@.subrange(start, store.articles@.len() as int)));
    }
    (FetchSingleFeedResult::Updated { new_articles_count: count }, queue)
}

/// One fetch of feed `k`, given what the conditional fetch brought: a new
/// document, "not modified", or an error. Every path writes one log record;
/// the error is handed back to the caller as it came.
pub fn fetch_single_feed(
    store: &mut Store,
    k: usize,
    outcome: Result<FetchResult, FetchError>,
    now: i64,
    now_text: &str,
) -> (r: (Result<FetchSingleFeedResult, FetchError>, Vec<(i64, String)>))
    requires
        old(store).wf(),
        k < old(store).feeds@.len(),
        valid_interval(old(store).feeds@[k as int].fetch_interval_minutes as int),
        outcome matches Ok(FetchResult::Updated { feed, .. }) ==> old(store).articles@.len() + feed.entries@.len() < i64::MAX,
    ensures
        final(store).wf(),
        final(store).feeds@.len() == old(store).feeds@.len(),
        valid_interval(final(store).feeds@[k as int].fetch_interval_minutes as int),
        final(store).logs@.len() == old(store).logs@.len() + 1,
        match outcome {
            Ok(FetchResult::Updated { feed, etag, last_modified, ttl }) => r.0 matches Ok(
                FetchSingleFeedResult::Updated { new_articles_count: n },
            ) && update_effect(*old(store), *final(store), k as int, feed, etag, last_modified, ttl, now, now_text@, n as nat, r.1@),
            Ok(FetchResult::NotModified) => {
                &&& r.0 == Ok::<FetchSingleFeedResult, FetchError>(FetchSingleFeedResult::NotModified)
                &&& r.1@.len() == 0
                &&& final(store).articles == old(store).articles
                &&& final(store).logs@.last().log_type == LogType::NotModified
                &&& final(store).feeds@ == old(store).feeds@.update(k as int, adapted(Feed { last_fetched_at: Some(now), ..old(store).feeds@[k as int] }, 0))
            },
            Err(e) => {
                let f = old(store).feeds@[k as int];
                let touched = if feed_side(e) { Feed { last_fetched_at: Some(now), ..f } } else { f };
                &&& r.0 == Err::<FetchSingleFeedResult, FetchError>(e)
                &&& r.1@.len() == 0
                &&& final(store).articles == old(store).articles
                &&& error_log_ok(e, f.id, now, final(store).logs@.last())
                &&& final(store).feeds@ == old(store).feeds@.update(k as int, adapted(touched, 0))
            },
        },
{
    proof {
        let f = old(store).feeds@[k as int];
        lemma_adapted_interval_valid(Feed { last_fetched_at: Some(now), ..f }, 0);
        lemma_adapted_interval_valid(f, 0);
    }
    match outcome {
        Ok(FetchResult::Updated { feed, etag, last_modified, ttl }) => {
            proof {
                let f = old(store).feeds@[k as int];
                assert forall|n: nat| valid_interval(adapted(refreshed(f, feed, etag, last_modified, ttl, now), n).fetch_interval_minutes as int) by {
                    lemma_adapted_interval_valid(refreshed(f, feed, etag, last_modified, ttl, now), n);
                }
            }
            let (res, queue) = handle_feed_update(store, k, feed, etag, last_modified, ttl, now, now_text);
            (Ok(res), queue)
        },
        Ok(FetchResult::NotModified) => {
            let res = handle_feed_not_modified(store, k, now);
            (Ok(res), Vec::new())
        },
        Err(e) => {
            let err = handle_feed_fetch_error(store, k, e, now);
            (Err(err), Vec::new())
        },
    }
}

/// The tallies of one scheduler tick, for its closing log line.
#[derive(Clone, Copy, Debug, PartialEq, Eq, Structural)]
pub struct CycleSummary {
    pub updated_feeds: usize,
    pub new_articles: usize,
    pub failed_feeds: usize,
}

impl CycleSummary {
    /// A tick that has fetched nothing yet.
    pub fn new() -> (r: CycleSummary)
        ensures
            r == (CycleSummary { updated_feeds: 0, new_articles: 0, failed_feeds: 0 }),
    {
        CycleSummary { updated_feeds: 0, new_articles: 0, failed_feeds: 0 }
    }

    /// Counts the result of one feed's fetch; no failure stops the tick.
    /// Tallies stop at `usize::MAX`.
    pub fn record(&mut self, r: &Result<FetchSingleFeedResult, FetchError>)
        ensures
            match r {
                Ok(FetchSingleFeedResult::Updated { new_articles_count }) => *final(self) == CycleSummary {
                    updated_feeds: sat_add(old(self).updated_feeds, 1),
                    new_articles: sat_add(old(self).new_articles, *new_articles_count),
                    ..*old(self)
                },
                Ok(FetchSingleFeedResult::NotModified) => *final(self) == *old(self),
                Err(_) => *final(self) == CycleSummary { failed_feeds: sat_add(old(self).failed_feeds, 1), ..*old(self) },
            },
    {
        match r {
            Ok(FetchSingleFeedResult::Updated { new_articles_count }) => {
                self.updated_feeds = self.updated_feeds.saturating_add(1);
                self.new_articles = self.new_articles.saturating_add(*new_articles_count);
            },
            Ok(FetchSingleFeedResult::NotModified) => {},
            Err(_) => {
                self.failed_feeds = self.failed_feeds.saturating_add(1);
            },
        }
    }
}

/// `a + b`, or `usize::MAX` where the sum does not fit.
pub open spec fn sat_add(a: usize, b: usize) -> usize {
    if a + b > usize::MAX {
        usize::MAX
    } else {
        (a + b) as usize
    }
}

} // verus!
