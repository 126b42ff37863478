//! In-memory store of feeds, articles and fetch logs, with the operations
//! that the fetch orchestrator consumes.
use vstd::prelude::*;
use crate::models::{Article, Feed, FetchLog, LogType, NewArticle};

verus! {

/// Copies an optional string.
pub fn clone_opt(o: &Option<String>) -> (r: Option<String>)
    ensures
        r == *o,
{
    match o {
        Some(s) => Some(s.clone()),
        None => None,
    }
}

/// Copies an article to be stored, field by field.
pub fn copy_new_article(a: &NewArticle) -> (r: NewArticle)
    ensures
        r == *a,
{
    NewArticle {
        feed_id: a.feed_id,
        guid: a.guid.clone(),
        title: a.title.clone(),
        url: clone_opt(&a.url),
        content: clone_opt(&a.content),
        summary: clone_opt(&a.summary),
        author: clone_opt(&a.author),
        published_at: clone_opt(&a.published_at),
        og_image: clone_opt(&a.og_image),
        og_description: clone_opt(&a.og_description),
        og_site_name: clone_opt(&a.og_site_name),
    }
}

/// Whether `articles` holds an article of feed `feed_id` with guid `guid`.
pub open spec fn has_key(articles: Seq<Article>, feed_id: i64, guid: Seq<char>) -> bool {
    exists|i: int| 0 <= i < articles.len() && #[trigger] articles[i].feed_id == feed_id && articles[i].guid@ == guid
}

/// No two articles share their `(feed_id, guid)` pair.
pub open spec fn keys_unique(articles: Seq<Article>) -> bool {
    forall|i: int, j: int|
        0 <= i < articles.len() && 0 <= j < articles.len() && i != j
            && articles[i].feed_id == articles[j].feed_id ==> #[trigger] articles[i].guid@ != #[trigger] articles[j].guid@
}

/// The number of articles of feed `feed_id` with guid `guid`.
pub open spec fn count_key(articles: Seq<Article>, feed_id: i64, guid: Seq<char>) -> nat
    decreases articles.len(),
{
    if articles.len() == 0 {
        0
    } else {
        let last = articles.last();
        count_key(articles.drop_last(), feed_id, guid) + if last.feed_id == feed_id && last.guid@ == guid {
            1nat
        } else {
            0nat
        }
    }
}

/// The articles after storing `a` unless its key is already taken.
pub open spec fn after_insert(articles: Seq<Article>, a: NewArticle) -> Seq<Article> {
    if has_key(articles, a.feed_id, a.guid@) {
        articles
    } else {
        articles.push(a.stored_as((articles.len() + 1) as i64))
    }
}

proof fn lemma_count_absent(articles: Seq<Article>, feed_id: i64, guid: Seq<char>)
    requires
        !has_key(articles, feed_id, guid),
    ensures
        count_key(articles, feed_id, guid) == 0,
    decreases articles.len(),
{
    if articles.len() > 0 {
        let d = articles.drop_last();
        assert forall|i: int| 0 <= i < d.len() implies !(#[trigger] d[i].feed_id == feed_id && d[i].guid@ == guid) by {
            assert(d[i] == articles[i]);
        }
        assert(articles.last() == articles[articles.len() - 1]);
        lemma_count_absent(d, feed_id, guid);
    }
}

proof fn lemma_count_unique(articles: Seq<Article>, feed_id: i64, guid: Seq<char>)
    requires
        keys_unique(articles),
        has_key(articles, feed_id, guid),
    ensures
        count_key(articles, feed_id, guid) == 1,
    decreases articles.len(),
{
    let n = articles.len() as int;
    let d = articles.drop_last();
    let last = articles[n - 1];
    assert(articles.last() == last);
    assert(keys_unique(d)) by {
        assert forall|i: int, j: int|
            0 <= i < d.len() && 0 <= j < d.len() && i != j && d[i].feed_id == d[j].feed_id implies #[trigger] d[i].guid@ != #[trigger] d[j].guid@ by {
            assert(d[i] == articles[i] && d[j] == articles[j]);
        }
    }
    if last.feed_id == feed_id && last.guid@ == guid {
        assert forall|i: int| 0 <= i < d.len() implies !(#[trigger] d[i].feed_id == feed_id && d[i].guid@ == guid) by {
            assert(d[i] == articles[i]);
            if d[i].feed_id == feed_id && d[i].guid@ == guid {
                assert(articles[i].guid@ != articles[n - 1].guid@);
            }
        }
        lemma_count_absent(d, feed_id, guid);
    } else {
        let i = choose|i: int| 0 <= i < n && #[trigger] articles[i].feed_id == feed_id && articles[i].guid@ == guid;
        assert(i != n - 1);
        assert(d[i] == articles[i]);
        lemma_count_unique(d, feed_id, guid);
    }
}

/// Storing two articles with the same `(feed_id, guid)` one after the other
/// leaves exactly one article with that key: the second insert finds the key
/// taken, so it creates nothing and changes nothing.
pub proof fn lemma_insert_twice_stores_once(articles: Seq<Article>, a: NewArticle, b: NewArticle)
    requires
        keys_unique(articles),
        a.feed_id == b.feed_id,
        a.guid@ == b.guid@,
    ensures
        has_key(after_insert(articles, a), b.feed_id, b.guid@),
        after_insert(after_insert(articles, a), b) == after_insert(articles, a),
        count_key(after_insert(after_insert(articles, a), b), a.feed_id, a.guid@) == 1,
{
    let s1 = after_insert(articles, a);
    if !has_key(articles, a.feed_id, a.guid@) {
        let n = articles.len() as int;
        assert(s1[n].feed_id == a.feed_id && s1[n].guid@ == a.guid@);
        assert forall|i: int, j: int|
            0 <= i < s1.len() && 0 <= j < s1.len() && i != j && s1[i].feed_id == s1[j].feed_id implies #[trigger] s1[i].guid@ != #[trigger] s1[j].guid@ by {
            if i < n && j < n {
                assert(s1[i] == articles[i] && s1[j] == articles[j]);
            } else if i < n {
                assert(s1[i] == articles[i]);
            } else {
                assert(s1[j] == articles[j]);
            }
        }
    }
    lemma_count_unique(s1, a.feed_id, a.guid@);
}

/// Persistent state of the aggregator: feeds, articles and the fetch log.
pub struct Store {
    pub feeds: Vec<Feed>,
    pub articles: Vec<Article>,
    pub logs: Vec<FetchLog>,
}

impl Store {
    /// Articles are unique by `(feed_id, guid)`, and article ids count up from 1.
    pub open spec fn wf(&self) -> bool {
        &&& keys_unique(self.articles@)
        &&& forall|i: int| 0 <= i < self.articles@.len() ==> #[trigger] self.articles@[i].id == i + 1
    }

    /// An empty store.
    pub fn new() -> (r: Store)
        ensures
            r.wf(),
            r.feeds@.len() == 0,
            r.articles@.len() == 0,
            r.logs@.len() == 0,
    {
        Store { feeds: Vec::new(), articles: Vec::new(), logs: Vec::new() }
    }

    /// Whether feed `k` is due at time `now`: never fetched, or its interval
    /// has passed since the last fetch.
    pub open spec fn is_due(f: Feed, now: i64) -> bool {
        match f.last_fetched_at {
            None => true,
            Some(t) => now >= t + f.fetch_interval_minutes * 60,
        }
    }

    /// Whether feed `a` (at index `ia`) is fetched before feed `b` (at index
    /// `ib`): never-fetched feeds first, then by last fetch, oldest first,
    /// and by position in the store where that does not decide.
    pub open spec fn fetched_before(a: Feed, ia: int, b: Feed, ib: int) -> bool {
        match (a.last_fetched_at, b.last_fetched_at) {
            (None, None) => ia < ib,
            (None, Some(_)) => true,
            (Some(_), None) => false,
            (Some(ta), Some(tb)) => ta < tb || (ta == tb && ia < ib),
        }
    }

    /// `r` lists feed indices in the order in which they are fetched.
    pub open spec fn in_fetch_order(feeds: Seq<Feed>, r: Seq<usize>) -> bool {
        forall|x: int, y: int|
            0 <= x < y < r.len() ==> Self::fetched_before(feeds[r[x] as int], r[x] as int, feeds[r[y] as int], r[y] as int)
    }

    fn precedes(&self, a: usize, b: usize) -> (r: bool)
        requires
            a < self.feeds@.len(),
            b < self.feeds@.len(),
        ensures
            r == Self::fetched_before(self.feeds@[a as int], a as int, self.feeds@[b as int], b as int),
    {
        match (self.feeds[a].last_fetched_at, self.feeds[b].last_fetched_at) {
            (None, None) => a < b,
            (None, Some(_)) => true,
            (Some(_), None) => false,
            (Some(ta), Some(tb)) => ta < tb || (ta == tb && a < b),
        }
    }

    /// Indices of the feeds that are due at time `now`, each once:
    /// never-fetched feeds first, then by last fetch, oldest first, and by
    /// position in the store where that does not decide.
    pub fn feeds_due_for_fetch(&self, now: i64) -> (r: Vec<usize>)
        ensures
            forall|j: int| 0 <= j < r@.len() ==> (#[trigger] r@[j]) < self.feeds@.len() && Self::is_due(self.feeds@[r@[j] as int], now),
            forall|k: int| 0 <= k < self.feeds@.len() && Self::is_due(#[trigger] self.feeds@[k], now) ==> r@.contains(k as usize),
            Self::in_fetch_order(self.feeds@, r@),
            forall|x: int, y: int| 0 <= x < y < r@.len() ==> r@[x] != r@[y],
    {
        let mut r: Vec<usize> = Vec::new();
        let mut i: usize = 0;
        while i < self.feeds.len()
            invariant
                i <= self.feeds@.len(),
                forall|j: int| 0 <= j < r@.len() ==> (#[trigger] r@[j]) < i && Self::is_due(self.feeds@[r@[j] as int], now),
                forall|k: int| 0 <= k < i && Self::is_due(#[trigger] self.feeds@[k], now) ==> r@.contains(k as usize),
                Self::in_fetch_order(self.feeds@, r@),
            decreases self.feeds@.len() - i,
        {
            let due = match self.feeds[i].last_fetched_at {
                None => true,
                Some(t) => (now as i128) >= (t as i128) + (self.feeds[i].fetch_interval_minutes as i128) * 60,
            };
            if due {
                let mut p: usize = 0;
                while p < r.len()
                    invariant
                        p <= r@.len(),
                        i < self.feeds@.len(),
                        forall|j: int| 0 <= j < r@.len() ==> (#[trigger] r@[j]) < i,
                        forall|q: int| 0 <= q < p ==> Self::fetched_before(self.feeds@[r@[q] as int], r@[q] as int, self.feeds@[i as int], i as int),
                    ensures
                        p <= r@.len(),
                        forall|q: int| 0 <= q < p ==> Self::fetched_before(self.feeds@[r@[q] as int], r@[q] as int, self.feeds@[i as int], i as int),
                        p < r@.len() ==> Self::fetched_before(self.feeds@[i as int], i as int, self.feeds@[r@[p as int] as int], r@[p as int] as int),
                    decreases r@.len() - p,
                {
                    if self.precedes(i, r[p]) {
                        break;
                    }
                    p += 1;
                }
                let ghost before = r@;
                proof {
                    assert forall|q: int| p <= q < before.len() implies Self::fetched_before(self.feeds@[i as int], i as int, self.feeds@[before[q] as int], before[q] as int) by {
                        if q > p {
                            assert(Self::fetched_before(self.feeds@[before[p as int] as int], before[p as int] as int, self.feeds@[before[q] as int], before[q] as int));
                        }
                    }
                }
                r.insert(p, i);
                proof {
                    assert(r@ =~= before.subrange(0, p as int).push(i).add(before.subrange(p as int, before.len() as int)));
                    assert forall|j: int| 0 <= j < r@.len() implies (#[trigger] r@[j]) < i + 1 && Self::is_due(self.feeds@[r@[j] as int], now) by {
                        if j < p {
                            assert(r@[j] == before[j]);
                        } else if j > p {
                            assert(r@[j] == before[j - 1]);
                        }
                    }
                    assert forall|k: int| 0 <= k < i + 1 && Self::is_due(#[trigger] self.feeds@[k], now) implies r@.contains(k as usize) by {
                        if k < i {
                            let j = choose|j: int| 0 <= j < before.len() && before[j] == k as usize;
                            if j < p {
                                assert(r@[j] == before[j]);
                            } else {
                                assert(r@[j + 1] == before[j]);
                            }
                        } else {
                            assert(r@[p as int] == i);
                        }
                    }
                    assert forall|x: int, y: int| 0 <= x < y < r@.len() implies Self::fetched_before(self.feeds@[r@[x] as int], r@[x] as int, self.feeds@[r@[y] as int], r@[y] as int) by {
                        if y < p {
                            assert(r@[x] == before[x] && r@[y] == before[y]);
                        } else if y == p {
                            assert(r@[x] == before[x]);
                        } else if x < p {
                            assert(r@[x] == before[x] && r@[y] == before[y - 1]);
                        } else if x == p {
                            assert(r@[y] == before[y - 1]);
                        } else {
                            assert(r@[x] == before[x - 1] && r@[y] == before[y - 1]);
                        }
                    }
                }
            }
            i += 1;
        }
        proof {
            assert forall|x: int, y: int| 0 <= x < y < r@.len() implies r@[x] != r@[y] by {
                assert(Self::fetched_before(self.feeds@[r@[x] as int], r@[x] as int, self.feeds@[r@[y] as int], r@[y] as int));
            }
        }
        r
    }

    /// Marks feed `k` as fetched at time `now`, and changes nothing else.
    pub fn touch_feed(&mut self, k: usize, now: i64)
        requires
            k < old(self).feeds@.len(),
        ensures
            final(self).feeds@ == old(self).feeds@.update(k as int, Feed { last_fetched_at: Some(now), ..old(self).feeds@[k as int] }),
            final(self).articles == old(self).articles,
            final(self).logs == old(self).logs,
    {
        self.feeds[k].last_fetched_at = Some(now);
    }

    /// Stores the adaptive state of feed `k`.
    pub fn update_adaptive_state(&mut self, k: usize, consecutive_new_articles: i64, fetch_interval_minutes: i64)
        requires
            k < old(self).feeds@.len(),
        ensures
            final(self).feeds@ == old(self).feeds@.update(k as int, Feed {
                consecutive_new_articles,
                fetch_interval_minutes,
                ..old(self).feeds@[k as int]
            }),
            final(self).articles == old(self).articles,
            final(self).logs == old(self).logs,
    {
        self.feeds[k].consecutive_new_articles = consecutive_new_articles;
        self.feeds[k].fetch_interval_minutes = fetch_interval_minutes;
    }

    /// Stores the feed's advisory TTL, leaving its interval alone.
    pub fn update_ttl_display(&mut self, k: usize, ttl_minutes: Option<i64>)
        requires
            k < old(self).feeds@.len(),
        ensures
            final(self).feeds@ == old(self).feeds@.update(k as int, Feed { ttl_minutes, ..old(self).feeds@[k as int] }),
            final(self).articles == old(self).articles,
            final(self).logs == old(self).logs,
    {
        self.feeds[k].ttl_minutes = ttl_minutes;
    }

    /// Stores what a successful fetch learnt of feed `k`: title and description
    /// only where given, site URL and cache validators as given, and the time
    /// of the fetch.
    pub fn update_feed_details(
        &mut self,
        k: usize,
        title: Option<String>,
        description: Option<String>,
        site_url: Option<String>,
        etag: Option<String>,
        last_modified: Option<String>,
        now: i64,
    )
        requires
            k < old(self).feeds@.len(),
        ensures
            ({
                let f = old(self).feeds@[k as int];
                final(self).feeds@ == old(self).feeds@.update(k as int, Feed {
                    title: match title { Some(t) => t, None => f.title },
                    description: match description { Some(d) => Some(d), None => f.description },
                    site_url,
                    etag,
                    last_modified,
                    last_fetched_at: Some(now),
                    ..f
                })
            }),
            final(self).articles == old(self).articles,
            final(self).logs == old(self).logs,
    {
        if let Some(t) = title {
            self.feeds[k].title = t;
        }
        if let Some(d) = description {
            self.feeds[k].description = Some(d);
        }
        self.feeds[k].site_url = site_url;
        self.feeds[k].etag = etag;
        self.feeds[k].last_modified = last_modified;
        self.feeds[k].last_fetched_at = Some(now);
    }

    /// Appends a record to the fetch log.
    pub fn insert_log(&mut self, log: FetchLog)
        ensures
            final(self).logs@ == old(self).logs@.push(log),
            final(self).feeds == old(self).feeds,
            final(self).articles == old(self).articles,
    {
        self.logs.push(log);
    }

    /// Index of the article of feed `feed_id` with guid `guid`, if there is one.
    pub fn find_article(&self, feed_id: i64, guid: &String) -> (r: Option<usize>)
        ensures
            r is None ==> !has_key(self.articles@, feed_id, guid@),
            r matches Some(i) ==> i < self.articles@.len() && self.articles@[i as int].feed_id == feed_id
                && self.articles@[i as int].guid@ == guid@,
    {
        let mut i: usize = 0;
        while i < self.articles.len()
            invariant
                i <= self.articles@.len(),
                forall|j: int| 0 <= j < i ==> !(#[trigger] self.articles@[j].feed_id == feed_id && self.articles@[j].guid@ == guid@),
            decreases self.articles@.len() - i,
        {
            if self.articles[i].feed_id == feed_id && self.articles[i].guid == *guid {
                return Some(i);
            }
            i += 1;
        }
        None
    }

    /// Stores the article unless one with the same `(feed_id, guid)` is already
    /// stored. The first write wins: a later article with the same key changes
    /// nothing and gives `None`.
    pub fn insert_article_if_new(&mut self, a: NewArticle) -> (r: Option<Article>)
        requires
            old(self).wf(),
            old(self).articles@.len() < i64::MAX,
        ensures
            final(self).wf(),
            final(self).feeds == old(self).feeds,
            final(self).logs == old(self).logs,
            final(self).articles@ == after_insert(old(self).articles@, a),
            has_key(old(self).articles@, a.feed_id, a.guid@) ==> r is None && final(self).articles == old(self).articles,
            !has_key(old(self).articles@, a.feed_id, a.guid@) ==> ({
                let stored = a.stored_as((old(self).articles@.len() + 1) as i64);
                &&& r == Some(stored)
                &&& final(self).articles@ == old(self).articles@.push(stored)
            }),
    {
        match self.find_article(a.feed_id, &a.guid) {
            Some(_) => None,
            None => {
                let id = self.articles.len() as i64 + 1;
                let copy = copy_new_article(&a);
                let stored = Article {
                    id,
                    feed_id: a.feed_id,
                    guid: a.guid,
                    title: a.title,
                    url: a.url,
                    content: a.content,
                    summary: a.summary,
                    author: a.author,
                    published_at: a.published_at,
                    og_image: a.og_image,
                    og_description: a.og_description,
                    og_site_name: a.og_site_name,
                };
                let out = Article {
                    id,
                    feed_id: copy.feed_id,
                    guid: copy.guid,
                    title: copy.title,
                    url: copy.url,
                    content: copy.content,
                    summary: copy.summary,
                    author: copy.author,
                    published_at: copy.published_at,
                    og_image: copy.og_image,
                    og_description: copy.og_description,
                    og_site_name: copy.og_site_name,
                };
                self.articles.push(stored);
                Some(out)
            },
        }
    }
}

} // verus!
