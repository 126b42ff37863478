//! Query parameters and form fields that the web layer hands to the library.
use vstd::prelude::*;
use crate::frequency::{parse_i64, parsed_i64, trim, trim_of};
use crate::text::{split_on, split_pieces, views};

verus! {

/// Filters of the article list.
#[derive(Clone, Debug)]
pub struct ArticleListParams {
    /// Comma-separated feed ids.
    pub feed_ids: Option<String>,
    /// Comma-separated group ids.
    pub group_ids: Option<String>,
    pub is_read: Option<bool>,
    pub is_starred: Option<bool>,
    pub limit: Option<i64>,
    pub offset: Option<i64>,
    pub view: Option<String>,
    pub q: Option<String>,
    pub date_from: Option<String>,
    pub date_to: Option<String>,
}

/// Which feeds "mark all read" applies to.
#[derive(Clone, Debug)]
pub struct MarkAllReadParams {
    /// Comma-separated feed ids.
    pub feed_ids: Option<String>,
}

/// Filters of the feed filter dialog.
#[derive(Clone, Debug)]
pub struct FilterModalParams {
    pub feed_ids: Option<String>,
    pub group_ids: Option<String>,
    pub is_read: Option<bool>,
    pub is_starred: Option<bool>,
}

/// Filters of the tag filter dialog.
#[derive(Clone, Debug)]
pub struct TagFilterModalParams {
    pub tag_ids: Option<String>,
    pub feed_ids: Option<String>,
    pub group_ids: Option<String>,
    pub is_read: Option<bool>,
    pub is_starred: Option<bool>,
}

/// Filters of the fetch log list.
#[derive(Clone, Debug)]
pub struct LogListParams {
    pub feed_id: Option<i64>,
    pub log_type: Option<String>,
    pub limit: Option<i64>,
    pub offset: Option<i64>,
}

/// A new subscription: the feed URL and an optional title.
#[derive(Clone, Debug)]
pub struct CreateFeedForm {
    pub url: String,
    pub title: Option<String>,
}

/// The edited fields of a feed.
#[derive(Clone, Debug)]
pub struct UpdateFeedForm {
    pub title: String,
    pub url: String,
    pub description: Option<String>,
    pub fetch_frequency: String,
    pub color: String,
    pub tag_ids: Vec<i64>,
    pub custom_hours: Option<String>,
}

/// Feeds to import, one per line: a URL, then optionally a title.
#[derive(Clone, Debug)]
pub struct ImportFeedsForm {
    pub feeds: String,
}

#[derive(Clone, Debug)]
pub struct CreateGroupForm {
    pub name: String,
    pub parent_id: Option<String>,
}

#[derive(Clone, Debug)]
pub struct UpdateGroupForm {
    pub name: String,
    pub parent_id: Option<String>,
}

#[derive(Clone, Debug)]
pub struct AssignFeedForm {
    pub group_id: Option<String>,
}

#[derive(Clone, Debug)]
pub struct MoveGroupForm {
    pub parent_id: Option<String>,
}

#[derive(Clone, Debug)]
pub struct CreateTagForm {
    pub name: String,
    pub color: String,
    pub style: String,
}

#[derive(Clone, Debug)]
pub struct UpdateTagForm {
    pub name: String,
    pub color: String,
    pub style: String,
}

/// The answer to a manual "fetch now".
#[derive(Clone, Debug)]
pub struct FetchResponse {
    pub message: String,
    pub feeds_updated: usize,
    pub new_articles: usize,
}

/// The ids among comma-separated pieces: each piece trimmed, and the pieces
/// that are not integers dropped.
pub open spec fn ids_of(pieces: Seq<Seq<char>>) -> Seq<i64>
    decreases pieces.len(),
{
    if pieces.len() == 0 {
        Seq::empty()
    } else {
        let r = ids_of(pieces.drop_last());
        match parsed_i64(trim_of(pieces.last())) {
            Some(v) => r.push(v),
            None => r,
        }
    }
}

/// Reads a comma-separated list of ids, skipping what is not an integer; no
/// list gives no ids.
pub fn parse_ids(ids_str: Option<&str>) -> (r: Vec<i64>)
    ensures
        match ids_str {
            Some(s) => r@ == ids_of(split_pieces(s@, ',')),
            None => r@.len() == 0,
        },
{
    match ids_str {
        None => Vec::new(),
        Some(s) => {
            let pieces = split_on(s, ',');
            let ghost all = views(pieces@);
            let mut ids: Vec<i64> = Vec::new();
            let mut i: usize = 0;
            assert(all.take(0) =~= Seq::<Seq<char>>::empty());
            while i < pieces.len()
                invariant
                    all == views(pieces@),
                    i <= pieces@.len(),
                    ids@ == ids_of(all.take(i as int)),
                decreases pieces@.len() - i,
            {
                proof {
                    assert(all.take(i + 1).drop_last() =~= all.take(i as int));
                    assert(all.take(i + 1).last() == pieces@[i as int]@);
                }
                match parse_i64(trim(pieces[i].as_str())) {
                    Some(v) => ids.push(v),
                    None => {},
                }
                i += 1;
            }
            assert(all.take(pieces@.len() as int) =~= all);
            ids
        },
    }
}

impl FetchResponse {
    /// The answer to a manual fetch that ran through: how many feeds brought
    /// a new document and how many articles were new.
    pub fn completed(feeds_updated: usize, new_articles: usize) -> (r: FetchResponse)
        ensures
            r.message@ == "Feed fetch completed successfully"@,
            r.feeds_updated == feeds_updated,
            r.new_articles == new_articles,
    {
        FetchResponse { message: String::from_str("Feed fetch completed successfully"), feeds_updated, new_articles }
    }

    /// The answer to a manual fetch that failed: a generic message that keeps
    /// the details out of the user interface.
    pub fn failed() -> (r: FetchResponse)
        ensures
            r.message@ == "Feed fetch failed. Please try again later."@,
            r.feeds_updated == 0,
            r.new_articles == 0,
    {
        FetchResponse { message: String::from_str("Feed fetch failed. Please try again later."), feeds_updated: 0, new_articles: 0 }
    }
}

} // verus!
