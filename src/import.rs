//! Bulk import of feeds: reading the import form and tracking a job's progress.
use vstd::prelude::*;
use crate::frequency::{trim, trim_of, FeedServiceError};
use crate::text::{split_on, split_pieces, views};

verus! {

/// Status of an import job.
#[derive(Clone, Copy, Debug, PartialEq, Eq, Structural)]
pub enum ImportJobStatus {
    Processing,
    Completed,
}

/// The outcome of importing one feed.
#[derive(Clone, Debug)]
pub struct ImportJobResult {
    pub url: String,
    pub title: Option<String>,
    pub success: bool,
    pub error: Option<String>,
}

/// Progress of a bulk import.
#[derive(Clone, Debug)]
pub struct ImportJob {
    pub status: ImportJobStatus,
    pub total: usize,
    pub processed: usize,
    pub success_count: usize,
    pub results: Vec<ImportJobResult>,
}

/// One line of the import form: a URL and an optional title.
#[derive(Clone, Debug)]
pub struct ParsedFeedEntry {
    pub url: String,
    pub title: Option<String>,
}

impl ImportJob {
    /// Progress counts stay consistent with the recorded results.
    pub open spec fn wf(&self) -> bool {
        &&& self.processed == self.results@.len()
        &&& self.success_count <= self.processed
    }

    /// A job of `total` feeds, none processed yet.
    pub fn new(total: usize) -> (r: ImportJob)
        ensures
            r.wf(),
            r.status == ImportJobStatus::Processing,
            r.total == total,
            r.processed == 0,
            r.success_count == 0,
            r.results@.len() == 0,
    {
        ImportJob { status: ImportJobStatus::Processing, total, processed: 0, success_count: 0, results: Vec::new() }
    }

    /// Records the outcome of one feed.
    pub fn record(&mut self, result: ImportJobResult)
        requires
            old(self).wf(),
            old(self).processed < usize::MAX,
        ensures
            final(self).wf(),
            final(self).status == old(self).status,
            final(self).total == old(self).total,
            final(self).processed == old(self).processed + 1,
            final(self).success_count == old(self).success_count + if result.success { 1usize } else { 0usize },
            final(self).results@ == old(self).results@.push(result),
    {
        self.processed = self.processed + 1;
        if result.success {
            self.success_count = self.success_count + 1;
        }
        self.results.push(result);
    }

    /// Marks the job as done.
    pub fn complete(&mut self)
        ensures
            final(self).status == ImportJobStatus::Completed,
            final(self).total == old(self).total,
            final(self).processed == old(self).processed,
            final(self).success_count == old(self).success_count,
            final(self).results == old(self).results,
    {
        self.status = ImportJobStatus::Completed;
    }
}

/// The message shown for a feed that could not be imported.
pub open spec fn import_error_text(e: FeedServiceError) -> Seq<char> {
    match e {
        FeedServiceError::DuplicateUrl => "Feed URL already exists"@,
        FeedServiceError::InvalidUrl(m) => m@,
        FeedServiceError::FetchError(m) => "Failed to fetch feed: "@ + m@,
        FeedServiceError::DatabaseError(m) => "Database error: "@ + m@,
        FeedServiceError::SsrfBlocked => "URL points to internal/private network (blocked for security)"@,
        _ => "Unknown error"@,
    }
}

/// The result line of one imported feed: on success the stored feed's URL
/// and title, on failure the line's own URL and title with the reason.
pub fn import_result(entry: ParsedFeedEntry, outcome: Result<(String, String), FeedServiceError>) -> (r: ImportJobResult)
    ensures
        match outcome {
            Ok((url, title)) => r.url == url && r.title == Some(title) && r.success && r.error is None,
            Err(e) => r.url == entry.url && r.title == entry.title && !r.success && (match r.error {
                Some(m) => m@ == import_error_text(e),
                None => false,
            }),
        },
{
    match outcome {
        Ok((url, title)) => ImportJobResult { url, title: Some(title), success: true, error: None },
        Err(e) => {
            let message = match e {
                FeedServiceError::DuplicateUrl => String::from_str("Feed URL already exists"),
                FeedServiceError::InvalidUrl(m) => m,
                FeedServiceError::FetchError(m) => {
                    let mut s = String::from_str("Failed to fetch feed: ");
                    s.append(m.as_str());
                    s
                },
                FeedServiceError::DatabaseError(m) => {
                    let mut s = String::from_str("Database error: ");
                    s.append(m.as_str());
                    s
                },
                FeedServiceError::SsrfBlocked => String::from_str("URL points to internal/private network (blocked for security)"),
                _ => String::from_str("Unknown error"),
            };
            ImportJobResult { url: entry.url, title: entry.title, success: false, error: Some(message) }
        },
    }
}

/// Position of the first space in `s`, if any.
pub open spec fn first_space(s: Seq<char>) -> Option<int> {
    if exists|i: int| 0 <= i < s.len() && s[i] == ' ' {
        Some(choose|i: int| 0 <= i < s.len() && s[i] == ' ' && forall|j: int| 0 <= j < i ==> s[j] != ' ')
    } else {
        None
    }
}

/// The entry that a trimmed, non-empty line stands for: the text up to the
/// first space is the URL, and the rest, trimmed, is the title if not empty.
pub open spec fn entry_of_line(t: Seq<char>, url: Seq<char>, title: Option<Seq<char>>) -> bool {
    match first_space(t) {
        None => url == t && title is None,
        Some(i) => url == t.take(i) && {
            let rest = trim_of(t.skip(i + 1));
            if rest.len() == 0 {
                title is None
            } else {
                title == Some(rest)
            }
        },
    }
}

/// The non-blank lines among `lines`, each trimmed.
pub open spec fn kept_lines(lines: Seq<Seq<char>>) -> Seq<Seq<char>>
    decreases lines.len(),
{
    if lines.len() == 0 {
        Seq::empty()
    } else {
        let r = kept_lines(lines.drop_last());
        let t = trim_of(lines.last());
        if t.len() == 0 {
            r
        } else {
            r.push(t)
        }
    }
}

fn split_line(t: &str) -> (r: ParsedFeedEntry)
    ensures
        entry_of_line(t@, r.url@, match r.title {
            Some(x) => Some(x@),
            None => None,
        }),
{
    let n = t.unicode_len();
    let mut i: usize = 0;
    while i < n
        invariant
            n == t@.len(),
            i <= n,
            forall|j: int| 0 <= j < i ==> t@[j] != ' ',
        decreases n - i,
    {
        if t.get_char(i) == ' ' {
            let url = String::from_str(t.substring_char(0, i));
            let rest = trim(t.substring_char(i + 1, n));
            proof {
                assert(exists|k: int| 0 <= k < t@.len() && t@[k] == ' ');
                let k = first_space(t@)->Some_0;
                assert(t@[k] == ' ' && t@[i as int] == ' ');
                assert(k == i);
                assert(t@.subrange(0, i as int) =~= t@.take(i as int));
                assert(t@.subrange(i + 1, n as int) =~= t@.skip(i + 1));
            }
            let title = if rest.unicode_len() == 0 {
                None
            } else {
                Some(String::from_str(rest))
            };
            return ParsedFeedEntry { url, title };
        }
        i += 1;
    }
    ParsedFeedEntry { url: String::from_str(t), title: None }
}

/// Reads the import form: one feed per line, blank lines skipped, each line
/// trimmed, then split at its first space into URL and optional title.
pub fn parse_import_input(input: &str) -> (r: Vec<ParsedFeedEntry>)
    ensures
        r@.len() == kept_lines(split_pieces(input@, '\n')).len(),
        forall|k: int| 0 <= k < r@.len() ==> entry_of_line(kept_lines(split_pieces(input@, '\n'))[k], (#[trigger] r@[k]).url@, match r@[k].title {
            Some(x) => Some(x@),
            None => None,
        }),
{
    let lines = split_on(input, '\n');
    let ghost all = views(lines@);
    let mut out: Vec<ParsedFeedEntry> = Vec::new();
    let mut i: usize = 0;
    assert(all.take(0) =~= Seq::<Seq<char>>::empty());
    while i < lines.len()
        invariant
            all == views(lines@),
            i <= lines@.len(),
            out@.len() == kept_lines(all.take(i as int)).len(),
            forall|k: int| 0 <= k < out@.len() ==> entry_of_line(kept_lines(all.take(i as int))[k], (#[trigger] out@[k]).url@, match out@[k].title {
                Some(x) => Some(x@),
                None => None,
            }),
        decreases lines@.len() - i,
    {
        proof {
            assert(all.take(i + 1).drop_last() =~= all.take(i as int));
            assert(all.take(i + 1).last() == lines@[i as int]@);
        }
        let t = trim(lines[i].as_str());
        if t.unicode_len() > 0 {
            let e = split_line(t);
            out.push(e);
        }
        i += 1;
    }
    assert(all.take(lines@.len() as int) =~= all);
    out
}

} // verus!
