//! Reading a feed's fetch frequency: `adaptive` or a whole number of hours.
use vstd::prelude::*;
use crate::text::str_eq;

verus! {

/// Errors of the feed management operations.
#[derive(Clone, Debug, PartialEq, Eq)]
pub enum FeedServiceError {
    DatabaseError(String),
    NotFound,
    InvalidUrl(String),
    DuplicateUrl,
    FetchError(String),
    InvalidFrequency,
    SsrfBlocked,
}

/// The text of a feed management error.
pub open spec fn service_error_text(e: FeedServiceError) -> Seq<char> {
    match e {
        FeedServiceError::DatabaseError(m) => "Database error: "@ + m@,
        FeedServiceError::NotFound => "Feed not found"@,
        FeedServiceError::InvalidUrl(m) => "Invalid feed URL: "@ + m@,
        FeedServiceError::DuplicateUrl => "Duplicate feed URL"@,
        FeedServiceError::FetchError(m) => "Feed fetch failed: "@ + m@,
        FeedServiceError::InvalidFrequency => "Invalid fetch frequency: must be 'adaptive' or hours between 1-168"@,
        FeedServiceError::SsrfBlocked => "URL points to internal/private network"@,
    }
}

impl FeedServiceError {
    /// The error's text, as shown to the user.
    pub fn message(&self) -> (r: String)
        ensures
            r@ == service_error_text(*self),
    {
        match self {
            FeedServiceError::DatabaseError(m) => {
                let mut s = String::from_str("Database error: ");
                s.append(m.as_str());
                s
            },
            FeedServiceError::NotFound => String::from_str("Feed not found"),
            FeedServiceError::InvalidUrl(m) => {
                let mut s = String::from_str("Invalid feed URL: ");
                s.append(m.as_str());
                s
            },
            FeedServiceError::DuplicateUrl => String::from_str("Duplicate feed URL"),
            FeedServiceError::FetchError(m) => {
                let mut s = String::from_str("Feed fetch failed: ");
                s.append(m.as_str());
                s
            },
            FeedServiceError::InvalidFrequency => String::from_str(
                "Invalid fetch frequency: must be 'adaptive' or hours between 1-168",
            ),
            FeedServiceError::SsrfBlocked => String::from_str("URL points to internal/private network"),
        }
    }
}

/// What `str::trim` gives for a string.
pub uninterp spec fn trim_of(s: Seq<char>) -> Seq<char>;

/// Relies on `str::trim`: leading and trailing whitespace removed; the result
/// depends on the characters alone.
#[verifier::external_body]
pub(crate) fn trim(s: &str) -> (r: &str)
    ensures
        r@ == trim_of(s@),
{
    s.trim()
}

pub open spec fn is_digit(c: char) -> bool {
    '0' <= c && c <= '9'
}

pub open spec fn all_digits(s: Seq<char>) -> bool {
    forall|i: int| 0 <= i < s.len() ==> is_digit(#[trigger] s[i])
}

/// The value of a string of decimal digits.
pub open spec fn digits_value(s: Seq<char>) -> int
    decreases s.len(),
{
    if s.len() == 0 {
        0
    } else {
        digits_value(s.drop_last()) * 10 + (s.last() as int - '0' as int)
    }
}

/// The sign and digits of a decimal integer: an optional `+` or `-`, then
/// at least one digit.
pub open spec fn signed_value(s: Seq<char>) -> Option<int> {
    let neg = s.len() > 0 && s[0] == '-';
    let body = if s.len() > 0 && (s[0] == '-' || s[0] == '+') {
        s.drop_first()
    } else {
        s
    };
    if body.len() > 0 && all_digits(body) {
        Some(if neg { -digits_value(body) } else { digits_value(body) })
    } else {
        None
    }
}

/// The `i64` that a decimal string denotes, if it denotes one in range.
pub open spec fn parsed_i64(s: Seq<char>) -> Option<i64> {
    match signed_value(s) {
        Some(v) => if i64::MIN <= v <= i64::MAX {
            Some(v as i64)
        } else {
            None
        },
        None => None,
    }
}

proof fn lemma_digits_monotone(s: Seq<char>, i: int)
    requires
        all_digits(s),
        0 <= i <= s.len(),
    ensures
        0 <= digits_value(s.take(i)) <= digits_value(s),
    decreases s.len(),
{
    if i < s.len() {
        let d = s.drop_last();
        assert(all_digits(d)) by {
            assert forall|k: int| 0 <= k < d.len() implies is_digit(#[trigger] d[k]) by {
                assert(d[k] == s[k]);
            }
        }
        assert(d.take(i) =~= s.take(i));
        lemma_digits_monotone(d, i);
        assert(is_digit(s[s.len() - 1]));
    } else {
        assert(s.take(i) =~= s);
        if s.len() > 0 {
            let d = s.drop_last();
            assert(all_digits(d)) by {
                assert forall|k: int| 0 <= k < d.len() implies is_digit(#[trigger] d[k]) by {
                    assert(d[k] == s[k]);
                }
            }
            lemma_digits_monotone(d, d.len() as int);
            assert(d.take(d.len() as int) =~= d);
            assert(is_digit(s[s.len() - 1]));
        }
    }
}

/// Parses a decimal integer as `str::parse::<i64>` does: an optional sign,
/// then at least one ASCII digit, and a value within `i64`.
pub fn parse_i64(s: &str) -> (r: Option<i64>)
    ensures
        r == parsed_i64(s@),
{
    let n = s.unicode_len();
    if n == 0 {
        return None;
    }
    let first = s.get_char(0);
    let neg = first == '-';
    let start: usize = if first == '-' || first == '+' { 1 } else { 0 };
    let ghost body = if first == '-' || first == '+' { s@.drop_first() } else { s@ };
    assert(body =~= s@.subrange(start as int, n as int));
    assert(signed_value(s@) == (if body.len() > 0 && all_digits(body) { Some(if neg { -digits_value(body) } else { digits_value(body) }) } else { None }));
    if start == n {
        assert(body.len() == 0);
        return None;
    }
    let bound: u128 = if neg { 0x8000_0000_0000_0000u128 } else { 0x7fff_ffff_ffff_ffffu128 };
    let mut acc: u128 = 0;
    let mut i: usize = start;
    while i < n
        invariant
            n == s@.len(),
            start <= i <= n,
            start < n,
            body =~= s@.subrange(start as int, n as int),
            all_digits(body.take(i - start)),
            acc == digits_value(body.take(i - start)),
            acc <= bound,
            bound == if neg { 0x8000_0000_0000_0000u128 } else { 0x7fff_ffff_ffff_ffffu128 },
            signed_value(s@) == (if body.len() > 0 && all_digits(body) {
                Some(if neg { -digits_value(body) } else { digits_value(body) })
            } else {
                None::<int>
            }),
        decreases n - i,
    {
        let c = s.get_char(i);
        if !('0' <= c && c <= '9') {
            assert(body[i - start] == c);
            assert(!all_digits(body));
            return None;
        }
        let d = (c as u32 - '0' as u32) as u128;
        let next = acc * 10 + d;
        proof {
            let p = body.take(i - start + 1);
            assert(p.drop_last() =~= body.take(i - start));
            assert(p.last() == c);
            assert(digits_value(p) == next);
            assert(all_digits(p)) by {
                assert forall|k: int| 0 <= k < p.len() implies is_digit(#[trigger] p[k]) by {
                    if k < p.len() - 1 {
                        assert(p[k] == body.take(i - start)[k]);
                    }
                }
            }
        }
        if next > bound {
            proof {
                if all_digits(body) {
                    lemma_digits_monotone(body, i - start + 1);
                    assert(digits_value(body) > bound);
                }
            }
            return None;
        }
        acc = next;
        i += 1;
    }
    assert(body.take(n - start) =~= body);
    if neg {
        Some((0 - (acc as i128)) as i64)
    } else {
        Some(acc as i64)
    }
}

/// The fetch interval, in minutes, that an already trimmed frequency stands
/// for: 60 for `adaptive`, else a whole number of hours from 1 to 168.
pub open spec fn frequency_minutes(t: Seq<char>) -> Option<i64> {
    if t == "adaptive"@ {
        Some(60)
    } else {
        match parsed_i64(t) {
            Some(h) => if 1 <= h <= 168 {
                Some((h * 60) as i64)
            } else {
                None
            },
            None => None,
        }
    }
}

/// Reads a frequency that has already been trimmed.
pub fn interval_for_frequency(t: &str) -> (r: Result<i64, FeedServiceError>)
    ensures
        match frequency_minutes(t@) {
            Some(m) => r == Ok::<i64, FeedServiceError>(m),
            None => r == Err::<i64, FeedServiceError>(FeedServiceError::InvalidFrequency),
        },
{
    if str_eq(t, "adaptive") {
        return Ok(60);
    }
    match parse_i64(t) {
        Some(h) => {
            if 1 <= h && h <= 168 {
                Ok(h * 60)
            } else {
                Err(FeedServiceError::InvalidFrequency)
            }
        },
        None => Err(FeedServiceError::InvalidFrequency),
    }
}

/// Reads a fetch frequency, ignoring surrounding whitespace, and gives the
/// fetch interval in minutes.
pub fn parse_fetch_frequency(frequency: &str) -> (r: Result<i64, FeedServiceError>)
    ensures
        match frequency_minutes(trim_of(frequency@)) {
            Some(m) => r == Ok::<i64, FeedServiceError>(m),
            None => r == Err::<i64, FeedServiceError>(FeedServiceError::InvalidFrequency),
        },
{
    interval_for_frequency(trim(frequency))
}

} // verus!
