//! The conditional fetch: how a response is classified, what a failed fetch
//! means, the advisory TTL of an RSS channel, and the parsed feed document.
use vstd::prelude::*;
use crate::entry::{view_opt, RawEntry};
use crate::frequency::{parse_i64, parsed_i64};
use crate::text::{contains, occurs_in, str_eq};
use quick_xml::events::Event as XmlEv;

verus! {

/// Why a fetch failed.
#[derive(Clone, Debug, PartialEq, Eq)]
pub enum FetchError {
    /// The server answered with a status other than 2xx or 304.
    RequestFailed { status: u16, message: String, retry_after: Option<String> },
    /// The transport failed: DNS, connect, TLS, timeout. The flags and the
    /// message are those of the HTTP client's error.
    NetworkError { is_connect: bool, is_timeout: bool, message: String },
    /// The body is not a feed.
    ParseError(String),
    InvalidFormat,
}

/// A parsed feed: its title, description, links and entries.
#[derive(Clone, Debug)]
pub struct FeedDocument {
    pub title: Option<String>,
    pub description: Option<String>,
    pub links: Vec<String>,
    pub entries: Vec<RawEntry>,
}

/// What a successful fetch brought.
#[derive(Clone, Debug)]
pub enum FetchResult {
    Updated { feed: FeedDocument, etag: Option<String>, last_modified: Option<String>, ttl: Option<i64> },
    NotModified,
}

/// What to do with a response, judged by its status before its body is read.
#[derive(Clone, Debug, PartialEq, Eq)]
pub enum ResponseClass {
    NotModified,
    ReadBody,
    Failed(FetchError),
}

/// The decimal digit `d` as a string.
pub open spec fn digit_seq(d: nat) -> Seq<char> {
    if d == 0 { "0"@ }
    else if d == 1 { "1"@ }
    else if d == 2 { "2"@ }
    else if d == 3 { "3"@ }
    else if d == 4 { "4"@ }
    else if d == 5 { "5"@ }
    else if d == 6 { "6"@ }
    else if d == 7 { "7"@ }
    else if d == 8 { "8"@ }
    else { "9"@ }
}

/// The decimal form of `n`, without leading zeros.
pub open spec fn decimal(n: nat) -> Seq<char>
    decreases n,
{
    if n < 10 {
        digit_seq(n)
    } else {
        decimal(n / 10) + digit_seq(n % 10)
    }
}

fn digit_str(d: u16) -> (r: &'static str)
    requires
        d < 10,
    ensures
        r@ == digit_seq(d as nat),
{
    if d == 0 { "0" }
    else if d == 1 { "1" }
    else if d == 2 { "2" }
    else if d == 3 { "3" }
    else if d == 4 { "4" }
    else if d == 5 { "5" }
    else if d == 6 { "6" }
    else if d == 7 { "7" }
    else if d == 8 { "8" }
    else { "9" }
}

/// Writes `n` in decimal.
pub fn decimal_string(n: u16) -> (r: String)
    ensures
        r@ == decimal(n as nat),
    decreases n,
{
    if n < 10 {
        String::from_str(digit_str(n))
    } else {
        let mut s = decimal_string(n / 10);
        s.append(digit_str(n % 10));
        s
    }
}

/// The standard reason phrase of an HTTP status code.
pub uninterp spec fn reason_of(code: u16) -> Option<Seq<char>>;

/// Relies on `http::StatusCode::from_u16` and `StatusCode::canonical_reason`
/// (as re-exported by reqwest): the reason phrase of a known status code.
#[verifier::external_body]
pub(crate) fn canonical_reason(code: u16) -> (r: Option<String>)
    ensures
        view_opt(r) == reason_of(code),
{
    reqwest::StatusCode::from_u16(code).ok().and_then(|s| s.canonical_reason()).map(|s| s.to_string())
}

/// The message of a failed request: the code, a dash, and the reason phrase
/// (`Unknown` where there is none).
pub open spec fn status_message(code: u16) -> Seq<char> {
    decimal(code as nat) + " - "@ + match reason_of(code) {
        Some(r) => r,
        None => "Unknown"@,
    }
}

/// Writes the message of a failed request with status `code`.
pub fn request_failed_message(code: u16) -> (r: String)
    ensures
        r@ == status_message(code),
{
    let mut s = decimal_string(code);
    s.append(" - ");
    match canonical_reason(code) {
        Some(reason) => s.append(reason.as_str()),
        None => s.append("Unknown"),
    }
    s
}

/// Classifies a response by its status: 304 means not modified, 2xx means
/// the body is to be read, and anything else is a failed request that keeps
/// the `Retry-After` header as it came.
pub fn classify_response(status: u16, retry_after: Option<String>) -> (r: ResponseClass)
    ensures
        status == 304 ==> r == ResponseClass::NotModified,
        200 <= status <= 299 ==> r == ResponseClass::ReadBody,
        status != 304 && !(200 <= status <= 299) ==> (match r {
            ResponseClass::Failed(FetchError::RequestFailed { status: s, message, retry_after: ra }) => s == status
                && message@ == status_message(status) && ra == retry_after,
            _ => false,
        }),
{
    if status == 304 {
        ResponseClass::NotModified
    } else if 200 <= status && status <= 299 {
        ResponseClass::ReadBody
    } else {
        ResponseClass::Failed(FetchError::RequestFailed { status, message: request_failed_message(status), retry_after })
    }
}

/// What `str::to_lowercase` gives for a string.
pub uninterp spec fn lower_of(s: Seq<char>) -> Seq<char>;

/// Relies on `str::to_lowercase`; the result depends on the characters alone.
#[verifier::external_body]
fn to_lowercase(s: &str) -> (r: String)
    ensures
        r@ == lower_of(s@),
{
    s.to_lowercase()
}

/// Whether a lowercased error message speaks of DNS, TLS, certificates,
/// host names or domains.
pub open spec fn names_feed_side_cause(m: Seq<char>) -> bool {
    ||| occurs_in(m, "dns"@)
    ||| occurs_in(m, "name resolution"@)
    ||| occurs_in(m, "ssl"@)
    ||| occurs_in(m, "tls"@)
    ||| occurs_in(m, "certificate"@)
    ||| occurs_in(m, "hostname"@)
    ||| occurs_in(m, "domain"@)
}

/// Tests a lowercased error message for a feed-side cause.
pub fn mentions_feed_side_cause(lowered: &str) -> (r: bool)
    ensures
        r == names_feed_side_cause(lowered@),
{
    contains(lowered, "dns") || contains(lowered, "name resolution") || contains(lowered, "ssl")
        || contains(lowered, "tls") || contains(lowered, "certificate") || contains(lowered, "hostname")
        || contains(lowered, "domain")
}

/// A failure on the feed's side: a connection failure, a timeout, or a
/// transport error whose message names DNS, TLS or the host. HTTP statuses,
/// parse failures and anything else are transient, on our side.
pub open spec fn feed_side(e: FetchError) -> bool {
    match e {
        FetchError::NetworkError { is_connect, is_timeout, message } => is_connect || is_timeout
            || names_feed_side_cause(lower_of(message@)),
        _ => false,
    }
}

/// Decides whether a failure lies on the feed's side.
pub fn is_feed_side_problem(e: &FetchError) -> (r: bool)
    ensures
        r == feed_side(*e),
{
    match e {
        FetchError::NetworkError { is_connect, is_timeout, message } => {
            if *is_connect || *is_timeout {
                return true;
            }
            let lowered = to_lowercase(message.as_str());
            mentions_feed_side_cause(lowered.as_str())
        },
        _ => false,
    }
}

/// One XML event, as the TTL scan reads it: element names as text, and the
/// unescaped content of a text node (`None` where unescaping failed).
#[derive(Clone, Debug)]
pub enum XmlEvent {
    Start(String),
    End(String),
    Text(Option<String>),
    Eof,
    Error,
    Other,
}

/// The events that quick-xml reads from a document, text trimmed, up to and
/// including its end or its first error.
pub uninterp spec fn xml_events_of(xml: Seq<char>) -> Seq<XmlEvent>;

/// Relies on `quick_xml::Reader::from_str` (configured to trim text),
/// `Reader::read_event` and `BytesText::unescape`: the document's events up to
/// its end or first error; they depend on the document alone.
#[verifier::external_body]
fn xml_events(xml: &str) -> (r: Vec<XmlEvent>)
    ensures
        r@ == xml_events_of(xml@),
{
    let mut reader = quick_xml::Reader::from_str(xml);
    reader.config_mut().trim_text(true);
    let mut events = Vec::new();
    loop {
        events.push(match reader.read_event() {
            Ok(XmlEv::Start(e)) => XmlEvent::Start(text_of_bytes(e.name().as_ref())),
            Ok(XmlEv::End(e)) => XmlEvent::End(text_of_bytes(e.name().as_ref())),
            Ok(XmlEv::Text(t)) => XmlEvent::Text(t.unescape().ok().map(|c| c.into_owned())),
            Ok(XmlEv::Eof) => XmlEvent::Eof,
            Ok(_) => XmlEvent::Other,
            Err(_) => XmlEvent::Error,
        });
        if matches!(events.last(), Some(XmlEvent::Eof | XmlEvent::Error)) { return events; }
    }
}

/// Relies on `String::from_utf8_lossy`: bytes as text, invalid sequences
/// replaced.
#[verifier::external_body]
fn text_of_bytes(b: &[u8]) -> (r: String) {
    String::from_utf8_lossy(b).into_owned()
}

/// The TTL that a text node gives: a positive whole number of minutes.
pub open spec fn ttl_of_text(t: Option<String>) -> Option<i64> {
    match t {
        Some(s) => match parsed_i64(s@) {
            Some(v) => if v > 0 {
                Some(v)
            } else {
                None
            },
            None => None,
        },
        None => None,
    }
}

/// The TTL found by scanning `ev` from position `i`: the first `<ttl>` opened
/// inside a `<channel>` whose following event is a text with a positive whole
/// number. A `<ttl>` whose text is unusable is skipped together with the event
/// after it.
pub open spec fn ttl_scan(ev: Seq<XmlEvent>, i: int, in_channel: bool) -> Option<i64>
    decreases ev.len() - i,
{
    if i < 0 || i >= ev.len() {
        None
    } else {
        match ev[i] {
            XmlEvent::Start(n) => if n@ == "channel"@ {
                ttl_scan(ev, i + 1, true)
            } else if n@ == "ttl"@ && in_channel {
                let found = if i + 1 < ev.len() {
                    match ev[i + 1] {
                        XmlEvent::Text(t) => ttl_of_text(t),
                        _ => None,
                    }
                } else {
                    None
                };
                if found is Some || i + 1 >= ev.len() {
                    found
                } else {
                    ttl_scan(ev, i + 2, in_channel)
                }
            } else {
                ttl_scan(ev, i + 1, in_channel)
            },
            XmlEvent::End(n) => if n@ == "channel"@ {
                ttl_scan(ev, i + 1, false)
            } else {
                ttl_scan(ev, i + 1, in_channel)
            },
            XmlEvent::Eof | XmlEvent::Error => None,
            _ => ttl_scan(ev, i + 1, in_channel),
        }
    }
}

fn ttl_from_text(t: &Option<String>) -> (r: Option<i64>)
    ensures
        r == ttl_of_text(*t),
{
    match t {
        Some(s) => match parse_i64(s.as_str()) {
            Some(v) => if v > 0 {
                Some(v)
            } else {
                None
            },
            None => None,
        },
        None => None,
    }
}

/// Finds the advisory TTL of an RSS channel in a list of XML events.
pub fn scan_ttl(ev: &Vec<XmlEvent>) -> (r: Option<i64>)
    ensures
        r == ttl_scan(ev@, 0, false),
        r matches Some(t) ==> t > 0,
{
    let mut i: usize = 0;
    let mut in_channel = false;
    while i < ev.len()
        invariant
            ttl_scan(ev@, 0, false) == ttl_scan(ev@, i as int, in_channel),
        decreases ev@.len() - i,
    {
        match &ev[i] {
            XmlEvent::Start(n) => {
                if str_eq(n.as_str(), "channel") {
                    in_channel = true;
                } else if str_eq(n.as_str(), "ttl") && in_channel {
                    let found = if i + 1 < ev.len() {
                        match &ev[i + 1] {
                            XmlEvent::Text(t) => ttl_from_text(t),
                            _ => None,
                        }
                    } else {
                        None
                    };
                    if found.is_some() {
                        return found;
                    }
                    if i + 1 >= ev.len() {
                        return None;
                    }
                    i += 1;
                }
            },
            XmlEvent::End(n) => {
                if str_eq(n.as_str(), "channel") {
                    in_channel = false;
                }
            },
            XmlEvent::Eof | XmlEvent::Error => {
                return None;
            },
            _ => {},
        }
        i += 1;
    }
    None
}

/// Reads the advisory TTL of an RSS 2.0 channel: the first `<ttl>` inside
/// `<channel>` that holds a positive whole number of minutes.
pub fn extract_ttl_from_xml(xml: &str) -> (r: Option<i64>)
    ensures
        r == ttl_scan(xml_events_of(xml@), 0, false),
        r matches Some(t) ==> t > 0,
{
    let events = xml_events(xml);
    scan_ttl(&events)
}

#[verifier::external_type_specification]
#[verifier::external_body]
pub struct ExFeedEntry(feed_rs::model::Entry);

/// Relies on the fields of `feed_rs::model::Entry`, and on chrono's
/// `DateTime::to_rfc3339` to write its dates.
#[verifier::external_body]
fn raw_entry_of(e: &feed_rs::model::Entry) -> (r: RawEntry) {
    RawEntry {
        id: e.id.clone(),
        title: e.title.as_ref().map(|t| t.content.clone()),
        links: e.links.iter().map(|l| l.href.clone()).collect(),
        content_body: e.content.as_ref().and_then(|c| c.body.clone()),
        summary: e.summary.as_ref().map(|s| s.content.clone()),
        authors: e.authors.iter().map(|a| a.name.clone()).collect(),
        published: e.published.map(|d| d.to_rfc3339()),
        updated: e.updated.map(|d| d.to_rfc3339()),
    }
}

/// What feed-rs makes of a feed body: the document, or the parse error's
/// text.
pub uninterp spec fn feed_of(body: Seq<char>) -> Result<FeedDocument, Seq<char>>;

/// Relies on `feed_rs::parser::Builder` and `Parser::parse`, with an id
/// generator that leaves missing entry ids empty (so that the parse depends
/// on the body alone): the feed's title, description, links and entries.
#[verifier::external_body]
fn parse_feed_document(body: &str) -> (r: Result<FeedDocument, String>)
    ensures
        match r {
            Ok(d) => feed_of(body@) == Ok::<FeedDocument, Seq<char>>(d),
            Err(m) => feed_of(body@) == Err::<FeedDocument, Seq<char>>(m@),
        },
{
    let parser = feed_rs::parser::Builder::new().id_generator(|_, _, _| String::new()).build();
    match parser.parse(body.as_bytes()) {
        Ok(f) => Ok(FeedDocument {
            title: f.title.map(|t| t.content),
            description: f.description.map(|d| d.content),
            links: f.links.iter().map(|l| l.href.clone()).collect(),
            entries: f.entries.iter().map(raw_entry_of).collect(),
        }),
        Err(e) => Err(e.to_string()),
    }
}

/// Turns the body of a 2xx response into a fetch result: the advisory TTL
/// scanned from the raw XML, the parsed document, and the response's cache
/// validators as they came. A body that does not parse is a parse error.
pub fn read_feed_body(body: &str, etag: Option<String>, last_modified: Option<String>) -> (r: Result<FetchResult, FetchError>)
    ensures
        match feed_of(body@) {
            Ok(d) => r == Ok::<FetchResult, FetchError>(FetchResult::Updated {
                feed: d,
                etag,
                last_modified,
                ttl: ttl_scan(xml_events_of(body@), 0, false),
            }),
            Err(m) => r matches Err(FetchError::ParseError(e)) && e@ == m,
        },
{
    let ttl = extract_ttl_from_xml(body);
    match parse_feed_document(body) {
        Ok(feed) => Ok(FetchResult::Updated { feed, etag, last_modified, ttl }),
        Err(m) => Err(FetchError::ParseError(m)),
    }
}

} // verus!
