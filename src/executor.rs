use vstd::prelude::*;

use crate::artifact::{content_of, key_of, metadata_of, stored_status, FetchOutcome, OutcomeView};
use crate::config::PollConfig;
use crate::validators::{
    build_request_headers, conditional_headers, header_views, parse_response_validators,
    response_header_views, validators_of, inherited_etag, HeaderField, ResponseHeader, HTTP_DATE_END,
};

verus! {

/// One feed to poll, with the validators stored from its last fetch.
pub struct FeedRecord {
    pub id: u64,
    pub url: String,
    /// Display name, for logging only.
    pub title: String,
    /// Seconds since the epoch, 0 where unknown.
    pub last_modified: u64,
    /// Entity tag, empty where unknown.
    pub etag: String,
}

/// How a received status is treated.
#[derive(Debug, Clone, Copy, PartialEq, Eq, Structural)]
pub enum StatusClass {
    /// 200, 203, 214: the body is read and kept.
    Content,
    /// 204: updated, with no body.
    NoContent,
    /// 304: unchanged since the validators.
    NotModified,
    /// 400 to 499.
    ClientError,
    /// 500 to 999.
    ServerError,
    /// Anything else.
    Unhandled,
}

/// The class of each status, as listed on `StatusClass`.
pub open spec fn class_of(status: u16) -> StatusClass {
    if status == 200 || status == 203 || status == 214 {
        StatusClass::Content
    } else if status == 204 {
        StatusClass::NoContent
    } else if status == 304 {
        StatusClass::NotModified
    } else if 400 <= status <= 499 {
        StatusClass::ClientError
    } else if 500 <= status <= 999 {
        StatusClass::ServerError
    } else {
        StatusClass::Unhandled
    }
}

/// The class of a received status.
pub fn classify_status(status: u16) -> (r: StatusClass)
    ensures
        r == class_of(status),
{
    if status == 200 || status == 203 || status == 214 {
        StatusClass::Content
    } else if status == 204 {
        StatusClass::NoContent
    } else if status == 304 {
        StatusClass::NotModified
    } else if 400 <= status && status <= 499 {
        StatusClass::ClientError
    } else if 500 <= status && status <= 999 {
        StatusClass::ServerError
    } else {
        StatusClass::Unhandled
    }
}

/// Whether the body of a response with this status is read at all.
pub fn reads_body(status: u16) -> (r: bool)
    ensures
        r == (class_of(status) == StatusClass::Content),
{
    classify_status(status) == StatusClass::Content
}

/// A body over the ceiling of a status that carries one.
pub open spec fn is_oversized(max_body_length: usize, status: u16, body_len: nat) -> bool {
    class_of(status) == StatusClass::Content && body_len > max_body_length
}

/// Whether the fetch counts as "updated": an accepted body, or 204.
pub open spec fn is_updated(max_body_length: usize, status: u16, body_len: nat) -> bool {
    ||| (class_of(status) == StatusClass::Content && body_len <= max_body_length)
    ||| class_of(status) == StatusClass::NoContent
}

/// The outcome of a received response: the real status, or the size-exceeded
/// code for an oversized body; the validators read from the response; the body
/// only where the status carries one and it fits.
pub open spec fn response_outcome(
    max_body_length: usize,
    size_exceeded_code: u16,
    feed_id: u64,
    effective_url: Seq<char>,
    status: u16,
    validators: (u64, Seq<char>),
    body: Seq<u8>,
    now: u64,
) -> OutcomeView {
    let oversized = is_oversized(max_body_length, status, body.len());
    OutcomeView {
        feed_id,
        effective_url,
        status_code: if oversized {
            size_exceeded_code
        } else {
            status
        },
        last_modified: validators.0,
        etag: validators.1,
        body: if class_of(status) == StatusClass::Content && !oversized {
            body
        } else {
            Seq::empty()
        },
        fetched_at: now,
    }
}

/// A classified response: the outcome to persist and the verdict.
pub struct FetchResult {
    pub outcome: FetchOutcome,
    pub class: StatusClass,
    pub updated: bool,
}

/// Classifies a received response for `feed`. `final_url` is where the
/// response came from; `body` is what was read (ignored where the status
/// carries no body); `now` is the time of recording.
pub fn classify_response(
    config: &PollConfig,
    feed: &FeedRecord,
    final_url: String,
    status: u16,
    headers: &Vec<ResponseHeader>,
    body: Vec<u8>,
    now: u64,
) -> (r: FetchResult)
    ensures
        r.outcome@ == response_outcome(
            config.max_body_length,
            config.size_exceeded_code,
            feed.id,
            final_url@,
            status,
            validators_of(response_header_views(headers@), feed.last_modified, feed.etag@),
            body@,
            now,
        ),
        r.class == class_of(status),
        r.updated == is_updated(config.max_body_length, status, body@.len()),
        status == 304 ==> !r.updated && r.outcome.status_code == 304 && r.outcome.body@.len() == 0,
        r.class == StatusClass::Content && body@.len() <= config.max_body_length ==> r.updated
            && r.outcome.status_code == status && r.outcome.body@ == body@,
        r.class == StatusClass::Content && body@.len() > config.max_body_length ==> !r.updated
            && r.outcome.status_code == config.size_exceeded_code && r.outcome.body@.len() == 0,
{
    let validators = parse_response_validators(headers, feed.last_modified, feed.etag.as_str());
    let class = classify_status(status);
    let mut status_code = status;
    let mut kept: Vec<u8> = Vec::new();
    let mut updated = false;
    match class {
        StatusClass::Content => {
            if body.len() > config.max_body_length {
                status_code = config.size_exceeded_code;
            } else {
                kept = body;
                updated = true;
            }
        },
        StatusClass::NoContent => {
            updated = true;
        },
        _ => {},
    }
    let outcome = FetchOutcome {
        feed_id: feed.id,
        effective_url: final_url,
        status_code,
        last_modified: validators.last_modified,
        etag: validators.etag,
        body: kept,
        fetched_at: now,
    };
    FetchResult { outcome, class, updated }
}

pub open spec fn user_agent_name() -> Seq<char> {
    "User-Agent"@
}

/// Every header of the request for `feed`: the user agent, then the
/// conditional headers of its stored validators.
pub fn request_headers(config: &PollConfig, feed: &FeedRecord) -> (r: Vec<HeaderField>)
    requires
        feed.last_modified < HTTP_DATE_END,
    ensures
        header_views(r@) == seq![(user_agent_name(), config.user_agent@)] + conditional_headers(
            feed.last_modified,
            feed.etag@,
        ),
{
    let mut r: Vec<HeaderField> = Vec::new();
    r.push(HeaderField { name: "User-Agent".to_owned(), value: config.user_agent.clone() });
    let mut conditional = build_request_headers(feed.last_modified, feed.etag.as_str());
    let ghost first = r@;
    let ghost rest = conditional@;
    r.append(&mut conditional);
    assert(header_views(r@) =~= header_views(first) + header_views(rest));
    r
}

/// The outcome recorded when the request could not be completed: the
/// requested URL, the stored validators (the no-tag marker where no tag is
/// stored) and no body.
pub fn connection_failure_outcome(config: &PollConfig, feed: &FeedRecord, now: u64) -> (r: FetchOutcome)
    ensures
        r@ == (OutcomeView {
            feed_id: feed.id,
            effective_url: feed.url@,
            status_code: config.connection_failure_code,
            last_modified: feed.last_modified,
            etag: inherited_etag(feed.etag@),
            body: Seq::empty(),
            fetched_at: now,
        }),
{
    let r = FetchOutcome {
        feed_id: feed.id,
        effective_url: feed.url.clone(),
        status_code: config.connection_failure_code,
        last_modified: feed.last_modified,
        etag: if feed.etag.as_str().is_empty() {
            "[[NO_ETAG]]".to_owned()
        } else {
            feed.etag.clone()
        },
        body: Vec::new(),
        fetched_at: now,
    };
    assert(r@.body =~= Seq::<u8>::empty());
    r
}

/// The outcome recorded when a fetch failed as a whole: the requested URL,
/// zeroed validators and no body.
pub fn download_failure_outcome(config: &PollConfig, feed: &FeedRecord, now: u64) -> (r: FetchOutcome)
    ensures
        r@ == (OutcomeView {
            feed_id: feed.id,
            effective_url: feed.url@,
            status_code: config.download_failure_code,
            last_modified: 0,
            etag: Seq::empty(),
            body: Seq::empty(),
            fetched_at: now,
        }),
{
    let r = FetchOutcome {
        feed_id: feed.id,
        effective_url: feed.url.clone(),
        status_code: config.download_failure_code,
        last_modified: 0,
        etag: String::new(),
        body: Vec::new(),
        fetched_at: now,
    };
    assert(r@.body =~= Seq::<u8>::empty());
    r
}

/// A 304 response is never "updated", and its artifact is the four metadata
/// lines with no body.
pub proof fn lemma_not_modified_has_no_body(
    max_body_length: usize,
    size_exceeded_code: u16,
    feed_id: u64,
    effective_url: Seq<char>,
    validators: (u64, Seq<char>),
    body: Seq<u8>,
    now: u64,
)
    ensures
        ({
            let o = response_outcome(
                max_body_length,
                size_exceeded_code,
                feed_id,
                effective_url,
                304,
                validators,
                body,
                now,
            );
            &&& !is_updated(max_body_length, 304, body.len())
            &&& o.status_code == 304
            &&& o.body.len() == 0
            &&& key_of(max_body_length, size_exceeded_code, o).status_code == 304
            &&& content_of(
                size_exceeded_code,
                stored_status(max_body_length, size_exceeded_code, o),
                o,
            ) == metadata_of(o)
        }),
{
    let o = response_outcome(max_body_length, size_exceeded_code, feed_id, effective_url, 304, validators, body, now);
    assert(metadata_of(o) + o.body =~= metadata_of(o));
}

/// A body of a status that carries one is kept up to the ceiling inclusive;
/// one byte more and the outcome is stored under the size-exceeded code with
/// only the metadata lines.
pub proof fn lemma_body_ceiling(
    max_body_length: usize,
    size_exceeded_code: u16,
    feed_id: u64,
    effective_url: Seq<char>,
    status: u16,
    validators: (u64, Seq<char>),
    body: Seq<u8>,
    now: u64,
)
    requires
        class_of(status) == StatusClass::Content,
        size_exceeded_code != status,
    ensures
        ({
            let o = response_outcome(
                max_body_length,
                size_exceeded_code,
                feed_id,
                effective_url,
                status,
                validators,
                body,
                now,
            );
            let stored = stored_status(max_body_length, size_exceeded_code, o);
            &&& body.len() <= max_body_length ==> {
                &&& is_updated(max_body_length, status, body.len())
                &&& stored == status
                &&& content_of(size_exceeded_code, stored, o) == metadata_of(o) + body
            }
            &&& body.len() > max_body_length ==> {
                &&& !is_updated(max_body_length, status, body.len())
                &&& stored == size_exceeded_code
                &&& key_of(max_body_length, size_exceeded_code, o).status_code == size_exceeded_code
                &&& content_of(size_exceeded_code, stored, o) == metadata_of(o)
            }
        }),
{
    let o = response_outcome(max_body_length, size_exceeded_code, feed_id, effective_url, status, validators, body, now);
    assert(metadata_of(o) + Seq::<u8>::empty() =~= metadata_of(o));
}

/// Polling the same feed twice against an unchanged server gives the same
/// outcome but for the time of recording, so the same status, the same
/// verdict and the same artifact key.
pub proof fn lemma_repeat_poll_same_outcome(
    max_body_length: usize,
    size_exceeded_code: u16,
    feed_id: u64,
    effective_url: Seq<char>,
    status: u16,
    validators: (u64, Seq<char>),
    body: Seq<u8>,
    first_now: u64,
    second_now: u64,
)
    ensures
        ({
            let a = response_outcome(
                max_body_length,
                size_exceeded_code,
                feed_id,
                effective_url,
                status,
                validators,
                body,
                first_now,
            );
            let b = response_outcome(
                max_body_length,
                size_exceeded_code,
                feed_id,
                effective_url,
                status,
                validators,
                body,
                second_now,
            );
            &&& a == (OutcomeView { fetched_at: first_now, ..b })
            &&& a.status_code == b.status_code
            &&& key_of(max_body_length, size_exceeded_code, a) == key_of(
                max_body_length,
                size_exceeded_code,
                b,
            )
        }),
{
}

} // verus!
