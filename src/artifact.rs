use vstd::prelude::*;
use vstd::utf8::encode_utf8;

use crate::config::PollConfig;

verus! {

/// The outcome of one fetch attempt, as handed to the artifact writer.
pub struct FetchOutcome {
    pub feed_id: u64,
    /// Where the response finally came from, after redirects.
    pub effective_url: String,
    /// The HTTP status, or a synthetic code for a local failure.
    pub status_code: u16,
    pub last_modified: u64,
    pub etag: String,
    pub body: Vec<u8>,
    /// Seconds since the epoch when the outcome was recorded.
    pub fetched_at: u64,
}

/// What a `FetchOutcome` holds, as mathematical values.
pub struct OutcomeView {
    pub feed_id: u64,
    pub effective_url: Seq<char>,
    pub status_code: u16,
    pub last_modified: u64,
    pub etag: Seq<char>,
    pub body: Seq<u8>,
    pub fetched_at: u64,
}

impl View for FetchOutcome {
    type V = OutcomeView;

    open spec fn view(&self) -> OutcomeView {
        OutcomeView {
            feed_id: self.feed_id,
            effective_url: self.effective_url@,
            status_code: self.status_code,
            last_modified: self.last_modified,
            etag: self.etag@,
            body: self.body@,
            fetched_at: self.fetched_at,
        }
    }
}

/// The two areas of the artifact store.
#[derive(Debug, Clone, Copy, PartialEq, Eq, Structural)]
pub enum Namespace {
    /// Ordinary fetch outcomes.
    Feeds,
    /// Stubs of permanent redirects.
    Redirects,
}

/// Where an artifact is stored: one per feed and status.
#[derive(Debug, Clone, Copy, PartialEq, Eq, Structural)]
pub struct ArtifactKey {
    pub namespace: Namespace,
    pub feed_id: u64,
    pub status_code: u16,
}

/// The status under which an outcome is stored: its own, or the size-exceeded
/// code where its body is over the ceiling.
pub open spec fn stored_status(max_body_length: usize, size_exceeded_code: u16, o: OutcomeView) -> u16 {
    if o.body.len() > max_body_length {
        size_exceeded_code
    } else {
        o.status_code
    }
}

pub open spec fn key_of(max_body_length: usize, size_exceeded_code: u16, o: OutcomeView) -> ArtifactKey {
    let code = stored_status(max_body_length, size_exceeded_code, o);
    ArtifactKey {
        namespace: if code == 301 || code == 308 {
            Namespace::Redirects
        } else {
            Namespace::Feeds
        },
        feed_id: o.feed_id,
        status_code: code,
    }
}

/// The key of an outcome: permanent redirects go to their own namespace.
pub fn artifact_key(config: &PollConfig, outcome: &FetchOutcome) -> (r: ArtifactKey)
    ensures
        r == key_of(config.max_body_length, config.size_exceeded_code, outcome@),
{
    let code = if outcome.body.len() > config.max_body_length {
        config.size_exceeded_code
    } else {
        outcome.status_code
    };
    let namespace = if code == 301 || code == 308 {
        Namespace::Redirects
    } else {
        Namespace::Feeds
    };
    ArtifactKey { namespace, feed_id: outcome.feed_id, status_code: code }
}

/// Decimal digits of `n` in ASCII, most significant first, without leading zeros.
pub open spec fn decimal(n: nat) -> Seq<u8>
    decreases n,
{
    if n < 10 {
        seq![(48 + n) as u8]
    } else {
        decimal(n / 10) + seq![(48 + n % 10) as u8]
    }
}

/// `feeds` or `redirects`, in ASCII.
pub open spec fn namespace_dir(ns: Namespace) -> Seq<u8> {
    match ns {
        Namespace::Feeds => seq![102u8, 101, 101, 100, 115],
        Namespace::Redirects => seq![114u8, 101, 100, 105, 114, 101, 99, 116, 115],
    }
}

/// `<dir>/<feed id>_<status>.txt`, in ASCII.
pub open spec fn path_of(k: ArtifactKey) -> Seq<u8> {
    namespace_dir(k.namespace) + seq![47u8] + decimal(k.feed_id as nat) + seq![95u8] + decimal(
        k.status_code as nat,
    ) + seq![46u8, 116, 120, 116]
}

/// Four newline-terminated lines: last-modified, tag, URL, fetch time.
pub open spec fn metadata_of(o: OutcomeView) -> Seq<u8> {
    decimal(o.last_modified as nat) + seq![10u8] + encode_utf8(o.etag) + seq![10u8] + encode_utf8(
        o.effective_url,
    ) + seq![10u8] + decimal(o.fetched_at as nat) + seq![10u8]
}

/// The metadata lines, then the body, left out under the size-exceeded code.
pub open spec fn content_of(size_exceeded_code: u16, stored: u16, o: OutcomeView) -> Seq<u8> {
    metadata_of(o) + if stored == size_exceeded_code {
        Seq::empty()
    } else {
        o.body
    }
}

fn push_decimal(out: &mut Vec<u8>, n: u64)
    ensures
        final(out)@ == old(out)@ + decimal(n as nat),
    decreases n,
{
    if n >= 10 {
        push_decimal(out, n / 10);
    }
    out.push((48 + n % 10) as u8);
    assert(final(out)@ =~= old(out)@ + decimal(n as nat));
}

fn push_all(out: &mut Vec<u8>, bytes: &[u8])
    ensures
        final(out)@ == old(out)@ + bytes@,
{
    let ghost start = out@;
    let mut i: usize = 0;
    while i < bytes.len()
        invariant
            i <= bytes@.len(),
            out@ == start + bytes@.take(i as int),
        decreases bytes@.len() - i,
    {
        out.push(bytes[i]);
        assert(bytes@.take(i + 1) =~= bytes@.take(i as int).push(bytes@[i as int]));
        i = i + 1;
    }
    assert(bytes@.take(bytes@.len() as int) =~= bytes@);
}

/// The store path of a key.
pub fn artifact_path(key: &ArtifactKey) -> (r: Vec<u8>)
    ensures
        r@ == path_of(*key),
{
    let mut r: Vec<u8> = Vec::new();
    match key.namespace {
        Namespace::Feeds => {
            r.push(102);
            r.push(101);
            r.push(101);
            r.push(100);
            r.push(115);
        },
        Namespace::Redirects => {
            r.push(114);
            r.push(101);
            r.push(100);
            r.push(105);
            r.push(114);
            r.push(101);
            r.push(99);
            r.push(116);
            r.push(115);
        },
    }
    assert(r@ =~= namespace_dir(key.namespace));
    r.push(47);
    push_decimal(&mut r, key.feed_id);
    r.push(95);
    push_decimal(&mut r, key.status_code as u64);
    r.push(46);
    r.push(116);
    r.push(120);
    r.push(116);
    assert(r@ =~= path_of(*key));
    r
}

/// The bytes of the artifact of an outcome.
pub fn artifact_content(config: &PollConfig, outcome: &FetchOutcome) -> (r: Vec<u8>)
    ensures
        r@ == content_of(
            config.size_exceeded_code,
            stored_status(config.max_body_length, config.size_exceeded_code, outcome@),
            outcome@,
        ),
{
    let key = artifact_key(config, outcome);
    let mut r: Vec<u8> = Vec::new();
    push_decimal(&mut r, outcome.last_modified);
    r.push(10);
    push_all(&mut r, outcome.etag.as_str().as_bytes());
    r.push(10);
    push_all(&mut r, outcome.effective_url.as_str().as_bytes());
    r.push(10);
    push_decimal(&mut r, outcome.fetched_at);
    r.push(10);
    if key.status_code != config.size_exceeded_code {
        push_all(&mut r, outcome.body.as_slice());
    }
    assert(r@ =~= content_of(
        config.size_exceeded_code,
        stored_status(config.max_body_length, config.size_exceeded_code, outcome@),
        outcome@,
    ));
    r
}

} // verus!
