use vstd::prelude::*;

use crate::artifact::{FetchOutcome, OutcomeView};

verus! {

/// A redirect is refused once more than this many requests came before it in
/// the chain.
pub const MAX_PREVIOUS_HOPS: usize = 9;

/// What to do with one redirect response.
pub enum RedirectDecision {
    /// Stop the fetch with a redirect-loop error.
    Abort,
    /// Follow the redirect; `stub` is to be written first, now.
    Follow { stub: Option<FetchOutcome> },
}

pub open spec fn is_permanent_redirect(status: u16) -> bool {
    status == 301 || status == 308
}

/// The stub that records a permanent move of a feed to `location`.
pub open spec fn redirect_stub(feed_id: u64, status: u16, location: Seq<char>, now: u64) -> OutcomeView {
    OutcomeView {
        feed_id,
        effective_url: location,
        status_code: status,
        last_modified: 0,
        etag: Seq::empty(),
        body: Seq::empty(),
        fetched_at: now,
    }
}

/// Decides on one redirect hop of the fetch of `feed_id`, given the number of
/// requests before it, its status and its target. A chain is cut after ten
/// requests; a permanent move that is followed leaves a stub.
pub fn redirect_decision(
    feed_id: u64,
    previous_hops: usize,
    status: u16,
    location: &String,
    now: u64,
) -> (r: RedirectDecision)
    ensures
        (r is Abort) <==> previous_hops > MAX_PREVIOUS_HOPS,
        r is Follow ==> (r->stub is Some <==> is_permanent_redirect(status)),
        r matches RedirectDecision::Follow { stub: Some(s) } ==> s@ == redirect_stub(
            feed_id,
            status,
            location@,
            now,
        ),
{
    if previous_hops > MAX_PREVIOUS_HOPS {
        return RedirectDecision::Abort;
    }
    if status == 301 || status == 308 {
        let s = FetchOutcome {
            feed_id,
            effective_url: location.clone(),
            status_code: status,
            last_modified: 0,
            etag: String::new(),
            body: Vec::new(),
            fetched_at: now,
        };
        assert(s@.body =~= Seq::<u8>::empty());
        RedirectDecision::Follow { stub: Some(s) }
    } else {
        RedirectDecision::Follow { stub: None }
    }
}

} // verus!
