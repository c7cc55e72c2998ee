//! The decision core: given a request's validator headers and a resource's
//! known validators, decide whether the client's cached copy is still good.
//!
//! Entity-tag validation takes strict precedence over time-based validation:
//! a present `If-None-Match` header fully determines the outcome, and the
//! `If-Unmodified-Since` instant is consulted only as a fallback.

use vstd::prelude::*;

use crate::request::IncomingRequest;
use crate::resource::ResourceRecord;

verus! {

/// Whether the client's cached copy suffices or the full body must be sent.
#[derive(Clone, Copy, Debug, PartialEq, Eq, Structural)]
pub enum ConditionalOutcome {
    NotModified,
    SendFull,
}

/// `etag` occurs among the entity-tag tokens `tags`.
pub open spec fn has_tag(tags: Seq<String>, etag: Seq<char>) -> bool {
    exists|i: int| 0 <= i < tags.len() && tags[i]@ == etag
}

/// The outcome of conditional evaluation, in strict precedence order:
/// a present `If-None-Match` header decides alone; otherwise, when both the
/// resource's modification instant and the request's `If-Unmodified-Since`
/// instant are known, the numeric comparison decides; otherwise the full
/// body is owed.
pub open spec fn spec_outcome(req: IncomingRequest, res: ResourceRecord) -> ConditionalOutcome {
    match req.if_none_match {
        Some(tags) => if has_tag(tags@, res.etag@) {
            ConditionalOutcome::NotModified
        } else {
            ConditionalOutcome::SendFull
        },
        None => match (res.last_modified_timestamp, req.if_unmodified_since) {
            (Some(modified), Some(reference)) => if modified > reference {
                ConditionalOutcome::SendFull
            } else {
                ConditionalOutcome::NotModified
            },
            _ => ConditionalOutcome::SendFull,
        },
    }
}

/// `etag` occurs among `tags`, decided by exact string equality.
fn contains_tag(tags: &Vec<String>, etag: &String) -> (found: bool)
    ensures
        found == has_tag(tags@, etag@),
{
    let mut i: usize = 0;
    while i < tags.len()
        invariant
            0 <= i <= tags@.len(),
            forall|j: int| 0 <= j < i ==> tags@[j]@ != etag@,
        decreases tags@.len() - i,
    {
        if tags[i].eq(etag) {
            return true;
        }
        i = i + 1;
    }
    false
}

/// Decide whether the client's cached copy is current.
///
/// The caller has already confirmed that the method is `GET` or `HEAD`; any
/// other method is rejected upstream and never reaches the evaluator.
pub fn evaluate(req: &IncomingRequest, res: &ResourceRecord) -> (outcome: ConditionalOutcome)
    requires
        req.method_allowed(),
    ensures
        outcome == spec_outcome(*req, *res),
{
    match &req.if_none_match {
        Some(tags) => {
            if contains_tag(tags, &res.etag) {
                ConditionalOutcome::NotModified
            } else {
                ConditionalOutcome::SendFull
            }
        },
        None => {
            match (&res.last_modified_timestamp, &req.if_unmodified_since) {
                (Some(modified), Some(reference)) => {
                    if *modified > *reference {
                        ConditionalOutcome::SendFull
                    } else {
                        ConditionalOutcome::NotModified
                    }
                },
                _ => ConditionalOutcome::SendFull,
            }
        },
    }
}

} // verus!
