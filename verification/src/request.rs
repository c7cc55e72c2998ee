//! The read-only view of an incoming request that the decision core consumes.
//!
//! Header values arrive here already parsed into plain values: the
//! `If-None-Match` header as a list of entity-tag tokens, the
//! `If-Unmodified-Since` header as a seconds-based instant, and the
//! `Accept-Encoding` header as a single boolean.

use vstd::prelude::*;

verus! {

/// The request method, collapsed to the three classes the core distinguishes.
#[derive(Clone, Copy, Debug, PartialEq, Eq, Structural)]
pub enum Method {
    Get,
    Head,
    Other,
}

/// A request, reduced to the fields the decision core reads.
pub struct IncomingRequest {
    /// The request method; anything but `Get` or `Head` is gated upstream.
    pub method: Method,
    /// Entity-tag tokens of the `If-None-Match` header; `None` when the
    /// header is absent or unparseable.
    pub if_none_match: Option<Vec<String>>,
    /// Seconds-based instant of the `If-Unmodified-Since` header; `None`
    /// when the header is absent or unparseable.
    pub if_unmodified_since: Option<i64>,
    /// Whether the client accepts the alternate (compressed) encoding.
    pub accepts_alt_encoding: bool,
}

impl IncomingRequest {
    /// A method outside `{GET, HEAD}` never reaches the evaluator.
    pub open spec fn method_allowed(&self) -> bool {
        self.method == Method::Get || self.method == Method::Head
    }
}

} // verus!
