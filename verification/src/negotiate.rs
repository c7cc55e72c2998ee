//! Content negotiation: a binary choice between the canonical body and the
//! pre-compressed alternate body. There is no quality-value ranking, because
//! the resource offers at most one alternate representation.

use vstd::prelude::*;

use crate::request::IncomingRequest;
use crate::resource::ResourceRecord;

verus! {

/// Which byte representation of the resource to send.
#[derive(Clone, Copy, Debug, PartialEq, Eq, Structural)]
pub enum EncodingChoice {
    Identity,
    Alternate,
}

/// The alternate encoding is chosen exactly when the client accepts it and
/// the resource offers it.
pub open spec fn spec_choice(req: IncomingRequest, res: ResourceRecord) -> EncodingChoice {
    if req.accepts_alt_encoding && res.body_alt_encoded is Some {
        EncodingChoice::Alternate
    } else {
        EncodingChoice::Identity
    }
}

/// Decide which body representation to send.
pub fn choose_encoding(req: &IncomingRequest, res: &ResourceRecord) -> (choice: EncodingChoice)
    ensures
        choice == spec_choice(*req, *res),
{
    if req.accepts_alt_encoding && res.body_alt_encoded.is_some() {
        EncodingChoice::Alternate
    } else {
        EncodingChoice::Identity
    }
}

} // verus!
