//! The guarantees of the decision engine, each stated over the spec
//! functions that the executable functions' contracts are written in.

use vstd::prelude::*;

use crate::assemble::{
    header_views, quoted, spec_response_body, spec_response_headers, spec_response_status,
};
use crate::evaluate::{has_tag, spec_outcome};
use crate::request::IncomingRequest;
use crate::resource::ResourceRecord;

verus! {

/// A request whose method is outside `{GET, HEAD}` is answered with status
/// 501 and nothing else, regardless of its headers.
pub proof fn lemma_method_gate(req: IncomingRequest, res: ResourceRecord)
    requires
        !req.method_allowed(),
    ensures
        spec_response_status(req, res) == 501,
        spec_response_headers(req, res) == Seq::<(Seq<char>, Seq<char>)>::empty(),
        spec_response_body(req, res) == Seq::<u8>::empty(),
{
}

/// When `If-None-Match` carries the resource's entity tag, the outcome is
/// "not modified" (status 304, empty body), regardless of
/// `If-Unmodified-Since`.
pub proof fn lemma_etag_match_not_modified(req: IncomingRequest, res: ResourceRecord)
    requires
        req.method_allowed(),
        req.if_none_match is Some,
        has_tag(req.if_none_match.unwrap()@, res.etag@),
    ensures
        spec_outcome(req, res) is NotModified,
        spec_response_status(req, res) == 304,
        spec_response_body(req, res) == Seq::<u8>::empty(),
{
}

/// When `If-None-Match` is present but does not carry the resource's entity
/// tag, the full body is sent (status 200), with the quoted entity tag as
/// the first response header.
pub proof fn lemma_etag_mismatch_sends_full(req: IncomingRequest, res: ResourceRecord)
    requires
        req.method_allowed(),
        req.if_none_match is Some,
        !has_tag(req.if_none_match.unwrap()@, res.etag@),
    ensures
        spec_outcome(req, res) is SendFull,
        spec_response_status(req, res) == 200,
        spec_response_headers(req, res).len() >= 1,
        spec_response_headers(req, res)[0] == ("ETag"@, quoted(res.etag@)),
{
}

/// Without `If-None-Match`, when both the resource's modification instant
/// and the request's `If-Unmodified-Since` instant are known, the full body
/// is owed exactly when the resource changed after the client's reference
/// instant.
pub proof fn lemma_time_fallback(req: IncomingRequest, res: ResourceRecord)
    requires
        req.method_allowed(),
        req.if_none_match is None,
        res.last_modified_timestamp is Some,
        req.if_unmodified_since is Some,
    ensures
        spec_outcome(req, res) is SendFull <==> res.last_modified_timestamp.unwrap()
            > req.if_unmodified_since.unwrap(),
        spec_outcome(req, res) is NotModified <==> res.last_modified_timestamp.unwrap()
            <= req.if_unmodified_since.unwrap(),
{
}

/// A request that supplies no validator at all is always sent the full body.
pub proof fn lemma_no_validators_sends_full(req: IncomingRequest, res: ResourceRecord)
    requires
        req.if_none_match is None,
        req.if_unmodified_since is None,
    ensures
        spec_outcome(req, res) is SendFull,
{
}

/// On a full response, the alternate body travels exactly when the client
/// accepts the alternate encoding and the resource offers it, and the
/// `Content-Encoding` header is present exactly then.
pub proof fn lemma_encoding_negotiation(req: IncomingRequest, res: ResourceRecord)
    requires
        req.method_allowed(),
        spec_outcome(req, res) is SendFull,
    ensures
        (req.accepts_alt_encoding && res.body_alt_encoded is Some) ==> spec_response_body(req, res)
            == res.body_alt_encoded.unwrap()@,
        (req.accepts_alt_encoding && res.body_alt_encoded is Some) ==> (exists|i: int|
            0 <= i < spec_response_headers(req, res).len() && spec_response_headers(req, res)[i]
                == ("Content-Encoding"@, "gzip"@)),
        !(req.accepts_alt_encoding && res.body_alt_encoded is Some) ==> spec_response_body(
            req,
            res,
        ) == res.body@,
        !(req.accepts_alt_encoding && res.body_alt_encoded is Some) ==> (forall|i: int|
            0 <= i < spec_response_headers(req, res).len() ==> spec_response_headers(req, res)[i].0
                != "Content-Encoding"@),
{
    reveal_strlit("ETag");
    reveal_strlit("Last-Modified");
    reveal_strlit("Content-Encoding");
    let hs = spec_response_headers(req, res);
    if req.accepts_alt_encoding && res.body_alt_encoded is Some {
        assert(hs[hs.len() - 1] == ("Content-Encoding"@, "gzip"@));
    } else {
        assert(forall|i: int| 0 <= i < hs.len() ==> hs[i].0 != "Content-Encoding"@) by {
            assert("ETag"@.len() == 4);
            assert("Last-Modified"@.len() == 13);
            assert("Content-Encoding"@.len() == 16);
        }
    }
}

/// On a full response for a well-formed resource whose modification instant
/// is known, the `Last-Modified` header is emitted.
pub proof fn lemma_known_instant_emits_last_modified(req: IncomingRequest, res: ResourceRecord)
    requires
        res.wf(),
        res.last_modified_timestamp is Some,
        req.method_allowed(),
        spec_outcome(req, res) is SendFull,
    ensures
        exists|i: int|
            0 <= i < spec_response_headers(req, res).len() && spec_response_headers(req, res)[i]
                == ("Last-Modified"@, res.last_modified.unwrap()@),
{
    let hs = spec_response_headers(req, res);
    assert(hs[1] == ("Last-Modified"@, res.last_modified.unwrap()@));
}

/// Repeated evaluation with identical request and resource yields identical
/// output: every response meeting the serving contract has the same status,
/// the same header values and the same body bytes.
pub proof fn lemma_respond_deterministic(
    req: IncomingRequest,
    res: ResourceRecord,
    r1: crate::assemble::ResponseDescriptor,
    r2: crate::assemble::ResponseDescriptor,
)
    requires
        r1.status == spec_response_status(req, res),
        header_views(r1.headers@) == spec_response_headers(req, res),
        r1.body@ == spec_response_body(req, res),
        r2.status == spec_response_status(req, res),
        header_views(r2.headers@) == spec_response_headers(req, res),
        r2.body@ == spec_response_body(req, res),
    ensures
        r1.status == r2.status,
        header_views(r1.headers@) == header_views(r2.headers@),
        r1.body@ == r2.body@,
{
}

} // verus!
