//! Composing the final status/header/body triple from the two decisions, and
//! the top-level entry point that runs the method gate, the evaluator, the
//! negotiator and the assembler in order.

use vstd::prelude::*;

use crate::evaluate::{evaluate, spec_outcome, ConditionalOutcome};
use crate::negotiate::{choose_encoding, spec_choice, EncodingChoice};
use crate::request::{IncomingRequest, Method};
use crate::resource::{EmbeddedForWebFileResponse, ResourceRecord};

verus! {

/// A transport-independent response: the status code, the response headers
/// in the order they are to be emitted, and the body bytes.
pub struct ResponseDescriptor {
    pub status: u16,
    pub headers: Vec<(String, String)>,
    pub body: Vec<u8>,
}

/// `s` surrounded by double quotes, as entity tags appear on the wire.
pub open spec fn quoted(s: Seq<char>) -> Seq<char> {
    seq!['"'] + s + seq!['"']
}

/// The headers of a full (status 200) response: the quoted entity tag,
/// the modification date when it is known, and the encoding marker exactly
/// when the alternate body is sent.
pub open spec fn spec_full_headers(choice: EncodingChoice, res: ResourceRecord) -> Seq<
    (Seq<char>, Seq<char>),
> {
    seq![("ETag"@, quoted(res.etag@))] + (match res.last_modified {
        Some(date) => seq![("Last-Modified"@, date@)],
        None => Seq::empty(),
    }) + (if choice is Alternate {
        seq![("Content-Encoding"@, "gzip"@)]
    } else {
        Seq::empty()
    })
}

/// The body of a full (status 200) response: the alternate representation
/// exactly when it was chosen, the canonical one otherwise.
pub open spec fn spec_full_body(choice: EncodingChoice, res: ResourceRecord) -> Seq<u8> {
    if choice is Alternate {
        res.body_alt_encoded.unwrap()@
    } else {
        res.body@
    }
}

/// The views of the header pairs actually assembled.
pub open spec fn header_views(headers: Seq<(String, String)>) -> Seq<(Seq<char>, Seq<char>)> {
    headers.map_values(|h: (String, String)| (h.0@, h.1@))
}

/// `res.etag` surrounded by double quotes.
fn quote_etag(etag: &String) -> (q: String)
    ensures
        q@ == quoted(etag@),
{
    let mut q = String::new();
    q.append("\"");
    q.append(etag.as_str());
    q.append("\"");
    proof {
        reveal_strlit("\"");
        assert(q@ =~= quoted(etag@));
    }
    q
}

/// Compose the response for the given decisions.
///
/// A "not modified" outcome yields status 304 with no headers and an empty
/// body: once the client is confirmed in sync, re-sending validators is
/// unnecessary. A "send full" outcome yields status 200 with the validator
/// headers and the chosen representation.
pub fn assemble(
    outcome: ConditionalOutcome,
    choice: EncodingChoice,
    res: &ResourceRecord,
) -> (r: ResponseDescriptor)
    requires
        choice is Alternate ==> res.body_alt_encoded is Some,
    ensures
        outcome is NotModified ==> r.status == 304 && r.headers@ =~= Seq::<(
            String,
            String,
        )>::empty() && r.body@ =~= Seq::<u8>::empty(),
        outcome is SendFull ==> r.status == 200 && header_views(r.headers@) == spec_full_headers(
            choice,
            *res,
        ) && r.body@ == spec_full_body(choice, *res),
{
    match outcome {
        ConditionalOutcome::NotModified => ResponseDescriptor {
            status: 304,
            headers: Vec::new(),
            body: Vec::new(),
        },
        ConditionalOutcome::SendFull => {
            let mut headers: Vec<(String, String)> = Vec::new();
            headers.push((String::from_str("ETag"), quote_etag(&res.etag)));
            if let Some(date) = &res.last_modified {
                headers.push((String::from_str("Last-Modified"), date.clone()));
            }
            let body: Vec<u8> = match choice {
                EncodingChoice::Alternate => {
                    headers.push((String::from_str("Content-Encoding"), String::from_str("gzip")));
                    match &res.body_alt_encoded {
                        Some(alt) => alt.clone(),
                        None => res.body.clone(),
                    }
                },
                EncodingChoice::Identity => res.body.clone(),
            };
            proof {
                assert(header_views(headers@) =~= spec_full_headers(choice, *res));
            }
            ResponseDescriptor { status: 200, headers, body }
        },
    }
}

/// The status of the complete response to `req`, method gate included.
pub open spec fn spec_response_status(req: IncomingRequest, res: ResourceRecord) -> int {
    if !req.method_allowed() {
        501
    } else if spec_outcome(req, res) is NotModified {
        304
    } else {
        200
    }
}

/// The headers of the complete response to `req`: present exactly on a full
/// response.
pub open spec fn spec_response_headers(req: IncomingRequest, res: ResourceRecord) -> Seq<
    (Seq<char>, Seq<char>),
> {
    if req.method_allowed() && spec_outcome(req, res) is SendFull {
        spec_full_headers(spec_choice(req, res), res)
    } else {
        Seq::empty()
    }
}

/// The body of the complete response to `req`: the chosen representation on
/// a full response, empty otherwise.
pub open spec fn spec_response_body(req: IncomingRequest, res: ResourceRecord) -> Seq<u8> {
    if req.method_allowed() && spec_outcome(req, res) is SendFull {
        spec_full_body(spec_choice(req, res), res)
    } else {
        Seq::empty()
    }
}

/// Serve one request against one resource: gate the method, evaluate the
/// cache validators, negotiate the encoding, and assemble the response.
///
/// `HEAD` requests are answered like `GET` requests; dropping the body for
/// them is the transport layer's concern.
pub fn respond(req: &IncomingRequest, res: &ResourceRecord) -> (r: ResponseDescriptor)
    ensures
        r.status == spec_response_status(*req, *res),
        header_views(r.headers@) == spec_response_headers(*req, *res),
        r.body@ == spec_response_body(*req, *res),
{
    if !(req.method == Method::Get || req.method == Method::Head) {
        let r = ResponseDescriptor { status: 501, headers: Vec::new(), body: Vec::new() };
        proof {
            assert(header_views(r.headers@) =~= spec_response_headers(*req, *res));
        }
        return r;
    }
    let outcome = evaluate(req, res);
    let choice = choose_encoding(req, res);
    let r = assemble(outcome, choice, res);
    proof {
        if outcome is NotModified {
            assert(header_views(r.headers@) =~= spec_response_headers(*req, *res));
        }
    }
    r
}

impl EmbeddedForWebFileResponse {
    /// Serve one request against the wrapped resource.
    pub fn respond_to(&self, req: &IncomingRequest) -> (r: ResponseDescriptor)
        ensures
            r.status == spec_response_status(*req, self.resource),
            header_views(r.headers@) == spec_response_headers(*req, self.resource),
            r.body@ == spec_response_body(*req, self.resource),
    {
        respond(req, &self.resource)
    }
}

} // verus!
