use conditional_response::assemble::{respond, ResponseDescriptor};
use conditional_response::evaluate::{evaluate, ConditionalOutcome};
use conditional_response::negotiate::{choose_encoding, EncodingChoice};
use conditional_response::request::{IncomingRequest, Method};
use conditional_response::resource::{EmbeddedForWebFileResponse, ResourceRecord};

fn sample_resource() -> ResourceRecord {
    ResourceRecord {
        body: vec![1, 2, 3],
        body_alt_encoded: None,
        etag: String::from("abc"),
        last_modified: Some(String::from("Thu, 01 Jan 1970 00:16:40 GMT")),
        last_modified_timestamp: Some(1000),
    }
}

fn get_request() -> IncomingRequest {
    IncomingRequest {
        method: Method::Get,
        if_none_match: None,
        if_unmodified_since: None,
        accepts_alt_encoding: false,
    }
}

fn header(r: &ResponseDescriptor, name: &str) -> Option<String> {
    r.headers
        .iter()
        .find(|h| h.0 == name)
        .map(|h| h.1.clone())
}

#[test]
fn method_gate_returns_501() {
    let res = sample_resource();
    let mut req = get_request();
    req.method = Method::Other;
    req.if_none_match = Some(vec![String::from("abc")]);
    req.if_unmodified_since = Some(2000);
    let r = respond(&req, &res);
    assert_eq!(r.status, 501);
    assert!(r.headers.is_empty());
    assert!(r.body.is_empty());
}

#[test]
fn etag_match_gives_304() {
    let res = sample_resource();
    let mut req = get_request();
    req.if_none_match = Some(vec![String::from("abc")]);
    let r = respond(&req, &res);
    assert_eq!(r.status, 304);
    assert!(r.headers.is_empty());
    assert!(r.body.is_empty());
}

#[test]
fn etag_match_overrides_time_validator() {
    let res = sample_resource();
    let mut req = get_request();
    req.if_none_match = Some(vec![String::from("zzz"), String::from("abc")]);
    req.if_unmodified_since = Some(500);
    let r = respond(&req, &res);
    assert_eq!(r.status, 304);
}

#[test]
fn etag_mismatch_gives_200_with_etag_header() {
    let res = sample_resource();
    let mut req = get_request();
    req.if_none_match = Some(vec![String::from("xyz")]);
    req.if_unmodified_since = Some(2000);
    let r = respond(&req, &res);
    assert_eq!(r.status, 200);
    assert_eq!(header(&r, "ETag"), Some(String::from("\"abc\"")));
    assert_eq!(r.body, vec![1, 2, 3]);
}

#[test]
fn modified_after_reference_sends_full() {
    let res = sample_resource();
    let mut req = get_request();
    req.if_unmodified_since = Some(500);
    let r = respond(&req, &res);
    assert_eq!(r.status, 200);
    assert_eq!(r.body, vec![1, 2, 3]);
}

#[test]
fn unmodified_since_reference_gives_304() {
    let res = sample_resource();
    let mut req = get_request();
    req.if_unmodified_since = Some(2000);
    let r = respond(&req, &res);
    assert_eq!(r.status, 304);
}

#[test]
fn unmodified_at_exact_reference_gives_304() {
    let res = sample_resource();
    let mut req = get_request();
    req.if_unmodified_since = Some(1000);
    let r = respond(&req, &res);
    assert_eq!(r.status, 304);
}

#[test]
fn no_validators_sends_full() {
    let res = sample_resource();
    let req = get_request();
    let r = respond(&req, &res);
    assert_eq!(r.status, 200);
    assert_eq!(r.body, vec![1, 2, 3]);
    assert_eq!(
        header(&r, "Last-Modified"),
        Some(String::from("Thu, 01 Jan 1970 00:16:40 GMT"))
    );
}

#[test]
fn time_validator_ignored_without_known_instant() {
    let mut res = sample_resource();
    res.last_modified = None;
    res.last_modified_timestamp = None;
    let mut req = get_request();
    req.if_unmodified_since = Some(2000);
    let r = respond(&req, &res);
    assert_eq!(r.status, 200);
    assert_eq!(header(&r, "Last-Modified"), None);
}

#[test]
fn alternate_body_sent_when_accepted_and_present() {
    let mut res = sample_resource();
    res.body_alt_encoded = Some(vec![9, 9]);
    let mut req = get_request();
    req.accepts_alt_encoding = true;
    let r = respond(&req, &res);
    assert_eq!(r.status, 200);
    assert_eq!(header(&r, "Content-Encoding"), Some(String::from("gzip")));
    assert_eq!(r.body, vec![9, 9]);
}

#[test]
fn identity_body_when_alternate_missing() {
    let res = sample_resource();
    let mut req = get_request();
    req.accepts_alt_encoding = true;
    let r = respond(&req, &res);
    assert_eq!(r.status, 200);
    assert_eq!(header(&r, "Content-Encoding"), None);
    assert_eq!(r.body, vec![1, 2, 3]);
}

#[test]
fn identity_body_when_alternate_not_accepted() {
    let mut res = sample_resource();
    res.body_alt_encoded = Some(vec![9, 9]);
    let req = get_request();
    let r = respond(&req, &res);
    assert_eq!(header(&r, "Content-Encoding"), None);
    assert_eq!(r.body, vec![1, 2, 3]);
}

#[test]
fn head_requests_are_evaluated_like_get() {
    let res = sample_resource();
    let mut req = get_request();
    req.method = Method::Head;
    req.if_none_match = Some(vec![String::from("abc")]);
    let r = respond(&req, &res);
    assert_eq!(r.status, 304);
}

#[test]
fn evaluation_is_idempotent() {
    let res = sample_resource();
    let mut req = get_request();
    req.if_none_match = Some(vec![String::from("xyz")]);
    req.accepts_alt_encoding = true;
    let r1 = respond(&req, &res);
    let r2 = respond(&req, &res);
    assert_eq!(r1.status, r2.status);
    assert_eq!(r1.headers, r2.headers);
    assert_eq!(r1.body, r2.body);
}

#[test]
fn evaluate_reports_outcome_directly() {
    let res = sample_resource();
    let mut req = get_request();
    req.if_none_match = Some(vec![String::from("abc")]);
    assert_eq!(evaluate(&req, &res), ConditionalOutcome::NotModified);
    req.if_none_match = Some(vec![String::from("xyz")]);
    assert_eq!(evaluate(&req, &res), ConditionalOutcome::SendFull);
}

#[test]
fn choose_encoding_is_binary() {
    let mut res = sample_resource();
    let mut req = get_request();
    assert_eq!(choose_encoding(&req, &res), EncodingChoice::Identity);
    req.accepts_alt_encoding = true;
    assert_eq!(choose_encoding(&req, &res), EncodingChoice::Identity);
    res.body_alt_encoded = Some(vec![9]);
    assert_eq!(choose_encoding(&req, &res), EncodingChoice::Alternate);
    req.accepts_alt_encoding = false;
    assert_eq!(choose_encoding(&req, &res), EncodingChoice::Identity);
}

#[test]
fn wrapped_resource_responds_like_respond() {
    let res = sample_resource();
    let mut req = get_request();
    req.if_none_match = Some(vec![String::from("xyz")]);
    let wrapped = EmbeddedForWebFileResponse::from(sample_resource());
    let r1 = wrapped.respond_to(&req);
    let r2 = respond(&req, &res);
    assert_eq!(r1.status, r2.status);
    assert_eq!(r1.headers, r2.headers);
    assert_eq!(r1.body, r2.body);
}
