//! The servable resource: body bytes, an optional pre-compressed alternate
//! body, and the cache validators that conditional requests are checked
//! against. A record is built once by the serving layer and only read here.

use vstd::prelude::*;

verus! {

/// A static, pre-validated resource together with its cache validators.
pub struct ResourceRecord {
    /// Canonical representation of the content.
    pub body: Vec<u8>,
    /// Alternate (compressed) representation; present only when it is
    /// smaller than `body`. `None` means "do not offer this encoding".
    pub body_alt_encoded: Option<Vec<u8>>,
    /// Opaque entity tag: unique per distinct content, stable for unchanged
    /// content, compared by exact string equality.
    pub etag: String,
    /// HTTP-date form of the modification instant, used only for the
    /// `Last-Modified` response header.
    pub last_modified: Option<String>,
    /// Seconds-based modification instant, used only for numeric comparison.
    pub last_modified_timestamp: Option<i64>,
}

impl ResourceRecord {
    /// The two representations of the modification instant come from one
    /// source of truth, so both are present or both are absent.
    pub open spec fn wf(&self) -> bool {
        self.last_modified is Some <==> self.last_modified_timestamp is Some
    }
}

/// A resource wrapped for the transport layer, which turns the descriptor
/// computed by [`respond_to`](EmbeddedForWebFileResponse::respond_to) into a
/// transport-level response.
pub struct EmbeddedForWebFileResponse {
    pub resource: ResourceRecord,
}

impl From<ResourceRecord> for EmbeddedForWebFileResponse {
    fn from(resource: ResourceRecord) -> (r: Self) {
        EmbeddedForWebFileResponse { resource }
    }
}

impl vstd::std_specs::convert::FromSpecImpl<ResourceRecord> for EmbeddedForWebFileResponse {
    open spec fn obeys_from_spec() -> bool {
        true
    }

    open spec fn from_spec(resource: ResourceRecord) -> Self {
        EmbeddedForWebFileResponse { resource }
    }
}

} // verus!
