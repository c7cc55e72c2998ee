//! Conditional-response and content-encoding negotiation for serving a
//! static, pre-validated resource to clients that may already hold a cached
//! copy. The core decides, per request, whether to send the full body or a
//! "not modified" signal, and which byte representation (identity or the
//! pre-compressed alternate) to send.

pub mod assemble;
pub mod evaluate;
pub mod laws;
pub mod negotiate;
pub mod parse;
pub mod request;
pub mod resource;
