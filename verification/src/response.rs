//! The response shapes the orchestrators hand back to the transport layer.

use vstd::prelude::*;

verus! {

/// An error reply: a status code and a short human-readable message.
pub struct ErrorResponse {
    pub status: u16,
    pub message: String,
}

/// The header set of a successful streamed-archive reply; the body is the
/// open artifact, which the transport drains.
pub struct SuccessHead {
    pub status: u16,
    pub content_type: String,
    pub content_length: u64,
    pub content_disposition: String,
    pub cache_control: String,
}

/// A reply of the index-fetch proxy: a status, an optional content type, and
/// a text body.
pub struct IndexResponse {
    pub status: u16,
    pub content_type: Option<String>,
    pub body: String,
}

} // verus!
