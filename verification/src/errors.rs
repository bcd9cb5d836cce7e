use vstd::prelude::*;

verus! {

/// Failures surfaced by the client core.
///
/// Exchange-level errors are not represented here: the exchange reports
/// them inside a well-formed JSON body, which the client returns as-is
/// for the caller to inspect.
#[derive(Debug, Clone)]
pub enum ApiError {
    /// The transport layer failed (connection refused, DNS failure,
    /// timeout). Built by the code that drives the transport; the
    /// verified core never constructs it.
    Transport(String),
    /// A response body could not be parsed as JSON, or a parsed response
    /// lacked an expected field (such as `listenKey`).
    MalformedResponse,
    /// A time string does not match `YYYY-MM-DD HH:MM:SS`, or its fields
    /// name no real UTC instant.
    InvalidTime,
}

} // verus!
