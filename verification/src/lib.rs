//! Verified core of a client for the Binance exchange API.
//!
//! The library covers the logic of the client: canonical query strings and
//! HMAC-SHA256 request signing, endpoint resolution for the two account
//! modes, assembly of signed and unsigned requests, the listen-key session
//! state machine, UTC time-string parsing, the kline pagination state
//! machine, and the WebSocket subscribe/unsubscribe message framing.
//! The HTTP and WebSocket transports themselves are not part of the
//! library: every function here hands a fully described request to the
//! caller, or consumes a response value the caller read from the wire.

pub mod client;
pub mod crypto;
pub mod endpoints;
pub mod errors;
pub mod json;
pub mod numfmt;
pub mod params;
pub mod klines;
pub mod session;
pub mod stream;
pub mod utctime;
