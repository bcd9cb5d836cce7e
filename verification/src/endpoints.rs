use vstd::prelude::*;

verus! {

/// Which market family a client instance targets. The account mode is a
/// closed domain: every match over it is exhaustive, so no fallback path
/// for an unrecognized mode exists in the library.
#[derive(Debug, Clone, Copy, PartialEq, Eq, Structural)]
pub enum AccountMode {
    Spot,
    Swap,
}

/// The HTTP methods the exchange's REST API uses.
#[derive(Debug, Clone, Copy, PartialEq, Eq, Structural)]
pub enum HttpMethod {
    Get,
    Post,
    Put,
    Delete,
}

/// The REST base URL fixed by an account mode.
pub open spec fn spec_base_url(mode: AccountMode) -> Seq<char> {
    match mode {
        AccountMode::Spot => "https://api.binance.com"@,
        AccountMode::Swap => "https://fapi.binance.com"@,
    }
}

/// The WebSocket base URL fixed by an account mode.
pub open spec fn spec_stream_url(mode: AccountMode) -> Seq<char> {
    match mode {
        AccountMode::Spot => "wss://stream.binance.com/ws"@,
        AccountMode::Swap => "wss://fstream.binance.com/ws"@,
    }
}

pub fn base_url_of(mode: AccountMode) -> (r: String)
    ensures
        r@ == spec_base_url(mode),
{
    match mode {
        AccountMode::Spot => "https://api.binance.com".to_owned(),
        AccountMode::Swap => "https://fapi.binance.com".to_owned(),
    }
}

pub fn stream_url_of(mode: AccountMode) -> (r: String)
    ensures
        r@ == spec_stream_url(mode),
{
    match mode {
        AccountMode::Spot => "wss://stream.binance.com/ws".to_owned(),
        AccountMode::Swap => "wss://fstream.binance.com/ws".to_owned(),
    }
}

} // verus!
