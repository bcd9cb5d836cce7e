use binance_api::client::BinanceAPI;
use binance_api::endpoints::{AccountMode, HttpMethod};
use binance_api::params::Params;

fn spot() -> BinanceAPI {
    BinanceAPI::new("api-key".to_string(), "topsecret".to_string(), AccountMode::Spot)
}

fn swap() -> BinanceAPI {
    BinanceAPI::new("api-key".to_string(), "topsecret".to_string(), AccountMode::Swap)
}

fn direct_hmac_hex(secret: &str, msg: &str) -> String {
    let mut mac =
        <hmac::Hmac<sha2::Sha256> as hmac::KeyInit>::new_from_slice(secret.as_bytes()).unwrap();
    hmac::Mac::update(&mut mac, msg.as_bytes());
    hex::encode(hmac::Mac::finalize(mac).into_bytes())
}

fn pairs(p: &[(String, String)]) -> Vec<(&str, &str)> {
    p.iter().map(|(k, v)| (k.as_str(), v.as_str())).collect()
}

#[test]
fn resolves_spot_path() {
    let url = spot().generate_exchange_url(("/a", "/b"));
    assert_eq!(url, "https://api.binance.com/a");
}

#[test]
fn resolves_swap_path() {
    let url = swap().generate_exchange_url(("/a", "/b"));
    assert_eq!(url, "https://fapi.binance.com/b");
}

#[test]
fn exchange_info_request_is_bare() {
    let r = spot().get_exchange_info();
    assert_eq!(r.method, HttpMethod::Get);
    assert_eq!(r.url, "https://api.binance.com/api/v3/exchangeInfo");
    assert!(r.query.pairs.is_empty());
    assert_eq!(r.api_key, "api-key");
}

#[test]
fn price_request_with_and_without_symbol() {
    let all = swap().get_price("");
    assert_eq!(all.url, "https://fapi.binance.com/fapi/v1/ticker/price");
    assert!(all.query.pairs.is_empty());
    let one = spot().get_price("BTCUSDT");
    assert_eq!(one.url, "https://api.binance.com/api/v3/ticker/price");
    assert_eq!(pairs(&one.query.pairs), [("symbol", "BTCUSDT")]);
}

#[test]
fn ticker_request_paths() {
    let r = spot().get_ticker("ETHUSDT");
    assert_eq!(r.method, HttpMethod::Get);
    assert_eq!(r.url, "https://api.binance.com/api/v3/ticker/24hr");
    assert_eq!(pairs(&r.query.pairs), [("symbol", "ETHUSDT")]);
}

#[test]
fn signed_request_appends_timestamp_and_signature() {
    let c = spot();
    let mut p = Params::new();
    p.insert("symbol".to_string(), "BTCUSDT".to_string());
    let r = c.prepare_request(
        "https://api.binance.com/api/v3/account".to_string(),
        HttpMethod::Get,
        p,
        true,
        42,
    );
    let expected_sig = direct_hmac_hex("topsecret", "symbol=BTCUSDT&timestamp=42");
    assert_eq!(
        pairs(&r.query.pairs),
        [
            ("symbol", "BTCUSDT"),
            ("timestamp", "42"),
            ("signature", expected_sig.as_str())
        ]
    );
}

#[test]
fn unsigned_request_keeps_params_as_given() {
    let c = spot();
    let mut p = Params::new();
    p.insert("symbol".to_string(), "BTCUSDT".to_string());
    let r = c.prepare_request(
        "https://api.binance.com/x".to_string(),
        HttpMethod::Post,
        p,
        false,
        42,
    );
    assert_eq!(pairs(&r.query.pairs), [("symbol", "BTCUSDT")]);
}

#[test]
fn limit_order_request_carries_price_and_time_in_force() {
    let r = spot().new_order("BTCUSDT", "BUY", "LIMIT", "0.1", "50000", "GTC", 42);
    assert_eq!(r.method, HttpMethod::Post);
    assert_eq!(r.url, "https://api.binance.com/api/v3/order");
    let signed = "symbol=BTCUSDT&side=BUY&type=LIMIT&quantity=0.1&price=50000&timeInForce=GTC&timestamp=42";
    let expected_sig = direct_hmac_hex("topsecret", signed);
    assert_eq!(
        pairs(&r.query.pairs),
        [
            ("symbol", "BTCUSDT"),
            ("side", "BUY"),
            ("type", "LIMIT"),
            ("quantity", "0.1"),
            ("price", "50000"),
            ("timeInForce", "GTC"),
            ("timestamp", "42"),
            ("signature", expected_sig.as_str())
        ]
    );
}

#[test]
fn market_order_request_drops_price_and_time_in_force() {
    let r = swap().new_order("BTCUSDT", "SELL", "MARKET", "0.1", "50000", "GTC", 42);
    assert_eq!(r.url, "https://fapi.binance.com/fapi/v1/order");
    let signed = "symbol=BTCUSDT&side=SELL&type=MARKET&quantity=0.1&timestamp=42";
    let expected_sig = direct_hmac_hex("topsecret", signed);
    assert_eq!(
        pairs(&r.query.pairs),
        [
            ("symbol", "BTCUSDT"),
            ("side", "SELL"),
            ("type", "MARKET"),
            ("quantity", "0.1"),
            ("timestamp", "42"),
            ("signature", expected_sig.as_str())
        ]
    );
}

#[test]
fn cancel_one_order_and_cancel_all() {
    let one = spot().cancel_order("BTCUSDT", "7", false, 42);
    assert_eq!(one.method, HttpMethod::Delete);
    assert_eq!(one.url, "https://api.binance.com/api/v3/order");
    assert_eq!(pairs(&one.query.pairs)[..2], [("symbol", "BTCUSDT"), ("orderId", "7")]);
    let all = spot().cancel_order("BTCUSDT", "7", true, 42);
    assert_eq!(all.url, "https://api.binance.com/api/v3/openOrders");
    assert_eq!(pairs(&all.query.pairs)[0], ("symbol", "BTCUSDT"));
    assert_eq!(all.query.pairs[1].0, "timestamp");
}

#[test]
fn account_position_and_balance_requests() {
    let acct = spot().pull_account(42);
    assert_eq!(acct.url, "https://api.binance.com/api/v3/account");
    let expected_sig = direct_hmac_hex("topsecret", "timestamp=42");
    assert_eq!(
        pairs(&acct.query.pairs),
        [("timestamp", "42"), ("signature", expected_sig.as_str())]
    );
    let pos = swap().get_position(42);
    assert_eq!(pos.url, "https://fapi.binance.com/fapi/v2/positionRisk");
    let bal = swap().get_balance(42);
    assert_eq!(bal.url, "https://fapi.binance.com/fapi/v2/balance");
    assert_eq!(bal.method, HttpMethod::Get);
}

#[test]
fn clock_stamped_request_ends_with_timestamp_and_signature() {
    let c = spot();
    let mut p = Params::new();
    p.insert("symbol".to_string(), "BTCUSDT".to_string());
    let r = c.prepare_request_now(
        "https://api.binance.com/api/v3/account".to_string(),
        HttpMethod::Get,
        p,
        true,
    );
    assert_eq!(r.query.pairs.len(), 3);
    assert_eq!(r.query.pairs[0].0, "symbol");
    assert_eq!(r.query.pairs[1].0, "timestamp");
    assert_eq!(r.query.pairs[2].0, "signature");
    let ts: i64 = r.query.pairs[1].1.parse().unwrap();
    assert!(ts > 0);
    let expected = direct_hmac_hex("topsecret", &format!("symbol=BTCUSDT&timestamp={ts}"));
    assert_eq!(r.query.pairs[2].1, expected);
}

#[test]
fn panic_not_define_returns_the_fallback() {
    assert_eq!(BinanceAPI::panic_not_define("Account type", "margin", 5), 5);
}
