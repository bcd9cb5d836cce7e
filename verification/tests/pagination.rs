use binance_api::client::BinanceAPI;
use binance_api::endpoints::{AccountMode, HttpMethod};
use binance_api::errors::ApiError;
use binance_api::klines::{klines_from_json, Kline};

fn spot() -> BinanceAPI {
    BinanceAPI::new("api-key".to_string(), "topsecret".to_string(), AccountMode::Spot)
}

fn kline(open_time: i64) -> Kline {
    let text = format!("[{},\"1.0\",\"2.0\",\"0.5\",\"1.5\",\"100\"]", open_time);
    Kline { open_time, record: serde_json::from_str(&text).unwrap() }
}

#[test]
fn fetch_starts_at_the_parsed_bounds() {
    let p = spot()
        .history_klines("BTCUSDT", "1h", "2024-01-01 00:00:00", "2024-01-02 00:00:00")
        .unwrap();
    assert!(!p.done);
    assert_eq!(p.next_start, 1704067200000);
    assert_eq!(p.end_time, Some(1704153600000));
    assert_eq!(p.url, "https://api.binance.com/api/v3/klines");
    let q: Vec<(String, String)> = p.request_params().pairs;
    assert_eq!(q[0], ("symbol".to_string(), "BTCUSDT".to_string()));
    assert_eq!(q[1], ("interval".to_string(), "1h".to_string()));
    assert_eq!(q[2], ("startTime".to_string(), "1704067200000".to_string()));
    assert_eq!(q[3], ("endTime".to_string(), "1704153600000".to_string()));
}

#[test]
fn fetch_without_end_bound_sends_none() {
    let p = spot().history_klines("BTCUSDT", "1h", "2024-01-01 00:00:00", "").unwrap();
    assert_eq!(p.end_time, None);
    assert_eq!(p.request_params().pairs.len(), 3);
}

#[test]
fn fetch_rejects_a_bad_bound() {
    assert!(matches!(
        spot().history_klines("BTCUSDT", "1h", "not a time", ""),
        Err(ApiError::InvalidTime)
    ));
    assert!(matches!(
        spot().history_klines("BTCUSDT", "1h", "2024-01-01 00:00:00", "2024-02-30 00:00:00"),
        Err(ApiError::InvalidTime)
    ));
}

#[test]
fn three_pages_make_three_requests_and_drop_the_tail() {
    let client = spot();
    let mut p = client
        .history_klines("BTCUSDT", "1h", "2024-01-01 00:00:00", "")
        .unwrap();
    let r1 = client.kline_request(&p);
    assert_eq!(r1.method, HttpMethod::Get);

    p.feed_page(vec![kline(10), kline(20)]);
    assert!(!p.done);
    assert_eq!(p.next_start, 21);
    assert_eq!(
        p.request_params().pairs[2],
        ("startTime".to_string(), "21".to_string())
    );

    p.feed_page(vec![kline(30), kline(40)]);
    assert!(!p.done);
    assert_eq!(p.next_start, 41);

    p.feed_page(vec![]);
    assert!(p.done);

    let out = p.finish();
    let opens: Vec<i64> = out.iter().map(|k| k.open_time).collect();
    assert_eq!(opens, [10, 20, 30]);
}

#[test]
fn empty_first_page_yields_empty_series() {
    let mut p = spot()
        .history_klines("BTCUSDT", "1h", "2024-01-01 00:00:00", "")
        .unwrap();
    p.feed_page(vec![]);
    assert!(p.done);
    let out = p.finish();
    assert!(out.is_empty());
}

#[test]
fn page_conversion_reads_open_times() {
    let page: serde_json::Value =
        serde_json::from_str("[[100,\"1\",\"2\"],[200,\"3\",\"4\"]]").unwrap();
    let ks = klines_from_json(&page).unwrap();
    assert_eq!(ks.len(), 2);
    assert_eq!(ks[0].open_time, 100);
    assert_eq!(ks[1].open_time, 200);
}

#[test]
fn empty_page_always_converts() {
    let empty: serde_json::Value = serde_json::from_str("[]").unwrap();
    let ks = klines_from_json(&empty).unwrap();
    assert!(ks.is_empty());
}

#[test]
fn page_conversion_rejects_non_arrays() {
    let not_array: serde_json::Value = serde_json::from_str("{\"code\":-1121}").unwrap();
    assert!(matches!(
        klines_from_json(&not_array),
        Err(ApiError::MalformedResponse)
    ));
    let bad_record: serde_json::Value = serde_json::from_str("[[\"x\",1]]").unwrap();
    assert!(matches!(
        klines_from_json(&bad_record),
        Err(ApiError::MalformedResponse)
    ));
}
