use binance_api::client::BinanceAPI;
use binance_api::endpoints::AccountMode;
use binance_api::params::Params;

fn client(secret: &str) -> BinanceAPI {
    BinanceAPI::new("api-key".to_string(), secret.to_string(), AccountMode::Spot)
}

fn params(pairs: &[(&str, &str)]) -> Params {
    let mut p = Params::new();
    for (k, v) in pairs {
        p.insert(k.to_string(), v.to_string());
    }
    p
}

fn direct_hmac_hex(secret: &str, msg: &str) -> String {
    let mut mac =
        <hmac::Hmac<sha2::Sha256> as hmac::KeyInit>::new_from_slice(secret.as_bytes()).unwrap();
    hmac::Mac::update(&mut mac, msg.as_bytes());
    hex::encode(hmac::Mac::finalize(mac).into_bytes())
}

#[test]
fn query_serialization_keeps_insertion_order() {
    let p = params(&[("symbol", "BTCUSDT"), ("side", "BUY"), ("quantity", "0.1")]);
    assert_eq!(p.to_query(), "symbol=BTCUSDT&side=BUY&quantity=0.1");
}

#[test]
fn query_of_empty_params_is_empty() {
    assert_eq!(Params::new().to_query(), "");
}

#[test]
fn insert_replaces_in_place() {
    let mut p = params(&[("a", "1"), ("b", "2")]);
    p.insert("a".to_string(), "9".to_string());
    assert_eq!(p.to_query(), "a=9&b=2");
}

#[test]
fn signature_is_64_lowercase_hex() {
    let c = client("topsecret");
    let sig = c.generate_signature(&params(&[("symbol", "BTCUSDT"), ("side", "BUY")]));
    assert_eq!(sig.len(), 64);
    assert!(sig.chars().all(|ch| ch.is_ascii_digit() || ('a'..='f').contains(&ch)));
}

#[test]
fn signature_is_deterministic() {
    let c = client("topsecret");
    let p = params(&[("symbol", "BTCUSDT"), ("side", "BUY")]);
    let s1 = c.generate_signature(&p);
    let s2 = c.generate_signature(&p);
    assert_eq!(s1, s2);
}

#[test]
fn signature_matches_hmac_sha256_of_canonical_query() {
    let c = client("topsecret");
    let p = params(&[("symbol", "BTCUSDT"), ("side", "BUY"), ("quantity", "0.1")]);
    let sig = c.generate_signature(&p);
    assert_eq!(
        sig,
        direct_hmac_hex("topsecret", "symbol=BTCUSDT&side=BUY&quantity=0.1")
    );
}

#[test]
fn signature_changes_with_parameter_value() {
    let c = client("topsecret");
    let s1 = c.generate_signature(&params(&[("symbol", "BTCUSDT")]));
    let s2 = c.generate_signature(&params(&[("symbol", "ETHUSDT")]));
    assert_ne!(s1, s2);
}

#[test]
fn signature_changes_with_added_parameter() {
    let c = client("topsecret");
    let s1 = c.generate_signature(&params(&[("symbol", "BTCUSDT")]));
    let s2 = c.generate_signature(&params(&[("symbol", "BTCUSDT"), ("side", "BUY")]));
    assert_ne!(s1, s2);
}

#[test]
fn signature_changes_with_secret_key() {
    let p = params(&[("symbol", "BTCUSDT")]);
    let s1 = client("topsecret").generate_signature(&p);
    let s2 = client("othersecret").generate_signature(&p);
    assert_ne!(s1, s2);
}
