use binance_client::api::{
    cancel_report, cancel_success, fix_numbers, new, Order,
};
use binance_client::text::u128_to_decimal;

#[test]
fn decimal_rendering() {
    assert_eq!(u128_to_decimal(0), "0");
    assert_eq!(u128_to_decimal(7), "7");
    assert_eq!(u128_to_decimal(1234567890123), "1234567890123");
    assert_eq!(u128_to_decimal(u128::MAX), u128::MAX.to_string());
}

#[test]
fn numeric_normalization() {
    assert_eq!(fix_numbers("1.50000000"), "1.5");
    assert_eq!(fix_numbers("2.00000000"), "2");
    assert_eq!(fix_numbers("0.00000000"), "0");
    assert_eq!(fix_numbers("123.45000"), "123.45");
    assert_eq!(fix_numbers("1.50000000").parse::<f64>().unwrap(), 1.5);
    assert_eq!(fix_numbers("2.00000000").parse::<f64>().unwrap(), 2.0);
    assert_eq!(fix_numbers("0.00000000").parse::<f64>().unwrap(), 0.0);
    assert_eq!(fix_numbers("123.45000").parse::<f64>().unwrap(), 123.45);
}

#[test]
fn normalization_edge_cases() {
    // An empty remainder is substituted with "0".
    assert_eq!(fix_numbers(""), "0");
    assert_eq!(fix_numbers("000"), "0");
    // No trailing zeros or dot: the text is unchanged.
    assert_eq!(fix_numbers("123.45"), "123.45");
    assert_eq!(fix_numbers("0.001"), "0.001");
}

#[test]
fn os_timestamp_is_monotone_here() {
    let t1 = binance_client::api::_get_os_timestamp();
    let t2 = binance_client::api::_get_os_timestamp();
    assert!(t1 > 0);
    assert!(t2 >= t1);
}

#[test]
fn signature_is_deterministic() {
    let api = new("PUBKEY".to_string(), "SECKEY".to_string());
    let params = vec![("timestamp", "1600000000000"), ("recvWindow", "10000")];
    let s1 = api.get_signature(&params);
    let s2 = api.get_signature(&params);
    assert_eq!(s1, s2);

    let other_value = vec![("timestamp", "1600000000001"), ("recvWindow", "10000")];
    assert_ne!(s1, api.get_signature(&other_value));

    let other_order = vec![("recvWindow", "10000"), ("timestamp", "1600000000000")];
    assert_ne!(s1, api.get_signature(&other_order));
}

#[test]
fn signature_matches_reference_hmac() {
    // The signature must be the lowercase hex HMAC-SHA256 of the exact
    // serialized query string, keyed by the API secret.
    let api = new("PUBKEY".to_string(), "SECKEY".to_string());
    let params = vec![("timestamp", "1600000000000"), ("recvWindow", "10000")];
    let got = api.get_signature(&params);

    let key = ring::hmac::Key::new(ring::hmac::HMAC_SHA256, b"SECKEY");
    let tag = ring::hmac::sign(&key, b"timestamp=1600000000000&recvWindow=10000");
    let expected = data_encoding::HEXLOWER.encode(tag.as_ref());
    assert_eq!(got, expected);
    assert_eq!(got.len(), 64);
}

#[test]
fn open_orders_request_layout() {
    let api = new("PUBKEY".to_string(), "SECKEY".to_string());
    let req = api.open_orders_request(1600000000000);
    assert_eq!(req.path, "/fapi/v1/openOrders");
    assert_eq!(req.api_key, "PUBKEY");
    assert_eq!(req.query.len(), 3);
    assert_eq!(req.query[0], ("timestamp".to_string(), "1600000000000".to_string()));
    assert_eq!(req.query[1], ("recvWindow".to_string(), "10000".to_string()));
    assert_eq!(req.query[2].0, "signature");
    let params = vec![("timestamp", "1600000000000"), ("recvWindow", "10000")];
    assert_eq!(req.query[2].1, api.get_signature(&params));
}

#[test]
fn cancel_request_layout() {
    let api = new("PUBKEY".to_string(), "SECKEY".to_string());
    let req = api.close_all_orders_request("BTCUSDT", 1600000000000);
    assert_eq!(req.path, "/fapi/v1/allOpenOrders");
    assert_eq!(req.api_key, "PUBKEY");
    assert_eq!(req.query.len(), 4);
    assert_eq!(req.query[0], ("timestamp".to_string(), "1600000000000".to_string()));
    assert_eq!(req.query[1], ("recvWindow".to_string(), "10000".to_string()));
    assert_eq!(req.query[2], ("symbol".to_string(), "BTCUSDT".to_string()));
    assert_eq!(req.query[3].0, "signature");
    let params = vec![
        ("timestamp", "1600000000000"),
        ("recvWindow", "10000"),
        ("symbol", "BTCUSDT"),
    ];
    assert_eq!(req.query[3].1, api.get_signature(&params));
}

#[test]
fn server_time_request_layout() {
    let api = new("PUBKEY".to_string(), "SECKEY".to_string());
    let req = api.server_time_request();
    assert_eq!(req.path, "/fapi/v1/time");
    assert_eq!(req.api_key, "PUBKEY");
    assert!(req.query.is_empty());
    assert_eq!(api.domain(), "https://fapi.binance.com");
}

#[test]
fn cancellation_reporting() {
    assert!(cancel_success(200));
    assert!(!cancel_success(400));
    assert!(!cancel_success(500));
    // A batch with one failure still reports every remaining symbol.
    let statuses = vec![200, 500, 200, 404];
    assert_eq!(cancel_report(&statuses), vec![true, false, true, false]);
}

#[test]
fn order_decoding_normalizes_decimals() {
    let order = Order::from_raw(
        42,
        "BTCUSDT".to_string(),
        "NEW".to_string(),
        "27123.50000000",
        "2.00000000",
        "LIMIT".to_string(),
        "BUY".to_string(),
    );
    assert_eq!(order.order_id, 42);
    assert_eq!(order.symbol, "BTCUSDT");
    assert_eq!(order.status, "NEW");
    assert_eq!(order.price, "27123.5");
    assert_eq!(order.orig_qty, "2");
    assert_eq!(order.orig_type, "LIMIT");
    assert_eq!(order.side, "BUY");
}
