use fast_client::stream::{
    strip_quote_suffix, build_stream_url, make_update, decode_payload, BookTickerData,
};

fn ticker(s: &str) -> BookTickerData {
    BookTickerData {
        s: s.to_string(),
        b: "50000.1".to_string(),
        bq: "0.5".to_string(),
        a: "50001.2".to_string(),
        aq: "0.3".to_string(),
    }
}

#[test]
fn strip_quote_suffix_removes_trailing_quote_currency() {
    assert_eq!(strip_quote_suffix("BTCUSDT"), "BTC");
    assert_eq!(strip_quote_suffix("ETHUSDT"), "ETH");
    assert_eq!(strip_quote_suffix("USDT"), "");
    assert_eq!(strip_quote_suffix(""), "");
    assert_eq!(strip_quote_suffix("BTC"), "BTC");
}

#[test]
fn strip_quote_suffix_touches_only_the_suffix() {
    assert_eq!(strip_quote_suffix("USDTBTC"), "USDTBTC");
    assert_eq!(strip_quote_suffix("XUSDTY"), "XUSDTY");
    assert_eq!(strip_quote_suffix("ETHUSDTUSDT"), "ETHUSDT");
    assert_eq!(strip_quote_suffix("BTCusdt"), "BTCusdt");
    assert_eq!(strip_quote_suffix("USD"), "USD");
}

#[test]
fn build_stream_url_joins_lowercased_streams() {
    let assets = vec!["BTC".to_string(), "ETH".to_string()];
    let url = build_stream_url(&assets);
    assert_eq!(
        url,
        "wss://fstream.binance.com/stream?streams=btcusdt@bookTicker/ethusdt@bookTicker"
    );
}

#[test]
fn build_stream_url_single_asset_has_no_separator() {
    let assets = vec!["Sol".to_string()];
    let url = build_stream_url(&assets);
    assert_eq!(url, "wss://fstream.binance.com/stream?streams=solusdt@bookTicker");
}

#[test]
fn build_stream_url_empty_assets_is_bare_endpoint() {
    let assets: Vec<String> = Vec::new();
    let url = build_stream_url(&assets);
    assert_eq!(url, "wss://fstream.binance.com/stream?streams=");
}

#[test]
fn make_update_strips_symbol_and_keeps_fields() {
    let u = make_update(ticker("BTCUSDT"));
    assert_eq!(u.s, "BTC");
    assert_eq!(u.bb, "50000.1");
    assert_eq!(u.bq, "0.5");
    assert_eq!(u.ba, "50001.2");
    assert_eq!(u.aq, "0.3");
}

#[test]
fn decode_payload_present_yields_exactly_one_update() {
    let r = decode_payload(Some(ticker("BTCUSDT"))).unwrap();
    assert_eq!(r.s, "BTC");
    assert_eq!(r.bb, "50000.1");
}

#[test]
fn decode_payload_keeps_unparseable_numeric_strings() {
    let mut d = ticker("BTCUSDT");
    d.b = "NaNtext".to_string();
    let r = decode_payload(Some(d)).unwrap();
    assert_eq!(r.bb, "NaNtext");
    assert_eq!(r.bq, "0.5");
}

#[test]
fn decode_payload_absent_is_no_op() {
    assert!(decode_payload(None).is_none());
}
