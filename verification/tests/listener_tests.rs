use fast_client::listener::{
    step, BinanceListener, ConnectionState, StreamAction, StreamEvent, RECONNECT_DELAY_SECS,
};
use fast_client::stream::DepthUpdate;

fn update() -> DepthUpdate {
    DepthUpdate {
        s: "BTC".to_string(),
        bb: "50000.1".to_string(),
        bq: "0.5".to_string(),
        ba: "50001.2".to_string(),
        aq: "0.3".to_string(),
    }
}

#[test]
fn backoff_is_five_seconds() {
    assert_eq!(RECONNECT_DELAY_SECS, 5);
}

#[test]
fn listener_starts_by_connecting() {
    let listener = BinanceListener::new();
    let (state, action) = listener.start_transition();
    assert_eq!(state, ConnectionState::Connecting);
    assert_eq!(action, StreamAction::Connect);
}

#[test]
fn subscription_url_covers_all_assets() {
    let listener = BinanceListener::new();
    let assets = vec!["BTC".to_string(), "ETH".to_string(), "SOL".to_string()];
    assert_eq!(
        listener.subscription_url(&assets),
        "wss://fstream.binance.com/stream?streams=btcusdt@bookTicker/ethusdt@bookTicker/solusdt@bookTicker"
    );
}

#[test]
fn n_failures_then_success_makes_n_plus_one_attempts() {
    let n: usize = 4;
    let mut state = ConnectionState::Connecting;
    let mut connects: usize = 1;
    let mut backoffs: usize = 0;
    for _attempt in 0..n {
        let (s, a) = step(state, StreamEvent::ConnectFailed);
        assert_eq!(s, ConnectionState::Disconnected);
        assert_eq!(a, StreamAction::Backoff);
        backoffs += 1;
        state = s;
        let (s, a) = step(state, StreamEvent::RetryElapsed);
        assert_eq!(s, ConnectionState::Connecting);
        assert_eq!(a, StreamAction::Connect);
        connects += 1;
        state = s;
    }
    let (s, a) = step(state, StreamEvent::ConnectSucceeded);
    assert_eq!(s, ConnectionState::Streaming);
    assert_eq!(a, StreamAction::AwaitFrame);
    assert_eq!(connects, n + 1);
    assert_eq!(backoffs, n);
}

#[test]
fn decoded_frame_is_dispatched_exactly_once() {
    let (s, a) = step(
        ConnectionState::Streaming,
        StreamEvent::TextFrame { update: Some(update()) },
    );
    assert_eq!(s, ConnectionState::Streaming);
    assert_eq!(a, StreamAction::Dispatch { update: update() });
}

#[test]
fn malformed_frame_is_skipped_without_disconnect() {
    let (s, a) = step(ConnectionState::Streaming, StreamEvent::TextFrame { update: None });
    assert_eq!(s, ConnectionState::Streaming);
    assert_eq!(a, StreamAction::AwaitFrame);
}

#[test]
fn non_text_frame_is_ignored_without_disconnect() {
    let (s, a) = step(ConnectionState::Streaming, StreamEvent::NonTextFrame);
    assert_eq!(s, ConnectionState::Streaming);
    assert_eq!(a, StreamAction::AwaitFrame);
}

#[test]
fn frame_error_triggers_backoff_and_recovery_resumes_updates() {
    let (s, a) = step(ConnectionState::Streaming, StreamEvent::FrameError);
    assert_eq!(s, ConnectionState::Disconnected);
    assert_eq!(a, StreamAction::Backoff);
    let (s, a) = step(s, StreamEvent::RetryElapsed);
    assert_eq!(s, ConnectionState::Connecting);
    assert_eq!(a, StreamAction::Connect);
    let (s, a) = step(s, StreamEvent::ConnectSucceeded);
    assert_eq!(s, ConnectionState::Streaming);
    assert_eq!(a, StreamAction::AwaitFrame);
    let (s, a) = step(s, StreamEvent::TextFrame { update: Some(update()) });
    assert_eq!(s, ConnectionState::Streaming);
    assert_eq!(a, StreamAction::Dispatch { update: update() });
}
