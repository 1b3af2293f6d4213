//! The resilient stream listener's supervision logic: a state machine from
//! connection state and observed event to next state and next action. The
//! embedding application runs the loop on a dedicated execution context; it
//! performs each action (connect, wait, read, dispatch) and hands the
//! outcome back as the next event.

use vstd::prelude::*;
use crate::stream::DepthUpdate;
use crate::stream::stream_url_of;
use crate::stream::build_stream_url;

verus! {

/// Seconds waited after a failed connection or a dropped stream before the
/// next attempt: fixed, with no growth and no retry cap.
pub const RECONNECT_DELAY_SECS: u64 = 5;

/// The listener's connection state; transitions are driven only by
/// connection outcomes, never by external command.
#[derive(Clone, Copy, Debug, PartialEq, Eq, Structural)]
pub enum ConnectionState {
    Disconnected,
    Connecting,
    Streaming,
}

/// What the environment reported at one suspension point.
#[derive(Debug, PartialEq, Eq)]
pub enum StreamEvent {
    /// The connection attempt succeeded.
    ConnectSucceeded,
    /// The connection attempt failed.
    ConnectFailed,
    /// A text frame arrived; `update` holds its decoded payload, or `None`
    /// when the frame was malformed or carried no payload.
    TextFrame { update: Option<DepthUpdate> },
    /// A frame of another kind arrived.
    NonTextFrame,
    /// Reading the next frame failed.
    FrameError,
    /// The fixed backoff after a failure has elapsed.
    RetryElapsed,
}

/// What the loop must do next.
#[derive(Debug, PartialEq, Eq)]
pub enum StreamAction {
    /// Attempt to open the streaming connection.
    Connect,
    /// Wait the fixed backoff, then report `RetryElapsed`.
    Backoff,
    /// Read the next frame.
    AwaitFrame,
    /// Hand `update` to the consumer without waiting for it — fire and
    /// forget — then read the next frame.
    Dispatch { update: DepthUpdate },
    /// The event cannot occur in this state; do nothing.
    Ignore,
}

/// The complete transition table. A failed connect or a frame-read error
/// always leads back through one backoff to a new attempt — the loop never
/// terminates — and a frame, well-formed or not, always leaves the
/// connection streaming.
pub open spec fn spec_step(state: ConnectionState, event: StreamEvent) -> (ConnectionState,
    StreamAction,
) {
    match (state, event) {
        (ConnectionState::Connecting, StreamEvent::ConnectSucceeded) => (
            ConnectionState::Streaming,
            StreamAction::AwaitFrame,
        ),
        (ConnectionState::Connecting, StreamEvent::ConnectFailed) => (
            ConnectionState::Disconnected,
            StreamAction::Backoff,
        ),
        (ConnectionState::Disconnected, StreamEvent::RetryElapsed) => (
            ConnectionState::Connecting,
            StreamAction::Connect,
        ),
        (ConnectionState::Streaming, StreamEvent::TextFrame { update: Some(u) }) => (
            ConnectionState::Streaming,
            StreamAction::Dispatch { update: u },
        ),
        (ConnectionState::Streaming, StreamEvent::TextFrame { update: None }) => (
            ConnectionState::Streaming,
            StreamAction::AwaitFrame,
        ),
        (ConnectionState::Streaming, StreamEvent::NonTextFrame) => (
            ConnectionState::Streaming,
            StreamAction::AwaitFrame,
        ),
        (ConnectionState::Streaming, StreamEvent::FrameError) => (
            ConnectionState::Disconnected,
            StreamAction::Backoff,
        ),
        (s, _) => (s, StreamAction::Ignore),
    }
}

/// One step of the supervised loop.
pub fn step(state: ConnectionState, event: StreamEvent) -> (r: (ConnectionState, StreamAction))
    ensures
        r == spec_step(state, event),
{
    match (state, event) {
        (ConnectionState::Connecting, StreamEvent::ConnectSucceeded) => (
            ConnectionState::Streaming,
            StreamAction::AwaitFrame,
        ),
        (ConnectionState::Connecting, StreamEvent::ConnectFailed) => (
            ConnectionState::Disconnected,
            StreamAction::Backoff,
        ),
        (ConnectionState::Disconnected, StreamEvent::RetryElapsed) => (
            ConnectionState::Connecting,
            StreamAction::Connect,
        ),
        (ConnectionState::Streaming, StreamEvent::TextFrame { update: Some(u) }) => (
            ConnectionState::Streaming,
            StreamAction::Dispatch { update: u },
        ),
        (ConnectionState::Streaming, StreamEvent::TextFrame { update: None }) => (
            ConnectionState::Streaming,
            StreamAction::AwaitFrame,
        ),
        (ConnectionState::Streaming, StreamEvent::NonTextFrame) => (
            ConnectionState::Streaming,
            StreamAction::AwaitFrame,
        ),
        (ConnectionState::Streaming, StreamEvent::FrameError) => (
            ConnectionState::Disconnected,
            StreamAction::Backoff,
        ),
        (s, _) => (s, StreamAction::Ignore),
    }
}

/// The state after the listener has consumed a sequence of events.
pub open spec fn run_state(state: ConnectionState, events: Seq<StreamEvent>) -> ConnectionState
    decreases events.len(),
{
    if events.len() == 0 {
        state
    } else {
        run_state(spec_step(state, events.first()).0, events.drop_first())
    }
}

/// The actions the listener takes while consuming a sequence of events,
/// in order.
pub open spec fn run_actions(state: ConnectionState, events: Seq<StreamEvent>) -> Seq<
    StreamAction,
>
    decreases events.len(),
{
    if events.len() == 0 {
        Seq::empty()
    } else {
        seq![spec_step(state, events.first()).1] + run_actions(
            spec_step(state, events.first()).0,
            events.drop_first(),
        )
    }
}

/// `n` failed connection attempts as the listener observes them: each
/// failure is followed by the end of its backoff.
pub open spec fn failed_attempts(n: nat) -> Seq<StreamEvent>
    decreases n,
{
    if n == 0 {
        Seq::empty()
    } else {
        seq![StreamEvent::ConnectFailed, StreamEvent::RetryElapsed] + failed_attempts(
            (n - 1) as nat,
        )
    }
}

/// The answer to `n` failures: one fixed backoff and one fresh attempt per
/// failure.
pub open spec fn backoff_then_retry(n: nat) -> Seq<StreamAction>
    decreases n,
{
    if n == 0 {
        Seq::empty()
    } else {
        seq![StreamAction::Backoff, StreamAction::Connect] + backoff_then_retry((n - 1) as nat)
    }
}

/// Resilience of the reconnect loop: however many times the connection
/// fails before it succeeds, every failure is answered by one fixed
/// backoff and one retry, and the attempt after the `n`-th failure — the
/// `n+1`-th connection attempt in all — brings the listener to Streaming,
/// waiting for frames.
pub proof fn lemma_reconnect_until_success(n: nat)
    ensures
        run_state(
            ConnectionState::Connecting,
            failed_attempts(n).push(StreamEvent::ConnectSucceeded),
        ) == ConnectionState::Streaming,
        run_actions(
            ConnectionState::Connecting,
            failed_attempts(n).push(StreamEvent::ConnectSucceeded),
        ) == backoff_then_retry(n).push(StreamAction::AwaitFrame),
    decreases n,
{
    let events = failed_attempts(n).push(StreamEvent::ConnectSucceeded);
    if n == 0 {
        assert(events =~= seq![StreamEvent::ConnectSucceeded]);
        assert(events.first() == StreamEvent::ConnectSucceeded);
        assert(events.drop_first() =~= Seq::<StreamEvent>::empty());
        assert(run_state(ConnectionState::Connecting, events) == run_state(
            ConnectionState::Streaming,
            events.drop_first(),
        ));
        assert(run_state(ConnectionState::Streaming, events.drop_first())
            == ConnectionState::Streaming);
        assert(run_actions(ConnectionState::Connecting, events) == seq![StreamAction::AwaitFrame]
            + run_actions(ConnectionState::Streaming, events.drop_first()));
        assert(run_actions(ConnectionState::Streaming, events.drop_first()) == Seq::<
            StreamAction,
        >::empty());
        assert(run_actions(ConnectionState::Connecting, events) =~= backoff_then_retry(
            0,
        ).push(StreamAction::AwaitFrame));
    } else {
        lemma_reconnect_until_success((n - 1) as nat);
        let tail = failed_attempts((n - 1) as nat).push(StreamEvent::ConnectSucceeded);
        assert(events =~= seq![StreamEvent::ConnectFailed, StreamEvent::RetryElapsed] + tail);
        let e1 = events.drop_first();
        assert(e1 =~= seq![StreamEvent::RetryElapsed] + tail);
        let e2 = e1.drop_first();
        assert(e2 =~= tail);
        assert(events.first() == StreamEvent::ConnectFailed);
        assert(e1.first() == StreamEvent::RetryElapsed);
        assert(run_state(ConnectionState::Connecting, events) == run_state(
            ConnectionState::Disconnected,
            e1,
        ));
        assert(run_state(ConnectionState::Disconnected, e1) == run_state(
            ConnectionState::Connecting,
            tail,
        ));
        assert(run_actions(ConnectionState::Connecting, events) == seq![StreamAction::Backoff]
            + run_actions(ConnectionState::Disconnected, e1));
        assert(run_actions(ConnectionState::Disconnected, e1) == seq![StreamAction::Connect]
            + run_actions(ConnectionState::Connecting, tail));
        assert(backoff_then_retry(n).push(StreamAction::AwaitFrame) =~= seq![
            StreamAction::Backoff,
        ] + (seq![StreamAction::Connect] + backoff_then_retry((n - 1) as nat).push(
            StreamAction::AwaitFrame,
        )));
        assert(run_actions(ConnectionState::Connecting, events) =~= backoff_then_retry(n).push(
            StreamAction::AwaitFrame,
        ));
    }
}

/// A malformed or payload-less text frame is skipped: no dispatch, and the
/// connection keeps streaming.
pub proof fn lemma_malformed_frame_skipped()
    ensures
        spec_step(ConnectionState::Streaming, StreamEvent::TextFrame { update: None }) == (
            ConnectionState::Streaming,
            StreamAction::AwaitFrame,
        ),
{
}

/// A decoded payload is dispatched exactly once, and the loop goes
/// straight back to reading frames.
pub proof fn lemma_update_dispatched_once(u: DepthUpdate)
    ensures
        spec_step(ConnectionState::Streaming, StreamEvent::TextFrame { update: Some(u) }) == (
            ConnectionState::Streaming,
            StreamAction::Dispatch { update: u },
        ),
{
}

/// Recovery after a dropped stream: a frame-read error is followed by one
/// backoff, one retry and — once the connect succeeds — the next decoded
/// frame is dispatched again. An error never locks the listener up.
pub proof fn lemma_recovers_after_frame_error(u: DepthUpdate)
    ensures
        run_state(
            ConnectionState::Streaming,
            seq![
                StreamEvent::FrameError,
                StreamEvent::RetryElapsed,
                StreamEvent::ConnectSucceeded,
                StreamEvent::TextFrame { update: Some(u) },
            ],
        ) == ConnectionState::Streaming,
        run_actions(
            ConnectionState::Streaming,
            seq![
                StreamEvent::FrameError,
                StreamEvent::RetryElapsed,
                StreamEvent::ConnectSucceeded,
                StreamEvent::TextFrame { update: Some(u) },
            ],
        ) == seq![
            StreamAction::Backoff,
            StreamAction::Connect,
            StreamAction::AwaitFrame,
            StreamAction::Dispatch { update: u },
        ],
{
    let events = seq![
        StreamEvent::FrameError,
        StreamEvent::RetryElapsed,
        StreamEvent::ConnectSucceeded,
        StreamEvent::TextFrame { update: Some(u) },
    ];
    let e1 = events.drop_first();
    let e2 = e1.drop_first();
    let e3 = e2.drop_first();
    assert(events.first() == StreamEvent::FrameError);
    assert(e1 =~= seq![
        StreamEvent::RetryElapsed,
        StreamEvent::ConnectSucceeded,
        StreamEvent::TextFrame { update: Some(u) },
    ]);
    assert(e1.first() == StreamEvent::RetryElapsed);
    assert(e2 =~= seq![
        StreamEvent::ConnectSucceeded,
        StreamEvent::TextFrame { update: Some(u) },
    ]);
    assert(e2.first() == StreamEvent::ConnectSucceeded);
    assert(e3 =~= seq![StreamEvent::TextFrame { update: Some(u) }]);
    assert(e3.first() == StreamEvent::TextFrame { update: Some(u) });
    assert(e3.drop_first() =~= Seq::<StreamEvent>::empty());
    assert(run_state(ConnectionState::Streaming, events) == run_state(
        ConnectionState::Disconnected,
        e1,
    ));
    assert(run_state(ConnectionState::Disconnected, e1) == run_state(
        ConnectionState::Connecting,
        e2,
    ));
    assert(run_state(ConnectionState::Connecting, e2) == run_state(ConnectionState::Streaming, e3));
    assert(run_state(ConnectionState::Streaming, e3) == run_state(
        ConnectionState::Streaming,
        e3.drop_first(),
    ));
    assert(run_state(ConnectionState::Streaming, e3.drop_first()) == ConnectionState::Streaming);
    assert(run_actions(ConnectionState::Streaming, events) == seq![StreamAction::Backoff]
        + run_actions(ConnectionState::Disconnected, e1));
    assert(run_actions(ConnectionState::Disconnected, e1) == seq![StreamAction::Connect]
        + run_actions(ConnectionState::Connecting, e2));
    assert(run_actions(ConnectionState::Connecting, e2) == seq![StreamAction::AwaitFrame]
        + run_actions(ConnectionState::Streaming, e3));
    assert(run_actions(ConnectionState::Streaming, e3) == seq![
        StreamAction::Dispatch { update: u },
    ] + run_actions(ConnectionState::Streaming, e3.drop_first()));
    assert(run_actions(ConnectionState::Streaming, e3.drop_first()) == Seq::<
        StreamAction,
    >::empty());
    assert(run_actions(ConnectionState::Streaming, events) =~= seq![
        StreamAction::Backoff,
        StreamAction::Connect,
        StreamAction::AwaitFrame,
        StreamAction::Dispatch { update: u },
    ]);
}

/// The market-data stream listener. It holds no state of its own: the
/// connection state lives in the supervised loop that `step` describes.
pub struct BinanceListener {}

impl BinanceListener {
    pub fn new() -> (r: Self)
        ensures
            r == (BinanceListener {  }),
    {
        BinanceListener {}
    }

    /// The state the supervised loop starts in, and its first action: the
    /// listener connects as soon as it is started.
    pub fn start_transition(&self) -> (r: (ConnectionState, StreamAction))
        ensures
            r == (ConnectionState::Connecting, StreamAction::Connect),
    {
        (ConnectionState::Connecting, StreamAction::Connect)
    }

    /// The URL the loop subscribes to for a set of assets.
    pub fn subscription_url(&self, assets: &Vec<String>) -> (r: String)
        ensures
            r@ == stream_url_of(assets@.map_values(|a: String| a@)),
    {
        build_stream_url(assets)
    }
}

} // verus!
