//! The reconnect supervisor of a live-ingestion adapter.
//!
//! One adapter task runs per upstream price stream, plus one for the
//! combined trade stream.  Each cycles through
//! `Disconnected -> Connecting -> Streaming` and, on any error or close,
//! back to `Disconnected` with a fixed delay before the next attempt —
//! indefinitely, since outages are transient by design.  The decisions live
//! here as a total step function from state and event to next state and
//! action; the caller performs the actions (connect, sleep, keep streaming)
//! and reports the outcomes back as events.

use vstd::prelude::*;

verus! {

/// The fixed pause before re-entering `Connecting`, in milliseconds.
pub const RECONNECT_DELAY_MS: u64 = 5000;

/// The fixed cadence of protocol-level keep-alive pings, in milliseconds.
pub const PING_INTERVAL_MS: u64 = 30000;

/// Where an adapter stands with its upstream.
#[derive(Clone, Copy, PartialEq, Eq, Structural, Debug)]
pub enum AdapterState {
    /// No connection; a retry is pending.
    Disconnected,
    /// A connection attempt is in flight.
    Connecting,
    /// Frames are flowing and being translated.
    Streaming,
}

/// What the caller reports back to the supervisor.
#[derive(Clone, Copy, PartialEq, Eq, Structural, Debug)]
pub enum AdapterEvent {
    /// The reconnect delay has elapsed.
    DelayElapsed,
    /// The connection attempt completed.
    ConnectSucceeded,
    /// The connection attempt failed.
    ConnectFailed,
    /// The upstream closed the stream or erred while streaming.
    StreamClosed,
}

/// What the caller is to do next.
#[derive(Clone, Copy, PartialEq, Eq, Structural, Debug)]
pub enum AdapterAction {
    /// Open a new upstream connection and report how it went.
    Connect,
    /// Start the keep-alive ping task and read frames until the stream ends.
    StartStreaming,
    /// Wait the given number of milliseconds, then report `DelayElapsed`.
    RetryAfterDelay(u64),
    /// Nothing to perform; keep doing what the state says.
    Stay,
}

/// The supervisor's transition function: total over every state and event,
/// so the loop can never halt.
pub open spec fn spec_adapter_step(s: AdapterState, e: AdapterEvent) -> (AdapterState, AdapterAction) {
    match (s, e) {
        (AdapterState::Disconnected, AdapterEvent::DelayElapsed) => (
            AdapterState::Connecting,
            AdapterAction::Connect,
        ),
        (AdapterState::Connecting, AdapterEvent::ConnectSucceeded) => (
            AdapterState::Streaming,
            AdapterAction::StartStreaming,
        ),
        (AdapterState::Connecting, AdapterEvent::ConnectFailed) => (
            AdapterState::Disconnected,
            AdapterAction::RetryAfterDelay(RECONNECT_DELAY_MS),
        ),
        (AdapterState::Streaming, AdapterEvent::StreamClosed) => (
            AdapterState::Disconnected,
            AdapterAction::RetryAfterDelay(RECONNECT_DELAY_MS),
        ),
        _ => (s, AdapterAction::Stay),
    }
}

/// Take one supervisor step.
pub fn adapter_step(s: AdapterState, e: AdapterEvent) -> (r: (AdapterState, AdapterAction))
    ensures
        r == spec_adapter_step(s, e),
{
    match (s, e) {
        (AdapterState::Disconnected, AdapterEvent::DelayElapsed) => (
            AdapterState::Connecting,
            AdapterAction::Connect,
        ),
        (AdapterState::Connecting, AdapterEvent::ConnectSucceeded) => (
            AdapterState::Streaming,
            AdapterAction::StartStreaming,
        ),
        (AdapterState::Connecting, AdapterEvent::ConnectFailed) => (
            AdapterState::Disconnected,
            AdapterAction::RetryAfterDelay(RECONNECT_DELAY_MS),
        ),
        (AdapterState::Streaming, AdapterEvent::StreamClosed) => (
            AdapterState::Disconnected,
            AdapterAction::RetryAfterDelay(RECONNECT_DELAY_MS),
        ),
        _ => (s, AdapterAction::Stay),
    }
}

/// Reconnect loop, the outage half: when the upstream closes or a connect
/// attempt fails, the adapter is `Disconnected` and the one pending action
/// is a retry after exactly the fixed delay — an upper bound on how long it
/// stays down before trying again.
pub proof fn lemma_disconnect_schedules_retry(s: AdapterState, e: AdapterEvent)
    ensures
        spec_adapter_step(AdapterState::Streaming, AdapterEvent::StreamClosed) == (
            AdapterState::Disconnected,
            AdapterAction::RetryAfterDelay(RECONNECT_DELAY_MS),
        ),
        spec_adapter_step(AdapterState::Connecting, AdapterEvent::ConnectFailed) == (
            AdapterState::Disconnected,
            AdapterAction::RetryAfterDelay(RECONNECT_DELAY_MS),
        ),
        spec_adapter_step(s, e).0 is Disconnected && !(s is Disconnected)
            ==> spec_adapter_step(s, e).1 == AdapterAction::RetryAfterDelay(RECONNECT_DELAY_MS),
{
}

/// Reconnect loop, the recovery half: once the delay has elapsed the
/// adapter always attempts a new connection, and the machine is total — no
/// state and event pair halts it, so the loop runs indefinitely and the
/// process never terminates on an outage.
pub proof fn lemma_retry_reconnects(s: AdapterState, e: AdapterEvent)
    ensures
        spec_adapter_step(AdapterState::Disconnected, AdapterEvent::DelayElapsed) == (
            AdapterState::Connecting,
            AdapterAction::Connect,
        ),
        spec_adapter_step(s, e).0 is Disconnected || spec_adapter_step(s, e).0 is Connecting
            || spec_adapter_step(s, e).0 is Streaming,
{
}

} // verus!
