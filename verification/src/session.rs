//! The per-subscriber session logic.
//!
//! A session runs two duties concurrently for one connected subscriber:
//! forward every hub frame to the transport, and turn inbound control
//! frames into writes of the shared frequency control.  The decisions are a
//! pure step function from what just happened to what to do next; the
//! caller owns the transport, the hub cursor and the select loop, performs
//! the action, and reports the next input.

use vstd::prelude::*;

use crate::freq::spec_clamp_frequency;
use crate::wire::parse_control_frame;
use crate::wire::spec_control_frame;

verus! {

/// What a session loop iteration observed.
pub enum SessionInput {
    /// The hub cursor yielded the next frame.
    HubFrame(String),
    /// The hub cursor had lagged and was resynchronized.
    HubLagged,
    /// The hub is gone (the process is shutting down).
    HubClosed,
    /// The subscriber sent a text frame.
    InboundText(String),
    /// The subscriber closed the connection, or it vanished.
    InboundClosed,
    /// The subscriber sent something other than text; ignored.
    InboundOther,
    /// Forwarding a frame to the subscriber's transport failed.
    SendFailed,
}

/// What the session loop is to do next.
pub enum SessionAction {
    /// Send this frame to the subscriber, verbatim.
    Forward(String),
    /// Write this already-clamped interval to the frequency control.
    SetFrequency(u64),
    /// Nothing: keep selecting on both duties.
    Ignore,
    /// End the session, releasing the cursor and the transport handle.
    Terminate,
}

/// The session's decision function.
///
/// Hub frames are forwarded verbatim; a lagged cursor resumes from the
/// latest frame rather than ending the session.  An inbound text frame that
/// parses as a control object yields a clamped frequency write; malformed
/// or unrecognized inbound frames change nothing.  Only a transport
/// failure, a closed connection, or a closed hub ends the session.
pub open spec fn spec_session_step(input: SessionInput) -> SessionAction {
    match input {
        SessionInput::HubFrame(f) => SessionAction::Forward(f),
        SessionInput::HubLagged => SessionAction::Ignore,
        SessionInput::HubClosed => SessionAction::Terminate,
        SessionInput::InboundText(t) => {
            if spec_control_frame(t@) is Some && spec_control_frame(t@)->0 <= u64::MAX {
                SessionAction::SetFrequency(
                    spec_clamp_frequency(spec_control_frame(t@)->0 as u64),
                )
            } else {
                SessionAction::Ignore
            }
        },
        SessionInput::InboundClosed => SessionAction::Terminate,
        SessionInput::InboundOther => SessionAction::Ignore,
        SessionInput::SendFailed => SessionAction::Terminate,
    }
}

/// Take one session step.
pub fn session_step(input: SessionInput) -> (act: SessionAction)
    ensures
        act == spec_session_step(input),
{
    match input {
        SessionInput::HubFrame(f) => SessionAction::Forward(f),
        SessionInput::HubLagged => SessionAction::Ignore,
        SessionInput::HubClosed => SessionAction::Terminate,
        SessionInput::InboundText(t) => {
            match parse_control_frame(t.as_str()) {
                Some(v) => SessionAction::SetFrequency(crate::freq::clamp_frequency(v)),
                None => SessionAction::Ignore,
            }
        },
        SessionInput::InboundClosed => SessionAction::Terminate,
        SessionInput::InboundOther => SessionAction::Ignore,
        SessionInput::SendFailed => SessionAction::Terminate,
    }
}

} // verus!
