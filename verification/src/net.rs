use vstd::prelude::*;
use vstd::string::StringSliceAdditionalSpecFns;

verus! {

/// Application protocol name that both peers announce: the ASCII bytes of
/// `my-voice-chat/v1`.
pub const ALPN: [u8; 16] = [
    109, 121, 45, 118, 111, 105, 99, 101, 45, 99, 104, 97, 116, 47, 118, 49,
];

/// The side a peer takes in a call.
#[derive(Clone, Copy, Debug, PartialEq, Eq, Structural)]
pub enum CallRole {
    /// Waits for the other peer to call.
    Host,
    /// Calls the other peer.
    Client,
}

/// The bytes of the menu choice that selects hosting: the single digit `1`.
pub open spec fn host_choice() -> Seq<u8> {
    seq![49u8]
}

impl CallRole {
    /// The role selected by the (trimmed) menu answer `choice`: `1` hosts,
    /// every other answer calls.
    pub fn from_choice(choice: &str) -> (r: CallRole)
        ensures
            r == (if choice.spec_bytes() == host_choice() {
                CallRole::Host
            } else {
                CallRole::Client
            }),
    {
        let bytes = choice.as_bytes();
        if bytes.len() == 1 && bytes[0] == 49u8 {
            assert(bytes@ =~= host_choice());
            CallRole::Host
        } else {
            CallRole::Client
        }
    }
}

/// What became of the next attempt to take an incoming call.
#[derive(Clone, Copy, Debug, PartialEq, Eq, Structural)]
pub enum IncomingEvent {
    /// The endpoint stopped accepting: there will be no further attempt.
    EndpointClosed,
    /// The incoming attempt could not be accepted.
    AcceptFailed,
    /// The attempt was accepted but its handshake failed.
    HandshakeFailed,
    /// The handshake completed: a connection is established.
    Connected,
}

/// What the accepting side does after an `IncomingEvent`.
#[derive(Clone, Copy, Debug, PartialEq, Eq, Structural)]
pub enum AcceptStep {
    /// Wait for the next incoming attempt.
    WaitForNext,
    /// Use the connection just established.
    UseConnection,
    /// Stop with an error: the endpoint closed without a connection.
    GiveUp,
}

/// The step that follows `event`: a failed attempt is skipped, the first
/// established connection is used, and a closed endpoint ends the wait.
pub open spec fn accept_step_spec(event: IncomingEvent) -> AcceptStep {
    match event {
        IncomingEvent::EndpointClosed => AcceptStep::GiveUp,
        IncomingEvent::AcceptFailed => AcceptStep::WaitForNext,
        IncomingEvent::HandshakeFailed => AcceptStep::WaitForNext,
        IncomingEvent::Connected => AcceptStep::UseConnection,
    }
}

/// Decides what the accepting side does after `event`.
pub fn accept_step(event: IncomingEvent) -> (s: AcceptStep)
    ensures
        s == accept_step_spec(event),
{
    match event {
        IncomingEvent::EndpointClosed => AcceptStep::GiveUp,
        IncomingEvent::AcceptFailed => AcceptStep::WaitForNext,
        IncomingEvent::HandshakeFailed => AcceptStep::WaitForNext,
        IncomingEvent::Connected => AcceptStep::UseConnection,
    }
}

} // verus!
