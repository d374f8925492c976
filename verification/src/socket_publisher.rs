//! Decision logic of the streaming-socket publish loop, and its raw wire
//! format.
//!
//! The loop itself lives with the embedding, which owns the listener, the
//! sleeps and the writes; every decision — what to do after an accept, a
//! write failure, or a shutdown observation — is taken here, one step per
//! iteration.  The shutdown flag is consulted once per step, so shutdown
//! latency is bounded by one iteration (at most about one tick).

use vstd::prelude::*;

verus! {

/// A socket-session error, as reported to the caller.
#[derive(Debug)]
pub struct Error {
    pub message: String,
}

/// The four bytes of `x`, big-endian.
pub open spec fn spec_u32_be(x: u32) -> Seq<u8> {
    seq![
        ((x >> 24) & 0xff) as u8,
        ((x >> 16) & 0xff) as u8,
        ((x >> 8) & 0xff) as u8,
        (x & 0xff) as u8,
    ]
}

/// One sample as a 4-byte big-endian integer: the socket sink's raw wire
/// format.
pub fn u32_to_bytes(x: u32) -> (r: [u8; 4])
    ensures
        r@ == spec_u32_be(x),
{
    proof {
        assert((x >> 24) & 0xff < 256 && (x >> 16) & 0xff < 256 && (x >> 8) & 0xff < 256 && x
            & 0xff < 256) by (bit_vector);
    }
    let b1: u8 = ((x >> 24) & 0xff) as u8;
    let b2: u8 = ((x >> 16) & 0xff) as u8;
    let b3: u8 = ((x >> 8) & 0xff) as u8;
    let b4: u8 = (x & 0xff) as u8;
    let r = [b1, b2, b3, b4];
    proof {
        assert(r@ =~= spec_u32_be(x));
    }
    r
}

/// Where the socket loop stands.
#[derive(Clone, Copy, Debug, PartialEq, Eq, Structural)]
pub enum SocketState {
    /// No client: check the shutdown flag, then try one non-blocking accept.
    Accepting,
    /// A client is connected: check the shutdown flag, then write one
    /// sample per tick.
    Serving,
    /// The loop is finished and the socket file removed.
    Done,
}

/// What the loop observed since its last decision: the shutdown check, then
/// the outcome of the commanded action.
#[derive(Clone, Copy, Debug, PartialEq, Eq, Structural)]
pub enum SocketEvent {
    /// The shutdown flag was set at this step's check.
    Shutdown,
    /// A client connection was accepted.
    Accepted,
    /// No connection was pending.
    NoPending,
    /// The accept itself failed (not by emptiness).
    AcceptFailed,
    /// A sample was read, encoded and written to the client.
    Wrote,
    /// The write failed because the peer disconnected; expected, the
    /// session just ends.
    Disconnected,
    /// The write failed otherwise; the embedding logs it and the session
    /// ends the same way.
    WriteFailed,
    /// The sensor read failed; fatal after a successful start.
    ReadFailed,
}

/// What the loop must do before its next decision.
#[derive(Clone, Copy, Debug, PartialEq, Eq, Structural)]
pub enum SocketAction {
    /// Try to accept one connection, without blocking.
    Accept,
    /// Read one sample, write it to the client, then sleep one interval.
    WriteSample,
    /// Sleep briefly (about a second) before the next accept, to avoid
    /// spinning.
    Backoff,
    /// Remove the socket file and stop.
    RemoveAndStop,
    /// Nothing: the loop is already finished.
    Stop,
}

/// One decision of the socket loop: from the current state and what was
/// just observed, the next state and the next action.
pub open spec fn spec_socket_step(state: SocketState, event: SocketEvent) -> (
    SocketState,
    SocketAction,
) {
    match state {
        SocketState::Accepting => match event {
            SocketEvent::Shutdown => (SocketState::Done, SocketAction::RemoveAndStop),
            SocketEvent::Accepted => (SocketState::Serving, SocketAction::WriteSample),
            SocketEvent::NoPending => (SocketState::Accepting, SocketAction::Backoff),
            SocketEvent::AcceptFailed => (SocketState::Done, SocketAction::RemoveAndStop),
            _ => (SocketState::Accepting, SocketAction::Accept),
        },
        SocketState::Serving => match event {
            SocketEvent::Shutdown => (SocketState::Done, SocketAction::RemoveAndStop),
            SocketEvent::Wrote => (SocketState::Serving, SocketAction::WriteSample),
            SocketEvent::Disconnected => (SocketState::Accepting, SocketAction::Backoff),
            SocketEvent::WriteFailed => (SocketState::Accepting, SocketAction::Backoff),
            SocketEvent::ReadFailed => (SocketState::Done, SocketAction::RemoveAndStop),
            _ => (SocketState::Serving, SocketAction::WriteSample),
        },
        SocketState::Done => (SocketState::Done, SocketAction::Stop),
    }
}

/// One decision of the socket loop.
pub fn socket_step(state: SocketState, event: SocketEvent) -> (r: (SocketState, SocketAction))
    ensures
        r == spec_socket_step(state, event),
{
    match state {
        SocketState::Accepting => match event {
            SocketEvent::Shutdown => (SocketState::Done, SocketAction::RemoveAndStop),
            SocketEvent::Accepted => (SocketState::Serving, SocketAction::WriteSample),
            SocketEvent::NoPending => (SocketState::Accepting, SocketAction::Backoff),
            SocketEvent::AcceptFailed => (SocketState::Done, SocketAction::RemoveAndStop),
            _ => (SocketState::Accepting, SocketAction::Accept),
        },
        SocketState::Serving => match event {
            SocketEvent::Shutdown => (SocketState::Done, SocketAction::RemoveAndStop),
            SocketEvent::Wrote => (SocketState::Serving, SocketAction::WriteSample),
            SocketEvent::Disconnected => (SocketState::Accepting, SocketAction::Backoff),
            SocketEvent::WriteFailed => (SocketState::Accepting, SocketAction::Backoff),
            SocketEvent::ReadFailed => (SocketState::Done, SocketAction::RemoveAndStop),
            _ => (SocketState::Serving, SocketAction::WriteSample),
        },
        SocketState::Done => (SocketState::Done, SocketAction::Stop),
    }
}

/// The state after consuming the events in order.
pub open spec fn socket_run(state: SocketState, events: Seq<SocketEvent>) -> SocketState
    decreases events.len(),
{
    if events.len() == 0 {
        state
    } else {
        socket_run(spec_socket_step(state, events[0]).0, events.skip(1))
    }
}

/// How many sample writes the loop commands while consuming the events.
pub open spec fn socket_writes(state: SocketState, events: Seq<SocketEvent>) -> nat
    decreases events.len(),
{
    if events.len() == 0 {
        0nat
    } else {
        (if spec_socket_step(state, events[0]).1 == SocketAction::WriteSample {
            1nat
        } else {
            0nat
        }) + socket_writes(spec_socket_step(state, events[0]).0, events.skip(1))
    }
}

/// Law: observing the shutdown flag finishes the loop in that very step —
/// the state becomes `Done`, the one remaining action removes the socket
/// file, and no sample write is commanded by that step.
pub proof fn lemma_socket_shutdown_immediate(state: SocketState)
    ensures
        spec_socket_step(state, SocketEvent::Shutdown).0 == SocketState::Done,
        state != SocketState::Done ==> spec_socket_step(state, SocketEvent::Shutdown).1
            == SocketAction::RemoveAndStop,
        spec_socket_step(state, SocketEvent::Shutdown).1 != SocketAction::WriteSample,
{
}

/// Law: a finished loop stays finished and never writes again, whatever
/// events follow.  With the previous law: once shutdown is observed, the
/// loop commands no further write — it terminates within the one iteration
/// in which it saw the flag, after completing the write that iteration had
/// already finished.
pub proof fn lemma_socket_no_writes_after_done(events: Seq<SocketEvent>)
    ensures
        socket_run(SocketState::Done, events) == SocketState::Done,
        socket_writes(SocketState::Done, events) == 0,
    decreases events.len(),
{
    if events.len() > 0 {
        lemma_socket_no_writes_after_done(events.skip(1));
    }
}

} // verus!
