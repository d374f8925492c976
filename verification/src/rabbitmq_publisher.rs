//! Decision logic of the message-queue publish loop.
//!
//! The transport — connection, channel, the publish call, the timer and the
//! signal — lives with the embedding.  The loop's decisions are taken here:
//! read a sample, publish it, then race the interval timer against the
//! shutdown flag; the race's outcome decides whether the loop ticks again
//! or stops.  Shutdown is consulted only at the race, never while a publish
//! is in flight, so an in-flight publish always completes; and the race is
//! armed with a deadline one interval after the publish completed, so
//! shutdown latency is bounded by one interval.  A publish failure is fatal
//! for the session and surfaces to the top level; there is no reconnect.

use vstd::prelude::*;
use vstd::string::StringExecFns;

verus! {

/// `a + b`, saturated to the u64 range.
pub open spec fn spec_sat_add(a: u64, b: u64) -> u64 {
    if a + b > u64::MAX as int {
        u64::MAX
    } else {
        (a + b) as u64
    }
}

/// The wire request of one publish: the exchange, the fixed routing key,
/// the encoded sample and the delivery metadata the broker call carries.
pub struct PublishRequest {
    pub exchange: String,
    pub routing_key: String,
    pub payload: Vec<u8>,
    pub content_type: String,
    pub delivery_mode: u8,
    pub timestamp_millis: u64,
}

/// Build the publish request of one encoded sample: routing key `sensor`,
/// JSON content type, persistent delivery, stamped with `now_millis`.
pub fn publish_request(exchange: &str, payload: Vec<u8>, now_millis: u64) -> (r: PublishRequest)
    ensures
        r.exchange@ == exchange@,
        r.routing_key@ == "sensor"@,
        r.payload@ == payload@,
        r.content_type@ == "application/json"@,
        r.delivery_mode == 2,
        r.timestamp_millis == now_millis,
{
    PublishRequest {
        exchange: exchange.to_owned(),
        routing_key: String::from_str("sensor"),
        payload,
        content_type: String::from_str("application/json"),
        delivery_mode: 2,
        timestamp_millis: now_millis,
    }
}

/// Where the message-queue loop stands.
#[derive(Clone, Copy, Debug, PartialEq, Eq, Structural)]
pub enum MqState {
    /// Waiting for the next sample from the source.
    AwaitingSample,
    /// A publish is in flight; it finishes before anything else is decided.
    Publishing,
    /// Racing the interval timer against the shutdown flag; the race
    /// resolves no later than `deadline_millis`.
    Waiting { deadline_millis: u64 },
    /// Stopped by shutdown or by the end of the source.
    Done,
    /// Stopped by a transport failure; the error goes to the top level.
    Failed,
}

/// What the loop observed since its last decision.
#[derive(Clone, Copy, Debug, PartialEq, Eq, Structural)]
pub enum MqEvent {
    /// The source produced a sample, already encoded.
    SampleReady,
    /// The source ended.
    StreamEnded,
    /// The broker accepted the publish, at `now_millis`.
    PublishOk { now_millis: u64 },
    /// The publish failed (connection lost); fatal for the session.
    PublishFailed,
    /// The interval elapsed before shutdown was observed.
    IntervalElapsed,
    /// The shutdown flag was observed before the interval elapsed.
    ShutdownObserved,
}

/// What the loop must do before its next decision.
#[derive(Clone, Copy, Debug, PartialEq, Eq, Structural)]
pub enum MqAction {
    /// Read the next sample from the source.
    ReadSample,
    /// Publish the pending sample.
    Publish,
    /// Wait for the interval deadline or the shutdown flag, whichever
    /// resolves first.
    WaitRace,
    /// Stop; the session is over.
    Stop,
    /// No decision: the observation does not belong to this state (the
    /// embedding never produces it there).
    Hold,
}

/// One decision of the message-queue loop, for a loop ticking every
/// `interval_millis`.
pub open spec fn spec_mq_step(interval_millis: u64, state: MqState, event: MqEvent) -> (
    MqState,
    MqAction,
) {
    match state {
        MqState::AwaitingSample => match event {
            MqEvent::SampleReady => (MqState::Publishing, MqAction::Publish),
            MqEvent::StreamEnded => (MqState::Done, MqAction::Stop),
            _ => (state, MqAction::Hold),
        },
        MqState::Publishing => match event {
            MqEvent::PublishOk { now_millis } => (
                MqState::Waiting { deadline_millis: spec_sat_add(now_millis, interval_millis) },
                MqAction::WaitRace,
            ),
            MqEvent::PublishFailed => (MqState::Failed, MqAction::Stop),
            _ => (state, MqAction::Hold),
        },
        MqState::Waiting { .. } => match event {
            MqEvent::IntervalElapsed => (MqState::AwaitingSample, MqAction::ReadSample),
            MqEvent::ShutdownObserved => (MqState::Done, MqAction::Stop),
            _ => (state, MqAction::Hold),
        },
        MqState::Done => (MqState::Done, MqAction::Stop),
        MqState::Failed => (MqState::Failed, MqAction::Stop),
    }
}

/// One decision of the message-queue loop.
pub fn mq_step(interval_millis: u64, state: MqState, event: MqEvent) -> (r: (MqState, MqAction))
    ensures
        r == spec_mq_step(interval_millis, state, event),
{
    match state {
        MqState::AwaitingSample => match event {
            MqEvent::SampleReady => (MqState::Publishing, MqAction::Publish),
            MqEvent::StreamEnded => (MqState::Done, MqAction::Stop),
            _ => (state, MqAction::Hold),
        },
        MqState::Publishing => match event {
            MqEvent::PublishOk { now_millis } => {
                let deadline_millis: u64 = if now_millis > u64::MAX - interval_millis {
                    u64::MAX
                } else {
                    now_millis + interval_millis
                };
                (MqState::Waiting { deadline_millis }, MqAction::WaitRace)
            },
            MqEvent::PublishFailed => (MqState::Failed, MqAction::Stop),
            _ => (state, MqAction::Hold),
        },
        MqState::Waiting { .. } => match event {
            MqEvent::IntervalElapsed => (MqState::AwaitingSample, MqAction::ReadSample),
            MqEvent::ShutdownObserved => (MqState::Done, MqAction::Stop),
            _ => (state, MqAction::Hold),
        },
        MqState::Done => (MqState::Done, MqAction::Stop),
        MqState::Failed => (MqState::Failed, MqAction::Stop),
    }
}

/// The state after consuming the events in order.
pub open spec fn mq_run(interval_millis: u64, state: MqState, events: Seq<MqEvent>) -> MqState
    decreases events.len(),
{
    if events.len() == 0 {
        state
    } else {
        mq_run(interval_millis, spec_mq_step(interval_millis, state, events[0]).0, events.skip(1))
    }
}

/// How many publishes the loop commands while consuming the events.
pub open spec fn mq_publishes(interval_millis: u64, state: MqState, events: Seq<MqEvent>) -> nat
    decreases events.len(),
{
    if events.len() == 0 {
        0nat
    } else {
        (if spec_mq_step(interval_millis, state, events[0]).1 == MqAction::Publish {
            1nat
        } else {
            0nat
        }) + mq_publishes(
            interval_millis,
            spec_mq_step(interval_millis, state, events[0]).0,
            events.skip(1),
        )
    }
}

/// Law: the shutdown race is decided at the wait, after the in-flight
/// publish completed, and within one interval of it.
///
/// - A publish in flight always completes: the only ways out of the
///   publishing state are the broker's acceptance (to the wait) and the
///   broker's failure (to the failed state) — never to `Done`.
/// - The wait is armed with a deadline one interval after the publish
///   completed, so the race resolves, either way, no later than one
///   interval after the flag could first be consulted.
/// - A shutdown observed at the race stops the loop in that very step, and
///   commands no further publish.
pub proof fn lemma_mq_shutdown_race(interval_millis: u64, now_millis: u64, event: MqEvent)
    ensures
        spec_mq_step(interval_millis, MqState::Publishing, event).0 != MqState::Done,
        spec_mq_step(
            interval_millis,
            MqState::Publishing,
            MqEvent::PublishOk { now_millis },
        ) == (
            MqState::Waiting { deadline_millis: spec_sat_add(now_millis, interval_millis) },
            MqAction::WaitRace,
        ),
        forall|d: u64|
            spec_mq_step(
                interval_millis,
                MqState::Waiting { deadline_millis: d },
                MqEvent::ShutdownObserved,
            ) == (MqState::Done, MqAction::Stop),
        spec_mq_step(interval_millis, MqState::Publishing, event).1 != MqAction::Publish,
{
}

/// Law: a stopped loop stays stopped and never publishes again, whatever
/// events follow; so after the step that observed shutdown, no publish is
/// commanded.
pub proof fn lemma_mq_no_publishes_after_done(interval_millis: u64, events: Seq<MqEvent>)
    ensures
        mq_run(interval_millis, MqState::Done, events) == MqState::Done,
        mq_publishes(interval_millis, MqState::Done, events) == 0,
        mq_run(interval_millis, MqState::Failed, events) == MqState::Failed,
        mq_publishes(interval_millis, MqState::Failed, events) == 0,
    decreases events.len(),
{
    if events.len() > 0 {
        lemma_mq_no_publishes_after_done(interval_millis, events.skip(1));
    }
}

} // verus!
