//! Edge monitor actor: timed waits for rising edges, instantaneous level
//! reads, and the background edge-counting session.
//!
//! A monitor request's second byte selects the mode: 0 waits once for a
//! rising edge with the timeout carried in the last two bytes, 1 starts a
//! counting session with that per-edge timeout, 2 stops the session and
//! collects its count, and anything else reads the pin level. The counting
//! session increments on every edge seen within its window and ends either
//! on the stop signal or on the first window with no edge, reporting the
//! accumulated count.

use vstd::prelude::*;
use crate::bytes::u16_of_be;
use crate::bytes::u16_from_be;

verus! {

/// Outcome of one timed wait for a rising edge.
#[derive(PartialEq, Eq, Structural, Clone, Copy, Debug)]
pub enum EdgeWait {
    /// A rising edge arrived within the window.
    Edge,
    /// The window elapsed with no edge.
    TimedOut,
}

/// A decoded monitor request.
#[derive(PartialEq, Eq, Structural, Clone, Copy, Debug)]
pub enum MonitorRequest {
    /// Arm the interrupt and wait once for a rising edge.
    WaitForEdge { timeout_ms: u16 },
    /// Start a background counting session with a per-edge timeout.
    StartCounting { timeout_ms: u16 },
    /// Stop the counting session, if any, and collect its count.
    StopAndCollect,
    /// Read the pin's instantaneous level.
    LevelRead,
}

/// Whether a counting session is live.
#[derive(PartialEq, Eq, Structural, Clone, Copy, Debug)]
pub enum MonitorState {
    Idle,
    Counting,
}

/// The work one monitor request asks of the owning task.
#[derive(PartialEq, Eq, Structural, Clone, Copy, Debug)]
pub enum MonitorAction {
    /// Arm the rising-edge interrupt, wait once with the timeout, respond
    /// by the outcome, disarm.
    ArmAndWait { timeout_ms: u16 },
    /// Read the pin level and respond by it.
    ReadLevel,
    /// Spawn the counting task with the per-edge timeout; the immediate
    /// response is the zero sentinel.
    SpawnCounter { timeout_ms: u16 },
    /// Signal the counting task to stop and respond with its final count.
    CollectCount,
    /// No session to collect: respond with the zero sentinel.
    NoSession,
}

/// The request a monitor message carries, selected by its second byte.
pub open spec fn monitor_request_spec(msg: Seq<u8>) -> MonitorRequest
    recommends
        msg.len() == 4,
{
    if msg[1] == 0 {
        MonitorRequest::WaitForEdge { timeout_ms: u16_of_be(msg[2], msg[3]) }
    } else if msg[1] == 1 {
        MonitorRequest::StartCounting { timeout_ms: u16_of_be(msg[2], msg[3]) }
    } else if msg[1] == 2 {
        MonitorRequest::StopAndCollect
    } else {
        MonitorRequest::LevelRead
    }
}

/// Builds the 4-byte monitor request for a command word: the word's bytes
/// in big-endian order.
pub fn tnr_monitor(msg: u32) -> (r: [u8; 4])
    ensures
        r[0] == crate::bytes::u32_b0(msg),
        r[1] == crate::bytes::u32_b1(msg),
        r[2] == crate::bytes::u32_b2(msg),
        r[3] == crate::bytes::u32_b3(msg),
{
    crate::bytes::u32_to_be(msg)
}

/// Decodes a monitor message into its request.
pub fn parse_monitor_request(msg: &[u8; 4]) -> (r: MonitorRequest)
    ensures
        r == monitor_request_spec(msg@),
{
    let timeout_ms = u16_from_be(msg[2], msg[3]);
    if msg[1] == 0 {
        MonitorRequest::WaitForEdge { timeout_ms }
    } else if msg[1] == 1 {
        MonitorRequest::StartCounting { timeout_ms }
    } else if msg[1] == 2 {
        MonitorRequest::StopAndCollect
    } else {
        MonitorRequest::LevelRead
    }
}

/// Decides the work for one request and the session state after it.
/// Starting a session while one is counting replaces the prior session;
/// stop-and-collect with no live session answers the zero sentinel.
pub fn monitor_step(state: MonitorState, req: MonitorRequest) -> (out: (
    MonitorAction,
    MonitorState,
))
    ensures
        req matches MonitorRequest::WaitForEdge { timeout_ms } ==> out == (
            MonitorAction::ArmAndWait { timeout_ms },
            state,
        ),
        req is LevelRead ==> out == (MonitorAction::ReadLevel, state),
        req matches MonitorRequest::StartCounting { timeout_ms } ==> out == (
            MonitorAction::SpawnCounter { timeout_ms },
            MonitorState::Counting,
        ),
        req is StopAndCollect && state is Counting ==> out == (
            MonitorAction::CollectCount,
            MonitorState::Idle,
        ),
        req is StopAndCollect && state is Idle ==> out == (
            MonitorAction::NoSession,
            MonitorState::Idle,
        ),
{
    match req {
        MonitorRequest::WaitForEdge { timeout_ms } => (
            MonitorAction::ArmAndWait { timeout_ms },
            state,
        ),
        MonitorRequest::LevelRead => (MonitorAction::ReadLevel, state),
        MonitorRequest::StartCounting { timeout_ms } => (
            MonitorAction::SpawnCounter { timeout_ms },
            MonitorState::Counting,
        ),
        MonitorRequest::StopAndCollect => match state {
            MonitorState::Counting => (MonitorAction::CollectCount, MonitorState::Idle),
            MonitorState::Idle => (MonitorAction::NoSession, MonitorState::Idle),
        },
    }
}

/// Response to a plain edge wait: `[0,1]` exactly when an edge arrived
/// within the window, `[0,0]` exactly when the whole window elapsed
/// without one.
pub fn wait_response(outcome: EdgeWait) -> (r: [u8; 2])
    ensures
        r[0] == 0,
        (r[1] == 1) == (outcome is Edge),
        (r[1] == 0) == (outcome is TimedOut),
{
    match outcome {
        EdgeWait::Edge => [0, 1],
        EdgeWait::TimedOut => [0, 0],
    }
}

/// Response to a level read: `[0,1]` for a high pin, `[0,0]` for a low
/// one.
pub fn level_response(is_high: bool) -> (r: [u8; 2])
    ensures
        r[0] == 0,
        r[1] == (if is_high {
            1u8
        } else {
            0u8
        }),
{
    if is_high {
        [0, 1]
    } else {
        [0, 0]
    }
}

/// The zero sentinel: the immediate response to starting a session and to
/// collecting when none is live.
pub fn zero_response() -> (r: [u8; 2])
    ensures
        r[0] == 0,
        r[1] == 0,
{
    [0, 0]
}

/// A live counting session: the edges seen so far.
#[derive(PartialEq, Eq, Structural, Clone, Copy, Debug)]
pub struct CounterSession {
    pub count: u16,
}

/// What one counting-loop turn observes: the stop signal, a rising edge
/// within the window, or a whole window without one.
#[derive(PartialEq, Eq, Structural, Clone, Copy, Debug)]
pub enum CounterEvent {
    Stop,
    Edge,
    TimedOut,
}

/// A counting session after one observation: still counting, or finished
/// with its accumulated count.
#[derive(PartialEq, Eq, Structural, Clone, Copy, Debug)]
pub enum CounterOutcome {
    Continue(CounterSession),
    Finished(u16),
}

/// The counting session's transition: the stop signal and an empty window
/// both end the session at its current count; an edge increments and
/// continues.
pub open spec fn counter_step_spec(s: CounterSession, ev: CounterEvent) -> CounterOutcome {
    match ev {
        CounterEvent::Stop => CounterOutcome::Finished(s.count),
        CounterEvent::TimedOut => CounterOutcome::Finished(s.count),
        CounterEvent::Edge => CounterOutcome::Continue(
            CounterSession { count: (s.count + 1) as u16 },
        ),
    }
}

/// One turn of the counting loop.
pub fn counter_step(s: CounterSession, ev: CounterEvent) -> (r: CounterOutcome)
    requires
        ev is Edge ==> s.count < 0xFFFF,
    ensures
        r == counter_step_spec(s, ev),
{
    match ev {
        CounterEvent::Stop => CounterOutcome::Finished(s.count),
        CounterEvent::TimedOut => CounterOutcome::Finished(s.count),
        CounterEvent::Edge => CounterOutcome::Continue(CounterSession { count: s.count + 1 }),
    }
}

/// The count a session reports after a sequence of observations, or
/// `None` if the observations run out while it is still counting.
pub open spec fn session_result(s: CounterSession, events: Seq<CounterEvent>) -> Option<u16>
    decreases events.len(),
{
    if events.len() == 0 {
        None
    } else {
        match counter_step_spec(s, events[0]) {
            CounterOutcome::Finished(c) => Some(c),
            CounterOutcome::Continue(s2) => session_result(s2, events.skip(1)),
        }
    }
}

proof fn lemma_session_counts_edges(s: CounterSession, n: nat)
    requires
        s.count + n <= 0xFFFF,
    ensures
        session_result(
            s,
            Seq::new(n, |i: int| CounterEvent::Edge).push(CounterEvent::Stop),
        ) == Some((s.count + n) as u16),
    decreases n,
{
    let events = Seq::new(n, |i: int| CounterEvent::Edge).push(CounterEvent::Stop);
    if n == 0 {
        assert(events[0] == CounterEvent::Stop);
    } else {
        assert(events[0] == CounterEvent::Edge);
        let s2 = CounterSession { count: (s.count + 1) as u16 };
        assert(events.skip(1) =~= Seq::new(
            (n - 1) as nat,
            |i: int| CounterEvent::Edge,
        ).push(CounterEvent::Stop));
        lemma_session_counts_edges(s2, (n - 1) as nat);
    }
}

/// Law: a session started at zero that observes `n` edges, each within
/// its timeout window, and then the stop signal reports exactly `n`.
pub proof fn lemma_counting_n_edges(n: nat)
    requires
        n <= 0xFFFF,
    ensures
        session_result(
            CounterSession { count: 0 },
            Seq::new(n, |i: int| CounterEvent::Edge).push(CounterEvent::Stop),
        ) == Some(n as u16),
{
    lemma_session_counts_edges(CounterSession { count: 0 }, n);
}

} // verus!
