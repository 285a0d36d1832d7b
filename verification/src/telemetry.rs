//! The telemetry client: the start-up that holds it back until the link is up,
//! the heartbeat it sends and the receiver that publishes what arrives.
//!
//! Each unit is a decision: given what was observed, what to do next and how
//! long to wait. The caller sleeps, sends and receives.

use vstd::prelude::*;
use crate::bus::{ConnectivityStatus, SampleCell, TelemetrySample, BusState, BusWrite, after_write};
use crate::endpoint::{Endpoint, endpoint_of_text, parse_ip_endpoint};
use crate::wire::{decode_datagram, decode_spec};

verus! {

/// The local port on which telemetry is received.
pub const LOCAL_PORT: u16 = 17891;

/// Size in bytes of the socket's receive buffer and of its transmit buffer.
pub const SOCKET_BUFFER_LEN: usize = 4096;

/// Number of datagrams each of the socket's two metadata rings can describe.
pub const SOCKET_META_SLOTS: usize = 16;

/// Milliseconds between two looks at the status while the link is not up.
pub const POLL_INTERVAL_MS: u64 = 10;

/// Milliseconds between two heartbeats.
pub const HEARTBEAT_INTERVAL_MS: u64 = 5000;

/// Where the start-up of the telemetry client stands.
#[derive(Clone, Copy, Debug, PartialEq, Eq, Structural)]
pub enum StartupState {
    /// Waiting for the link to come up.
    Waiting,
    /// The socket is being bound.
    Binding,
    /// Heartbeat and receiver are running.
    Running,
    /// The bind failed; telemetry stays off.
    Abandoned,
}

/// What the start-up is told.
#[derive(Clone, Copy, Debug, PartialEq, Eq, Structural)]
pub enum StartupEvent {
    /// The status was read from the bus.
    Status(ConnectivityStatus),
    /// The bind returned, with or without success.
    Bound(bool),
}

/// What the start-up asks for.
#[derive(Clone, Copy, Debug, PartialEq, Eq, Structural)]
pub enum StartupAction {
    /// Wait `wait_ms` milliseconds, then read the status again.
    Poll { wait_ms: u64 },
    /// Set up the socket with buffers and rings of these sizes and bind it to
    /// `port`.
    Bind { port: u16, buffer_len: usize, meta_slots: usize },
    /// Start the heartbeat and the receiver on the bound socket.
    StartUnits,
    /// Nothing to do on this event.
    Done,
}

/// The next start-up state. It leaves `Waiting` on the first status that says
/// connected, and `Binding` on the bind's result; nothing leads back.
pub open spec fn startup_next(state: StartupState, event: StartupEvent) -> StartupState {
    match (state, event) {
        (StartupState::Waiting, StartupEvent::Status(ConnectivityStatus::Connected)) =>
            StartupState::Binding,
        (StartupState::Binding, StartupEvent::Bound(true)) => StartupState::Running,
        (StartupState::Binding, StartupEvent::Bound(false)) => StartupState::Abandoned,
        (s, _) => s,
    }
}

/// What the start-up asks for on `event` in `state`. The socket is set up on
/// the step that leaves `Waiting` and the units are started on the step that
/// leaves `Binding`, so each happens at most once.
pub open spec fn startup_action(state: StartupState, event: StartupEvent) -> StartupAction {
    match (state, startup_next(state, event)) {
        (StartupState::Waiting, StartupState::Waiting) => StartupAction::Poll { wait_ms: 10 },
        (StartupState::Waiting, _) => StartupAction::Bind {
            port: 17891,
            buffer_len: 4096,
            meta_slots: 16,
        },
        (StartupState::Binding, StartupState::Running) => StartupAction::StartUnits,
        (_, _) => StartupAction::Done,
    }
}

/// One step of the start-up.
pub fn startup_step(state: StartupState, event: StartupEvent) -> (r: (StartupState, StartupAction))
    ensures
        r.0 == startup_next(state, event),
        r.1 == startup_action(state, event),
{
    match state {
        StartupState::Waiting => match event {
            StartupEvent::Status(ConnectivityStatus::Connected) => (
                StartupState::Binding,
                StartupAction::Bind {
                    port: LOCAL_PORT,
                    buffer_len: SOCKET_BUFFER_LEN,
                    meta_slots: SOCKET_META_SLOTS,
                },
            ),
            _ => (StartupState::Waiting, StartupAction::Poll { wait_ms: POLL_INTERVAL_MS }),
        },
        StartupState::Binding => match event {
            StartupEvent::Bound(true) => (StartupState::Running, StartupAction::StartUnits),
            StartupEvent::Bound(false) => (StartupState::Abandoned, StartupAction::Done),
            _ => (StartupState::Binding, StartupAction::Done),
        },
        StartupState::Running => (StartupState::Running, StartupAction::Done),
        StartupState::Abandoned => (StartupState::Abandoned, StartupAction::Done),
    }
}

/// The start-up state after a sequence of events, taken first to last.
pub open spec fn startup_after(start: StartupState, events: Seq<StartupEvent>) -> StartupState
    decreases events.len(),
{
    if events.len() == 0 {
        start
    } else {
        startup_next(startup_after(start, events.drop_last()), events.last())
    }
}

/// How many times the start-up asks for the socket to be set up over a
/// sequence of events.
pub open spec fn binds_issued(start: StartupState, events: Seq<StartupEvent>) -> nat
    decreases events.len(),
{
    if events.len() == 0 {
        0
    } else {
        let before = startup_after(start, events.drop_last());
        let now: nat = if startup_action(before, events.last()) is Bind {
            1
        } else {
            0
        };
        binds_issued(start, events.drop_last()) + now
    }
}

/// The socket is set up at most once, whatever the start-up is told: once while
/// it still waits, never again after it has left `Waiting`.
pub proof fn lemma_binds_at_most_once(start: StartupState, events: Seq<StartupEvent>)
    ensures
        binds_issued(start, events) <= 1,
        startup_after(start, events) == StartupState::Waiting ==> binds_issued(start, events) == 0,
        start != StartupState::Waiting ==> binds_issued(start, events) == 0
            && startup_after(start, events) != StartupState::Waiting,
    decreases events.len(),
{
    if events.len() > 0 {
        lemma_binds_at_most_once(start, events.drop_last());
    }
}

/// Whether the heartbeat unit is still in use.
#[derive(Clone, Copy, Debug, PartialEq, Eq, Structural)]
pub enum HeartbeatState {
    /// The unit sends whenever the link is up.
    Active,
    /// The configured endpoint was found missing or unusable. The unit sends
    /// nothing any more.
    Disabled,
}

/// What the heartbeat unit does in one round.
#[derive(Clone, Copy, Debug, PartialEq, Eq)]
pub enum HeartbeatAction {
    /// Send the marker datagram to `to`; a failed send is not repeated.
    Send { to: Endpoint },
    /// The link is up but no endpoint is configured: nothing is sent, the
    /// fact is to be logged, and the unit is disabled from here on.
    SkipUnconfigured,
    /// The link is up but the configured text is no endpoint: nothing is
    /// sent, the fact is to be logged, and the unit is disabled from here on.
    SkipMalformed,
    /// The link is not up: nothing is sent.
    Idle,
    /// The unit is disabled: nothing is sent and nothing is logged.
    Disabled,
}

/// What one round of the heartbeat looks at: the status, whether an endpoint
/// text is configured at all, and what the parser made of it.
pub struct HeartbeatRound {
    pub status: ConnectivityStatus,
    pub configured: bool,
    pub parsed: Option<Endpoint>,
}

/// The round's action. A disabled unit does nothing. An active one is idle
/// while the link is not up; while it is up, it sends to the configured
/// endpoint, or skips where none is configured or the text is no endpoint.
pub open spec fn heartbeat_action(
    state: HeartbeatState,
    status: ConnectivityStatus,
    configured: bool,
    parsed: Option<Endpoint>,
) -> HeartbeatAction {
    if state == HeartbeatState::Disabled {
        HeartbeatAction::Disabled
    } else if status != ConnectivityStatus::Connected {
        HeartbeatAction::Idle
    } else if !configured {
        HeartbeatAction::SkipUnconfigured
    } else {
        match parsed {
            Some(to) => HeartbeatAction::Send { to },
            None => HeartbeatAction::SkipMalformed,
        }
    }
}

/// The unit's state after a round: the round that skips disables the unit,
/// and a disabled unit stays so.
pub open spec fn heartbeat_next(state: HeartbeatState, action: HeartbeatAction) -> HeartbeatState {
    if action is SkipUnconfigured || action is SkipMalformed || action is Disabled {
        HeartbeatState::Disabled
    } else {
        state
    }
}

/// Milliseconds to wait after a round: the heartbeat interval after a round
/// that had a configured endpoint text to send to, the short poll interval
/// after every other round.
pub open spec fn heartbeat_wait(action: HeartbeatAction) -> u64 {
    if action is Send || action is SkipMalformed {
        5000
    } else {
        10
    }
}

/// The two bytes of the heartbeat datagram.
pub fn heartbeat_payload() -> (p: [u8; 2])
    ensures
        p@ == seq![1u8, 0u8],
{
    let p: [u8; 2] = [0x01, 0x00];
    assert(p@ =~= seq![1u8, 0u8]);
    p
}

impl HeartbeatAction {
    /// Milliseconds to wait before the next round.
    pub fn wait_ms(&self) -> (ms: u64)
        ensures
            ms == heartbeat_wait(*self),
    {
        match self {
            HeartbeatAction::Send { .. } => HEARTBEAT_INTERVAL_MS,
            HeartbeatAction::SkipMalformed => HEARTBEAT_INTERVAL_MS,
            HeartbeatAction::SkipUnconfigured => POLL_INTERVAL_MS,
            HeartbeatAction::Idle => POLL_INTERVAL_MS,
            HeartbeatAction::Disabled => POLL_INTERVAL_MS,
        }
    }

    /// Whether a datagram goes out in this round.
    pub fn sends(&self) -> (b: bool)
        ensures
            b == (*self is Send),
    {
        match self {
            HeartbeatAction::Send { .. } => true,
            _ => false,
        }
    }

    /// Whether this round found the configuration missing or unusable, which
    /// is to be logged.
    pub fn reports(&self) -> (b: bool)
        ensures
            b == (*self is SkipUnconfigured || *self is SkipMalformed),
    {
        match self {
            HeartbeatAction::SkipUnconfigured => true,
            HeartbeatAction::SkipMalformed => true,
            _ => false,
        }
    }
}

/// Decides a round of the heartbeat once the configured text has been
/// parsed. Returns the unit's next state and the round's action.
pub fn heartbeat_decide(
    state: HeartbeatState,
    status: ConnectivityStatus,
    configured: bool,
    parsed: Option<Endpoint>,
) -> (r: (HeartbeatState, HeartbeatAction))
    ensures
        r.1 == heartbeat_action(state, status, configured, parsed),
        r.0 == heartbeat_next(state, r.1),
{
    match state {
        HeartbeatState::Disabled => (HeartbeatState::Disabled, HeartbeatAction::Disabled),
        HeartbeatState::Active => match status {
            ConnectivityStatus::Connected => {
                if !configured {
                    (HeartbeatState::Disabled, HeartbeatAction::SkipUnconfigured)
                } else {
                    match parsed {
                        Some(to) => (HeartbeatState::Active, HeartbeatAction::Send { to }),
                        None => (HeartbeatState::Disabled, HeartbeatAction::SkipMalformed),
                    }
                }
            },
            _ => (HeartbeatState::Active, HeartbeatAction::Idle),
        },
    }
}

/// One round of the heartbeat unit: looks at the status and, while the unit
/// is active and the link is up, at the configured endpoint text. The text is
/// parsed only then. No outcome is an error: a text that is missing or cannot
/// be used is reported once, by the round that finds it, and the unit is
/// disabled from then on.
pub fn heartbeat_step(state: HeartbeatState, status: ConnectivityStatus, server: &str) -> (r: (
    HeartbeatState,
    HeartbeatAction,
))
    ensures
        r.1 == heartbeat_action(state, status, server@.len() > 0, endpoint_of_text(server@)),
        r.0 == heartbeat_next(state, r.1),
        r.1 is Send ==> state == HeartbeatState::Active && status == ConnectivityStatus::Connected
            && server@.len() > 0,
        heartbeat_wait(r.1) == if r.1 is Send || r.1 is SkipMalformed {
            5000u64
        } else {
            10u64
        },
        heartbeat_wait(r.1) == 5000 ==> state == HeartbeatState::Active && status
            == ConnectivityStatus::Connected && server@.len() > 0,
{
    match state {
        HeartbeatState::Disabled => heartbeat_decide(state, status, false, None),
        HeartbeatState::Active => match status {
            ConnectivityStatus::Connected => {
                if server.is_empty() {
                    heartbeat_decide(state, status, false, None)
                } else {
                    let parsed = parse_ip_endpoint(server);
                    heartbeat_decide(state, status, true, parsed)
                }
            },
            _ => heartbeat_decide(state, status, false, None),
        },
    }
}

/// The action of a round, seen from the state the unit is in.
pub open spec fn round_action(state: HeartbeatState, round: HeartbeatRound) -> HeartbeatAction {
    heartbeat_action(state, round.status, round.configured, round.parsed)
}

/// The unit's state after a sequence of rounds, taken first to last.
pub open spec fn heartbeat_after(
    start: HeartbeatState,
    rounds: Seq<HeartbeatRound>,
) -> HeartbeatState
    decreases rounds.len(),
{
    if rounds.len() == 0 {
        start
    } else {
        let before = heartbeat_after(start, rounds.drop_last());
        heartbeat_next(before, round_action(before, rounds.last()))
    }
}

/// How many rounds of a sequence report a missing or unusable endpoint.
pub open spec fn skips_reported(start: HeartbeatState, rounds: Seq<HeartbeatRound>) -> nat
    decreases rounds.len(),
{
    if rounds.len() == 0 {
        0
    } else {
        let before = heartbeat_after(start, rounds.drop_last());
        let action = round_action(before, rounds.last());
        let now: nat = if action is SkipUnconfigured || action is SkipMalformed {
            1
        } else {
            0
        };
        skips_reported(start, rounds.drop_last()) + now
    }
}

/// A missing or unusable endpoint is reported at most once, whatever the
/// rounds bring: never while the unit is still active at the end, and never
/// by a unit that was disabled to begin with, which also stays disabled.
pub proof fn lemma_skip_reported_once(start: HeartbeatState, rounds: Seq<HeartbeatRound>)
    ensures
        skips_reported(start, rounds) <= 1,
        heartbeat_after(start, rounds) == HeartbeatState::Active ==> skips_reported(start, rounds)
            == 0,
        start == HeartbeatState::Disabled ==> skips_reported(start, rounds) == 0
            && heartbeat_after(start, rounds) == HeartbeatState::Disabled,
    decreases rounds.len(),
{
    if rounds.len() > 0 {
        lemma_skip_reported_once(start, rounds.drop_last());
    }
}

/// A disabled unit sends nothing and waits the short interval, whatever the
/// status and whatever is configured.
pub proof fn lemma_disabled_is_silent(round: HeartbeatRound)
    ensures
        round_action(HeartbeatState::Disabled, round) == HeartbeatAction::Disabled,
        heartbeat_wait(round_action(HeartbeatState::Disabled, round)) == 10,
{
}

/// The heartbeat interval follows only a round of an active unit that found
/// the link up and an endpoint text configured. Every other round is followed
/// by the short interval: a link that is not up, no endpoint configured, a
/// disabled unit.
pub proof fn lemma_wait_by_round(state: HeartbeatState, round: HeartbeatRound)
    ensures
        heartbeat_wait(round_action(state, round)) == if state == HeartbeatState::Active
            && round.status == ConnectivityStatus::Connected && round.configured {
            5000u64
        } else {
            10u64
        },
{
}

/// One round of the receiver unit: decodes the datagram and replaces the
/// published sample with the result, whole.
pub fn receive_datagram(cell: &mut SampleCell, datagram: &[u8])
    ensures
        final(cell)@ == decode_spec(datagram@),
{
    let s = decode_datagram(datagram);
    cell.write_sample(s);
}

/// The bus after a datagram was received.
pub open spec fn after_datagram(bus: BusState, datagram: Seq<u8>) -> BusState {
    after_write(bus, BusWrite::Sample(decode_spec(datagram)))
}

/// Receiving the same datagram twice leaves the bus as receiving it once:
/// nothing adds up and nothing is averaged. What was published before has no
/// part in the new sample, and the status is not touched.
pub proof fn lemma_receive_idempotent(bus: BusState, other: BusState, datagram: Seq<u8>)
    ensures
        after_datagram(after_datagram(bus, datagram), datagram) == after_datagram(bus, datagram),
        after_datagram(bus, datagram).sample == after_datagram(other, datagram).sample,
        after_datagram(bus, datagram).status == bus.status,
{
}

/// A datagram that leaves counters out resets them: after a short datagram
/// nothing of the earlier sample is left.
pub proof fn lemma_short_datagram_resets(bus: BusState, datagram: Seq<u8>)
    requires
        datagram.len() < 32,
    ensures
        after_datagram(bus, datagram).sample == TelemetrySample::zero(),
{
}

} // verus!
