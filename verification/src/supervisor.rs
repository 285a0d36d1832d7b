//! The connection supervisor: a state machine over the connectivity status.
//!
//! The supervisor does not speak the wireless protocol. It is told what
//! happened to the link, publishes the status that follows, and says what to
//! do next. Association is retried without end, after a delay that never
//! changes; only a rejected configuration stops it.

use vstd::prelude::*;
use crate::bus::{ConnectivityStatus, StatusCell};

verus! {

/// Milliseconds between a failed or lost association and the next attempt.
/// The delay is the same after every failure.
pub const RETRY_DELAY_MS: u64 = 5000;

/// What the supervisor is told.
#[derive(Clone, Copy, Debug, PartialEq, Eq, Structural)]
pub enum LinkEvent {
    /// The supervisor has just been started.
    Started,
    /// The delay before the next attempt is over.
    RetryDue,
    /// The attempt to associate succeeded.
    Associated,
    /// The attempt to associate failed.
    AssociationFailed,
    /// The link was lost.
    LinkLost,
    /// The configuration cannot be used at all.
    ConfigRejected,
}

/// What the supervisor does next.
#[derive(Clone, Copy, Debug, PartialEq, Eq, Structural)]
pub enum SupervisorAction {
    /// Try to associate, and report `Associated` or `AssociationFailed`.
    Associate,
    /// Wait for the link to drop, and report `LinkLost`.
    AwaitLinkLoss,
    /// Wait `delay_ms` milliseconds, and report `RetryDue`.
    RetryAfter { delay_ms: u64 },
    /// Do nothing more.
    Halt,
}

/// The status to publish and the action to take.
#[derive(Clone, Copy, Debug, PartialEq, Eq, Structural)]
pub struct Transition {
    pub next: ConnectivityStatus,
    pub action: SupervisorAction,
}

/// The status that follows `status` on `event`. An event that has no meaning
/// in a status leaves it as it is.
pub open spec fn next_status(status: ConnectivityStatus, event: LinkEvent) -> ConnectivityStatus {
    match (status, event) {
        (ConnectivityStatus::Failed, _) => ConnectivityStatus::Failed,
        (_, LinkEvent::ConfigRejected) => ConnectivityStatus::Failed,
        (ConnectivityStatus::Disconnected, LinkEvent::Started) => ConnectivityStatus::Connecting,
        (ConnectivityStatus::Disconnected, LinkEvent::RetryDue) => ConnectivityStatus::Connecting,
        (ConnectivityStatus::Connecting, LinkEvent::Associated) => ConnectivityStatus::Connected,
        (ConnectivityStatus::Connecting, LinkEvent::AssociationFailed) =>
            ConnectivityStatus::Disconnected,
        (ConnectivityStatus::Connecting, LinkEvent::LinkLost) => ConnectivityStatus::Disconnected,
        (ConnectivityStatus::Connected, LinkEvent::LinkLost) => ConnectivityStatus::Disconnected,
        (s, _) => s,
    }
}

/// What there is to do in a status: attempt while connecting, watch the link
/// while connected, wait the fixed delay while disconnected, nothing once
/// failed.
pub open spec fn action_in(status: ConnectivityStatus) -> SupervisorAction {
    match status {
        ConnectivityStatus::Connecting => SupervisorAction::Associate,
        ConnectivityStatus::Connected => SupervisorAction::AwaitLinkLoss,
        ConnectivityStatus::Disconnected => SupervisorAction::RetryAfter { delay_ms: 5000 },
        ConnectivityStatus::Failed => SupervisorAction::Halt,
    }
}

/// The status after a sequence of events, taken first to last.
pub open spec fn status_after(
    start: ConnectivityStatus,
    events: Seq<LinkEvent>,
) -> ConnectivityStatus
    decreases events.len(),
{
    if events.len() == 0 {
        start
    } else {
        next_status(status_after(start, events.drop_last()), events.last())
    }
}

/// One step of the supervisor, as a pure function.
pub fn supervisor_step(status: ConnectivityStatus, event: LinkEvent) -> (t: Transition)
    ensures
        t.next == next_status(status, event),
        t.action == action_in(t.next),
{
    let next = match status {
        ConnectivityStatus::Failed => ConnectivityStatus::Failed,
        ConnectivityStatus::Disconnected => match event {
            LinkEvent::ConfigRejected => ConnectivityStatus::Failed,
            LinkEvent::Started => ConnectivityStatus::Connecting,
            LinkEvent::RetryDue => ConnectivityStatus::Connecting,
            _ => ConnectivityStatus::Disconnected,
        },
        ConnectivityStatus::Connecting => match event {
            LinkEvent::ConfigRejected => ConnectivityStatus::Failed,
            LinkEvent::Associated => ConnectivityStatus::Connected,
            LinkEvent::AssociationFailed => ConnectivityStatus::Disconnected,
            LinkEvent::LinkLost => ConnectivityStatus::Disconnected,
            _ => ConnectivityStatus::Connecting,
        },
        ConnectivityStatus::Connected => match event {
            LinkEvent::ConfigRejected => ConnectivityStatus::Failed,
            LinkEvent::LinkLost => ConnectivityStatus::Disconnected,
            _ => ConnectivityStatus::Connected,
        },
    };
    let action = match next {
        ConnectivityStatus::Connecting => SupervisorAction::Associate,
        ConnectivityStatus::Connected => SupervisorAction::AwaitLinkLoss,
        ConnectivityStatus::Disconnected => SupervisorAction::RetryAfter {
            delay_ms: RETRY_DELAY_MS,
        },
        ConnectivityStatus::Failed => SupervisorAction::Halt,
    };
    Transition { next, action }
}

/// One step of the supervisor on the shared status: publishes the status
/// that follows and returns the action to take.
pub fn supervise(cell: &mut StatusCell, event: LinkEvent) -> (action: SupervisorAction)
    ensures
        final(cell)@ == next_status(old(cell)@, event),
        action == action_in(final(cell)@),
{
    let t = supervisor_step(cell.read_status(), event);
    cell.write_status(t.next);
    t.action
}

/// Once failed, always failed: no sequence of events leads out.
pub proof fn lemma_failed_is_terminal(events: Seq<LinkEvent>)
    ensures
        status_after(ConnectivityStatus::Failed, events) == ConnectivityStatus::Failed,
    decreases events.len(),
{
    if events.len() > 0 {
        lemma_failed_is_terminal(events.drop_last());
    }
}

/// Failure comes from a rejected configuration and from nothing else: while
/// no such event occurs, a supervisor that has not failed does not fail.
pub proof fn lemma_only_rejection_fails(start: ConnectivityStatus, events: Seq<LinkEvent>)
    requires
        start != ConnectivityStatus::Failed,
        forall|i: int| 0 <= i < events.len() ==> events[i] != LinkEvent::ConfigRejected,
    ensures
        status_after(start, events) != ConnectivityStatus::Failed,
    decreases events.len(),
{
    if events.len() > 0 {
        let init = events.drop_last();
        assert forall|i: int| 0 <= i < init.len() implies init[i] != LinkEvent::ConfigRejected by {
            assert(init[i] == events[i]);
        }
        lemma_only_rejection_fails(start, init);
        assert(events.last() == events[events.len() - 1]);
    }
}

/// The statuses published over a sequence of events, one for each event, in
/// order.
pub open spec fn published(start: ConnectivityStatus, events: Seq<LinkEvent>) -> Seq<
    ConnectivityStatus,
>
    decreases events.len(),
{
    if events.len() == 0 {
        Seq::empty()
    } else {
        published(start, events.drop_last()).push(status_after(start, events))
    }
}

/// A disconnected supervisor that is started (or whose retry is due) and then
/// associates publishes connecting, then connected, and nothing else. A
/// connected supervisor that loses the link and whose retry then comes due
/// publishes disconnected, then connecting, and nothing else.
pub proof fn lemma_association_and_loss(first: LinkEvent)
    requires
        first == LinkEvent::Started || first == LinkEvent::RetryDue,
    ensures
        published(ConnectivityStatus::Disconnected, seq![first, LinkEvent::Associated]) == seq![
            ConnectivityStatus::Connecting,
            ConnectivityStatus::Connected,
        ],
        published(ConnectivityStatus::Connected, seq![LinkEvent::LinkLost, LinkEvent::RetryDue])
            == seq![ConnectivityStatus::Disconnected, ConnectivityStatus::Connecting],
{
    lemma_published_pair(ConnectivityStatus::Disconnected, first, LinkEvent::Associated);
    lemma_published_pair(ConnectivityStatus::Connected, LinkEvent::LinkLost, LinkEvent::RetryDue);
}

/// Two events publish two statuses: the one that follows the start, and the
/// one that follows that.
pub proof fn lemma_published_pair(start: ConnectivityStatus, e1: LinkEvent, e2: LinkEvent)
    ensures
        published(start, seq![e1, e2]) == seq![
            next_status(start, e1),
            next_status(next_status(start, e1), e2),
        ],
{
    let both = seq![e1, e2];
    let one = seq![e1];
    let none = Seq::<LinkEvent>::empty();
    assert(both.drop_last() =~= one);
    assert(one.drop_last() =~= none);
    assert(both.last() == e2);
    assert(one.last() == e1);
    assert(status_after(start, none) == start);
    assert(status_after(start, one) == next_status(start, e1));
    assert(status_after(start, both) == next_status(next_status(start, e1), e2));
    assert(published(start, none) =~= Seq::<ConnectivityStatus>::empty());
    assert(published(start, one) =~= seq![next_status(start, e1)]);
    assert(published(start, both) =~= seq![
        next_status(start, e1),
        next_status(next_status(start, e1), e2),
    ]);
}

} // verus!
