use netspeed_core::bus::{ConnectivityStatus, StatusCell};
use netspeed_core::supervisor::{
    supervise, supervisor_step, LinkEvent, SupervisorAction, RETRY_DELAY_MS,
};

use netspeed_core::bus::ConnectivityStatus::{Connected, Connecting, Disconnected, Failed};

const ALL_EVENTS: [LinkEvent; 6] = [
    LinkEvent::Started,
    LinkEvent::RetryDue,
    LinkEvent::Associated,
    LinkEvent::AssociationFailed,
    LinkEvent::LinkLost,
    LinkEvent::ConfigRejected,
];

fn trace(start: ConnectivityStatus, events: &[LinkEvent]) -> Vec<ConnectivityStatus> {
    let mut cell = StatusCell::new(start);
    let mut seen = vec![start];
    for e in events {
        supervise(&mut cell, *e);
        seen.push(cell.read_status());
    }
    seen
}

#[test]
fn association_success_goes_through_connecting() {
    assert_eq!(
        trace(Disconnected, &[LinkEvent::Started, LinkEvent::Associated]),
        vec![Disconnected, Connecting, Connected]
    );
}

#[test]
fn link_loss_goes_back_through_disconnected() {
    assert_eq!(
        trace(Connected, &[LinkEvent::LinkLost, LinkEvent::RetryDue]),
        vec![Connected, Disconnected, Connecting]
    );
}

#[test]
fn retry_delay_is_five_seconds() {
    assert_eq!(RETRY_DELAY_MS, 5000);
}

#[test]
fn failed_association_is_retried_with_the_same_delay() {
    let mut status = Disconnected;
    let mut t = supervisor_step(status, LinkEvent::Started);
    for _ in 0..20 {
        assert_eq!(t.next, Connecting);
        assert_eq!(t.action, SupervisorAction::Associate);
        status = t.next;
        t = supervisor_step(status, LinkEvent::AssociationFailed);
        assert_eq!(t.next, Disconnected);
        assert_eq!(t.action, SupervisorAction::RetryAfter { delay_ms: 5000 });
        status = t.next;
        t = supervisor_step(status, LinkEvent::RetryDue);
    }
}

#[test]
fn connected_waits_for_link_loss() {
    let t = supervisor_step(Connecting, LinkEvent::Associated);
    assert_eq!(t.next, Connected);
    assert_eq!(t.action, SupervisorAction::AwaitLinkLoss);
    let t = supervisor_step(Connected, LinkEvent::LinkLost);
    assert_eq!(t.next, Disconnected);
    assert_eq!(t.action, SupervisorAction::RetryAfter { delay_ms: RETRY_DELAY_MS });
}

#[test]
fn rejected_configuration_fails_from_every_status() {
    for s in [Disconnected, Connecting, Connected, Failed] {
        let t = supervisor_step(s, LinkEvent::ConfigRejected);
        assert_eq!(t.next, Failed);
        assert_eq!(t.action, SupervisorAction::Halt);
    }
}

#[test]
fn failed_is_terminal() {
    for e in ALL_EVENTS {
        let t = supervisor_step(Failed, e);
        assert_eq!(t.next, Failed);
        assert_eq!(t.action, SupervisorAction::Halt);
    }
    assert_eq!(trace(Failed, &ALL_EVENTS), vec![Failed; 7]);
}

#[test]
fn events_without_meaning_leave_the_status() {
    for e in [LinkEvent::Associated, LinkEvent::AssociationFailed, LinkEvent::LinkLost] {
        assert_eq!(supervisor_step(Disconnected, e).next, Disconnected);
    }
    for e in [LinkEvent::Started, LinkEvent::RetryDue] {
        assert_eq!(supervisor_step(Connecting, e).next, Connecting);
    }
    for e in [
        LinkEvent::Started,
        LinkEvent::RetryDue,
        LinkEvent::Associated,
        LinkEvent::AssociationFailed,
    ] {
        assert_eq!(supervisor_step(Connected, e).next, Connected);
    }
}

#[test]
fn supervise_publishes_and_returns_the_action() {
    let mut cell = StatusCell::new(Disconnected);
    assert_eq!(supervise(&mut cell, LinkEvent::Started), SupervisorAction::Associate);
    assert_eq!(cell.read_status(), Connecting);
    assert_eq!(
        supervise(&mut cell, LinkEvent::AssociationFailed),
        SupervisorAction::RetryAfter { delay_ms: 5000 }
    );
    assert_eq!(cell.read_status(), Disconnected);
}
