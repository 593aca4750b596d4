use acs_client::arbitrator::Arbitrator;
use acs_client::arbitrator::Outcome;
use acs_client::arbitrator::State;
use acs_client::arbitrator::Trigger;

fn param(name: &str, source: &str) -> Trigger {
    Trigger::ParameterChanged {
        parameter: String::from(name),
        source: String::from(source),
    }
}

#[test]
fn idle_dispatches_any_trigger_kind() {
    for t in [
        Trigger::ConnectionRequest { sequence: 4 },
        Trigger::PeriodicInform { scheduled_at: 9 },
        param("Device.WiFi.Enable", "host"),
    ] {
        let mut arb = Arbitrator::new(8);
        let outcome = arb.offer(t.clone());
        assert_eq!(outcome, Outcome::Dispatch(t));
        assert_eq!(arb.state, State::SessionPending);
        assert_eq!(arb.inbox.len(), 0);
    }
}

#[test]
fn pending_queue_preserves_arrival_order_across_kinds() {
    let mut arb = Arbitrator::new(8);
    let _ = arb.offer(Trigger::ConnectionRequest { sequence: 0 });
    assert_eq!(arb.offer(param("Device.DNS.Enable", "host")), Outcome::Queued);
    assert_eq!(
        arb.offer(Trigger::PeriodicInform { scheduled_at: 10 }),
        Outcome::Queued
    );
    assert_eq!(arb.offer(Trigger::ConnectionRequest { sequence: 1 }), Outcome::Queued);
    assert_eq!(arb.complete_session(), Some(param("Device.DNS.Enable", "host")));
    assert_eq!(
        arb.complete_session(),
        Some(Trigger::PeriodicInform { scheduled_at: 10 })
    );
    assert_eq!(
        arb.complete_session(),
        Some(Trigger::ConnectionRequest { sequence: 1 })
    );
    assert_eq!(arb.complete_session(), None);
    assert_eq!(arb.state, State::Idle);
}

#[test]
fn periodic_informs_collapse_to_one() {
    let mut arb = Arbitrator::new(8);
    let _ = arb.offer(Trigger::ConnectionRequest { sequence: 0 });
    assert_eq!(arb.offer(Trigger::PeriodicInform { scheduled_at: 1 }), Outcome::Queued);
    for at in 2u64..6u64 {
        assert_eq!(
            arb.offer(Trigger::PeriodicInform { scheduled_at: at }),
            Outcome::Coalesced
        );
    }
    assert_eq!(arb.inbox.len(), 1);
    assert_eq!(
        arb.complete_session(),
        Some(Trigger::PeriodicInform { scheduled_at: 1 })
    );
}

#[test]
fn same_parameter_keeps_later_trigger_in_place() {
    let mut arb = Arbitrator::new(8);
    let _ = arb.offer(Trigger::ConnectionRequest { sequence: 0 });
    assert_eq!(arb.offer(param("Device.WiFi.Enable", "host")), Outcome::Queued);
    assert_eq!(arb.offer(param("Device.DNS.Enable", "host")), Outcome::Queued);
    assert_eq!(
        arb.offer(param("Device.WiFi.Enable", "late-writer")),
        Outcome::Coalesced
    );
    // The coalesced trigger keeps the position the first arrival took.
    assert_eq!(arb.complete_session(), Some(param("Device.WiFi.Enable", "late-writer")));
    assert_eq!(arb.complete_session(), Some(param("Device.DNS.Enable", "host")));
}

#[test]
fn full_inbox_rejects_connection_requests_and_drops_the_rest() {
    let mut arb = Arbitrator::new(2);
    let _ = arb.offer(Trigger::ConnectionRequest { sequence: 0 });
    assert_eq!(arb.offer(Trigger::ConnectionRequest { sequence: 1 }), Outcome::Queued);
    assert_eq!(arb.offer(Trigger::ConnectionRequest { sequence: 2 }), Outcome::Queued);
    assert_eq!(arb.offer(Trigger::ConnectionRequest { sequence: 3 }), Outcome::Rejected);
    assert_eq!(
        arb.offer(Trigger::PeriodicInform { scheduled_at: 4 }),
        Outcome::Dropped
    );
    assert_eq!(arb.offer(param("Device.DNS.Enable", "host")), Outcome::Dropped);
    assert_eq!(arb.inbox.len(), 2);
}

#[test]
fn closed_inbox_refuses_everything_but_keeps_queued_work() {
    let mut arb = Arbitrator::new(4);
    let _ = arb.offer(Trigger::ConnectionRequest { sequence: 0 });
    let _ = arb.offer(Trigger::ConnectionRequest { sequence: 1 });
    arb.close();
    assert_eq!(arb.offer(Trigger::ConnectionRequest { sequence: 2 }), Outcome::Closed);
    let drained = arb.drain();
    assert_eq!(drained, vec![Trigger::ConnectionRequest { sequence: 1 }]);
    assert_eq!(arb.state, State::Idle);
}
