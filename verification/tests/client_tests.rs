use acs_client::arbitrator::Outcome;
use acs_client::arbitrator::State;
use acs_client::arbitrator::Trigger;
use acs_client::message_bus::poll;
use acs_client::message_bus::send;
use acs_client::message_bus::BusMessage;
use acs_client::message_bus::MessageBus;
use acs_client::message_bus::MessageType;
use acs_client::Client;

#[test]
fn it_works() {
    let result: i32 = 2 + 2;
    assert_eq!(result, 4);
}

#[test]
fn connection_requests() {
    let client = Client::new();
    let _ = client;
    assert!(true);
}

#[test]
fn idle_connection_request_dispatches_immediately() {
    // An idle arbitrator on the default port: one inbound connection
    // request is answered 200 and exactly one trigger goes downstream.
    let mut client = Client::new();
    assert_eq!(client.conn_req_port, 7547);
    let (status, dispatched) = client.accept_connection_request();
    assert_eq!(status, 200);
    assert_eq!(dispatched, Some(Trigger::ConnectionRequest { sequence: 0 }));
    assert_eq!(client.arbitrator.state, State::SessionPending);
    assert_eq!(client.arbitrator.inbox.len(), 0);
}

#[test]
fn three_ticks_while_pending_dispatch_once() {
    // A session is in progress; three periodic ticks fire before the
    // completion signal; the completion dispatches exactly one periodic
    // inform, and the next completion returns the arbitrator to idle.
    let mut client = Client::new();
    let (status, _dispatched) = client.accept_connection_request();
    assert_eq!(status, 200);
    let first = client
        .offer_trigger(Trigger::PeriodicInform { scheduled_at: 10 })
        .unwrap();
    assert_eq!(first, Outcome::Queued);
    let second = client
        .offer_trigger(Trigger::PeriodicInform { scheduled_at: 20 })
        .unwrap();
    assert_eq!(second, Outcome::Coalesced);
    let third = client
        .offer_trigger(Trigger::PeriodicInform { scheduled_at: 30 })
        .unwrap();
    assert_eq!(third, Outcome::Coalesced);
    let next = client.session_completed();
    assert_eq!(next, Some(Trigger::PeriodicInform { scheduled_at: 10 }));
    assert_eq!(client.arbitrator.state, State::SessionPending);
    let after = client.session_completed();
    assert_eq!(after, None);
    assert_eq!(client.arbitrator.state, State::Idle);
}

#[test]
fn targeted_parameter_change_coalesces_to_latest() {
    // Two targeted bus messages for the same parameter arrive before the
    // queued trigger is dispatched: exactly one ParameterChanged trigger
    // reaches the arbitrator, carrying the later message's contents.
    let mut bus = MessageBus::new();
    let mut client = Client::builder()
        .identifier(String::from("agent-7"))
        .build()
        .unwrap();
    client.subscribe_notifications(&mut bus).unwrap();

    let first = BusMessage {
        message_type: MessageType::Targeted(String::from("agent-7")),
        source: String::from("wifi-driver"),
        data: String::from("Device.WiFi.Enable"),
    };
    let second = BusMessage {
        message_type: MessageType::Targeted(String::from("agent-7")),
        source: String::from("wifi-driver-v2"),
        data: String::from("Device.WiFi.Enable"),
    };
    send(&mut bus, "wifi-driver", first).unwrap();
    send(&mut bus, "wifi-driver-v2", second).unwrap();

    // A session is already in progress when the watcher polls.
    let (status, _dispatched) = client.accept_connection_request();
    assert_eq!(status, 200);

    let delivered = poll(&mut bus, "agent-7").unwrap();
    assert_eq!(delivered.len(), 2);
    let outcomes: Vec<Option<Outcome>> = delivered
        .iter()
        .map(|m| client.handle_bus_message(m))
        .collect();
    assert_eq!(outcomes, vec![Some(Outcome::Queued), Some(Outcome::Coalesced)]);

    let next = client.session_completed();
    assert_eq!(
        next,
        Some(Trigger::ParameterChanged {
            parameter: String::from("Device.WiFi.Enable"),
            source: String::from("wifi-driver-v2"),
        })
    );
    assert_eq!(client.session_completed(), None);
    assert_eq!(client.arbitrator.state, State::Idle);
}

#[test]
fn shutdown_drains_queued_triggers_in_order() {
    // Shutting down with two queued triggers drains and hands both back,
    // oldest first; nothing is lost, and producers are refused afterwards.
    let mut client = Client::new();
    let (status, _dispatched) = client.accept_connection_request();
    assert_eq!(status, 200);
    let queued = client
        .offer_trigger(Trigger::PeriodicInform { scheduled_at: 5 })
        .unwrap();
    assert_eq!(queued, Outcome::Queued);
    let (status2, dispatched2) = client.accept_connection_request();
    assert_eq!(status2, 200);
    assert_eq!(dispatched2, None);

    let drained = client.shutdown();
    assert_eq!(
        drained,
        vec![
            Trigger::PeriodicInform { scheduled_at: 5 },
            Trigger::ConnectionRequest { sequence: 1 },
        ]
    );
    assert_eq!(client.arbitrator.state, State::Idle);
    assert_eq!(client.arbitrator.inbox.len(), 0);

    // A producer that still tries to enqueue sees the terminal error.
    let refused = client.offer_trigger(Trigger::PeriodicInform { scheduled_at: 9 });
    let err = refused.unwrap_err();
    assert!(err.is_request());

    // The listener lane answers 500 once the inbox is closed.
    let (status3, dispatched3) = client.accept_connection_request();
    assert_eq!(status3, 500);
    assert_eq!(dispatched3, None);
}

#[test]
fn saturated_inbox_rejects_connection_requests_visibly() {
    // Fill the inbox to capacity while a session is pending: every accepted
    // request answers 200, and the first one past capacity answers 500
    // without changing the inbox occupancy.
    let mut client = Client::new();
    let (status, _dispatched) = client.accept_connection_request();
    assert_eq!(status, 200);
    for _ in 0..acs_client::INBOX_CAPACITY {
        let (s, d) = client.accept_connection_request();
        assert_eq!(s, 200);
        assert_eq!(d, None);
    }
    let occupancy_before: usize = client.arbitrator.inbox.len();
    assert_eq!(occupancy_before, acs_client::INBOX_CAPACITY);
    let (overflow_status, overflow_dispatched) = client.accept_connection_request();
    assert_eq!(overflow_status, 500);
    assert_eq!(overflow_dispatched, None);
    assert_eq!(client.arbitrator.inbox.len(), occupancy_before);
}

#[test]
fn distinct_parameters_dispatch_individually_in_order() {
    let mut client = Client::new();
    let (status, _dispatched) = client.accept_connection_request();
    assert_eq!(status, 200);
    for name in ["Device.WiFi.Enable", "Device.Time.NTPServer1", "Device.DNS.Enable"] {
        let outcome = client
            .offer_trigger(Trigger::ParameterChanged {
                parameter: String::from(name),
                source: String::from("host"),
            })
            .unwrap();
        assert_eq!(outcome, Outcome::Queued);
    }
    let mut dispatched: Vec<Trigger> = Vec::new();
    while let Some(t) = client.session_completed() {
        dispatched.push(t);
    }
    assert_eq!(
        dispatched,
        vec![
            Trigger::ParameterChanged {
                parameter: String::from("Device.WiFi.Enable"),
                source: String::from("host"),
            },
            Trigger::ParameterChanged {
                parameter: String::from("Device.Time.NTPServer1"),
                source: String::from("host"),
            },
            Trigger::ParameterChanged {
                parameter: String::from("Device.DNS.Enable"),
                source: String::from("host"),
            },
        ]
    );
    assert_eq!(client.arbitrator.state, State::Idle);
}

#[test]
fn broadcast_and_foreign_messages_filtered() {
    // A broadcast notification is recognized; a message targeted at
    // another agent, or one with an empty payload, is discarded silently.
    let mut client = Client::builder()
        .identifier(String::from("agent-a"))
        .build()
        .unwrap();
    let broadcast = BusMessage {
        message_type: MessageType::Broadcast,
        source: String::from("host"),
        data: String::from("Device.DNS.Enable"),
    };
    let foreign = BusMessage {
        message_type: MessageType::Targeted(String::from("agent-b")),
        source: String::from("host"),
        data: String::from("Device.DNS.Enable"),
    };
    let unrecognized = BusMessage {
        message_type: MessageType::Broadcast,
        source: String::from("host"),
        data: String::new(),
    };
    assert_eq!(
        client.handle_bus_message(&broadcast),
        Some(Outcome::Dispatch(Trigger::ParameterChanged {
            parameter: String::from("Device.DNS.Enable"),
            source: String::from("host"),
        }))
    );
    assert_eq!(client.handle_bus_message(&foreign), None);
    assert_eq!(client.handle_bus_message(&unrecognized), None);
    assert_eq!(client.arbitrator.state, State::SessionPending);
}

#[test]
fn builder_rejects_invalid_configuration() {
    let err = Client::builder().conn_req_port(0).build().unwrap_err();
    assert!(err.is_builder());
    assert_eq!(
        err.message(),
        "builder error: connection-request port must be non-zero"
    );

    let err = Client::builder().periodic_interval(0).build().unwrap_err();
    assert!(err.is_builder());
    assert_eq!(
        err.message(),
        "builder error: periodic-inform interval must be positive"
    );

    let client = Client::builder()
        .conn_req_port(17547)
        .periodic_interval(60)
        .identifier(String::from("cpe-1"))
        .build()
        .unwrap();
    assert_eq!(client.conn_req_port, 17547);
    assert_eq!(client.periodic_interval, 60);
    assert_eq!(client.identifier, "cpe-1");
    assert_eq!(client.doc_model, "1.4");
}

#[test]
fn sequence_numbers_increase_per_accepted_request() {
    let mut client = Client::new();
    let (_, first) = client.accept_connection_request();
    assert_eq!(first, Some(Trigger::ConnectionRequest { sequence: 0 }));
    let _ = client.session_completed();
    let (_, second) = client.accept_connection_request();
    assert_eq!(second, Some(Trigger::ConnectionRequest { sequence: 1 }));
}
