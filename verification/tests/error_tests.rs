use acs_client::error::body;
use acs_client::error::builder;
use acs_client::error::decode;
use acs_client::error::request;
use acs_client::error::Cause;
use acs_client::error::CauseKind;
use acs_client::error::Error;
use acs_client::error::Kind;
use acs_client::message_bus::BusError;
use acs_client::messages::MessageType;

fn other(text: &str) -> Cause {
    Cause {
        kind: CauseKind::Other(String::from(text)),
        source: None,
    }
}

#[test]
fn kinds_classify() {
    assert!(builder(other("x")).is_builder());
    assert!(body(other("x")).is_body());
    assert!(decode(other("x")).is_decode());
    assert!(request(other("x")).is_request());
    assert!(Error::new(Kind::Redirect, None).is_redirect());
    assert!(Error::new(Kind::Status(502), None).is_status());
    assert!(!Error::new(Kind::Status(502), None).is_builder());
    assert!(!request(other("x")).is_status());
}

#[test]
fn status_only_for_status_kind() {
    assert_eq!(Error::new(Kind::Status(404), None).status(), Some(404));
    assert_eq!(Error::new(Kind::Request, None).status(), None);
    assert_eq!(builder(other("x")).status(), None);
}

#[test]
fn timeout_found_deep_in_cause_chain() {
    let deep = Cause {
        kind: CauseKind::Other(String::from("transport wrapper")),
        source: Some(Box::new(Cause {
            kind: CauseKind::Other(String::from("pool wrapper")),
            source: Some(Box::new(Cause {
                kind: CauseKind::Timeout,
                source: None,
            })),
        })),
    };
    let err = request(deep);
    assert!(err.is_timeout());
    assert!(!err.is_connect());
}

#[test]
fn connect_found_deep_in_cause_chain() {
    let deep = Cause {
        kind: CauseKind::Other(String::from("transport wrapper")),
        source: Some(Box::new(Cause {
            kind: CauseKind::Connect,
            source: None,
        })),
    };
    let err = request(deep);
    assert!(err.is_connect());
    assert!(!err.is_timeout());
}

#[test]
fn no_cause_classifies_nothing() {
    let err = Error::new(Kind::Request, None);
    assert!(!err.is_timeout());
    assert!(!err.is_connect());
}

#[test]
fn message_renders_kind_context_and_cause() {
    assert_eq!(Error::new(Kind::Builder, None).message(), "builder error");
    assert_eq!(
        Error::new(Kind::Request, None).message(),
        "error sending request"
    );
    assert_eq!(
        Error::new(Kind::Body, None).message(),
        "request or response body error"
    );
    assert_eq!(
        Error::new(Kind::Decode, None).message(),
        "error decoding response body"
    );
    assert_eq!(
        Error::new(Kind::Redirect, None).message(),
        "error following redirect"
    );
    assert_eq!(
        Error::new(Kind::Status(404), None).message(),
        "HTTP status client error (404)"
    );
    assert_eq!(
        Error::new(Kind::Status(503), None).message(),
        "HTTP status server error (503)"
    );
    assert_eq!(
        Error::new(Kind::Request, None)
            .with_message_type(MessageType::Inform)
            .message(),
        "error sending request for message_type (Inform)"
    );
    assert_eq!(
        Error::new(Kind::Decode, None)
            .with_message_type(MessageType::InformResponse)
            .message(),
        "error decoding response body for message_type (InformResponse)"
    );
    let timed_out = Cause {
        kind: CauseKind::Timeout,
        source: None,
    };
    assert_eq!(
        request(timed_out).message(),
        "error sending request: operation timed out"
    );
    let bus = Cause {
        kind: CauseKind::Bus(BusError::AlreadySubscribed),
        source: None,
    };
    assert_eq!(
        request(bus)
            .with_message_type(MessageType::Inform)
            .message(),
        "error sending request for message_type (Inform): message bus failure"
    );
    assert_eq!(
        request(Cause {
            kind: CauseKind::Other(String::from("socket closed by peer")),
            source: None,
        })
        .message(),
        "error sending request: socket closed by peer"
    );
    // Only the outermost cause is rendered; the chain below it serves
    // classification, not display.
    let chained = Cause {
        kind: CauseKind::Other(String::from("transport wrapper")),
        source: Some(Box::new(Cause {
            kind: CauseKind::Timeout,
            source: None,
        })),
    };
    assert_eq!(
        request(chained).message(),
        "error sending request: transport wrapper"
    );
}
