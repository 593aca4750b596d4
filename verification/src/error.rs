//! The uniform failure envelope every component uses: a kind set once at
//! construction, an optional message-kind context, and an optional chain of
//! underlying causes.  Classification predicates such as `is_timeout` and
//! `is_connect` walk the cause chain, so a timeout wrapped several layers
//! deep by an underlying transport is still classified correctly; the chain
//! carries explicit cause tags rather than opaque values, so the walk is
//! plain data traversal.

use vstd::prelude::*;
use vstd::string::StringExecFns;

use crate::message_bus::BusError;
use crate::messages::message_type_text;
use crate::messages::MessageType;

verus! {

/// A `Result` alias where the `Err` case is this crate's `Error`.
pub type Result<T> = core::result::Result<T, Error>;

/// What went wrong, set exactly once at construction.
#[derive(Clone, Copy, Debug, PartialEq, Eq, Structural)]
pub enum Kind {
    /// Invalid configuration at construction time.
    Builder,
    /// A required upstream action failed: a bus subscription, or an enqueue
    /// against a closed inbox.
    Request,
    /// Too many redirects were followed downstream.
    Redirect,
    /// A response carried an error status code.
    Status(u16),
    /// A request or response body failed.
    Body,
    /// A response body could not be decoded.
    Decode,
}

/// One tag in a cause chain, explicit enough to classify without
/// inspecting opaque values.
#[derive(Debug, PartialEq)]
pub enum CauseKind {
    /// An operation timed out.
    Timeout,
    /// A connection could not be established.
    Connect,
    /// The message bus failed.
    Bus(BusError),
    /// Anything else, described in free text.
    Other(String),
}

/// An underlying cause and, optionally, the cause beneath it.
#[derive(Debug, PartialEq)]
pub struct Cause {
    pub kind: CauseKind,
    pub source: Option<Box<Cause>>,
}

/// True when the chain starting at `c` holds a timeout.
pub open spec fn chain_has_timeout(c: Cause) -> bool
    decreases c,
{
    c.kind is Timeout || match c.source {
        Some(b) => chain_has_timeout(*b),
        None => false,
    }
}

/// True when the chain starting at `c` holds a connection failure.
pub open spec fn chain_has_connect(c: Cause) -> bool
    decreases c,
{
    c.kind is Connect || match c.source {
        Some(b) => chain_has_connect(*b),
        None => false,
    }
}

/// The errors that may occur while triggering or running a management
/// exchange.
#[derive(Debug, PartialEq)]
pub struct Error {
    /// What went wrong; never mutated after construction.
    pub kind: Kind,
    /// Which protocol message was being processed, when known.
    pub message_type: Option<MessageType>,
    /// The underlying cause chain, read-only after construction.
    pub source: Option<Cause>,
}

impl Error {
    pub fn new(kind: Kind, source: Option<Cause>) -> (r: Error)
        ensures
            r == (Error { kind, message_type: None::<MessageType>, source }),
    {
        Error { kind, message_type: None, source }
    }

    /// The same error, carrying the protocol message kind that was being
    /// processed when it arose.
    pub fn with_message_type(self, message_type: MessageType) -> (r: Error)
        ensures
            r == (Error { message_type: Some(message_type), ..self }),
    {
        Error { message_type: Some(message_type), ..self }
    }

    /// Returns true if the error is from a type Builder.
    pub fn is_builder(&self) -> (r: bool)
        ensures
            r == (self.kind is Builder),
    {
        matches!(self.kind, Kind::Builder)
    }

    /// Returns true if the error is from following redirects.
    pub fn is_redirect(&self) -> (r: bool)
        ensures
            r == (self.kind is Redirect),
    {
        matches!(self.kind, Kind::Redirect)
    }

    /// Returns true if the error carries an error status code.
    pub fn is_status(&self) -> (r: bool)
        ensures
            r == (self.kind is Status),
    {
        matches!(self.kind, Kind::Status(_))
    }

    /// Returns true if the error is related to a timeout, anywhere in its
    /// cause chain.
    pub fn is_timeout(&self) -> (r: bool)
        ensures
            r == match self.source {
                Some(c) => chain_has_timeout(c),
                None => false,
            },
    {
        match &self.source {
            Some(c) => Self::walk_timeout(c),
            None => false,
        }
    }

    fn walk_timeout(c: &Cause) -> (r: bool)
        ensures
            r == chain_has_timeout(*c),
        decreases *c,
    {
        match &c.kind {
            CauseKind::Timeout => true,
            _ => match &c.source {
                Some(b) => Self::walk_timeout(b),
                None => false,
            },
        }
    }

    /// Returns true if the error is related to the request.
    pub fn is_request(&self) -> (r: bool)
        ensures
            r == (self.kind is Request),
    {
        matches!(self.kind, Kind::Request)
    }

    /// Returns true if the error is related to connecting, anywhere in its
    /// cause chain.
    pub fn is_connect(&self) -> (r: bool)
        ensures
            r == match self.source {
                Some(c) => chain_has_connect(c),
                None => false,
            },
    {
        match &self.source {
            Some(c) => Self::walk_connect(c),
            None => false,
        }
    }

    fn walk_connect(c: &Cause) -> (r: bool)
        ensures
            r == chain_has_connect(*c),
        decreases *c,
    {
        match &c.kind {
            CauseKind::Connect => true,
            _ => match &c.source {
                Some(b) => Self::walk_connect(b),
                None => false,
            },
        }
    }

    /// Returns true if the error is related to the request or response body.
    pub fn is_body(&self) -> (r: bool)
        ensures
            r == (self.kind is Body),
    {
        matches!(self.kind, Kind::Body)
    }

    /// Returns true if the error is related to decoding a response body.
    pub fn is_decode(&self) -> (r: bool)
        ensures
            r == (self.kind is Decode),
    {
        matches!(self.kind, Kind::Decode)
    }

    /// Returns the status code, if the error carries one.
    pub fn status(&self) -> (r: Option<u16>)
        ensures
            r == match self.kind {
                Kind::Status(code) => Some(code),
                _ => None::<u16>,
            },
    {
        match self.kind {
            Kind::Status(code) => Some(code),
            _ => None,
        }
    }

    /// A one-line, human-readable summary: the kind's description, then
    /// " for message_type (X)" when the context is known, then ": cause"
    /// when an underlying cause is recorded.
    pub fn message(&self) -> (r: String)
        ensures
            r@ == spec_message(*self),
    {
        let mut s = String::new();
        match self.kind {
            Kind::Builder => s.append("builder error"),
            Kind::Request => s.append("error sending request"),
            Kind::Body => s.append("request or response body error"),
            Kind::Decode => s.append("error decoding response body"),
            Kind::Redirect => s.append("error following redirect"),
            Kind::Status(code) => {
                if 400 <= code && code < 500 {
                    s.append("HTTP status client error (");
                } else {
                    s.append("HTTP status server error (");
                }
                push_decimal(&mut s, code);
                s.append(")");
            },
        }
        assert(s@ =~= kind_text(self.kind));
        match &self.message_type {
            Some(mt) => {
                s.append(" for message_type (");
                s.append(mt.as_str());
                s.append(")");
            },
            None => {},
        }
        match &self.source {
            Some(c) => {
                s.append(": ");
                append_cause_text(&mut s, c);
            },
            None => {},
        }
        assert(s@ =~= spec_message(*self));
        s
    }
}

/// The description of an error kind.
pub open spec fn kind_text(k: Kind) -> Seq<char> {
    match k {
        Kind::Builder => "builder error"@,
        Kind::Request => "error sending request"@,
        Kind::Body => "request or response body error"@,
        Kind::Decode => "error decoding response body"@,
        Kind::Redirect => "error following redirect"@,
        Kind::Status(code) => (if 400 <= code < 500 {
            "HTTP status client error ("@
        } else {
            "HTTP status server error ("@
        }) + dec_chars(code as nat) + ")"@,
    }
}

/// The description of one cause.
pub open spec fn cause_text(c: Cause) -> Seq<char> {
    match c.kind {
        CauseKind::Timeout => "operation timed out"@,
        CauseKind::Connect => "connection failed"@,
        CauseKind::Bus(_) => "message bus failure"@,
        CauseKind::Other(s) => s@,
    }
}

/// The one-line summary `Error::message` renders.
pub open spec fn spec_message(e: Error) -> Seq<char> {
    kind_text(e.kind) + (match e.message_type {
        Some(mt) => " for message_type ("@ + message_type_text(mt) + ")"@,
        None => Seq::<char>::empty(),
    }) + (match e.source {
        Some(c) => ": "@ + cause_text(c),
        None => Seq::<char>::empty(),
    })
}

fn append_cause_text(s: &mut String, c: &Cause)
    ensures
        final(s)@ == old(s)@ + cause_text(*c),
{
    match &c.kind {
        CauseKind::Timeout => s.append("operation timed out"),
        CauseKind::Connect => s.append("connection failed"),
        CauseKind::Bus(_) => s.append("message bus failure"),
        CauseKind::Other(m) => s.append(m.as_str()),
    }
}

/// The digit character for one decimal digit.
pub open spec fn digit_char(d: nat) -> char {
    if d == 0 {
        '0'
    } else if d == 1 {
        '1'
    } else if d == 2 {
        '2'
    } else if d == 3 {
        '3'
    } else if d == 4 {
        '4'
    } else if d == 5 {
        '5'
    } else if d == 6 {
        '6'
    } else if d == 7 {
        '7'
    } else if d == 8 {
        '8'
    } else {
        '9'
    }
}

/// The decimal rendering of a natural number, most significant digit first.
pub open spec fn dec_chars(n: nat) -> Seq<char>
    decreases n,
{
    if n < 10 {
        seq![digit_char(n)]
    } else {
        dec_chars(n / 10).push(digit_char(n % 10))
    }
}

/// Append the decimal rendering of `n`.
fn push_decimal(s: &mut String, n: u16)
    ensures
        final(s)@ == old(s)@ + dec_chars(n as nat),
    decreases n,
{
    let ghost before = s@;
    if n >= 10 {
        push_decimal(s, n / 10);
    }
    let d = n % 10;
    match d {
        0 => s.append("0"),
        1 => s.append("1"),
        2 => s.append("2"),
        3 => s.append("3"),
        4 => s.append("4"),
        5 => s.append("5"),
        6 => s.append("6"),
        7 => s.append("7"),
        8 => s.append("8"),
        _ => s.append("9"),
    }
    proof {
        reveal_strlit("0");
        reveal_strlit("1");
        reveal_strlit("2");
        reveal_strlit("3");
        reveal_strlit("4");
        reveal_strlit("5");
        reveal_strlit("6");
        reveal_strlit("7");
        reveal_strlit("8");
        reveal_strlit("9");
        assert(d == n % 10);
        if n < 10 {
            assert(s@ =~= before + dec_chars(n as nat));
        } else {
            assert(s@ =~= before + dec_chars(n as nat));
        }
    }
}

/// A builder-kind error with the given cause.
pub fn builder(cause: Cause) -> (r: Error)
    ensures
        r == (Error { kind: Kind::Builder, message_type: None::<MessageType>, source: Some(cause) }),
{
    Error::new(Kind::Builder, Some(cause))
}

/// A body-kind error with the given cause.
pub fn body(cause: Cause) -> (r: Error)
    ensures
        r == (Error { kind: Kind::Body, message_type: None::<MessageType>, source: Some(cause) }),
{
    Error::new(Kind::Body, Some(cause))
}

/// A decode-kind error with the given cause.
pub fn decode(cause: Cause) -> (r: Error)
    ensures
        r == (Error { kind: Kind::Decode, message_type: None::<MessageType>, source: Some(cause) }),
{
    Error::new(Kind::Decode, Some(cause))
}

/// A request-kind error with the given cause.
pub fn request(cause: Cause) -> (r: Error)
    ensures
        r == (Error { kind: Kind::Request, message_type: None::<MessageType>, source: Some(cause) }),
{
    Error::new(Kind::Request, Some(cause))
}

} // verus!
