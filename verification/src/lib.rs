//! Event-arbitration core of a remote-device-management agent.
//!
//! A managed device must listen for unsolicited connection requests from its
//! management server, wake on a periodic timer, and watch for parameter
//! changes, and react to each of these independent triggers by starting
//! exactly one outbound management session per accepted trigger, without
//! losing or duplicating triggers.  This crate holds the coordination logic:
//! the trigger arbitrator state machine, the error model, the message-bus
//! contract the notification watcher consumes, and the periodic-inform
//! schedule.  The asynchronous plumbing (HTTP listener, timers, channels)
//! lives outside and feeds plain values into this core.

use vstd::prelude::*;

pub mod arbitrator;
pub mod error;
pub mod message_bus;
pub mod messages;
pub mod timer;

use crate::arbitrator::offer_result;
use crate::arbitrator::offer_spec;
use crate::arbitrator::complete_spec;
use crate::arbitrator::reply_status;
use crate::arbitrator::Arbitrator;
use crate::arbitrator::Outcome;
use crate::arbitrator::State;
use crate::arbitrator::Trigger;
use crate::error::Cause;
use crate::error::CauseKind;
use crate::error::Error;
use crate::message_bus::is_for;
use crate::message_bus::is_notification;
use crate::message_bus::notification_of;
use crate::message_bus::BusMessage;
use crate::message_bus::MessageBus;

verus! {

/// Capacity of the arbitrator's trigger inbox.
pub const INBOX_CAPACITY: usize = 100;

/// Default periodic-inform interval, in seconds.
pub const DEFAULT_PERIODIC_INTERVAL: u64 = 300;

/// Settings for one client: the connection-request bind port, the
/// periodic-inform interval, the identifier under which bus messages are
/// addressed to this agent, and the supported document model.  Constructed
/// once; never mutated after the client starts running.
#[derive(Debug)]
pub struct Config {
    /// A failure recorded while assembling the configuration; reported by
    /// `build` instead of a client.
    pub error: Option<Error>,
    /// The supported document model version.
    pub doc_model: String,
    /// The local port on which connection requests are accepted; must be a
    /// valid bind port, that is non-zero.
    pub conn_req_port: u16,
    /// The periodic-inform interval in seconds; must be positive.
    pub periodic_interval: u64,
    /// The identifier the notification watcher subscribes under.
    pub identifier: String,
}

/// A builder to configure a `Client`.
#[derive(Debug)]
#[must_use]
pub struct ClientBuilder {
    pub config: Config,
}

/// How the default builder configuration reads.
pub open spec fn default_config(c: Config) -> bool {
    &&& c.error is None
    &&& c.doc_model@ == "1.4"@
    &&& c.conn_req_port == 7547
    &&& c.periodic_interval == DEFAULT_PERIODIC_INTERVAL
    &&& c.identifier@ == Seq::<char>::empty()
}

impl ClientBuilder {
    /// Constructs a new `ClientBuilder` with the default configuration.
    ///
    /// This is the same as `Client::builder()`.
    pub fn new() -> (r: ClientBuilder)
        ensures
            default_config(r.config),
    {
        ClientBuilder {
            config: Config {
                error: None,
                doc_model: "1.4".to_owned(),
                conn_req_port: 7547,
                periodic_interval: DEFAULT_PERIODIC_INTERVAL,
                identifier: String::new(),
            },
        }
    }

    /// The same builder with the given connection-request bind port.
    pub fn conn_req_port(self, port: u16) -> (r: ClientBuilder)
        ensures
            r.config == (Config { conn_req_port: port, ..self.config }),
    {
        ClientBuilder { config: Config { conn_req_port: port, ..self.config } }
    }

    /// The same builder with the given periodic-inform interval, in
    /// seconds.
    pub fn periodic_interval(self, interval: u64) -> (r: ClientBuilder)
        ensures
            r.config == (Config { periodic_interval: interval, ..self.config }),
    {
        ClientBuilder { config: Config { periodic_interval: interval, ..self.config } }
    }

    /// The same builder with the given agent identifier.
    pub fn identifier(self, identifier: String) -> (r: ClientBuilder)
        ensures
            r.config == (Config { identifier, ..self.config }),
    {
        ClientBuilder { config: Config { identifier, ..self.config } }
    }

    /// Returns a `Client` that uses this `ClientBuilder` configuration.
    ///
    /// # Errors
    ///
    /// Fails if a failure was recorded while assembling the configuration,
    /// or if the configuration is invalid: a zero bind port or a zero
    /// periodic-inform interval, both rejected here and never retried.
    pub fn build(self) -> (r: Result<Client, Error>)
        ensures
            match self.config.error {
                Some(e) => r == Err::<Client, Error>(e),
                None => {
                    if self.config.conn_req_port == 0 {
                        &&& r matches Err(e)
                        &&& e.kind is Builder
                        &&& e.message_type is None
                        &&& (e.source matches Some(c) && c.source is None && (c.kind matches
                            CauseKind::Other(m) && m@
                            == "connection-request port must be non-zero"@))
                    } else if self.config.periodic_interval == 0 {
                        &&& r matches Err(e)
                        &&& e.kind is Builder
                        &&& e.message_type is None
                        &&& (e.source matches Some(c) && c.source is None && (c.kind matches
                            CauseKind::Other(m) && m@
                            == "periodic-inform interval must be positive"@))
                    } else {
                        &&& r matches Ok(c)
                        &&& c.wf()
                        &&& c.doc_model == self.config.doc_model
                        &&& c.conn_req_port == self.config.conn_req_port
                        &&& c.periodic_interval == self.config.periodic_interval
                        &&& c.identifier == self.config.identifier
                        &&& c.arbitrator.state is Idle
                        &&& c.arbitrator.inbox@.len() == 0
                        &&& c.arbitrator.capacity == INBOX_CAPACITY
                        &&& !c.arbitrator.closed
                        &&& c.next_sequence == 0
                    }
                },
            },
    {
        if let Some(err) = self.config.error {
            return Err(err);
        }
        if self.config.conn_req_port == 0 {
            return Err(
                error::builder(
                    Cause {
                        kind: CauseKind::Other("connection-request port must be non-zero".to_owned()),
                        source: None,
                    },
                ),
            );
        }
        if self.config.periodic_interval == 0 {
            return Err(
                error::builder(
                    Cause {
                        kind: CauseKind::Other(
                            "periodic-inform interval must be positive".to_owned(),
                        ),
                        source: None,
                    },
                ),
            );
        }
        Ok(
            Client {
                doc_model: self.config.doc_model,
                conn_req_port: self.config.conn_req_port,
                periodic_interval: self.config.periodic_interval,
                identifier: self.config.identifier,
                arbitrator: Arbitrator::new(INBOX_CAPACITY),
                next_sequence: 0,
            },
        )
    }
}

impl Default for ClientBuilder {
    fn default() -> (r: Self)
        ensures
            default_config(r.config),
    {
        Self::new()
    }
}

/// The sequence number after one more accepted connection request;
/// saturating, so diagnostics stay monotone without ever overflowing.
pub open spec fn next_sequence_after(n: u64) -> u64 {
    if n < u64::MAX {
        (n + 1) as u64
    } else {
        n
    }
}

/// The client: one arbitrator with its configuration.  It owns the consume
/// side of the trigger inbox; the producing lanes (listener, timer,
/// watcher) reach it only through the methods below, each a single
/// decision step from plain values to plain values.
#[derive(Debug)]
pub struct Client {
    /// The supported document model version.
    pub doc_model: String,
    /// The local port on which connection requests are accepted.
    pub conn_req_port: u16,
    /// The periodic-inform interval in seconds.
    pub periodic_interval: u64,
    /// The identifier the notification watcher subscribes under.
    pub identifier: String,
    /// The trigger arbitrator.
    pub arbitrator: Arbitrator,
    /// The sequence number the next accepted connection request carries.
    pub next_sequence: u64,
}

impl Client {
    /// Well-formedness: a well-formed arbitrator and a valid configuration.
    pub open spec fn wf(self) -> bool {
        &&& self.arbitrator.wf()
        &&& self.conn_req_port != 0
        &&& self.periodic_interval > 0
    }

    /// True when everything but the arbitrator state and the sequence
    /// counter is unchanged between `a` and `b`.
    pub open spec fn same_config(a: Client, b: Client) -> bool {
        &&& b.doc_model == a.doc_model
        &&& b.conn_req_port == a.conn_req_port
        &&& b.periodic_interval == a.periodic_interval
        &&& b.identifier == a.identifier
    }

    /// Constructs a new `Client` with the default configuration.
    ///
    /// The default configuration is valid, so unlike `build` this cannot
    /// fail.  Use `Client::builder()` to change the configuration and
    /// handle invalid values as an `Error`.
    pub fn new() -> (r: Client)
        ensures
            r.wf(),
            r.doc_model@ == "1.4"@,
            r.conn_req_port == 7547,
            r.periodic_interval == DEFAULT_PERIODIC_INTERVAL,
            r.identifier@ == Seq::<char>::empty(),
            r.arbitrator.state is Idle,
            r.arbitrator.inbox@.len() == 0,
            r.arbitrator.capacity == INBOX_CAPACITY,
            !r.arbitrator.closed,
            r.next_sequence == 0,
    {
        match ClientBuilder::new().build() {
            Ok(client) => client,
            Err(_) => unreached(),
        }
    }

    /// Creates a `ClientBuilder` to configure a `Client`.
    ///
    /// This is the same as `ClientBuilder::new()`.
    pub fn builder() -> (r: ClientBuilder)
        ensures
            default_config(r.config),
    {
        ClientBuilder::new()
    }

    /// One inbound connection request: offer a `ConnectionRequest` trigger
    /// and answer with the HTTP status the listener must return — 200 when
    /// the trigger was dispatched or queued, 500 when the inbox refused it,
    /// with the inbox left exactly as it was.  When the arbitrator was
    /// idle, the trigger to hand downstream is returned as well.
    pub fn accept_connection_request(&mut self) -> (r: (u16, Option<Trigger>))
        requires
            old(self).wf(),
        ensures
            final(self).wf(),
            Self::same_config(*old(self), *final(self)),
            ({
                let t = (Trigger::ConnectionRequest { sequence: old(self).next_sequence });
                let oc = offer_result(old(self).arbitrator, t);
                &&& offer_spec(old(self).arbitrator, t, final(self).arbitrator)
                &&& r.0 == reply_status(oc)
                &&& r.1 == (match oc {
                    Outcome::Dispatch(d) => Some(d),
                    _ => None::<Trigger>,
                })
                &&& (r.0 == 200 ==> final(self).next_sequence == next_sequence_after(
                    old(self).next_sequence,
                ))
                &&& (r.0 == 500 ==> final(self).next_sequence == old(self).next_sequence
                    && final(self).arbitrator.inbox@ == old(self).arbitrator.inbox@)
            }),
    {
        let t = Trigger::ConnectionRequest { sequence: self.next_sequence };
        let oc = self.arbitrator.offer(t);
        match oc {
            Outcome::Dispatch(d) => {
                self.bump_sequence();
                (200, Some(d))
            },
            Outcome::Queued => {
                self.bump_sequence();
                (200, None)
            },
            Outcome::Coalesced => {
                self.bump_sequence();
                (200, None)
            },
            Outcome::Rejected => (500, None),
            Outcome::Dropped => (500, None),
            Outcome::Closed => (500, None),
        }
    }

    /// Advance the connection-request sequence counter, saturating.
    fn bump_sequence(&mut self)
        ensures
            final(self).next_sequence == next_sequence_after(old(self).next_sequence),
            final(self).arbitrator == old(self).arbitrator,
            Self::same_config(*old(self), *final(self)),
            old(self).wf() ==> final(self).wf(),
    {
        if self.next_sequence < u64::MAX {
            self.next_sequence = self.next_sequence + 1;
        }
    }

    /// Offer one trigger on behalf of a producer.  A closed inbox is the
    /// terminal condition producers observe during shutdown; it surfaces as
    /// a request-kind error.
    pub fn offer_trigger(&mut self, t: Trigger) -> (r: Result<Outcome, Error>)
        requires
            old(self).wf(),
        ensures
            final(self).wf(),
            Self::same_config(*old(self), *final(self)),
            final(self).next_sequence == old(self).next_sequence,
            offer_spec(old(self).arbitrator, t, final(self).arbitrator),
            !old(self).arbitrator.closed ==> r == Ok::<Outcome, Error>(
                offer_result(old(self).arbitrator, t),
            ),
            old(self).arbitrator.closed ==> (r matches Err(e) && e.kind is Request
                && e.message_type is None && (e.source matches Some(c) && c.source is None && (
            c.kind matches CauseKind::Other(m) && m@ == "trigger inbox is closed"@))),
    {
        let oc = self.arbitrator.offer(t);
        match oc {
            Outcome::Closed => Err(
                error::request(
                    Cause {
                        kind: CauseKind::Other("trigger inbox is closed".to_owned()),
                        source: None,
                    },
                ),
            ),
            other => Ok(other),
        }
    }

    /// The completion signal from the downstream session component: the
    /// oldest queued trigger, if any, is dispatched next; with an empty
    /// inbox the arbitrator falls back to `Idle`.  A completion signal
    /// while idle changes nothing.
    pub fn session_completed(&mut self) -> (d: Option<Trigger>)
        requires
            old(self).wf(),
        ensures
            final(self).wf(),
            Self::same_config(*old(self), *final(self)),
            final(self).next_sequence == old(self).next_sequence,
            old(self).arbitrator.state is Idle ==> d is None && *final(self) == *old(self),
            old(self).arbitrator.state is SessionPending ==> complete_spec(
                old(self).arbitrator,
                final(self).arbitrator,
                d,
            ),
    {
        match self.arbitrator.state {
            State::Idle => None,
            State::SessionPending => self.arbitrator.complete_session(),
        }
    }

    /// One bus message through the notification watcher: when the message
    /// is addressed to this agent and represents a parameter change, the
    /// corresponding `ParameterChanged` trigger is offered and the outcome
    /// returned; any other message is discarded without error.
    pub fn handle_bus_message(&mut self, message: &BusMessage) -> (r: Option<Outcome>)
        requires
            old(self).wf(),
        ensures
            final(self).wf(),
            Self::same_config(*old(self), *final(self)),
            final(self).next_sequence == old(self).next_sequence,
            ({
                let recognized = is_for(*message, old(self).identifier@) && is_notification(
                    *message,
                );
                let t = (Trigger::ParameterChanged {
                    parameter: message.data,
                    source: message.source,
                });
                &&& !recognized ==> r is None && *final(self) == *old(self)
                &&& recognized ==> offer_spec(old(self).arbitrator, t, final(self).arbitrator)
                    && r == Some(offer_result(old(self).arbitrator, t))
            }),
    {
        match notification_of(message, self.identifier.as_str()) {
            Some(n) => {
                let t = Trigger::ParameterChanged { parameter: n.data, source: n.source };
                Some(self.arbitrator.offer(t))
            },
            None => None,
        }
    }

    /// Subscribe this agent's identifier with the message bus, once, at
    /// startup.  A bus refusal is fatal for the watcher lane and surfaces
    /// as a request-kind error wrapping the bus failure.
    pub fn subscribe_notifications(&self, bus: &mut MessageBus) -> (r: Result<(), Error>)
        requires
            old(bus).wf(),
        ensures
            final(bus).wf(),
            old(bus).is_subscribed(self.identifier@) ==> *final(bus) == *old(bus) && (r matches
                Err(e) && e.kind is Request && e.message_type is None && (e.source matches Some(c)
                && c.source is None && c.kind == CauseKind::Bus(
                crate::message_bus::BusError::AlreadySubscribed,
            ))),
            !old(bus).is_subscribed(self.identifier@) ==> {
                &&& r is Ok
                &&& final(bus).subscriptions@.len() == old(bus).subscriptions@.len() + 1
                &&& forall|j: int|
                    0 <= j < old(bus).subscriptions@.len() ==> final(bus).subscriptions@[j] == old(
                        bus,
                    ).subscriptions@[j]
                &&& final(bus).subscriptions@.last().identifier@ == self.identifier@
                &&& final(bus).subscriptions@.last().queue@ == Seq::<BusMessage>::empty()
            },
    {
        match crate::message_bus::subscribe(bus, self.identifier.as_str()) {
            Ok(()) => Ok(()),
            Err(e) => Err(error::request(Cause { kind: CauseKind::Bus(e), source: None })),
        }
    }

    /// Clean shutdown: close the inbox, so producers are refused from now
    /// on, and return every queued trigger, oldest first, for the caller to
    /// dispatch before exiting.  No queued trigger is lost.
    pub fn shutdown(&mut self) -> (r: Vec<Trigger>)
        requires
            old(self).wf(),
        ensures
            final(self).wf(),
            Self::same_config(*old(self), *final(self)),
            final(self).next_sequence == old(self).next_sequence,
            final(self).arbitrator.closed,
            final(self).arbitrator.state is Idle,
            final(self).arbitrator.inbox@.len() == 0,
            r@ == old(self).arbitrator.inbox@,
    {
        self.arbitrator.close();
        self.arbitrator.drain()
    }
}

} // verus!
