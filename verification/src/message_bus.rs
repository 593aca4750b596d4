//! The message-bus boundary the notification watcher consumes.  External
//! subsystems publish `BusMessage`s; this agent subscribes under its own
//! identifier and polls for messages that are broadcast or targeted at it.
//!
//! The bus here is an in-memory exchange with per-subscriber queues: the
//! delivery mode of the host's real transport is configuration around this
//! core, and the contracts below are what the watcher relies on — delivery
//! in send order, to every subscriber for broadcasts and to exactly the
//! named subscriber for targeted messages.

use vstd::prelude::*;

verus! {

/// Who an envelope is addressed to.
#[derive(Debug, PartialEq)]
pub enum MessageType {
    /// For every subscriber.
    Broadcast,
    /// For the one subscriber with the carried identifier.
    Targeted(String),
}

impl Clone for MessageType {
    fn clone(&self) -> (r: Self)
        ensures
            r == *self,
    {
        match self {
            MessageType::Broadcast => MessageType::Broadcast,
            MessageType::Targeted(id) => MessageType::Targeted(id.clone()),
        }
    }
}

/// An envelope exchanged over the message bus.
#[derive(Debug, PartialEq)]
pub struct BusMessage {
    /// Broadcast, or targeted at one subscriber.
    pub message_type: MessageType,
    /// The identifier of the subsystem that sent the message.
    pub source: String,
    /// The payload.  A non-empty payload names a changed parameter; an
    /// empty payload is not a recognized notification and is discarded
    /// without error.
    pub data: String,
}

impl Clone for BusMessage {
    fn clone(&self) -> (r: Self)
        ensures
            r == *self,
    {
        BusMessage {
            message_type: self.message_type.clone(),
            source: self.source.clone(),
            data: self.data.clone(),
        }
    }
}

/// A parameter-change notification, as the watcher extracts it from a
/// recognized bus message: the changed parameter's identifier and the
/// subsystem that raised the change.
#[derive(Debug, PartialEq)]
pub struct NotificationMessage {
    pub source: String,
    pub data: String,
}

/// A failure reported by the bus.
#[derive(Clone, Copy, Debug, PartialEq, Eq, Structural)]
pub enum BusError {
    /// `subscribe` found the identifier already subscribed.
    AlreadySubscribed,
    /// `poll` found the identifier not subscribed.
    NotSubscribed,
    /// `send` found no subscriber for a targeted message.
    UnknownRecipient,
}

/// The recipient of a targeted message, or nothing for a broadcast.
pub open spec fn target_of(m: BusMessage) -> Option<Seq<char>> {
    match m.message_type {
        MessageType::Broadcast => None,
        MessageType::Targeted(r) => Some(r@),
    }
}

/// True when the message is addressed to the subscriber `id`: it is a
/// broadcast, or targeted exactly at `id`.
pub open spec fn is_for(m: BusMessage, id: Seq<char>) -> bool {
    match m.message_type {
        MessageType::Broadcast => true,
        MessageType::Targeted(r) => r@ == id,
    }
}

/// True when the message represents a parameter-value change the watcher
/// recognizes: its payload names the changed parameter and is non-empty.
pub open spec fn is_notification(m: BusMessage) -> bool {
    m.data@.len() > 0
}

/// One subscriber's entry on the bus: its identifier and the messages
/// delivered to it and not yet polled, oldest first.
#[derive(Debug, PartialEq)]
pub struct Subscription {
    pub identifier: String,
    pub queue: Vec<BusMessage>,
}

/// An in-memory publish/subscribe exchange with per-subscriber queues.
#[derive(Debug, PartialEq)]
pub struct MessageBus {
    pub subscriptions: Vec<Subscription>,
}

impl MessageBus {
    /// Well-formedness: no two subscriptions share an identifier.
    pub open spec fn wf(self) -> bool {
        forall|i: int, j: int|
            #![trigger self.subscriptions@[i], self.subscriptions@[j]]
            0 <= i < j < self.subscriptions@.len() ==> self.subscriptions@[i].identifier@
                != self.subscriptions@[j].identifier@
    }

    /// True when someone subscribed under `id`.
    pub open spec fn is_subscribed(self, id: Seq<char>) -> bool {
        exists|i: int|
            0 <= i < self.subscriptions@.len() && (#[trigger] self.subscriptions@[
            i]).identifier@ == id
    }

    /// The position of the subscription for `id`; unique when the bus is
    /// well-formed and `is_subscribed(id)` holds.
    pub open spec fn sub_index(self, id: Seq<char>) -> int {
        choose|i: int|
            0 <= i < self.subscriptions@.len() && (#[trigger] self.subscriptions@[
            i]).identifier@ == id
    }

    /// The messages waiting for subscriber `id`, oldest first.
    pub open spec fn queue_of(self, id: Seq<char>) -> Seq<BusMessage> {
        self.subscriptions@[self.sub_index(id)].queue@
    }

    /// A bus with no subscribers.
    pub fn new() -> (r: MessageBus)
        ensures
            r.wf(),
            r.subscriptions@.len() == 0,
    {
        MessageBus { subscriptions: Vec::new() }
    }
}

/// The position of the subscription for `id`, scanning from the front.
fn find_subscription(subs: &Vec<Subscription>, id: &String) -> (r: Option<usize>)
    ensures
        match r {
            Some(i) => i < subs@.len() && subs@[i as int].identifier@ == id@,
            None => forall|j: int|
                0 <= j < subs@.len() ==> (#[trigger] subs@[j]).identifier@ != id@,
        },
{
    let mut i: usize = 0;
    while i < subs.len()
        invariant
            i <= subs@.len(),
            forall|j: int| 0 <= j < i ==> (#[trigger] subs@[j]).identifier@ != id@,
        decreases subs@.len() - i,
    {
        if subs[i].identifier == *id {
            return Some(i);
        }
        i = i + 1;
    }
    None
}

/// Register `identifier` with the bus, with an empty delivery queue.
/// Fails, leaving the bus untouched, when the identifier is already
/// subscribed.
pub fn subscribe(bus: &mut MessageBus, identifier: &str) -> (r: Result<(), BusError>)
    requires
        old(bus).wf(),
    ensures
        final(bus).wf(),
        old(bus).is_subscribed(identifier@) ==> r == Err::<(), BusError>(
            BusError::AlreadySubscribed,
        ) && *final(bus) == *old(bus),
        !old(bus).is_subscribed(identifier@) ==> {
            &&& r is Ok
            &&& final(bus).subscriptions@.len() == old(bus).subscriptions@.len() + 1
            &&& forall|j: int|
                0 <= j < old(bus).subscriptions@.len() ==> final(bus).subscriptions@[j] == old(
                    bus,
                ).subscriptions@[j]
            &&& final(bus).subscriptions@.last().identifier@ == identifier@
            &&& final(bus).subscriptions@.last().queue@ == Seq::<BusMessage>::empty()
        },
{
    let own: String = identifier.to_owned();
    match find_subscription(&bus.subscriptions, &own) {
        Some(i) => {
            proof {
                assert(old(bus).subscriptions@[i as int].identifier@ == identifier@);
            }
            Err(BusError::AlreadySubscribed)
        },
        None => {
            let ghost before = bus.subscriptions@;
            bus.subscriptions.push(Subscription { identifier: own, queue: Vec::new() });
            proof {
                assert forall|i: int, j: int|
                    #![trigger bus.subscriptions@[i], bus.subscriptions@[j]]
                    0 <= i < j < bus.subscriptions@.len() implies bus.subscriptions@[
                i].identifier@ != bus.subscriptions@[j].identifier@ by {
                    assert(bus.subscriptions@[i] == before[i]);
                    if j < before.len() {
                        assert(bus.subscriptions@[j] == before[j]);
                    }
                }
            }
            Ok(())
        },
    }
}

/// Hand `message` to the bus for delivery, in send order: a broadcast goes
/// to the back of every subscriber's queue, a targeted message to the back
/// of the named subscriber's queue alone.  A targeted message for an
/// unknown recipient fails, leaving the bus untouched.  `identifier` names
/// the sending subsystem; delivery is addressed by the envelope itself.
#[allow(unused_variables)]
pub fn send(bus: &mut MessageBus, identifier: &str, message: BusMessage) -> (r: Result<
    (),
    BusError,
>)
    requires
        old(bus).wf(),
    ensures
        final(bus).wf(),
        match target_of(message) {
            None => {
                &&& r is Ok
                &&& final(bus).subscriptions@.len() == old(bus).subscriptions@.len()
                &&& forall|j: int|
                    0 <= j < old(bus).subscriptions@.len() ==> (#[trigger] final(bus).subscriptions@[j]).identifier
                        == old(bus).subscriptions@[j].identifier
                        && final(bus).subscriptions@[j].queue@ == old(bus).subscriptions@[
                    j].queue@.push(message)
            },
            Some(recipient) => {
                if old(bus).is_subscribed(recipient) {
                    let idx = old(bus).sub_index(recipient);
                    &&& r is Ok
                    &&& final(bus).subscriptions@.len() == old(bus).subscriptions@.len()
                    &&& forall|j: int|
                        0 <= j < old(bus).subscriptions@.len() && j != idx
                            ==> final(bus).subscriptions@[j] == old(bus).subscriptions@[j]
                    &&& final(bus).subscriptions@[idx].identifier == old(bus).subscriptions@[
                    idx].identifier
                    &&& final(bus).subscriptions@[idx].queue@ == old(bus).subscriptions@[
                    idx].queue@.push(message)
                } else {
                    &&& r == Err::<(), BusError>(BusError::UnknownRecipient)
                    &&& *final(bus) == *old(bus)
                }
            },
        },
{
    let ghost before = bus.subscriptions@;
    match &message.message_type {
        MessageType::Broadcast => {
            let mut i: usize = 0;
            while i < bus.subscriptions.len()
                invariant
                    i <= bus.subscriptions@.len(),
                    bus.subscriptions@.len() == before.len(),
                    forall|j: int|
                        0 <= j < i ==> (#[trigger] bus.subscriptions@[j]).identifier == before[
                        j].identifier && bus.subscriptions@[j].queue@ == before[j].queue@.push(
                            message,
                        ),
                    forall|j: int|
                        i <= j < before.len() ==> #[trigger] bus.subscriptions@[j] == before[j],
                decreases before.len() - i,
            {
                let m = message.clone();
                let sub = &mut bus.subscriptions[i];
                sub.queue.push(m);
                i = i + 1;
            }
            proof {
                assert forall|x: int, y: int|
                    #![trigger bus.subscriptions@[x], bus.subscriptions@[y]]
                    0 <= x < y < bus.subscriptions@.len() implies bus.subscriptions@[
                x].identifier@ != bus.subscriptions@[y].identifier@ by {
                    assert(bus.subscriptions@[x].identifier == before[x].identifier);
                    assert(bus.subscriptions@[y].identifier == before[y].identifier);
                }
            }
            Ok(())
        },
        MessageType::Targeted(recipient) => {
            let own: String = recipient.as_str().to_owned();
            match find_subscription(&bus.subscriptions, &own) {
                Some(i) => {
                    proof {
                        assert(old(bus).is_subscribed(own@));
                        let k = old(bus).sub_index(own@);
                        assert(0 <= k < before.len() && before[k].identifier@ == own@);
                        assert(k == i as int);
                    }
                    let sub = &mut bus.subscriptions[i];
                    sub.queue.push(message);
                    proof {
                        assert forall|x: int, y: int|
                            #![trigger bus.subscriptions@[x], bus.subscriptions@[y]]
                            0 <= x < y < bus.subscriptions@.len() implies bus.subscriptions@[
                        x].identifier@ != bus.subscriptions@[y].identifier@ by {
                            assert(bus.subscriptions@[x].identifier == before[x].identifier);
                            assert(bus.subscriptions@[y].identifier == before[y].identifier);
                        }
                    }
                    Ok(())
                },
                None => {
                    proof {
                        assert(!old(bus).is_subscribed(own@));
                    }
                    Err(BusError::UnknownRecipient)
                },
            }
        },
    }
}

/// Take and return every message waiting for `identifier`, oldest first,
/// leaving its queue empty.  Fails, leaving the bus untouched, when the
/// identifier is not subscribed.
pub fn poll(bus: &mut MessageBus, identifier: &str) -> (r: Result<Vec<BusMessage>, BusError>)
    requires
        old(bus).wf(),
    ensures
        final(bus).wf(),
        !old(bus).is_subscribed(identifier@) ==> r == Err::<Vec<BusMessage>, BusError>(
            BusError::NotSubscribed,
        ) && *final(bus) == *old(bus),
        old(bus).is_subscribed(identifier@) ==> {
            let idx = old(bus).sub_index(identifier@);
            &&& (r matches Ok(v) && v@ == old(bus).subscriptions@[idx].queue@)
            &&& final(bus).subscriptions@.len() == old(bus).subscriptions@.len()
            &&& forall|j: int|
                0 <= j < old(bus).subscriptions@.len() && j != idx ==> final(bus).subscriptions@[j]
                    == old(bus).subscriptions@[j]
            &&& final(bus).subscriptions@[idx].identifier == old(bus).subscriptions@[
            idx].identifier
            &&& final(bus).subscriptions@[idx].queue@ == Seq::<BusMessage>::empty()
        },
{
    let ghost before = bus.subscriptions@;
    let own: String = identifier.to_owned();
    match find_subscription(&bus.subscriptions, &own) {
        Some(i) => {
            proof {
                assert(old(bus).is_subscribed(identifier@));
                let k = old(bus).sub_index(identifier@);
                assert(0 <= k < before.len() && before[k].identifier@ == identifier@);
                assert(k == i as int);
            }
            let mut out: Vec<BusMessage> = Vec::new();
            let sub = &mut bus.subscriptions[i];
            core::mem::swap(&mut sub.queue, &mut out);
            proof {
                assert forall|x: int, y: int|
                    #![trigger bus.subscriptions@[x], bus.subscriptions@[y]]
                    0 <= x < y < bus.subscriptions@.len() implies bus.subscriptions@[
                x].identifier@ != bus.subscriptions@[y].identifier@ by {
                    assert(bus.subscriptions@[x].identifier == before[x].identifier);
                    assert(bus.subscriptions@[y].identifier == before[y].identifier);
                }
            }
            Ok(out)
        },
        None => {
            proof {
                assert(!old(bus).is_subscribed(identifier@));
            }
            Err(BusError::NotSubscribed)
        },
    }
}

/// Extract the parameter-change notification from a bus message addressed
/// to `identifier`, or nothing when the message is for someone else or is
/// not a recognized notification.
pub fn notification_of(message: &BusMessage, identifier: &str) -> (r: Option<NotificationMessage>)
    ensures
        is_for(*message, identifier@) && is_notification(*message) ==> r == Some(
            NotificationMessage { source: message.source, data: message.data },
        ),
        !(is_for(*message, identifier@) && is_notification(*message)) ==> r is None,
{
    let addressed = match &message.message_type {
        MessageType::Broadcast => true,
        MessageType::Targeted(recipient) => {
            let own: String = identifier.to_owned();
            *recipient == own
        },
    };
    if addressed && !message.data.as_str().is_empty() {
        Some(NotificationMessage { source: message.source.clone(), data: message.data.clone() })
    } else {
        None
    }
}

} // verus!
