//! The trigger arbitrator: the single decision point that serializes the
//! three independent event lanes (connection-request listener, periodic
//! inform timer, notification watcher) into session-start decisions.
//!
//! The arbitrator is either `Idle` (no session in progress) or
//! `SessionPending` (a trigger has been handed to the downstream session
//! component and its completion signal is awaited).  Triggers arriving while
//! a session is pending are queued in a bounded FIFO inbox; periodic informs
//! collapse to at most one queued tick, and parameter changes coalesce by
//! parameter identifier, keeping the most recent one.  Connection requests
//! are never silently dropped: a full inbox rejects them visibly.

use vstd::prelude::*;

verus! {

/// Why a management session should start.  One value is produced per
/// triggering event by the listener, the timer, or the watcher, and is
/// consumed exactly once by the arbitrator.
#[derive(Debug, PartialEq)]
pub enum Trigger {
    /// An unsolicited connection request pushed by the management server.
    /// The sequence number increases monotonically; it exists for
    /// diagnostics only.
    ConnectionRequest { sequence: u64 },
    /// The periodic-inform timer fired; carries the scheduled fire time.
    PeriodicInform { scheduled_at: u64 },
    /// A parameter flagged for active notification changed; carries the
    /// parameter identifier and a tag naming the subsystem that raised it.
    ParameterChanged { parameter: String, source: String },
}

impl Clone for Trigger {
    fn clone(&self) -> (r: Self)
        ensures
            r == *self,
    {
        match self {
            Trigger::ConnectionRequest { sequence } => Trigger::ConnectionRequest {
                sequence: *sequence,
            },
            Trigger::PeriodicInform { scheduled_at } => Trigger::PeriodicInform {
                scheduled_at: *scheduled_at,
            },
            Trigger::ParameterChanged { parameter, source } => Trigger::ParameterChanged {
                parameter: parameter.clone(),
                source: source.clone(),
            },
        }
    }
}

impl Trigger {
    pub open spec fn is_connection_request(self) -> bool {
        match self {
            Trigger::ConnectionRequest { .. } => true,
            _ => false,
        }
    }

    pub open spec fn is_periodic(self) -> bool {
        match self {
            Trigger::PeriodicInform { .. } => true,
            _ => false,
        }
    }

    pub open spec fn is_parameter_changed(self) -> bool {
        match self {
            Trigger::ParameterChanged { .. } => true,
            _ => false,
        }
    }

    /// The coalescing key of a parameter-change trigger: the parameter
    /// identifier's characters.  Other triggers have no key.
    pub open spec fn param_key(self) -> Seq<char> {
        match self {
            Trigger::ParameterChanged { parameter, .. } => parameter@,
            _ => Seq::empty(),
        }
    }

    /// The source tag of a parameter-change trigger.
    pub open spec fn param_source(self) -> Seq<char> {
        match self {
            Trigger::ParameterChanged { source, .. } => source@,
            _ => Seq::empty(),
        }
    }
}

/// The arbitrator's two states.
#[derive(Debug, Clone, Copy, PartialEq, Eq, Structural)]
pub enum State {
    /// No session in progress; the next trigger is dispatched immediately.
    Idle,
    /// A trigger was handed downstream; waiting for the completion signal.
    SessionPending,
}

/// What became of one offered trigger.
#[derive(Debug, PartialEq)]
pub enum Outcome {
    /// The arbitrator was idle: hand the carried trigger downstream now.
    Dispatch(Trigger),
    /// A session is pending: the trigger was queued in arrival order.
    Queued,
    /// A session is pending: the trigger was merged with a queued trigger
    /// of the same kind (periodic inform) or the same parameter key.
    Coalesced,
    /// The inbox is at capacity: a connection request is rejected and its
    /// producer must signal the failure to its caller.
    Rejected,
    /// The inbox is at capacity: a periodic or notification trigger is
    /// dropped, which its delivery policy allows.
    Dropped,
    /// The inbox is closed for shutdown: no new work is accepted.
    Closed,
}

/// True when some queued trigger is a periodic inform.
pub open spec fn has_periodic(q: Seq<Trigger>) -> bool {
    exists|i: int| 0 <= i < q.len() && (#[trigger] q[i]).is_periodic()
}

/// True when some queued trigger is a parameter change for `key`.
pub open spec fn has_parameter(q: Seq<Trigger>, key: Seq<char>) -> bool {
    exists|i: int|
        0 <= i < q.len() && (#[trigger] q[i]).is_parameter_changed() && q[i].param_key() == key
}

/// The position of the queued parameter change for `key`; meaningful only
/// when `has_parameter(q, key)` holds and the queue is coalesced, which
/// makes the position unique.
pub open spec fn parameter_index(q: Seq<Trigger>, key: Seq<char>) -> int {
    choose|i: int|
        0 <= i < q.len() && (#[trigger] q[i]).is_parameter_changed() && q[i].param_key() == key
}

/// A queue that honors both coalescing rules: at most one periodic inform,
/// and at most one parameter change per parameter identifier.
pub open spec fn coalesced(q: Seq<Trigger>) -> bool {
    &&& forall|i: int, j: int|
        #![trigger q[i], q[j]]
        0 <= i < j < q.len() ==> !(q[i].is_periodic() && q[j].is_periodic())
    &&& forall|i: int, j: int|
        #![trigger q[i], q[j]]
        0 <= i < j < q.len() ==> !(q[i].is_parameter_changed() && q[j].is_parameter_changed()
            && q[i].param_key() == q[j].param_key())
}

/// The inbox after offering `t` while a session is pending: queued at the
/// back when it is new and there is room, merged with its coalescing
/// partner when one is queued, unchanged when the inbox is full.
pub open spec fn pending_queue_after(q: Seq<Trigger>, t: Trigger, cap: nat) -> Seq<Trigger> {
    if t.is_periodic() {
        if has_periodic(q) {
            q
        } else if q.len() < cap {
            q.push(t)
        } else {
            q
        }
    } else if t.is_parameter_changed() {
        if has_parameter(q, t.param_key()) {
            q.update(parameter_index(q, t.param_key()), t)
        } else if q.len() < cap {
            q.push(t)
        } else {
            q
        }
    } else {
        if q.len() < cap {
            q.push(t)
        } else {
            q
        }
    }
}

/// The outcome reported for offering `t` while a session is pending.
pub open spec fn pending_outcome(q: Seq<Trigger>, t: Trigger, cap: nat) -> Outcome {
    if t.is_periodic() {
        if has_periodic(q) {
            Outcome::Coalesced
        } else if q.len() < cap {
            Outcome::Queued
        } else {
            Outcome::Dropped
        }
    } else if t.is_parameter_changed() {
        if has_parameter(q, t.param_key()) {
            Outcome::Coalesced
        } else if q.len() < cap {
            Outcome::Queued
        } else {
            Outcome::Dropped
        }
    } else {
        if q.len() < cap {
            Outcome::Queued
        } else {
            Outcome::Rejected
        }
    }
}

/// The outcome of offering `t` to an arbitrator in state `pre`.
pub open spec fn offer_result(pre: Arbitrator, t: Trigger) -> Outcome {
    if pre.closed {
        Outcome::Closed
    } else if pre.state is Idle {
        Outcome::Dispatch(t)
    } else {
        pending_outcome(pre.inbox@, t, pre.capacity as nat)
    }
}

/// How the arbitrator after an offer relates to the arbitrator before it.
pub open spec fn offer_spec(pre: Arbitrator, t: Trigger, post: Arbitrator) -> bool {
    &&& post.capacity == pre.capacity
    &&& post.closed == pre.closed
    &&& (pre.closed ==> post == pre)
    &&& (!pre.closed && pre.state is Idle ==> post.state is SessionPending && post.inbox@
        == pre.inbox@)
    &&& (!pre.closed && pre.state is SessionPending ==> post.state is SessionPending
        && post.inbox@ == pending_queue_after(pre.inbox@, t, pre.capacity as nat))
}

/// How the arbitrator after a completion signal relates to the arbitrator
/// before it, together with the trigger dispatched next, if any.
pub open spec fn complete_spec(pre: Arbitrator, post: Arbitrator, d: Option<Trigger>) -> bool {
    &&& post.capacity == pre.capacity
    &&& post.closed == pre.closed
    &&& (pre.inbox@.len() == 0 ==> d is None && post.state is Idle && post.inbox@ == pre.inbox@)
    &&& (pre.inbox@.len() > 0 ==> d == Some(pre.inbox@[0]) && post.state is SessionPending
        && post.inbox@ == pre.inbox@.remove(0))
}

/// The inbox after offering every trigger of `ts` in order while a session
/// is pending.
pub open spec fn pending_queue_after_all(q: Seq<Trigger>, ts: Seq<Trigger>, cap: nat) -> Seq<
    Trigger,
>
    decreases ts.len(),
{
    if ts.len() == 0 {
        q
    } else {
        pending_queue_after_all(pending_queue_after(q, ts[0], cap), ts.subrange(1, ts.len() as int), cap)
    }
}

/// Law: while the arbitrator is idle and open, any offered trigger is
/// dispatched immediately and the arbitrator enters `SessionPending`,
/// leaving the inbox untouched.
pub proof fn lemma_idle_dispatches_immediately(pre: Arbitrator, t: Trigger, post: Arbitrator)
    requires
        !pre.closed,
        pre.state is Idle,
        offer_spec(pre, t, post),
    ensures
        offer_result(pre, t) == Outcome::Dispatch(t),
        post.state is SessionPending,
        post.inbox@ == pre.inbox@,
{
}

/// Law: a trigger accepted while a session is pending joins the back of the
/// inbox, behind every earlier arrival; periodic informs and parameter
/// changes do so whenever no coalescing partner is queued, and connection
/// requests always do so when there is room.
pub proof fn lemma_queued_in_arrival_order(q: Seq<Trigger>, t: Trigger, cap: nat)
    requires
        q.len() < cap,
        t.is_periodic() ==> !has_periodic(q),
        t.is_parameter_changed() ==> !has_parameter(q, t.param_key()),
    ensures
        pending_queue_after(q, t, cap) == q.push(t),
        pending_queue_after(q, t, cap)[q.len() as int] == t,
        forall|i: int| 0 <= i < q.len() ==> pending_queue_after(q, t, cap)[i] == q[i],
{
}

/// Law: the dispatch that follows a completion signal takes the oldest
/// queued trigger.  After queueing `t` behind the pending inbox `pre`, the
/// next completion dispatches the oldest earlier arrival, or `t` itself
/// when nothing was queued before it.
pub proof fn lemma_fifo_dispatch(
    pre: Arbitrator,
    t: Trigger,
    mid: Arbitrator,
    post: Arbitrator,
    d: Option<Trigger>,
)
    requires
        pre.wf(),
        !pre.closed,
        pre.state is SessionPending,
        pre.inbox@.len() < pre.capacity,
        t.is_periodic() ==> !has_periodic(pre.inbox@),
        t.is_parameter_changed() ==> !has_parameter(pre.inbox@, t.param_key()),
        offer_spec(pre, t, mid),
        complete_spec(mid, post, d),
    ensures
        mid.inbox@ == pre.inbox@.push(t),
        d == Some(if pre.inbox@.len() > 0 { pre.inbox@[0] } else { t }),
{
    lemma_queued_in_arrival_order(pre.inbox@, t, pre.capacity as nat);
    if pre.inbox@.len() > 0 {
        assert(mid.inbox@[0] == pre.inbox@[0]);
    } else {
        assert(mid.inbox@[0] == t);
    }
}

/// Offering periodic informs to a queue that already holds one leaves the
/// queue unchanged, whatever else it holds.
proof fn lemma_periodic_offers_are_noops(q: Seq<Trigger>, ts: Seq<Trigger>, cap: nat)
    requires
        has_periodic(q),
        forall|i: int| 0 <= i < ts.len() ==> (#[trigger] ts[i]).is_periodic(),
    ensures
        pending_queue_after_all(q, ts, cap) == q,
    decreases ts.len(),
{
    if ts.len() > 0 {
        assert(pending_queue_after(q, ts[0], cap) == q);
        lemma_periodic_offers_are_noops(q, ts.subrange(1, ts.len() as int), cap);
    }
}

/// Law (idempotence of periodic informs): any run of periodic-inform
/// triggers offered back-to-back while a session is pending collapses to
/// exactly the first one queued — the inbox afterwards equals the inbox
/// after offering just the first.
pub proof fn lemma_periodic_informs_collapse(q: Seq<Trigger>, ts: Seq<Trigger>, cap: nat)
    requires
        ts.len() >= 1,
        forall|i: int| 0 <= i < ts.len() ==> (#[trigger] ts[i]).is_periodic(),
        !has_periodic(q),
        q.len() < cap,
    ensures
        pending_queue_after_all(q, ts, cap) == q.push(ts[0]),
{
    let q1 = pending_queue_after(q, ts[0], cap);
    assert(q1 == q.push(ts[0]));
    assert(q1[q.len() as int].is_periodic());
    assert(has_periodic(q1));
    lemma_periodic_offers_are_noops(q1, ts.subrange(1, ts.len() as int), cap);
}

/// Law (non-coalescing of distinct parameters): parameter-change triggers
/// for pairwise distinct parameter identifiers, none of which is already
/// queued, are all queued individually, in arrival order.
pub proof fn lemma_distinct_parameters_all_queue(q: Seq<Trigger>, ts: Seq<Trigger>, cap: nat)
    requires
        forall|i: int| 0 <= i < ts.len() ==> (#[trigger] ts[i]).is_parameter_changed(),
        forall|i: int, j: int|
            #![trigger ts[i], ts[j]]
            0 <= i < j < ts.len() ==> ts[i].param_key() != ts[j].param_key(),
        forall|i: int| 0 <= i < ts.len() ==> !has_parameter(q, (#[trigger] ts[i]).param_key()),
        q.len() + ts.len() <= cap,
    ensures
        pending_queue_after_all(q, ts, cap) == q + ts,
    decreases ts.len(),
{
    if ts.len() == 0 {
        assert(q + ts =~= q);
    } else {
        let t0 = ts[0];
        let rest = ts.subrange(1, ts.len() as int);
        let q1 = pending_queue_after(q, t0, cap);
        assert(q1 == q.push(t0));
        assert forall|i: int| 0 <= i < rest.len() implies !has_parameter(
            q1,
            (#[trigger] rest[i]).param_key(),
        ) by {
            assert(rest[i] == ts[i + 1]);
            assert(!has_parameter(q, ts[i + 1].param_key()));
            assert(t0.param_key() != ts[i + 1].param_key());
            assert forall|j: int|
                0 <= j < q1.len() implies !((#[trigger] q1[j]).is_parameter_changed() && q1[
            j].param_key() == rest[i].param_key()) by {
                if j < q.len() {
                    assert(q1[j] == q[j]);
                } else {
                    assert(q1[j] == t0);
                }
            }
        }
        assert forall|i: int, j: int|
            #![trigger rest[i], rest[j]]
            0 <= i < j < rest.len() implies rest[i].param_key() != rest[j].param_key() by {
            assert(rest[i] == ts[i + 1] && rest[j] == ts[j + 1]);
        }
        assert forall|i: int| 0 <= i < rest.len() implies (
        #[trigger] rest[i]).is_parameter_changed() by {
            assert(rest[i] == ts[i + 1]);
        }
        lemma_distinct_parameters_all_queue(q1, rest, cap);
        assert(q.push(t0) + rest =~= q + ts);
    }
}

/// Law (coalescing by key): two parameter-change triggers for the same
/// parameter identifier offered while a session is pending result in
/// exactly one queued trigger, the later one, in the position the first
/// had taken.
pub proof fn lemma_same_parameter_coalesces(q: Seq<Trigger>, t1: Trigger, t2: Trigger, cap: nat)
    requires
        t1.is_parameter_changed(),
        t2.is_parameter_changed(),
        t1.param_key() == t2.param_key(),
        !has_parameter(q, t1.param_key()),
        q.len() < cap,
    ensures
        pending_queue_after(pending_queue_after(q, t1, cap), t2, cap) == q.push(t2),
{
    let key = t1.param_key();
    let q1 = pending_queue_after(q, t1, cap);
    assert(q1 == q.push(t1));
    assert(q1[q.len() as int].is_parameter_changed() && q1[q.len() as int].param_key() == key);
    assert(has_parameter(q1, key));
    let i = parameter_index(q1, key);
    assert(0 <= i < q1.len() && q1[i].is_parameter_changed() && q1[i].param_key() == key);
    if i < q.len() {
        assert(q1[i] == q[i]);
        assert(has_parameter(q, key));
        assert(false);
    }
    assert(i == q.len() as int);
    assert(q1.update(i, t2) =~= q.push(t2));
}

/// Law (connection requests are never silently dropped): while the inbox
/// has room, an offered connection request is accepted and its producer
/// replies 200; when the inbox is saturated, the offer is rejected with a
/// visible 500 and the inbox is left exactly as it was.
pub proof fn lemma_connection_request_never_dropped(pre: Arbitrator, t: Trigger)
    requires
        pre.wf(),
        !pre.closed,
        t.is_connection_request(),
    ensures
        pre.inbox@.len() < pre.capacity ==> reply_status(offer_result(pre, t)) == 200,
        pre.state is SessionPending && pre.inbox@.len() == pre.capacity ==> reply_status(
            offer_result(pre, t),
        ) == 500 && pending_queue_after(pre.inbox@, t, pre.capacity as nat) == pre.inbox@,
{
}

/// The HTTP status with which the connection-request listener answers its
/// caller: 200 when the trigger was taken, 500 when it was refused.
pub open spec fn reply_status(r: Outcome) -> u16 {
    match r {
        Outcome::Dispatch(_) => 200,
        Outcome::Queued => 200,
        Outcome::Coalesced => 200,
        Outcome::Rejected => 500,
        Outcome::Dropped => 500,
        Outcome::Closed => 500,
    }
}

/// The coordination point: owns the bounded trigger inbox and the
/// `Idle`/`SessionPending` decision state.  Exactly one logical owner ever
/// calls its methods; producers reach it only through enqueue attempts.
#[derive(Debug)]
pub struct Arbitrator {
    pub state: State,
    pub inbox: Vec<Trigger>,
    pub capacity: usize,
    pub closed: bool,
}

impl Arbitrator {
    /// Well-formedness: positive capacity, a bounded inbox that honors the
    /// coalescing rules, and an empty inbox whenever the arbitrator is idle.
    pub open spec fn wf(self) -> bool {
        &&& self.capacity > 0
        &&& self.inbox@.len() <= self.capacity
        &&& coalesced(self.inbox@)
        &&& (self.state is Idle ==> self.inbox@.len() == 0)
    }

    /// A fresh, idle arbitrator with an empty inbox of the given capacity.
    pub fn new(capacity: usize) -> (r: Arbitrator)
        requires
            capacity > 0,
        ensures
            r.wf(),
            r.state is Idle,
            r.inbox@.len() == 0,
            r.capacity == capacity,
            !r.closed,
    {
        Arbitrator { state: State::Idle, inbox: Vec::new(), capacity, closed: false }
    }

    /// Offer one trigger.  When idle, the trigger is dispatched immediately
    /// and a session becomes pending; when pending, it is queued, coalesced,
    /// or refused according to the inbox policy; when closed, nothing is
    /// accepted.
    pub fn offer(&mut self, t: Trigger) -> (r: Outcome)
        requires
            old(self).wf(),
        ensures
            final(self).wf(),
            offer_spec(*old(self), t, *final(self)),
            r == offer_result(*old(self), t),
    {
        if self.closed {
            return Outcome::Closed;
        }
        match self.state {
            State::Idle => {
                self.state = State::SessionPending;
                Outcome::Dispatch(t)
            },
            State::SessionPending => self.enqueue_pending(t),
        }
    }

    /// Queue one trigger while a session is pending, applying the
    /// coalescing rules and the capacity bound.
    fn enqueue_pending(&mut self, t: Trigger) -> (r: Outcome)
        requires
            old(self).wf(),
            old(self).state is SessionPending,
        ensures
            final(self).wf(),
            final(self).state is SessionPending,
            final(self).capacity == old(self).capacity,
            final(self).closed == old(self).closed,
            final(self).inbox@ == pending_queue_after(
                old(self).inbox@,
                t,
                old(self).capacity as nat,
            ),
            r == pending_outcome(old(self).inbox@, t, old(self).capacity as nat),
    {
        let ghost q = self.inbox@;
        match &t {
            Trigger::PeriodicInform { .. } => {
                if Self::find_periodic(&self.inbox) {
                    Outcome::Coalesced
                } else if self.inbox.len() < self.capacity {
                    self.inbox.push(t);
                    proof {
                        assert forall|i: int, j: int|
                            #![trigger self.inbox@[i], self.inbox@[j]]
                            0 <= i < j < self.inbox@.len() implies !(self.inbox@[i].is_periodic()
                            && self.inbox@[j].is_periodic()) by {
                            assert(self.inbox@[i] == q[i]);
                        }
                        assert forall|i: int, j: int|
                            #![trigger self.inbox@[i], self.inbox@[j]]
                            0 <= i < j < self.inbox@.len() implies !(self.inbox@[
                            i].is_parameter_changed() && self.inbox@[j].is_parameter_changed()
                            && self.inbox@[i].param_key() == self.inbox@[j].param_key()) by {
                            assert(self.inbox@[i] == q[i]);
                            if j < q.len() {
                                assert(self.inbox@[j] == q[j]);
                            }
                        }
                    }
                    Outcome::Queued
                } else {
                    Outcome::Dropped
                }
            },
            Trigger::ParameterChanged { parameter, .. } => {
                let key = parameter.clone();
                match Self::find_parameter(&self.inbox, &key) {
                    Some(i) => {
                        proof {
                            assert(has_parameter(q, key@));
                            let pi = parameter_index(q, key@);
                            assert(0 <= pi < q.len() && q[pi].is_parameter_changed() && q[
                            pi].param_key() == key@);
                            assert(pi == i as int);
                        }
                        let slot = &mut self.inbox[i];
                        *slot = t;
                        proof {
                            assert(self.inbox@ == q.update(i as int, t));
                            assert forall|x: int, y: int|
                                #![trigger self.inbox@[x], self.inbox@[y]]
                                0 <= x < y < self.inbox@.len() implies !(self.inbox@[
                            x].is_periodic() && self.inbox@[y].is_periodic()) by {
                                assert(q[x].is_periodic() || !self.inbox@[x].is_periodic());
                                assert(q[y].is_periodic() || !self.inbox@[y].is_periodic());
                            }
                            assert forall|x: int, y: int|
                                #![trigger self.inbox@[x], self.inbox@[y]]
                                0 <= x < y < self.inbox@.len() implies !(self.inbox@[
                            x].is_parameter_changed() && self.inbox@[y].is_parameter_changed()
                                && self.inbox@[x].param_key() == self.inbox@[y].param_key()) by {
                                if x != i as int && y != i as int {
                                    assert(self.inbox@[x] == q[x] && self.inbox@[y] == q[y]);
                                } else if x == i as int {
                                    assert(self.inbox@[y] == q[y]);
                                    assert(q[i as int].param_key() == key@);
                                } else {
                                    assert(self.inbox@[x] == q[x]);
                                    assert(q[i as int].param_key() == key@);
                                }
                            }
                        }
                        Outcome::Coalesced
                    },
                    None => {
                        if self.inbox.len() < self.capacity {
                            self.inbox.push(t);
                            proof {
                                assert forall|x: int, y: int|
                                    #![trigger self.inbox@[x], self.inbox@[y]]
                                    0 <= x < y < self.inbox@.len() implies !(self.inbox@[
                                x].is_periodic() && self.inbox@[y].is_periodic()) by {
                                    assert(self.inbox@[x] == q[x]);
                                    if y < q.len() {
                                        assert(self.inbox@[y] == q[y]);
                                    }
                                }
                                assert forall|x: int, y: int|
                                    #![trigger self.inbox@[x], self.inbox@[y]]
                                    0 <= x < y < self.inbox@.len() implies !(self.inbox@[
                                x].is_parameter_changed() && self.inbox@[y].is_parameter_changed()
                                    && self.inbox@[x].param_key() == self.inbox@[y].param_key())
                                    by {
                                    assert(self.inbox@[x] == q[x]);
                                    if y < q.len() {
                                        assert(self.inbox@[y] == q[y]);
                                    }
                                }
                            }
                            Outcome::Queued
                        } else {
                            Outcome::Dropped
                        }
                    },
                }
            },
            Trigger::ConnectionRequest { .. } => {
                if self.inbox.len() < self.capacity {
                    self.inbox.push(t);
                    proof {
                        assert forall|x: int, y: int|
                            #![trigger self.inbox@[x], self.inbox@[y]]
                            0 <= x < y < self.inbox@.len() implies !(self.inbox@[x].is_periodic()
                            && self.inbox@[y].is_periodic()) by {
                            assert(self.inbox@[x] == q[x]);
                            if y < q.len() {
                                assert(self.inbox@[y] == q[y]);
                            }
                        }
                        assert forall|x: int, y: int|
                            #![trigger self.inbox@[x], self.inbox@[y]]
                            0 <= x < y < self.inbox@.len() implies !(self.inbox@[
                        x].is_parameter_changed() && self.inbox@[y].is_parameter_changed()
                            && self.inbox@[x].param_key() == self.inbox@[y].param_key()) by {
                            assert(self.inbox@[x] == q[x]);
                            if y < q.len() {
                                assert(self.inbox@[y] == q[y]);
                            }
                        }
                    }
                    Outcome::Queued
                } else {
                    Outcome::Rejected
                }
            },
        }
    }

    /// True when some queued trigger is a periodic inform.
    fn find_periodic(q: &Vec<Trigger>) -> (r: bool)
        ensures
            r == has_periodic(q@),
    {
        let mut i: usize = 0;
        while i < q.len()
            invariant
                i <= q@.len(),
                forall|j: int| 0 <= j < i ==> !(#[trigger] q@[j]).is_periodic(),
            decreases q@.len() - i,
        {
            match &q[i] {
                Trigger::PeriodicInform { .. } => {
                    return true;
                },
                _ => {},
            }
            i = i + 1;
        }
        false
    }

    /// The position of the queued parameter change for `key`, if one is
    /// queued; the first such position.
    fn find_parameter(q: &Vec<Trigger>, key: &String) -> (r: Option<usize>)
        ensures
            match r {
                Some(i) => i < q@.len() && q@[i as int].is_parameter_changed() && q@[
                i as int].param_key() == key@,
                None => !has_parameter(q@, key@),
            },
    {
        let mut i: usize = 0;
        while i < q.len()
            invariant
                i <= q@.len(),
                forall|j: int|
                    0 <= j < i ==> !((#[trigger] q@[j]).is_parameter_changed() && q@[
                    j].param_key() == key@),
            decreases q@.len() - i,
        {
            match &q[i] {
                Trigger::ParameterChanged { parameter, .. } => {
                    if *parameter == *key {
                        return Some(i);
                    }
                },
                _ => {},
            }
            i = i + 1;
        }
        None
    }

    /// Record the completion signal of the pending session.  Dispatches the
    /// oldest queued trigger when one is queued, and falls back to `Idle`
    /// when the inbox is empty.
    pub fn complete_session(&mut self) -> (d: Option<Trigger>)
        requires
            old(self).wf(),
            old(self).state is SessionPending,
        ensures
            final(self).wf(),
            complete_spec(*old(self), *final(self), d),
    {
        let ghost q = self.inbox@;
        if self.inbox.len() == 0 {
            self.state = State::Idle;
            None
        } else {
            let t = self.inbox.remove(0);
            proof {
                assert forall|i: int, j: int|
                    #![trigger self.inbox@[i], self.inbox@[j]]
                    0 <= i < j < self.inbox@.len() implies !(self.inbox@[i].is_periodic()
                    && self.inbox@[j].is_periodic()) by {
                    assert(self.inbox@[i] == q[i + 1] && self.inbox@[j] == q[j + 1]);
                }
                assert forall|i: int, j: int|
                    #![trigger self.inbox@[i], self.inbox@[j]]
                    0 <= i < j < self.inbox@.len() implies !(self.inbox@[i].is_parameter_changed()
                    && self.inbox@[j].is_parameter_changed() && self.inbox@[i].param_key()
                    == self.inbox@[j].param_key()) by {
                    assert(self.inbox@[i] == q[i + 1] && self.inbox@[j] == q[j + 1]);
                }
            }
            Some(t)
        }
    }

    /// Close the inbox for shutdown: later offers are refused, while the
    /// already-queued triggers stay for draining.
    pub fn close(&mut self)
        ensures
            final(self).closed,
            final(self).state == old(self).state,
            final(self).inbox@ == old(self).inbox@,
            final(self).capacity == old(self).capacity,
            old(self).wf() ==> final(self).wf(),
    {
        self.closed = true;
    }

    /// Remove and return every queued trigger, oldest first, leaving the
    /// arbitrator idle with an empty inbox.  On clean shutdown the caller
    /// dispatches each returned trigger in order, so no queued trigger is
    /// lost.
    pub fn drain(&mut self) -> (r: Vec<Trigger>)
        requires
            old(self).wf(),
        ensures
            final(self).wf(),
            r@ == old(self).inbox@,
            final(self).inbox@.len() == 0,
            final(self).state is Idle,
            final(self).capacity == old(self).capacity,
            final(self).closed == old(self).closed,
    {
        let ghost q = self.inbox@;
        let mut out: Vec<Trigger> = Vec::new();
        while self.inbox.len() > 0
            invariant
                out@ + self.inbox@ == q,
                self.capacity == old(self).capacity,
                self.closed == old(self).closed,
                self.state == old(self).state,
            decreases self.inbox@.len(),
        {
            let t = self.inbox.remove(0);
            out.push(t);
            proof {
                assert(out@ + self.inbox@ =~= q);
            }
        }
        self.state = State::Idle;
        proof {
            assert(out@ + self.inbox@ =~= out@);
            assert(coalesced(self.inbox@));
        }
        out
    }
}

} // verus!
