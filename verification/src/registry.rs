//! The correlation registry: the live set of pending matchers, the fresh
//! handles that name them, and the dispatch step that resolves at most one
//! of them per inbound message.

use vstd::prelude::*;
use crate::messages::{CorrelationId, Message, ResponseKind};

verus! {

/// Decides whether an inbound message answers a pending request.
#[derive(Clone, Copy, Debug, PartialEq, Eq, Structural)]
pub enum Matcher {
    /// A response of this kind whose embedded correlation id equals the
    /// caller's own: the shape every ordinary wait uses, kept explicit (not
    /// an opaque closure) so it stays indexable.
    ResponseWithId { kind: ResponseKind, req_id: CorrelationId },
    /// Any response of this kind, whatever id it carries: a broadcast-style
    /// wait.
    AnyResponseOfKind { kind: ResponseKind },
}

pub open spec fn matcher_accepts(m: Matcher, msg: Message) -> bool {
    match m {
        Matcher::ResponseWithId { kind, req_id } => msg.spec_response_kind() == Some(kind)
            && msg.spec_req_id() == req_id,
        Matcher::AnyResponseOfKind { kind } => msg.spec_response_kind() == Some(kind),
    }
}

/// The matcher is keyed by this correlation id (the id-exclusive shape the
/// callers are expected, though never required, to use).
pub open spec fn id_keyed(m: Matcher, id: CorrelationId) -> bool {
    m matches Matcher::ResponseWithId { kind, req_id } && req_id == id
}

impl Matcher {
    pub fn accepts(&self, msg: &Message) -> (r: bool)
        ensures
            r == matcher_accepts(*self, *msg),
    {
        match self {
            Matcher::ResponseWithId { kind, req_id } => match msg.response_kind() {
                Some(k) => k == *kind && msg.req_id() == *req_id,
                None => false,
            },
            Matcher::AnyResponseOfKind { kind } => match msg.response_kind() {
                Some(k) => k == *kind,
                None => false,
            },
        }
    }
}

/// Where a registration stands in its single-shot life.
#[derive(Debug, PartialEq)]
pub enum RegState {
    /// Still live: the dispatcher may deliver to it.
    Pending,
    /// A matching message was delivered. The slot holds it until the owning
    /// caller consumes it: the capacity-one channel of the model.
    Delivered(Message),
}

/// One pending wait: a matcher, the handle its owner holds, when the wait
/// began, and the single-shot delivery slot.
#[derive(Debug, PartialEq)]
pub struct Registration {
    pub handle: u64,
    pub matcher: Matcher,
    /// An opaque tick of the embedding's clock. The core never reads it:
    /// cleanup is the owner's deadline race, not a registry sweep.
    pub created_at: u64,
    pub state: RegState,
}

/// A registration is live while nothing has been delivered to it.
pub open spec fn is_live(r: Registration) -> bool {
    r.state is Pending
}

/// The dispatcher may resolve `msg` to `r`: `r` is live and its matcher
/// accepts the message.
pub open spec fn accepts_delivery(r: Registration, msg: Message) -> bool {
    is_live(r) && matcher_accepts(r.matcher, msg)
}

/// The registration after `msg` has been delivered into its slot.
pub open spec fn with_delivery(r: Registration, msg: Message) -> Registration {
    Registration {
        handle: r.handle,
        matcher: r.matcher,
        created_at: r.created_at,
        state: RegState::Delivered(msg),
    }
}

pub open spec fn has_handle(s: Seq<Registration>, h: u64) -> bool {
    exists|i: int| 0 <= i < s.len() && s[i].handle == h
}

pub open spec fn index_of_handle(s: Seq<Registration>, h: u64) -> int {
    choose|i: int| 0 <= i < s.len() && s[i].handle == h
}

/// The registration removal takes out, if the handle is present at all.
pub open spec fn spec_taken(s: Seq<Registration>, h: u64) -> Option<Registration> {
    if has_handle(s, h) {
        Some(s[index_of_handle(s, h)])
    } else {
        None
    }
}

/// The index the dispatcher resolves an inbound message to: the first live
/// registration whose matcher accepts it.
pub open spec fn first_live_match(s: Seq<Registration>, msg: Message) -> Option<int>
    decreases s.len(),
{
    if s.len() == 0 {
        None
    } else if accepts_delivery(s[0], msg) {
        Some(0)
    } else {
        match first_live_match(s.drop_first(), msg) {
            Some(i) => Some(i + 1),
            None => None,
        }
    }
}

/// What `first_live_match` means pointwise: the index it returns is the
/// least accepting one, and `None` means no live registration accepts.
pub proof fn lemma_first_live_match_characterizes(s: Seq<Registration>, msg: Message)
    ensures
        match first_live_match(s, msg) {
            Some(i) => 0 <= i < s.len() && accepts_delivery(s[i], msg) && (forall|j: int|
                0 <= j < i ==> !accepts_delivery(s[j], msg)),
            None => forall|j: int| 0 <= j < s.len() ==> !accepts_delivery(s[j], msg),
        },
    decreases s.len(),
{
    if s.len() == 0 {
    } else if accepts_delivery(s[0], msg) {
    } else {
        let t = s.drop_first();
        lemma_first_live_match_characterizes(t, msg);
        assert(forall|j: int| 0 <= j < t.len() ==> t[j] == s[j + 1]);
        match first_live_match(t, msg) {
            Some(i) => {
                assert forall|j: int| 0 <= j < i + 1 implies !accepts_delivery(s[j], msg) by {
                    if j > 0 {
                        assert(s[j] == t[j - 1]);
                    }
                }
            },
            None => {
                assert forall|j: int| 0 <= j < s.len() implies !accepts_delivery(s[j], msg) by {
                    if j > 0 {
                        assert(s[j] == t[j - 1]);
                    }
                }
            },
        }
    }
}

/// The live set of pending matchers, keyed by fresh handles. It is shared
/// between many concurrent callers and the single dispatch path; each
/// operation below is one atomic step of that shared state (the mutual
/// exclusion around it belongs to the embedding).
#[derive(Debug)]
pub struct Registry {
    pub regs: Vec<Registration>,
    pub next_handle: u64,
}

impl Registry {
    /// Well-formedness: handles are issued in increasing order, so they are
    /// pairwise distinct and never reused.
    pub open spec fn wf(self) -> bool {
        &&& forall|i: int, j: int|
            0 <= i < j < self.regs@.len() ==> self.regs@[i].handle < self.regs@[j].handle
        &&& forall|i: int| 0 <= i < self.regs@.len() ==> self.regs@[i].handle < self.next_handle
    }

    pub fn new() -> (r: Registry)
        ensures
            r.wf(),
            r.regs@ =~= Seq::<Registration>::empty(),
            r.next_handle == 0,
    {
        Registry { regs: Vec::new(), next_handle: 0 }
    }

    /// Inserts a live registration for the matcher and returns the fresh
    /// handle its owner will deregister with. Everything already registered
    /// is left untouched.
    pub fn register(&mut self, matcher: Matcher, now: u64) -> (h: u64)
        requires
            old(self).wf(),
            old(self).next_handle < u64::MAX,
        ensures
            final(self).wf(),
            h == old(self).next_handle,
            !has_handle(old(self).regs@, h),
            final(self).regs@ == old(self).regs@.push(
                Registration { handle: h, matcher, created_at: now, state: RegState::Pending },
            ),
            final(self).next_handle == h + 1,
    {
        let h = self.next_handle;
        self.regs.push(
            Registration { handle: h, matcher, created_at: now, state: RegState::Pending },
        );
        self.next_handle = h + 1;
        h
    }

    /// Resolves one inbound message: the first live registration whose
    /// matcher accepts it has the message delivered into its slot, leaving
    /// the live set; the handle that was resolved is reported so the
    /// embedding can wake its owner. When nothing matches, the registry is
    /// untouched and the message falls through to other subscribers.
    pub fn dispatch(&mut self, msg: Message) -> (r: Option<u64>)
        requires
            old(self).wf(),
        ensures
            final(self).wf(),
            final(self).next_handle == old(self).next_handle,
            match first_live_match(old(self).regs@, msg) {
                Some(i) => r == Some(old(self).regs@[i].handle) && final(self).regs@
                    == old(self).regs@.update(i, with_delivery(old(self).regs@[i], msg)),
                None => r is None && *final(self) == *old(self),
            },
    {
        let ghost s0 = self.regs@;
        let mut i: usize = 0;
        loop
            invariant
                *self == *old(self),
                old(self).wf(),
                s0 == old(self).regs@,
                0 <= i <= s0.len(),
                forall|j: int| 0 <= j < i ==> !accepts_delivery(s0[j], msg),
            decreases s0.len() - i,
        {
            if i >= self.regs.len() {
                proof {
                    lemma_first_live_match_characterizes(s0, msg);
                }
                return None;
            }
            let is_pending = matches!(self.regs[i].state, RegState::Pending);
            let m = self.regs[i].matcher;
            if is_pending && m.accepts(&msg) {
                let h = self.regs[i].handle;
                let t = self.regs[i].created_at;
                proof {
                    lemma_first_live_match_characterizes(s0, msg);
                    match first_live_match(s0, msg) {
                        Some(k) => {
                            if k < i as int {
                                assert(!accepts_delivery(s0[k], msg));
                            }
                            if k > i as int {
                                assert(!accepts_delivery(s0[i as int], msg));
                            }
                            assert(k == i as int);
                        },
                        None => {
                            assert(!accepts_delivery(s0[i as int], msg));
                        },
                    }
                }
                self.regs.set(
                    i,
                    Registration {
                        handle: h,
                        matcher: m,
                        created_at: t,
                        state: RegState::Delivered(msg),
                    },
                );
                proof {
                    assert(self.regs@ =~= s0.update(i as int, with_delivery(s0[i as int], msg)));
                    assert forall|a: int, b: int|
                        0 <= a < b < self.regs@.len() implies self.regs@[a].handle
                        < self.regs@[b].handle by {
                        assert(self.regs@[a].handle == s0[a].handle);
                        assert(self.regs@[b].handle == s0[b].handle);
                    }
                    assert forall|a: int|
                        0 <= a < self.regs@.len() implies self.regs@[a].handle
                        < self.next_handle by {
                        assert(self.regs@[a].handle == s0[a].handle);
                    }
                }
                return Some(h);
            }
            i += 1;
        }
    }

    /// Removes the registration with the given handle, whatever its state,
    /// and hands it back. A handle that is already gone is a no-op: the
    /// registry is unchanged and nothing is returned.
    pub fn take_registration(&mut self, h: u64) -> (r: Option<Registration>)
        requires
            old(self).wf(),
        ensures
            final(self).wf(),
            final(self).next_handle == old(self).next_handle,
            !has_handle(final(self).regs@, h),
            r == spec_taken(old(self).regs@, h),
            has_handle(old(self).regs@, h) ==> final(self).regs@ == old(self).regs@.remove(
                index_of_handle(old(self).regs@, h),
            ),
            !has_handle(old(self).regs@, h) ==> *final(self) == *old(self),
    {
        let ghost s0 = self.regs@;
        let mut i: usize = 0;
        loop
            invariant
                *self == *old(self),
                old(self).wf(),
                s0 == old(self).regs@,
                0 <= i <= s0.len(),
                forall|j: int| 0 <= j < i ==> s0[j].handle != h,
            decreases s0.len() - i,
        {
            if i >= self.regs.len() {
                proof {
                    assert(!has_handle(s0, h));
                }
                return None;
            }
            if self.regs[i].handle == h {
                proof {
                    assert(has_handle(s0, h));
                    let k = index_of_handle(s0, h);
                    if k < i as int {
                        assert(s0[k].handle < s0[i as int].handle);
                    }
                    if k > i as int {
                        assert(s0[i as int].handle < s0[k].handle);
                    }
                    assert(k == i as int);
                }
                let reg = self.regs.remove(i);
                proof {
                    assert forall|j: int| 0 <= j < self.regs@.len() implies self.regs@[j].handle
                        != h by {
                        if j < i as int {
                            assert(self.regs@[j] == s0[j]);
                        } else {
                            assert(self.regs@[j] == s0[j + 1]);
                            assert(s0[i as int].handle < s0[j + 1].handle);
                        }
                    }
                    assert forall|a: int, b: int|
                        0 <= a < b < self.regs@.len() implies self.regs@[a].handle
                        < self.regs@[b].handle by {
                        let a0 = if a < i as int { a } else { a + 1 };
                        let b0 = if b < i as int { b } else { b + 1 };
                        assert(self.regs@[a] == s0[a0]);
                        assert(self.regs@[b] == s0[b0]);
                    }
                    assert forall|a: int|
                        0 <= a < self.regs@.len() implies self.regs@[a].handle
                        < self.next_handle by {
                        let a0 = if a < i as int { a } else { a + 1 };
                        assert(self.regs@[a] == s0[a0]);
                    }
                }
                return Some(reg);
            }
            i += 1;
        }
    }

    /// Idempotent removal: deregistering a handle that is already gone
    /// changes nothing and reports `false`.
    pub fn deregister(&mut self, h: u64) -> (removed: bool)
        requires
            old(self).wf(),
        ensures
            final(self).wf(),
            final(self).next_handle == old(self).next_handle,
            !has_handle(final(self).regs@, h),
            removed == has_handle(old(self).regs@, h),
            removed ==> final(self).regs@ == old(self).regs@.remove(
                index_of_handle(old(self).regs@, h),
            ),
            !removed ==> *final(self) == *old(self),
    {
        let r = self.take_registration(h);
        r.is_some()
    }
}

/// Law: while a registration whose matcher accepts `msg` is live, dispatch
/// resolves the message to some live registration; that slot then holds
/// exactly `msg`, has left the live set, and every other registration is
/// untouched.
pub proof fn lemma_matching_message_is_delivered(s: Seq<Registration>, msg: Message, w: int)
    requires
        0 <= w < s.len(),
        accepts_delivery(s[w], msg),
    ensures
        first_live_match(s, msg) is Some,
        forall|i: int| first_live_match(s, msg) == Some(i) ==> 0 <= i < s.len()
            && s.update(i, with_delivery(s[i], msg))[i].state == RegState::Delivered(msg)
            && !is_live(s.update(i, with_delivery(s[i], msg))[i])
            && (forall|j: int| 0 <= j < s.len() && j != i ==> s.update(
                i,
                with_delivery(s[i], msg),
            )[j] == s[j]),
{
    lemma_first_live_match_characterizes(s, msg);
}

/// Law: delivery is single-shot. Once the dispatcher has delivered to a
/// registration, that registration is no longer live, so no later message —
/// not even an identical one — can resolve to it again.
pub proof fn lemma_delivery_is_single_shot(s: Seq<Registration>, msg: Message, i: int, later: Message)
    requires
        first_live_match(s, msg) == Some(i),
    ensures
        0 <= i < s.len(),
        first_live_match(s.update(i, with_delivery(s[i], msg)), later) != Some(i),
        forall|j: int| first_live_match(s.update(i, with_delivery(s[i], msg)), later) == Some(j)
            ==> 0 <= j < s.len() && j != i,
{
    lemma_first_live_match_characterizes(s, msg);
    let s1 = s.update(i, with_delivery(s[i], msg));
    lemma_first_live_match_characterizes(s1, later);
}

/// Law: dispatch-delivery and timeout-cleanup racing on one registration
/// have exactly one winner. Once the handle has been removed, no dispatch
/// can resolve a message to it, so the loser of the race finds nothing left
/// to act on.
pub proof fn lemma_removed_handle_is_never_resolved(s: Seq<Registration>, h: u64, msg: Message)
    requires
        !has_handle(s, h),
    ensures
        forall|i: int| first_live_match(s, msg) == Some(i) ==> 0 <= i < s.len() && s[i].handle
            != h,
{
    lemma_first_live_match_characterizes(s, msg);
}

/// Law: when every live matcher is keyed by its own correlation id and the
/// ids are pairwise distinct, a reply embedding the id of one of them can be
/// accepted by that one alone; every other pending call stays pending.
pub proof fn lemma_distinct_ids_isolate_delivery(
    s: Seq<Registration>,
    ids: Seq<CorrelationId>,
    msg: Message,
    k: int,
)
    requires
        ids.len() == s.len(),
        forall|a: int| 0 <= a < s.len() ==> id_keyed(s[a].matcher, ids[a]),
        forall|a: int, b: int| 0 <= a < b < s.len() ==> ids[a] != ids[b],
        0 <= k < s.len(),
        msg.spec_req_id() == ids[k],
    ensures
        forall|j: int| 0 <= j < s.len() && j != k ==> !matcher_accepts(s[j].matcher, msg),
        forall|i: int| first_live_match(s, msg) == Some(i) ==> i == k,
{
    assert forall|j: int| 0 <= j < s.len() && j != k implies !matcher_accepts(
        s[j].matcher,
        msg,
    ) by {
        if j < k {
            assert(ids[j] != ids[k]);
        } else {
            assert(ids[k] != ids[j]);
        }
        assert(id_keyed(s[j].matcher, ids[j]));
    }
    lemma_first_live_match_characterizes(s, msg);
}

} // verus!
