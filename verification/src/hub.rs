//! Broadcast hub: a bounded multi-producer/multi-consumer fan-out of
//! `UpdateEvent`s, each tagged with the identity of the session that
//! published it.
//!
//! The hub keeps the last `capacity` published events in a ring; a slow
//! subscriber that lags behind loses the oldest unread events rather than
//! blocking publishers (at-most-once, best-effort delivery). Every
//! subscriber sees every publish, even its own: excluding self-echo is
//! the subscriber's job, done here by `drain_others`, which compares each
//! event's originating identity against the caller's own.
//!
//! The hub is a plain data structure; sharing it between connection tasks
//! (behind a lock) is the embedding program's concern.

use crate::session::{UpdateEvent, UpdateEventView};
use vstd::prelude::*;

verus! {

/// Mathematical view of a `TaggedEvent`.
pub ghost struct TaggedEventView {
    pub origin: u64,
    pub event: UpdateEventView,
}

/// One published event together with the identity of its publisher.
#[derive(Debug)]
pub struct TaggedEvent {
    pub origin: u64,
    pub event: UpdateEvent,
}

impl View for TaggedEvent {
    type V = TaggedEventView;

    open spec fn view(&self) -> TaggedEventView {
        TaggedEventView { origin: self.origin, event: self.event@ }
    }
}

impl TaggedEvent {
    /// An independently owned copy of the tagged event.
    pub fn snapshot(&self) -> (r: TaggedEvent)
        ensures
            r@ == self@,
    {
        TaggedEvent { origin: self.origin, event: self.event.snapshot() }
    }
}

/// Mathematical view of a `Hub`: the capacity, the sequence number of the
/// oldest retained event, and the retained events themselves, oldest first.
pub ghost struct HubView {
    pub capacity: int,
    pub base: int,
    pub items: Seq<TaggedEventView>,
}

/// The fan-out channel shared by every session handler.
#[derive(Debug)]
pub struct Hub {
    capacity: usize,
    base: u64,
    items: Vec<TaggedEvent>,
}

impl View for Hub {
    type V = HubView;

    closed spec fn view(&self) -> HubView {
        HubView {
            capacity: self.capacity as int,
            base: self.base as int,
            items: self.items@.map_values(|m: TaggedEvent| m@),
        }
    }
}

impl Hub {
    /// The hub keeps at least one event, never more than its capacity, and
    /// its sequence numbers fit the counter type.
    pub open spec fn wf(&self) -> bool {
        &&& self@.capacity >= 1
        &&& self@.items.len() <= self@.capacity
        &&& self@.base + self@.items.len() <= u64::MAX
    }

    /// A fresh, empty hub of the given capacity.
    pub fn new(capacity: usize) -> (r: Hub)
        requires
            capacity >= 1,
        ensures
            r.wf(),
            r@.capacity == capacity,
            r@.base == 0,
            r@.items == Seq::<TaggedEventView>::empty(),
    {
        let r = Hub { capacity, base: 0, items: Vec::new() };
        proof {
            assert(r@.items =~= Seq::<TaggedEventView>::empty());
        }
        r
    }

    /// Publishes one event, tagged with the publishing session's identity.
    /// When the ring is full the oldest retained event is dropped, so a
    /// publisher is never blocked by a slow subscriber.
    pub fn publish(&mut self, origin: u64, event: UpdateEvent)
        requires
            old(self).wf(),
            old(self)@.base + old(self)@.items.len() < u64::MAX,
        ensures
            final(self).wf(),
            final(self)@.capacity == old(self)@.capacity,
            old(self)@.items.len() < old(self)@.capacity ==> {
                &&& final(self)@.base == old(self)@.base
                &&& final(self)@.items == old(self)@.items.push(
                    TaggedEventView { origin, event: event@ },
                )
            },
            old(self)@.items.len() == old(self)@.capacity ==> {
                &&& final(self)@.base == old(self)@.base + 1
                &&& final(self)@.items == old(self)@.items.drop_first().push(
                    TaggedEventView { origin, event: event@ },
                )
            },
    {
        if self.items.len() == self.capacity {
            self.items.remove(0);
            self.base = self.base + 1;
            proof {
                assert(self@.items =~= old(self)@.items.drop_first());
            }
        }
        let ghost before = self@.items;
        self.items.push(TaggedEvent { origin, event });
        proof {
            assert(self@.items =~= before.push(TaggedEventView { origin, event: event@ }));
        }
    }

    /// The sequence number one past the newest retained event.
    pub open spec fn head(&self) -> int {
        self@.base + self@.items.len()
    }

    /// Whether another publish still fits the sequence counter. Callers
    /// outside verified code test this before `publish`.
    pub fn can_publish(&self) -> (r: bool)
        ensures
            r == (self@.base + self@.items.len() < u64::MAX),
    {
        self.base < u64::MAX - (self.items.len() as u64)
    }

    /// Subscribes a new consumer; it will see the events published from this
    /// moment on, none of the past.
    pub fn subscribe(&self) -> (r: Subscription)
        requires
            self.wf(),
        ensures
            r@ == self.head(),
    {
        Subscription { next: self.base + self.items.len() as u64 }
    }
}

/// A consumer's cursor into the hub: the sequence number of the next event
/// it has not yet received.
#[derive(Debug, Clone, Copy)]
pub struct Subscription {
    next: u64,
}

impl View for Subscription {
    type V = int;

    closed spec fn view(&self) -> int {
        self.next as int
    }
}

/// Where a subscriber actually resumes reading: a cursor that has fallen
/// behind the oldest retained event has lost the events before `base` and
/// catches up to it.
pub open spec fn resume_at(hub: HubView, next: int) -> int {
    if next < hub.base {
        hub.base
    } else {
        next
    }
}

/// The retained events a subscriber has not yet received, oldest first.
pub open spec fn pending(hub: HubView, next: int) -> Seq<TaggedEventView>
    recommends
        resume_at(hub, next) <= hub.base + hub.items.len(),
{
    hub.items.subrange(resume_at(hub, next) - hub.base, hub.items.len() as int)
}

/// The events of `s` not published by `own`, in order: what a drain cycle
/// hands the session with identity `own`.
pub open spec fn others_of(s: Seq<TaggedEventView>, own: u64) -> Seq<UpdateEventView>
    decreases s.len(),
{
    if s.len() == 0 {
        Seq::empty()
    } else {
        let rest = others_of(s.drop_last(), own);
        if s.last().origin != own {
            rest.push(s.last().event)
        } else {
            rest
        }
    }
}

impl Subscription {
    /// A subscription is valid for a hub when its cursor does not run ahead
    /// of the hub's head.
    pub open spec fn valid_for(&self, hub: &Hub) -> bool {
        self@ <= hub.head()
    }

    /// Receives the next pending event, or `None` when the subscriber has
    /// seen everything retained. A lagged cursor first catches up to the
    /// oldest retained event, silently losing what the ring already dropped.
    pub fn try_recv(&mut self, hub: &Hub) -> (r: Option<TaggedEvent>)
        requires
            hub.wf(),
            old(self).valid_for(hub),
        ensures
            final(self).valid_for(hub),
            pending(hub@, old(self)@).len() > 0 ==> {
                &&& r matches Some(m) && m@ == pending(hub@, old(self)@).first()
                &&& final(self)@ == resume_at(hub@, old(self)@) + 1
            },
            pending(hub@, old(self)@).len() == 0 ==> r is None && final(self)@ == resume_at(
                hub@,
                old(self)@,
            ),
    {
        if self.next < hub.base {
            self.next = hub.base;
        }
        if self.next < hub.base + hub.items.len() as u64 {
            let idx = (self.next - hub.base) as usize;
            let m = hub.items[idx].snapshot();
            self.next = self.next + 1;
            Some(m)
        } else {
            None
        }
    }

    /// One drain cycle for the session with identity `own`: receives every
    /// pending event and returns, in delivery order, those published by
    /// other sessions. Self-echo is excluded: no event published with
    /// `origin == own` is ever handed back.
    pub fn drain_others(&mut self, hub: &Hub, own: u64) -> (r: Vec<UpdateEvent>)
        requires
            hub.wf(),
            old(self).valid_for(hub),
        ensures
            final(self)@ == hub.head(),
            r@.map_values(|e: UpdateEvent| e@) == others_of(pending(hub@, old(self)@), own),
    {
        let ghost pend = pending(hub@, old(self)@);
        let mut r: Vec<UpdateEvent> = Vec::new();
        let ghost k: int = 0;
        proof {
            assert(r@.map_values(|e: UpdateEvent| e@) =~= others_of(pend.subrange(0, 0), own));
        }
        loop
            invariant
                hub.wf(),
                0 <= k <= pend.len(),
                pend == pending(hub@, old(self)@),
                resume_at(hub@, self@) == resume_at(hub@, old(self)@) + k,
                self.valid_for(hub),
                r@.map_values(|e: UpdateEvent| e@) == others_of(pend.subrange(0, k), own),
            ensures
                self@ == hub@.base + hub@.items.len(),
                r@.map_values(|e: UpdateEvent| e@) == others_of(pend, own),
            decreases pend.len() - k,
        {
            let ghost before = self@;
            let next = self.try_recv(hub);
            proof {
                assert(pending(hub@, before) =~= pend.subrange(k, pend.len() as int));
            }
            match next {
                Some(m) => {
                    proof {
                        assert(pend.subrange(k, pend.len() as int).first() == pend[k]);
                        assert(pend.subrange(0, k + 1).drop_last() =~= pend.subrange(0, k));
                        assert(pend.subrange(0, k + 1).last() == pend[k]);
                    }
                    let ghost seen = r@.map_values(|e: UpdateEvent| e@);
                    if m.origin != own {
                        r.push(m.event);
                        proof {
                            assert(r@.map_values(|e: UpdateEvent| e@) =~= seen.push(m.event@));
                        }
                    }
                    proof {
                        k = k + 1;
                    }
                },
                None => {
                    proof {
                        assert(pending(hub@, before).len() == 0);
                        assert(k == pend.len());
                        assert(pend.subrange(0, k) =~= pend);
                        assert(self@ == resume_at(hub@, before));
                        assert(resume_at(hub@, before) == resume_at(hub@, old(self)@) + k);
                        assert(pend.len() == hub@.items.len() - (resume_at(hub@, old(self)@)
                            - hub@.base));
                    }
                    break ;
                },
            }
        }
        r
    }
}

/// Self-echo exclusion: whatever the retained events are, a drain cycle for
/// identity `own` yields exactly the events published by other identities,
/// in order, and never one published by `own` itself.
pub proof fn lemma_no_self_echo(s: Seq<TaggedEventView>, own: u64)
    ensures
        forall|e: UpdateEventView|
            #[trigger] others_of(s, own).contains(e) ==> exists|j: int|
                0 <= j < s.len() && s[j].origin != own && s[j].event == e,
        forall|j: int|
            0 <= j < s.len() && s[j].origin != own ==> others_of(s, own).contains(
                #[trigger] s[j].event,
            ),
    decreases s.len(),
{
    if s.len() > 0 {
        lemma_no_self_echo(s.drop_last(), own);
        let rest = others_of(s.drop_last(), own);
        let whole = others_of(s, own);
        assert forall|e: UpdateEventView| #[trigger] whole.contains(e) implies exists|j: int|
            0 <= j < s.len() && s[j].origin != own && s[j].event == e by {
            if s.last().origin != own && e == s.last().event {
                assert(s[s.len() - 1].origin != own && s[s.len() - 1].event == e);
            } else {
                let i = choose|i: int| 0 <= i < whole.len() && whole[i] == e;
                if i < rest.len() {
                    assert(rest.contains(e));
                    let j = choose|j: int|
                        0 <= j < s.drop_last().len() && s.drop_last()[j].origin != own
                            && s.drop_last()[j].event == e;
                    assert(s[j].origin != own && s[j].event == e);
                } else {
                    assert(s[s.len() - 1].origin != own && s[s.len() - 1].event == e);
                }
            }
        }
        assert forall|j: int| 0 <= j < s.len() && s[j].origin != own implies whole.contains(
            #[trigger] s[j].event,
        ) by {
            if j == s.len() - 1 {
                assert(whole[whole.len() - 1] == s[j].event);
            } else {
                assert(s.drop_last()[j] == s[j]);
                assert(rest.contains(s[j].event));
                let i = choose|i: int| 0 <= i < rest.len() && rest[i] == s[j].event;
                assert(whole[i] == s[j].event);
            }
        }
    }
}

} // verus!
