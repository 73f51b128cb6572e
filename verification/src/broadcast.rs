//! The race-free discrete-event broadcaster: a bounded multi-consumer event
//! buffer with "drop oldest on overflow, never block the publisher"
//! semantics. Subscribing records the current logical publication point, so a
//! subscriber created by a snapshot-then-subscribe operation observes exactly
//! the events published after its snapshot, with no gap and no duplicate, as
//! long as it is not overrun by more than the capacity. The asynchronous
//! wake-up and fan-out plumbing lives with the embedding application; this
//! state machine is what its lock guards.

use vstd::prelude::*;

verus! {

/// Bounded event buffer plus the total number of events ever published. The
/// ghost `history` records every published event; the executable `buffer`
/// holds the most recent `capacity` of them.
pub struct RaceFreeBroadcaster<T> {
    pub capacity: usize,
    pub published: u64,
    pub buffer: Vec<T>,
    pub history: Ghost<Seq<T>>,
}

/// One subscriber's position: the index into the publication history of the
/// next event it should observe.
pub struct BroadcastSubscription {
    pub cursor: u64,
}

impl<T> RaceFreeBroadcaster<T> {
    /// The first history index still held in the buffer.
    pub open spec fn buffer_start(self) -> int {
        if self.published > self.capacity {
            self.published - self.capacity
        } else {
            0
        }
    }

    pub open spec fn wf(self) -> bool {
        &&& self.capacity >= 1
        &&& self.history@.len() == self.published
        &&& self.buffer@ == self.history@.subrange(self.buffer_start(), self.published as int)
    }

    /// The events this subscription has yet to observe: everything from its
    /// cursor on, except what overflow has already dropped.
    pub open spec fn pending(self, sub: BroadcastSubscription) -> Seq<T> {
        let start = if sub.cursor > self.buffer_start() {
            sub.cursor as int
        } else {
            self.buffer_start()
        };
        if start <= self.published {
            self.history@.subrange(start, self.published as int)
        } else {
            Seq::empty()
        }
    }

    pub fn new(capacity: usize) -> (r: Self)
        requires
            capacity >= 1,
        ensures
            r.wf(),
            r.capacity == capacity,
            r.published == 0,
            r.history@ == Seq::<T>::empty(),
    {
        let r = RaceFreeBroadcaster {
            capacity,
            published: 0,
            buffer: Vec::new(),
            history: Ghost(Seq::empty()),
        };
        proof {
            assert(r.buffer@ =~= r.history@.subrange(0, 0));
        }
        r
    }

    /// Publishes one event without ever blocking: the event is appended to
    /// the history, and if the buffer is full the oldest buffered event is
    /// dropped.
    pub fn publish(&mut self, event: T)
        requires
            old(self).wf(),
            old(self).published < u64::MAX,
        ensures
            final(self).wf(),
            final(self).capacity == old(self).capacity,
            final(self).published == old(self).published + 1,
            final(self).history@ == old(self).history@.push(event),
    {
        self.buffer.push(event);
        if self.buffer.len() > self.capacity {
            let _dropped = self.buffer.remove(0);
        }
        self.published = self.published + 1;
        proof {
            self.history@ = self.history@.push(event);
            assert(self.buffer@ =~= self.history@.subrange(
                self.buffer_start(),
                self.published as int,
            ));
        }
    }

    /// Registers a new subscriber at the current publication point. Pairing
    /// this with a read of the guarded state under one lock is the
    /// snapshot-then-subscribe operation.
    pub fn subscribe(&self) -> (s: BroadcastSubscription)
        requires
            self.wf(),
        ensures
            s.cursor == self.published,
            self.pending(s) == Seq::<T>::empty(),
    {
        let s = BroadcastSubscription { cursor: self.published };
        proof {
            assert(self.pending(s) =~= Seq::<T>::empty());
        }
        s
    }

    /// Observes the next pending event, if any, advancing the cursor. When
    /// the subscriber has been overrun (its cursor points at an event the
    /// buffer already dropped), the cursor jumps forward to the oldest
    /// retained event: the drop-oldest policy loses the oldest events, never
    /// the newest.
    pub fn recv<'a>(&'a self, sub: &mut BroadcastSubscription) -> (r: Option<&'a T>)
        requires
            self.wf(),
            old(sub).cursor <= self.published,
        ensures
            final(sub).cursor <= self.published,
            self.pending(*old(sub)).len() == 0 ==> r is None && *final(sub) == *old(sub),
            self.pending(*old(sub)).len() > 0 ==> {
                &&& r == Option::Some(&self.buffer[self.published - self.pending(*old(sub)).len()
                    - self.buffer_start()])
                &&& *r.unwrap() == self.pending(*old(sub))[0]
                &&& self.pending(*final(sub)) == self.pending(*old(sub)).subrange(
                    1,
                    self.pending(*old(sub)).len() as int,
                )
            },
    {
        let start64: u64 = if self.published > self.capacity as u64 {
            self.published - self.capacity as u64
        } else {
            0
        };
        let effective: u64 = if sub.cursor > start64 {
            sub.cursor
        } else {
            start64
        };
        if effective == self.published {
            proof {
                assert(self.pending(*sub).len() == 0);
            }
            Option::None
        } else {
            let idx: usize = (effective - start64) as usize;
            let item = &self.buffer[idx];
            sub.cursor = effective + 1;
            proof {
                let p = self.pending(*old(sub));
                assert(p.len() == self.published - effective);
                assert(item == &self.buffer@[effective - self.buffer_start()]);
                assert(self.buffer@[effective - self.buffer_start()] == self.history@[effective as int]);
                assert(*item == p[0]);
                assert(self.pending(*sub) =~= p.subrange(1, p.len() as int));
            }
            Option::Some(item)
        }
    }
}

/// No-lost-update law: a subscriber registered at the snapshot point — with
/// the publisher locked out, so exactly the snapshot's history `h0` was
/// published — has, after any further events `evs` were published and as long
/// as it was not overrun (`evs` fits the capacity), exactly `evs` pending: no
/// event from before the snapshot (no duplicate) and none missing (no gap).
pub proof fn lemma_snapshot_subscription_exact<T>(
    b0: RaceFreeBroadcaster<T>,
    b1: RaceFreeBroadcaster<T>,
    sub: BroadcastSubscription,
    evs: Seq<T>,
)
    requires
        b0.wf(),
        b1.wf(),
        sub.cursor == b0.published,
        b1.capacity == b0.capacity,
        b1.history@ == b0.history@ + evs,
        evs.len() <= b0.capacity,
    ensures
        b1.pending(sub) == evs,
{
    assert(b1.published == b0.published + evs.len());
    assert(b1.buffer_start() <= sub.cursor);
    assert(b1.pending(sub) =~= evs);
}

} // verus!
