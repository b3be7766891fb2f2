//! The broadcast hub: a single bounded multi-consumer channel fanning
//! serialized events out to every live session. A subscriber observes only
//! events published after it attached; one that falls behind the bounded
//! buffer sees a lag signal and resumes from the oldest retained event, so
//! delivery is at most once, in publish order, with gaps only under lag,
//! and the publisher never blocks.

use vstd::prelude::*;

verus! {

/// The shared fan-out channel. The full publish history is carried as
/// ghost state; only the most recent `capacity` events are retained.
pub struct BroadcastHub {
    pub buffer: Vec<String>,
    pub published: u64,
    pub capacity: u64,
    pub history: Ghost<Seq<Seq<char>>>,
}

/// A subscription handle: the index into the publish history of the next
/// event this subscriber is due.
#[derive(Clone, Copy, PartialEq, Eq, Structural, Debug)]
pub struct Subscriber {
    pub next: u64,
}

/// What one receive attempt yields: nothing pending, a lag signal after
/// falling behind the retained window, or the next event in publish order.
#[derive(Debug)]
pub enum RecvOutcome {
    Empty,
    Lagged,
    Message(String),
}

impl BroadcastHub {
    /// How many recent events the buffer holds.
    pub open spec fn retained(&self) -> int {
        if self.published <= self.capacity {
            self.published as int
        } else {
            self.capacity as int
        }
    }

    /// The history index of the oldest retained event.
    pub open spec fn oldest(&self) -> int {
        self.published - self.retained()
    }

    /// The buffer holds exactly the most recent events of the history.
    pub open spec fn wf(&self) -> bool {
        self.capacity > 0 && self.history@.len() == self.published && self.buffer@.len()
            == self.retained() && (forall|j: int|
            0 <= j < self.buffer@.len() ==> self.buffer@[j]@ == self.history@[self.oldest() + j])
    }

    /// A hub with nothing published yet.
    pub fn new(capacity: u64) -> (r: BroadcastHub)
        requires
            capacity > 0,
        ensures
            r.wf(),
            r.published == 0,
            r.capacity == capacity,
            r.history@ == Seq::<Seq<char>>::empty(),
    {
        BroadcastHub {
            buffer: Vec::new(),
            published: 0,
            capacity,
            history: Ghost(Seq::empty()),
        }
    }

    /// Publish one event to every current subscriber. Never blocks and
    /// never fails: with no subscribers the event is simply never
    /// received. When the buffer is full the oldest retained event is
    /// dropped, to be observed by slow subscribers as a gap.
    pub fn publish(&mut self, msg: String)
        requires
            old(self).wf(),
            old(self).published < u64::MAX,
        ensures
            final(self).wf(),
            final(self).published == old(self).published + 1,
            final(self).capacity == old(self).capacity,
            final(self).history@ == old(self).history@.push(msg@),
    {
        let ghost m = msg@;
        let ghost s0 = self.buffer@;
        self.buffer.push(msg);
        proof {
            self.history = Ghost(self.history@.push(m));
        }
        self.published = self.published + 1;
        if self.buffer.len() as u64 > self.capacity {
            let ghost s1 = self.buffer@;
            self.buffer.remove(0);
            proof {
                assert(forall|j: int| 0 <= j < self.buffer@.len() ==> self.buffer@[j] == s1[j + 1]);
            }
        }
    }

    /// Attach a new subscriber: it will observe exactly the events
    /// published from this moment on, never earlier ones.
    pub fn subscribe(&self) -> (r: Subscriber)
        ensures
            r.next == self.published,
    {
        Subscriber { next: self.published }
    }
}

/// Receive the next event of a subscription, without blocking.
pub fn recv(hub: &BroadcastHub, sub: &mut Subscriber) -> (r: RecvOutcome)
    requires
        hub.wf(),
        old(sub).next <= hub.published,
    ensures
        final(sub).next <= hub.published,
        // the cursor never moves backwards: nothing is delivered twice and
        // nothing from before the subscription is ever replayed
        final(sub).next >= old(sub).next,
        old(sub).next == hub.published ==> r is Empty && final(sub).next == old(sub).next,
        old(sub).next < hub.oldest() ==> r is Lagged && final(sub).next == hub.oldest(),
        hub.oldest() <= old(sub).next < hub.published ==> final(sub).next == old(sub).next + 1 && (
        r matches RecvOutcome::Message(m) && m@ == hub.history@[old(sub).next as int]),
{
    let oldest = hub.published - hub.buffer.len() as u64;
    if sub.next == hub.published {
        RecvOutcome::Empty
    } else if sub.next < oldest {
        sub.next = oldest;
        RecvOutcome::Lagged
    } else {
        let idx = (sub.next - oldest) as usize;
        let m = hub.buffer[idx].clone();
        sub.next = sub.next + 1;
        RecvOutcome::Message(m)
    }
}

/// Every currently attached subscriber that has kept up receives a newly
/// published event: after the publish it is neither drained nor lagged,
/// and the event it is due next is exactly the one published.
pub proof fn lemma_subscriber_receives_fresh_publish(
    h0: BroadcastHub,
    h1: BroadcastHub,
    sub: Subscriber,
    m: Seq<char>,
)
    requires
        h0.wf(),
        sub.next == h0.published,
        h0.published < u64::MAX,
        h1.wf(),
        h1.published == h0.published + 1,
        h1.capacity == h0.capacity,
        h1.history@ == h0.history@.push(m),
    ensures
        h1.oldest() <= sub.next < h1.published,
        h1.history@[sub.next as int] == m,
{
}

} // verus!
