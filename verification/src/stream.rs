//! Single-producer, multi-consumer broadcast over an append-only event log.
//!
//! The log is never truncated while consumers remain attached, so every
//! consumer reads the identical ordered sequence from its own cursor,
//! however late it subscribed. The async shell around this crate holds the
//! log under a lock and parks wakers; the log and cursor logic here is what
//! it locks.

use vstd::prelude::*;

verus! {

/// The shared state of one broadcast stream: the ordered event log, the
/// completion flag, and the number of attached receivers.
pub struct Stream<T> {
    items: Vec<T>,
    is_completed: bool,
    receiver_count: usize,
}

/// A consumer of a [`Stream`]: a cursor into the shared log. The ghost
/// `received` field records every item this receiver has observed, in
/// order.
pub struct Receiver<T> {
    index: usize,
    received: Ghost<Seq<T>>,
}

/// What one poll of a receiver yields: the next item, the end of a
/// completed stream, or nothing yet.
pub enum PollNext<T> {
    Item(T),
    End,
    Pending,
}

impl<T> Receiver<T> {
    /// How many items this receiver has observed so far.
    pub closed spec fn cursor(&self) -> int {
        self.index as int
    }

    /// Every item this receiver has observed, in order.
    pub closed spec fn received(&self) -> Seq<T> {
        self.received@
    }
}

/// A receiver is in step with a stream when everything it has observed is
/// exactly the prefix of the log up to its cursor.
pub open spec fn synced<T>(r: &Receiver<T>, s: &Stream<T>) -> bool {
    &&& 0 <= r.cursor() <= s.log().len()
    &&& r.received() == s.log().take(r.cursor())
}

impl<T> Stream<T> {
    /// The ordered event log published so far.
    pub closed spec fn log(&self) -> Seq<T> {
        self.items@
    }

    /// Whether the producer has marked the stream complete.
    pub closed spec fn completed(&self) -> bool {
        self.is_completed
    }

    /// How many receivers are attached.
    pub closed spec fn receivers(&self) -> int {
        self.receiver_count as int
    }

    /// A fresh stream: empty log, not completed, no receivers.
    pub fn new() -> (s: Self)
        ensures
            s.log() == Seq::<T>::empty(),
            !s.completed(),
            s.receivers() == 0,
    {
        Stream { items: Vec::new(), is_completed: false, receiver_count: 0 }
    }

    /// Attaches a new receiver with its cursor at the start of the log.
    pub fn recv(&mut self) -> (r: Receiver<T>)
        requires
            old(self).receivers() < usize::MAX,
        ensures
            final(self).log() == old(self).log(),
            final(self).completed() == old(self).completed(),
            final(self).receivers() == old(self).receivers() + 1,
            r.cursor() == 0,
            r.received() == Seq::<T>::empty(),
            synced(&r, final(self)),
    {
        self.receiver_count = self.receiver_count + 1;
        let r = Receiver { index: 0, received: Ghost(Seq::empty()) };
        proof {
            assert(self.items@.take(0) =~= Seq::<T>::empty());
        }
        r
    }

    /// Appends one item to the log. Receivers in step stay in step: the
    /// prefix each one has observed is unchanged.
    pub fn send(&mut self, item: T)
        ensures
            final(self).log() == old(self).log().push(item),
            final(self).completed() == old(self).completed(),
            final(self).receivers() == old(self).receivers(),
    {
        self.items.push(item);
    }

    /// Marks the stream complete; the log is unchanged.
    pub fn end(&mut self)
        ensures
            final(self).log() == old(self).log(),
            final(self).completed(),
            final(self).receivers() == old(self).receivers(),
    {
        self.is_completed = true;
    }

    /// How many receivers are attached.
    pub fn receiver_count(&self) -> (n: usize)
        ensures
            n == self.receivers(),
    {
        self.receiver_count
    }

    /// One poll of a receiver against this stream. If the cursor is inside
    /// the log, the item there is yielded and the cursor advances; if the
    /// stream is complete, the end is signalled; otherwise nothing is ready
    /// and the caller should park until woken by the producer.
    pub fn poll_next<'a>(&'a self, r: &mut Receiver<T>) -> (p: PollNext<&'a T>)
        requires
            synced(old(r), self),
        ensures
            synced(final(r), self),
            old(r).cursor() < self.log().len() ==> (
                p matches PollNext::Item(it)
                    && *it == self.log()[old(r).cursor()]
                    && final(r).cursor() == old(r).cursor() + 1
                    && final(r).received() == old(r).received().push(*it)
            ),
            old(r).cursor() >= self.log().len() && self.completed() ==> (
                p is End && *final(r) == *old(r)
            ),
            old(r).cursor() >= self.log().len() && !self.completed() ==> (
                p is Pending && *final(r) == *old(r)
            ),
    {
        if r.index < self.items.len() {
            let item = &self.items[r.index];
            r.index = r.index + 1;
            proof {
                r.received@ = r.received@.push(*item);
                assert(self.items@.take(r.index as int) =~= self.items@.take(r.index - 1).push(
                    self.items@[r.index - 1],
                ));
            }
            PollNext::Item(item)
        } else if self.is_completed {
            PollNext::End
        } else {
            PollNext::Pending
        }
    }

    /// Detaches one receiver. When the last receiver leaves, the log and
    /// the completion flag are reset so the instance can serve a new job.
    pub fn disconnect(&mut self, r: Receiver<T>)
        requires
            old(self).receivers() > 0,
        ensures
            final(self).receivers() == old(self).receivers() - 1,
            old(self).receivers() > 1 ==> final(self).log() == old(self).log()
                && final(self).completed() == old(self).completed(),
            old(self).receivers() == 1 ==> final(self).log() == Seq::<T>::empty()
                && !final(self).completed(),
    {
        let _ = r;
        self.receiver_count = self.receiver_count - 1;
        if self.receiver_count == 0 {
            self.items.clear();
            self.is_completed = false;
        }
    }
}

/// Replay: receivers that have observed the same number of items from one
/// stream have observed the identical ordered sequence, regardless of when
/// each subscribed.
pub proof fn lemma_replay<T>(s: &Stream<T>, r1: &Receiver<T>, r2: &Receiver<T>)
    requires
        synced(r1, s),
        synced(r2, s),
        r1.cursor() == r2.cursor(),
    ensures
        r1.received() == r2.received(),
{
}

/// Replay, drained form: receivers whose cursors have reached the end of
/// the log have each observed the full log, and therefore the same
/// sequence.
pub proof fn lemma_replay_full<T>(s: &Stream<T>, r1: &Receiver<T>, r2: &Receiver<T>)
    requires
        synced(r1, s),
        synced(r2, s),
        r1.cursor() == s.log().len(),
        r2.cursor() == s.log().len(),
    ensures
        r1.received() == s.log(),
        r2.received() == s.log(),
        r1.received() == r2.received(),
{
    assert(s.log().take(s.log().len() as int) =~= s.log());
}

} // verus!
