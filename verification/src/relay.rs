//! The outbound relay: a bounded FIFO queue of text frames with a single
//! consumer. Producers (the heartbeat emitter, any future outbound
//! source) enqueue; the forwarding task dequeues and writes each frame
//! to the socket's send half in arrival order, so only one logical
//! writer ever touches the socket. A full or closed relay refuses a
//! frame, and a refused enqueue is the producer's signal that the
//! connection is tearing down.

use vstd::prelude::*;

verus! {

/// How many frames the relay holds at most.
pub const RELAY_CAPACITY: usize = 32;

/// The bounded FIFO queue of outbound frames. Its view is the sequence
/// of queued frames, oldest first.
pub struct OutboundRelay {
    frames: Vec<String>,
    shut: bool,
}

impl View for OutboundRelay {
    type V = Seq<Seq<char>>;

    closed spec fn view(&self) -> Seq<Seq<char>> {
        self.frames.deep_view()
    }
}

impl OutboundRelay {
    /// The relay never holds more frames than its capacity.
    pub closed spec fn well_formed(&self) -> bool {
        self.frames@.len() <= RELAY_CAPACITY
    }

    /// Whether the relay has been closed to producers.
    pub closed spec fn is_shut(&self) -> bool {
        self.shut
    }

    /// A fresh relay: empty and open.
    pub fn new() -> (r: OutboundRelay)
        ensures
            r@ == Seq::<Seq<char>>::empty(),
            !r.is_shut(),
            r.well_formed(),
    {
        OutboundRelay { frames: Vec::new(), shut: false }
    }

    pub fn len(&self) -> (n: usize)
        ensures
            n == self@.len(),
    {
        self.frames.len()
    }

    pub fn is_closed(&self) -> (b: bool)
        ensures
            b == self.is_shut(),
    {
        self.shut
    }

    /// Offers a frame to the relay. The relay accepts exactly when it is
    /// open and not full; an accepted frame joins the back of the queue,
    /// a refused one changes nothing, and the producer learns which.
    pub fn enqueue(&mut self, frame: String) -> (accepted: bool)
        requires
            old(self).well_formed(),
        ensures
            final(self).well_formed(),
            final(self).is_shut() == old(self).is_shut(),
            accepted <==> (!old(self).is_shut() && old(self)@.len() < RELAY_CAPACITY),
            accepted ==> final(self)@ == old(self)@.push(frame@),
            !accepted ==> final(self)@ == old(self)@,
    {
        if self.shut || self.frames.len() >= RELAY_CAPACITY {
            return false;
        }
        let ghost before = self.frames.deep_view();
        self.frames.push(frame);
        proof {
            assert(self.frames.deep_view() =~= before.push(frame@));
        }
        true
    }

    /// Takes the oldest queued frame, if any: the consumer drains the
    /// queue strictly in arrival order.
    pub fn dequeue(&mut self) -> (front: Option<String>)
        requires
            old(self).well_formed(),
        ensures
            final(self).well_formed(),
            final(self).is_shut() == old(self).is_shut(),
            old(self)@.len() == 0 ==> front is None && final(self)@ == old(self)@,
            old(self)@.len() > 0 ==> (front matches Some(f) && f@ == old(self)@[0]
                && final(self)@ == old(self)@.drop_first()),
    {
        if self.frames.len() == 0 {
            None
        } else {
            let ghost before = self.frames.deep_view();
            let f = self.frames.remove(0);
            proof {
                assert(self.frames.deep_view() =~= before.drop_first());
            }
            Some(f)
        }
    }

    /// Closes the relay: every later enqueue is refused, and what is
    /// already queued stays for the consumer to drain.
    pub fn close(&mut self)
        ensures
            final(self)@ == old(self)@,
            final(self).is_shut(),
            final(self).well_formed() == old(self).well_formed(),
    {
        self.shut = true;
    }
}

/// The queue after the frames of `frames` are offered to it in order,
/// each one accepted.
pub open spec fn enqueue_all(q: Seq<Seq<char>>, frames: Seq<Seq<char>>) -> Seq<Seq<char>>
    decreases frames.len(),
{
    if frames.len() == 0 {
        q
    } else {
        enqueue_all(q.push(frames[0]), frames.drop_first())
    }
}

/// Enqueueing a run of frames appends them, in order, to what was
/// already queued: the relay never reorders.
pub proof fn lemma_enqueue_all_appends(q: Seq<Seq<char>>, frames: Seq<Seq<char>>)
    ensures
        enqueue_all(q, frames) == q + frames,
    decreases frames.len(),
{
    if frames.len() == 0 {
        assert(enqueue_all(q, frames) =~= q + frames);
    } else {
        lemma_enqueue_all_appends(q.push(frames[0]), frames.drop_first());
        assert(q.push(frames[0]) + frames.drop_first() =~= q + frames);
    }
}

/// First-in, first-out: the frames accepted by an empty relay are
/// exactly what it then holds, in arrival order, and `dequeue` always
/// returns the front, so the forwarding task delivers them to the
/// transport in the exact order they were enqueued.
pub proof fn lemma_relay_fifo(frames: Seq<Seq<char>>)
    ensures
        enqueue_all(Seq::<Seq<char>>::empty(), frames) == frames,
{
    lemma_enqueue_all_appends(Seq::<Seq<char>>::empty(), frames);
    assert(Seq::<Seq<char>>::empty() + frames =~= frames);
}

} // verus!
