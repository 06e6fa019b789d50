//! A bounded, non-blocking, single-producer single-consumer notification
//! queue. A full queue drops the message instead of blocking, so the sender
//! can never stall; a ghost history records every message ever offered, which
//! is what the one-shot completion guarantee is stated over.

use vstd::prelude::*;

verus! {

/// The mathematical model of a [`SignalChannel`]: its capacity, the messages
/// currently queued (oldest first), and every message ever offered to it.
pub struct ChannelModel<T> {
    /// The fixed capacity the channel was created with.
    pub cap: int,
    /// The messages waiting to be received, oldest first.
    pub queue: Seq<T>,
    /// Every message ever offered, whether it was queued or dropped.
    pub offered: Seq<T>,
}

/// A bounded queue that never blocks: offering a message to a full queue
/// drops it, and receiving from an empty queue returns nothing.
pub struct SignalChannel<T> {
    cap: usize,
    queue: Vec<T>,
    history: Ghost<Seq<T>>,
}

impl<T> View for SignalChannel<T> {
    type V = ChannelModel<T>;

    closed spec fn view(&self) -> ChannelModel<T> {
        ChannelModel { cap: self.cap as int, queue: self.queue@, offered: self.history@ }
    }
}

/// The channel's invariant: a positive capacity, a queue within it, and no
/// more queued messages than were ever offered.
pub open spec fn channel_wf<T>(m: ChannelModel<T>) -> bool {
    &&& m.cap >= 1
    &&& m.queue.len() <= m.cap
    &&& m.queue.len() <= m.offered.len()
}

impl<T> SignalChannel<T> {
    /// Create an empty channel with the given capacity.
    pub fn new(cap: usize) -> (r: Self)
        requires
            cap >= 1,
        ensures
            r@.cap == cap,
            r@.queue == Seq::<T>::empty(),
            r@.offered == Seq::<T>::empty(),
            channel_wf(r@),
    {
        SignalChannel { cap, queue: Vec::new(), history: Ghost(Seq::empty()) }
    }

    /// Offer a message. It is queued when there is room and silently dropped
    /// otherwise; either way the offer is recorded and the call returns at
    /// once, so the sender never blocks.
    pub fn try_send(&mut self, msg: T)
        requires
            channel_wf(old(self)@),
        ensures
            channel_wf(final(self)@),
            final(self)@.cap == old(self)@.cap,
            final(self)@.offered == old(self)@.offered.push(msg),
            final(self)@.queue == (if old(self)@.queue.len() < old(self)@.cap {
                old(self)@.queue.push(msg)
            } else {
                old(self)@.queue
            }),
    {
        proof {
            self.history@ = self.history@.push(msg);
        }
        if self.queue.len() < self.cap {
            self.queue.push(msg);
        }
    }

    /// Take the oldest queued message, if any.
    pub fn try_recv(&mut self) -> (r: Option<T>)
        requires
            channel_wf(old(self)@),
        ensures
            channel_wf(final(self)@),
            final(self)@.cap == old(self)@.cap,
            final(self)@.offered == old(self)@.offered,
            old(self)@.queue.len() == 0 ==> r is None && final(self)@.queue == old(self)@.queue,
            old(self)@.queue.len() > 0 ==> r == Some(old(self)@.queue[0]) && final(self)@.queue
                == old(self)@.queue.drop_first(),
    {
        if self.queue.len() == 0 {
            None
        } else {
            let msg = self.queue.remove(0);
            proof {
                assert(final(self)@.queue =~= old(self)@.queue.drop_first());
            }
            Some(msg)
        }
    }

    /// How many messages are waiting.
    pub fn queued(&self) -> (r: usize)
        ensures
            r == self@.queue.len(),
    {
        self.queue.len()
    }
}

} // verus!
