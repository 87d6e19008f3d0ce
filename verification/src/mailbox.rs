use vstd::prelude::*;

verus! {

/// Outcome of a nonblocking pop from a mailbox.
pub enum PopResult<T> {
    /// The item that was at the front of the queue.
    Item(T),
    /// Nothing is queued right now, but a live producer may still send.
    Empty,
    /// Nothing is queued and every producer handle is gone.
    Closed,
}

/// An unbounded multi-producer single-consumer channel, seen from its
/// consumer end.
///
/// The supervisor owns its mailboxes outright and nothing else ever touches
/// them concurrently, so the channel state is plain data: `queue` holds the
/// pending items front first, and `senders` counts the live producer handles.
/// Enqueueing is possible only while at least one producer handle is live,
/// and a handle, once dropped, is never resurrected.
pub struct Mailbox<T> {
    /// Identity of the channel; producer handles minted for it carry the same id.
    pub id: u64,
    /// Pending items, in enqueue order, front first.
    pub queue: Vec<T>,
    /// Number of live producer handles.
    pub senders: u64,
}

/// The two mailboxes are compared field by field (queues by their views).
pub open spec fn mailbox_eq<T>(a: Mailbox<T>, b: Mailbox<T>) -> bool {
    &&& a.id == b.id
    &&& a.queue@ == b.queue@
    &&& a.senders == b.senders
}

impl<T> Mailbox<T> {
    /// True while at least one producer handle is live.
    pub open spec fn connected_spec(&self) -> bool {
        self.senders > 0
    }

    /// A fresh, empty channel with the given number of producer handles
    /// outstanding.
    pub fn new(id: u64, senders: u64) -> (m: Mailbox<T>)
        ensures
            m.id == id,
            m.queue@ == Seq::<T>::empty(),
            m.senders == senders,
    {
        Mailbox { id, queue: Vec::new(), senders }
    }

    /// Reports whether any producer handle is still alive.
    pub fn connected(&self) -> (r: bool)
        ensures
            r == self.connected_spec(),
    {
        self.senders > 0
    }

    /// Enqueue an item through a live producer handle.
    pub fn push(&mut self, item: T)
        requires
            old(self).senders >= 1,
        ensures
            final(self).queue@ == old(self).queue@.push(item),
            final(self).senders == old(self).senders,
            final(self).id == old(self).id,
    {
        self.queue.push(item);
    }

    /// Mint one more producer handle for this channel.
    pub fn derive_sender(&mut self)
        requires
            old(self).senders < u64::MAX,
        ensures
            final(self).senders == old(self).senders + 1,
            final(self).queue@ == old(self).queue@,
            final(self).id == old(self).id,
    {
        self.senders = self.senders + 1;
    }

    /// Drop one producer handle.  Connectivity can only ever decay.
    pub fn drop_sender(&mut self)
        requires
            old(self).senders >= 1,
        ensures
            final(self).senders == old(self).senders - 1,
            final(self).queue@ == old(self).queue@,
            final(self).id == old(self).id,
    {
        self.senders = self.senders - 1;
    }

    /// Nonblocking pop: the front item if one is queued, otherwise whether
    /// the channel can still receive anything.
    pub fn try_pop(&mut self) -> (r: PopResult<T>)
        ensures
            final(self).senders == old(self).senders,
            final(self).id == old(self).id,
            old(self).queue@.len() > 0 ==> {
                &&& r == PopResult::Item(old(self).queue@[0])
                &&& final(self).queue@ == old(self).queue@.skip(1)
            },
            old(self).queue@.len() == 0 ==> {
                &&& final(self).queue@ == old(self).queue@
                &&& (old(self).senders == 0 ==> r is Closed)
                &&& (old(self).senders > 0 ==> r is Empty)
            },
    {
        if self.queue.len() > 0 {
            let item = self.queue.remove(0);
            PopResult::Item(item)
        } else if self.senders == 0 {
            PopResult::Closed
        } else {
            PopResult::Empty
        }
    }
}

} // verus!
