use vstd::prelude::*;

verus! {

/// The supervised actor, modeled by what supervision must preserve of it: a
/// unit of state that only changes through messages applied to it.
///
/// Its durable state is the log of message ids applied to it, in order.  The
/// `restarts` counter records how many restart notifications the actor has
/// received; a restart resets transient context state through that hook and
/// never rebuilds the actor from its factory, so the log survives every
/// restart.
#[derive(Debug, PartialEq, Eq)]
pub struct Actor {
    /// Ids of the messages applied to this actor, in application order.
    pub applied: Vec<u64>,
    /// How many restart notifications the actor has received.
    pub restarts: u64,
}

/// Two actors hold the same state (compared by views).
pub open spec fn actor_eq(a: Actor, b: Actor) -> bool {
    &&& a.applied@ == b.applied@
    &&& a.restarts == b.restarts
}

impl Actor {
    /// A fresh actor that has seen no messages and no restarts.
    pub fn new() -> (a: Actor)
        ensures
            a.applied@ == Seq::<u64>::empty(),
            a.restarts == 0,
    {
        Actor { applied: Vec::new(), restarts: 0 }
    }

    /// Record one applied message.  Durable state grows by exactly this id.
    pub fn record(&mut self, id: u64)
        ensures
            final(self).applied@ == old(self).applied@.push(id),
            final(self).restarts == old(self).restarts,
    {
        self.applied.push(id);
    }

    /// The restart-notification hook: the actor keeps its durable state and
    /// only notes that its context was recreated.  The counter saturates at
    /// the top of its range rather than wrap.
    pub fn restarting(&mut self)
        ensures
            final(self).applied@ == old(self).applied@,
            final(self).restarts == if old(self).restarts < u64::MAX {
                old(self).restarts + 1
            } else {
                old(self).restarts as int
            },
    {
        if self.restarts < u64::MAX {
            self.restarts = self.restarts + 1;
        }
    }
}

} // verus!
