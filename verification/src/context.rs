use vstd::prelude::*;

use crate::actor::Actor;
use crate::msgs::Effect;
use crate::msgs::Envelope;

verus! {

/// One scripted step of the actor's internal asynchronous work.  The script
/// models what the context's own engine would do on each single-step advance;
/// it is context-local ephemeral state and is discarded on restart.
#[derive(Clone, Copy, Debug, PartialEq, Eq)]
pub enum Step {
    /// The actor makes internal progress and stays alive; `waiting` reports
    /// whether it is now blocked on an external event.
    Progress { waiting: bool },
    /// The actor's execution terminates, normally or abnormally.  The
    /// supervisor treats both the same way.
    Halt,
}

/// What a single-step advance of the context reports.
#[derive(Clone, Copy, Debug, PartialEq, Eq)]
pub enum Advance {
    /// The actor is still executing; `waiting` on the context tells whether
    /// it is blocked on an external event.
    Running,
    /// The actor's execution reached a terminal state.
    Terminated,
}

/// The execution context: owns the actor and its internal asynchronous work.
///
/// The context is exclusively owned by one supervisor and is replaced
/// wholesale on restart; only the actor inside it survives.  Its internal
/// engine is modeled by a script of step outcomes consumed front first by
/// [`Context::advance`], so a resumption can be driven deterministically.
#[derive(Debug, PartialEq, Eq)]
pub struct Context {
    /// The actor bound into this context.
    pub actor: Actor,
    /// Identity of this context's own same-thread mailbox; the sender derived
    /// from the context (the actor's self-address) carries the same id.
    pub chan: u64,
    /// False once the actor's execution reached a terminal state.
    pub alive: bool,
    /// True while the actor is blocked on an external event.
    pub waiting: bool,
    /// True once a graceful stop was requested; the next advance terminates.
    pub stop_requested: bool,
    /// Pending internal work, front first; ephemeral, discarded on restart.
    pub script: Vec<Step>,
}

/// Two contexts hold the same state (compared by views).
pub open spec fn context_eq(a: Context, b: Context) -> bool {
    &&& crate::actor::actor_eq(a.actor, b.actor)
    &&& a.chan == b.chan
    &&& a.alive == b.alive
    &&& a.waiting == b.waiting
    &&& a.stop_requested == b.stop_requested
    &&& a.script@ == b.script@
}

impl Context {
    /// A fresh, parentless context with the given actor bound into it and no
    /// internal work pending.
    pub fn new(chan: u64, actor: Actor) -> (c: Context)
        ensures
            c.actor == actor,
            c.chan == chan,
            c.alive,
            !c.waiting,
            !c.stop_requested,
            c.script@ == Seq::<Step>::empty(),
    {
        Context {
            actor,
            chan,
            alive: true,
            waiting: false,
            stop_requested: false,
            script: Vec::new(),
        }
    }

    /// Schedule one more step of internal work on this context.  This models
    /// the actor spawning asynchronous work of its own.
    pub fn push_step(&mut self, step: Step)
        ensures
            final(self).script@ == old(self).script@.push(step),
            final(self).actor == old(self).actor,
            final(self).chan == old(self).chan,
            final(self).alive == old(self).alive,
            final(self).waiting == old(self).waiting,
            final(self).stop_requested == old(self).stop_requested,
    {
        self.script.push(step);
    }

    /// Report whether the actor's execution has not yet reached a terminal
    /// state.
    pub fn is_alive(&self) -> (r: bool)
        ensures
            r == self.alive,
    {
        self.alive
    }

    /// Report whether the actor is blocked on an external event.
    pub fn is_waiting(&self) -> (r: bool)
        ensures
            r == self.waiting,
    {
        self.waiting
    }

    /// Request a graceful stop: execution terminates at the next advance, not
    /// necessarily immediately.
    pub fn request_stop(&mut self)
        ensures
            final(self).stop_requested,
            final(self).actor == old(self).actor,
            final(self).chan == old(self).chan,
            final(self).alive == old(self).alive,
            final(self).waiting == old(self).waiting,
            final(self).script@ == old(self).script@,
    {
        self.stop_requested = true;
    }

    /// Advance the actor's execution by one step.
    ///
    /// A context that already terminated stays terminated; a requested stop
    /// terminates now; otherwise the next scripted step is consumed, and a
    /// context with nothing scheduled keeps running unchanged.
    pub fn advance(&mut self) -> (r: Advance)
        ensures
            final(self).actor == old(self).actor,
            final(self).chan == old(self).chan,
            final(self).stop_requested == old(self).stop_requested,
            !old(self).alive ==> {
                &&& r is Terminated
                &&& !final(self).alive
                &&& final(self).waiting == old(self).waiting
                &&& final(self).script@ == old(self).script@
            },
            old(self).alive && old(self).stop_requested ==> {
                &&& r is Terminated
                &&& !final(self).alive
                &&& final(self).waiting == old(self).waiting
                &&& final(self).script@ == old(self).script@
            },
            old(self).alive && !old(self).stop_requested && old(self).script@.len() == 0 ==> {
                &&& r is Running
                &&& final(self).alive
                &&& final(self).waiting == old(self).waiting
                &&& final(self).script@ == old(self).script@
            },
            old(self).alive && !old(self).stop_requested && old(self).script@.len() > 0 ==> {
                &&& final(self).script@ == old(self).script@.skip(1)
                &&& (old(self).script@[0] matches Step::Progress { waiting } ==> {
                    &&& r is Running
                    &&& final(self).alive
                    &&& final(self).waiting == waiting
                })
                &&& (old(self).script@[0] is Halt ==> {
                    &&& r is Terminated
                    &&& !final(self).alive
                    &&& final(self).waiting == old(self).waiting
                })
            },
    {
        if !self.alive {
            return Advance::Terminated;
        }
        if self.stop_requested {
            self.alive = false;
            return Advance::Terminated;
        }
        if self.script.len() > 0 {
            let step = self.script.remove(0);
            match step {
                Step::Progress { waiting } => {
                    self.waiting = waiting;
                    Advance::Running
                },
                Step::Halt => {
                    self.alive = false;
                    Advance::Terminated
                },
            }
        } else {
            Advance::Running
        }
    }

    /// Apply one envelope to the actor and this context: the single dispatch
    /// point, so actor and context are mutated together and an envelope never
    /// outlives its one application.
    pub fn apply(&mut self, env: Envelope)
        requires
            old(self).alive,
        ensures
            final(self).actor.applied@ == old(self).actor.applied@.push(env.id),
            final(self).actor.restarts == old(self).actor.restarts,
            final(self).chan == old(self).chan,
            final(self).stop_requested == old(self).stop_requested,
            final(self).script@ == old(self).script@,
            final(self).alive == !(env.effect is Stop),
            final(self).waiting == if env.effect is Wait {
                true
            } else {
                old(self).waiting
            },
    {
        self.actor.record(env.id);
        match env.effect {
            Effect::Work => {},
            Effect::Wait => {
                self.waiting = true;
            },
            Effect::Stop => {
                self.alive = false;
            },
        }
    }

    /// The restart-notification hook, invoked on the bound actor through the
    /// context.
    pub fn restarting(&mut self)
        ensures
            final(self).actor.applied@ == old(self).actor.applied@,
            final(self).actor.restarts == if old(self).actor.restarts < u64::MAX {
                old(self).actor.restarts + 1
            } else {
                old(self).actor.restarts as int
            },
            final(self).chan == old(self).chan,
            final(self).alive == old(self).alive,
            final(self).waiting == old(self).waiting,
            final(self).stop_requested == old(self).stop_requested,
            final(self).script@ == old(self).script@,
    {
        self.actor.restarting();
    }
}

} // verus!
