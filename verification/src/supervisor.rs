use vstd::prelude::*;

use crate::actor::Actor;
use crate::actor::actor_eq;
use crate::context::Advance;
use crate::context::Context;
use crate::context::context_eq;
use crate::mailbox::Mailbox;
use crate::mailbox::PopResult;
use crate::mailbox::mailbox_eq;
use crate::msgs::Envelope;
use crate::msgs::LocalHandle;
use crate::msgs::Protocol;
use crate::msgs::SyncHandle;
use crate::msgs::UpgradeReply;
use crate::msgs::applied_ids;
use crate::msgs::envelope_ids;
use crate::msgs::lemma_applied_ids_step;
use crate::msgs::lemma_envelope_ids_step;
use crate::msgs::lemma_upgrade_replies_step;
use crate::msgs::lemma_upgrade_requests_step;
use crate::msgs::lemma_upgrade_requests_take_le;
use crate::msgs::upgrade_replies;
use crate::msgs::upgrade_requests;

verus! {

/// Channel identity given to the first execution context's own mailbox.
pub const FIRST_CTX_CHAN: u64 = 0;

/// Channel identity of the supervisor's same-thread (unsync) mailbox.
pub const UNSYNC_CHAN_ID: u64 = 1;

/// Channel identity of the supervisor's cross-thread (sync) mailbox.
pub const SYNC_CHAN_ID: u64 = 2;

/// First channel identity free for contexts allocated by later restarts.
pub const FIRST_FREE_CHAN: u64 = 3;

/// What one resumption of the supervisor task reports to its scheduler.
#[derive(Clone, Copy, Debug, PartialEq, Eq)]
pub enum Resumption {
    /// Nothing more can be done this cycle; resume the task later.
    Suspend,
    /// Supervision is over for good; the scheduler drops the task.
    Complete,
}

/// The supervision engine: keeps one actor alive across failures by owning
/// its execution context, draining two mailboxes, and recreating the context
/// — never the actor — whenever execution terminates while clients are still
/// attached.
///
/// The runtime drives a supervisor by calling [`Supervisor::poll`] whenever
/// it resumes the task; producers reach it through the enqueue and handle
/// operations, which model what the handles returned by [`Supervisor::start`]
/// do.
pub struct Supervisor {
    /// The execution context; exclusively owned, replaced wholesale on
    /// restart, never absent.
    pub ctx: Context,
    /// A same-thread sender bound to the current context's own mailbox,
    /// refreshed after every restart so the actor's self-handle stays valid.
    pub self_sender: LocalHandle,
    /// Consumer end of the same-thread mailbox; lives as long as the
    /// supervisor, across any number of restarts.
    pub unsync_rx: Mailbox<Protocol>,
    /// Consumer end of the cross-thread mailbox; lives as long as the
    /// supervisor, across any number of restarts.
    pub sync_rx: Mailbox<Envelope>,
    /// The one-shot upgrade replies fulfilled so far, oldest first.  Each
    /// records the request id and the cross-thread handle it received.
    pub upgrades: Vec<UpgradeReply>,
    /// Next channel identity handed to a context allocated by a restart;
    /// saturates at the top of its range.
    pub next_chan: u64,
}

/// Two supervisors hold the same state (compared by views).
pub open spec fn sup_eq(a: Supervisor, b: Supervisor) -> bool {
    &&& context_eq(a.ctx, b.ctx)
    &&& a.self_sender == b.self_sender
    &&& mailbox_eq(a.unsync_rx, b.unsync_rx)
    &&& mailbox_eq(a.sync_rx, b.sync_rx)
    &&& a.upgrades@ == b.upgrades@
    &&& a.next_chan == b.next_chan
}

/// How one resumption moves messages: `i` same-thread and `j` cross-thread
/// messages were consumed, from the fronts of the queues, each applied or
/// fulfilled exactly once, all same-thread ones before any cross-thread one.
pub open spec fn drained_rel(pre: Supervisor, post: Supervisor, i: int, j: int) -> bool {
    &&& 0 <= i <= pre.unsync_rx.queue@.len()
    &&& 0 <= j <= pre.sync_rx.queue@.len()
    // the queues lose exactly those prefixes; nothing else is lost or reordered
    &&& post.unsync_rx.queue@ == pre.unsync_rx.queue@.skip(i)
    &&& post.sync_rx.queue@ == pre.sync_rx.queue@.skip(j)
    // every consumed envelope is applied once, in order, same-thread first
    &&& post.ctx.actor.applied@ == pre.ctx.actor.applied@
        + applied_ids(pre.unsync_rx.queue@.take(i)) + envelope_ids(pre.sync_rx.queue@.take(j))
    // every consumed upgrade is fulfilled once, in order, with a handle
    // sharing the supervisor's sync channel
    &&& post.upgrades@ == pre.upgrades@
        + upgrade_replies(upgrade_requests(pre.unsync_rx.queue@.take(i)), pre.sync_rx.id)
    // cross-thread messages are only consumed once the same-thread queue is done
    &&& (j > 0 ==> i == pre.unsync_rx.queue@.len())
    // the supervisor never drops a producer handle; fulfilling upgrades mints
    // sync senders
    &&& post.unsync_rx.senders == pre.unsync_rx.senders
    &&& post.sync_rx.senders == pre.sync_rx.senders
        + upgrade_requests(pre.unsync_rx.queue@.take(i)).len()
    &&& post.unsync_rx.id == pre.unsync_rx.id
    &&& post.sync_rx.id == pre.sync_rx.id
    // restart notifications only ever accumulate
    &&& post.ctx.actor.restarts >= pre.ctx.actor.restarts
}

/// No scripted step puts the actor into a waiting state.
pub open spec fn wait_free_script(script: Seq<crate::context::Step>) -> bool {
    forall|k: int|
        0 <= k < script.len() ==> !((#[trigger] script[k]) matches crate::context::Step::Progress {
            waiting,
        } && waiting)
}

/// No queued protocol message makes the actor wait when applied.
pub open spec fn wait_free_msgs(q: Seq<Protocol>) -> bool {
    forall|k: int|
        0 <= k < q.len() ==> !((#[trigger] q[k]) matches Protocol::Envelope(e) && e.effect
            is Wait)
}

/// No queued envelope makes the actor wait when applied.
pub open spec fn wait_free_envs(q: Seq<Envelope>) -> bool {
    forall|k: int| 0 <= k < q.len() ==> !((#[trigger] q[k]).effect is Wait)
}

/// Nothing in the supervisor's state can put the actor into a waiting state.
pub open spec fn no_wait_sources(s: Supervisor) -> bool {
    &&& !s.ctx.waiting
    &&& wait_free_script(s.ctx.script@)
    &&& wait_free_msgs(s.unsync_rx.queue@)
    &&& wait_free_envs(s.sync_rx.queue@)
}

/// No scripted step terminates the actor's execution.
pub open spec fn halt_free_script(script: Seq<crate::context::Step>) -> bool {
    forall|k: int| 0 <= k < script.len() ==> !((#[trigger] script[k]) is Halt)
}

/// No queued protocol message stops the context when applied.
pub open spec fn stop_free_msgs(q: Seq<Protocol>) -> bool {
    forall|k: int|
        0 <= k < q.len() ==> !((#[trigger] q[k]) matches Protocol::Envelope(e) && e.effect
            is Stop)
}

/// No queued envelope stops the context when applied.
pub open spec fn stop_free_envs(q: Seq<Envelope>) -> bool {
    forall|k: int| 0 <= k < q.len() ==> !((#[trigger] q[k]).effect is Stop)
}

/// Nothing in the supervisor's state can terminate the actor's execution.
pub open spec fn no_halt_sources(s: Supervisor) -> bool {
    &&& s.ctx.alive
    &&& !s.ctx.stop_requested
    &&& halt_free_script(s.ctx.script@)
    &&& stop_free_msgs(s.unsync_rx.queue@)
    &&& stop_free_envs(s.sync_rx.queue@)
}

/// The full contract of one resumption.
pub open spec fn poll_rel(pre: Supervisor, post: Supervisor, r: Resumption) -> bool {
    &&& post.wf()
    // termination is exactly loss of every producer handle
    &&& (r is Complete <==> !pre.connected_spec())
    // a disconnected supervisor stops the context and completes: no restart,
    // no drain, nothing lost, nothing applied
    &&& (!pre.connected_spec() ==> {
        &&& !post.ctx.alive
        &&& post.ctx.stop_requested
        &&& post.ctx.waiting == pre.ctx.waiting
        &&& post.ctx.chan == pre.ctx.chan
        &&& post.ctx.script@ == pre.ctx.script@
        &&& actor_eq(post.ctx.actor, pre.ctx.actor)
        &&& post.self_sender == pre.self_sender
        &&& mailbox_eq(post.unsync_rx, pre.unsync_rx)
        &&& mailbox_eq(post.sync_rx, pre.sync_rx)
        &&& post.upgrades@ == pre.upgrades@
        &&& post.next_chan == pre.next_chan
    })
    // a connected supervisor consumes prefixes of both queues, in order,
    // at most once, same-thread first
    &&& (pre.connected_spec() ==> exists|i: int, j: int| drained_rel(pre, post, i, j))
    &&& (pre.connected_spec() ==> post.connected_spec())
    // a suspended task still has a live context, and if that context is not
    // waiting, the task only suspended because both queues were exhausted
    &&& (r is Suspend ==> post.ctx.alive)
    &&& (r is Suspend && !post.ctx.waiting ==> {
        &&& post.unsync_rx.queue@.len() == 0
        &&& post.sync_rx.queue@.len() == 0
    })
    // an actor that nothing can make wait is not reported waiting, so a
    // suspension then only ever means exhausted queues
    &&& (no_wait_sources(pre) ==> !post.ctx.waiting)
    // an actor that nothing can terminate is never restarted
    &&& (pre.connected_spec() && no_halt_sources(pre) ==> post.ctx.actor.restarts
        == pre.ctx.actor.restarts)
    // an idle supervisor suspends without touching anything
    &&& (pre.idle() ==> r is Suspend && sup_eq(post, pre))
}

impl Supervisor {
    /// The supervisor's internal invariant: the cached self-sender is bound
    /// to the current context's mailbox.
    pub open spec fn wf(&self) -> bool {
        self.self_sender.chan == self.ctx.chan
    }

    /// Connectivity: at least one live producer handle exists on either
    /// mailbox.  Once false it can never become true again, and it drives
    /// termination.
    pub open spec fn connected_spec(&self) -> bool {
        self.unsync_rx.connected_spec() || self.sync_rx.connected_spec()
    }

    /// Nothing to do: both mailboxes are empty and the live context is
    /// neither waiting nor stopping nor holding pending internal work.
    pub open spec fn idle(&self) -> bool {
        &&& self.connected_spec()
        &&& self.ctx.alive
        &&& !self.ctx.waiting
        &&& !self.ctx.stop_requested
        &&& self.ctx.script@.len() == 0
        &&& self.unsync_rx.queue@.len() == 0
        &&& self.sync_rx.queue@.len() == 0
    }

    /// Start a new supervised actor on the calling thread.
    ///
    /// The same-thread sender for the context is derived before the actor
    /// exists, so the factory may capture its own future self-address.  Both
    /// mailboxes are created fresh, with one producer handle each: the two
    /// returned handles, already wired to the live mailboxes.  Construction
    /// cannot fail.  The supervisor is returned to the caller, which stands
    /// for the surrounding runtime and resumes it by calling [`Self::poll`].
    pub fn start<F: FnOnce(LocalHandle) -> Actor>(factory: F) -> (r: (
        Supervisor,
        LocalHandle,
        SyncHandle,
    ))
        requires
            call_requires(factory, (LocalHandle { chan: FIRST_CTX_CHAN },)),
        ensures
            call_ensures(factory, (LocalHandle { chan: FIRST_CTX_CHAN },), r.0.ctx.actor),
            r.0.wf(),
            r.0.ctx.alive,
            !r.0.ctx.waiting,
            !r.0.ctx.stop_requested,
            r.0.ctx.script@.len() == 0,
            r.0.ctx.chan == FIRST_CTX_CHAN,
            r.0.unsync_rx.id == UNSYNC_CHAN_ID,
            r.0.unsync_rx.queue@.len() == 0,
            r.0.unsync_rx.senders == 1,
            r.0.sync_rx.id == SYNC_CHAN_ID,
            r.0.sync_rx.queue@.len() == 0,
            r.0.sync_rx.senders == 1,
            r.0.upgrades@.len() == 0,
            r.0.next_chan == FIRST_FREE_CHAN,
            r.1.chan == UNSYNC_CHAN_ID,
            r.2.chan == SYNC_CHAN_ID,
    {
        // derive the context's own sender first, so the factory can capture
        // its future self-address; then build the actor and bind it
        let self_sender = LocalHandle { chan: FIRST_CTX_CHAN };
        let actor = factory(self_sender);
        let ctx = Context::new(FIRST_CTX_CHAN, actor);

        // fresh mailboxes: the consumer ends stay with the supervisor, the
        // single producer handle of each is exposed to the caller
        let unsync_rx = Mailbox::new(UNSYNC_CHAN_ID, 1);
        let sync_rx = Mailbox::new(SYNC_CHAN_ID, 1);

        let sup = Supervisor {
            ctx,
            self_sender,
            unsync_rx,
            sync_rx,
            upgrades: Vec::new(),
            next_chan: FIRST_FREE_CHAN,
        };
        (sup, LocalHandle { chan: UNSYNC_CHAN_ID }, SyncHandle { chan: SYNC_CHAN_ID })
    }

    /// Start a new supervised actor on another thread's scheduler, reached
    /// through `target`.
    ///
    /// The sync channel pair is created before dispatch, on the calling
    /// thread; the dispatched construction reuses its receiver and creates a
    /// local-only unsync channel whose sender is not exposed.  Connectivity
    /// of the target is probed before dispatch (failing fast with no handle
    /// and no dispatch) and re-probed after it: if the target disconnected in
    /// the interim, no handle is returned even though the construction may
    /// still have run — a best-effort check, and the abandoned sync sender
    /// leaves the remote supervisor disconnected.  The dispatched supervisor,
    /// when there is one, is returned so the caller can stand in for the
    /// remote scheduler and drive it.
    pub fn start_in<F: FnOnce(LocalHandle) -> Actor>(target: &ArbiterLink, factory: F) -> (r: (
        Option<SyncHandle>,
        Option<Supervisor>,
    ))
        requires
            call_requires(factory, (LocalHandle { chan: FIRST_CTX_CHAN },)),
        ensures
            r.1 is Some <==> target.up_before_dispatch,
            r.0 is Some <==> target.up_before_dispatch && target.up_after_dispatch,
            r.0 matches Some(h) ==> h.chan == SYNC_CHAN_ID,
            r.1 matches Some(sup) ==> {
                &&& sup.wf()
                &&& call_ensures(factory, (LocalHandle { chan: FIRST_CTX_CHAN },), sup.ctx.actor)
                &&& sup.ctx.alive
                &&& !sup.ctx.waiting
                &&& !sup.ctx.stop_requested
                &&& sup.ctx.script@.len() == 0
                &&& sup.ctx.chan == FIRST_CTX_CHAN
                &&& sup.unsync_rx.id == UNSYNC_CHAN_ID
                &&& sup.unsync_rx.queue@.len() == 0
                &&& sup.unsync_rx.senders == 0
                &&& sup.sync_rx.id == SYNC_CHAN_ID
                &&& sup.sync_rx.queue@.len() == 0
                &&& sup.sync_rx.senders == if target.up_after_dispatch {
                    1u64
                } else {
                    0u64
                }
                &&& sup.upgrades@.len() == 0
                &&& sup.next_chan == FIRST_FREE_CHAN
            },
    {
        if !target.up_before_dispatch {
            return (None, None);
        }

        // the sync pair exists before dispatch; its receiver moves into the
        // dispatched construction, its sender stays with the caller
        let sync_rx = Mailbox::new(SYNC_CHAN_ID, 1);

        // the dispatched construction: context, self-sender, actor, and a
        // local-only unsync channel with no exposed sender
        let self_sender = LocalHandle { chan: FIRST_CTX_CHAN };
        let actor = factory(self_sender);
        let ctx = Context::new(FIRST_CTX_CHAN, actor);
        let unsync_rx = Mailbox::new(UNSYNC_CHAN_ID, 0);
        let mut sup = Supervisor {
            ctx,
            self_sender,
            unsync_rx,
            sync_rx,
            upgrades: Vec::new(),
            next_chan: FIRST_FREE_CHAN,
        };

        // best-effort re-probe: on a disconnect since dispatch, the caller's
        // sync sender is dropped and no handle is reported
        if target.up_after_dispatch {
            (Some(SyncHandle { chan: SYNC_CHAN_ID }), Some(sup))
        } else {
            sup.sync_rx.drop_sender();
            (None, Some(sup))
        }
    }

    /// Reports whether any producer handle is still alive on either mailbox.
    pub fn connected(&self) -> (r: bool)
        ensures
            r == self.connected_spec(),
    {
        self.unsync_rx.connected() || self.sync_rx.connected()
    }

    /// Enqueue a protocol message through a live same-thread handle.
    pub fn send_local(&mut self, msg: Protocol)
        requires
            old(self).unsync_rx.senders >= 1,
        ensures
            final(self).unsync_rx.queue@ == old(self).unsync_rx.queue@.push(msg),
            final(self).unsync_rx.senders == old(self).unsync_rx.senders,
            final(self).unsync_rx.id == old(self).unsync_rx.id,
            mailbox_eq(final(self).sync_rx, old(self).sync_rx),
            context_eq(final(self).ctx, old(self).ctx),
            final(self).self_sender == old(self).self_sender,
            final(self).upgrades@ == old(self).upgrades@,
            final(self).next_chan == old(self).next_chan,
    {
        self.unsync_rx.push(msg);
    }

    /// Enqueue an envelope through a live cross-thread handle.
    pub fn send_remote(&mut self, env: Envelope)
        requires
            old(self).sync_rx.senders >= 1,
        ensures
            final(self).sync_rx.queue@ == old(self).sync_rx.queue@.push(env),
            final(self).sync_rx.senders == old(self).sync_rx.senders,
            final(self).sync_rx.id == old(self).sync_rx.id,
            mailbox_eq(final(self).unsync_rx, old(self).unsync_rx),
            context_eq(final(self).ctx, old(self).ctx),
            final(self).self_sender == old(self).self_sender,
            final(self).upgrades@ == old(self).upgrades@,
            final(self).next_chan == old(self).next_chan,
    {
        self.sync_rx.push(env);
    }

    /// Drop one same-thread producer handle.  Handles are never resurrected.
    pub fn drop_local_handle(&mut self)
        requires
            old(self).unsync_rx.senders >= 1,
        ensures
            final(self).unsync_rx.senders == old(self).unsync_rx.senders - 1,
            final(self).unsync_rx.queue@ == old(self).unsync_rx.queue@,
            final(self).unsync_rx.id == old(self).unsync_rx.id,
            mailbox_eq(final(self).sync_rx, old(self).sync_rx),
            context_eq(final(self).ctx, old(self).ctx),
            final(self).self_sender == old(self).self_sender,
            final(self).upgrades@ == old(self).upgrades@,
            final(self).next_chan == old(self).next_chan,
    {
        self.unsync_rx.drop_sender();
    }

    /// Drop one cross-thread producer handle.  Handles are never resurrected.
    pub fn drop_remote_handle(&mut self)
        requires
            old(self).sync_rx.senders >= 1,
        ensures
            final(self).sync_rx.senders == old(self).sync_rx.senders - 1,
            final(self).sync_rx.queue@ == old(self).sync_rx.queue@,
            final(self).sync_rx.id == old(self).sync_rx.id,
            mailbox_eq(final(self).unsync_rx, old(self).unsync_rx),
            context_eq(final(self).ctx, old(self).ctx),
            final(self).self_sender == old(self).self_sender,
            final(self).upgrades@ == old(self).upgrades@,
            final(self).next_chan == old(self).next_chan,
    {
        self.sync_rx.drop_sender();
    }

    /// Recreate the actor's execution context after a termination.
    ///
    /// A parentless context with a fresh channel identity replaces the old
    /// one wholesale; the actor instance is moved across, never rebuilt from
    /// its factory, so its state survives byte for byte.  The restart hook is
    /// then invoked on the actor through the new context, and the cached
    /// self-sender is refreshed.  Neither mailbox is touched: messages
    /// enqueued before the restart await the post-restart actor.
    pub fn restart(&mut self)
        requires
            old(self).wf(),
        ensures
            final(self).wf(),
            // the actor's identity survives: same applied log, one more
            // restart notification, never a fresh actor
            final(self).ctx.actor.applied@ == old(self).ctx.actor.applied@,
            final(self).ctx.actor.restarts == if old(self).ctx.actor.restarts < u64::MAX {
                old(self).ctx.actor.restarts + 1
            } else {
                old(self).ctx.actor.restarts as int
            },
            // the context itself is fresh: alive, nothing pending, new channel
            final(self).ctx.alive,
            !final(self).ctx.waiting,
            !final(self).ctx.stop_requested,
            final(self).ctx.script@.len() == 0,
            final(self).ctx.chan == old(self).next_chan,
            final(self).self_sender.chan == final(self).ctx.chan,
            // the mailboxes persist across the restart, queues untouched
            mailbox_eq(final(self).unsync_rx, old(self).unsync_rx),
            mailbox_eq(final(self).sync_rx, old(self).sync_rx),
            final(self).upgrades@ == old(self).upgrades@,
            final(self).next_chan == if old(self).next_chan < u64::MAX {
                old(self).next_chan + 1
            } else {
                old(self).next_chan as int
            },
    {
        // replace the context wholesale: every context-local field is reset
        // as by a parentless `Context::new`, and only the actor moves across
        self.ctx.chan = self.next_chan;
        self.ctx.alive = true;
        self.ctx.waiting = false;
        self.ctx.stop_requested = false;
        self.ctx.script = Vec::new();
        // notify the actor through the new context
        self.ctx.restarting();
        // refresh the self-sender so the actor's self-handle stays valid
        self.self_sender = LocalHandle { chan: self.ctx.chan };
        if self.next_chan < u64::MAX {
            self.next_chan = self.next_chan + 1;
        }
    }

    /// One resumption of the supervisor task: repeatedly drive the context
    /// and drain both mailboxes — same-thread strictly before cross-thread —
    /// restarting the context whenever execution terminates while a producer
    /// handle is still attached, until the task must suspend or, once every
    /// handle is gone and execution has terminated, complete for good.
    pub fn poll(&mut self) -> (r: Resumption)
        requires
            old(self).wf(),
            // minting one sync sender per queued upgrade must not overflow
            old(self).sync_rx.senders + old(self).unsync_rx.queue@.len() <= u64::MAX,
        ensures
            poll_rel(*old(self), *final(self), r),
    {
        let ghost pre = *self;
        proof {
            crate::msgs::lemma_upgrade_requests_len_le(pre.unsync_rx.queue@);
        }

        // No producer handle can ever come back, so a disconnected
        // supervisor will not see new work: ask the context to stop, drive
        // it to its terminal state, and complete.  Connectivity is monotone
        // within one resumption (nothing here drops a handle), so this is
        // checked once up front.
        if !self.connected() {
            self.ctx.request_stop();
            let _terminal = self.ctx.advance();
            return Resumption::Complete;
        }

        let ghost mut i: int = 0;
        let ghost mut j: int = 0;
        proof {
            assert(pre.unsync_rx.queue@.skip(0) =~= pre.unsync_rx.queue@);
            assert(pre.sync_rx.queue@.skip(0) =~= pre.sync_rx.queue@);
            assert(pre.unsync_rx.queue@.take(0) =~= Seq::<Protocol>::empty());
            assert(pre.sync_rx.queue@.take(0) =~= Seq::<Envelope>::empty());
            assert(pre.ctx.actor.applied@ + applied_ids(Seq::<Protocol>::empty())
                + envelope_ids(Seq::<Envelope>::empty()) =~= pre.ctx.actor.applied@);
            assert(pre.upgrades@ + upgrade_replies(
                upgrade_requests(Seq::<Protocol>::empty()),
                pre.sync_rx.id,
            ) =~= pre.upgrades@);
        }

        loop
            invariant
                pre == *old(self),
                self.wf(),
                pre.wf(),
                pre.connected_spec(),
                pre.sync_rx.senders + upgrade_requests(pre.unsync_rx.queue@).len() <= u64::MAX,
                drained_rel(pre, *self, i, j),
                no_wait_sources(pre) ==> {
                    &&& !self.ctx.waiting
                    &&& wait_free_script(self.ctx.script@)
                },
                no_halt_sources(pre) ==> {
                    &&& self.ctx.alive
                    &&& !self.ctx.stop_requested
                    &&& halt_free_script(self.ctx.script@)
                    &&& self.ctx.actor.restarts == pre.ctx.actor.restarts
                },
                pre.idle() ==> {
                    &&& i == 0
                    &&& j == 0
                    &&& context_eq(self.ctx, pre.ctx)
                    &&& self.self_sender == pre.self_sender
                    &&& self.next_chan == pre.next_chan
                },
            decreases
                self.unsync_rx.queue@.len() + self.sync_rx.queue@.len(),
                self.ctx.script@.len(),
                (if self.ctx.alive { 0int } else { 1int }) + (if self.ctx.stop_requested {
                    1int
                } else {
                    0int
                }),
        {
            let ghost iter_start = self.unsync_rx.queue@.len() + self.sync_rx.queue@.len();

            // drive the supervised actor by one step
            let outcome = self.ctx.advance();
            match outcome {
                Advance::Terminated => {
                    // still connected: recreate the context, keep the actor,
                    // and take the algorithm from the top
                    self.restart();
                    continue;
                },
                Advance::Running => {},
            }
            if self.ctx.is_waiting() {
                // the actor itself waits on an external event: yield without
                // touching either mailbox this cycle
                proof {
                    assert(drained_rel(pre, *self, i, j));
                }
                return Resumption::Suspend;
            }

            let mut progressed = false;
            let mut interrupted = false;

            // drain the same-thread mailbox eagerly: it has priority
            loop
                invariant_except_break
                    pre == *old(self),
                    self.wf(),
                    pre.wf(),
                    pre.connected_spec(),
                    pre.sync_rx.senders + upgrade_requests(pre.unsync_rx.queue@).len()
                        <= u64::MAX,
                    drained_rel(pre, *self, i, j),
                    self.ctx.alive,
                    !self.ctx.waiting,
                    !interrupted,
                    self.unsync_rx.queue@.len() + self.sync_rx.queue@.len() <= iter_start,
                    progressed ==> self.unsync_rx.queue@.len() + self.sync_rx.queue@.len()
                        < iter_start,
                    no_wait_sources(pre) ==> {
                        &&& !self.ctx.waiting
                        &&& wait_free_script(self.ctx.script@)
                    },
                    no_halt_sources(pre) ==> {
                        &&& self.ctx.alive
                        &&& !self.ctx.stop_requested
                        &&& halt_free_script(self.ctx.script@)
                        &&& self.ctx.actor.restarts == pre.ctx.actor.restarts
                    },
                    pre.idle() ==> {
                        &&& i == 0
                        &&& j == 0
                        &&& context_eq(self.ctx, pre.ctx)
                        &&& self.self_sender == pre.self_sender
                        &&& self.next_chan == pre.next_chan
                    },
                ensures
                    self.wf(),
                    drained_rel(pre, *self, i, j),
                    self.unsync_rx.queue@.len() + self.sync_rx.queue@.len() <= iter_start,
                    progressed ==> self.unsync_rx.queue@.len() + self.sync_rx.queue@.len()
                        < iter_start,
                    !interrupted ==> {
                        &&& self.ctx.alive
                        &&& !self.ctx.waiting
                        &&& self.unsync_rx.queue@.len() == 0
                    },
                    interrupted ==> {
                        &&& !self.ctx.alive
                        &&& self.unsync_rx.queue@.len() + self.sync_rx.queue@.len() < iter_start
                    },
                    no_wait_sources(pre) ==> {
                        &&& !self.ctx.waiting
                        &&& wait_free_script(self.ctx.script@)
                    },
                    no_halt_sources(pre) ==> {
                        &&& self.ctx.alive
                        &&& !self.ctx.stop_requested
                        &&& halt_free_script(self.ctx.script@)
                        &&& self.ctx.actor.restarts == pre.ctx.actor.restarts
                    },
                    pre.idle() ==> {
                        &&& i == 0
                        &&& j == 0
                        &&& context_eq(self.ctx, pre.ctx)
                        &&& self.self_sender == pre.self_sender
                        &&& self.next_chan == pre.next_chan
                    },
                decreases self.unsync_rx.queue@.len(),
            {
                let popped = self.unsync_rx.try_pop();
                let msg = match popped {
                    PopResult::Item(m) => m,
                    PopResult::Empty => {
                        break;
                    },
                    PopResult::Closed => {
                        break;
                    },
                };
                progressed = true;
                proof {
                    // the popped message is pre.unsync_rx.queue@[i], and the
                    // sync queue has not been touched yet this cycle
                    assert(pre.unsync_rx.queue@.skip(i).len() > 0);
                    assert(i < pre.unsync_rx.queue@.len());
                    assert(j == 0);
                    assert(pre.unsync_rx.queue@.skip(i)[0] == pre.unsync_rx.queue@[i]);
                    assert(pre.unsync_rx.queue@.skip(i).skip(1) =~= pre.unsync_rx.queue@.skip(
                        i + 1,
                    ));
                }
                match msg {
                    Protocol::Upgrade(request) => {
                        proof {
                            lemma_upgrade_requests_take_le(pre.unsync_rx.queue@, i + 1);
                            lemma_upgrade_requests_step(pre.unsync_rx.queue@, i);
                        }
                        // fulfill the one-shot reply with a fresh cross-thread
                        // handle sharing the supervisor's sync channel
                        self.sync_rx.derive_sender();
                        let handle = SyncHandle { chan: self.sync_rx.id };
                        self.upgrades.push(UpgradeReply { request, handle });
                        proof {
                            lemma_applied_ids_step(pre.unsync_rx.queue@, i);
                            lemma_upgrade_replies_step(
                                upgrade_requests(pre.unsync_rx.queue@.take(i)),
                                request,
                                pre.sync_rx.id,
                            );
                            i = i + 1;
                            assert(upgrade_requests(pre.unsync_rx.queue@.take(i))
                                =~= upgrade_requests(pre.unsync_rx.queue@.take(i - 1)).push(
                                request,
                            ));
                            assert(applied_ids(pre.unsync_rx.queue@.take(i)) =~= applied_ids(
                                pre.unsync_rx.queue@.take(i - 1),
                            ));
                            assert(drained_rel(pre, *self, i, j));
                        }
                    },
                    Protocol::Envelope(env) => {
                        self.ctx.apply(env);
                        proof {
                            lemma_applied_ids_step(pre.unsync_rx.queue@, i);
                            lemma_upgrade_requests_step(pre.unsync_rx.queue@, i);
                            i = i + 1;
                            assert(applied_ids(pre.unsync_rx.queue@.take(i)) =~= applied_ids(
                                pre.unsync_rx.queue@.take(i - 1),
                            ).push(env.id));
                            assert(upgrade_requests(pre.unsync_rx.queue@.take(i))
                                =~= upgrade_requests(pre.unsync_rx.queue@.take(i - 1)));
                            assert(self.ctx.actor.applied@ == pre.ctx.actor.applied@
                                + applied_ids(pre.unsync_rx.queue@.take(i)) + envelope_ids(
                                pre.sync_rx.queue@.take(j),
                            ));
                            assert(drained_rel(pre, *self, i, j));
                        }
                    },
                }
                if !self.ctx.is_alive() {
                    // mid-drain death: abandon this drain; the outer cycle
                    // will observe the termination and restart
                    interrupted = true;
                    break;
                }
                if self.ctx.is_waiting() {
                    // mid-drain wait: suspend the whole task; the remaining
                    // queued items await the next resumption
                    proof {
                        assert(drained_rel(pre, *self, i, j));
                    }
                    return Resumption::Suspend;
                }
            }

            if !interrupted {
                // drain the cross-thread mailbox with the identical per-item
                // checks, strictly after the same-thread mailbox
                loop
                    invariant_except_break
                        pre == *old(self),
                        self.wf(),
                        pre.wf(),
                        pre.connected_spec(),
                        pre.sync_rx.senders + upgrade_requests(pre.unsync_rx.queue@).len()
                            <= u64::MAX,
                        drained_rel(pre, *self, i, j),
                        !interrupted,
                        self.unsync_rx.queue@.len() == 0,
                        self.ctx.alive || self.unsync_rx.queue@.len()
                            + self.sync_rx.queue@.len() < iter_start,
                        self.unsync_rx.queue@.len() + self.sync_rx.queue@.len() <= iter_start,
                        progressed ==> self.unsync_rx.queue@.len() + self.sync_rx.queue@.len()
                            < iter_start,
                        no_wait_sources(pre) ==> {
                            &&& !self.ctx.waiting
                            &&& wait_free_script(self.ctx.script@)
                        },
                        no_halt_sources(pre) ==> {
                            &&& self.ctx.alive
                            &&& !self.ctx.stop_requested
                            &&& halt_free_script(self.ctx.script@)
                            &&& self.ctx.actor.restarts == pre.ctx.actor.restarts
                        },
                        pre.idle() ==> {
                            &&& i == 0
                            &&& j == 0
                            &&& context_eq(self.ctx, pre.ctx)
                            &&& self.self_sender == pre.self_sender
                            &&& self.next_chan == pre.next_chan
                        },
                    ensures
                        self.wf(),
                        drained_rel(pre, *self, i, j),
                        self.unsync_rx.queue@.len() == 0,
                        self.unsync_rx.queue@.len() + self.sync_rx.queue@.len() <= iter_start,
                        progressed ==> self.unsync_rx.queue@.len() + self.sync_rx.queue@.len()
                            < iter_start,
                        !interrupted ==> {
                            &&& self.ctx.alive
                            &&& !self.ctx.waiting
                            &&& self.sync_rx.queue@.len() == 0
                        },
                        interrupted ==> {
                            &&& !self.ctx.alive
                            &&& self.unsync_rx.queue@.len() + self.sync_rx.queue@.len()
                                < iter_start
                        },
                        no_wait_sources(pre) ==> {
                            &&& !self.ctx.waiting
                            &&& wait_free_script(self.ctx.script@)
                        },
                        no_halt_sources(pre) ==> {
                            &&& self.ctx.alive
                            &&& !self.ctx.stop_requested
                            &&& halt_free_script(self.ctx.script@)
                            &&& self.ctx.actor.restarts == pre.ctx.actor.restarts
                        },
                        pre.idle() ==> {
                            &&& i == 0
                            &&& j == 0
                            &&& context_eq(self.ctx, pre.ctx)
                            &&& self.self_sender == pre.self_sender
                            &&& self.next_chan == pre.next_chan
                        },
                    decreases self.sync_rx.queue@.len(),
                {
                    if !self.ctx.is_alive() {
                        interrupted = true;
                        break;
                    }
                    if self.ctx.is_waiting() {
                        proof {
                            assert(drained_rel(pre, *self, i, j));
                        }
                        return Resumption::Suspend;
                    }
                    let popped = self.sync_rx.try_pop();
                    let env = match popped {
                        PopResult::Item(e) => e,
                        PopResult::Empty => {
                            break;
                        },
                        PopResult::Closed => {
                            break;
                        },
                    };
                    progressed = true;
                    proof {
                        assert(pre.sync_rx.queue@.skip(j).len() > 0);
                        assert(j < pre.sync_rx.queue@.len());
                        assert(i == pre.unsync_rx.queue@.len());
                        assert(pre.sync_rx.queue@.skip(j)[0] == pre.sync_rx.queue@[j]);
                        assert(pre.sync_rx.queue@.skip(j).skip(1) =~= pre.sync_rx.queue@.skip(
                            j + 1,
                        ));
                    }
                    self.ctx.apply(env);
                    proof {
                        lemma_envelope_ids_step(pre.sync_rx.queue@, j);
                        j = j + 1;
                        assert(self.ctx.actor.applied@ == pre.ctx.actor.applied@ + applied_ids(
                            pre.unsync_rx.queue@.take(i),
                        ) + envelope_ids(pre.sync_rx.queue@.take(j)));
                        assert(drained_rel(pre, *self, i, j));
                    }
                }
            }

            if interrupted {
                // the context died mid-drain: the next advance observes the
                // termination and restarts
                continue;
            }
            if !progressed {
                // a whole cycle moved nothing and the context has nothing to
                // advance: nothing to do until new messages arrive
                proof {
                    assert(drained_rel(pre, *self, i, j));
                    if pre.idle() {
                        assert(pre.unsync_rx.queue@.skip(0) =~= pre.unsync_rx.queue@);
                        assert(pre.sync_rx.queue@.skip(0) =~= pre.sync_rx.queue@);
                        assert(pre.unsync_rx.queue@.take(0) =~= Seq::<Protocol>::empty());
                        assert(pre.sync_rx.queue@.take(0) =~= Seq::<Envelope>::empty());
                        assert(pre.ctx.actor.applied@ + applied_ids(Seq::<Protocol>::empty())
                            + envelope_ids(Seq::<Envelope>::empty()) =~= pre.ctx.actor.applied@);
                        assert(pre.upgrades@ + upgrade_replies(
                            upgrade_requests(Seq::<Protocol>::empty()),
                            pre.sync_rx.id,
                        ) =~= pre.upgrades@);
                        assert(sup_eq(*self, pre));
                    }
                }
                return Resumption::Suspend;
            }
            // new mailbox activity may have changed what the context is ready
            // to do: re-check context progress before draining again
        }
    }
}

/// A cross-thread link to another thread's control actor, as
/// [`Supervisor::start_in`] sees it: its connectivity is probed once before
/// the construction is dispatched and once after.  Disconnection is
/// irreversible, so a link that is up after dispatch was up before it.
pub struct ArbiterLink {
    /// What the connectivity probe before dispatch reports.
    pub up_before_dispatch: bool,
    /// What the connectivity probe after dispatch reports.
    pub up_after_dispatch: bool,
}

} // verus!
