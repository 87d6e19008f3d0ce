use supervision::actor::Actor;
use supervision::context::Step;
use supervision::msgs::Effect;
use supervision::msgs::Envelope;
use supervision::msgs::Protocol;
use supervision::supervisor::ArbiterLink;
use supervision::supervisor::Resumption;
use supervision::supervisor::Supervisor;
use supervision::supervisor::FIRST_CTX_CHAN;
use supervision::supervisor::FIRST_FREE_CHAN;
use supervision::supervisor::SYNC_CHAN_ID;
use supervision::supervisor::UNSYNC_CHAN_ID;

fn fresh() -> Supervisor {
    let (sup, local, remote) = Supervisor::start(|_h| Actor::new());
    assert_eq!(local.chan, UNSYNC_CHAN_ID);
    assert_eq!(remote.chan, SYNC_CHAN_ID);
    sup
}

fn work(id: u64) -> Envelope {
    Envelope { id, effect: Effect::Work }
}

#[test]
fn start_wires_everything() {
    let sup = fresh();
    assert_eq!(sup.ctx.chan, FIRST_CTX_CHAN);
    assert_eq!(sup.self_sender.chan, FIRST_CTX_CHAN);
    assert!(sup.ctx.alive);
    assert!(!sup.ctx.waiting);
    assert!(!sup.ctx.stop_requested);
    assert_eq!(sup.unsync_rx.id, UNSYNC_CHAN_ID);
    assert_eq!(sup.unsync_rx.senders, 1);
    assert!(sup.unsync_rx.queue.is_empty());
    assert_eq!(sup.sync_rx.id, SYNC_CHAN_ID);
    assert_eq!(sup.sync_rx.senders, 1);
    assert!(sup.sync_rx.queue.is_empty());
    assert!(sup.ctx.actor.applied.is_empty());
    assert_eq!(sup.ctx.actor.restarts, 0);
    assert!(sup.connected());
}

#[test]
fn start_factory_sees_self_address() {
    // the factory runs before the actor exists but may capture the future
    // self-address of its context
    let (sup, _, _) = Supervisor::start(|h| {
        let mut a = Actor::new();
        a.applied.push(h.chan);
        a
    });
    assert_eq!(sup.ctx.actor.applied, vec![FIRST_CTX_CHAN]);
}

#[test]
fn restart_preserves_identity() {
    let mut sup = fresh();
    sup.send_local(Protocol::Envelope(work(1)));
    sup.send_local(Protocol::Envelope(work(2)));
    assert_eq!(sup.poll(), Resumption::Suspend);
    assert_eq!(sup.ctx.actor.applied, vec![1, 2]);

    // force a termination on the next advance, then resume
    sup.ctx.push_step(Step::Halt);
    assert_eq!(sup.poll(), Resumption::Suspend);

    // the mutated state survived: the reset hook ran, the factory did not
    assert_eq!(sup.ctx.actor.applied, vec![1, 2]);
    assert_eq!(sup.ctx.actor.restarts, 1);
    // the context itself is fresh, with the self-sender refreshed to it
    assert_eq!(sup.ctx.chan, FIRST_FREE_CHAN);
    assert_eq!(sup.self_sender.chan, sup.ctx.chan);
    assert!(sup.ctx.alive);
}

#[test]
fn mailbox_survives_restart() {
    let mut sup = fresh();
    // termination is already pending when the messages arrive
    sup.ctx.push_step(Step::Halt);
    sup.send_local(Protocol::Envelope(work(1)));
    sup.send_local(Protocol::Envelope(work(2)));
    sup.send_remote(work(10));
    assert_eq!(sup.poll(), Resumption::Suspend);
    // the restart happened, and every message enqueued before it was applied
    // to the post-restart actor, in order, once per channel
    assert_eq!(sup.ctx.actor.restarts, 1);
    assert_eq!(sup.ctx.actor.applied, vec![1, 2, 10]);
    assert!(sup.unsync_rx.queue.is_empty());
    assert!(sup.sync_rx.queue.is_empty());
}

#[test]
fn drain_priority_local_first() {
    let mut sup = fresh();
    // interleave the sends; the same-thread ones must still win
    sup.send_remote(work(10));
    sup.send_local(Protocol::Envelope(work(1)));
    sup.send_remote(work(11));
    sup.send_local(Protocol::Envelope(work(2)));
    assert_eq!(sup.poll(), Resumption::Suspend);
    assert_eq!(sup.ctx.actor.applied, vec![1, 2, 10, 11]);
}

#[test]
fn drain_priority_zero_local() {
    let mut sup = fresh();
    sup.send_remote(work(10));
    sup.send_remote(work(11));
    assert_eq!(sup.poll(), Resumption::Suspend);
    assert_eq!(sup.ctx.actor.applied, vec![10, 11]);
}

#[test]
fn drain_priority_zero_remote() {
    let mut sup = fresh();
    sup.send_local(Protocol::Envelope(work(1)));
    assert_eq!(sup.poll(), Resumption::Suspend);
    assert_eq!(sup.ctx.actor.applied, vec![1]);
}

#[test]
fn at_most_once_across_mid_drain_restart() {
    let mut sup = fresh();
    sup.send_local(Protocol::Envelope(work(1)));
    // this one stops the context while it is being handled
    sup.send_local(Protocol::Envelope(Envelope { id: 2, effect: Effect::Stop }));
    sup.send_local(Protocol::Envelope(work(3)));
    sup.send_remote(work(10));
    assert_eq!(sup.poll(), Resumption::Suspend);
    // the mid-drain death triggered a restart, after which the rest of the
    // queues was delivered; nothing was applied twice, nothing was dropped
    assert_eq!(sup.ctx.actor.applied, vec![1, 2, 3, 10]);
    assert_eq!(sup.ctx.actor.restarts, 1);
    assert!(sup.unsync_rx.queue.is_empty());
    assert!(sup.sync_rx.queue.is_empty());
}

#[test]
fn termination_is_final() {
    let mut sup = fresh();
    // drop both handle kinds, then let the context terminate on its next
    // advance
    sup.drop_local_handle();
    sup.drop_remote_handle();
    assert!(!sup.connected());
    sup.ctx.push_step(Step::Halt);
    assert_eq!(sup.poll(), Resumption::Complete);
    assert!(!sup.ctx.alive);
    // no restart ever happened, and none will
    assert_eq!(sup.ctx.actor.restarts, 0);
    assert_eq!(sup.poll(), Resumption::Complete);
    assert_eq!(sup.ctx.actor.restarts, 0);
}

#[test]
fn disconnect_leaves_queues_untouched() {
    let mut sup = fresh();
    sup.send_local(Protocol::Envelope(work(1)));
    sup.send_remote(work(10));
    sup.drop_local_handle();
    sup.drop_remote_handle();
    assert_eq!(sup.poll(), Resumption::Complete);
    // nothing was applied and nothing was lost: the task just completed
    assert!(sup.ctx.actor.applied.is_empty());
    assert_eq!(sup.unsync_rx.queue.len(), 1);
    assert_eq!(sup.sync_rx.queue.len(), 1);
}

#[test]
fn upgrade_shares_sync_channel() {
    let mut sup = fresh();
    sup.send_local(Protocol::Upgrade(42));
    sup.send_local(Protocol::Upgrade(43));
    assert_eq!(sup.poll(), Resumption::Suspend);
    // both reply slots were fulfilled, in order, each with a handle sharing
    // the supervisor's own sync channel, and each minted one sync sender
    assert_eq!(sup.upgrades.len(), 2);
    assert_eq!(sup.upgrades[0].request, 42);
    assert_eq!(sup.upgrades[1].request, 43);
    assert_eq!(sup.upgrades[0].handle.chan, sup.sync_rx.id);
    assert_eq!(sup.upgrades[1].handle.chan, sup.sync_rx.id);
    assert_eq!(sup.sync_rx.senders, 3);

    // sending through the minted handle reaches this same supervisor
    sup.send_remote(work(5));
    assert_eq!(sup.poll(), Resumption::Suspend);
    assert_eq!(sup.ctx.actor.applied, vec![5]);
}

#[test]
fn idle_suspension() {
    let mut sup = fresh();
    assert_eq!(sup.poll(), Resumption::Suspend);
    // nothing was drained, nothing restarted, nothing changed
    assert!(sup.ctx.alive);
    assert!(!sup.ctx.waiting);
    assert_eq!(sup.ctx.actor.restarts, 0);
    assert!(sup.ctx.actor.applied.is_empty());
    assert_eq!(sup.ctx.chan, FIRST_CTX_CHAN);
    assert_eq!(sup.poll(), Resumption::Suspend);
}

#[test]
fn waiting_actor_suspends_without_draining() {
    let mut sup = fresh();
    sup.ctx.push_step(Step::Progress { waiting: true });
    sup.send_local(Protocol::Envelope(work(1)));
    assert_eq!(sup.poll(), Resumption::Suspend);
    // the context reported waiting, so neither mailbox was touched this cycle
    assert!(sup.ctx.waiting);
    assert!(sup.ctx.actor.applied.is_empty());
    assert_eq!(sup.unsync_rx.queue.len(), 1);
}

#[test]
fn mid_drain_wait_preserves_remaining_queue() {
    let mut sup = fresh();
    sup.send_local(Protocol::Envelope(Envelope { id: 1, effect: Effect::Wait }));
    sup.send_local(Protocol::Envelope(work(2)));
    assert_eq!(sup.poll(), Resumption::Suspend);
    // the first message put the actor into a wait; the second stays queued
    assert_eq!(sup.ctx.actor.applied, vec![1]);
    assert_eq!(sup.unsync_rx.queue.len(), 1);

    // once the internal wait resolves, the next resumption delivers the rest
    sup.ctx.push_step(Step::Progress { waiting: false });
    assert_eq!(sup.poll(), Resumption::Suspend);
    assert_eq!(sup.ctx.actor.applied, vec![1, 2]);
    assert!(sup.unsync_rx.queue.is_empty());
}

#[test]
fn graceful_stop_while_connected_restarts() {
    let mut sup = fresh();
    sup.ctx.request_stop();
    assert_eq!(sup.poll(), Resumption::Suspend);
    // clients are still attached, so the stop became a restart
    assert_eq!(sup.ctx.actor.restarts, 1);
    assert!(sup.ctx.alive);
    assert!(!sup.ctx.stop_requested);
}

#[test]
fn connectivity_needs_only_one_side() {
    let mut sup = fresh();
    sup.drop_local_handle();
    assert!(sup.connected());
    sup.drop_remote_handle();
    assert!(!sup.connected());
}

#[test]
fn start_in_unreachable_target() {
    let target = ArbiterLink { up_before_dispatch: false, up_after_dispatch: false };
    let (handle, sup) = Supervisor::start_in(&target, |_h| Actor::new());
    assert!(handle.is_none());
    assert!(sup.is_none());
}

#[test]
fn start_in_reachable_target() {
    let target = ArbiterLink { up_before_dispatch: true, up_after_dispatch: true };
    let (handle, sup) = Supervisor::start_in(&target, |_h| Actor::new());
    let handle = handle.expect("a handle");
    let mut sup = sup.expect("a supervisor");
    assert_eq!(handle.chan, SYNC_CHAN_ID);
    // the local-only unsync channel has no exposed sender; the caller's sync
    // handle is the one live producer
    assert_eq!(sup.unsync_rx.senders, 0);
    assert_eq!(sup.sync_rx.senders, 1);
    assert!(sup.connected());
    sup.send_remote(work(10));
    assert_eq!(sup.poll(), Resumption::Suspend);
    assert_eq!(sup.ctx.actor.applied, vec![10]);
}

#[test]
fn start_in_interim_disconnect() {
    let target = ArbiterLink { up_before_dispatch: true, up_after_dispatch: false };
    let (handle, sup) = Supervisor::start_in(&target, |_h| Actor::new());
    // best effort: the construction was dispatched, but no handle is
    // reported and the abandoned sync sender leaves it disconnected
    assert!(handle.is_none());
    let mut sup = sup.expect("a supervisor");
    assert!(!sup.connected());
    assert_eq!(sup.poll(), Resumption::Complete);
}

#[test]
fn upgrades_and_envelopes_keep_channel_order() {
    let mut sup = fresh();
    sup.send_local(Protocol::Upgrade(1));
    sup.send_local(Protocol::Envelope(work(7)));
    sup.send_local(Protocol::Upgrade(2));
    assert_eq!(sup.poll(), Resumption::Suspend);
    assert_eq!(sup.ctx.actor.applied, vec![7]);
    assert_eq!(sup.upgrades.len(), 2);
    assert_eq!(sup.upgrades[0].request, 1);
    assert_eq!(sup.upgrades[1].request, 2);
}

#[test]
fn repeated_restarts_allocate_fresh_contexts() {
    let mut sup = fresh();
    sup.send_local(Protocol::Envelope(work(1)));
    assert_eq!(sup.poll(), Resumption::Suspend);
    for round in 0..3u64 {
        sup.ctx.push_step(Step::Halt);
        assert_eq!(sup.poll(), Resumption::Suspend);
        assert_eq!(sup.ctx.actor.restarts, round + 1);
        assert_eq!(sup.ctx.chan, FIRST_FREE_CHAN + round);
        assert_eq!(sup.self_sender.chan, sup.ctx.chan);
        // the actor itself was never rebuilt
        assert_eq!(sup.ctx.actor.applied, vec![1]);
    }
}
