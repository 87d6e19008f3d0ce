use vstd::prelude::*;

use crate::actor::actor_eq;
use crate::mailbox::mailbox_eq;
use crate::msgs::applied_ids;
use crate::msgs::envelope_ids;
use crate::msgs::lemma_applied_ids_concat;
use crate::msgs::lemma_envelope_ids_concat;
use crate::msgs::lemma_upgrade_replies_chan;
use crate::msgs::upgrade_requests;
use crate::msgs::upgrade_replies;
use crate::supervisor::Resumption;
use crate::supervisor::Supervisor;
use crate::supervisor::drained_rel;
use crate::supervisor::poll_rel;
use crate::supervisor::sup_eq;

verus! {

/// Drain priority: within one resumption, every consumed same-thread message
/// is applied or fulfilled before any consumed cross-thread message — the
/// actor's log grows by the same-thread envelope ids first, then the
/// cross-thread ones, and a cross-thread message is consumed only once the
/// same-thread queue has been consumed whole, whatever the two queue lengths.
pub proof fn lemma_drain_priority(pre: Supervisor, post: Supervisor, i: int, j: int)
    requires
        drained_rel(pre, post, i, j),
    ensures
        post.ctx.actor.applied@ == pre.ctx.actor.applied@
            + applied_ids(pre.unsync_rx.queue@.take(i)) + envelope_ids(
            pre.sync_rx.queue@.take(j),
        ),
        j > 0 ==> i == pre.unsync_rx.queue@.len(),
{
}

/// The mailboxes outlive the context: a resumption that leaves both queues
/// empty — however many restarts it performed along the way — has applied
/// every message that was enqueued, in enqueue order, once per channel, with
/// the whole same-thread queue before the whole cross-thread queue.
pub proof fn lemma_mailbox_survives_restart(pre: Supervisor, post: Supervisor, i: int, j: int)
    requires
        drained_rel(pre, post, i, j),
        post.unsync_rx.queue@.len() == 0,
        post.sync_rx.queue@.len() == 0,
    ensures
        post.ctx.actor.applied@ == pre.ctx.actor.applied@ + applied_ids(pre.unsync_rx.queue@)
            + envelope_ids(pre.sync_rx.queue@),
{
    assert(pre.unsync_rx.queue@.take(i) =~= pre.unsync_rx.queue@);
    assert(pre.sync_rx.queue@.take(j) =~= pre.sync_rx.queue@);
}

/// At-most-once application: when every message in flight is distinct — no id
/// appears twice across the actor's log and the two queues — a resumption,
/// restarts included, never applies any message twice: the log stays free of
/// duplicates, and so does the whole in-flight state, so the guarantee
/// carries over any number of further resumptions.
pub proof fn lemma_at_most_once(pre: Supervisor, post: Supervisor, r: Resumption)
    requires
        poll_rel(pre, post, r),
        (pre.ctx.actor.applied@ + applied_ids(pre.unsync_rx.queue@) + envelope_ids(
            pre.sync_rx.queue@,
        )).no_duplicates(),
    ensures
        post.ctx.actor.applied@.no_duplicates(),
        (post.ctx.actor.applied@ + applied_ids(post.unsync_rx.queue@) + envelope_ids(
            post.sync_rx.queue@,
        )).no_duplicates(),
{
    broadcast use vstd::multiset::group_multiset_axioms;

    let a = pre.ctx.actor.applied@;
    let u = pre.unsync_rx.queue@;
    let s = pre.sync_rx.queue@;
    let p = a + applied_ids(u) + envelope_ids(s);
    if !pre.connected_spec() {
        let q = post.ctx.actor.applied@ + applied_ids(post.unsync_rx.queue@) + envelope_ids(
            post.sync_rx.queue@,
        );
        assert(q =~= p);
        lemma_prefix_no_duplicates(post.ctx.actor.applied@, q);
    } else {
        let (i, j) = choose|i: int, j: int| drained_rel(pre, post, i, j);
        let b = applied_ids(u.take(i));
        let b2 = applied_ids(u.skip(i));
        let c = envelope_ids(s.take(j));
        let c2 = envelope_ids(s.skip(j));
        assert(u.take(i) + u.skip(i) =~= u);
        assert(s.take(j) + s.skip(j) =~= s);
        lemma_applied_ids_concat(u.take(i), u.skip(i));
        lemma_envelope_ids_concat(s.take(j), s.skip(j));
        let q = (a + b + c) + b2 + c2;
        assert(post.ctx.actor.applied@ + applied_ids(post.unsync_rx.queue@) + envelope_ids(
            post.sync_rx.queue@,
        ) == q);

        // both arrangements carry the same multiset of ids
        vstd::seq_lib::lemma_multiset_commutative(a, b + b2);
        vstd::seq_lib::lemma_multiset_commutative(a + (b + b2), c + c2);
        vstd::seq_lib::lemma_multiset_commutative(b, b2);
        vstd::seq_lib::lemma_multiset_commutative(c, c2);
        vstd::seq_lib::lemma_multiset_commutative(a, b);
        vstd::seq_lib::lemma_multiset_commutative(a + b, c);
        vstd::seq_lib::lemma_multiset_commutative(a + b + c, b2);
        vstd::seq_lib::lemma_multiset_commutative((a + b + c) + b2, c2);
        assert(p =~= a + (b + b2) + (c + c2));
        assert(p.to_multiset() =~= q.to_multiset());

        // no id occurs twice in the pre state, hence none does afterwards
        p.lemma_multiset_has_no_duplicates();
        assert forall|x: u64| q.to_multiset().contains(x) implies q.to_multiset().count(x)
            == 1 by {
            assert(p.to_multiset().contains(x));
        }
        q.lemma_multiset_has_no_duplicates_conv();
        lemma_prefix_no_duplicates(a + b + c, q);
    }
}

/// A sequence without duplicates has no duplicates in any prefix arrangement:
/// if `whole` extends `part` on the right, distinctness carries down.
proof fn lemma_prefix_no_duplicates(part: Seq<u64>, whole: Seq<u64>)
    requires
        whole.no_duplicates(),
        part.len() <= whole.len(),
        forall|k: int| 0 <= k < part.len() ==> part[k] == whole[k],
    ensures
        part.no_duplicates(),
{
}

/// Termination is final: a resumption of a supervisor whose producer handles
/// are all gone completes the task, performs no restart, applies nothing,
/// leaves both queues as they are — and leaves the supervisor disconnected
/// with a terminated context, so every later resumption can only do the same.
pub proof fn lemma_termination_is_final(pre: Supervisor, post: Supervisor, r: Resumption)
    requires
        poll_rel(pre, post, r),
        !pre.connected_spec(),
    ensures
        r is Complete,
        actor_eq(post.ctx.actor, pre.ctx.actor),
        mailbox_eq(post.unsync_rx, pre.unsync_rx),
        mailbox_eq(post.sync_rx, pre.sync_rx),
        post.upgrades@ == pre.upgrades@,
        !post.ctx.alive,
        !post.connected_spec(),
{
}

/// Upgrade handle sharing: every upgrade reply fulfilled during a resumption
/// carries a cross-thread handle bound to the supervisor's own sync channel,
/// which the resumption does not replace — sending through the new handle
/// reaches the same supervisor.
pub proof fn lemma_upgrade_handle_sharing(pre: Supervisor, post: Supervisor, i: int, j: int)
    requires
        drained_rel(pre, post, i, j),
    ensures
        post.sync_rx.id == pre.sync_rx.id,
        forall|k: int|
            pre.upgrades@.len() <= k < post.upgrades@.len()
                ==> (#[trigger] post.upgrades@[k]).handle.chan == post.sync_rx.id,
{
    let replies = upgrade_replies(upgrade_requests(pre.unsync_rx.queue@.take(i)), pre.sync_rx.id);
    lemma_upgrade_replies_chan(upgrade_requests(pre.unsync_rx.queue@.take(i)), pre.sync_rx.id);
    assert forall|k: int|
        pre.upgrades@.len() <= k < post.upgrades@.len() implies (#[trigger] post.upgrades@[k]).handle.chan
        == post.sync_rx.id by {
        assert(post.upgrades@[k] == replies[k - pre.upgrades@.len()]);
    }
}

/// Idle suspension: with both mailboxes empty and a live context that is
/// neither waiting nor stopping nor holding internal work, a resumption
/// drains nothing, restarts nothing, changes nothing, and suspends — it never
/// completes the task.
pub proof fn lemma_idle_suspension(pre: Supervisor, post: Supervisor, r: Resumption)
    requires
        poll_rel(pre, post, r),
        pre.idle(),
    ensures
        r is Suspend,
        sup_eq(post, pre),
        post.ctx.alive,
        post.ctx.actor.restarts == pre.ctx.actor.restarts,
{
}

} // verus!
