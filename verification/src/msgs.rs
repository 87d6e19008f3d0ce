use vstd::prelude::*;

verus! {

/// What applying an envelope does to the execution context, beyond recording
/// the message on the actor.  An envelope is opaque work: it may leave the
/// context running, make the actor wait on an external event, or stop the
/// context outright.
#[derive(Clone, Copy, Debug, PartialEq, Eq)]
pub enum Effect {
    /// Plain work: the actor stays ready for more messages.
    Work,
    /// The actor starts waiting on an external event.
    Wait,
    /// The actor stops its own context while handling the message.
    Stop,
}

/// A type-erased unit of work, modeled by what the supervisor can observe of
/// it: the identity it records on the actor when applied, and its effect on
/// the context.  An envelope is consumed by exactly one application.
#[derive(Clone, Copy, Debug, PartialEq, Eq)]
pub struct Envelope {
    /// Identity of the message, recorded on the actor once when applied.
    pub id: u64,
    /// What the application does to the context.
    pub effect: Effect,
}

/// A same-thread producer handle, identified by the channel it feeds.
#[derive(Clone, Copy, Debug, PartialEq, Eq)]
pub struct LocalHandle {
    /// Identity of the channel this handle sends into.
    pub chan: u64,
}

/// A cross-thread producer handle, identified by the channel it feeds.
#[derive(Clone, Copy, Debug, PartialEq, Eq)]
pub struct SyncHandle {
    /// Identity of the channel this handle sends into.
    pub chan: u64,
}

/// A message on the same-thread mailbox.
#[derive(Clone, Copy, Debug, PartialEq, Eq)]
pub enum Protocol {
    /// An upgrade request: a one-shot reply slot, identified by a request id,
    /// expecting a cross-thread handle that shares the supervisor's sync
    /// channel.
    Upgrade(u64),
    /// An opaque unit of work to apply to the actor and its context.
    Envelope(Envelope),
}

/// The record of one fulfilled upgrade: which request was answered and the
/// cross-thread handle placed in its reply slot.
#[derive(Clone, Copy, Debug, PartialEq, Eq)]
pub struct UpgradeReply {
    /// The request id of the one-shot reply slot that was fulfilled.
    pub request: u64,
    /// The handle the slot was fulfilled with.
    pub handle: SyncHandle,
}

/// The ids that applying the given protocol messages, in order, records on
/// the actor: one per envelope, none for an upgrade.
pub open spec fn applied_ids(msgs: Seq<Protocol>) -> Seq<u64>
    decreases msgs.len(),
{
    if msgs.len() == 0 {
        Seq::empty()
    } else {
        applied_ids(msgs.drop_last()) + (match msgs.last() {
            Protocol::Envelope(e) => seq![e.id],
            Protocol::Upgrade(_) => Seq::empty(),
        })
    }
}

/// The request ids of the upgrade messages among the given protocol
/// messages, in order.
pub open spec fn upgrade_requests(msgs: Seq<Protocol>) -> Seq<u64>
    decreases msgs.len(),
{
    if msgs.len() == 0 {
        Seq::empty()
    } else {
        upgrade_requests(msgs.drop_last()) + (match msgs.last() {
            Protocol::Envelope(_) => Seq::empty(),
            Protocol::Upgrade(request) => seq![request],
        })
    }
}

/// The ids of a sequence of envelopes, in order.
pub open spec fn envelope_ids(envs: Seq<Envelope>) -> Seq<u64>
    decreases envs.len(),
{
    if envs.len() == 0 {
        Seq::empty()
    } else {
        envelope_ids(envs.drop_last()).push(envs.last().id)
    }
}

/// The replies that fulfilling the given upgrade requests produces, each
/// carrying a handle bound to the channel `chan`.
pub open spec fn upgrade_replies(requests: Seq<u64>, chan: u64) -> Seq<UpgradeReply>
    decreases requests.len(),
{
    if requests.len() == 0 {
        Seq::empty()
    } else {
        upgrade_replies(requests.drop_last(), chan).push(
            UpgradeReply { request: requests.last(), handle: SyncHandle { chan } },
        )
    }
}

/// Applied ids distribute over concatenation.
pub proof fn lemma_applied_ids_concat(a: Seq<Protocol>, b: Seq<Protocol>)
    ensures
        applied_ids(a + b) == applied_ids(a) + applied_ids(b),
    decreases b.len(),
{
    if b.len() == 0 {
        assert(a + b =~= a);
        assert(applied_ids(a) + applied_ids(b) =~= applied_ids(a));
    } else {
        lemma_applied_ids_concat(a, b.drop_last());
        assert((a + b).drop_last() =~= a + b.drop_last());
        assert(applied_ids(a + b) =~= applied_ids(a) + applied_ids(b));
    }
}

/// Upgrade requests distribute over concatenation.
pub proof fn lemma_upgrade_requests_concat(a: Seq<Protocol>, b: Seq<Protocol>)
    ensures
        upgrade_requests(a + b) == upgrade_requests(a) + upgrade_requests(b),
    decreases b.len(),
{
    if b.len() == 0 {
        assert(a + b =~= a);
        assert(upgrade_requests(a) + upgrade_requests(b) =~= upgrade_requests(a));
    } else {
        lemma_upgrade_requests_concat(a, b.drop_last());
        assert((a + b).drop_last() =~= a + b.drop_last());
        assert(upgrade_requests(a + b) =~= upgrade_requests(a) + upgrade_requests(b));
    }
}

/// Envelope ids distribute over concatenation.
pub proof fn lemma_envelope_ids_concat(a: Seq<Envelope>, b: Seq<Envelope>)
    ensures
        envelope_ids(a + b) == envelope_ids(a) + envelope_ids(b),
    decreases b.len(),
{
    if b.len() == 0 {
        assert(a + b =~= a);
        assert(envelope_ids(a) + envelope_ids(b) =~= envelope_ids(a));
    } else {
        lemma_envelope_ids_concat(a, b.drop_last());
        assert((a + b).drop_last() =~= a + b.drop_last());
        assert(envelope_ids(a + b) =~= envelope_ids(a) + envelope_ids(b));
    }
}

/// Extending a prefix of protocol messages by one message extends its applied
/// ids by that message's envelope id, if any.
pub proof fn lemma_applied_ids_step(q: Seq<Protocol>, i: int)
    requires
        0 <= i < q.len(),
    ensures
        applied_ids(q.take(i + 1)) == applied_ids(q.take(i)) + (match q[i] {
            Protocol::Envelope(e) => seq![e.id],
            Protocol::Upgrade(_) => Seq::<u64>::empty(),
        }),
{
    assert(q.take(i + 1).drop_last() =~= q.take(i));
    assert(q.take(i + 1).last() == q[i]);
}

/// Extending a prefix of protocol messages by one message extends its upgrade
/// requests by that message's request id, if any.
pub proof fn lemma_upgrade_requests_step(q: Seq<Protocol>, i: int)
    requires
        0 <= i < q.len(),
    ensures
        upgrade_requests(q.take(i + 1)) == upgrade_requests(q.take(i)) + (match q[i] {
            Protocol::Envelope(_) => Seq::<u64>::empty(),
            Protocol::Upgrade(request) => seq![request],
        }),
{
    assert(q.take(i + 1).drop_last() =~= q.take(i));
    assert(q.take(i + 1).last() == q[i]);
}

/// Extending a prefix of envelopes by one extends its ids by that envelope's id.
pub proof fn lemma_envelope_ids_step(q: Seq<Envelope>, j: int)
    requires
        0 <= j < q.len(),
    ensures
        envelope_ids(q.take(j + 1)) == envelope_ids(q.take(j)).push(q[j].id),
{
    assert(q.take(j + 1).drop_last() =~= q.take(j));
    assert(q.take(j + 1).last() == q[j]);
}

/// Fulfilling one more request appends one more reply.
pub proof fn lemma_upgrade_replies_step(requests: Seq<u64>, r: u64, chan: u64)
    ensures
        upgrade_replies(requests.push(r), chan) == upgrade_replies(requests, chan).push(
            UpgradeReply { request: r, handle: SyncHandle { chan } },
        ),
{
    assert(requests.push(r).drop_last() =~= requests);
    assert(requests.push(r).last() == r);
}

/// Every reply fulfilling a batch of requests carries a handle bound to the
/// same channel.
pub proof fn lemma_upgrade_replies_chan(requests: Seq<u64>, chan: u64)
    ensures
        forall|k: int|
            0 <= k < upgrade_replies(requests, chan).len()
                ==> (#[trigger] upgrade_replies(requests, chan)[k]).handle.chan == chan,
        upgrade_replies(requests, chan).len() == requests.len(),
    decreases requests.len(),
{
    if requests.len() > 0 {
        lemma_upgrade_replies_chan(requests.drop_last(), chan);
    }
}

/// A sequence holds no more upgrade requests than messages.
pub proof fn lemma_upgrade_requests_len_le(q: Seq<Protocol>)
    ensures
        upgrade_requests(q).len() <= q.len(),
    decreases q.len(),
{
    if q.len() > 0 {
        lemma_upgrade_requests_len_le(q.drop_last());
    }
}

/// A prefix never holds more upgrade requests than the whole sequence.
pub proof fn lemma_upgrade_requests_take_le(q: Seq<Protocol>, i: int)
    requires
        0 <= i <= q.len(),
    ensures
        upgrade_requests(q.take(i)).len() <= upgrade_requests(q).len(),
{
    assert(q.take(i) + q.skip(i) =~= q);
    lemma_upgrade_requests_concat(q.take(i), q.skip(i));
}

} // verus!
