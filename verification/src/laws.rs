//! The coordinator's guarantees, stated over the model machine and
//! proved: what a reader of one command's spec cannot see — how commands
//! compose in the coordinator's serial order — is written down here.
use vstd::prelude::*;
use crate::types::{CommandModel, DeliveryModel, OutcomeModel, StoreError, WaiterId};
use crate::model::{Model, coordinator_step, model_step, notified_all, step_explained};
use crate::waiters::{waiters_of, waiters_wf};

verus! {

/// The coordinator's central invariant, kept by every step: a key has a
/// table entry exactly as long as at least one waiter is pending on it,
/// and only keys the store does not yet hold have entries.
pub open spec fn model_wf(m: Model) -> bool {
    waiters_wf(m.waiters) && (forall|k: Seq<u8>| #[trigger]
        m.waiters.contains_key(k) ==> !m.store.contains_key(k))
}

/// Every command preserves the central invariant.
pub proof fn lemma_step_preserves_wf(m: Model, c: CommandModel)
    requires
        model_wf(m),
    ensures
        model_wf(model_step(m, c).0),
{
    let m1 = model_step(m, c).0;
    assert forall|k: Seq<u8>| #[trigger] m1.waiters.contains_key(k) implies m1.waiters[k].len() > 0
        && !m1.store.contains_key(k) by {
        match c {
            CommandModel::Write { key, .. } => {
                assert(m.waiters.contains_key(k));
            },
            CommandModel::Read { .. } => {},
            CommandModel::NotifyRead { key, reply } => {
                if !m.store.contains_key(key) && k == key {
                    assert(m1.waiters[k] == waiters_of(m.waiters, key).push(reply));
                } else {
                    assert(m.waiters.contains_key(k));
                }
            },
        }
    }
}

/// A write followed, in the coordinator's intake order, by a read of the
/// same key observes the written value, and the read changes nothing.
pub proof fn lemma_write_then_read(m: Model, k: Seq<u8>, v: Seq<u8>, reply: WaiterId)
    ensures
        ({
            let m1 = model_step(m, CommandModel::Write { key: k, value: v }).0;
            let stepped = model_step(m1, CommandModel::Read { key: k, reply });
            stepped.1 == seq![DeliveryModel::ReadOk(reply, Some(v))] && stepped.0 == m1
        }),
{
}

/// A read of a key the store does not hold is answered immediately with
/// `None`: no error, no waiter registered, nothing changed.
pub proof fn lemma_read_before_write(m: Model, k: Seq<u8>, reply: WaiterId)
    requires
        !m.store.contains_key(k),
    ensures
        model_step(m, CommandModel::Read { key: k, reply }).1 == seq![
            DeliveryModel::ReadOk(reply, None::<Seq<u8>>),
        ],
        model_step(m, CommandModel::Read { key: k, reply }).0 == m,
{
}

/// Only a write of key `k` can make `k` present: any other command
/// leaves a never-written key absent, so a read of it keeps returning
/// `None` until the first write of it.
pub proof fn lemma_absent_until_written(m: Model, c: CommandModel, k: Seq<u8>)
    requires
        !m.store.contains_key(k),
        match c {
            CommandModel::Write { key, .. } => key != k,
            _ => true,
        },
    ensures
        !model_step(m, c).0.store.contains_key(k),
{
}

/// A notified read of an absent key answers nothing yet and registers its
/// reply channel; the next write of that key resolves it with the written
/// value, after the waiters already pending, in order.
pub proof fn lemma_await_resolves_on_write(m: Model, k: Seq<u8>, v: Seq<u8>, w: WaiterId)
    requires
        !m.store.contains_key(k),
    ensures
        ({
            let first = model_step(m, CommandModel::NotifyRead { key: k, reply: w });
            let second = model_step(first.0, CommandModel::Write { key: k, value: v });
            first.1 == Seq::<DeliveryModel>::empty() && second.1 == notified_all(
                waiters_of(m.waiters, k).push(w),
                v,
            ) && second.1.last() == DeliveryModel::Notified(w, v)
        }),
{
    let m1 = model_step(m, CommandModel::NotifyRead { key: k, reply: w }).0;
    let pending = waiters_of(m.waiters, k).push(w);
    assert(waiters_of(m1.waiters, k) == pending);
    let ds = model_step(m1, CommandModel::Write { key: k, value: v }).1;
    assert(ds == notified_all(pending, v));
    assert(ds.last() == DeliveryModel::Notified(pending.last(), v));
}

/// The model after notified reads for `ws`, in order, on key `k`.
pub open spec fn register_all(m: Model, k: Seq<u8>, ws: Seq<WaiterId>) -> Model
    decreases ws.len(),
{
    if ws.len() == 0 {
        m
    } else {
        register_all(
            model_step(m, CommandModel::NotifyRead { key: k, reply: ws[0] }).0,
            k,
            ws.subrange(1, ws.len() as int),
        )
    }
}

/// Notified reads of an absent key, in order, append their reply channels
/// to the key's entry in that order, touch no other key's entry, and do
/// not change the store.
pub proof fn lemma_register_all(m: Model, k: Seq<u8>, ws: Seq<WaiterId>)
    requires
        !m.store.contains_key(k),
    ensures
        register_all(m, k, ws).store == m.store,
        waiters_of(register_all(m, k, ws).waiters, k) == waiters_of(m.waiters, k) + ws,
        forall|q: Seq<u8>|
            q != k ==> waiters_of(register_all(m, k, ws).waiters, q) == waiters_of(m.waiters, q),
    decreases ws.len(),
{
    if ws.len() == 0 {
        assert(waiters_of(m.waiters, k) + ws =~= waiters_of(m.waiters, k));
    } else {
        let m1 = model_step(m, CommandModel::NotifyRead { key: k, reply: ws[0] }).0;
        assert(waiters_of(m1.waiters, k) == waiters_of(m.waiters, k).push(ws[0]));
        let rest = ws.subrange(1, ws.len() as int);
        lemma_register_all(m1, k, rest);
        assert(waiters_of(m.waiters, k).push(ws[0]) + rest =~= waiters_of(m.waiters, k) + ws);
        assert forall|q: Seq<u8>| q != k implies waiters_of(register_all(m, k, ws).waiters, q)
            == waiters_of(m.waiters, q) by {
            assert(waiters_of(register_all(m1, k, rest).waiters, q) == waiters_of(m1.waiters, q));
            assert(waiters_of(m1.waiters, q) == waiters_of(m.waiters, q));
        }
    }
}

/// FIFO fairness: waiters registered while the key was absent are all
/// resolved by the next write of the key, each with the written value,
/// their completion order matching their submission order, after any
/// waiters that were already pending.
pub proof fn lemma_fifo_fairness(m: Model, k: Seq<u8>, ws: Seq<WaiterId>, v: Seq<u8>)
    requires
        !m.store.contains_key(k),
    ensures
        ({
            let prior = waiters_of(m.waiters, k);
            let ds = model_step(register_all(m, k, ws), CommandModel::Write { key: k, value: v }).1;
            ds == notified_all(prior + ws, v) && (forall|i: int|
                0 <= i < ws.len() ==> ds[prior.len() + i] == DeliveryModel::Notified(ws[i], v))
        }),
{
    lemma_register_all(m, k, ws);
    let prior = waiters_of(m.waiters, k);
    let m1 = register_all(m, k, ws);
    let ds = model_step(m1, CommandModel::Write { key: k, value: v }).1;
    assert(ds == notified_all(prior + ws, v));
    assert forall|i: int| 0 <= i < ws.len() implies ds[prior.len() + i]
        == DeliveryModel::Notified(ws[i], v) by {
        assert((prior + ws)[prior.len() + i] == ws[i]);
    }
}

/// No cross-key leakage: a write of one key leaves the waiters of every
/// other key pending and untouched, and each of its deliveries resolves a
/// waiter of the written key.
pub proof fn lemma_no_cross_key(m: Model, k1: Seq<u8>, v: Seq<u8>, k2: Seq<u8>)
    requires
        k2 != k1,
    ensures
        ({
            let stepped = model_step(m, CommandModel::Write { key: k1, value: v });
            waiters_of(stepped.0.waiters, k2) == waiters_of(m.waiters, k2) && stepped.1
                == notified_all(waiters_of(m.waiters, k1), v)
        }),
{
}

/// Re-writing a key overwrites it: a read after both writes observes the
/// second value.
pub proof fn lemma_rewrite_then_read(m: Model, k: Seq<u8>, v1: Seq<u8>, v2: Seq<u8>, reply:
    WaiterId)
    ensures
        ({
            let m1 = model_step(m, CommandModel::Write { key: k, value: v1 }).0;
            let m2 = model_step(m1, CommandModel::Write { key: k, value: v2 }).0;
            model_step(m2, CommandModel::Read { key: k, reply }).1 == seq![
                DeliveryModel::ReadOk(reply, Some(v2)),
            ]
        }),
{
}

/// Every read is answered at once: whatever the engine reported, one
/// step on a `Read` puts out exactly one delivery, addressed to the
/// requester — the lookup's result, or the read error — and changes
/// nothing.
pub proof fn lemma_read_always_answered(
    pre: Model,
    key: Seq<u8>,
    reply: WaiterId,
    post: Model,
    ds: Seq<DeliveryModel>,
)
    requires
        coordinator_step(pre, CommandModel::Read { key, reply }, post, ds),
    ensures
        ds.len() == 1,
        ds[0] == DeliveryModel::ReadOk(reply, crate::model::lookup(pre.store, key)) || ds[0]
            == DeliveryModel::ReadErr(reply, StoreError::ReadFailed),
        post == pre,
{
    let cmd = CommandModel::Read { key, reply };
    let out = choose|out: OutcomeModel| step_explained(pre, cmd, post, ds, out);
}

/// A notified read never reports "not found": one step on it either
/// answers the requester at once — with the value the key holds, or the
/// read error — or, exactly when the key is absent, registers the
/// requester as the key's newest waiter and answers nothing yet.
pub proof fn lemma_notify_read_answered_or_registered(
    pre: Model,
    key: Seq<u8>,
    reply: WaiterId,
    post: Model,
    ds: Seq<DeliveryModel>,
)
    requires
        coordinator_step(pre, CommandModel::NotifyRead { key, reply }, post, ds),
    ensures
        post.store == pre.store,
        (pre.store.contains_key(key) && ds == seq![
            DeliveryModel::Notified(reply, pre.store[key]),
        ] && post.waiters == pre.waiters) || (ds == seq![
            DeliveryModel::NotifyErr(reply, StoreError::ReadFailed),
        ] && post.waiters == pre.waiters) || (!pre.store.contains_key(key) && ds == Seq::<
            DeliveryModel,
        >::empty() && post.waiters == pre.waiters.insert(
            key,
            waiters_of(pre.waiters, key).push(reply),
        )),
{
    let cmd = CommandModel::NotifyRead { key, reply };
    let out = choose|out: OutcomeModel| step_explained(pre, cmd, post, ds, out);
}

/// A write resolves exactly the waiters pending on its key: one step on a
/// `Write` either stores the value, removes the key's entry and notifies
/// each of its waiters in order, or — when the put failed — changes
/// nothing and leaves every waiter pending.
pub proof fn lemma_write_resolves_exactly_pending(
    pre: Model,
    key: Seq<u8>,
    value: Seq<u8>,
    post: Model,
    ds: Seq<DeliveryModel>,
)
    requires
        coordinator_step(pre, CommandModel::Write { key, value }, post, ds),
    ensures
        (post.store == pre.store.insert(key, value) && post.waiters == pre.waiters.remove(key)
            && ds == notified_all(waiters_of(pre.waiters, key), value)) || (post == pre && ds
            == Seq::<DeliveryModel>::empty()),
{
    let cmd = CommandModel::Write { key, value };
    let out = choose|out: OutcomeModel| step_explained(pre, cmd, post, ds, out);
}

/// No stale resolution: once a key holds a value, a notified read of it
/// between two writes is answered immediately with the value then
/// current, and registers nothing for a later write to resolve.
pub proof fn lemma_no_stale_resolution(m: Model, k: Seq<u8>, v1: Seq<u8>, w: WaiterId)
    ensures
        ({
            let m1 = model_step(m, CommandModel::Write { key: k, value: v1 }).0;
            let stepped = model_step(m1, CommandModel::NotifyRead { key: k, reply: w });
            stepped.1 == seq![DeliveryModel::Notified(w, v1)] && stepped.0 == m1
        }),
{
}

} // verus!
