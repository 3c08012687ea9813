//! The mathematical model of the coordinator: its state is the store's
//! contents together with the waiter table, and each command steps it,
//! putting out the replies owed for that command.
use vstd::prelude::*;
use crate::types::{CommandModel, DeliveryModel, OutcomeModel, StoreError, WaiterId};
use crate::waiters::waiters_of;

verus! {

/// The coordinator's whole state: the engine's contents and the pending
/// waiters, both keyed by byte strings.
pub struct Model {
    pub store: Map<Seq<u8>, Seq<u8>>,
    pub waiters: Map<Seq<u8>, Seq<WaiterId>>,
}

/// A point lookup against store contents.
pub open spec fn lookup(store: Map<Seq<u8>, Seq<u8>>, k: Seq<u8>) -> Option<Seq<u8>> {
    if store.contains_key(k) {
        Some(store[k])
    } else {
        None
    }
}

/// One resolution per waiter, each carrying the written value, in the
/// waiters' order.
pub open spec fn notified_all(ws: Seq<WaiterId>, v: Seq<u8>) -> Seq<DeliveryModel> {
    ws.map_values(|w: WaiterId| DeliveryModel::Notified(w, v))
}

/// Whether the outcome is of the kind the command's single store operation
/// can report: a put outcome for a write, a lookup outcome for a read.
pub open spec fn outcome_fits(cmd: CommandModel, out: OutcomeModel) -> bool {
    match cmd {
        CommandModel::Write { .. } => out is PutOk || out is PutErr,
        CommandModel::Read { .. } => out is GetOk || out is GetErr,
        CommandModel::NotifyRead { .. } => out is GetOk || out is GetErr,
    }
}

/// Whether the engine, holding `store`, could have reported `out` for the
/// command's operation: a lookup that returns reports exactly the present
/// value; any operation may fail.
pub open spec fn outcome_sound(
    store: Map<Seq<u8>, Seq<u8>>,
    cmd: CommandModel,
    out: OutcomeModel,
) -> bool {
    match cmd {
        CommandModel::Write { .. } => true,
        CommandModel::Read { key, .. } => (out matches OutcomeModel::GetOk(found) ==> found
            == lookup(store, key)),
        CommandModel::NotifyRead { key, .. } => (out matches OutcomeModel::GetOk(found) ==> found
            == lookup(store, key)),
    }
}

/// The change one command makes to the waiter table, and the replies the
/// coordinator owes for it, given what the store reported.
///
/// A successful write removes the written key's whole entry and resolves
/// each of its waiters, in arrival order, with the written value; a failed
/// write resolves nothing and leaves every waiter pending. A read replies
/// with the lookup's result and never touches the table. A notified read
/// replies at once when the key is present, registers its reply channel
/// when the key is absent, and reports a failed lookup to the requester.
pub open spec fn apply_spec(
    w: Map<Seq<u8>, Seq<WaiterId>>,
    cmd: CommandModel,
    out: OutcomeModel,
) -> (Map<Seq<u8>, Seq<WaiterId>>, Seq<DeliveryModel>) {
    match cmd {
        CommandModel::Write { key, value } => {
            if out is PutOk {
                (w.remove(key), notified_all(waiters_of(w, key), value))
            } else {
                (w, Seq::<DeliveryModel>::empty())
            }
        },
        CommandModel::Read { key, reply } => {
            match out {
                OutcomeModel::GetOk(found) => (w, seq![DeliveryModel::ReadOk(reply, found)]),
                _ => (w, seq![DeliveryModel::ReadErr(reply, StoreError::ReadFailed)]),
            }
        },
        CommandModel::NotifyRead { key, reply } => {
            match out {
                OutcomeModel::GetOk(Some(v)) => (w, seq![DeliveryModel::Notified(reply, v)]),
                OutcomeModel::GetOk(None) => (
                    w.insert(key, waiters_of(w, key).push(reply)),
                    Seq::<DeliveryModel>::empty(),
                ),
                _ => (w, seq![DeliveryModel::NotifyErr(reply, StoreError::ReadFailed)]),
            }
        },
    }
}

/// The store contents after a command, given the outcome: only a
/// successful write changes them.
pub open spec fn store_after(
    store: Map<Seq<u8>, Seq<u8>>,
    cmd: CommandModel,
    out: OutcomeModel,
) -> Map<Seq<u8>, Seq<u8>> {
    match cmd {
        CommandModel::Write { key, value } => {
            if out is PutOk {
                store.insert(key, value)
            } else {
                store
            }
        },
        _ => store,
    }
}

/// The outcome an error-free engine reports for a command.
pub open spec fn success_outcome(store: Map<Seq<u8>, Seq<u8>>, cmd: CommandModel) -> OutcomeModel {
    match cmd {
        CommandModel::Write { .. } => OutcomeModel::PutOk,
        CommandModel::Read { key, .. } => OutcomeModel::GetOk(lookup(store, key)),
        CommandModel::NotifyRead { key, .. } => OutcomeModel::GetOk(lookup(store, key)),
    }
}

/// One step of the coordinator against an error-free engine: the new state
/// and the replies put out.
pub open spec fn model_step(m: Model, cmd: CommandModel) -> (Model, Seq<DeliveryModel>) {
    let out = success_outcome(m.store, cmd);
    let stepped = apply_spec(m.waiters, cmd, out);
    (Model { store: store_after(m.store, cmd, out), waiters: stepped.0 }, stepped.1)
}

/// Whether outcome `out` explains one step of the coordinator from `pre`
/// to `post` that put out `ds`: the engine could have reported it for the
/// command, and table, deliveries and store all follow from it.
pub open spec fn step_explained(
    pre: Model,
    cmd: CommandModel,
    post: Model,
    ds: Seq<DeliveryModel>,
    out: OutcomeModel,
) -> bool {
    outcome_fits(cmd, out) && outcome_sound(pre.store, cmd, out) && post.waiters == apply_spec(
        pre.waiters,
        cmd,
        out,
    ).0 && ds == apply_spec(pre.waiters, cmd, out).1 && post.store == store_after(
        pre.store,
        cmd,
        out,
    )
}

/// Relates a coordinator's state before and after one command to the
/// replies it put out: some outcome the engine could have reported for the
/// command explains the step exactly.
pub open spec fn coordinator_step(
    pre: Model,
    cmd: CommandModel,
    post: Model,
    ds: Seq<DeliveryModel>,
) -> bool {
    exists|out: OutcomeModel| #[trigger] step_explained(pre, cmd, post, ds, out)
}

} // verus!
