//! The commands the coordinator serializes, the replies it hands back, and
//! their mathematical models.
use vstd::prelude::*;

verus! {

/// Keys are opaque byte strings; equality is byte-wise.
pub type Key = Vec<u8>;

/// Values are opaque byte strings.
pub type Value = Vec<u8>;

/// Identifies one single-use reply channel held by a requester. The
/// coordinator never sends on a channel itself; it names the channel in a
/// [`Delivery`] and leaves the send to the surrounding runtime.
pub type WaiterId = u64;

/// Why a single store operation failed. A failure is surfaced to the one
/// requester that issued the operation; the coordinator keeps running.
#[derive(Clone, Copy, Debug, PartialEq, Eq, Structural)]
pub enum StoreError {
    /// The engine failed a point lookup.
    ReadFailed,
    /// The engine failed a durable put.
    WriteFailed,
}

/// One request taken off the coordinator's queue, in FIFO arrival order.
#[derive(Debug, Clone, PartialEq, Eq)]
pub enum StoreCommand {
    /// Store the value under the key and resolve every waiter pending on it.
    Write(Key, Value),
    /// Point lookup; the reply may be `None` and never registers a waiter.
    Read(Key, WaiterId),
    /// Lookup that answers immediately when the key is present and otherwise
    /// registers a waiter to be resolved by a future write of the key.
    NotifyRead(Key, WaiterId),
}

/// What the engine reported for the single store operation a command calls
/// for: a put for a write, a point lookup for either kind of read.
#[derive(Debug, Clone, PartialEq, Eq)]
pub enum StoreOutcome {
    /// The put returned and the value is durable.
    PutOk,
    /// The put failed; the store is unchanged.
    PutErr,
    /// The lookup returned, with the value when the key is present.
    GetOk(Option<Value>),
    /// The lookup failed.
    GetErr,
}

/// One reply owed after a command: the channel it is addressed to and the
/// message for it. Sending never blocks the coordinator; a delivery whose
/// channel was abandoned is silently dropped by the runtime.
#[derive(Debug, Clone, PartialEq, Eq)]
pub enum Delivery {
    /// Reply to a `Read`: the value when present.
    ReadOk(WaiterId, Option<Value>),
    /// Reply to a `Read` whose lookup failed.
    ReadErr(WaiterId, StoreError),
    /// Resolution of a `NotifyRead`, immediate or deferred, with the value.
    Notified(WaiterId, Value),
    /// Reply to a `NotifyRead` whose immediate lookup failed.
    NotifyErr(WaiterId, StoreError),
}

/// Model of a [`StoreCommand`] over byte sequences.
pub enum CommandModel {
    Write { key: Seq<u8>, value: Seq<u8> },
    Read { key: Seq<u8>, reply: WaiterId },
    NotifyRead { key: Seq<u8>, reply: WaiterId },
}

/// Model of a [`StoreOutcome`] over byte sequences.
pub enum OutcomeModel {
    PutOk,
    PutErr,
    GetOk(Option<Seq<u8>>),
    GetErr,
}

/// Model of a [`Delivery`] over byte sequences.
pub enum DeliveryModel {
    ReadOk(WaiterId, Option<Seq<u8>>),
    ReadErr(WaiterId, StoreError),
    Notified(WaiterId, Seq<u8>),
    NotifyErr(WaiterId, StoreError),
}

impl View for StoreCommand {
    type V = CommandModel;

    open spec fn view(&self) -> CommandModel {
        match self {
            StoreCommand::Write(k, v) => CommandModel::Write { key: k@, value: v@ },
            StoreCommand::Read(k, r) => CommandModel::Read { key: k@, reply: *r },
            StoreCommand::NotifyRead(k, r) => CommandModel::NotifyRead { key: k@, reply: *r },
        }
    }
}

impl View for StoreOutcome {
    type V = OutcomeModel;

    open spec fn view(&self) -> OutcomeModel {
        match self {
            StoreOutcome::PutOk => OutcomeModel::PutOk,
            StoreOutcome::PutErr => OutcomeModel::PutErr,
            StoreOutcome::GetOk(o) => OutcomeModel::GetOk(
                match o {
                    Some(v) => Some(v@),
                    None => None,
                },
            ),
            StoreOutcome::GetErr => OutcomeModel::GetErr,
        }
    }
}

impl View for Delivery {
    type V = DeliveryModel;

    open spec fn view(&self) -> DeliveryModel {
        match self {
            Delivery::ReadOk(w, o) => DeliveryModel::ReadOk(
                *w,
                match o {
                    Some(v) => Some(v@),
                    None => None,
                },
            ),
            Delivery::ReadErr(w, e) => DeliveryModel::ReadErr(*w, *e),
            Delivery::Notified(w, v) => DeliveryModel::Notified(*w, v@),
            Delivery::NotifyErr(w, e) => DeliveryModel::NotifyErr(*w, *e),
        }
    }
}

/// The models of a sequence of deliveries, in order.
pub open spec fn deliveries_view(s: Seq<Delivery>) -> Seq<DeliveryModel> {
    s.map_values(|d: Delivery| d@)
}

} // verus!
