//! A serialized coordinator over a persistent key-value engine.
//!
//! The coordinator owns a waiter table and drains commands one at a time:
//! writes go durably to the store and resolve every waiter pending on the
//! written key, reads are single point lookups, and notified reads either
//! answer immediately or register a waiter that a future write resolves.
use vstd::prelude::*;

mod assoc;
mod coordinator;
mod laws;
mod model;
mod store;
mod types;
mod waiters;

pub use coordinator::{Coordinator, apply};
pub use laws::{
    lemma_absent_until_written, lemma_await_resolves_on_write, lemma_fifo_fairness,
    lemma_no_cross_key, lemma_no_stale_resolution, lemma_notify_read_answered_or_registered,
    lemma_read_always_answered, lemma_read_before_write, lemma_register_all,
    lemma_rewrite_then_read, lemma_step_preserves_wf, lemma_write_resolves_exactly_pending,
    lemma_write_then_read, model_wf, register_all,
};
pub use store::{MemStore, Store};
pub use model::{
    Model, apply_spec, coordinator_step, lookup, model_step, notified_all, outcome_fits,
    outcome_sound, step_explained, store_after, success_outcome,
};
pub use types::{
    CommandModel, Delivery, DeliveryModel, Key, OutcomeModel, StoreCommand, StoreError,
    StoreOutcome, Value, WaiterId, deliveries_view,
};
pub use waiters::{WaiterTable, waiters_of, waiters_wf};

verus! {

/// Byte-wise equality of two keys (or values): the coordinator compares
/// keys only by their bytes.
pub fn bytes_equal(a: &Vec<u8>, b: &Vec<u8>) -> (r: bool)
    ensures
        r == (a@ == b@),
{
    if a.len() != b.len() {
        assert(a@ != b@);
        return false;
    }
    let n = a.len();
    let mut i: usize = 0;
    while i < n
        invariant
            n == a@.len(),
            n == b@.len(),
            i <= n,
            forall|j: int| 0 <= j < i ==> a@[j] == b@[j],
        decreases n - i,
    {
        if a[i] != b[i] {
            assert(a@ != b@);
            return false;
        }
        i += 1;
    }
    proof {
        assert(a@ =~= b@);
    }
    true
}

/// Byte-wise copy of a value: each resolved waiter gets its own copy of
/// the written value.
pub fn clone_bytes(v: &Vec<u8>) -> (r: Vec<u8>)
    ensures
        r@ == v@,
{
    let r = v.clone();
    proof {
        assert forall|i: int| 0 <= i < v@.len() implies r@[i] == v@[i] by {
            assert(cloned::<u8>(v@[i], r@[i]));
        }
        assert(r@ =~= v@);
    }
    r
}

} // verus!
