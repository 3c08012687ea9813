//! The coordinator's dispatch: one command in, at most one store operation
//! observed, one batch of replies out.
use vstd::prelude::*;
use crate::types::{Delivery, StoreCommand, StoreError, StoreOutcome, WaiterId, deliveries_view};
use crate::model::{
    Model, apply_spec, coordinator_step, notified_all, outcome_fits, outcome_sound, step_explained,
    store_after,
};
use crate::store::Store;
use crate::waiters::{WaiterTable, waiters_of, waiters_wf};
use crate::clone_bytes;

verus! {

/// Execute one command against the waiter table, given what the store
/// reported for the command's single operation, and return the replies
/// owed, in order. This is the whole decision logic of the coordinator's
/// serial loop; the surrounding runtime performs the store operation and
/// sends each returned delivery.
pub fn apply(table: &mut WaiterTable, cmd: StoreCommand, outcome: StoreOutcome) -> (deliveries:
    Vec<Delivery>)
    requires
        outcome_fits(cmd@, outcome@),
    ensures
        final(table)@ == apply_spec(old(table)@, cmd@, outcome@).0,
        deliveries_view(deliveries@) == apply_spec(old(table)@, cmd@, outcome@).1,
        waiters_wf(old(table)@) ==> waiters_wf(final(table)@),
{
    match cmd {
        StoreCommand::Write(key, value) => {
            match outcome {
                StoreOutcome::PutOk => {
                    let ws = table.take(&key);
                    proof {
                        if waiters_wf(old(table)@) {
                            assert forall|q: Seq<u8>| #[trigger] table@.contains_key(q)
                                implies table@[q].len() > 0 by {
                                assert(old(table)@.contains_key(q));
                            }
                        }
                    }
                    let mut ds: Vec<Delivery> = Vec::new();
                    let n = ws.len();
                    let mut i: usize = 0;
                    while i < n
                        invariant
                            n == ws@.len(),
                            i <= n,
                            deliveries_view(ds@) =~= notified_all(ws@.subrange(0, i as int), value@),
                        decreases n - i,
                    {
                        let ghost ds0 = ds@;
                        let v = clone_bytes(&value);
                        let d = Delivery::Notified(ws[i], v);
                        let ghost dv = d@;
                        proof {
                            assert(dv == crate::types::DeliveryModel::Notified(
                                ws@[i as int],
                                value@,
                            ));
                            assert(deliveries_view(ds0).len() == ds0.len());
                            assert(notified_all(ws@.subrange(0, i as int), value@).len()
                                == i as int);
                            assert(ds0.len() == i as int);
                        }
                        ds.push(d);
                        proof {
                            assert forall|j: int| 0 <= j < i + 1 implies deliveries_view(ds@)[j]
                                == notified_all(ws@.subrange(0, i + 1), value@)[j] by {
                                if j < i {
                                    assert(deliveries_view(ds0)[j] == notified_all(
                                        ws@.subrange(0, i as int),
                                        value@,
                                    )[j]);
                                    assert(ds@[j] == ds0[j]);
                                } else {
                                    assert(ds@[j]@ == dv);
                                }
                            }
                            assert(deliveries_view(ds@) =~= notified_all(
                                ws@.subrange(0, i + 1),
                                value@,
                            ));
                        }
                        i += 1;
                    }
                    proof {
                        assert(ws@.subrange(0, n as int) =~= ws@);
                        assert(deliveries_view(ds@) =~= notified_all(
                            waiters_of(old(table)@, key@),
                            value@,
                        ));
                    }
                    ds
                },
                _ => {
                    let ds: Vec<Delivery> = Vec::new();
                    proof {
                        assert(deliveries_view(ds@) =~= Seq::<crate::types::DeliveryModel>::empty());
                    }
                    ds
                },
            }
        },
        StoreCommand::Read(key, reply) => {
            let mut ds: Vec<Delivery> = Vec::new();
            match outcome {
                StoreOutcome::GetOk(found) => {
                    ds.push(Delivery::ReadOk(reply, found));
                },
                _ => {
                    ds.push(Delivery::ReadErr(reply, StoreError::ReadFailed));
                },
            }
            proof {
                assert(deliveries_view(ds@) =~= apply_spec(old(table)@, cmd@, outcome@).1);
            }
            ds
        },
        StoreCommand::NotifyRead(key, reply) => {
            match outcome {
                StoreOutcome::GetOk(found) => {
                    match found {
                        Some(v) => {
                            let mut ds: Vec<Delivery> = Vec::new();
                            ds.push(Delivery::Notified(reply, v));
                            proof {
                                assert(deliveries_view(ds@) =~= apply_spec(
                                    old(table)@,
                                    cmd@,
                                    outcome@,
                                ).1);
                            }
                            ds
                        },
                        None => {
                            table.register(key, reply);
                            let ds: Vec<Delivery> = Vec::new();
                            proof {
                                assert(deliveries_view(ds@) =~= Seq::<
                                    crate::types::DeliveryModel,
                                >::empty());
                            }
                            ds
                        },
                    }
                },
                _ => {
                    let mut ds: Vec<Delivery> = Vec::new();
                    ds.push(Delivery::NotifyErr(reply, StoreError::ReadFailed));
                    proof {
                        assert(deliveries_view(ds@) =~= apply_spec(old(table)@, cmd@, outcome@).1);
                    }
                    ds
                },
            }
        },
    }
}

/// The serialization point: owns the sole handle to the engine and the
/// waiter table, and executes commands one at a time, in intake order.
pub struct Coordinator<S: Store> {
    store: S,
    waiters: WaiterTable,
}

impl<S: Store> Coordinator<S> {
    /// The coordinator's whole state as the model sees it.
    pub closed spec fn model(&self) -> Model {
        Model { store: self.store.contents(), waiters: self.waiters@ }
    }

    /// The table invariant: a key has an entry exactly as long as at
    /// least one waiter is pending on it.
    pub open spec fn wf(&self) -> bool {
        waiters_wf(self.model().waiters)
    }

    /// Take exclusive ownership of the engine's handle, with no waiter
    /// pending.
    pub fn new(store: S) -> (r: Self)
        ensures
            r.model().store == store.contents(),
            r.model().waiters == Map::<Seq<u8>, Seq<WaiterId>>::empty(),
            r.wf(),
    {
        Coordinator { store, waiters: WaiterTable::new() }
    }

    /// Execute one command: perform its single store operation, then
    /// update the waiter table and return the replies owed, in order.
    pub fn handle(&mut self, cmd: StoreCommand) -> (deliveries: Vec<Delivery>)
        ensures
            coordinator_step(
                old(self).model(),
                cmd@,
                final(self).model(),
                deliveries_view(deliveries@),
            ),
            old(self).wf() ==> final(self).wf(),
    {
        let ghost pre = self.model();
        let outcome = match &cmd {
            StoreCommand::Write(key, value) => {
                match self.store.put(key, value) {
                    Ok(_) => StoreOutcome::PutOk,
                    Err(_) => StoreOutcome::PutErr,
                }
            },
            StoreCommand::Read(key, _) => {
                match self.store.get(key) {
                    Ok(found) => StoreOutcome::GetOk(found),
                    Err(_) => StoreOutcome::GetErr,
                }
            },
            StoreCommand::NotifyRead(key, _) => {
                match self.store.get(key) {
                    Ok(found) => StoreOutcome::GetOk(found),
                    Err(_) => StoreOutcome::GetErr,
                }
            },
        };
        let ghost out = outcome@;
        proof {
            assert(outcome_fits(cmd@, out));
            assert(outcome_sound(pre.store, cmd@, out));
            assert(self.store.contents() == store_after(pre.store, cmd@, out));
        }
        let deliveries = apply(&mut self.waiters, cmd, outcome);
        proof {
            assert(step_explained(
                pre,
                cmd@,
                self.model(),
                deliveries_view(deliveries@),
                out,
            ));
        }
        deliveries
    }
}

} // verus!
