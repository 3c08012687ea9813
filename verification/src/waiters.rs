//! The waiter table: for each key not yet written, the reply channels of
//! the `NotifyRead` requests pending on it, in arrival order.
use vstd::prelude::*;
use crate::assoc::AssocList;
use crate::types::{Key, WaiterId};

verus! {

/// The waiters pending on key `k` in table `w`: the registered list, or
/// empty when the key has no entry.
pub open spec fn waiters_of(w: Map<Seq<u8>, Seq<WaiterId>>, k: Seq<u8>) -> Seq<WaiterId> {
    if w.contains_key(k) {
        w[k]
    } else {
        Seq::<WaiterId>::empty()
    }
}

/// No key of the table is mapped to an empty waiter list: an entry exists
/// exactly as long as at least one waiter is pending on its key.
pub open spec fn waiters_wf(w: Map<Seq<u8>, Seq<WaiterId>>) -> bool {
    forall|k: Seq<u8>| #[trigger] w.contains_key(k) ==> w[k].len() > 0
}

/// A mapping from key to the ordered waiters pending on it.
pub struct WaiterTable {
    inner: AssocList<Vec<WaiterId>>,
}

impl View for WaiterTable {
    type V = Map<Seq<u8>, Seq<WaiterId>>;

    closed spec fn view(&self) -> Map<Seq<u8>, Seq<WaiterId>> {
        self.inner@
    }
}

impl WaiterTable {
    /// An empty table.
    pub fn new() -> (r: Self)
        ensures
            r@ == Map::<Seq<u8>, Seq<WaiterId>>::empty(),
            waiters_wf(r@),
    {
        WaiterTable { inner: AssocList::new() }
    }

    /// Remove the whole entry under `key` and hand back its waiters in
    /// arrival order; empty when no waiter was pending on the key.
    pub fn take(&mut self, key: &Key) -> (ws: Vec<WaiterId>)
        ensures
            final(self)@ == old(self)@.remove(key@),
            ws@ == waiters_of(old(self)@, key@),
            waiters_wf(old(self)@) ==> waiters_wf(final(self)@),
    {
        let ws = match self.inner.remove(key) {
            Some(v) => v,
            None => Vec::new(),
        };
        proof {
            if !old(self)@.contains_key(key@) {
                assert(old(self)@ =~= old(self)@.remove(key@));
            }
        }
        ws
    }

    /// Append waiter `w` to the entry under `key`, creating the entry when
    /// the key has none.
    pub fn register(&mut self, key: Key, w: WaiterId)
        ensures
            final(self)@ == old(self)@.insert(key@, waiters_of(old(self)@, key@).push(w)),
            waiters_wf(old(self)@) ==> waiters_wf(final(self)@),
    {
        let ghost m0 = self@;
        let ghost k = key@;
        let mut ws = match self.inner.remove(&key) {
            Some(v) => v,
            None => Vec::new(),
        };
        ws.push(w);
        proof {
            assert(ws@ == waiters_of(m0, k).push(w));
        }
        self.inner.set(key, ws);
        proof {
            assert(self@ =~= m0.insert(k, waiters_of(m0, k).push(w)));
            if waiters_wf(m0) {
                assert forall|q: Seq<u8>| #[trigger] self@.contains_key(q) implies self@[q].len()
                    > 0 by {
                    if q != k {
                        assert(m0.contains_key(q));
                    }
                }
            }
        }
    }
}

} // verus!
