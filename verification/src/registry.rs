//! The AMM registry: the factory's client-side mirror of (asset pair →
//! exchange) mappings.
//!
//! The pool map grows monotonically while a topology is built and is never
//! pruned within a run. Registering the same pair twice is a caller error,
//! so insertion demands that the pair is fresh and the map keeps its pairs
//! unique. The map is owned state of one registry value — not a singleton —
//! and single-writer during construction.

use vstd::prelude::*;
use crate::exchange::ExchangeRecord;
use crate::ids::{AssetPair, ContractId};

verus! {

/// A deployed factory contract and the pools registered with it.
#[derive(Clone, Debug)]
pub struct AmmRegistry {
    id: ContractId,
    pools: Vec<ExchangeRecord>,
}

impl AmmRegistry {
    /// Identity of the deployed factory contract.
    pub closed spec fn identity(self) -> ContractId {
        self.id
    }

    /// Identity of the deployed factory contract.
    pub fn id(&self) -> (r: ContractId)
        ensures
            r == self.identity(),
    {
        self.id
    }

    /// The registered pools, in registration order.
    pub closed spec fn pools(self) -> Seq<ExchangeRecord> {
        self.pools@
    }

    /// Every registered pair occurs once.
    pub closed spec fn wf(self) -> bool {
        forall|i: int, j: int|
            0 <= i < j < self.pools@.len() ==> self.pools@[i].pair != self.pools@[j].pair
    }

    /// Whether some pool is registered under this pair.
    pub open spec fn contains_pair_spec(self, pair: AssetPair) -> bool {
        exists|i: int| 0 <= i < self.pools().len() && self.pools()[i].pair == pair
    }

    /// A fresh registry around a deployed factory: no pools yet.
    pub fn new(id: ContractId) -> (r: AmmRegistry)
        ensures
            r.identity() == id,
            r.pools() == Seq::<ExchangeRecord>::empty(),
            r.wf(),
    {
        let r = AmmRegistry { id, pools: Vec::new() };
        proof {
            assert(r.pools@ =~= Seq::<ExchangeRecord>::empty());
        }
        r
    }

    /// Number of registered pools.
    pub fn len(&self) -> (r: usize)
        ensures
            r == self.pools().len(),
    {
        self.pools.len()
    }

    /// Whether a pool is already registered under `pair`.
    pub fn contains_pair(&self, pair: &AssetPair) -> (r: bool)
        ensures
            r == self.contains_pair_spec(*pair),
    {
        let mut k: usize = 0;
        while k < self.pools.len()
            invariant
                0 <= k <= self.pools@.len(),
                forall|i: int| 0 <= i < k ==> self.pools@[i].pair != *pair,
            decreases self.pools@.len() - k,
        {
            if self.pools[k].pair == *pair {
                return true;
            }
            k += 1;
        }
        false
    }

    /// Registers a pool under its pair. The pair must be fresh: duplicate
    /// provisioning of a pair is a caller error, not deduplicated here.
    pub fn add_pool(&mut self, record: ExchangeRecord)
        requires
            old(self).wf(),
            !old(self).contains_pair_spec(record.pair),
        ensures
            final(self).identity() == old(self).identity(),
            final(self).pools() == old(self).pools().push(record),
            final(self).wf(),
            final(self).contains_pair_spec(record.pair),
    {
        self.pools.push(record);
        proof {
            let n = self.pools@.len() - 1;
            assert(self.pools@ == old(self).pools@.push(record));
            assert forall|i: int, j: int| 0 <= i < j < self.pools@.len()
                implies self.pools@[i].pair != self.pools@[j].pair by {
                if j < n {
                    assert(old(self).pools@[i].pair != old(self).pools@[j].pair);
                } else {
                    assert(!(0 <= i < old(self).pools().len()
                        && old(self).pools()[i].pair == record.pair));
                }
            }
            assert(self.pools@[n] == record);
        }
    }

    /// The pool registered under `pair`, if any.
    pub fn lookup(&self, pair: &AssetPair) -> (r: Option<&ExchangeRecord>)
        ensures
            match r {
                Some(rec) => rec.pair == *pair && self.pools().contains(*rec),
                None => !self.contains_pair_spec(*pair),
            },
    {
        let mut k: usize = 0;
        while k < self.pools.len()
            invariant
                0 <= k <= self.pools@.len(),
                forall|i: int| 0 <= i < k ==> self.pools@[i].pair != *pair,
            decreases self.pools@.len() - k,
        {
            if self.pools[k].pair == *pair {
                return Some(&self.pools[k]);
            }
            k += 1;
        }
        None
    }

    /// The record registered at position `k`, in registration order.
    pub fn pool_at(&self, k: usize) -> (r: &ExchangeRecord)
        requires
            k < self.pools().len(),
        ensures
            *r == self.pools()[k as int],
    {
        &self.pools[k]
    }

    /// The contract identities a transaction touching every pool must name:
    /// each registered exchange, then the factory itself.
    pub fn contract_instances(&self) -> (r: Vec<ContractId>)
        ensures
            r@.len() == self.pools().len() + 1,
            forall|i: int| 0 <= i < self.pools().len() ==> r@[i] == self.pools()[i].id,
            r@[self.pools().len() as int] == self.identity(),
    {
        let mut out: Vec<ContractId> = Vec::new();
        let mut k: usize = 0;
        while k < self.pools.len()
            invariant
                0 <= k <= self.pools@.len(),
                out@.len() == k,
                forall|i: int| 0 <= i < k ==> out@[i] == self.pools@[i].id,
            decreases self.pools@.len() - k,
        {
            out.push(self.pools[k].id);
            k += 1;
        }
        out.push(self.id);
        out
    }
}

} // verus!
