use vstd::prelude::*;

use crate::states::EscrowWallet;
use crate::states::FutureContract;

verus! {

/// One contract's persisted state: its immutable terms and the escrow wallet
/// created alongside them. The pair shares one key, the (seller, buyer)
/// identity pair, and lives and dies as a unit.
pub struct ContractEntry {
    /// The registered terms of the agreement.
    pub terms: FutureContract,
    /// The collateral custodied for the agreement.
    pub escrow: EscrowWallet,
}

/// The key under which an entry is addressed: its (seller, buyer) pair.
pub open spec fn entry_key(e: ContractEntry) -> (u64, u64) {
    (e.terms@.seller_id, e.terms@.buyer_id)
}

/// True when the entry is addressed by the given (seller, buyer) pair.
pub open spec fn entry_matches(e: ContractEntry, seller_id: u64, buyer_id: u64) -> bool {
    entry_key(e) == (seller_id, buyer_id)
}

/// True when some entry of `s` is addressed by the given pair.
pub open spec fn has_contract(s: Seq<ContractEntry>, seller_id: u64, buyer_id: u64) -> bool {
    exists|i: int| 0 <= i < s.len() && entry_matches(#[trigger] s[i], seller_id, buyer_id)
}

/// The entry of `s` addressed by the given pair. Meaningful only when such an
/// entry exists and keys are distinct, as `Registry::wf` guarantees.
pub open spec fn contract_at(s: Seq<ContractEntry>, seller_id: u64, buyer_id: u64) -> ContractEntry
    recommends
        has_contract(s, seller_id, buyer_id),
{
    s[choose|i: int| 0 <= i < s.len() && entry_matches(#[trigger] s[i], seller_id, buyer_id)]
}

/// All persisted contracts. The host serializes every workflow invocation
/// that touches the same entry, so each operation below runs as one atomic
/// step against the registry.
pub struct Registry {
    /// The stored entries; a handle is an index into this sequence.
    pub contracts: Vec<ContractEntry>,
}

impl Registry {
    /// The registry's mathematical content: its entries in storage order.
    pub open spec fn entries(self) -> Seq<ContractEntry> {
        self.contracts@
    }

    /// Well-formedness: entries carry pairwise distinct (seller, buyer) keys,
    /// and every stored terms record satisfies the creation-time invariant.
    pub open spec fn wf(self) -> bool {
        &&& forall|i: int, j: int|
            0 <= i < j < self.entries().len() ==> #[trigger] entry_key(self.entries()[i])
                != #[trigger] entry_key(self.entries()[j])
        &&& forall|i: int|
            0 <= i < self.entries().len() ==> (#[trigger] self.entries()[i].terms)@.valid()
    }

    /// An empty registry.
    pub fn new() -> (r: Registry)
        ensures
            r.entries() == Seq::<ContractEntry>::empty(),
            r.wf(),
    {
        Registry { contracts: Vec::new() }
    }

    /// How many contracts are registered.
    pub fn contract_count(&self) -> (n: usize)
        ensures
            n == self.entries().len(),
    {
        self.contracts.len()
    }

    /// Looks up the handle of the entry addressed by the given (seller,
    /// buyer) pair: the handle of the matching entry, or `None` when no entry
    /// matches.
    pub fn find_contract(&self, seller_id: u64, buyer_id: u64) -> (r: Option<usize>)
        ensures
            match r {
                Some(h) => h < self.entries().len() && entry_matches(
                    self.entries()[h as int],
                    seller_id,
                    buyer_id,
                ),
                None => !has_contract(self.entries(), seller_id, buyer_id),
            },
    {
        let n = self.contracts.len();
        let mut k: usize = 0;
        while k < n
            invariant
                n == self.entries().len(),
                k <= n,
                forall|j: int|
                    0 <= j < k ==> !entry_matches(#[trigger] self.entries()[j], seller_id, buyer_id),
            decreases n - k,
        {
            let e = &self.contracts[k];
            if e.terms.seller_id == seller_id && e.terms.buyer_id == buyer_id {
                return Some(k);
            }
            k = k + 1;
        }
        None
    }
}

} // verus!
