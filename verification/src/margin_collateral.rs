use vstd::prelude::*;

use crate::backend::transfer;
use crate::backend::PartyFunds;
use crate::errors::ContractError;
use crate::registry::entry_key;
use crate::registry::ContractEntry;
use crate::registry::Registry;
use crate::states::AssetType;
use crate::states::EscrowWallet;

verus! {

/// Deposits additional collateral into an existing contract's escrow.
///
/// The depositing party is selected by `is_seller` and the asset
/// representation by `is_native`, independently of the kinds recorded on the
/// contract, since either party may top up either representation. The deposit
/// moves `amount` from the depositor's funds onto exactly the one escrow
/// counter selected by `(is_seller, is_native)`; the contract's terms, every
/// other entry and the other party's funds stay untouched. On a rejected
/// transfer nothing changes at all.
///
/// The host resolves `handle` to an existing entry before the workflow runs,
/// so a valid handle is a precondition, as is room in the selected counter,
/// which the host's fixed-width balances bound.
pub fn deposit_collateral(
    registry: &mut Registry,
    seller_funds: &mut PartyFunds,
    buyer_funds: &mut PartyFunds,
    handle: usize,
    amount: u64,
    is_seller: bool,
    is_native: bool,
) -> (r: Result<(), ContractError>)
    requires
        old(registry).wf(),
        handle < old(registry).entries().len(),
        (if is_seller {
            *old(seller_funds)
        } else {
            *old(buyer_funds)
        }).spec_balance(is_native) >= amount ==> old(registry).entries()[handle as int].escrow.spec_counter(
            is_seller,
            is_native,
        ) + amount <= u64::MAX,
    ensures
        r is Ok <==> (if is_seller {
            *old(seller_funds)
        } else {
            *old(buyer_funds)
        }).spec_balance(is_native) >= amount,
        r is Err ==> r == Err::<(), ContractError>(ContractError::TransferFailed),
        r is Err ==> *final(registry) == *old(registry) && *final(seller_funds) == *old(
            seller_funds,
        ) && *final(buyer_funds) == *old(buyer_funds),
        r is Ok ==> final(registry).entries() == old(registry).entries().update(
            handle as int,
            (ContractEntry {
                terms: old(registry).entries()[handle as int].terms,
                escrow: old(registry).entries()[handle as int].escrow.spec_credited(
                    is_seller,
                    is_native,
                    amount,
                ),
            }),
        ),
        r is Ok && is_seller ==> *final(seller_funds) == old(seller_funds).spec_debited(
            is_native,
            amount,
        ) && *final(buyer_funds) == *old(buyer_funds),
        r is Ok && !is_seller ==> *final(buyer_funds) == old(buyer_funds).spec_debited(
            is_native,
            amount,
        ) && *final(seller_funds) == *old(seller_funds),
        final(registry).wf(),
{
    let kind = if is_native {
        AssetType::Native
    } else {
        AssetType::Ledger
    };
    let mut escrow = registry.contracts[handle].escrow;
    let r = if is_seller {
        transfer(seller_funds, &mut escrow, true, kind, amount)
    } else {
        transfer(buyer_funds, &mut escrow, false, kind, amount)
    };
    match r {
        Ok(()) => {
            let entry = &mut registry.contracts[handle];
            entry.escrow = escrow;
            proof {
                let s_old = old(registry).entries();
                let s_new = registry.entries();
                assert forall|i: int, j: int|
                    0 <= i < j < s_new.len() implies #[trigger] entry_key(s_new[i])
                    != #[trigger] entry_key(s_new[j]) by {
                    assert(s_new[i].terms == s_old[i].terms);
                    assert(s_new[j].terms == s_old[j].terms);
                    assert(entry_key(s_old[i]) != entry_key(s_old[j]));
                }
                assert forall|i: int| 0 <= i < s_new.len() implies (#[trigger] s_new[i].terms)@.valid() by {
                    assert(s_new[i].terms == s_old[i].terms);
                }
            }
            Ok(())
        },
        Err(e) => Err(e),
    }
}

/// Deposits accumulate: crediting the same counter twice raises it by the sum
/// of the two amounts, through the same wallet a single deposit of the sum
/// would produce. Retries are not deduplicated; a repeated call deposits
/// again.
pub proof fn lemma_deposits_accumulate(
    w: EscrowWallet,
    is_seller: bool,
    is_native: bool,
    a1: u64,
    a2: u64,
)
    requires
        w.spec_counter(is_seller, is_native) + a1 + a2 <= u64::MAX,
    ensures
        w.spec_credited(is_seller, is_native, a1).spec_credited(is_seller, is_native, a2)
            == w.spec_credited(is_seller, is_native, (a1 + a2) as u64),
        w.spec_credited(is_seller, is_native, a1).spec_credited(
            is_seller,
            is_native,
            a2,
        ).spec_counter(is_seller, is_native) == w.spec_counter(is_seller, is_native) + a1 + a2,
{
}

} // verus!
