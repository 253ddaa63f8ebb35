use vstd::prelude::*;

use crate::errors::ContractError;
use crate::states::AssetType;
use crate::states::EscrowWallet;

verus! {

/// A principal's spendable funds, one balance per asset representation: the
/// native balance and the balance of the party's ledger account. The host
/// resolves a principal's accounts to these two plain balances before a
/// workflow runs and writes them back when it commits.
#[derive(Clone, Copy, PartialEq, Eq, Structural, Debug)]
pub struct PartyFunds {
    /// Spendable native balance.
    pub native: u64,
    /// Spendable balance of the party's ledger account.
    pub ledger: u64,
}

impl PartyFunds {
    /// The balance backing the given asset representation.
    pub open spec fn spec_balance(self, is_native: bool) -> u64 {
        if is_native {
            self.native
        } else {
            self.ledger
        }
    }

    /// The funds after `amount` has left the balance selected by `is_native`;
    /// the other balance is untouched.
    pub open spec fn spec_debited(self, is_native: bool, amount: u64) -> PartyFunds
        recommends
            amount <= self.spec_balance(is_native),
    {
        PartyFunds {
            native: if is_native {
                (self.native - amount) as u64
            } else {
                self.native
            },
            ledger: if !is_native {
                (self.ledger - amount) as u64
            } else {
                self.ledger
            },
        }
    }

    /// The spendable balance backing assets of the given representation.
    pub fn balance_of(&self, kind: AssetType) -> (b: u64)
        ensures
            b == self.spec_balance(kind.spec_is_native()),
    {
        match kind {
            AssetType::Native => self.native,
            AssetType::Ledger => self.ledger,
        }
    }
}

/// The asset backend's one capability: move `amount` of the representation
/// selected by `kind` from the source party's funds into the escrow wallet,
/// crediting exactly the counter selected by `(is_seller, kind)`.
///
/// The move is all-or-nothing: either the source balance shrinks and the one
/// escrow counter grows by the same `amount`, or, when the source balance is
/// insufficient, nothing changes and the transfer is rejected.
pub fn transfer(
    source: &mut PartyFunds,
    escrow: &mut EscrowWallet,
    is_seller: bool,
    kind: AssetType,
    amount: u64,
) -> (r: Result<(), ContractError>)
    requires
        old(source).spec_balance(kind.spec_is_native()) >= amount ==> old(escrow).spec_counter(
            is_seller,
            kind.spec_is_native(),
        ) + amount <= u64::MAX,
    ensures
        r is Ok <==> old(source).spec_balance(kind.spec_is_native()) >= amount,
        r is Ok ==> *final(source) == old(source).spec_debited(kind.spec_is_native(), amount),
        r is Ok ==> *final(escrow) == old(escrow).spec_credited(
            is_seller,
            kind.spec_is_native(),
            amount,
        ),
        r is Err ==> r == Err::<(), ContractError>(ContractError::TransferFailed),
        r is Err ==> *final(source) == *old(source) && *final(escrow) == *old(escrow),
{
    match kind {
        AssetType::Native => {
            if source.native < amount {
                return Err(ContractError::TransferFailed);
            }
            source.native = source.native - amount;
            if is_seller {
                escrow.seller_native_amount = escrow.seller_native_amount + amount;
            } else {
                escrow.buyer_native_amount = escrow.buyer_native_amount + amount;
            }
        },
        AssetType::Ledger => {
            if source.ledger < amount {
                return Err(ContractError::TransferFailed);
            }
            source.ledger = source.ledger - amount;
            if is_seller {
                escrow.seller_ledger_amount = escrow.seller_ledger_amount + amount;
            } else {
                escrow.buyer_ledger_amount = escrow.buyer_ledger_amount + amount;
            }
        },
    }
    Ok(())
}

} // verus!
