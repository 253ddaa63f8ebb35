use vstd::prelude::*;

use crate::backend::transfer;
use crate::backend::PartyFunds;
use crate::errors::ContractError;
use crate::errors::ParameterError;
use crate::registry::contract_at;
use crate::registry::entry_key;
use crate::registry::entry_matches;
use crate::registry::has_contract;
use crate::registry::ContractEntry;
use crate::registry::Registry;
use crate::states::AssetType;
use crate::states::EscrowWallet;
use crate::states::FutureContract;

verus! {

/// The required margin: `floor(rate * amount / 100)`, the stated percentage
/// of the committed quantity, truncated toward zero. This formula governs
/// real fund movement and must not drift.
pub open spec fn spec_margin(rate: u64, amount: u64) -> int {
    (rate * amount) / 100
}

/// Computes the collateral one party owes: `floor(rate * amount / 100)`.
pub fn required_margin(rate: u64, amount: u64) -> (m: u64)
    requires
        rate * amount <= u64::MAX,
    ensures
        m == spec_margin(rate, amount),
{
    (rate * amount) / 100
}

/// True when the party's funds cover a margin of `margin` in the given asset
/// representation.
pub open spec fn can_fund(funds: PartyFunds, kind: AssetType, margin: int) -> bool {
    funds.spec_balance(kind.spec_is_native()) >= margin
}

/// The escrow wallet a successful creation installs: the seller's margin on
/// the counter selected by the underlying asset's representation, the buyer's
/// margin on the counter selected by the exchange asset's representation, and
/// zero elsewhere.
pub open spec fn initial_escrow(
    underlying_kind: AssetType,
    exchange_kind: AssetType,
    seller_margin: u64,
    buyer_margin: u64,
) -> EscrowWallet {
    EscrowWallet::spec_zero().spec_credited(
        true,
        underlying_kind.spec_is_native(),
        seller_margin,
    ).spec_credited(false, exchange_kind.spec_is_native(), buyer_margin)
}

/// Parameter validation, run to completion before any state mutation: an
/// empty underlying asset name, a zero buy amount and a zero expiration date
/// are rejected, in that order, and nothing else is.
pub fn validate_contract_parameters(
    underlying_asset_name: &String,
    buy_amount: u64,
    expiration_date: u64,
) -> (r: Result<(), ParameterError>)
    ensures
        r is Ok <==> underlying_asset_name@.len() > 0 && buy_amount > 0 && expiration_date > 0,
        r == Err::<(), ParameterError>(ParameterError::InvalidAssetName) <==> underlying_asset_name@.len() == 0,
        r == Err::<(), ParameterError>(ParameterError::InvalidContractPrice) <==> underlying_asset_name@.len() > 0 && buy_amount == 0,
        r == Err::<(), ParameterError>(ParameterError::InvalidExpirationDate) <==> underlying_asset_name@.len() > 0 && buy_amount > 0 && expiration_date == 0,
{
    if underlying_asset_name.as_str().unicode_len() == 0 {
        return Err(ParameterError::InvalidAssetName);
    }
    if buy_amount == 0 {
        return Err(ParameterError::InvalidContractPrice);
    }
    if expiration_date == 0 {
        return Err(ParameterError::InvalidExpirationDate);
    }
    Ok(())
}

/// Registers a new bilateral contract and funds its escrow.
///
/// The workflow validates the parameters, computes each party's margin as
/// `floor(margin_collateral_rate * amount / 100)`, and moves both margins
/// into a fresh escrow wallet through the asset backend, the seller's in the
/// underlying asset's representation and the buyer's in the exchange asset's.
/// It is all-or-nothing: on any failure the registry and both parties' funds
/// are exactly as before, and on success the one new entry is appended with
/// both margins deposited and `settled` false.
///
/// The host addresses the new records by the (seller, buyer) pair and admits
/// the call only when no records exist under that key yet, which the caller
/// passes on as a precondition.
pub fn create_futures_contract(
    registry: &mut Registry,
    seller_funds: &mut PartyFunds,
    buyer_funds: &mut PartyFunds,
    seller_id: u64,
    buyer_id: u64,
    underlying_asset_name: String,
    underlying_asset_kind: AssetType,
    exchange_asset_name: String,
    exchange_asset_kind: AssetType,
    sell_amount: u64,
    buy_amount: u64,
    margin_collateral_rate: u64,
    start_date: u64,
    expiration_date: u64,
) -> (r: Result<usize, ContractError>)
    requires
        old(registry).wf(),
        !has_contract(old(registry).entries(), seller_id, buyer_id),
        margin_collateral_rate <= 100,
        margin_collateral_rate * sell_amount <= u64::MAX,
        margin_collateral_rate * buy_amount <= u64::MAX,
    ensures
        r is Ok <==> underlying_asset_name@.len() > 0 && buy_amount > 0 && expiration_date > 0
            && can_fund(
            *old(seller_funds),
            underlying_asset_kind,
            spec_margin(margin_collateral_rate, sell_amount),
        ) && can_fund(
            *old(buyer_funds),
            exchange_asset_kind,
            spec_margin(margin_collateral_rate, buy_amount),
        ),
        r == Err::<usize, ContractError>(ContractError::Parameter(ParameterError::InvalidAssetName))
            <==> underlying_asset_name@.len() == 0,
        r == Err::<usize, ContractError>(
            ContractError::Parameter(ParameterError::InvalidContractPrice),
        ) <==> underlying_asset_name@.len() > 0 && buy_amount == 0,
        r == Err::<usize, ContractError>(
            ContractError::Parameter(ParameterError::InvalidExpirationDate),
        ) <==> underlying_asset_name@.len() > 0 && buy_amount > 0 && expiration_date == 0,
        r == Err::<usize, ContractError>(ContractError::TransferFailed) <==> underlying_asset_name@.len()
            > 0 && buy_amount > 0 && expiration_date > 0 && !(can_fund(
            *old(seller_funds),
            underlying_asset_kind,
            spec_margin(margin_collateral_rate, sell_amount),
        ) && can_fund(
            *old(buyer_funds),
            exchange_asset_kind,
            spec_margin(margin_collateral_rate, buy_amount),
        )),
        r is Err ==> *final(registry) == *old(registry) && *final(seller_funds) == *old(
            seller_funds,
        ) && *final(buyer_funds) == *old(buyer_funds),
        r is Ok ==> r == Ok::<usize, ContractError>(old(registry).entries().len() as usize),
        r is Ok ==> final(registry).entries() == old(registry).entries().push(
            (ContractEntry {
                terms: FutureContract {
                    seller_id,
                    buyer_id,
                    underlying_asset_name,
                    underlying_asset_kind,
                    exchange_asset_name,
                    exchange_asset_kind,
                    sell_amount,
                    buy_amount,
                    margin_collateral_rate,
                    start_date,
                    expiration_date,
                    settled: false,
                },
                escrow: initial_escrow(
                    underlying_asset_kind,
                    exchange_asset_kind,
                    spec_margin(margin_collateral_rate, sell_amount) as u64,
                    spec_margin(margin_collateral_rate, buy_amount) as u64,
                ),
            }),
        ),
        r is Ok ==> *final(seller_funds) == old(seller_funds).spec_debited(
            underlying_asset_kind.spec_is_native(),
            spec_margin(margin_collateral_rate, sell_amount) as u64,
        ),
        r is Ok ==> *final(buyer_funds) == old(buyer_funds).spec_debited(
            exchange_asset_kind.spec_is_native(),
            spec_margin(margin_collateral_rate, buy_amount) as u64,
        ),
        final(registry).wf(),
{
    match validate_contract_parameters(&underlying_asset_name, buy_amount, expiration_date) {
        Err(e) => {
            return Err(ContractError::Parameter(e));
        },
        Ok(()) => {},
    }

    let seller_margin = required_margin(margin_collateral_rate, sell_amount);
    let buyer_margin = required_margin(margin_collateral_rate, buy_amount);

    // Stage the two deposits: nothing commits unless both can succeed, so a
    // failed transfer leaves no trace of the records allocated below.
    if seller_funds.balance_of(underlying_asset_kind) < seller_margin {
        return Err(ContractError::TransferFailed);
    }
    if buyer_funds.balance_of(exchange_asset_kind) < buyer_margin {
        return Err(ContractError::TransferFailed);
    }

    let mut escrow = EscrowWallet::new();
    match transfer(seller_funds, &mut escrow, true, underlying_asset_kind, seller_margin) {
        Err(e) => {
            return Err(e);
        },
        Ok(()) => {},
    }
    match transfer(buyer_funds, &mut escrow, false, exchange_asset_kind, buyer_margin) {
        Err(e) => {
            return Err(e);
        },
        Ok(()) => {},
    }

    let handle = registry.contracts.len();
    let entry = ContractEntry {
        terms: FutureContract {
            seller_id,
            buyer_id,
            underlying_asset_name,
            underlying_asset_kind,
            exchange_asset_name,
            exchange_asset_kind,
            sell_amount,
            buy_amount,
            margin_collateral_rate,
            start_date,
            expiration_date,
            settled: false,
        },
        escrow,
    };
    registry.contracts.push(entry);

    proof {
        let s_old = old(registry).entries();
        let s_new = registry.entries();
        assert forall|i: int, j: int|
            0 <= i < j < s_new.len() implies #[trigger] entry_key(s_new[i]) != #[trigger] entry_key(
            s_new[j],
        ) by {
            if j < s_old.len() {
                assert(entry_key(s_old[i]) != entry_key(s_old[j]));
            } else {
                assert(!(0 <= i < s_old.len() && crate::registry::entry_matches(
                    s_old[i],
                    seller_id,
                    buyer_id,
                )));
            }
        }
    }
    Ok(handle)
}

/// After a successful creation, each party's two escrow counters sum to that
/// party's margin, and only the counter selected by that party's asset
/// representation holds it; the other counter is zero.
pub proof fn lemma_initial_escrow_split(
    underlying_kind: AssetType,
    exchange_kind: AssetType,
    seller_margin: u64,
    buyer_margin: u64,
)
    ensures
        initial_escrow(underlying_kind, exchange_kind, seller_margin, buyer_margin).seller_native_amount
            + initial_escrow(
            underlying_kind,
            exchange_kind,
            seller_margin,
            buyer_margin,
        ).seller_ledger_amount == seller_margin,
        initial_escrow(underlying_kind, exchange_kind, seller_margin, buyer_margin).buyer_native_amount
            + initial_escrow(
            underlying_kind,
            exchange_kind,
            seller_margin,
            buyer_margin,
        ).buyer_ledger_amount == buyer_margin,
        initial_escrow(underlying_kind, exchange_kind, seller_margin, buyer_margin).spec_counter(
            true,
            underlying_kind.spec_is_native(),
        ) == seller_margin,
        initial_escrow(underlying_kind, exchange_kind, seller_margin, buyer_margin).spec_counter(
            true,
            !underlying_kind.spec_is_native(),
        ) == 0,
        initial_escrow(underlying_kind, exchange_kind, seller_margin, buyer_margin).spec_counter(
            false,
            exchange_kind.spec_is_native(),
        ) == buyer_margin,
        initial_escrow(underlying_kind, exchange_kind, seller_margin, buyer_margin).spec_counter(
            false,
            !exchange_kind.spec_is_native(),
        ) == 0,
{
}

/// Creations for distinct (seller, buyer) pairs are independent: after one
/// entry and then another with a different key commit, each key addresses
/// exactly the entry its own creation installed, terms and escrow included.
pub proof fn lemma_disjoint_creations_independent(
    s: Seq<ContractEntry>,
    e1: ContractEntry,
    e2: ContractEntry,
)
    requires
        !has_contract(s, entry_key(e1).0, entry_key(e1).1),
        !has_contract(s, entry_key(e2).0, entry_key(e2).1),
        entry_key(e1) != entry_key(e2),
    ensures
        has_contract(s.push(e1).push(e2), entry_key(e1).0, entry_key(e1).1),
        has_contract(s.push(e1).push(e2), entry_key(e2).0, entry_key(e2).1),
        contract_at(s.push(e1).push(e2), entry_key(e1).0, entry_key(e1).1) == e1,
        contract_at(s.push(e1).push(e2), entry_key(e2).0, entry_key(e2).1) == e2,
{
    let t = s.push(e1).push(e2);
    assert(t[s.len() as int] == e1);
    assert(t[s.len() as int + 1] == e2);
    assert(entry_matches(t[s.len() as int], entry_key(e1).0, entry_key(e1).1));
    assert(entry_matches(t[s.len() as int + 1], entry_key(e2).0, entry_key(e2).1));
    let i1 = choose|i: int|
        0 <= i < t.len() && entry_matches(#[trigger] t[i], entry_key(e1).0, entry_key(e1).1);
    if i1 < s.len() {
        assert(t[i1] == s[i1]);
        assert(has_contract(s, entry_key(e1).0, entry_key(e1).1));
    }
    assert(t[i1] == e1);
    let i2 = choose|i: int|
        0 <= i < t.len() && entry_matches(#[trigger] t[i], entry_key(e2).0, entry_key(e2).1);
    if i2 < s.len() {
        assert(t[i2] == s[i2]);
        assert(has_contract(s, entry_key(e2).0, entry_key(e2).1));
    }
    assert(t[i2] == e2);
}

} // verus!
