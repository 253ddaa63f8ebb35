use klay::backend::PartyFunds;
use klay::create_future::create_futures_contract;
use klay::create_future::required_margin;
use klay::create_future::validate_contract_parameters;
use klay::errors::ContractError;
use klay::errors::ParameterError;
use klay::initialize;
use klay::margin_collateral::deposit_collateral;
use klay::registry::Registry;
use klay::states::AssetType;

fn funds(native: u64, ledger: u64) -> PartyFunds {
    PartyFunds { native, ledger }
}

#[allow(clippy::too_many_arguments)]
fn create(
    registry: &mut Registry,
    seller_funds: &mut PartyFunds,
    buyer_funds: &mut PartyFunds,
    seller_id: u64,
    buyer_id: u64,
    underlying_asset_name: &str,
    underlying_asset_kind: AssetType,
    exchange_asset_kind: AssetType,
    sell_amount: u64,
    buy_amount: u64,
    margin_collateral_rate: u64,
    expiration_date: u64,
) -> Result<usize, ContractError> {
    create_futures_contract(
        registry,
        seller_funds,
        buyer_funds,
        seller_id,
        buyer_id,
        underlying_asset_name.to_string(),
        underlying_asset_kind,
        "usd-coin".to_string(),
        exchange_asset_kind,
        sell_amount,
        buy_amount,
        margin_collateral_rate,
        10,
        expiration_date,
    )
}

#[test]
fn initialize_always_succeeds() {
    assert!(initialize().is_ok());
}

#[test]
fn empty_asset_name_is_rejected_and_creates_no_records() {
    let mut registry = Registry::new();
    let mut seller = funds(1_000, 1_000);
    let mut buyer = funds(1_000, 1_000);
    let r = create(
        &mut registry,
        &mut seller,
        &mut buyer,
        1,
        2,
        "",
        AssetType::Native,
        AssetType::Native,
        1_000,
        500,
        10,
        100,
    );
    assert_eq!(
        r,
        Err(ContractError::Parameter(ParameterError::InvalidAssetName))
    );
    assert_eq!(registry.contract_count(), 0);
    assert_eq!(seller, funds(1_000, 1_000));
    assert_eq!(buyer, funds(1_000, 1_000));
}

#[test]
fn zero_buy_amount_is_rejected() {
    let mut registry = Registry::new();
    let mut seller = funds(1_000, 1_000);
    let mut buyer = funds(1_000, 1_000);
    let r = create(
        &mut registry,
        &mut seller,
        &mut buyer,
        1,
        2,
        "gold",
        AssetType::Native,
        AssetType::Native,
        1_000,
        0,
        10,
        100,
    );
    assert_eq!(
        r,
        Err(ContractError::Parameter(ParameterError::InvalidContractPrice))
    );
    assert_eq!(registry.contract_count(), 0);
}

#[test]
fn zero_expiration_date_is_rejected() {
    let mut registry = Registry::new();
    let mut seller = funds(1_000, 1_000);
    let mut buyer = funds(1_000, 1_000);
    let r = create(
        &mut registry,
        &mut seller,
        &mut buyer,
        1,
        2,
        "gold",
        AssetType::Native,
        AssetType::Native,
        1_000,
        500,
        10,
        0,
    );
    assert_eq!(
        r,
        Err(ContractError::Parameter(ParameterError::InvalidExpirationDate))
    );
    assert_eq!(registry.contract_count(), 0);
}

#[test]
fn validation_checks_run_in_order() {
    // An empty name wins over the other two violations.
    let r = validate_contract_parameters(&String::new(), 0, 0);
    assert_eq!(r, Err(ParameterError::InvalidAssetName));
    // With a name, the zero price is reported before the zero date.
    let r = validate_contract_parameters(&"gold".to_string(), 0, 0);
    assert_eq!(r, Err(ParameterError::InvalidContractPrice));
    let r = validate_contract_parameters(&"gold".to_string(), 1, 0);
    assert_eq!(r, Err(ParameterError::InvalidExpirationDate));
    assert_eq!(validate_contract_parameters(&"gold".to_string(), 1, 1), Ok(()));
}

#[test]
fn margin_formula_truncates_toward_zero() {
    assert_eq!(required_margin(10, 1_000), 100);
    assert_eq!(required_margin(7, 50), 3);
    assert_eq!(required_margin(0, 1_000), 0);
    assert_eq!(required_margin(100, 41), 41);
    assert_eq!(required_margin(99, 99), 98);
    // The largest product the formula accepts still fits in 64 bits.
    assert_eq!(required_margin(100, u64::MAX / 100), u64::MAX / 100);
}

#[test]
fn creation_deposits_both_margins_on_the_selected_counters() {
    let mut registry = Registry::new();
    let mut seller = funds(1_000, 0);
    let mut buyer = funds(0, 1_000);
    let handle = create(
        &mut registry,
        &mut seller,
        &mut buyer,
        7,
        9,
        "gold",
        AssetType::Native,
        AssetType::Ledger,
        1_000,
        500,
        10,
        100,
    )
    .expect("creation should succeed");
    assert_eq!(handle, 0);
    assert_eq!(registry.contract_count(), 1);
    let entry = &registry.contracts[handle];
    // Seller margin 100 on the native counter, buyer margin 50 on the ledger
    // counter; the two counters not selected by the asset kinds stay zero.
    assert_eq!(entry.escrow.seller_native_amount, 100);
    assert_eq!(entry.escrow.seller_ledger_amount, 0);
    assert_eq!(entry.escrow.buyer_ledger_amount, 50);
    assert_eq!(entry.escrow.buyer_native_amount, 0);
    assert_eq!(
        entry.escrow.seller_native_amount + entry.escrow.seller_ledger_amount,
        100
    );
    assert_eq!(
        entry.escrow.buyer_native_amount + entry.escrow.buyer_ledger_amount,
        50
    );
    // The sources were debited by exactly the margins.
    assert_eq!(seller, funds(900, 0));
    assert_eq!(buyer, funds(0, 950));
    // The recorded terms are what was passed, and the contract is unsettled.
    assert_eq!(entry.terms.seller_id, 7);
    assert_eq!(entry.terms.buyer_id, 9);
    assert_eq!(entry.terms.underlying_asset_name, "gold");
    assert_eq!(entry.terms.sell_amount, 1_000);
    assert_eq!(entry.terms.buy_amount, 500);
    assert_eq!(entry.terms.margin_collateral_rate, 10);
    assert_eq!(entry.terms.start_date, 10);
    assert_eq!(entry.terms.expiration_date, 100);
    assert!(!entry.terms.settled);
}

#[test]
fn failed_seller_transfer_rolls_back_everything() {
    let mut registry = Registry::new();
    let mut seller = funds(99, 0);
    let mut buyer = funds(1_000, 1_000);
    let r = create(
        &mut registry,
        &mut seller,
        &mut buyer,
        1,
        2,
        "gold",
        AssetType::Native,
        AssetType::Native,
        1_000,
        500,
        10,
        100,
    );
    assert_eq!(r, Err(ContractError::TransferFailed));
    assert_eq!(registry.contract_count(), 0);
    assert_eq!(registry.find_contract(1, 2), None);
    assert_eq!(seller, funds(99, 0));
    assert_eq!(buyer, funds(1_000, 1_000));
}

#[test]
fn failed_buyer_transfer_rolls_back_everything() {
    let mut registry = Registry::new();
    let mut seller = funds(1_000, 0);
    let mut buyer = funds(0, 49);
    let r = create(
        &mut registry,
        &mut seller,
        &mut buyer,
        1,
        2,
        "gold",
        AssetType::Native,
        AssetType::Ledger,
        1_000,
        500,
        10,
        100,
    );
    assert_eq!(r, Err(ContractError::TransferFailed));
    assert_eq!(registry.contract_count(), 0);
    assert_eq!(registry.find_contract(1, 2), None);
    assert_eq!(seller, funds(1_000, 0));
    assert_eq!(buyer, funds(0, 49));
}

#[test]
fn repeated_deposits_accumulate_without_deduplication() {
    let mut registry = Registry::new();
    let mut seller = funds(1_000, 0);
    let mut buyer = funds(0, 1_000);
    let handle = create(
        &mut registry,
        &mut seller,
        &mut buyer,
        1,
        2,
        "gold",
        AssetType::Native,
        AssetType::Ledger,
        1_000,
        500,
        10,
        100,
    )
    .expect("creation should succeed");
    let before = registry.contracts[handle].escrow.seller_native_amount;
    assert!(deposit_collateral(&mut registry, &mut seller, &mut buyer, handle, 50, true, true).is_ok());
    assert!(deposit_collateral(&mut registry, &mut seller, &mut buyer, handle, 50, true, true).is_ok());
    let after = registry.contracts[handle].escrow.seller_native_amount;
    assert_eq!(after, before + 100);
    assert_eq!(seller.native, 900 - 100);
}

#[test]
fn deposit_credits_exactly_the_selected_counter() {
    let mut registry = Registry::new();
    let mut seller = funds(1_000, 1_000);
    let mut buyer = funds(1_000, 1_000);
    let handle = create(
        &mut registry,
        &mut seller,
        &mut buyer,
        1,
        2,
        "gold",
        AssetType::Native,
        AssetType::Native,
        0,
        500,
        10,
        100,
    )
    .expect("creation should succeed");
    assert!(deposit_collateral(&mut registry, &mut seller, &mut buyer, handle, 30, false, false).is_ok());
    let entry = &registry.contracts[handle];
    assert_eq!(entry.escrow.buyer_ledger_amount, 30);
    assert_eq!(entry.escrow.seller_native_amount, 0);
    assert_eq!(entry.escrow.seller_ledger_amount, 0);
    // Buyer margin 50 was deposited natively at creation, then 30 by ledger.
    assert_eq!(entry.escrow.buyer_native_amount, 50);
    assert_eq!(buyer, funds(950, 970));
    assert_eq!(seller, funds(1_000, 1_000));
}

#[test]
fn deposit_with_insufficient_balance_changes_nothing() {
    let mut registry = Registry::new();
    let mut seller = funds(1_000, 0);
    let mut buyer = funds(0, 1_000);
    let handle = create(
        &mut registry,
        &mut seller,
        &mut buyer,
        1,
        2,
        "gold",
        AssetType::Native,
        AssetType::Ledger,
        1_000,
        500,
        10,
        100,
    )
    .expect("creation should succeed");
    let r = deposit_collateral(&mut registry, &mut seller, &mut buyer, handle, 10, true, false);
    assert_eq!(r, Err(ContractError::TransferFailed));
    assert_eq!(registry.contracts[handle].escrow.seller_ledger_amount, 0);
    assert_eq!(registry.contracts[handle].escrow.seller_native_amount, 100);
    assert_eq!(seller, funds(900, 0));
    assert_eq!(buyer, funds(0, 950));
}

#[test]
fn disjoint_contracts_are_independent() {
    let mut registry = Registry::new();
    let mut seller_a = funds(1_000, 0);
    let mut buyer_a = funds(0, 1_000);
    let mut seller_b = funds(2_000, 0);
    let mut buyer_b = funds(2_000, 0);
    let first = create(
        &mut registry,
        &mut seller_a,
        &mut buyer_a,
        1,
        2,
        "gold",
        AssetType::Native,
        AssetType::Ledger,
        1_000,
        500,
        10,
        100,
    )
    .expect("first creation should succeed");
    let second = create(
        &mut registry,
        &mut seller_b,
        &mut buyer_b,
        3,
        4,
        "silver",
        AssetType::Native,
        AssetType::Native,
        400,
        200,
        50,
        200,
    )
    .expect("second creation should succeed");
    assert_ne!(first, second);
    assert_eq!(registry.contract_count(), 2);
    assert_eq!(registry.find_contract(1, 2), Some(first));
    assert_eq!(registry.find_contract(3, 4), Some(second));
    assert_eq!(registry.find_contract(1, 4), None);
    // Each escrow holds exactly its own margins.
    let a = &registry.contracts[first];
    assert_eq!(a.escrow.seller_native_amount, 100);
    assert_eq!(a.escrow.buyer_ledger_amount, 50);
    let b = &registry.contracts[second];
    assert_eq!(b.escrow.seller_native_amount, 200);
    assert_eq!(b.escrow.buyer_native_amount, 100);
    // A deposit on one contract leaves the other contract and the other
    // parties' funds alone.
    assert!(deposit_collateral(&mut registry, &mut seller_b, &mut buyer_b, second, 7, true, true).is_ok());
    assert_eq!(registry.contracts[first].escrow.seller_native_amount, 100);
    assert_eq!(seller_a, funds(900, 0));
    assert_eq!(registry.contracts[second].escrow.seller_native_amount, 207);
}
