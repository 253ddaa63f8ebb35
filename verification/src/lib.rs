//! A bilateral escrow and futures-settlement core: two counterparties lock
//! collateral, denominated in either a native balance or a ledger account,
//! under one escrow identity, and the registered contract terms stay
//! immutable while the escrow balances grow through validated deposits.

use vstd::prelude::*;

pub mod backend;
pub mod create_future;
pub mod errors;
pub mod margin_collateral;
pub mod registry;
pub mod states;

pub use backend::PartyFunds;
pub use create_future::create_futures_contract;
pub use create_future::required_margin;
pub use create_future::validate_contract_parameters;
pub use errors::ContractError;
pub use errors::ParameterError;
pub use margin_collateral::deposit_collateral;
pub use registry::ContractEntry;
pub use registry::Registry;
pub use states::AssetType;
pub use states::EscrowWallet;
pub use states::FutureContract;
pub use states::FutureContractModel;

verus! {

/// Bootstrap entry point: a stateless no-op kept for callers that expect an
/// explicit initialization step. It always succeeds.
pub fn initialize() -> (r: Result<(), ContractError>)
    ensures
        r is Ok,
{
    Ok(())
}

} // verus!
