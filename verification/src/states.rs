use vstd::prelude::*;

verus! {

/// Which of the two disjoint transfer mechanisms applies to an asset: value
/// tracked directly as a native balance, or value tracked in a dedicated
/// ledger account opened for the asset.
#[derive(Clone, Copy, PartialEq, Eq, Structural, Debug)]
pub enum AssetType {
    Native,
    Ledger,
}

impl AssetType {
    /// True for the native-balance representation.
    pub open spec fn spec_is_native(self) -> bool {
        self is Native
    }

    /// Executable test for the native-balance representation.
    pub fn is_native(&self) -> (b: bool)
        ensures
            b == self.spec_is_native(),
    {
        match self {
            AssetType::Native => true,
            AssetType::Ledger => false,
        }
    }
}

/// The immutable terms of one bilateral agreement. All fields but `settled`
/// are fixed at creation; `settled` starts false and is flipped once by the
/// settlement subsystem, which is outside this core.
pub struct FutureContract {
    /// Principal selling the underlying asset.
    pub seller_id: u64,
    /// Principal buying the underlying asset.
    pub buyer_id: u64,
    /// Asset delivered or settled at expiration; must be non-empty.
    pub underlying_asset_name: String,
    /// Representation of the underlying asset.
    pub underlying_asset_kind: AssetType,
    /// Asset with which the underlying asset is bought.
    pub exchange_asset_name: String,
    /// Representation of the exchange asset.
    pub exchange_asset_kind: AssetType,
    /// Quantity of the underlying asset being sold.
    pub sell_amount: u64,
    /// Predetermined price paid at expiration; must be strictly positive.
    pub buy_amount: u64,
    /// Percentage (0 to 100) of each side's quantity required as collateral.
    pub margin_collateral_rate: u64,
    /// Start timestamp, in seconds.
    pub start_date: u64,
    /// Expiration timestamp, in seconds; must be non-zero.
    pub expiration_date: u64,
    /// Settlement flag; false until the contract is settled.
    pub settled: bool,
}

/// Mathematical model of `FutureContract`: the asset names as character
/// sequences, every other field as itself.
pub struct FutureContractModel {
    pub seller_id: u64,
    pub buyer_id: u64,
    pub underlying_asset_name: Seq<char>,
    pub underlying_asset_kind: AssetType,
    pub exchange_asset_name: Seq<char>,
    pub exchange_asset_kind: AssetType,
    pub sell_amount: u64,
    pub buy_amount: u64,
    pub margin_collateral_rate: u64,
    pub start_date: u64,
    pub expiration_date: u64,
    pub settled: bool,
}

impl View for FutureContract {
    type V = FutureContractModel;

    open spec fn view(&self) -> FutureContractModel {
        FutureContractModel {
            seller_id: self.seller_id,
            buyer_id: self.buyer_id,
            underlying_asset_name: self.underlying_asset_name@,
            underlying_asset_kind: self.underlying_asset_kind,
            exchange_asset_name: self.exchange_asset_name@,
            exchange_asset_kind: self.exchange_asset_kind,
            sell_amount: self.sell_amount,
            buy_amount: self.buy_amount,
            margin_collateral_rate: self.margin_collateral_rate,
            start_date: self.start_date,
            expiration_date: self.expiration_date,
            settled: self.settled,
        }
    }
}

impl FutureContractModel {
    /// The creation-time invariant on contract terms: non-empty underlying
    /// asset name, strictly positive buy amount, non-zero expiration date.
    pub open spec fn valid(self) -> bool {
        &&& self.underlying_asset_name.len() > 0
        &&& self.buy_amount > 0
        &&& self.expiration_date > 0
    }
}

/// Escrowed collateral for one contract: four independent counters, one per
/// party and asset representation. Counters only ever grow; no withdrawal
/// operation exists in this core.
#[derive(Clone, Copy, PartialEq, Eq, Structural, Debug)]
pub struct EscrowWallet {
    /// Native-balance collateral deposited by the seller.
    pub seller_native_amount: u64,
    /// Ledger-account collateral deposited by the seller.
    pub seller_ledger_amount: u64,
    /// Native-balance collateral deposited by the buyer.
    pub buyer_native_amount: u64,
    /// Ledger-account collateral deposited by the buyer.
    pub buyer_ledger_amount: u64,
}

impl EscrowWallet {
    /// The wallet with all four counters at zero.
    pub open spec fn spec_zero() -> EscrowWallet {
        EscrowWallet {
            seller_native_amount: 0,
            seller_ledger_amount: 0,
            buyer_native_amount: 0,
            buyer_ledger_amount: 0,
        }
    }

    /// The counter selected by the depositing party and the asset
    /// representation.
    pub open spec fn spec_counter(self, is_seller: bool, is_native: bool) -> u64 {
        if is_seller {
            if is_native {
                self.seller_native_amount
            } else {
                self.seller_ledger_amount
            }
        } else {
            if is_native {
                self.buyer_native_amount
            } else {
                self.buyer_ledger_amount
            }
        }
    }

    /// The wallet after crediting `amount` to the one counter selected by
    /// `(is_seller, is_native)`; the other three counters are untouched.
    pub open spec fn spec_credited(self, is_seller: bool, is_native: bool, amount: u64) -> EscrowWallet
        recommends
            self.spec_counter(is_seller, is_native) + amount <= u64::MAX,
    {
        EscrowWallet {
            seller_native_amount: if is_seller && is_native {
                (self.seller_native_amount + amount) as u64
            } else {
                self.seller_native_amount
            },
            seller_ledger_amount: if is_seller && !is_native {
                (self.seller_ledger_amount + amount) as u64
            } else {
                self.seller_ledger_amount
            },
            buyer_native_amount: if !is_seller && is_native {
                (self.buyer_native_amount + amount) as u64
            } else {
                self.buyer_native_amount
            },
            buyer_ledger_amount: if !is_seller && !is_native {
                (self.buyer_ledger_amount + amount) as u64
            } else {
                self.buyer_ledger_amount
            },
        }
    }

    /// A zero-initialized escrow wallet.
    pub fn new() -> (w: EscrowWallet)
        ensures
            w == EscrowWallet::spec_zero(),
    {
        EscrowWallet {
            seller_native_amount: 0,
            seller_ledger_amount: 0,
            buyer_native_amount: 0,
            buyer_ledger_amount: 0,
        }
    }
}

} // verus!
