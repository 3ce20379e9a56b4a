use vstd::prelude::*;

verus! {

/// Identifier of a tradable asset.
pub type NFTId = u32;

/// Identity of a participant.
pub type AccountId = u64;

/// Amount of currency; unit prices and totals are balances.
pub type Balance = u64;

/// A seller's standing offer: `amount` units at `price` each.
#[derive(Clone, Copy, Debug, PartialEq, Eq, Structural)]
pub struct SaleData {
    pub price: Balance,
    pub amount: u128,
}

impl Default for SaleData {
    /// The empty record, which a lookup gives for a key that holds no listing.
    fn default() -> (data: SaleData)
        ensures
            data == (SaleData { price: 0, amount: 0 }),
    {
        SaleData { price: 0, amount: 0 }
    }
}

/// Notifications handed to the event sink.
#[derive(Clone, Copy, Debug, PartialEq, Eq, Structural)]
pub enum Event {
    /// An asset has been listed for sale (asset, seller, price, amount).
    ListedForSale(NFTId, AccountId, Balance, u128),
    /// Units of an asset have been sold (asset, seller, buyer, amount).
    Sold(NFTId, AccountId, AccountId, u128),
}

/// The reasons for which the marketplace itself rejects a call.
#[derive(Clone, Copy, Debug, PartialEq, Eq, Structural)]
pub enum Error {
    /// A listing of zero units was requested.
    ZeroAmount,
    /// More units were requested than the listing offers.
    NotEnoughInSale,
    /// The seller holds fewer units than the listing offers.
    NotEnoughOwned,
    /// Kept for callers that name it; no operation gives it, since a key without a listing
    /// reads as the empty record.
    SaleNotFound,
    /// The requested amount does not fit in a balance.
    Conversion,
}

/// Whether a transfer of currency must leave the paying account in existence.
#[derive(Clone, Copy, Debug, PartialEq, Eq, Structural)]
pub enum ExistenceRequirement {
    /// The paying account must keep at least what the currency ledger wants it to retain.
    KeepAlive,
    /// The transfer may empty the paying account.
    AllowDeath,
}

/// Why a purchase did not go through.
#[derive(Debug, PartialEq, Eq)]
pub enum BuyError {
    /// The marketplace rejected the purchase.
    Module(Error),
    /// The currency ledger refused the payment; this is its reason, as it gave it.
    Currency(frame_support::sp_runtime::DispatchError),
}

} // verus!
