//! A marketplace for assets that are held in quantities: sellers list a quantity of an asset
//! at a unit price, and buyers purchase any part of a listing.
//!
//! The marketplace owns the listing ledger ([`NFTsForSale`]). Holdings, balances and the event
//! log belong to collaborators that the embedding runtime provides through [`Config`]. The two
//! operations, [`Pallet::set_sale`] and [`Pallet::buy`], are verified against the contracts of
//! those collaborators; the rules they apply are the plain functions [`check_sale`] and
//! [`total_to_pay`].

pub mod config;
pub mod pallet;
pub mod pricing;
pub mod storage;
pub mod types;

pub use config::Config;
pub use pallet::Pallet;
pub use pricing::{check_sale, total_to_pay};
pub use storage::NFTsForSale;
pub use types::{
    AccountId, Balance, BuyError, Error, Event, ExistenceRequirement, NFTId, SaleData,
};
