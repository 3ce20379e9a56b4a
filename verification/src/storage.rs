use crate::types::{AccountId, NFTId, SaleData};
use std::collections::HashMap;
use vstd::prelude::*;

verus! {

broadcast use vstd::std_specs::hash::group_hash_axioms;

/// The listings as a mathematical map from (asset, seller) to the record on offer.
pub type Listings = Map<(NFTId, AccountId), SaleData>;

/// The record that a lookup of (`nft_id`, `seller`) gives: the stored one, or the empty record
/// where the key holds none.
pub open spec fn listing(listings: Listings, nft_id: NFTId, seller: AccountId) -> SaleData {
    if listings.contains_key((nft_id, seller)) {
        listings[(nft_id, seller)]
    } else {
        SaleData { price: 0, amount: 0 }
    }
}

/// The key under which the listing of `nft_id` by `seller` is stored: the asset in the high
/// bits, the seller in the low 64.
spec fn storage_key(nft_id: NFTId, seller: AccountId) -> u128 {
    (nft_id * 0x1_0000_0000_0000_0000 + seller) as u128
}

fn key_of(nft_id: NFTId, seller: AccountId) -> (key: u128)
    ensures
        key == storage_key(nft_id, seller),
{
    (nft_id as u128) * 0x1_0000_0000_0000_0000u128 + (seller as u128)
}

/// The listing ledger: for each (asset, seller) at most one record.
pub struct NFTsForSale {
    records: HashMap<u128, SaleData>,
}

impl View for NFTsForSale {
    type V = Listings;

    closed spec fn view(&self) -> Listings {
        Map::new(
            |key: (NFTId, AccountId)| self.records@.contains_key(storage_key(key.0, key.1)),
            |key: (NFTId, AccountId)| self.records@[storage_key(key.0, key.1)],
        )
    }
}

impl NFTsForSale {
    /// A ledger without listings.
    pub fn new() -> (ledger: NFTsForSale)
        ensures
            ledger@ == Listings::empty(),
    {
        NFTsForSale { records: HashMap::new() }
    }

    /// The record stored for (`nft_id`, `seller`), or the empty record if there is none.
    pub fn get(&self, nft_id: NFTId, seller: AccountId) -> (data: SaleData)
        ensures
            data == listing(self@, nft_id, seller),
    {
        let key = key_of(nft_id, seller);
        match self.records.get(&key) {
            Some(data) => *data,
            None => SaleData::default(),
        }
    }

    /// Stores `data` for (`nft_id`, `seller`) in place of whatever the key held.
    pub fn insert(&mut self, nft_id: NFTId, seller: AccountId, data: SaleData)
        ensures
            final(self)@ == old(self)@.insert((nft_id, seller), data),
    {
        let key = key_of(nft_id, seller);
        self.records.insert(key, data);
    }

    /// Deletes the record of (`nft_id`, `seller`); a key without a record stays so.
    pub fn remove(&mut self, nft_id: NFTId, seller: AccountId)
        ensures
            final(self)@ == old(self)@.remove((nft_id, seller)),
    {
        let key = key_of(nft_id, seller);
        self.records.remove(&key);
    }

    /// Takes `amount` units, at most what the record offers, off the record of
    /// (`nft_id`, `seller`) and keeps its price.
    pub fn decrease_amount(&mut self, nft_id: NFTId, seller: AccountId, amount: u128)
        requires
            amount <= listing(old(self)@, nft_id, seller).amount,
        ensures
            final(self)@ == old(self)@.insert(
                (nft_id, seller),
                (SaleData {
                    price: listing(old(self)@, nft_id, seller).price,
                    amount: (listing(old(self)@, nft_id, seller).amount - amount) as u128,
                }),
            ),
    {
        let data = self.get(nft_id, seller);
        self.insert(nft_id, seller, SaleData { price: data.price, amount: data.amount - amount });
    }
}

} // verus!
