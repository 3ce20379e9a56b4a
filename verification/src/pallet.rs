use crate::config::{balances_kept, balances_moved, holdings_kept, holdings_moved, Config};
use crate::pricing::{check_sale, purchase_price, sale_check, total_to_pay};
use crate::storage::{listing, Listings, NFTsForSale};
use crate::types::{
    AccountId, Balance, BuyError, Error, Event, ExistenceRequirement, NFTId, SaleData,
};
use vstd::prelude::*;

verus! {

/// The listings once `amount` units of the listing of `nft_id` by `seller` have been sold: the
/// listing is gone if that was all of it, and is smaller by `amount` otherwise.
pub open spec fn listings_after_purchase(
    listings: Listings,
    nft_id: NFTId,
    seller: AccountId,
    amount: u128,
) -> Listings {
    let sale_data = listing(listings, nft_id, seller);
    if amount == sale_data.amount {
        listings.remove((nft_id, seller))
    } else {
        listings.insert(
            (nft_id, seller),
            SaleData { price: sale_data.price, amount: (sale_data.amount - amount) as u128 },
        )
    }
}

/// A purchase within what a listing offers removes the listing if it takes all of it, leaves it
/// with exactly `amount` units fewer at the same price if not, and touches no other listing.
pub proof fn lemma_listings_after_purchase(
    listings: Listings,
    nft_id: NFTId,
    seller: AccountId,
    amount: u128,
)
    requires
        amount <= listing(listings, nft_id, seller).amount,
    ensures
        amount == listing(listings, nft_id, seller).amount ==> {
            &&& !listings_after_purchase(listings, nft_id, seller, amount).contains_key(
                (nft_id, seller),
            )
            &&& listing(listings_after_purchase(listings, nft_id, seller, amount), nft_id, seller)
                == (SaleData { price: 0, amount: 0 })
        },
        amount < listing(listings, nft_id, seller).amount ==> {
            &&& listings_after_purchase(listings, nft_id, seller, amount).contains_key(
                (nft_id, seller),
            )
            &&& listing(listings_after_purchase(listings, nft_id, seller, amount), nft_id, seller)
                == (SaleData {
                price: listing(listings, nft_id, seller).price,
                amount: (listing(listings, nft_id, seller).amount - amount) as u128,
            })
        },
        forall|other_id: NFTId, other_seller: AccountId|
            (other_id, other_seller) != (nft_id, seller) ==> {
                &&& listings_after_purchase(listings, nft_id, seller, amount).contains_key(
                    (other_id, other_seller),
                ) == listings.contains_key((other_id, other_seller))
                &&& #[trigger] listing(
                    listings_after_purchase(listings, nft_id, seller, amount),
                    other_id,
                    other_seller,
                ) == listing(listings, other_id, other_seller)
            },
{
}

/// The marketplace: the listing ledger, and the collaborators that a trade goes through.
pub struct Pallet<T: Config> {
    host: T,
    nfts_for_sale: NFTsForSale,
}

impl<T: Config> Pallet<T> {
    /// The listings on offer.
    pub closed spec fn listings(&self) -> Listings {
        self.nfts_for_sale@
    }

    /// The ownership registry, the currency ledger and the event sink.
    pub closed spec fn spec_host(&self) -> &T {
        &self.host
    }

    /// The listing of `nft_id` by `seller`; the empty record if there is none.
    pub open spec fn spec_nft_for_sale(&self, nft_id: NFTId, seller: AccountId) -> SaleData {
        listing(self.listings(), nft_id, seller)
    }

    /// The collaborators can be called, and no listing offers zero units.
    pub open spec fn wf(&self) -> bool {
        &&& self.host().wf()
        &&& forall|key: (NFTId, AccountId)| #[trigger]
            self.listings().contains_key(key) ==> self.listings()[key].amount > 0
    }

    /// Listings, holdings, balances and the event log are what they are in `before`.
    pub open spec fn unchanged(&self, before: &Self) -> bool {
        &&& self.listings() == before.listings()
        &&& holdings_kept(before.host(), self.host())
        &&& balances_kept(before.host(), self.host())
        &&& self.host().events()@ == before.host().events()@
    }

    /// How a purchase ends: rejected by the marketplace's own rules, refused by the currency
    /// ledger, or done.
    pub open spec fn buy_outcome(
        &self,
        buyer: AccountId,
        nft_id: NFTId,
        seller: AccountId,
        amount: u128,
    ) -> Result<(), BuyError> {
        match purchase_price(
            self.nft_for_sale(nft_id, seller),
            self.host().owned(nft_id, seller),
            amount,
        ) {
            Err(error) => Err(BuyError::Module(error)),
            Ok(total) => match self.host().transfer_outcome(
                buyer,
                seller,
                total,
                ExistenceRequirement::KeepAlive,
            ) {
                Err(error) => Err(BuyError::Currency(error)),
                Ok(()) => Ok(()),
            },
        }
    }

    /// A marketplace without listings around `host`.
    pub fn new(host: T) -> (pallet: Pallet<T>)
        ensures
            *pallet.host() == host,
            pallet.listings() == Listings::empty(),
            host.wf() ==> pallet.wf(),
    {
        Pallet { host, nfts_for_sale: NFTsForSale::new() }
    }

    /// The collaborators, to read.
    #[verifier::when_used_as_spec(spec_host)]
    pub fn host(&self) -> (host: &T)
        ensures
            host == self.spec_host(),
    {
        &self.host
    }

    /// The collaborators, to change: what happens to holdings and balances outside the
    /// marketplace happens through this borrow. The listings stay as they are.
    pub fn host_mut(&mut self) -> (host: &mut T)
        ensures
            *host == *old(self).host(),
            *final(self).host() == *final(host),
            final(self).listings() == old(self).listings(),
    {
        &mut self.host
    }

    /// The listing of `nft_id` by `seller`; the empty record if there is none.
    #[verifier::when_used_as_spec(spec_nft_for_sale)]
    pub fn nft_for_sale(&self, nft_id: NFTId, seller: AccountId) -> (data: SaleData)
        ensures
            data == self.spec_nft_for_sale(nft_id, seller),
    {
        self.nfts_for_sale.get(nft_id, seller)
    }

    /// Lists `amount` units of `nft_id` at `price` each on behalf of the caller `origin`, in
    /// place of any listing the caller had for that asset.
    pub fn set_sale(&mut self, origin: AccountId, nft_id: NFTId, price: Balance, amount: u128) -> (result:
        Result<(), Error>)
        requires
            old(self).wf(),
        ensures
            final(self).wf(),
            result == sale_check(amount, old(self).host().owned(nft_id, origin)),
            amount == 0 ==> result == Err::<(), Error>(Error::ZeroAmount),
            amount > old(self).host().owned(nft_id, origin) ==> result == Err::<(), Error>(
                Error::NotEnoughOwned,
            ),
            result is Err ==> final(self).unchanged(old(self)),
            result is Ok ==> {
                &&& final(self).listings() == old(self).listings().insert(
                    (nft_id, origin),
                    SaleData { price, amount },
                )
                &&& final(self).nft_for_sale(nft_id, origin) == (SaleData { price, amount })
                &&& holdings_kept(old(self).host(), final(self).host())
                &&& balances_kept(old(self).host(), final(self).host())
                &&& final(self).host().events()@ == old(self).host().events()@.push(
                    Event::ListedForSale(nft_id, origin, price, amount),
                )
            },
    {
        let owned = self.host.amount_owned(nft_id, origin);
        match check_sale(amount, owned) {
            Ok(()) => {},
            Err(error) => {
                return Err(error);
            },
        }
        self.nfts_for_sale.insert(nft_id, origin, SaleData { price, amount });
        self.host.deposit_event(Event::ListedForSale(nft_id, origin, price, amount));
        proof {
            assert forall|key: (NFTId, AccountId)| #[trigger]
                self.listings().contains_key(key) implies self.listings()[key].amount > 0 by {
                if key != (nft_id, origin) {
                    assert(old(self).listings().contains_key(key));
                }
            }
        }
        Ok(())
    }

    /// Buys `amount` units of the listing of `nft_id` by `seller` on behalf of the caller
    /// `origin`: pays the seller, moves the units to the buyer, then removes or shrinks the
    /// listing. A purchase that fails leaves everything as it was.
    pub fn buy(&mut self, origin: AccountId, nft_id: NFTId, seller: AccountId, amount: u128) -> (result:
        Result<(), BuyError>)
        requires
            old(self).wf(),
        ensures
            final(self).wf(),
            result == old(self).buy_outcome(origin, nft_id, seller, amount),
            amount > old(self).nft_for_sale(nft_id, seller).amount ==> result == Err::<
                (),
                BuyError,
            >(BuyError::Module(Error::NotEnoughInSale)),
            amount <= old(self).nft_for_sale(nft_id, seller).amount && old(self).nft_for_sale(
                nft_id,
                seller,
            ).amount > old(self).host().owned(nft_id, seller) ==> result == Err::<(), BuyError>(
                BuyError::Module(Error::NotEnoughOwned),
            ),
            result is Err ==> final(self).unchanged(old(self)),
            result is Ok ==> {
                &&& balances_moved(
                    old(self).host(),
                    final(self).host(),
                    origin,
                    seller,
                    purchase_price(
                        old(self).nft_for_sale(nft_id, seller),
                        old(self).host().owned(nft_id, seller),
                        amount,
                    )->Ok_0,
                )
                &&& holdings_moved(old(self).host(), final(self).host(), nft_id, seller, origin, amount)
                &&& final(self).listings() == listings_after_purchase(
                    old(self).listings(),
                    nft_id,
                    seller,
                    amount,
                )
                &&& final(self).host().events()@ == old(self).host().events()@.push(
                    Event::Sold(nft_id, seller, origin, amount),
                )
            },
            result is Ok && amount == old(self).nft_for_sale(nft_id, seller).amount
                ==> !final(self).listings().contains_key((nft_id, seller)),
            result is Ok && amount < old(self).nft_for_sale(nft_id, seller).amount ==> {
                &&& final(self).listings().contains_key((nft_id, seller))
                &&& final(self).nft_for_sale(nft_id, seller) == (SaleData {
                    price: old(self).nft_for_sale(nft_id, seller).price,
                    amount: (old(self).nft_for_sale(nft_id, seller).amount - amount) as u128,
                })
            },
            result is Ok && origin != seller ==> {
                &&& final(self).host().owned(nft_id, origin) == old(self).host().owned(
                    nft_id,
                    origin,
                ) + amount
                &&& final(self).host().owned(nft_id, seller) == old(self).host().owned(
                    nft_id,
                    seller,
                ) - amount
            },
            result is Ok && origin != seller && old(self).nft_for_sale(nft_id, seller).price
                * amount <= Balance::MAX ==> {
                &&& final(self).host().free_balance(origin) == old(self).host().free_balance(origin)
                    - old(self).nft_for_sale(nft_id, seller).price * amount
                &&& final(self).host().free_balance(seller) == old(self).host().free_balance(seller)
                    + old(self).nft_for_sale(nft_id, seller).price * amount
            },
    {
        let buyer = origin;
        let sale_data = self.nfts_for_sale.get(nft_id, seller);
        let owned = self.host.amount_owned(nft_id, seller);
        let total_to_pay = match total_to_pay(sale_data, owned, amount) {
            Ok(total) => total,
            Err(error) => {
                return Err(BuyError::Module(error));
            },
        };
        match self.host.transfer_currency(
            buyer,
            seller,
            total_to_pay,
            ExistenceRequirement::KeepAlive,
        ) {
            Ok(()) => {},
            Err(error) => {
                return Err(BuyError::Currency(error));
            },
        }
        self.host.transfer_nft(nft_id, seller, buyer, amount);
        if amount == sale_data.amount {
            self.nfts_for_sale.remove(nft_id, seller);
        } else {
            self.nfts_for_sale.decrease_amount(nft_id, seller, amount);
        }
        self.host.deposit_event(Event::Sold(nft_id, seller, buyer, amount));
        Ok(())
    }
}

} // verus!
