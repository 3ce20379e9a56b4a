use crate::types::{Balance, Error, SaleData};
use vstd::prelude::*;

verus! {

/// The product of a unit price and a quantity, clamped to the largest balance.
pub open spec fn saturating_product(price: nat, quantity: nat) -> nat {
    if price * quantity > Balance::MAX {
        Balance::MAX as nat
    } else {
        price * quantity
    }
}

/// Whether `amount` units may be listed by an account that holds `owned` of them.
pub open spec fn sale_check(amount: u128, owned: u128) -> Result<(), Error> {
    if amount == 0 {
        Err(Error::ZeroAmount)
    } else if owned < amount {
        Err(Error::NotEnoughOwned)
    } else {
        Ok(())
    }
}

/// What `amount` units cost against the listing `sale_data` while the seller holds `owned`
/// units, or the reason for which the purchase is rejected.
pub open spec fn purchase_price(sale_data: SaleData, owned: u128, amount: u128) -> Result<
    Balance,
    Error,
> {
    if amount > sale_data.amount {
        Err(Error::NotEnoughInSale)
    } else if sale_data.amount > owned {
        Err(Error::NotEnoughOwned)
    } else if amount > Balance::MAX {
        Err(Error::Conversion)
    } else {
        Ok(saturating_product(sale_data.price as nat, amount as nat) as Balance)
    }
}

/// A listing that was accepted when it was made is refused at purchase, whatever part of it is
/// asked for, once the seller holds less than it offers.
pub proof fn lemma_stale_listing_is_refused(
    price: Balance,
    listed: u128,
    owned_at_listing: u128,
    owned_at_purchase: u128,
    requested: u128,
)
    requires
        sale_check(listed, owned_at_listing) is Ok,
        owned_at_purchase < listed,
        requested <= listed,
    ensures
        purchase_price(SaleData { price, amount: listed }, owned_at_purchase, requested) == Err::<
            Balance,
            Error,
        >(Error::NotEnoughOwned),
{
}

/// `Saturating::saturating_mul` of `sp_runtime`, on two balances: their product where it fits
/// in a balance, the largest balance where it does not.
#[verifier::external_body]
fn saturating_mul(price: Balance, quantity: Balance) -> (total: Balance)
    ensures
        total == saturating_product(price as nat, quantity as nat),
{
    frame_support::sp_runtime::traits::Saturating::saturating_mul(price, quantity)
}

/// Decides whether a listing of `amount` units is accepted from an account that holds `owned`.
pub fn check_sale(amount: u128, owned: u128) -> (checked: Result<(), Error>)
    ensures
        checked == sale_check(amount, owned),
        amount == 0 ==> checked == Err::<(), Error>(Error::ZeroAmount),
        amount > owned ==> checked == Err::<(), Error>(Error::NotEnoughOwned),
        checked is Ok <==> 0 < amount <= owned,
{
    if amount == 0 {
        return Err(Error::ZeroAmount);
    }
    if owned < amount {
        return Err(Error::NotEnoughOwned);
    }
    Ok(())
}

/// Validates a purchase of `amount` units against the listing `sale_data` and the seller's
/// present holdings `owned`, and prices it: unit price times amount, saturating.
pub fn total_to_pay(sale_data: SaleData, owned: u128, amount: u128) -> (total: Result<
    Balance,
    Error,
>)
    ensures
        total == purchase_price(sale_data, owned, amount),
        amount > sale_data.amount ==> total == Err::<Balance, Error>(Error::NotEnoughInSale),
        amount <= sale_data.amount && sale_data.amount > owned ==> total == Err::<Balance, Error>(
            Error::NotEnoughOwned,
        ),
        total is Ok <==> amount <= sale_data.amount <= owned && amount <= Balance::MAX,
        total matches Ok(paid) ==> {
            &&& sale_data.price * amount <= Balance::MAX ==> paid == sale_data.price * amount
            &&& sale_data.price * amount > Balance::MAX ==> paid == Balance::MAX
        },
{
    if amount > sale_data.amount {
        return Err(Error::NotEnoughInSale);
    }
    if sale_data.amount > owned {
        return Err(Error::NotEnoughOwned);
    }
    match Balance::try_from(amount) {
        Ok(quantity) => Ok(saturating_mul(sale_data.price, quantity)),
        Err(_) => Err(Error::Conversion),
    }
}

} // verus!
