use crate::types::{AccountId, Balance, Event, ExistenceRequirement, NFTId};
use frame_support::sp_runtime::DispatchError;
use vstd::prelude::*;

verus! {

/// `DispatchError` of `sp_runtime`: the reason that a currency ledger gives for a failed
/// transfer. The marketplace never looks inside one; it hands it on as it came.
#[verifier::external_type_specification]
#[verifier::external_body]
pub struct ExDispatchError(frame_support::sp_runtime::DispatchError);

/// What a quantity held by `who` becomes when `amount` passes from `from` to `to`.
pub open spec fn after_transfer(
    before: int,
    who: AccountId,
    from: AccountId,
    to: AccountId,
    amount: int,
) -> int {
    before - (if who == from {
        amount
    } else {
        0
    }) + (if who == to {
        amount
    } else {
        0
    })
}

/// A transfer takes from the giving account exactly what it adds to the receiving one; it
/// leaves every other account as it was, and so an account that gives to itself.
pub proof fn lemma_after_transfer(
    before: int,
    who: AccountId,
    from: AccountId,
    to: AccountId,
    amount: int,
)
    ensures
        from == to ==> after_transfer(before, who, from, to, amount) == before,
        who != from && who != to ==> after_transfer(before, who, from, to, amount) == before,
        from != to && who == from ==> after_transfer(before, who, from, to, amount) == before
            - amount,
        from != to && who == to ==> after_transfer(before, who, from, to, amount) == before
            + amount,
{
}

/// The collaborators of the marketplace: the ownership registry, the currency ledger and the
/// event sink. The embedding runtime implements this trait.
///
/// The marketplace is proved against the contracts below. They are demands on the
/// implementation, and nothing here checks that an implementation meets them:
/// - the registry reports holdings, and moves exactly the amount asked for between two accounts
///   whenever the giving account holds that much (so in a valid state the holdings of an asset
///   never add up to more than a `u128` can hold);
/// - the currency ledger decides on each transfer from its present state alone
///   (`transfer_outcome`); an accepted transfer moves exactly `value`, a refused one moves
///   nothing, whatever it had begun;
/// - the sink appends each event to its log;
/// - none of the three touches what the other two hold.
pub trait Config {
    /// The states in which the collaborators can be called.
    spec fn wf(&self) -> bool;

    /// How many units of `nft_id` the account `who` holds.
    spec fn owned(&self, nft_id: NFTId, who: AccountId) -> u128;

    /// The free currency balance of `who`.
    spec fn free_balance(&self, who: AccountId) -> Balance;

    /// What the currency ledger answers, in the present state, to a transfer of `value` from
    /// `source` to `dest`.
    spec fn transfer_outcome(
        &self,
        source: AccountId,
        dest: AccountId,
        value: Balance,
        existence_requirement: ExistenceRequirement,
    ) -> Result<(), DispatchError>;

    /// The events deposited so far, oldest first.
    spec fn events(&self) -> Vec<Event>;

    /// Reads the holdings of `who` from the ownership registry.
    fn amount_owned(&self, nft_id: NFTId, who: AccountId) -> (amount: u128)
        requires
            self.wf(),
        ensures
            amount == self.owned(nft_id, who),
    ;

    /// Moves `amount` units of `nft_id` from `from` to `to` in the ownership registry.
    fn transfer_nft(&mut self, nft_id: NFTId, from: AccountId, to: AccountId, amount: u128)
        requires
            old(self).wf(),
            amount <= old(self).owned(nft_id, from),
        ensures
            final(self).wf(),
            forall|id: NFTId, who: AccountId| #[trigger]
                final(self).owned(id, who) == (if id == nft_id {
                    after_transfer(old(self).owned(id, who) as int, who, from, to, amount as int)
                } else {
                    old(self).owned(id, who) as int
                }),
            forall|who: AccountId| #[trigger]
                final(self).free_balance(who) == old(self).free_balance(who),
            final(self).events()@ == old(self).events()@,
    ;

    /// Asks the currency ledger to move `value` from `source` to `dest`.
    fn transfer_currency(
        &mut self,
        source: AccountId,
        dest: AccountId,
        value: Balance,
        existence_requirement: ExistenceRequirement,
    ) -> (outcome: Result<(), DispatchError>)
        requires
            old(self).wf(),
        ensures
            final(self).wf(),
            outcome == old(self).transfer_outcome(source, dest, value, existence_requirement),
            forall|who: AccountId| #[trigger]
                final(self).free_balance(who) == (if outcome is Ok {
                    after_transfer(
                        old(self).free_balance(who) as int,
                        who,
                        source,
                        dest,
                        value as int,
                    )
                } else {
                    old(self).free_balance(who) as int
                }),
            forall|id: NFTId, who: AccountId| #[trigger]
                final(self).owned(id, who) == old(self).owned(id, who),
            final(self).events()@ == old(self).events()@,
    ;

    /// Hands `event` to the sink.
    fn deposit_event(&mut self, event: Event)
        requires
            old(self).wf(),
        ensures
            final(self).wf(),
            final(self).events()@ == old(self).events()@.push(event),
            forall|id: NFTId, who: AccountId| #[trigger]
                final(self).owned(id, who) == old(self).owned(id, who),
            forall|who: AccountId| #[trigger]
                final(self).free_balance(who) == old(self).free_balance(who),
    ;
}

/// No account's holdings differ between the two states.
pub open spec fn holdings_kept<T: Config>(before: &T, after: &T) -> bool {
    forall|id: NFTId, who: AccountId| #[trigger] after.owned(id, who) == before.owned(id, who)
}

/// No account's balance differs between the two states.
pub open spec fn balances_kept<T: Config>(before: &T, after: &T) -> bool {
    forall|who: AccountId| #[trigger] after.free_balance(who) == before.free_balance(who)
}

/// Between the two states `amount` units of `nft_id` have passed from `from` to `to`, and no
/// other holding has changed.
pub open spec fn holdings_moved<T: Config>(
    before: &T,
    after: &T,
    nft_id: NFTId,
    from: AccountId,
    to: AccountId,
    amount: u128,
) -> bool {
    forall|id: NFTId, who: AccountId| #[trigger]
        after.owned(id, who) == (if id == nft_id {
            after_transfer(before.owned(id, who) as int, who, from, to, amount as int)
        } else {
            before.owned(id, who) as int
        })
}

/// Between the two states `value` has passed from `source` to `dest`, and no other balance has
/// changed.
pub open spec fn balances_moved<T: Config>(
    before: &T,
    after: &T,
    source: AccountId,
    dest: AccountId,
    value: Balance,
) -> bool {
    forall|who: AccountId| #[trigger]
        after.free_balance(who) == after_transfer(
            before.free_balance(who) as int,
            who,
            source,
            dest,
            value as int,
        )
}

} // verus!
