//! What the module asks of its surroundings: the country registry, the
//! ledger and the liquidity pools.

use crate::types::{AccountId, Balance, CountryId, ModuleId, SocialTokenCurrencyId};
use sp_runtime::DispatchError;
use vstd::prelude::*;

verus! {

/// A request that changes a collaborator's state.
#[derive(Clone, Copy, Debug, PartialEq, Eq)]
pub enum HostCall {
    /// Record in the country registry that `country_id` now has `currency_id`.
    UpdateCountryToken { country_id: CountryId, currency_id: SocialTokenCurrencyId },
    /// Credit `amount` of `currency_id` to `who`.
    Deposit { currency_id: SocialTokenCurrencyId, who: AccountId, amount: Balance },
    /// Move `amount` of `currency_id` from `from` to `to`.
    Transfer { currency_id: SocialTokenCurrencyId, from: AccountId, to: AccountId, amount: Balance },
    /// Provide liquidity to the pool of the two tokens on behalf of `who`.
    AddLiquidity {
        who: AccountId,
        token_id_a: SocialTokenCurrencyId,
        token_id_b: SocialTokenCurrencyId,
        max_amount_a: Balance,
        max_amount_b: Balance,
    },
}

/// The collaborators of the module, as one value that holds their state.
///
/// An implementation answers for everything that its methods' contracts
/// say; nothing here proves it. The contracts say only this: what a method
/// returns, and the state it leaves, depend on nothing but the state before
/// the call and the arguments; and a snapshot is a copy of the state.
/// `answer` and `after` name that dependence; `owns`, `issuance` and
/// `treasury_module` name what the three queries return. No contract says
/// whether a request succeeds.
pub trait Config: Sized {
    /// The module identifier from which vaults are derived.
    spec fn treasury_module(&self) -> ModuleId;

    /// Whether `who` is the owner of `country_id`.
    spec fn owns(&self, who: AccountId, country_id: CountryId) -> bool;

    /// The total issuance of `currency_id`.
    spec fn issuance(&self, currency_id: SocialTokenCurrencyId) -> Balance;

    /// The answer to `call` in this state.
    spec fn answer(&self, call: HostCall) -> Result<(), DispatchError>;

    /// The state that `call` leaves.
    spec fn after(&self, call: HostCall) -> Self;

    /// A copy of the collaborators' state, to which an operation that
    /// fails midway goes back.
    fn snapshot(&self) -> (copy: Self)
        ensures
            copy == *self,
    ;

    /// The module identifier from which vaults are derived.
    fn social_token_treasury(&self) -> (module_id: ModuleId)
        ensures
            module_id == self.treasury_module(),
    ;

    /// Whether `who` is the owner of `country_id`.
    fn check_ownership(&self, who: &AccountId, country_id: &CountryId) -> (owner: bool)
        ensures
            owner == self.owns(*who, *country_id),
    ;

    /// Records that `country_id` now has `currency_id`.
    fn update_country_token(
        &mut self,
        country_id: CountryId,
        currency_id: SocialTokenCurrencyId,
    ) -> (result: Result<(), DispatchError>)
        ensures
            result == old(self).answer((HostCall::UpdateCountryToken { country_id, currency_id })),
            *final(self) == old(self).after(
                (HostCall::UpdateCountryToken { country_id, currency_id }),
            ),
    ;

    /// The total issuance of `currency_id`.
    fn total_issuance(&self, currency_id: SocialTokenCurrencyId) -> (amount: Balance)
        ensures
            amount == self.issuance(currency_id),
    ;

    /// Credits `amount` of `currency_id` to `who`.
    fn deposit(
        &mut self,
        currency_id: SocialTokenCurrencyId,
        who: &AccountId,
        amount: Balance,
    ) -> (result: Result<(), DispatchError>)
        ensures
            result == old(self).answer((HostCall::Deposit { currency_id, who: *who, amount })),
            *final(self) == old(self).after((HostCall::Deposit { currency_id, who: *who, amount })),
    ;

    /// Moves `amount` of `currency_id` from `from` to `to`.
    fn transfer(
        &mut self,
        currency_id: SocialTokenCurrencyId,
        from: &AccountId,
        to: &AccountId,
        amount: Balance,
    ) -> (result: Result<(), DispatchError>)
        ensures
            result == old(self).answer(
                (HostCall::Transfer { currency_id, from: *from, to: *to, amount }),
            ),
            *final(self) == old(self).after(
                (HostCall::Transfer { currency_id, from: *from, to: *to, amount }),
            ),
    ;

    /// Provides liquidity to the pool of the two tokens on behalf of `who`.
    fn add_liquidity(
        &mut self,
        who: &AccountId,
        token_id_a: SocialTokenCurrencyId,
        token_id_b: SocialTokenCurrencyId,
        max_amount_a: Balance,
        max_amount_b: Balance,
    ) -> (result: Result<(), DispatchError>)
        ensures
            result == old(self).answer(
                (HostCall::AddLiquidity {
                    who: *who,
                    token_id_a,
                    token_id_b,
                    max_amount_a,
                    max_amount_b,
                }),
            ),
            *final(self) == old(self).after(
                (HostCall::AddLiquidity {
                    who: *who,
                    token_id_a,
                    token_id_b,
                    max_amount_a,
                    max_amount_b,
                }),
            ),
    ;
}

} // verus!
