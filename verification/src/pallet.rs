//! The registry itself: issuing a token for a country, transferring it, and
//! the queries on what was issued.

use crate::account::{default_account, fund_account, same_account};
use crate::host::Config;
use crate::model::{spec_allocate, MintRequest, State};
use crate::ratio::{admitted, initial_pool_supply, supply_percent};
use crate::types::{
    AccountId, Balance, CountryFund, CountryId, Error, Event, Failure, SocialTokenCurrencyId,
    Ticker, Token, TokenId,
};
use std::collections::HashMap;
use vstd::prelude::*;

verus! {

broadcast use vstd::std_specs::hash::group_hash_axioms;

/// The registry of issued tokens, with the collaborators it works through.
pub struct Pallet<T: Config> {
    host: T,
    next_token_id: TokenId,
    social_tokens: HashMap<TokenId, Token<Balance>>,
    country_treasury: HashMap<CountryId, CountryFund>,
    events: Vec<Event>,
}

/// The registry, under the name that the queries are found by.
pub type Module<T> = Pallet<T>;

/// Hands out the next currency: the first is number 1, each later one is
/// the counter itself, which then grows by one. Where the counter cannot
/// grow there is no currency, and the counter stays.
pub fn allocate_token_id(next_token_id: &mut TokenId) -> (result: Result<SocialTokenCurrencyId, Error>)
    ensures
        (match spec_allocate(*old(next_token_id)) {
            Some((id, counter)) => result == Ok::<SocialTokenCurrencyId, Error>(
                SocialTokenCurrencyId::SocialToken(id),
            ) && *final(next_token_id) == counter,
            None => result == Err::<SocialTokenCurrencyId, Error>(Error::NoAvailableTokenId)
                && *final(next_token_id) == *old(next_token_id),
        }),
{
    let current_id: TokenId = *next_token_id;
    if current_id == 0 {
        *next_token_id = 2;
        Ok(SocialTokenCurrencyId::SocialToken(1))
    } else {
        match current_id.checked_add(1) {
            Some(next) => {
                *next_token_id = next;
                Ok(SocialTokenCurrencyId::SocialToken(current_id))
            },
            None => Err(Error::NoAvailableTokenId),
        }
    }
}

impl<T: Config> View for Pallet<T> {
    type V = State<T>;

    closed spec fn view(&self) -> State<T> {
        State {
            host: self.host,
            next_token_id: self.next_token_id,
            social_tokens: self.social_tokens@.map_values(|token: Token<Balance>| token@),
            country_treasury: self.country_treasury@,
            events: self.events@,
        }
    }
}

impl<T: Config> Pallet<T> {
    /// Whether the registry is in a state that the operations reach.
    pub open spec fn wf(&self) -> bool {
        self@.wf()
    }

    /// A registry in which nothing has been issued, over the given
    /// collaborators.
    pub fn new(host: T) -> (pallet: Self)
        ensures
            pallet.wf(),
            pallet@ == State::genesis(host),
    {
        let pallet = Pallet {
            host,
            next_token_id: 0,
            social_tokens: HashMap::new(),
            country_treasury: HashMap::new(),
            events: Vec::new(),
        };
        proof {
            assert(pallet@.social_tokens =~= Map::empty());
            assert(pallet@.country_treasury =~= Map::empty());
        }
        pallet
    }

    /// The collaborators.
    pub fn host(&self) -> (host: &T)
        ensures
            *host == self@.host,
    {
        &self.host
    }

    /// The collaborators, to work on them from outside: nothing of the
    /// registry's own changes with them.
    pub fn host_mut(&mut self) -> (host: &mut T)
        ensures
            *host == old(self)@.host,
            final(self)@ == old(self)@.with_host(*final(host)),
            old(self).wf() ==> final(self).wf(),
    {
        let ghost before = self@;
        let host = &mut self.host;
        proof {
            if before.wf() {
                crate::laws::lemma_host_is_apart(before);
                assert(before.with_host(*final(host)).wf());
            }
        }
        host
    }

    /// The events announced so far, oldest first.
    pub fn events(&self) -> (events: &Vec<Event>)
        ensures
            events@ == self@.events,
    {
        &self.events
    }

    /// The counter from which the next currency number is taken.
    pub fn next_token_id(&self) -> (counter: TokenId)
        ensures
            counter == self@.next_token_id,
    {
        self.next_token_id
    }

    /// The record of `currency_id`, or an empty record where none was made.
    pub fn token_details(&self, currency_id: SocialTokenCurrencyId) -> (token: Token<Balance>)
        ensures
            token@ == self@.token_details(currency_id),
    {
        match currency_id {
            SocialTokenCurrencyId::SocialToken(id) => match self.social_tokens.get(&id) {
                Some(found) => {
                    let ticker = found.ticker.clone();
                    proof {
                        assert(ticker@ =~= found.ticker@);
                    }
                    Token { ticker, total_supply: found.total_supply }
                },
                None => Token { ticker: Vec::new(), total_supply: 0 },
            },
            SocialTokenCurrencyId::NativeToken(_) => Token { ticker: Vec::new(), total_supply: 0 },
        }
    }

    /// The treasury of `country_id`, if it has one.
    pub fn get_country_treasury(&self, country_id: CountryId) -> (fund: Option<CountryFund>)
        ensures
            fund == (if self@.country_treasury.contains_key(country_id) {
                Some(self@.country_treasury[country_id])
            } else {
                None
            }),
    {
        match self.country_treasury.get(&country_id) {
            Some(fund) => Some(*fund),
            None => None,
        }
    }

    /// Issues a token for `country_id` on behalf of `who`: `total_supply` of
    /// a new currency is credited to `who`, and the part of it that the
    /// ratio `initial_lp` gives goes to a liquidity pool, paired with
    /// `initial_backing` of the native currency. An issuance that fails
    /// leaves everything as it was, the collaborators too.
    pub fn mint_token(
        &mut self,
        who: &AccountId,
        ticker: Ticker,
        country_id: CountryId,
        total_supply: Balance,
        initial_lp: (u32, u32),
        initial_backing: Balance,
    ) -> (result: Result<(), Failure>)
        requires
            old(self).wf(),
        ensures
            final(self).wf(),
            (final(self)@, result) == old(self)@.mint_token(
                (MintRequest {
                    who: *who,
                    ticker: ticker@,
                    country_id,
                    total_supply,
                    initial_lp,
                    initial_backing,
                }),
            ),
    {
        let ghost request = MintRequest {
            who: *who,
            ticker: ticker@,
            country_id,
            total_supply,
            initial_lp,
            initial_backing,
        };
        let ghost before = self@;
        proof {
            crate::laws::lemma_mint_keeps_wf(before, request);
        }
        if !self.host.check_ownership(who, &country_id) {
            return Err(Failure::Module(Error::NoPermissionTokenIssuance));
        }
        if self.country_treasury.contains_key(&country_id) {
            return Err(Failure::Module(Error::SocialTokenAlreadyIssued));
        }
        let pool_supply: Balance = initial_pool_supply(total_supply, initial_lp);
        let percent: u128 = supply_percent(pool_supply, total_supply);
        if !admitted(percent) {
            return Err(Failure::Module(Error::InitialSocialTokenSupplyIsTooLow));
        }
        let mut next_token_id: TokenId = self.next_token_id;
        let currency_id = match allocate_token_id(&mut next_token_id) {
            Ok(currency_id) => currency_id,
            Err(error) => {
                return Err(Failure::Module(error));
            },
        };
        let token_id: TokenId = match currency_id {
            SocialTokenCurrencyId::SocialToken(id) => id,
            SocialTokenCurrencyId::NativeToken(id) => id,
        };
        let fund_id = fund_account(self.host.social_token_treasury(), country_id);
        let country_fund = CountryFund {
            vault: fund_id,
            value: total_supply,
            backing: initial_backing,
            currency_id,
        };
        let token_info = Token { ticker, total_supply };

        let saved = self.host.snapshot();
        if self.host.update_country_token(country_id, currency_id).is_err() {
            self.host = saved;
            return Err(Failure::Module(Error::FailedOnUpdatingSocialToken));
        }
        if let Err(error) = self.host.deposit(currency_id, who, total_supply) {
            self.host = saved;
            return Err(Failure::Collaborator(error));
        }
        if let Err(error) = self.host.add_liquidity(
            who,
            SocialTokenCurrencyId::NativeToken(0),
            currency_id,
            initial_backing,
            pool_supply,
        ) {
            self.host = saved;
            return Err(Failure::Collaborator(error));
        }
        self.next_token_id = next_token_id;
        self.social_tokens.insert(token_id, token_info);
        self.country_treasury.insert(country_id, country_fund);
        self.events.push(
            Event::SocialTokenIssued(currency_id, *who, fund_id, total_supply, country_id),
        );
        proof {
            let after = before.mint_token(request).0;
            assert(self@.social_tokens =~= after.social_tokens);
            assert(self@.country_treasury =~= after.country_treasury);
            assert(self@.events =~= after.events);
        }
        Ok(())
    }

    /// Moves `amount` of `currency_id` from `who` to `dest`.
    pub fn transfer(
        &mut self,
        who: &AccountId,
        dest: &AccountId,
        currency_id: SocialTokenCurrencyId,
        amount: Balance,
    ) -> (result: Result<(), Failure>)
        requires
            old(self).wf(),
        ensures
            final(self).wf(),
            (final(self)@, result) == old(self)@.transfer(currency_id, *who, *dest, amount),
    {
        self.transfer_from(currency_id, who, dest, amount)
    }
}

impl<T: Config> Module<T> {
    /// Moves `amount` of `currency_id` from `from` to `to` through the
    /// ledger. A transfer of nothing, or from an account to itself, is done
    /// without asking the ledger. A transfer that the ledger refuses leaves
    /// everything as it was.
    fn transfer_from(
        &mut self,
        currency_id: SocialTokenCurrencyId,
        from: &AccountId,
        to: &AccountId,
        amount: Balance,
    ) -> (result: Result<(), Failure>)
        requires
            old(self).wf(),
        ensures
            final(self).wf(),
            (final(self)@, result) == old(self)@.transfer(currency_id, *from, *to, amount),
    {
        proof {
            crate::laws::lemma_transfer_keeps_wf(self@, currency_id, *from, *to, amount);
        }
        if amount == 0 || same_account(from, to) {
            return Ok(());
        }
        let saved = self.host.snapshot();
        if let Err(error) = self.host.transfer(currency_id, from, to, amount) {
            self.host = saved;
            return Err(Failure::Collaborator(error));
        }
        self.events.push(Event::SocialTokenTransferred(currency_id, *from, *to, amount));
        Ok(())
    }

    /// The total issuance of the currency that was issued for `country_id`.
    pub fn get_total_issuance(&self, country_id: CountryId) -> (result: Result<Balance, Failure>)
        ensures
            result == self@.total_issuance(country_id),
    {
        match self.country_treasury.get(&country_id) {
            Some(country_fund) => Ok(self.host.total_issuance(country_fund.currency_id)),
            None => Err(Failure::Module(Error::CountryFundIsNotAvailable)),
        }
    }

    /// The vault of `country_id`, or the account that stands for "none"
    /// where the country has no treasury.
    pub fn get_country_fund_id(&self, country_id: CountryId) -> (account: AccountId)
        ensures
            account == self@.country_fund_id(country_id),
    {
        match self.country_treasury.get(&country_id) {
            Some(fund) => fund.vault,
            None => default_account(),
        }
    }
}

} // verus!
