//! The registry as a mathematical value, and what each operation makes of it.

use crate::account::{spec_default_account, vault_of};
use crate::host::{Config, HostCall};
use crate::ratio::{spec_admitted, spec_initial_pool_supply, spec_supply_percent};
use crate::types::{
    AccountId, Balance, CountryFund, CountryId, Error, Event, Failure, SocialTokenCurrencyId,
    TokenId, TokenRecord,
};
use vstd::prelude::*;

verus! {

/// Everything an operation can read or change: the collaborators, the
/// counter of the next currency number, the token records, the treasuries,
/// and the events announced so far.
pub struct State<T> {
    pub host: T,
    pub next_token_id: TokenId,
    pub social_tokens: Map<TokenId, TokenRecord>,
    pub country_treasury: Map<CountryId, CountryFund>,
    pub events: Seq<Event>,
}

/// A request to issue a token.
pub struct MintRequest {
    pub who: AccountId,
    pub ticker: Seq<u8>,
    pub country_id: CountryId,
    pub total_supply: Balance,
    pub initial_lp: (u32, u32),
    pub initial_backing: Balance,
}

/// The number handed out at the given counter, and the counter after it:
/// the first number is 1, every later one is the counter itself, and there
/// is none where the counter cannot grow.
pub open spec fn spec_allocate(counter: TokenId) -> Option<(TokenId, TokenId)> {
    if counter == 0 {
        Some((1u64, 2u64))
    } else if counter == u64::MAX {
        None
    } else {
        Some((counter, (counter + 1) as u64))
    }
}

/// How many numbers have been handed out when the counter stands at `counter`.
pub open spec fn spec_issued(counter: TokenId) -> nat {
    if counter == 0 {
        0
    } else {
        (counter - 1) as nat
    }
}

impl<T: Config> State<T> {
    /// The state before anything was issued.
    pub open spec fn genesis(host: T) -> Self {
        State {
            host,
            next_token_id: 0,
            social_tokens: Map::empty(),
            country_treasury: Map::empty(),
            events: Seq::empty(),
        }
    }

    /// How many currencies have been issued.
    pub open spec fn issued(self) -> nat {
        spec_issued(self.next_token_id)
    }

    /// Whether the treasury of `country_id` names an issued token whose
    /// record shows the supply that the treasury shows.
    pub open spec fn fund_is_recorded(self, country_id: CountryId) -> bool {
        let fund = self.country_treasury[country_id];
        &&& fund.currency_id is SocialToken
        &&& self.social_tokens.contains_key(fund.currency_id->SocialToken_0)
        &&& self.social_tokens[fund.currency_id->SocialToken_0].total_supply == fund.value
    }

    /// What holds of every state that the operations reach: the token
    /// records are those of the numbers `1` to `issued()`, without gaps;
    /// every treasury names a recorded token; and no two countries share a
    /// currency.
    pub open spec fn wf(self) -> bool {
        &&& self.next_token_id != 1
        &&& forall|k: TokenId| #[trigger]
            self.social_tokens.contains_key(k) <==> 1 <= k <= self.issued()
        &&& forall|c: CountryId| #[trigger]
            self.country_treasury.contains_key(c) ==> self.fund_is_recorded(c)
        &&& forall|c: CountryId, d: CountryId|
            #[trigger] self.country_treasury.contains_key(c)
                && #[trigger] self.country_treasury.contains_key(d) && c != d
                ==> self.country_treasury[c].currency_id != self.country_treasury[d].currency_id
    }

    /// The part of the supply that the request gives to the pool.
    pub open spec fn pool_supply(request: MintRequest) -> Balance {
        spec_initial_pool_supply(request.total_supply, request.initial_lp)
    }

    /// The reason for which this module itself refuses the request, if it
    /// does: the first of the four checks that fails, in their order.
    pub open spec fn refusal(self, request: MintRequest) -> Option<Error> {
        if !self.host.owns(request.who, request.country_id) {
            Some(Error::NoPermissionTokenIssuance)
        } else if self.country_treasury.contains_key(request.country_id) {
            Some(Error::SocialTokenAlreadyIssued)
        } else if !spec_admitted(
            spec_supply_percent(Self::pool_supply(request), request.total_supply),
        ) {
            Some(Error::InitialSocialTokenSupplyIsTooLow)
        } else if spec_allocate(self.next_token_id) is None {
            Some(Error::NoAvailableTokenId)
        } else {
            None
        }
    }

    /// The currency that the request would be given.
    pub open spec fn minted_currency(self) -> SocialTokenCurrencyId {
        SocialTokenCurrencyId::SocialToken(spec_allocate(self.next_token_id)->Some_0.0)
    }

    /// The vault of a country's treasury.
    pub open spec fn vault(self, country_id: CountryId) -> AccountId {
        vault_of(self.host.treasury_module(), country_id)
    }

    /// The first request that an issuance makes of the collaborators: to
    /// the country registry, to record the new currency.
    pub open spec fn registry_call(self, request: MintRequest) -> HostCall {
        HostCall::UpdateCountryToken {
            country_id: request.country_id,
            currency_id: self.minted_currency(),
        }
    }

    /// The second request: to the ledger, to credit the whole supply to
    /// the requester.
    pub open spec fn ledger_call(self, request: MintRequest) -> HostCall {
        HostCall::Deposit {
            currency_id: self.minted_currency(),
            who: request.who,
            amount: request.total_supply,
        }
    }

    /// The third request: to the pools, to pair the backing in the native
    /// currency with the pool's part of the new one.
    pub open spec fn pool_call(self, request: MintRequest) -> HostCall {
        HostCall::AddLiquidity {
            who: request.who,
            token_id_a: SocialTokenCurrencyId::NativeToken(0),
            token_id_b: self.minted_currency(),
            max_amount_a: request.initial_backing,
            max_amount_b: Self::pool_supply(request),
        }
    }

    /// The state that a fully successful issuance leaves, given the state
    /// in which the collaborators are by then.
    pub open spec fn issue(self, request: MintRequest, host: T) -> Self {
        let currency_id = self.minted_currency();
        let vault = self.vault(request.country_id);
        State {
            host,
            next_token_id: spec_allocate(self.next_token_id)->Some_0.1,
            social_tokens: self.social_tokens.insert(
                currency_id->SocialToken_0,
                TokenRecord { ticker: request.ticker, total_supply: request.total_supply },
            ),
            country_treasury: self.country_treasury.insert(
                request.country_id,
                CountryFund {
                    vault,
                    value: request.total_supply,
                    backing: request.initial_backing,
                    currency_id,
                },
            ),
            events: self.events.push(
                Event::SocialTokenIssued(
                    currency_id,
                    request.who,
                    vault,
                    request.total_supply,
                    request.country_id,
                ),
            ),
        }
    }

    /// The same state, with the collaborators in another.
    pub open spec fn with_host(self, host: T) -> Self {
        State { host, ..self }
    }

    /// What issuing a token makes of the state, and what it answers.
    ///
    /// A request that this module refuses changes nothing. Otherwise the
    /// three collaborators are asked in turn, and the first that fails ends
    /// the issuance, which then has changed nothing either: what the
    /// collaborators did up to there is undone. Only when all three agreed
    /// are the counter, the two records and the event written, and the
    /// collaborators left as the three requests left them.
    pub open spec fn mint_token(self, request: MintRequest) -> (Self, Result<(), Failure>) {
        let registered = self.host.after(self.registry_call(request));
        let credited = registered.after(self.ledger_call(request));
        let provided = credited.after(self.pool_call(request));
        match self.refusal(request) {
            Some(error) => (self, Err(Failure::Module(error))),
            None => match self.host.answer(self.registry_call(request)) {
                Err(_) => (self, Err(Failure::Module(Error::FailedOnUpdatingSocialToken))),
                Ok(_) => match registered.answer(self.ledger_call(request)) {
                    Err(error) => (self, Err(Failure::Collaborator(error))),
                    Ok(_) => match credited.answer(self.pool_call(request)) {
                        Err(error) => (self, Err(Failure::Collaborator(error))),
                        Ok(_) => (self.issue(request, provided), Ok(())),
                    },
                },
            },
        }
    }

    /// The currency numbers that the successful ones among the requests
    /// are given, when the requests are made one after the other.
    pub open spec fn minted_ids(self, requests: Seq<MintRequest>) -> Seq<TokenId>
        decreases requests.len(),
    {
        if requests.len() == 0 {
            Seq::empty()
        } else {
            let (next, result) = self.mint_token(requests[0]);
            let later = next.minted_ids(requests.drop_first());
            if result is Ok {
                seq![self.minted_currency()->SocialToken_0] + later
            } else {
                later
            }
        }
    }

    /// The request that a transfer makes of the ledger.
    pub open spec fn transfer_call(
        currency_id: SocialTokenCurrencyId,
        from: AccountId,
        to: AccountId,
        amount: Balance,
    ) -> HostCall {
        HostCall::Transfer { currency_id, from, to, amount }
    }

    /// What a transfer makes of the state, and what it answers: nothing
    /// where the amount is zero or the two accounts are one; otherwise the
    /// ledger is asked. Where it agrees, its state is what it made of the
    /// request, and an event is added. Where it fails, its error is the
    /// answer and nothing has changed.
    pub open spec fn transfer(
        self,
        currency_id: SocialTokenCurrencyId,
        from: AccountId,
        to: AccountId,
        amount: Balance,
    ) -> (Self, Result<(), Failure>) {
        let call = Self::transfer_call(currency_id, from, to, amount);
        if amount == 0 || from == to {
            (self, Ok(()))
        } else {
            match self.host.answer(call) {
                Err(error) => (self, Err(Failure::Collaborator(error))),
                Ok(_) => (
                    State {
                        host: self.host.after(call),
                        events: self.events.push(
                            Event::SocialTokenTransferred(currency_id, from, to, amount),
                        ),
                        ..self
                    },
                    Ok(()),
                ),
            }
        }
    }

    /// The total issuance of the currency of `country_id`, as the ledger
    /// has it; an error where the country has no treasury.
    pub open spec fn total_issuance(self, country_id: CountryId) -> Result<Balance, Failure> {
        if self.country_treasury.contains_key(country_id) {
            Ok(self.host.issuance(self.country_treasury[country_id].currency_id))
        } else {
            Err(Failure::Module(Error::CountryFundIsNotAvailable))
        }
    }

    /// The vault of `country_id`, or the account that stands for "none"
    /// where the country has no treasury.
    pub open spec fn country_fund_id(self, country_id: CountryId) -> AccountId {
        if self.country_treasury.contains_key(country_id) {
            self.country_treasury[country_id].vault
        } else {
            spec_default_account()
        }
    }

    /// The record of `currency_id`, or an empty record where none was made.
    pub open spec fn token_details(self, currency_id: SocialTokenCurrencyId) -> TokenRecord {
        match currency_id {
            SocialTokenCurrencyId::SocialToken(id) if self.social_tokens.contains_key(id) =>
                self.social_tokens[id],
            _ => TokenRecord { ticker: Seq::empty(), total_supply: 0 },
        }
    }
}

} // verus!
