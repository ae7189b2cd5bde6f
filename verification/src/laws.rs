//! What holds of the registry whatever is asked of it.

use crate::host::Config;
use crate::model::{spec_allocate, MintRequest, State};
use crate::ratio::{spec_admitted, spec_supply_percent, MIN_SUPPLY_PERCENT};
use crate::types::{
    AccountId, Balance, CountryId, Error, Event, Failure, SocialTokenCurrencyId, TokenId,
};
use vstd::prelude::*;

verus! {

/// Issuing a token, whether it succeeds or not, leaves the registry in a
/// state in which the token records have no gaps, every treasury names a
/// recorded token, and no two countries share a currency.
pub proof fn lemma_mint_keeps_wf<T: Config>(state: State<T>, request: MintRequest)
    requires
        state.wf(),
    ensures
        state.mint_token(request).0.wf(),
{
    let after = state.mint_token(request).0;
    if state.mint_token(request).1 is Ok {
        let id = spec_allocate(state.next_token_id)->Some_0.0;
        assert(!state.social_tokens.contains_key(id));
        assert forall|c: u64| #[trigger] after.country_treasury.contains_key(c) implies after.fund_is_recorded(c) by {
            if c != request.country_id {
                assert(state.country_treasury.contains_key(c));
                assert(state.fund_is_recorded(c));
            }
        }
        assert forall|c: u64, d: u64|
            #[trigger] after.country_treasury.contains_key(c)
                && #[trigger] after.country_treasury.contains_key(d) && c != d
            implies after.country_treasury[c].currency_id != after.country_treasury[d].currency_id by {
            if c != request.country_id {
                assert(state.country_treasury.contains_key(c));
                assert(state.fund_is_recorded(c));
            }
            if d != request.country_id {
                assert(state.country_treasury.contains_key(d));
                assert(state.fund_is_recorded(d));
            }
        }
    }
}

/// What the collaborators do among themselves takes nothing from the
/// registry: it is well formed with any of their states if it is with one.
pub proof fn lemma_host_is_apart<T: Config>(state: State<T>)
    requires
        state.wf(),
    ensures
        forall|host: T| (#[trigger] state.with_host(host)).wf(),
{
    assert forall|host: T| (#[trigger] state.with_host(host)).wf() by {
        let other = state.with_host(host);
        assert forall|c: u64| #[trigger] other.country_treasury.contains_key(c) implies other.fund_is_recorded(c) by {
            assert(state.fund_is_recorded(c));
        }
    }
}

/// A transfer, whether it succeeds or not, leaves the counter, the token
/// records and the treasuries as they were.
pub proof fn lemma_transfer_keeps_wf<T: Config>(
    state: State<T>,
    currency_id: SocialTokenCurrencyId,
    from: AccountId,
    to: AccountId,
    amount: Balance,
)
    requires
        state.wf(),
    ensures
        state.transfer(currency_id, from, to, amount).0.wf(),
        state.transfer(currency_id, from, to, amount).0.next_token_id == state.next_token_id,
        state.transfer(currency_id, from, to, amount).0.social_tokens == state.social_tokens,
        state.transfer(currency_id, from, to, amount).0.country_treasury == state.country_treasury,
{
    let after = state.transfer(currency_id, from, to, amount).0;
    assert forall|c: u64| #[trigger] after.country_treasury.contains_key(c) implies after.fund_is_recorded(c) by {
        assert(state.fund_is_recorded(c));
    }
}

/// A request whose pool is under twenty percent of the supply, made by the
/// owner of a country that has no treasury yet, is refused as too low, and
/// nothing changes: not the counter, not the records, not the events, not
/// the collaborators.
pub proof fn lemma_low_supply_is_refused<T: Config>(state: State<T>, request: MintRequest)
    requires
        state.host.owns(request.who, request.country_id),
        !state.country_treasury.contains_key(request.country_id),
        spec_supply_percent(State::<T>::pool_supply(request), request.total_supply)
            < MIN_SUPPLY_PERCENT,
    ensures
        state.mint_token(request) == (
            state,
            Err::<(), Failure>(Failure::Module(Error::InitialSocialTokenSupplyIsTooLow)),
        ),
{
}

/// The pool admits an issuance from twenty percent on, and not below.
pub proof fn lemma_admitted_from_twenty(supply_percent: u128)
    ensures
        spec_admitted(supply_percent) <==> supply_percent >= 20,
{
}

/// A request is refused as too low exactly when the owner of a country
/// without a treasury asks with a pool under twenty percent.
pub proof fn lemma_too_low_exactly<T: Config>(state: State<T>, request: MintRequest)
    ensures
        state.refusal(request) == Some(Error::InitialSocialTokenSupplyIsTooLow) <==> ({
            &&& state.host.owns(request.who, request.country_id)
            &&& !state.country_treasury.contains_key(request.country_id)
            &&& spec_supply_percent(State::<T>::pool_supply(request), request.total_supply) < 20
        }),
{
}

/// An issuance that fails, for whatever reason and at whatever step,
/// leaves everything as it was: the counter, the token records, the
/// treasuries, the events and the collaborators.
pub proof fn lemma_failed_mint_changes_nothing<T: Config>(state: State<T>, request: MintRequest)
    requires
        state.mint_token(request).1 is Err,
    ensures
        state.mint_token(request).0 == state,
{
}

/// An issuance succeeds exactly when this module does not refuse it and
/// each of the three collaborators agrees in its turn.
pub proof fn lemma_mint_succeeds_exactly<T: Config>(state: State<T>, request: MintRequest)
    ensures
        state.mint_token(request).1 is Ok <==> ({
            let registered = state.host.after(state.registry_call(request));
            let credited = registered.after(state.ledger_call(request));
            &&& state.refusal(request) is None
            &&& state.host.answer(state.registry_call(request)) is Ok
            &&& registered.answer(state.ledger_call(request)) is Ok
            &&& credited.answer(state.pool_call(request)) is Ok
        }),
{
}

/// Once a token was issued for a country, a second request for the same
/// country is refused and changes nothing: as already issued where the
/// requester owns the country, for want of permission where not.
pub proof fn lemma_second_mint_is_refused<T: Config>(
    state: State<T>,
    first: MintRequest,
    second: MintRequest,
)
    requires
        state.mint_token(first).1 is Ok,
        second.country_id == first.country_id,
    ensures
        ({
            let issued = state.mint_token(first).0;
            let owner = issued.host.owns(second.who, second.country_id);
            &&& issued.mint_token(second).0 == issued
            &&& owner ==> issued.mint_token(second).1 == Err::<(), Failure>(
                Failure::Module(Error::SocialTokenAlreadyIssued),
            )
            &&& !owner ==> issued.mint_token(second).1 == Err::<(), Failure>(
                Failure::Module(Error::NoPermissionTokenIssuance),
            )
        }),
{
}

/// A successful issuance is given the number after the last one issued,
/// which had no record before, and is counted.
pub proof fn lemma_mint_takes_next_id<T: Config>(state: State<T>, request: MintRequest)
    requires
        state.wf(),
        state.mint_token(request).1 is Ok,
    ensures
        state.minted_currency() == SocialTokenCurrencyId::SocialToken(
            (state.issued() + 1) as TokenId,
        ),
        !state.social_tokens.contains_key((state.issued() + 1) as TokenId),
        state.mint_token(request).0.issued() == state.issued() + 1,
        state.mint_token(request).0.country_treasury[request.country_id].currency_id
            == state.minted_currency(),
{
}

/// Of requests made one after the other, the successful ones are given
/// the numbers that follow the last one issued before, each one more than
/// the one before it.
pub proof fn lemma_minted_ids_count_up<T: Config>(state: State<T>, requests: Seq<MintRequest>)
    requires
        state.wf(),
    ensures
        forall|i: int|
            0 <= i < state.minted_ids(requests).len() ==> #[trigger] state.minted_ids(requests)[i]
                == state.issued() + i + 1,
    decreases requests.len(),
{
    if requests.len() > 0 {
        let (next, result) = state.mint_token(requests[0]);
        let later = next.minted_ids(requests.drop_first());
        lemma_mint_keeps_wf(state, requests[0]);
        lemma_minted_ids_count_up(next, requests.drop_first());
        if result is Ok {
            lemma_mint_takes_next_id(state, requests[0]);
            let first = seq![state.minted_currency()->SocialToken_0];
            assert forall|i: int| 0 <= i < state.minted_ids(requests).len() implies #[trigger] state.minted_ids(
                requests,
            )[i] == state.issued() + i + 1 by {
                if i > 0 {
                    assert((first + later)[i] == later[i - 1]);
                }
            }
        }
    }
}

/// From the state in which nothing was issued, the successful requests are
/// given the numbers 1, 2, 3 and so on, in the order in which they are made.
pub proof fn lemma_minted_ids_from_one<T: Config>(host: T, requests: Seq<MintRequest>)
    ensures
        State::genesis(host).wf(),
        State::genesis(host).minted_ids(requests) =~= Seq::new(
            State::genesis(host).minted_ids(requests).len(),
            |i: int| (i + 1) as TokenId,
        ),
{
    lemma_minted_ids_count_up(State::genesis(host), requests);
}

/// A transfer of nothing, or from an account to itself, succeeds and
/// changes nothing: the ledger is not asked and no event is announced.
pub proof fn lemma_idle_transfer<T: Config>(
    state: State<T>,
    currency_id: SocialTokenCurrencyId,
    from: AccountId,
    to: AccountId,
    amount: Balance,
)
    requires
        amount == 0 || from == to,
    ensures
        state.transfer(currency_id, from, to, amount) == (state, Ok::<(), Failure>(())),
{
}

/// A transfer of an amount above zero between two accounts is put to the
/// ledger, and the ledger's answer is the answer. Where the ledger agrees,
/// its state is what it made of the request and exactly one event is
/// added, which names the currency, the two accounts and the amount; where
/// it does not, its error is handed on and nothing has changed.
pub proof fn lemma_transfer_goes_to_ledger<T: Config>(
    state: State<T>,
    currency_id: SocialTokenCurrencyId,
    from: AccountId,
    to: AccountId,
    amount: Balance,
)
    requires
        amount > 0,
        from != to,
    ensures
        ({
            let call = State::<T>::transfer_call(currency_id, from, to, amount);
            let (after, result) = state.transfer(currency_id, from, to, amount);
            match state.host.answer(call) {
                Ok(_) => {
                    &&& result == Ok::<(), Failure>(())
                    &&& after.host == state.host.after(call)
                    &&& after.events == state.events.push(
                        Event::SocialTokenTransferred(currency_id, from, to, amount),
                    )
                },
                Err(error) => {
                    &&& result == Err::<(), Failure>(Failure::Collaborator(error))
                    &&& after == state
                },
            }
        }),
{
}

/// A transfer that fails leaves everything as it was.
pub proof fn lemma_failed_transfer_changes_nothing<T: Config>(
    state: State<T>,
    currency_id: SocialTokenCurrencyId,
    from: AccountId,
    to: AccountId,
    amount: Balance,
)
    requires
        state.transfer(currency_id, from, to, amount).1 is Err,
    ensures
        state.transfer(currency_id, from, to, amount).0 == state,
{
}

/// A country without a treasury has no total issuance to ask for; before
/// anything was issued that is every country.
pub proof fn lemma_no_treasury_no_issuance<T: Config>(state: State<T>, country_id: CountryId)
    requires
        !state.country_treasury.contains_key(country_id),
    ensures
        state.total_issuance(country_id) == Err::<Balance, Failure>(
            Failure::Module(Error::CountryFundIsNotAvailable),
        ),
        State::genesis(state.host).total_issuance(country_id) == Err::<Balance, Failure>(
            Failure::Module(Error::CountryFundIsNotAvailable),
        ),
{
}

/// After a token was issued for a country, the country's vault is the
/// account derived from the treasury module and the country, and its
/// treasury shows the supply, the backing and the currency of the request.
pub proof fn lemma_treasury_of_minted<T: Config>(state: State<T>, request: MintRequest)
    requires
        state.mint_token(request).1 is Ok,
    ensures
        ({
            let after = state.mint_token(request).0;
            &&& after.country_fund_id(request.country_id) == state.vault(request.country_id)
            &&& after.country_treasury[request.country_id].value == request.total_supply
            &&& after.country_treasury[request.country_id].backing == request.initial_backing
            &&& after.country_treasury[request.country_id].currency_id == state.minted_currency()
            &&& after.token_details(state.minted_currency()).ticker == request.ticker
            &&& after.token_details(state.minted_currency()).total_supply == request.total_supply
        }),
{
}

/// Where the ledger held nothing of the new currency, counted what it was
/// asked to credit, and the pools left the issuance alone, the country's
/// total issuance after the token was issued is the supply that was asked
/// for.
pub proof fn lemma_issuance_is_minted_supply<T: Config>(state: State<T>, request: MintRequest)
    requires
        state.mint_token(request).1 is Ok,
        ({
            let currency_id = state.minted_currency();
            let registered = state.host.after(state.registry_call(request));
            let credited = registered.after(state.ledger_call(request));
            let provided = credited.after(state.pool_call(request));
            &&& registered.issuance(currency_id) == 0
            &&& credited.issuance(currency_id) == registered.issuance(currency_id)
                + request.total_supply
            &&& provided.issuance(currency_id) == credited.issuance(currency_id)
        }),
    ensures
        state.mint_token(request).0.total_issuance(request.country_id) == Ok::<Balance, Failure>(
            request.total_supply,
        ),
{
}

/// Neither an issuance nor a transfer takes back an event: what was
/// announced before is still there, in its place.
pub proof fn lemma_events_are_kept<T: Config>(
    state: State<T>,
    request: MintRequest,
    currency_id: SocialTokenCurrencyId,
    from: AccountId,
    to: AccountId,
    amount: Balance,
)
    ensures
        state.events.is_prefix_of(state.mint_token(request).0.events),
        state.events.is_prefix_of(state.transfer(currency_id, from, to, amount).0.events),
{
}

/// After a token was issued for a country, the country's total issuance
/// is what the ledger holds of the currency that was issued.
pub proof fn lemma_issuance_of_minted<T: Config>(state: State<T>, request: MintRequest)
    requires
        state.mint_token(request).1 is Ok,
    ensures
        ({
            let after = state.mint_token(request).0;
            after.total_issuance(request.country_id) == Ok::<Balance, Failure>(
                after.host.issuance(state.minted_currency()),
            )
        }),
{
}

} // verus!
