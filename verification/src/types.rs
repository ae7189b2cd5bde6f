//! The records, identifiers, errors and events of the token registry.

use sp_runtime::DispatchError;
use vstd::prelude::*;

verus! {

/// An account, by its 32 raw bytes.
pub type AccountId = [u8; 32];

/// An amount of some currency.
pub type Balance = u128;

/// The identifier of a country.
pub type CountryId = u64;

/// The number of a currency within its namespace.
pub type TokenId = u64;

/// The eight bytes that identify a module, from which its accounts are derived.
pub type ModuleId = [u8; 8];

/// A wrapper for a token name.
pub type TokenName = Vec<u8>;

/// A wrapper for a ticker name.
pub type Ticker = Vec<u8>;

/// A currency: the native one, or a social token issued here. The two
/// namespaces are apart: equal numbers under different variants are
/// different currencies.
#[derive(Clone, Copy, Debug, PartialEq, Eq, Structural, Hash)]
pub enum SocialTokenCurrencyId {
    NativeToken(TokenId),
    SocialToken(TokenId),
}

/// What is recorded of a token when it is issued.
#[derive(Clone, Debug, Default, PartialEq)]
pub struct Token<Balance> {
    pub ticker: Ticker,
    pub total_supply: Balance,
}

/// A token record as a mathematical value.
pub struct TokenRecord {
    pub ticker: Seq<u8>,
    pub total_supply: Balance,
}

impl View for Token<Balance> {
    type V = TokenRecord;

    open spec fn view(&self) -> TokenRecord {
        TokenRecord { ticker: self.ticker@, total_supply: self.total_supply }
    }
}

/// The treasury of a country: the vault that holds its backing, the supply
/// minted, the native amount that backs it, and the currency issued.
#[derive(Clone, Copy, Debug, PartialEq, Eq)]
pub struct CountryFund {
    pub vault: AccountId,
    pub value: Balance,
    pub backing: Balance,
    pub currency_id: SocialTokenCurrencyId,
}

/// The reasons for which this module itself refuses a request.
#[derive(Clone, Copy, Debug, PartialEq, Eq, Structural)]
pub enum Error {
    /// Transfer amount should be non-zero
    AmountZero,
    /// Account balance must be greater than or equal to the transfer amount
    BalanceLow,
    /// Balance should be non-zero
    BalanceZero,
    /// Insufficient balance
    InsufficientBalance,
    /// No permission to issue token
    NoPermissionTokenIssuance,
    /// Country currency already issued for this country
    SocialTokenAlreadyIssued,
    /// No available next token id
    NoAvailableTokenId,
    /// Country fund not available
    CountryFundIsNotAvailable,
    /// Initial social token supply is too low
    InitialSocialTokenSupplyIsTooLow,
    /// Failed on updating the social token of this country
    FailedOnUpdatingSocialToken,
}

/// Why an operation failed: by a rule of this module, or by an error of a
/// collaborator, which is handed on as it came.
#[derive(Clone, Copy, Debug, PartialEq)]
pub enum Failure {
    Module(Error),
    Collaborator(DispatchError),
}

/// What this module announces.
#[derive(Clone, Copy, Debug, PartialEq, Eq)]
pub enum Event {
    /// A token was issued: currency, owner, vault, total supply, country.
    SocialTokenIssued(SocialTokenCurrencyId, AccountId, AccountId, u128, u64),
    /// Some tokens were transferred: currency, from, to, amount.
    SocialTokenTransferred(SocialTokenCurrencyId, AccountId, AccountId, Balance),
    /// Some tokens were destroyed: currency, owner, balance.
    SocialTokenDestroyed(SocialTokenCurrencyId, AccountId, Balance),
}

/// The error type of the collaborators, `sp_runtime::DispatchError`. Nothing
/// is read from a value of it: it is carried from the collaborator to the
/// caller.
#[verifier::external_type_specification]
#[verifier::external_body]
pub struct ExDispatchError(DispatchError);

} // verus!
