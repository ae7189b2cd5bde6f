//! Social-token issuance and treasury accounting.
//!
//! A country is issued at most one token. The issuance is admitted where
//! its liquidity pool receives at least a fifth of the supply, is given the
//! next currency number, and is carried out through three collaborators:
//! the country registry, the ledger and the liquidity pools. Either all of
//! it happens or none of it.

pub mod account;
pub mod host;
pub mod laws;
pub mod model;
pub mod pallet;
pub mod ratio;
pub mod types;

pub use host::{Config, HostCall};
pub use pallet::{Module, Pallet};
pub use types::{
    AccountId, Balance, CountryFund, CountryId, Error, Event, Failure, ModuleId,
    SocialTokenCurrencyId, Ticker, Token, TokenId, TokenName,
};
