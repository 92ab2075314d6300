//! A fungible-token ledger: balances, delegated allowances, a bounded
//! transfer fee, an owner-gated command set and compliance flags.
//!
//! Every command takes the authenticated caller explicitly and appends the
//! events it produces to a log owned by the host.

mod account;
mod error;
mod events;
mod fee;
mod ledger;
mod table;
mod total;

pub use account::{null_account, AccountId};
pub use error::{error_name, Error};
pub use events::{
    failure_event, transfer_event, AddedBlackList, Approval, DestroyedBlackFunds, Event, Issue,
    Params, Privacy, Redeem, RemovedBlackList, TransactionFailed, Transfer,
};
pub use fee::{fee_of, lemma_fee_bound, transaction_fee, BASIS_POINT_SCALE, MAX_BASIS_POINTS, MAX_FEE_CAP};
pub use ledger::{
    Entropy, EntropyView, DEFAULT_DECIMALS, DEFAULT_NAME, DEFAULT_SUPPLY, DEFAULT_SYMBOL,
};
pub use total::{lemma_total_insert, lemma_total_nonneg, lemma_total_remove, lemma_value_le_total, map_total};
