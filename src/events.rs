use vstd::prelude::*;

use crate::account::AccountId;
use crate::error::Error;

verus! {

/// The fee parameters were set.
#[derive(Clone, Copy, Debug, PartialEq, Eq)]
pub struct Params {
    pub basis_points_rate: u128,
    pub maximum_fee: u128,
}

/// Units moved between accounts; `from` is absent when units were created.
#[derive(Clone, Copy, Debug, PartialEq, Eq)]
pub struct Transfer {
    pub from: Option<AccountId>,
    pub to: Option<AccountId>,
    pub value: u128,
}

/// `spender` may now withdraw up to `value` from `owner`.
#[derive(Clone, Copy, Debug, PartialEq, Eq)]
pub struct Approval {
    pub owner: AccountId,
    pub spender: AccountId,
    pub value: u128,
}

/// New units were issued to the owner.
#[derive(Clone, Copy, Debug, PartialEq, Eq)]
pub struct Issue {
    pub amount: u128,
}

/// Units were redeemed from the owner.
#[derive(Clone, Copy, Debug, PartialEq, Eq)]
pub struct Redeem {
    pub amount: u128,
}

/// An account's privacy flag was set.
#[derive(Clone, Copy, Debug, PartialEq, Eq)]
pub struct Privacy {
    pub account: AccountId,
    pub private: bool,
}

/// An account was blacklisted.
#[derive(Clone, Copy, Debug, PartialEq, Eq)]
pub struct AddedBlackList {
    pub account: AccountId,
}

/// An account was taken off the blacklist.
#[derive(Clone, Copy, Debug, PartialEq, Eq)]
pub struct RemovedBlackList {
    pub account: AccountId,
}

/// The funds of a blacklisted account were destroyed.
#[derive(Clone, Copy, Debug, PartialEq, Eq)]
pub struct DestroyedBlackFunds {
    pub account: AccountId,
    pub funds: u128,
}

/// A command was rejected.
#[derive(Clone, Copy, Debug, PartialEq, Eq)]
pub struct TransactionFailed {
    pub error: Error,
}

/// A notification appended to the host's log.
#[derive(Clone, Copy, Debug, PartialEq, Eq)]
pub enum Event {
    Params(Params),
    Transfer(Transfer),
    Approval(Approval),
    Issue(Issue),
    Redeem(Redeem),
    Privacy(Privacy),
    AddedBlackList(AddedBlackList),
    RemovedBlackList(RemovedBlackList),
    DestroyedBlackFunds(DestroyedBlackFunds),
    TransactionFailed(TransactionFailed),
}

/// The event recording a rejected command.
pub open spec fn failure_event(error: Error) -> Event {
    Event::TransactionFailed(TransactionFailed { error })
}

/// The event recording a transfer of `value` from `from` to `to`.
pub open spec fn transfer_event(from: AccountId, to: AccountId, value: u128) -> Event {
    Event::Transfer(Transfer { from: Some(from), to: Some(to), value })
}

/// Appends the failure event for `error` and returns that error.
pub(crate) fn reject(events: &mut Vec<Event>, error: Error) -> (r: Result<(), Error>)
    ensures
        r == Err::<(), Error>(error),
        final(events)@ == old(events)@.push(failure_event(error)),
{
    events.push(Event::TransactionFailed(TransactionFailed { error }));
    Err(error)
}

} // verus!
