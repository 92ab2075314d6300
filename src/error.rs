use vstd::prelude::*;

verus! {

/// Why a command was rejected.
#[derive(Clone, Copy, Debug, PartialEq, Eq, Structural)]
pub enum Error {
    /// The caller lacks the privilege the command needs.
    PermissionDenied,
    /// A debit would exceed the source account's balance.
    InsufficientBalance,
    /// A delegated transfer exceeds the remaining allowance.
    InsufficientAllowance,
    /// Funds can only be destroyed on a blacklisted account.
    AccountNotBlackListed,
}

impl Error {
    /// The name of the error kind.
    pub fn as_str(&self) -> (r: &'static str)
        ensures
            r@ == error_name(*self),
    {
        match self {
            Error::PermissionDenied => "PermissionDenied",
            Error::InsufficientBalance => "InsufficientBalance",
            Error::InsufficientAllowance => "InsufficientAllowance",
            Error::AccountNotBlackListed => "AccountNotBlackListed",
        }
    }
}

/// The name of each error kind, as `as_str` gives it.
pub open spec fn error_name(e: Error) -> Seq<char> {
    match e {
        Error::PermissionDenied => "PermissionDenied"@,
        Error::InsufficientBalance => "InsufficientBalance"@,
        Error::InsufficientAllowance => "InsufficientAllowance"@,
        Error::AccountNotBlackListed => "AccountNotBlackListed"@,
    }
}

} // verus!
