use vstd::prelude::*;

use crate::account::{null_account, AccountId, AccountPair};
use crate::error::Error;
use crate::events::{
    failure_event, reject, transfer_event, AddedBlackList, Approval, DestroyedBlackFunds, Event,
    Issue, Params, Privacy, Redeem, RemovedBlackList, Transfer,
};
use crate::fee::{fee_of, transaction_fee, MAX_BASIS_POINTS, MAX_FEE_CAP};
use crate::table::Table;
use crate::total::{lemma_total_insert, lemma_value_le_total, map_total};

verus! {

/// Name given by `new` and `default`.
pub const DEFAULT_NAME: &'static str = "Entropy Coin";

/// Symbol given by `new` and `default`.
pub const DEFAULT_SYMBOL: &'static str = "ENT";

/// Decimals given by `new` and `default`.
pub const DEFAULT_DECIMALS: u32 = 6;

/// Initial supply given by `default`: one million whole units.
pub const DEFAULT_SUPPLY: u128 = 1_000_000_000_000;

/// The ledger's state as mathematical values; accounts are keyed by their bytes.
pub struct EntropyView {
    pub name: Seq<char>,
    pub symbol: Seq<char>,
    pub decimals: u32,
    pub basis_points_rate: u128,
    pub maximum_fee: u128,
    pub owner: AccountId,
    pub total_supply: u128,
    pub balances: Map<Seq<u8>, u128>,
    pub allowances: Map<(Seq<u8>, Seq<u8>), u128>,
    pub private: Map<Seq<u8>, bool>,
    pub blacklisted: Map<Seq<u8>, bool>,
}

impl EntropyView {
    /// Balance of `a`; zero when no entry exists.
    pub open spec fn balance(self, a: Seq<u8>) -> u128 {
        if self.balances.contains_key(a) {
            self.balances[a]
        } else {
            0
        }
    }

    /// What `spender` may still withdraw from `owner`; zero when unset.
    pub open spec fn allowance(self, owner: Seq<u8>, spender: Seq<u8>) -> u128 {
        if self.allowances.contains_key((owner, spender)) {
            self.allowances[(owner, spender)]
        } else {
            0
        }
    }

    /// Whether `a` is flagged private; false when never set.
    pub open spec fn is_private(self, a: Seq<u8>) -> bool {
        self.private.contains_key(a) && self.private[a]
    }

    /// Whether `a` is blacklisted; false when never set.
    pub open spec fn is_blacklisted(self, a: Seq<u8>) -> bool {
        self.blacklisted.contains_key(a) && self.blacklisted[a]
    }

    /// Fee parameters within their ceilings, finitely many balances, and the
    /// total supply equal to the sum of all balances.
    pub open spec fn inv(self) -> bool {
        &&& self.basis_points_rate <= MAX_BASIS_POINTS
        &&& self.maximum_fee <= MAX_FEE_CAP
        &&& self.balances.dom().finite()
        &&& self.total_supply == map_total(self.balances)
    }

    /// The state with the balance of `a` set to `v`.
    pub open spec fn with_balance(self, a: Seq<u8>, v: int) -> EntropyView {
        EntropyView { balances: self.balances.insert(a, v as u128), ..self }
    }

    /// The fee due on a transfer of `value` under the current parameters.
    pub open spec fn fee(self, value: u128) -> int {
        fee_of(value as int, self.basis_points_rate as int, self.maximum_fee as int)
    }

    /// The state after moving `value` from `from` to `to`: `from` is debited
    /// the whole value, `to` credited the value less the fee, the owner
    /// credited the fee when there is one.
    pub open spec fn after_transfer(self, from: Seq<u8>, to: Seq<u8>, value: u128) -> EntropyView {
        let fee = self.fee(value);
        let debited = self.with_balance(from, self.balance(from) - value);
        let credited = debited.with_balance(to, debited.balance(to) + value - fee);
        if fee > 0 {
            credited.with_balance(self.owner@, credited.balance(self.owner@) + fee)
        } else {
            credited
        }
    }

    /// The events of a transfer: the fee transfer first, when there is a fee,
    /// then the transfer of the net amount.
    pub open spec fn transfer_events(self, from: AccountId, to: AccountId, value: u128) -> Seq<
        Event,
    > {
        let fee = self.fee(value);
        if fee > 0 {
            seq![
                transfer_event(from, self.owner, fee as u128),
                transfer_event(from, to, (value - fee) as u128),
            ]
        } else {
            seq![transfer_event(from, to, (value - fee) as u128)]
        }
    }
}

/// The balance stored for `a` in `balances`, zero when there is none.
fn stored_balance(balances: &Table<AccountId, u128>, a: &AccountId) -> (r: u128)
    requires
        balances.wf(),
    ensures
        r == (if balances@.contains_key(a@) {
            balances@[a@]
        } else {
            0
        }),
{
    match balances.get(a) {
        Some(v) => v,
        None => 0,
    }
}

/// A fungible-token ledger with an owner, a transfer fee and compliance flags.
pub struct Entropy {
    name: String,
    symbol: String,
    decimals: u32,
    basis_points_rate: u128,
    maximum_fee: u128,
    owner: AccountId,
    total_supply: u128,
    balances: Table<AccountId, u128>,
    allowances: Table<AccountPair, u128>,
    accounts_private: Table<AccountId, bool>,
    accounts_blacklisted: Table<AccountId, bool>,
}

impl View for Entropy {
    type V = EntropyView;

    closed spec fn view(&self) -> EntropyView {
        EntropyView {
            name: self.name@,
            symbol: self.symbol@,
            decimals: self.decimals,
            basis_points_rate: self.basis_points_rate,
            maximum_fee: self.maximum_fee,
            owner: self.owner,
            total_supply: self.total_supply,
            balances: self.balances@,
            allowances: self.allowances@,
            private: self.accounts_private@,
            blacklisted: self.accounts_blacklisted@,
        }
    }
}

impl Entropy {
    /// The tables are well formed and the state keeps its invariant.
    pub closed spec fn wf(&self) -> bool {
        &&& self.balances.wf()
        &&& self.allowances.wf()
        &&& self.accounts_private.wf()
        &&& self.accounts_blacklisted.wf()
        &&& self@.inv()
    }

    /// Conservation: in every state that construction and the commands
    /// produce, the total supply is the sum of all balances, and the fee
    /// parameters lie within their ceilings.
    pub proof fn lemma_supply_is_sum_of_balances(&self)
        requires
            self.wf(),
        ensures
            self@.total_supply == map_total(self@.balances),
            self@.balances.dom().finite(),
            self@.basis_points_rate <= MAX_BASIS_POINTS,
            self@.maximum_fee <= MAX_FEE_CAP,
    {
    }

    /// A ledger owned by `caller`, who holds the whole `initial_supply`.
    ///
    /// Records the creation of the supply as a transfer from nobody.
    pub fn construct(
        caller: AccountId,
        initial_supply: u128,
        name: String,
        symbol: String,
        decimals: u32,
        events: &mut Vec<Event>,
    ) -> (r: Entropy)
        ensures
            r.wf(),
            r@.name == name@,
            r@.symbol == symbol@,
            r@.decimals == decimals,
            r@.basis_points_rate == 0,
            r@.maximum_fee == 0,
            r@.owner == caller,
            r@.total_supply == initial_supply,
            r@.balances == Map::<Seq<u8>, u128>::empty().insert(caller@, initial_supply),
            r@.allowances == Map::<(Seq<u8>, Seq<u8>), u128>::empty(),
            r@.private == Map::<Seq<u8>, bool>::empty(),
            r@.blacklisted == Map::<Seq<u8>, bool>::empty(),
            final(events)@ == old(events)@.push(
                Event::Transfer(Transfer { from: None, to: Some(caller), value: initial_supply }),
            ),
    {
        let mut balances = Table::new();
        balances.insert(caller, initial_supply);
        proof {
            lemma_total_insert(Map::<Seq<u8>, u128>::empty(), caller@, initial_supply);
            assert(Map::<Seq<u8>, u128>::empty().dom().len() == 0);
        }
        let instance = Entropy {
            name,
            symbol,
            decimals,
            basis_points_rate: 0,
            maximum_fee: 0,
            owner: caller,
            total_supply: initial_supply,
            balances,
            allowances: Table::new(),
            accounts_private: Table::new(),
            accounts_blacklisted: Table::new(),
        };
        events.push(Event::Transfer(Transfer { from: None, to: Some(caller), value: initial_supply }));
        instance
    }

    /// A ledger named "Entropy Coin" ("ENT", six decimals) owned by `caller`,
    /// who holds the whole `initial_supply`.
    pub fn new(caller: AccountId, initial_supply: u128, events: &mut Vec<Event>) -> (r: Entropy)
        ensures
            r.wf(),
            r@.name == DEFAULT_NAME@,
            r@.symbol == DEFAULT_SYMBOL@,
            r@.decimals == DEFAULT_DECIMALS,
            r@.basis_points_rate == 0,
            r@.maximum_fee == 0,
            r@.owner == caller,
            r@.total_supply == initial_supply,
            r@.balances == Map::<Seq<u8>, u128>::empty().insert(caller@, initial_supply),
            r@.allowances == Map::<(Seq<u8>, Seq<u8>), u128>::empty(),
            r@.private == Map::<Seq<u8>, bool>::empty(),
            r@.blacklisted == Map::<Seq<u8>, bool>::empty(),
            final(events)@ == old(events)@.push(
                Event::Transfer(Transfer { from: None, to: Some(caller), value: initial_supply }),
            ),
    {
        Entropy::construct(
            caller,
            initial_supply,
            String::from_str(DEFAULT_NAME),
            String::from_str(DEFAULT_SYMBOL),
            DEFAULT_DECIMALS,
            events,
        )
    }

    /// A ledger as `new` makes it, with an initial supply of one million
    /// whole units at six decimals.
    pub fn default(caller: AccountId, events: &mut Vec<Event>) -> (r: Entropy)
        ensures
            r.wf(),
            r@.name == DEFAULT_NAME@,
            r@.symbol == DEFAULT_SYMBOL@,
            r@.decimals == DEFAULT_DECIMALS,
            r@.basis_points_rate == 0,
            r@.maximum_fee == 0,
            r@.owner == caller,
            r@.total_supply == DEFAULT_SUPPLY,
            r@.balances == Map::<Seq<u8>, u128>::empty().insert(caller@, DEFAULT_SUPPLY),
            r@.allowances == Map::<(Seq<u8>, Seq<u8>), u128>::empty(),
            r@.private == Map::<Seq<u8>, bool>::empty(),
            r@.blacklisted == Map::<Seq<u8>, bool>::empty(),
            final(events)@ == old(events)@.push(
                Event::Transfer(Transfer { from: None, to: Some(caller), value: DEFAULT_SUPPLY }),
            ),
    {
        Entropy::new(caller, DEFAULT_SUPPLY, events)
    }

    /// The token name.
    pub fn name(&self) -> (r: String)
        ensures
            r@ == self@.name,
    {
        self.name.clone()
    }

    /// The token symbol.
    pub fn symbol(&self) -> (r: String)
        ensures
            r@ == self@.symbol,
    {
        self.symbol.clone()
    }

    /// The token decimals.
    pub fn decimals(&self) -> (r: u32)
        ensures
            r == self@.decimals,
    {
        self.decimals
    }

    /// The fee rate, in basis points.
    pub fn basis_points_rate(&self) -> (r: u128)
        ensures
            r == self@.basis_points_rate,
    {
        self.basis_points_rate
    }

    /// The most a single transfer pays in fees.
    pub fn maximum_fee(&self) -> (r: u128)
        ensures
            r == self@.maximum_fee,
    {
        self.maximum_fee
    }

    /// The privileged identity.
    pub fn owner(&self) -> (r: AccountId)
        ensures
            r == self@.owner,
    {
        self.owner
    }

    /// The number of units in existence.
    pub fn total_supply(&self) -> (r: u128)
        ensures
            r == self@.total_supply,
    {
        self.total_supply
    }

    /// The balance of `owner`; zero for an unknown account.
    pub fn balance_of(&self, owner: AccountId) -> (r: u128)
        requires
            self.wf(),
        ensures
            r == self@.balance(owner@),
    {
        stored_balance(&self.balances, &owner)
    }

    /// What `spender` may still withdraw from `owner`; zero when unset.
    pub fn allowance(&self, owner: AccountId, spender: AccountId) -> (r: u128)
        requires
            self.wf(),
        ensures
            r == self@.allowance(owner@, spender@),
    {
        match self.allowances.get(&AccountPair { first: owner, second: spender }) {
            Some(v) => v,
            None => 0,
        }
    }

    /// Whether `account` is flagged private.
    pub fn is_account_private(&self, account: AccountId) -> (r: bool)
        requires
            self.wf(),
        ensures
            r == self@.is_private(account@),
    {
        match self.accounts_private.get(&account) {
            Some(v) => v,
            None => false,
        }
    }

    /// Whether `account` is blacklisted.
    pub fn is_account_blacklisted(&self, account: AccountId) -> (r: bool)
        requires
            self.wf(),
        ensures
            r == self@.is_blacklisted(account@),
    {
        match self.accounts_blacklisted.get(&account) {
            Some(v) => v,
            None => false,
        }
    }

    /// Moves `value` from `from` to `to`, charging the transfer fee.
    ///
    /// `from` is debited the whole value, `to` receives the value less the
    /// fee, and the owner receives the fee. Fails with `InsufficientBalance`,
    /// changing nothing, when `from` holds less than `value`.
    pub fn transfer_from_to(
        &mut self,
        from: AccountId,
        to: AccountId,
        value: u128,
        events: &mut Vec<Event>,
    ) -> (r: Result<(), Error>)
        requires
            old(self).wf(),
        ensures
            final(self).wf(),
            old(self)@.balance(from@) < value ==> {
                &&& r == Err::<(), Error>(Error::InsufficientBalance)
                &&& final(self)@ == old(self)@
                &&& final(events)@ == old(events)@.push(failure_event(Error::InsufficientBalance))
            },
            old(self)@.balance(from@) >= value ==> {
                &&& r == Ok::<(), Error>(())
                &&& final(self)@ == old(self)@.after_transfer(from@, to@, value)
                &&& final(events)@ == old(events)@ + old(self)@.transfer_events(from, to, value)
            },
    {
        let from_balance = stored_balance(&self.balances, &from);
        if from_balance < value {
            return reject(events, Error::InsufficientBalance);
        }
        let fee = transaction_fee(value, self.basis_points_rate, self.maximum_fee);
        let send_value = value - fee;

        proof {
            lemma_total_insert(self.balances@, from@, (from_balance - value) as u128);
        }
        self.balances.insert(from, from_balance - value);
        let ghost s1 = self@;

        let to_balance = stored_balance(&self.balances, &to);
        proof {
            self.balances.lemma_finite();
            if s1.balances.contains_key(to@) {
                lemma_value_le_total(s1.balances, to@);
            }
            lemma_total_insert(s1.balances, to@, (to_balance + send_value) as u128);
        }
        self.balances.insert(to, to_balance + send_value);
        let ghost s2 = self@;

        if fee > 0 {
            let owner = self.owner;
            let owner_balance = stored_balance(&self.balances, &owner);
            proof {
                self.balances.lemma_finite();
                if s2.balances.contains_key(owner@) {
                    lemma_value_le_total(s2.balances, owner@);
                }
                lemma_total_insert(s2.balances, owner@, (owner_balance + fee) as u128);
            }
            self.balances.insert(owner, owner_balance + fee);
            events.push(Event::Transfer(Transfer { from: Some(from), to: Some(owner), value: fee }));
        }
        events.push(Event::Transfer(Transfer { from: Some(from), to: Some(to), value: send_value }));
        Ok(())
    }

    /// Moves `value` from the caller to `to`, charging the transfer fee.
    ///
    /// Fails with `InsufficientBalance`, changing nothing, when the caller
    /// holds less than `value`.
    pub fn transfer(
        &mut self,
        caller: AccountId,
        to: AccountId,
        value: u128,
        events: &mut Vec<Event>,
    ) -> (r: Result<(), Error>)
        requires
            old(self).wf(),
        ensures
            final(self).wf(),
            old(self)@.balance(caller@) < value ==> {
                &&& r == Err::<(), Error>(Error::InsufficientBalance)
                &&& final(self)@ == old(self)@
                &&& final(events)@ == old(events)@.push(failure_event(Error::InsufficientBalance))
            },
            old(self)@.balance(caller@) >= value ==> {
                &&& r == Ok::<(), Error>(())
                &&& final(self)@ == old(self)@.after_transfer(caller@, to@, value)
                &&& final(events)@ == old(events)@ + old(self)@.transfer_events(caller, to, value)
            },
    {
        self.transfer_from_to(caller, to, value, events)
    }

    /// Sets what `spender` may withdraw from the caller to `value`,
    /// whatever it was before.
    pub fn approve(
        &mut self,
        caller: AccountId,
        spender: AccountId,
        value: u128,
        events: &mut Vec<Event>,
    ) -> (r: Result<(), Error>)
        requires
            old(self).wf(),
        ensures
            final(self).wf(),
            r == Ok::<(), Error>(()),
            final(self)@ == (EntropyView {
                allowances: old(self)@.allowances.insert((caller@, spender@), value),
                ..old(self)@
            }),
            final(events)@ == old(events)@.push(
                Event::Approval(Approval { owner: caller, spender, value }),
            ),
    {
        self.allowances.insert(AccountPair { first: caller, second: spender }, value);
        events.push(Event::Approval(Approval { owner: caller, spender, value }));
        Ok(())
    }

    /// Moves `value` from `from` to `to` on the caller's allowance from
    /// `from`, charging the transfer fee, and lowers that allowance by `value`.
    ///
    /// Fails with `InsufficientAllowance` when the allowance is below `value`,
    /// else with `InsufficientBalance` when `from` holds less than `value`;
    /// a failure changes nothing.
    pub fn transfer_from(
        &mut self,
        caller: AccountId,
        from: AccountId,
        to: AccountId,
        value: u128,
        events: &mut Vec<Event>,
    ) -> (r: Result<(), Error>)
        requires
            old(self).wf(),
        ensures
            final(self).wf(),
            old(self)@.allowance(from@, caller@) < value ==> {
                &&& r == Err::<(), Error>(Error::InsufficientAllowance)
                &&& final(self)@ == old(self)@
                &&& final(events)@ == old(events)@.push(failure_event(Error::InsufficientAllowance))
            },
            old(self)@.allowance(from@, caller@) >= value && old(self)@.balance(from@) < value ==> {
                &&& r == Err::<(), Error>(Error::InsufficientBalance)
                &&& final(self)@ == old(self)@
                &&& final(events)@ == old(events)@.push(failure_event(Error::InsufficientBalance))
            },
            old(self)@.allowance(from@, caller@) >= value && old(self)@.balance(from@) >= value ==> {
                let moved = old(self)@.after_transfer(from@, to@, value);
                &&& r == Ok::<(), Error>(())
                &&& final(self)@ == (EntropyView {
                    allowances: moved.allowances.insert(
                        (from@, caller@),
                        (old(self)@.allowance(from@, caller@) - value) as u128,
                    ),
                    ..moved
                })
                &&& final(events)@ == old(events)@ + old(self)@.transfer_events(from, to, value)
            },
            r is Ok ==> final(self)@.allowance(from@, caller@) == old(self)@.allowance(
                from@,
                caller@,
            ) - value,
            r is Err ==> final(self)@.allowance(from@, caller@) == old(self)@.allowance(
                from@,
                caller@,
            ),
    {
        let allowance = self.allowance(from, caller);
        if allowance < value {
            return reject(events, Error::InsufficientAllowance);
        }
        match self.transfer_from_to(from, to, value, events) {
            Ok(()) => {},
            Err(e) => {
                return Err(e);
            },
        }
        self.allowances.insert(AccountPair { first: from, second: caller }, allowance - value);
        Ok(())
    }

    /// Sets the fee rate and cap, each reduced to its ceiling when above it.
    /// Owner only.
    pub fn set_params(
        &mut self,
        caller: AccountId,
        new_basic_points: u128,
        new_max_fee: u128,
        events: &mut Vec<Event>,
    ) -> (r: Result<(), Error>)
        requires
            old(self).wf(),
        ensures
            final(self).wf(),
            caller@ != old(self)@.owner@ ==> {
                &&& r == Err::<(), Error>(Error::PermissionDenied)
                &&& final(self)@ == old(self)@
                &&& final(events)@ == old(events)@.push(failure_event(Error::PermissionDenied))
            },
            caller@ == old(self)@.owner@ ==> {
                let rate = if new_basic_points > MAX_BASIS_POINTS {
                    MAX_BASIS_POINTS
                } else {
                    new_basic_points
                };
                let cap = if new_max_fee > MAX_FEE_CAP {
                    MAX_FEE_CAP
                } else {
                    new_max_fee
                };
                &&& r == Ok::<(), Error>(())
                &&& final(self)@ == (EntropyView {
                    basis_points_rate: rate,
                    maximum_fee: cap,
                    ..old(self)@
                })
                &&& final(events)@ == old(events)@.push(
                    Event::Params(Params { basis_points_rate: rate, maximum_fee: cap }),
                )
            },
    {
        if !caller.same(&self.owner) {
            return reject(events, Error::PermissionDenied);
        }
        self.basis_points_rate = if new_basic_points > MAX_BASIS_POINTS {
            MAX_BASIS_POINTS
        } else {
            new_basic_points
        };
        self.maximum_fee = if new_max_fee > MAX_FEE_CAP {
            MAX_FEE_CAP
        } else {
            new_max_fee
        };
        events.push(
            Event::Params(
                Params { basis_points_rate: self.basis_points_rate, maximum_fee: self.maximum_fee },
            ),
        );
        Ok(())
    }

    /// Hands ownership to `new_owner`; the all-zero identity leaves the
    /// owner as it is. Owner only. Emits nothing on success.
    pub fn transfer_ownership(
        &mut self,
        caller: AccountId,
        new_owner: AccountId,
        events: &mut Vec<Event>,
    ) -> (r: Result<(), Error>)
        requires
            old(self).wf(),
        ensures
            final(self).wf(),
            caller@ != old(self)@.owner@ ==> {
                &&& r == Err::<(), Error>(Error::PermissionDenied)
                &&& final(self)@ == old(self)@
                &&& final(events)@ == old(events)@.push(failure_event(Error::PermissionDenied))
            },
            caller@ == old(self)@.owner@ ==> {
                &&& r == Ok::<(), Error>(())
                &&& final(self)@ == (EntropyView {
                    owner: if new_owner@ == null_account() {
                        old(self)@.owner
                    } else {
                        new_owner
                    },
                    ..old(self)@
                })
                &&& final(events)@ == old(events)@
            },
    {
        if !caller.same(&self.owner) {
            return reject(events, Error::PermissionDenied);
        }
        if !new_owner.is_null() {
            self.owner = new_owner;
        }
        Ok(())
    }

    /// Credits `value` to the owner and adds it to the total supply.
    /// Owner only.
    pub fn issue(&mut self, caller: AccountId, value: u128, events: &mut Vec<Event>) -> (r: Result<
        (),
        Error,
    >)
        requires
            old(self).wf(),
            caller@ == old(self)@.owner@ ==> old(self)@.total_supply + value <= u128::MAX,
        ensures
            final(self).wf(),
            caller@ != old(self)@.owner@ ==> {
                &&& r == Err::<(), Error>(Error::PermissionDenied)
                &&& final(self)@ == old(self)@
                &&& final(events)@ == old(events)@.push(failure_event(Error::PermissionDenied))
            },
            caller@ == old(self)@.owner@ ==> {
                let owner = old(self)@.owner@;
                &&& r == Ok::<(), Error>(())
                &&& final(self)@ == (EntropyView {
                    total_supply: (old(self)@.total_supply + value) as u128,
                    ..old(self)@.with_balance(owner, old(self)@.balance(owner) + value)
                })
                &&& final(events)@ == old(events)@.push(Event::Issue(Issue { amount: value }))
            },
    {
        if !caller.same(&self.owner) {
            return reject(events, Error::PermissionDenied);
        }
        let owner = self.owner;
        let balance = stored_balance(&self.balances, &owner);
        proof {
            self.balances.lemma_finite();
            if self.balances@.contains_key(owner@) {
                lemma_value_le_total(self.balances@, owner@);
            }
            lemma_total_insert(self.balances@, owner@, (balance + value) as u128);
        }
        self.balances.insert(owner, balance + value);
        self.total_supply = self.total_supply + value;
        events.push(Event::Issue(Issue { amount: value }));
        Ok(())
    }

    /// Debits `value` from the owner and removes it from the total supply.
    /// Owner only; fails with `InsufficientBalance`, changing nothing, when
    /// the owner holds less than `value`.
    pub fn redeem(&mut self, caller: AccountId, value: u128, events: &mut Vec<Event>) -> (r: Result<
        (),
        Error,
    >)
        requires
            old(self).wf(),
        ensures
            final(self).wf(),
            caller@ != old(self)@.owner@ ==> {
                &&& r == Err::<(), Error>(Error::PermissionDenied)
                &&& final(self)@ == old(self)@
                &&& final(events)@ == old(events)@.push(failure_event(Error::PermissionDenied))
            },
            caller@ == old(self)@.owner@ && old(self)@.balance(caller@) < value ==> {
                &&& r == Err::<(), Error>(Error::InsufficientBalance)
                &&& final(self)@ == old(self)@
                &&& final(events)@ == old(events)@.push(failure_event(Error::InsufficientBalance))
            },
            caller@ == old(self)@.owner@ && old(self)@.balance(caller@) >= value ==> {
                let owner = old(self)@.owner@;
                &&& r == Ok::<(), Error>(())
                &&& final(self)@ == (EntropyView {
                    total_supply: (old(self)@.total_supply - value) as u128,
                    ..old(self)@.with_balance(owner, old(self)@.balance(owner) - value)
                })
                &&& final(events)@ == old(events)@.push(Event::Redeem(Redeem { amount: value }))
            },
    {
        if !caller.same(&self.owner) {
            return reject(events, Error::PermissionDenied);
        }
        let owner = self.owner;
        let balance = stored_balance(&self.balances, &owner);
        if balance < value {
            return reject(events, Error::InsufficientBalance);
        }
        proof {
            self.balances.lemma_finite();
            if self.balances@.contains_key(owner@) {
                lemma_value_le_total(self.balances@, owner@);
            }
            lemma_total_insert(self.balances@, owner@, (balance - value) as u128);
        }
        self.balances.insert(owner, balance - value);
        self.total_supply = self.total_supply - value;
        events.push(Event::Redeem(Redeem { amount: value }));
        Ok(())
    }

    /// Sets the privacy flag of `account`. Owner only. The flag is advisory:
    /// no command consults it.
    pub fn set_account_private(
        &mut self,
        caller: AccountId,
        account: AccountId,
        private: bool,
        events: &mut Vec<Event>,
    ) -> (r: Result<(), Error>)
        requires
            old(self).wf(),
        ensures
            final(self).wf(),
            caller@ != old(self)@.owner@ ==> {
                &&& r == Err::<(), Error>(Error::PermissionDenied)
                &&& final(self)@ == old(self)@
                &&& final(events)@ == old(events)@.push(failure_event(Error::PermissionDenied))
            },
            caller@ == old(self)@.owner@ ==> {
                &&& r == Ok::<(), Error>(())
                &&& final(self)@ == (EntropyView {
                    private: old(self)@.private.insert(account@, private),
                    ..old(self)@
                })
                &&& final(events)@ == old(events)@.push(
                    Event::Privacy(Privacy { account, private }),
                )
            },
    {
        if !caller.same(&self.owner) {
            return reject(events, Error::PermissionDenied);
        }
        self.accounts_private.insert(account, private);
        events.push(Event::Privacy(Privacy { account, private }));
        Ok(())
    }

    /// Blacklists `account`, which lets the owner destroy its funds.
    /// Owner only.
    pub fn add_account_to_blacklist(
        &mut self,
        caller: AccountId,
        account: AccountId,
        events: &mut Vec<Event>,
    ) -> (r: Result<(), Error>)
        requires
            old(self).wf(),
        ensures
            final(self).wf(),
            caller@ != old(self)@.owner@ ==> {
                &&& r == Err::<(), Error>(Error::PermissionDenied)
                &&& final(self)@ == old(self)@
                &&& final(events)@ == old(events)@.push(failure_event(Error::PermissionDenied))
            },
            caller@ == old(self)@.owner@ ==> {
                &&& r == Ok::<(), Error>(())
                &&& final(self)@ == (EntropyView {
                    blacklisted: old(self)@.blacklisted.insert(account@, true),
                    ..old(self)@
                })
                &&& final(events)@ == old(events)@.push(
                    Event::AddedBlackList(AddedBlackList { account }),
                )
            },
    {
        if !caller.same(&self.owner) {
            return reject(events, Error::PermissionDenied);
        }
        self.accounts_blacklisted.insert(account, true);
        events.push(Event::AddedBlackList(AddedBlackList { account }));
        Ok(())
    }

    /// Takes `account` off the blacklist. Owner only.
    pub fn remove_account_from_blacklist(
        &mut self,
        caller: AccountId,
        account: AccountId,
        events: &mut Vec<Event>,
    ) -> (r: Result<(), Error>)
        requires
            old(self).wf(),
        ensures
            final(self).wf(),
            caller@ != old(self)@.owner@ ==> {
                &&& r == Err::<(), Error>(Error::PermissionDenied)
                &&& final(self)@ == old(self)@
                &&& final(events)@ == old(events)@.push(failure_event(Error::PermissionDenied))
            },
            caller@ == old(self)@.owner@ ==> {
                &&& r == Ok::<(), Error>(())
                &&& final(self)@ == (EntropyView {
                    blacklisted: old(self)@.blacklisted.insert(account@, false),
                    ..old(self)@
                })
                &&& final(events)@ == old(events)@.push(
                    Event::RemovedBlackList(RemovedBlackList { account }),
                )
            },
    {
        if !caller.same(&self.owner) {
            return reject(events, Error::PermissionDenied);
        }
        self.accounts_blacklisted.insert(account, false);
        events.push(Event::RemovedBlackList(RemovedBlackList { account }));
        Ok(())
    }

    /// Zeroes the balance of a blacklisted `account` and removes those funds
    /// from the total supply. Owner only; fails with `AccountNotBlackListed`,
    /// changing nothing, when `account` is not blacklisted.
    pub fn destroy_black_funds(
        &mut self,
        caller: AccountId,
        account: AccountId,
        events: &mut Vec<Event>,
    ) -> (r: Result<(), Error>)
        requires
            old(self).wf(),
        ensures
            final(self).wf(),
            caller@ != old(self)@.owner@ ==> {
                &&& r == Err::<(), Error>(Error::PermissionDenied)
                &&& final(self)@ == old(self)@
                &&& final(events)@ == old(events)@.push(failure_event(Error::PermissionDenied))
            },
            caller@ == old(self)@.owner@ && !old(self)@.is_blacklisted(account@) ==> {
                &&& r == Err::<(), Error>(Error::AccountNotBlackListed)
                &&& final(self)@ == old(self)@
                &&& final(events)@ == old(events)@.push(failure_event(Error::AccountNotBlackListed))
            },
            caller@ == old(self)@.owner@ && old(self)@.is_blacklisted(account@) ==> {
                let funds = old(self)@.balance(account@);
                &&& r == Ok::<(), Error>(())
                &&& final(self)@ == (EntropyView {
                    total_supply: (old(self)@.total_supply - funds) as u128,
                    ..old(self)@.with_balance(account@, 0)
                })
                &&& final(events)@ == old(events)@.push(
                    Event::DestroyedBlackFunds(DestroyedBlackFunds { account, funds }),
                )
            },
    {
        if !caller.same(&self.owner) {
            return reject(events, Error::PermissionDenied);
        }
        if !self.is_account_blacklisted(account) {
            return reject(events, Error::AccountNotBlackListed);
        }
        let dirty_funds = stored_balance(&self.balances, &account);
        proof {
            self.balances.lemma_finite();
            if self.balances@.contains_key(account@) {
                lemma_value_le_total(self.balances@, account@);
            }
            lemma_total_insert(self.balances@, account@, 0);
        }
        self.balances.insert(account, 0);
        self.total_supply = self.total_supply - dirty_funds;
        events.push(Event::DestroyedBlackFunds(DestroyedBlackFunds { account, funds: dirty_funds }));
        Ok(())
    }
}

} // verus!
