use entropy::{
    AccountId, AddedBlackList, DestroyedBlackFunds, Entropy, Error, Event, Issue, Privacy,
    Redeem, RemovedBlackList, TransactionFailed, Transfer,
};

fn alice() -> AccountId {
    AccountId::from([0x01; 32])
}

fn bob() -> AccountId {
    AccountId::from([0x02; 32])
}

fn charlie() -> AccountId {
    AccountId::from([0x03; 32])
}

fn eve() -> AccountId {
    AccountId::from([0x05; 32])
}

fn transfer(from: Option<AccountId>, to: Option<AccountId>, value: u128) -> Event {
    Event::Transfer(Transfer { from, to, value })
}

fn failed(error: Error) -> Event {
    Event::TransactionFailed(TransactionFailed { error })
}

#[test]
fn new_works() {
    let mut events = Vec::new();
    let _entropy = Entropy::new(alice(), 100, &mut events);

    assert_eq!(1, events.len());
    assert_eq!(events[0], transfer(None, Some(AccountId::from([0x01; 32])), 100));
}

#[test]
fn default_works() {
    let mut events = Vec::new();
    let entropy = Entropy::default(alice(), &mut events);
    assert_eq!(1, events.len());

    let default_decimals = 6;
    let default_initial_supply: u128 = u128::pow(10, default_decimals) * 1_000_000;
    let default_name = "Entropy Coin";
    let default_symbol = "ENT";

    assert_eq!(
        events[0],
        transfer(None, Some(AccountId::from([0x01; 32])), default_initial_supply)
    );
    assert_eq!(entropy.total_supply(), default_initial_supply);
    assert_eq!(entropy.name(), default_name);
    assert_eq!(entropy.symbol(), default_symbol);
    assert_eq!(entropy.decimals(), default_decimals);
}

#[test]
fn total_supply_works() {
    let mut events = Vec::new();
    let entropy = Entropy::new(alice(), 100, &mut events);
    assert_eq!(events[0], transfer(None, Some(AccountId::from([0x01; 32])), 100));
    assert_eq!(entropy.total_supply(), 100);
}

#[test]
fn balance_of_works() {
    let mut events = Vec::new();
    let entropy = Entropy::new(alice(), 100, &mut events);
    assert_eq!(events[0], transfer(None, Some(AccountId::from([0x01; 32])), 100));
    assert_eq!(entropy.balance_of(alice()), 100);
    assert_eq!(entropy.balance_of(bob()), 0);
}

#[test]
fn transfer_ownership_works() {
    let mut events = Vec::new();
    let mut entropy = Entropy::new(alice(), 100, &mut events);

    assert_eq!(entropy.balance_of(alice()), 100);
    assert_eq!(entropy.owner(), alice());
    assert_eq!(entropy.transfer_ownership(alice(), bob(), &mut events), Ok(()));
    assert_eq!(entropy.owner(), bob());
}

#[test]
fn transfer_works() {
    let mut events = Vec::new();
    let mut entropy = Entropy::new(alice(), 100_000_000, &mut events);

    assert_eq!(entropy.balance_of(bob()), 0);
    assert_eq!(entropy.transfer(alice(), bob(), 20_000_000, &mut events), Ok(()));
    assert_eq!(entropy.balance_of(bob()), 20_000_000);
    assert_eq!(entropy.balance_of(alice()), 80_000_000);

    assert_eq!(entropy.set_params(alice(), 10, 50_000_000, &mut events), Ok(()));
    // Fee is 10_000_000 * 10 / 10000 = 10_000, credited to the owner, alice.
    assert_eq!(entropy.transfer_from_to(bob(), charlie(), 10_000_000, &mut events), Ok(()));
    assert_eq!(entropy.balance_of(bob()), 10_000_000);
    assert_eq!(entropy.balance_of(charlie()), 10_000_000 - 10_000);
    assert_eq!(entropy.balance_of(alice()), 80_000_000 + 10_000);

    assert_eq!(events.len(), 5);
    assert_eq!(events[0], transfer(None, Some(alice()), 100_000_000));
    assert_eq!(events[1], transfer(Some(alice()), Some(bob()), 20_000_000));
    assert_eq!(events[3], transfer(Some(bob()), Some(alice()), 10_000));
    assert_eq!(events[4], transfer(Some(bob()), Some(charlie()), 10_000_000 - 10_000));
}

#[test]
fn invalid_transfer_should_fail() {
    let mut events = Vec::new();
    let mut entropy = Entropy::new(alice(), 100, &mut events);

    assert_eq!(entropy.balance_of(bob()), 0);
    assert_eq!(
        entropy.transfer(bob(), eve(), 10, &mut events),
        Err(Error::InsufficientBalance)
    );
    assert_eq!(entropy.balance_of(alice()), 100);
    assert_eq!(entropy.balance_of(bob()), 0);
    assert_eq!(entropy.balance_of(eve()), 0);

    assert_eq!(events.len(), 2);
    assert_eq!(events[0], transfer(None, Some(AccountId::from([0x01; 32])), 100));
}

#[test]
fn transfer_from_works() {
    let mut events = Vec::new();
    let mut entropy = Entropy::new(alice(), 100, &mut events);

    assert_eq!(
        entropy.transfer_from(alice(), alice(), eve(), 10, &mut events),
        Err(Error::InsufficientAllowance)
    );
    assert_eq!(entropy.approve(alice(), bob(), 10, &mut events), Ok(()));
    assert_eq!(events.len(), 3);

    assert_eq!(entropy.transfer_from(bob(), alice(), eve(), 10, &mut events), Ok(()));
    assert_eq!(entropy.balance_of(eve()), 10);

    assert_eq!(events.len(), 4);
    assert_eq!(events[0], transfer(None, Some(AccountId::from([0x01; 32])), 100));
    assert_eq!(
        events[3],
        transfer(Some(AccountId::from([0x01; 32])), Some(AccountId::from([0x05; 32])), 10)
    );
}

#[test]
fn allowance_must_not_change_on_failed_transfer() {
    let mut events = Vec::new();
    let mut entropy = Entropy::new(alice(), 100, &mut events);

    let alice_balance = entropy.balance_of(alice());
    let initial_allowance = alice_balance + 2;
    assert_eq!(entropy.approve(alice(), bob(), initial_allowance, &mut events), Ok(()));

    let before = events.len();
    assert_eq!(
        entropy.transfer_from(bob(), alice(), eve(), alice_balance + 1, &mut events),
        Err(Error::InsufficientBalance)
    );
    assert_eq!(entropy.allowance(alice(), bob()), initial_allowance);
    assert_eq!(before + 1, events.len());
}

#[test]
fn issue_works() {
    let mut events = Vec::new();
    let mut entropy = Entropy::new(alice(), 100, &mut events);

    assert_eq!(entropy.balance_of(alice()), 100);
    assert_eq!(entropy.issue(alice(), 100, &mut events), Ok(()));
    assert_eq!(entropy.total_supply(), 200);
    assert_eq!(entropy.balance_of(alice()), 200);

    assert_eq!(events.len(), 2);
    assert_eq!(events[0], transfer(None, Some(AccountId::from([0x01; 32])), 100));
    assert_eq!(events[1], Event::Issue(Issue { amount: 100 }));
}

#[test]
fn redeem_works() {
    let mut events = Vec::new();
    let mut entropy = Entropy::new(alice(), 100, &mut events);

    assert_eq!(entropy.balance_of(alice()), 100);
    assert_eq!(entropy.redeem(alice(), 50, &mut events), Ok(()));
    assert_eq!(entropy.total_supply(), 50);
    assert_eq!(entropy.balance_of(alice()), 50);

    assert_eq!(events.len(), 2);
    assert_eq!(events[0], transfer(None, Some(AccountId::from([0x01; 32])), 100));
    assert_eq!(events[1], Event::Redeem(Redeem { amount: 50 }));
}

#[test]
fn account_private_works() {
    let mut events = Vec::new();
    let mut entropy = Entropy::new(alice(), 100, &mut events);

    assert_eq!(entropy.is_account_private(alice()), false);
    assert_eq!(entropy.set_account_private(alice(), alice(), true, &mut events), Ok(()));
    assert_eq!(entropy.is_account_private(alice()), true);
    assert_eq!(entropy.set_account_private(alice(), alice(), false, &mut events), Ok(()));
    assert_eq!(entropy.is_account_private(alice()), false);

    assert_eq!(events.len(), 3);
    assert_eq!(events[0], transfer(None, Some(alice()), 100));
    assert_eq!(events[1], Event::Privacy(Privacy { account: alice(), private: true }));
    assert_eq!(events[2], Event::Privacy(Privacy { account: alice(), private: false }));
}

#[test]
fn blacklist_works() {
    let mut events = Vec::new();
    let mut entropy = Entropy::new(alice(), 100, &mut events);

    assert_eq!(entropy.is_account_blacklisted(alice()), false);
    assert_eq!(entropy.is_account_blacklisted(bob()), false);

    assert_eq!(entropy.transfer(alice(), bob(), 10, &mut events), Ok(()));
    assert_eq!(
        entropy.destroy_black_funds(alice(), bob(), &mut events),
        Err(Error::AccountNotBlackListed)
    );
    assert_eq!(entropy.add_account_to_blacklist(alice(), bob(), &mut events), Ok(()));
    assert_eq!(entropy.is_account_blacklisted(bob()), true);
    assert_eq!(entropy.destroy_black_funds(alice(), bob(), &mut events), Ok(()));
    assert_eq!(entropy.total_supply(), 90);
    assert_eq!(entropy.remove_account_from_blacklist(alice(), bob(), &mut events), Ok(()));
    assert_eq!(entropy.is_account_blacklisted(bob()), false);

    assert_eq!(events.len(), 6);
    assert_eq!(events[0], transfer(None, Some(alice()), 100));
    assert_eq!(events[1], transfer(Some(alice()), Some(bob()), 10));
    assert_eq!(events[2], failed(Error::AccountNotBlackListed));
    assert_eq!(
        format!("{:?}", Error::AccountNotBlackListed),
        Error::AccountNotBlackListed.as_str()
    );
    assert_eq!(events[3], Event::AddedBlackList(AddedBlackList { account: bob() }));
    assert_eq!(
        events[4],
        Event::DestroyedBlackFunds(DestroyedBlackFunds { account: bob(), funds: 10 })
    );
    assert_eq!(events[5], Event::RemovedBlackList(RemovedBlackList { account: bob() }));
}

#[test]
fn permission_check_works() {
    let mut events = Vec::new();
    let mut entropy = Entropy::new(alice(), 100, &mut events);

    assert_eq!(entropy.owner(), alice());

    assert_eq!(
        entropy.transfer_ownership(bob(), charlie(), &mut events),
        Err(Error::PermissionDenied)
    );
    assert_eq!(entropy.issue(bob(), 100, &mut events), Err(Error::PermissionDenied));
    assert_eq!(entropy.redeem(bob(), 100, &mut events), Err(Error::PermissionDenied));
    assert_eq!(entropy.set_params(bob(), 10, 50, &mut events), Err(Error::PermissionDenied));
    assert_eq!(
        entropy.set_account_private(bob(), charlie(), true, &mut events),
        Err(Error::PermissionDenied)
    );
    assert_eq!(
        entropy.add_account_to_blacklist(bob(), charlie(), &mut events),
        Err(Error::PermissionDenied)
    );
    assert_eq!(
        entropy.remove_account_from_blacklist(bob(), charlie(), &mut events),
        Err(Error::PermissionDenied)
    );
    assert_eq!(
        entropy.destroy_black_funds(bob(), charlie(), &mut events),
        Err(Error::PermissionDenied)
    );

    assert_eq!(entropy.transfer_ownership(alice(), bob(), &mut events), Ok(()));
    assert_eq!(entropy.owner(), bob());

    assert_eq!(entropy.issue(bob(), 100, &mut events), Ok(()));
    assert_eq!(entropy.redeem(bob(), 100, &mut events), Ok(()));
    assert_eq!(entropy.set_params(bob(), 10, 50, &mut events), Ok(()));
    assert_eq!(entropy.set_account_private(bob(), charlie(), true, &mut events), Ok(()));
    assert_eq!(entropy.add_account_to_blacklist(bob(), charlie(), &mut events), Ok(()));
    assert_eq!(entropy.destroy_black_funds(bob(), charlie(), &mut events), Ok(()));
    assert_eq!(entropy.remove_account_from_blacklist(bob(), charlie(), &mut events), Ok(()));
}
