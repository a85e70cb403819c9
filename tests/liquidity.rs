use senswap::authority::pool_authority;
use senswap::error::AppError;
use senswap::key::Key;
use senswap::processor::{Processor, FEE};
use senswap::state::{AccountRef, Network, NetworkState, Pool, LPT, MAX_MINTS};

fn key(n: u8) -> Key {
    Key::new([n; 32])
}

fn program() -> Key {
    key(200)
}

fn acc(k: Key, owner: Key, signer: bool) -> AccountRef {
    AccountRef { key: k, owner, is_signer: signer }
}

fn authorized_pool(program: &Key, start: u8) -> (Key, Key) {
    for n in start..=255u8 {
        let k = key(n);
        if let Some(t) = pool_authority(&k, program) {
            return (k, t);
        }
    }
    panic!("no pool address with a derived authority");
}

fn blank_pool() -> Pool {
    Pool {
        owner: key(0),
        network: key(0),
        mint: key(0),
        treasury: key(0),
        reserve: 0,
        lpt: 0,
        fee: 0,
        is_initialized: false,
    }
}

fn blank_lpt() -> LPT {
    LPT { owner: key(0), pool: key(0), lpt: 0, is_initialized: false }
}

fn other_mints() -> Vec<Key> {
    (1..MAX_MINTS as u8).map(|n| key(n + 100)).collect()
}

fn fresh_network() -> Network {
    let mut network = Network { state: NetworkState::Uninitialized, mints: vec![] };
    let network_acc = acc(key(50), program(), true);
    assert_eq!(
        Processor::initialize_network(&program(), &network_acc, &mut network, &other_mints()),
        Ok(())
    );
    network
}

struct Setup {
    owner: AccountRef,
    pool_acc: AccountRef,
    lpt_acc: AccountRef,
    treasury: Key,
    treasurer: Key,
    pool: Pool,
    account: LPT,
}

/// A primary pool made by the creation operation with the given deposit.
fn primary_pool(reserve: u64, lpt: u128) -> Setup {
    let p = program();
    let (pool_key, treasurer) = authorized_pool(&p, 1);
    let owner = acc(key(10), key(99), true);
    let network_acc = acc(key(50), p, false);
    let pool_acc = acc(pool_key, p, true);
    let lpt_acc = acc(key(60), p, true);
    let treasury = key(70);
    let mut network = fresh_network();
    let mut pool = blank_pool();
    let mut account = blank_lpt();
    let r = Processor::initialize_pool(
        &p,
        &owner,
        &network_acc,
        &pool_acc,
        &treasury,
        &lpt_acc,
        &Key::primary(),
        &treasurer,
        &mut network,
        &mut pool,
        &mut account,
        reserve,
        lpt,
    );
    assert_eq!(r, Ok(()));
    assert_eq!(network.state, NetworkState::Activated);
    Setup { owner, pool_acc, lpt_acc, treasury, treasurer, pool, account }
}

#[test]
fn initialize_network_fills_slots() {
    let network = fresh_network();
    assert_eq!(network.state, NetworkState::Initialized);
    assert_eq!(network.mints.len(), MAX_MINTS);
    assert!(network.mints[0] == Key::primary());
    assert!(network.mints[1] == key(101));
    assert!(network.mints[MAX_MINTS - 1] == key(100 + MAX_MINTS as u8 - 1));
}

#[test]
fn initialize_network_only_once() {
    let mut network = fresh_network();
    let network_acc = acc(key(50), program(), true);
    assert_eq!(
        Processor::initialize_network(&program(), &network_acc, &mut network, &other_mints()),
        Err(AppError::ConstructorOnce)
    );
}

#[test]
fn initialize_network_needs_signature() {
    let mut network = Network { state: NetworkState::Uninitialized, mints: vec![] };
    let network_acc = acc(key(50), program(), false);
    assert_eq!(
        Processor::initialize_network(&program(), &network_acc, &mut network, &other_mints()),
        Err(AppError::InvalidOwner)
    );
    assert_eq!(network.state, NetworkState::Uninitialized);
    assert!(network.mints.is_empty());
}

#[test]
fn initialize_pool_records_deposit() {
    let s = primary_pool(1_000_000, 1_000_000);
    assert_eq!(s.pool.reserve, 1_000_000);
    assert_eq!(s.pool.lpt, 1_000_000);
    assert_eq!(s.pool.fee, FEE);
    assert!(s.pool.is_initialized);
    assert!(s.pool.mint == Key::primary());
    assert!(s.pool.treasury == s.treasury);
    assert_eq!(s.account.lpt, 1_000_000);
    assert!(s.account.pool == s.pool_acc.key);
    assert!(s.account.owner == s.owner.key);
}

#[test]
fn initialize_pool_rules() {
    let p = program();
    let (pool_key, treasurer) = authorized_pool(&p, 1);
    let owner = acc(key(10), key(99), true);
    let network_acc = acc(key(50), p, false);
    let pool_acc = acc(pool_key, p, true);
    let lpt_acc = acc(key(60), p, true);
    let treasury = key(70);
    let mut network = fresh_network();
    let mut pool = blank_pool();
    let mut account = blank_lpt();
    let mut run = |network: &mut Network, mint: Key, treasurer: Key, reserve: u64| {
        Processor::initialize_pool(
            &p,
            &owner,
            &network_acc,
            &pool_acc,
            &treasury,
            &lpt_acc,
            &mint,
            &treasurer,
            network,
            &mut pool,
            &mut account,
            reserve,
            10,
        )
    };
    // an asset that is not in the network
    assert_eq!(run(&mut network, key(3), treasurer, 10), Err(AppError::UnmatchedPool));
    // a non-primary asset before activation
    assert_eq!(run(&mut network, key(101), treasurer, 10), Err(AppError::NotInitialized));
    // a treasurer that is not the derived authority
    assert_eq!(run(&mut network, Key::primary(), key(71), 10), Err(AppError::InvalidOwner));
    // a zero deposit
    assert_eq!(run(&mut network, Key::primary(), treasurer, 0), Err(AppError::ZeroValue));
    assert_eq!(network.state, NetworkState::Initialized);
    // a second primary pool after activation
    network.state = NetworkState::Activated;
    assert_eq!(run(&mut network, Key::primary(), treasurer, 10), Err(AppError::ConstructorOnce));
    // an uninitialized network
    let mut bare = Network { state: NetworkState::Uninitialized, mints: vec![] };
    assert_eq!(run(&mut bare, Key::primary(), treasurer, 10), Err(AppError::NotInitialized));
    // a record of another program
    let foreign = acc(pool_key, key(1), true);
    let mut network = fresh_network();
    let r = Processor::initialize_pool(
        &p,
        &owner,
        &network_acc,
        &foreign,
        &treasury,
        &lpt_acc,
        &Key::primary(),
        &treasurer,
        &mut network,
        &mut blank_pool(),
        &mut blank_lpt(),
        10,
        10,
    );
    assert_eq!(r, Err(AppError::IncorrectProgramId));
}

#[test]
fn initialize_pool_non_primary_after_activation() {
    let s = primary_pool(10, 10);
    let p = program();
    let (pool_key, treasurer) = authorized_pool(&p, s.pool_acc.key.bytes[0] + 1);
    let mut network = fresh_network();
    network.state = NetworkState::Activated;
    let mut pool = blank_pool();
    let mut account = blank_lpt();
    let r = Processor::initialize_pool(
        &p,
        &s.owner,
        &acc(key(50), p, false),
        &acc(pool_key, p, true),
        &key(71),
        &acc(key(61), p, true),
        &key(105),
        &treasurer,
        &mut network,
        &mut pool,
        &mut account,
        42,
        7,
    );
    assert_eq!(r, Ok(()));
    assert_eq!(network.state, NetworkState::Activated);
    assert_eq!(pool.reserve, 42);
    assert_eq!(account.lpt, 7);
}

#[test]
fn initialize_lpt_opens_empty_account() {
    let p = program();
    let owner = acc(key(11), key(99), true);
    let mut account = blank_lpt();
    let r = Processor::initialize_lpt(&p, &owner, &acc(key(1), p, false), &acc(key(61), p, true), &mut account);
    assert_eq!(r, Ok(()));
    assert!(account.is_initialized);
    assert_eq!(account.lpt, 0);
    assert!(account.pool == key(1));
    assert!(account.owner == key(11));
    let again = Processor::initialize_lpt(&p, &owner, &acc(key(1), p, false), &acc(key(61), p, true), &mut account);
    assert_eq!(again, Err(AppError::ConstructorOnce));
}

#[test]
fn add_then_remove_liquidity_scenario() {
    let mut s = primary_pool(1_000_000, 1_000_000);
    let p = program();
    let minted = Processor::add_liquidity(
        &p,
        &s.owner,
        &s.pool_acc,
        &s.treasury,
        &s.lpt_acc,
        &mut s.pool,
        &mut s.account,
        500_000,
    );
    assert_eq!(minted, Ok(500_000));
    assert_eq!(s.pool.reserve, 1_500_000);
    assert_eq!(s.pool.lpt, 1_500_000);
    let payout = Processor::remove_liquidity(
        &p,
        &s.owner,
        &s.pool_acc,
        &s.treasury,
        &s.lpt_acc,
        &s.treasurer,
        &mut s.pool,
        &mut s.account,
        750_000,
    );
    assert_eq!(payout, Ok(750_000));
    assert_eq!(s.pool.reserve, 750_000);
    assert_eq!(s.pool.lpt, 750_000);
    assert_eq!(s.account.lpt, 750_000);
}

#[test]
fn add_liquidity_rounds_down() {
    let mut s = primary_pool(3, 10);
    let minted = Processor::add_liquidity(
        &program(),
        &s.owner,
        &s.pool_acc,
        &s.treasury,
        &s.lpt_acc,
        &mut s.pool,
        &mut s.account,
        1,
    );
    // floor(10 * 1 / 3)
    assert_eq!(minted, Ok(3));
    assert_eq!(s.pool.reserve, 4);
    assert_eq!(s.pool.lpt, 13);
}

#[test]
fn remove_liquidity_rounds_down() {
    let mut s = primary_pool(10, 3);
    let payout = Processor::remove_liquidity(
        &program(),
        &s.owner,
        &s.pool_acc,
        &s.treasury,
        &s.lpt_acc,
        &s.treasurer,
        &mut s.pool,
        &mut s.account,
        1,
    );
    // floor(10 * 1 / 3)
    assert_eq!(payout, Ok(3));
    assert_eq!(s.pool.reserve, 7);
    assert_eq!(s.pool.lpt, 2);
}

#[test]
fn remove_everything_drains_pool() {
    let mut s = primary_pool(777, 555);
    let payout = Processor::remove_liquidity(
        &program(),
        &s.owner,
        &s.pool_acc,
        &s.treasury,
        &s.lpt_acc,
        &s.treasurer,
        &mut s.pool,
        &mut s.account,
        555,
    );
    assert_eq!(payout, Ok(777));
    assert_eq!(s.pool.reserve, 0);
    assert_eq!(s.pool.lpt, 0);
}

#[test]
fn remove_liquidity_insufficient_funds_leaves_state() {
    let mut s = primary_pool(1_000, 1_000);
    let before = (s.pool.reserve, s.pool.lpt, s.account.lpt);
    let r = Processor::remove_liquidity(
        &program(),
        &s.owner,
        &s.pool_acc,
        &s.treasury,
        &s.lpt_acc,
        &s.treasurer,
        &mut s.pool,
        &mut s.account,
        1_001,
    );
    assert_eq!(r, Err(AppError::InsufficientFunds));
    assert_eq!((s.pool.reserve, s.pool.lpt, s.account.lpt), before);
}

#[test]
fn remove_liquidity_needs_derived_treasurer() {
    let mut s = primary_pool(1_000, 1_000);
    let r = Processor::remove_liquidity(
        &program(),
        &s.owner,
        &s.pool_acc,
        &s.treasury,
        &s.lpt_acc,
        &key(3),
        &mut s.pool,
        &mut s.account,
        1,
    );
    assert_eq!(r, Err(AppError::InvalidOwner));
}

#[test]
fn liquidity_zero_amounts_rejected() {
    let mut s = primary_pool(1_000, 1_000);
    let p = program();
    let r = Processor::add_liquidity(&p, &s.owner, &s.pool_acc, &s.treasury, &s.lpt_acc, &mut s.pool, &mut s.account, 0);
    assert_eq!(r, Err(AppError::ZeroValue));
    let r = Processor::remove_liquidity(
        &p,
        &s.owner,
        &s.pool_acc,
        &s.treasury,
        &s.lpt_acc,
        &s.treasurer,
        &mut s.pool,
        &mut s.account,
        0,
    );
    assert_eq!(r, Err(AppError::ZeroValue));
}

#[test]
fn add_liquidity_checks_binding_and_owner() {
    let mut s = primary_pool(1_000, 1_000);
    let p = program();
    let mut stray = s.account;
    stray.pool = key(4);
    let r = Processor::add_liquidity(&p, &s.owner, &s.pool_acc, &s.treasury, &s.lpt_acc, &mut s.pool, &mut stray, 5);
    assert_eq!(r, Err(AppError::UnmatchedPool));
    let stranger = acc(key(12), key(99), true);
    let r = Processor::add_liquidity(&p, &stranger, &s.pool_acc, &s.treasury, &s.lpt_acc, &mut s.pool, &mut s.account, 5);
    assert_eq!(r, Err(AppError::InvalidOwner));
    let mut blank = blank_lpt();
    let r = Processor::add_liquidity(&p, &s.owner, &s.pool_acc, &s.treasury, &s.lpt_acc, &mut s.pool, &mut blank, 5);
    assert_eq!(r, Err(AppError::NotInitialized));
    let foreign = acc(s.lpt_acc.key, key(1), true);
    let r = Processor::add_liquidity(&p, &s.owner, &s.pool_acc, &s.treasury, &foreign, &mut s.pool, &mut s.account, 5);
    assert_eq!(r, Err(AppError::IncorrectProgramId));
}

#[test]
fn add_liquidity_overflow_leaves_state() {
    let mut s = primary_pool(u64::MAX - 10, 1_000);
    let r = Processor::add_liquidity(
        &program(),
        &s.owner,
        &s.pool_acc,
        &s.treasury,
        &s.lpt_acc,
        &mut s.pool,
        &mut s.account,
        11,
    );
    assert_eq!(r, Err(AppError::Overflow));
    assert_eq!(s.pool.reserve, u64::MAX - 10);
    assert_eq!(s.pool.lpt, 1_000);
    assert_eq!(s.account.lpt, 1_000);
}

#[test]
fn add_liquidity_share_overflow() {
    let mut s = primary_pool(1, u128::MAX / 2);
    let r = Processor::add_liquidity(
        &program(),
        &s.owner,
        &s.pool_acc,
        &s.treasury,
        &s.lpt_acc,
        &mut s.pool,
        &mut s.account,
        3,
    );
    assert_eq!(r, Err(AppError::Overflow));
    assert_eq!(s.pool.lpt, u128::MAX / 2);
}

#[test]
fn transfer_moves_shares_and_keeps_sum() {
    let mut s = primary_pool(1_000, 1_000);
    let p = program();
    let mut other = blank_lpt();
    let other_acc = acc(key(62), p, true);
    let holder = acc(key(13), key(99), true);
    assert_eq!(Processor::initialize_lpt(&p, &holder, &s.pool_acc, &other_acc, &mut other), Ok(()));
    let r = Processor::transfer(&p, &s.owner, &s.lpt_acc, &other_acc, &mut s.account, &mut other, 400);
    assert_eq!(r, Ok(()));
    assert_eq!(s.account.lpt, 600);
    assert_eq!(other.lpt, 400);
    // the second holder deposits; the supply still equals the balances
    let minted = Processor::add_liquidity(&p, &holder, &s.pool_acc, &s.treasury, &other_acc, &mut s.pool, &mut other, 500);
    assert_eq!(minted, Ok(500));
    assert_eq!(s.pool.lpt, s.account.lpt + other.lpt);
    let payout = Processor::remove_liquidity(
        &p,
        &s.owner,
        &s.pool_acc,
        &s.treasury,
        &s.lpt_acc,
        &s.treasurer,
        &mut s.pool,
        &mut s.account,
        600,
    );
    assert_eq!(payout, Ok(600));
    assert_eq!(s.pool.lpt, s.account.lpt + other.lpt);
    assert_eq!(s.pool.reserve, 900);
}

#[test]
fn transfer_rules() {
    let mut s = primary_pool(1_000, 1_000);
    let p = program();
    let mut other = LPT { owner: key(13), pool: s.pool_acc.key, lpt: 5, is_initialized: true };
    let other_acc = acc(key(62), p, true);
    let r = Processor::transfer(&p, &s.owner, &s.lpt_acc, &other_acc, &mut s.account, &mut other, 1_001);
    assert_eq!(r, Err(AppError::InsufficientFunds));
    assert_eq!((s.account.lpt, other.lpt), (1_000, 5));
    let r = Processor::transfer(&p, &s.owner, &s.lpt_acc, &other_acc, &mut s.account, &mut other, 0);
    assert_eq!(r, Err(AppError::ZeroValue));
    let mut elsewhere = LPT { owner: key(13), pool: key(4), lpt: 5, is_initialized: true };
    let r = Processor::transfer(&p, &s.owner, &s.lpt_acc, &other_acc, &mut s.account, &mut elsewhere, 1);
    assert_eq!(r, Err(AppError::UnmatchedPool));
    let mut full = LPT { owner: key(13), pool: s.pool_acc.key, lpt: u128::MAX, is_initialized: true };
    let r = Processor::transfer(&p, &s.owner, &s.lpt_acc, &other_acc, &mut s.account, &mut full, 1);
    assert_eq!(r, Err(AppError::Overflow));
    assert_eq!(s.account.lpt, 1_000);
    let stranger = acc(key(12), key(99), true);
    let r = Processor::transfer(&p, &stranger, &s.lpt_acc, &other_acc, &mut s.account, &mut other, 1);
    assert_eq!(r, Err(AppError::InvalidOwner));
}

#[test]
fn transfer_to_same_account_is_noop() {
    let mut s = primary_pool(1_000, 1_000);
    let mut copy = s.account;
    let r = Processor::transfer(&program(), &s.owner, &s.lpt_acc, &s.lpt_acc, &mut s.account, &mut copy, 10);
    assert_eq!(r, Ok(()));
    assert_eq!(s.account.lpt, 1_000);
    assert_eq!(copy.lpt, 1_000);
}

#[test]
fn close_lpt_with_balance_fails() {
    let s = primary_pool(1_000, 1_000);
    let account = LPT { owner: s.owner.key, pool: s.pool_acc.key, lpt: 5, is_initialized: true };
    let r = Processor::close_lpt(&program(), &s.owner, &s.lpt_acc, &account, 2_000, 10);
    assert_eq!(r, Err(AppError::ZeroValue));
    assert_eq!(account.lpt, 5);
    assert!(account.is_initialized);
}

#[test]
fn close_lpt_reclaims_balance() {
    let s = primary_pool(1_000, 1_000);
    let account = LPT { owner: s.owner.key, pool: s.pool_acc.key, lpt: 0, is_initialized: true };
    assert_eq!(Processor::close_lpt(&program(), &s.owner, &s.lpt_acc, &account, 2_000, 10), Ok(2_010));
    assert_eq!(
        Processor::close_lpt(&program(), &s.owner, &s.lpt_acc, &account, u64::MAX, 1),
        Err(AppError::Overflow)
    );
    let stranger = acc(key(12), key(99), true);
    assert_eq!(
        Processor::close_lpt(&program(), &stranger, &s.lpt_acc, &account, 1, 1),
        Err(AppError::InvalidOwner)
    );
}

#[test]
fn close_pool_needs_drained_pool() {
    let mut s = primary_pool(777, 555);
    let p = program();
    assert_eq!(
        Processor::close_pool(&p, &s.owner, &s.pool_acc, &s.treasury, &s.treasurer, &s.pool),
        Err(AppError::ZeroValue)
    );
    let payout = Processor::remove_liquidity(
        &p,
        &s.owner,
        &s.pool_acc,
        &s.treasury,
        &s.lpt_acc,
        &s.treasurer,
        &mut s.pool,
        &mut s.account,
        555,
    );
    assert_eq!(payout, Ok(777));
    assert_eq!(Processor::close_pool(&p, &s.owner, &s.pool_acc, &s.treasury, &s.treasurer, &s.pool), Ok(()));
    assert_eq!(
        Processor::close_pool(&p, &s.owner, &s.pool_acc, &s.treasury, &key(3), &s.pool),
        Err(AppError::InvalidOwner)
    );
    assert_eq!(Processor::reclaim(5, 6), Ok(11));
}

#[test]
fn derived_authority_differs_from_pool() {
    let p = program();
    let (pool_key, treasurer) = authorized_pool(&p, 1);
    assert!(!(treasurer == pool_key));
    assert!(!(treasurer == p));
    let again = pool_authority(&pool_key, &p).unwrap();
    assert!(again == treasurer);
}
