use perpe::ledger::{deposit, withdraw};
use perpe::lending::{deposit_to_lending, withdraw_from_lending};
use perpe::market::{create_market, initialize};
use perpe::state::{
    Deposited, ErrorCode, Key, LenderPosition, LendingPool, Market, MarketCreated, Protocol,
    ProtocolInitialized, UserAccount, Withdrawn,
};

fn key(n: u64) -> Key {
    Key { w0: n, w1: 0, w2: 0, w3: 0 }
}

fn empty_pool() -> LendingPool {
    LendingPool {
        market: key(3),
        token_mint: key(1),
        total_deposits: 0,
        total_borrowed: 0,
        total_shares: 0,
        bump: 9,
    }
}

fn lender(owner: u64) -> LenderPosition {
    LenderPosition { owner: key(owner), lending_pool: key(0), shares: 0, bump: 0 }
}

fn amm_key_bytes() -> [u8; 32] {
    [
        12, 20, 222, 252, 130, 94, 198, 118, 148, 37, 8, 24, 187, 101, 64, 101, 244, 41, 141, 49,
        86, 213, 113, 180, 212, 248, 9, 12, 24, 233, 168, 99,
    ]
}

fn key_from(bytes: &[u8]) -> Key {
    let w = |i: usize| u64::from_le_bytes(bytes[i..i + 8].try_into().unwrap());
    Key { w0: w(0), w1: w(8), w2: w(16), w3: w(24) }
}

fn pool_data(mint: &[u8; 32]) -> Vec<u8> {
    let mut data = vec![0u8; 43];
    data.extend_from_slice(mint);
    data.extend_from_slice(&[7u8; 200]);
    data
}

#[test]
fn lending_deposits_mint_proportional_shares() {
    let mut pool = empty_pool();
    let mut pos = lender(4);
    let first = deposit_to_lending(&mut pool, &mut pos, key(4), key(6), 2, 1000).unwrap();
    assert_eq!(first.shares, 1000);
    let second = deposit_to_lending(&mut pool, &mut pos, key(4), key(6), 2, 500).unwrap();
    assert_eq!(second.shares, 500);
    assert_eq!(pool.total_shares, 1500);
    assert_eq!(pool.total_deposits, 1500);
    assert_eq!(pos, LenderPosition { owner: key(4), lending_pool: key(6), shares: 1500, bump: 2 });
}

#[test]
fn deposit_then_withdraw_from_empty_pool_is_exact() {
    let mut pool = empty_pool();
    let mut pos = lender(4);
    let d = deposit_to_lending(&mut pool, &mut pos, key(4), key(6), 2, 700).unwrap();
    let w = withdraw_from_lending(&mut pool, &mut pos, key(4), d.shares).unwrap();
    assert_eq!(w.tokens, 700);
    assert_eq!(pool, empty_pool());
    assert_eq!(pos.shares, 0);
}

#[test]
fn deposit_then_withdraw_loses_only_rounding() {
    let mut pool = LendingPool { total_deposits: 3000, total_shares: 2000, ..empty_pool() };
    let mut pos = lender(4);
    let d = deposit_to_lending(&mut pool, &mut pos, key(4), key(6), 2, 1000).unwrap();
    assert_eq!(d.shares, 666);
    let w = withdraw_from_lending(&mut pool, &mut pos, key(4), 666).unwrap();
    assert_eq!(w.tokens, 999);
    assert_eq!(pool.total_shares, 2000);
    assert_eq!(pool.total_deposits, 3001);
    assert_eq!(pos.shares, 0);
}

#[test]
fn lending_refusals() {
    let mut pool = LendingPool { total_deposits: 1000, total_shares: 1000, total_borrowed: 600, ..empty_pool() };
    let mut pos = LenderPosition { owner: key(4), lending_pool: key(6), shares: 500, bump: 2 };
    let (p0, l0) = (pool, pos);
    assert_eq!(deposit_to_lending(&mut pool, &mut pos, key(4), key(6), 2, 0), Err(ErrorCode::ZeroAmount));
    assert_eq!(withdraw_from_lending(&mut pool, &mut pos, key(5), 10), Err(ErrorCode::Unauthorized));
    assert_eq!(withdraw_from_lending(&mut pool, &mut pos, key(4), 501), Err(ErrorCode::InsufficientShares));
    assert_eq!(
        withdraw_from_lending(&mut pool, &mut pos, key(4), 401),
        Err(ErrorCode::InsufficientLiquidity)
    );
    assert_eq!((pool, pos), (p0, l0));
    let w = withdraw_from_lending(&mut pool, &mut pos, key(4), 400).unwrap();
    assert_eq!(w.tokens, 400);
    assert_eq!(pool.total_deposits, 600);
    assert!(pool.total_borrowed <= pool.total_deposits);
}

#[test]
fn lending_deposit_overflow() {
    let mut pool = LendingPool { total_deposits: u64::MAX - 5, total_shares: 10, ..empty_pool() };
    let mut pos = lender(4);
    assert_eq!(deposit_to_lending(&mut pool, &mut pos, key(4), key(6), 2, 6), Err(ErrorCode::Overflow));
    let mut drained = LendingPool { total_deposits: 1, total_shares: 0, ..empty_pool() };
    let mut other = LenderPosition { shares: 3, ..lender(4) };
    assert_eq!(withdraw_from_lending(&mut drained, &mut other, key(4), 3), Err(ErrorCode::Overflow));
}

#[test]
fn user_deposit_and_withdraw() {
    let mut acct = UserAccount { owner: key(0), balance: 0, bump: 0 };
    let d = deposit(&mut acct, key(4), 3, 250).unwrap();
    assert_eq!(d, Deposited { user: key(4), amount: 250, new_balance: 250 });
    assert_eq!(acct, UserAccount { owner: key(4), balance: 250, bump: 3 });
    let w = withdraw(&mut acct, key(4), 100).unwrap();
    assert_eq!(w, Withdrawn { user: key(4), amount: 100, new_balance: 150 });
    assert_eq!(withdraw(&mut acct, key(4), 151), Err(ErrorCode::InsufficientBalance));
    assert_eq!(withdraw(&mut acct, key(5), 1), Err(ErrorCode::Unauthorized));
    assert_eq!(deposit(&mut acct, key(4), 3, 0), Err(ErrorCode::ZeroAmount));
    assert_eq!(deposit(&mut acct, key(4), 3, u64::MAX), Err(ErrorCode::Overflow));
    assert_eq!(acct.balance, 150);
}

#[test]
fn initialize_records_admin() {
    let (p, ev) = initialize(key(1), 250, 251);
    assert_eq!(p, Protocol { admin: key(1), bump: 250, vault_bump: 251 });
    assert_eq!(ev, ProtocolInitialized { admin: key(1) });
}

#[test]
fn create_market_checks_admin_and_pool() {
    let protocol = Protocol { admin: key(1), bump: 0, vault_bump: 0 };
    let mint_bytes = [0x21u8; 32];
    let mint = key_from(&mint_bytes);
    let amm = key_from(&amm_key_bytes());
    let data = pool_data(&mint_bytes);
    let (m, l, ev) =
        create_market(&protocol, key(1), mint, key(2), amm, &data, key(3), 5000, 7, 8).unwrap();
    assert_eq!(
        m,
        Market {
            token_mint: mint,
            pumpswap_pool: key(2),
            total_long_collateral: 0,
            total_short_collateral: 0,
            total_positions: 0,
            max_position_size: 5000,
            bump: 7,
        }
    );
    assert_eq!(
        l,
        LendingPool {
            market: key(3),
            token_mint: mint,
            total_deposits: 0,
            total_borrowed: 0,
            total_shares: 0,
            bump: 8,
        }
    );
    assert_eq!(ev, MarketCreated { token_mint: mint, pumpswap_pool: key(2), max_position_size: 5000 });
    assert_eq!(
        create_market(&protocol, key(9), mint, key(2), amm, &data, key(3), 5000, 7, 8),
        Err(ErrorCode::Unauthorized)
    );
    assert_eq!(
        create_market(&protocol, key(1), mint, key(2), key(4), &data, key(3), 5000, 7, 8),
        Err(ErrorCode::InvalidPool)
    );
    assert_eq!(
        create_market(&protocol, key(1), mint, key(2), amm, &data[..74], key(3), 5000, 7, 8),
        Err(ErrorCode::InvalidPool)
    );
    assert_eq!(
        create_market(&protocol, key(1), key(5), key(2), amm, &data, key(3), 5000, 7, 8),
        Err(ErrorCode::PoolMintMismatch)
    );
}
