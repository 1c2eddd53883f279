use vstd::prelude::*;
use crate::amm::{amm_program_id, amm_program_key};
use crate::layout::{key_of_bytes, read_key, POOL_BASE_MINT_OFFSET};
use crate::state::{ErrorCode, Key, LendingPool, Market, MarketCreated, Protocol, ProtocolInitialized};

verus! {

/// Sets up the protocol under `admin`.
pub fn initialize(admin: Key, bump: u8, vault_bump: u8) -> (r: (Protocol, ProtocolInitialized))
    ensures
        r.0 == (Protocol { admin, bump, vault_bump }),
        r.1 == (ProtocolInitialized { admin }),
{
    (Protocol { admin, bump, vault_bump }, ProtocolInitialized { admin })
}

/// The base mint recorded in the pool's data, if the data is long enough to hold one.
pub open spec fn pool_base_mint(pool_data: Seq<u8>) -> Option<Key> {
    if pool_data.len() < POOL_BASE_MINT_OFFSET + 32 {
        None
    } else {
        Some(
            key_of_bytes(
                pool_data.subrange(POOL_BASE_MINT_OFFSET as int, POOL_BASE_MINT_OFFSET + 32),
            ),
        )
    }
}

/// Why a market cannot be created, if it cannot.
pub open spec fn create_market_check(
    protocol: Protocol,
    admin: Key,
    token_mint: Key,
    pool_owner: Key,
    pool_data: Seq<u8>,
) -> Result<(), ErrorCode> {
    if admin != protocol.admin {
        Err(ErrorCode::Unauthorized)
    } else if pool_owner != amm_program_key() || pool_base_mint(pool_data) is None {
        Err(ErrorCode::InvalidPool)
    } else if pool_base_mint(pool_data)->Some_0 != token_mint {
        Err(ErrorCode::PoolMintMismatch)
    } else {
        Ok(())
    }
}

/// Creates the market of `token_mint`, traded against the pool `pumpswap_pool`,
/// and its empty lending pool. Only the protocol's admin may; the pool must
/// belong to the pool program and trade `token_mint` as its base.
pub fn create_market(
    protocol: &Protocol,
    admin: Key,
    token_mint: Key,
    pumpswap_pool: Key,
    pool_owner: Key,
    pool_data: &[u8],
    market_key: Key,
    max_position_size: u64,
    market_bump: u8,
    lending_bump: u8,
) -> (r: Result<(Market, LendingPool, MarketCreated), ErrorCode>)
    ensures
        create_market_check(*protocol, admin, token_mint, pool_owner, pool_data@) is Err ==> r
            == Err::<(Market, LendingPool, MarketCreated), ErrorCode>(
            create_market_check(*protocol, admin, token_mint, pool_owner, pool_data@)->Err_0,
        ),
        create_market_check(*protocol, admin, token_mint, pool_owner, pool_data@) is Ok ==> r
            == Ok::<(Market, LendingPool, MarketCreated), ErrorCode>(
            (
                Market {
                    token_mint,
                    pumpswap_pool,
                    total_long_collateral: 0,
                    total_short_collateral: 0,
                    total_positions: 0,
                    max_position_size,
                    bump: market_bump,
                },
                LendingPool {
                    market: market_key,
                    token_mint,
                    total_deposits: 0,
                    total_borrowed: 0,
                    total_shares: 0,
                    bump: lending_bump,
                },
                MarketCreated { token_mint, pumpswap_pool, max_position_size },
            ),
        ),
{
    if admin != protocol.admin {
        return Err(ErrorCode::Unauthorized);
    }
    if pool_owner != amm_program_id() {
        return Err(ErrorCode::InvalidPool);
    }
    if pool_data.len() < POOL_BASE_MINT_OFFSET + 32 {
        return Err(ErrorCode::InvalidPool);
    }
    let base_mint = read_key(pool_data, POOL_BASE_MINT_OFFSET);
    if base_mint != token_mint {
        return Err(ErrorCode::PoolMintMismatch);
    }
    let market = Market {
        token_mint,
        pumpswap_pool,
        total_long_collateral: 0,
        total_short_collateral: 0,
        total_positions: 0,
        max_position_size,
        bump: market_bump,
    };
    let lending = LendingPool {
        market: market_key,
        token_mint,
        total_deposits: 0,
        total_borrowed: 0,
        total_shares: 0,
        bump: lending_bump,
    };
    Ok((market, lending, MarketCreated { token_mint, pumpswap_pool, max_position_size }))
}

} // verus!
