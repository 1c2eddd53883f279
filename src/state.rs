use vstd::prelude::*;

verus! {

/// A 32-byte account address, held as four little-endian 64-bit words
/// (`w0` carries bytes 0..8, `w3` bytes 24..32).
#[derive(Clone, Copy, Debug, PartialEq, Eq, Structural)]
pub struct Key {
    pub w0: u64,
    pub w1: u64,
    pub w2: u64,
    pub w3: u64,
}

/// Why an operation was refused. A refused operation changes nothing.
#[derive(Clone, Copy, Debug, PartialEq, Eq, Structural)]
pub enum ErrorCode {
    Unauthorized,
    InvalidLeverage,
    ZeroCollateral,
    ZeroAmount,
    InsufficientBalance,
    InsufficientShares,
    InsufficientLiquidity,
    InvalidPool,
    PoolMintMismatch,
    EmptyPool,
    NotLiquidatable,
    SwapFailed,
    SlippageExceeded,
    Overflow,
    PositionTooLarge,
    InvalidPumpswapAccounts,
}

/// Protocol-wide settings: who may create markets, and the vault's seed bumps.
#[derive(Clone, Copy, Debug, PartialEq, Eq, Structural)]
pub struct Protocol {
    pub admin: Key,
    pub bump: u8,
    pub vault_bump: u8,
}

/// Aggregates of one tradable asset.
#[derive(Clone, Copy, Debug, PartialEq, Eq, Structural)]
pub struct Market {
    pub token_mint: Key,
    pub pumpswap_pool: Key,
    /// Sum of the post-fee collateral of the open long positions.
    pub total_long_collateral: u64,
    /// Sum of the post-fee collateral of the open short positions.
    pub total_short_collateral: u64,
    pub total_positions: u64,
    /// Cap on the notional (collateral after fee times leverage) of one position.
    pub max_position_size: u64,
    pub bump: u8,
}

/// Share-accounted pool of the market's token, lent out to fund short positions.
#[derive(Clone, Copy, Debug, PartialEq, Eq, Structural)]
pub struct LendingPool {
    pub market: Key,
    pub token_mint: Key,
    pub total_deposits: u64,
    pub total_borrowed: u64,
    pub total_shares: u64,
    pub bump: u8,
}

impl LendingPool {
    /// Never more is lent out than was deposited, and the pool holds tokens
    /// exactly when shares are outstanding, so that a share has a price.
    pub open spec fn wf(&self) -> bool {
        &&& self.total_borrowed <= self.total_deposits
        &&& (self.total_deposits == 0 <==> self.total_shares == 0)
    }
}

/// One lender's claim on a lending pool.
#[derive(Clone, Copy, Debug, PartialEq, Eq, Structural)]
pub struct LenderPosition {
    pub owner: Key,
    pub lending_pool: Key,
    pub shares: u64,
    pub bump: u8,
}

/// A user's custodial balance in the settlement currency.
#[derive(Clone, Copy, Debug, PartialEq, Eq, Structural)]
pub struct UserAccount {
    pub owner: Key,
    pub balance: u64,
    pub bump: u8,
}

/// An open leveraged position.
#[derive(Clone, Copy, Debug, PartialEq, Eq, Structural)]
pub struct Position {
    pub owner: Key,
    pub market: Key,
    pub is_long: bool,
    /// Collateral after the protocol fee.
    pub collateral: u64,
    pub leverage: u64,
    pub entry_price: u64,
    pub liquidation_price: u64,
    /// Tokens bought (long positions only).
    pub token_amount: u64,
    /// Notional at entry: what was spent (long) or received (short).
    pub position_size_sol: u64,
    /// Tokens borrowed from the lending pool (short positions only).
    pub borrowed_tokens: u64,
    pub opened_at: i64,
    pub bump: u8,
}

/// Balance of a vault read before and after a swap.
#[derive(Clone, Copy, Debug, PartialEq, Eq, Structural)]
pub struct VaultReading {
    pub before: u64,
    pub after: u64,
}

#[derive(Clone, Copy, Debug, PartialEq, Eq, Structural)]
pub struct ProtocolInitialized {
    pub admin: Key,
}

#[derive(Clone, Copy, Debug, PartialEq, Eq, Structural)]
pub struct MarketCreated {
    pub token_mint: Key,
    pub pumpswap_pool: Key,
    pub max_position_size: u64,
}

#[derive(Clone, Copy, Debug, PartialEq, Eq, Structural)]
pub struct Deposited {
    pub user: Key,
    pub amount: u64,
    pub new_balance: u64,
}

#[derive(Clone, Copy, Debug, PartialEq, Eq, Structural)]
pub struct Withdrawn {
    pub user: Key,
    pub amount: u64,
    pub new_balance: u64,
}

#[derive(Clone, Copy, Debug, PartialEq, Eq, Structural)]
pub struct LendingDeposited {
    pub user: Key,
    pub amount: u64,
    pub shares: u64,
}

#[derive(Clone, Copy, Debug, PartialEq, Eq, Structural)]
pub struct LendingWithdrawn {
    pub user: Key,
    pub tokens: u64,
    pub shares: u64,
}

#[derive(Clone, Copy, Debug, PartialEq, Eq, Structural)]
pub struct PositionOpened {
    pub owner: Key,
    pub market: Key,
    pub is_long: bool,
    pub collateral: u64,
    pub leverage: u64,
    pub entry_price: u64,
    pub liquidation_price: u64,
}

#[derive(Clone, Copy, Debug, PartialEq, Eq, Structural)]
pub struct PositionClosed {
    pub owner: Key,
    pub market: Key,
    pub is_long: bool,
    pub entry_price: u64,
    pub exit_price: u64,
    pub pnl: i64,
    pub payout: u64,
}

#[derive(Clone, Copy, Debug, PartialEq, Eq, Structural)]
pub struct PositionLiquidated {
    pub owner: Key,
    pub market: Key,
    pub is_long: bool,
    pub liquidator: Key,
    pub reward: u64,
    pub exit_price: u64,
}

} // verus!
