use vstd::prelude::*;
use crate::state::ErrorCode;

verus! {

pub const MAX_LEVERAGE: u64 = 10;
pub const LIQUIDATION_THRESHOLD_BPS: u64 = 7000;
pub const LIQUIDATOR_REWARD_BPS: u64 = 500;
pub const PROTOCOL_FEE_BPS: u64 = 30;
pub const BPS_DENOMINATOR: u64 = 10_000;
/// Scale of a price: a price of `PRECISION` is one settlement unit per token unit.
pub const PRECISION: u128 = 1_000_000_000_000;

/// The protocol fee of 30 basis points on `amount`, rounded down.
pub open spec fn fee_of(amount: int) -> int {
    amount * PROTOCOL_FEE_BPS as int / BPS_DENOMINATOR as int
}

/// `amount` less its protocol fee.
pub open spec fn after_fee(amount: int) -> int {
    amount - fee_of(amount)
}

/// Price that wipes out about 70%/leverage of a long's margin.
pub open spec fn long_liq_price(entry_price: int, leverage: int) -> int {
    entry_price * (BPS_DENOMINATOR as int - LIQUIDATION_THRESHOLD_BPS as int / leverage) / BPS_DENOMINATOR as int
}

/// Price that wipes out about 70%/leverage of a short's margin.
pub open spec fn short_liq_price(entry_price: int, leverage: int) -> int {
    entry_price * (BPS_DENOMINATOR as int + LIQUIDATION_THRESHOLD_BPS as int / leverage) / BPS_DENOMINATOR as int
}

/// Scaled price of the base token from the pool's two reserves.
pub open spec fn scaled_price(base_amount: int, quote_amount: int) -> int {
    quote_amount * PRECISION as int / base_amount
}

/// Tokens worth `size` at the scaled price `price`.
pub open spec fn tokens_at_price(size: int, price: int) -> int {
    size * PRECISION as int / price
}

/// The liquidator's share of what a liquidation recovers: 5%, rounded down.
pub open spec fn reward_of(remaining: int) -> int {
    remaining * LIQUIDATOR_REWARD_BPS as int / BPS_DENOMINATOR as int
}

/// What a close hands back to the owner: collateral plus profit less the close
/// fee, and never less than zero.
pub open spec fn payout_of(collateral: int, pnl: int) -> int {
    let p = collateral + pnl - fee_of(collateral);
    if p > 0 {
        p
    } else {
        0
    }
}

/// Whether a position may be liquidated at `current_price`: the price has
/// fallen to the liquidation price (long) or risen to it (short).
pub open spec fn liquidatable(is_long: bool, current_price: int, liquidation_price: int) -> bool {
    if is_long {
        current_price <= liquidation_price
    } else {
        current_price >= liquidation_price
    }
}

/// The pool's price, or why it cannot be given.
pub open spec fn pool_price_result(base_amount: u64, quote_amount: u64) -> Result<u64, ErrorCode> {
    if base_amount == 0 {
        Err(ErrorCode::EmptyPool)
    } else if scaled_price(base_amount as int, quote_amount as int) > u64::MAX {
        Err(ErrorCode::Overflow)
    } else {
        Ok(scaled_price(base_amount as int, quote_amount as int) as u64)
    }
}

/// The protocol fee on `amount`.
pub fn protocol_fee(amount: u64) -> (r: u64)
    ensures
        r == fee_of(amount as int),
        r <= amount,
{
    ((amount as u128) * (PROTOCOL_FEE_BPS as u128) / (BPS_DENOMINATOR as u128)) as u64
}

/// Price from the pool's reserves; fails on an empty pool or a price past `u64`.
pub fn pool_price(base_amount: u64, quote_amount: u64) -> (r: Result<u64, ErrorCode>)
    ensures
        r == pool_price_result(base_amount, quote_amount),
{
    if base_amount == 0 {
        return Err(ErrorCode::EmptyPool);
    }
    assert((quote_amount as u128) * PRECISION <= u128::MAX) by (nonlinear_arith)
        requires
            quote_amount <= u64::MAX,
    ;
    let p = (quote_amount as u128) * PRECISION / (base_amount as u128);
    if p > u64::MAX as u128 {
        Err(ErrorCode::Overflow)
    } else {
        Ok(p as u64)
    }
}

/// Liquidation price of a long opened at `entry_price`; it never exceeds the entry price.
pub fn calc_liq_price_long(entry_price: u64, leverage: u64) -> (r: u64)
    requires
        leverage >= 1,
    ensures
        r == long_liq_price(entry_price as int, leverage as int),
        r <= entry_price,
{
    let drop_bps = LIQUIDATION_THRESHOLD_BPS / leverage;
    let factor = (BPS_DENOMINATOR - drop_bps) as u128;
    assert((entry_price as u128) * factor <= u128::MAX) by (nonlinear_arith)
        requires
            factor <= 10000,
            entry_price <= u64::MAX,
    ;
    let liq = (entry_price as u128) * factor / (BPS_DENOMINATOR as u128);
    assert(liq <= entry_price) by (nonlinear_arith)
        requires
            liq == (entry_price as u128) * factor / 10000,
            factor <= 10000,
    ;
    liq as u64
}

/// Liquidation price of a short opened at `entry_price`; fails when it does not fit a `u64`.
pub fn calc_liq_price_short(entry_price: u64, leverage: u64) -> (r: Result<u64, ErrorCode>)
    requires
        leverage >= 1,
    ensures
        short_liq_price(entry_price as int, leverage as int) <= u64::MAX ==> r == Ok::<u64, ErrorCode>(
            short_liq_price(entry_price as int, leverage as int) as u64,
        ),
        short_liq_price(entry_price as int, leverage as int) > u64::MAX ==> r == Err::<u64, ErrorCode>(
            ErrorCode::Overflow,
        ),
{
    let rise_bps = LIQUIDATION_THRESHOLD_BPS / leverage;
    let factor = (BPS_DENOMINATOR + rise_bps) as u128;
    assert((entry_price as u128) * factor <= u128::MAX) by (nonlinear_arith)
        requires
            factor <= 17000,
            entry_price <= u64::MAX,
    ;
    let liq = (entry_price as u128) * factor / (BPS_DENOMINATOR as u128);
    if liq > u64::MAX as u128 {
        Err(ErrorCode::Overflow)
    } else {
        Ok(liq as u64)
    }
}

/// Whether a position may be liquidated at `current_price`.
pub fn is_liquidatable(is_long: bool, current_price: u64, liquidation_price: u64) -> (r: bool)
    ensures
        r == liquidatable(is_long, current_price as int, liquidation_price as int),
{
    if is_long {
        current_price <= liquidation_price
    } else {
        current_price >= liquidation_price
    }
}

/// Splits what a liquidation recovered into the liquidator's reward and the
/// owner's share.
pub fn liquidation_split(remaining: u64) -> (r: (u64, u64))
    ensures
        r.0 == reward_of(remaining as int),
        r.0 + r.1 == remaining,
{
    let wide = (remaining as u128) * (LIQUIDATOR_REWARD_BPS as u128) / (BPS_DENOMINATOR as u128);
    assert(wide <= remaining) by (nonlinear_arith)
        requires
            wide == (remaining as u128) * 500 / 10000,
    ;
    let reward = wide as u64;
    (reward, remaining - reward)
}

} // verus!
