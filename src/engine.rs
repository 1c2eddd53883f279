use vstd::prelude::*;
use crate::amm::{received_result, settle_buy, settle_buy_for_close, settle_sell, spent_result};
use crate::math::{
    after_fee, calc_liq_price_long, calc_liq_price_short, fee_of, is_liquidatable,
    liquidatable, liquidation_split, long_liq_price, payout_of, protocol_fee, reward_of,
    short_liq_price, tokens_at_price, MAX_LEVERAGE, PRECISION,
};
use crate::state::{
    ErrorCode, Key, LendingPool, Market, Position, PositionClosed, PositionLiquidated,
    PositionOpened, UserAccount, VaultReading,
};

verus! {

/// What opening a position will cost and borrow, worked out before the trade.
#[derive(Clone, Copy, Debug, PartialEq, Eq, Structural)]
pub struct OpenQuote {
    pub fee: u64,
    pub collateral_after_fee: u64,
    /// Notional: collateral after fee times leverage.
    pub position_size_sol: u64,
    /// Tokens to borrow and sell (short positions; zero for longs).
    pub tokens_to_borrow: u64,
    pub liquidation_price: u64,
}

/// Tokens of the pool that are not lent out.
pub open spec fn available_liquidity(l: LendingPool) -> u64 {
    l.total_deposits.saturating_sub(l.total_borrowed)
}

/// The checks and amounts of an open, in the order in which a refusal is reported.
pub open spec fn open_quote(
    market: Market,
    lending: LendingPool,
    balance: u64,
    is_long: bool,
    collateral: u64,
    leverage: u64,
    entry_price: u64,
) -> Result<OpenQuote, ErrorCode> {
    let net = after_fee(collateral as int);
    let size = net * leverage;
    if !(1 <= leverage <= MAX_LEVERAGE) {
        Err(ErrorCode::InvalidLeverage)
    } else if collateral == 0 {
        Err(ErrorCode::ZeroCollateral)
    } else if balance < collateral {
        Err(ErrorCode::InsufficientBalance)
    } else if size > u64::MAX {
        Err(ErrorCode::Overflow)
    } else if size > market.max_position_size {
        Err(ErrorCode::PositionTooLarge)
    } else if is_long {
        if market.total_long_collateral + net > u64::MAX || market.total_positions + 1 > u64::MAX {
            Err(ErrorCode::Overflow)
        } else {
            Ok(
                OpenQuote {
                    fee: fee_of(collateral as int) as u64,
                    collateral_after_fee: net as u64,
                    position_size_sol: size as u64,
                    tokens_to_borrow: 0,
                    liquidation_price: long_liq_price(entry_price as int, leverage as int) as u64,
                },
            )
        }
    } else {
        let tokens = tokens_at_price(size, entry_price as int);
        if entry_price == 0 || tokens > u64::MAX {
            Err(ErrorCode::Overflow)
        } else if tokens > available_liquidity(lending) {
            Err(ErrorCode::InsufficientLiquidity)
        } else if short_liq_price(entry_price as int, leverage as int) > u64::MAX
            || market.total_short_collateral + net > u64::MAX || market.total_positions + 1
            > u64::MAX {
            Err(ErrorCode::Overflow)
        } else {
            Ok(
                OpenQuote {
                    fee: fee_of(collateral as int) as u64,
                    collateral_after_fee: net as u64,
                    position_size_sol: size as u64,
                    tokens_to_borrow: tokens as u64,
                    liquidation_price: short_liq_price(entry_price as int, leverage as int) as u64,
                },
            )
        }
    }
}

/// The position recorded by an open whose trade brought in `received`
/// (tokens for a long, settlement currency for a short).
pub open spec fn opened_position(
    owner: Key,
    market_key: Key,
    is_long: bool,
    leverage: u64,
    entry_price: u64,
    q: OpenQuote,
    received: u64,
    opened_at: i64,
    bump: u8,
) -> Position {
    Position {
        owner,
        market: market_key,
        is_long,
        collateral: q.collateral_after_fee,
        leverage,
        entry_price,
        liquidation_price: q.liquidation_price,
        token_amount: if is_long { received } else { 0 },
        position_size_sol: if is_long { q.position_size_sol } else { received },
        borrowed_tokens: q.tokens_to_borrow,
        opened_at,
        bump,
    }
}

/// Result of an open: refused by its checks or by the trade, else the new
/// position and its notification.
pub open spec fn open_outcome(
    market: Market,
    lending: LendingPool,
    user_account: UserAccount,
    owner: Key,
    market_key: Key,
    is_long: bool,
    collateral: u64,
    leverage: u64,
    slippage_limit: u64,
    entry_price: u64,
    vault: VaultReading,
    opened_at: i64,
    bump: u8,
) -> Result<(Position, PositionOpened), ErrorCode> {
    match open_quote(market, lending, user_account.balance, is_long, collateral, leverage, entry_price) {
        Err(e) => Err(e),
        Ok(q) => match received_result(vault, slippage_limit) {
            Err(e) => Err(e),
            Ok(received) => Ok(
                (
                    opened_position(
                        owner,
                        market_key,
                        is_long,
                        leverage,
                        entry_price,
                        q,
                        received,
                        opened_at,
                        bump,
                    ),
                    PositionOpened {
                        owner,
                        market: market_key,
                        is_long,
                        collateral: q.collateral_after_fee,
                        leverage,
                        entry_price,
                        liquidation_price: q.liquidation_price,
                    },
                ),
            ),
        },
    }
}

/// The market once a position with `net` collateral is opened on one side.
pub open spec fn market_after_open(m: Market, is_long: bool, net: u64) -> Market {
    Market {
        total_long_collateral: if is_long {
            (m.total_long_collateral + net) as u64
        } else {
            m.total_long_collateral
        },
        total_short_collateral: if is_long {
            m.total_short_collateral
        } else {
            (m.total_short_collateral + net) as u64
        },
        total_positions: (m.total_positions + 1) as u64,
        ..m
    }
}

/// The lending pool once `tokens` more are lent out.
pub open spec fn lending_after_borrow(l: LendingPool, tokens: u64) -> LendingPool {
    LendingPool { total_borrowed: (l.total_borrowed + tokens) as u64, ..l }
}

/// Works out what opening a position costs, without changing anything: the
/// amounts handed to the trade, and whether the open is refused before it.
pub fn quote_open(
    market: &Market,
    lending: &LendingPool,
    user_account: &UserAccount,
    is_long: bool,
    collateral: u64,
    leverage: u64,
    entry_price: u64,
) -> (r: Result<OpenQuote, ErrorCode>)
    ensures
        r == open_quote(
            *market,
            *lending,
            user_account.balance,
            is_long,
            collateral,
            leverage,
            entry_price,
        ),
{
    if leverage < 1 || leverage > MAX_LEVERAGE {
        return Err(ErrorCode::InvalidLeverage);
    }
    if collateral == 0 {
        return Err(ErrorCode::ZeroCollateral);
    }
    if user_account.balance < collateral {
        return Err(ErrorCode::InsufficientBalance);
    }
    let fee = protocol_fee(collateral);
    let net = collateral - fee;
    assert((net as u128) * (leverage as u128) <= u128::MAX) by (nonlinear_arith)
        requires
            net <= u64::MAX,
            leverage <= 10,
    ;
    let size_wide = (net as u128) * (leverage as u128);
    if size_wide > u64::MAX as u128 {
        return Err(ErrorCode::Overflow);
    }
    let size = size_wide as u64;
    if size > market.max_position_size {
        return Err(ErrorCode::PositionTooLarge);
    }
    if is_long {
        if net > u64::MAX - market.total_long_collateral || market.total_positions == u64::MAX {
            return Err(ErrorCode::Overflow);
        }
        let liquidation_price = calc_liq_price_long(entry_price, leverage);
        Ok(
            OpenQuote {
                fee,
                collateral_after_fee: net,
                position_size_sol: size,
                tokens_to_borrow: 0,
                liquidation_price,
            },
        )
    } else {
        if entry_price == 0 {
            return Err(ErrorCode::Overflow);
        }
        assert((size as u128) * PRECISION <= u128::MAX) by (nonlinear_arith)
            requires
                size <= u64::MAX,
        ;
        let tokens_wide = (size as u128) * PRECISION / (entry_price as u128);
        if tokens_wide > u64::MAX as u128 {
            return Err(ErrorCode::Overflow);
        }
        let tokens_to_borrow = tokens_wide as u64;
        let available = lending.total_deposits.saturating_sub(lending.total_borrowed);
        if tokens_to_borrow > available {
            return Err(ErrorCode::InsufficientLiquidity);
        }
        let liquidation_price = match calc_liq_price_short(entry_price, leverage) {
            Ok(p) => p,
            Err(e) => {
                return Err(e);
            },
        };
        if net > u64::MAX - market.total_short_collateral || market.total_positions == u64::MAX {
            return Err(ErrorCode::Overflow);
        }
        Ok(
            OpenQuote {
                fee,
                collateral_after_fee: net,
                position_size_sol: size,
                tokens_to_borrow,
                liquidation_price,
            },
        )
    }
}

/// Opens a position for `owner`, given the entry price read before the trade
/// and the vault read around it (the token vault for a long, whose trade buys
/// with the notional; the settlement vault for a short, whose trade sells the
/// borrowed tokens). `slippage_limit` is the least that the trade must bring in.
/// The full collateral leaves the owner's balance; the fee stays with the protocol.
/// A refused open changes nothing.
pub fn open_position(
    market: &mut Market,
    lending: &mut LendingPool,
    user_account: &mut UserAccount,
    owner: Key,
    market_key: Key,
    is_long: bool,
    collateral: u64,
    leverage: u64,
    slippage_limit: u64,
    entry_price: u64,
    vault: VaultReading,
    opened_at: i64,
    bump: u8,
) -> (r: Result<(Position, PositionOpened), ErrorCode>)
    ensures
        r == open_outcome(
            *old(market),
            *old(lending),
            *old(user_account),
            owner,
            market_key,
            is_long,
            collateral,
            leverage,
            slippage_limit,
            entry_price,
            vault,
            opened_at,
            bump,
        ),
        r is Err ==> *final(market) == *old(market) && *final(lending) == *old(lending)
            && *final(user_account) == *old(user_account),
        r is Ok ==> {
            let q = open_quote(
                *old(market),
                *old(lending),
                old(user_account).balance,
                is_long,
                collateral,
                leverage,
                entry_price,
            )->Ok_0;
            &&& *final(market) == market_after_open(*old(market), is_long, q.collateral_after_fee)
            &&& *final(lending) == lending_after_borrow(*old(lending), q.tokens_to_borrow)
            &&& *final(user_account) == (UserAccount {
                balance: (old(user_account).balance - collateral) as u64,
                ..*old(user_account)
            })
        },
        r is Ok ==> final(market).total_positions == old(market).total_positions + 1,
        r is Ok && is_long ==> final(market).total_long_collateral == old(
            market,
        ).total_long_collateral + after_fee(collateral as int),
        r is Ok && !is_long ==> final(market).total_short_collateral == old(
            market,
        ).total_short_collateral + after_fee(collateral as int),
        old(lending).wf() ==> final(lending).wf(),
{
    let q = match quote_open(market, lending, user_account, is_long, collateral, leverage, entry_price) {
        Ok(q) => q,
        Err(e) => {
            return Err(e);
        },
    };
    let received = if is_long {
        settle_buy(vault, slippage_limit)
    } else {
        settle_sell(vault, slippage_limit)
    };
    let received = match received {
        Ok(x) => x,
        Err(e) => {
            return Err(e);
        },
    };
    user_account.balance = user_account.balance - collateral;
    if is_long {
        market.total_long_collateral = market.total_long_collateral + q.collateral_after_fee;
    } else {
        lending.total_borrowed = lending.total_borrowed + q.tokens_to_borrow;
        market.total_short_collateral = market.total_short_collateral + q.collateral_after_fee;
    }
    market.total_positions = market.total_positions + 1;
    let position = Position {
        owner,
        market: market_key,
        is_long,
        collateral: q.collateral_after_fee,
        leverage,
        entry_price,
        liquidation_price: q.liquidation_price,
        token_amount: if is_long { received } else { 0 },
        position_size_sol: if is_long { q.position_size_sol } else { received },
        borrowed_tokens: q.tokens_to_borrow,
        opened_at,
        bump,
    };
    let event = PositionOpened {
        owner,
        market: market_key,
        is_long,
        collateral: q.collateral_after_fee,
        leverage,
        entry_price,
        liquidation_price: q.liquidation_price,
    };
    Ok((position, event))
}

/// What unwinding `position` moved, from the vault read around the trade: the
/// settlement currency received for the tokens of a long, or spent to buy back
/// the borrowed tokens of a short.
pub open spec fn unwind_result(position: Position, vault: VaultReading, slippage_limit: u64) -> Result<
    u64,
    ErrorCode,
> {
    if position.is_long {
        received_result(vault, slippage_limit)
    } else {
        spent_result(vault, slippage_limit)
    }
}

/// Profit of a position unwound for (long) or at the cost of (short) `amount`.
pub open spec fn pnl_of(position: Position, amount: u64) -> int {
    if position.is_long {
        amount - position.position_size_sol
    } else {
        position.position_size_sol - amount
    }
}

/// What a liquidation recovers from an unwind that moved `amount`.
pub open spec fn recovered_of(position: Position, amount: u64) -> u64 {
    if position.is_long {
        amount
    } else {
        position.position_size_sol.saturating_sub(amount)
    }
}

/// Result of a close: refused for another user, by the trade, or when the pnl
/// or the owner's new balance does not fit; else its notification.
pub open spec fn close_outcome(
    balance: u64,
    user: Key,
    position: Position,
    exit_price: u64,
    vault: VaultReading,
    slippage_limit: u64,
) -> Result<PositionClosed, ErrorCode> {
    if position.owner != user {
        Err(ErrorCode::Unauthorized)
    } else {
        match unwind_result(position, vault, slippage_limit) {
            Err(e) => Err(e),
            Ok(amount) => {
                let pnl = pnl_of(position, amount);
                let payout = payout_of(position.collateral as int, pnl);
                if pnl < i64::MIN || pnl > i64::MAX || balance + payout > u64::MAX {
                    Err(ErrorCode::Overflow)
                } else {
                    Ok(
                        PositionClosed {
                            owner: position.owner,
                            market: position.market,
                            is_long: position.is_long,
                            entry_price: position.entry_price,
                            exit_price,
                            pnl: pnl as i64,
                            payout: payout as u64,
                        },
                    )
                }
            },
        }
    }
}

/// Result of a liquidation: refused above (long) or below (short) the
/// liquidation price, by the trade, or when the owner's new balance does not
/// fit; else its notification, which carries the liquidator's reward.
pub open spec fn liquidate_outcome(
    owner_balance: u64,
    liquidator: Key,
    position: Position,
    current_price: u64,
    vault: VaultReading,
    slippage_limit: u64,
) -> Result<PositionLiquidated, ErrorCode> {
    if !liquidatable(position.is_long, current_price as int, position.liquidation_price as int) {
        Err(ErrorCode::NotLiquidatable)
    } else {
        match unwind_result(position, vault, slippage_limit) {
            Err(e) => Err(e),
            Ok(amount) => {
                let remaining = recovered_of(position, amount);
                let reward = reward_of(remaining as int);
                if owner_balance + (remaining - reward) > u64::MAX {
                    Err(ErrorCode::Overflow)
                } else {
                    Ok(
                        PositionLiquidated {
                            owner: position.owner,
                            market: position.market,
                            is_long: position.is_long,
                            liquidator,
                            reward: reward as u64,
                            exit_price: current_price,
                        },
                    )
                }
            },
        }
    }
}

/// The market once `position` is gone: its collateral leaves its side's total
/// and the count drops by one, neither going below zero.
pub open spec fn market_after_exit(m: Market, position: Position) -> Market {
    Market {
        total_long_collateral: if position.is_long {
            m.total_long_collateral.saturating_sub(position.collateral)
        } else {
            m.total_long_collateral
        },
        total_short_collateral: if position.is_long {
            m.total_short_collateral
        } else {
            m.total_short_collateral.saturating_sub(position.collateral)
        },
        total_positions: m.total_positions.saturating_sub(1),
        ..m
    }
}

/// The lending pool once `position` is gone: a short's borrowed principal is
/// returned, whatever the buy-back cost.
pub open spec fn lending_after_exit(l: LendingPool, position: Position) -> LendingPool {
    if position.is_long {
        l
    } else {
        LendingPool { total_borrowed: l.total_borrowed.saturating_sub(position.borrowed_tokens), ..l }
    }
}

/// Settles the trade that unwinds `position`.
fn unwind(position: &Position, vault: VaultReading, slippage_limit: u64) -> (r: Result<u64, ErrorCode>)
    ensures
        r == unwind_result(*position, vault, slippage_limit),
{
    if position.is_long {
        settle_sell(vault, slippage_limit)
    } else {
        settle_buy_for_close(vault, slippage_limit)
    }
}

/// Takes `position` off the market and the lending pool.
fn retire(market: &mut Market, lending: &mut LendingPool, position: &Position)
    ensures
        *final(market) == market_after_exit(*old(market), *position),
        *final(lending) == lending_after_exit(*old(lending), *position),
{
    if position.is_long {
        market.total_long_collateral = market.total_long_collateral.saturating_sub(position.collateral);
    } else {
        lending.total_borrowed = lending.total_borrowed.saturating_sub(position.borrowed_tokens);
        market.total_short_collateral = market.total_short_collateral.saturating_sub(position.collateral);
    }
    market.total_positions = market.total_positions.saturating_sub(1);
}

/// Closes `user`'s own `position`, given the price read at close (reported
/// only) and the settlement vault read around the unwind: a long sells its
/// tokens for at least `slippage_limit`; a short buys back its borrowed tokens
/// for at most `slippage_limit`. The owner is paid collateral plus profit less
/// the close fee, floored at zero. The position is consumed.
/// A refused close changes nothing.
pub fn close_position(
    market: &mut Market,
    lending: &mut LendingPool,
    user_account: &mut UserAccount,
    user: Key,
    position: Position,
    exit_price: u64,
    vault: VaultReading,
    slippage_limit: u64,
) -> (r: Result<PositionClosed, ErrorCode>)
    ensures
        r == close_outcome(old(user_account).balance, user, position, exit_price, vault, slippage_limit),
        r is Err ==> *final(market) == *old(market) && *final(lending) == *old(lending)
            && *final(user_account) == *old(user_account),
        r is Ok ==> {
            &&& *final(market) == market_after_exit(*old(market), position)
            &&& *final(lending) == lending_after_exit(*old(lending), position)
            &&& *final(user_account) == (UserAccount {
                balance: (old(user_account).balance + r->Ok_0.payout) as u64,
                ..*old(user_account)
            })
        },
        r is Ok && position.is_long && old(market).total_long_collateral >= position.collateral
            ==> final(market).total_long_collateral == old(market).total_long_collateral
            - position.collateral,
        r is Ok && !position.is_long && old(market).total_short_collateral >= position.collateral
            ==> final(market).total_short_collateral == old(market).total_short_collateral
            - position.collateral,
        r is Ok && old(market).total_positions >= 1 ==> final(market).total_positions == old(
            market,
        ).total_positions - 1,
        old(lending).wf() ==> final(lending).wf(),
{
    if position.owner != user {
        return Err(ErrorCode::Unauthorized);
    }
    let amount = match unwind(&position, vault, slippage_limit) {
        Ok(a) => a,
        Err(e) => {
            return Err(e);
        },
    };
    let pnl_wide: i128 = if position.is_long {
        amount as i128 - position.position_size_sol as i128
    } else {
        position.position_size_sol as i128 - amount as i128
    };
    if pnl_wide < i64::MIN as i128 || pnl_wide > i64::MAX as i128 {
        return Err(ErrorCode::Overflow);
    }
    let close_fee = protocol_fee(position.collateral);
    let payout_wide: i128 = position.collateral as i128 + pnl_wide - close_fee as i128;
    let payout_wide: i128 = if payout_wide > 0 { payout_wide } else { 0 };
    if payout_wide > (u64::MAX - user_account.balance) as i128 {
        return Err(ErrorCode::Overflow);
    }
    let payout = payout_wide as u64;
    retire(market, lending, &position);
    user_account.balance = user_account.balance + payout;
    Ok(
        PositionClosed {
            owner: position.owner,
            market: position.market,
            is_long: position.is_long,
            entry_price: position.entry_price,
            exit_price,
            pnl: pnl_wide as i64,
            payout,
        },
    )
}

/// Liquidates `position` on behalf of `liquidator` once `current_price` has
/// crossed its liquidation price. The unwind is that of a close, with no close
/// fee. Of what it recovers (a long's proceeds, or a short's notional less the
/// buy-back cost, floored at zero) the liquidator is owed the reward in the
/// result and the rest is credited to the owner's account. The position is
/// consumed. A refused liquidation changes nothing.
pub fn liquidate(
    market: &mut Market,
    lending: &mut LendingPool,
    owner_account: &mut UserAccount,
    liquidator: Key,
    position: Position,
    current_price: u64,
    vault: VaultReading,
    slippage_limit: u64,
) -> (r: Result<PositionLiquidated, ErrorCode>)
    ensures
        r == liquidate_outcome(
            old(owner_account).balance,
            liquidator,
            position,
            current_price,
            vault,
            slippage_limit,
        ),
        r == Err::<PositionLiquidated, ErrorCode>(ErrorCode::NotLiquidatable) <==> !liquidatable(
            position.is_long,
            current_price as int,
            position.liquidation_price as int,
        ),
        r is Err ==> *final(market) == *old(market) && *final(lending) == *old(lending)
            && *final(owner_account) == *old(owner_account),
        r is Ok ==> {
            let remaining = recovered_of(
                position,
                unwind_result(position, vault, slippage_limit)->Ok_0,
            );
            &&& *final(market) == market_after_exit(*old(market), position)
            &&& *final(lending) == lending_after_exit(*old(lending), position)
            &&& *final(owner_account) == (UserAccount {
                balance: (old(owner_account).balance + (remaining - r->Ok_0.reward)) as u64,
                ..*old(owner_account)
            })
        },
        r is Ok && position.is_long && old(market).total_long_collateral >= position.collateral
            ==> final(market).total_long_collateral == old(market).total_long_collateral
            - position.collateral,
        r is Ok && !position.is_long && old(market).total_short_collateral >= position.collateral
            ==> final(market).total_short_collateral == old(market).total_short_collateral
            - position.collateral,
        r is Ok && old(market).total_positions >= 1 ==> final(market).total_positions == old(
            market,
        ).total_positions - 1,
        old(lending).wf() ==> final(lending).wf(),
{
    if !is_liquidatable(position.is_long, current_price, position.liquidation_price) {
        return Err(ErrorCode::NotLiquidatable);
    }
    let amount = match unwind(&position, vault, slippage_limit) {
        Ok(a) => a,
        Err(e) => {
            return Err(e);
        },
    };
    let remaining = if position.is_long {
        amount
    } else {
        position.position_size_sol.saturating_sub(amount)
    };
    let (reward, to_owner) = liquidation_split(remaining);
    if to_owner > u64::MAX - owner_account.balance {
        return Err(ErrorCode::Overflow);
    }
    retire(market, lending, &position);
    owner_account.balance = owner_account.balance + to_owner;
    Ok(
        PositionLiquidated {
            owner: position.owner,
            market: position.market,
            is_long: position.is_long,
            liquidator,
            reward,
            exit_price: current_price,
        },
    )
}

/// Opening a position and later closing or liquidating it puts the market's
/// collateral totals, its position count and the lending pool's borrowed total
/// back where they were: each is adjusted once by the open and undone once by
/// the exit.
pub proof fn lemma_open_then_exit_restores_aggregates(
    market: Market,
    lending: LendingPool,
    user_account: UserAccount,
    owner: Key,
    market_key: Key,
    is_long: bool,
    collateral: u64,
    leverage: u64,
    slippage_limit: u64,
    entry_price: u64,
    vault: VaultReading,
    opened_at: i64,
    bump: u8,
)
    requires
        open_outcome(
            market,
            lending,
            user_account,
            owner,
            market_key,
            is_long,
            collateral,
            leverage,
            slippage_limit,
            entry_price,
            vault,
            opened_at,
            bump,
        ) is Ok,
    ensures
        ({
            let q = open_quote(
                market,
                lending,
                user_account.balance,
                is_long,
                collateral,
                leverage,
                entry_price,
            )->Ok_0;
            let position = open_outcome(
                market,
                lending,
                user_account,
                owner,
                market_key,
                is_long,
                collateral,
                leverage,
                slippage_limit,
                entry_price,
                vault,
                opened_at,
                bump,
            )->Ok_0.0;
            &&& market_after_exit(market_after_open(market, is_long, q.collateral_after_fee), position)
                == market
            &&& lending_after_exit(lending_after_borrow(lending, q.tokens_to_borrow), position)
                == lending
        }),
{
}

} // verus!
