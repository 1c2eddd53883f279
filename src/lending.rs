use vstd::prelude::*;
use crate::state::{ErrorCode, Key, LenderPosition, LendingDeposited, LendingPool, LendingWithdrawn};

verus! {

/// Shares minted for a deposit of `amount`: one per token into an empty pool,
/// else in proportion to the pool's current share price, rounded down.
pub open spec fn shares_for_deposit(pool: LendingPool, amount: u64) -> int {
    if pool.total_deposits == 0 {
        amount as int
    } else {
        amount * pool.total_shares / pool.total_deposits as int
    }
}

/// Tokens that `shares` are worth, rounded down.
pub open spec fn tokens_for_shares(pool: LendingPool, shares: u64) -> int
    recommends
        pool.total_shares > 0,
{
    shares * pool.total_deposits / pool.total_shares as int
}

/// The pool after a deposit of `amount` that minted `shares`.
pub open spec fn pool_after_deposit(pool: LendingPool, amount: u64, shares: u64) -> LendingPool {
    LendingPool {
        total_deposits: (pool.total_deposits + amount) as u64,
        total_shares: (pool.total_shares + shares) as u64,
        ..pool
    }
}

/// The pool after `shares` were redeemed for `tokens`.
pub open spec fn pool_after_withdraw(pool: LendingPool, tokens: u64, shares: u64) -> LendingPool {
    LendingPool {
        total_deposits: (pool.total_deposits - tokens) as u64,
        total_shares: pool.total_shares.saturating_sub(shares),
        ..pool
    }
}

/// Shares minted by a deposit, or why it is refused.
pub open spec fn deposit_outcome(pool: LendingPool, lender: LenderPosition, amount: u64) -> Result<
    u64,
    ErrorCode,
> {
    let shares = shares_for_deposit(pool, amount);
    if amount == 0 {
        Err(ErrorCode::ZeroAmount)
    } else if shares > u64::MAX || pool.total_deposits + amount > u64::MAX || pool.total_shares
        + shares > u64::MAX || lender.shares + shares > u64::MAX {
        Err(ErrorCode::Overflow)
    } else {
        Ok(shares as u64)
    }
}

/// Tokens paid out for redeemed shares, or why the withdrawal is refused.
pub open spec fn withdraw_outcome(
    pool: LendingPool,
    lender: LenderPosition,
    user: Key,
    shares: u64,
) -> Result<u64, ErrorCode> {
    if lender.owner != user {
        Err(ErrorCode::Unauthorized)
    } else if lender.shares < shares {
        Err(ErrorCode::InsufficientShares)
    } else if pool.total_shares == 0 || tokens_for_shares(pool, shares) > u64::MAX {
        Err(ErrorCode::Overflow)
    } else if tokens_for_shares(pool, shares) > pool.total_deposits.saturating_sub(
        pool.total_borrowed,
    ) {
        Err(ErrorCode::InsufficientLiquidity)
    } else {
        Ok(tokens_for_shares(pool, shares) as u64)
    }
}

/// Deposits `amount` tokens of `user` into the pool and credits the minted
/// shares to the lender's position, which becomes `user`'s for `pool_key`.
/// A refused deposit changes nothing.
pub fn deposit_to_lending(
    lending: &mut LendingPool,
    lender: &mut LenderPosition,
    user: Key,
    pool_key: Key,
    bump: u8,
    amount: u64,
) -> (r: Result<LendingDeposited, ErrorCode>)
    ensures
        r is Err ==> r == Err::<LendingDeposited, ErrorCode>(
            deposit_outcome(*old(lending), *old(lender), amount)->Err_0,
        ) && *final(lending) == *old(lending) && *final(lender) == *old(lender),
        r is Ok <==> deposit_outcome(*old(lending), *old(lender), amount) is Ok,
        r is Ok ==> {
            let shares = deposit_outcome(*old(lending), *old(lender), amount)->Ok_0;
            &&& r->Ok_0 == (LendingDeposited { user, amount, shares })
            &&& *final(lending) == pool_after_deposit(*old(lending), amount, shares)
            &&& *final(lender) == (LenderPosition {
                owner: user,
                lending_pool: pool_key,
                shares: (old(lender).shares + shares) as u64,
                bump,
            })
        },
        old(lending).wf() ==> final(lending).wf(),
{
    if amount == 0 {
        return Err(ErrorCode::ZeroAmount);
    }
    let shares: u64 = if lending.total_deposits == 0 {
        amount
    } else {
        assert((amount as u128) * (lending.total_shares as u128) <= u128::MAX) by (nonlinear_arith)
            requires
                amount <= u64::MAX,
                lending.total_shares <= u64::MAX,
        ;
        let wide = (amount as u128) * (lending.total_shares as u128) / (
        lending.total_deposits as u128);
        if wide > u64::MAX as u128 {
            return Err(ErrorCode::Overflow);
        }
        wide as u64
    };
    if amount > u64::MAX - lending.total_deposits || shares > u64::MAX - lending.total_shares
        || shares > u64::MAX - lender.shares {
        return Err(ErrorCode::Overflow);
    }
    lending.total_deposits = lending.total_deposits + amount;
    lending.total_shares = lending.total_shares + shares;
    lender.owner = user;
    lender.lending_pool = pool_key;
    lender.shares = lender.shares + shares;
    lender.bump = bump;
    Ok(LendingDeposited { user, amount, shares })
}

/// Redeems `shares` of `user`'s lender position for the tokens they are worth,
/// provided that many tokens are not lent out. A refused withdrawal changes nothing.
pub fn withdraw_from_lending(
    lending: &mut LendingPool,
    lender: &mut LenderPosition,
    user: Key,
    shares: u64,
) -> (r: Result<LendingWithdrawn, ErrorCode>)
    ensures
        r is Err ==> r == Err::<LendingWithdrawn, ErrorCode>(
            withdraw_outcome(*old(lending), *old(lender), user, shares)->Err_0,
        ) && *final(lending) == *old(lending) && *final(lender) == *old(lender),
        r is Ok <==> withdraw_outcome(*old(lending), *old(lender), user, shares) is Ok,
        r is Ok ==> {
            let tokens = withdraw_outcome(*old(lending), *old(lender), user, shares)->Ok_0;
            &&& r->Ok_0 == (LendingWithdrawn { user, tokens, shares })
            &&& *final(lending) == pool_after_withdraw(*old(lending), tokens, shares)
            &&& *final(lender) == (LenderPosition {
                shares: (old(lender).shares - shares) as u64,
                ..*old(lender)
            })
        },
        old(lending).wf() ==> final(lending).wf(),
{
    if lender.owner != user {
        return Err(ErrorCode::Unauthorized);
    }
    if lender.shares < shares {
        return Err(ErrorCode::InsufficientShares);
    }
    if lending.total_shares == 0 {
        return Err(ErrorCode::Overflow);
    }
    assert((shares as u128) * (lending.total_deposits as u128) <= u128::MAX) by (nonlinear_arith)
        requires
            shares <= u64::MAX,
            lending.total_deposits <= u64::MAX,
    ;
    let wide = (shares as u128) * (lending.total_deposits as u128) / (lending.total_shares as u128);
    if wide > u64::MAX as u128 {
        return Err(ErrorCode::Overflow);
    }
    let tokens = wide as u64;
    let available = lending.total_deposits.saturating_sub(lending.total_borrowed);
    if tokens > available {
        return Err(ErrorCode::InsufficientLiquidity);
    }
    proof {
        if lending.wf() {
            lemma_withdraw_keeps_wf(*lending, shares);
        }
    }
    lending.total_deposits = lending.total_deposits - tokens;
    lending.total_shares = lending.total_shares.saturating_sub(shares);
    lender.shares = lender.shares - shares;
    Ok(LendingWithdrawn { user, tokens, shares })
}

/// Redeeming all shares empties the pool; redeeming fewer leaves tokens in it.
proof fn lemma_withdraw_keeps_wf(pool: LendingPool, shares: u64)
    requires
        pool.wf(),
        pool.total_shares > 0,
        tokens_for_shares(pool, shares) <= pool.total_deposits - pool.total_borrowed,
    ensures
        pool_after_withdraw(pool, tokens_for_shares(pool, shares) as u64, shares).wf(),
{
    let td = pool.total_deposits as int;
    let ts = pool.total_shares as int;
    let s = shares as int;
    let t = tokens_for_shares(pool, shares);
    if s >= ts {
        assert(s * td >= ts * td) by (nonlinear_arith)
            requires
                s >= ts,
                td >= 0,
        ;
        assert(t >= td) by (nonlinear_arith)
            requires
                t == s * td / ts,
                s * td >= ts * td,
                ts > 0,
        ;
    } else {
        assert(t * ts <= s * td) by (nonlinear_arith)
            requires
                t == s * td / ts,
                ts > 0,
        ;
        assert(s * td < ts * td) by (nonlinear_arith)
            requires
                s < ts,
                td > 0,
        ;
        assert(t < td) by (nonlinear_arith)
            requires
                t * ts < ts * td,
                ts > 0,
        ;
    }
}

/// Depositing into a pool and at once redeeming every share that the deposit
/// minted succeeds; it leaves the pool's share count and the lender's as they
/// were, and hands back at most the deposit. The pool keeps only what rounding
/// took, which is under one share's worth plus one token: nothing at all when
/// the pool was empty.
pub proof fn lemma_deposit_then_withdraw(
    pool: LendingPool,
    lender: LenderPosition,
    user: Key,
    pool_key: Key,
    bump: u8,
    amount: u64,
)
    requires
        pool.wf(),
        deposit_outcome(pool, lender, amount) is Ok,
    ensures
        ({
            let shares = deposit_outcome(pool, lender, amount)->Ok_0;
            let pool1 = pool_after_deposit(pool, amount, shares);
            let lender1 = LenderPosition {
                owner: user,
                lending_pool: pool_key,
                shares: (lender.shares + shares) as u64,
                bump,
            };
            let w = withdraw_outcome(pool1, lender1, user, shares);
            let tokens = w->Ok_0;
            let pool2 = pool_after_withdraw(pool1, tokens, shares);
            &&& w is Ok
            &&& tokens <= amount
            &&& pool2.total_shares == pool.total_shares
            &&& pool2.total_deposits == pool.total_deposits + (amount - tokens)
            &&& pool2.total_borrowed == pool.total_borrowed
            &&& lender1.shares - shares == lender.shares
            &&& (amount - tokens) * (pool.total_shares + shares) < pool.total_deposits + pool.total_shares
                + shares
            &&& pool.total_deposits == 0 ==> tokens == amount && pool2 == pool
        }),
{
    let s = deposit_outcome(pool, lender, amount)->Ok_0;
    let pool1 = pool_after_deposit(pool, amount, s);
    let td = pool.total_deposits as int;
    let ts = pool.total_shares as int;
    let a = amount as int;
    let n = ts + s;
    let d = td + a;
    if td == 0 {
        assert(pool1.total_shares == a);
        assert(a * a / a == a) by (nonlinear_arith)
            requires
                a > 0,
        ;
        assert(tokens_for_shares(pool1, s) == a);
    } else {
        assert(s * td <= a * ts) by (nonlinear_arith)
            requires
                s == a * ts / td,
                td > 0,
        ;
        assert(s * td > a * ts - td) by (nonlinear_arith)
            requires
                s == a * ts / td,
                td > 0,
        ;
        assert(n > 0);
        let t = tokens_for_shares(pool1, s as u64);
        assert(t == s * d / n);
        assert(t <= a) by (nonlinear_arith)
            requires
                t == s * d / n,
                n > 0,
                s * td <= a * ts,
                d == td + a,
                n == ts + s,
                s >= 0,
                a >= 0,
        ;
        assert((a - t) * n < td + n) by (nonlinear_arith)
            requires
                t == s * d / n,
                n > 0,
                s * td > a * ts - td,
                d == td + a,
                n == ts + s,
        ;
    }
}

} // verus!
