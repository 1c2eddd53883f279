use vstd::prelude::*;
use crate::state::{Deposited, ErrorCode, Key, UserAccount, Withdrawn};

verus! {

/// Credits `amount` paid in by `user` to their account, which becomes theirs.
/// A refused deposit changes nothing.
pub fn deposit(user_account: &mut UserAccount, user: Key, bump: u8, amount: u64) -> (r: Result<
    Deposited,
    ErrorCode,
>)
    ensures
        amount == 0 ==> r == Err::<Deposited, ErrorCode>(ErrorCode::ZeroAmount),
        amount > 0 && old(user_account).balance + amount > u64::MAX ==> r == Err::<
            Deposited,
            ErrorCode,
        >(ErrorCode::Overflow),
        r is Ok <==> amount > 0 && old(user_account).balance + amount <= u64::MAX,
        r is Err ==> *final(user_account) == *old(user_account),
        r is Ok ==> *final(user_account) == (UserAccount {
            owner: user,
            balance: (old(user_account).balance + amount) as u64,
            bump,
        }) && r->Ok_0 == (Deposited { user, amount, new_balance: final(user_account).balance }),
{
    if amount == 0 {
        return Err(ErrorCode::ZeroAmount);
    }
    if amount > u64::MAX - user_account.balance {
        return Err(ErrorCode::Overflow);
    }
    user_account.owner = user;
    user_account.balance = user_account.balance + amount;
    user_account.bump = bump;
    Ok(Deposited { user, amount, new_balance: user_account.balance })
}

/// Debits `amount` from `user`'s own account, to be paid out to them.
/// A refused withdrawal changes nothing.
pub fn withdraw(user_account: &mut UserAccount, user: Key, amount: u64) -> (r: Result<
    Withdrawn,
    ErrorCode,
>)
    ensures
        old(user_account).owner != user ==> r == Err::<Withdrawn, ErrorCode>(
            ErrorCode::Unauthorized,
        ),
        old(user_account).owner == user && old(user_account).balance < amount ==> r == Err::<
            Withdrawn,
            ErrorCode,
        >(ErrorCode::InsufficientBalance),
        r is Ok <==> old(user_account).owner == user && old(user_account).balance >= amount,
        r is Err ==> *final(user_account) == *old(user_account),
        r is Ok ==> *final(user_account) == (UserAccount {
            balance: (old(user_account).balance - amount) as u64,
            ..*old(user_account)
        }) && r->Ok_0 == (Withdrawn { user, amount, new_balance: final(user_account).balance }),
{
    if user_account.owner != user {
        return Err(ErrorCode::Unauthorized);
    }
    if user_account.balance < amount {
        return Err(ErrorCode::InsufficientBalance);
    }
    user_account.balance = user_account.balance - amount;
    Ok(Withdrawn { user, amount, new_balance: user_account.balance })
}

} // verus!
