use vstd::prelude::*;
use crate::layout::{le_value, push_u64_le, read_u64_le, TOKEN_AMOUNT_OFFSET};
use crate::math::{pool_price, pool_price_result};
use crate::state::{ErrorCode, Key, VaultReading};

verus! {

/// Address of the liquidity pool program, `pAMMBay6oceH9fJKBRHGP5D4bD4sWpmSwMn52FMfXEA`.
pub open spec fn amm_program_key() -> Key {
    Key {
        w0: 0x76c6_5e82_fcde_140c,
        w1: 0x6540_65bb_1808_2594,
        w2: 0xb471_d556_318d_29f4,
        w3: 0x63a8_e918_0c09_f8d4,
    }
}

/// Address of the liquidity pool program.
pub fn amm_program_id() -> (r: Key)
    ensures
        r == amm_program_key(),
{
    Key {
        w0: 0x76c6_5e82_fcde_140c,
        w1: 0x6540_65bb_1808_2594,
        w2: 0xb471_d556_318d_29f4,
        w3: 0x63a8_e918_0c09_f8d4,
    }
}

/// Opcode of the pool's `buy`: the bytes `[102, 6, 61, 18, 1, 218, 235, 234]` read
/// as a little-endian word.
pub const BUY_DISCRIMINATOR: u64 = 0xeaeb_da01_123d_0666;

/// Opcode of the pool's `sell`: the bytes `[51, 230, 133, 164, 1, 127, 131, 173]`
/// read as a little-endian word.
pub const SELL_DISCRIMINATOR: u64 = 0xad83_7f01_a485_e633;

/// How many pool accounts a trade hands over, in a fixed order.
pub const AMM_ACCOUNT_COUNT: usize = 15;

/// The `amount` field of a token account's data.
pub open spec fn token_amount_of(data: Seq<u8>) -> nat {
    le_value(data.subrange(TOKEN_AMOUNT_OFFSET as int, TOKEN_AMOUNT_OFFSET + 8))
}

/// Tokens that came into a vault, provided they reach `min_out`.
pub open spec fn received_result(reading: VaultReading, min_out: u64) -> Result<u64, ErrorCode> {
    if reading.after < reading.before {
        Err(ErrorCode::SwapFailed)
    } else if reading.after - reading.before < min_out {
        Err(ErrorCode::SlippageExceeded)
    } else {
        Ok((reading.after - reading.before) as u64)
    }
}

/// Tokens that left a vault, provided they stay within `max_in`.
pub open spec fn spent_result(reading: VaultReading, max_in: u64) -> Result<u64, ErrorCode> {
    if reading.before < reading.after {
        Err(ErrorCode::SwapFailed)
    } else if reading.before - reading.after > max_in {
        Err(ErrorCode::SlippageExceeded)
    } else {
        Ok((reading.before - reading.after) as u64)
    }
}

/// Checks that enough pool accounts were handed over for a trade.
pub fn check_amm_accounts(count: usize) -> (r: Result<(), ErrorCode>)
    ensures
        r is Ok <==> count >= AMM_ACCOUNT_COUNT,
        r is Err ==> r == Err::<(), ErrorCode>(ErrorCode::InvalidPumpswapAccounts),
{
    if count >= AMM_ACCOUNT_COUNT {
        Ok(())
    } else {
        Err(ErrorCode::InvalidPumpswapAccounts)
    }
}

/// Spot price from the data of the pool's base and quote token vaults.
pub fn get_pool_price(base_vault_data: &[u8], quote_vault_data: &[u8]) -> (r: Result<u64, ErrorCode>)
    requires
        base_vault_data@.len() >= TOKEN_AMOUNT_OFFSET + 8,
        quote_vault_data@.len() >= TOKEN_AMOUNT_OFFSET + 8,
    ensures
        r == pool_price_result(
            token_amount_of(base_vault_data@) as u64,
            token_amount_of(quote_vault_data@) as u64,
        ),
{
    let base_amount = read_u64_le(base_vault_data, TOKEN_AMOUNT_OFFSET);
    let quote_amount = read_u64_le(quote_vault_data, TOKEN_AMOUNT_OFFSET);
    pool_price(base_amount, quote_amount)
}

/// Data of the pool's `buy`: opcode, exact base amount out, most quote in,
/// and a zero byte that turns off volume tracking.
pub fn buy_instruction_data(base_amount_out: u64, max_quote_amount_in: u64) -> (r: Vec<u8>)
    ensures
        r@.len() == 25,
        le_value(r@.subrange(0, 8)) == BUY_DISCRIMINATOR,
        le_value(r@.subrange(8, 16)) == base_amount_out,
        le_value(r@.subrange(16, 24)) == max_quote_amount_in,
        r@[24] == 0,
{
    let mut data: Vec<u8> = Vec::new();
    push_u64_le(&mut data, BUY_DISCRIMINATOR);
    let ghost d1 = data@;
    push_u64_le(&mut data, base_amount_out);
    let ghost d2 = data@;
    push_u64_le(&mut data, max_quote_amount_in);
    let ghost d3 = data@;
    data.push(0);
    proof {
        assert(d2.subrange(0, 8) =~= d1.subrange(0, 8));
        assert(d3.subrange(0, 8) =~= d2.subrange(0, 8));
        assert(data@.subrange(0, 8) =~= d3.subrange(0, 8));
        assert(d3.subrange(8, 16) =~= d2.subrange(8, 16));
        assert(data@.subrange(8, 16) =~= d3.subrange(8, 16));
        assert(data@.subrange(16, 24) =~= d3.subrange(16, 24));
    }
    data
}

/// Data of the pool's `sell`: opcode, exact base amount in, least quote out.
pub fn sell_instruction_data(base_amount_in: u64, min_quote_amount_out: u64) -> (r: Vec<u8>)
    ensures
        r@.len() == 24,
        le_value(r@.subrange(0, 8)) == SELL_DISCRIMINATOR,
        le_value(r@.subrange(8, 16)) == base_amount_in,
        le_value(r@.subrange(16, 24)) == min_quote_amount_out,
{
    let mut data: Vec<u8> = Vec::new();
    push_u64_le(&mut data, SELL_DISCRIMINATOR);
    let ghost d1 = data@;
    push_u64_le(&mut data, base_amount_in);
    let ghost d2 = data@;
    push_u64_le(&mut data, min_quote_amount_out);
    proof {
        assert(d2.subrange(0, 8) =~= d1.subrange(0, 8));
        assert(data@.subrange(0, 8) =~= d2.subrange(0, 8));
        assert(data@.subrange(8, 16) =~= d2.subrange(8, 16));
    }
    data
}

/// Outcome of a buy, from the token vault read around it: the tokens received,
/// which must reach `min_tokens`.
pub fn settle_buy(token_vault: VaultReading, min_tokens: u64) -> (r: Result<u64, ErrorCode>)
    ensures
        r == received_result(token_vault, min_tokens),
{
    if token_vault.after < token_vault.before {
        return Err(ErrorCode::SwapFailed);
    }
    let received = token_vault.after - token_vault.before;
    if received < min_tokens {
        Err(ErrorCode::SlippageExceeded)
    } else {
        Ok(received)
    }
}

/// Outcome of a sell, from the settlement vault read around it: the amount
/// received, which must reach `min_sol`.
pub fn settle_sell(wsol_vault: VaultReading, min_sol: u64) -> (r: Result<u64, ErrorCode>)
    ensures
        r == received_result(wsol_vault, min_sol),
{
    settle_buy(wsol_vault, min_sol)
}

/// Outcome of buying back an exact token amount, from the settlement vault read
/// around it: the amount spent, which may not pass `max_sol`.
pub fn settle_buy_for_close(wsol_vault: VaultReading, max_sol: u64) -> (r: Result<u64, ErrorCode>)
    ensures
        r == spent_result(wsol_vault, max_sol),
{
    if wsol_vault.before < wsol_vault.after {
        return Err(ErrorCode::SwapFailed);
    }
    let spent = wsol_vault.before - wsol_vault.after;
    if spent > max_sol {
        Err(ErrorCode::SlippageExceeded)
    } else {
        Ok(spent)
    }
}

} // verus!
