use perpe::amm::{
    amm_program_id, buy_instruction_data, check_amm_accounts, get_pool_price,
    sell_instruction_data, settle_buy, settle_buy_for_close, settle_sell,
};
use perpe::layout::{push_u64_le, read_key, read_u64_le};
use perpe::math::{
    calc_liq_price_long, calc_liq_price_short, is_liquidatable, liquidation_split, pool_price,
    protocol_fee,
};
use perpe::state::{ErrorCode, Key, VaultReading};

fn vault_data(amount: u64) -> Vec<u8> {
    let mut data = vec![0xAAu8; 64];
    data.extend_from_slice(&amount.to_le_bytes());
    data.extend_from_slice(&[0x55u8; 93]);
    data
}

#[test]
fn protocol_fee_is_thirty_bps_rounded_down() {
    assert_eq!(protocol_fee(1000), 3);
    assert_eq!(protocol_fee(333), 0);
    assert_eq!(protocol_fee(10_000), 30);
    assert_eq!(protocol_fee(u64::MAX), 55_340_232_221_128_654);
}

#[test]
fn long_liquidation_price_at_five_x() {
    assert_eq!(calc_liq_price_long(1_000_000_000_000, 5), 860_000_000_000);
}

#[test]
fn liquidation_prices_at_one_and_ten_x() {
    assert_eq!(calc_liq_price_long(1_000_000_000_000, 1), 300_000_000_000);
    assert_eq!(calc_liq_price_long(1_000_000_000_000, 10), 930_000_000_000);
    assert_eq!(calc_liq_price_short(1_000_000_000_000, 1), Ok(1_700_000_000_000));
    assert_eq!(calc_liq_price_short(1_000_000_000_000, 5), Ok(1_140_000_000_000));
    assert_eq!(calc_liq_price_short(1_000_000_000_000, 10), Ok(1_070_000_000_000));
}

#[test]
fn short_liquidation_price_past_u64_is_overflow() {
    assert_eq!(calc_liq_price_short(u64::MAX, 1), Err(ErrorCode::Overflow));
}

#[test]
fn liquidatable_only_once_price_crosses() {
    let liq = 860_000_000_000;
    assert!(is_liquidatable(true, liq, liq));
    assert!(is_liquidatable(true, liq - 1, liq));
    assert!(!is_liquidatable(true, liq + 1, liq));
    assert!(is_liquidatable(false, liq, liq));
    assert!(is_liquidatable(false, liq + 1, liq));
    assert!(!is_liquidatable(false, liq - 1, liq));
}

#[test]
fn reward_split_adds_up() {
    assert_eq!(liquidation_split(1000), (50, 950));
    assert_eq!(liquidation_split(90), (4, 86));
    assert_eq!(liquidation_split(19), (0, 19));
    assert_eq!(liquidation_split(0), (0, 0));
    let (reward, to_owner) = liquidation_split(u64::MAX);
    assert_eq!(reward, 922_337_203_685_477_580);
    assert_eq!(reward + to_owner, u64::MAX);
}

#[test]
fn pool_price_from_reserves() {
    assert_eq!(pool_price(4_000_000, 1_000_000), Ok(250_000_000_000));
    assert_eq!(pool_price(3, 1), Ok(333_333_333_333));
    assert_eq!(pool_price(0, 1_000), Err(ErrorCode::EmptyPool));
    assert_eq!(pool_price(1, u64::MAX), Err(ErrorCode::Overflow));
}

#[test]
fn pool_price_reads_token_vault_amounts() {
    let base = vault_data(4_000_000);
    let quote = vault_data(1_000_000);
    assert_eq!(get_pool_price(&base, &quote), Ok(250_000_000_000));
    assert_eq!(get_pool_price(&vault_data(0), &quote), Err(ErrorCode::EmptyPool));
}

#[test]
fn reads_little_endian_words_and_keys() {
    let mut data = vec![9u8, 9, 9];
    data.extend_from_slice(&0x0102_0304_0506_0708u64.to_le_bytes());
    assert_eq!(read_u64_le(&data, 3), 0x0102_0304_0506_0708);
    let mut out = vec![1u8];
    push_u64_le(&mut out, 0x0a0b_0c0d_0e0f_1011);
    assert_eq!(out, vec![1, 0x11, 0x10, 0x0f, 0x0e, 0x0d, 0x0c, 0x0b, 0x0a]);
    let bytes: Vec<u8> = (0u8..40).collect();
    let k = read_key(&bytes, 4);
    assert_eq!(k.w0, u64::from_le_bytes([4, 5, 6, 7, 8, 9, 10, 11]));
    assert_eq!(k.w3, u64::from_le_bytes([28, 29, 30, 31, 32, 33, 34, 35]));
}

#[test]
fn pool_program_address() {
    let bytes: [u8; 32] = [
        12, 20, 222, 252, 130, 94, 198, 118, 148, 37, 8, 24, 187, 101, 64, 101, 244, 41, 141, 49,
        86, 213, 113, 180, 212, 248, 9, 12, 24, 233, 168, 99,
    ];
    assert_eq!(read_key(&bytes, 0), amm_program_id());
}

#[test]
fn buy_and_sell_instruction_layout() {
    let buy = buy_instruction_data(7, 0x0102);
    assert_eq!(
        buy,
        vec![
            102, 6, 61, 18, 1, 218, 235, 234, 7, 0, 0, 0, 0, 0, 0, 0, 2, 1, 0, 0, 0, 0, 0, 0, 0
        ]
    );
    let sell = sell_instruction_data(u64::MAX, 5);
    assert_eq!(
        sell,
        vec![
            51, 230, 133, 164, 1, 127, 131, 173, 255, 255, 255, 255, 255, 255, 255, 255, 5, 0, 0,
            0, 0, 0, 0, 0
        ]
    );
}

#[test]
fn settle_measures_vault_deltas() {
    let up = VaultReading { before: 100, after: 250 };
    let down = VaultReading { before: 250, after: 100 };
    assert_eq!(settle_buy(up, 150), Ok(150));
    assert_eq!(settle_buy(up, 151), Err(ErrorCode::SlippageExceeded));
    assert_eq!(settle_buy(down, 0), Err(ErrorCode::SwapFailed));
    assert_eq!(settle_sell(up, 10), Ok(150));
    assert_eq!(settle_sell(down, 0), Err(ErrorCode::SwapFailed));
    assert_eq!(settle_buy_for_close(down, 150), Ok(150));
    assert_eq!(settle_buy_for_close(down, 149), Err(ErrorCode::SlippageExceeded));
    assert_eq!(settle_buy_for_close(up, u64::MAX), Err(ErrorCode::SwapFailed));
}

#[test]
fn amm_accounts_count() {
    assert_eq!(check_amm_accounts(15), Ok(()));
    assert_eq!(check_amm_accounts(20), Ok(()));
    assert_eq!(check_amm_accounts(14), Err(ErrorCode::InvalidPumpswapAccounts));
}

#[test]
fn key_words_compare_whole() {
    let a = Key { w0: 1, w1: 2, w2: 3, w3: 4 };
    let b = Key { w0: 1, w1: 2, w2: 3, w3: 5 };
    assert_ne!(a, b);
    assert_eq!(a, Key { w0: 1, w1: 2, w2: 3, w3: 4 });
}
