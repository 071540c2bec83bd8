use aa_relay::fee::{compute_fee, quote_transfer_fee, resolve_fee_bps};
use aa_relay::{ErrorCode, FeePolicy, Identity, TokenFeePolicy};

fn key(byte: u8) -> Identity {
    Identity::new_from_array([byte; 32])
}

fn fee_policy(token_fee_bps: u16, min_fee_amount: u64) -> FeePolicy {
    FeePolicy {
        fee_collector: key(9),
        sol_fee_bps: 100,
        token_fee_bps,
        min_fee_amount,
        authority: key(8),
    }
}

#[test]
fn fee_is_raised_to_the_floor() {
    assert_eq!(compute_fee(50_000, 100, 1000), Ok(1000));
}

#[test]
fn fee_is_the_share_when_above_the_floor() {
    assert_eq!(compute_fee(1_000_000, 100, 1000), Ok(10_000));
    assert_eq!(compute_fee(1_000_000, 2000, 0), Ok(200_000));
    assert_eq!(compute_fee(12_345, 250, 0), Ok(308));
}

#[test]
fn share_is_rounded_down() {
    assert_eq!(compute_fee(9_999, 1, 0), Ok(0));
    assert_eq!(compute_fee(10_000, 1, 0), Ok(1));
    assert_eq!(compute_fee(19_999, 1, 0), Ok(1));
}

#[test]
fn fee_equal_to_amount_is_too_high() {
    assert_eq!(compute_fee(1000, 100, 1000), Err(ErrorCode::FeeTooHigh));
    assert_eq!(compute_fee(1001, 100, 1000), Ok(1000));
    assert_eq!(compute_fee(999, 100, 1000), Err(ErrorCode::FeeTooHigh));
}

#[test]
fn zero_amount_is_always_too_high() {
    assert_eq!(compute_fee(0, 0, 0), Err(ErrorCode::FeeTooHigh));
    assert_eq!(compute_fee(0, 2000, 5), Err(ErrorCode::FeeTooHigh));
}

#[test]
fn zero_rate_and_zero_floor_take_nothing() {
    assert_eq!(compute_fee(1, 0, 0), Ok(0));
    assert_eq!(compute_fee(u64::MAX, 0, 0), Ok(0));
}

#[test]
fn largest_amount_does_not_overflow() {
    let expected = (u64::MAX as u128 * 2000 / 10_000) as u64;
    assert_eq!(compute_fee(u64::MAX, 2000, 0), Ok(expected));
    assert_eq!(compute_fee(u64::MAX, 10_000, 0), Err(ErrorCode::FeeTooHigh));
    assert_eq!(compute_fee(u64::MAX, u16::MAX, 0), Err(ErrorCode::FeeTooHigh));
}

#[test]
fn fee_law_on_a_grid_of_values() {
    let amounts: [u64; 7] = [1, 2, 999, 1000, 1001, 50_000, u64::MAX];
    let rates: [u16; 5] = [0, 1, 100, 1999, 2000];
    let floors: [u64; 5] = [0, 1, 1000, 50_000, u64::MAX];
    for amount in amounts {
        for rate in rates {
            for floor in floors {
                let share = (amount as u128 * rate as u128 / 10_000) as u64;
                let fee = if share < floor { floor } else { share };
                let expected = if fee < amount { Ok(fee) } else { Err(ErrorCode::FeeTooHigh) };
                assert_eq!(compute_fee(amount, rate, floor), expected);
            }
        }
    }
}

#[test]
fn token_rate_overrides_the_general_rate_for_its_mint_only() {
    let general = fee_policy(100, 0);
    let special = Some(TokenFeePolicy { token_mint: key(3), fee_bps: 500 });
    assert_eq!(resolve_fee_bps(&general, &special, &key(3)), 500);
    assert_eq!(resolve_fee_bps(&general, &special, &key(4)), 100);
}

#[test]
fn general_token_rate_applies_without_a_policy_of_the_token() {
    let general = fee_policy(100, 0);
    assert_eq!(resolve_fee_bps(&general, &None, &key(3)), 100);
    assert_eq!(quote_transfer_fee(&Some(general), &None, &key(3), 1_000_000), Ok(10_000));
}

#[test]
fn fee_policy_alone_takes_one_percent_with_its_floor() {
    let general = fee_policy(100, 1000);
    assert_eq!(quote_transfer_fee(&Some(general), &None, &key(3), 50_000), Ok(1000));
    assert_eq!(quote_transfer_fee(&Some(general), &None, &key(3), 1000), Err(ErrorCode::FeeTooHigh));
}

#[test]
fn no_fee_without_a_fee_policy() {
    let special = TokenFeePolicy { token_mint: key(3), fee_bps: 500 };
    assert_eq!(quote_transfer_fee(&None, &None, &key(3), 50_000), Ok(0));
    assert_eq!(quote_transfer_fee(&None, &Some(special), &key(3), 50_000), Ok(0));
    assert_eq!(quote_transfer_fee(&None, &Some(special), &key(3), 0), Ok(0));
}

#[test]
fn fee_with_both_records_present() {
    let general = fee_policy(100, 1000);
    let special = TokenFeePolicy { token_mint: key(3), fee_bps: 500 };
    assert_eq!(quote_transfer_fee(&Some(general), &Some(special), &key(3), 50_000), Ok(2500));
    assert_eq!(quote_transfer_fee(&Some(general), &Some(special), &key(4), 50_000), Ok(1000));
    assert_eq!(
        quote_transfer_fee(&Some(general), &Some(special), &key(4), 1000),
        Err(ErrorCode::FeeTooHigh)
    );
}
