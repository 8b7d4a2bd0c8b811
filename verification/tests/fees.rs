use nine_lives::fees::BPS_DENOMINATOR;
use nine_lives::{mul_bps, split_tax, NineLivesError, TaxSplit};

#[test]
fn share_is_floor_of_amount_times_bps_over_ten_thousand() {
    assert_eq!(BPS_DENOMINATOR, 10_000);
    assert_eq!(mul_bps(10_000_000, 300), Ok(300_000));
    assert_eq!(mul_bps(10_000_000, 200), Ok(200_000));
    assert_eq!(mul_bps(10_000_000, 100), Ok(100_000));
    assert_eq!(mul_bps(9_999, 300), Ok(299));
    assert_eq!(mul_bps(33, 300), Ok(0));
    assert_eq!(mul_bps(34, 300), Ok(1));
    assert_eq!(mul_bps(12_345, 10_000), Ok(12_345));
    assert_eq!(mul_bps(1_000, 65_535), Ok(6_553));
}

#[test]
fn share_of_zero_and_at_zero_rate_is_zero() {
    assert_eq!(mul_bps(0, 300), Ok(0));
    assert_eq!(mul_bps(0, 0), Ok(0));
    assert_eq!(mul_bps(u64::MAX, 0), Ok(0));
    assert_eq!(mul_bps(u64::MAX, 1), Ok(u64::MAX / 10_000));
}

#[test]
fn share_overflows_when_the_product_leaves_64_bits() {
    assert_eq!(mul_bps(u64::MAX, 2), Err(NineLivesError::MathOverflow));
    assert_eq!(mul_bps(u64::MAX, 300), Err(NineLivesError::MathOverflow));
    let largest = u64::MAX / 300;
    assert_eq!(mul_bps(largest, 300), Ok(largest * 300 / 10_000));
    assert_eq!(mul_bps(largest + 1, 300), Err(NineLivesError::MathOverflow));
}

#[test]
fn default_rates_split_exactly_for_representative_amounts() {
    for amount in [1u64, 10_000, 1_000_000_000] {
        let founder = mul_bps(amount, 200).unwrap();
        let marketing = mul_bps(amount, 100).unwrap();
        let tax = mul_bps(amount, 300).unwrap();
        assert_eq!(founder + marketing, tax, "amount {}", amount);
    }
    assert_eq!(mul_bps(1, 300), Ok(0));
    assert_eq!(mul_bps(10_000, 300), Ok(300));
    assert_eq!(mul_bps(1_000_000_000, 300), Ok(30_000_000));
}

#[test]
fn default_rates_fall_one_short_where_the_remainders_carry() {
    // 9999 * 200 and 9999 * 100 leave 9800 and 9900 over 10000 together.
    assert_eq!(mul_bps(9_999, 200), Ok(199));
    assert_eq!(mul_bps(9_999, 100), Ok(99));
    assert_eq!(mul_bps(9_999, 300), Ok(299));
    assert_eq!(split_tax(9_999, 300, 200, 100), Err(NineLivesError::TaxSplitMismatch));
}

#[test]
fn fee_shares_are_the_tax_share_or_one_less() {
    let mut amount: u64 = 0;
    while amount < 30_000 {
        let founder = mul_bps(amount, 200).unwrap();
        let marketing = mul_bps(amount, 100).unwrap();
        let tax = mul_bps(amount, 300).unwrap();
        let carries = (amount * 200) % 10_000 + (amount * 100) % 10_000 >= 10_000;
        assert!(founder + marketing <= tax && tax <= founder + marketing + 1);
        assert_eq!(founder + marketing == tax, !carries, "amount {}", amount);
        amount += 1;
    }
}

#[test]
fn split_of_ten_million_at_default_rates() {
    assert_eq!(
        split_tax(10_000_000, 300, 200, 100),
        Ok(TaxSplit { net: 9_700_000, founder_fee: 200_000, marketing_fee: 100_000 })
    );
}

#[test]
fn split_of_one_unit_keeps_it_all_in_the_net_leg() {
    assert_eq!(mul_bps(1, 300), Ok(0));
    assert_eq!(
        split_tax(1, 300, 200, 100),
        Ok(TaxSplit { net: 1, founder_fee: 0, marketing_fee: 0 })
    );
}

#[test]
fn split_of_ninety_nine_is_a_mismatch() {
    assert_eq!(mul_bps(99, 300), Ok(2));
    assert_eq!(mul_bps(99, 200), Ok(1));
    assert_eq!(mul_bps(99, 100), Ok(0));
    assert_eq!(split_tax(99, 300, 200, 100), Err(NineLivesError::TaxSplitMismatch));
}

#[test]
fn split_conserves_the_amount() {
    for amount in [1u64, 100, 500, 10_000, 123_400, 999_999_900, u64::MAX / 300 / 100 * 100] {
        let split = split_tax(amount, 300, 200, 100).unwrap();
        assert_eq!(split.net + split.founder_fee + split.marketing_fee, amount);
        assert!(split.net > 0);
    }
}

#[test]
fn split_is_refused_where_the_tax_leaves_nothing() {
    assert_eq!(split_tax(100, 10_000, 6_000, 4_000), Err(NineLivesError::InsufficientNetAmount));
    assert_eq!(split_tax(100, 20_000, 10_000, 10_000), Err(NineLivesError::InsufficientNetAmount));
    assert_eq!(split_tax(0, 300, 200, 100), Err(NineLivesError::InsufficientNetAmount));
    assert_eq!(
        split_tax(100, 9_900, 5_000, 4_900),
        Ok(TaxSplit { net: 1, founder_fee: 50, marketing_fee: 49 })
    );
}

#[test]
fn split_overflow_comes_before_mismatch() {
    assert_eq!(split_tax(u64::MAX, 300, 200, 100), Err(NineLivesError::MathOverflow));
    assert_eq!(split_tax(u64::MAX / 300 + 1, 300, 200, 100), Err(NineLivesError::MathOverflow));
    // Only the largest product overflows here.
    assert_eq!(split_tax(u64::MAX / 250, 300, 200, 100), Err(NineLivesError::MathOverflow));
    // Rates that do not add up are a mismatch, not an overflow.
    assert_eq!(split_tax(10_000, 300, 200, 50), Err(NineLivesError::TaxSplitMismatch));
}

#[test]
fn error_messages() {
    assert_eq!(NineLivesError::Unauthorized.message(), "Unauthorized");
    assert_eq!(NineLivesError::InvalidAmount.message(), "Invalid amount");
    assert_eq!(NineLivesError::InvalidMint.message(), "Invalid mint for token account");
    assert_eq!(NineLivesError::TaxSplitMismatch.message(), "Tax split mismatch");
    assert_eq!(NineLivesError::InsufficientNetAmount.message(), "Insufficient amount after tax");
    assert_eq!(NineLivesError::MathOverflow.message(), "Math overflow");
    assert_eq!(NineLivesError::InvalidAccount.message(), "Invalid token account data");
    assert_eq!(NineLivesError::AlreadyInitialized.message(), "Already initialized");
    assert_eq!(NineLivesError::CapacityExceeded.message(), "Capacity exceeded");
}
