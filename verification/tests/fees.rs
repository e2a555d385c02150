use graph_of_humanity::fees::{
    checked_pow, citizenship_fee, distribution_base_checked, judge_reward, voucher_fee_checked, LAST_PAYABLE_APPEAL,
};

#[test]
fn powers() {
    assert_eq!(checked_pow(2, 0), Some(1));
    assert_eq!(checked_pow(2, 10), Some(1024));
    assert_eq!(checked_pow(10, 6), Some(1_000_000));
    assert_eq!(checked_pow(0, 0), Some(1));
    assert_eq!(checked_pow(0, 3), Some(0));
    assert_eq!(checked_pow(2, 63), Some(1 << 63));
    assert_eq!(checked_pow(2, 64), None);
    assert_eq!(checked_pow(10, 19), Some(10_000_000_000_000_000_000));
    assert_eq!(checked_pow(10, 20), None);
    assert_eq!(checked_pow(1, 4_000_000_000), Some(1));
}

#[test]
fn citizenship_fee_doubles_per_appeal() {
    assert_eq!(citizenship_fee(0), 10);
    assert_eq!(citizenship_fee(1), 20);
    assert_eq!(citizenship_fee(3), 80);
    assert_eq!(citizenship_fee(LAST_PAYABLE_APPEAL), 10 << 60);
    for appeal in 0u8..LAST_PAYABLE_APPEAL {
        assert_eq!(citizenship_fee(appeal + 1), 2 * citizenship_fee(appeal));
    }
}

#[test]
fn last_payable_appeal_is_where_fees_stop_fitting() {
    assert!((1u64 << 60).checked_mul(10).is_some());
    assert!((1u64 << 61).checked_mul(10).is_none());
}

#[test]
fn voucher_fee_scales_with_decimals() {
    assert_eq!(voucher_fee_checked(0, 0), Some(10));
    assert_eq!(voucher_fee_checked(1, 6), Some(20_000_000));
    assert_eq!(voucher_fee_checked(2, 9), Some(40_000_000_000));
    assert_eq!(voucher_fee_checked(0, 20), None);
    assert_eq!(voucher_fee_checked(61, 0), None);
    assert_eq!(voucher_fee_checked(50, 6), None);
}

#[test]
fn judge_reward_is_sixteen_per_hundred() {
    // (2^0 + 1) * 10 = 20, of which no whole hundred: nothing.
    assert_eq!(judge_reward(0), 0);
    // (2^4 + 1) * 10 = 170: one hundred.
    assert_eq!(judge_reward(4), 16);
    // (2^10 + 1) * 10 = 10250: 102 hundreds.
    assert_eq!(judge_reward(10), 1632);
}

#[test]
fn law_rewards_within_pool() {
    for appeal in 0u8..=LAST_PAYABLE_APPEAL {
        let pool = (checked_pow(2, appeal as u32).unwrap() + 1) * 10;
        assert!(5 * judge_reward(appeal) <= pool);
    }
}

#[test]
fn distribution_base() {
    assert_eq!(distribution_base_checked(3, 6), Some(3_000_000_000));
    assert_eq!(distribution_base_checked(0, 6), Some(0));
    assert_eq!(distribution_base_checked(1, 0), Some(1000));
    assert_eq!(distribution_base_checked(0, 20), None);
    assert_eq!(distribution_base_checked(u64::MAX, 0), None);
}
