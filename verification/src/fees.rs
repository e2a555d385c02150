//! The fees and payments of the program, with the arithmetic of `u64::pow`.
use crate::constants::{CITIZENSHIP_FEE, JUDGE_REWARD_PERCENT, NUM_OF_JUDGES, UBI_AMOUNT};
use vstd::arithmetic::power::{lemma_pow_increases, lemma_pow_positive, pow};
use vstd::arithmetic::power2::{lemma2_to64_rest, lemma_pow2};
use vstd::prelude::*;

verus! {

/// Fee that an applicant pays for the application with the given appeal
/// number: it doubles with every appeal.
pub open spec fn citizenship_fee_spec(appeal_number: u8) -> int {
    pow(2, appeal_number as nat) * CITIZENSHIP_FEE
}

/// Fee that the voucher pays, scaled to the token's decimals.
pub open spec fn voucher_fee_spec(appeal_number: u8, decimals: u8) -> int {
    pow(2, appeal_number as nat) * CITIZENSHIP_FEE * pow(10, decimals as nat)
}

/// The fees that the reward of the judges is computed from.
pub open spec fn judges_pool_spec(appeal_number: u8) -> int {
    (pow(2, appeal_number as nat) + 1) * CITIZENSHIP_FEE
}

/// Reward of one judge who voted with the majority: sixteen percent of the
/// pool, counted in whole hundredths.
pub open spec fn judge_reward_spec(appeal_number: u8) -> int {
    JUDGE_REWARD_PERCENT * (judges_pool_spec(appeal_number) / 100)
}

/// The amount that the treasury must hold per citizen for a full UBI
/// round, scaled to the token's decimals.
pub open spec fn distribution_base_spec(num_of_citizens: u64, decimals: u8) -> int {
    num_of_citizens * UBI_AMOUNT * pow(10, decimals as nat)
}

/// The last appeal number whose fees fit in a `u64`; beyond it, computing
/// them overflows.
pub const LAST_PAYABLE_APPEAL: u8 = 60;

/// Law: the applicant's fee and the judges' pool fit in a `u64` exactly up
/// to `LAST_PAYABLE_APPEAL`.
pub proof fn lemma_fees_fit_up_to_last_payable_appeal(appeal_number: u8)
    ensures
        citizenship_fee_spec(appeal_number) <= u64::MAX <==> appeal_number <= LAST_PAYABLE_APPEAL,
        judges_pool_spec(appeal_number) <= u64::MAX <==> appeal_number <= LAST_PAYABLE_APPEAL,
{
    lemma2_to64_rest();
    lemma_pow2(60);
    lemma_pow2(61);
    let a = appeal_number as nat;
    if a <= 60 {
        lemma_pow_increases(2, a, 60);
    } else {
        lemma_pow_increases(2, 61, a);
    }
}

/// `base` to the power `exp`, or `None` when that exceeds `u64::MAX` (as
/// `u64::checked_pow`).
pub fn checked_pow(base: u64, exp: u32) -> (power: Option<u64>)
    ensures
        power == (if pow(base as int, exp as nat) <= u64::MAX {
            Some(pow(base as int, exp as nat) as u64)
        } else {
            None
        }),
{
    proof {
        reveal(pow);
    }
    if base == 0 {
        proof {
            if exp > 0 {
                vstd::arithmetic::power::lemma0_pow(exp as nat);
            }
        }
        return if exp == 0 { Some(1) } else { Some(0) };
    }
    let mut power: u64 = 1;
    let mut i: u32 = 0;
    while i < exp
        invariant
            base > 0,
            i <= exp,
            power == pow(base as int, i as nat),
        decreases exp - i,
    {
        proof {
            reveal(pow);
            assert(pow(base as int, (i + 1) as nat) == base * pow(base as int, i as nat));
        }
        let ghost product = power * base;
        assert(product == pow(base as int, (i + 1) as nat)) by (nonlinear_arith)
            requires
                product == power * base,
                pow(base as int, (i + 1) as nat) == base * pow(base as int, i as nat),
                power == pow(base as int, i as nat),
        ;
        match power.checked_mul(base) {
            Some(next) => {
                power = next;
            },
            None => {
                proof {
                    lemma_pow_increases(base as nat, (i + 1) as nat, exp as nat);
                }
                return None;
            },
        }
        i = i + 1;
    }
    Some(power)
}

/// The citizenship fee of an application (`2^appeal_number * CITIZENSHIP_FEE`).
pub fn citizenship_fee(appeal_number: u8) -> (fee: u64)
    requires
        appeal_number <= LAST_PAYABLE_APPEAL,
    ensures
        fee == citizenship_fee_spec(appeal_number),
{
    proof {
        lemma_pow_positive(2, appeal_number as nat);
        lemma_fees_fit_up_to_last_payable_appeal(appeal_number);
    }
    let doubling = checked_pow(2, appeal_number as u32).unwrap();
    doubling * CITIZENSHIP_FEE
}

/// The reward of a judge who voted with the majority
/// (`16 * ((2^appeal_number + 1) * CITIZENSHIP_FEE / 100)`).
pub fn judge_reward(appeal_number: u8) -> (reward: u64)
    requires
        appeal_number <= LAST_PAYABLE_APPEAL,
    ensures
        reward == judge_reward_spec(appeal_number),
{
    proof {
        lemma_pow_positive(2, appeal_number as nat);
        lemma_fees_fit_up_to_last_payable_appeal(appeal_number);
    }
    let doubling = checked_pow(2, appeal_number as u32).unwrap();
    let pool = (doubling + 1) * CITIZENSHIP_FEE;
    JUDGE_REWARD_PERCENT * (pool / 100)
}

/// The voucher's fee, or `None` when computing it overflows.
pub fn voucher_fee_checked(appeal_number: u8, decimals: u8) -> (fee: Option<u64>)
    ensures
        fee == (if voucher_fee_spec(appeal_number, decimals) <= u64::MAX {
            Some(voucher_fee_spec(appeal_number, decimals) as u64)
        } else {
            None
        }),
{
    proof {
        lemma_pow_positive(2, appeal_number as nat);
        lemma_pow_positive(10, decimals as nat);
        let d = pow(2, appeal_number as nat);
        let t = pow(10, decimals as nat);
        assert(d <= d * 10 && d * 10 <= d * 10 * t && t <= d * 10 * t) by (nonlinear_arith)
            requires
                d >= 1,
                t >= 1,
        ;
    }
    let doubling = match checked_pow(2, appeal_number as u32) {
        Some(p) => p,
        None => {
            return None;
        },
    };
    let base = match doubling.checked_mul(CITIZENSHIP_FEE) {
        Some(b) => b,
        None => {
            return None;
        },
    };
    let scale = match checked_pow(10, decimals as u32) {
        Some(p) => p,
        None => {
            return None;
        },
    };
    base.checked_mul(scale)
}

/// The distribution base amount, or `None` when computing it overflows
/// (including `10^decimals` on its own).
pub fn distribution_base_checked(num_of_citizens: u64, decimals: u8) -> (base: Option<u64>)
    ensures
        base == (if pow(10, decimals as nat) <= u64::MAX && distribution_base_spec(num_of_citizens, decimals)
            <= u64::MAX {
            Some(distribution_base_spec(num_of_citizens, decimals) as u64)
        } else {
            None
        }),
{
    proof {
        lemma_pow_positive(10, decimals as nat);
        let c = num_of_citizens as int;
        let t = pow(10, decimals as nat);
        assert(c * 1000 <= c * 1000 * t) by (nonlinear_arith)
            requires
                c >= 0,
                t >= 1,
        ;
    }
    let scale = match checked_pow(10, decimals as u32) {
        Some(p) => p,
        None => {
            return None;
        },
    };
    let per_citizen = match num_of_citizens.checked_mul(UBI_AMOUNT) {
        Some(b) => b,
        None => {
            return None;
        },
    };
    per_citizen.checked_mul(scale)
}

/// The fees and payments are never negative.
pub proof fn lemma_fees_nonnegative(appeal_number: u8, decimals: u8)
    ensures
        citizenship_fee_spec(appeal_number) >= 0,
        voucher_fee_spec(appeal_number, decimals) >= 0,
        judges_pool_spec(appeal_number) >= 0,
        judge_reward_spec(appeal_number) >= 0,
{
    lemma_pow_positive(2, appeal_number as nat);
    lemma_pow_positive(10, decimals as nat);
    let d = pow(2, appeal_number as nat);
    let t = pow(10, decimals as nat);
    assert(d * 10 * t >= 0) by (nonlinear_arith)
        requires
            d >= 1,
            t >= 1,
    ;
}

/// Law: every further appeal doubles the citizenship fee.
pub proof fn lemma_fee_doubles_per_appeal(appeal_number: u8)
    requires
        appeal_number < 255,
    ensures
        citizenship_fee_spec((appeal_number + 1) as u8) == 2 * citizenship_fee_spec(appeal_number),
{
    reveal(pow);
    let next = (appeal_number + 1) as u8;
    assert(pow(2, next as nat) == 2 * pow(2, appeal_number as nat));
}

/// Law: the rewards of a full committee of judges never exceed the pool
/// they are paid from.
pub proof fn lemma_rewards_within_pool(appeal_number: u8)
    ensures
        0 <= NUM_OF_JUDGES * judge_reward_spec(appeal_number) <= judges_pool_spec(appeal_number),
{
    lemma_pow_positive(2, appeal_number as nat);
    let pool = judges_pool_spec(appeal_number);
    assert(5 * (16 * (pool / 100)) <= pool) by (nonlinear_arith)
        requires
            pool >= 0,
    ;
}

/// Law: the first application costs `CITIZENSHIP_FEE`; the voucher pays
/// the applicant's fee scaled to the token's decimals; the judges' pool is
/// the applicant's fee plus one `CITIZENSHIP_FEE`, and a judge's reward is
/// `JUDGE_REWARD_PERCENT` times the whole hundredths of that pool.
pub proof fn lemma_fee_schedule(appeal_number: u8, decimals: u8)
    ensures
        citizenship_fee_spec(0) == CITIZENSHIP_FEE,
        voucher_fee_spec(appeal_number, decimals) == citizenship_fee_spec(appeal_number) * pow(10, decimals as nat),
        judges_pool_spec(appeal_number) == citizenship_fee_spec(appeal_number) + CITIZENSHIP_FEE,
        judge_reward_spec(appeal_number) == JUDGE_REWARD_PERCENT * ((citizenship_fee_spec(appeal_number)
            + CITIZENSHIP_FEE) / 100),
{
    reveal(pow);
    let p = pow(2, appeal_number as nat);
    assert((p + 1) * 10 == p * 10 + 10) by (nonlinear_arith);
}

/// Law: the amount a UBI round needs grows in proportion to the number of
/// citizens: `UBI_AMOUNT` per citizen, scaled to the token's decimals.
pub proof fn lemma_distribution_base_per_citizen(num_of_citizens: u64, decimals: u8)
    ensures
        distribution_base_spec(num_of_citizens, decimals) == num_of_citizens * (UBI_AMOUNT * pow(10, decimals as nat)),
{
    let t = pow(10, decimals as nat);
    assert(num_of_citizens * 1000 * t == num_of_citizens * (1000 * t)) by (nonlinear_arith);
}

} // verus!
