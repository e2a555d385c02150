use vstd::prelude::*;

verus! {

/// Base fee, in token units, of a first citizenship application.
pub const CITIZENSHIP_FEE: u64 = 10;

/// Size of the committee of judges drawn for an application.
pub const NUM_OF_JUDGES: u64 = 5;

/// Number of citizens drawn into one UBI randomness account.
/// Each draw consumes six bytes of a 32-byte random value, so at most
/// five draws fit into one value.
pub const UBI_USERS_PER_ACC: u64 = 5;

/// Amount paid to each UBI recipient.
pub const UBI_AMOUNT: u64 = 1000;

/// Share, in percent, of the fees that each judge on the winning side receives.
pub const JUDGE_REWARD_PERCENT: u64 = 16;

pub const MINUTE: i64 = 60;

pub const HOUR: i64 = 60 * MINUTE;

pub const DAY: i64 = 24 * HOUR;

pub const WEEK: i64 = 7 * DAY;

pub const TWO_WEEKS: i64 = 2 * WEEK;

pub const MONTH: i64 = 30 * DAY;

} // verus!
