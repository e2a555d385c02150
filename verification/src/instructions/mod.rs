pub mod apply_citizenship;
pub mod become_member;
pub mod edit_bio;
pub mod edit_user;
pub mod edit_username;
pub mod initialize;
pub mod fund_citizenship_appl;
pub mod fund_voucher;
pub mod request_randomness_voters;
pub mod reveal_randomness_voters;
pub mod vote;
pub mod check_result;
pub mod claim_reward;
pub mod claim_ubi;
pub mod donate_money;
pub mod start_distribution_epoch;
pub mod request_ubi_randomness;
pub mod reveal_ubi_randomness;
