use crate::state::Pubkey;
use vstd::prelude::*;

verus! {

#[derive(Debug, Clone, PartialEq, Eq)]
pub struct MemberRegistered {
    pub member_creator: Pubkey,
    pub citizen_name: String,
    pub bio_link: String,
}

#[derive(Debug, Clone, PartialEq, Eq)]
pub struct UserEdited {
    pub member: Pubkey,
    pub new_bio_link: String,
    pub new_username: String,
}

#[derive(Debug, Clone, PartialEq, Eq)]
pub struct UsernameEdited {
    pub member: Pubkey,
    pub new_username: String,
}

#[derive(Debug, Clone, PartialEq, Eq)]
pub struct BioEdited {
    pub member: Pubkey,
    pub new_bio_link: String,
}

#[derive(Debug, Clone, PartialEq, Eq)]
pub struct CitizenshipApplied {
    pub member: Pubkey,
    pub voucher_member: Pubkey,
    pub video_link: String,
    pub other_verifying_links: Option<String>,
    pub appeal_number: u8,
}

#[derive(Debug, Clone, Copy, PartialEq, Eq)]
pub struct CitizenshipFeePaid {
    pub citizenship_appl: Pubkey,
}

#[derive(Debug, Clone, Copy, PartialEq, Eq)]
pub struct CitizenshipVoucherFeeApplied {
    pub citizenship_appl: Pubkey,
}

#[derive(Debug, Clone, PartialEq, Eq)]
pub struct ContractInitialized {
    pub message: String,
}

#[derive(Debug, Clone, Copy, PartialEq, Eq)]
pub struct JudgeRandomnessRequested {
    pub citizenship_appl: Pubkey,
}

#[derive(Debug, Clone, PartialEq, Eq)]
pub struct JudgeRandomnessRevealed {
    pub citizenship_appl: Pubkey,
    pub choosen_judges: Vec<u64>,
}

#[derive(Debug, Clone, PartialEq, Eq)]
pub struct CommitteeVoted {
    pub citizenship_appl: Pubkey,
    pub voter: Pubkey,
    pub accept: bool,
    pub reason: Option<String>,
}

#[derive(Debug, Clone, Copy, PartialEq, Eq)]
pub struct CitizenshipResultDeclared {
    pub citizenship_appl: Pubkey,
    pub accepted: bool,
}

#[derive(Debug, Clone, Copy, PartialEq, Eq)]
pub struct RewardClaimed {
    pub citizenship_appl: Pubkey,
    pub voter: Pubkey,
}

#[derive(Debug, Clone, Copy, PartialEq, Eq)]
pub struct UBIDistributed {
    pub account: Pubkey,
}

#[derive(Debug, Clone, Copy, PartialEq, Eq)]
pub struct MoneyDonated {
    pub doner: Pubkey,
    pub amount: u64,
}

#[derive(Debug, Clone, PartialEq, Eq)]
pub struct UBISelection {
    pub accounts: Vec<u64>,
}

#[derive(Debug, Clone, Copy, PartialEq, Eq)]
pub struct DistributionEpochStarted {
    pub num_of_users_to_distribute: u64,
    pub started: i64,
}

} // verus!
