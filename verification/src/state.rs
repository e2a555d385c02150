use vstd::prelude::*;

verus! {

/// The 32-byte address of an account.
pub type Pubkey = [u8; 32];

/// A registered member; a citizen once an application was accepted.
#[derive(Debug, Clone, PartialEq, Eq)]
pub struct Member {
    pub bump: u8,
    pub member_creator: Pubkey,
    pub citizen_name: String,
    pub bio_link: String,
    pub citizen: bool,
    pub num_of_appeals: u8,
    pub appeal_pending: bool,
    /// Position of the member among the citizens, once a citizen.
    pub citizen_index: Option<u64>,
}

/// The program's treasury: the citizen count and the UBI epochs.
#[derive(Debug, Clone, Copy, PartialEq, Eq)]
pub struct Treasury {
    pub bump: u8,
    pub num_of_citizens: u64,
    pub distributions: u64,
    pub distribution_active: bool,
}

/// One application of a member for citizenship.
#[derive(Debug, Clone, PartialEq, Eq)]
pub struct CitizenshipApplication {
    pub bump: u8,
    pub member: Pubkey,
    pub voucher_member: Pubkey,
    pub appl_id: String,
    pub video_link: String,
    pub other_verifying_links: Option<String>,
    pub fee_paid: bool,
    pub voucher_fee_paid: bool,
    pub appeal_number: u8,
    /// Citizen indices of the judges drawn for this application.
    pub judges: Vec<u64>,
    pub accept_vote: u8,
    pub reject_votes: u8,
    pub randomness_account: Option<Pubkey>,
    pub voting_started: Option<i64>,
}

/// The vote of one judge on one application.
#[derive(Debug, Clone, Copy, PartialEq, Eq)]
pub struct CommitteeVotes {
    pub bump: u8,
    pub voter: Pubkey,
    pub citizenship_appl: Pubkey,
    pub accept: bool,
    pub claimed: bool,
}

/// One round of UBI payments.
#[derive(Debug, Clone, Copy, PartialEq, Eq)]
pub struct DistributionEpoch {
    pub bump: u8,
    pub num_of_users_to_distribute: u64,
    pub num_of_users_distributed: u64,
    pub distribution_max_user_ind: u64,
}

/// Citizen indices drawn for UBI in an epoch from one random value.
#[derive(Debug, Clone, PartialEq, Eq)]
pub struct UBIRandomnessAccount {
    pub bump: u8,
    pub epoch: Pubkey,
    pub randomness_account: Pubkey,
    pub accounts: Vec<u64>,
}

/// Marker account whose existence records a UBI claim of a citizen in an epoch.
#[derive(Debug, Clone, Copy, PartialEq, Eq)]
pub struct ClaimHashMap {}

/// Whether two addresses are the same.
pub fn same_key(a: &Pubkey, b: &Pubkey) -> (same: bool)
    ensures
        same == (*a == *b),
{
    let mut i: usize = 0;
    while i < 32
        invariant
            i <= 32,
            forall|k: int| 0 <= k < i ==> a@[k] == b@[k],
        decreases 32 - i,
    {
        if a[i] != b[i] {
            return false;
        }
        i = i + 1;
    }
    assert(*a =~= *b);
    true
}

/// Whether every byte of `seed` is zero.
pub fn is_zero_seed(seed: &[u8; 32]) -> (zero: bool)
    ensures
        zero == (forall|k: int| 0 <= k < 32 ==> seed@[k] == 0),
{
    let mut i: usize = 0;
    while i < 32
        invariant
            i <= 32,
            forall|k: int| 0 <= k < i ==> seed@[k] == 0,
        decreases 32 - i,
    {
        if seed[i] != 0 {
            return false;
        }
        i = i + 1;
    }
    true
}

} // verus!
