use crate::event::ContractInitialized;
use crate::state::{CitizenshipApplication, Member, Pubkey, Treasury};
use vstd::prelude::*;

verus! {

/// The accounts of the instruction that sets the program up: the treasury,
/// and the member and application of the administrator, the first citizen.
pub struct InitializeContract {
    pub initializer: Pubkey,
    pub treasury: Treasury,
    pub member: Member,
    /// Address of the administrator's member account.
    pub member_key: Pubkey,
    pub citizenship_appl: CitizenshipApplication,
    pub treasury_bump: u8,
    pub member_bump: u8,
    pub citizenship_appl_bump: u8,
}

/// What the instruction leaves in its accounts.
pub open spec fn performed(pre: InitializeContract, post: InitializeContract) -> bool {
    &&& post.initializer == pre.initializer
    &&& post.member_key == pre.member_key
    &&& post.treasury_bump == pre.treasury_bump
    &&& post.member_bump == pre.member_bump
    &&& post.citizenship_appl_bump == pre.citizenship_appl_bump
    &&& post.treasury == (Treasury {
        bump: pre.treasury_bump,
        num_of_citizens: 1,
        distributions: 0,
        distribution_active: false,
    })
    &&& post.member.bump == pre.member_bump
    &&& post.member.member_creator == pre.initializer
    &&& post.member.citizen_name@ == "admin"@
    &&& post.member.bio_link@ == "admin"@
    &&& post.member.citizen
    &&& post.member.num_of_appeals == 0
    &&& !post.member.appeal_pending
    &&& post.member.citizen_index == Some(0u64)
    &&& post.citizenship_appl.bump == pre.citizenship_appl_bump
    &&& post.citizenship_appl.member == pre.member_key
    &&& post.citizenship_appl.voucher_member == pre.member_key
    &&& post.citizenship_appl.appl_id == pre.citizenship_appl.appl_id
    &&& post.citizenship_appl.video_link@ == "admin"@
    &&& post.citizenship_appl.other_verifying_links is None
    &&& post.citizenship_appl.fee_paid
    &&& post.citizenship_appl.voucher_fee_paid
    &&& post.citizenship_appl.appeal_number == 0
    &&& post.citizenship_appl.judges@ == Seq::<u64>::empty()
    &&& post.citizenship_appl.accept_vote == 0
    &&& post.citizenship_appl.reject_votes == 0
    &&& post.citizenship_appl.randomness_account is None
    &&& post.citizenship_appl.voting_started is None
}

/// Sets up the treasury with one citizen, the administrator, whose member
/// account and accepted application it fills in.
pub fn handler(ctx: &mut InitializeContract, initialize_message: String) -> (event: ContractInitialized)
    ensures
        performed(*old(ctx), *final(ctx)),
        event.message == initialize_message,
{
    ctx.treasury = Treasury {
        bump: ctx.treasury_bump,
        num_of_citizens: 1,
        distributions: 0,
        distribution_active: false,
    };

    ctx.member.bump = ctx.member_bump;
    ctx.member.member_creator = ctx.initializer;
    ctx.member.citizen_name = "admin".to_owned();
    ctx.member.bio_link = "admin".to_owned();
    ctx.member.citizen = true;
    ctx.member.num_of_appeals = 0;
    ctx.member.appeal_pending = false;
    ctx.member.citizen_index = Some(0);

    ctx.citizenship_appl.bump = ctx.citizenship_appl_bump;
    ctx.citizenship_appl.member = ctx.member_key;
    ctx.citizenship_appl.voucher_member = ctx.member_key;
    ctx.citizenship_appl.video_link = "admin".to_owned();
    ctx.citizenship_appl.other_verifying_links = None;
    ctx.citizenship_appl.fee_paid = true;
    ctx.citizenship_appl.appeal_number = ctx.member.num_of_appeals;
    ctx.citizenship_appl.voucher_fee_paid = true;
    ctx.citizenship_appl.judges = Vec::new();
    ctx.citizenship_appl.accept_vote = 0;
    ctx.citizenship_appl.reject_votes = 0;
    ctx.citizenship_appl.randomness_account = None;
    ctx.citizenship_appl.voting_started = None;

    ContractInitialized { message: initialize_message }
}

} // verus!
