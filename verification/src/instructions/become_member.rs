use crate::event::MemberRegistered;
use crate::state::{Member, Pubkey};
use vstd::prelude::*;

verus! {

/// The accounts of a registration: the signer and its new member account.
pub struct BecomeMember {
    pub member_creator: Pubkey,
    pub member: Member,
    pub member_bump: u8,
}

/// The member account that a registration writes.
pub open spec fn registered_member(creator: Pubkey, bump: u8, citizen_name: String, bio_link: String) -> Member {
    Member {
        bump,
        member_creator: creator,
        citizen_name,
        bio_link,
        citizen: false,
        num_of_appeals: 0,
        appeal_pending: false,
        citizen_index: None,
    }
}

/// Registers the signer as a member who is not (yet) a citizen.
pub fn handler(ctx: &mut BecomeMember, citizen_name: String, bio_link: String) -> (event: MemberRegistered)
    ensures
        final(ctx).member_creator == old(ctx).member_creator,
        final(ctx).member_bump == old(ctx).member_bump,
        final(ctx).member == registered_member(old(ctx).member_creator, old(ctx).member_bump, citizen_name, bio_link),
        event == (MemberRegistered { member_creator: old(ctx).member_creator, citizen_name, bio_link }),
{
    ctx.member.bump = ctx.member_bump;
    ctx.member.member_creator = ctx.member_creator;
    ctx.member.citizen_name = citizen_name.clone();
    ctx.member.bio_link = bio_link.clone();
    ctx.member.citizen = false;
    ctx.member.num_of_appeals = 0;
    ctx.member.appeal_pending = false;
    ctx.member.citizen_index = None;

    MemberRegistered { member_creator: ctx.member_creator, citizen_name, bio_link }
}

} // verus!
