use crate::event::UserEdited;
use crate::state::{Member, Pubkey};
use vstd::prelude::*;

verus! {

/// The accounts of a profile edit: the signer and its member account.
pub struct EditUser {
    pub member_creator: Pubkey,
    pub member: Member,
    /// Address of the member account.
    pub member_key: Pubkey,
}

/// Replaces the member's bio link and name; nothing else changes.
pub fn handler(ctx: &mut EditUser, new_bio_link: String, new_username: String) -> (event: UserEdited)
    ensures
        final(ctx).member_creator == old(ctx).member_creator,
        final(ctx).member_key == old(ctx).member_key,
        final(ctx).member == (Member {
            bio_link: new_bio_link,
            citizen_name: new_username,
            ..old(ctx).member
        }),
        event == (UserEdited { member: old(ctx).member_key, new_bio_link, new_username }),
{
    ctx.member.bio_link = new_bio_link.clone();
    ctx.member.citizen_name = new_username.clone();

    UserEdited { member: ctx.member_key, new_bio_link, new_username }
}

} // verus!
