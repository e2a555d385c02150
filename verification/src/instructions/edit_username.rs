use crate::event::UsernameEdited;
use crate::state::{Member, Pubkey};
use vstd::prelude::*;

verus! {

/// The accounts of a name edit: the signer and its member account.
pub struct EditUsername {
    pub member_creator: Pubkey,
    pub member: Member,
    /// Address of the member account.
    pub member_key: Pubkey,
}

/// Replaces the member's name; nothing else changes.
pub fn handler(ctx: &mut EditUsername, new_username: String) -> (event: UsernameEdited)
    ensures
        final(ctx).member_creator == old(ctx).member_creator,
        final(ctx).member_key == old(ctx).member_key,
        final(ctx).member == (Member { citizen_name: new_username, ..old(ctx).member }),
        event == (UsernameEdited { member: old(ctx).member_key, new_username }),
{
    ctx.member.citizen_name = new_username.clone();

    UsernameEdited { member: ctx.member_key, new_username }
}

} // verus!
