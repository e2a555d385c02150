use crate::event::BioEdited;
use crate::state::{Member, Pubkey};
use vstd::prelude::*;

verus! {

/// The accounts of a bio edit: the signer and its member account.
pub struct EditBio {
    pub member_creator: Pubkey,
    pub member: Member,
    /// Address of the member account.
    pub member_key: Pubkey,
}

/// Replaces the member's bio link; nothing else changes.
pub fn handler(ctx: &mut EditBio, new_bio_link: String) -> (event: BioEdited)
    ensures
        final(ctx).member_creator == old(ctx).member_creator,
        final(ctx).member_key == old(ctx).member_key,
        final(ctx).member == (Member { bio_link: new_bio_link, ..old(ctx).member }),
        event == (BioEdited { member: old(ctx).member_key, new_bio_link }),
{
    ctx.member.bio_link = new_bio_link.clone();

    BioEdited { member: ctx.member_key, new_bio_link }
}

} // verus!
