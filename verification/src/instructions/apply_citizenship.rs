use crate::error::GraphOfHumanityErrors;
use crate::event::CitizenshipApplied;
use crate::state::{CitizenshipApplication, Member, Pubkey};
use vstd::prelude::*;

verus! {

/// The accounts of an application: the applicant, the member named as
/// voucher, the applicant's member account and the new application.
pub struct ApplyCitizenship {
    pub member_creator: Pubkey,
    pub member_voucher: Pubkey,
    pub member: Member,
    /// Address of the applicant's member account.
    pub member_key: Pubkey,
    pub citizenship_appl: CitizenshipApplication,
    /// Address of the new application.
    pub citizenship_appl_key: Pubkey,
    pub citizenship_appl_bump: u8,
}

/// The error with which an application is refused, if any.
pub open spec fn rejection(pre: ApplyCitizenship) -> Option<GraphOfHumanityErrors> {
    if pre.member.appeal_pending {
        Some(GraphOfHumanityErrors::CitizenshipApplicationPending)
    } else {
        None
    }
}

/// What an accepted application leaves in its accounts and announces: the
/// member's appeal counter grows and an application is pending.
pub open spec fn performed(
    pre: ApplyCitizenship,
    post: ApplyCitizenship,
    citizenship_id: String,
    video_link: String,
    other_verifying_links: Option<String>,
    event: CitizenshipApplied,
) -> bool {
    &&& post.member_creator == pre.member_creator
    &&& post.member_voucher == pre.member_voucher
    &&& post.member_key == pre.member_key
    &&& post.citizenship_appl_key == pre.citizenship_appl_key
    &&& post.citizenship_appl_bump == pre.citizenship_appl_bump
    &&& post.member == (Member {
        num_of_appeals: (pre.member.num_of_appeals + 1) as u8,
        appeal_pending: true,
        ..pre.member
    })
    &&& post.citizenship_appl == (CitizenshipApplication {
        bump: pre.citizenship_appl_bump,
        member: pre.member_key,
        voucher_member: pre.member_voucher,
        appl_id: citizenship_id,
        video_link,
        other_verifying_links,
        fee_paid: false,
        voucher_fee_paid: false,
        appeal_number: pre.member.num_of_appeals,
        ..pre.citizenship_appl
    })
    &&& event == (CitizenshipApplied {
        member: pre.member_key,
        voucher_member: pre.member_voucher,
        video_link,
        other_verifying_links,
        appeal_number: pre.member.num_of_appeals,
    })
}

/// Whether the instruction aborts on an arithmetic overflow: the appeal
/// counter of a member with 255 applications cannot grow.
pub open spec fn aborts(pre: ApplyCitizenship) -> bool {
    !pre.member.appeal_pending && pre.member.num_of_appeals == 255
}

/// Tests `aborts`, for callers that must refuse such input beforehand.
pub fn would_abort(ctx: &ApplyCitizenship) -> (abort: bool)
    ensures
        abort == aborts(*ctx),
{
    !ctx.member.appeal_pending && ctx.member.num_of_appeals == 255
}

/// A copy of an optional text.
pub fn copy_optional_text(text: &Option<String>) -> (copy: Option<String>)
    ensures
        copy == *text,
{
    match text {
        Some(t) => Some(t.clone()),
        None => None,
    }
}

/// Files a citizenship application of the member, vouched for by
/// `member_voucher`, under the member's next appeal number. The application
/// stays pending, and blocks another one, until its vote is counted.
pub fn handler(
    ctx: &mut ApplyCitizenship,
    citizenship_id: String,
    video_link: String,
    other_verifying_links: Option<String>,
) -> (res: Result<CitizenshipApplied, GraphOfHumanityErrors>)
    requires
        !aborts(*old(ctx)),
    ensures
        match res {
            Ok(event) => rejection(*old(ctx)) is None && performed(
                *old(ctx),
                *final(ctx),
                citizenship_id,
                video_link,
                other_verifying_links,
                event,
            ),
            Err(e) => rejection(*old(ctx)) == Some(e) && *final(ctx) == *old(ctx),
        },
{
    if ctx.member.appeal_pending {
        return Err(GraphOfHumanityErrors::CitizenshipApplicationPending);
    }

    ctx.citizenship_appl.bump = ctx.citizenship_appl_bump;
    ctx.citizenship_appl.member = ctx.member_key;
    ctx.citizenship_appl.voucher_member = ctx.member_voucher;
    ctx.citizenship_appl.appl_id = citizenship_id;
    ctx.citizenship_appl.video_link = video_link.clone();
    ctx.citizenship_appl.other_verifying_links = copy_optional_text(&other_verifying_links);
    ctx.citizenship_appl.fee_paid = false;
    ctx.citizenship_appl.voucher_fee_paid = false;
    ctx.citizenship_appl.appeal_number = ctx.member.num_of_appeals;

    ctx.member.num_of_appeals = ctx.member.num_of_appeals + 1;
    ctx.member.appeal_pending = true;

    Ok(CitizenshipApplied {
        member: ctx.member_key,
        voucher_member: ctx.member_voucher,
        video_link,
        other_verifying_links,
        appeal_number: ctx.member.num_of_appeals - 1,
    })
}

} // verus!
