use crate::error::GraphOfHumanityErrors;
use crate::event::CitizenshipFeePaid;
use crate::fees::{citizenship_fee, citizenship_fee_spec, LAST_PAYABLE_APPEAL};
use crate::state::{CitizenshipApplication, Member, Pubkey};
use vstd::prelude::*;

verus! {

/// The accounts of the payment of an applicant's fee.
pub struct FundCitizenshipAppl {
    pub member_creator: Pubkey,
    pub member: Member,
    pub citizenship_appl: CitizenshipApplication,
    /// Address of the application.
    pub citizenship_appl_key: Pubkey,
}

/// The error with which the payment is refused, if any: the fee is paid once.
pub open spec fn rejection(pre: FundCitizenshipAppl) -> Option<GraphOfHumanityErrors> {
    if pre.citizenship_appl.fee_paid {
        Some(GraphOfHumanityErrors::CitizenshipApplAlreadyFunded)
    } else {
        None
    }
}

/// What an accepted payment leaves in its accounts: the fee is paid.
pub open spec fn performed(pre: FundCitizenshipAppl, post: FundCitizenshipAppl) -> bool {
    post == (FundCitizenshipAppl {
        citizenship_appl: CitizenshipApplication { fee_paid: true, ..pre.citizenship_appl },
        ..pre
    })
}

/// Whether the instruction aborts on an arithmetic overflow: the fee of an
/// appeal beyond `LAST_PAYABLE_APPEAL` does not fit in a `u64`.
pub open spec fn aborts(pre: FundCitizenshipAppl) -> bool {
    rejection(pre) is None && pre.citizenship_appl.appeal_number > LAST_PAYABLE_APPEAL
}

/// Tests `aborts`, for callers that must refuse such input beforehand.
pub fn would_abort(ctx: &FundCitizenshipAppl) -> (abort: bool)
    ensures
        abort == aborts(*ctx),
{
    !ctx.citizenship_appl.fee_paid && ctx.citizenship_appl.appeal_number > LAST_PAYABLE_APPEAL
}

/// Marks the application's fee as paid and returns the fee to transfer from
/// the applicant to the treasury: `2^appeal_number * CITIZENSHIP_FEE`. An
/// application whose fee is paid is refused.
pub fn handler(ctx: &mut FundCitizenshipAppl) -> (res: Result<(CitizenshipFeePaid, u64), GraphOfHumanityErrors>)
    requires
        !aborts(*old(ctx)),
    ensures
        match res {
            Ok((event, fee)) => {
                &&& rejection(*old(ctx)) is None
                &&& performed(*old(ctx), *final(ctx))
                &&& event == (CitizenshipFeePaid { citizenship_appl: old(ctx).citizenship_appl_key })
                &&& fee == citizenship_fee_spec(old(ctx).citizenship_appl.appeal_number)
            },
            Err(e) => rejection(*old(ctx)) == Some(e) && *final(ctx) == *old(ctx),
        },
{
    if ctx.citizenship_appl.fee_paid {
        return Err(GraphOfHumanityErrors::CitizenshipApplAlreadyFunded);
    }

    let fee = citizenship_fee(ctx.citizenship_appl.appeal_number);

    ctx.citizenship_appl.fee_paid = true;

    Ok((CitizenshipFeePaid { citizenship_appl: ctx.citizenship_appl_key }, fee))
}

} // verus!
