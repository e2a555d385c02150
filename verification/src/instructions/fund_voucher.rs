use crate::error::GraphOfHumanityErrors;
use crate::event::CitizenshipVoucherFeeApplied;
use crate::fees::{lemma_fees_nonnegative, voucher_fee_checked, voucher_fee_spec};
use crate::state::{same_key, CitizenshipApplication, Member, Pubkey};
use vstd::prelude::*;

verus! {

/// The accounts of the payment of a voucher's fee.
pub struct FundVoucher {
    pub member_voucher: Pubkey,
    pub member_voucher_account: Member,
    pub citizenship_appl: CitizenshipApplication,
    /// Address of the application.
    pub citizenship_appl_key: Pubkey,
    /// Decimals of the payment token.
    pub usdc_decimals: u8,
}

/// The error with which the payment is refused, if any.
pub open spec fn rejection(pre: FundVoucher) -> Option<GraphOfHumanityErrors> {
    if !pre.member_voucher_account.citizen {
        Some(GraphOfHumanityErrors::NonMemberCantVouch)
    } else if pre.citizenship_appl.voucher_member != pre.member_voucher {
        Some(GraphOfHumanityErrors::CanNotFullfillSomebodyElseVoucher)
    } else if pre.citizenship_appl.voucher_fee_paid {
        Some(GraphOfHumanityErrors::CitizenshipVoucherAlreadyFunded)
    } else {
        None
    }
}

/// The checks of the instruction, in order: the error it refuses with, if any.
pub fn check(ctx: &FundVoucher) -> (refused: Option<GraphOfHumanityErrors>)
    ensures
        refused == rejection(*ctx),
{
    if !ctx.member_voucher_account.citizen {
        Some(GraphOfHumanityErrors::NonMemberCantVouch)
    } else if !same_key(&ctx.citizenship_appl.voucher_member, &ctx.member_voucher) {
        Some(GraphOfHumanityErrors::CanNotFullfillSomebodyElseVoucher)
    } else if ctx.citizenship_appl.voucher_fee_paid {
        Some(GraphOfHumanityErrors::CitizenshipVoucherAlreadyFunded)
    } else {
        None
    }
}

/// Whether the instruction aborts on an arithmetic overflow: the checks pass
/// but the voucher's fee does not fit in a `u64`.
pub open spec fn aborts(pre: FundVoucher) -> bool {
    rejection(pre) is None && voucher_fee_spec(pre.citizenship_appl.appeal_number, pre.usdc_decimals) > u64::MAX
}

/// Tests `aborts`, for callers that must refuse such input beforehand.
pub fn would_abort(ctx: &FundVoucher) -> (abort: bool)
    ensures
        abort == aborts(*ctx),
{
    check(ctx).is_none() && voucher_fee_checked(ctx.citizenship_appl.appeal_number, ctx.usdc_decimals).is_none()
}

/// What an accepted payment leaves in its accounts: the voucher's fee is paid.
pub open spec fn performed(pre: FundVoucher, post: FundVoucher) -> bool {
    post == (FundVoucher {
        citizenship_appl: CitizenshipApplication { voucher_fee_paid: true, ..pre.citizenship_appl },
        ..pre
    })
}

/// Marks the voucher's fee as paid and returns the fee to transfer from the
/// voucher to the treasury: `2^appeal_number * CITIZENSHIP_FEE * 10^decimals`.
/// Only a citizen named as the application's voucher pays, and only once.
pub fn handler(ctx: &mut FundVoucher) -> (res: Result<(CitizenshipVoucherFeeApplied, u64), GraphOfHumanityErrors>)
    requires
        !aborts(*old(ctx)),
    ensures
        match res {
            Ok((event, fee)) => {
                &&& rejection(*old(ctx)) is None
                &&& performed(*old(ctx), *final(ctx))
                &&& event == (CitizenshipVoucherFeeApplied { citizenship_appl: old(ctx).citizenship_appl_key })
                &&& fee == voucher_fee_spec(old(ctx).citizenship_appl.appeal_number, old(ctx).usdc_decimals)
            },
            Err(e) => rejection(*old(ctx)) == Some(e) && *final(ctx) == *old(ctx),
        },
{
    if let Some(refused) = check(ctx) {
        return Err(refused);
    }

    proof {
        lemma_fees_nonnegative(ctx.citizenship_appl.appeal_number, ctx.usdc_decimals);
    }
    let fee = voucher_fee_checked(ctx.citizenship_appl.appeal_number, ctx.usdc_decimals).unwrap();

    ctx.citizenship_appl.voucher_fee_paid = true;

    Ok((CitizenshipVoucherFeeApplied { citizenship_appl: ctx.citizenship_appl_key }, fee))
}

} // verus!
