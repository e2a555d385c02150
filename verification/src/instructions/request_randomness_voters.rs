use crate::constants::NUM_OF_JUDGES;
use crate::error::GraphOfHumanityErrors;
use crate::event::JudgeRandomnessRequested;
use crate::state::{is_zero_seed, CitizenshipApplication, Pubkey, Treasury};
use vstd::prelude::*;

verus! {

/// The accounts of a request for the randomness that picks the judges.
pub struct RequestRandomnessJudges {
    pub cranker: Pubkey,
    pub citizenship_appl: CitizenshipApplication,
    /// Address of the application.
    pub citizenship_appl_key: Pubkey,
    /// Address of the randomness request account of the VRF.
    pub randomness_account: Pubkey,
    pub treasury: Treasury,
}

/// Whether every byte of a seed is zero.
pub open spec fn zero_seed(force: [u8; 32]) -> bool {
    forall|k: int| 0 <= k < 32 ==> force@[k] == 0
}

/// Whether a list of judges is a complete committee: a full one, or every
/// citizen while there are fewer citizens than that.
pub open spec fn judges_complete(judges: nat, num_of_citizens: u64) -> bool {
    judges == NUM_OF_JUDGES || judges == num_of_citizens
}

/// The error with which the request is refused, if any.
pub open spec fn rejection(pre: RequestRandomnessJudges, force: [u8; 32]) -> Option<GraphOfHumanityErrors> {
    if !(pre.citizenship_appl.fee_paid && pre.citizenship_appl.voucher_fee_paid) {
        Some(GraphOfHumanityErrors::CanNotAssignJudgesBeforeFeePaid)
    } else if judges_complete(pre.citizenship_appl.judges@.len(), pre.treasury.num_of_citizens) {
        Some(GraphOfHumanityErrors::CitizenApplJudgesAlreadyAssigned)
    } else if pre.citizenship_appl.randomness_account is Some {
        Some(GraphOfHumanityErrors::RandomnessJudgeAlreadyRequested)
    } else if zero_seed(force) {
        Some(GraphOfHumanityErrors::NullSeedInvalidForVrf)
    } else {
        None
    }
}

/// What an accepted request leaves in its accounts: the application
/// remembers the VRF request account.
pub open spec fn performed(pre: RequestRandomnessJudges, post: RequestRandomnessJudges) -> bool {
    post == (RequestRandomnessJudges {
        citizenship_appl: CitizenshipApplication {
            randomness_account: Some(pre.randomness_account),
            ..pre.citizenship_appl
        },
        ..pre
    })
}

/// Records the VRF request account on a fully paid application whose
/// committee is not complete and that has no request pending. The request itself is made by the caller.
pub fn handler(ctx: &mut RequestRandomnessJudges, force: [u8; 32]) -> (res: Result<JudgeRandomnessRequested, GraphOfHumanityErrors>)
    ensures
        match res {
            Ok(event) => {
                &&& rejection(*old(ctx), force) is None
                &&& performed(*old(ctx), *final(ctx))
                &&& event == (JudgeRandomnessRequested { citizenship_appl: old(ctx).citizenship_appl_key })
            },
            Err(e) => rejection(*old(ctx), force) == Some(e) && *final(ctx) == *old(ctx),
        },
{
    if !(ctx.citizenship_appl.fee_paid && ctx.citizenship_appl.voucher_fee_paid) {
        return Err(GraphOfHumanityErrors::CanNotAssignJudgesBeforeFeePaid);
    }
    let judges = ctx.citizenship_appl.judges.len() as u64;
    if judges == NUM_OF_JUDGES || judges == ctx.treasury.num_of_citizens {
        return Err(GraphOfHumanityErrors::CitizenApplJudgesAlreadyAssigned);
    }
    if ctx.citizenship_appl.randomness_account.is_some() {
        return Err(GraphOfHumanityErrors::RandomnessJudgeAlreadyRequested);
    }
    if is_zero_seed(&force) {
        return Err(GraphOfHumanityErrors::NullSeedInvalidForVrf);
    }

    ctx.citizenship_appl.randomness_account = Some(ctx.randomness_account);

    Ok(JudgeRandomnessRequested { citizenship_appl: ctx.citizenship_appl_key })
}

} // verus!
