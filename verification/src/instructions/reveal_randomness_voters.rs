use crate::constants::NUM_OF_JUDGES;
use crate::error::GraphOfHumanityErrors;
use crate::event::JudgeRandomnessRevealed;
use crate::selection::{copy_indices, select_indices, selection};
use crate::instructions::request_randomness_voters::judges_complete;
use crate::state::{same_key, CitizenshipApplication, Member, Pubkey, Treasury};
use vstd::prelude::*;

verus! {

/// The accounts of the draw of the judges from revealed randomness.
pub struct RevealRandomnessJudges {
    pub cranker: Pubkey,
    pub cranker_member: Member,
    pub citizenship_appl: CitizenshipApplication,
    /// Address of the application.
    pub citizenship_appl_key: Pubkey,
    /// Address of the account that holds the revealed randomness.
    pub randomness_account_data: Pubkey,
    pub treasury: Treasury,
}

/// The checks that come before the stored request account is compared.
pub open spec fn early_rejection(pre: RevealRandomnessJudges) -> Option<GraphOfHumanityErrors> {
    if !pre.cranker_member.citizen {
        Some(GraphOfHumanityErrors::CanNotUseCrankAsANonCitizen)
    } else if !(pre.citizenship_appl.fee_paid && pre.citizenship_appl.voucher_fee_paid) {
        Some(GraphOfHumanityErrors::CanNotAssignJudgesBeforeFeePaid)
    } else if judges_complete(pre.citizenship_appl.judges@.len(), pre.treasury.num_of_citizens) {
        Some(GraphOfHumanityErrors::CitizenApplJudgesAlreadyAssigned)
    } else {
        None
    }
}

/// The error with which the draw is refused, if any: only the crank of a
/// citizen draws, for a fully paid application whose committee is not yet
/// complete, from the request account that the application stored.
pub open spec fn rejection(pre: RevealRandomnessJudges) -> Option<GraphOfHumanityErrors> {
    if early_rejection(pre) is Some {
        early_rejection(pre)
    } else if pre.citizenship_appl.randomness_account != Some(pre.randomness_account_data) {
        Some(GraphOfHumanityErrors::JudgeRandomnessNotStoredHere)
    } else {
        None
    }
}

/// The checks of the instruction, in order: the error it refuses with, if
/// any. The caller reads the revealed value only when this passes.
pub fn check(ctx: &RevealRandomnessJudges) -> (refused: Option<GraphOfHumanityErrors>)
    ensures
        refused == rejection(*ctx),
{
    if !ctx.cranker_member.citizen {
        return Some(GraphOfHumanityErrors::CanNotUseCrankAsANonCitizen);
    }
    if !(ctx.citizenship_appl.fee_paid && ctx.citizenship_appl.voucher_fee_paid) {
        return Some(GraphOfHumanityErrors::CanNotAssignJudgesBeforeFeePaid);
    }
    let assigned = ctx.citizenship_appl.judges.len() as u64;
    if assigned == NUM_OF_JUDGES || assigned == ctx.treasury.num_of_citizens {
        return Some(GraphOfHumanityErrors::CitizenApplJudgesAlreadyAssigned);
    }
    match ctx.citizenship_appl.randomness_account {
        Some(stored) => if same_key(&ctx.randomness_account_data, &stored) {
            None
        } else {
            Some(GraphOfHumanityErrors::JudgeRandomnessNotStoredHere)
        },
        None => Some(GraphOfHumanityErrors::JudgeRandomnessNotStoredHere),
    }
}

/// What an accepted draw leaves in its accounts.
pub open spec fn performed(
    pre: RevealRandomnessJudges,
    post: RevealRandomnessJudges,
    revealed: Option<[u8; 32]>,
    now: i64,
) -> bool {
    let judges = selection(pre.citizenship_appl.judges@, revealed, pre.treasury.num_of_citizens, NUM_OF_JUDGES);
    &&& post.cranker == pre.cranker
    &&& post.cranker_member == pre.cranker_member
    &&& post.citizenship_appl_key == pre.citizenship_appl_key
    &&& post.randomness_account_data == pre.randomness_account_data
    &&& post.treasury == pre.treasury
    &&& post.citizenship_appl.judges@ == judges
    &&& post.citizenship_appl == (CitizenshipApplication {
        judges: post.citizenship_appl.judges,
        randomness_account: None,
        voting_started: if judges_complete(judges.len(), pre.treasury.num_of_citizens) {
            Some(now)
        } else {
            pre.citizenship_appl.voting_started
        },
        ..pre.citizenship_appl
    })
}

/// Draws the judges of an application from the revealed random value
/// (`None` when the value could not be read), clears the stored request and
/// opens the vote at `now` once the committee is complete.
pub fn handler(ctx: &mut RevealRandomnessJudges, revealed: Option<[u8; 32]>, now: i64) -> (res: Result<JudgeRandomnessRevealed, GraphOfHumanityErrors>)
    ensures
        match res {
            Ok(event) => {
                &&& rejection(*old(ctx)) is None
                &&& performed(*old(ctx), *final(ctx), revealed, now)
                &&& event.citizenship_appl == old(ctx).citizenship_appl_key
                &&& event.choosen_judges@ == final(ctx).citizenship_appl.judges@
            },
            Err(e) => rejection(*old(ctx)) == Some(e) && *final(ctx) == *old(ctx),
        },
{
    if let Some(refused) = check(ctx) {
        return Err(refused);
    }

    let citizens = ctx.treasury.num_of_citizens;
    ctx.citizenship_appl.randomness_account = None;
    let existing = copy_indices(&ctx.citizenship_appl.judges);
    ctx.citizenship_appl.judges = select_indices(existing, revealed, citizens, NUM_OF_JUDGES);

    let drawn = ctx.citizenship_appl.judges.len() as u64;
    if drawn == NUM_OF_JUDGES || drawn == citizens {
        ctx.citizenship_appl.voting_started = Some(now);
    }

    Ok(JudgeRandomnessRevealed {
        citizenship_appl: ctx.citizenship_appl_key,
        choosen_judges: copy_indices(&ctx.citizenship_appl.judges),
    })
}

} // verus!
