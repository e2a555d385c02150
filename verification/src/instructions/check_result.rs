use crate::constants::{DAY, NUM_OF_JUDGES};
use crate::error::GraphOfHumanityErrors;
use crate::event::CitizenshipResultDeclared;
use crate::state::{CitizenshipApplication, Member, Pubkey, Treasury};
use vstd::prelude::*;

verus! {

/// The accounts of the count of an application's votes.
pub struct CheckVoteResult {
    pub cranker: Pubkey,
    /// The applicant's member account.
    pub member: Member,
    pub member_citizenship_appl: CitizenshipApplication,
    /// Address of the application.
    pub member_citizenship_appl_key: Pubkey,
    pub treasury: Treasury,
}

/// Accepting votes needed: a majority of a full committee, or every citizen
/// while there are fewer citizens than that.
pub open spec fn acceptance_threshold(num_of_citizens: u64) -> int {
    if num_of_citizens < NUM_OF_JUDGES / 2 + 1 {
        num_of_citizens as int
    } else {
        NUM_OF_JUDGES / 2 + 1
    }
}

/// The checks that come before the length of the vote is computed.
pub open spec fn early_rejection(pre: CheckVoteResult) -> Option<GraphOfHumanityErrors> {
    if pre.member.citizen {
        Some(GraphOfHumanityErrors::DontReapplyForCitizenWhenAlreadyOne)
    } else if pre.member_citizenship_appl.voting_started is None {
        Some(GraphOfHumanityErrors::VotingNotStarted)
    } else {
        None
    }
}

/// The error with which the count is refused, if any: the vote must have
/// run for more than a day.
pub open spec fn rejection(pre: CheckVoteResult, now: i64) -> Option<GraphOfHumanityErrors> {
    if early_rejection(pre) is Some {
        early_rejection(pre)
    } else if !(now - pre.member_citizenship_appl.voting_started.unwrap() > DAY) {
        Some(GraphOfHumanityErrors::VotingStillOngoing)
    } else {
        None
    }
}

/// Whether the application gathered enough accepting votes.
pub open spec fn accepted(pre: CheckVoteResult) -> bool {
    pre.member_citizenship_appl.accept_vote >= acceptance_threshold(pre.treasury.num_of_citizens)
}

/// Whether the instruction aborts on an arithmetic overflow: the time since
/// the vote opened does not fit in an `i64`, or the citizen count or the
/// appeal counter cannot grow.
pub open spec fn aborts(pre: CheckVoteResult, now: i64) -> bool {
    ||| early_rejection(pre) is None && !(i64::MIN <= now - pre.member_citizenship_appl.voting_started.unwrap()
        <= i64::MAX)
    ||| rejection(pre, now) is None && accepted(pre) && pre.treasury.num_of_citizens == u64::MAX
    ||| rejection(pre, now) is None && !accepted(pre) && pre.member.num_of_appeals == 255
}

/// Tests `aborts`, for callers that must refuse such input beforehand.
pub fn would_abort(ctx: &CheckVoteResult, now: i64) -> (abort: bool)
    ensures
        abort == aborts(*ctx, now),
{
    if ctx.member.citizen {
        return false;
    }
    let started = match ctx.member_citizenship_appl.voting_started {
        Some(t) => t,
        None => {
            return false;
        },
    };
    let elapsed = match now.checked_sub(started) {
        Some(d) => d,
        None => {
            return true;
        },
    };
    if !(elapsed > DAY) {
        return false;
    }
    let mut threshhold: u64 = NUM_OF_JUDGES / 2 + 1;
    if ctx.treasury.num_of_citizens < threshhold {
        threshhold = ctx.treasury.num_of_citizens;
    }
    if (ctx.member_citizenship_appl.accept_vote as u64) >= threshhold {
        ctx.treasury.num_of_citizens == u64::MAX
    } else {
        ctx.member.num_of_appeals == 255
    }
}

/// What the count leaves in its accounts: an accepted member becomes the
/// next citizen; a refused one may appeal.
pub open spec fn performed(pre: CheckVoteResult, post: CheckVoteResult) -> bool {
    if accepted(pre) {
        post == (CheckVoteResult {
            member: Member {
                citizen: true,
                citizen_index: Some(pre.treasury.num_of_citizens),
                ..pre.member
            },
            treasury: Treasury { num_of_citizens: (pre.treasury.num_of_citizens + 1) as u64, ..pre.treasury },
            ..pre
        })
    } else {
        post == (CheckVoteResult {
            member: Member {
                num_of_appeals: (pre.member.num_of_appeals + 1) as u8,
                appeal_pending: false,
                ..pre.member
            },
            ..pre
        })
    }
}

/// Closes the vote on an application that ran for more than a day.
pub fn handler(ctx: &mut CheckVoteResult, now: i64) -> (res: Result<CitizenshipResultDeclared, GraphOfHumanityErrors>)
    requires
        !aborts(*old(ctx), now),
    ensures
        match res {
            Ok(event) => {
                &&& rejection(*old(ctx), now) is None
                &&& performed(*old(ctx), *final(ctx))
                &&& event == (CitizenshipResultDeclared {
                    citizenship_appl: old(ctx).member_citizenship_appl_key,
                    accepted: accepted(*old(ctx)),
                })
            },
            Err(e) => rejection(*old(ctx), now) == Some(e) && *final(ctx) == *old(ctx),
        },
{
    if ctx.member.citizen {
        return Err(GraphOfHumanityErrors::DontReapplyForCitizenWhenAlreadyOne);
    }
    let started = match ctx.member_citizenship_appl.voting_started {
        Some(t) => t,
        None => {
            return Err(GraphOfHumanityErrors::VotingNotStarted);
        },
    };
    if !(now - started > DAY) {
        return Err(GraphOfHumanityErrors::VotingStillOngoing);
    }

    let mut threshhold: u64 = NUM_OF_JUDGES / 2 + 1;
    if ctx.treasury.num_of_citizens < threshhold {
        threshhold = ctx.treasury.num_of_citizens;
    }

    let mut accepted = false;
    if (ctx.member_citizenship_appl.accept_vote as u64) >= threshhold {
        ctx.member.citizen = true;
        ctx.member.citizen_index = Some(ctx.treasury.num_of_citizens);
        ctx.treasury.num_of_citizens = ctx.treasury.num_of_citizens + 1;
        accepted = true;
    } else {
        ctx.member.num_of_appeals = ctx.member.num_of_appeals + 1;
        ctx.member.appeal_pending = false;
    }

    Ok(CitizenshipResultDeclared { citizenship_appl: ctx.member_citizenship_appl_key, accepted })
}

} // verus!
