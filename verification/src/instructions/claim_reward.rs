use crate::constants::DAY;
use crate::error::GraphOfHumanityErrors;
use crate::event::RewardClaimed;
use crate::fees::{judge_reward, judge_reward_spec, LAST_PAYABLE_APPEAL};
use crate::selection::contains_index;
use crate::state::{CitizenshipApplication, CommitteeVotes, Member, Pubkey, Treasury};
use vstd::prelude::*;

verus! {

/// The accounts of a judge's claim of the reward for a vote.
pub struct ClaimVoteReward {
    pub voter: Pubkey,
    pub voter_member: Member,
    pub member_citizenship_appl: CitizenshipApplication,
    /// Address of the application.
    pub member_citizenship_appl_key: Pubkey,
    pub vote_acc: CommitteeVotes,
    pub treasury: Treasury,
}

/// The checks that come before the voter's citizen index is read.
pub open spec fn early_rejection(pre: ClaimVoteReward) -> Option<GraphOfHumanityErrors> {
    if !pre.voter_member.citizen {
        Some(GraphOfHumanityErrors::CanNotVoteAsANonCitizen)
    } else {
        None
    }
}

/// The checks that come before the length of the vote is computed.
pub open spec fn middle_rejection(pre: ClaimVoteReward) -> Option<GraphOfHumanityErrors> {
    if early_rejection(pre) is Some {
        early_rejection(pre)
    } else if !pre.member_citizenship_appl.judges@.contains(pre.voter_member.citizen_index.unwrap()) {
        Some(GraphOfHumanityErrors::VoterNotInJudges)
    } else if pre.member_citizenship_appl.voting_started is None {
        Some(GraphOfHumanityErrors::VotingNotStarted)
    } else {
        None
    }
}

/// The error with which the claim is refused, if any: only a judge of the
/// application claims, after the vote ran for more than a day, and once.
pub open spec fn rejection(pre: ClaimVoteReward, now: i64) -> Option<GraphOfHumanityErrors> {
    if middle_rejection(pre) is Some {
        middle_rejection(pre)
    } else if !(now - pre.member_citizenship_appl.voting_started.unwrap() > DAY) {
        Some(GraphOfHumanityErrors::VotingStillOngoing)
    } else if pre.vote_acc.claimed {
        Some(GraphOfHumanityErrors::AlreadyClaimedVoterMoney)
    } else {
        None
    }
}

/// The outcome of the vote that rewards are paid for: more accepting than
/// rejecting votes.
pub open spec fn majority_accepts(appl: CitizenshipApplication) -> bool {
    appl.accept_vote > appl.reject_votes
}

/// The amount paid to the judge: the reward when the vote agreed with the
/// outcome, nothing otherwise.
pub open spec fn payout(pre: ClaimVoteReward) -> Option<u64> {
    if pre.vote_acc.accept == majority_accepts(pre.member_citizenship_appl) {
        Some(judge_reward_spec(pre.member_citizenship_appl.appeal_number) as u64)
    } else {
        None
    }
}

/// Whether the instruction aborts: the voter passes the first check but has
/// no citizen index, the time since the vote opened does not fit in an
/// `i64`, or the reward of an appeal beyond `LAST_PAYABLE_APPEAL` overflows.
pub open spec fn aborts(pre: ClaimVoteReward, now: i64) -> bool {
    ||| early_rejection(pre) is None && pre.voter_member.citizen_index is None
    ||| middle_rejection(pre) is None && !(i64::MIN <= now - pre.member_citizenship_appl.voting_started.unwrap()
        <= i64::MAX)
    ||| rejection(pre, now) is None && pre.member_citizenship_appl.appeal_number > LAST_PAYABLE_APPEAL
}

/// Tests `aborts`, for callers that must refuse such input beforehand.
pub fn would_abort(ctx: &ClaimVoteReward, now: i64) -> (abort: bool)
    ensures
        abort == aborts(*ctx, now),
{
    if !ctx.voter_member.citizen {
        return false;
    }
    let judge_index = match ctx.voter_member.citizen_index {
        Some(i) => i,
        None => {
            return true;
        },
    };
    if !contains_index(&ctx.member_citizenship_appl.judges, judge_index) {
        return false;
    }
    let started = match ctx.member_citizenship_appl.voting_started {
        Some(t) => t,
        None => {
            return false;
        },
    };
    let elapsed = match now.checked_sub(started) {
        Some(d) => d,
        None => {
            return true;
        },
    };
    elapsed > DAY && !ctx.vote_acc.claimed && ctx.member_citizenship_appl.appeal_number > LAST_PAYABLE_APPEAL
}

/// What a paid claim leaves in its accounts: the vote is marked as claimed.
pub open spec fn performed(pre: ClaimVoteReward, post: ClaimVoteReward) -> bool {
    post == (ClaimVoteReward { vote_acc: CommitteeVotes { claimed: true, ..pre.vote_acc }, ..pre })
}

/// Marks the vote as claimed and returns what the treasury pays the judge.
pub fn handler(ctx: &mut ClaimVoteReward, now: i64) -> (res: Result<(RewardClaimed, Option<u64>), GraphOfHumanityErrors>)
    requires
        !aborts(*old(ctx), now),
    ensures
        match res {
            Ok((event, paid)) => {
                &&& rejection(*old(ctx), now) is None
                &&& performed(*old(ctx), *final(ctx))
                &&& event == (RewardClaimed {
                    citizenship_appl: old(ctx).member_citizenship_appl_key,
                    voter: old(ctx).voter,
                })
                &&& paid == payout(*old(ctx))
            },
            Err(e) => rejection(*old(ctx), now) == Some(e) && *final(ctx) == *old(ctx),
        },
{
    if !ctx.voter_member.citizen {
        return Err(GraphOfHumanityErrors::CanNotVoteAsANonCitizen);
    }
    let judge_index = ctx.voter_member.citizen_index.unwrap();
    if !contains_index(&ctx.member_citizenship_appl.judges, judge_index) {
        return Err(GraphOfHumanityErrors::VoterNotInJudges);
    }
    let started = match ctx.member_citizenship_appl.voting_started {
        Some(t) => t,
        None => {
            return Err(GraphOfHumanityErrors::VotingNotStarted);
        },
    };
    if !(now - started > DAY) {
        return Err(GraphOfHumanityErrors::VotingStillOngoing);
    }
    if ctx.vote_acc.claimed {
        return Err(GraphOfHumanityErrors::AlreadyClaimedVoterMoney);
    }

    ctx.vote_acc.claimed = true;
    let accept: bool = ctx.member_citizenship_appl.accept_vote > ctx.member_citizenship_appl.reject_votes;
    let voter_claim = judge_reward(ctx.member_citizenship_appl.appeal_number);
    let paid = if ctx.vote_acc.accept == accept {
        Some(voter_claim)
    } else {
        None
    };

    Ok((RewardClaimed { citizenship_appl: ctx.member_citizenship_appl_key, voter: ctx.voter }, paid))
}

} // verus!
