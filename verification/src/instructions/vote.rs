use crate::constants::DAY;
use crate::error::GraphOfHumanityErrors;
use crate::event::CommitteeVoted;
use crate::selection::contains_index;
use crate::state::{CitizenshipApplication, CommitteeVotes, Member, Pubkey};
use vstd::prelude::*;

verus! {

/// The accounts of a judge's vote on an application.
pub struct VoteCitizenship {
    pub voter: Pubkey,
    pub voter_member: Member,
    /// The applicant's member account.
    pub member: Member,
    pub member_citizenship_appl: CitizenshipApplication,
    /// Address of the application.
    pub member_citizenship_appl_key: Pubkey,
    /// The new account that records the vote.
    pub vote_acc: CommitteeVotes,
    pub vote_acc_bump: u8,
}

/// The checks that come before the voter's citizen index is read.
pub open spec fn early_rejection(pre: VoteCitizenship) -> Option<GraphOfHumanityErrors> {
    if !pre.voter_member.citizen {
        Some(GraphOfHumanityErrors::CanNotVoteAsANonCitizen)
    } else if pre.member.citizen {
        Some(GraphOfHumanityErrors::DontReapplyForCitizenWhenAlreadyOne)
    } else {
        None
    }
}

/// The checks that come before the time since the vote opened is computed.
pub open spec fn middle_rejection(pre: VoteCitizenship) -> Option<GraphOfHumanityErrors> {
    if early_rejection(pre) is Some {
        early_rejection(pre)
    } else if !pre.member_citizenship_appl.judges@.contains(pre.voter_member.citizen_index.unwrap()) {
        Some(GraphOfHumanityErrors::VoterNotInJudges)
    } else if pre.member_citizenship_appl.voting_started is None {
        Some(GraphOfHumanityErrors::VotingNotStarted)
    } else {
        None
    }
}

/// The error with which the vote is refused, if any: only a citizen drawn as
/// judge of the application votes, only on a non-citizen, and only within
/// the day after the vote opened.
pub open spec fn rejection(pre: VoteCitizenship, now: i64) -> Option<GraphOfHumanityErrors> {
    if middle_rejection(pre) is Some {
        middle_rejection(pre)
    } else if now - pre.member_citizenship_appl.voting_started.unwrap() > DAY {
        Some(GraphOfHumanityErrors::VotingPeriodEnded)
    } else {
        None
    }
}

/// Whether the instruction aborts: the voter passes the first checks but
/// has no citizen index, the time since the vote opened does not fit in an
/// `i64`, or an accepting vote would overflow the count.
pub open spec fn aborts(pre: VoteCitizenship, now: i64, accept: bool) -> bool {
    ||| early_rejection(pre) is None && pre.voter_member.citizen_index is None
    ||| middle_rejection(pre) is None && !(i64::MIN <= now - pre.member_citizenship_appl.voting_started.unwrap()
        <= i64::MAX)
    ||| rejection(pre, now) is None && accept && pre.member_citizenship_appl.accept_vote == 255
}

/// Tests `aborts`, for callers that must refuse such input beforehand.
pub fn would_abort(ctx: &VoteCitizenship, now: i64, accept: bool) -> (abort: bool)
    ensures
        abort == aborts(*ctx, now, accept),
{
    if !ctx.voter_member.citizen || ctx.member.citizen {
        return false;
    }
    let judge_index = match ctx.voter_member.citizen_index {
        Some(i) => i,
        None => {
            return true;
        },
    };
    if !contains_index(&ctx.member_citizenship_appl.judges, judge_index) {
        return false;
    }
    let started = match ctx.member_citizenship_appl.voting_started {
        Some(t) => t,
        None => {
            return false;
        },
    };
    let elapsed = match now.checked_sub(started) {
        Some(d) => d,
        None => {
            return true;
        },
    };
    !(elapsed > DAY) && accept && ctx.member_citizenship_appl.accept_vote == 255
}

/// What an accepted vote leaves in its accounts: an accepting vote is
/// counted, and the vote is recorded.
pub open spec fn performed(pre: VoteCitizenship, post: VoteCitizenship, accept: bool) -> bool {
    post == (VoteCitizenship {
        member_citizenship_appl: CitizenshipApplication {
            accept_vote: if accept {
                (pre.member_citizenship_appl.accept_vote + 1) as u8
            } else {
                pre.member_citizenship_appl.accept_vote
            },
            ..pre.member_citizenship_appl
        },
        vote_acc: CommitteeVotes {
            bump: pre.vote_acc_bump,
            voter: pre.voter,
            citizenship_appl: pre.member_citizenship_appl_key,
            accept,
            claimed: false,
        },
        ..pre
    })
}

/// Counts an accepting vote on the application and records the vote, at
/// time `now`.
pub fn handler(ctx: &mut VoteCitizenship, now: i64, accept: bool, reason: Option<String>) -> (res: Result<CommitteeVoted, GraphOfHumanityErrors>)
    requires
        !aborts(*old(ctx), now, accept),
    ensures
        match res {
            Ok(event) => {
                &&& rejection(*old(ctx), now) is None
                &&& performed(*old(ctx), *final(ctx), accept)
                &&& event == (CommitteeVoted {
                    citizenship_appl: old(ctx).member_citizenship_appl_key,
                    voter: old(ctx).voter,
                    accept,
                    reason,
                })
            },
            Err(e) => rejection(*old(ctx), now) == Some(e) && *final(ctx) == *old(ctx),
        },
{
    if !ctx.voter_member.citizen {
        return Err(GraphOfHumanityErrors::CanNotVoteAsANonCitizen);
    }
    if ctx.member.citizen {
        return Err(GraphOfHumanityErrors::DontReapplyForCitizenWhenAlreadyOne);
    }
    let judge_index = ctx.voter_member.citizen_index.unwrap();
    if !contains_index(&ctx.member_citizenship_appl.judges, judge_index) {
        return Err(GraphOfHumanityErrors::VoterNotInJudges);
    }
    let started = match ctx.member_citizenship_appl.voting_started {
        Some(t) => t,
        None => {
            return Err(GraphOfHumanityErrors::VotingNotStarted);
        },
    };
    if now - started > DAY {
        return Err(GraphOfHumanityErrors::VotingPeriodEnded);
    }

    if accept {
        ctx.member_citizenship_appl.accept_vote = ctx.member_citizenship_appl.accept_vote + 1;
    }

    ctx.vote_acc = CommitteeVotes {
        bump: ctx.vote_acc_bump,
        voter: ctx.voter,
        citizenship_appl: ctx.member_citizenship_appl_key,
        accept,
        claimed: false,
    };

    Ok(CommitteeVoted { citizenship_appl: ctx.member_citizenship_appl_key, voter: ctx.voter, accept, reason })
}

} // verus!
