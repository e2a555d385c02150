//! Properties that span instructions: what one instruction leaves behind,
//! and what a later one makes of it.
use crate::error::GraphOfHumanityErrors;
use crate::instructions::{
    apply_citizenship, become_member, check_result, claim_reward, claim_ubi, fund_citizenship_appl, fund_voucher,
    initialize, request_randomness_voters, reveal_randomness_voters, start_distribution_epoch, vote,
};
use crate::constants::{CITIZENSHIP_FEE, DAY, NUM_OF_JUDGES, UBI_USERS_PER_ACC};
use crate::fees::citizenship_fee_spec;
use vstd::arithmetic::power::pow;
use crate::instructions::reveal_ubi_randomness;
use crate::selection::{be_value, drawn_candidates, all_below, first_indices, lemma_draw_extends_existing, lemma_fresh_draw_is_distinct_and_in_range};
use crate::utils::hash_pair;
use crate::state::{CitizenshipApplication, DistributionEpoch, Member, Treasury};
use vstd::prelude::*;

verus! {

/// A member's citizen index, if any, lies below the number of citizens.
pub open spec fn index_below_count(member: Member, treasury: Treasury) -> bool {
    member.citizen_index matches Some(i) ==> i < treasury.num_of_citizens
}

/// Law: the administrator set up by `initialize` is citizen number zero of
/// a treasury that counts one citizen.
pub proof fn lemma_initialize_counts_admin(pre: initialize::InitializeContract, post: initialize::InitializeContract)
    requires
        initialize::performed(pre, post),
    ensures
        post.member.citizen,
        index_below_count(post.member, post.treasury),
        post.treasury.num_of_citizens == 1,
{
}

/// Law: accepting an application hands out the next citizen index, which no
/// earlier citizen holds (their indices lie below the old count), and keeps
/// every index below the count of citizens.
pub proof fn lemma_acceptance_hands_out_fresh_index(
    pre: check_result::CheckVoteResult,
    post: check_result::CheckVoteResult,
    earlier_index: u64,
)
    requires
        check_result::performed(pre, post),
        check_result::accepted(pre),
        pre.treasury.num_of_citizens < u64::MAX,
        earlier_index < pre.treasury.num_of_citizens,
    ensures
        post.member.citizen,
        post.member.citizen_index == Some(pre.treasury.num_of_citizens),
        post.member.citizen_index != Some(earlier_index),
        post.treasury.num_of_citizens == pre.treasury.num_of_citizens + 1,
        earlier_index < post.treasury.num_of_citizens,
        index_below_count(post.member, post.treasury),
{
}

/// Law: a refused application leaves the citizen count alone, ends the
/// pending application, and lets the member apply again.
pub proof fn lemma_refusal_allows_appeal(
    pre: check_result::CheckVoteResult,
    post: check_result::CheckVoteResult,
    now: i64,
    next: apply_citizenship::ApplyCitizenship,
)
    requires
        check_result::rejection(pre, now) is None,
        check_result::performed(pre, post),
        !check_result::accepted(pre),
        pre.member.num_of_appeals < 255,
        next.member == post.member,
    ensures
        !post.member.citizen,
        !post.member.appeal_pending,
        post.member.num_of_appeals == pre.member.num_of_appeals + 1,
        post.treasury == pre.treasury,
        apply_citizenship::rejection(next) is None,
{
}

/// Law: once a member is accepted, the vote on it cannot be counted again.
pub proof fn lemma_accepted_member_is_not_judged_again(
    pre: check_result::CheckVoteResult,
    post: check_result::CheckVoteResult,
    later: i64,
)
    requires
        check_result::performed(pre, post),
        check_result::accepted(pre),
    ensures
        check_result::rejection(post, later) == Some(GraphOfHumanityErrors::DontReapplyForCitizenWhenAlreadyOne),
{
}

/// Law: a pending application blocks another one of the same member.
pub proof fn lemma_pending_application_blocks_another(
    pre: apply_citizenship::ApplyCitizenship,
    post: apply_citizenship::ApplyCitizenship,
    citizenship_id: String,
    video_link: String,
    other_verifying_links: Option<String>,
    event: crate::event::CitizenshipApplied,
    next: apply_citizenship::ApplyCitizenship,
)
    requires
        apply_citizenship::rejection(pre) is None,
        apply_citizenship::performed(pre, post, citizenship_id, video_link, other_verifying_links, event),
        next.member == post.member,
    ensures
        post.citizenship_appl.appeal_number == pre.member.num_of_appeals,
        apply_citizenship::rejection(next) == Some(GraphOfHumanityErrors::CitizenshipApplicationPending),
{
}

/// Law: an applicant's fee is paid at most once: the same payment made
/// again is refused.
pub proof fn lemma_applicant_pays_once(
    pre: fund_citizenship_appl::FundCitizenshipAppl,
    post: fund_citizenship_appl::FundCitizenshipAppl,
)
    requires
        fund_citizenship_appl::rejection(pre) is None,
        fund_citizenship_appl::performed(pre, post),
    ensures
        fund_citizenship_appl::rejection(post) == Some(GraphOfHumanityErrors::CitizenshipApplAlreadyFunded),
{
}

/// Law: a voucher's fee is paid at most once: the same payment made again
/// is refused.
pub proof fn lemma_voucher_pays_once(pre: fund_voucher::FundVoucher, post: fund_voucher::FundVoucher)
    requires
        fund_voucher::rejection(pre) is None,
        fund_voucher::performed(pre, post),
    ensures
        fund_voucher::rejection(post) == Some(GraphOfHumanityErrors::CitizenshipVoucherAlreadyFunded),
{
}

/// Law: a judge's reward is paid at most once: after a paid claim, the same
/// claim at the same or a later time is refused.
pub proof fn lemma_reward_claimed_once(
    pre: claim_reward::ClaimVoteReward,
    post: claim_reward::ClaimVoteReward,
    now: i64,
    later: i64,
)
    requires
        claim_reward::rejection(pre, now) is None,
        claim_reward::performed(pre, post),
        now <= later,
    ensures
        claim_reward::rejection(post, later) == Some(GraphOfHumanityErrors::AlreadyClaimedVoterMoney),
{
}

/// Law: the request account that a judge-randomness request records is the
/// one whose revealed value the draw accepts, and a second request on the
/// same application is refused until the draw has used it.
pub proof fn lemma_request_is_what_reveal_reads(
    request_pre: request_randomness_voters::RequestRandomnessJudges,
    request_post: request_randomness_voters::RequestRandomnessJudges,
    force: [u8; 32],
    reveal: reveal_randomness_voters::RevealRandomnessJudges,
)
    requires
        request_randomness_voters::rejection(request_pre, force) is None,
        request_randomness_voters::performed(request_pre, request_post),
        reveal.citizenship_appl == request_post.citizenship_appl,
        reveal.randomness_account_data == request_pre.randomness_account,
        reveal_randomness_voters::early_rejection(reveal) is None,
    ensures
        reveal_randomness_voters::rejection(reveal) is None,
        request_randomness_voters::rejection(request_post, force)
            == Some(GraphOfHumanityErrors::RandomnessJudgeAlreadyRequested),
{
}

/// While a UBI epoch runs, fewer recipients have been paid than it pays.
pub open spec fn epoch_consistent(treasury: Treasury, epoch: DistributionEpoch) -> bool {
    treasury.distribution_active ==> epoch.num_of_users_distributed < epoch.num_of_users_to_distribute
}

/// Law: an epoch that pays at least one citizen starts consistent, over the
/// current citizens, with nobody paid yet.
pub proof fn lemma_started_epoch_is_consistent(
    pre: start_distribution_epoch::StartDistribution,
    post: start_distribution_epoch::StartDistribution,
    recipients: u64,
)
    requires
        start_distribution_epoch::rejection(pre, Some(recipients)) is None,
        start_distribution_epoch::performed(pre, post, recipients),
        recipients > 0,
    ensures
        post.treasury.distribution_active,
        post.epoch.num_of_users_distributed == 0,
        post.epoch.distribution_max_user_ind == pre.treasury.num_of_citizens,
        epoch_consistent(post.treasury, post.epoch),
{
}

/// Law: a UBI claim keeps the epoch consistent; it counts one more payment,
/// and closes the epoch, counting it among the distributions, exactly when
/// that payment was the last one.
pub proof fn lemma_claim_keeps_epoch_consistent(pre: claim_ubi::ClaimUBI, post: claim_ubi::ClaimUBI)
    requires
        claim_ubi::rejection(pre) is None,
        claim_ubi::performed(pre, post),
        epoch_consistent(pre.treasury, pre.epoch),
        pre.treasury.distributions < u64::MAX,
    ensures
        epoch_consistent(post.treasury, post.epoch),
        post.epoch.num_of_users_distributed == pre.epoch.num_of_users_distributed + 1,
        !post.treasury.distribution_active <==> post.epoch.num_of_users_distributed
            == post.epoch.num_of_users_to_distribute,
        post.treasury.distributions == pre.treasury.distributions + (if post.treasury.distribution_active {
            0int
        } else {
            1int
        }),
{
}

/// Law: a draw of judges from a revealed value keeps the judges already
/// listed and appends distinct citizen indices, at most a committee's worth;
/// with fewer citizens than a committee, every citizen becomes a judge.
pub proof fn lemma_revealed_judges_are_distinct_citizens(
    pre: reveal_randomness_voters::RevealRandomnessJudges,
    post: reveal_randomness_voters::RevealRandomnessJudges,
    random: [u8; 32],
    now: i64,
)
    requires
        reveal_randomness_voters::performed(pre, post, Some(random), now),
    ensures
        pre.treasury.num_of_citizens < NUM_OF_JUDGES ==> post.citizenship_appl.judges@ == first_indices(
            pre.treasury.num_of_citizens as nat,
        ),
        pre.treasury.num_of_citizens >= NUM_OF_JUDGES ==> {
            let before = pre.citizenship_appl.judges@;
            let after = post.citizenship_appl.judges@;
            &&& after.len() <= before.len() + NUM_OF_JUDGES
            &&& after.subrange(0, before.len() as int) == before
            &&& after.subrange(before.len() as int, after.len() as int).no_duplicates()
            &&& all_below(after.subrange(before.len() as int, after.len() as int), pre.treasury.num_of_citizens)
        },
{
    if pre.treasury.num_of_citizens >= NUM_OF_JUDGES {
        lemma_draw_extends_existing(pre.citizenship_appl.judges@, random, pre.treasury.num_of_citizens, NUM_OF_JUDGES);
    }
}

/// Law: a UBI draw never leaves more than `UBI_USERS_PER_ACC` recipients
/// in an account; it keeps those already drawn and appends distinct
/// citizens of the epoch, and into an empty account (as a request leaves
/// it) it draws distinct citizens only.
pub proof fn lemma_ubi_recipients_are_distinct_citizens(
    pre: reveal_ubi_randomness::RevealRandomnessUBI,
    post: reveal_ubi_randomness::RevealRandomnessUBI,
    random: [u8; 32],
)
    requires
        reveal_ubi_randomness::rejection(pre) is None,
        reveal_ubi_randomness::performed(pre, post, Some(random)),
    ensures
        post.ubi_randomness_acc.accounts@.len() <= UBI_USERS_PER_ACC,
        pre.epoch.distribution_max_user_ind < UBI_USERS_PER_ACC ==> post.ubi_randomness_acc.accounts@
            == first_indices(pre.epoch.distribution_max_user_ind as nat),
        pre.epoch.distribution_max_user_ind >= UBI_USERS_PER_ACC ==> {
            let before = pre.ubi_randomness_acc.accounts@;
            let after = post.ubi_randomness_acc.accounts@;
            &&& after.subrange(0, before.len() as int) == before
            &&& after.subrange(before.len() as int, after.len() as int).no_duplicates()
            &&& all_below(after.subrange(before.len() as int, after.len() as int), pre.epoch.distribution_max_user_ind)
        },
        pre.ubi_randomness_acc.accounts@.len() == 0 ==> {
            &&& post.ubi_randomness_acc.accounts@.no_duplicates()
            &&& all_below(post.ubi_randomness_acc.accounts@, pre.epoch.distribution_max_user_ind)
        },
{
    let population = pre.epoch.distribution_max_user_ind;
    if population >= UBI_USERS_PER_ACC {
        lemma_draw_extends_existing(pre.ubi_randomness_acc.accounts@, random, population, UBI_USERS_PER_ACC);
    }
    if pre.ubi_randomness_acc.accounts@.len() == 0 {
        assert(pre.ubi_randomness_acc.accounts@ =~= Seq::<u64>::empty());
        lemma_fresh_draw_is_distinct_and_in_range(random, population, UBI_USERS_PER_ACC);
    }
}

/// The numbering of the citizens among all member accounts: exactly the
/// citizens carry an index; their indices are distinct, and they are
/// `0, 1, ..., count - 1`.
pub open spec fn citizens_numbered(members: Seq<Member>, count: u64) -> bool {
    &&& forall|i: int| 0 <= i < members.len() ==> (#[trigger] members[i].citizen <==> members[i].citizen_index is Some)
    &&& forall|i: int| 0 <= i < members.len() && #[trigger] members[i].citizen_index is Some
        ==> members[i].citizen_index.unwrap() < count
    &&& forall|i: int, j: int|
        0 <= i < members.len() && 0 <= j < members.len() && i != j && #[trigger] members[i].citizen_index is Some
            && #[trigger] members[j].citizen_index is Some ==> members[i].citizen_index != members[j].citizen_index
    &&& forall|k: u64| k < count ==> #[trigger] holds_index(members, k)
}

/// Some member account carries citizen index `k`.
pub open spec fn holds_index(members: Seq<Member>, k: u64) -> bool {
    exists|i: int| 0 <= i < members.len() && #[trigger] members[i].citizen_index == Some(k)
}

/// Law: after `initialize`, the administrator alone is numbered, as citizen
/// zero of one.
pub proof fn lemma_initialize_numbers_citizens(pre: initialize::InitializeContract, post: initialize::InitializeContract)
    requires
        initialize::performed(pre, post),
    ensures
        citizens_numbered(seq![post.member], post.treasury.num_of_citizens),
{
    let members = seq![post.member];
    assert(members[0] == post.member);
    assert forall|k: u64| k < post.treasury.num_of_citizens implies #[trigger] holds_index(members, k) by {
        assert(members[0].citizen_index == Some(k));
    }
}

/// Law: registering a member keeps the numbering of the citizens.
pub proof fn lemma_registration_keeps_numbering(
    members: Seq<Member>,
    count: u64,
    creator: crate::state::Pubkey,
    bump: u8,
    citizen_name: String,
    bio_link: String,
)
    requires
        citizens_numbered(members, count),
    ensures
        citizens_numbered(
            members.push(become_member::registered_member(creator, bump, citizen_name, bio_link)),
            count,
        ),
{
    let grown = members.push(become_member::registered_member(creator, bump, citizen_name, bio_link));
    assert forall|k: u64| k < count implies #[trigger] holds_index(grown, k) by {
        assert(holds_index(members, k));
        let i = choose|i: int| 0 <= i < members.len() && #[trigger] members[i].citizen_index == Some(k);
        assert(grown[i] == members[i]);
    }
}

/// Law: counting the vote on the application of the member at `position`
/// keeps the numbering of the citizens: an accepted member gets the next
/// index, and the count grows by one.
pub proof fn lemma_count_keeps_numbering(
    members: Seq<Member>,
    position: int,
    pre: check_result::CheckVoteResult,
    post: check_result::CheckVoteResult,
    now: i64,
)
    requires
        citizens_numbered(members, pre.treasury.num_of_citizens),
        0 <= position < members.len(),
        members[position] == pre.member,
        check_result::rejection(pre, now) is None,
        check_result::performed(pre, post),
        check_result::accepted(pre) ==> pre.treasury.num_of_citizens < u64::MAX,
    ensures
        citizens_numbered(members.update(position, post.member), post.treasury.num_of_citizens),
{
    let after = members.update(position, post.member);
    let count = pre.treasury.num_of_citizens;
    let new_count = post.treasury.num_of_citizens;
    assert forall|i: int| 0 <= i < after.len() implies (#[trigger] after[i].citizen <==> after[i].citizen_index is Some) by {
        if i != position {
            assert(after[i] == members[i]);
        }
    }
    assert forall|i: int| 0 <= i < after.len() && #[trigger] after[i].citizen_index is Some implies after[i].citizen_index.unwrap()
        < new_count by {
        if i != position {
            assert(after[i] == members[i]);
        }
    }
    assert forall|i: int, j: int|
        0 <= i < after.len() && 0 <= j < after.len() && i != j && #[trigger] after[i].citizen_index is Some
            && #[trigger] after[j].citizen_index is Some implies after[i].citizen_index != after[j].citizen_index by {
        if i != position {
            assert(after[i] == members[i]);
        }
        if j != position {
            assert(after[j] == members[j]);
        }
    }
    assert forall|k: u64| k < new_count implies #[trigger] holds_index(after, k) by {
        if k < count {
            assert(holds_index(members, k));
            let i = choose|i: int| 0 <= i < members.len() && #[trigger] members[i].citizen_index == Some(k);
            assert(i != position);
            assert(after[i] == members[i]);
        } else {
            assert(after[position].citizen_index == Some(k));
        }
    }
}

/// The votes counted on an application, against the citizen indices of the
/// judges that voted (each judge has one vote account per application):
/// every voter is a judge, and no more votes are counted than voters.
pub open spec fn votes_within_committee(appl: CitizenshipApplication, voters: Set<u64>) -> bool {
    &&& voters.finite()
    &&& forall|v: u64| voters.contains(v) ==> appl.judges@.contains(v)
    &&& appl.accept_vote + appl.reject_votes <= voters.len()
}

/// Law: a vote by a judge who has not voted yet keeps the counted votes
/// within the committee: never more than its judges, and so never more than
/// `NUM_OF_JUDGES` for a committee drawn at once.
pub proof fn lemma_vote_keeps_votes_within_committee(
    pre: vote::VoteCitizenship,
    post: vote::VoteCitizenship,
    now: i64,
    accept: bool,
    voters: Set<u64>,
)
    requires
        vote::rejection(pre, now) is None,
        vote::performed(pre, post, accept),
        votes_within_committee(pre.member_citizenship_appl, voters),
        !voters.contains(pre.voter_member.citizen_index.unwrap()),
    ensures
        votes_within_committee(post.member_citizenship_appl, voters.insert(pre.voter_member.citizen_index.unwrap())),
        post.member_citizenship_appl.accept_vote + post.member_citizenship_appl.reject_votes
            <= post.member_citizenship_appl.judges@.len(),
        post.member_citizenship_appl.judges@.len() <= NUM_OF_JUDGES ==> post.member_citizenship_appl.accept_vote
            + post.member_citizenship_appl.reject_votes <= NUM_OF_JUDGES,
{
    let judges = post.member_citizenship_appl.judges@;
    let grown = voters.insert(pre.voter_member.citizen_index.unwrap());
    assert(grown.subset_of(judges.to_set()));
    vstd::seq_lib::seq_to_set_is_finite(judges);
    vstd::set_lib::lemma_len_subset(grown, judges.to_set());
    judges.lemma_cardinality_of_set();
}

/// Law: a request for the judges' randomness on a fully paid application is
/// refused as already assigned exactly when the committee holds
/// `NUM_OF_JUDGES` judges or as many judges as there are citizens.
pub proof fn lemma_request_refused_exactly_for_complete_committee(
    pre: request_randomness_voters::RequestRandomnessJudges,
    force: [u8; 32],
)
    requires
        pre.citizenship_appl.fee_paid,
        pre.citizenship_appl.voucher_fee_paid,
    ensures
        request_randomness_voters::rejection(pre, force) == Some(GraphOfHumanityErrors::CitizenApplJudgesAlreadyAssigned)
            <==> (pre.citizenship_appl.judges@.len() == NUM_OF_JUDGES || pre.citizenship_appl.judges@.len()
            == pre.treasury.num_of_citizens),
{
}

/// Law: a citizen's draw for a fully paid application is refused as already
/// assigned exactly when the committee holds `NUM_OF_JUDGES` judges or as
/// many judges as there are citizens.
pub proof fn lemma_draw_refused_exactly_for_complete_committee(pre: reveal_randomness_voters::RevealRandomnessJudges)
    requires
        pre.cranker_member.citizen,
        pre.citizenship_appl.fee_paid,
        pre.citizenship_appl.voucher_fee_paid,
    ensures
        reveal_randomness_voters::rejection(pre) == Some(GraphOfHumanityErrors::CitizenApplJudgesAlreadyAssigned)
            <==> (pre.citizenship_appl.judges@.len() == NUM_OF_JUDGES || pre.citizenship_appl.judges@.len()
            == pre.treasury.num_of_citizens),
{
}

/// Law: a draw opens the vote at `now` exactly when the committee it leaves
/// holds `NUM_OF_JUDGES` judges or as many judges as there are citizens;
/// otherwise the start of the vote is left as it was. In particular, with at
/// least `NUM_OF_JUDGES` citizens, a committee of fewer judges does not vote.
pub proof fn lemma_vote_opens_exactly_with_complete_committee(
    pre: reveal_randomness_voters::RevealRandomnessJudges,
    post: reveal_randomness_voters::RevealRandomnessJudges,
    revealed: Option<[u8; 32]>,
    now: i64,
)
    requires
        reveal_randomness_voters::performed(pre, post, revealed, now),
    ensures
        (post.citizenship_appl.judges@.len() == NUM_OF_JUDGES || post.citizenship_appl.judges@.len()
            == pre.treasury.num_of_citizens) ==> post.citizenship_appl.voting_started == Some(now),
        !(post.citizenship_appl.judges@.len() == NUM_OF_JUDGES || post.citizenship_appl.judges@.len()
            == pre.treasury.num_of_citizens) ==> post.citizenship_appl.voting_started
            == pre.citizenship_appl.voting_started,
        pre.treasury.num_of_citizens >= NUM_OF_JUDGES && post.citizenship_appl.judges@.len() < NUM_OF_JUDGES
            ==> post.citizenship_appl.voting_started == pre.citizenship_appl.voting_started,
{
}

/// Law: the `i`-th candidate of a draw is the hash of bytes `6i .. 6i + 6`
/// of the revealed value, read most significant first, salted with the
/// product of the value's last two bytes, and reduced modulo the population.
pub proof fn lemma_candidate_is_salted_hash_of_six_bytes(random: [u8; 32], population: u64, count: nat, i: int)
    requires
        0 <= i < count,
        count <= 5,
    ensures
        drawn_candidates(random@, population, count)[i] == (hash_pair(
            (((((random@[6 * i] as nat * 256 + random@[6 * i + 1] as nat) * 256 + random@[6 * i + 2] as nat) * 256
                + random@[6 * i + 3] as nat) * 256 + random@[6 * i + 4] as nat) * 256
                + random@[6 * i + 5] as nat) as u64,
            ((random@[31] as nat) * (random@[30] as nat)) as u64,
        ) % population) as u64,
{
    let six = random@.subrange(6 * i, 6 * i + 6);
    assert(six.drop_last() =~= random@.subrange(6 * i, 6 * i + 5));
    assert(six.drop_last().drop_last() =~= random@.subrange(6 * i, 6 * i + 4));
    assert(six.drop_last().drop_last().drop_last() =~= random@.subrange(6 * i, 6 * i + 3));
    assert(six.drop_last().drop_last().drop_last().drop_last() =~= random@.subrange(6 * i, 6 * i + 2));
    assert(six.drop_last().drop_last().drop_last().drop_last().drop_last() =~= random@.subrange(6 * i, 6 * i + 1));
    assert(random@.subrange(6 * i, 6 * i + 1).drop_last() =~= Seq::<u8>::empty());
    reveal_with_fuel(be_value, 7);
    assert((random@[31] as nat) * (random@[30] as nat) == (random@[30] as nat) * (random@[31] as nat)) by (nonlinear_arith);
}

/// Law: a vote that has run its course accepts the application exactly when
/// the accepting votes reach a majority of a full committee
/// (`NUM_OF_JUDGES / 2 + 1`) or reach the number of citizens. An accepted
/// member becomes the next citizen; a refused one keeps the citizen count
/// and gains an appeal.
pub proof fn lemma_acceptance_is_majority_or_all_citizens(
    pre: check_result::CheckVoteResult,
    post: check_result::CheckVoteResult,
)
    requires
        check_result::performed(pre, post),
        pre.treasury.num_of_citizens < u64::MAX,
        pre.member.num_of_appeals < 255,
    ensures
        check_result::accepted(pre) <==> (pre.member_citizenship_appl.accept_vote >= NUM_OF_JUDGES / 2 + 1
            || pre.member_citizenship_appl.accept_vote >= pre.treasury.num_of_citizens),
        (pre.member_citizenship_appl.accept_vote >= NUM_OF_JUDGES / 2 + 1
            || pre.member_citizenship_appl.accept_vote >= pre.treasury.num_of_citizens) ==> {
            &&& post.member.citizen
            &&& post.member.citizen_index == Some(pre.treasury.num_of_citizens)
            &&& post.treasury.num_of_citizens == pre.treasury.num_of_citizens + 1
        },
        !(pre.member_citizenship_appl.accept_vote >= NUM_OF_JUDGES / 2 + 1
            || pre.member_citizenship_appl.accept_vote >= pre.treasury.num_of_citizens) ==> {
            &&& post.member.citizen == pre.member.citizen
            &&& post.treasury.num_of_citizens == pre.treasury.num_of_citizens
            &&& post.member.num_of_appeals == pre.member.num_of_appeals + 1
        },
{
}

/// Law: a judge is paid exactly when the judge's vote agrees with the
/// outcome, which accepts only with more accepting than rejecting votes; so
/// with no accepting votes a rejecting judge is paid.
pub proof fn lemma_reward_follows_strict_majority(pre: claim_reward::ClaimVoteReward)
    ensures
        claim_reward::payout(pre) is Some <==> (pre.vote_acc.accept == (pre.member_citizenship_appl.accept_vote
            > pre.member_citizenship_appl.reject_votes)),
        pre.member_citizenship_appl.accept_vote == 0 && !pre.vote_acc.accept ==> claim_reward::payout(pre) is Some,
{
}

/// Law: an accepting vote adds exactly one to the accepting votes; a
/// rejecting vote leaves them as they were. Neither changes the rejecting
/// count.
pub proof fn lemma_vote_counts_only_acceptance(
    pre: vote::VoteCitizenship,
    post: vote::VoteCitizenship,
    accept: bool,
)
    requires
        vote::performed(pre, post, accept),
        pre.member_citizenship_appl.accept_vote < 255,
    ensures
        accept ==> post.member_citizenship_appl.accept_vote == pre.member_citizenship_appl.accept_vote + 1,
        !accept ==> post.member_citizenship_appl.accept_vote == pre.member_citizenship_appl.accept_vote,
        post.member_citizenship_appl.reject_votes == pre.member_citizenship_appl.reject_votes,
{
}

/// Law: once a judge may vote on an open application, the vote is taken
/// exactly while no more than a `DAY` has passed since voting opened, and
/// refused as ended after that.
pub proof fn lemma_votes_only_within_a_day(pre: vote::VoteCitizenship, now: i64, started: i64)
    requires
        vote::middle_rejection(pre) is None,
        pre.member_citizenship_appl.voting_started == Some(started),
    ensures
        vote::rejection(pre, now) is None <==> now - started <= DAY,
        now - started > DAY ==> vote::rejection(pre, now) == Some(GraphOfHumanityErrors::VotingPeriodEnded),
{
}

/// Law: the votes of an open application are counted exactly once more than
/// a `DAY` has passed since voting opened; before that the count is refused
/// as still ongoing.
pub proof fn lemma_count_only_after_a_day(pre: check_result::CheckVoteResult, now: i64, started: i64)
    requires
        check_result::early_rejection(pre) is None,
        pre.member_citizenship_appl.voting_started == Some(started),
    ensures
        check_result::rejection(pre, now) is None <==> now - started > DAY,
        now - started <= DAY ==> check_result::rejection(pre, now) == Some(GraphOfHumanityErrors::VotingStillOngoing),
{
}

/// Law: a judge's reward is claimed exactly once more than a `DAY` has
/// passed since voting opened, and only while it is unclaimed.
pub proof fn lemma_reward_only_after_a_day(pre: claim_reward::ClaimVoteReward, now: i64, started: i64)
    requires
        claim_reward::middle_rejection(pre) is None,
        pre.member_citizenship_appl.voting_started == Some(started),
    ensures
        claim_reward::rejection(pre, now) is None <==> (now - started > DAY && !pre.vote_acc.claimed),
        now - started <= DAY ==> claim_reward::rejection(pre, now) == Some(GraphOfHumanityErrors::VotingStillOngoing),
{
}

/// Law: at any moment, of a vote and the count on the same application,
/// at most one is taken and, once both pass their other checks, exactly
/// one is.
pub proof fn lemma_vote_and_count_never_overlap(
    voting: vote::VoteCitizenship,
    counting: check_result::CheckVoteResult,
    now: i64,
)
    requires
        vote::middle_rejection(voting) is None,
        check_result::early_rejection(counting) is None,
        voting.member_citizenship_appl.voting_started == counting.member_citizenship_appl.voting_started,
    ensures
        vote::rejection(voting, now) is None <==> !(check_result::rejection(counting, now) is None),
{
}

/// Law: the fee of an application is `CITIZENSHIP_FEE` doubled once for
/// each earlier application of the member, and each application counts one
/// more.
pub proof fn lemma_application_fee_doubles_with_each_application(
    pre: apply_citizenship::ApplyCitizenship,
    post: apply_citizenship::ApplyCitizenship,
    citizenship_id: String,
    video_link: String,
    other_verifying_links: Option<String>,
    event: crate::event::CitizenshipApplied,
)
    requires
        apply_citizenship::performed(pre, post, citizenship_id, video_link, other_verifying_links, event),
        pre.member.num_of_appeals < 255,
    ensures
        post.member.num_of_appeals == pre.member.num_of_appeals + 1,
        citizenship_fee_spec(post.citizenship_appl.appeal_number) == pow(2, pre.member.num_of_appeals as nat)
            * CITIZENSHIP_FEE,
{
}

} // verus!
