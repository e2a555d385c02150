use graph_of_humanity::error::GraphOfHumanityErrors as E;
use graph_of_humanity::event::{
    BioEdited, CitizenshipFeePaid, CitizenshipResultDeclared, CitizenshipVoucherFeeApplied, CommitteeVoted,
    ContractInitialized, DistributionEpochStarted, JudgeRandomnessRequested, MemberRegistered, MoneyDonated,
    RewardClaimed, UBIDistributed, UsernameEdited,
};
use graph_of_humanity::instructions::{
    apply_citizenship, become_member, check_result, claim_reward, claim_ubi, donate_money, edit_bio,
    edit_user, edit_username, fund_citizenship_appl, fund_voucher, initialize, request_randomness_voters,
    request_ubi_randomness, reveal_randomness_voters, reveal_ubi_randomness, start_distribution_epoch,
    vote,
};
use graph_of_humanity::state::{
    CitizenshipApplication, CommitteeVotes, DistributionEpoch, Member, Pubkey, Treasury, UBIRandomnessAccount,
};

fn key(n: u8) -> Pubkey {
    [n; 32]
}

fn member(citizen: bool, index: Option<u64>) -> Member {
    Member {
        bump: 1,
        member_creator: key(1),
        citizen_name: "name".to_string(),
        bio_link: "bio".to_string(),
        citizen,
        num_of_appeals: 0,
        appeal_pending: false,
        citizen_index: index,
    }
}

fn blank_member() -> Member {
    Member {
        bump: 0,
        member_creator: [0; 32],
        citizen_name: String::new(),
        bio_link: String::new(),
        citizen: false,
        num_of_appeals: 0,
        appeal_pending: false,
        citizen_index: None,
    }
}

fn blank_appl() -> CitizenshipApplication {
    CitizenshipApplication {
        bump: 0,
        member: [0; 32],
        voucher_member: [0; 32],
        appl_id: String::new(),
        video_link: String::new(),
        other_verifying_links: None,
        fee_paid: false,
        voucher_fee_paid: false,
        appeal_number: 0,
        judges: vec![],
        accept_vote: 0,
        reject_votes: 0,
        randomness_account: None,
        voting_started: None,
    }
}

fn paid_appl() -> CitizenshipApplication {
    CitizenshipApplication { fee_paid: true, voucher_fee_paid: true, voucher_member: key(2), ..blank_appl() }
}

fn treasury(citizens: u64) -> Treasury {
    Treasury { bump: 3, num_of_citizens: citizens, distributions: 0, distribution_active: false }
}

fn counting_value() -> [u8; 32] {
    let mut random = [0u8; 32];
    for (i, byte) in random.iter_mut().enumerate() {
        *byte = (i + 1) as u8;
    }
    random
}

#[test]
fn initialize_sets_up_admin_citizen() {
    let mut ctx = initialize::InitializeContract {
        initializer: key(1),
        treasury: Treasury { bump: 0, num_of_citizens: 0, distributions: 0, distribution_active: false },
        member: blank_member(),
        member_key: key(9),
        citizenship_appl: blank_appl(),
        treasury_bump: 250,
        member_bump: 251,
        citizenship_appl_bump: 252,
    };
    let event = initialize::handler(&mut ctx, "hello".to_string());
    assert_eq!(event, ContractInitialized { message: "hello".to_string() });
    assert_eq!(ctx.treasury, Treasury { bump: 250, num_of_citizens: 1, distributions: 0, distribution_active: false });
    assert_eq!(ctx.member.citizen_index, Some(0));
    assert!(ctx.member.citizen);
    assert_eq!(ctx.member.member_creator, key(1));
    assert_eq!(ctx.member.citizen_name, "admin");
    assert_eq!(ctx.member.bio_link, "admin");
    assert_eq!(ctx.member.bump, 251);
    assert_eq!(ctx.citizenship_appl.bump, 252);
    assert_eq!(ctx.citizenship_appl.member, key(9));
    assert_eq!(ctx.citizenship_appl.voucher_member, key(9));
    assert_eq!(ctx.citizenship_appl.video_link, "admin");
    assert!(ctx.citizenship_appl.fee_paid && ctx.citizenship_appl.voucher_fee_paid);
}

#[test]
fn become_member_registers_non_citizen() {
    let mut ctx = become_member::BecomeMember { member_creator: key(4), member: blank_member(), member_bump: 7 };
    let event = become_member::handler(&mut ctx, "alice".to_string(), "https://a".to_string());
    assert_eq!(
        event,
        MemberRegistered { member_creator: key(4), citizen_name: "alice".to_string(), bio_link: "https://a".to_string() }
    );
    assert_eq!(
        ctx.member,
        Member {
            bump: 7,
            member_creator: key(4),
            citizen_name: "alice".to_string(),
            bio_link: "https://a".to_string(),
            citizen: false,
            num_of_appeals: 0,
            appeal_pending: false,
            citizen_index: None,
        }
    );
}

#[test]
fn edits_change_only_their_fields() {
    let mut ctx = edit_user::EditUser { member_creator: key(1), member: member(true, Some(3)), member_key: key(8) };
    let event = edit_user::handler(&mut ctx, "new-bio".to_string(), "new-name".to_string());
    assert_eq!(event.member, key(8));
    assert_eq!(ctx.member.bio_link, "new-bio");
    assert_eq!(ctx.member.citizen_name, "new-name");
    assert_eq!(ctx.member.citizen_index, Some(3));

    let mut ctx = edit_bio::EditBio { member_creator: key(1), member: member(false, None), member_key: key(8) };
    let event = edit_bio::handler(&mut ctx, "b2".to_string());
    assert_eq!(event, BioEdited { member: key(8), new_bio_link: "b2".to_string() });
    assert_eq!(ctx.member.bio_link, "b2");
    assert_eq!(ctx.member.citizen_name, "name");

    let mut ctx = edit_username::EditUsername { member_creator: key(1), member: member(false, None), member_key: key(8) };
    let event = edit_username::handler(&mut ctx, "n2".to_string());
    assert_eq!(event, UsernameEdited { member: key(8), new_username: "n2".to_string() });
    assert_eq!(ctx.member.citizen_name, "n2");
    assert_eq!(ctx.member.bio_link, "bio");
}

fn apply_ctx(pending: bool, appeals: u8) -> apply_citizenship::ApplyCitizenship {
    apply_citizenship::ApplyCitizenship {
        member_creator: key(1),
        member_voucher: key(2),
        member: Member { num_of_appeals: appeals, appeal_pending: pending, ..member(false, None) },
        member_key: key(5),
        citizenship_appl: blank_appl(),
        citizenship_appl_key: key(6),
        citizenship_appl_bump: 9,
    }
}

#[test]
fn apply_citizenship_files_next_appeal() {
    let mut ctx = apply_ctx(false, 2);
    let event = apply_citizenship::handler(&mut ctx, "id-1".to_string(), "video".to_string(), Some("links".to_string()))
        .unwrap();
    assert_eq!(event.appeal_number, 2);
    assert_eq!(event.member, key(5));
    assert_eq!(event.voucher_member, key(2));
    assert_eq!(event.other_verifying_links, Some("links".to_string()));
    assert_eq!(ctx.member.num_of_appeals, 3);
    assert!(ctx.member.appeal_pending);
    assert_eq!(ctx.citizenship_appl.appeal_number, 2);
    assert_eq!(ctx.citizenship_appl.appl_id, "id-1");
    assert_eq!(ctx.citizenship_appl.video_link, "video");
    assert_eq!(ctx.citizenship_appl.member, key(5));
    assert_eq!(ctx.citizenship_appl.voucher_member, key(2));
    assert_eq!(ctx.citizenship_appl.bump, 9);
    assert!(!ctx.citizenship_appl.fee_paid && !ctx.citizenship_appl.voucher_fee_paid);
}

#[test]
fn apply_citizenship_pending_blocks_second_application() {
    let mut ctx = apply_ctx(false, 0);
    apply_citizenship::handler(&mut ctx, "a".to_string(), "v".to_string(), None).unwrap();
    let mut again = apply_citizenship::ApplyCitizenship { citizenship_appl: blank_appl(), ..ctx };
    assert_eq!(
        apply_citizenship::handler(&mut again, "b".to_string(), "v".to_string(), None),
        Err(E::CitizenshipApplicationPending)
    );
    assert_eq!(again.member.num_of_appeals, 1);
}

#[test]
fn apply_citizenship_refused_while_pending() {
    let mut ctx = apply_ctx(true, 2);
    let res = apply_citizenship::handler(&mut ctx, "id".to_string(), "v".to_string(), None);
    assert_eq!(res, Err(E::CitizenshipApplicationPending));
    assert_eq!(ctx.member.num_of_appeals, 2);
    assert_eq!(ctx.citizenship_appl, blank_appl());
}

#[test]
fn fund_citizenship_appl_pays_doubling_fee() {
    let mut ctx = fund_citizenship_appl::FundCitizenshipAppl {
        member_creator: key(1),
        member: member(false, None),
        citizenship_appl: CitizenshipApplication { appeal_number: 2, ..blank_appl() },
        citizenship_appl_key: key(6),
    };
    let (event, fee) = fund_citizenship_appl::handler(&mut ctx).unwrap();
    assert_eq!(event, CitizenshipFeePaid { citizenship_appl: key(6) });
    assert_eq!(fee, 40);
    assert!(ctx.citizenship_appl.fee_paid);
    assert_eq!(fund_citizenship_appl::handler(&mut ctx), Err(E::CitizenshipApplAlreadyFunded));
}

fn voucher_ctx(citizen: bool, voucher: Pubkey, paid: bool) -> fund_voucher::FundVoucher {
    fund_voucher::FundVoucher {
        member_voucher: key(2),
        member_voucher_account: member(citizen, Some(0)),
        citizenship_appl: CitizenshipApplication {
            voucher_member: voucher,
            voucher_fee_paid: paid,
            appeal_number: 1,
            ..blank_appl()
        },
        citizenship_appl_key: key(6),
        usdc_decimals: 6,
    }
}

#[test]
fn fund_voucher_pays_once() {
    let mut ctx = voucher_ctx(true, key(2), false);
    let (event, fee) = fund_voucher::handler(&mut ctx).unwrap();
    assert_eq!(event, CitizenshipVoucherFeeApplied { citizenship_appl: key(6) });
    assert_eq!(fee, 20_000_000);
    assert!(ctx.citizenship_appl.voucher_fee_paid);
    assert_eq!(fund_voucher::handler(&mut ctx), Err(E::CitizenshipVoucherAlreadyFunded));
}

#[test]
fn fund_voucher_errors() {
    assert_eq!(fund_voucher::handler(&mut voucher_ctx(false, key(2), false)), Err(E::NonMemberCantVouch));
    assert_eq!(
        fund_voucher::handler(&mut voucher_ctx(true, key(3), false)),
        Err(E::CanNotFullfillSomebodyElseVoucher)
    );
    assert_eq!(fund_voucher::handler(&mut voucher_ctx(true, key(2), true)), Err(E::CitizenshipVoucherAlreadyFunded));
    // The first failing check decides the error.
    assert_eq!(fund_voucher::handler(&mut voucher_ctx(false, key(3), true)), Err(E::NonMemberCantVouch));
}

fn request_ctx(appl: CitizenshipApplication, citizens: u64) -> request_randomness_voters::RequestRandomnessJudges {
    request_randomness_voters::RequestRandomnessJudges {
        cranker: key(1),
        citizenship_appl: appl,
        citizenship_appl_key: key(6),
        randomness_account: key(7),
        treasury: treasury(citizens),
    }
}

#[test]
fn request_judge_randomness_records_account() {
    let mut ctx = request_ctx(paid_appl(), 10);
    let event = request_randomness_voters::handler(&mut ctx, [5; 32]).unwrap();
    assert_eq!(event, JudgeRandomnessRequested { citizenship_appl: key(6) });
    assert_eq!(ctx.citizenship_appl.randomness_account, Some(key(7)));
    assert_eq!(request_randomness_voters::handler(&mut ctx, [5; 32]), Err(E::RandomnessJudgeAlreadyRequested));
}

#[test]
fn request_judge_randomness_errors() {
    assert_eq!(
        request_randomness_voters::handler(&mut request_ctx(blank_appl(), 10), [5; 32]),
        Err(E::CanNotAssignJudgesBeforeFeePaid)
    );
    let full = CitizenshipApplication { judges: vec![1, 3, 4, 6, 8], ..paid_appl() };
    assert_eq!(
        request_randomness_voters::handler(&mut request_ctx(full.clone(), 10), [1; 32]),
        Err(E::CitizenApplJudgesAlreadyAssigned)
    );
    assert_eq!(
        request_randomness_voters::handler(&mut request_ctx(full, 5), [1; 32]),
        Err(E::CitizenApplJudgesAlreadyAssigned)
    );
    // Every citizen is already a judge.
    let everyone = CitizenshipApplication { judges: vec![0, 1, 2], ..paid_appl() };
    assert_eq!(
        request_randomness_voters::handler(&mut request_ctx(everyone, 3), [1; 32]),
        Err(E::CitizenApplJudgesAlreadyAssigned)
    );
    let partial = CitizenshipApplication { judges: vec![0, 1], ..paid_appl() };
    assert!(request_randomness_voters::handler(&mut request_ctx(partial, 10), [1; 32]).is_ok());
    assert_eq!(
        request_randomness_voters::handler(&mut request_ctx(paid_appl(), 10), [0; 32]),
        Err(E::NullSeedInvalidForVrf)
    );
}

fn reveal_ctx(judges: Vec<u64>, citizens: u64, stored: Option<Pubkey>) -> reveal_randomness_voters::RevealRandomnessJudges {
    reveal_randomness_voters::RevealRandomnessJudges {
        cranker: key(1),
        cranker_member: member(true, Some(0)),
        citizenship_appl: CitizenshipApplication { judges, randomness_account: stored, ..paid_appl() },
        citizenship_appl_key: key(6),
        randomness_account_data: key(7),
        treasury: treasury(citizens),
    }
}

#[test]
fn reveal_judges_draws_and_opens_vote() {
    // Fewer citizens than a committee: every citizen becomes a judge.
    let mut ctx = reveal_ctx(vec![], 3, Some(key(7)));
    let event = reveal_randomness_voters::handler(&mut ctx, Some([7u8; 32]), 1000).unwrap();
    assert_eq!(event.citizenship_appl, key(6));
    assert_eq!(event.choosen_judges, vec![0, 1, 2]);
    assert_eq!(ctx.citizenship_appl.judges, vec![0, 1, 2]);
    assert_eq!(ctx.citizenship_appl.voting_started, Some(1000));
    assert_eq!(ctx.citizenship_appl.randomness_account, None);

    // Ten citizens: five distinct judges are drawn.
    let mut ctx = reveal_ctx(vec![], 10, Some(key(7)));
    let event = reveal_randomness_voters::handler(&mut ctx, Some(counting_value()), 77).unwrap();
    assert_eq!(event.choosen_judges, vec![3, 7, 8, 0, 5]);
    assert_eq!(ctx.citizenship_appl.voting_started, Some(77));
}

#[test]
fn reveal_judges_incomplete_draw_keeps_vote_closed() {
    // All draws land on one citizen: the committee stays incomplete.
    let mut ctx = reveal_ctx(vec![], 10, Some(key(7)));
    let event = reveal_randomness_voters::handler(&mut ctx, Some([0u8; 32]), 5).unwrap();
    assert_eq!(event.choosen_judges, vec![9]);
    assert_eq!(ctx.citizenship_appl.voting_started, None);
    assert_eq!(ctx.citizenship_appl.randomness_account, None);
}

#[test]
fn reveal_judges_without_value_keeps_judges() {
    let mut ctx = reveal_ctx(vec![4], 10, Some(key(7)));
    let event = reveal_randomness_voters::handler(&mut ctx, None, 5).unwrap();
    assert_eq!(event.choosen_judges, vec![4]);
    assert_eq!(ctx.citizenship_appl.randomness_account, None);
    assert_eq!(ctx.citizenship_appl.voting_started, None);
}

#[test]
fn reveal_judges_errors() {
    let mut ctx = reveal_ctx(vec![], 10, Some(key(7)));
    ctx.cranker_member.citizen = false;
    assert_eq!(reveal_randomness_voters::handler(&mut ctx, None, 0), Err(E::CanNotUseCrankAsANonCitizen));

    let mut ctx = reveal_ctx(vec![], 10, Some(key(7)));
    ctx.citizenship_appl.voucher_fee_paid = false;
    assert_eq!(reveal_randomness_voters::handler(&mut ctx, None, 0), Err(E::CanNotAssignJudgesBeforeFeePaid));

    let mut ctx = reveal_ctx(vec![0, 1, 2], 3, Some(key(7)));
    assert_eq!(reveal_randomness_voters::handler(&mut ctx, None, 0), Err(E::CitizenApplJudgesAlreadyAssigned));
    let mut ctx = reveal_ctx(vec![1, 3, 4, 6, 8], 10, Some(key(7)));
    assert_eq!(reveal_randomness_voters::handler(&mut ctx, None, 0), Err(E::CitizenApplJudgesAlreadyAssigned));

    let mut ctx = reveal_ctx(vec![], 10, Some(key(8)));
    assert_eq!(reveal_randomness_voters::handler(&mut ctx, None, 0), Err(E::JudgeRandomnessNotStoredHere));
    assert_eq!(ctx.citizenship_appl.randomness_account, Some(key(8)));

    // No request stored: refused, not aborted.
    let mut ctx = reveal_ctx(vec![], 10, None);
    assert_eq!(reveal_randomness_voters::handler(&mut ctx, None, 0), Err(E::JudgeRandomnessNotStoredHere));
}

fn vote_ctx(voter_index: u64, applicant_citizen: bool) -> vote::VoteCitizenship {
    vote::VoteCitizenship {
        voter: key(3),
        voter_member: member(true, Some(voter_index)),
        member: member(applicant_citizen, None),
        member_citizenship_appl: CitizenshipApplication { judges: vec![0, 2, 4], voting_started: Some(1000), ..paid_appl() },
        member_citizenship_appl_key: key(6),
        vote_acc: CommitteeVotes { bump: 0, voter: [0; 32], citizenship_appl: [0; 32], accept: false, claimed: false },
        vote_acc_bump: 11,
    }
}

#[test]
fn vote_counts_accepting_votes() {
    let mut ctx = vote_ctx(2, false);
    let event = vote::handler(&mut ctx, 2000, true, Some("ok".to_string())).unwrap();
    assert_eq!(
        event,
        CommitteeVoted { citizenship_appl: key(6), voter: key(3), accept: true, reason: Some("ok".to_string()) }
    );
    assert_eq!(ctx.member_citizenship_appl.accept_vote, 1);
    assert_eq!(
        ctx.vote_acc,
        CommitteeVotes { bump: 11, voter: key(3), citizenship_appl: key(6), accept: true, claimed: false }
    );

    let mut ctx = vote_ctx(4, false);
    vote::handler(&mut ctx, 1000 + 86400, false, None).unwrap();
    assert_eq!(ctx.member_citizenship_appl.accept_vote, 0);
    assert_eq!(ctx.member_citizenship_appl.reject_votes, 0);
    assert!(!ctx.vote_acc.accept);
}

#[test]
fn vote_errors() {
    let mut ctx = vote_ctx(2, false);
    ctx.voter_member.citizen = false;
    assert_eq!(vote::handler(&mut ctx, 2000, true, None), Err(E::CanNotVoteAsANonCitizen));
    assert_eq!(vote::handler(&mut vote_ctx(2, true), 2000, true, None), Err(E::DontReapplyForCitizenWhenAlreadyOne));
    let mut ctx = vote_ctx(3, false);
    assert_eq!(vote::handler(&mut ctx, 2000, true, None), Err(E::VoterNotInJudges));
    assert_eq!(ctx.member_citizenship_appl.accept_vote, 0);
    let mut ctx = vote_ctx(2, false);
    ctx.member_citizenship_appl.voting_started = None;
    assert_eq!(vote::handler(&mut ctx, 2000, true, None), Err(E::VotingNotStarted));
    let mut ctx = vote_ctx(2, false);
    assert_eq!(vote::handler(&mut ctx, 1000 + 86401, true, None), Err(E::VotingPeriodEnded));
    assert_eq!(ctx.member_citizenship_appl.accept_vote, 0);
}

fn check_ctx(accept_votes: u8, citizens: u64, started: Option<i64>) -> check_result::CheckVoteResult {
    check_result::CheckVoteResult {
        cranker: key(1),
        member: Member { num_of_appeals: 1, appeal_pending: true, ..member(false, None) },
        member_citizenship_appl: CitizenshipApplication { accept_vote: accept_votes, voting_started: started, ..paid_appl() },
        member_citizenship_appl_key: key(6),
        treasury: treasury(citizens),
    }
}

#[test]
fn check_result_accepts_with_majority() {
    let mut ctx = check_ctx(3, 10, Some(0));
    let event = check_result::handler(&mut ctx, 86401).unwrap();
    assert_eq!(event, CitizenshipResultDeclared { citizenship_appl: key(6), accepted: true });
    assert!(ctx.member.citizen);
    assert_eq!(ctx.member.citizen_index, Some(10));
    assert_eq!(ctx.treasury.num_of_citizens, 11);
    // A second count is refused.
    assert_eq!(check_result::handler(&mut ctx, 999999), Err(E::DontReapplyForCitizenWhenAlreadyOne));
}

#[test]
fn check_result_threshold_shrinks_with_few_citizens() {
    let mut ctx = check_ctx(1, 1, Some(0));
    assert!(check_result::handler(&mut ctx, 100000).unwrap().accepted);
    assert_eq!(ctx.member.citizen_index, Some(1));
    assert_eq!(ctx.treasury.num_of_citizens, 2);
}

#[test]
fn check_result_refuses_without_majority() {
    let mut ctx = check_ctx(2, 10, Some(0));
    let event = check_result::handler(&mut ctx, 86401).unwrap();
    assert!(!event.accepted);
    assert!(!ctx.member.citizen);
    assert_eq!(ctx.member.num_of_appeals, 2);
    assert!(!ctx.member.appeal_pending);
    assert_eq!(ctx.treasury.num_of_citizens, 10);
}

#[test]
fn check_result_errors() {
    let mut ctx = check_ctx(3, 10, Some(0));
    ctx.member.citizen = true;
    assert_eq!(check_result::handler(&mut ctx, 86401), Err(E::DontReapplyForCitizenWhenAlreadyOne));
    assert_eq!(check_result::handler(&mut check_ctx(3, 10, None), 86401), Err(E::VotingNotStarted));
    assert_eq!(check_result::handler(&mut check_ctx(3, 10, Some(0)), 86400), Err(E::VotingStillOngoing));
}

fn claim_ctx(voter_index: u64, accepted_vote: bool, started: Option<i64>) -> claim_reward::ClaimVoteReward {
    claim_reward::ClaimVoteReward {
        voter: key(3),
        voter_member: member(true, Some(voter_index)),
        member_citizenship_appl: CitizenshipApplication {
            judges: vec![0, 2, 4],
            accept_vote: 3,
            reject_votes: 1,
            appeal_number: 4,
            voting_started: started,
            ..paid_appl()
        },
        member_citizenship_appl_key: key(6),
        vote_acc: CommitteeVotes { bump: 1, voter: key(3), citizenship_appl: key(6), accept: accepted_vote, claimed: false },
        treasury: treasury(10),
    }
}

#[test]
fn claim_reward_pays_majority_once() {
    let mut ctx = claim_ctx(2, true, Some(0));
    let (event, paid) = claim_reward::handler(&mut ctx, 90000).unwrap();
    assert_eq!(event, RewardClaimed { citizenship_appl: key(6), voter: key(3) });
    assert_eq!(paid, Some(16));
    assert!(ctx.vote_acc.claimed);
    assert_eq!(claim_reward::handler(&mut ctx, 90001), Err(E::AlreadyClaimedVoterMoney));
}

#[test]
fn claim_reward_minority_gets_nothing() {
    let mut ctx = claim_ctx(2, false, Some(0));
    let (_, paid) = claim_reward::handler(&mut ctx, 90000).unwrap();
    assert_eq!(paid, None);
    assert!(ctx.vote_acc.claimed);
}

#[test]
fn claim_reward_errors() {
    let mut ctx = claim_ctx(2, true, Some(0));
    ctx.voter_member.citizen = false;
    assert_eq!(claim_reward::handler(&mut ctx, 90000), Err(E::CanNotVoteAsANonCitizen));
    assert_eq!(claim_reward::handler(&mut claim_ctx(1, true, Some(0)), 90000), Err(E::VoterNotInJudges));
    assert_eq!(claim_reward::handler(&mut claim_ctx(2, true, None), 90000), Err(E::VotingNotStarted));
    assert_eq!(claim_reward::handler(&mut claim_ctx(2, true, Some(10)), 86410), Err(E::VotingStillOngoing));
}

fn ubi_ctx(active: bool, distributed: u64, to_distribute: u64) -> claim_ubi::ClaimUBI {
    claim_ubi::ClaimUBI {
        claimer: key(3),
        claimer_member_acc: member(true, Some(4)),
        treasury: Treasury { distribution_active: active, distributions: 2, ..treasury(10) },
        epoch: DistributionEpoch {
            bump: 1,
            num_of_users_to_distribute: to_distribute,
            num_of_users_distributed: distributed,
            distribution_max_user_ind: 10,
        },
        epoch_key: key(12),
        ubi_randomness_acc: UBIRandomnessAccount { bump: 1, epoch: key(12), randomness_account: key(7), accounts: vec![4, 8] },
    }
}

#[test]
fn claim_ubi_pays_and_closes_epoch() {
    let mut ctx = ubi_ctx(true, 0, 2);
    let (event, paid) = claim_ubi::handler(&mut ctx).unwrap();
    assert_eq!(event, UBIDistributed { account: key(3) });
    assert_eq!(paid, 1000);
    assert_eq!(ctx.epoch.num_of_users_distributed, 1);
    assert!(ctx.treasury.distribution_active);
    claim_ubi::handler(&mut ctx).unwrap();
    assert_eq!(ctx.epoch.num_of_users_distributed, 2);
    assert!(!ctx.treasury.distribution_active);
    assert_eq!(ctx.treasury.distributions, 3);
    assert_eq!(claim_ubi::handler(&mut ctx), Err(E::NoEpochStarted));
}

#[test]
fn claim_ubi_errors() {
    let mut ctx = ubi_ctx(true, 0, 2);
    ctx.claimer_member_acc.citizen = false;
    assert_eq!(claim_ubi::handler(&mut ctx), Err(E::CanNotClaimUBI));
    assert_eq!(claim_ubi::handler(&mut ubi_ctx(false, 0, 2)), Err(E::NoEpochStarted));
    let mut ctx = ubi_ctx(true, 0, 2);
    ctx.epoch_key = key(13);
    assert_eq!(claim_ubi::handler(&mut ctx), Err(E::WrongEpochSelected));
    let mut ctx = ubi_ctx(true, 0, 2);
    ctx.claimer_member_acc.citizen_index = Some(5);
    assert_eq!(claim_ubi::handler(&mut ctx), Err(E::CanNotClaimUBIIfNotChoosen));
    assert_eq!(ctx.epoch.num_of_users_distributed, 0);
}

#[test]
fn donate_money_moves_amount() {
    let ctx = donate_money::DonateMoney { doner: key(3) };
    assert_eq!(donate_money::handler(&ctx, 55), (MoneyDonated { doner: key(3), amount: 55 }, 55));
}

fn start_ctx(active: bool) -> start_distribution_epoch::StartDistribution {
    start_distribution_epoch::StartDistribution {
        cranker: key(1),
        treasury: Treasury { distribution_active: active, ..treasury(10) },
        epoch: DistributionEpoch { bump: 0, num_of_users_to_distribute: 0, num_of_users_distributed: 0, distribution_max_user_ind: 0 },
        epoch_bump: 33,
    }
}

#[test]
fn start_distribution_epoch_opens_epoch() {
    let mut ctx = start_ctx(false);
    let event = start_distribution_epoch::handler(&mut ctx, Some(7), 123).unwrap();
    assert_eq!(event, DistributionEpochStarted { num_of_users_to_distribute: 7, started: 123 });
    assert_eq!(
        ctx.epoch,
        DistributionEpoch { bump: 33, num_of_users_to_distribute: 7, num_of_users_distributed: 0, distribution_max_user_ind: 10 }
    );
    assert!(ctx.treasury.distribution_active);
    assert_eq!(
        start_distribution_epoch::handler(&mut ctx, Some(7), 124),
        Err(E::CanNotStartDistributionEpochWhenOneIsAlreadyRunning)
    );
}

#[test]
fn start_distribution_epoch_needs_funds() {
    let mut ctx = start_ctx(false);
    assert_eq!(start_distribution_epoch::handler(&mut ctx, None, 1), Err(E::NotEnoughFundsToStartEpoch));
    assert!(!ctx.treasury.distribution_active);
    assert!(start_distribution_epoch::no_epoch_running(&ctx.treasury));
}

fn ubi_request_ctx(active: bool, drawn: Vec<u64>) -> request_ubi_randomness::RequestRandomnessUBI {
    request_ubi_randomness::RequestRandomnessUBI {
        cranker: key(1),
        treasury: Treasury { distribution_active: active, ..treasury(10) },
        epoch: DistributionEpoch { bump: 1, num_of_users_to_distribute: 3, num_of_users_distributed: 0, distribution_max_user_ind: 10 },
        epoch_key: key(12),
        ubi_randomness_acc: UBIRandomnessAccount { bump: 0, epoch: [0; 32], randomness_account: [0; 32], accounts: drawn },
        ubi_randomness_acc_bump: 44,
        randomness_account: key(7),
    }
}

#[test]
fn request_ubi_randomness_ties_account_to_epoch() {
    let mut ctx = ubi_request_ctx(true, vec![1]);
    request_ubi_randomness::handler(&mut ctx, [1; 32]).unwrap();
    assert_eq!(
        ctx.ubi_randomness_acc,
        UBIRandomnessAccount { bump: 44, epoch: key(12), randomness_account: key(7), accounts: vec![] }
    );
}

#[test]
fn request_ubi_randomness_errors() {
    assert_eq!(request_ubi_randomness::handler(&mut ubi_request_ctx(false, vec![]), [1; 32]), Err(E::NoEpochStarted));
    assert_eq!(
        request_ubi_randomness::handler(&mut ubi_request_ctx(true, vec![1, 2, 3, 4, 5]), [1; 32]),
        Err(E::RandomnessFull)
    );
    assert_eq!(request_ubi_randomness::handler(&mut ubi_request_ctx(true, vec![]), [0; 32]), Err(E::NullSeedInvalidForVrf));
}

fn ubi_reveal_ctx(citizens: u64) -> reveal_ubi_randomness::RevealRandomnessUBI {
    reveal_ubi_randomness::RevealRandomnessUBI {
        cranker: key(1),
        randomness_account_data: key(7),
        treasury: Treasury { distribution_active: true, ..treasury(citizens) },
        epoch: DistributionEpoch { bump: 1, num_of_users_to_distribute: 3, num_of_users_distributed: 0, distribution_max_user_ind: citizens },
        epoch_key: key(12),
        ubi_randomness_acc: UBIRandomnessAccount { bump: 1, epoch: key(12), randomness_account: key(7), accounts: vec![] },
    }
}

#[test]
fn reveal_ubi_randomness_draws_recipients() {
    let mut ctx = ubi_reveal_ctx(1000);
    let event = reveal_ubi_randomness::handler(&mut ctx, Some(counting_value())).unwrap();
    assert_eq!(event.accounts, vec![753, 77, 18, 700, 865]);
    assert_eq!(ctx.ubi_randomness_acc.accounts, vec![753, 77, 18, 700, 865]);

    let mut ctx = ubi_reveal_ctx(3);
    reveal_ubi_randomness::handler(&mut ctx, Some(counting_value())).unwrap();
    assert_eq!(ctx.ubi_randomness_acc.accounts, vec![0, 1, 2]);

    let mut ctx = ubi_reveal_ctx(3);
    let event = reveal_ubi_randomness::handler(&mut ctx, None).unwrap();
    assert_eq!(event.accounts, Vec::<u64>::new());
}

#[test]
fn reveal_ubi_randomness_errors() {
    let mut ctx = ubi_reveal_ctx(10);
    ctx.treasury.distribution_active = false;
    assert_eq!(reveal_ubi_randomness::handler(&mut ctx, None), Err(E::NoEpochStarted));
    let mut ctx = ubi_reveal_ctx(10);
    ctx.ubi_randomness_acc.accounts = vec![1, 2, 3, 4, 5];
    assert_eq!(reveal_ubi_randomness::handler(&mut ctx, None), Err(E::RandomnessFull));
    let mut ctx = ubi_reveal_ctx(10);
    ctx.epoch_key = key(13);
    assert_eq!(reveal_ubi_randomness::handler(&mut ctx, None), Err(E::WrongEpochSelected));
    let mut ctx = ubi_reveal_ctx(10);
    ctx.randomness_account_data = key(8);
    assert_eq!(reveal_ubi_randomness::handler(&mut ctx, Some(counting_value())), Err(E::WrongRandomnessAccountSelected));
    assert_eq!(ctx.ubi_randomness_acc.accounts, Vec::<u64>::new());
}

#[test]
fn aborting_inputs_are_recognised() {
    assert!(apply_citizenship::would_abort(&apply_ctx(false, 255)));
    assert!(!apply_citizenship::would_abort(&apply_ctx(true, 255)));
    assert!(!apply_citizenship::would_abort(&apply_ctx(false, 254)));

    let mut fund = fund_citizenship_appl::FundCitizenshipAppl {
        member_creator: key(1),
        member: member(false, None),
        citizenship_appl: CitizenshipApplication { appeal_number: 61, ..blank_appl() },
        citizenship_appl_key: key(6),
    };
    assert!(fund_citizenship_appl::would_abort(&fund));
    fund.citizenship_appl.fee_paid = true;
    assert!(!fund_citizenship_appl::would_abort(&fund));
    fund.citizenship_appl.fee_paid = false;
    fund.citizenship_appl.appeal_number = 60;
    assert!(!fund_citizenship_appl::would_abort(&fund));

    let mut voucher = voucher_ctx(true, key(2), false);
    voucher.usdc_decimals = 20;
    assert!(fund_voucher::would_abort(&voucher));
    voucher.citizenship_appl.voucher_fee_paid = true;
    assert!(!fund_voucher::would_abort(&voucher));

    let mut v = vote_ctx(2, false);
    v.voter_member.citizen_index = None;
    assert!(vote::would_abort(&v, 2000, false));
    let mut v = vote_ctx(2, false);
    v.member_citizenship_appl.accept_vote = 255;
    assert!(vote::would_abort(&v, 2000, true));
    assert!(!vote::would_abort(&v, 2000, false));
    v.member_citizenship_appl.voting_started = Some(i64::MIN);
    assert!(vote::would_abort(&v, 2000, false));

    assert!(check_result::would_abort(&check_ctx(3, 10, Some(i64::MIN)), 1));
    assert!(check_result::would_abort(&check_ctx(3, u64::MAX, Some(0)), 100000));
    assert!(!check_result::would_abort(&check_ctx(3, 10, Some(0)), 100000));

    let mut c = claim_ctx(2, true, Some(0));
    c.member_citizenship_appl.appeal_number = 61;
    assert!(claim_reward::would_abort(&c, 100000));
    assert!(!claim_reward::would_abort(&c, 100));

    let mut u = ubi_ctx(true, u64::MAX, 2);
    assert!(claim_ubi::would_abort(&u));
    u.epoch.num_of_users_distributed = 0;
    assert!(!claim_ubi::would_abort(&u));
}
