use vstd::prelude::*;

verus! {

/// The errors with which an instruction refuses its input.
#[derive(Debug, Clone, Copy, PartialEq, Eq, Structural)]
pub enum GraphOfHumanityErrors {
    /// Your current citizenship application is already pending, please fund it or wait for it to be decided!
    CitizenshipApplicationPending,
    /// Can not fund voucher when you are not a member yourselves!
    NonMemberCantVouch,
    /// Can not fulfill somebody else's voucher
    CanNotFullfillSomebodyElseVoucher,
    /// Can not choose judges before user has paid citizenship fee and so has his voucher
    CanNotAssignJudgesBeforeFeePaid,
    /// Can only apply crank as a member citizen
    CanNotUseCrankAsANonCitizen,
    /// Can not fund already funded citizenship appl
    CitizenshipApplAlreadyFunded,
    /// Can not fund already funded citizenship voucher
    CitizenshipVoucherAlreadyFunded,
    /// Judges already assigned
    CitizenApplJudgesAlreadyAssigned,
    /// Randomness already revealed
    RandomnessAlreadyRevealed,
    /// Judge randomness is not stored in this account
    JudgeRandomnessNotStoredHere,
    /// Randomness already requested, pls use it first
    RandomnessJudgeAlreadyRequested,
    /// You are already a citizien, why are you re-applying?
    DontReapplyForCitizenWhenAlreadyOne,
    /// Can not vote as a non-citizen
    CanNotVoteAsANonCitizen,
    /// Voter not in judges
    VoterNotInJudges,
    /// Voting has not started
    VotingNotStarted,
    /// Voting has already ended
    VotingPeriodEnded,
    /// Voting still ongoing
    VotingStillOngoing,
    /// You have already claimed your money
    AlreadyClaimedVoterMoney,
    /// Can not start another distribution epoch when one is already in place
    CanNotStartDistributionEpochWhenOneIsAlreadyRunning,
    /// Can not request ubi randomness when epoch has not even started
    NoEpochStarted,
    /// Not enough money in treasury to start epoch
    NotEnoughFundsToStartEpoch,
    /// Randomness for this acc already full
    RandomnessFull,
    /// Wrong epoch for randomness acc
    WrongEpochSelected,
    /// Wrong randomness account selected
    WrongRandomnessAccountSelected,
    /// Can not claim UBI as a non-citizen
    CanNotClaimUBI,
    /// Can not claim ubi if not chhoosen
    CanNotClaimUBIIfNotChoosen,
    /// The all-zero seed is not a valid VRF seed
    NullSeedInvalidForVrf,
}

} // verus!
