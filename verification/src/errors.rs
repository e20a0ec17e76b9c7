//! The error taxonomy. Every operation that can fail returns one of these
//! kinds; an error always means the operation aborted with no mutation.

use vstd::prelude::*;

verus! {

/// Why an operation was rejected. Validation errors are raised before any
/// state is read beyond what the check itself needs; precondition errors
/// after reading current state but before any mutation; arithmetic errors
/// (overflow, a clock that moved backwards) are always fatal to the
/// operation and never wrap around silently.
#[derive(Clone, Copy, PartialEq, Eq, Structural, Debug)]
pub enum DePINError {
    LocationTooLong,
    InvalidCoverageRadius,
    InvalidBandwidth,
    NameTooLong,
    TooManyServiceAreas,
    ServiceAreaTooLong,
    InvalidVehicleCount,
    InvalidFarmSize,
    TooManyCropTypes,
    CropNameTooLong,
    InvalidUptime,
    NoDataTransferred,
    SubmissionTooFrequent,
    InvalidScore,
    NoDeliveries,
    InvalidMoisture,
    InvalidHumidity,
    InvalidPH,
    InvalidTemperature,
    InvalidStakeAmount,
    PoolInactive,
    BelowMinimumStake,
    PoolCapacityExceeded,
    InsufficientStake,
    StakeLocked,
    NoStakeFound,
    NoRewardsToClaim,
    TitleTooLong,
    DescriptionTooLong,
    InsufficientTokensForProposal,
    VotingPeriodEnded,
    ProposalAlreadyExecuted,
    AlreadyVoted,
    NoVotingPower,
    VotingStillActive,
    NoVotesCast,
    DistributionTooFrequent,
    InvalidRewardRate,
    Unauthorized,
    NotInitialized,
    InvalidAccountData,
    ArithmeticOverflow,
    InvalidProgramState,
}

} // verus!
