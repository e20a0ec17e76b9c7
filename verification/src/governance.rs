//! The governance state machine: threshold-gated proposal creation,
//! single-ballot time-boxed voting with stake-weighted power, and one-shot
//! execution under a strict-majority rule.
//!
//! A proposal is open while `start_time <= now <= end_time` and not yet
//! executed; execution closes it for good. The existence of a ballot
//! record for a (voter, proposal) pair is itself the "already voted"
//! guard: the host reports it, and while it holds no second ballot can
//! move a tally.

use vstd::prelude::*;
use crate::constants::{MAX_DESCRIPTION_LEN, MAX_TITLE_LEN, VOTING_PERIOD};
use crate::errors::DePINError;
use crate::state::{AccountId, NetworkState, Proposal, ProposalType, UserProfile, Vote};

verus! {

/// One ballot per (voter, proposal) pair, created on first vote. The
/// voting power is snapshotted at vote time; later stake changes never
/// reach a cast ballot or a past tally.
#[derive(Clone, PartialEq, Eq, Debug)]
pub struct UserVote {
    pub voter: AccountId,
    pub proposal: AccountId,
    pub vote: Vote,
    pub voting_power: u64,
    pub timestamp: i64,
}

/// The outcome of creating a proposal at time `now`: the new proposal
/// record and the registry with its sequence advanced, or the specific
/// rejection. Oversize text is rejected, never truncated; the proposer
/// needs aggregate stake at or above the registry threshold.
pub open spec fn spec_create_proposal(
    registry: NetworkState,
    profile: UserProfile,
    proposer: AccountId,
    title: Vec<u8>,
    description: Vec<u8>,
    proposal_type: ProposalType,
    now: i64,
) -> Result<(Proposal, NetworkState), DePINError> {
    if title@.len() > MAX_TITLE_LEN {
        Err(DePINError::TitleTooLong)
    } else if description@.len() > MAX_DESCRIPTION_LEN {
        Err(DePINError::DescriptionTooLong)
    } else if profile.total_staked < registry.governance_threshold {
        Err(DePINError::InsufficientTokensForProposal)
    } else if registry.proposals_count + 1 > u64::MAX || now + VOTING_PERIOD > i64::MAX {
        Err(DePINError::ArithmeticOverflow)
    } else {
        Ok(
            (
                Proposal {
                    id: registry.proposals_count,
                    proposer,
                    title,
                    description,
                    proposal_type,
                    yes_votes: 0,
                    no_votes: 0,
                    total_votes: 0,
                    start_time: now,
                    end_time: (now + VOTING_PERIOD) as i64,
                    executed: false,
                    approved: false,
                },
                NetworkState { proposals_count: (registry.proposals_count + 1) as u64, ..registry },
            ),
        )
    }
}

/// Create a proposal at time `now`. The id is drawn from the registry's
/// monotonic sequence, the voting window is `VOTING_PERIOD` seconds from
/// `now`, tallies start at zero, and the executed/approved flags start
/// false. On any rejection the registry is unchanged.
pub fn create_proposal(
    registry: &mut NetworkState,
    profile: &UserProfile,
    proposer: AccountId,
    title: Vec<u8>,
    description: Vec<u8>,
    proposal_type: ProposalType,
    now: i64,
) -> (r: Result<Proposal, DePINError>)
    ensures
        match spec_create_proposal(
            *old(registry),
            *profile,
            proposer,
            title,
            description,
            proposal_type,
            now,
        ) {
            Ok(post) => {
                &&& r == Ok::<Proposal, DePINError>(post.0)
                &&& *final(registry) == post.1
            },
            Err(e) => {
                &&& r == Err::<Proposal, DePINError>(e)
                &&& *final(registry) == *old(registry)
            },
        },
{
    if title.len() > MAX_TITLE_LEN {
        return Err(DePINError::TitleTooLong);
    }
    if description.len() > MAX_DESCRIPTION_LEN {
        return Err(DePINError::DescriptionTooLong);
    }
    if profile.total_staked < registry.governance_threshold {
        return Err(DePINError::InsufficientTokensForProposal);
    }
    let next_count = match registry.proposals_count.checked_add(1) {
        Some(v) => v,
        None => {
            return Err(DePINError::ArithmeticOverflow);
        },
    };
    let end_time = match now.checked_add(VOTING_PERIOD) {
        Some(v) => v,
        None => {
            return Err(DePINError::ArithmeticOverflow);
        },
    };
    let proposal = Proposal {
        id: registry.proposals_count,
        proposer,
        title,
        description,
        proposal_type,
        yes_votes: 0,
        no_votes: 0,
        total_votes: 0,
        start_time: now,
        end_time,
        executed: false,
        approved: false,
    };
    registry.proposals_count = next_count;
    Ok(proposal)
}

/// The outcome of a ballot cast at time `now`, where `already_voted` says
/// whether the store holds a ballot record for this (voter, proposal)
/// pair: the updated proposal and profile and the new ballot, or the
/// specific rejection. The ballot's power is the voter's aggregate stake,
/// snapshotted now; abstain counts the ballot without moving a tally.
pub open spec fn spec_vote_proposal(
    proposal: Proposal,
    profile: UserProfile,
    already_voted: bool,
    voter: AccountId,
    proposal_key: AccountId,
    vote: Vote,
    now: i64,
) -> Result<(Proposal, UserProfile, UserVote), DePINError> {
    let power = profile.total_staked;
    if now < proposal.start_time || now > proposal.end_time {
        Err(DePINError::VotingPeriodEnded)
    } else if proposal.executed {
        Err(DePINError::ProposalAlreadyExecuted)
    } else if already_voted {
        Err(DePINError::AlreadyVoted)
    } else if power == 0 {
        Err(DePINError::NoVotingPower)
    } else if (vote == Vote::Yes && proposal.yes_votes + power > u64::MAX) || (vote == Vote::No
        && proposal.no_votes + power > u64::MAX) || proposal.total_votes + 1 > u32::MAX
        || profile.governance_votes + 1 > u32::MAX {
        Err(DePINError::ArithmeticOverflow)
    } else {
        Ok(
            (
                Proposal {
                    yes_votes: if vote == Vote::Yes {
                        (proposal.yes_votes + power) as u64
                    } else {
                        proposal.yes_votes
                    },
                    no_votes: if vote == Vote::No {
                        (proposal.no_votes + power) as u64
                    } else {
                        proposal.no_votes
                    },
                    total_votes: (proposal.total_votes + 1) as u32,
                    ..proposal
                },
                UserProfile { governance_votes: (profile.governance_votes + 1) as u32, ..profile },
                UserVote { voter, proposal: proposal_key, vote, voting_power: power, timestamp: now },
            ),
        )
    }
}

/// Cast a ballot at time `now`. `already_voted` is the host's report of
/// whether a ballot record for (voter, proposal) exists; `proposal_key`
/// is the proposal record's address, kept in the ballot. On success the
/// chosen tally grows by the snapshotted power, the ballot count and the
/// voter's ballot tally each grow by one, and the new ballot record is
/// returned for the host to store; on any rejection nothing changes.
pub fn vote_proposal(
    proposal: &mut Proposal,
    profile: &mut UserProfile,
    already_voted: bool,
    voter: AccountId,
    proposal_key: AccountId,
    vote: Vote,
    now: i64,
) -> (r: Result<UserVote, DePINError>)
    ensures
        match spec_vote_proposal(
            *old(proposal),
            *old(profile),
            already_voted,
            voter,
            proposal_key,
            vote,
            now,
        ) {
            Ok(post) => {
                &&& r == Ok::<UserVote, DePINError>(post.2)
                &&& *final(proposal) == post.0
                &&& *final(profile) == post.1
            },
            Err(e) => {
                &&& r == Err::<UserVote, DePINError>(e)
                &&& *final(proposal) == *old(proposal)
                &&& *final(profile) == *old(profile)
            },
        },
{
    if now < proposal.start_time || now > proposal.end_time {
        return Err(DePINError::VotingPeriodEnded);
    }
    if proposal.executed {
        return Err(DePINError::ProposalAlreadyExecuted);
    }
    if already_voted {
        return Err(DePINError::AlreadyVoted);
    }
    let voting_power = profile.total_staked;
    if voting_power == 0 {
        return Err(DePINError::NoVotingPower);
    }
    let new_yes = match vote {
        Vote::Yes => match proposal.yes_votes.checked_add(voting_power) {
            Some(v) => v,
            None => {
                return Err(DePINError::ArithmeticOverflow);
            },
        },
        _ => proposal.yes_votes,
    };
    let new_no = match vote {
        Vote::No => match proposal.no_votes.checked_add(voting_power) {
            Some(v) => v,
            None => {
                return Err(DePINError::ArithmeticOverflow);
            },
        },
        _ => proposal.no_votes,
    };
    let new_total = match proposal.total_votes.checked_add(1) {
        Some(v) => v,
        None => {
            return Err(DePINError::ArithmeticOverflow);
        },
    };
    let new_governance_votes = match profile.governance_votes.checked_add(1) {
        Some(v) => v,
        None => {
            return Err(DePINError::ArithmeticOverflow);
        },
    };
    proposal.yes_votes = new_yes;
    proposal.no_votes = new_no;
    proposal.total_votes = new_total;
    profile.governance_votes = new_governance_votes;
    Ok(UserVote { voter, proposal: proposal_key, vote, voting_power, timestamp: now })
}

/// The outcome of executing a proposal at time `now`: the closed proposal,
/// or the specific rejection. Execution waits for the window to end, runs
/// at most once, and needs at least one weighted ballot; approval is a
/// strict majority of the weighted yes/no total, abstain weight excluded.
pub open spec fn spec_execute_proposal(proposal: Proposal, now: i64) -> Result<
    Proposal,
    DePINError,
> {
    if now <= proposal.end_time {
        Err(DePINError::VotingStillActive)
    } else if proposal.executed {
        Err(DePINError::ProposalAlreadyExecuted)
    } else if proposal.yes_votes + proposal.no_votes > u64::MAX {
        Err(DePINError::ArithmeticOverflow)
    } else if proposal.yes_votes + proposal.no_votes == 0 {
        Err(DePINError::NoVotesCast)
    } else {
        Ok(
            Proposal {
                executed: true,
                approved: proposal.yes_votes > (proposal.yes_votes + proposal.no_votes) / 2,
                ..proposal
            },
        )
    }
}

/// Execute a proposal at time `now`, closing it for good. On success
/// `executed` becomes true and `approved` records the strict-majority
/// outcome: approved exactly when `yes_votes` exceeds half the weighted
/// yes/no total. The category-specific effect of an approved proposal is
/// dispatched by the host from the returned record; on any rejection
/// nothing changes.
pub fn execute_proposal(proposal: &mut Proposal, now: i64) -> (r: Result<(), DePINError>)
    ensures
        match spec_execute_proposal(*old(proposal), now) {
            Ok(post) => {
                &&& r is Ok
                &&& *final(proposal) == post
                &&& post.executed
                &&& post.approved == (old(proposal).yes_votes > (old(proposal).yes_votes + old(
                    proposal,
                ).no_votes) / 2)
            },
            Err(e) => {
                &&& r == Err::<(), DePINError>(e)
                &&& *final(proposal) == *old(proposal)
            },
        },
{
    if now <= proposal.end_time {
        return Err(DePINError::VotingStillActive);
    }
    if proposal.executed {
        return Err(DePINError::ProposalAlreadyExecuted);
    }
    let total_voted = match proposal.yes_votes.checked_add(proposal.no_votes) {
        Some(v) => v,
        None => {
            return Err(DePINError::ArithmeticOverflow);
        },
    };
    if total_voted == 0 {
        return Err(DePINError::NoVotesCast);
    }
    let approval_threshold = total_voted / 2;
    proposal.approved = proposal.yes_votes > approval_threshold;
    proposal.executed = true;
    Ok(())
}

/// A voter casts at most one ballot per proposal. While the store holds a
/// ballot record for the pair, every further ballot is rejected — inside
/// an open window on an unexecuted proposal, specifically as "already
/// voted" — so no tally ever moves twice for one voter.
pub proof fn lemma_one_ballot_per_voter(
    proposal: Proposal,
    profile: UserProfile,
    voter: AccountId,
    proposal_key: AccountId,
    vote: Vote,
    now: i64,
)
    ensures
        spec_vote_proposal(proposal, profile, true, voter, proposal_key, vote, now) is Err,
        proposal.start_time <= now <= proposal.end_time && !proposal.executed
            ==> spec_vote_proposal(proposal, profile, true, voter, proposal_key, vote, now) == Err::<
            (Proposal, UserProfile, UserVote),
            DePINError,
        >(DePINError::AlreadyVoted),
{
}

/// Execution is one-shot. Before the window ends it is always rejected as
/// "voting still active". After the window, the first attempt on an open
/// proposal with at least one weighted ballot succeeds; once one
/// execution succeeds, every further attempt is rejected, whatever the
/// time — after the window closes, specifically as "already executed".
pub proof fn lemma_execute_one_shot(proposal: Proposal, now: i64, later: i64)
    ensures
        now <= proposal.end_time ==> spec_execute_proposal(proposal, now) == Err::<
            Proposal,
            DePINError,
        >(DePINError::VotingStillActive),
        now > proposal.end_time && !proposal.executed && 0 < proposal.yes_votes
            + proposal.no_votes <= u64::MAX ==> spec_execute_proposal(proposal, now) is Ok,
        match spec_execute_proposal(proposal, now) {
            Ok(closed) => {
                &&& spec_execute_proposal(closed, later) is Err
                &&& later > proposal.end_time ==> spec_execute_proposal(closed, later) == Err::<
                    Proposal,
                    DePINError,
                >(DePINError::ProposalAlreadyExecuted)
            },
            Err(_) => true,
        },
{
}

} // verus!
