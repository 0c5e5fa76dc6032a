//! The rules that gate each governance action.
//!
//! Each rule is a total function of plain values. Its contract names the one
//! outcome for every input through a spec function of the same shape, so the
//! order in which the checks are made is part of what is stated.

use vstd::prelude::*;
use crate::cell_collector::DAOCellType;
use crate::error::Error;
use crate::types::{ProposalStatus, RepresentativeStatus};

verus! {

/// Outcome of a treasury operation that carries `signature_count` signatures
/// where `required_threshold` are needed.
pub open spec fn treasury_operation_outcome(signature_count: nat, required_threshold: nat) -> Result<
    (),
    Error,
> {
    if signature_count < required_threshold {
        Err(Error::InsufficientSignatures)
    } else {
        Ok(())
    }
}

/// Outcome of submitting a proposal with `deposit` where `min_deposit` is asked.
pub open spec fn proposal_submission_outcome(deposit: nat, min_deposit: nat) -> Result<(), Error> {
    if deposit < min_deposit {
        Err(Error::InsufficientDeposit)
    } else {
        Ok(())
    }
}

/// Outcome of casting a vote. The proposal's status is looked at first, then
/// the voting window, then whether the voter has voted before.
pub open spec fn vote_outcome(
    proposal_status: ProposalStatus,
    current_block: nat,
    voting_start: nat,
    voting_end: nat,
    has_voted: bool,
) -> Result<(), Error> {
    if proposal_status != ProposalStatus::Active {
        Err(Error::ProposalNotActive)
    } else if current_block < voting_start {
        Err(Error::VotingPeriodNotStarted)
    } else if current_block > voting_end {
        Err(Error::VotingPeriodEnded)
    } else if has_voted {
        Err(Error::AlreadyVoted)
    } else {
        Ok(())
    }
}

/// Outcome of delegating `new_delegation` to a representative who already
/// holds `current_delegated`. The sum is taken in the integers, so a total
/// beyond 128 bits exceeds every cap.
pub open spec fn delegation_outcome(
    representative_status: RepresentativeStatus,
    delegation_cap: Option<u128>,
    current_delegated: nat,
    new_delegation: nat,
) -> Result<(), Error> {
    if representative_status != RepresentativeStatus::Active {
        Err(Error::RepresentativeNotActive)
    } else if delegation_cap matches Some(cap) && current_delegated + new_delegation > cap {
        Err(Error::DelegationCapExceeded)
    } else {
        Ok(())
    }
}

/// Checks that a treasury operation carries enough signatures. Only their
/// number counts: neither their bytes nor the signers are looked at.
pub fn validate_treasury_operation(
    signatures: &[Vec<u8>],
    required_threshold: u8,
    authorized_signers: &[[u8; 32]],
) -> (outcome: Result<(), Error>)
    ensures
        outcome == treasury_operation_outcome(signatures@.len(), required_threshold as nat),
{
    if signatures.len() < required_threshold as usize {
        return Err(Error::InsufficientSignatures);
    }
    Ok(())
}

/// Checks that a proposal's deposit reaches the minimum.
pub fn validate_proposal_submission(
    deposit: u128,
    min_deposit: u128,
    proposer_lock_hash: &[u8; 32],
) -> (outcome: Result<(), Error>)
    ensures
        outcome == proposal_submission_outcome(deposit as nat, min_deposit as nat),
{
    if deposit < min_deposit {
        return Err(Error::InsufficientDeposit);
    }
    Ok(())
}

/// Checks that a vote may be cast on a proposal at `current_block`.
pub fn validate_vote(
    proposal_status: ProposalStatus,
    current_block: u64,
    voting_start: u64,
    voting_end: u64,
    voter_lock_hash: &[u8; 32],
    has_voted: bool,
) -> (outcome: Result<(), Error>)
    ensures
        outcome == vote_outcome(
            proposal_status,
            current_block as nat,
            voting_start as nat,
            voting_end as nat,
            has_voted,
        ),
{
    if proposal_status != ProposalStatus::Active {
        return Err(Error::ProposalNotActive);
    }
    if current_block < voting_start {
        return Err(Error::VotingPeriodNotStarted);
    }
    if current_block > voting_end {
        return Err(Error::VotingPeriodEnded);
    }
    if has_voted {
        return Err(Error::AlreadyVoted);
    }
    Ok(())
}

/// Checks that a representative may receive `new_delegation` more.
pub fn validate_delegation(
    representative_status: RepresentativeStatus,
    delegation_cap: Option<u128>,
    current_delegated: u128,
    new_delegation: u128,
) -> (outcome: Result<(), Error>)
    ensures
        outcome == delegation_outcome(
            representative_status,
            delegation_cap,
            current_delegated as nat,
            new_delegation as nat,
        ),
{
    if representative_status != RepresentativeStatus::Active {
        return Err(Error::RepresentativeNotActive);
    }
    if let Some(cap) = delegation_cap {
        match current_delegated.checked_add(new_delegation) {
            Some(total) => {
                if total > cap {
                    return Err(Error::DelegationCapExceeded);
                }
            },
            None => {
                return Err(Error::DelegationCapExceeded);
            },
        }
    }
    Ok(())
}

/// How many cells of one role a transaction may hold on one side.
#[derive(Debug, Clone, Copy, PartialEq, Eq, Structural)]
pub enum CellCountConstraint {
    /// As many as given, no more and no fewer.
    Exactly(usize),
    /// As many as given or fewer.
    AtMost(usize),
}

/// The shape that a transaction of one kind of operation must have.
#[derive(Debug, Clone, Copy)]
pub struct TransactionValidationRules {
    /// The name of the operation.
    pub operation: &'static str,
    /// The number of arguments that the operation takes.
    pub argument_count: usize,
    /// The role of the cells that the operation works on.
    pub cell_type: DAOCellType,
    /// How many cells of that role the transaction consumes.
    pub inputs: CellCountConstraint,
    /// How many cells of that role the transaction produces.
    pub outputs: CellCountConstraint,
}

/// Returns the shape of a treasury operation: two arguments, one treasury cell
/// consumed and one produced.
pub fn treasury_validation_rules() -> (rules: TransactionValidationRules)
    ensures
        rules.operation@ == "treasury_operation"@,
        rules.argument_count == 2,
        rules.cell_type == DAOCellType::Treasury,
        rules.inputs == CellCountConstraint::Exactly(1),
        rules.outputs == CellCountConstraint::Exactly(1),
{
    TransactionValidationRules {
        operation: "treasury_operation",
        argument_count: 2,
        cell_type: DAOCellType::Treasury,
        inputs: CellCountConstraint::Exactly(1),
        outputs: CellCountConstraint::Exactly(1),
    }
}

/// Returns the shape of a proposal operation: two arguments, at most one
/// proposal cell consumed and one produced.
pub fn proposal_validation_rules() -> (rules: TransactionValidationRules)
    ensures
        rules.operation@ == "proposal_operation"@,
        rules.argument_count == 2,
        rules.cell_type == DAOCellType::Proposal,
        rules.inputs == CellCountConstraint::AtMost(1),
        rules.outputs == CellCountConstraint::Exactly(1),
{
    TransactionValidationRules {
        operation: "proposal_operation",
        argument_count: 2,
        cell_type: DAOCellType::Proposal,
        inputs: CellCountConstraint::AtMost(1),
        outputs: CellCountConstraint::Exactly(1),
    }
}

/// A vote on a proposal that is not active is refused for that reason,
/// whatever the block, the window and the voter's record are.
pub proof fn lemma_vote_status_first(
    proposal_status: ProposalStatus,
    current_block: nat,
    voting_start: nat,
    voting_end: nat,
    has_voted: bool,
)
    requires
        proposal_status != ProposalStatus::Active,
    ensures
        vote_outcome(proposal_status, current_block, voting_start, voting_end, has_voted) == Err::<
            (),
            Error,
        >(Error::ProposalNotActive),
{
}

/// A vote is accepted exactly when the proposal is active, the block lies in
/// the voting window, both ends included, and the voter has not voted.
pub proof fn lemma_vote_accepted(
    proposal_status: ProposalStatus,
    current_block: nat,
    voting_start: nat,
    voting_end: nat,
    has_voted: bool,
)
    ensures
        vote_outcome(proposal_status, current_block, voting_start, voting_end, has_voted) is Ok <==> (
        proposal_status == ProposalStatus::Active && voting_start <= current_block <= voting_end
            && !has_voted),
{
}

/// A delegation is accepted exactly when the representative is active and the
/// total stays within the cap, if there is one.
pub proof fn lemma_delegation_accepted(
    representative_status: RepresentativeStatus,
    delegation_cap: Option<u128>,
    current_delegated: nat,
    new_delegation: nat,
)
    ensures
        delegation_outcome(representative_status, delegation_cap, current_delegated, new_delegation)
            is Ok <==> (representative_status == RepresentativeStatus::Active && (delegation_cap
            matches Some(cap) ==> current_delegated + new_delegation <= cap)),
{
}

} // verus!
