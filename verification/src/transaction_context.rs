//! The rules of one transaction, checked in order.

use vstd::prelude::*;
use crate::error::Error;
use crate::types::{ProposalStatus, RepresentativeStatus};
use crate::validation::{
    delegation_outcome, proposal_submission_outcome, treasury_operation_outcome,
    validate_delegation, validate_proposal_submission, validate_treasury_operation,
    validate_vote, vote_outcome,
};

verus! {

/// One rule together with the values it is applied to.
#[derive(Debug, Clone)]
pub enum RuleCheck {
    /// A treasury spend with its signatures.
    TreasuryOperation {
        signatures: Vec<Vec<u8>>,
        required_threshold: u8,
        authorized_signers: Vec<[u8; 32]>,
    },
    /// The submission of a proposal with its deposit.
    ProposalSubmission { deposit: u128, min_deposit: u128, proposer_lock_hash: [u8; 32] },
    /// A vote cast at `current_block`.
    Vote {
        proposal_status: ProposalStatus,
        current_block: u64,
        voting_start: u64,
        voting_end: u64,
        voter_lock_hash: [u8; 32],
        has_voted: bool,
    },
    /// A delegation to a representative.
    Delegation {
        representative_status: RepresentativeStatus,
        delegation_cap: Option<u128>,
        current_delegated: u128,
        new_delegation: u128,
    },
}

impl RuleCheck {
    /// What the rule says of its values.
    pub open spec fn outcome(self) -> Result<(), Error> {
        match self {
            RuleCheck::TreasuryOperation { signatures, required_threshold, authorized_signers } => {
                treasury_operation_outcome(signatures@.len(), required_threshold as nat)
            },
            RuleCheck::ProposalSubmission { deposit, min_deposit, proposer_lock_hash } => {
                proposal_submission_outcome(deposit as nat, min_deposit as nat)
            },
            RuleCheck::Vote {
                proposal_status,
                current_block,
                voting_start,
                voting_end,
                voter_lock_hash,
                has_voted,
            } => vote_outcome(
                proposal_status,
                current_block as nat,
                voting_start as nat,
                voting_end as nat,
                has_voted,
            ),
            RuleCheck::Delegation {
                representative_status,
                delegation_cap,
                current_delegated,
                new_delegation,
            } => delegation_outcome(
                representative_status,
                delegation_cap,
                current_delegated as nat,
                new_delegation as nat,
            ),
        }
    }

    /// Applies the rule to its values.
    pub fn validate(&self) -> (outcome: Result<(), Error>)
        ensures
            outcome == self.outcome(),
    {
        match self {
            RuleCheck::TreasuryOperation { signatures, required_threshold, authorized_signers } => {
                validate_treasury_operation(
                    signatures.as_slice(),
                    *required_threshold,
                    authorized_signers.as_slice(),
                )
            },
            RuleCheck::ProposalSubmission { deposit, min_deposit, proposer_lock_hash } => {
                validate_proposal_submission(*deposit, *min_deposit, proposer_lock_hash)
            },
            RuleCheck::Vote {
                proposal_status,
                current_block,
                voting_start,
                voting_end,
                voter_lock_hash,
                has_voted,
            } => validate_vote(
                *proposal_status,
                *current_block,
                *voting_start,
                *voting_end,
                voter_lock_hash,
                *has_voted,
            ),
            RuleCheck::Delegation {
                representative_status,
                delegation_cap,
                current_delegated,
                new_delegation,
            } => validate_delegation(
                *representative_status,
                *delegation_cap,
                *current_delegated,
                *new_delegation,
            ),
        }
    }
}

/// The outcome of the rules from position `start` on: that of the first rule
/// that fails, or success where none does.
pub open spec fn rules_outcome_from(checks: Seq<RuleCheck>, start: nat) -> Result<(), Error>
    decreases checks.len() - start,
{
    if start >= checks.len() {
        Ok(())
    } else if checks[start as int].outcome() is Err {
        checks[start as int].outcome()
    } else {
        rules_outcome_from(checks, start + 1)
    }
}

/// The outcome of a transaction's rules, taken in order.
pub open spec fn rules_outcome(checks: Seq<RuleCheck>) -> Result<(), Error> {
    rules_outcome_from(checks, 0)
}

/// The rules that apply to one transaction, in the order in which they are
/// checked.
#[derive(Debug, Clone)]
pub struct DAOTransactionContext {
    /// The rules, first to last.
    pub checks: Vec<RuleCheck>,
}

impl DAOTransactionContext {
    /// Makes the context of a transaction to which `checks` apply.
    pub fn new(checks: Vec<RuleCheck>) -> (context: Self)
        ensures
            context.checks@ == checks@,
    {
        DAOTransactionContext { checks }
    }

    /// Checks the rules in order and stops at the first that fails.
    pub fn validate_dao_rules(&self) -> (outcome: Result<(), Error>)
        ensures
            outcome == rules_outcome(self.checks@),
    {
        let mut index: usize = 0;
        while index < self.checks.len()
            invariant
                index <= self.checks@.len(),
                rules_outcome(self.checks@) == rules_outcome_from(self.checks@, index as nat),
            decreases self.checks@.len() - index,
        {
            let outcome = self.checks[index].validate();
            if outcome.is_err() {
                return outcome;
            }
            index += 1;
        }
        Ok(())
    }
}

/// From `start` on the rules succeed exactly when each of them does, and an
/// error is that of the first rule that fails.
pub proof fn lemma_rules_outcome_from(checks: Seq<RuleCheck>, start: nat)
    requires
        start <= checks.len(),
    ensures
        rules_outcome_from(checks, start) is Ok <==> (forall|i: int|
            start <= i < checks.len() ==> (#[trigger] checks[i]).outcome() is Ok),
        rules_outcome_from(checks, start) is Err ==> (exists|i: int|
            start <= i < checks.len() && (#[trigger] checks[i]).outcome() == rules_outcome_from(
                checks,
                start,
            ) && (forall|j: int| start <= j < i ==> (#[trigger] checks[j]).outcome() is Ok)),
    decreases checks.len() - start,
{
    if start < checks.len() {
        if checks[start as int].outcome() is Err {
            assert(forall|j: int| start <= j < start ==> (#[trigger] checks[j]).outcome() is Ok);
        } else {
            lemma_rules_outcome_from(checks, start + 1);
            if rules_outcome_from(checks, start) is Err {
                let i = choose|i: int|
                    start + 1 <= i < checks.len() && (#[trigger] checks[i]).outcome()
                        == rules_outcome_from(checks, start + 1) && (forall|j: int|
                        start + 1 <= j < i ==> (#[trigger] checks[j]).outcome() is Ok);
                assert(forall|j: int| start <= j < i ==> (#[trigger] checks[j]).outcome() is Ok);
            }
            assert forall|i: int| start <= i < checks.len() && rules_outcome_from(
                checks,
                start,
            ) is Ok implies (#[trigger] checks[i]).outcome() is Ok by {
                if i != start {
                    assert(start + 1 <= i);
                }
            }
        }
    }
}

/// A transaction is accepted exactly when every one of its rules accepts it;
/// otherwise it is refused with the error of the first rule that fails.
pub proof fn lemma_rules_outcome(checks: Seq<RuleCheck>)
    ensures
        rules_outcome(checks) is Ok <==> (forall|i: int|
            0 <= i < checks.len() ==> (#[trigger] checks[i]).outcome() is Ok),
        rules_outcome(checks) is Err ==> (exists|i: int|
            0 <= i < checks.len() && (#[trigger] checks[i]).outcome() == rules_outcome(checks) && (
            forall|j: int| 0 <= j < i ==> (#[trigger] checks[j]).outcome() is Ok)),
{
    lemma_rules_outcome_from(checks, 0);
}

} // verus!
