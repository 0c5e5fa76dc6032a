//! Domain types of the governance layer and their byte encodings.
//!
//! Each status type is stored on the ledger as one byte. Decoding is total:
//! a byte outside the listed range maps to the type's fallback variant, so
//! callers that need to reject such bytes must compare against `to_u8`.

use vstd::prelude::*;
use vstd::std_specs::convert::FromSpecImpl;

pub mod helpers;
pub mod proposal_constants;
pub mod treasury_constants;
pub mod weight_constants;

verus! {

/// Version of the governance protocol.
pub const DAO_VERSION: u32 = 1;

/// Lifecycle state of a proposal.
#[derive(Debug, Clone, Copy, PartialEq, Eq, Structural)]
pub enum ProposalStatus {
    Draft,
    Active,
    Passed,
    Rejected,
    Executed,
    Cancelled,
}

impl ProposalStatus {
    /// The status that a stored byte stands for; unknown bytes read as `Draft`.
    pub open spec fn decode(value: u8) -> Self {
        if value == 1 {
            ProposalStatus::Active
        } else if value == 2 {
            ProposalStatus::Passed
        } else if value == 3 {
            ProposalStatus::Rejected
        } else if value == 4 {
            ProposalStatus::Executed
        } else if value == 5 {
            ProposalStatus::Cancelled
        } else {
            ProposalStatus::Draft
        }
    }

    /// The byte under which this status is stored.
    pub open spec fn encoding(self) -> u8 {
        match self {
            ProposalStatus::Draft => 0,
            ProposalStatus::Active => 1,
            ProposalStatus::Passed => 2,
            ProposalStatus::Rejected => 3,
            ProposalStatus::Executed => 4,
            ProposalStatus::Cancelled => 5,
        }
    }

    /// Returns the byte under which this status is stored.
    pub fn to_u8(self) -> (byte: u8)
        ensures
            byte == self.encoding(),
            Self::decode(byte) == self,
    {
        match self {
            ProposalStatus::Draft => 0,
            ProposalStatus::Active => 1,
            ProposalStatus::Passed => 2,
            ProposalStatus::Rejected => 3,
            ProposalStatus::Executed => 4,
            ProposalStatus::Cancelled => 5,
        }
    }
}

impl ProposalStatus {
    /// How far along its lifecycle a proposal in this state is: a draft is at
    /// the start, an active proposal is being voted on, a passed or rejected
    /// one has been decided, an executed or cancelled one is closed.
    pub open spec fn stage(self) -> nat {
        match self {
            ProposalStatus::Draft => 0,
            ProposalStatus::Active => 1,
            ProposalStatus::Passed => 2,
            ProposalStatus::Rejected => 2,
            ProposalStatus::Executed => 3,
            ProposalStatus::Cancelled => 3,
        }
    }

    /// Whether a proposal in state `self` may move to state `next`: a draft
    /// becomes active, an active proposal is passed or rejected, a passed one
    /// is executed, and a draft or an active proposal may be cancelled.
    pub open spec fn may_become(self, next: ProposalStatus) -> bool {
        match self {
            ProposalStatus::Draft => next == ProposalStatus::Active || next
                == ProposalStatus::Cancelled,
            ProposalStatus::Active => next == ProposalStatus::Passed || next
                == ProposalStatus::Rejected || next == ProposalStatus::Cancelled,
            ProposalStatus::Passed => next == ProposalStatus::Executed,
            ProposalStatus::Rejected => false,
            ProposalStatus::Executed => false,
            ProposalStatus::Cancelled => false,
        }
    }

    /// Says whether a proposal in this state may move to state `next`.
    pub fn can_transition_to(self, next: ProposalStatus) -> (legal: bool)
        ensures
            legal == self.may_become(next),
    {
        match self {
            ProposalStatus::Draft => next == ProposalStatus::Active || next
                == ProposalStatus::Cancelled,
            ProposalStatus::Active => next == ProposalStatus::Passed || next
                == ProposalStatus::Rejected || next == ProposalStatus::Cancelled,
            ProposalStatus::Passed => next == ProposalStatus::Executed,
            _ => false,
        }
    }
}

/// Every step of the lifecycle leads to a later stage, so no proposal returns
/// to a state it has left. A proposal is executed only from `Passed` and
/// cancelled only from `Draft` or `Active`; a rejected, executed or cancelled
/// proposal moves no further.
pub proof fn lemma_proposal_lifecycle(from: ProposalStatus, to: ProposalStatus)
    requires
        from.may_become(to),
    ensures
        from.stage() < to.stage(),
        to != ProposalStatus::Draft,
        to == ProposalStatus::Executed ==> from == ProposalStatus::Passed,
        to == ProposalStatus::Cancelled ==> from == ProposalStatus::Draft || from
            == ProposalStatus::Active,
        from != ProposalStatus::Rejected && from != ProposalStatus::Executed && from
            != ProposalStatus::Cancelled,
{
}

impl From<u8> for ProposalStatus {
    fn from(value: u8) -> (status: Self) {
        match value {
            0 => ProposalStatus::Draft,
            1 => ProposalStatus::Active,
            2 => ProposalStatus::Passed,
            3 => ProposalStatus::Rejected,
            4 => ProposalStatus::Executed,
            5 => ProposalStatus::Cancelled,
            _ => ProposalStatus::Draft,
        }
    }
}

impl FromSpecImpl<u8> for ProposalStatus {
    open spec fn obeys_from_spec() -> bool {
        true
    }

    open spec fn from_spec(value: u8) -> Self {
        Self::decode(value)
    }
}

/// Standing of a representative; only an `Active` one may receive delegation.
#[derive(Debug, Clone, Copy, PartialEq, Eq, Structural)]
pub enum RepresentativeStatus {
    Active,
    Inactive,
    Suspended,
    Retired,
}

impl RepresentativeStatus {
    /// The status that a stored byte stands for; unknown bytes read as `Inactive`.
    pub open spec fn decode(value: u8) -> Self {
        if value == 0 {
            RepresentativeStatus::Active
        } else if value == 2 {
            RepresentativeStatus::Suspended
        } else if value == 3 {
            RepresentativeStatus::Retired
        } else {
            RepresentativeStatus::Inactive
        }
    }

    /// The byte under which this status is stored.
    pub open spec fn encoding(self) -> u8 {
        match self {
            RepresentativeStatus::Active => 0,
            RepresentativeStatus::Inactive => 1,
            RepresentativeStatus::Suspended => 2,
            RepresentativeStatus::Retired => 3,
        }
    }

    /// Returns the byte under which this status is stored.
    pub fn to_u8(self) -> (byte: u8)
        ensures
            byte == self.encoding(),
            Self::decode(byte) == self,
    {
        match self {
            RepresentativeStatus::Active => 0,
            RepresentativeStatus::Inactive => 1,
            RepresentativeStatus::Suspended => 2,
            RepresentativeStatus::Retired => 3,
        }
    }
}

impl From<u8> for RepresentativeStatus {
    fn from(value: u8) -> (status: Self) {
        match value {
            0 => RepresentativeStatus::Active,
            1 => RepresentativeStatus::Inactive,
            2 => RepresentativeStatus::Suspended,
            3 => RepresentativeStatus::Retired,
            _ => RepresentativeStatus::Inactive,
        }
    }
}

impl FromSpecImpl<u8> for RepresentativeStatus {
    open spec fn obeys_from_spec() -> bool {
        true
    }

    open spec fn from_spec(value: u8) -> Self {
        Self::decode(value)
    }
}

/// The choice that a vote cell records.
#[derive(Debug, Clone, Copy, PartialEq, Eq, Structural)]
pub enum VoteChoice {
    No,
    Yes,
    Abstain,
}

impl VoteChoice {
    /// The choice that a stored byte stands for; unknown bytes read as `Abstain`.
    pub open spec fn decode(value: u8) -> Self {
        if value == 0 {
            VoteChoice::No
        } else if value == 1 {
            VoteChoice::Yes
        } else {
            VoteChoice::Abstain
        }
    }

    /// The byte under which this choice is stored.
    pub open spec fn encoding(self) -> u8 {
        match self {
            VoteChoice::No => 0,
            VoteChoice::Yes => 1,
            VoteChoice::Abstain => 2,
        }
    }

    /// Returns the byte under which this choice is stored.
    pub fn to_u8(self) -> (byte: u8)
        ensures
            byte == self.encoding(),
            Self::decode(byte) == self,
    {
        match self {
            VoteChoice::No => 0,
            VoteChoice::Yes => 1,
            VoteChoice::Abstain => 2,
        }
    }
}

impl From<u8> for VoteChoice {
    fn from(value: u8) -> (choice: Self) {
        match value {
            0 => VoteChoice::No,
            1 => VoteChoice::Yes,
            2 => VoteChoice::Abstain,
            _ => VoteChoice::Abstain,
        }
    }
}

impl FromSpecImpl<u8> for VoteChoice {
    open spec fn obeys_from_spec() -> bool {
        true
    }

    open spec fn from_spec(value: u8) -> Self {
        Self::decode(value)
    }
}

/// How much of a voter's power a delegation hands over.
#[derive(Debug, Clone, Copy, PartialEq, Eq, Structural)]
pub enum DelegationType {
    Full,
    Partial,
    TopicSpecific,
}

impl DelegationType {
    /// The type that a stored byte stands for; unknown bytes read as `Full`.
    pub open spec fn decode(value: u8) -> Self {
        if value == 1 {
            DelegationType::Partial
        } else if value == 2 {
            DelegationType::TopicSpecific
        } else {
            DelegationType::Full
        }
    }

    /// The byte under which this type is stored.
    pub open spec fn encoding(self) -> u8 {
        match self {
            DelegationType::Full => 0,
            DelegationType::Partial => 1,
            DelegationType::TopicSpecific => 2,
        }
    }

    /// Returns the byte under which this type is stored.
    pub fn to_u8(self) -> (byte: u8)
        ensures
            byte == self.encoding(),
            Self::decode(byte) == self,
    {
        match self {
            DelegationType::Full => 0,
            DelegationType::Partial => 1,
            DelegationType::TopicSpecific => 2,
        }
    }
}

impl From<u8> for DelegationType {
    fn from(value: u8) -> (kind: Self) {
        match value {
            0 => DelegationType::Full,
            1 => DelegationType::Partial,
            2 => DelegationType::TopicSpecific,
            _ => DelegationType::Full,
        }
    }
}

impl FromSpecImpl<u8> for DelegationType {
    open spec fn obeys_from_spec() -> bool {
        true
    }

    open spec fn from_spec(value: u8) -> Self {
        Self::decode(value)
    }
}

/// What the execution of a passed proposal does.
#[derive(Debug, Clone, Copy, PartialEq, Eq, Structural)]
pub enum ExecutionActionType {
    TreasuryTransfer,
    ParameterChange,
    ContractUpgrade,
}

impl ExecutionActionType {
    /// The action that a stored byte stands for; unknown bytes read as `TreasuryTransfer`.
    pub open spec fn decode(value: u8) -> Self {
        if value == 1 {
            ExecutionActionType::ParameterChange
        } else if value == 2 {
            ExecutionActionType::ContractUpgrade
        } else {
            ExecutionActionType::TreasuryTransfer
        }
    }

    /// The byte under which this action is stored.
    pub open spec fn encoding(self) -> u8 {
        match self {
            ExecutionActionType::TreasuryTransfer => 0,
            ExecutionActionType::ParameterChange => 1,
            ExecutionActionType::ContractUpgrade => 2,
        }
    }

    /// Returns the byte under which this action is stored.
    pub fn to_u8(self) -> (byte: u8)
        ensures
            byte == self.encoding(),
            Self::decode(byte) == self,
    {
        match self {
            ExecutionActionType::TreasuryTransfer => 0,
            ExecutionActionType::ParameterChange => 1,
            ExecutionActionType::ContractUpgrade => 2,
        }
    }
}

impl From<u8> for ExecutionActionType {
    fn from(value: u8) -> (action: Self) {
        match value {
            0 => ExecutionActionType::TreasuryTransfer,
            1 => ExecutionActionType::ParameterChange,
            2 => ExecutionActionType::ContractUpgrade,
            _ => ExecutionActionType::TreasuryTransfer,
        }
    }
}

impl FromSpecImpl<u8> for ExecutionActionType {
    open spec fn obeys_from_spec() -> bool {
        true
    }

    open spec fn from_spec(value: u8) -> Self {
        Self::decode(value)
    }
}

/// State of an address binding; `Revoked` is final.
#[derive(Debug, Clone, Copy, PartialEq, Eq, Structural)]
pub enum BindingStatus {
    Pending,
    Verified,
    Revoked,
}

impl BindingStatus {
    /// The status that a stored byte stands for; unknown bytes read as `Pending`.
    pub open spec fn decode(value: u8) -> Self {
        if value == 1 {
            BindingStatus::Verified
        } else if value == 2 {
            BindingStatus::Revoked
        } else {
            BindingStatus::Pending
        }
    }

    /// The byte under which this status is stored.
    pub open spec fn encoding(self) -> u8 {
        match self {
            BindingStatus::Pending => 0,
            BindingStatus::Verified => 1,
            BindingStatus::Revoked => 2,
        }
    }

    /// Returns the byte under which this status is stored.
    pub fn to_u8(self) -> (byte: u8)
        ensures
            byte == self.encoding(),
            Self::decode(byte) == self,
    {
        match self {
            BindingStatus::Pending => 0,
            BindingStatus::Verified => 1,
            BindingStatus::Revoked => 2,
        }
    }
}

impl From<u8> for BindingStatus {
    fn from(value: u8) -> (status: Self) {
        match value {
            0 => BindingStatus::Pending,
            1 => BindingStatus::Verified,
            2 => BindingStatus::Revoked,
            _ => BindingStatus::Pending,
        }
    }
}

impl FromSpecImpl<u8> for BindingStatus {
    open spec fn obeys_from_spec() -> bool {
        true
    }

    open spec fn from_spec(value: u8) -> Self {
        Self::decode(value)
    }
}

/// Each listed byte decodes to its variant and encodes back to itself; every
/// other byte decodes to the fallback of its type.
pub proof fn lemma_decode_is_total(value: u8)
    ensures
        value <= 5 ==> ProposalStatus::decode(value).encoding() == value,
        value > 5 ==> ProposalStatus::decode(value) == ProposalStatus::Draft,
        value <= 3 ==> RepresentativeStatus::decode(value).encoding() == value,
        value > 3 ==> RepresentativeStatus::decode(value) == RepresentativeStatus::Inactive,
        value <= 2 ==> VoteChoice::decode(value).encoding() == value,
        value > 2 ==> VoteChoice::decode(value) == VoteChoice::Abstain,
        value <= 2 ==> DelegationType::decode(value).encoding() == value,
        value > 2 ==> DelegationType::decode(value) == DelegationType::Full,
        value <= 2 ==> ExecutionActionType::decode(value).encoding() == value,
        value > 2 ==> ExecutionActionType::decode(value) == ExecutionActionType::TreasuryTransfer,
        value <= 2 ==> BindingStatus::decode(value).encoding() == value,
        value > 2 ==> BindingStatus::decode(value) == BindingStatus::Pending,
{
}

} // verus!
