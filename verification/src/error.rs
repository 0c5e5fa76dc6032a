//! Rejection reasons and their stable numeric codes.

use vstd::prelude::*;
use vstd::std_specs::convert::FromSpecImpl;

verus! {

/// Why a transition was rejected. Each reason has a numeric code of its own,
/// which `code` returns; the codes are grouped in tens by subsystem.
#[derive(Debug, PartialEq, Eq, Clone, Copy, Structural)]
pub enum Error {
    // Ledger access and decoding: 1 to 10
    IndexOutOfBound,
    ItemMissing,
    LengthNotEnough,
    Encoding,
    // Treasury: 11 to 20
    InsufficientSignatures,
    UnauthorizedSigner,
    TimeLockNotExpired,
    InsufficientFunds,
    AllocationExceeded,
    EmergencyModeActive,
    InvalidWithdrawalAmount,
    // Proposals: 21 to 30
    ProposalNotActive,
    ProposalAlreadyExecuted,
    VotingPeriodEnded,
    VotingPeriodNotStarted,
    InsufficientDeposit,
    QuorumNotMet,
    ApprovalThresholdNotMet,
    ExecutionDeadlinePassed,
    InvalidProposalStatus,
    // Representatives: 31 to 40
    RepresentativeNotActive,
    DelegationCapExceeded,
    UnauthorizedRepresentative,
    InsufficientStake,
    RepresentativeSuspended,
    InvalidDelegationType,
    // Voting: 41 to 50
    AlreadyVoted,
    InvalidVoteChoice,
    NoVotingPower,
    InvalidVoteWeight,
    DelegationConflict,
    VoteNotFound,
    // Address binding: 51 to 60
    InvalidWebAuthnCredential,
    BindingAlreadyExists,
    BindingNotVerified,
    InvalidBindingProof,
    BindingRevoked,
    // Cell classification: 61 to 70
    UnidentifiedCells,
    InvalidCellType,
    CellCountMismatch,
    InvalidCodeHash,
    // General validation: 71 to 80
    InvalidArguments,
    InvalidCellData,
    ValidationFailed,
    DependencyMissing,
    // Any failure without a code of its own: -1
    Unknown,
}

/// A failure of ledger access, as the host reports it.
#[derive(Debug, PartialEq, Eq, Clone, Copy, Structural)]
pub enum SysErrorKind {
    /// An index beyond the last cell.
    IndexOutOfBound,
    /// The cell lacks the field that was asked for.
    ItemMissing,
    /// The buffer was too short; holds the length of the data.
    LengthNotEnough(usize),
    /// The data could not be decoded.
    Encoding,
    /// Waiting for a child failed.
    WaitFailure,
    /// No such file descriptor.
    InvalidFd,
    /// The other end of a pipe was closed.
    OtherEndClosed,
    /// No more virtual machines can be spawned.
    MaxVmsSpawned,
    /// No more file descriptors can be made.
    MaxFdsCreated,
    /// Another failure; holds the host's number for it.
    Unknown(u64),
}

/// `ckb_std::error::SysError`, carried through as an opaque value.
#[verifier::external_type_specification]
#[verifier::external_body]
pub struct ExSysError(ckb_std::error::SysError);

/// The kind of failure that a host error value holds.
pub uninterp spec fn sys_error_kind(err: ckb_std::error::SysError) -> SysErrorKind;

/// Reads a `ckb_std::error::SysError`: the result has the variant of the
/// argument and the number that the argument carries, if it carries one.
/// Nothing is computed; the contract names the result `sys_error_kind`.
#[verifier::external_body]
fn read_sys_error(err: ckb_std::error::SysError) -> (kind: SysErrorKind)
    ensures
        kind == sys_error_kind(err),
{
    match err {
        ckb_std::error::SysError::IndexOutOfBound => SysErrorKind::IndexOutOfBound,
        ckb_std::error::SysError::ItemMissing => SysErrorKind::ItemMissing,
        ckb_std::error::SysError::LengthNotEnough(len) => SysErrorKind::LengthNotEnough(len),
        ckb_std::error::SysError::Encoding => SysErrorKind::Encoding,
        ckb_std::error::SysError::WaitFailure => SysErrorKind::WaitFailure,
        ckb_std::error::SysError::InvalidFd => SysErrorKind::InvalidFd,
        ckb_std::error::SysError::OtherEndClosed => SysErrorKind::OtherEndClosed,
        ckb_std::error::SysError::MaxVmsSpawned => SysErrorKind::MaxVmsSpawned,
        ckb_std::error::SysError::MaxFdsCreated => SysErrorKind::MaxFdsCreated,
        ckb_std::error::SysError::Unknown(number) => SysErrorKind::Unknown(number),
    }
}

impl Error {
    /// The numeric code of a rejection reason.
    pub open spec fn code_of(self) -> int {
        match self {
            Error::IndexOutOfBound => 1,
            Error::ItemMissing => 2,
            Error::LengthNotEnough => 3,
            Error::Encoding => 4,
            Error::InsufficientSignatures => 11,
            Error::UnauthorizedSigner => 12,
            Error::TimeLockNotExpired => 13,
            Error::InsufficientFunds => 14,
            Error::AllocationExceeded => 15,
            Error::EmergencyModeActive => 16,
            Error::InvalidWithdrawalAmount => 17,
            Error::ProposalNotActive => 21,
            Error::ProposalAlreadyExecuted => 22,
            Error::VotingPeriodEnded => 23,
            Error::VotingPeriodNotStarted => 24,
            Error::InsufficientDeposit => 25,
            Error::QuorumNotMet => 26,
            Error::ApprovalThresholdNotMet => 27,
            Error::ExecutionDeadlinePassed => 28,
            Error::InvalidProposalStatus => 29,
            Error::RepresentativeNotActive => 31,
            Error::DelegationCapExceeded => 32,
            Error::UnauthorizedRepresentative => 33,
            Error::InsufficientStake => 34,
            Error::RepresentativeSuspended => 35,
            Error::InvalidDelegationType => 36,
            Error::AlreadyVoted => 41,
            Error::InvalidVoteChoice => 42,
            Error::NoVotingPower => 43,
            Error::InvalidVoteWeight => 44,
            Error::DelegationConflict => 45,
            Error::VoteNotFound => 46,
            Error::InvalidWebAuthnCredential => 51,
            Error::BindingAlreadyExists => 52,
            Error::BindingNotVerified => 53,
            Error::InvalidBindingProof => 54,
            Error::BindingRevoked => 55,
            Error::UnidentifiedCells => 61,
            Error::InvalidCellType => 62,
            Error::CellCountMismatch => 63,
            Error::InvalidCodeHash => 64,
            Error::InvalidArguments => 71,
            Error::InvalidCellData => 72,
            Error::ValidationFailed => 73,
            Error::DependencyMissing => 74,
            Error::Unknown => -1,
        }
    }

    /// The rejection reason that stands for a failure of ledger access. The
    /// four failures that have a code of their own keep it; all others become
    /// `Unknown`, and the numbers they carry are dropped.
    pub open spec fn of_sys_error_kind(kind: SysErrorKind) -> Error {
        match kind {
            SysErrorKind::IndexOutOfBound => Error::IndexOutOfBound,
            SysErrorKind::ItemMissing => Error::ItemMissing,
            SysErrorKind::LengthNotEnough(_) => Error::LengthNotEnough,
            SysErrorKind::Encoding => Error::Encoding,
            _ => Error::Unknown,
        }
    }

    /// Returns the numeric code of this rejection reason.
    pub fn code(&self) -> (code: i8)
        ensures
            code as int == self.code_of(),
            code == -1 || 1 <= code <= 74,
    {
        match self {
            Error::IndexOutOfBound => 1,
            Error::ItemMissing => 2,
            Error::LengthNotEnough => 3,
            Error::Encoding => 4,
            Error::InsufficientSignatures => 11,
            Error::UnauthorizedSigner => 12,
            Error::TimeLockNotExpired => 13,
            Error::InsufficientFunds => 14,
            Error::AllocationExceeded => 15,
            Error::EmergencyModeActive => 16,
            Error::InvalidWithdrawalAmount => 17,
            Error::ProposalNotActive => 21,
            Error::ProposalAlreadyExecuted => 22,
            Error::VotingPeriodEnded => 23,
            Error::VotingPeriodNotStarted => 24,
            Error::InsufficientDeposit => 25,
            Error::QuorumNotMet => 26,
            Error::ApprovalThresholdNotMet => 27,
            Error::ExecutionDeadlinePassed => 28,
            Error::InvalidProposalStatus => 29,
            Error::RepresentativeNotActive => 31,
            Error::DelegationCapExceeded => 32,
            Error::UnauthorizedRepresentative => 33,
            Error::InsufficientStake => 34,
            Error::RepresentativeSuspended => 35,
            Error::InvalidDelegationType => 36,
            Error::AlreadyVoted => 41,
            Error::InvalidVoteChoice => 42,
            Error::NoVotingPower => 43,
            Error::InvalidVoteWeight => 44,
            Error::DelegationConflict => 45,
            Error::VoteNotFound => 46,
            Error::InvalidWebAuthnCredential => 51,
            Error::BindingAlreadyExists => 52,
            Error::BindingNotVerified => 53,
            Error::InvalidBindingProof => 54,
            Error::BindingRevoked => 55,
            Error::UnidentifiedCells => 61,
            Error::InvalidCellType => 62,
            Error::CellCountMismatch => 63,
            Error::InvalidCodeHash => 64,
            Error::InvalidArguments => 71,
            Error::InvalidCellData => 72,
            Error::ValidationFailed => 73,
            Error::DependencyMissing => 74,
            Error::Unknown => -1,
        }
    }
}

impl From<SysErrorKind> for Error {
    fn from(kind: SysErrorKind) -> (error: Self) {
        match kind {
            SysErrorKind::IndexOutOfBound => Error::IndexOutOfBound,
            SysErrorKind::ItemMissing => Error::ItemMissing,
            SysErrorKind::LengthNotEnough(_) => Error::LengthNotEnough,
            SysErrorKind::Encoding => Error::Encoding,
            _ => Error::Unknown,
        }
    }
}

impl FromSpecImpl<SysErrorKind> for Error {
    open spec fn obeys_from_spec() -> bool {
        true
    }

    open spec fn from_spec(kind: SysErrorKind) -> Self {
        Error::of_sys_error_kind(kind)
    }
}

impl From<ckb_std::error::SysError> for Error {
    fn from(err: ckb_std::error::SysError) -> (error: Self) {
        let kind = read_sys_error(err);
        Error::from(kind)
    }
}

impl FromSpecImpl<ckb_std::error::SysError> for Error {
    open spec fn obeys_from_spec() -> bool {
        true
    }

    open spec fn from_spec(err: ckb_std::error::SysError) -> Self {
        Error::of_sys_error_kind(sys_error_kind(err))
    }
}

/// Two rejection reasons with the same code are the same reason.
pub proof fn lemma_code_identifies_error(first: Error, second: Error)
    requires
        first.code_of() == second.code_of(),
    ensures
        first == second,
{
}

/// A failure of ledger access never maps to a reason of the governance rules:
/// its code is one of the four access codes or that of `Unknown`.
pub proof fn lemma_sys_error_codes(kind: SysErrorKind)
    ensures
        ({
            let code = Error::of_sys_error_kind(kind).code_of();
            code == -1 || 1 <= code <= 4
        }),
        Error::of_sys_error_kind(kind) == Error::Unknown <==> !(kind is IndexOutOfBound || kind
            is ItemMissing || kind is LengthNotEnough || kind is Encoding),
{
}

} // verus!
