use ckb_std::error::SysError;
use dao_shared::error::{Error, SysErrorKind};

#[test]
fn access_errors_have_codes_one_to_four() {
    assert_eq!(Error::IndexOutOfBound.code(), 1);
    assert_eq!(Error::ItemMissing.code(), 2);
    assert_eq!(Error::LengthNotEnough.code(), 3);
    assert_eq!(Error::Encoding.code(), 4);
}

#[test]
fn treasury_errors_have_codes_from_eleven() {
    assert_eq!(Error::InsufficientSignatures.code(), 11);
    assert_eq!(Error::UnauthorizedSigner.code(), 12);
    assert_eq!(Error::TimeLockNotExpired.code(), 13);
    assert_eq!(Error::InsufficientFunds.code(), 14);
    assert_eq!(Error::AllocationExceeded.code(), 15);
    assert_eq!(Error::EmergencyModeActive.code(), 16);
    assert_eq!(Error::InvalidWithdrawalAmount.code(), 17);
}

#[test]
fn proposal_errors_have_codes_from_twenty_one() {
    assert_eq!(Error::ProposalNotActive.code(), 21);
    assert_eq!(Error::ProposalAlreadyExecuted.code(), 22);
    assert_eq!(Error::VotingPeriodEnded.code(), 23);
    assert_eq!(Error::VotingPeriodNotStarted.code(), 24);
    assert_eq!(Error::InsufficientDeposit.code(), 25);
    assert_eq!(Error::QuorumNotMet.code(), 26);
    assert_eq!(Error::ApprovalThresholdNotMet.code(), 27);
    assert_eq!(Error::ExecutionDeadlinePassed.code(), 28);
    assert_eq!(Error::InvalidProposalStatus.code(), 29);
}

#[test]
fn representative_errors_have_codes_from_thirty_one() {
    assert_eq!(Error::RepresentativeNotActive.code(), 31);
    assert_eq!(Error::DelegationCapExceeded.code(), 32);
    assert_eq!(Error::UnauthorizedRepresentative.code(), 33);
    assert_eq!(Error::InsufficientStake.code(), 34);
    assert_eq!(Error::RepresentativeSuspended.code(), 35);
    assert_eq!(Error::InvalidDelegationType.code(), 36);
}

#[test]
fn voting_errors_have_codes_from_forty_one() {
    assert_eq!(Error::AlreadyVoted.code(), 41);
    assert_eq!(Error::InvalidVoteChoice.code(), 42);
    assert_eq!(Error::NoVotingPower.code(), 43);
    assert_eq!(Error::InvalidVoteWeight.code(), 44);
    assert_eq!(Error::DelegationConflict.code(), 45);
    assert_eq!(Error::VoteNotFound.code(), 46);
}

#[test]
fn binding_errors_have_codes_from_fifty_one() {
    assert_eq!(Error::InvalidWebAuthnCredential.code(), 51);
    assert_eq!(Error::BindingAlreadyExists.code(), 52);
    assert_eq!(Error::BindingNotVerified.code(), 53);
    assert_eq!(Error::InvalidBindingProof.code(), 54);
    assert_eq!(Error::BindingRevoked.code(), 55);
}

#[test]
fn classification_errors_have_codes_from_sixty_one() {
    assert_eq!(Error::UnidentifiedCells.code(), 61);
    assert_eq!(Error::InvalidCellType.code(), 62);
    assert_eq!(Error::CellCountMismatch.code(), 63);
    assert_eq!(Error::InvalidCodeHash.code(), 64);
}

#[test]
fn validation_errors_have_codes_from_seventy_one() {
    assert_eq!(Error::InvalidArguments.code(), 71);
    assert_eq!(Error::InvalidCellData.code(), 72);
    assert_eq!(Error::ValidationFailed.code(), 73);
    assert_eq!(Error::DependencyMissing.code(), 74);
}

#[test]
fn unknown_error_has_code_minus_one() {
    assert_eq!(Error::Unknown.code(), -1);
}

#[test]
fn host_errors_with_a_code_keep_it() {
    assert_eq!(Error::from(SysError::IndexOutOfBound), Error::IndexOutOfBound);
    assert_eq!(Error::from(SysError::ItemMissing), Error::ItemMissing);
    assert_eq!(Error::from(SysError::LengthNotEnough(0)), Error::LengthNotEnough);
    assert_eq!(Error::from(SysError::LengthNotEnough(4096)), Error::LengthNotEnough);
    assert_eq!(Error::from(SysError::Encoding), Error::Encoding);
}

#[test]
fn other_host_errors_become_unknown() {
    assert_eq!(Error::from(SysError::WaitFailure), Error::Unknown);
    assert_eq!(Error::from(SysError::InvalidFd), Error::Unknown);
    assert_eq!(Error::from(SysError::OtherEndClosed), Error::Unknown);
    assert_eq!(Error::from(SysError::MaxVmsSpawned), Error::Unknown);
    assert_eq!(Error::from(SysError::MaxFdsCreated), Error::Unknown);
    assert_eq!(Error::from(SysError::Unknown(0)), Error::Unknown);
    assert_eq!(Error::from(SysError::Unknown(1)), Error::Unknown);
    assert_eq!(Error::from(SysError::Unknown(u64::MAX)), Error::Unknown);
}

#[test]
fn failure_kinds_map_as_host_errors_do() {
    assert_eq!(Error::from(SysErrorKind::IndexOutOfBound), Error::IndexOutOfBound);
    assert_eq!(Error::from(SysErrorKind::ItemMissing), Error::ItemMissing);
    assert_eq!(Error::from(SysErrorKind::LengthNotEnough(9)), Error::LengthNotEnough);
    assert_eq!(Error::from(SysErrorKind::Encoding), Error::Encoding);
    assert_eq!(Error::from(SysErrorKind::WaitFailure), Error::Unknown);
    assert_eq!(Error::from(SysErrorKind::InvalidFd), Error::Unknown);
    assert_eq!(Error::from(SysErrorKind::OtherEndClosed), Error::Unknown);
    assert_eq!(Error::from(SysErrorKind::MaxVmsSpawned), Error::Unknown);
    assert_eq!(Error::from(SysErrorKind::MaxFdsCreated), Error::Unknown);
    assert_eq!(Error::from(SysErrorKind::Unknown(3)), Error::Unknown);
}

#[test]
fn host_error_codes_are_access_codes_or_minus_one() {
    assert_eq!(Error::from(SysError::IndexOutOfBound).code(), 1);
    assert_eq!(Error::from(SysError::ItemMissing).code(), 2);
    assert_eq!(Error::from(SysError::LengthNotEnough(12)).code(), 3);
    assert_eq!(Error::from(SysError::Encoding).code(), 4);
    assert_eq!(Error::from(SysError::Unknown(77)).code(), -1);
}
