use ckb_std::ckb_types::packed::Script;
use ckb_std::ckb_types::prelude::{Builder, Entity};
use dao_shared::types::helpers::script_to_lock_hash;
use dao_shared::types::proposal_constants::{
    DEFAULT_APPROVAL_THRESHOLD, DEFAULT_EXECUTION_DELAY, DEFAULT_QUORUM_THRESHOLD,
    DEFAULT_VOTING_PERIOD, MIN_PROPOSAL_DEPOSIT,
};
use dao_shared::types::treasury_constants::{
    DEFAULT_TIMELOCK_BLOCKS, EMERGENCY_TIMELOCK_BLOCKS, MAX_GUARDIANS, MIN_SIGNATURES,
};
use dao_shared::types::{
    BindingStatus, DelegationType, ExecutionActionType, ProposalStatus, RepresentativeStatus,
    VoteChoice, DAO_VERSION,
};

#[test]
fn constants_have_their_values() {
    assert_eq!(DAO_VERSION, 1);
    assert_eq!(MIN_SIGNATURES, 3);
    assert_eq!(MAX_GUARDIANS, 10);
    assert_eq!(DEFAULT_TIMELOCK_BLOCKS, 60480);
    assert_eq!(EMERGENCY_TIMELOCK_BLOCKS, 8640);
    assert_eq!(MIN_PROPOSAL_DEPOSIT, 1000 * 100_000_000);
    assert_eq!(DEFAULT_VOTING_PERIOD, 120960);
    assert_eq!(DEFAULT_EXECUTION_DELAY, 17280);
    assert_eq!(DEFAULT_QUORUM_THRESHOLD, 10);
    assert_eq!(DEFAULT_APPROVAL_THRESHOLD, 60);
}

#[test]
fn proposal_status_decodes_every_byte() {
    assert_eq!(ProposalStatus::from(0), ProposalStatus::Draft);
    assert_eq!(ProposalStatus::from(1), ProposalStatus::Active);
    assert_eq!(ProposalStatus::from(2), ProposalStatus::Passed);
    assert_eq!(ProposalStatus::from(3), ProposalStatus::Rejected);
    assert_eq!(ProposalStatus::from(4), ProposalStatus::Executed);
    assert_eq!(ProposalStatus::from(5), ProposalStatus::Cancelled);
    for byte in 6..=255u8 {
        assert_eq!(ProposalStatus::from(byte), ProposalStatus::Draft);
    }
}

#[test]
fn representative_status_decodes_every_byte() {
    assert_eq!(RepresentativeStatus::from(0), RepresentativeStatus::Active);
    assert_eq!(RepresentativeStatus::from(1), RepresentativeStatus::Inactive);
    assert_eq!(RepresentativeStatus::from(2), RepresentativeStatus::Suspended);
    assert_eq!(RepresentativeStatus::from(3), RepresentativeStatus::Retired);
    for byte in 4..=255u8 {
        assert_eq!(RepresentativeStatus::from(byte), RepresentativeStatus::Inactive);
    }
}

#[test]
fn vote_choice_decodes_every_byte() {
    assert_eq!(VoteChoice::from(0), VoteChoice::No);
    assert_eq!(VoteChoice::from(1), VoteChoice::Yes);
    assert_eq!(VoteChoice::from(2), VoteChoice::Abstain);
    for byte in 3..=255u8 {
        assert_eq!(VoteChoice::from(byte), VoteChoice::Abstain);
    }
}

#[test]
fn delegation_type_decodes_every_byte() {
    assert_eq!(DelegationType::from(0), DelegationType::Full);
    assert_eq!(DelegationType::from(1), DelegationType::Partial);
    assert_eq!(DelegationType::from(2), DelegationType::TopicSpecific);
    for byte in 3..=255u8 {
        assert_eq!(DelegationType::from(byte), DelegationType::Full);
    }
}

#[test]
fn execution_action_type_decodes_every_byte() {
    assert_eq!(ExecutionActionType::from(0), ExecutionActionType::TreasuryTransfer);
    assert_eq!(ExecutionActionType::from(1), ExecutionActionType::ParameterChange);
    assert_eq!(ExecutionActionType::from(2), ExecutionActionType::ContractUpgrade);
    for byte in 3..=255u8 {
        assert_eq!(ExecutionActionType::from(byte), ExecutionActionType::TreasuryTransfer);
    }
}

#[test]
fn binding_status_decodes_every_byte() {
    assert_eq!(BindingStatus::from(0), BindingStatus::Pending);
    assert_eq!(BindingStatus::from(1), BindingStatus::Verified);
    assert_eq!(BindingStatus::from(2), BindingStatus::Revoked);
    for byte in 3..=255u8 {
        assert_eq!(BindingStatus::from(byte), BindingStatus::Pending);
    }
}

#[test]
fn stored_bytes_decode_to_what_was_stored() {
    for byte in 0..=5u8 {
        assert_eq!(ProposalStatus::from(byte).to_u8(), byte);
    }
    for byte in 0..=3u8 {
        assert_eq!(RepresentativeStatus::from(byte).to_u8(), byte);
    }
    for byte in 0..=2u8 {
        assert_eq!(VoteChoice::from(byte).to_u8(), byte);
        assert_eq!(DelegationType::from(byte).to_u8(), byte);
        assert_eq!(ExecutionActionType::from(byte).to_u8(), byte);
        assert_eq!(BindingStatus::from(byte).to_u8(), byte);
    }
    assert_eq!(ProposalStatus::Cancelled.to_u8(), 5);
    assert_eq!(RepresentativeStatus::Retired.to_u8(), 3);
    assert_eq!(VoteChoice::Abstain.to_u8(), 2);
    assert_eq!(DelegationType::TopicSpecific.to_u8(), 2);
    assert_eq!(ExecutionActionType::ContractUpgrade.to_u8(), 2);
    assert_eq!(BindingStatus::Revoked.to_u8(), 2);
}

#[test]
fn unknown_bytes_encode_as_the_fallback() {
    assert_eq!(ProposalStatus::from(200).to_u8(), 0);
    assert_eq!(RepresentativeStatus::from(200).to_u8(), 1);
    assert_eq!(VoteChoice::from(200).to_u8(), 2);
    assert_eq!(DelegationType::from(200).to_u8(), 0);
    assert_eq!(ExecutionActionType::from(200).to_u8(), 0);
    assert_eq!(BindingStatus::from(200).to_u8(), 0);
}

#[test]
fn lock_hash_of_the_empty_script() {
    let script = Script::new_builder().build();
    let expected: [u8; 32] = [
        0x77, 0xc9, 0x3b, 0x06, 0x32, 0xb5, 0xb6, 0xc3, 0xef, 0x92, 0x2c, 0x5b, 0x7c, 0xea, 0x20,
        0x8f, 0xb0, 0xa7, 0xc4, 0x27, 0xa1, 0x3d, 0x50, 0xe1, 0x3d, 0x3f, 0xef, 0xad, 0x17, 0xe0,
        0xc5, 0x90,
    ];
    assert_eq!(script_to_lock_hash(&script), expected);
}

#[test]
fn lock_hash_follows_the_script() {
    let empty = Script::new_builder().build();
    let other = Script::new_builder().hash_type(1u8).build();
    let hash = script_to_lock_hash(&other);
    assert_eq!(&hash[..], other.calc_script_hash().as_slice());
    assert_ne!(hash, script_to_lock_hash(&empty));
    assert_ne!(hash, [0u8; 32]);
    assert_eq!(hash, script_to_lock_hash(&other.clone()));
}

#[test]
fn proposal_lifecycle_allows_its_six_steps_only() {
    let all = [
        ProposalStatus::Draft,
        ProposalStatus::Active,
        ProposalStatus::Passed,
        ProposalStatus::Rejected,
        ProposalStatus::Executed,
        ProposalStatus::Cancelled,
    ];
    let legal = [
        (ProposalStatus::Draft, ProposalStatus::Active),
        (ProposalStatus::Draft, ProposalStatus::Cancelled),
        (ProposalStatus::Active, ProposalStatus::Passed),
        (ProposalStatus::Active, ProposalStatus::Rejected),
        (ProposalStatus::Active, ProposalStatus::Cancelled),
        (ProposalStatus::Passed, ProposalStatus::Executed),
    ];
    for from in all {
        for to in all {
            assert_eq!(from.can_transition_to(to), legal.contains(&(from, to)));
        }
    }
}
