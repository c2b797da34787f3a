//! The projection engine on concrete values: every action variant lands
//! on its own wire alternative, every error variant has exactly one wire
//! destination, and header approvals elide absent entries in order.

use near_firehose::actions::project_action;
use near_firehose::domain::{
    CurveKind, DomainAccessKey, DomainAccessKeyPermission, DomainAction, DomainActionError,
    DomainActionErrorKind, DomainBlockHeader, DomainDelegateAction, DomainFunctionCallError,
    DomainHash, DomainInvalidTxError, DomainNonDelegateAction, DomainPublicKey,
    DomainReceiptValidationError, DomainSignature, DomainTxError,
};
use near_firehose::pb;
use near_firehose::project::{project_approvals, project_block_header};
use near_firehose::taxonomy::{
    map_action_error_kind, map_invalid_tx_error, map_tx_error,
};

fn key(curve: CurveKind, len: usize) -> DomainPublicKey {
    DomainPublicKey { curve, bytes: vec![3u8; len] }
}

fn sig(curve: CurveKind, fill: u8, len: usize) -> DomainSignature {
    DomainSignature { curve, bytes: vec![fill; len] }
}

#[test]
fn transfer_projects_to_transfer_alternative_with_encoded_deposit() {
    let w = project_action(&DomainAction::Transfer { deposit: 5 });
    match w.action {
        Some(pb::action::Action::Transfer(t)) => {
            let dep = t.deposit.expect("deposit must be present");
            let mut expected = vec![0u8; 16];
            expected[15] = 5;
            assert_eq!(dep.bytes, expected);
        }
        other => panic!("wrong alternative populated: {:?}", other),
    }
}

#[test]
fn every_action_variant_populates_its_own_alternative() {
    let ak = DomainAccessKey {
        nonce: 9,
        permission: DomainAccessKeyPermission::FullAccess,
    };
    let delegate = DomainDelegateAction {
        sender_id: b"sender.near".to_vec(),
        receiver_id: b"receiver.near".to_vec(),
        actions: vec![DomainNonDelegateAction::Transfer { deposit: 2 }],
        nonce: 4,
        max_block_height: 900,
        public_key: key(CurveKind::Ed25519, 32),
    };
    let cases: Vec<DomainAction> = vec![
        DomainAction::CreateAccount,
        DomainAction::DeployContract { code: b"wasm".to_vec() },
        DomainAction::FunctionCall {
            method_name: b"run".to_vec(),
            args: b"{}".to_vec(),
            gas: 300,
            deposit: 1,
        },
        DomainAction::Transfer { deposit: 5 },
        DomainAction::Stake { stake: 11, public_key: key(CurveKind::Ed25519, 32) },
        DomainAction::AddKey { public_key: key(CurveKind::Ed25519, 32), access_key: ak },
        DomainAction::DeleteKey { public_key: key(CurveKind::Secp256k1, 64) },
        DomainAction::DeleteAccount { beneficiary_id: b"heir.near".to_vec() },
        DomainAction::Delegate {
            delegate_action: delegate,
            signature: sig(CurveKind::Ed25519, 7, 64),
        },
    ];
    let mut seen: Vec<u32> = Vec::new();
    for d in &cases {
        let w = project_action(d);
        let tag = match w.action.expect("an alternative must be populated") {
            pb::action::Action::CreateAccount(_) => 1,
            pb::action::Action::DeployContract(p) => {
                assert_eq!(p.code, b"wasm".to_vec());
                2
            }
            pb::action::Action::FunctionCall(p) => {
                assert_eq!(p.method_name, b"run".to_vec());
                assert_eq!(p.gas, 300);
                3
            }
            pb::action::Action::Transfer(_) => 4,
            pb::action::Action::Stake(p) => {
                assert_eq!(p.public_key.unwrap().curve, 0);
                5
            }
            pb::action::Action::AddKey(p) => {
                assert_eq!(p.access_key.unwrap().nonce, 9);
                6
            }
            pb::action::Action::DeleteKey(p) => {
                assert_eq!(p.public_key.unwrap().curve, 1);
                7
            }
            pb::action::Action::DeleteAccount(p) => {
                assert_eq!(p.beneficiary_id, b"heir.near".to_vec());
                8
            }
            pb::action::Action::Delegate(p) => {
                let da = p.delegate_action.unwrap();
                assert_eq!(da.sender_id, b"sender.near".to_vec());
                assert_eq!(da.actions.len(), 1);
                9
            }
        };
        assert!(!seen.contains(&tag), "two variants shared an alternative");
        seen.push(tag);
    }
    assert_eq!(seen.len(), cases.len());
}

fn action_kind_cases() -> Vec<DomainActionErrorKind> {
    vec![
        DomainActionErrorKind::AccountAlreadyExists { account_id: b"a".to_vec() },
        DomainActionErrorKind::AccountDoesNotExist { account_id: b"a".to_vec() },
        DomainActionErrorKind::CreateAccountOnlyByRegistrar {
            account_id: b"a".to_vec(),
            registrar_account_id: b"r".to_vec(),
            predecessor_id: b"p".to_vec(),
        },
        DomainActionErrorKind::CreateAccountNotAllowed {
            account_id: b"a".to_vec(),
            predecessor_id: b"p".to_vec(),
        },
        DomainActionErrorKind::ActorNoPermission {
            account_id: b"a".to_vec(),
            actor_id: b"x".to_vec(),
        },
        DomainActionErrorKind::DeleteKeyDoesNotExist {
            account_id: b"a".to_vec(),
            public_key: DomainPublicKey { curve: CurveKind::Ed25519, bytes: vec![1; 32] },
        },
        DomainActionErrorKind::AddKeyAlreadyExists {
            account_id: b"a".to_vec(),
            public_key: DomainPublicKey { curve: CurveKind::Ed25519, bytes: vec![1; 32] },
        },
        DomainActionErrorKind::DeleteAccountStaking { account_id: b"staking.near".to_vec() },
        DomainActionErrorKind::LackBalanceForState { account_id: b"a".to_vec(), amount: 10 },
        DomainActionErrorKind::TriesToUnstake { account_id: b"a".to_vec() },
        DomainActionErrorKind::TriesToStake {
            account_id: b"a".to_vec(),
            stake: 1,
            locked: 2,
            balance: 3,
        },
        DomainActionErrorKind::InsufficientStake {
            account_id: b"a".to_vec(),
            stake: 1,
            minimum_stake: 100,
        },
        DomainActionErrorKind::FunctionCallError(DomainFunctionCallError::WasmTrap),
        DomainActionErrorKind::NewReceiptValidationError(
            DomainReceiptValidationError::InvalidReceiverId,
        ),
        DomainActionErrorKind::OnlyImplicitAccountCreationAllowed {
            account_id: b"a".to_vec(),
        },
        DomainActionErrorKind::DeleteAccountWithLargeState { account_id: b"a".to_vec() },
        DomainActionErrorKind::DelegateActionInvalidSignature,
        DomainActionErrorKind::DelegateActionSenderDoesNotMatchTxReceiver {
            sender_id: b"s".to_vec(),
            receiver_id: b"r".to_vec(),
        },
        DomainActionErrorKind::DelegateActionExpired,
        DomainActionErrorKind::DelegateActionAccessKeyError,
        DomainActionErrorKind::DelegateActionInvalidNonce { delegate_nonce: 8, ak_nonce: 9 },
        DomainActionErrorKind::DelegateActionNonceTooLarge {
            delegate_nonce: 8,
            upper_bound: 4,
        },
    ]
}

fn wire_kind_position(k: &pb::action_error_kind::Kind) -> u32 {
    match k {
        pb::action_error_kind::Kind::AccountAlreadyExist(_) => 1,
        pb::action_error_kind::Kind::AccountDoesNotExist(_) => 2,
        pb::action_error_kind::Kind::CreateAccountOnlyByRegistrar(_) => 3,
        pb::action_error_kind::Kind::CreateAccountNotAllowed(_) => 4,
        pb::action_error_kind::Kind::ActorNoPermission(_) => 5,
        pb::action_error_kind::Kind::DeleteKeyDoesNotExist(_) => 6,
        pb::action_error_kind::Kind::AddKeyAlreadyExists(_) => 7,
        pb::action_error_kind::Kind::DeleteAccountStaking(_) => 8,
        pb::action_error_kind::Kind::LackBalanceForState(_) => 9,
        pb::action_error_kind::Kind::TriesToUnstake(_) => 10,
        pb::action_error_kind::Kind::TriesToStake(_) => 11,
        pb::action_error_kind::Kind::InsufficientStake(_) => 12,
        pb::action_error_kind::Kind::FunctionCall(_) => 13,
        pb::action_error_kind::Kind::NewReceiptValidation(_) => 14,
        pb::action_error_kind::Kind::OnlyImplicitAccountCreationAllowed(_) => 15,
        pb::action_error_kind::Kind::DeleteAccountWithLargeState(_) => 16,
        pb::action_error_kind::Kind::DelegateActionInvalidSignature(_) => 17,
        pb::action_error_kind::Kind::DelegateActionSenderDoesNotMatchTxReceiver(_) => 18,
        pb::action_error_kind::Kind::DelegateActionExpired(_) => 19,
        pb::action_error_kind::Kind::DelegateActionAccessKeyError(_) => 20,
        pb::action_error_kind::Kind::DelegateActionInvalidNonce(_) => 21,
        pb::action_error_kind::Kind::DelegateActionNonceTooLarge(_) => 22,
    }
}

#[test]
fn every_action_error_kind_maps_to_its_own_wire_variant() {
    let cases = action_kind_cases();
    assert_eq!(cases.len(), 22);
    let mut seen: Vec<u32> = Vec::new();
    for (i, d) in cases.iter().enumerate() {
        let w = map_action_error_kind(d);
        let kind = w.kind.expect("the mapping never produces an empty kind");
        let pos = wire_kind_position(&kind);
        assert_eq!(pos as usize, i + 1, "a kind landed on the wrong variant");
        assert!(!seen.contains(&pos));
        seen.push(pos);
    }
}

#[test]
fn staking_deletion_keeps_the_account_id() {
    let w = map_action_error_kind(&DomainActionErrorKind::DeleteAccountStaking {
        account_id: b"staking.near".to_vec(),
    });
    match w.kind.unwrap() {
        pb::action_error_kind::Kind::DeleteAccountStaking(p) => {
            assert_eq!(p.account_id, b"staking.near".to_vec());
        }
        other => panic!("wrong variant: {:?}", other),
    }
}

#[test]
fn every_invalid_tx_reason_maps_to_its_own_tag() {
    let cases = vec![
        DomainInvalidTxError::InvalidAccessKeyError,
        DomainInvalidTxError::InvalidSignerId,
        DomainInvalidTxError::SignerDoesNotExist,
        DomainInvalidTxError::InvalidNonce,
        DomainInvalidTxError::NonceTooLarge,
        DomainInvalidTxError::InvalidReceiverId,
        DomainInvalidTxError::InvalidSignature,
        DomainInvalidTxError::NotEnoughBalance,
        DomainInvalidTxError::LackBalanceForState,
        DomainInvalidTxError::CostOverflow,
        DomainInvalidTxError::InvalidChain,
        DomainInvalidTxError::Expired,
        DomainInvalidTxError::ActionsValidation,
        DomainInvalidTxError::TransactionSizeExceeded,
    ];
    assert_eq!(cases.len(), 14);
    let mut seen: Vec<i32> = Vec::new();
    for d in &cases {
        let w = map_invalid_tx_error(*d);
        let tag = near_firehose::pb::invalid_tx_error_tag(w);
        assert!(!seen.contains(&tag));
        seen.push(tag);
    }
    assert_eq!(seen, (0..14).collect::<Vec<i32>>());
}

#[test]
fn tx_error_maps_to_exactly_one_alternative() {
    let ae = DomainTxError::ActionError(DomainActionError {
        index: Some(2),
        kind: DomainActionErrorKind::TriesToUnstake { account_id: b"v".to_vec() },
    });
    let w = map_tx_error(&ae);
    match w.error.unwrap() {
        pb::tx_execution_error::Error::ActionError(a) => {
            assert_eq!(a.index, 2);
            assert!(a.kind.is_some());
        }
        other => panic!("wrong alternative: {:?}", other),
    }

    let ve = DomainTxError::InvalidTxError(DomainInvalidTxError::Expired);
    let w = map_tx_error(&ve);
    match w.error.unwrap() {
        pb::tx_execution_error::Error::InvalidTxError(t) => assert_eq!(t, 11),
        other => panic!("wrong alternative: {:?}", other),
    }
}

#[test]
fn approvals_elide_absent_entries_in_order() {
    let sig_a = sig(CurveKind::Ed25519, 0xaa, 64);
    let sig_b = sig(CurveKind::Ed25519, 0xbb, 64);
    let approvals = vec![None, Some(sig_a), None, Some(sig_b)];
    let w = project_approvals(&approvals);
    assert_eq!(w.len(), 2);
    assert_eq!(w[0].bytes, vec![0xaa; 64]);
    assert_eq!(w[1].bytes, vec![0xbb; 64]);
}

fn hash(fill: u8) -> DomainHash {
    DomainHash { bytes: vec![fill; 32] }
}

#[test]
fn header_projection_carries_fields_and_zero_placeholders() {
    let d = DomainBlockHeader {
        height: 100,
        prev_height: None,
        epoch_id: hash(1),
        next_epoch_id: hash(2),
        hash: hash(3),
        prev_hash: hash(4),
        prev_state_root: hash(5),
        chunk_receipts_root: hash(6),
        chunk_headers_root: hash(7),
        chunk_tx_root: hash(8),
        outcome_root: hash(9),
        chunks_included: 1,
        challenges_root: hash(10),
        timestamp: 1600000000,
        timestamp_nanosec: 1600000000000000000,
        random_value: hash(11),
        validator_proposals: vec![],
        chunk_mask: vec![true, false],
        gas_price: 5000,
        total_supply: 1000000,
        challenges_result: vec![],
        last_final_block: hash(12),
        last_ds_final_block: hash(13),
        next_bp_hash: hash(14),
        block_merkle_root: hash(15),
        approvals: vec![],
        signature: sig(CurveKind::Ed25519, 9, 64),
        latest_protocol_version: 63,
    };
    let w = project_block_header(&d);
    assert_eq!(w.height, 100);
    assert_eq!(w.prev_height, 0, "an absent parent height is carried as zero");
    assert_eq!(w.block_ordinal, 0, "the ordinal is a placeholder");
    assert_eq!(w.last_final_block_height, 0, "placeholder");
    assert_eq!(w.last_ds_final_block_height, 0, "placeholder");
    assert!(w.epoch_sync_data_hash.is_empty(), "placeholder");
    assert_eq!(w.hash.unwrap().bytes, vec![3u8; 32]);
    assert_eq!(w.chunk_mask, vec![true, false]);
    assert_eq!(w.approvals.len(), 0);
    let mut supply = vec![0u8; 16];
    supply[13] = 0x0f;
    supply[14] = 0x42;
    supply[15] = 0x40;
    assert_eq!(w.total_supply.unwrap().bytes, supply);
}
