//! End-to-end checks: a synthetic domain block through projection,
//! serialization and line framing, read back with a small local wire
//! reader.

use near_firehose::dm;
use near_firehose::domain::{
    CurveKind, DomainAction, DomainBlock, DomainBlockHeader, DomainChunk, DomainChunkHeader,
    DomainDirection, DomainExecutionOutcome, DomainExecutionStatus, DomainHash,
    DomainMerklePathItem, DomainOutcomeWithId, DomainOutcomeWithOptionalReceipt,
    DomainPublicKey, DomainShard, DomainSignature, DomainSignedTransaction,
    DomainTransactionWithOutcome,
};
use near_firehose::encode::{enc_big_int, enc_block, enc_transfer};
use near_firehose::firehose::{process_batch, process_block};
use near_firehose::domain::{
    DomainActionError, DomainActionErrorKind, DomainInvalidTxError, DomainTxError,
};
use near_firehose::encode::{enc_execution_status, enc_merkle_path};
use near_firehose::outcomes::project_status;
use near_firehose::pb;

fn read_varint(b: &[u8], pos: &mut usize) -> u64 {
    let mut value: u64 = 0;
    let mut shift = 0;
    loop {
        let byte = b[*pos];
        *pos += 1;
        value |= ((byte & 0x7f) as u64) << shift;
        if byte < 0x80 {
            return value;
        }
        shift += 7;
    }
}

/// Every field of one message: (field number, wire type, bytes payload,
/// varint value). Length-delimited fields fill the bytes, varint fields
/// the value.
fn read_fields(b: &[u8]) -> Vec<(u64, u64, Vec<u8>, u64)> {
    let mut out = Vec::new();
    let mut pos = 0;
    while pos < b.len() {
        let key = read_varint(b, &mut pos);
        let field = key >> 3;
        let wire_type = key & 7;
        if wire_type == 2 {
            let len = read_varint(b, &mut pos) as usize;
            let payload = b[pos..pos + len].to_vec();
            pos += len;
            out.push((field, 2, payload, 0));
        } else {
            assert_eq!(wire_type, 0, "only varint and length-delimited fields are emitted");
            let v = read_varint(b, &mut pos);
            out.push((field, 0, Vec::new(), v));
        }
    }
    out
}

fn msg_field(fields: &[(u64, u64, Vec<u8>, u64)], f: u64) -> Vec<u8> {
    for (field, wt, payload, _v) in fields {
        if *field == f && *wt == 2 {
            return payload.clone();
        }
    }
    panic!("field {} not present", f);
}

fn varint_field(fields: &[(u64, u64, Vec<u8>, u64)], f: u64) -> u64 {
    for (field, wt, _payload, v) in fields {
        if *field == f && *wt == 0 {
            return *v;
        }
    }
    0
}

fn un_hex(h: &[u8]) -> Vec<u8> {
    fn nibble(c: u8) -> u8 {
        match c {
            b'0'..=b'9' => c - b'0',
            b'a'..=b'f' => c - b'a' + 10,
            _ => panic!("not a lowercase hex digit: {}", c),
        }
    }
    assert_eq!(h.len() % 2, 0);
    let mut out = Vec::new();
    let mut i = 0;
    while i < h.len() {
        out.push(nibble(h[i]) * 16 + nibble(h[i + 1]));
        i += 2;
    }
    out
}

fn hash(fill: u8) -> DomainHash {
    DomainHash { bytes: vec![fill; 32] }
}

fn sig(fill: u8) -> DomainSignature {
    DomainSignature { curve: CurveKind::Ed25519, bytes: vec![fill; 64] }
}

fn key(fill: u8) -> DomainPublicKey {
    DomainPublicKey { curve: CurveKind::Ed25519, bytes: vec![fill; 32] }
}

fn sample_header(height: u64) -> DomainBlockHeader {
    DomainBlockHeader {
        height,
        prev_height: Some(height - 1),
        epoch_id: hash(1),
        next_epoch_id: hash(2),
        hash: hash(3),
        prev_hash: hash(4),
        prev_state_root: hash(5),
        chunk_receipts_root: hash(6),
        chunk_headers_root: hash(7),
        chunk_tx_root: hash(8),
        outcome_root: hash(9),
        chunks_included: 1,
        challenges_root: hash(10),
        timestamp: 1600000000,
        timestamp_nanosec: 1600000000000000000,
        random_value: hash(11),
        validator_proposals: vec![],
        chunk_mask: vec![true],
        gas_price: 5000,
        total_supply: 1000000,
        challenges_result: vec![],
        last_final_block: hash(12),
        last_ds_final_block: hash(13),
        next_bp_hash: hash(14),
        block_merkle_root: hash(15),
        approvals: vec![None, Some(sig(0xaa))],
        signature: sig(9),
        latest_protocol_version: 63,
    }
}

fn sample_chunk_header() -> DomainChunkHeader {
    DomainChunkHeader {
        chunk_hash: hash(21),
        prev_block_hash: hash(4),
        outcome_root: hash(22),
        prev_state_root: hash(23),
        encoded_merkle_root: hash(24),
        encoded_length: 99,
        height_created: 100,
        height_included: 100,
        shard_id: 0,
        gas_used: 10,
        gas_limit: 1000,
        validator_reward: 0,
        balance_burnt: 1,
        outgoing_receipts_root: hash(25),
        tx_root: hash(26),
        validator_proposals: vec![],
        signature: sig(8),
    }
}

/// A block at the given height with one shard, one chunk holding one
/// transfer transaction of amount 7, and one successful outcome.
fn sample_block(height: u64) -> DomainBlock {
    let outcome = DomainOutcomeWithId {
        proof: vec![DomainMerklePathItem { hash: hash(31), direction: DomainDirection::Right }],
        block_hash: hash(3),
        id: hash(32),
        outcome: DomainExecutionOutcome {
            logs: vec![b"ok".to_vec()],
            receipt_ids: vec![hash(33)],
            gas_burnt: 5,
            tokens_burnt: 50,
            executor_id: b"signer.near".to_vec(),
            status: DomainExecutionStatus::SuccessValue(b"done".to_vec()),
        },
    };
    let transaction = DomainSignedTransaction {
        signer_id: b"signer.near".to_vec(),
        public_key: key(41),
        nonce: 1,
        receiver_id: b"receiver.near".to_vec(),
        actions: vec![DomainAction::Transfer { deposit: 7 }],
        signature: sig(42),
        hash: hash(43),
    };
    let chunk = DomainChunk {
        author: b"chunker.near".to_vec(),
        header: sample_chunk_header(),
        transactions: vec![DomainTransactionWithOutcome {
            transaction,
            outcome: DomainOutcomeWithOptionalReceipt {
                execution_outcome: outcome,
                receipt: None,
            },
        }],
        receipts: vec![],
    };
    DomainBlock {
        author: b"author.near".to_vec(),
        header: sample_header(height),
        chunk_headers: vec![sample_chunk_header()],
        shards: vec![DomainShard {
            shard_id: 0,
            chunk: Some(chunk),
            receipt_execution_outcomes: vec![],
        }],
    }
}

#[test]
fn transfer_action_encodes_to_exact_bytes() {
    let mut expected_big = vec![0u8; 16];
    expected_big[15] = 7;
    let big = pb::BigInt { bytes: expected_big.clone() };
    let enc = enc_big_int(&big);
    let mut want = vec![0x0au8, 16];
    want.extend_from_slice(&expected_big);
    assert_eq!(enc, want, "a big integer is one bytes field with number 1");

    let t = pb::TransferAction { deposit: Some(big) };
    let enc = enc_transfer(&t);
    let mut want_t = vec![0x0au8, 18];
    want_t.extend_from_slice(&want);
    assert_eq!(enc, want_t, "a transfer frames its deposit as field 1");
}

#[test]
fn emitted_line_frames_the_synthetic_block() {
    let d = sample_block(100);
    let (block, line) = process_block(&d);

    assert!(line.starts_with(b"FIRE BLOCK 100 "), "the record tag and height open the line");
    assert_eq!(*line.last().unwrap(), b'\n');
    let body = &line[..line.len() - 1];
    let parts: Vec<&[u8]> = body.split(|c| *c == b' ').collect();
    assert_eq!(parts.len(), 9, "tag word, record word, six metadata fields, payload");
    assert_eq!(parts[2], b"100", "height");
    assert_eq!(parts[3], hex::encode(vec![3u8; 32]).as_bytes(), "block hash");
    assert_eq!(parts[4], b"99", "parent height");
    assert_eq!(parts[5], hex::encode(vec![4u8; 32]).as_bytes(), "parent hash");
    assert_eq!(parts[6], hex::encode(vec![12u8; 32]).as_bytes(), "last final hash");
    assert_eq!(parts[7], b"1600000000", "timestamp");

    let payload = un_hex(parts[8]);
    assert_eq!(payload, enc_block(&block), "the payload is the serialized wire block");

    // Walk down to the single transaction's single action.
    let top = read_fields(&payload);
    let header = read_fields(&msg_field(&top, 2));
    assert_eq!(varint_field(&header, 1), 100, "height in the wire header");
    assert_eq!(read_fields(&msg_field(&top, 2)).len(), header.len());
    let shard = read_fields(&msg_field(&top, 4));
    let chunk = read_fields(&msg_field(&shard, 2));
    let tx_with_outcome = read_fields(&msg_field(&chunk, 3));
    let tx = read_fields(&msg_field(&tx_with_outcome, 1));
    assert_eq!(msg_field(&tx, 1), b"signer.near".to_vec());
    let action = read_fields(&msg_field(&tx, 5));
    assert_eq!(action.len(), 1, "exactly one alternative is populated");
    assert_eq!(action[0].0, 4, "the populated alternative is the transfer");
    let transfer = read_fields(&action[0].2);
    let deposit = read_fields(&msg_field(&transfer, 1));
    let mut expected = vec![0u8; 16];
    expected[15] = 7;
    assert_eq!(msg_field(&deposit, 1), expected, "a 16-byte big-endian encoding of 7");
}

#[test]
fn wire_block_fields_read_back_equal_after_serialization() {
    let d = sample_block(100);
    let (block, _line) = process_block(&d);
    let payload = enc_block(&block);
    let top = read_fields(&payload);

    assert_eq!(msg_field(&top, 1), block.author);
    let header = read_fields(&msg_field(&top, 2));
    let wh = block.header.clone().unwrap();
    assert_eq!(varint_field(&header, 1), wh.height);
    assert_eq!(varint_field(&header, 2), wh.prev_height);
    assert_eq!(varint_field(&header, 14), wh.timestamp);
    assert_eq!(varint_field(&header, 32), wh.latest_protocol_version as u64);
    let hash_msg = read_fields(&msg_field(&header, 5));
    assert_eq!(msg_field(&hash_msg, 1), wh.hash.unwrap().bytes);
    let approvals: Vec<&(u64, u64, Vec<u8>, u64)> =
        header.iter().filter(|f| f.0 == 30).collect();
    assert_eq!(approvals.len(), 1, "one present approval out of two entries");
    let appr = read_fields(&approvals[0].2);
    assert_eq!(msg_field(&appr, 2), vec![0xaa; 64]);
    assert_eq!(varint_field(&appr, 1), 0, "the Ed25519 tag is the default");

    let mask: Vec<&(u64, u64, Vec<u8>, u64)> = header.iter().filter(|f| f.0 == 18).collect();
    assert_eq!(mask.len(), 1);
    assert_eq!(mask[0].2, vec![1u8], "the chunk mask packs one byte per entry");

    let total_supply = read_fields(&msg_field(&header, 21));
    let mut supply = vec![0u8; 16];
    supply[13] = 0x0f;
    supply[14] = 0x42;
    supply[15] = 0x40;
    assert_eq!(msg_field(&total_supply, 1), supply);

    let shard = read_fields(&msg_field(&top, 4));
    assert_eq!(varint_field(&shard, 1), 0, "shard zero");
    let chunk = read_fields(&msg_field(&shard, 2));
    assert_eq!(msg_field(&chunk, 1), b"chunker.near".to_vec());
    let chunk_header = read_fields(&msg_field(&chunk, 2));
    assert_eq!(varint_field(&chunk_header, 6), 99, "encoded length");
}

#[test]
fn batch_emits_one_line_per_block_in_height_order() {
    let blocks = vec![sample_block(100), sample_block(101), sample_block(102)];
    let out = process_batch(&blocks);
    assert_eq!(out.len(), 3, "exactly one record per block");
    let mut heights = Vec::new();
    for (i, (_block, line)) in out.iter().enumerate() {
        let newlines = line.iter().filter(|c| **c == b'\n').count();
        assert_eq!(newlines, 1, "one terminated line, nothing interleaved");
        assert_eq!(*line.last().unwrap(), b'\n');
        let body = &line[..line.len() - 1];
        let parts: Vec<&[u8]> = body.split(|c| *c == b' ').collect();
        let height: u64 = String::from_utf8(parts[2].to_vec()).unwrap().parse().unwrap();
        assert_eq!(height, 100 + i as u64);
        heights.push(height);
    }
    assert_eq!(heights, vec![100, 101, 102]);
}

#[test]
fn summary_line_frames_height_hash_and_payload() {
    let d = sample_block(100);
    let (block, _line) = process_block(&d);
    let line = dm::on_block(&block);
    assert!(line.starts_with(b"DMLOG BLOCK 100 "));
    assert_eq!(*line.last().unwrap(), b'\n');
    let body = &line[..line.len() - 1];
    let parts: Vec<&[u8]> = body.split(|c| *c == b' ').collect();
    assert_eq!(parts.len(), 5);
    assert_eq!(parts[2], b"100");
    assert_eq!(parts[3], hex::encode(vec![3u8; 32]).as_bytes());
    assert_eq!(un_hex(parts[4]), enc_block(&block));
}

#[test]
fn failed_status_encodes_the_mapped_error_variant() {
    // A validation failure carries its numeric tag at the second
    // alternative of the error union.
    let st = project_status(&DomainExecutionStatus::Failure(DomainTxError::InvalidTxError(
        DomainInvalidTxError::Expired,
    )));
    let enc = enc_execution_status(&st);
    let status = read_fields(&enc);
    assert_eq!(status.len(), 1);
    assert_eq!(status[0].0, 2, "the failure alternative");
    let failure = read_fields(&status[0].2);
    let error = read_fields(&msg_field(&failure, 1));
    assert_eq!(error.len(), 1);
    assert_eq!(error[0].0, 2, "the invalid-transaction alternative");
    assert_eq!(error[0].3, 11, "the tag of the expiry reason");

    // An action error lands on the first alternative with its kind at
    // the kind's own variant number.
    let st = project_status(&DomainExecutionStatus::Failure(DomainTxError::ActionError(
        DomainActionError {
            index: Some(3),
            kind: DomainActionErrorKind::DelegateActionInvalidNonce {
                delegate_nonce: 8,
                ak_nonce: 9,
            },
        },
    )));
    let enc = enc_execution_status(&st);
    let status = read_fields(&enc);
    let failure = read_fields(&status[0].2);
    let error = read_fields(&msg_field(&failure, 1));
    assert_eq!(error[0].0, 1, "the action-error alternative");
    let action_error = read_fields(&error[0].2);
    assert_eq!(varint_field(&action_error, 1), 3, "the failing action's index");
    let kind = read_fields(&msg_field(&action_error, 2));
    assert_eq!(kind.len(), 1);
    assert_eq!(kind[0].0, 21, "the invalid-nonce variant");
    let payload = read_fields(&kind[0].2);
    assert_eq!(varint_field(&payload, 1), 8);
    assert_eq!(varint_field(&payload, 2), 9);
}

#[test]
fn empty_collections_encode_to_no_bytes() {
    let p = pb::MerklePath { path: vec![] };
    assert_eq!(enc_merkle_path(&p), Vec::<u8>::new());

    let t = pb::TransferAction { deposit: None };
    assert_eq!(enc_transfer(&t), Vec::<u8>::new(), "an absent deposit is elided");
}
