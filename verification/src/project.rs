//! The projection engine, part one: scalar encoders and the block- and
//! chunk-header projections.
//!
//! Each `rel_*` spec function states, field by field, what the wire form
//! of a domain value is; each `project_*` function builds that wire form
//! and is proved to satisfy the relation.

use vstd::prelude::*;
use crate::domain::CurveKind;
use crate::domain::DomainBlockHeader;
use crate::domain::DomainChunkHeader;
use crate::domain::DomainHash;
use crate::domain::DomainPublicKey;
use crate::domain::DomainSignature;
use crate::domain::DomainSlashedValidator;
use crate::domain::DomainValidatorStake;
use crate::pb;
use crate::scalar::spec_be16;
use crate::scalar::encode_uint128;
use crate::util::copy_bytes;
use crate::util::copy_bools;

verus! {

/// The numeric curve tag of a domain curve kind.
pub open spec fn spec_curve_tag(c: CurveKind) -> i32 {
    match c {
        CurveKind::Ed25519 => 0,
        CurveKind::Secp256k1 => 1,
    }
}

/// The numeric curve tag of a domain curve kind.
pub fn curve_tag(c: CurveKind) -> (r: i32)
    ensures
        r == spec_curve_tag(c),
{
    match c {
        CurveKind::Ed25519 => 0,
        CurveKind::Secp256k1 => 1,
    }
}

/// A present wire big integer holding the 16-byte big-endian encoding of
/// the 128-bit magnitude `n`.
pub open spec fn rel_big(n: u128, w: Option<pb::BigInt>) -> bool {
    w matches Some(b) && b.bytes@ == spec_be16(n)
}

/// A present wire hash holding exactly the domain hash's bytes.
pub open spec fn rel_hash(d: DomainHash, w: Option<pb::CryptoHash>) -> bool {
    w matches Some(h) && h.bytes@ == d.bytes@
}

/// The wire signature carries the domain curve tag and the same bytes.
pub open spec fn rel_signature(d: DomainSignature, w: pb::Signature) -> bool {
    w.curve == spec_curve_tag(d.curve) && w.bytes@ == d.bytes@
}

/// A present wire signature related to the domain signature.
pub open spec fn rel_signature_opt(d: DomainSignature, w: Option<pb::Signature>) -> bool {
    w matches Some(s) && rel_signature(d, s)
}

/// The wire public key carries the domain curve tag and the same bytes.
pub open spec fn rel_public_key(d: DomainPublicKey, w: Option<pb::PublicKey>) -> bool {
    w matches Some(k) && k.curve == spec_curve_tag(d.curve) && k.bytes@ == d.bytes@
}

/// The wire form of a validator stake proposal.
pub open spec fn rel_validator_stake(d: DomainValidatorStake, w: pb::ValidatorStake) -> bool {
    &&& w.account_id@ == d.account_id@
    &&& rel_public_key(d.public_key, w.public_key)
    &&& rel_big(d.stake, w.stake)
}

/// The wire form of a slashed validator.
pub open spec fn rel_slashed_validator(d: DomainSlashedValidator, w: pb::SlashedValidator) -> bool {
    w.account_id@ == d.account_id@ && w.is_double_sign == d.is_double_sign
}

/// The wire form of a chunk header: every field carried over, hashes as
/// raw bytes, balances big-endian encoded.
pub open spec fn rel_chunk_header(d: DomainChunkHeader, w: pb::ChunkHeader) -> bool {
    &&& w.chunk_hash@ == d.chunk_hash.bytes@
    &&& w.prev_block_hash@ == d.prev_block_hash.bytes@
    &&& w.outcome_root@ == d.outcome_root.bytes@
    &&& w.prev_state_root@ == d.prev_state_root.bytes@
    &&& w.encoded_merkle_root@ == d.encoded_merkle_root.bytes@
    &&& w.encoded_length == d.encoded_length
    &&& w.height_created == d.height_created
    &&& w.height_included == d.height_included
    &&& w.shard_id == d.shard_id
    &&& w.gas_used == d.gas_used
    &&& w.gas_limit == d.gas_limit
    &&& rel_big(d.validator_reward, w.validator_reward)
    &&& rel_big(d.balance_burnt, w.balance_burnt)
    &&& w.outgoing_receipts_root@ == d.outgoing_receipts_root.bytes@
    &&& w.tx_root@ == d.tx_root.bytes@
    &&& w.validator_proposals@.len() == d.validator_proposals@.len()
    &&& (forall|i: int|
        0 <= i < d.validator_proposals@.len() ==> rel_validator_stake(
            d.validator_proposals@[i],
            w.validator_proposals@[i],
        ))
    &&& rel_signature_opt(d.signature, w.signature)
}

/// The approvals a header projection keeps: one entry per present domain
/// approval, in the original order, absent entries elided.
pub open spec fn spec_kept_approvals(s: Seq<Option<DomainSignature>>) -> Seq<DomainSignature>
    decreases s.len(),
{
    if s.len() == 0 {
        Seq::empty()
    } else {
        match s.last() {
            Some(x) => spec_kept_approvals(s.drop_last()).push(x),
            None => spec_kept_approvals(s.drop_last()),
        }
    }
}

/// The wire form of a block header. `block_ordinal`,
/// `last_final_block_height`, `last_ds_final_block_height` and
/// `epoch_sync_data_hash` are zero-valued or empty placeholders; an
/// absent `prev_height` is carried as zero; the approvals list keeps the
/// present approvals only, in order.
pub open spec fn rel_block_header(d: DomainBlockHeader, w: pb::BlockHeader) -> bool {
    &&& w.height == d.height
    &&& w.prev_height == (match d.prev_height {
        Some(p) => p,
        None => 0u64,
    })
    &&& rel_hash(d.epoch_id, w.epoch_id)
    &&& rel_hash(d.next_epoch_id, w.next_epoch_id)
    &&& rel_hash(d.hash, w.hash)
    &&& rel_hash(d.prev_hash, w.prev_hash)
    &&& rel_hash(d.prev_state_root, w.prev_state_root)
    &&& rel_hash(d.chunk_receipts_root, w.chunk_receipts_root)
    &&& rel_hash(d.chunk_headers_root, w.chunk_headers_root)
    &&& rel_hash(d.chunk_tx_root, w.chunk_tx_root)
    &&& rel_hash(d.outcome_root, w.outcome_root)
    &&& w.chunks_included == d.chunks_included
    &&& rel_hash(d.challenges_root, w.challenges_root)
    &&& w.timestamp == d.timestamp
    &&& w.timestamp_nanosec == d.timestamp_nanosec
    &&& rel_hash(d.random_value, w.random_value)
    &&& w.validator_proposals@.len() == d.validator_proposals@.len()
    &&& (forall|i: int|
        0 <= i < d.validator_proposals@.len() ==> rel_validator_stake(
            d.validator_proposals@[i],
            w.validator_proposals@[i],
        ))
    &&& w.chunk_mask@ == d.chunk_mask@
    &&& rel_big(d.gas_price, w.gas_price)
    &&& w.block_ordinal == 0
    &&& rel_big(d.total_supply, w.total_supply)
    &&& w.challenges_result@.len() == d.challenges_result@.len()
    &&& (forall|i: int|
        0 <= i < d.challenges_result@.len() ==> rel_slashed_validator(
            d.challenges_result@[i],
            w.challenges_result@[i],
        ))
    &&& w.last_final_block_height == 0
    &&& rel_hash(d.last_final_block, w.last_final_block)
    &&& w.last_ds_final_block_height == 0
    &&& rel_hash(d.last_ds_final_block, w.last_ds_final_block)
    &&& rel_hash(d.next_bp_hash, w.next_bp_hash)
    &&& rel_hash(d.block_merkle_root, w.block_merkle_root)
    &&& w.epoch_sync_data_hash@.len() == 0
    &&& w.approvals@.len() == spec_kept_approvals(d.approvals@).len()
    &&& (forall|i: int|
        0 <= i < w.approvals@.len() ==> rel_signature(
            spec_kept_approvals(d.approvals@)[i],
            w.approvals@[i],
        ))
    &&& rel_signature_opt(d.signature, w.signature)
    &&& w.latest_protocol_version == d.latest_protocol_version
}

/// A well-formed domain hash projects to exactly 32 raw bytes.
pub proof fn lemma_hash_projection_length(d: DomainHash, w: Option<pb::CryptoHash>)
    requires
        d.wf(),
        rel_hash(d, w),
    ensures
        w->Some_0.bytes@.len() == 32,
{
}

/// A well-formed domain signature projects to the byte length its curve
/// fixes: 64 bytes on Ed25519, 65 on Secp256k1.
pub proof fn lemma_signature_projection_length(d: DomainSignature, w: pb::Signature)
    requires
        d.wf(),
        rel_signature(d, w),
    ensures
        w.curve == 0 ==> w.bytes@.len() == 64,
        w.curve == 1 ==> w.bytes@.len() == 65,
{
}

/// A well-formed domain public key projects to the byte length its curve
/// fixes: 32 bytes on Ed25519, 64 on Secp256k1.
pub proof fn lemma_public_key_projection_length(d: DomainPublicKey, w: Option<pb::PublicKey>)
    requires
        d.wf(),
        rel_public_key(d, w),
    ensures
        w->Some_0.curve == 0 ==> w->Some_0.bytes@.len() == 32,
        w->Some_0.curve == 1 ==> w->Some_0.bytes@.len() == 64,
{
}

/// Encode a 128-bit balance as a present wire big integer.
pub fn project_big(n: u128) -> (r: pb::BigInt)
    ensures
        r.bytes@ == spec_be16(n),
{
    pb::BigInt { bytes: encode_uint128(n) }
}

/// Carry a domain hash over as a wire hash, byte for byte.
pub fn project_hash(d: &DomainHash) -> (r: pb::CryptoHash)
    ensures
        r.bytes@ == d.bytes@,
{
    pb::CryptoHash { bytes: copy_bytes(&d.bytes) }
}

/// Encode a domain signature as its curve tag and raw bytes.
pub fn project_signature(d: &DomainSignature) -> (r: pb::Signature)
    ensures
        rel_signature(*d, r),
{
    pb::Signature { curve: curve_tag(d.curve), bytes: copy_bytes(&d.bytes) }
}

/// Encode a domain public key as its curve tag and raw bytes.
pub fn project_public_key(d: &DomainPublicKey) -> (r: pb::PublicKey)
    ensures
        rel_public_key(*d, Some(r)),
{
    pb::PublicKey { curve: curve_tag(d.curve), bytes: copy_bytes(&d.bytes) }
}

/// Project one validator stake proposal.
pub fn project_validator_stake(d: &DomainValidatorStake) -> (r: pb::ValidatorStake)
    ensures
        rel_validator_stake(*d, r),
{
    pb::ValidatorStake {
        account_id: copy_bytes(&d.account_id),
        public_key: Some(project_public_key(&d.public_key)),
        stake: Some(project_big(d.stake)),
    }
}

/// Project an ordered list of validator stake proposals.
pub fn project_validator_stakes(d: &Vec<DomainValidatorStake>) -> (r: Vec<pb::ValidatorStake>)
    ensures
        r@.len() == d@.len(),
        forall|i: int| 0 <= i < d@.len() ==> rel_validator_stake(d@[i], r@[i]),
{
    let mut r: Vec<pb::ValidatorStake> = Vec::new();
    let n = d.len();
    let mut i: usize = 0;
    while i < n
        invariant
            i <= n,
            n == d@.len(),
            r@.len() == i,
            forall|j: int| 0 <= j < i ==> rel_validator_stake(d@[j], r@[j]),
        decreases n - i,
    {
        let item = project_validator_stake(&d[i]);
        r.push(item);
        i = i + 1;
    }
    r
}

/// Project one slashed validator.
pub fn project_slashed_validator(d: &DomainSlashedValidator) -> (r: pb::SlashedValidator)
    ensures
        rel_slashed_validator(*d, r),
{
    pb::SlashedValidator {
        account_id: copy_bytes(&d.account_id),
        is_double_sign: d.is_double_sign,
    }
}

/// Project an ordered challenge result.
pub fn project_slashed_validators(d: &Vec<DomainSlashedValidator>) -> (r: Vec<
    pb::SlashedValidator,
>)
    ensures
        r@.len() == d@.len(),
        forall|i: int| 0 <= i < d@.len() ==> rel_slashed_validator(d@[i], r@[i]),
{
    let mut r: Vec<pb::SlashedValidator> = Vec::new();
    let n = d.len();
    let mut i: usize = 0;
    while i < n
        invariant
            i <= n,
            n == d@.len(),
            r@.len() == i,
            forall|j: int| 0 <= j < i ==> rel_slashed_validator(d@[j], r@[j]),
        decreases n - i,
    {
        let item = project_slashed_validator(&d[i]);
        r.push(item);
        i = i + 1;
    }
    r
}

/// Project one chunk header.
pub fn project_chunk_header(d: &DomainChunkHeader) -> (r: pb::ChunkHeader)
    ensures
        rel_chunk_header(*d, r),
{
    pb::ChunkHeader {
        chunk_hash: copy_bytes(&d.chunk_hash.bytes),
        prev_block_hash: copy_bytes(&d.prev_block_hash.bytes),
        outcome_root: copy_bytes(&d.outcome_root.bytes),
        prev_state_root: copy_bytes(&d.prev_state_root.bytes),
        encoded_merkle_root: copy_bytes(&d.encoded_merkle_root.bytes),
        encoded_length: d.encoded_length,
        height_created: d.height_created,
        height_included: d.height_included,
        shard_id: d.shard_id,
        gas_used: d.gas_used,
        gas_limit: d.gas_limit,
        validator_reward: Some(project_big(d.validator_reward)),
        balance_burnt: Some(project_big(d.balance_burnt)),
        outgoing_receipts_root: copy_bytes(&d.outgoing_receipts_root.bytes),
        tx_root: copy_bytes(&d.tx_root.bytes),
        validator_proposals: project_validator_stakes(&d.validator_proposals),
        signature: Some(project_signature(&d.signature)),
    }
}

/// Project an ordered list of chunk headers.
pub fn project_chunk_headers(d: &Vec<DomainChunkHeader>) -> (r: Vec<pb::ChunkHeader>)
    ensures
        r@.len() == d@.len(),
        forall|i: int| 0 <= i < d@.len() ==> rel_chunk_header(d@[i], r@[i]),
{
    let mut r: Vec<pb::ChunkHeader> = Vec::new();
    let n = d.len();
    let mut i: usize = 0;
    while i < n
        invariant
            i <= n,
            n == d@.len(),
            r@.len() == i,
            forall|j: int| 0 <= j < i ==> rel_chunk_header(d@[j], r@[j]),
        decreases n - i,
    {
        let item = project_chunk_header(&d[i]);
        r.push(item);
        i = i + 1;
    }
    r
}

/// Project the approvals of a header: keep one wire signature per present
/// domain approval, in the original order, and elide absent entries.
pub fn project_approvals(d: &Vec<Option<DomainSignature>>) -> (r: Vec<pb::Signature>)
    ensures
        r@.len() == spec_kept_approvals(d@).len(),
        forall|i: int|
            0 <= i < r@.len() ==> rel_signature(spec_kept_approvals(d@)[i], r@[i]),
{
    let mut r: Vec<pb::Signature> = Vec::new();
    let n = d.len();
    let mut i: usize = 0;
    while i < n
        invariant
            i <= n,
            n == d@.len(),
            r@.len() == spec_kept_approvals(d@.take(i as int)).len(),
            forall|j: int|
                0 <= j < r@.len() ==> rel_signature(
                    spec_kept_approvals(d@.take(i as int))[j],
                    r@[j],
                ),
        decreases n - i,
    {
        proof {
            assert(d@.take(i + 1).drop_last() =~= d@.take(i as int));
            assert(d@.take(i + 1).last() == d@[i as int]);
        }
        match &d[i] {
            Some(sig) => {
                let w = project_signature(sig);
                r.push(w);
            },
            None => {
            },
        }
        i = i + 1;
    }
    proof {
        assert(d@.take(n as int) =~= d@);
    }
    r
}

/// Project the block header.
pub fn project_block_header(d: &DomainBlockHeader) -> (r: pb::BlockHeader)
    ensures
        rel_block_header(*d, r),
{
    pb::BlockHeader {
        height: d.height,
        prev_height: match d.prev_height {
            Some(p) => p,
            None => 0,
        },
        epoch_id: Some(project_hash(&d.epoch_id)),
        next_epoch_id: Some(project_hash(&d.next_epoch_id)),
        hash: Some(project_hash(&d.hash)),
        prev_hash: Some(project_hash(&d.prev_hash)),
        prev_state_root: Some(project_hash(&d.prev_state_root)),
        chunk_receipts_root: Some(project_hash(&d.chunk_receipts_root)),
        chunk_headers_root: Some(project_hash(&d.chunk_headers_root)),
        chunk_tx_root: Some(project_hash(&d.chunk_tx_root)),
        outcome_root: Some(project_hash(&d.outcome_root)),
        chunks_included: d.chunks_included,
        challenges_root: Some(project_hash(&d.challenges_root)),
        timestamp: d.timestamp,
        timestamp_nanosec: d.timestamp_nanosec,
        random_value: Some(project_hash(&d.random_value)),
        validator_proposals: project_validator_stakes(&d.validator_proposals),
        chunk_mask: copy_bools(&d.chunk_mask),
        gas_price: Some(project_big(d.gas_price)),
        block_ordinal: 0,
        total_supply: Some(project_big(d.total_supply)),
        challenges_result: project_slashed_validators(&d.challenges_result),
        last_final_block_height: 0,
        last_final_block: Some(project_hash(&d.last_final_block)),
        last_ds_final_block_height: 0,
        last_ds_final_block: Some(project_hash(&d.last_ds_final_block)),
        next_bp_hash: Some(project_hash(&d.next_bp_hash)),
        block_merkle_root: Some(project_hash(&d.block_merkle_root)),
        epoch_sync_data_hash: Vec::new(),
        approvals: project_approvals(&d.approvals),
        signature: Some(project_signature(&d.signature)),
        latest_protocol_version: d.latest_protocol_version,
    }
}

} // verus!
