//! The wire serializer: for every message shape of the schema, a spec
//! function giving its exact byte encoding, and an executable encoder
//! proved to produce those bytes.
//!
//! A message encodes as the concatenation of its field encodings in
//! field-number order. Scalar fields equal to their default are elided;
//! present sub-messages, repeated elements and chosen union alternatives
//! are always emitted.

use vstd::prelude::*;
use crate::pb;
use crate::proto::spec_field_bool;
use crate::proto::spec_field_bytes;
use crate::proto::spec_field_enum;
use crate::proto::spec_field_packed_bool;
use crate::proto::spec_field_u32;
use crate::proto::spec_field_u64;
use crate::proto::spec_len_delim;
use crate::proto::spec_oneof_enum;
use crate::proto::spec_rep;
use crate::proto::spec_rep_bytes;
use crate::proto::lemma_rep_push;
use crate::proto::lemma_rep_bytes_push;
use crate::proto::put_field_bool;
use crate::proto::put_field_bytes;
use crate::proto::put_field_enum;
use crate::proto::put_field_packed_bool;
use crate::proto::put_field_u32;
use crate::proto::put_field_u64;
use crate::proto::put_len_delim;
use crate::proto::put_oneof_enum;

verus! {

/// An optional sub-message field: absent encodes to nothing, a present
/// value is always framed, an empty payload included.
pub open spec fn spec_field_opt<T>(field: nat, o: Option<T>, e: spec_fn(T) -> Seq<u8>)
    -> Seq<u8> {
    match o {
        Option::None => Seq::empty(),
        Option::Some(m) => spec_len_delim(field, e(m)),
    }
}

/// The byte views of a list of byte vectors.
pub open spec fn spec_views(s: Seq<Vec<u8>>) -> Seq<Seq<u8>> {
    s.map_values(|x: Vec<u8>| x@)
}

// ---- scalar value objects ----

pub open spec fn spec_enc_big_int(m: pb::BigInt) -> Seq<u8> {
    spec_field_bytes(1, m.bytes@)
}

/// Encode a wire big integer.
pub fn enc_big_int(m: &pb::BigInt) -> (r: Vec<u8>)
    ensures
        r@ == spec_enc_big_int(*m),
{
    let mut buf: Vec<u8> = Vec::new();
    put_field_bytes(&mut buf, 1, &m.bytes);
    assert(buf@ =~= spec_enc_big_int(*m));
    buf
}

pub open spec fn spec_enc_crypto_hash(m: pb::CryptoHash) -> Seq<u8> {
    spec_field_bytes(1, m.bytes@)
}

/// Encode a wire hash.
pub fn enc_crypto_hash(m: &pb::CryptoHash) -> (r: Vec<u8>)
    ensures
        r@ == spec_enc_crypto_hash(*m),
{
    let mut buf: Vec<u8> = Vec::new();
    put_field_bytes(&mut buf, 1, &m.bytes);
    assert(buf@ =~= spec_enc_crypto_hash(*m));
    buf
}

pub open spec fn spec_enc_signature(m: pb::Signature) -> Seq<u8> {
    spec_field_enum(1, m.curve) + spec_field_bytes(2, m.bytes@)
}

/// Encode a wire signature.
pub fn enc_signature(m: &pb::Signature) -> (r: Vec<u8>)
    ensures
        r@ == spec_enc_signature(*m),
{
    let mut buf: Vec<u8> = Vec::new();
    put_field_enum(&mut buf, 1, m.curve);
    put_field_bytes(&mut buf, 2, &m.bytes);
    assert(buf@ =~= spec_enc_signature(*m));
    buf
}

pub open spec fn spec_enc_public_key(m: pb::PublicKey) -> Seq<u8> {
    spec_field_enum(1, m.curve) + spec_field_bytes(2, m.bytes@)
}

/// Encode a wire public key.
pub fn enc_public_key(m: &pb::PublicKey) -> (r: Vec<u8>)
    ensures
        r@ == spec_enc_public_key(*m),
{
    let mut buf: Vec<u8> = Vec::new();
    put_field_enum(&mut buf, 1, m.curve);
    put_field_bytes(&mut buf, 2, &m.bytes);
    assert(buf@ =~= spec_enc_public_key(*m));
    buf
}

// ---- validator material ----

pub open spec fn spec_enc_validator_stake(m: pb::ValidatorStake) -> Seq<u8> {
    spec_field_bytes(1, m.account_id@) + spec_field_opt(
        2,
        m.public_key,
        |k: pb::PublicKey| spec_enc_public_key(k),
    ) + spec_field_opt(3, m.stake, |b: pb::BigInt| spec_enc_big_int(b))
}

/// Encode a validator stake proposal.
pub fn enc_validator_stake(m: &pb::ValidatorStake) -> (r: Vec<u8>)
    ensures
        r@ == spec_enc_validator_stake(*m),
{
    let mut buf: Vec<u8> = Vec::new();
    put_field_bytes(&mut buf, 1, &m.account_id);
    match &m.public_key {
        Some(k) => {
            let tmp = enc_public_key(k);
            put_len_delim(&mut buf, 2, &tmp);
        },
        None => {},
    }
    match &m.stake {
        Some(b) => {
            let tmp = enc_big_int(b);
            put_len_delim(&mut buf, 3, &tmp);
        },
        None => {},
    }
    assert(buf@ =~= spec_enc_validator_stake(*m));
    buf
}

pub open spec fn spec_enc_slashed_validator(m: pb::SlashedValidator) -> Seq<u8> {
    spec_field_bytes(1, m.account_id@) + spec_field_bool(2, m.is_double_sign)
}

/// Encode a slashed validator.
pub fn enc_slashed_validator(m: &pb::SlashedValidator) -> (r: Vec<u8>)
    ensures
        r@ == spec_enc_slashed_validator(*m),
{
    let mut buf: Vec<u8> = Vec::new();
    put_field_bytes(&mut buf, 1, &m.account_id);
    put_field_bool(&mut buf, 2, m.is_double_sign);
    assert(buf@ =~= spec_enc_slashed_validator(*m));
    buf
}

/// Encode a repeated validator-stake field.
pub fn enc_rep_stakes(field: u32, v: &Vec<pb::ValidatorStake>) -> (r: Vec<u8>)
    requires
        field >= 1,
        field < 1000,
    ensures
        r@ == spec_rep(field as nat, v@, |x: pb::ValidatorStake| spec_enc_validator_stake(x)),
{
    let mut r: Vec<u8> = Vec::new();
    let n = v.len();
    let mut i: usize = 0;
    while i < n
        invariant
            i <= n,
            n == v@.len(),
            field >= 1,
            field < 1000,
            r@ == spec_rep(
                field as nat,
                v@.take(i as int),
                |x: pb::ValidatorStake| spec_enc_validator_stake(x),
            ),
        decreases n - i,
    {
        let tmp = enc_validator_stake(&v[i]);
        put_len_delim(&mut r, field, &tmp);
        proof {
            assert(v@.take(i + 1) =~= v@.take(i as int).push(v@[i as int]));
            lemma_rep_push(
                field as nat,
                v@.take(i as int),
                v@[i as int],
                |x: pb::ValidatorStake| spec_enc_validator_stake(x),
            );
        }
        i = i + 1;
    }
    assert(v@.take(n as int) =~= v@);
    r
}

/// Encode a repeated slashed-validator field.
pub fn enc_rep_slashed(field: u32, v: &Vec<pb::SlashedValidator>) -> (r: Vec<u8>)
    requires
        field >= 1,
        field < 1000,
    ensures
        r@ == spec_rep(
            field as nat,
            v@,
            |x: pb::SlashedValidator| spec_enc_slashed_validator(x),
        ),
{
    let mut r: Vec<u8> = Vec::new();
    let n = v.len();
    let mut i: usize = 0;
    while i < n
        invariant
            i <= n,
            n == v@.len(),
            field >= 1,
            field < 1000,
            r@ == spec_rep(
                field as nat,
                v@.take(i as int),
                |x: pb::SlashedValidator| spec_enc_slashed_validator(x),
            ),
        decreases n - i,
    {
        let tmp = enc_slashed_validator(&v[i]);
        put_len_delim(&mut r, field, &tmp);
        proof {
            assert(v@.take(i + 1) =~= v@.take(i as int).push(v@[i as int]));
            lemma_rep_push(
                field as nat,
                v@.take(i as int),
                v@[i as int],
                |x: pb::SlashedValidator| spec_enc_slashed_validator(x),
            );
        }
        i = i + 1;
    }
    assert(v@.take(n as int) =~= v@);
    r
}

/// Encode a repeated signature field.
pub fn enc_rep_signatures(field: u32, v: &Vec<pb::Signature>) -> (r: Vec<u8>)
    requires
        field >= 1,
        field < 1000,
    ensures
        r@ == spec_rep(field as nat, v@, |x: pb::Signature| spec_enc_signature(x)),
{
    let mut r: Vec<u8> = Vec::new();
    let n = v.len();
    let mut i: usize = 0;
    while i < n
        invariant
            i <= n,
            n == v@.len(),
            field >= 1,
            field < 1000,
            r@ == spec_rep(
                field as nat,
                v@.take(i as int),
                |x: pb::Signature| spec_enc_signature(x),
            ),
        decreases n - i,
    {
        let tmp = enc_signature(&v[i]);
        put_len_delim(&mut r, field, &tmp);
        proof {
            assert(v@.take(i + 1) =~= v@.take(i as int).push(v@[i as int]));
            lemma_rep_push(
                field as nat,
                v@.take(i as int),
                v@[i as int],
                |x: pb::Signature| spec_enc_signature(x),
            );
        }
        i = i + 1;
    }
    assert(v@.take(n as int) =~= v@);
    r
}

/// Encode a repeated hash field.
pub fn enc_rep_hashes(field: u32, v: &Vec<pb::CryptoHash>) -> (r: Vec<u8>)
    requires
        field >= 1,
        field < 1000,
    ensures
        r@ == spec_rep(field as nat, v@, |x: pb::CryptoHash| spec_enc_crypto_hash(x)),
{
    let mut r: Vec<u8> = Vec::new();
    let n = v.len();
    let mut i: usize = 0;
    while i < n
        invariant
            i <= n,
            n == v@.len(),
            field >= 1,
            field < 1000,
            r@ == spec_rep(
                field as nat,
                v@.take(i as int),
                |x: pb::CryptoHash| spec_enc_crypto_hash(x),
            ),
        decreases n - i,
    {
        let tmp = enc_crypto_hash(&v[i]);
        put_len_delim(&mut r, field, &tmp);
        proof {
            assert(v@.take(i + 1) =~= v@.take(i as int).push(v@[i as int]));
            lemma_rep_push(
                field as nat,
                v@.take(i as int),
                v@[i as int],
                |x: pb::CryptoHash| spec_enc_crypto_hash(x),
            );
        }
        i = i + 1;
    }
    assert(v@.take(n as int) =~= v@);
    r
}

/// Encode a repeated bytes field: one frame per element, empty elements
/// included.
pub fn enc_rep_bytes_list(field: u32, v: &Vec<Vec<u8>>) -> (r: Vec<u8>)
    requires
        field >= 1,
        field < 1000,
    ensures
        r@ == spec_rep_bytes(field as nat, spec_views(v@)),
{
    let mut r: Vec<u8> = Vec::new();
    let n = v.len();
    let mut i: usize = 0;
    while i < n
        invariant
            i <= n,
            n == v@.len(),
            field >= 1,
            field < 1000,
            r@ == spec_rep_bytes(field as nat, spec_views(v@.take(i as int))),
        decreases n - i,
    {
        put_len_delim(&mut r, field, &v[i]);
        proof {
            assert(spec_views(v@.take(i + 1)) =~= spec_views(v@.take(i as int)).push(
                v@[i as int]@,
            ));
            lemma_rep_bytes_push(field as nat, spec_views(v@.take(i as int)), v@[i as int]@);
        }
        i = i + 1;
    }
    assert(v@.take(n as int) =~= v@);
    r
}

// ---- chunk and block headers ----

pub open spec fn spec_enc_chunk_header(m: pb::ChunkHeader) -> Seq<u8> {
    spec_field_bytes(1, m.chunk_hash@) + spec_field_bytes(2, m.prev_block_hash@)
        + spec_field_bytes(3, m.outcome_root@) + spec_field_bytes(4, m.prev_state_root@)
        + spec_field_bytes(5, m.encoded_merkle_root@) + spec_field_u64(6, m.encoded_length)
        + spec_field_u64(7, m.height_created) + spec_field_u64(8, m.height_included)
        + spec_field_u64(9, m.shard_id) + spec_field_u64(10, m.gas_used) + spec_field_u64(
        11,
        m.gas_limit,
    ) + spec_field_opt(12, m.validator_reward, |b: pb::BigInt| spec_enc_big_int(b))
        + spec_field_opt(13, m.balance_burnt, |b: pb::BigInt| spec_enc_big_int(b))
        + spec_field_bytes(14, m.outgoing_receipts_root@) + spec_field_bytes(15, m.tx_root@)
        + spec_rep(
        16,
        m.validator_proposals@,
        |x: pb::ValidatorStake| spec_enc_validator_stake(x),
    ) + spec_field_opt(17, m.signature, |s: pb::Signature| spec_enc_signature(s))
}

/// Encode a chunk header.
pub fn enc_chunk_header(m: &pb::ChunkHeader) -> (r: Vec<u8>)
    ensures
        r@ == spec_enc_chunk_header(*m),
{
    let mut buf: Vec<u8> = Vec::new();
    put_field_bytes(&mut buf, 1, &m.chunk_hash);
    put_field_bytes(&mut buf, 2, &m.prev_block_hash);
    put_field_bytes(&mut buf, 3, &m.outcome_root);
    put_field_bytes(&mut buf, 4, &m.prev_state_root);
    put_field_bytes(&mut buf, 5, &m.encoded_merkle_root);
    put_field_u64(&mut buf, 6, m.encoded_length);
    put_field_u64(&mut buf, 7, m.height_created);
    put_field_u64(&mut buf, 8, m.height_included);
    put_field_u64(&mut buf, 9, m.shard_id);
    put_field_u64(&mut buf, 10, m.gas_used);
    put_field_u64(&mut buf, 11, m.gas_limit);
    match &m.validator_reward {
        Some(b) => {
            let tmp = enc_big_int(b);
            put_len_delim(&mut buf, 12, &tmp);
        },
        None => {},
    }
    match &m.balance_burnt {
        Some(b) => {
            let tmp = enc_big_int(b);
            put_len_delim(&mut buf, 13, &tmp);
        },
        None => {},
    }
    put_field_bytes(&mut buf, 14, &m.outgoing_receipts_root);
    put_field_bytes(&mut buf, 15, &m.tx_root);
    let stakes = enc_rep_stakes(16, &m.validator_proposals);
    crate::proto::append_bytes(&mut buf, &stakes);
    match &m.signature {
        Some(s) => {
            let tmp = enc_signature(s);
            put_len_delim(&mut buf, 17, &tmp);
        },
        None => {},
    }
    assert(buf@ =~= spec_enc_chunk_header(*m));
    buf
}

pub open spec fn spec_enc_block_header(m: pb::BlockHeader) -> Seq<u8> {
    spec_field_u64(1, m.height) + spec_field_u64(2, m.prev_height) + spec_field_opt(
        3,
        m.epoch_id,
        |c: pb::CryptoHash| spec_enc_crypto_hash(c),
    ) + spec_field_opt(4, m.next_epoch_id, |c: pb::CryptoHash| spec_enc_crypto_hash(c))
        + spec_field_opt(5, m.hash, |c: pb::CryptoHash| spec_enc_crypto_hash(c))
        + spec_field_opt(6, m.prev_hash, |c: pb::CryptoHash| spec_enc_crypto_hash(c))
        + spec_field_opt(7, m.prev_state_root, |c: pb::CryptoHash| spec_enc_crypto_hash(c))
        + spec_field_opt(8, m.chunk_receipts_root, |c: pb::CryptoHash| spec_enc_crypto_hash(c))
        + spec_field_opt(9, m.chunk_headers_root, |c: pb::CryptoHash| spec_enc_crypto_hash(c))
        + spec_field_opt(10, m.chunk_tx_root, |c: pb::CryptoHash| spec_enc_crypto_hash(c))
        + spec_field_opt(11, m.outcome_root, |c: pb::CryptoHash| spec_enc_crypto_hash(c))
        + spec_field_u64(12, m.chunks_included) + spec_field_opt(
        13,
        m.challenges_root,
        |c: pb::CryptoHash| spec_enc_crypto_hash(c),
    ) + spec_field_u64(14, m.timestamp) + spec_field_u64(15, m.timestamp_nanosec)
        + spec_field_opt(16, m.random_value, |c: pb::CryptoHash| spec_enc_crypto_hash(c))
        + spec_rep(
        17,
        m.validator_proposals@,
        |x: pb::ValidatorStake| spec_enc_validator_stake(x),
    ) + spec_field_packed_bool(18, m.chunk_mask@) + spec_field_opt(
        19,
        m.gas_price,
        |b: pb::BigInt| spec_enc_big_int(b),
    ) + spec_field_u64(20, m.block_ordinal) + spec_field_opt(
        21,
        m.total_supply,
        |b: pb::BigInt| spec_enc_big_int(b),
    ) + spec_rep(
        22,
        m.challenges_result@,
        |x: pb::SlashedValidator| spec_enc_slashed_validator(x),
    ) + spec_field_u64(23, m.last_final_block_height) + spec_field_opt(
        24,
        m.last_final_block,
        |c: pb::CryptoHash| spec_enc_crypto_hash(c),
    ) + spec_field_u64(25, m.last_ds_final_block_height) + spec_field_opt(
        26,
        m.last_ds_final_block,
        |c: pb::CryptoHash| spec_enc_crypto_hash(c),
    ) + spec_field_opt(27, m.next_bp_hash, |c: pb::CryptoHash| spec_enc_crypto_hash(c))
        + spec_field_opt(28, m.block_merkle_root, |c: pb::CryptoHash| spec_enc_crypto_hash(c))
        + spec_field_bytes(29, m.epoch_sync_data_hash@) + spec_rep(
        30,
        m.approvals@,
        |x: pb::Signature| spec_enc_signature(x),
    ) + spec_field_opt(31, m.signature, |s: pb::Signature| spec_enc_signature(s))
        + spec_field_u32(32, m.latest_protocol_version)
}

/// Encode a block header.
pub fn enc_block_header(m: &pb::BlockHeader) -> (r: Vec<u8>)
    ensures
        r@ == spec_enc_block_header(*m),
{
    let mut buf: Vec<u8> = Vec::new();
    put_field_u64(&mut buf, 1, m.height);
    put_field_u64(&mut buf, 2, m.prev_height);
    enc_opt_hash(&mut buf, 3, &m.epoch_id);
    enc_opt_hash(&mut buf, 4, &m.next_epoch_id);
    enc_opt_hash(&mut buf, 5, &m.hash);
    enc_opt_hash(&mut buf, 6, &m.prev_hash);
    enc_opt_hash(&mut buf, 7, &m.prev_state_root);
    enc_opt_hash(&mut buf, 8, &m.chunk_receipts_root);
    enc_opt_hash(&mut buf, 9, &m.chunk_headers_root);
    enc_opt_hash(&mut buf, 10, &m.chunk_tx_root);
    enc_opt_hash(&mut buf, 11, &m.outcome_root);
    put_field_u64(&mut buf, 12, m.chunks_included);
    enc_opt_hash(&mut buf, 13, &m.challenges_root);
    put_field_u64(&mut buf, 14, m.timestamp);
    put_field_u64(&mut buf, 15, m.timestamp_nanosec);
    enc_opt_hash(&mut buf, 16, &m.random_value);
    let stakes = enc_rep_stakes(17, &m.validator_proposals);
    crate::proto::append_bytes(&mut buf, &stakes);
    put_field_packed_bool(&mut buf, 18, &m.chunk_mask);
    enc_opt_big(&mut buf, 19, &m.gas_price);
    put_field_u64(&mut buf, 20, m.block_ordinal);
    enc_opt_big(&mut buf, 21, &m.total_supply);
    let slashed = enc_rep_slashed(22, &m.challenges_result);
    crate::proto::append_bytes(&mut buf, &slashed);
    put_field_u64(&mut buf, 23, m.last_final_block_height);
    enc_opt_hash(&mut buf, 24, &m.last_final_block);
    put_field_u64(&mut buf, 25, m.last_ds_final_block_height);
    enc_opt_hash(&mut buf, 26, &m.last_ds_final_block);
    enc_opt_hash(&mut buf, 27, &m.next_bp_hash);
    enc_opt_hash(&mut buf, 28, &m.block_merkle_root);
    put_field_bytes(&mut buf, 29, &m.epoch_sync_data_hash);
    let approvals = enc_rep_signatures(30, &m.approvals);
    crate::proto::append_bytes(&mut buf, &approvals);
    match &m.signature {
        Some(s) => {
            let tmp = enc_signature(s);
            put_len_delim(&mut buf, 31, &tmp);
        },
        None => {},
    }
    put_field_u32(&mut buf, 32, m.latest_protocol_version);
    assert(buf@ =~= spec_enc_block_header(*m));
    buf
}

/// Append an optional hash field.
pub fn enc_opt_hash(buf: &mut Vec<u8>, field: u32, o: &Option<pb::CryptoHash>)
    requires
        field >= 1,
        field < 1000,
    ensures
        final(buf)@ == old(buf)@ + spec_field_opt(
            field as nat,
            *o,
            |c: pb::CryptoHash| spec_enc_crypto_hash(c),
        ),
{
    match o {
        Some(c) => {
            let tmp = enc_crypto_hash(c);
            put_len_delim(buf, field, &tmp);
        },
        None => {},
    }
}

/// Append an optional big-integer field.
pub fn enc_opt_big(buf: &mut Vec<u8>, field: u32, o: &Option<pb::BigInt>)
    requires
        field >= 1,
        field < 1000,
    ensures
        final(buf)@ == old(buf)@ + spec_field_opt(
            field as nat,
            *o,
            |b: pb::BigInt| spec_enc_big_int(b),
        ),
{
    match o {
        Some(b) => {
            let tmp = enc_big_int(b);
            put_len_delim(buf, field, &tmp);
        },
        None => {},
    }
}

/// Append an optional public-key field.
pub fn enc_opt_key(buf: &mut Vec<u8>, field: u32, o: &Option<pb::PublicKey>)
    requires
        field >= 1,
        field < 1000,
    ensures
        final(buf)@ == old(buf)@ + spec_field_opt(
            field as nat,
            *o,
            |k: pb::PublicKey| spec_enc_public_key(k),
        ),
{
    match o {
        Some(k) => {
            let tmp = enc_public_key(k);
            put_len_delim(buf, field, &tmp);
        },
        None => {},
    }
}

/// Append an optional signature field.
pub fn enc_opt_sig(buf: &mut Vec<u8>, field: u32, o: &Option<pb::Signature>)
    requires
        field >= 1,
        field < 1000,
    ensures
        final(buf)@ == old(buf)@ + spec_field_opt(
            field as nat,
            *o,
            |s: pb::Signature| spec_enc_signature(s),
        ),
{
    match o {
        Some(s) => {
            let tmp = enc_signature(s);
            put_len_delim(buf, field, &tmp);
        },
        None => {},
    }
}

// ---- access keys ----

pub open spec fn spec_enc_function_call_permission(m: pb::FunctionCallPermission) -> Seq<u8> {
    spec_field_opt(1, m.allowance, |b: pb::BigInt| spec_enc_big_int(b)) + spec_field_bytes(
        2,
        m.receiver_id@,
    ) + spec_rep_bytes(3, spec_views(m.method_names@))
}

/// Encode a function-call permission.
pub fn enc_function_call_permission(m: &pb::FunctionCallPermission) -> (r: Vec<u8>)
    ensures
        r@ == spec_enc_function_call_permission(*m),
{
    let mut buf: Vec<u8> = Vec::new();
    enc_opt_big(&mut buf, 1, &m.allowance);
    put_field_bytes(&mut buf, 2, &m.receiver_id);
    let names = enc_rep_bytes_list(3, &m.method_names);
    crate::proto::append_bytes(&mut buf, &names);
    assert(buf@ =~= spec_enc_function_call_permission(*m));
    buf
}

pub open spec fn spec_enc_access_key_permission(m: pb::AccessKeyPermission) -> Seq<u8> {
    match m.permission {
        Option::None => Seq::empty(),
        Option::Some(pb::access_key_permission::Permission::FunctionCall(p)) => spec_len_delim(
            1,
            spec_enc_function_call_permission(p),
        ),
        Option::Some(pb::access_key_permission::Permission::FullAccess(_f)) => spec_len_delim(
            2,
            Seq::empty(),
        ),
    }
}

/// Encode an access-key permission union.
pub fn enc_access_key_permission(m: &pb::AccessKeyPermission) -> (r: Vec<u8>)
    ensures
        r@ == spec_enc_access_key_permission(*m),
{
    let mut buf: Vec<u8> = Vec::new();
    match &m.permission {
        None => {},
        Some(pb::access_key_permission::Permission::FunctionCall(p)) => {
            let tmp = enc_function_call_permission(p);
            put_len_delim(&mut buf, 1, &tmp);
        },
        Some(pb::access_key_permission::Permission::FullAccess(_f)) => {
            let tmp: Vec<u8> = Vec::new();
            put_len_delim(&mut buf, 2, &tmp);
        },
    }
    assert(buf@ =~= spec_enc_access_key_permission(*m));
    buf
}

pub open spec fn spec_enc_access_key(m: pb::AccessKey) -> Seq<u8> {
    spec_field_u64(1, m.nonce) + spec_field_opt(
        2,
        m.permission,
        |p: pb::AccessKeyPermission| spec_enc_access_key_permission(p),
    )
}

/// Encode an access key.
pub fn enc_access_key(m: &pb::AccessKey) -> (r: Vec<u8>)
    ensures
        r@ == spec_enc_access_key(*m),
{
    let mut buf: Vec<u8> = Vec::new();
    put_field_u64(&mut buf, 1, m.nonce);
    match &m.permission {
        Some(p) => {
            let tmp = enc_access_key_permission(p);
            put_len_delim(&mut buf, 2, &tmp);
        },
        None => {},
    }
    assert(buf@ =~= spec_enc_access_key(*m));
    buf
}

// ---- action payloads ----

pub open spec fn spec_enc_deploy_contract(m: pb::DeployContractAction) -> Seq<u8> {
    spec_field_bytes(1, m.code@)
}

/// Encode a contract deployment payload.
pub fn enc_deploy_contract(m: &pb::DeployContractAction) -> (r: Vec<u8>)
    ensures
        r@ == spec_enc_deploy_contract(*m),
{
    let mut buf: Vec<u8> = Vec::new();
    put_field_bytes(&mut buf, 1, &m.code);
    assert(buf@ =~= spec_enc_deploy_contract(*m));
    buf
}

pub open spec fn spec_enc_function_call(m: pb::FunctionCallAction) -> Seq<u8> {
    spec_field_bytes(1, m.method_name@) + spec_field_bytes(2, m.args@) + spec_field_u64(
        3,
        m.gas,
    ) + spec_field_opt(4, m.deposit, |b: pb::BigInt| spec_enc_big_int(b))
}

/// Encode a function-call payload.
pub fn enc_function_call(m: &pb::FunctionCallAction) -> (r: Vec<u8>)
    ensures
        r@ == spec_enc_function_call(*m),
{
    let mut buf: Vec<u8> = Vec::new();
    put_field_bytes(&mut buf, 1, &m.method_name);
    put_field_bytes(&mut buf, 2, &m.args);
    put_field_u64(&mut buf, 3, m.gas);
    enc_opt_big(&mut buf, 4, &m.deposit);
    assert(buf@ =~= spec_enc_function_call(*m));
    buf
}

pub open spec fn spec_enc_transfer(m: pb::TransferAction) -> Seq<u8> {
    spec_field_opt(1, m.deposit, |b: pb::BigInt| spec_enc_big_int(b))
}

/// Encode a transfer payload.
pub fn enc_transfer(m: &pb::TransferAction) -> (r: Vec<u8>)
    ensures
        r@ == spec_enc_transfer(*m),
{
    let mut buf: Vec<u8> = Vec::new();
    enc_opt_big(&mut buf, 1, &m.deposit);
    assert(buf@ =~= spec_enc_transfer(*m));
    buf
}

pub open spec fn spec_enc_stake(m: pb::StakeAction) -> Seq<u8> {
    spec_field_opt(1, m.stake, |b: pb::BigInt| spec_enc_big_int(b)) + spec_field_opt(
        2,
        m.public_key,
        |k: pb::PublicKey| spec_enc_public_key(k),
    )
}

/// Encode a stake payload.
pub fn enc_stake(m: &pb::StakeAction) -> (r: Vec<u8>)
    ensures
        r@ == spec_enc_stake(*m),
{
    let mut buf: Vec<u8> = Vec::new();
    enc_opt_big(&mut buf, 1, &m.stake);
    enc_opt_key(&mut buf, 2, &m.public_key);
    assert(buf@ =~= spec_enc_stake(*m));
    buf
}

pub open spec fn spec_enc_add_key(m: pb::AddKeyAction) -> Seq<u8> {
    spec_field_opt(1, m.public_key, |k: pb::PublicKey| spec_enc_public_key(k))
        + spec_field_opt(2, m.access_key, |a: pb::AccessKey| spec_enc_access_key(a))
}

/// Encode an add-key payload.
pub fn enc_add_key(m: &pb::AddKeyAction) -> (r: Vec<u8>)
    ensures
        r@ == spec_enc_add_key(*m),
{
    let mut buf: Vec<u8> = Vec::new();
    enc_opt_key(&mut buf, 1, &m.public_key);
    match &m.access_key {
        Some(a) => {
            let tmp = enc_access_key(a);
            put_len_delim(&mut buf, 2, &tmp);
        },
        None => {},
    }
    assert(buf@ =~= spec_enc_add_key(*m));
    buf
}

pub open spec fn spec_enc_delete_key(m: pb::DeleteKeyAction) -> Seq<u8> {
    spec_field_opt(1, m.public_key, |k: pb::PublicKey| spec_enc_public_key(k))
}

/// Encode a delete-key payload.
pub fn enc_delete_key(m: &pb::DeleteKeyAction) -> (r: Vec<u8>)
    ensures
        r@ == spec_enc_delete_key(*m),
{
    let mut buf: Vec<u8> = Vec::new();
    enc_opt_key(&mut buf, 1, &m.public_key);
    assert(buf@ =~= spec_enc_delete_key(*m));
    buf
}

pub open spec fn spec_enc_delete_account(m: pb::DeleteAccountAction) -> Seq<u8> {
    spec_field_bytes(1, m.beneficiary_id@)
}

/// Encode a delete-account payload.
pub fn enc_delete_account(m: &pb::DeleteAccountAction) -> (r: Vec<u8>)
    ensures
        r@ == spec_enc_delete_account(*m),
{
    let mut buf: Vec<u8> = Vec::new();
    put_field_bytes(&mut buf, 1, &m.beneficiary_id);
    assert(buf@ =~= spec_enc_delete_account(*m));
    buf
}

pub open spec fn spec_enc_non_delegate_action(m: pb::NonDelegateAction) -> Seq<u8> {
    match m.action {
        Option::None => Seq::empty(),
        Option::Some(pb::non_delegate_action::Action::CreateAccount(_p)) => spec_len_delim(
            1,
            Seq::empty(),
        ),
        Option::Some(pb::non_delegate_action::Action::DeployContract(p)) => spec_len_delim(
            2,
            spec_enc_deploy_contract(p),
        ),
        Option::Some(pb::non_delegate_action::Action::FunctionCall(p)) => spec_len_delim(
            3,
            spec_enc_function_call(p),
        ),
        Option::Some(pb::non_delegate_action::Action::Transfer(p)) => spec_len_delim(
            4,
            spec_enc_transfer(p),
        ),
        Option::Some(pb::non_delegate_action::Action::Stake(p)) => spec_len_delim(
            5,
            spec_enc_stake(p),
        ),
        Option::Some(pb::non_delegate_action::Action::AddKey(p)) => spec_len_delim(
            6,
            spec_enc_add_key(p),
        ),
        Option::Some(pb::non_delegate_action::Action::DeleteKey(p)) => spec_len_delim(
            7,
            spec_enc_delete_key(p),
        ),
        Option::Some(pb::non_delegate_action::Action::DeleteAccount(p)) => spec_len_delim(
            8,
            spec_enc_delete_account(p),
        ),
    }
}

/// Encode a nested, non-delegating action.
pub fn enc_non_delegate_action(m: &pb::NonDelegateAction) -> (r: Vec<u8>)
    ensures
        r@ == spec_enc_non_delegate_action(*m),
{
    let mut buf: Vec<u8> = Vec::new();
    match &m.action {
        None => {},
        Some(pb::non_delegate_action::Action::CreateAccount(_p)) => {
            let tmp: Vec<u8> = Vec::new();
            put_len_delim(&mut buf, 1, &tmp);
        },
        Some(pb::non_delegate_action::Action::DeployContract(p)) => {
            let tmp = enc_deploy_contract(p);
            put_len_delim(&mut buf, 2, &tmp);
        },
        Some(pb::non_delegate_action::Action::FunctionCall(p)) => {
            let tmp = enc_function_call(p);
            put_len_delim(&mut buf, 3, &tmp);
        },
        Some(pb::non_delegate_action::Action::Transfer(p)) => {
            let tmp = enc_transfer(p);
            put_len_delim(&mut buf, 4, &tmp);
        },
        Some(pb::non_delegate_action::Action::Stake(p)) => {
            let tmp = enc_stake(p);
            put_len_delim(&mut buf, 5, &tmp);
        },
        Some(pb::non_delegate_action::Action::AddKey(p)) => {
            let tmp = enc_add_key(p);
            put_len_delim(&mut buf, 6, &tmp);
        },
        Some(pb::non_delegate_action::Action::DeleteKey(p)) => {
            let tmp = enc_delete_key(p);
            put_len_delim(&mut buf, 7, &tmp);
        },
        Some(pb::non_delegate_action::Action::DeleteAccount(p)) => {
            let tmp = enc_delete_account(p);
            put_len_delim(&mut buf, 8, &tmp);
        },
    }
    assert(buf@ =~= spec_enc_non_delegate_action(*m));
    buf
}

/// Encode a repeated nested-action field.
pub fn enc_rep_nd_actions(field: u32, v: &Vec<pb::NonDelegateAction>) -> (r: Vec<u8>)
    requires
        field >= 1,
        field < 1000,
    ensures
        r@ == spec_rep(
            field as nat,
            v@,
            |x: pb::NonDelegateAction| spec_enc_non_delegate_action(x),
        ),
{
    let mut r: Vec<u8> = Vec::new();
    let n = v.len();
    let mut i: usize = 0;
    while i < n
        invariant
            i <= n,
            n == v@.len(),
            field >= 1,
            field < 1000,
            r@ == spec_rep(
                field as nat,
                v@.take(i as int),
                |x: pb::NonDelegateAction| spec_enc_non_delegate_action(x),
            ),
        decreases n - i,
    {
        let tmp = enc_non_delegate_action(&v[i]);
        put_len_delim(&mut r, field, &tmp);
        proof {
            assert(v@.take(i + 1) =~= v@.take(i as int).push(v@[i as int]));
            lemma_rep_push(
                field as nat,
                v@.take(i as int),
                v@[i as int],
                |x: pb::NonDelegateAction| spec_enc_non_delegate_action(x),
            );
        }
        i = i + 1;
    }
    assert(v@.take(n as int) =~= v@);
    r
}

pub open spec fn spec_enc_delegate_action(m: pb::DelegateAction) -> Seq<u8> {
    spec_field_bytes(1, m.sender_id@) + spec_field_bytes(2, m.receiver_id@) + spec_rep(
        3,
        m.actions@,
        |x: pb::NonDelegateAction| spec_enc_non_delegate_action(x),
    ) + spec_field_u64(4, m.nonce) + spec_field_u64(5, m.max_block_height) + spec_field_opt(
        6,
        m.public_key,
        |k: pb::PublicKey| spec_enc_public_key(k),
    )
}

/// Encode a delegated batch.
pub fn enc_delegate_action(m: &pb::DelegateAction) -> (r: Vec<u8>)
    ensures
        r@ == spec_enc_delegate_action(*m),
{
    let mut buf: Vec<u8> = Vec::new();
    put_field_bytes(&mut buf, 1, &m.sender_id);
    put_field_bytes(&mut buf, 2, &m.receiver_id);
    let nested = enc_rep_nd_actions(3, &m.actions);
    crate::proto::append_bytes(&mut buf, &nested);
    put_field_u64(&mut buf, 4, m.nonce);
    put_field_u64(&mut buf, 5, m.max_block_height);
    enc_opt_key(&mut buf, 6, &m.public_key);
    assert(buf@ =~= spec_enc_delegate_action(*m));
    buf
}

pub open spec fn spec_enc_signed_delegate_action(m: pb::SignedDelegateAction) -> Seq<u8> {
    spec_field_opt(1, m.delegate_action, |d: pb::DelegateAction| spec_enc_delegate_action(d))
        + spec_field_opt(2, m.signature, |s: pb::Signature| spec_enc_signature(s))
}

/// Encode a signed delegated batch.
pub fn enc_signed_delegate_action(m: &pb::SignedDelegateAction) -> (r: Vec<u8>)
    ensures
        r@ == spec_enc_signed_delegate_action(*m),
{
    let mut buf: Vec<u8> = Vec::new();
    match &m.delegate_action {
        Some(d) => {
            let tmp = enc_delegate_action(d);
            put_len_delim(&mut buf, 1, &tmp);
        },
        None => {},
    }
    enc_opt_sig(&mut buf, 2, &m.signature);
    assert(buf@ =~= spec_enc_signed_delegate_action(*m));
    buf
}

pub open spec fn spec_enc_action(m: pb::Action) -> Seq<u8> {
    match m.action {
        Option::None => Seq::empty(),
        Option::Some(pb::action::Action::CreateAccount(_p)) => spec_len_delim(1, Seq::empty()),
        Option::Some(pb::action::Action::DeployContract(p)) => spec_len_delim(
            2,
            spec_enc_deploy_contract(p),
        ),
        Option::Some(pb::action::Action::FunctionCall(p)) => spec_len_delim(
            3,
            spec_enc_function_call(p),
        ),
        Option::Some(pb::action::Action::Transfer(p)) => spec_len_delim(4, spec_enc_transfer(p)),
        Option::Some(pb::action::Action::Stake(p)) => spec_len_delim(5, spec_enc_stake(p)),
        Option::Some(pb::action::Action::AddKey(p)) => spec_len_delim(6, spec_enc_add_key(p)),
        Option::Some(pb::action::Action::DeleteKey(p)) => spec_len_delim(
            7,
            spec_enc_delete_key(p),
        ),
        Option::Some(pb::action::Action::DeleteAccount(p)) => spec_len_delim(
            8,
            spec_enc_delete_account(p),
        ),
        Option::Some(pb::action::Action::Delegate(p)) => spec_len_delim(
            9,
            spec_enc_signed_delegate_action(p),
        ),
    }
}

/// Encode an action union.
pub fn enc_action(m: &pb::Action) -> (r: Vec<u8>)
    ensures
        r@ == spec_enc_action(*m),
{
    let mut buf: Vec<u8> = Vec::new();
    match &m.action {
        None => {},
        Some(pb::action::Action::CreateAccount(_p)) => {
            let tmp: Vec<u8> = Vec::new();
            put_len_delim(&mut buf, 1, &tmp);
        },
        Some(pb::action::Action::DeployContract(p)) => {
            let tmp = enc_deploy_contract(p);
            put_len_delim(&mut buf, 2, &tmp);
        },
        Some(pb::action::Action::FunctionCall(p)) => {
            let tmp = enc_function_call(p);
            put_len_delim(&mut buf, 3, &tmp);
        },
        Some(pb::action::Action::Transfer(p)) => {
            let tmp = enc_transfer(p);
            put_len_delim(&mut buf, 4, &tmp);
        },
        Some(pb::action::Action::Stake(p)) => {
            let tmp = enc_stake(p);
            put_len_delim(&mut buf, 5, &tmp);
        },
        Some(pb::action::Action::AddKey(p)) => {
            let tmp = enc_add_key(p);
            put_len_delim(&mut buf, 6, &tmp);
        },
        Some(pb::action::Action::DeleteKey(p)) => {
            let tmp = enc_delete_key(p);
            put_len_delim(&mut buf, 7, &tmp);
        },
        Some(pb::action::Action::DeleteAccount(p)) => {
            let tmp = enc_delete_account(p);
            put_len_delim(&mut buf, 8, &tmp);
        },
        Some(pb::action::Action::Delegate(p)) => {
            let tmp = enc_signed_delegate_action(p);
            put_len_delim(&mut buf, 9, &tmp);
        },
    }
    assert(buf@ =~= spec_enc_action(*m));
    buf
}

/// Encode a repeated action field.
pub fn enc_rep_actions(field: u32, v: &Vec<pb::Action>) -> (r: Vec<u8>)
    requires
        field >= 1,
        field < 1000,
    ensures
        r@ == spec_rep(field as nat, v@, |x: pb::Action| spec_enc_action(x)),
{
    let mut r: Vec<u8> = Vec::new();
    let n = v.len();
    let mut i: usize = 0;
    while i < n
        invariant
            i <= n,
            n == v@.len(),
            field >= 1,
            field < 1000,
            r@ == spec_rep(field as nat, v@.take(i as int), |x: pb::Action| spec_enc_action(x)),
        decreases n - i,
    {
        let tmp = enc_action(&v[i]);
        put_len_delim(&mut r, field, &tmp);
        proof {
            assert(v@.take(i + 1) =~= v@.take(i as int).push(v@[i as int]));
            lemma_rep_push(
                field as nat,
                v@.take(i as int),
                v@[i as int],
                |x: pb::Action| spec_enc_action(x),
            );
        }
        i = i + 1;
    }
    assert(v@.take(n as int) =~= v@);
    r
}

// ---- merkle proofs ----

pub open spec fn spec_enc_merkle_item(m: pb::MerklePathItem) -> Seq<u8> {
    spec_field_opt(1, m.hash, |c: pb::CryptoHash| spec_enc_crypto_hash(c)) + spec_field_enum(
        2,
        m.direction,
    )
}

/// Encode one proof-path step.
pub fn enc_merkle_item(m: &pb::MerklePathItem) -> (r: Vec<u8>)
    ensures
        r@ == spec_enc_merkle_item(*m),
{
    let mut buf: Vec<u8> = Vec::new();
    enc_opt_hash(&mut buf, 1, &m.hash);
    put_field_enum(&mut buf, 2, m.direction);
    assert(buf@ =~= spec_enc_merkle_item(*m));
    buf
}

pub open spec fn spec_enc_merkle_path(m: pb::MerklePath) -> Seq<u8> {
    spec_rep(1, m.path@, |x: pb::MerklePathItem| spec_enc_merkle_item(x))
}

/// Encode an inclusion proof.
pub fn enc_merkle_path(m: &pb::MerklePath) -> (r: Vec<u8>)
    ensures
        r@ == spec_enc_merkle_path(*m),
{
    let mut r: Vec<u8> = Vec::new();
    let n = m.path.len();
    let mut i: usize = 0;
    while i < n
        invariant
            i <= n,
            n == m.path@.len(),
            r@ == spec_rep(
                1,
                m.path@.take(i as int),
                |x: pb::MerklePathItem| spec_enc_merkle_item(x),
            ),
        decreases n - i,
    {
        let tmp = enc_merkle_item(&m.path[i]);
        put_len_delim(&mut r, 1, &tmp);
        proof {
            assert(m.path@.take(i + 1) =~= m.path@.take(i as int).push(m.path@[i as int]));
            lemma_rep_push(
                1,
                m.path@.take(i as int),
                m.path@[i as int],
                |x: pb::MerklePathItem| spec_enc_merkle_item(x),
            );
        }
        i = i + 1;
    }
    assert(m.path@.take(n as int) =~= m.path@);
    r
}

// ---- the error taxonomy ----

/// Append the sole account-id field of an error payload.
fn put_account_id(buf: &mut Vec<u8>, id: &Vec<u8>)
    ensures
        final(buf)@ == old(buf)@ + spec_field_bytes(1, id@),
{
    put_field_bytes(buf, 1, id);
}

pub open spec fn spec_enc_action_error_kind(m: pb::ActionErrorKind) -> Seq<u8> {
    match m.kind {
        Option::None => Seq::empty(),
        Option::Some(pb::action_error_kind::Kind::AccountAlreadyExist(p)) => spec_len_delim(
            1,
            spec_field_bytes(1, p.account_id@),
        ),
        Option::Some(pb::action_error_kind::Kind::AccountDoesNotExist(p)) => spec_len_delim(
            2,
            spec_field_bytes(1, p.account_id@),
        ),
        Option::Some(pb::action_error_kind::Kind::CreateAccountOnlyByRegistrar(p)) =>
            spec_len_delim(
            3,
            spec_field_bytes(1, p.account_id@) + spec_field_bytes(2, p.registrar_account_id@)
                + spec_field_bytes(3, p.predecessor_id@),
        ),
        Option::Some(pb::action_error_kind::Kind::CreateAccountNotAllowed(p)) => spec_len_delim(
            4,
            spec_field_bytes(1, p.account_id@) + spec_field_bytes(2, p.predecessor_id@),
        ),
        Option::Some(pb::action_error_kind::Kind::ActorNoPermission(p)) => spec_len_delim(
            5,
            spec_field_bytes(1, p.account_id@) + spec_field_bytes(2, p.actor_id@),
        ),
        Option::Some(pb::action_error_kind::Kind::DeleteKeyDoesNotExist(p)) => spec_len_delim(
            6,
            spec_field_bytes(1, p.account_id@) + spec_field_opt(
                2,
                p.public_key,
                |k: pb::PublicKey| spec_enc_public_key(k),
            ),
        ),
        Option::Some(pb::action_error_kind::Kind::AddKeyAlreadyExists(p)) => spec_len_delim(
            7,
            spec_field_bytes(1, p.account_id@) + spec_field_opt(
                2,
                p.public_key,
                |k: pb::PublicKey| spec_enc_public_key(k),
            ),
        ),
        Option::Some(pb::action_error_kind::Kind::DeleteAccountStaking(p)) => spec_len_delim(
            8,
            spec_field_bytes(1, p.account_id@),
        ),
        Option::Some(pb::action_error_kind::Kind::LackBalanceForState(p)) => spec_len_delim(
            9,
            spec_field_bytes(1, p.account_id@) + spec_field_opt(
                2,
                p.balance,
                |b: pb::BigInt| spec_enc_big_int(b),
            ),
        ),
        Option::Some(pb::action_error_kind::Kind::TriesToUnstake(p)) => spec_len_delim(
            10,
            spec_field_bytes(1, p.account_id@),
        ),
        Option::Some(pb::action_error_kind::Kind::TriesToStake(p)) => spec_len_delim(
            11,
            spec_field_bytes(1, p.account_id@) + spec_field_opt(
                2,
                p.stake,
                |b: pb::BigInt| spec_enc_big_int(b),
            ) + spec_field_opt(3, p.locked, |b: pb::BigInt| spec_enc_big_int(b))
                + spec_field_opt(4, p.balance, |b: pb::BigInt| spec_enc_big_int(b)),
        ),
        Option::Some(pb::action_error_kind::Kind::InsufficientStake(p)) => spec_len_delim(
            12,
            spec_field_bytes(1, p.account_id@) + spec_field_opt(
                2,
                p.stake,
                |b: pb::BigInt| spec_enc_big_int(b),
            ) + spec_field_opt(3, p.minimum_stake, |b: pb::BigInt| spec_enc_big_int(b)),
        ),
        Option::Some(pb::action_error_kind::Kind::FunctionCall(p)) => spec_len_delim(
            13,
            spec_field_enum(1, p.error),
        ),
        Option::Some(pb::action_error_kind::Kind::NewReceiptValidation(p)) => spec_len_delim(
            14,
            spec_field_enum(1, p.error),
        ),
        Option::Some(pb::action_error_kind::Kind::OnlyImplicitAccountCreationAllowed(p)) =>
            spec_len_delim(15, spec_field_bytes(1, p.account_id@)),
        Option::Some(pb::action_error_kind::Kind::DeleteAccountWithLargeState(p)) =>
            spec_len_delim(16, spec_field_bytes(1, p.account_id@)),
        Option::Some(pb::action_error_kind::Kind::DelegateActionInvalidSignature(_p)) =>
            spec_len_delim(17, Seq::empty()),
        Option::Some(
            pb::action_error_kind::Kind::DelegateActionSenderDoesNotMatchTxReceiver(p),
        ) => spec_len_delim(
            18,
            spec_field_bytes(1, p.sender_id@) + spec_field_bytes(2, p.receiver_id@),
        ),
        Option::Some(pb::action_error_kind::Kind::DelegateActionExpired(_p)) => spec_len_delim(
            19,
            Seq::empty(),
        ),
        Option::Some(pb::action_error_kind::Kind::DelegateActionAccessKeyError(_p)) =>
            spec_len_delim(20, Seq::empty()),
        Option::Some(pb::action_error_kind::Kind::DelegateActionInvalidNonce(p)) =>
            spec_len_delim(
            21,
            spec_field_u64(1, p.delegate_nonce) + spec_field_u64(2, p.ak_nonce),
        ),
        Option::Some(pb::action_error_kind::Kind::DelegateActionNonceTooLarge(p)) =>
            spec_len_delim(
            22,
            spec_field_u64(1, p.delegate_nonce) + spec_field_u64(2, p.upper_bound),
        ),
    }
}

/// Encode an action-error-kind union.
pub fn enc_action_error_kind(m: &pb::ActionErrorKind) -> (r: Vec<u8>)
    ensures
        r@ == spec_enc_action_error_kind(*m),
{
    let mut buf: Vec<u8> = Vec::new();
    match &m.kind {
        None => {},
        Some(pb::action_error_kind::Kind::AccountAlreadyExist(p)) => {
            let mut tmp: Vec<u8> = Vec::new();
            put_account_id(&mut tmp, &p.account_id);
            put_len_delim(&mut buf, 1, &tmp);
        },
        Some(pb::action_error_kind::Kind::AccountDoesNotExist(p)) => {
            let mut tmp: Vec<u8> = Vec::new();
            put_account_id(&mut tmp, &p.account_id);
            put_len_delim(&mut buf, 2, &tmp);
        },
        Some(pb::action_error_kind::Kind::CreateAccountOnlyByRegistrar(p)) => {
            let mut tmp: Vec<u8> = Vec::new();
            put_account_id(&mut tmp, &p.account_id);
            put_field_bytes(&mut tmp, 2, &p.registrar_account_id);
            put_field_bytes(&mut tmp, 3, &p.predecessor_id);
            put_len_delim(&mut buf, 3, &tmp);
        },
        Some(pb::action_error_kind::Kind::CreateAccountNotAllowed(p)) => {
            let mut tmp: Vec<u8> = Vec::new();
            put_account_id(&mut tmp, &p.account_id);
            put_field_bytes(&mut tmp, 2, &p.predecessor_id);
            put_len_delim(&mut buf, 4, &tmp);
        },
        Some(pb::action_error_kind::Kind::ActorNoPermission(p)) => {
            let mut tmp: Vec<u8> = Vec::new();
            put_account_id(&mut tmp, &p.account_id);
            put_field_bytes(&mut tmp, 2, &p.actor_id);
            put_len_delim(&mut buf, 5, &tmp);
        },
        Some(pb::action_error_kind::Kind::DeleteKeyDoesNotExist(p)) => {
            let mut tmp: Vec<u8> = Vec::new();
            put_account_id(&mut tmp, &p.account_id);
            enc_opt_key(&mut tmp, 2, &p.public_key);
            put_len_delim(&mut buf, 6, &tmp);
        },
        Some(pb::action_error_kind::Kind::AddKeyAlreadyExists(p)) => {
            let mut tmp: Vec<u8> = Vec::new();
            put_account_id(&mut tmp, &p.account_id);
            enc_opt_key(&mut tmp, 2, &p.public_key);
            put_len_delim(&mut buf, 7, &tmp);
        },
        Some(pb::action_error_kind::Kind::DeleteAccountStaking(p)) => {
            let mut tmp: Vec<u8> = Vec::new();
            put_account_id(&mut tmp, &p.account_id);
            put_len_delim(&mut buf, 8, &tmp);
        },
        Some(pb::action_error_kind::Kind::LackBalanceForState(p)) => {
            let mut tmp: Vec<u8> = Vec::new();
            put_account_id(&mut tmp, &p.account_id);
            enc_opt_big(&mut tmp, 2, &p.balance);
            put_len_delim(&mut buf, 9, &tmp);
        },
        Some(pb::action_error_kind::Kind::TriesToUnstake(p)) => {
            let mut tmp: Vec<u8> = Vec::new();
            put_account_id(&mut tmp, &p.account_id);
            put_len_delim(&mut buf, 10, &tmp);
        },
        Some(pb::action_error_kind::Kind::TriesToStake(p)) => {
            let mut tmp: Vec<u8> = Vec::new();
            put_account_id(&mut tmp, &p.account_id);
            enc_opt_big(&mut tmp, 2, &p.stake);
            enc_opt_big(&mut tmp, 3, &p.locked);
            enc_opt_big(&mut tmp, 4, &p.balance);
            put_len_delim(&mut buf, 11, &tmp);
        },
        Some(pb::action_error_kind::Kind::InsufficientStake(p)) => {
            let mut tmp: Vec<u8> = Vec::new();
            put_account_id(&mut tmp, &p.account_id);
            enc_opt_big(&mut tmp, 2, &p.stake);
            enc_opt_big(&mut tmp, 3, &p.minimum_stake);
            put_len_delim(&mut buf, 12, &tmp);
        },
        Some(pb::action_error_kind::Kind::FunctionCall(p)) => {
            let mut tmp: Vec<u8> = Vec::new();
            put_field_enum(&mut tmp, 1, p.error);
            put_len_delim(&mut buf, 13, &tmp);
        },
        Some(pb::action_error_kind::Kind::NewReceiptValidation(p)) => {
            let mut tmp: Vec<u8> = Vec::new();
            put_field_enum(&mut tmp, 1, p.error);
            put_len_delim(&mut buf, 14, &tmp);
        },
        Some(pb::action_error_kind::Kind::OnlyImplicitAccountCreationAllowed(p)) => {
            let mut tmp: Vec<u8> = Vec::new();
            put_account_id(&mut tmp, &p.account_id);
            put_len_delim(&mut buf, 15, &tmp);
        },
        Some(pb::action_error_kind::Kind::DeleteAccountWithLargeState(p)) => {
            let mut tmp: Vec<u8> = Vec::new();
            put_account_id(&mut tmp, &p.account_id);
            put_len_delim(&mut buf, 16, &tmp);
        },
        Some(pb::action_error_kind::Kind::DelegateActionInvalidSignature(_p)) => {
            let tmp: Vec<u8> = Vec::new();
            put_len_delim(&mut buf, 17, &tmp);
        },
        Some(pb::action_error_kind::Kind::DelegateActionSenderDoesNotMatchTxReceiver(p)) => {
            let mut tmp: Vec<u8> = Vec::new();
            put_field_bytes(&mut tmp, 1, &p.sender_id);
            put_field_bytes(&mut tmp, 2, &p.receiver_id);
            put_len_delim(&mut buf, 18, &tmp);
        },
        Some(pb::action_error_kind::Kind::DelegateActionExpired(_p)) => {
            let tmp: Vec<u8> = Vec::new();
            put_len_delim(&mut buf, 19, &tmp);
        },
        Some(pb::action_error_kind::Kind::DelegateActionAccessKeyError(_p)) => {
            let tmp: Vec<u8> = Vec::new();
            put_len_delim(&mut buf, 20, &tmp);
        },
        Some(pb::action_error_kind::Kind::DelegateActionInvalidNonce(p)) => {
            let mut tmp: Vec<u8> = Vec::new();
            put_field_u64(&mut tmp, 1, p.delegate_nonce);
            put_field_u64(&mut tmp, 2, p.ak_nonce);
            put_len_delim(&mut buf, 21, &tmp);
        },
        Some(pb::action_error_kind::Kind::DelegateActionNonceTooLarge(p)) => {
            let mut tmp: Vec<u8> = Vec::new();
            put_field_u64(&mut tmp, 1, p.delegate_nonce);
            put_field_u64(&mut tmp, 2, p.upper_bound);
            put_len_delim(&mut buf, 22, &tmp);
        },
    }
    assert(buf@ =~= spec_enc_action_error_kind(*m));
    buf
}

pub open spec fn spec_enc_action_error(m: pb::ActionError) -> Seq<u8> {
    spec_field_u64(1, m.index) + spec_field_opt(
        2,
        m.kind,
        |k: pb::ActionErrorKind| spec_enc_action_error_kind(k),
    )
}

/// Encode an action error.
pub fn enc_action_error(m: &pb::ActionError) -> (r: Vec<u8>)
    ensures
        r@ == spec_enc_action_error(*m),
{
    let mut buf: Vec<u8> = Vec::new();
    put_field_u64(&mut buf, 1, m.index);
    match &m.kind {
        Some(k) => {
            let tmp = enc_action_error_kind(k);
            put_len_delim(&mut buf, 2, &tmp);
        },
        None => {},
    }
    assert(buf@ =~= spec_enc_action_error(*m));
    buf
}

pub open spec fn spec_enc_tx_execution_error(m: pb::TxExecutionError) -> Seq<u8> {
    match m.error {
        Option::None => Seq::empty(),
        Option::Some(pb::tx_execution_error::Error::ActionError(a)) => spec_len_delim(
            1,
            spec_enc_action_error(a),
        ),
        Option::Some(pb::tx_execution_error::Error::InvalidTxError(t)) => spec_oneof_enum(2, t),
    }
}

/// Encode the top error union.
pub fn enc_tx_execution_error(m: &pb::TxExecutionError) -> (r: Vec<u8>)
    ensures
        r@ == spec_enc_tx_execution_error(*m),
{
    let mut buf: Vec<u8> = Vec::new();
    match &m.error {
        None => {},
        Some(pb::tx_execution_error::Error::ActionError(a)) => {
            let tmp = enc_action_error(a);
            put_len_delim(&mut buf, 1, &tmp);
        },
        Some(pb::tx_execution_error::Error::InvalidTxError(t)) => {
            put_oneof_enum(&mut buf, 2, *t);
        },
    }
    assert(buf@ =~= spec_enc_tx_execution_error(*m));
    buf
}

// ---- execution statuses ----

pub open spec fn spec_enc_failure(m: pb::FailureExecutionStatus) -> Seq<u8> {
    spec_field_opt(1, m.error, |e: pb::TxExecutionError| spec_enc_tx_execution_error(e))
}

/// Encode a failure status.
pub fn enc_failure(m: &pb::FailureExecutionStatus) -> (r: Vec<u8>)
    ensures
        r@ == spec_enc_failure(*m),
{
    let mut buf: Vec<u8> = Vec::new();
    match &m.error {
        Some(e) => {
            let tmp = enc_tx_execution_error(e);
            put_len_delim(&mut buf, 1, &tmp);
        },
        None => {},
    }
    assert(buf@ =~= spec_enc_failure(*m));
    buf
}

pub open spec fn spec_enc_execution_status(m: pb::ExecutionStatus) -> Seq<u8> {
    match m.status {
        Option::None => Seq::empty(),
        Option::Some(pb::execution_status::Status::Unknown(_u)) => spec_len_delim(
            1,
            Seq::empty(),
        ),
        Option::Some(pb::execution_status::Status::Failure(f)) => spec_len_delim(
            2,
            spec_enc_failure(f),
        ),
        Option::Some(pb::execution_status::Status::SuccessValue(v)) => spec_len_delim(
            3,
            spec_field_bytes(1, v.value@),
        ),
        Option::Some(pb::execution_status::Status::SuccessReceiptId(s)) => spec_len_delim(
            4,
            spec_field_opt(1, s.id, |c: pb::CryptoHash| spec_enc_crypto_hash(c)),
        ),
    }
}

/// Encode a status union.
pub fn enc_execution_status(m: &pb::ExecutionStatus) -> (r: Vec<u8>)
    ensures
        r@ == spec_enc_execution_status(*m),
{
    let mut buf: Vec<u8> = Vec::new();
    match &m.status {
        None => {},
        Some(pb::execution_status::Status::Unknown(_u)) => {
            let tmp: Vec<u8> = Vec::new();
            put_len_delim(&mut buf, 1, &tmp);
        },
        Some(pb::execution_status::Status::Failure(f)) => {
            let tmp = enc_failure(f);
            put_len_delim(&mut buf, 2, &tmp);
        },
        Some(pb::execution_status::Status::SuccessValue(v)) => {
            let mut tmp: Vec<u8> = Vec::new();
            put_field_bytes(&mut tmp, 1, &v.value);
            put_len_delim(&mut buf, 3, &tmp);
        },
        Some(pb::execution_status::Status::SuccessReceiptId(s)) => {
            let mut tmp: Vec<u8> = Vec::new();
            enc_opt_hash(&mut tmp, 1, &s.id);
            put_len_delim(&mut buf, 4, &tmp);
        },
    }
    assert(buf@ =~= spec_enc_execution_status(*m));
    buf
}

// ---- receipts ----

pub open spec fn spec_enc_data_receiver(m: pb::DataReceiver) -> Seq<u8> {
    spec_field_opt(1, m.data_id, |c: pb::CryptoHash| spec_enc_crypto_hash(c))
        + spec_field_bytes(2, m.receiver_id@)
}

/// Encode a data receiver.
pub fn enc_data_receiver(m: &pb::DataReceiver) -> (r: Vec<u8>)
    ensures
        r@ == spec_enc_data_receiver(*m),
{
    let mut buf: Vec<u8> = Vec::new();
    enc_opt_hash(&mut buf, 1, &m.data_id);
    put_field_bytes(&mut buf, 2, &m.receiver_id);
    assert(buf@ =~= spec_enc_data_receiver(*m));
    buf
}

/// Encode a repeated data-receiver field.
pub fn enc_rep_data_receivers(field: u32, v: &Vec<pb::DataReceiver>) -> (r: Vec<u8>)
    requires
        field >= 1,
        field < 1000,
    ensures
        r@ == spec_rep(field as nat, v@, |x: pb::DataReceiver| spec_enc_data_receiver(x)),
{
    let mut r: Vec<u8> = Vec::new();
    let n = v.len();
    let mut i: usize = 0;
    while i < n
        invariant
            i <= n,
            n == v@.len(),
            field >= 1,
            field < 1000,
            r@ == spec_rep(
                field as nat,
                v@.take(i as int),
                |x: pb::DataReceiver| spec_enc_data_receiver(x),
            ),
        decreases n - i,
    {
        let tmp = enc_data_receiver(&v[i]);
        put_len_delim(&mut r, field, &tmp);
        proof {
            assert(v@.take(i + 1) =~= v@.take(i as int).push(v@[i as int]));
            lemma_rep_push(
                field as nat,
                v@.take(i as int),
                v@[i as int],
                |x: pb::DataReceiver| spec_enc_data_receiver(x),
            );
        }
        i = i + 1;
    }
    assert(v@.take(n as int) =~= v@);
    r
}

pub open spec fn spec_enc_receipt_data(m: pb::ReceiptData) -> Seq<u8> {
    spec_field_opt(1, m.data_id, |c: pb::CryptoHash| spec_enc_crypto_hash(c))
        + spec_field_bytes(2, m.data@)
}

/// Encode a data-delivery receipt body.
pub fn enc_receipt_data(m: &pb::ReceiptData) -> (r: Vec<u8>)
    ensures
        r@ == spec_enc_receipt_data(*m),
{
    let mut buf: Vec<u8> = Vec::new();
    enc_opt_hash(&mut buf, 1, &m.data_id);
    put_field_bytes(&mut buf, 2, &m.data);
    assert(buf@ =~= spec_enc_receipt_data(*m));
    buf
}

pub open spec fn spec_enc_receipt_action(m: pb::ReceiptAction) -> Seq<u8> {
    spec_field_bytes(1, m.signer_id@) + spec_field_opt(
        2,
        m.signer_public_key,
        |k: pb::PublicKey| spec_enc_public_key(k),
    ) + spec_field_opt(3, m.gas_price, |b: pb::BigInt| spec_enc_big_int(b)) + spec_rep(
        4,
        m.output_data_receivers@,
        |x: pb::DataReceiver| spec_enc_data_receiver(x),
    ) + spec_rep(5, m.input_data_ids@, |x: pb::CryptoHash| spec_enc_crypto_hash(x)) + spec_rep(
        6,
        m.actions@,
        |x: pb::Action| spec_enc_action(x),
    )
}

/// Encode an action receipt body.
pub fn enc_receipt_action(m: &pb::ReceiptAction) -> (r: Vec<u8>)
    ensures
        r@ == spec_enc_receipt_action(*m),
{
    let mut buf: Vec<u8> = Vec::new();
    put_field_bytes(&mut buf, 1, &m.signer_id);
    enc_opt_key(&mut buf, 2, &m.signer_public_key);
    enc_opt_big(&mut buf, 3, &m.gas_price);
    let receivers = enc_rep_data_receivers(4, &m.output_data_receivers);
    crate::proto::append_bytes(&mut buf, &receivers);
    let ids = enc_rep_hashes(5, &m.input_data_ids);
    crate::proto::append_bytes(&mut buf, &ids);
    let actions = enc_rep_actions(6, &m.actions);
    crate::proto::append_bytes(&mut buf, &actions);
    assert(buf@ =~= spec_enc_receipt_action(*m));
    buf
}

pub open spec fn spec_enc_receipt_enum(m: pb::ReceiptEnum) -> Seq<u8> {
    match m.receipt {
        Option::None => Seq::empty(),
        Option::Some(pb::receipt_enum::Receipt::Action(a)) => spec_len_delim(
            1,
            spec_enc_receipt_action(a),
        ),
        Option::Some(pb::receipt_enum::Receipt::Data(d)) => spec_len_delim(
            2,
            spec_enc_receipt_data(d),
        ),
    }
}

/// Encode the receipt-body union.
pub fn enc_receipt_enum(m: &pb::ReceiptEnum) -> (r: Vec<u8>)
    ensures
        r@ == spec_enc_receipt_enum(*m),
{
    let mut buf: Vec<u8> = Vec::new();
    match &m.receipt {
        None => {},
        Some(pb::receipt_enum::Receipt::Action(a)) => {
            let tmp = enc_receipt_action(a);
            put_len_delim(&mut buf, 1, &tmp);
        },
        Some(pb::receipt_enum::Receipt::Data(d)) => {
            let tmp = enc_receipt_data(d);
            put_len_delim(&mut buf, 2, &tmp);
        },
    }
    assert(buf@ =~= spec_enc_receipt_enum(*m));
    buf
}

pub open spec fn spec_enc_receipt(m: pb::Receipt) -> Seq<u8> {
    spec_field_bytes(1, m.predecessor_id@) + spec_field_bytes(2, m.receiver_id@)
        + spec_field_opt(3, m.receipt_id, |c: pb::CryptoHash| spec_enc_crypto_hash(c))
        + spec_field_opt(4, m.receipt, |e: pb::ReceiptEnum| spec_enc_receipt_enum(e))
}

/// Encode a receipt.
pub fn enc_receipt(m: &pb::Receipt) -> (r: Vec<u8>)
    ensures
        r@ == spec_enc_receipt(*m),
{
    let mut buf: Vec<u8> = Vec::new();
    put_field_bytes(&mut buf, 1, &m.predecessor_id);
    put_field_bytes(&mut buf, 2, &m.receiver_id);
    enc_opt_hash(&mut buf, 3, &m.receipt_id);
    match &m.receipt {
        Some(e) => {
            let tmp = enc_receipt_enum(e);
            put_len_delim(&mut buf, 4, &tmp);
        },
        None => {},
    }
    assert(buf@ =~= spec_enc_receipt(*m));
    buf
}

/// Encode a repeated receipt field.
pub fn enc_rep_receipts(field: u32, v: &Vec<pb::Receipt>) -> (r: Vec<u8>)
    requires
        field >= 1,
        field < 1000,
    ensures
        r@ == spec_rep(field as nat, v@, |x: pb::Receipt| spec_enc_receipt(x)),
{
    let mut r: Vec<u8> = Vec::new();
    let n = v.len();
    let mut i: usize = 0;
    while i < n
        invariant
            i <= n,
            n == v@.len(),
            field >= 1,
            field < 1000,
            r@ == spec_rep(
                field as nat,
                v@.take(i as int),
                |x: pb::Receipt| spec_enc_receipt(x),
            ),
        decreases n - i,
    {
        let tmp = enc_receipt(&v[i]);
        put_len_delim(&mut r, field, &tmp);
        proof {
            assert(v@.take(i + 1) =~= v@.take(i as int).push(v@[i as int]));
            lemma_rep_push(
                field as nat,
                v@.take(i as int),
                v@[i as int],
                |x: pb::Receipt| spec_enc_receipt(x),
            );
        }
        i = i + 1;
    }
    assert(v@.take(n as int) =~= v@);
    r
}

// ---- execution outcomes ----

pub open spec fn spec_enc_execution_outcome(m: pb::ExecutionOutcome) -> Seq<u8> {
    spec_rep_bytes(1, spec_views(m.logs@)) + spec_rep(
        2,
        m.receipt_ids@,
        |x: pb::CryptoHash| spec_enc_crypto_hash(x),
    ) + spec_field_u64(3, m.gas_burnt) + spec_field_opt(
        4,
        m.tokens_burnt,
        |b: pb::BigInt| spec_enc_big_int(b),
    ) + spec_field_bytes(5, m.executor_id@) + spec_field_opt(
        6,
        m.status,
        |s: pb::ExecutionStatus| spec_enc_execution_status(s),
    )
}

/// Encode an execution outcome.
pub fn enc_execution_outcome(m: &pb::ExecutionOutcome) -> (r: Vec<u8>)
    ensures
        r@ == spec_enc_execution_outcome(*m),
{
    let mut buf: Vec<u8> = Vec::new();
    let logs = enc_rep_bytes_list(1, &m.logs);
    crate::proto::append_bytes(&mut buf, &logs);
    let ids = enc_rep_hashes(2, &m.receipt_ids);
    crate::proto::append_bytes(&mut buf, &ids);
    put_field_u64(&mut buf, 3, m.gas_burnt);
    enc_opt_big(&mut buf, 4, &m.tokens_burnt);
    put_field_bytes(&mut buf, 5, &m.executor_id);
    match &m.status {
        Some(s) => {
            let tmp = enc_execution_status(s);
            put_len_delim(&mut buf, 6, &tmp);
        },
        None => {},
    }
    assert(buf@ =~= spec_enc_execution_outcome(*m));
    buf
}

pub open spec fn spec_enc_outcome_with_id(m: pb::ExecutionOutcomeWithIdView) -> Seq<u8> {
    spec_field_opt(1, m.proof, |p: pb::MerklePath| spec_enc_merkle_path(p)) + spec_field_opt(
        2,
        m.block_hash,
        |c: pb::CryptoHash| spec_enc_crypto_hash(c),
    ) + spec_field_opt(3, m.id, |c: pb::CryptoHash| spec_enc_crypto_hash(c)) + spec_field_opt(
        4,
        m.outcome,
        |o: pb::ExecutionOutcome| spec_enc_execution_outcome(o),
    )
}

/// Encode an execution outcome with its identity and proof.
pub fn enc_outcome_with_id(m: &pb::ExecutionOutcomeWithIdView) -> (r: Vec<u8>)
    ensures
        r@ == spec_enc_outcome_with_id(*m),
{
    let mut buf: Vec<u8> = Vec::new();
    match &m.proof {
        Some(p) => {
            let tmp = enc_merkle_path(p);
            put_len_delim(&mut buf, 1, &tmp);
        },
        None => {},
    }
    enc_opt_hash(&mut buf, 2, &m.block_hash);
    enc_opt_hash(&mut buf, 3, &m.id);
    match &m.outcome {
        Some(o) => {
            let tmp = enc_execution_outcome(o);
            put_len_delim(&mut buf, 4, &tmp);
        },
        None => {},
    }
    assert(buf@ =~= spec_enc_outcome_with_id(*m));
    buf
}

// ---- transactions, chunks, shards, the block ----

pub open spec fn spec_enc_signed_transaction(m: pb::SignedTransaction) -> Seq<u8> {
    spec_field_bytes(1, m.signer_id@) + spec_field_opt(
        2,
        m.public_key,
        |k: pb::PublicKey| spec_enc_public_key(k),
    ) + spec_field_u64(3, m.nonce) + spec_field_bytes(4, m.receiver_id@) + spec_rep(
        5,
        m.actions@,
        |x: pb::Action| spec_enc_action(x),
    ) + spec_field_opt(6, m.signature, |s: pb::Signature| spec_enc_signature(s))
        + spec_field_opt(7, m.hash, |c: pb::CryptoHash| spec_enc_crypto_hash(c))
}

/// Encode a signed transaction.
pub fn enc_signed_transaction(m: &pb::SignedTransaction) -> (r: Vec<u8>)
    ensures
        r@ == spec_enc_signed_transaction(*m),
{
    let mut buf: Vec<u8> = Vec::new();
    put_field_bytes(&mut buf, 1, &m.signer_id);
    enc_opt_key(&mut buf, 2, &m.public_key);
    put_field_u64(&mut buf, 3, m.nonce);
    put_field_bytes(&mut buf, 4, &m.receiver_id);
    let actions = enc_rep_actions(5, &m.actions);
    crate::proto::append_bytes(&mut buf, &actions);
    enc_opt_sig(&mut buf, 6, &m.signature);
    enc_opt_hash(&mut buf, 7, &m.hash);
    assert(buf@ =~= spec_enc_signed_transaction(*m));
    buf
}

pub open spec fn spec_enc_outcome_opt_receipt(m: pb::IndexerExecutionOutcomeWithOptionalReceipt)
    -> Seq<u8> {
    spec_field_opt(
        1,
        m.execution_outcome,
        |o: pb::ExecutionOutcomeWithIdView| spec_enc_outcome_with_id(o),
    ) + spec_field_opt(2, m.receipt, |x: pb::Receipt| spec_enc_receipt(x))
}

/// Encode an outcome with its optional receipt.
pub fn enc_outcome_opt_receipt(m: &pb::IndexerExecutionOutcomeWithOptionalReceipt) -> (r: Vec<
    u8,
>)
    ensures
        r@ == spec_enc_outcome_opt_receipt(*m),
{
    let mut buf: Vec<u8> = Vec::new();
    match &m.execution_outcome {
        Some(o) => {
            let tmp = enc_outcome_with_id(o);
            put_len_delim(&mut buf, 1, &tmp);
        },
        None => {},
    }
    match &m.receipt {
        Some(x) => {
            let tmp = enc_receipt(x);
            put_len_delim(&mut buf, 2, &tmp);
        },
        None => {},
    }
    assert(buf@ =~= spec_enc_outcome_opt_receipt(*m));
    buf
}

pub open spec fn spec_enc_tx_with_outcome(m: pb::IndexerTransactionWithOutcome) -> Seq<u8> {
    spec_field_opt(1, m.transaction, |t: pb::SignedTransaction| spec_enc_signed_transaction(t))
        + spec_field_opt(
        2,
        m.outcome,
        |o: pb::IndexerExecutionOutcomeWithOptionalReceipt| spec_enc_outcome_opt_receipt(o),
    )
}

/// Encode a transaction with its outcome.
pub fn enc_tx_with_outcome(m: &pb::IndexerTransactionWithOutcome) -> (r: Vec<u8>)
    ensures
        r@ == spec_enc_tx_with_outcome(*m),
{
    let mut buf: Vec<u8> = Vec::new();
    match &m.transaction {
        Some(t) => {
            let tmp = enc_signed_transaction(t);
            put_len_delim(&mut buf, 1, &tmp);
        },
        None => {},
    }
    match &m.outcome {
        Some(o) => {
            let tmp = enc_outcome_opt_receipt(o);
            put_len_delim(&mut buf, 2, &tmp);
        },
        None => {},
    }
    assert(buf@ =~= spec_enc_tx_with_outcome(*m));
    buf
}

pub open spec fn spec_enc_outcome_with_receipt(m: pb::IndexerExecutionOutcomeWithReceipt)
    -> Seq<u8> {
    spec_field_opt(
        1,
        m.execution_outcome,
        |o: pb::ExecutionOutcomeWithIdView| spec_enc_outcome_with_id(o),
    ) + spec_field_opt(2, m.receipt, |x: pb::Receipt| spec_enc_receipt(x))
}

/// Encode an outcome with the receipt it executed.
pub fn enc_outcome_with_receipt(m: &pb::IndexerExecutionOutcomeWithReceipt) -> (r: Vec<u8>)
    ensures
        r@ == spec_enc_outcome_with_receipt(*m),
{
    let mut buf: Vec<u8> = Vec::new();
    match &m.execution_outcome {
        Some(o) => {
            let tmp = enc_outcome_with_id(o);
            put_len_delim(&mut buf, 1, &tmp);
        },
        None => {},
    }
    match &m.receipt {
        Some(x) => {
            let tmp = enc_receipt(x);
            put_len_delim(&mut buf, 2, &tmp);
        },
        None => {},
    }
    assert(buf@ =~= spec_enc_outcome_with_receipt(*m));
    buf
}

pub open spec fn spec_enc_chunk(m: pb::IndexerChunk) -> Seq<u8> {
    spec_field_bytes(1, m.author@) + spec_field_opt(
        2,
        m.header,
        |h: pb::ChunkHeader| spec_enc_chunk_header(h),
    ) + spec_rep(
        3,
        m.transactions@,
        |x: pb::IndexerTransactionWithOutcome| spec_enc_tx_with_outcome(x),
    ) + spec_rep(4, m.receipts@, |x: pb::Receipt| spec_enc_receipt(x))
}

/// Encode a chunk.
pub fn enc_chunk(m: &pb::IndexerChunk) -> (r: Vec<u8>)
    ensures
        r@ == spec_enc_chunk(*m),
{
    let mut buf: Vec<u8> = Vec::new();
    put_field_bytes(&mut buf, 1, &m.author);
    match &m.header {
        Some(h) => {
            let tmp = enc_chunk_header(h);
            put_len_delim(&mut buf, 2, &tmp);
        },
        None => {},
    }
    let mut txs: Vec<u8> = Vec::new();
    let n = m.transactions.len();
    let mut i: usize = 0;
    while i < n
        invariant
            i <= n,
            n == m.transactions@.len(),
            txs@ == spec_rep(
                3,
                m.transactions@.take(i as int),
                |x: pb::IndexerTransactionWithOutcome| spec_enc_tx_with_outcome(x),
            ),
        decreases n - i,
    {
        let tmp = enc_tx_with_outcome(&m.transactions[i]);
        put_len_delim(&mut txs, 3, &tmp);
        proof {
            assert(m.transactions@.take(i + 1) =~= m.transactions@.take(i as int).push(
                m.transactions@[i as int],
            ));
            lemma_rep_push(
                3,
                m.transactions@.take(i as int),
                m.transactions@[i as int],
                |x: pb::IndexerTransactionWithOutcome| spec_enc_tx_with_outcome(x),
            );
        }
        i = i + 1;
    }
    assert(m.transactions@.take(n as int) =~= m.transactions@);
    crate::proto::append_bytes(&mut buf, &txs);
    let receipts = enc_rep_receipts(4, &m.receipts);
    crate::proto::append_bytes(&mut buf, &receipts);
    assert(buf@ =~= spec_enc_chunk(*m));
    buf
}

pub open spec fn spec_enc_shard(m: pb::IndexerShard) -> Seq<u8> {
    spec_field_u64(1, m.shard_id) + spec_field_opt(
        2,
        m.chunk,
        |c: pb::IndexerChunk| spec_enc_chunk(c),
    ) + spec_rep(
        3,
        m.receipt_execution_outcomes@,
        |x: pb::IndexerExecutionOutcomeWithReceipt| spec_enc_outcome_with_receipt(x),
    )
}

/// Encode a shard.
pub fn enc_shard(m: &pb::IndexerShard) -> (r: Vec<u8>)
    ensures
        r@ == spec_enc_shard(*m),
{
    let mut buf: Vec<u8> = Vec::new();
    put_field_u64(&mut buf, 1, m.shard_id);
    match &m.chunk {
        Some(c) => {
            let tmp = enc_chunk(c);
            put_len_delim(&mut buf, 2, &tmp);
        },
        None => {},
    }
    let mut outs: Vec<u8> = Vec::new();
    let n = m.receipt_execution_outcomes.len();
    let mut i: usize = 0;
    while i < n
        invariant
            i <= n,
            n == m.receipt_execution_outcomes@.len(),
            outs@ == spec_rep(
                3,
                m.receipt_execution_outcomes@.take(i as int),
                |x: pb::IndexerExecutionOutcomeWithReceipt| spec_enc_outcome_with_receipt(x),
            ),
        decreases n - i,
    {
        let tmp = enc_outcome_with_receipt(&m.receipt_execution_outcomes[i]);
        put_len_delim(&mut outs, 3, &tmp);
        proof {
            assert(m.receipt_execution_outcomes@.take(i + 1)
                =~= m.receipt_execution_outcomes@.take(i as int).push(
                m.receipt_execution_outcomes@[i as int],
            ));
            lemma_rep_push(
                3,
                m.receipt_execution_outcomes@.take(i as int),
                m.receipt_execution_outcomes@[i as int],
                |x: pb::IndexerExecutionOutcomeWithReceipt| spec_enc_outcome_with_receipt(x),
            );
        }
        i = i + 1;
    }
    assert(m.receipt_execution_outcomes@.take(n as int) =~= m.receipt_execution_outcomes@);
    crate::proto::append_bytes(&mut buf, &outs);
    assert(buf@ =~= spec_enc_shard(*m));
    buf
}

/// Encode a repeated chunk-header field.
pub fn enc_rep_chunk_headers(field: u32, v: &Vec<pb::ChunkHeader>) -> (r: Vec<u8>)
    requires
        field >= 1,
        field < 1000,
    ensures
        r@ == spec_rep(field as nat, v@, |x: pb::ChunkHeader| spec_enc_chunk_header(x)),
{
    let mut r: Vec<u8> = Vec::new();
    let n = v.len();
    let mut i: usize = 0;
    while i < n
        invariant
            i <= n,
            n == v@.len(),
            field >= 1,
            field < 1000,
            r@ == spec_rep(
                field as nat,
                v@.take(i as int),
                |x: pb::ChunkHeader| spec_enc_chunk_header(x),
            ),
        decreases n - i,
    {
        let tmp = enc_chunk_header(&v[i]);
        put_len_delim(&mut r, field, &tmp);
        proof {
            assert(v@.take(i + 1) =~= v@.take(i as int).push(v@[i as int]));
            lemma_rep_push(
                field as nat,
                v@.take(i as int),
                v@[i as int],
                |x: pb::ChunkHeader| spec_enc_chunk_header(x),
            );
        }
        i = i + 1;
    }
    assert(v@.take(n as int) =~= v@);
    r
}

/// The byte encoding of a wire block whose state-change list is empty —
/// which holds of every block this layer produces, so the list
/// contributes no bytes.
pub open spec fn spec_enc_block(m: pb::Block) -> Seq<u8> {
    spec_field_bytes(1, m.author@) + spec_field_opt(
        2,
        m.header,
        |h: pb::BlockHeader| spec_enc_block_header(h),
    ) + spec_rep(3, m.chunk_headers@, |x: pb::ChunkHeader| spec_enc_chunk_header(x)) + spec_rep(
        4,
        m.shards@,
        |x: pb::IndexerShard| spec_enc_shard(x),
    )
}

/// Encode a whole wire block.
pub fn enc_block(m: &pb::Block) -> (r: Vec<u8>)
    requires
        m.state_changes@.len() == 0,
    ensures
        r@ == spec_enc_block(*m),
{
    let mut buf: Vec<u8> = Vec::new();
    put_field_bytes(&mut buf, 1, &m.author);
    match &m.header {
        Some(h) => {
            let tmp = enc_block_header(h);
            put_len_delim(&mut buf, 2, &tmp);
        },
        None => {},
    }
    let headers = enc_rep_chunk_headers(3, &m.chunk_headers);
    crate::proto::append_bytes(&mut buf, &headers);
    let mut shards: Vec<u8> = Vec::new();
    let n = m.shards.len();
    let mut i: usize = 0;
    while i < n
        invariant
            i <= n,
            n == m.shards@.len(),
            shards@ == spec_rep(
                4,
                m.shards@.take(i as int),
                |x: pb::IndexerShard| spec_enc_shard(x),
            ),
        decreases n - i,
    {
        let tmp = enc_shard(&m.shards[i]);
        put_len_delim(&mut shards, 4, &tmp);
        proof {
            assert(m.shards@.take(i + 1) =~= m.shards@.take(i as int).push(m.shards@[i as int]));
            lemma_rep_push(
                4,
                m.shards@.take(i as int),
                m.shards@[i as int],
                |x: pb::IndexerShard| spec_enc_shard(x),
            );
        }
        i = i + 1;
    }
    assert(m.shards@.take(n as int) =~= m.shards@);
    crate::proto::append_bytes(&mut buf, &shards);
    assert(buf@ =~= spec_enc_block(*m));
    buf
}

} // verus!
