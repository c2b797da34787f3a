//! The decode side of the wire format: parsing functions over byte
//! strings, and the proofs that they invert the encoders.
//!
//! The field parsers read a canonical encoding: fields in ascending
//! field-number order, as the encoders emit them. Each parser is proved
//! to return exactly the value that was encoded and to leave exactly the
//! trailing bytes, so reading a serialized value back yields the value
//! that was written.

use vstd::prelude::*;
use crate::pb;
use crate::encode::spec_enc_big_int;
use crate::encode::spec_enc_crypto_hash;
use crate::encode::spec_enc_public_key;
use crate::encode::spec_enc_signature;
use crate::encode::spec_enc_transfer;
use crate::proto::spec_field_bytes;
use crate::proto::spec_field_enum;
use crate::proto::spec_key;
use crate::proto::spec_len_delim;
use crate::proto::spec_read_varint;
use crate::proto::spec_varint;
use crate::proto::lemma_varint_read;
use crate::scalar::spec_be16;
use crate::scalar::spec_read_be16;

verus! {

/// The bytes that follow one field's encoding: either nothing, or the
/// frame of a later field — its key's field number is strictly greater.
pub open spec fn next_field_after(rest: Seq<u8>, field: nat) -> bool {
    ||| rest.len() == 0
    ||| (spec_read_varint(rest) matches Some((k, _r)) && k / 8 > field)
}

/// Read one bytes-valued field with number `field` from the front of
/// `s`: its payload where the field is present, the empty default where
/// the next frame belongs to another field.
pub open spec fn dec_field_bytes(field: nat, s: Seq<u8>) -> (Seq<u8>, Seq<u8>) {
    match spec_read_varint(s) {
        Option::None => (Seq::empty(), s),
        Option::Some((k, s1)) => {
            if k == field * 8 + 2 {
                match spec_read_varint(s1) {
                    Option::None => (Seq::empty(), s),
                    Option::Some((len, s2)) => {
                        if s2.len() >= len {
                            (s2.take(len as int), s2.skip(len as int))
                        } else {
                            (Seq::empty(), s)
                        }
                    },
                }
            } else {
                (Seq::empty(), s)
            }
        },
    }
}

/// Read one varint-valued field with number `field` from the front of
/// `s`: its value where present, the zero default otherwise.
pub open spec fn dec_field_varint(field: nat, s: Seq<u8>) -> (nat, Seq<u8>) {
    match spec_read_varint(s) {
        Option::None => (0, s),
        Option::Some((k, s1)) => {
            if k == field * 8 {
                match spec_read_varint(s1) {
                    Option::None => (0, s),
                    Option::Some((v, s2)) => (v, s2),
                }
            } else {
                (0, s)
            }
        },
    }
}

/// Reading a bytes field back from its encoding yields the encoded bytes
/// and leaves exactly the trailing bytes, provided those belong to a
/// later field.
pub proof fn lemma_dec_field_bytes(field: nat, b: Seq<u8>, rest: Seq<u8>)
    requires
        next_field_after(rest, field),
    ensures
        dec_field_bytes(field, spec_field_bytes(field, b) + rest) == (b, rest),
{
    if b.len() == 0 {
        assert(spec_field_bytes(field, b) + rest =~= rest);
        if rest.len() == 0 {
            assert(spec_read_varint(rest) is None);
        } else {
            let (k, _r) = spec_read_varint(rest)->Some_0;
            assert(k / 8 > field);
            assert(k != field * 8 + 2) by {
                if k == field * 8 + 2 {
                    assert(k / 8 == field) by (nonlinear_arith)
                        requires
                            k == field * 8 + 2,
                    ;
                }
            }
        }
    } else {
        let key = spec_key(field, 2);
        let lenv = spec_varint(b.len());
        let s = spec_field_bytes(field, b) + rest;
        assert(s =~= spec_varint(field * 8 + 2) + (lenv + (b + rest)));
        lemma_varint_read(field * 8 + 2, lenv + (b + rest));
        lemma_varint_read(b.len(), b + rest);
        let (k, s1) = spec_read_varint(s)->Some_0;
        assert(k == field * 8 + 2);
        assert(s1 == lenv + (b + rest));
        let (len, s2) = spec_read_varint(s1)->Some_0;
        assert(len == b.len());
        assert(s2 == b + rest);
        assert(s2.len() >= len);
        assert(s2.take(len as int) =~= b);
        assert(s2.skip(len as int) =~= rest);
    }
}

/// Reading a varint field back from its encoding yields the encoded
/// value, the elided zero included, and leaves exactly the trailing
/// bytes. The statement covers the scalar and the enumeration forms,
/// which frame values the same way.
pub proof fn lemma_dec_field_varint(field: nat, v: nat, rest: Seq<u8>)
    requires
        next_field_after(rest, field),
        field >= 1,
    ensures
        v == 0 ==> dec_field_varint(field, Seq::<u8>::empty() + rest) == (0nat, rest),
        v > 0 ==> dec_field_varint(
            field,
            (spec_key(field, 0) + spec_varint(v)) + rest,
        ) == (v, rest),
{
    if v == 0 {
        assert(Seq::<u8>::empty() + rest =~= rest);
        if rest.len() == 0 {
        } else {
            let (k, _r) = spec_read_varint(rest)->Some_0;
            assert(k / 8 > field);
            assert(k != field * 8) by {
                if k == field * 8 {
                    assert(k / 8 == field) by (nonlinear_arith)
                        requires
                            k == field * 8,
                    ;
                }
            }
        }
    } else {
        let s = (spec_key(field, 0) + spec_varint(v)) + rest;
        assert(s =~= spec_varint(field * 8) + (spec_varint(v) + rest));
        lemma_varint_read(field * 8, spec_varint(v) + rest);
        lemma_varint_read(v, rest);
        let (k, s1) = spec_read_varint(s)->Some_0;
        assert(k == field * 8);
        assert(s1 == spec_varint(v) + rest);
    }
}

/// Read a wire big integer back: the byte payload of its sole field.
pub open spec fn dec_big_int(s: Seq<u8>) -> Option<Seq<u8>> {
    let (b, s1) = dec_field_bytes(1, s);
    if s1.len() == 0 {
        Option::Some(b)
    } else {
        Option::None
    }
}

/// Decoding an encoded big integer yields the bytes that were encoded.
pub proof fn lemma_big_int_round_trip(m: pb::BigInt)
    ensures
        dec_big_int(spec_enc_big_int(m)) == Some(m.bytes@),
{
    lemma_dec_field_bytes(1, m.bytes@, Seq::empty());
    assert(spec_field_bytes(1, m.bytes@) + Seq::<u8>::empty() =~= spec_enc_big_int(m));
}

/// A 128-bit magnitude, projected to a wire big integer, serialized and
/// decoded back, is read unchanged: the wire form loses no bits of a
/// balance.
pub proof fn lemma_uint128_wire_round_trip(n: u128, m: pb::BigInt)
    requires
        m.bytes@ == spec_be16(n),
    ensures
        dec_big_int(spec_enc_big_int(m)) == Some(spec_be16(n)),
        spec_read_be16(dec_big_int(spec_enc_big_int(m))->Some_0) == n,
{
    lemma_big_int_round_trip(m);
    crate::scalar::lemma_uint128_round_trip(n);
}

/// Read a wire hash back: the byte payload of its sole field.
pub open spec fn dec_crypto_hash(s: Seq<u8>) -> Option<Seq<u8>> {
    let (b, s1) = dec_field_bytes(1, s);
    if s1.len() == 0 {
        Option::Some(b)
    } else {
        Option::None
    }
}

/// Decoding an encoded hash yields the bytes that were encoded.
pub proof fn lemma_crypto_hash_round_trip(m: pb::CryptoHash)
    ensures
        dec_crypto_hash(spec_enc_crypto_hash(m)) == Some(m.bytes@),
{
    lemma_dec_field_bytes(1, m.bytes@, Seq::empty());
    assert(spec_field_bytes(1, m.bytes@) + Seq::<u8>::empty() =~= spec_enc_crypto_hash(m));
}

/// Read a wire signature back: its curve tag and its bytes.
pub open spec fn dec_signature(s: Seq<u8>) -> Option<(nat, Seq<u8>)> {
    let (curve, s1) = dec_field_varint(1, s);
    let (b, s2) = dec_field_bytes(2, s1);
    if s2.len() == 0 {
        Option::Some((curve, b))
    } else {
        Option::None
    }
}

/// Decoding an encoded signature yields the curve tag and the bytes that
/// were encoded.
pub proof fn lemma_signature_round_trip(m: pb::Signature)
    requires
        m.curve >= 0,
    ensures
        dec_signature(spec_enc_signature(m)) == Some((m.curve as nat, m.bytes@)),
{
    let tail = spec_field_bytes(2, m.bytes@);
    lemma_field2_tail(m.bytes@);
    lemma_dec_field_varint(1, m.curve as nat, tail);
    if m.curve == 0 {
        assert(spec_enc_signature(m) =~= Seq::<u8>::empty() + tail);
    } else {
        assert(spec_enc_signature(m) =~= (spec_key(1, 0) + spec_varint(m.curve as nat)) + tail);
    }
    lemma_dec_field_bytes(2, m.bytes@, Seq::empty());
    assert(spec_field_bytes(2, m.bytes@) + Seq::<u8>::empty() =~= tail);
}

/// Decoding an encoded public key yields the curve tag and the bytes
/// that were encoded; a key frames its two fields as a signature does.
pub proof fn lemma_public_key_round_trip(m: pb::PublicKey)
    requires
        m.curve >= 0,
    ensures
        dec_signature(spec_enc_public_key(m)) == Some((m.curve as nat, m.bytes@)),
{
    let tail = spec_field_bytes(2, m.bytes@);
    lemma_field2_tail(m.bytes@);
    lemma_dec_field_varint(1, m.curve as nat, tail);
    if m.curve == 0 {
        assert(spec_enc_public_key(m) =~= Seq::<u8>::empty() + tail);
    } else {
        assert(spec_enc_public_key(m) =~= (spec_key(1, 0) + spec_varint(m.curve as nat)) + tail);
    }
    lemma_dec_field_bytes(2, m.bytes@, Seq::empty());
    assert(spec_field_bytes(2, m.bytes@) + Seq::<u8>::empty() =~= tail);
}

/// A bytes field with number 2 is a valid continuation after field 1.
proof fn lemma_field2_tail(b: Seq<u8>)
    ensures
        next_field_after(spec_field_bytes(2, b), 1),
{
    if b.len() == 0 {
    } else {
        lemma_varint_read(2 * 8 + 2, spec_varint(b.len()) + b);
        assert(spec_field_bytes(2, b) =~= spec_varint(2 * 8 + 2) + (spec_varint(b.len()) + b));
    }
}

/// Read one optional sub-message field with number `field` from the
/// front of `s`: the framed payload where the field is present, absence
/// where the next frame belongs to another field.
pub open spec fn dec_field_msg(field: nat, s: Seq<u8>) -> (Option<Seq<u8>>, Seq<u8>) {
    match spec_read_varint(s) {
        Option::None => (Option::None, s),
        Option::Some((k, s1)) => {
            if k == field * 8 + 2 {
                match spec_read_varint(s1) {
                    Option::None => (Option::None, s),
                    Option::Some((len, s2)) => {
                        if s2.len() >= len {
                            (Option::Some(s2.take(len as int)), s2.skip(len as int))
                        } else {
                            (Option::None, s)
                        }
                    },
                }
            } else {
                (Option::None, s)
            }
        },
    }
}

/// Reading an optional sub-message field back from its encoding yields
/// the encoded payload exactly where a value was present, and leaves
/// exactly the trailing bytes.
pub proof fn lemma_dec_field_msg<T>(field: nat, o: Option<T>, e: spec_fn(T) -> Seq<u8>, rest: Seq<u8>)
    requires
        next_field_after(rest, field),
    ensures
        dec_field_msg(field, crate::encode::spec_field_opt(field, o, e) + rest) == ((match o {
            Option::Some(x) => Option::Some(e(x)),
            Option::None => Option::None,
        }), rest),
{
    match o {
        Option::None => {
            assert(crate::encode::spec_field_opt(field, o, e) + rest =~= rest);
            if rest.len() == 0 {
            } else {
                let (k, _r) = spec_read_varint(rest)->Some_0;
                assert(k / 8 > field);
                assert(k != field * 8 + 2) by {
                    if k == field * 8 + 2 {
                        assert(k / 8 == field) by (nonlinear_arith)
                            requires
                                k == field * 8 + 2,
                        ;
                    }
                }
            }
        },
        Option::Some(x) => {
            let payload = e(x);
            let s = crate::encode::spec_field_opt(field, o, e) + rest;
            assert(s =~= spec_varint(field * 8 + 2) + (spec_varint(payload.len()) + (payload
                + rest)));
            lemma_varint_read(field * 8 + 2, spec_varint(payload.len()) + (payload + rest));
            lemma_varint_read(payload.len(), payload + rest);
            let (_k, s1) = spec_read_varint(s)->Some_0;
            assert(s1 == spec_varint(payload.len()) + (payload + rest));
            let (len, s2) = spec_read_varint(s1)->Some_0;
            assert(len == payload.len());
            assert(s2 == payload + rest);
            assert(s2.take(len as int) =~= payload);
            assert(s2.skip(len as int) =~= rest);
        },
    }
}

/// Reading a scalar field back from its encoding, the elided zero
/// included, yields the encoded value and leaves the trailing bytes.
pub proof fn lemma_dec_field_u64(field: nat, v: u64, rest: Seq<u8>)
    requires
        next_field_after(rest, field),
        field >= 1,
    ensures
        dec_field_varint(field, crate::proto::spec_field_u64(field, v) + rest) == (
            v as nat,
            rest,
        ),
{
    lemma_dec_field_varint(field, v as nat, rest);
    if v == 0 {
        assert(crate::proto::spec_field_u64(field, v) + rest =~= Seq::<u8>::empty() + rest);
    } else {
        assert(crate::proto::spec_field_u64(field, v) + rest =~= (spec_key(field, 0)
            + spec_varint(v as nat)) + rest);
    }
}

/// As the scalar lemma, for an enumeration field with a non-negative tag.
pub proof fn lemma_dec_field_enum(field: nat, v: i32, rest: Seq<u8>)
    requires
        next_field_after(rest, field),
        field >= 1,
        v >= 0,
    ensures
        dec_field_varint(field, spec_field_enum(field, v) + rest) == (v as nat, rest),
{
    lemma_dec_field_varint(field, v as nat, rest);
    if v == 0 {
        assert(spec_field_enum(field, v) + rest =~= Seq::<u8>::empty() + rest);
    } else {
        assert(spec_field_enum(field, v) + rest =~= (spec_key(field, 0) + spec_varint(
            v as nat,
        )) + rest);
    }
}

// ---- chaining: what may follow one field's encoding ----

/// A bytes field's encoding, put before bytes that belong to fields past
/// it, still reads as bytes belonging to fields past any earlier number.
pub proof fn lemma_chain_bytes(field: nat, b: Seq<u8>, rest: Seq<u8>, before: nat)
    requires
        next_field_after(rest, field),
        before < field,
    ensures
        next_field_after(spec_field_bytes(field, b) + rest, before),
{
    if b.len() == 0 {
        assert(spec_field_bytes(field, b) + rest =~= rest);
        if rest.len() > 0 {
            let (k, _r) = spec_read_varint(rest)->Some_0;
            assert(k / 8 > field);
        }
    } else {
        let s = spec_field_bytes(field, b) + rest;
        assert(s =~= spec_varint(field * 8 + 2) + (spec_varint(b.len()) + (b + rest)));
        lemma_varint_read(field * 8 + 2, spec_varint(b.len()) + (b + rest));
        assert((field * 8 + 2) / 8 == field) by (nonlinear_arith);
    }
}

/// As the bytes lemma, for a scalar field.
pub proof fn lemma_chain_u64(field: nat, v: u64, rest: Seq<u8>, before: nat)
    requires
        next_field_after(rest, field),
        before < field,
    ensures
        next_field_after(crate::proto::spec_field_u64(field, v) + rest, before),
{
    if v == 0 {
        assert(crate::proto::spec_field_u64(field, v) + rest =~= rest);
        if rest.len() > 0 {
            let (k, _r) = spec_read_varint(rest)->Some_0;
            assert(k / 8 > field);
        }
    } else {
        let s = crate::proto::spec_field_u64(field, v) + rest;
        assert(s =~= spec_varint(field * 8) + (spec_varint(v as nat) + rest));
        lemma_varint_read(field * 8, spec_varint(v as nat) + rest);
        assert(field * 8 / 8 == field) by (nonlinear_arith);
    }
}

/// As the bytes lemma, for an enumeration field.
pub proof fn lemma_chain_enum(field: nat, v: i32, rest: Seq<u8>, before: nat)
    requires
        next_field_after(rest, field),
        before < field,
    ensures
        next_field_after(spec_field_enum(field, v) + rest, before),
{
    if v <= 0 {
        assert(spec_field_enum(field, v) + rest =~= rest);
        if rest.len() > 0 {
            let (k, _r) = spec_read_varint(rest)->Some_0;
            assert(k / 8 > field);
        }
    } else {
        let s = spec_field_enum(field, v) + rest;
        assert(s =~= spec_varint(field * 8) + (spec_varint(v as nat) + rest));
        lemma_varint_read(field * 8, spec_varint(v as nat) + rest);
        assert(field * 8 / 8 == field) by (nonlinear_arith);
    }
}

/// As the bytes lemma, for an optional sub-message field.
pub proof fn lemma_chain_opt<T>(
    field: nat,
    o: Option<T>,
    e: spec_fn(T) -> Seq<u8>,
    rest: Seq<u8>,
    before: nat,
)
    requires
        next_field_after(rest, field),
        before < field,
    ensures
        next_field_after(crate::encode::spec_field_opt(field, o, e) + rest, before),
{
    match o {
        Option::None => {
            assert(crate::encode::spec_field_opt(field, o, e) + rest =~= rest);
            if rest.len() > 0 {
                let (k, _r) = spec_read_varint(rest)->Some_0;
                assert(k / 8 > field);
            }
        },
        Option::Some(x) => {
            let payload = e(x);
            let s = crate::encode::spec_field_opt(field, o, e) + rest;
            assert(s =~= spec_varint(field * 8 + 2) + (spec_varint(payload.len()) + (payload
                + rest)));
            lemma_varint_read(field * 8 + 2, spec_varint(payload.len()) + (payload + rest));
            assert((field * 8 + 2) / 8 == field) by (nonlinear_arith);
        },
    }
}

/// Read a run of repeated frames with number `field` from the front of
/// `s`: the payloads in order, and the rest. The fuel bounds the run's
/// length; any value at least the element count reads the whole run.
pub open spec fn dec_field_rep(field: nat, s: Seq<u8>, fuel: nat) -> (Seq<Seq<u8>>, Seq<u8>)
    decreases fuel,
{
    if fuel == 0 {
        (Seq::empty(), s)
    } else {
        match spec_read_varint(s) {
            Option::None => (Seq::empty(), s),
            Option::Some((k, s1)) => {
                if k == field * 8 + 2 {
                    match spec_read_varint(s1) {
                        Option::None => (Seq::empty(), s),
                        Option::Some((len, s2)) => {
                            if s2.len() >= len {
                                let next = dec_field_rep(
                                    field,
                                    s2.skip(len as int),
                                    (fuel - 1) as nat,
                                );
                                (seq![s2.take(len as int)] + next.0, next.1)
                            } else {
                                (Seq::empty(), s)
                            }
                        },
                    }
                } else {
                    (Seq::empty(), s)
                }
            },
        }
    }
}

/// Reading a repeated field back from its encoding yields every encoded
/// element's payload, in order, and leaves exactly the trailing bytes.
pub proof fn lemma_dec_field_rep<T>(
    field: nat,
    s: Seq<T>,
    e: spec_fn(T) -> Seq<u8>,
    rest: Seq<u8>,
    fuel: nat,
)
    requires
        next_field_after(rest, field),
        fuel >= s.len(),
        field >= 1,
    ensures
        dec_field_rep(field, crate::proto::spec_rep(field, s, e) + rest, fuel) == (
            s.map_values(e),
            rest,
        ),
    decreases s.len(),
{
    if s.len() == 0 {
        assert(crate::proto::spec_rep(field, s, e) + rest =~= rest);
        if rest.len() > 0 {
            let (k, _r) = spec_read_varint(rest)->Some_0;
            assert(k / 8 > field);
            assert(k != field * 8 + 2) by {
                if k == field * 8 + 2 {
                    assert(k / 8 == field) by (nonlinear_arith)
                        requires
                            k == field * 8 + 2,
                    ;
                }
            }
        }
        assert(s.map_values(e) =~= Seq::<Seq<u8>>::empty());
    } else {
        let payload = e(s[0]);
        let tail = crate::proto::spec_rep(field, s.drop_first(), e) + rest;
        let whole = crate::proto::spec_rep(field, s, e) + rest;
        assert(whole =~= spec_varint(field * 8 + 2) + (spec_varint(payload.len()) + (payload
            + tail)));
        lemma_varint_read(field * 8 + 2, spec_varint(payload.len()) + (payload + tail));
        lemma_varint_read(payload.len(), payload + tail);
        let (_k, s1) = spec_read_varint(whole)->Some_0;
        let (len, s2) = spec_read_varint(s1)->Some_0;
        assert(len == payload.len());
        assert(s2 == payload + tail);
        assert(s2.take(len as int) =~= payload);
        assert(s2.skip(len as int) =~= tail);
        lemma_dec_field_rep(field, s.drop_first(), e, rest, (fuel - 1) as nat);
        assert(s.map_values(e) =~= seq![payload] + s.drop_first().map_values(e));
    }
}

/// Reading a repeated bytes field back yields every element.
pub proof fn lemma_dec_field_rep_bytes(field: nat, s: Seq<Seq<u8>>, rest: Seq<u8>, fuel: nat)
    requires
        next_field_after(rest, field),
        fuel >= s.len(),
        field >= 1,
    ensures
        dec_field_rep(field, crate::proto::spec_rep_bytes(field, s) + rest, fuel) == (s, rest),
    decreases s.len(),
{
    if s.len() == 0 {
        assert(crate::proto::spec_rep_bytes(field, s) + rest =~= rest);
        if rest.len() > 0 {
            let (k, _r) = spec_read_varint(rest)->Some_0;
            assert(k / 8 > field);
            assert(k != field * 8 + 2) by {
                if k == field * 8 + 2 {
                    assert(k / 8 == field) by (nonlinear_arith)
                        requires
                            k == field * 8 + 2,
                    ;
                }
            }
        }
    } else {
        let payload = s[0];
        let tail = crate::proto::spec_rep_bytes(field, s.drop_first()) + rest;
        let whole = crate::proto::spec_rep_bytes(field, s) + rest;
        assert(whole =~= spec_varint(field * 8 + 2) + (spec_varint(payload.len()) + (payload
            + tail)));
        lemma_varint_read(field * 8 + 2, spec_varint(payload.len()) + (payload + tail));
        lemma_varint_read(payload.len(), payload + tail);
        let (_k, s1) = spec_read_varint(whole)->Some_0;
        let (len, s2) = spec_read_varint(s1)->Some_0;
        assert(len == payload.len());
        assert(s2 == payload + tail);
        assert(s2.take(len as int) =~= payload);
        assert(s2.skip(len as int) =~= tail);
        lemma_dec_field_rep_bytes(field, s.drop_first(), rest, (fuel - 1) as nat);
        assert(dec_field_rep(field, whole, fuel).0 =~= s);
    }
}

/// A repeated field's encoding, put before bytes of later fields, still
/// reads as bytes of fields past any earlier number.
pub proof fn lemma_chain_rep<T>(
    field: nat,
    s: Seq<T>,
    e: spec_fn(T) -> Seq<u8>,
    rest: Seq<u8>,
    before: nat,
)
    requires
        next_field_after(rest, field),
        before < field,
    ensures
        next_field_after(crate::proto::spec_rep(field, s, e) + rest, before),
{
    if s.len() == 0 {
        assert(crate::proto::spec_rep(field, s, e) + rest =~= rest);
        if rest.len() > 0 {
            let (k, _r) = spec_read_varint(rest)->Some_0;
            assert(k / 8 > field);
        }
    } else {
        let payload = e(s[0]);
        let tail = crate::proto::spec_rep(field, s.drop_first(), e) + rest;
        assert(crate::proto::spec_rep(field, s, e) + rest =~= spec_varint(field * 8 + 2) + (
        spec_varint(payload.len()) + (payload + tail)));
        lemma_varint_read(field * 8 + 2, spec_varint(payload.len()) + (payload + tail));
        assert((field * 8 + 2) / 8 == field) by (nonlinear_arith);
    }
}

/// Read a transfer payload back: the balance bytes of its deposit, where
/// one was encoded.
pub open spec fn dec_transfer(s: Seq<u8>) -> Option<Option<Seq<u8>>> {
    let (dep, s1) = dec_field_msg(1, s);
    if s1.len() != 0 {
        Option::None
    } else {
        match dep {
            Option::None => Option::Some(Option::None),
            Option::Some(pbytes) => match dec_big_int(pbytes) {
                Option::None => Option::None,
                Option::Some(b) => Option::Some(Option::Some(b)),
            },
        }
    }
}

/// Decoding an encoded transfer yields exactly the deposit that was
/// encoded: the present deposit's bytes, or its absence.
pub proof fn lemma_transfer_round_trip(m: pb::TransferAction)
    ensures
        dec_transfer(spec_enc_transfer(m)) == Some(match m.deposit {
            Option::Some(b) => Option::Some(b.bytes@),
            Option::None => Option::None,
        }),
{
    lemma_dec_field_msg(
        1,
        m.deposit,
        |b: pb::BigInt| spec_enc_big_int(b),
        Seq::empty(),
    );
    assert(crate::encode::spec_field_opt(1, m.deposit, |b: pb::BigInt| spec_enc_big_int(b))
        + Seq::<u8>::empty() =~= spec_enc_transfer(m));
    match m.deposit {
        Option::Some(b) => {
            lemma_big_int_round_trip(b);
        },
        Option::None => {},
    }
}

/// Read a contract deployment payload back: its code bytes.
pub open spec fn dec_deploy_contract(s: Seq<u8>) -> Option<Seq<u8>> {
    let (b, s1) = dec_field_bytes(1, s);
    if s1.len() == 0 {
        Option::Some(b)
    } else {
        Option::None
    }
}

/// Decoding an encoded deployment yields the code that was encoded.
pub proof fn lemma_deploy_contract_round_trip(m: pb::DeployContractAction)
    ensures
        dec_deploy_contract(crate::encode::spec_enc_deploy_contract(m)) == Some(m.code@),
{
    lemma_dec_field_bytes(1, m.code@, Seq::empty());
    assert(spec_field_bytes(1, m.code@) + Seq::<u8>::empty()
        =~= crate::encode::spec_enc_deploy_contract(m));
}

/// Read a delete-account payload back: its beneficiary.
pub open spec fn dec_delete_account(s: Seq<u8>) -> Option<Seq<u8>> {
    let (b, s1) = dec_field_bytes(1, s);
    if s1.len() == 0 {
        Option::Some(b)
    } else {
        Option::None
    }
}

/// Decoding an encoded account deletion yields its beneficiary.
pub proof fn lemma_delete_account_round_trip(m: pb::DeleteAccountAction)
    ensures
        dec_delete_account(crate::encode::spec_enc_delete_account(m)) == Some(m.beneficiary_id@),
{
    lemma_dec_field_bytes(1, m.beneficiary_id@, Seq::empty());
    assert(spec_field_bytes(1, m.beneficiary_id@) + Seq::<u8>::empty()
        =~= crate::encode::spec_enc_delete_account(m));
}

/// Read a function-call payload back: method name, arguments, gas, and
/// the deposit's balance bytes where one was encoded.
pub open spec fn dec_function_call(s: Seq<u8>) -> Option<(Seq<u8>, Seq<u8>, nat, Option<Seq<u8>>)> {
    let (mn, s1) = dec_field_bytes(1, s);
    let (args, s2) = dec_field_bytes(2, s1);
    let (gas, s3) = dec_field_varint(3, s2);
    let (dep, s4) = dec_field_msg(4, s3);
    if s4.len() != 0 {
        Option::None
    } else {
        match dep {
            Option::None => Option::Some((mn, args, gas, Option::None)),
            Option::Some(pbytes) => match dec_big_int(pbytes) {
                Option::None => Option::None,
                Option::Some(b) => Option::Some((mn, args, gas, Option::Some(b))),
            },
        }
    }
}

/// Decoding an encoded function call yields every field that was
/// encoded.
pub proof fn lemma_function_call_round_trip(m: pb::FunctionCallAction)
    ensures
        dec_function_call(crate::encode::spec_enc_function_call(m)) == Some(
            (m.method_name@, m.args@, m.gas as nat, match m.deposit {
                Option::Some(b) => Option::Some(b.bytes@),
                Option::None => Option::None::<Seq<u8>>,
            }),
        ),
{
    let eb = |b: pb::BigInt| spec_enc_big_int(b);
    let t4 = crate::encode::spec_field_opt(4, m.deposit, eb);
    let t3 = crate::proto::spec_field_u64(3, m.gas) + t4;
    let t2 = spec_field_bytes(2, m.args@) + t3;
    lemma_dec_field_msg(4, m.deposit, eb, Seq::empty());
    assert(crate::encode::spec_field_opt(4, m.deposit, eb) + Seq::<u8>::empty() =~= t4);
    lemma_chain_opt(4, m.deposit, eb, Seq::empty(), 3);
    assert(t4 =~= crate::encode::spec_field_opt(4, m.deposit, eb) + Seq::<u8>::empty());
    lemma_dec_field_u64(3, m.gas, t4);
    lemma_chain_u64(3, m.gas, t4, 2);
    lemma_dec_field_bytes(2, m.args@, t3);
    lemma_chain_bytes(2, m.args@, t3, 1);
    lemma_dec_field_bytes(1, m.method_name@, t2);
    assert(crate::encode::spec_enc_function_call(m) =~= spec_field_bytes(1, m.method_name@)
        + t2);
    match m.deposit {
        Option::Some(b) => {
            lemma_big_int_round_trip(b);
        },
        Option::None => {},
    }
}

/// Read a stake payload back: the stake's balance bytes and the signing
/// key, where each was encoded.
pub open spec fn dec_stake(s: Seq<u8>) -> Option<(Option<Seq<u8>>, Option<(nat, Seq<u8>)>)> {
    let (st, s1) = dec_field_msg(1, s);
    let (k, s2) = dec_field_msg(2, s1);
    if s2.len() != 0 {
        Option::None
    } else {
        let stake = match st {
            Option::None => Option::Some(Option::None),
            Option::Some(pbytes) => match dec_big_int(pbytes) {
                Option::None => Option::None,
                Option::Some(b) => Option::Some(Option::Some(b)),
            },
        };
        let key = match k {
            Option::None => Option::Some(Option::None),
            Option::Some(pbytes) => match dec_signature(pbytes) {
                Option::None => Option::None,
                Option::Some(kv) => Option::Some(Option::Some(kv)),
            },
        };
        match (stake, key) {
            (Option::Some(a), Option::Some(b)) => Option::Some((a, b)),
            _ => Option::None,
        }
    }
}

/// The curve tags this library assigns are never negative; encoders of
/// projected values meet it.
pub open spec fn key_curve_ok(o: Option<pb::PublicKey>) -> bool {
    o matches Some(k) ==> k.curve >= 0
}

/// Decoding an encoded stake yields the balance bytes and the key that
/// were encoded.
pub proof fn lemma_stake_round_trip(m: pb::StakeAction)
    requires
        key_curve_ok(m.public_key),
    ensures
        dec_stake(crate::encode::spec_enc_stake(m)) == Some(
            (
                match m.stake {
                    Option::Some(b) => Option::Some(b.bytes@),
                    Option::None => Option::None::<Seq<u8>>,
                },
                match m.public_key {
                    Option::Some(k) => Option::Some((k.curve as nat, k.bytes@)),
                    Option::None => Option::None::<(nat, Seq<u8>)>,
                },
            ),
        ),
{
    let eb = |b: pb::BigInt| spec_enc_big_int(b);
    let ek = |k: pb::PublicKey| spec_enc_public_key(k);
    let t2 = crate::encode::spec_field_opt(2, m.public_key, ek);
    lemma_dec_field_msg(2, m.public_key, ek, Seq::empty());
    assert(crate::encode::spec_field_opt(2, m.public_key, ek) + Seq::<u8>::empty() =~= t2);
    lemma_chain_opt(2, m.public_key, ek, Seq::empty(), 1);
    lemma_dec_field_msg(1, m.stake, eb, t2);
    assert(crate::encode::spec_enc_stake(m) =~= crate::encode::spec_field_opt(1, m.stake, eb)
        + t2);
    match m.stake {
        Option::Some(b) => {
            lemma_big_int_round_trip(b);
        },
        Option::None => {},
    }
    match m.public_key {
        Option::Some(k) => {
            lemma_public_key_round_trip(k);
        },
        Option::None => {},
    }
}

/// Read a delete-key payload back: the key, where one was encoded.
pub open spec fn dec_delete_key(s: Seq<u8>) -> Option<Option<(nat, Seq<u8>)>> {
    let (k, s1) = dec_field_msg(1, s);
    if s1.len() != 0 {
        Option::None
    } else {
        match k {
            Option::None => Option::Some(Option::None),
            Option::Some(pbytes) => match dec_signature(pbytes) {
                Option::None => Option::None,
                Option::Some(kv) => Option::Some(Option::Some(kv)),
            },
        }
    }
}

/// Decoding an encoded key deletion yields the key that was encoded.
pub proof fn lemma_delete_key_round_trip(m: pb::DeleteKeyAction)
    requires
        key_curve_ok(m.public_key),
    ensures
        dec_delete_key(crate::encode::spec_enc_delete_key(m)) == Some(match m.public_key {
            Option::Some(k) => Option::Some((k.curve as nat, k.bytes@)),
            Option::None => Option::None::<(nat, Seq<u8>)>,
        }),
{
    let ek = |k: pb::PublicKey| spec_enc_public_key(k);
    lemma_dec_field_msg(1, m.public_key, ek, Seq::empty());
    assert(crate::encode::spec_field_opt(1, m.public_key, ek) + Seq::<u8>::empty()
        =~= crate::encode::spec_enc_delete_key(m));
    match m.public_key {
        Option::Some(k) => {
            lemma_public_key_round_trip(k);
        },
        Option::None => {},
    }
}

/// Read a function-call permission back: the allowance's balance bytes
/// where one was encoded, the receiver, and the method names in order.
pub open spec fn dec_function_call_permission(s: Seq<u8>) -> Option<
    (Option<Seq<u8>>, Seq<u8>, Seq<Seq<u8>>),
> {
    let (al, s1) = dec_field_msg(1, s);
    let (recv, s2) = dec_field_bytes(2, s1);
    let (names, s3) = dec_field_rep(3, s2, s2.len());
    if s3.len() != 0 {
        Option::None
    } else {
        match al {
            Option::None => Option::Some((Option::None, recv, names)),
            Option::Some(pbytes) => match dec_big_int(pbytes) {
                Option::None => Option::None,
                Option::Some(b) => Option::Some((Option::Some(b), recv, names)),
            },
        }
    }
}

/// Every frame of a repeated field costs at least one byte, so the run's
/// byte length bounds its element count.
pub proof fn lemma_rep_len(field: nat, s: Seq<Seq<u8>>)
    ensures
        crate::proto::spec_rep_bytes(field, s).len() >= s.len(),
    decreases s.len(),
{
    if s.len() > 0 {
        lemma_rep_len(field, s.drop_first());
        assert(spec_varint(field * 8 + 2).len() >= 1);
    }
}

/// Decoding an encoded function-call permission yields every field.
pub proof fn lemma_function_call_permission_round_trip(m: pb::FunctionCallPermission)
    ensures
        dec_function_call_permission(crate::encode::spec_enc_function_call_permission(m))
            == Some(
            (
                match m.allowance {
                    Option::Some(b) => Option::Some(b.bytes@),
                    Option::None => Option::None::<Seq<u8>>,
                },
                m.receiver_id@,
                crate::encode::spec_views(m.method_names@),
            ),
        ),
{
    let eb = |b: pb::BigInt| spec_enc_big_int(b);
    let names = crate::encode::spec_views(m.method_names@);
    let t3 = crate::proto::spec_rep_bytes(3, names);
    let t2 = spec_field_bytes(2, m.receiver_id@) + t3;
    lemma_rep_len(3, names);
    lemma_dec_field_rep_bytes(3, names, Seq::empty(), t3.len());
    assert(crate::proto::spec_rep_bytes(3, names) + Seq::<u8>::empty() =~= t3);
    lemma_chain_rep_bytes(3, names, Seq::empty(), 2);
    lemma_dec_field_bytes(2, m.receiver_id@, t3);
    lemma_chain_bytes(2, m.receiver_id@, t3, 1);
    lemma_dec_field_msg(1, m.allowance, eb, t2);
    assert(crate::encode::spec_enc_function_call_permission(m)
        =~= crate::encode::spec_field_opt(1, m.allowance, eb) + t2);
    match m.allowance {
        Option::Some(b) => {
            lemma_big_int_round_trip(b);
        },
        Option::None => {},
    }
}

/// As the repeated chain lemma, for a repeated bytes field.
pub proof fn lemma_chain_rep_bytes(field: nat, s: Seq<Seq<u8>>, rest: Seq<u8>, before: nat)
    requires
        next_field_after(rest, field),
        before < field,
    ensures
        next_field_after(crate::proto::spec_rep_bytes(field, s) + rest, before),
{
    if s.len() == 0 {
        assert(crate::proto::spec_rep_bytes(field, s) + rest =~= rest);
        if rest.len() > 0 {
            let (k, _r) = spec_read_varint(rest)->Some_0;
            assert(k / 8 > field);
        }
    } else {
        let payload = s[0];
        let tail = crate::proto::spec_rep_bytes(field, s.drop_first()) + rest;
        assert(crate::proto::spec_rep_bytes(field, s) + rest =~= spec_varint(field * 8 + 2) + (
        spec_varint(payload.len()) + (payload + tail)));
        lemma_varint_read(field * 8 + 2, spec_varint(payload.len()) + (payload + tail));
        assert((field * 8 + 2) / 8 == field) by (nonlinear_arith);
    }
}

/// Read an access-key permission back: which alternative was chosen and
/// its raw payload.
pub proof fn lemma_access_key_permission_round_trip(m: pb::AccessKeyPermission)
    ensures
        dec_oneof_frame(crate::encode::spec_enc_access_key_permission(m)) == (
        match m.permission {
            Option::None => Option::None,
            Option::Some(pb::access_key_permission::Permission::FunctionCall(p)) => Option::Some(
                (1nat, crate::encode::spec_enc_function_call_permission(p)),
            ),
            Option::Some(pb::access_key_permission::Permission::FullAccess(_f)) => Option::Some(
                (2nat, Seq::<u8>::empty()),
            ),
        }),
{
    match m.permission {
        Option::None => {},
        Option::Some(pb::access_key_permission::Permission::FunctionCall(p)) => {
            lemma_dec_oneof_frame(1, crate::encode::spec_enc_function_call_permission(p));
        },
        Option::Some(pb::access_key_permission::Permission::FullAccess(_f)) => {
            lemma_dec_oneof_frame(2, Seq::empty());
        },
    }
}

/// Read an access key back: its nonce and its permission's raw frame.
pub open spec fn dec_access_key(s: Seq<u8>) -> Option<(nat, Option<Seq<u8>>)> {
    let (nonce, s1) = dec_field_varint(1, s);
    let (perm, s2) = dec_field_msg(2, s1);
    if s2.len() == 0 {
        Option::Some((nonce, perm))
    } else {
        Option::None
    }
}

/// Decoding an encoded access key yields its nonce and exactly the
/// encoding of its permission.
pub proof fn lemma_access_key_round_trip(m: pb::AccessKey)
    ensures
        dec_access_key(crate::encode::spec_enc_access_key(m)) == Some(
            (m.nonce as nat, match m.permission {
                Option::Some(p) => Option::Some(
                    crate::encode::spec_enc_access_key_permission(p),
                ),
                Option::None => Option::None::<Seq<u8>>,
            }),
        ),
{
    let ep = |p: pb::AccessKeyPermission| crate::encode::spec_enc_access_key_permission(p);
    let t2 = crate::encode::spec_field_opt(2, m.permission, ep);
    lemma_dec_field_msg(2, m.permission, ep, Seq::empty());
    assert(crate::encode::spec_field_opt(2, m.permission, ep) + Seq::<u8>::empty() =~= t2);
    lemma_chain_opt(2, m.permission, ep, Seq::empty(), 1);
    lemma_dec_field_u64(1, m.nonce, t2);
    assert(crate::encode::spec_enc_access_key(m) =~= crate::proto::spec_field_u64(1, m.nonce)
        + t2);
}

/// Read an add-key payload back: the key and the access key's raw frame.
pub open spec fn dec_add_key(s: Seq<u8>) -> Option<(Option<(nat, Seq<u8>)>, Option<Seq<u8>>)> {
    let (k, s1) = dec_field_msg(1, s);
    let (ak, s2) = dec_field_msg(2, s1);
    if s2.len() != 0 {
        Option::None
    } else {
        match k {
            Option::None => Option::Some((Option::None, ak)),
            Option::Some(pbytes) => match dec_signature(pbytes) {
                Option::None => Option::None,
                Option::Some(kv) => Option::Some((Option::Some(kv), ak)),
            },
        }
    }
}

/// Decoding an encoded key addition yields the key and exactly the
/// encoding of the access key.
pub proof fn lemma_add_key_round_trip(m: pb::AddKeyAction)
    requires
        key_curve_ok(m.public_key),
    ensures
        dec_add_key(crate::encode::spec_enc_add_key(m)) == Some(
            (
                match m.public_key {
                    Option::Some(k) => Option::Some((k.curve as nat, k.bytes@)),
                    Option::None => Option::None::<(nat, Seq<u8>)>,
                },
                match m.access_key {
                    Option::Some(a) => Option::Some(crate::encode::spec_enc_access_key(a)),
                    Option::None => Option::None::<Seq<u8>>,
                },
            ),
        ),
{
    let ek = |k: pb::PublicKey| spec_enc_public_key(k);
    let ea = |a: pb::AccessKey| crate::encode::spec_enc_access_key(a);
    let t2 = crate::encode::spec_field_opt(2, m.access_key, ea);
    lemma_dec_field_msg(2, m.access_key, ea, Seq::empty());
    assert(crate::encode::spec_field_opt(2, m.access_key, ea) + Seq::<u8>::empty() =~= t2);
    lemma_chain_opt(2, m.access_key, ea, Seq::empty(), 1);
    lemma_dec_field_msg(1, m.public_key, ek, t2);
    assert(crate::encode::spec_enc_add_key(m) =~= crate::encode::spec_field_opt(
        1,
        m.public_key,
        ek,
    ) + t2);
    match m.public_key {
        Option::Some(k) => {
            lemma_public_key_round_trip(k);
        },
        Option::None => {},
    }
}

/// Read the frame of a tagged union back: which alternative is populated
/// and its raw payload, or absence where the union was empty.
pub open spec fn dec_oneof_frame(s: Seq<u8>) -> Option<(nat, Seq<u8>)> {
    if s.len() == 0 {
        Option::None
    } else {
        match spec_read_varint(s) {
            Option::None => Option::None,
            Option::Some((k, s1)) => {
                if k % 8 == 2 {
                    match spec_read_varint(s1) {
                        Option::None => Option::None,
                        Option::Some((len, s2)) => {
                            if s2.len() == len {
                                Option::Some((k / 8, s2))
                            } else {
                                Option::None
                            }
                        },
                    }
                } else {
                    Option::None
                }
            },
        }
    }
}

/// A single length-delimited frame reads back as its alternative number
/// and its exact payload.
proof fn lemma_dec_oneof_frame(field: nat, payload: Seq<u8>)
    requires
        field >= 1,
        field < 1000,
    ensures
        dec_oneof_frame(spec_len_delim(field, payload)) == Some((field, payload)),
{
    let s = spec_len_delim(field, payload);
    assert(s =~= spec_varint(field * 8 + 2) + (spec_varint(payload.len()) + payload));
    lemma_varint_read(field * 8 + 2, spec_varint(payload.len()) + payload);
    lemma_varint_read(payload.len(), payload);
    assert(s.len() > 0);
    let (k, s1) = spec_read_varint(s)->Some_0;
    assert(k == field * 8 + 2);
    assert((field * 8 + 2) % 8 == 2 && (field * 8 + 2) / 8 == field) by (nonlinear_arith);
    assert(s1 == spec_varint(payload.len()) + payload);
    let (len, s2) = spec_read_varint(s1)->Some_0;
    assert(len == payload.len());
    assert(s2 =~= payload);
}

/// Decoding an encoded nested action yields exactly the alternative that
/// was populated, at its own number, with the exact encoding of its
/// payload.
pub proof fn lemma_non_delegate_action_round_trip(a: pb::NonDelegateAction)
    ensures
        dec_oneof_frame(crate::encode::spec_enc_non_delegate_action(a)) == (match a.action {
            Option::None => Option::None,
            Option::Some(pb::non_delegate_action::Action::CreateAccount(_p)) => Option::Some(
                (1nat, Seq::<u8>::empty()),
            ),
            Option::Some(pb::non_delegate_action::Action::DeployContract(p)) => Option::Some(
                (2nat, crate::encode::spec_enc_deploy_contract(p)),
            ),
            Option::Some(pb::non_delegate_action::Action::FunctionCall(p)) => Option::Some(
                (3nat, crate::encode::spec_enc_function_call(p)),
            ),
            Option::Some(pb::non_delegate_action::Action::Transfer(p)) => Option::Some(
                (4nat, crate::encode::spec_enc_transfer(p)),
            ),
            Option::Some(pb::non_delegate_action::Action::Stake(p)) => Option::Some(
                (5nat, crate::encode::spec_enc_stake(p)),
            ),
            Option::Some(pb::non_delegate_action::Action::AddKey(p)) => Option::Some(
                (6nat, crate::encode::spec_enc_add_key(p)),
            ),
            Option::Some(pb::non_delegate_action::Action::DeleteKey(p)) => Option::Some(
                (7nat, crate::encode::spec_enc_delete_key(p)),
            ),
            Option::Some(pb::non_delegate_action::Action::DeleteAccount(p)) => Option::Some(
                (8nat, crate::encode::spec_enc_delete_account(p)),
            ),
        }),
{
    match a.action {
        Option::None => {},
        Option::Some(pb::non_delegate_action::Action::CreateAccount(_p)) => {
            lemma_dec_oneof_frame(1, Seq::empty());
        },
        Option::Some(pb::non_delegate_action::Action::DeployContract(p)) => {
            lemma_dec_oneof_frame(2, crate::encode::spec_enc_deploy_contract(p));
        },
        Option::Some(pb::non_delegate_action::Action::FunctionCall(p)) => {
            lemma_dec_oneof_frame(3, crate::encode::spec_enc_function_call(p));
        },
        Option::Some(pb::non_delegate_action::Action::Transfer(p)) => {
            lemma_dec_oneof_frame(4, crate::encode::spec_enc_transfer(p));
        },
        Option::Some(pb::non_delegate_action::Action::Stake(p)) => {
            lemma_dec_oneof_frame(5, crate::encode::spec_enc_stake(p));
        },
        Option::Some(pb::non_delegate_action::Action::AddKey(p)) => {
            lemma_dec_oneof_frame(6, crate::encode::spec_enc_add_key(p));
        },
        Option::Some(pb::non_delegate_action::Action::DeleteKey(p)) => {
            lemma_dec_oneof_frame(7, crate::encode::spec_enc_delete_key(p));
        },
        Option::Some(pb::non_delegate_action::Action::DeleteAccount(p)) => {
            lemma_dec_oneof_frame(8, crate::encode::spec_enc_delete_account(p));
        },
    }
}

/// Every frame of a repeated field costs at least one byte, so the run's
/// byte length bounds its element count.
pub proof fn lemma_rep_len_gen<T>(field: nat, s: Seq<T>, e: spec_fn(T) -> Seq<u8>)
    ensures
        crate::proto::spec_rep(field, s, e).len() >= s.len(),
    decreases s.len(),
{
    if s.len() > 0 {
        lemma_rep_len_gen(field, s.drop_first(), e);
        assert(spec_varint(field * 8 + 2).len() >= 1);
    }
}

/// Read a delegated batch back: sender, receiver, the nested actions'
/// raw frames in order, nonce, expiry height, and the signing key.
pub open spec fn dec_delegate_action(s: Seq<u8>) -> Option<
    (Seq<u8>, Seq<u8>, Seq<Seq<u8>>, nat, nat, Option<(nat, Seq<u8>)>),
> {
    let (sender, s1) = dec_field_bytes(1, s);
    let (receiver, s2) = dec_field_bytes(2, s1);
    let (nested, s3) = dec_field_rep(3, s2, s2.len());
    let (nonce, s4) = dec_field_varint(4, s3);
    let (height, s5) = dec_field_varint(5, s4);
    let (k, s6) = dec_field_msg(6, s5);
    if s6.len() != 0 {
        Option::None
    } else {
        match k {
            Option::None => Option::Some((sender, receiver, nested, nonce, height, Option::None)),
            Option::Some(pbytes) => match dec_signature(pbytes) {
                Option::None => Option::None,
                Option::Some(kv) => Option::Some(
                    (sender, receiver, nested, nonce, height, Option::Some(kv)),
                ),
            },
        }
    }
}

/// Decoding an encoded delegated batch yields every field that was
/// encoded, the nested actions as their exact encodings, in order.
#[verifier::rlimit(100)]
pub proof fn lemma_delegate_action_round_trip(m: pb::DelegateAction)
    requires
        key_curve_ok(m.public_key),
    ensures
        dec_delegate_action(crate::encode::spec_enc_delegate_action(m)) == Some(
            (
                m.sender_id@,
                m.receiver_id@,
                m.actions@.map_values(
                    |x: pb::NonDelegateAction| crate::encode::spec_enc_non_delegate_action(x),
                ),
                m.nonce as nat,
                m.max_block_height as nat,
                match m.public_key {
                    Option::Some(k) => Option::Some((k.curve as nat, k.bytes@)),
                    Option::None => Option::None::<(nat, Seq<u8>)>,
                },
            ),
        ),
{
    let en = |x: pb::NonDelegateAction| crate::encode::spec_enc_non_delegate_action(x);
    let ek = |k: pb::PublicKey| spec_enc_public_key(k);
    let t6 = crate::encode::spec_field_opt(6, m.public_key, ek);
    let t5 = crate::proto::spec_field_u64(5, m.max_block_height) + t6;
    let t4 = crate::proto::spec_field_u64(4, m.nonce) + t5;
    let t3 = crate::proto::spec_rep(3, m.actions@, en) + t4;
    let t2 = spec_field_bytes(2, m.receiver_id@) + t3;
    lemma_dec_field_msg(6, m.public_key, ek, Seq::empty());
    assert(crate::encode::spec_field_opt(6, m.public_key, ek) + Seq::<u8>::empty() =~= t6);
    lemma_chain_opt(6, m.public_key, ek, Seq::empty(), 5);
    lemma_dec_field_u64(5, m.max_block_height, t6);
    lemma_chain_u64(5, m.max_block_height, t6, 4);
    lemma_dec_field_u64(4, m.nonce, t5);
    lemma_chain_u64(4, m.nonce, t5, 3);
    lemma_rep_len_gen(3, m.actions@, en);
    lemma_dec_field_rep(3, m.actions@, en, t4, t3.len());
    lemma_chain_rep(3, m.actions@, en, t4, 2);
    lemma_dec_field_bytes(2, m.receiver_id@, t3);
    lemma_chain_bytes(2, m.receiver_id@, t3, 1);
    lemma_dec_field_bytes(1, m.sender_id@, t2);
    assert(crate::encode::spec_enc_delegate_action(m) =~= spec_field_bytes(1, m.sender_id@)
        + t2);
    match m.public_key {
        Option::Some(k) => {
            lemma_public_key_round_trip(k);
        },
        Option::None => {},
    }
}

/// Read a signed delegated batch back: the batch's raw frame and the
/// signature.
pub open spec fn dec_signed_delegate_action(s: Seq<u8>) -> Option<
    (Option<Seq<u8>>, Option<(nat, Seq<u8>)>),
> {
    let (da, s1) = dec_field_msg(1, s);
    let (sg, s2) = dec_field_msg(2, s1);
    if s2.len() != 0 {
        Option::None
    } else {
        match sg {
            Option::None => Option::Some((da, Option::None)),
            Option::Some(pbytes) => match dec_signature(pbytes) {
                Option::None => Option::None,
                Option::Some(kv) => Option::Some((da, Option::Some(kv))),
            },
        }
    }
}

/// As `key_curve_ok`, for signatures.
pub open spec fn sig_curve_ok(o: Option<pb::Signature>) -> bool {
    o matches Some(s) ==> s.curve >= 0
}

/// Decoding an encoded signed delegated batch yields exactly the batch's
/// encoding and the signature that were encoded.
pub proof fn lemma_signed_delegate_round_trip(m: pb::SignedDelegateAction)
    requires
        sig_curve_ok(m.signature),
    ensures
        dec_signed_delegate_action(crate::encode::spec_enc_signed_delegate_action(m)) == Some(
            (
                match m.delegate_action {
                    Option::Some(d) => Option::Some(crate::encode::spec_enc_delegate_action(d)),
                    Option::None => Option::None::<Seq<u8>>,
                },
                match m.signature {
                    Option::Some(sg) => Option::Some((sg.curve as nat, sg.bytes@)),
                    Option::None => Option::None::<(nat, Seq<u8>)>,
                },
            ),
        ),
{
    let ed = |d: pb::DelegateAction| crate::encode::spec_enc_delegate_action(d);
    let es = |sg: pb::Signature| spec_enc_signature(sg);
    let t2 = crate::encode::spec_field_opt(2, m.signature, es);
    lemma_dec_field_msg(2, m.signature, es, Seq::empty());
    assert(crate::encode::spec_field_opt(2, m.signature, es) + Seq::<u8>::empty() =~= t2);
    lemma_chain_opt(2, m.signature, es, Seq::empty(), 1);
    lemma_dec_field_msg(1, m.delegate_action, ed, t2);
    assert(crate::encode::spec_enc_signed_delegate_action(m) =~= crate::encode::spec_field_opt(
        1,
        m.delegate_action,
        ed,
    ) + t2);
    match m.signature {
        Option::Some(sg) => {
            lemma_signature_round_trip(sg);
        },
        Option::None => {},
    }
}

/// Decoding an encoded action-error-kind union yields exactly the
/// alternative that was populated, at its own number, with the exact
/// encoding of its payload.
pub proof fn lemma_action_error_kind_round_trip(m: pb::ActionErrorKind)
    ensures
        dec_oneof_frame(crate::encode::spec_enc_action_error_kind(m)) matches Some((alt, _p))
            ==> alt == crate::taxonomy::wire_kind_tag(m),
        m.kind is Some ==> dec_oneof_frame(crate::encode::spec_enc_action_error_kind(m))
            is Some,
        m.kind is None ==> dec_oneof_frame(crate::encode::spec_enc_action_error_kind(m))
            is None,
{
    match m.kind {
        Option::None => {},
        Option::Some(k) => {
            let enc = crate::encode::spec_enc_action_error_kind(m);
            let alt = crate::taxonomy::wire_kind_tag(m) as nat;
            assert(dec_oneof_frame(enc) matches Some((a, _p)) && a == alt) by {
                match k {
                    pb::action_error_kind::Kind::AccountAlreadyExist(p) => {
                        lemma_dec_oneof_frame(1, spec_field_bytes(1, p.account_id@));
                    },
                    pb::action_error_kind::Kind::AccountDoesNotExist(p) => {
                        lemma_dec_oneof_frame(2, spec_field_bytes(1, p.account_id@));
                    },
                    pb::action_error_kind::Kind::CreateAccountOnlyByRegistrar(p) => {
                        lemma_dec_oneof_frame(
                            3,
                            spec_field_bytes(1, p.account_id@) + spec_field_bytes(
                                2,
                                p.registrar_account_id@,
                            ) + spec_field_bytes(3, p.predecessor_id@),
                        );
                    },
                    pb::action_error_kind::Kind::CreateAccountNotAllowed(p) => {
                        lemma_dec_oneof_frame(
                            4,
                            spec_field_bytes(1, p.account_id@) + spec_field_bytes(
                                2,
                                p.predecessor_id@,
                            ),
                        );
                    },
                    pb::action_error_kind::Kind::ActorNoPermission(p) => {
                        lemma_dec_oneof_frame(
                            5,
                            spec_field_bytes(1, p.account_id@) + spec_field_bytes(2, p.actor_id@),
                        );
                    },
                    pb::action_error_kind::Kind::DeleteKeyDoesNotExist(p) => {
                        lemma_dec_oneof_frame(
                            6,
                            spec_field_bytes(1, p.account_id@) + crate::encode::spec_field_opt(
                                2,
                                p.public_key,
                                |x: pb::PublicKey| spec_enc_public_key(x),
                            ),
                        );
                    },
                    pb::action_error_kind::Kind::AddKeyAlreadyExists(p) => {
                        lemma_dec_oneof_frame(
                            7,
                            spec_field_bytes(1, p.account_id@) + crate::encode::spec_field_opt(
                                2,
                                p.public_key,
                                |x: pb::PublicKey| spec_enc_public_key(x),
                            ),
                        );
                    },
                    pb::action_error_kind::Kind::DeleteAccountStaking(p) => {
                        lemma_dec_oneof_frame(8, spec_field_bytes(1, p.account_id@));
                    },
                    pb::action_error_kind::Kind::LackBalanceForState(p) => {
                        lemma_dec_oneof_frame(
                            9,
                            spec_field_bytes(1, p.account_id@) + crate::encode::spec_field_opt(
                                2,
                                p.balance,
                                |x: pb::BigInt| spec_enc_big_int(x),
                            ),
                        );
                    },
                    pb::action_error_kind::Kind::TriesToUnstake(p) => {
                        lemma_dec_oneof_frame(10, spec_field_bytes(1, p.account_id@));
                    },
                    pb::action_error_kind::Kind::TriesToStake(p) => {
                        lemma_dec_oneof_frame(
                            11,
                            spec_field_bytes(1, p.account_id@) + crate::encode::spec_field_opt(
                                2,
                                p.stake,
                                |x: pb::BigInt| spec_enc_big_int(x),
                            ) + crate::encode::spec_field_opt(
                                3,
                                p.locked,
                                |x: pb::BigInt| spec_enc_big_int(x),
                            ) + crate::encode::spec_field_opt(
                                4,
                                p.balance,
                                |x: pb::BigInt| spec_enc_big_int(x),
                            ),
                        );
                    },
                    pb::action_error_kind::Kind::InsufficientStake(p) => {
                        lemma_dec_oneof_frame(
                            12,
                            spec_field_bytes(1, p.account_id@) + crate::encode::spec_field_opt(
                                2,
                                p.stake,
                                |x: pb::BigInt| spec_enc_big_int(x),
                            ) + crate::encode::spec_field_opt(
                                3,
                                p.minimum_stake,
                                |x: pb::BigInt| spec_enc_big_int(x),
                            ),
                        );
                    },
                    pb::action_error_kind::Kind::FunctionCall(p) => {
                        lemma_dec_oneof_frame(13, spec_field_enum(1, p.error));
                    },
                    pb::action_error_kind::Kind::NewReceiptValidation(p) => {
                        lemma_dec_oneof_frame(14, spec_field_enum(1, p.error));
                    },
                    pb::action_error_kind::Kind::OnlyImplicitAccountCreationAllowed(p) => {
                        lemma_dec_oneof_frame(15, spec_field_bytes(1, p.account_id@));
                    },
                    pb::action_error_kind::Kind::DeleteAccountWithLargeState(p) => {
                        lemma_dec_oneof_frame(16, spec_field_bytes(1, p.account_id@));
                    },
                    pb::action_error_kind::Kind::DelegateActionInvalidSignature(_p) => {
                        lemma_dec_oneof_frame(17, Seq::empty());
                    },
                    pb::action_error_kind::Kind::DelegateActionSenderDoesNotMatchTxReceiver(
                        p,
                    ) => {
                        lemma_dec_oneof_frame(
                            18,
                            spec_field_bytes(1, p.sender_id@) + spec_field_bytes(
                                2,
                                p.receiver_id@,
                            ),
                        );
                    },
                    pb::action_error_kind::Kind::DelegateActionExpired(_p) => {
                        lemma_dec_oneof_frame(19, Seq::empty());
                    },
                    pb::action_error_kind::Kind::DelegateActionAccessKeyError(_p) => {
                        lemma_dec_oneof_frame(20, Seq::empty());
                    },
                    pb::action_error_kind::Kind::DelegateActionInvalidNonce(p) => {
                        lemma_dec_oneof_frame(
                            21,
                            crate::proto::spec_field_u64(1, p.delegate_nonce)
                                + crate::proto::spec_field_u64(2, p.ak_nonce),
                        );
                    },
                    pb::action_error_kind::Kind::DelegateActionNonceTooLarge(p) => {
                        lemma_dec_oneof_frame(
                            22,
                            crate::proto::spec_field_u64(1, p.delegate_nonce)
                                + crate::proto::spec_field_u64(2, p.upper_bound),
                        );
                    },
                }
            }
        },
    }
}

/// Read the top error union back: an action error's raw frame at the
/// first alternative, or the numeric invalid-transaction tag at the
/// second.
pub open spec fn dec_tx_execution_error(s: Seq<u8>) -> Option<(Option<Seq<u8>>, Option<nat>)> {
    if s.len() == 0 {
        Option::None
    } else {
        match spec_read_varint(s) {
            Option::None => Option::None,
            Option::Some((k, s1)) => {
                if k == 1 * 8 + 2 {
                    match spec_read_varint(s1) {
                        Option::None => Option::None,
                        Option::Some((len, s2)) => {
                            if s2.len() == len {
                                Option::Some((Option::Some(s2), Option::None))
                            } else {
                                Option::None
                            }
                        },
                    }
                } else if k == 2 * 8 {
                    match spec_read_varint(s1) {
                        Option::None => Option::None,
                        Option::Some((t, s2)) => {
                            if s2.len() == 0 {
                                Option::Some((Option::None, Option::Some(t)))
                            } else {
                                Option::None
                            }
                        },
                    }
                } else {
                    Option::None
                }
            },
        }
    }
}

/// Decoding an encoded top error union yields exactly the alternative
/// that was chosen: the action error's exact encoding, or the numeric
/// invalid-transaction tag, never both.
pub proof fn lemma_tx_execution_error_round_trip(m: pb::TxExecutionError)
    ensures
        dec_tx_execution_error(crate::encode::spec_enc_tx_execution_error(m)) == (
        match m.error {
            Option::None => Option::None,
            Option::Some(pb::tx_execution_error::Error::ActionError(a)) => Option::Some(
                (
                    Option::Some(crate::encode::spec_enc_action_error(a)),
                    Option::None::<nat>,
                ),
            ),
            Option::Some(pb::tx_execution_error::Error::InvalidTxError(t)) => Option::Some(
                (Option::None::<Seq<u8>>, Option::Some(if t >= 0 {
                    t as nat
                } else {
                    0nat
                })),
            ),
        }),
{
    match m.error {
        Option::None => {},
        Option::Some(pb::tx_execution_error::Error::ActionError(a)) => {
            let payload = crate::encode::spec_enc_action_error(a);
            let s = crate::encode::spec_enc_tx_execution_error(m);
            assert(s =~= spec_varint(1 * 8 + 2) + (spec_varint(payload.len()) + payload));
            lemma_varint_read(1 * 8 + 2, spec_varint(payload.len()) + payload);
            lemma_varint_read(payload.len(), payload);
            let (_k, s1) = spec_read_varint(s)->Some_0;
            let (len, s2) = spec_read_varint(s1)->Some_0;
            assert(s2 =~= payload);
        },
        Option::Some(pb::tx_execution_error::Error::InvalidTxError(t)) => {
            let v: nat = if t >= 0 {
                t as nat
            } else {
                0
            };
            let s = crate::encode::spec_enc_tx_execution_error(m);
            assert(s =~= spec_varint(2 * 8) + spec_varint(v));
            lemma_varint_read(2 * 8, spec_varint(v));
            lemma_varint_read(v, Seq::empty());
            let (_k, s1) = spec_read_varint(s)->Some_0;
            assert(s1 =~= spec_varint(v) + Seq::<u8>::empty());
            assert(s1 == spec_varint(v) + Seq::<u8>::empty());
        },
    }
}

/// Read an action error back: the reported index and the kind's raw
/// frame.
pub open spec fn dec_action_error(s: Seq<u8>) -> Option<(nat, Option<Seq<u8>>)> {
    let (index, s1) = dec_field_varint(1, s);
    let (kind, s2) = dec_field_msg(2, s1);
    if s2.len() == 0 {
        Option::Some((index, kind))
    } else {
        Option::None
    }
}

/// Decoding an encoded action error yields its index and exactly the
/// encoding of its kind.
pub proof fn lemma_action_error_round_trip(m: pb::ActionError)
    ensures
        dec_action_error(crate::encode::spec_enc_action_error(m)) == Some(
            (m.index as nat, match m.kind {
                Option::Some(k) => Option::Some(crate::encode::spec_enc_action_error_kind(k)),
                Option::None => Option::None::<Seq<u8>>,
            }),
        ),
{
    let ekind = |k: pb::ActionErrorKind| crate::encode::spec_enc_action_error_kind(k);
    let t2 = crate::encode::spec_field_opt(2, m.kind, ekind);
    lemma_dec_field_msg(2, m.kind, ekind, Seq::empty());
    assert(crate::encode::spec_field_opt(2, m.kind, ekind) + Seq::<u8>::empty() =~= t2);
    lemma_chain_opt(2, m.kind, ekind, Seq::empty(), 1);
    lemma_dec_field_u64(1, m.index, t2);
    assert(crate::encode::spec_enc_action_error(m) =~= crate::proto::spec_field_u64(1, m.index)
        + t2);
}

/// Decoding an encoded status union yields exactly the alternative that
/// was populated, at its own number, with the exact encoding of its
/// payload.
pub proof fn lemma_execution_status_round_trip(m: pb::ExecutionStatus)
    ensures
        dec_oneof_frame(crate::encode::spec_enc_execution_status(m)) == (match m.status {
            Option::None => Option::None,
            Option::Some(pb::execution_status::Status::Unknown(_u)) => Option::Some(
                (1nat, Seq::<u8>::empty()),
            ),
            Option::Some(pb::execution_status::Status::Failure(f)) => Option::Some(
                (2nat, crate::encode::spec_enc_failure(f)),
            ),
            Option::Some(pb::execution_status::Status::SuccessValue(v)) => Option::Some(
                (3nat, spec_field_bytes(1, v.value@)),
            ),
            Option::Some(pb::execution_status::Status::SuccessReceiptId(sr)) => Option::Some(
                (
                    4nat,
                    crate::encode::spec_field_opt(
                        1,
                        sr.id,
                        |c: pb::CryptoHash| spec_enc_crypto_hash(c),
                    ),
                ),
            ),
        }),
{
    match m.status {
        Option::None => {},
        Option::Some(pb::execution_status::Status::Unknown(_u)) => {
            lemma_dec_oneof_frame(1, Seq::empty());
        },
        Option::Some(pb::execution_status::Status::Failure(f)) => {
            lemma_dec_oneof_frame(2, crate::encode::spec_enc_failure(f));
        },
        Option::Some(pb::execution_status::Status::SuccessValue(v)) => {
            lemma_dec_oneof_frame(3, spec_field_bytes(1, v.value@));
        },
        Option::Some(pb::execution_status::Status::SuccessReceiptId(sr)) => {
            lemma_dec_oneof_frame(
                4,
                crate::encode::spec_field_opt(
                    1,
                    sr.id,
                    |c: pb::CryptoHash| spec_enc_crypto_hash(c),
                ),
            );
        },
    }
}

/// Read a data receiver back: the data identity's raw frame and the
/// receiving account.
pub open spec fn dec_data_receiver(s: Seq<u8>) -> Option<(Option<Seq<u8>>, Seq<u8>)> {
    let (id, s1) = dec_field_msg(1, s);
    let (recv, s2) = dec_field_bytes(2, s1);
    if s2.len() == 0 {
        Option::Some((id, recv))
    } else {
        Option::None
    }
}

/// Decoding an encoded data receiver yields both fields.
pub proof fn lemma_data_receiver_round_trip(m: pb::DataReceiver)
    ensures
        dec_data_receiver(crate::encode::spec_enc_data_receiver(m)) == Some(
            (
                match m.data_id {
                    Option::Some(c) => Option::Some(spec_enc_crypto_hash(c)),
                    Option::None => Option::None::<Seq<u8>>,
                },
                m.receiver_id@,
            ),
        ),
{
    let eh = |c: pb::CryptoHash| spec_enc_crypto_hash(c);
    let t2 = spec_field_bytes(2, m.receiver_id@);
    lemma_dec_field_bytes(2, m.receiver_id@, Seq::empty());
    assert(spec_field_bytes(2, m.receiver_id@) + Seq::<u8>::empty() =~= t2);
    lemma_chain_bytes(2, m.receiver_id@, Seq::empty(), 1);
    lemma_dec_field_msg(1, m.data_id, eh, t2);
    assert(crate::encode::spec_enc_data_receiver(m) =~= crate::encode::spec_field_opt(
        1,
        m.data_id,
        eh,
    ) + t2);
}

/// Decoding an encoded data-delivery body yields both fields; the same
/// shape serves, since its two fields frame like a data receiver's.
pub proof fn lemma_receipt_data_round_trip(m: pb::ReceiptData)
    ensures
        dec_data_receiver(crate::encode::spec_enc_receipt_data(m)) == Some(
            (
                match m.data_id {
                    Option::Some(c) => Option::Some(spec_enc_crypto_hash(c)),
                    Option::None => Option::None::<Seq<u8>>,
                },
                m.data@,
            ),
        ),
{
    let eh = |c: pb::CryptoHash| spec_enc_crypto_hash(c);
    let t2 = spec_field_bytes(2, m.data@);
    lemma_dec_field_bytes(2, m.data@, Seq::empty());
    assert(spec_field_bytes(2, m.data@) + Seq::<u8>::empty() =~= t2);
    lemma_chain_bytes(2, m.data@, Seq::empty(), 1);
    lemma_dec_field_msg(1, m.data_id, eh, t2);
    assert(crate::encode::spec_enc_receipt_data(m) =~= crate::encode::spec_field_opt(
        1,
        m.data_id,
        eh,
    ) + t2);
}

/// Read an action receipt body back: signer, the signing key, the gas
/// price's raw frame, and the three repeated lists as raw frames.
pub open spec fn dec_receipt_action(s: Seq<u8>) -> Option<
    (Seq<u8>, Option<(nat, Seq<u8>)>, Option<Seq<u8>>, Seq<Seq<u8>>, Seq<Seq<u8>>, Seq<Seq<u8>>),
> {
    let (signer, s1) = dec_field_bytes(1, s);
    let (k, s2) = dec_field_msg(2, s1);
    let (gp, s3) = dec_field_msg(3, s2);
    let (receivers, s4) = dec_field_rep(4, s3, s3.len());
    let (ids, s5) = dec_field_rep(5, s4, s4.len());
    let (acts, s6) = dec_field_rep(6, s5, s5.len());
    if s6.len() != 0 {
        Option::None
    } else {
        match k {
            Option::None => Option::Some((signer, Option::None, gp, receivers, ids, acts)),
            Option::Some(pbytes) => match dec_signature(pbytes) {
                Option::None => Option::None,
                Option::Some(kv) => Option::Some(
                    (signer, Option::Some(kv), gp, receivers, ids, acts),
                ),
            },
        }
    }
}

/// Decoding an encoded action receipt body yields every field, the
/// repeated lists element for element, in order.
#[verifier::rlimit(100)]
pub proof fn lemma_receipt_action_round_trip(m: pb::ReceiptAction)
    requires
        key_curve_ok(m.signer_public_key),
    ensures
        dec_receipt_action(crate::encode::spec_enc_receipt_action(m)) == Some(
            (
                m.signer_id@,
                match m.signer_public_key {
                    Option::Some(k) => Option::Some((k.curve as nat, k.bytes@)),
                    Option::None => Option::None::<(nat, Seq<u8>)>,
                },
                match m.gas_price {
                    Option::Some(b) => Option::Some(spec_enc_big_int(b)),
                    Option::None => Option::None::<Seq<u8>>,
                },
                m.output_data_receivers@.map_values(
                    |x: pb::DataReceiver| crate::encode::spec_enc_data_receiver(x),
                ),
                m.input_data_ids@.map_values(
                    |x: pb::CryptoHash| spec_enc_crypto_hash(x),
                ),
                m.actions@.map_values(|x: pb::Action| crate::encode::spec_enc_action(x)),
            ),
        ),
{
    let ek = |k: pb::PublicKey| spec_enc_public_key(k);
    let eb = |b: pb::BigInt| spec_enc_big_int(b);
    let er = |x: pb::DataReceiver| crate::encode::spec_enc_data_receiver(x);
    let eh = |x: pb::CryptoHash| spec_enc_crypto_hash(x);
    let ea = |x: pb::Action| crate::encode::spec_enc_action(x);
    let t6 = crate::proto::spec_rep(6, m.actions@, ea);
    let t5 = crate::proto::spec_rep(5, m.input_data_ids@, eh) + t6;
    let t4 = crate::proto::spec_rep(4, m.output_data_receivers@, er) + t5;
    let t3 = crate::encode::spec_field_opt(3, m.gas_price, eb) + t4;
    let t2 = crate::encode::spec_field_opt(2, m.signer_public_key, ek) + t3;
    lemma_rep_len_gen(6, m.actions@, ea);
    lemma_dec_field_rep(6, m.actions@, ea, Seq::empty(), t6.len());
    assert(crate::proto::spec_rep(6, m.actions@, ea) + Seq::<u8>::empty() =~= t6);
    lemma_chain_rep(6, m.actions@, ea, Seq::empty(), 5);
    lemma_rep_len_gen(5, m.input_data_ids@, eh);
    lemma_dec_field_rep(5, m.input_data_ids@, eh, t6, t5.len());
    lemma_chain_rep(5, m.input_data_ids@, eh, t6, 4);
    lemma_rep_len_gen(4, m.output_data_receivers@, er);
    lemma_dec_field_rep(4, m.output_data_receivers@, er, t5, t4.len());
    lemma_chain_rep(4, m.output_data_receivers@, er, t5, 3);
    lemma_dec_field_msg(3, m.gas_price, eb, t4);
    lemma_chain_opt(3, m.gas_price, eb, t4, 2);
    lemma_dec_field_msg(2, m.signer_public_key, ek, t3);
    lemma_chain_opt(2, m.signer_public_key, ek, t3, 1);
    lemma_dec_field_bytes(1, m.signer_id@, t2);
    assert(crate::encode::spec_enc_receipt_action(m) =~= spec_field_bytes(1, m.signer_id@)
        + t2);
    match m.signer_public_key {
        Option::Some(k) => {
            lemma_public_key_round_trip(k);
        },
        Option::None => {},
    }
}

/// Decoding an encoded receipt-body union yields exactly the alternative
/// that was populated with the exact encoding of its body.
pub proof fn lemma_receipt_enum_round_trip(m: pb::ReceiptEnum)
    ensures
        dec_oneof_frame(crate::encode::spec_enc_receipt_enum(m)) == (match m.receipt {
            Option::None => Option::None,
            Option::Some(pb::receipt_enum::Receipt::Action(a)) => Option::Some(
                (1nat, crate::encode::spec_enc_receipt_action(a)),
            ),
            Option::Some(pb::receipt_enum::Receipt::Data(d)) => Option::Some(
                (2nat, crate::encode::spec_enc_receipt_data(d)),
            ),
        }),
{
    match m.receipt {
        Option::None => {},
        Option::Some(pb::receipt_enum::Receipt::Action(a)) => {
            lemma_dec_oneof_frame(1, crate::encode::spec_enc_receipt_action(a));
        },
        Option::Some(pb::receipt_enum::Receipt::Data(d)) => {
            lemma_dec_oneof_frame(2, crate::encode::spec_enc_receipt_data(d));
        },
    }
}

/// Read a receipt back: both account fields, the identity's raw frame,
/// and the body union's raw frame.
pub open spec fn dec_receipt(s: Seq<u8>) -> Option<
    (Seq<u8>, Seq<u8>, Option<Seq<u8>>, Option<Seq<u8>>),
> {
    let (pred, s1) = dec_field_bytes(1, s);
    let (recv, s2) = dec_field_bytes(2, s1);
    let (id, s3) = dec_field_msg(3, s2);
    let (body, s4) = dec_field_msg(4, s3);
    if s4.len() == 0 {
        Option::Some((pred, recv, id, body))
    } else {
        Option::None
    }
}

/// Decoding an encoded receipt yields every field.
pub proof fn lemma_receipt_round_trip(m: pb::Receipt)
    ensures
        dec_receipt(crate::encode::spec_enc_receipt(m)) == Some(
            (
                m.predecessor_id@,
                m.receiver_id@,
                match m.receipt_id {
                    Option::Some(c) => Option::Some(spec_enc_crypto_hash(c)),
                    Option::None => Option::None::<Seq<u8>>,
                },
                match m.receipt {
                    Option::Some(e) => Option::Some(crate::encode::spec_enc_receipt_enum(e)),
                    Option::None => Option::None::<Seq<u8>>,
                },
            ),
        ),
{
    let eh = |c: pb::CryptoHash| spec_enc_crypto_hash(c);
    let ee = |e: pb::ReceiptEnum| crate::encode::spec_enc_receipt_enum(e);
    let t4 = crate::encode::spec_field_opt(4, m.receipt, ee);
    let t3 = crate::encode::spec_field_opt(3, m.receipt_id, eh) + t4;
    let t2 = spec_field_bytes(2, m.receiver_id@) + t3;
    lemma_dec_field_msg(4, m.receipt, ee, Seq::empty());
    assert(crate::encode::spec_field_opt(4, m.receipt, ee) + Seq::<u8>::empty() =~= t4);
    lemma_chain_opt(4, m.receipt, ee, Seq::empty(), 3);
    lemma_dec_field_msg(3, m.receipt_id, eh, t4);
    lemma_chain_opt(3, m.receipt_id, eh, t4, 2);
    lemma_dec_field_bytes(2, m.receiver_id@, t3);
    lemma_chain_bytes(2, m.receiver_id@, t3, 1);
    lemma_dec_field_bytes(1, m.predecessor_id@, t2);
    assert(crate::encode::spec_enc_receipt(m) =~= spec_field_bytes(1, m.predecessor_id@) + t2);
}

/// Read one proof-path step back: the hash's raw frame and the side.
pub open spec fn dec_merkle_item(s: Seq<u8>) -> Option<(Option<Seq<u8>>, nat)> {
    let (h, s1) = dec_field_msg(1, s);
    let (dir, s2) = dec_field_varint(2, s1);
    if s2.len() == 0 {
        Option::Some((h, dir))
    } else {
        Option::None
    }
}

/// Decoding an encoded proof-path step yields both fields.
pub proof fn lemma_merkle_item_round_trip(m: pb::MerklePathItem)
    requires
        m.direction >= 0,
    ensures
        dec_merkle_item(crate::encode::spec_enc_merkle_item(m)) == Some(
            (
                match m.hash {
                    Option::Some(c) => Option::Some(spec_enc_crypto_hash(c)),
                    Option::None => Option::None::<Seq<u8>>,
                },
                m.direction as nat,
            ),
        ),
{
    let eh = |c: pb::CryptoHash| spec_enc_crypto_hash(c);
    let t2 = spec_field_enum(2, m.direction);
    lemma_dec_field_enum(2, m.direction, Seq::empty());
    assert(spec_field_enum(2, m.direction) + Seq::<u8>::empty() =~= t2);
    lemma_chain_enum(2, m.direction, Seq::empty(), 1);
    lemma_dec_field_msg(1, m.hash, eh, t2);
    assert(crate::encode::spec_enc_merkle_item(m) =~= crate::encode::spec_field_opt(
        1,
        m.hash,
        eh,
    ) + t2);
}

/// Read an inclusion proof back: the steps' raw frames in order.
pub open spec fn dec_merkle_path(s: Seq<u8>) -> Option<Seq<Seq<u8>>> {
    let (steps, s1) = dec_field_rep(1, s, s.len());
    if s1.len() == 0 {
        Option::Some(steps)
    } else {
        Option::None
    }
}

/// Decoding an encoded proof yields every step, in order.
pub proof fn lemma_merkle_path_round_trip(m: pb::MerklePath)
    ensures
        dec_merkle_path(crate::encode::spec_enc_merkle_path(m)) == Some(
            m.path@.map_values(|x: pb::MerklePathItem| crate::encode::spec_enc_merkle_item(x)),
        ),
{
    let ei = |x: pb::MerklePathItem| crate::encode::spec_enc_merkle_item(x);
    lemma_rep_len_gen(1, m.path@, ei);
    lemma_dec_field_rep(1, m.path@, ei, Seq::empty(), crate::encode::spec_enc_merkle_path(
        m,
    ).len());
    assert(crate::proto::spec_rep(1, m.path@, ei) + Seq::<u8>::empty()
        =~= crate::encode::spec_enc_merkle_path(m));
}

/// Read an execution outcome back: logs, receipt identities, burnt gas,
/// the burnt tokens' raw frame, the executor, and the status frame.
pub open spec fn dec_execution_outcome(s: Seq<u8>) -> Option<
    (Seq<Seq<u8>>, Seq<Seq<u8>>, nat, Option<Seq<u8>>, Seq<u8>, Option<Seq<u8>>),
> {
    let (logs, s1) = dec_field_rep(1, s, s.len());
    let (ids, s2) = dec_field_rep(2, s1, s1.len());
    let (gas, s3) = dec_field_varint(3, s2);
    let (tokens, s4) = dec_field_msg(4, s3);
    let (executor, s5) = dec_field_bytes(5, s4);
    let (status, s6) = dec_field_msg(6, s5);
    if s6.len() == 0 {
        Option::Some((logs, ids, gas, tokens, executor, status))
    } else {
        Option::None
    }
}

/// Decoding an encoded execution outcome yields every field, the logs
/// and receipt identities element for element, in order.
#[verifier::rlimit(60)]
pub proof fn lemma_execution_outcome_round_trip(m: pb::ExecutionOutcome)
    ensures
        dec_execution_outcome(crate::encode::spec_enc_execution_outcome(m)) == Some(
            (
                crate::encode::spec_views(m.logs@),
                m.receipt_ids@.map_values(|x: pb::CryptoHash| spec_enc_crypto_hash(x)),
                m.gas_burnt as nat,
                match m.tokens_burnt {
                    Option::Some(b) => Option::Some(spec_enc_big_int(b)),
                    Option::None => Option::None::<Seq<u8>>,
                },
                m.executor_id@,
                match m.status {
                    Option::Some(st) => Option::Some(
                        crate::encode::spec_enc_execution_status(st),
                    ),
                    Option::None => Option::None::<Seq<u8>>,
                },
            ),
        ),
{
    let eh = |x: pb::CryptoHash| spec_enc_crypto_hash(x);
    let eb = |b: pb::BigInt| spec_enc_big_int(b);
    let est = |st: pb::ExecutionStatus| crate::encode::spec_enc_execution_status(st);
    let logs = crate::encode::spec_views(m.logs@);
    let t6 = crate::encode::spec_field_opt(6, m.status, est);
    let t5 = spec_field_bytes(5, m.executor_id@) + t6;
    let t4 = crate::encode::spec_field_opt(4, m.tokens_burnt, eb) + t5;
    let t3 = crate::proto::spec_field_u64(3, m.gas_burnt) + t4;
    let t2 = crate::proto::spec_rep(2, m.receipt_ids@, eh) + t3;
    lemma_dec_field_msg(6, m.status, est, Seq::empty());
    assert(crate::encode::spec_field_opt(6, m.status, est) + Seq::<u8>::empty() =~= t6);
    lemma_chain_opt(6, m.status, est, Seq::empty(), 5);
    lemma_dec_field_bytes(5, m.executor_id@, t6);
    lemma_chain_bytes(5, m.executor_id@, t6, 4);
    lemma_dec_field_msg(4, m.tokens_burnt, eb, t5);
    lemma_chain_opt(4, m.tokens_burnt, eb, t5, 3);
    lemma_dec_field_u64(3, m.gas_burnt, t4);
    lemma_chain_u64(3, m.gas_burnt, t4, 2);
    lemma_rep_len_gen(2, m.receipt_ids@, eh);
    lemma_dec_field_rep(2, m.receipt_ids@, eh, t3, t2.len());
    lemma_chain_rep(2, m.receipt_ids@, eh, t3, 1);
    lemma_rep_len(1, logs);
    lemma_dec_field_rep_bytes(1, logs, t2, crate::encode::spec_enc_execution_outcome(m).len());
    assert(crate::encode::spec_enc_execution_outcome(m) =~= crate::proto::spec_rep_bytes(
        1,
        logs,
    ) + t2);
}

/// Read an outcome with its identity back: the proof, both hashes and
/// the outcome itself, each as its raw frame.
pub open spec fn dec_outcome_with_id(s: Seq<u8>) -> Option<
    (Option<Seq<u8>>, Option<Seq<u8>>, Option<Seq<u8>>, Option<Seq<u8>>),
> {
    let (proof_bytes, s1) = dec_field_msg(1, s);
    let (bh, s2) = dec_field_msg(2, s1);
    let (id, s3) = dec_field_msg(3, s2);
    let (outcome, s4) = dec_field_msg(4, s3);
    if s4.len() == 0 {
        Option::Some((proof_bytes, bh, id, outcome))
    } else {
        Option::None
    }
}

/// Decoding an encoded outcome-with-identity yields every field.
pub proof fn lemma_outcome_with_id_round_trip(m: pb::ExecutionOutcomeWithIdView)
    ensures
        dec_outcome_with_id(crate::encode::spec_enc_outcome_with_id(m)) == Some(
            (
                match m.proof {
                    Option::Some(p) => Option::Some(crate::encode::spec_enc_merkle_path(p)),
                    Option::None => Option::None::<Seq<u8>>,
                },
                match m.block_hash {
                    Option::Some(c) => Option::Some(spec_enc_crypto_hash(c)),
                    Option::None => Option::None::<Seq<u8>>,
                },
                match m.id {
                    Option::Some(c) => Option::Some(spec_enc_crypto_hash(c)),
                    Option::None => Option::None::<Seq<u8>>,
                },
                match m.outcome {
                    Option::Some(o) => Option::Some(
                        crate::encode::spec_enc_execution_outcome(o),
                    ),
                    Option::None => Option::None::<Seq<u8>>,
                },
            ),
        ),
{
    let ep = |p: pb::MerklePath| crate::encode::spec_enc_merkle_path(p);
    let eh = |c: pb::CryptoHash| spec_enc_crypto_hash(c);
    let eo = |o: pb::ExecutionOutcome| crate::encode::spec_enc_execution_outcome(o);
    let t4 = crate::encode::spec_field_opt(4, m.outcome, eo);
    let t3 = crate::encode::spec_field_opt(3, m.id, eh) + t4;
    let t2 = crate::encode::spec_field_opt(2, m.block_hash, eh) + t3;
    lemma_dec_field_msg(4, m.outcome, eo, Seq::empty());
    assert(crate::encode::spec_field_opt(4, m.outcome, eo) + Seq::<u8>::empty() =~= t4);
    lemma_chain_opt(4, m.outcome, eo, Seq::empty(), 3);
    lemma_dec_field_msg(3, m.id, eh, t4);
    lemma_chain_opt(3, m.id, eh, t4, 2);
    lemma_dec_field_msg(2, m.block_hash, eh, t3);
    lemma_chain_opt(2, m.block_hash, eh, t3, 1);
    lemma_dec_field_msg(1, m.proof, ep, t2);
    assert(crate::encode::spec_enc_outcome_with_id(m) =~= crate::encode::spec_field_opt(
        1,
        m.proof,
        ep,
    ) + t2);
}

/// Concatenation of byte strings associates.
pub proof fn seq_assoc(a: Seq<u8>, b: Seq<u8>, c: Seq<u8>)
    ensures
        (a + b) + c == a + (b + c),
{
    assert((a + b) + c =~= a + (b + c));
}

/// The empty byte string is a right identity of concatenation.
pub proof fn seq_add_empty(a: Seq<u8>)
    ensures
        a + Seq::<u8>::empty() == a,
{
    assert(a + Seq::<u8>::empty() =~= a);
}

/// Read a failed status back: the raw frame of its error.
pub open spec fn dec_failure(s: Seq<u8>) -> Option<Option<Seq<u8>>> {
    let (e, s1) = dec_field_msg(1, s);
    if s1.len() == 0 {
        Option::Some(e)
    } else {
        Option::None
    }
}

/// Decoding an encoded failure yields exactly its error's encoding.
pub proof fn lemma_failure_round_trip(m: pb::FailureExecutionStatus)
    ensures
        dec_failure(crate::encode::spec_enc_failure(m)) == Some(match m.error {
            Option::Some(e) => Option::Some(crate::encode::spec_enc_tx_execution_error(e)),
            Option::None => Option::None::<Seq<u8>>,
        }),
{
    let ee = |e: pb::TxExecutionError| crate::encode::spec_enc_tx_execution_error(e);
    lemma_dec_field_msg(1, m.error, ee, Seq::empty());
    assert(crate::encode::spec_field_opt(1, m.error, ee) + Seq::<u8>::empty()
        =~= crate::encode::spec_enc_failure(m));
}

/// Read a signed transaction back: each field, sub-messages and the
/// actions as raw frames.
pub open spec fn dec_signed_transaction(s: Seq<u8>) -> Option<
    (Seq<u8>, Option<(nat, Seq<u8>)>, nat, Seq<u8>, Seq<Seq<u8>>, Option<(nat, Seq<u8>)>, Option<
        Seq<u8>,
    >),
> {
    let (signer, s1) = dec_field_bytes(1, s);
    let (k, s2) = dec_field_msg(2, s1);
    let (nonce, s3) = dec_field_varint(3, s2);
    let (recv, s4) = dec_field_bytes(4, s3);
    let (acts, s5) = dec_field_rep(5, s4, s4.len());
    let (sg, s6) = dec_field_msg(6, s5);
    let (h, s7) = dec_field_msg(7, s6);
    if s7.len() != 0 {
        Option::None
    } else {
        let kd = match k {
            Option::None => Option::Some(Option::None),
            Option::Some(pbytes) => match dec_signature(pbytes) {
                Option::None => Option::None,
                Option::Some(kv) => Option::Some(Option::Some(kv)),
            },
        };
        let sd = match sg {
            Option::None => Option::Some(Option::None),
            Option::Some(pbytes) => match dec_signature(pbytes) {
                Option::None => Option::None,
                Option::Some(kv) => Option::Some(Option::Some(kv)),
            },
        };
        match (kd, sd) {
            (Option::Some(a), Option::Some(b)) => Option::Some(
                (signer, a, nonce, recv, acts, b, h),
            ),
            _ => Option::None,
        }
    }
}

/// Decoding an encoded signed transaction yields every field, the
/// actions element for element, in order.
#[verifier::rlimit(100)]
pub proof fn lemma_signed_transaction_round_trip(m: pb::SignedTransaction)
    requires
        key_curve_ok(m.public_key),
        sig_curve_ok(m.signature),
    ensures
        dec_signed_transaction(crate::encode::spec_enc_signed_transaction(m)) == Some(
            (
                m.signer_id@,
                match m.public_key {
                    Option::Some(k) => Option::Some((k.curve as nat, k.bytes@)),
                    Option::None => Option::None::<(nat, Seq<u8>)>,
                },
                m.nonce as nat,
                m.receiver_id@,
                m.actions@.map_values(|x: pb::Action| crate::encode::spec_enc_action(x)),
                match m.signature {
                    Option::Some(sg) => Option::Some((sg.curve as nat, sg.bytes@)),
                    Option::None => Option::None::<(nat, Seq<u8>)>,
                },
                match m.hash {
                    Option::Some(c) => Option::Some(spec_enc_crypto_hash(c)),
                    Option::None => Option::None::<Seq<u8>>,
                },
            ),
        ),
{
    let ek = |k: pb::PublicKey| spec_enc_public_key(k);
    let es = |sg: pb::Signature| spec_enc_signature(sg);
    let eh = |c: pb::CryptoHash| spec_enc_crypto_hash(c);
    let ea = |x: pb::Action| crate::encode::spec_enc_action(x);
    let t7 = crate::encode::spec_field_opt(7, m.hash, eh);
    let t6 = crate::encode::spec_field_opt(6, m.signature, es) + t7;
    let t5 = crate::proto::spec_rep(5, m.actions@, ea) + t6;
    let t4 = spec_field_bytes(4, m.receiver_id@) + t5;
    let t3 = crate::proto::spec_field_u64(3, m.nonce) + t4;
    let t2 = crate::encode::spec_field_opt(2, m.public_key, ek) + t3;
    lemma_dec_field_msg(7, m.hash, eh, Seq::empty());
    assert(crate::encode::spec_field_opt(7, m.hash, eh) + Seq::<u8>::empty() =~= t7);
    lemma_chain_opt(7, m.hash, eh, Seq::empty(), 6);
    lemma_dec_field_msg(6, m.signature, es, t7);
    lemma_chain_opt(6, m.signature, es, t7, 5);
    lemma_rep_len_gen(5, m.actions@, ea);
    lemma_dec_field_rep(5, m.actions@, ea, t6, t5.len());
    lemma_chain_rep(5, m.actions@, ea, t6, 4);
    lemma_dec_field_bytes(4, m.receiver_id@, t5);
    lemma_chain_bytes(4, m.receiver_id@, t5, 3);
    lemma_dec_field_u64(3, m.nonce, t4);
    lemma_chain_u64(3, m.nonce, t4, 2);
    lemma_dec_field_msg(2, m.public_key, ek, t3);
    lemma_chain_opt(2, m.public_key, ek, t3, 1);
    lemma_dec_field_bytes(1, m.signer_id@, t2);
    let e1 = spec_field_bytes(1, m.signer_id@);
    let e2 = crate::encode::spec_field_opt(2, m.public_key, ek);
    let e3 = crate::proto::spec_field_u64(3, m.nonce);
    let e4 = spec_field_bytes(4, m.receiver_id@);
    let e5 = crate::proto::spec_rep(5, m.actions@, ea);
    let e6 = crate::encode::spec_field_opt(6, m.signature, es);
    let e7 = t7;
    seq_assoc(e1 + e2 + e3 + e4 + e5, e6, e7);
    seq_assoc(e1 + e2 + e3 + e4, e5, e6 + e7);
    seq_assoc(e1 + e2 + e3, e4, e5 + (e6 + e7));
    seq_assoc(e1 + e2, e3, e4 + (e5 + (e6 + e7)));
    seq_assoc(e1, e2, e3 + (e4 + (e5 + (e6 + e7))));
    assert(crate::encode::spec_enc_signed_transaction(m) == e1 + t2);
    match m.public_key {
        Option::Some(k) => {
            lemma_public_key_round_trip(k);
        },
        Option::None => {},
    }
    match m.signature {
        Option::Some(sg) => {
            lemma_signature_round_trip(sg);
        },
        Option::None => {},
    }
}

/// Read a two-frame pairing back: an outcome's raw frame and a receipt's
/// raw frame. The shape serves the transaction pairing and the receipt
/// pairing alike, whose two fields frame identically.
pub open spec fn dec_outcome_receipt_pair(s: Seq<u8>) -> Option<
    (Option<Seq<u8>>, Option<Seq<u8>>),
> {
    let (a, s1) = dec_field_msg(1, s);
    let (b, s2) = dec_field_msg(2, s1);
    if s2.len() == 0 {
        Option::Some((a, b))
    } else {
        Option::None
    }
}

/// Decoding an encoded outcome-with-optional-receipt yields both frames.
pub proof fn lemma_outcome_opt_receipt_round_trip(
    m: pb::IndexerExecutionOutcomeWithOptionalReceipt,
)
    ensures
        dec_outcome_receipt_pair(crate::encode::spec_enc_outcome_opt_receipt(m)) == Some(
            (
                match m.execution_outcome {
                    Option::Some(o) => Option::Some(crate::encode::spec_enc_outcome_with_id(o)),
                    Option::None => Option::None::<Seq<u8>>,
                },
                match m.receipt {
                    Option::Some(r) => Option::Some(crate::encode::spec_enc_receipt(r)),
                    Option::None => Option::None::<Seq<u8>>,
                },
            ),
        ),
{
    let eo = |o: pb::ExecutionOutcomeWithIdView| crate::encode::spec_enc_outcome_with_id(o);
    let er = |r: pb::Receipt| crate::encode::spec_enc_receipt(r);
    let t2 = crate::encode::spec_field_opt(2, m.receipt, er);
    lemma_dec_field_msg(2, m.receipt, er, Seq::empty());
    assert(crate::encode::spec_field_opt(2, m.receipt, er) + Seq::<u8>::empty() =~= t2);
    lemma_chain_opt(2, m.receipt, er, Seq::empty(), 1);
    lemma_dec_field_msg(1, m.execution_outcome, eo, t2);
    assert(crate::encode::spec_enc_outcome_opt_receipt(m) =~= crate::encode::spec_field_opt(
        1,
        m.execution_outcome,
        eo,
    ) + t2);
}

/// Decoding an encoded outcome-with-receipt yields both frames.
pub proof fn lemma_outcome_with_receipt_round_trip(m: pb::IndexerExecutionOutcomeWithReceipt)
    ensures
        dec_outcome_receipt_pair(crate::encode::spec_enc_outcome_with_receipt(m)) == Some(
            (
                match m.execution_outcome {
                    Option::Some(o) => Option::Some(crate::encode::spec_enc_outcome_with_id(o)),
                    Option::None => Option::None::<Seq<u8>>,
                },
                match m.receipt {
                    Option::Some(r) => Option::Some(crate::encode::spec_enc_receipt(r)),
                    Option::None => Option::None::<Seq<u8>>,
                },
            ),
        ),
{
    let eo = |o: pb::ExecutionOutcomeWithIdView| crate::encode::spec_enc_outcome_with_id(o);
    let er = |r: pb::Receipt| crate::encode::spec_enc_receipt(r);
    let t2 = crate::encode::spec_field_opt(2, m.receipt, er);
    lemma_dec_field_msg(2, m.receipt, er, Seq::empty());
    assert(crate::encode::spec_field_opt(2, m.receipt, er) + Seq::<u8>::empty() =~= t2);
    lemma_chain_opt(2, m.receipt, er, Seq::empty(), 1);
    lemma_dec_field_msg(1, m.execution_outcome, eo, t2);
    assert(crate::encode::spec_enc_outcome_with_receipt(m) =~= crate::encode::spec_field_opt(
        1,
        m.execution_outcome,
        eo,
    ) + t2);
}

/// Decoding an encoded transaction pairing yields both frames.
pub proof fn lemma_tx_with_outcome_round_trip(m: pb::IndexerTransactionWithOutcome)
    ensures
        dec_outcome_receipt_pair(crate::encode::spec_enc_tx_with_outcome(m)) == Some(
            (
                match m.transaction {
                    Option::Some(t) => Option::Some(
                        crate::encode::spec_enc_signed_transaction(t),
                    ),
                    Option::None => Option::None::<Seq<u8>>,
                },
                match m.outcome {
                    Option::Some(o) => Option::Some(crate::encode::spec_enc_outcome_opt_receipt(o)),
                    Option::None => Option::None::<Seq<u8>>,
                },
            ),
        ),
{
    let et = |t: pb::SignedTransaction| crate::encode::spec_enc_signed_transaction(t);
    let eo = |o: pb::IndexerExecutionOutcomeWithOptionalReceipt|
        crate::encode::spec_enc_outcome_opt_receipt(o);
    let t2 = crate::encode::spec_field_opt(2, m.outcome, eo);
    lemma_dec_field_msg(2, m.outcome, eo, Seq::empty());
    assert(crate::encode::spec_field_opt(2, m.outcome, eo) + Seq::<u8>::empty() =~= t2);
    lemma_chain_opt(2, m.outcome, eo, Seq::empty(), 1);
    lemma_dec_field_msg(1, m.transaction, et, t2);
    assert(crate::encode::spec_enc_tx_with_outcome(m) =~= crate::encode::spec_field_opt(
        1,
        m.transaction,
        et,
    ) + t2);
}

/// Read a validator stake back: the account, the key, and the stake's
/// raw frame.
pub open spec fn dec_validator_stake(s: Seq<u8>) -> Option<
    (Seq<u8>, Option<(nat, Seq<u8>)>, Option<Seq<u8>>),
> {
    let (acct, s1) = dec_field_bytes(1, s);
    let (k, s2) = dec_field_msg(2, s1);
    let (st, s3) = dec_field_msg(3, s2);
    if s3.len() != 0 {
        Option::None
    } else {
        match k {
            Option::None => Option::Some((acct, Option::None, st)),
            Option::Some(pbytes) => match dec_signature(pbytes) {
                Option::None => Option::None,
                Option::Some(kv) => Option::Some((acct, Option::Some(kv), st)),
            },
        }
    }
}

/// Decoding an encoded validator stake yields every field.
pub proof fn lemma_validator_stake_round_trip(m: pb::ValidatorStake)
    requires
        key_curve_ok(m.public_key),
    ensures
        dec_validator_stake(crate::encode::spec_enc_validator_stake(m)) == Some(
            (
                m.account_id@,
                match m.public_key {
                    Option::Some(k) => Option::Some((k.curve as nat, k.bytes@)),
                    Option::None => Option::None::<(nat, Seq<u8>)>,
                },
                match m.stake {
                    Option::Some(b) => Option::Some(spec_enc_big_int(b)),
                    Option::None => Option::None::<Seq<u8>>,
                },
            ),
        ),
{
    let ek = |k: pb::PublicKey| spec_enc_public_key(k);
    let eb = |b: pb::BigInt| spec_enc_big_int(b);
    let t3 = crate::encode::spec_field_opt(3, m.stake, eb);
    let t2 = crate::encode::spec_field_opt(2, m.public_key, ek) + t3;
    lemma_dec_field_msg(3, m.stake, eb, Seq::empty());
    assert(crate::encode::spec_field_opt(3, m.stake, eb) + Seq::<u8>::empty() =~= t3);
    lemma_chain_opt(3, m.stake, eb, Seq::empty(), 2);
    lemma_dec_field_msg(2, m.public_key, ek, t3);
    lemma_chain_opt(2, m.public_key, ek, t3, 1);
    lemma_dec_field_bytes(1, m.account_id@, t2);
    assert(crate::encode::spec_enc_validator_stake(m) =~= spec_field_bytes(1, m.account_id@)
        + t2);
    match m.public_key {
        Option::Some(k) => {
            lemma_public_key_round_trip(k);
        },
        Option::None => {},
    }
}

/// Read a slashed validator back: the account and the double-sign flag.
pub open spec fn dec_slashed_validator(s: Seq<u8>) -> Option<(Seq<u8>, nat)> {
    let (acct, s1) = dec_field_bytes(1, s);
    let (flag, s2) = dec_field_varint(2, s1);
    if s2.len() == 0 {
        Option::Some((acct, flag))
    } else {
        Option::None
    }
}

/// Decoding an encoded slashed validator yields both fields; the flag
/// reads back as one where it was set and zero where not.
pub proof fn lemma_slashed_validator_round_trip(m: pb::SlashedValidator)
    ensures
        dec_slashed_validator(crate::encode::spec_enc_slashed_validator(m)) == Some(
            (m.account_id@, if m.is_double_sign {
                1nat
            } else {
                0nat
            }),
        ),
{
    let t2 = crate::proto::spec_field_bool(2, m.is_double_sign);
    if m.is_double_sign {
        assert(t2 =~= spec_key(2, 0) + spec_varint(1));
        lemma_dec_field_varint(2, 1, Seq::empty());
        assert((spec_key(2, 0) + spec_varint(1nat)) + Seq::<u8>::empty() =~= t2);
        lemma_chain_u64(2, 1u64, Seq::empty(), 1);
        assert(crate::proto::spec_field_u64(2, 1u64) + Seq::<u8>::empty() =~= t2);
    } else {
        assert(t2 =~= Seq::<u8>::empty());
        lemma_dec_field_varint(2, 0, Seq::empty());
        assert(Seq::<u8>::empty() + Seq::<u8>::empty() =~= t2);
    }
    lemma_dec_field_bytes(1, m.account_id@, t2);
    assert(crate::encode::spec_enc_slashed_validator(m) =~= spec_field_bytes(
        1,
        m.account_id@,
    ) + t2);
}

/// Read a chunk back: the author, the header's raw frame, and the two
/// repeated lists as raw frames.
pub open spec fn dec_chunk(s: Seq<u8>) -> Option<
    (Seq<u8>, Option<Seq<u8>>, Seq<Seq<u8>>, Seq<Seq<u8>>),
> {
    let (author, s1) = dec_field_bytes(1, s);
    let (header, s2) = dec_field_msg(2, s1);
    let (txs, s3) = dec_field_rep(3, s2, s2.len());
    let (receipts, s4) = dec_field_rep(4, s3, s3.len());
    if s4.len() == 0 {
        Option::Some((author, header, txs, receipts))
    } else {
        Option::None
    }
}

/// Decoding an encoded chunk yields every field, the transactions and
/// receipts element for element, in order.
#[verifier::rlimit(60)]
pub proof fn lemma_chunk_round_trip(m: pb::IndexerChunk)
    ensures
        dec_chunk(crate::encode::spec_enc_chunk(m)) == Some(
            (
                m.author@,
                match m.header {
                    Option::Some(h) => Option::Some(crate::encode::spec_enc_chunk_header(h)),
                    Option::None => Option::None::<Seq<u8>>,
                },
                m.transactions@.map_values(
                    |x: pb::IndexerTransactionWithOutcome| crate::encode::spec_enc_tx_with_outcome(
                        x,
                    ),
                ),
                m.receipts@.map_values(|x: pb::Receipt| crate::encode::spec_enc_receipt(x)),
            ),
        ),
{
    let eh = |h: pb::ChunkHeader| crate::encode::spec_enc_chunk_header(h);
    let et = |x: pb::IndexerTransactionWithOutcome| crate::encode::spec_enc_tx_with_outcome(x);
    let er = |x: pb::Receipt| crate::encode::spec_enc_receipt(x);
    let t4 = crate::proto::spec_rep(4, m.receipts@, er);
    let t3 = crate::proto::spec_rep(3, m.transactions@, et) + t4;
    let t2 = crate::encode::spec_field_opt(2, m.header, eh) + t3;
    lemma_rep_len_gen(4, m.receipts@, er);
    lemma_dec_field_rep(4, m.receipts@, er, Seq::empty(), t4.len());
    assert(crate::proto::spec_rep(4, m.receipts@, er) + Seq::<u8>::empty() =~= t4);
    lemma_chain_rep(4, m.receipts@, er, Seq::empty(), 3);
    lemma_rep_len_gen(3, m.transactions@, et);
    lemma_dec_field_rep(3, m.transactions@, et, t4, t3.len());
    lemma_chain_rep(3, m.transactions@, et, t4, 2);
    lemma_dec_field_msg(2, m.header, eh, t3);
    lemma_chain_opt(2, m.header, eh, t3, 1);
    lemma_dec_field_bytes(1, m.author@, t2);
    assert(crate::encode::spec_enc_chunk(m) =~= spec_field_bytes(1, m.author@) + t2);
}

/// Read a shard back: its number, the chunk's raw frame, and the outcome
/// pairings as raw frames.
pub open spec fn dec_shard(s: Seq<u8>) -> Option<(nat, Option<Seq<u8>>, Seq<Seq<u8>>)> {
    let (id, s1) = dec_field_varint(1, s);
    let (chunk, s2) = dec_field_msg(2, s1);
    let (outcomes, s3) = dec_field_rep(3, s2, s2.len());
    if s3.len() == 0 {
        Option::Some((id, chunk, outcomes))
    } else {
        Option::None
    }
}

/// Decoding an encoded shard yields every field, the outcome pairings
/// element for element, in order.
pub proof fn lemma_shard_round_trip(m: pb::IndexerShard)
    ensures
        dec_shard(crate::encode::spec_enc_shard(m)) == Some(
            (
                m.shard_id as nat,
                match m.chunk {
                    Option::Some(c) => Option::Some(crate::encode::spec_enc_chunk(c)),
                    Option::None => Option::None::<Seq<u8>>,
                },
                m.receipt_execution_outcomes@.map_values(
                    |x: pb::IndexerExecutionOutcomeWithReceipt|
                        crate::encode::spec_enc_outcome_with_receipt(x),
                ),
            ),
        ),
{
    let ec = |c: pb::IndexerChunk| crate::encode::spec_enc_chunk(c);
    let eo = |x: pb::IndexerExecutionOutcomeWithReceipt|
        crate::encode::spec_enc_outcome_with_receipt(x);
    let t3 = crate::proto::spec_rep(3, m.receipt_execution_outcomes@, eo);
    let t2 = crate::encode::spec_field_opt(2, m.chunk, ec) + t3;
    lemma_rep_len_gen(3, m.receipt_execution_outcomes@, eo);
    lemma_dec_field_rep(3, m.receipt_execution_outcomes@, eo, Seq::empty(), t3.len());
    assert(crate::proto::spec_rep(3, m.receipt_execution_outcomes@, eo) + Seq::<u8>::empty()
        =~= t3);
    lemma_chain_rep(3, m.receipt_execution_outcomes@, eo, Seq::empty(), 2);
    lemma_dec_field_msg(2, m.chunk, ec, t3);
    lemma_chain_opt(2, m.chunk, ec, t3, 1);
    lemma_dec_field_u64(1, m.shard_id, t2);
    assert(crate::encode::spec_enc_shard(m) =~= crate::proto::spec_field_u64(1, m.shard_id)
        + t2);
}

/// Reading a packed boolean field back from its encoding yields one byte
/// per element where the list was not empty, and absence where it was.
pub proof fn lemma_dec_field_packed(field: nat, mask: Seq<bool>, rest: Seq<u8>)
    requires
        next_field_after(rest, field),
    ensures
        dec_field_msg(field, crate::proto::spec_field_packed_bool(field, mask) + rest) == ((
        if mask.len() == 0 {
            Option::None
        } else {
            Option::Some(mask.map_values(|b: bool| if b {
                1u8
            } else {
                0u8
            }))
        }), rest),
{
    if mask.len() == 0 {
        assert(crate::proto::spec_field_packed_bool(field, mask) + rest =~= rest);
        if rest.len() > 0 {
            let (k, _r) = spec_read_varint(rest)->Some_0;
            assert(k / 8 > field);
            assert(k != field * 8 + 2) by {
                if k == field * 8 + 2 {
                    assert(k / 8 == field) by (nonlinear_arith)
                        requires
                            k == field * 8 + 2,
                    ;
                }
            }
        }
    } else {
        let payload = mask.map_values(|b: bool| if b {
            1u8
        } else {
            0u8
        });
        let s = crate::proto::spec_field_packed_bool(field, mask) + rest;
        assert(s =~= spec_varint(field * 8 + 2) + (spec_varint(payload.len()) + (payload
            + rest)));
        lemma_varint_read(field * 8 + 2, spec_varint(payload.len()) + (payload + rest));
        lemma_varint_read(payload.len(), payload + rest);
        let (_k, s1) = spec_read_varint(s)->Some_0;
        let (len, s2) = spec_read_varint(s1)->Some_0;
        assert(len == payload.len());
        assert(s2 == payload + rest);
        assert(s2.take(len as int) =~= payload);
        assert(s2.skip(len as int) =~= rest);
    }
}

/// As the bytes chain lemma, for a packed boolean field.
pub proof fn lemma_chain_packed(field: nat, mask: Seq<bool>, rest: Seq<u8>, before: nat)
    requires
        next_field_after(rest, field),
        before < field,
    ensures
        next_field_after(crate::proto::spec_field_packed_bool(field, mask) + rest, before),
{
    if mask.len() == 0 {
        assert(crate::proto::spec_field_packed_bool(field, mask) + rest =~= rest);
        if rest.len() > 0 {
            let (k, _r) = spec_read_varint(rest)->Some_0;
            assert(k / 8 > field);
        }
    } else {
        let payload = mask.map_values(|b: bool| if b {
            1u8
        } else {
            0u8
        });
        let s = crate::proto::spec_field_packed_bool(field, mask) + rest;
        assert(s =~= spec_varint(field * 8 + 2) + (spec_varint(payload.len()) + (payload
            + rest)));
        lemma_varint_read(field * 8 + 2, spec_varint(payload.len()) + (payload + rest));
        assert((field * 8 + 2) / 8 == field) by (nonlinear_arith);
    }
}

/// As the scalar lemma, for a 32-bit scalar field.
pub proof fn lemma_dec_field_u32(field: nat, v: u32, rest: Seq<u8>)
    requires
        next_field_after(rest, field),
        field >= 1,
    ensures
        dec_field_varint(field, crate::proto::spec_field_u32(field, v) + rest) == (
            v as nat,
            rest,
        ),
{
    lemma_dec_field_varint(field, v as nat, rest);
    if v == 0 {
        assert(crate::proto::spec_field_u32(field, v) + rest =~= Seq::<u8>::empty() + rest);
    } else {
        assert(crate::proto::spec_field_u32(field, v) + rest =~= (spec_key(field, 0)
            + spec_varint(v as nat)) + rest);
    }
}

/// Every field of a chunk header, read back from its encoding;
/// sub-messages stay raw frames.
pub struct DecChunkHeader {
    pub chunk_hash: Seq<u8>,
    pub prev_block_hash: Seq<u8>,
    pub outcome_root: Seq<u8>,
    pub prev_state_root: Seq<u8>,
    pub encoded_merkle_root: Seq<u8>,
    pub encoded_length: nat,
    pub height_created: nat,
    pub height_included: nat,
    pub shard_id: nat,
    pub gas_used: nat,
    pub gas_limit: nat,
    pub validator_reward: Option<Seq<u8>>,
    pub balance_burnt: Option<Seq<u8>>,
    pub outgoing_receipts_root: Seq<u8>,
    pub tx_root: Seq<u8>,
    pub validator_proposals: Seq<Seq<u8>>,
    pub signature: Option<Seq<u8>>,
}

/// Read a chunk header back, field by field.
pub open spec fn dec_chunk_header(s: Seq<u8>) -> Option<DecChunkHeader> {
    let (chunk_hash, s1) = dec_field_bytes(1, s);
    let (prev_block_hash, s2) = dec_field_bytes(2, s1);
    let (outcome_root, s3) = dec_field_bytes(3, s2);
    let (prev_state_root, s4) = dec_field_bytes(4, s3);
    let (encoded_merkle_root, s5) = dec_field_bytes(5, s4);
    let (encoded_length, s6) = dec_field_varint(6, s5);
    let (height_created, s7) = dec_field_varint(7, s6);
    let (height_included, s8) = dec_field_varint(8, s7);
    let (shard_id, s9) = dec_field_varint(9, s8);
    let (gas_used, s10) = dec_field_varint(10, s9);
    let (gas_limit, s11) = dec_field_varint(11, s10);
    let (validator_reward, s12) = dec_field_msg(12, s11);
    let (balance_burnt, s13) = dec_field_msg(13, s12);
    let (outgoing_receipts_root, s14) = dec_field_bytes(14, s13);
    let (tx_root, s15) = dec_field_bytes(15, s14);
    let (validator_proposals, s16) = dec_field_rep(16, s15, s15.len());
    let (signature, s17) = dec_field_msg(17, s16);
    if s17.len() == 0 {
        Option::Some(
            DecChunkHeader {
                chunk_hash,
                prev_block_hash,
                outcome_root,
                prev_state_root,
                encoded_merkle_root,
                encoded_length,
                height_created,
                height_included,
                shard_id,
                gas_used,
                gas_limit,
                validator_reward,
                balance_burnt,
                outgoing_receipts_root,
                tx_root,
                validator_proposals,
                signature,
            },
        )
    } else {
        Option::None
    }
}

/// Decoding an encoded chunk header yields every field that was encoded.
#[verifier::rlimit(100)]
pub proof fn lemma_chunk_header_round_trip(m: pb::ChunkHeader)
    ensures
        dec_chunk_header(crate::encode::spec_enc_chunk_header(m)) matches Some(d) && {
            &&& d.chunk_hash == m.chunk_hash@
            &&& d.prev_block_hash == m.prev_block_hash@
            &&& d.outcome_root == m.outcome_root@
            &&& d.prev_state_root == m.prev_state_root@
            &&& d.encoded_merkle_root == m.encoded_merkle_root@
            &&& d.encoded_length == m.encoded_length as nat
            &&& d.height_created == m.height_created as nat
            &&& d.height_included == m.height_included as nat
            &&& d.shard_id == m.shard_id as nat
            &&& d.gas_used == m.gas_used as nat
            &&& d.gas_limit == m.gas_limit as nat
            &&& d.validator_reward == (match m.validator_reward {
                Option::Some(b) => Option::Some(spec_enc_big_int(b)),
                Option::None => Option::None::<Seq<u8>>,
            })
            &&& d.balance_burnt == (match m.balance_burnt {
                Option::Some(b) => Option::Some(spec_enc_big_int(b)),
                Option::None => Option::None::<Seq<u8>>,
            })
            &&& d.outgoing_receipts_root == m.outgoing_receipts_root@
            &&& d.tx_root == m.tx_root@
            &&& d.validator_proposals == m.validator_proposals@.map_values(
                |x: pb::ValidatorStake| crate::encode::spec_enc_validator_stake(x),
            )
            &&& d.signature == (match m.signature {
                Option::Some(sg) => Option::Some(spec_enc_signature(sg)),
                Option::None => Option::None::<Seq<u8>>,
            })
        },
{
    let eb = |b: pb::BigInt| spec_enc_big_int(b);
    let ev = |x: pb::ValidatorStake| crate::encode::spec_enc_validator_stake(x);
    let es = |sg: pb::Signature| spec_enc_signature(sg);
    let e1 = spec_field_bytes(1, m.chunk_hash@);
    let e2 = spec_field_bytes(2, m.prev_block_hash@);
    let e3 = spec_field_bytes(3, m.outcome_root@);
    let e4 = spec_field_bytes(4, m.prev_state_root@);
    let e5 = spec_field_bytes(5, m.encoded_merkle_root@);
    let e6 = crate::proto::spec_field_u64(6, m.encoded_length);
    let e7 = crate::proto::spec_field_u64(7, m.height_created);
    let e8 = crate::proto::spec_field_u64(8, m.height_included);
    let e9 = crate::proto::spec_field_u64(9, m.shard_id);
    let e10 = crate::proto::spec_field_u64(10, m.gas_used);
    let e11 = crate::proto::spec_field_u64(11, m.gas_limit);
    let e12 = crate::encode::spec_field_opt(12, m.validator_reward, eb);
    let e13 = crate::encode::spec_field_opt(13, m.balance_burnt, eb);
    let e14 = spec_field_bytes(14, m.outgoing_receipts_root@);
    let e15 = spec_field_bytes(15, m.tx_root@);
    let e16 = crate::proto::spec_rep(16, m.validator_proposals@, ev);
    let e17 = crate::encode::spec_field_opt(17, m.signature, es);
    let t17 = e17;
    let t16 = e16 + t17;
    let t15 = e15 + t16;
    let t14 = e14 + t15;
    let t13 = e13 + t14;
    let t12 = e12 + t13;
    let t11 = e11 + t12;
    let t10 = e10 + t11;
    let t9 = e9 + t10;
    let t8 = e8 + t9;
    let t7 = e7 + t8;
    let t6 = e6 + t7;
    let t5 = e5 + t6;
    let t4 = e4 + t5;
    let t3 = e3 + t4;
    let t2 = e2 + t3;
    lemma_dec_field_msg(17, m.signature, es, Seq::empty());
    assert(e17 + Seq::<u8>::empty() =~= t17);
    lemma_chain_opt(17, m.signature, es, Seq::empty(), 16);
    lemma_rep_len_gen(16, m.validator_proposals@, ev);
    lemma_dec_field_rep(16, m.validator_proposals@, ev, t17, t16.len());
    lemma_chain_rep(16, m.validator_proposals@, ev, t17, 15);
    lemma_dec_field_bytes(15, m.tx_root@, t16);
    lemma_chain_bytes(15, m.tx_root@, t16, 14);
    lemma_dec_field_bytes(14, m.outgoing_receipts_root@, t15);
    lemma_chain_bytes(14, m.outgoing_receipts_root@, t15, 13);
    lemma_dec_field_msg(13, m.balance_burnt, eb, t14);
    lemma_chain_opt(13, m.balance_burnt, eb, t14, 12);
    lemma_dec_field_msg(12, m.validator_reward, eb, t13);
    lemma_chain_opt(12, m.validator_reward, eb, t13, 11);
    lemma_dec_field_u64(11, m.gas_limit, t12);
    lemma_chain_u64(11, m.gas_limit, t12, 10);
    lemma_dec_field_u64(10, m.gas_used, t11);
    lemma_chain_u64(10, m.gas_used, t11, 9);
    lemma_dec_field_u64(9, m.shard_id, t10);
    lemma_chain_u64(9, m.shard_id, t10, 8);
    lemma_dec_field_u64(8, m.height_included, t9);
    lemma_chain_u64(8, m.height_included, t9, 7);
    lemma_dec_field_u64(7, m.height_created, t8);
    lemma_chain_u64(7, m.height_created, t8, 6);
    lemma_dec_field_u64(6, m.encoded_length, t7);
    lemma_chain_u64(6, m.encoded_length, t7, 5);
    lemma_dec_field_bytes(5, m.encoded_merkle_root@, t6);
    lemma_chain_bytes(5, m.encoded_merkle_root@, t6, 4);
    lemma_dec_field_bytes(4, m.prev_state_root@, t5);
    lemma_chain_bytes(4, m.prev_state_root@, t5, 3);
    lemma_dec_field_bytes(3, m.outcome_root@, t4);
    lemma_chain_bytes(3, m.outcome_root@, t4, 2);
    lemma_dec_field_bytes(2, m.prev_block_hash@, t3);
    lemma_chain_bytes(2, m.prev_block_hash@, t3, 1);
    lemma_dec_field_bytes(1, m.chunk_hash@, t2);
    seq_assoc(
        e1 + e2 + e3 + e4 + e5 + e6 + e7 + e8 + e9 + e10 + e11 + e12 + e13 + e14 + e15,
        e16,
        e17,
    );
    seq_assoc(e1 + e2 + e3 + e4 + e5 + e6 + e7 + e8 + e9 + e10 + e11 + e12 + e13 + e14, e15, t16);
    seq_assoc(e1 + e2 + e3 + e4 + e5 + e6 + e7 + e8 + e9 + e10 + e11 + e12 + e13, e14, t15);
    seq_assoc(e1 + e2 + e3 + e4 + e5 + e6 + e7 + e8 + e9 + e10 + e11 + e12, e13, t14);
    seq_assoc(e1 + e2 + e3 + e4 + e5 + e6 + e7 + e8 + e9 + e10 + e11, e12, t13);
    seq_assoc(e1 + e2 + e3 + e4 + e5 + e6 + e7 + e8 + e9 + e10, e11, t12);
    seq_assoc(e1 + e2 + e3 + e4 + e5 + e6 + e7 + e8 + e9, e10, t11);
    seq_assoc(e1 + e2 + e3 + e4 + e5 + e6 + e7 + e8, e9, t10);
    seq_assoc(e1 + e2 + e3 + e4 + e5 + e6 + e7, e8, t9);
    seq_assoc(e1 + e2 + e3 + e4 + e5 + e6, e7, t8);
    seq_assoc(e1 + e2 + e3 + e4 + e5, e6, t7);
    seq_assoc(e1 + e2 + e3 + e4, e5, t6);
    seq_assoc(e1 + e2 + e3, e4, t5);
    seq_assoc(e1 + e2, e3, t4);
    seq_assoc(e1, e2, t3);
    assert(crate::encode::spec_enc_chunk_header(m) == e1 + t2);
}

/// Every field of a block header, read back from its encoding;
/// sub-messages stay raw frames, the chunk mask its packed bytes.
pub struct DecBlockHeader {
    pub height: nat,
    pub prev_height: nat,
    pub epoch_id: Option<Seq<u8>>,
    pub next_epoch_id: Option<Seq<u8>>,
    pub hash: Option<Seq<u8>>,
    pub prev_hash: Option<Seq<u8>>,
    pub prev_state_root: Option<Seq<u8>>,
    pub chunk_receipts_root: Option<Seq<u8>>,
    pub chunk_headers_root: Option<Seq<u8>>,
    pub chunk_tx_root: Option<Seq<u8>>,
    pub outcome_root: Option<Seq<u8>>,
    pub chunks_included: nat,
    pub challenges_root: Option<Seq<u8>>,
    pub timestamp: nat,
    pub timestamp_nanosec: nat,
    pub random_value: Option<Seq<u8>>,
    pub validator_proposals: Seq<Seq<u8>>,
    pub chunk_mask: Option<Seq<u8>>,
    pub gas_price: Option<Seq<u8>>,
    pub block_ordinal: nat,
    pub total_supply: Option<Seq<u8>>,
    pub challenges_result: Seq<Seq<u8>>,
    pub last_final_block_height: nat,
    pub last_final_block: Option<Seq<u8>>,
    pub last_ds_final_block_height: nat,
    pub last_ds_final_block: Option<Seq<u8>>,
    pub next_bp_hash: Option<Seq<u8>>,
    pub block_merkle_root: Option<Seq<u8>>,
    pub epoch_sync_data_hash: Seq<u8>,
    pub approvals: Seq<Seq<u8>>,
    pub signature: Option<Seq<u8>>,
    pub latest_protocol_version: nat,
}

/// Read a block header back, field by field.
pub open spec fn dec_block_header(s: Seq<u8>) -> Option<DecBlockHeader> {
    let (height, s1) = dec_field_varint(1, s);
    let (prev_height, s2) = dec_field_varint(2, s1);
    let (epoch_id, s3) = dec_field_msg(3, s2);
    let (next_epoch_id, s4) = dec_field_msg(4, s3);
    let (hash, s5) = dec_field_msg(5, s4);
    let (prev_hash, s6) = dec_field_msg(6, s5);
    let (prev_state_root, s7) = dec_field_msg(7, s6);
    let (chunk_receipts_root, s8) = dec_field_msg(8, s7);
    let (chunk_headers_root, s9) = dec_field_msg(9, s8);
    let (chunk_tx_root, s10) = dec_field_msg(10, s9);
    let (outcome_root, s11) = dec_field_msg(11, s10);
    let (chunks_included, s12) = dec_field_varint(12, s11);
    let (challenges_root, s13) = dec_field_msg(13, s12);
    let (timestamp, s14) = dec_field_varint(14, s13);
    let (timestamp_nanosec, s15) = dec_field_varint(15, s14);
    let (random_value, s16) = dec_field_msg(16, s15);
    let (validator_proposals, s17) = dec_field_rep(17, s16, s16.len());
    let (chunk_mask, s18) = dec_field_msg(18, s17);
    let (gas_price, s19) = dec_field_msg(19, s18);
    let (block_ordinal, s20) = dec_field_varint(20, s19);
    let (total_supply, s21) = dec_field_msg(21, s20);
    let (challenges_result, s22) = dec_field_rep(22, s21, s21.len());
    let (last_final_block_height, s23) = dec_field_varint(23, s22);
    let (last_final_block, s24) = dec_field_msg(24, s23);
    let (last_ds_final_block_height, s25) = dec_field_varint(25, s24);
    let (last_ds_final_block, s26) = dec_field_msg(26, s25);
    let (next_bp_hash, s27) = dec_field_msg(27, s26);
    let (block_merkle_root, s28) = dec_field_msg(28, s27);
    let (epoch_sync_data_hash, s29) = dec_field_bytes(29, s28);
    let (approvals, s30) = dec_field_rep(30, s29, s29.len());
    let (signature, s31) = dec_field_msg(31, s30);
    let (latest_protocol_version, s32) = dec_field_varint(32, s31);
    if s32.len() == 0 {
        Option::Some(
            DecBlockHeader {
                height,
                prev_height,
                epoch_id,
                next_epoch_id,
                hash,
                prev_hash,
                prev_state_root,
                chunk_receipts_root,
                chunk_headers_root,
                chunk_tx_root,
                outcome_root,
                chunks_included,
                challenges_root,
                timestamp,
                timestamp_nanosec,
                random_value,
                validator_proposals,
                chunk_mask,
                gas_price,
                block_ordinal,
                total_supply,
                challenges_result,
                last_final_block_height,
                last_final_block,
                last_ds_final_block_height,
                last_ds_final_block,
                next_bp_hash,
                block_merkle_root,
                epoch_sync_data_hash,
                approvals,
                signature,
                latest_protocol_version,
            },
        )
    } else {
        Option::None
    }
}

/// The raw frame of an optional sub-message, as it reads back.
pub open spec fn opt_frame<T>(o: Option<T>, e: spec_fn(T) -> Seq<u8>) -> Option<Seq<u8>> {
    match o {
        Option::Some(x) => Option::Some(e(x)),
        Option::None => Option::None,
    }
}

/// Decoding an encoded block header yields every one of its thirty-two
/// fields: the scalars as their values, the hashes, balances and
/// signature as their exact sub-encodings, the three repeated lists
/// element for element in order, and the packed chunk mask byte for
/// byte.
#[verifier::rlimit(100)]
pub proof fn lemma_block_header_round_trip(m: pb::BlockHeader)
    ensures
        dec_block_header(crate::encode::spec_enc_block_header(m)) matches Some(d) && {
            &&& d.height == m.height as nat
            &&& d.prev_height == m.prev_height as nat
            &&& d.epoch_id == opt_frame(m.epoch_id, |c: pb::CryptoHash| spec_enc_crypto_hash(c))
            &&& d.next_epoch_id == opt_frame(
                m.next_epoch_id,
                |c: pb::CryptoHash| spec_enc_crypto_hash(c),
            )
            &&& d.hash == opt_frame(m.hash, |c: pb::CryptoHash| spec_enc_crypto_hash(c))
            &&& d.prev_hash == opt_frame(m.prev_hash, |c: pb::CryptoHash| spec_enc_crypto_hash(c))
            &&& d.prev_state_root == opt_frame(
                m.prev_state_root,
                |c: pb::CryptoHash| spec_enc_crypto_hash(c),
            )
            &&& d.chunk_receipts_root == opt_frame(
                m.chunk_receipts_root,
                |c: pb::CryptoHash| spec_enc_crypto_hash(c),
            )
            &&& d.chunk_headers_root == opt_frame(
                m.chunk_headers_root,
                |c: pb::CryptoHash| spec_enc_crypto_hash(c),
            )
            &&& d.chunk_tx_root == opt_frame(
                m.chunk_tx_root,
                |c: pb::CryptoHash| spec_enc_crypto_hash(c),
            )
            &&& d.outcome_root == opt_frame(
                m.outcome_root,
                |c: pb::CryptoHash| spec_enc_crypto_hash(c),
            )
            &&& d.chunks_included == m.chunks_included as nat
            &&& d.challenges_root == opt_frame(
                m.challenges_root,
                |c: pb::CryptoHash| spec_enc_crypto_hash(c),
            )
            &&& d.timestamp == m.timestamp as nat
            &&& d.timestamp_nanosec == m.timestamp_nanosec as nat
            &&& d.random_value == opt_frame(
                m.random_value,
                |c: pb::CryptoHash| spec_enc_crypto_hash(c),
            )
            &&& d.validator_proposals == m.validator_proposals@.map_values(
                |x: pb::ValidatorStake| crate::encode::spec_enc_validator_stake(x),
            )
            &&& d.chunk_mask == (if m.chunk_mask@.len() == 0 {
                Option::None
            } else {
                Option::Some(m.chunk_mask@.map_values(|b: bool| if b {
                    1u8
                } else {
                    0u8
                }))
            })
            &&& d.gas_price == opt_frame(m.gas_price, |b: pb::BigInt| spec_enc_big_int(b))
            &&& d.block_ordinal == m.block_ordinal as nat
            &&& d.total_supply == opt_frame(m.total_supply, |b: pb::BigInt| spec_enc_big_int(b))
            &&& d.challenges_result == m.challenges_result@.map_values(
                |x: pb::SlashedValidator| crate::encode::spec_enc_slashed_validator(x),
            )
            &&& d.last_final_block_height == m.last_final_block_height as nat
            &&& d.last_final_block == opt_frame(
                m.last_final_block,
                |c: pb::CryptoHash| spec_enc_crypto_hash(c),
            )
            &&& d.last_ds_final_block_height == m.last_ds_final_block_height as nat
            &&& d.last_ds_final_block == opt_frame(
                m.last_ds_final_block,
                |c: pb::CryptoHash| spec_enc_crypto_hash(c),
            )
            &&& d.next_bp_hash == opt_frame(
                m.next_bp_hash,
                |c: pb::CryptoHash| spec_enc_crypto_hash(c),
            )
            &&& d.block_merkle_root == opt_frame(
                m.block_merkle_root,
                |c: pb::CryptoHash| spec_enc_crypto_hash(c),
            )
            &&& d.epoch_sync_data_hash == m.epoch_sync_data_hash@
            &&& d.approvals == m.approvals@.map_values(
                |x: pb::Signature| spec_enc_signature(x),
            )
            &&& d.signature == opt_frame(m.signature, |sg: pb::Signature| spec_enc_signature(sg))
            &&& d.latest_protocol_version == m.latest_protocol_version as nat
        },
{
    let eh = |c: pb::CryptoHash| spec_enc_crypto_hash(c);
    let eb = |b: pb::BigInt| spec_enc_big_int(b);
    let ev = |x: pb::ValidatorStake| crate::encode::spec_enc_validator_stake(x);
    let esl = |x: pb::SlashedValidator| crate::encode::spec_enc_slashed_validator(x);
    let es = |x: pb::Signature| spec_enc_signature(x);
    let e1 = crate::proto::spec_field_u64(1, m.height);
    let e2 = crate::proto::spec_field_u64(2, m.prev_height);
    let e3 = crate::encode::spec_field_opt(3, m.epoch_id, eh);
    let e4 = crate::encode::spec_field_opt(4, m.next_epoch_id, eh);
    let e5 = crate::encode::spec_field_opt(5, m.hash, eh);
    let e6 = crate::encode::spec_field_opt(6, m.prev_hash, eh);
    let e7 = crate::encode::spec_field_opt(7, m.prev_state_root, eh);
    let e8 = crate::encode::spec_field_opt(8, m.chunk_receipts_root, eh);
    let e9 = crate::encode::spec_field_opt(9, m.chunk_headers_root, eh);
    let e10 = crate::encode::spec_field_opt(10, m.chunk_tx_root, eh);
    let e11 = crate::encode::spec_field_opt(11, m.outcome_root, eh);
    let e12 = crate::proto::spec_field_u64(12, m.chunks_included);
    let e13 = crate::encode::spec_field_opt(13, m.challenges_root, eh);
    let e14 = crate::proto::spec_field_u64(14, m.timestamp);
    let e15 = crate::proto::spec_field_u64(15, m.timestamp_nanosec);
    let e16 = crate::encode::spec_field_opt(16, m.random_value, eh);
    let e17 = crate::proto::spec_rep(17, m.validator_proposals@, ev);
    let e18 = crate::proto::spec_field_packed_bool(18, m.chunk_mask@);
    let e19 = crate::encode::spec_field_opt(19, m.gas_price, eb);
    let e20 = crate::proto::spec_field_u64(20, m.block_ordinal);
    let e21 = crate::encode::spec_field_opt(21, m.total_supply, eb);
    let e22 = crate::proto::spec_rep(22, m.challenges_result@, esl);
    let e23 = crate::proto::spec_field_u64(23, m.last_final_block_height);
    let e24 = crate::encode::spec_field_opt(24, m.last_final_block, eh);
    let e25 = crate::proto::spec_field_u64(25, m.last_ds_final_block_height);
    let e26 = crate::encode::spec_field_opt(26, m.last_ds_final_block, eh);
    let e27 = crate::encode::spec_field_opt(27, m.next_bp_hash, eh);
    let e28 = crate::encode::spec_field_opt(28, m.block_merkle_root, eh);
    let e29 = spec_field_bytes(29, m.epoch_sync_data_hash@);
    let e30 = crate::proto::spec_rep(30, m.approvals@, es);
    let e31 = crate::encode::spec_field_opt(31, m.signature, es);
    let e32 = crate::proto::spec_field_u32(32, m.latest_protocol_version);
    let t32 = e32;
    let t31 = e31 + t32;
    let t30 = e30 + t31;
    let t29 = e29 + t30;
    let t28 = e28 + t29;
    let t27 = e27 + t28;
    let t26 = e26 + t27;
    let t25 = e25 + t26;
    let t24 = e24 + t25;
    let t23 = e23 + t24;
    let t22 = e22 + t23;
    let t21 = e21 + t22;
    let t20 = e20 + t21;
    let t19 = e19 + t20;
    let t18 = e18 + t19;
    let t17 = e17 + t18;
    let t16 = e16 + t17;
    let t15 = e15 + t16;
    let t14 = e14 + t15;
    let t13 = e13 + t14;
    let t12 = e12 + t13;
    let t11 = e11 + t12;
    let t10 = e10 + t11;
    let t9 = e9 + t10;
    let t8 = e8 + t9;
    let t7 = e7 + t8;
    let t6 = e6 + t7;
    let t5 = e5 + t6;
    let t4 = e4 + t5;
    let t3 = e3 + t4;
    let t2 = e2 + t3;
    lemma_dec_field_u32(32, m.latest_protocol_version, Seq::empty());
    seq_add_empty(e32);
    lemma_chain_u32(32, m.latest_protocol_version, Seq::empty(), 31);
    lemma_dec_field_msg(31, m.signature, es, t32);
    lemma_chain_opt(31, m.signature, es, t32, 30);
    lemma_rep_len_gen(30, m.approvals@, es);
    lemma_dec_field_rep(30, m.approvals@, es, t31, t30.len());
    lemma_chain_rep(30, m.approvals@, es, t31, 29);
    lemma_dec_field_bytes(29, m.epoch_sync_data_hash@, t30);
    lemma_chain_bytes(29, m.epoch_sync_data_hash@, t30, 28);
    lemma_dec_field_msg(28, m.block_merkle_root, eh, t29);
    lemma_chain_opt(28, m.block_merkle_root, eh, t29, 27);
    lemma_dec_field_msg(27, m.next_bp_hash, eh, t28);
    lemma_chain_opt(27, m.next_bp_hash, eh, t28, 26);
    lemma_dec_field_msg(26, m.last_ds_final_block, eh, t27);
    lemma_chain_opt(26, m.last_ds_final_block, eh, t27, 25);
    lemma_dec_field_u64(25, m.last_ds_final_block_height, t26);
    lemma_chain_u64(25, m.last_ds_final_block_height, t26, 24);
    lemma_dec_field_msg(24, m.last_final_block, eh, t25);
    lemma_chain_opt(24, m.last_final_block, eh, t25, 23);
    lemma_dec_field_u64(23, m.last_final_block_height, t24);
    lemma_chain_u64(23, m.last_final_block_height, t24, 22);
    lemma_rep_len_gen(22, m.challenges_result@, esl);
    lemma_dec_field_rep(22, m.challenges_result@, esl, t23, t22.len());
    lemma_chain_rep(22, m.challenges_result@, esl, t23, 21);
    lemma_dec_field_msg(21, m.total_supply, eb, t22);
    lemma_chain_opt(21, m.total_supply, eb, t22, 20);
    lemma_dec_field_u64(20, m.block_ordinal, t21);
    lemma_chain_u64(20, m.block_ordinal, t21, 19);
    lemma_dec_field_msg(19, m.gas_price, eb, t20);
    lemma_chain_opt(19, m.gas_price, eb, t20, 18);
    lemma_dec_field_packed(18, m.chunk_mask@, t19);
    lemma_chain_packed(18, m.chunk_mask@, t19, 17);
    lemma_rep_len_gen(17, m.validator_proposals@, ev);
    lemma_dec_field_rep(17, m.validator_proposals@, ev, t18, t17.len());
    lemma_chain_rep(17, m.validator_proposals@, ev, t18, 16);
    lemma_dec_field_msg(16, m.random_value, eh, t17);
    lemma_chain_opt(16, m.random_value, eh, t17, 15);
    lemma_dec_field_u64(15, m.timestamp_nanosec, t16);
    lemma_chain_u64(15, m.timestamp_nanosec, t16, 14);
    lemma_dec_field_u64(14, m.timestamp, t15);
    lemma_chain_u64(14, m.timestamp, t15, 13);
    lemma_dec_field_msg(13, m.challenges_root, eh, t14);
    lemma_chain_opt(13, m.challenges_root, eh, t14, 12);
    lemma_dec_field_u64(12, m.chunks_included, t13);
    lemma_chain_u64(12, m.chunks_included, t13, 11);
    lemma_dec_field_msg(11, m.outcome_root, eh, t12);
    lemma_chain_opt(11, m.outcome_root, eh, t12, 10);
    lemma_dec_field_msg(10, m.chunk_tx_root, eh, t11);
    lemma_chain_opt(10, m.chunk_tx_root, eh, t11, 9);
    lemma_dec_field_msg(9, m.chunk_headers_root, eh, t10);
    lemma_chain_opt(9, m.chunk_headers_root, eh, t10, 8);
    lemma_dec_field_msg(8, m.chunk_receipts_root, eh, t9);
    lemma_chain_opt(8, m.chunk_receipts_root, eh, t9, 7);
    lemma_dec_field_msg(7, m.prev_state_root, eh, t8);
    lemma_chain_opt(7, m.prev_state_root, eh, t8, 6);
    lemma_dec_field_msg(6, m.prev_hash, eh, t7);
    lemma_chain_opt(6, m.prev_hash, eh, t7, 5);
    lemma_dec_field_msg(5, m.hash, eh, t6);
    lemma_chain_opt(5, m.hash, eh, t6, 4);
    lemma_dec_field_msg(4, m.next_epoch_id, eh, t5);
    lemma_chain_opt(4, m.next_epoch_id, eh, t5, 3);
    lemma_dec_field_msg(3, m.epoch_id, eh, t4);
    lemma_chain_opt(3, m.epoch_id, eh, t4, 2);
    lemma_dec_field_u64(2, m.prev_height, t3);
    lemma_chain_u64(2, m.prev_height, t3, 1);
    lemma_dec_field_u64(1, m.height, t2);
    seq_assoc(
        e1 + e2 + e3 + e4 + e5 + e6 + e7 + e8 + e9 + e10 + e11 + e12 + e13 + e14 + e15 + e16
            + e17 + e18 + e19 + e20 + e21 + e22 + e23 + e24 + e25 + e26 + e27 + e28 + e29 + e30,
        e31,
        e32,
    );
    seq_assoc(
        e1 + e2 + e3 + e4 + e5 + e6 + e7 + e8 + e9 + e10 + e11 + e12 + e13 + e14 + e15 + e16
            + e17 + e18 + e19 + e20 + e21 + e22 + e23 + e24 + e25 + e26 + e27 + e28 + e29,
        e30,
        t31,
    );
    seq_assoc(
        e1 + e2 + e3 + e4 + e5 + e6 + e7 + e8 + e9 + e10 + e11 + e12 + e13 + e14 + e15 + e16
            + e17 + e18 + e19 + e20 + e21 + e22 + e23 + e24 + e25 + e26 + e27 + e28,
        e29,
        t30,
    );
    seq_assoc(
        e1 + e2 + e3 + e4 + e5 + e6 + e7 + e8 + e9 + e10 + e11 + e12 + e13 + e14 + e15 + e16
            + e17 + e18 + e19 + e20 + e21 + e22 + e23 + e24 + e25 + e26 + e27,
        e28,
        t29,
    );
    seq_assoc(
        e1 + e2 + e3 + e4 + e5 + e6 + e7 + e8 + e9 + e10 + e11 + e12 + e13 + e14 + e15 + e16
            + e17 + e18 + e19 + e20 + e21 + e22 + e23 + e24 + e25 + e26,
        e27,
        t28,
    );
    seq_assoc(
        e1 + e2 + e3 + e4 + e5 + e6 + e7 + e8 + e9 + e10 + e11 + e12 + e13 + e14 + e15 + e16
            + e17 + e18 + e19 + e20 + e21 + e22 + e23 + e24 + e25,
        e26,
        t27,
    );
    seq_assoc(
        e1 + e2 + e3 + e4 + e5 + e6 + e7 + e8 + e9 + e10 + e11 + e12 + e13 + e14 + e15 + e16
            + e17 + e18 + e19 + e20 + e21 + e22 + e23 + e24,
        e25,
        t26,
    );
    seq_assoc(
        e1 + e2 + e3 + e4 + e5 + e6 + e7 + e8 + e9 + e10 + e11 + e12 + e13 + e14 + e15 + e16
            + e17 + e18 + e19 + e20 + e21 + e22 + e23,
        e24,
        t25,
    );
    seq_assoc(
        e1 + e2 + e3 + e4 + e5 + e6 + e7 + e8 + e9 + e10 + e11 + e12 + e13 + e14 + e15 + e16
            + e17 + e18 + e19 + e20 + e21 + e22,
        e23,
        t24,
    );
    seq_assoc(
        e1 + e2 + e3 + e4 + e5 + e6 + e7 + e8 + e9 + e10 + e11 + e12 + e13 + e14 + e15 + e16
            + e17 + e18 + e19 + e20 + e21,
        e22,
        t23,
    );
    seq_assoc(
        e1 + e2 + e3 + e4 + e5 + e6 + e7 + e8 + e9 + e10 + e11 + e12 + e13 + e14 + e15 + e16
            + e17 + e18 + e19 + e20,
        e21,
        t22,
    );
    seq_assoc(
        e1 + e2 + e3 + e4 + e5 + e6 + e7 + e8 + e9 + e10 + e11 + e12 + e13 + e14 + e15 + e16
            + e17 + e18 + e19,
        e20,
        t21,
    );
    seq_assoc(
        e1 + e2 + e3 + e4 + e5 + e6 + e7 + e8 + e9 + e10 + e11 + e12 + e13 + e14 + e15 + e16
            + e17 + e18,
        e19,
        t20,
    );
    seq_assoc(
        e1 + e2 + e3 + e4 + e5 + e6 + e7 + e8 + e9 + e10 + e11 + e12 + e13 + e14 + e15 + e16
            + e17,
        e18,
        t19,
    );
    seq_assoc(
        e1 + e2 + e3 + e4 + e5 + e6 + e7 + e8 + e9 + e10 + e11 + e12 + e13 + e14 + e15 + e16,
        e17,
        t18,
    );
    seq_assoc(
        e1 + e2 + e3 + e4 + e5 + e6 + e7 + e8 + e9 + e10 + e11 + e12 + e13 + e14 + e15,
        e16,
        t17,
    );
    seq_assoc(e1 + e2 + e3 + e4 + e5 + e6 + e7 + e8 + e9 + e10 + e11 + e12 + e13 + e14, e15, t16);
    seq_assoc(e1 + e2 + e3 + e4 + e5 + e6 + e7 + e8 + e9 + e10 + e11 + e12 + e13, e14, t15);
    seq_assoc(e1 + e2 + e3 + e4 + e5 + e6 + e7 + e8 + e9 + e10 + e11 + e12, e13, t14);
    seq_assoc(e1 + e2 + e3 + e4 + e5 + e6 + e7 + e8 + e9 + e10 + e11, e12, t13);
    seq_assoc(e1 + e2 + e3 + e4 + e5 + e6 + e7 + e8 + e9 + e10, e11, t12);
    seq_assoc(e1 + e2 + e3 + e4 + e5 + e6 + e7 + e8 + e9, e10, t11);
    seq_assoc(e1 + e2 + e3 + e4 + e5 + e6 + e7 + e8, e9, t10);
    seq_assoc(e1 + e2 + e3 + e4 + e5 + e6 + e7, e8, t9);
    seq_assoc(e1 + e2 + e3 + e4 + e5 + e6, e7, t8);
    seq_assoc(e1 + e2 + e3 + e4 + e5, e6, t7);
    seq_assoc(e1 + e2 + e3 + e4, e5, t6);
    seq_assoc(e1 + e2 + e3, e4, t5);
    seq_assoc(e1 + e2, e3, t4);
    seq_assoc(e1, e2, t3);
    assert(crate::encode::spec_enc_block_header(m) == e1 + t2);
}

/// As the scalar chain lemma, for a 32-bit scalar field.
pub proof fn lemma_chain_u32(field: nat, v: u32, rest: Seq<u8>, before: nat)
    requires
        next_field_after(rest, field),
        before < field,
    ensures
        next_field_after(crate::proto::spec_field_u32(field, v) + rest, before),
{
    if v == 0 {
        assert(crate::proto::spec_field_u32(field, v) + rest =~= rest);
        if rest.len() > 0 {
            let (k, _r) = spec_read_varint(rest)->Some_0;
            assert(k / 8 > field);
        }
    } else {
        let s = crate::proto::spec_field_u32(field, v) + rest;
        assert(s =~= spec_varint(field * 8) + (spec_varint(v as nat) + rest));
        lemma_varint_read(field * 8, spec_varint(v as nat) + rest);
        assert(field * 8 / 8 == field) by (nonlinear_arith);
    }
}

/// Read a block back: the author, the header's raw frame, and the chunk
/// headers' and shards' raw frames in order.
pub open spec fn dec_block(s: Seq<u8>) -> Option<
    (Seq<u8>, Option<Seq<u8>>, Seq<Seq<u8>>, Seq<Seq<u8>>),
> {
    let (author, s1) = dec_field_bytes(1, s);
    let (header, s2) = dec_field_msg(2, s1);
    let (chunk_headers, s3) = dec_field_rep(3, s2, s2.len());
    let (shards, s4) = dec_field_rep(4, s3, s3.len());
    if s4.len() == 0 {
        Option::Some((author, header, chunk_headers, shards))
    } else {
        Option::None
    }
}

/// Serializing a wire block and reading it back yields the block: the
/// author, the exact encoding of the header, and the exact encodings of
/// every chunk header and every shard, in order — each of which reads
/// back in turn by its own round-trip statement, down to the leaves.
#[verifier::rlimit(100)]
pub proof fn lemma_block_round_trip(m: pb::Block)
    ensures
        dec_block(crate::encode::spec_enc_block(m)) == Some(
            (
                m.author@,
                match m.header {
                    Option::Some(h) => Option::Some(crate::encode::spec_enc_block_header(h)),
                    Option::None => Option::None::<Seq<u8>>,
                },
                m.chunk_headers@.map_values(
                    |x: pb::ChunkHeader| crate::encode::spec_enc_chunk_header(x),
                ),
                m.shards@.map_values(|x: pb::IndexerShard| crate::encode::spec_enc_shard(x)),
            ),
        ),
{
    let eh = |h: pb::BlockHeader| crate::encode::spec_enc_block_header(h);
    let ec = |x: pb::ChunkHeader| crate::encode::spec_enc_chunk_header(x);
    let esh = |x: pb::IndexerShard| crate::encode::spec_enc_shard(x);
    let e1 = spec_field_bytes(1, m.author@);
    let e2 = crate::encode::spec_field_opt(2, m.header, eh);
    let e3 = crate::proto::spec_rep(3, m.chunk_headers@, ec);
    let e4 = crate::proto::spec_rep(4, m.shards@, esh);
    let t4 = e4;
    let t3 = e3 + t4;
    let t2 = e2 + t3;
    lemma_rep_len_gen(4, m.shards@, esh);
    lemma_dec_field_rep(4, m.shards@, esh, Seq::empty(), t4.len());
    seq_add_empty(e4);
    lemma_chain_rep(4, m.shards@, esh, Seq::empty(), 3);
    lemma_rep_len_gen(3, m.chunk_headers@, ec);
    lemma_dec_field_rep(3, m.chunk_headers@, ec, t4, t3.len());
    lemma_chain_rep(3, m.chunk_headers@, ec, t4, 2);
    lemma_dec_field_msg(2, m.header, eh, t3);
    lemma_chain_opt(2, m.header, eh, t3, 1);
    lemma_dec_field_bytes(1, m.author@, t2);
    seq_assoc(e1 + e2, e3, e4);
    seq_assoc(e1, e2, e3 + e4);
    assert(crate::encode::spec_enc_block(m) == e1 + t2);
}

/// Decoding an encoded action yields exactly the alternative that was
/// populated — at its own number in the closed union — together with the
/// exact encoding of its payload, and absence for the empty union. With
/// the payload round trips, serializing an action loses nothing.
pub proof fn lemma_action_round_trip(a: pb::Action)
    ensures
        dec_oneof_frame(crate::encode::spec_enc_action(a)) == (match a.action {
            Option::None => Option::None,
            Option::Some(pb::action::Action::CreateAccount(_p)) => Option::Some(
                (1nat, Seq::<u8>::empty()),
            ),
            Option::Some(pb::action::Action::DeployContract(p)) => Option::Some(
                (2nat, crate::encode::spec_enc_deploy_contract(p)),
            ),
            Option::Some(pb::action::Action::FunctionCall(p)) => Option::Some(
                (3nat, crate::encode::spec_enc_function_call(p)),
            ),
            Option::Some(pb::action::Action::Transfer(p)) => Option::Some(
                (4nat, crate::encode::spec_enc_transfer(p)),
            ),
            Option::Some(pb::action::Action::Stake(p)) => Option::Some(
                (5nat, crate::encode::spec_enc_stake(p)),
            ),
            Option::Some(pb::action::Action::AddKey(p)) => Option::Some(
                (6nat, crate::encode::spec_enc_add_key(p)),
            ),
            Option::Some(pb::action::Action::DeleteKey(p)) => Option::Some(
                (7nat, crate::encode::spec_enc_delete_key(p)),
            ),
            Option::Some(pb::action::Action::DeleteAccount(p)) => Option::Some(
                (8nat, crate::encode::spec_enc_delete_account(p)),
            ),
            Option::Some(pb::action::Action::Delegate(p)) => Option::Some(
                (9nat, crate::encode::spec_enc_signed_delegate_action(p)),
            ),
        }),
{
    match a.action {
        Option::None => {},
        Option::Some(pb::action::Action::CreateAccount(_p)) => {
            lemma_dec_oneof_frame(1, Seq::empty());
        },
        Option::Some(pb::action::Action::DeployContract(p)) => {
            lemma_dec_oneof_frame(2, crate::encode::spec_enc_deploy_contract(p));
        },
        Option::Some(pb::action::Action::FunctionCall(p)) => {
            lemma_dec_oneof_frame(3, crate::encode::spec_enc_function_call(p));
        },
        Option::Some(pb::action::Action::Transfer(p)) => {
            lemma_dec_oneof_frame(4, crate::encode::spec_enc_transfer(p));
        },
        Option::Some(pb::action::Action::Stake(p)) => {
            lemma_dec_oneof_frame(5, crate::encode::spec_enc_stake(p));
        },
        Option::Some(pb::action::Action::AddKey(p)) => {
            lemma_dec_oneof_frame(6, crate::encode::spec_enc_add_key(p));
        },
        Option::Some(pb::action::Action::DeleteKey(p)) => {
            lemma_dec_oneof_frame(7, crate::encode::spec_enc_delete_key(p));
        },
        Option::Some(pb::action::Action::DeleteAccount(p)) => {
            lemma_dec_oneof_frame(8, crate::encode::spec_enc_delete_account(p));
        },
        Option::Some(pb::action::Action::Delegate(p)) => {
            lemma_dec_oneof_frame(9, crate::encode::spec_enc_signed_delegate_action(p));
        },
    }
}

} // verus!
