//! Wire-format primitives: base-128 varints and tagged field framing.
//!
//! Every field of a wire message is framed as a key (field number shifted
//! left by three, plus the wire type) followed by the value. Scalar fields
//! equal to their default are not emitted; fields chosen by a tagged union
//! and present sub-messages are always emitted.

use vstd::prelude::*;

verus! {

/// Base-128 varint bytes of `n`, least significant group first, with the
/// continuation bit set on every byte but the last.
pub open spec fn spec_varint(n: nat) -> Seq<u8>
    decreases n,
{
    if n < 128 {
        seq![n as u8]
    } else {
        seq![(n % 128 + 128) as u8] + spec_varint(n / 128)
    }
}

/// Read one varint from the front of `s`, returning its value and the rest.
pub open spec fn spec_read_varint(s: Seq<u8>) -> Option<(nat, Seq<u8>)>
    decreases s.len(),
{
    if s.len() == 0 {
        None
    } else if s[0] < 128 {
        Some((s[0] as nat, s.drop_first()))
    } else {
        match spec_read_varint(s.drop_first()) {
            None => None,
            Some((v, r)) => Some((((s[0] - 128) as nat + 128 * v) as nat, r)),
        }
    }
}

/// Reading a varint back from its encoding yields the encoded value and
/// leaves exactly the trailing bytes.
pub proof fn lemma_varint_read(n: nat, rest: Seq<u8>)
    ensures
        spec_read_varint(spec_varint(n) + rest) == Some((n, rest)),
    decreases n,
{
    if n < 128 {
        let s = spec_varint(n) + rest;
        assert(s[0] == n as u8);
        assert(s.drop_first() =~= rest);
    } else {
        let s = spec_varint(n) + rest;
        assert(s[0] == (n % 128 + 128) as u8);
        assert(s.drop_first() =~= spec_varint(n / 128) + rest);
        lemma_varint_read(n / 128, rest);
        assert((s[0] - 128) as nat + 128 * (n / 128) == n) by (nonlinear_arith)
            requires
                s[0] == (n % 128 + 128) as u8,
                n >= 128,
        ;
    }
}

/// The key framing a field: the field number shifted by three, plus the
/// wire type (0 for varint scalars, 2 for length-delimited values).
pub open spec fn spec_key(field: nat, wire_type: nat) -> Seq<u8> {
    spec_varint(field * 8 + wire_type)
}

/// A varint scalar field; the default value zero is not emitted.
pub open spec fn spec_field_u64(field: nat, v: u64) -> Seq<u8> {
    if v == 0 {
        Seq::empty()
    } else {
        spec_key(field, 0) + spec_varint(v as nat)
    }
}

/// A 32-bit varint scalar field; the default value zero is not emitted.
pub open spec fn spec_field_u32(field: nat, v: u32) -> Seq<u8> {
    if v == 0 {
        Seq::empty()
    } else {
        spec_key(field, 0) + spec_varint(v as nat)
    }
}

/// A boolean field; false is the default and is not emitted.
pub open spec fn spec_field_bool(field: nat, v: bool) -> Seq<u8> {
    if !v {
        Seq::empty()
    } else {
        spec_key(field, 0) + seq![1u8]
    }
}

/// An enumeration field carried as its numeric tag; tag zero is the
/// default and is not emitted.
pub open spec fn spec_field_enum(field: nat, v: i32) -> Seq<u8> {
    if v <= 0 {
        Seq::empty()
    } else {
        spec_key(field, 0) + spec_varint(v as nat)
    }
}

/// An enumeration alternative chosen by a tagged union: emitted
/// unconditionally, the tag zero included, so that a chosen alternative
/// is never mistaken for an unset union.
pub open spec fn spec_oneof_enum(field: nat, v: i32) -> Seq<u8> {
    spec_key(field, 0) + spec_varint(if v >= 0 {
        v as nat
    } else {
        0
    })
}

/// A length-delimited value, emitted unconditionally: key, byte length,
/// then the payload itself.
pub open spec fn spec_len_delim(field: nat, payload: Seq<u8>) -> Seq<u8> {
    spec_key(field, 2) + spec_varint(payload.len()) + payload
}

/// A bytes field; the empty value is the default and is not emitted.
pub open spec fn spec_field_bytes(field: nat, b: Seq<u8>) -> Seq<u8> {
    if b.len() == 0 {
        Seq::empty()
    } else {
        spec_len_delim(field, b)
    }
}

/// A repeated length-delimited field: one frame per element, in order,
/// each framed by `enc`; every element is emitted, empty payloads included.
pub open spec fn spec_rep<T>(field: nat, s: Seq<T>, enc: spec_fn(T) -> Seq<u8>) -> Seq<u8>
    decreases s.len(),
{
    if s.len() == 0 {
        Seq::empty()
    } else {
        spec_len_delim(field, enc(s[0])) + spec_rep(field, s.drop_first(), enc)
    }
}

/// A repeated bytes field: one frame per element, every element emitted.
pub open spec fn spec_rep_bytes(field: nat, s: Seq<Seq<u8>>) -> Seq<u8>
    decreases s.len(),
{
    if s.len() == 0 {
        Seq::empty()
    } else {
        spec_len_delim(field, s[0]) + spec_rep_bytes(field, s.drop_first())
    }
}

/// A packed repeated boolean field: one byte per element inside a single
/// length-delimited frame; the empty list is not emitted.
pub open spec fn spec_field_packed_bool(field: nat, s: Seq<bool>) -> Seq<u8> {
    if s.len() == 0 {
        Seq::empty()
    } else {
        spec_len_delim(field, s.map_values(|b: bool| if b { 1u8 } else { 0u8 }))
    }
}

/// Appending one element extends a repeated field's encoding by one frame.
pub proof fn lemma_rep_push<T>(field: nat, s: Seq<T>, x: T, enc: spec_fn(T) -> Seq<u8>)
    ensures
        spec_rep(field, s.push(x), enc) == spec_rep(field, s, enc) + spec_len_delim(
            field,
            enc(x),
        ),
    decreases s.len(),
{
    let p = s.push(x);
    assert(p.len() == s.len() + 1);
    if s.len() == 0 {
        assert(p[0] == x);
        assert(p.drop_first() =~= Seq::<T>::empty());
        assert(spec_rep(field, p, enc) == spec_len_delim(field, enc(x)) + spec_rep(
            field,
            Seq::<T>::empty(),
            enc,
        ));
        assert(spec_len_delim(field, enc(x)) + Seq::<u8>::empty() =~= spec_len_delim(
            field,
            enc(x),
        ));
        assert(spec_rep(field, s, enc) + spec_len_delim(field, enc(x)) =~= spec_len_delim(
            field,
            enc(x),
        ));
    } else {
        assert(p.drop_first() =~= s.drop_first().push(x));
        assert(p[0] == s[0]);
        lemma_rep_push(field, s.drop_first(), x, enc);
        assert(spec_rep(field, p, enc) == spec_len_delim(field, enc(s[0])) + (spec_rep(
            field,
            s.drop_first(),
            enc,
        ) + spec_len_delim(field, enc(x))));
        assert(spec_len_delim(field, enc(s[0])) + (spec_rep(field, s.drop_first(), enc)
            + spec_len_delim(field, enc(x))) =~= (spec_len_delim(field, enc(s[0])) + spec_rep(
            field,
            s.drop_first(),
            enc,
        )) + spec_len_delim(field, enc(x)));
    }
}

/// Appending one element extends a repeated bytes field's encoding.
pub proof fn lemma_rep_bytes_push(field: nat, s: Seq<Seq<u8>>, x: Seq<u8>)
    ensures
        spec_rep_bytes(field, s.push(x)) == spec_rep_bytes(field, s) + spec_len_delim(field, x),
    decreases s.len(),
{
    let p = s.push(x);
    assert(p.len() == s.len() + 1);
    if s.len() == 0 {
        assert(p[0] == x);
        assert(p.drop_first() =~= Seq::<Seq<u8>>::empty());
        assert(spec_rep_bytes(field, p) == spec_len_delim(field, x) + spec_rep_bytes(
            field,
            Seq::<Seq<u8>>::empty(),
        ));
        assert(spec_len_delim(field, x) + Seq::<u8>::empty() =~= spec_len_delim(field, x));
        assert(spec_rep_bytes(field, s) + spec_len_delim(field, x) =~= spec_len_delim(field, x));
    } else {
        assert(p.drop_first() =~= s.drop_first().push(x));
        assert(p[0] == s[0]);
        lemma_rep_bytes_push(field, s.drop_first(), x);
        assert(spec_rep_bytes(field, p) == spec_len_delim(field, s[0]) + (spec_rep_bytes(
            field,
            s.drop_first(),
        ) + spec_len_delim(field, x)));
        assert(spec_len_delim(field, s[0]) + (spec_rep_bytes(field, s.drop_first())
            + spec_len_delim(field, x)) =~= (spec_len_delim(field, s[0]) + spec_rep_bytes(
            field,
            s.drop_first(),
        )) + spec_len_delim(field, x));
    }
}

/// Append the varint bytes of `v` to `buf`.
pub fn put_varint(buf: &mut Vec<u8>, v: u64)
    ensures
        final(buf)@ == old(buf)@ + spec_varint(v as nat),
{
    let ghost orig = buf@;
    let ghost v0 = v as nat;
    let mut x = v;
    while x >= 128
        invariant
            orig + spec_varint(v0) == buf@ + spec_varint(x as nat),
        decreases x,
    {
        buf.push((x % 128 + 128) as u8);
        proof {
            assert(spec_varint(x as nat) == seq![(x as nat % 128 + 128) as u8] + spec_varint(
                x as nat / 128,
            ));
            assert((x % 128 + 128) as u8 == (x as nat % 128 + 128) as u8);
            assert((x / 128) as nat == x as nat / 128);
            assert(buf@ + spec_varint((x / 128) as nat) =~= buf@.drop_last() + spec_varint(
                x as nat,
            ));
        }
        x = x / 128;
    }
    buf.push(x as u8);
    proof {
        assert(spec_varint(x as nat) == seq![x as u8]);
        assert(buf@ =~= buf@.drop_last() + spec_varint(x as nat));
    }
}

/// Append the key of `field` with wire type `wire_type`.
pub fn put_key(buf: &mut Vec<u8>, field: u32, wire_type: u32)
    requires
        field >= 1,
        field < 1000,
        wire_type <= 7,
    ensures
        final(buf)@ == old(buf)@ + spec_key(field as nat, wire_type as nat),
{
    put_varint(buf, (field * 8 + wire_type) as u64);
}

/// Append a varint scalar field, eliding the default value zero.
pub fn put_field_u64(buf: &mut Vec<u8>, field: u32, v: u64)
    requires
        field >= 1,
        field < 1000,
    ensures
        final(buf)@ == old(buf)@ + spec_field_u64(field as nat, v),
{
    if v != 0 {
        put_key(buf, field, 0);
        put_varint(buf, v);
        assert(final(buf)@ =~= old(buf)@ + spec_field_u64(field as nat, v));
    } else {
        assert(final(buf)@ =~= old(buf)@ + spec_field_u64(field as nat, v));
    }
}

/// Append a 32-bit varint scalar field, eliding the default value zero.
pub fn put_field_u32(buf: &mut Vec<u8>, field: u32, v: u32)
    requires
        field >= 1,
        field < 1000,
    ensures
        final(buf)@ == old(buf)@ + spec_field_u32(field as nat, v),
{
    if v != 0 {
        put_key(buf, field, 0);
        put_varint(buf, v as u64);
        assert(final(buf)@ =~= old(buf)@ + spec_field_u32(field as nat, v));
    } else {
        assert(final(buf)@ =~= old(buf)@ + spec_field_u32(field as nat, v));
    }
}

/// Append a boolean field, eliding false.
pub fn put_field_bool(buf: &mut Vec<u8>, field: u32, v: bool)
    requires
        field >= 1,
        field < 1000,
    ensures
        final(buf)@ == old(buf)@ + spec_field_bool(field as nat, v),
{
    if v {
        put_key(buf, field, 0);
        buf.push(1u8);
        assert(final(buf)@ =~= old(buf)@ + spec_field_bool(field as nat, v));
    } else {
        assert(final(buf)@ =~= old(buf)@ + spec_field_bool(field as nat, v));
    }
}

/// Append an enumeration field carried as its numeric tag, eliding zero.
pub fn put_field_enum(buf: &mut Vec<u8>, field: u32, v: i32)
    requires
        field >= 1,
        field < 1000,
    ensures
        final(buf)@ == old(buf)@ + spec_field_enum(field as nat, v),
{
    if v > 0 {
        put_key(buf, field, 0);
        put_varint(buf, v as u64);
        assert(final(buf)@ =~= old(buf)@ + spec_field_enum(field as nat, v));
    } else {
        assert(final(buf)@ =~= old(buf)@ + spec_field_enum(field as nat, v));
    }
}

/// Append an enumeration alternative chosen by a tagged union,
/// unconditionally.
pub fn put_oneof_enum(buf: &mut Vec<u8>, field: u32, v: i32)
    requires
        field >= 1,
        field < 1000,
    ensures
        final(buf)@ == old(buf)@ + spec_oneof_enum(field as nat, v),
{
    put_key(buf, field, 0);
    let u: u64 = if v >= 0 {
        v as u64
    } else {
        0
    };
    put_varint(buf, u);
    assert(final(buf)@ =~= old(buf)@ + spec_oneof_enum(field as nat, v));
}

/// Append the bytes of `chunk` as they stand.
pub fn append_bytes(buf: &mut Vec<u8>, chunk: &Vec<u8>)
    ensures
        final(buf)@ == old(buf)@ + chunk@,
{
    let n = chunk.len();
    let mut i: usize = 0;
    while i < n
        invariant
            i <= n,
            n == chunk@.len(),
            buf@ == old(buf)@ + chunk@.subrange(0, i as int),
        decreases n - i,
    {
        buf.push(chunk[i]);
        proof {
            assert(chunk@.subrange(0, i + 1) =~= chunk@.subrange(0, i as int).push(
                chunk@[i as int],
            ));
            assert(buf@ =~= buf@.drop_last() + seq![chunk@[i as int]]);
            assert(buf@.drop_last() + chunk@.subrange(0, i as int).push(chunk@[i as int])
                =~= (buf@.drop_last() + chunk@.subrange(0, i as int)) + seq![chunk@[i as int]]);
        }
        i = i + 1;
    }
    assert(chunk@.subrange(0, n as int) =~= chunk@);
}

/// Append a length-delimited frame holding `payload`, unconditionally.
pub fn put_len_delim(buf: &mut Vec<u8>, field: u32, payload: &Vec<u8>)
    requires
        field >= 1,
        field < 1000,
    ensures
        final(buf)@ == old(buf)@ + spec_len_delim(field as nat, payload@),
{
    put_key(buf, field, 2);
    put_varint(buf, payload.len() as u64);
    let mut i: usize = 0;
    let n = payload.len();
    while i < n
        invariant
            i <= n,
            n == payload@.len(),
            buf@ == old(buf)@ + spec_key(field as nat, 2) + spec_varint(payload@.len())
                + payload@.subrange(0, i as int),
        decreases n - i,
    {
        buf.push(payload[i]);
        proof {
            assert(payload@.subrange(0, i + 1) =~= payload@.subrange(0, i as int).push(
                payload@[i as int],
            ));
            assert(buf@ =~= buf@.drop_last() + seq![payload@[i as int]]);
            assert(buf@.drop_last() + payload@.subrange(0, i as int).push(payload@[i as int])
                =~= (buf@.drop_last() + payload@.subrange(0, i as int)) + seq![
                payload@[i as int],
            ]);
        }
        i = i + 1;
    }
    assert(payload@.subrange(0, n as int) =~= payload@);
    assert(old(buf)@ + spec_key(field as nat, 2) + spec_varint(payload@.len()) + payload@
        =~= old(buf)@ + spec_len_delim(field as nat, payload@));
}

/// Append a bytes field, eliding the empty value.
pub fn put_field_bytes(buf: &mut Vec<u8>, field: u32, b: &Vec<u8>)
    requires
        field >= 1,
        field < 1000,
    ensures
        final(buf)@ == old(buf)@ + spec_field_bytes(field as nat, b@),
{
    if b.len() > 0 {
        put_len_delim(buf, field, b);
    } else {
        assert(final(buf)@ =~= old(buf)@ + spec_field_bytes(field as nat, b@));
    }
}

/// Append a packed repeated boolean field, eliding the empty list.
pub fn put_field_packed_bool(buf: &mut Vec<u8>, field: u32, s: &Vec<bool>)
    requires
        field >= 1,
        field < 1000,
    ensures
        final(buf)@ == old(buf)@ + spec_field_packed_bool(field as nat, s@),
{
    if s.len() == 0 {
        assert(final(buf)@ =~= old(buf)@ + spec_field_packed_bool(field as nat, s@));
        return ;
    }
    let mut payload: Vec<u8> = Vec::new();
    let n = s.len();
    let mut i: usize = 0;
    while i < n
        invariant
            i <= n,
            n == s@.len(),
            payload@ == s@.subrange(0, i as int).map_values(|b: bool| if b { 1u8 } else { 0u8 }),
        decreases n - i,
    {
        if s[i] {
            payload.push(1u8);
        } else {
            payload.push(0u8);
        }
        proof {
            assert(s@.subrange(0, i + 1) =~= s@.subrange(0, i as int).push(s@[i as int]));
            assert(s@.subrange(0, i + 1).map_values(|b: bool| if b { 1u8 } else { 0u8 })
                =~= s@.subrange(0, i as int).map_values(|b: bool| if b { 1u8 } else { 0u8 }).push(
                if s@[i as int] { 1u8 } else { 0u8 },
            ));
        }
        i = i + 1;
    }
    assert(s@.subrange(0, n as int) =~= s@);
    put_len_delim(buf, field, &payload);
}

} // verus!
