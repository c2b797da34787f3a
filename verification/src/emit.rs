//! The line emitter's building blocks: lowercase hex, decimal rendering,
//! and the framed record line holding a block's identity and its
//! hex-encoded wire payload.

use vstd::prelude::*;
use crate::encode::enc_block;
use crate::encode::spec_enc_block;
use crate::pb;
use crate::proto::append_bytes;

verus! {

/// The lowercase hex digit of a nibble.
pub open spec fn spec_hex_digit(n: u8) -> u8
    recommends
        n < 16,
{
    if n < 10 {
        (48 + n) as u8
    } else {
        (87 + n) as u8
    }
}

/// The lowercase hex rendering of a byte string: two digits per byte,
/// high nibble first.
pub open spec fn spec_hex_of(s: Seq<u8>) -> Seq<u8> {
    Seq::new(
        2 * s.len(),
        |i: int|
            if i % 2 == 0 {
                spec_hex_digit(s[i / 2] / 16)
            } else {
                spec_hex_digit(s[i / 2] % 16)
            },
    )
}

/// Relies on hex::encode: each input byte becomes two lowercase hex
/// digits from the table "0123456789abcdef", high nibble first, in input
/// order.
#[verifier::external_body]
fn hex_wrapper(b: &Vec<u8>) -> (r: Vec<u8>)
    ensures
        r@ == spec_hex_of(b@),
{
    hex::encode(b).into_bytes()
}

/// The lowercase hex rendering of a byte string.
pub fn hex_bytes(b: &Vec<u8>) -> (r: Vec<u8>)
    ensures
        r@ == spec_hex_of(b@),
{
    hex_wrapper(b)
}

impl pb::CryptoHash {
    /// The lowercase hex rendering of this hash.
    pub fn to_hex(&self) -> (r: Vec<u8>)
        ensures
            r@ == spec_hex_of(self.bytes@),
    {
        hex_bytes(&self.bytes)
    }
}

/// The decimal rendering of an unsigned value, most significant digit
/// first, with no leading zeroes (zero renders as one digit).
pub open spec fn spec_dec(n: nat) -> Seq<u8>
    decreases n,
{
    if n < 10 {
        seq![(48 + n) as u8]
    } else {
        spec_dec(n / 10).push((48 + n % 10) as u8)
    }
}

/// Render an unsigned value in decimal.
pub fn dec_u64(n: u64) -> (r: Vec<u8>)
    ensures
        r@ == spec_dec(n as nat),
    decreases n,
{
    if n < 10 {
        let mut v: Vec<u8> = Vec::new();
        v.push((48 + n) as u8);
        assert(v@ =~= spec_dec(n as nat));
        v
    } else {
        let mut v = dec_u64(n / 10);
        v.push((48 + (n % 10)) as u8);
        assert((n / 10) as nat == n as nat / 10);
        assert((48 + (n % 10)) as u8 == (48 + n as nat % 10) as u8);
        v
    }
}

/// The record-type tag opening each emitted line, with its trailing
/// separator.
pub open spec fn spec_fire_tag() -> Seq<u8> {
    seq![70u8, 73u8, 82u8, 69u8, 32u8, 66u8, 76u8, 79u8, 67u8, 75u8, 32u8]
}

/// The record-type tag of the summary line format, with its trailing
/// separator.
pub open spec fn spec_dm_tag() -> Seq<u8> {
    seq![68u8, 77u8, 76u8, 79u8, 71u8, 32u8, 66u8, 76u8, 79u8, 67u8, 75u8, 32u8]
}

fn push_fire_tag(buf: &mut Vec<u8>)
    ensures
        final(buf)@ == old(buf)@ + spec_fire_tag(),
{
    buf.push(70u8);
    buf.push(73u8);
    buf.push(82u8);
    buf.push(69u8);
    buf.push(32u8);
    buf.push(66u8);
    buf.push(76u8);
    buf.push(79u8);
    buf.push(67u8);
    buf.push(75u8);
    buf.push(32u8);
    assert(final(buf)@ =~= old(buf)@ + spec_fire_tag());
}

fn push_dm_tag(buf: &mut Vec<u8>)
    ensures
        final(buf)@ == old(buf)@ + spec_dm_tag(),
{
    buf.push(68u8);
    buf.push(77u8);
    buf.push(76u8);
    buf.push(79u8);
    buf.push(71u8);
    buf.push(32u8);
    buf.push(66u8);
    buf.push(76u8);
    buf.push(79u8);
    buf.push(67u8);
    buf.push(75u8);
    buf.push(32u8);
    assert(final(buf)@ =~= old(buf)@ + spec_dm_tag());
}

/// A wire block whose record line can be framed: the header and the
/// hashes the line names are present, and the state-change list is empty.
/// Every block the projection engine produces satisfies this.
pub open spec fn block_line_ready(b: pb::Block) -> bool {
    &&& b.header is Some
    &&& b.header->Some_0.hash is Some
    &&& b.header->Some_0.prev_hash is Some
    &&& b.header->Some_0.last_final_block is Some
    &&& b.state_changes@.len() == 0
}

/// The one newline-terminated record line of a block, in fixed order:
/// record tag, height, block hash, parent height, parent hash, the
/// last-finalized-block hash, timestamp, and the hex of the serialized
/// wire block.
pub open spec fn spec_fire_line(b: pb::Block) -> Seq<u8>
    recommends
        block_line_ready(b),
{
    let h = b.header->Some_0;
    spec_fire_tag() + spec_dec(h.height as nat) + seq![32u8] + spec_hex_of(
        h.hash->Some_0.bytes@,
    ) + seq![32u8] + spec_dec(h.prev_height as nat) + seq![32u8] + spec_hex_of(
        h.prev_hash->Some_0.bytes@,
    ) + seq![32u8] + spec_hex_of(h.last_final_block->Some_0.bytes@) + seq![32u8] + spec_dec(
        h.timestamp as nat,
    ) + seq![32u8] + spec_hex_of(spec_enc_block(b)) + seq![10u8]
}

/// The one newline-terminated summary-format record line of a block:
/// record tag, height, block hash, and the hex of the serialized wire
/// block.
pub open spec fn spec_dm_line(b: pb::Block) -> Seq<u8>
    recommends
        block_line_ready(b),
{
    let h = b.header->Some_0;
    spec_dm_tag() + spec_dec(h.height as nat) + seq![32u8] + spec_hex_of(
        h.hash->Some_0.bytes@,
    ) + seq![32u8] + spec_hex_of(spec_enc_block(b)) + seq![10u8]
}

/// Frame the record line of a wire block.
pub fn fire_line(b: &pb::Block) -> (r: Vec<u8>)
    requires
        block_line_ready(*b),
    ensures
        r@ == spec_fire_line(*b),
{
    let mut buf: Vec<u8> = Vec::new();
    push_fire_tag(&mut buf);
    let header = match &b.header {
        Some(h) => h,
        None => {
            proof {
                assert(false);
            }
            return Vec::new();
        },
    };
    let height = dec_u64(header.height);
    append_bytes(&mut buf, &height);
    buf.push(32u8);
    match &header.hash {
        Some(h) => {
            let hx = hex_bytes(&h.bytes);
            append_bytes(&mut buf, &hx);
        },
        None => {},
    }
    buf.push(32u8);
    let prev_height = dec_u64(header.prev_height);
    append_bytes(&mut buf, &prev_height);
    buf.push(32u8);
    match &header.prev_hash {
        Some(h) => {
            let hx = hex_bytes(&h.bytes);
            append_bytes(&mut buf, &hx);
        },
        None => {},
    }
    buf.push(32u8);
    match &header.last_final_block {
        Some(h) => {
            let hx = hex_bytes(&h.bytes);
            append_bytes(&mut buf, &hx);
        },
        None => {},
    }
    buf.push(32u8);
    let ts = dec_u64(header.timestamp);
    append_bytes(&mut buf, &ts);
    buf.push(32u8);
    let payload = enc_block(b);
    let payload_hex = hex_bytes(&payload);
    append_bytes(&mut buf, &payload_hex);
    buf.push(10u8);
    assert(buf@ =~= spec_fire_line(*b));
    buf
}

/// Frame the summary-format record line of a wire block.
pub fn dm_line(b: &pb::Block) -> (r: Vec<u8>)
    requires
        block_line_ready(*b),
    ensures
        r@ == spec_dm_line(*b),
{
    let mut buf: Vec<u8> = Vec::new();
    push_dm_tag(&mut buf);
    let header = match &b.header {
        Some(h) => h,
        None => {
            proof {
                assert(false);
            }
            return Vec::new();
        },
    };
    let height = dec_u64(header.height);
    append_bytes(&mut buf, &height);
    buf.push(32u8);
    match &header.hash {
        Some(h) => {
            let hx = hex_bytes(&h.bytes);
            append_bytes(&mut buf, &hx);
        },
        None => {},
    }
    buf.push(32u8);
    let payload = enc_block(b);
    let payload_hex = hex_bytes(&payload);
    append_bytes(&mut buf, &payload_hex);
    buf.push(10u8);
    assert(buf@ =~= spec_dm_line(*b));
    buf
}

} // verus!
