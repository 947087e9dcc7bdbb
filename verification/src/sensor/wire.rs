//! Little-endian field reads on a received datagram, through bincode's
//! fixed-width integer decoding.

use vstd::prelude::*;
use vstd::slice::slice_subrange;

verus! {

/// The unsigned integer that `bytes` encode, least significant byte first.
pub open spec fn le_value(bytes: Seq<u8>) -> nat
    decreases bytes.len(),
{
    if bytes.len() == 0 {
        0
    } else {
        bytes[0] as nat + 256 * le_value(bytes.drop_first())
    }
}

/// The little-endian value of the `width` bytes of `bytes` that start at `offset`.
pub open spec fn le_field(bytes: Seq<u8>, offset: int, width: int) -> nat {
    le_value(bytes.subrange(offset, offset + width))
}

/// 256 to the power `width`: one more than the largest value `width` bytes hold.
pub open spec fn pow256(width: nat) -> nat
    decreases width,
{
    if width == 0 {
        1
    } else {
        256 * pow256((width - 1) as nat)
    }
}

/// The `width` bytes that encode `v` little-endian, least significant first
/// (the bytes above `width` are cut off).
pub open spec fn le_encode(v: nat, width: nat) -> Seq<u8>
    decreases width,
{
    if width == 0 {
        Seq::empty()
    } else {
        seq![(v % 256) as u8] + le_encode(v / 256, (width - 1) as nat)
    }
}

/// Reading back a little-endian encoding gives the encoded value, whenever
/// the value fits in the width.
pub proof fn lemma_le_round_trip(v: nat, width: nat)
    requires
        v < pow256(width),
    ensures
        le_encode(v, width).len() == width,
        le_value(le_encode(v, width)) == v,
    decreases width,
{
    if width > 0 {
        let w1 = (width - 1) as nat;
        let p = pow256(w1);
        assert(v / 256 < p) by (nonlinear_arith)
            requires
                v < 256 * p,
        ;
        lemma_le_round_trip(v / 256, w1);
        let e = le_encode(v, width);
        assert(e.drop_first() =~= le_encode(v / 256, w1));
        assert(e[0] == (v % 256) as u8);
        assert(v == v % 256 + 256 * (v / 256));
    }
}

/// Every `u64` fits in 8 bytes and every `u32` in 4.
pub proof fn lemma_widths()
    ensures
        pow256(4) == 0x1_0000_0000,
        pow256(8) == 0x1_0000_0000_0000_0000,
{
    reveal_with_fuel(pow256, 9);
}

/// `bincode::deserialize::<u64>`. bincode's free functions use fixed-width
/// little-endian integers and accept trailing bytes (crate docs, `config`
/// module; `deserialize` in lib.rs): the call succeeds exactly when at least
/// 8 bytes are given, and yields the first 8 read little-endian. The error
/// value is not kept.
#[verifier::external_body]
fn bincode_u64(bytes: &[u8]) -> (res: Option<u64>)
    ensures
        res is Some <==> bytes@.len() >= 8,
        res matches Some(v) ==> v == le_value(bytes@.subrange(0, 8)),
{
    bincode::deserialize::<u64>(bytes).ok()
}

/// `bincode::deserialize::<u32>`: as for `u64`, with 4 bytes.
#[verifier::external_body]
fn bincode_u32(bytes: &[u8]) -> (res: Option<u32>)
    ensures
        res is Some <==> bytes@.len() >= 4,
        res matches Some(v) ==> v == le_value(bytes@.subrange(0, 4)),
{
    bincode::deserialize::<u32>(bytes).ok()
}

/// Reads the 8-byte little-endian field at `offset`.
pub fn read_u64_at(bytes: &[u8], offset: usize) -> (v: u64)
    requires
        offset + 8 <= bytes@.len(),
    ensures
        v == le_field(bytes@, offset as int, 8),
{
    let rest = slice_subrange(bytes, offset, bytes.len());
    assert(rest@.subrange(0, 8) =~= bytes@.subrange(offset as int, offset + 8));
    match bincode_u64(rest) {
        Some(v) => v,
        None => 0,
    }
}

/// Reads the 4-byte little-endian field at `offset`.
pub fn read_u32_at(bytes: &[u8], offset: usize) -> (v: u32)
    requires
        offset + 4 <= bytes@.len(),
    ensures
        v == le_field(bytes@, offset as int, 4),
{
    let rest = slice_subrange(bytes, offset, bytes.len());
    assert(rest@.subrange(0, 4) =~= bytes@.subrange(offset as int, offset + 4));
    match bincode_u32(rest) {
        Some(v) => v,
        None => 0,
    }
}

} // verus!
