//! Barometer packets.

use vstd::prelude::*;
use crate::sensor::wire::{le_encode, le_field, lemma_le_round_trip, lemma_widths, read_u32_at, read_u64_at};

verus! {

/// Barometer packet received at ~50 Hz over UDP port 5003.
///
/// Field order is the order of the little-endian wire layout.
#[derive(Debug, Clone, Copy, PartialEq, Eq, Structural)]
pub struct BaroPacket {
    /// Microseconds since Unix epoch.
    pub timestamp_us: u64,
    /// Absolute static pressure in Pascals, as the bits of an `f32`.
    pub pressure_bits: u32,
    /// Ambient temperature in Celsius, as the bits of an `f32`.
    pub temp_bits: u32,
}

/// Expected on-wire size in bytes.
pub const BARO_WIRE_BYTES: usize = 16;

/// The packet that a datagram holds, or `None` when it is shorter than
/// [`BARO_WIRE_BYTES`]. Bytes past the layout are ignored.
pub open spec fn baro_from_wire(bytes: Seq<u8>) -> Option<BaroPacket> {
    if bytes.len() >= BARO_WIRE_BYTES {
        Some(
            BaroPacket {
                timestamp_us: le_field(bytes, 0, 8) as u64,
                pressure_bits: le_field(bytes, 8, 4) as u32,
                temp_bits: le_field(bytes, 12, 4) as u32,
            },
        )
    } else {
        None
    }
}

/// Decodes a barometer datagram.
pub fn decode_baro(bytes: &[u8]) -> (res: Option<BaroPacket>)
    ensures
        res == baro_from_wire(bytes@),
{
    if bytes.len() < BARO_WIRE_BYTES {
        return None;
    }
    Some(
        BaroPacket {
            timestamp_us: read_u64_at(bytes, 0),
            pressure_bits: read_u32_at(bytes, 8),
            temp_bits: read_u32_at(bytes, 12),
        },
    )
}

/// The datagram that carries `p`: its fields little-endian, in declaration order.
pub open spec fn baro_to_wire(p: BaroPacket) -> Seq<u8> {
    le_encode(p.timestamp_us as nat, 8) + le_encode(p.pressure_bits as nat, 4) + le_encode(
        p.temp_bits as nat,
        4,
    )
}

/// Decoding inverts encoding: a datagram that holds the little-endian fields
/// of any packet, whatever bytes follow them, decodes to that packet; the
/// encoding is [`BARO_WIRE_BYTES`] long.
pub proof fn law_baro_wire_round_trip(p: BaroPacket, trailing: Seq<u8>)
    ensures
        baro_to_wire(p).len() == BARO_WIRE_BYTES,
        baro_from_wire(baro_to_wire(p) + trailing) == Some(p),
{
    lemma_widths();
    lemma_le_round_trip(p.timestamp_us as nat, 8);
    lemma_le_round_trip(p.pressure_bits as nat, 4);
    lemma_le_round_trip(p.temp_bits as nat, 4);
    let b = baro_to_wire(p) + trailing;
    assert(b.subrange(0, 8) =~= le_encode(p.timestamp_us as nat, 8));
    assert(b.subrange(8, 12) =~= le_encode(p.pressure_bits as nat, 4));
    assert(b.subrange(12, 16) =~= le_encode(p.temp_bits as nat, 4));
}

/// Only the first [`BARO_WIRE_BYTES`] bytes of a datagram matter: every
/// datagram at least that long decodes, to what its first bytes decode to,
/// and every shorter one is rejected.
pub proof fn law_baro_reads_a_prefix(bytes: Seq<u8>)
    ensures
        bytes.len() >= BARO_WIRE_BYTES ==> baro_from_wire(bytes) is Some && baro_from_wire(bytes)
            == baro_from_wire(bytes.subrange(0, BARO_WIRE_BYTES as int)),
        bytes.len() < BARO_WIRE_BYTES ==> baro_from_wire(bytes) is None,
{
    if bytes.len() >= BARO_WIRE_BYTES {
        let head = bytes.subrange(0, BARO_WIRE_BYTES as int);
        assert(head.subrange(0, 8) =~= bytes.subrange(0, 8));
        assert(head.subrange(8, 12) =~= bytes.subrange(8, 12));
        assert(head.subrange(12, 16) =~= bytes.subrange(12, 16));
    }
}

} // verus!
