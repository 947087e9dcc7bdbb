//! GPS fix packets.

use vstd::prelude::*;
use crate::sensor::wire::{le_encode, le_field, lemma_le_round_trip, lemma_widths, read_u32_at, read_u64_at};

verus! {

/// GPS fix packet received at ~10 Hz over UDP port 5001.
///
/// Field order is the order of the little-endian wire layout.
#[derive(Debug, Clone, Copy, PartialEq, Eq, Structural)]
pub struct GpsPacket {
    /// Microseconds since Unix epoch.
    pub timestamp_us: u64,
    /// WGS-84 latitude in decimal degrees, as the bits of an `f64`.
    pub latitude_bits: u64,
    /// WGS-84 longitude in decimal degrees, as the bits of an `f64`.
    pub longitude_bits: u64,
    /// Altitude above mean sea level in metres, as the bits of an `f32`.
    pub altitude_bits: u32,
    /// Horizontal dilution of precision (lower = better, < 2.0 is good), as the bits of an `f32`.
    pub hdop_bits: u32,
}

/// Expected on-wire size in bytes, as the simulator's documentation gives it.
pub const GPS_WIRE_BYTES: usize = 28;

/// Bytes that the fields of [`GpsPacket`] occupy on the wire: 8 + 8 + 8 + 4 + 4.
pub const GPS_FIELD_BYTES: usize = 32;

/// The packet that a datagram holds, or `None` when it is too short for the
/// field layout. Bytes past the layout are ignored.
pub open spec fn gps_from_wire(bytes: Seq<u8>) -> Option<GpsPacket> {
    if bytes.len() >= GPS_FIELD_BYTES {
        Some(
            GpsPacket {
                timestamp_us: le_field(bytes, 0, 8) as u64,
                latitude_bits: le_field(bytes, 8, 8) as u64,
                longitude_bits: le_field(bytes, 16, 8) as u64,
                altitude_bits: le_field(bytes, 24, 4) as u32,
                hdop_bits: le_field(bytes, 28, 4) as u32,
            },
        )
    } else {
        None
    }
}

/// Decodes a GPS datagram.
pub fn decode_gps(bytes: &[u8]) -> (res: Option<GpsPacket>)
    ensures
        res == gps_from_wire(bytes@),
{
    if bytes.len() < GPS_FIELD_BYTES {
        return None;
    }
    Some(
        GpsPacket {
            timestamp_us: read_u64_at(bytes, 0),
            latitude_bits: read_u64_at(bytes, 8),
            longitude_bits: read_u64_at(bytes, 16),
            altitude_bits: read_u32_at(bytes, 24),
            hdop_bits: read_u32_at(bytes, 28),
        },
    )
}

/// The datagram that carries `p`: its fields little-endian, in declaration order.
pub open spec fn gps_to_wire(p: GpsPacket) -> Seq<u8> {
    le_encode(p.timestamp_us as nat, 8) + le_encode(p.latitude_bits as nat, 8) + le_encode(
        p.longitude_bits as nat,
        8,
    ) + le_encode(p.altitude_bits as nat, 4) + le_encode(p.hdop_bits as nat, 4)
}

/// Decoding inverts encoding: a datagram that holds the little-endian fields
/// of any packet, whatever bytes follow them, decodes to that packet; the
/// encoding is [`GPS_FIELD_BYTES`] long.
pub proof fn law_gps_wire_round_trip(p: GpsPacket, trailing: Seq<u8>)
    ensures
        gps_to_wire(p).len() == GPS_FIELD_BYTES,
        gps_from_wire(gps_to_wire(p) + trailing) == Some(p),
{
    lemma_widths();
    lemma_le_round_trip(p.timestamp_us as nat, 8);
    lemma_le_round_trip(p.latitude_bits as nat, 8);
    lemma_le_round_trip(p.longitude_bits as nat, 8);
    lemma_le_round_trip(p.altitude_bits as nat, 4);
    lemma_le_round_trip(p.hdop_bits as nat, 4);
    let b = gps_to_wire(p) + trailing;
    assert(b.subrange(0, 8) =~= le_encode(p.timestamp_us as nat, 8));
    assert(b.subrange(8, 16) =~= le_encode(p.latitude_bits as nat, 8));
    assert(b.subrange(16, 24) =~= le_encode(p.longitude_bits as nat, 8));
    assert(b.subrange(24, 28) =~= le_encode(p.altitude_bits as nat, 4));
    assert(b.subrange(28, 32) =~= le_encode(p.hdop_bits as nat, 4));
}

/// Only the first [`GPS_FIELD_BYTES`] bytes of a datagram matter: every
/// datagram at least that long decodes, to what its first bytes decode to,
/// and every shorter one is rejected.
pub proof fn law_gps_reads_a_prefix(bytes: Seq<u8>)
    ensures
        bytes.len() >= GPS_FIELD_BYTES ==> gps_from_wire(bytes) is Some && gps_from_wire(bytes)
            == gps_from_wire(bytes.subrange(0, GPS_FIELD_BYTES as int)),
        bytes.len() < GPS_FIELD_BYTES ==> gps_from_wire(bytes) is None,
{
    if bytes.len() >= GPS_FIELD_BYTES {
        let head = bytes.subrange(0, GPS_FIELD_BYTES as int);
        assert(head.subrange(0, 8) =~= bytes.subrange(0, 8));
        assert(head.subrange(8, 16) =~= bytes.subrange(8, 16));
        assert(head.subrange(16, 24) =~= bytes.subrange(16, 24));
        assert(head.subrange(24, 28) =~= bytes.subrange(24, 28));
        assert(head.subrange(28, 32) =~= bytes.subrange(28, 32));
    }
}

} // verus!
