//! IMU packets.

use vstd::prelude::*;
use crate::sensor::wire::{le_encode, le_field, lemma_le_round_trip, lemma_widths, read_u32_at, read_u64_at};

verus! {

/// IMU packet received at ~200 Hz over UDP port 5002.
///
/// Field order is the order of the little-endian wire layout. Each reading is
/// held as the bits of an `f32`.
#[derive(Debug, Clone, Copy, PartialEq, Eq, Structural)]
pub struct ImuPacket {
    /// Microseconds since Unix epoch.
    pub timestamp_us: u64,
    /// Linear acceleration along body X-axis (m/s²).
    pub accel_x_bits: u32,
    /// Linear acceleration along body Y-axis (m/s²).
    pub accel_y_bits: u32,
    /// Linear acceleration along body Z-axis (m/s²), gravity included (~−9.81 at rest).
    pub accel_z_bits: u32,
    /// Angular rate around body X-axis (rad/s).
    pub gyro_x_bits: u32,
    /// Angular rate around body Y-axis (rad/s).
    pub gyro_y_bits: u32,
    /// Angular rate around body Z-axis (rad/s).
    pub gyro_z_bits: u32,
}

/// Expected on-wire size in bytes, as the simulator's documentation gives it.
pub const IMU_WIRE_BYTES: usize = 36;

/// Bytes that the fields of [`ImuPacket`] occupy on the wire: 8 + 6 × 4.
pub const IMU_FIELD_BYTES: usize = 32;

/// The packet that a datagram holds, or `None` when it is too short for the
/// field layout. Bytes past the layout are ignored.
pub open spec fn imu_from_wire(bytes: Seq<u8>) -> Option<ImuPacket> {
    if bytes.len() >= IMU_FIELD_BYTES {
        Some(
            ImuPacket {
                timestamp_us: le_field(bytes, 0, 8) as u64,
                accel_x_bits: le_field(bytes, 8, 4) as u32,
                accel_y_bits: le_field(bytes, 12, 4) as u32,
                accel_z_bits: le_field(bytes, 16, 4) as u32,
                gyro_x_bits: le_field(bytes, 20, 4) as u32,
                gyro_y_bits: le_field(bytes, 24, 4) as u32,
                gyro_z_bits: le_field(bytes, 28, 4) as u32,
            },
        )
    } else {
        None
    }
}

/// Decodes an IMU datagram.
pub fn decode_imu(bytes: &[u8]) -> (res: Option<ImuPacket>)
    ensures
        res == imu_from_wire(bytes@),
{
    if bytes.len() < IMU_FIELD_BYTES {
        return None;
    }
    Some(
        ImuPacket {
            timestamp_us: read_u64_at(bytes, 0),
            accel_x_bits: read_u32_at(bytes, 8),
            accel_y_bits: read_u32_at(bytes, 12),
            accel_z_bits: read_u32_at(bytes, 16),
            gyro_x_bits: read_u32_at(bytes, 20),
            gyro_y_bits: read_u32_at(bytes, 24),
            gyro_z_bits: read_u32_at(bytes, 28),
        },
    )
}

/// The datagram that carries `p`: its fields little-endian, in declaration order.
pub open spec fn imu_to_wire(p: ImuPacket) -> Seq<u8> {
    le_encode(p.timestamp_us as nat, 8) + le_encode(p.accel_x_bits as nat, 4) + le_encode(
        p.accel_y_bits as nat,
        4,
    ) + le_encode(p.accel_z_bits as nat, 4) + le_encode(p.gyro_x_bits as nat, 4) + le_encode(
        p.gyro_y_bits as nat,
        4,
    ) + le_encode(p.gyro_z_bits as nat, 4)
}

/// Decoding inverts encoding: a datagram that holds the little-endian fields
/// of any packet, whatever bytes follow them (such as the simulator's extra
/// 4 bytes), decodes to that packet; the encoding is [`IMU_FIELD_BYTES`] long.
pub proof fn law_imu_wire_round_trip(p: ImuPacket, trailing: Seq<u8>)
    ensures
        imu_to_wire(p).len() == IMU_FIELD_BYTES,
        imu_from_wire(imu_to_wire(p) + trailing) == Some(p),
{
    lemma_widths();
    lemma_le_round_trip(p.timestamp_us as nat, 8);
    lemma_le_round_trip(p.accel_x_bits as nat, 4);
    lemma_le_round_trip(p.accel_y_bits as nat, 4);
    lemma_le_round_trip(p.accel_z_bits as nat, 4);
    lemma_le_round_trip(p.gyro_x_bits as nat, 4);
    lemma_le_round_trip(p.gyro_y_bits as nat, 4);
    lemma_le_round_trip(p.gyro_z_bits as nat, 4);
    let b = imu_to_wire(p) + trailing;
    assert(b.subrange(0, 8) =~= le_encode(p.timestamp_us as nat, 8));
    assert(b.subrange(8, 12) =~= le_encode(p.accel_x_bits as nat, 4));
    assert(b.subrange(12, 16) =~= le_encode(p.accel_y_bits as nat, 4));
    assert(b.subrange(16, 20) =~= le_encode(p.accel_z_bits as nat, 4));
    assert(b.subrange(20, 24) =~= le_encode(p.gyro_x_bits as nat, 4));
    assert(b.subrange(24, 28) =~= le_encode(p.gyro_y_bits as nat, 4));
    assert(b.subrange(28, 32) =~= le_encode(p.gyro_z_bits as nat, 4));
}

/// Only the first [`IMU_FIELD_BYTES`] bytes of a datagram matter: every
/// datagram at least that long decodes, to what its first bytes decode to,
/// and every shorter one is rejected.
pub proof fn law_imu_reads_a_prefix(bytes: Seq<u8>)
    ensures
        bytes.len() >= IMU_FIELD_BYTES ==> imu_from_wire(bytes) is Some && imu_from_wire(bytes)
            == imu_from_wire(bytes.subrange(0, IMU_FIELD_BYTES as int)),
        bytes.len() < IMU_FIELD_BYTES ==> imu_from_wire(bytes) is None,
{
    if bytes.len() >= IMU_FIELD_BYTES {
        let head = bytes.subrange(0, IMU_FIELD_BYTES as int);
        assert(head.subrange(0, 8) =~= bytes.subrange(0, 8));
        assert(head.subrange(8, 12) =~= bytes.subrange(8, 12));
        assert(head.subrange(12, 16) =~= bytes.subrange(12, 16));
        assert(head.subrange(16, 20) =~= bytes.subrange(16, 20));
        assert(head.subrange(20, 24) =~= bytes.subrange(20, 24));
        assert(head.subrange(24, 28) =~= bytes.subrange(24, 28));
        assert(head.subrange(28, 32) =~= bytes.subrange(28, 32));
    }
}

} // verus!
