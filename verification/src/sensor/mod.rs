//! Sensor packets and the shared message type that flows from the listeners to
//! the fusion loop.
//!
//! Floating-point readings are carried as their IEEE-754 bit patterns
//! (`f32::to_bits` / `f64::to_bits`): the library moves them, never computes
//! with them.

pub mod barometer;
pub mod gps;
pub mod imu;
pub mod wire;

pub use barometer::BaroPacket;
pub use gps::GpsPacket;
pub use imu::ImuPacket;

use vstd::prelude::*;

verus! {

/// Discriminated union of all sensor packets flowing through the shared channel.
#[derive(Debug, Clone, Copy, PartialEq, Eq, Structural)]
pub enum SensorMessage {
    Gps(GpsPacket),
    Imu(ImuPacket),
    Baro(BaroPacket),
}

impl SensorMessage {
    /// The sensor-local timestamp of the packet, whatever its variant.
    pub open spec fn timestamp(self) -> u64 {
        match self {
            SensorMessage::Gps(p) => p.timestamp_us,
            SensorMessage::Imu(p) => p.timestamp_us,
            SensorMessage::Baro(p) => p.timestamp_us,
        }
    }

    /// Extract the sensor-local timestamp regardless of variant.
    pub fn timestamp_us(&self) -> (ts: u64)
        ensures
            ts == self.timestamp(),
    {
        match self {
            SensorMessage::Gps(p) => p.timestamp_us,
            SensorMessage::Imu(p) => p.timestamp_us,
            SensorMessage::Baro(p) => p.timestamp_us,
        }
    }
}

/// A message's timestamp is its packet's own timestamp field, in full, for
/// every kind of sensor.
pub proof fn law_message_timestamp_is_packets(gps: GpsPacket, imu: ImuPacket, baro: BaroPacket)
    ensures
        SensorMessage::Gps(gps).timestamp() == gps.timestamp_us,
        SensorMessage::Imu(imu).timestamp() == imu.timestamp_us,
        SensorMessage::Baro(baro).timestamp() == baro.timestamp_us,
{
}

} // verus!
