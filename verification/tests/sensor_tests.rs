use helix::sensor::barometer::{decode_baro, BARO_WIRE_BYTES};
use helix::sensor::gps::{decode_gps, GPS_FIELD_BYTES, GPS_WIRE_BYTES};
use helix::sensor::imu::{decode_imu, IMU_FIELD_BYTES, IMU_WIRE_BYTES};
use helix::sensor::{BaroPacket, GpsPacket, ImuPacket, SensorMessage};

#[test]
fn wire_size_constants() {
    assert_eq!(GPS_WIRE_BYTES, 28);
    assert_eq!(IMU_WIRE_BYTES, 36);
    assert_eq!(BARO_WIRE_BYTES, 16);
    assert_eq!(GPS_FIELD_BYTES, 32);
    assert_eq!(IMU_FIELD_BYTES, 32);
}

#[test]
fn gps_decodes_a_serialised_fix() {
    let fix = (1_718_000_000_000_000u64, 47.3769f64, 8.5417f64, 408.5f32, 0.9f32);
    let bytes = bincode::serialize(&fix).unwrap();
    assert_eq!(bytes.len(), 32);
    let pkt = decode_gps(&bytes).unwrap();
    assert_eq!(pkt.timestamp_us, fix.0);
    assert_eq!(f64::from_bits(pkt.latitude_bits), fix.1);
    assert_eq!(f64::from_bits(pkt.longitude_bits), fix.2);
    assert_eq!(f32::from_bits(pkt.altitude_bits), fix.3);
    assert_eq!(f32::from_bits(pkt.hdop_bits), fix.4);
}

#[test]
fn gps_reads_fields_little_endian() {
    let mut bytes = vec![0u8; 32];
    bytes[0] = 1;
    bytes[1] = 2;
    bytes[8] = 0xff;
    bytes[31] = 0x80;
    let pkt = decode_gps(&bytes).unwrap();
    assert_eq!(pkt.timestamp_us, 0x0201);
    assert_eq!(pkt.latitude_bits, 0xff);
    assert_eq!(pkt.longitude_bits, 0);
    assert_eq!(pkt.altitude_bits, 0);
    assert_eq!(pkt.hdop_bits, 0x8000_0000);
}

#[test]
fn gps_rejects_short_datagrams_and_ignores_trailing_bytes() {
    assert_eq!(decode_gps(&[0u8; 31]), None);
    assert_eq!(decode_gps(&[0u8; 28]), None);
    assert_eq!(decode_gps(&[]), None);
    let mut bytes = vec![7u8; 40];
    bytes[32..].copy_from_slice(&[9u8; 8]);
    let pkt = decode_gps(&bytes).unwrap();
    assert_eq!(pkt.timestamp_us, 0x0707_0707_0707_0707);
    assert_eq!(pkt.hdop_bits, 0x0707_0707);
}

#[test]
fn imu_decodes_a_serialised_sample() {
    let sample = (1_718_000_000_000_000u64, (0.03f32, -0.01f32, -9.81f32), (0.002f32, -0.001f32, 0.0005f32));
    let bytes = bincode::serialize(&sample).unwrap();
    let pkt = decode_imu(&bytes).unwrap();
    assert_eq!(
        pkt,
        ImuPacket {
            timestamp_us: sample.0,
            accel_x_bits: 0.03f32.to_bits(),
            accel_y_bits: (-0.01f32).to_bits(),
            accel_z_bits: (-9.81f32).to_bits(),
            gyro_x_bits: 0.002f32.to_bits(),
            gyro_y_bits: (-0.001f32).to_bits(),
            gyro_z_bits: 0.0005f32.to_bits(),
        }
    );
    assert_eq!(decode_imu(&bytes[..31]), None);
}

#[test]
fn baro_decodes_a_serialised_reading() {
    let reading = (42u64, 98_500.0f32, 18.5f32);
    let bytes = bincode::serialize(&reading).unwrap();
    assert_eq!(bytes.len(), 16);
    assert_eq!(
        decode_baro(&bytes),
        Some(BaroPacket { timestamp_us: 42, pressure_bits: 98_500.0f32.to_bits(), temp_bits: 18.5f32.to_bits() })
    );
    assert_eq!(decode_baro(&bytes[..15]), None);
}

#[test]
fn timestamp_of_each_variant() {
    let gps = GpsPacket { timestamp_us: 10, latitude_bits: 1, longitude_bits: 2, altitude_bits: 3, hdop_bits: 4 };
    let imu = ImuPacket {
        timestamp_us: 20,
        accel_x_bits: 0,
        accel_y_bits: 0,
        accel_z_bits: 0,
        gyro_x_bits: 0,
        gyro_y_bits: 0,
        gyro_z_bits: 0,
    };
    let baro = BaroPacket { timestamp_us: 30, pressure_bits: 0, temp_bits: 0 };
    assert_eq!(SensorMessage::Gps(gps).timestamp_us(), 10);
    assert_eq!(SensorMessage::Imu(imu).timestamp_us(), 20);
    assert_eq!(SensorMessage::Baro(baro).timestamp_us(), 30);
}
