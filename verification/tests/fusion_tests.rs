use helix::fusion::schedule::{EnuOrigin, FusionAction};
use helix::fusion::{FilterClock, FusionState};
use helix::sensor::{BaroPacket, GpsPacket, ImuPacket, SensorMessage};

fn imu(ts: u64) -> SensorMessage {
    SensorMessage::Imu(ImuPacket {
        timestamp_us: ts,
        accel_x_bits: 0,
        accel_y_bits: 0,
        accel_z_bits: (-9.80665f32).to_bits(),
        gyro_x_bits: 0,
        gyro_y_bits: 0,
        gyro_z_bits: 0,
    })
}

fn baro(ts: u64) -> SensorMessage {
    SensorMessage::Baro(BaroPacket { timestamp_us: ts, pressure_bits: 1, temp_bits: 2 })
}

fn gps(ts: u64, lat: f64, lon: f64, alt: f32) -> SensorMessage {
    SensorMessage::Gps(GpsPacket {
        timestamp_us: ts,
        latitude_bits: lat.to_bits(),
        longitude_bits: lon.to_bits(),
        altitude_bits: alt.to_bits(),
        hdop_bits: 0.9f32.to_bits(),
    })
}

#[test]
fn first_imu_sample_only_sets_the_reference() {
    let mut clock = FilterClock::new();
    assert_eq!(clock.update_imu(1_000_000), None);
    assert_eq!(clock.update_counts(), (0, 0));
    assert_eq!(clock.last_imu_timestamp_us(), Some(1_000_000));
    assert_eq!(clock.update_imu(1_005_000), Some(5_000));
    assert_eq!(clock.update_imu(1_010_000), Some(5_000));
    assert_eq!(clock.update_counts(), (2, 0));
}

#[test]
fn imu_interval_saturates_when_time_runs_backwards() {
    let mut clock = FilterClock::new();
    clock.update_imu(500);
    assert_eq!(clock.update_imu(400), Some(0));
    assert_eq!(clock.update_imu(450), Some(50));
}

#[test]
fn zero_stamped_first_sample_sets_the_reference() {
    let mut clock = FilterClock::new();
    assert_eq!(clock.update_imu(0), None);
    assert_eq!(clock.update_imu(1_000_000), Some(1_000_000));
    assert_eq!(clock.update_counts(), (1, 0));
}

#[test]
fn out_of_order_zero_stamp_is_measured_from() {
    let mut clock = FilterClock::new();
    clock.update_imu(500);
    assert_eq!(clock.update_imu(0), Some(0));
    assert_eq!(clock.update_imu(300), Some(300));
    assert_eq!(clock.update_counts(), (2, 0));
}

#[test]
fn imu_message_after_a_zero_stamp_is_not_integrated() {
    let mut s = FusionState::new(0);
    assert!(matches!(s.step(&imu(0)).action, FusionAction::Imu { gyro_dt_us: None, .. }));
    assert!(matches!(s.step(&imu(1_000_000)).action, FusionAction::Imu { gyro_dt_us: None, .. }));
    assert!(matches!(s.step(&imu(1_005_000)).action, FusionAction::Imu { gyro_dt_us: Some(5_000), .. }));
    let _ = s.step(&imu(0));
    assert!(matches!(s.step(&imu(1_010_000)).action, FusionAction::Imu { gyro_dt_us: None, .. }));
}

#[test]
fn absolute_updates_count_separately() {
    let mut clock = FilterClock::new();
    clock.update_absolute();
    clock.update_absolute();
    clock.update_imu(10);
    clock.update_imu(20);
    clock.update_absolute();
    assert_eq!(clock.update_counts(), (1, 3));
    assert_eq!(clock.last_imu_timestamp_us(), Some(20));
}

#[test]
fn two_hundred_samples_at_200_hz() {
    let mut clock = FilterClock::new();
    let mut integrated = 0u64;
    for i in 0..200u64 {
        if let Some(dt) = clock.update_imu(1_000_000 + i * 5_000) {
            integrated += dt;
            assert_eq!(dt, 5_000);
        }
        clock.update_absolute();
    }
    assert_eq!(clock.update_counts(), (199, 200));
    assert_eq!(integrated, 995_000);
}

#[test]
fn new_state_is_empty() {
    let s = FusionState::new(2000);
    assert_eq!(s.log_throttle_us, 2000);
    assert_eq!(s.latest_ts_us, 0);
    assert_eq!(s.last_log_ts_us, 0);
    assert_eq!(s.last_imu_ts_us, 0);
    assert_eq!(s.cycle, 0);
    assert_eq!(s.enu_origin, None);
}

#[test]
fn gyro_integrates_from_the_second_imu_sample() {
    let mut s = FusionState::new(0);
    let first = s.step(&imu(1_000));
    assert!(matches!(first.action, FusionAction::Imu { gyro_dt_us: None, .. }));
    let second = s.step(&imu(6_000));
    assert!(matches!(second.action, FusionAction::Imu { gyro_dt_us: Some(5_000), .. }));
    let _ = s.step(&baro(7_000));
    let third = s.step(&imu(5_000));
    assert!(matches!(third.action, FusionAction::Imu { gyro_dt_us: Some(0), .. }));
    assert_eq!(s.last_imu_ts_us, 5_000);
}

#[test]
fn gyro_and_filter_integrate_over_the_same_interval() {
    let mut s = FusionState::new(0);
    let mut clock = FilterClock::new();
    for ts in [50u64, 100, 250, 200, 900] {
        let step = s.step(&imu(ts));
        let filter_dt = clock.update_imu(ts);
        match step.action {
            FusionAction::Imu { gyro_dt_us, .. } => assert_eq!(gyro_dt_us, filter_dt),
            _ => panic!("expected an IMU action"),
        }
    }
}

#[test]
fn estimate_timestamp_is_the_latest_seen() {
    let mut s = FusionState::new(0);
    assert_eq!(s.step(&imu(500)).timestamp_us, 500);
    assert_eq!(s.step(&baro(300)).timestamp_us, 500);
    assert_eq!(s.step(&gps(900, 1.0, 2.0, 3.0)).timestamp_us, 900);
    assert_eq!(s.step(&imu(800)).timestamp_us, 900);
    assert_eq!(s.latest_ts_us, 900);
}

#[test]
fn origin_is_the_first_fix_and_stays() {
    let mut s = FusionState::new(0);
    let _ = s.step(&baro(1));
    assert_eq!(s.enu_origin, None);
    let first = s.step(&gps(2, 47.0, 8.0, 400.0));
    let origin = EnuOrigin { latitude_bits: 47.0f64.to_bits(), longitude_bits: 8.0f64.to_bits(), altitude_bits: 400.0f32.to_bits() };
    assert_eq!(first.action, FusionAction::Gps { packet: match gps(2, 47.0, 8.0, 400.0) { SensorMessage::Gps(p) => p, _ => unreachable!() }, origin });
    let second = s.step(&gps(3, 48.0, 9.0, 500.0));
    match second.action {
        FusionAction::Gps { packet, origin: o } => {
            assert_eq!(o, origin);
            assert_eq!(f64::from_bits(packet.latitude_bits), 48.0);
        }
        _ => panic!("expected a GPS action"),
    }
    assert_eq!(s.enu_origin, Some(origin));
}

#[test]
fn cycles_count_messages() {
    let mut s = FusionState::new(0);
    for i in 1..=10u64 {
        let step = s.step(&baro(i));
        assert_eq!(step.cycle, i);
    }
    assert_eq!(s.cycle, 10);
}

#[test]
fn zero_throttle_logs_every_cycle() {
    let mut s = FusionState::new(0);
    for ts in [5u64, 5, 3, 10, 0] {
        assert!(s.step(&baro(ts)).log);
    }
}

#[test]
fn throttle_spaces_log_lines() {
    let mut s = FusionState::new(2000);
    assert!(!s.step(&imu(1000)).log);
    assert!(s.step(&imu(2000)).log);
    assert_eq!(s.last_log_ts_us, 2000);
    assert!(!s.step(&imu(3999)).log);
    assert!(s.step(&imu(4000)).log);
    assert!(!s.step(&baro(100)).log);
    assert_eq!(s.last_log_ts_us, 4000);
}
