use helix::config::{env_u16, env_u64, env_usize, EngineConfig, DEFAULT_ALPHA_BITS};

#[test]
fn defaults_match_documented_values() {
    let cfg = EngineConfig::default();
    assert_eq!(cfg.gps_port, 5001);
    assert_eq!(cfg.imu_port, 5002);
    assert_eq!(cfg.baro_port, 5003);
    assert_eq!(f32::from_bits(cfg.filter_alpha_bits), 0.85f32);
    assert_eq!(cfg.channel_depth, 1024);
    assert_eq!(cfg.log_throttle_us, 2000);
}

#[test]
fn default_alpha_bits_are_085() {
    assert_eq!(DEFAULT_ALPHA_BITS, 0.85f32.to_bits());
}

#[test]
fn unset_environment_gives_defaults() {
    let cfg = EngineConfig::from_env(None, None, None, None, None, None);
    assert_eq!(cfg, EngineConfig::default());
}

#[test]
fn environment_overrides_every_field() {
    let cfg = EngineConfig::from_env(
        Some("6001"),
        Some("6002"),
        Some("6003"),
        Some(0.92f32.to_bits()),
        Some("64"),
        Some("500000"),
    );
    assert_eq!(cfg.gps_port, 6001);
    assert_eq!(cfg.imu_port, 6002);
    assert_eq!(cfg.baro_port, 6003);
    assert_eq!(f32::from_bits(cfg.filter_alpha_bits), 0.92f32);
    assert_eq!(cfg.channel_depth, 64);
    assert_eq!(cfg.log_throttle_us, 500000);
}

#[test]
fn unparsable_values_keep_defaults() {
    let cfg = EngineConfig::from_env(
        Some("port"),
        Some(""),
        Some("70000"),
        None,
        Some("-1"),
        Some(" 5"),
    );
    assert_eq!(cfg.gps_port, 5001);
    assert_eq!(cfg.imu_port, 5002);
    assert_eq!(cfg.baro_port, 5003);
    assert_eq!(cfg.filter_alpha_bits, DEFAULT_ALPHA_BITS);
    assert_eq!(cfg.channel_depth, 1024);
    assert_eq!(cfg.log_throttle_us, 2000);
}

#[test]
fn throttle_zero_is_accepted() {
    let cfg = EngineConfig::from_env(None, None, None, None, None, Some("0"));
    assert_eq!(cfg.log_throttle_us, 0);
}

#[test]
fn env_u16_accepts_plain_digits_and_leading_plus() {
    assert_eq!(env_u16(Some("5001"), 1), 5001);
    assert_eq!(env_u16(Some("+5001"), 1), 5001);
    assert_eq!(env_u16(Some("007"), 1), 7);
    assert_eq!(env_u16(Some("65535"), 1), 65535);
}

#[test]
fn env_u16_rejects_malformed_or_out_of_range_text() {
    assert_eq!(env_u16(Some("65536"), 1), 1);
    assert_eq!(env_u16(Some("+"), 1), 1);
    assert_eq!(env_u16(Some("++5"), 1), 1);
    assert_eq!(env_u16(Some("-5"), 1), 1);
    assert_eq!(env_u16(Some("5 "), 1), 1);
    assert_eq!(env_u16(Some("5_000"), 1), 1);
    assert_eq!(env_u16(Some("５"), 1), 1);
    assert_eq!(env_u16(Some(""), 1), 1);
    assert_eq!(env_u16(None, 1), 1);
}

#[test]
fn env_u64_covers_the_whole_range() {
    assert_eq!(env_u64(Some("18446744073709551615"), 3), u64::MAX);
    assert_eq!(env_u64(Some("18446744073709551616"), 3), 3);
    assert_eq!(env_u64(Some("99999999999999999999999"), 3), 3);
    assert_eq!(env_u64(Some("0"), 3), 0);
}

#[test]
fn env_usize_parses_depths() {
    assert_eq!(env_usize(Some("1024"), 9), 1024);
    assert_eq!(env_usize(Some("x1024"), 9), 9);
}

#[test]
fn parse_agrees_with_std_on_samples() {
    let samples = ["0", "1", "+1", "-0", "00", "65535", "65536", "1e3", " 1", "1 ", "+", "", "12a"];
    for s in samples {
        let expected = s.parse::<u16>().unwrap_or(42);
        assert_eq!(env_u16(Some(s), 42), expected, "text {s:?}");
    }
}

#[test]
fn decimal_text_round_trips() {
    for n in [0u64, 9, 10, 99, 100, 12345, u64::MAX] {
        assert_eq!(env_u64(Some(&n.to_string()), 7), n);
    }
    for n in [0u16, 1, 5001, u16::MAX] {
        assert_eq!(env_u16(Some(&n.to_string()), 7), n);
    }
}
