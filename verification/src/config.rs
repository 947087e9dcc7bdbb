//! Runtime-tunable parameters of the engine, with their defaults and the
//! environment overrides.

use vstd::prelude::*;
use vstd::string::StringSliceAdditionalSpecFns;

verus! {

/// An ASCII decimal digit.
pub open spec fn is_digit(b: u8) -> bool {
    48 <= b <= 57
}

/// The number that a string of ASCII decimal digits denotes.
pub open spec fn digits_value(digits: Seq<u8>) -> nat
    decreases digits.len(),
{
    if digits.len() == 0 {
        0
    } else {
        digits_value(digits.drop_last()) * 10 + (digits.last() - 48) as nat
    }
}

/// The digits of an unsigned number's text: what follows one optional leading `+`.
pub open spec fn unsigned_digits(text: Seq<u8>) -> Seq<u8> {
    if text.len() > 0 && text[0] == 43 {
        text.drop_first()
    } else {
        text
    }
}

/// The value of an unsigned decimal text, as std parses unsigned integers: an
/// optional `+` followed by one or more ASCII digits, nothing else (no
/// whitespace, no sign `-`). `None` for any other text.
pub open spec fn decimal_value(text: Seq<u8>) -> Option<nat> {
    let digits = unsigned_digits(text);
    if digits.len() > 0 && (forall|i: int| 0 <= i < digits.len() ==> is_digit(#[trigger] digits[i])) {
        Some(digits_value(digits))
    } else {
        None
    }
}

/// The setting that an environment value gives: the number it holds when it
/// parses and fits under `max`, else `fallback`; `fallback` when unset.
pub open spec fn override_or(text: Option<Seq<u8>>, max: nat, fallback: nat) -> nat {
    match text {
        Some(t) => match decimal_value(t) {
            Some(v) => if v <= max {
                v
            } else {
                fallback
            },
            None => fallback,
        },
        None => fallback,
    }
}

/// The UTF-8 bytes of an optional text.
pub open spec fn text_bytes(value: Option<&str>) -> Option<Seq<u8>> {
    match value {
        Some(s) => Some(s.spec_bytes()),
        None => None,
    }
}

/// The canonical decimal text of `n`: its digits, most significant first,
/// without sign or leading zeros.
pub open spec fn decimal_text(n: nat) -> Seq<u8>
    decreases n,
{
    if n < 10 {
        seq![(48 + n) as u8]
    } else {
        decimal_text(n / 10).push((48 + n % 10) as u8)
    }
}

proof fn lemma_digits_prefix_le(digits: Seq<u8>, k: int)
    requires
        0 <= k <= digits.len(),
        forall|i: int| 0 <= i < digits.len() ==> is_digit(#[trigger] digits[i]),
    ensures
        digits_value(digits.subrange(0, k)) <= digits_value(digits),
    decreases digits.len(),
{
    if k < digits.len() {
        let shorter = digits.drop_last();
        assert forall|i: int| 0 <= i < shorter.len() implies is_digit(#[trigger] shorter[i]) by {
            assert(shorter[i] == digits[i]);
        }
        lemma_digits_prefix_le(shorter, k);
        assert(shorter.subrange(0, k) =~= digits.subrange(0, k));
    } else {
        assert(digits.subrange(0, k) =~= digits);
    }
}

proof fn lemma_decimal_text(n: nat)
    ensures
        decimal_text(n).len() > 0,
        forall|i: int| 0 <= i < decimal_text(n).len() ==> is_digit(#[trigger] decimal_text(n)[i]),
        digits_value(decimal_text(n)) == n,
    decreases n,
{
    let t = decimal_text(n);
    if n < 10 {
        assert(t.drop_last() =~= Seq::<u8>::empty());
        assert(digits_value(t.drop_last()) == 0);
        assert(t.last() == (48 + n) as u8);
    } else {
        lemma_decimal_text(n / 10);
        assert(t.drop_last() =~= decimal_text(n / 10));
        assert(t.last() == (48 + n % 10) as u8);
        assert((t.last() - 48) as nat == n % 10);
        assert(n == (n / 10) * 10 + n % 10);
        assert forall|i: int| 0 <= i < t.len() implies is_digit(#[trigger] t[i]) by {
            if i < t.len() - 1 {
                assert(t[i] == decimal_text(n / 10)[i]);
            }
        }
    }
}

/// Setting a variable to the decimal text of a number within range gives that
/// number: the override round-trips every value the field can hold.
pub proof fn law_override_round_trip(n: nat, max: nat, fallback: nat)
    requires
        n <= max,
    ensures
        decimal_value(decimal_text(n)) == Some(n),
        override_or(Some(decimal_text(n)), max, fallback) == n,
{
    lemma_decimal_text(n);
    let t = decimal_text(n);
    assert(is_digit(t[0]));
    assert(unsigned_digits(t) == t);
}

/// What std's unsigned parse accepts and rejects: one leading `+` is allowed
/// before the digits; an empty text, a lone `+`, a `-` sign, and whitespace
/// before or after the digits are rejected.
pub proof fn law_decimal_text_forms(n: nat, text: Seq<u8>)
    ensures
        decimal_value(seq![43u8] + decimal_text(n)) == Some(n),
        decimal_value(Seq::<u8>::empty()) is None,
        decimal_value(seq![43u8]) is None,
        decimal_value(seq![45u8] + text) is None,
        decimal_value(seq![32u8] + text) is None,
        decimal_value(text + seq![32u8]) is None,
{
    lemma_decimal_text(n);
    let t = decimal_text(n);
    assert((seq![43u8] + t).drop_first() =~= t);
    assert(is_digit(t[0]));
    let minus = seq![45u8] + text;
    assert(unsigned_digits(minus) == minus);
    assert(!is_digit(minus[0]));
    let lead = seq![32u8] + text;
    assert(unsigned_digits(lead) == lead);
    assert(!is_digit(lead[0]));
    let trail = text + seq![32u8];
    let d = unsigned_digits(trail);
    assert(d[d.len() - 1] == 32u8);
    assert(!is_digit(d[d.len() - 1]));
    assert(unsigned_digits(seq![43u8]).len() == 0);
}

/// Parses `text` as an unsigned decimal number no greater than `max`.
fn parse_decimal(text: &[u8], max: u64) -> (res: Option<u64>)
    ensures
        match decimal_value(text@) {
            Some(v) => if v <= max {
                res == Some(v as u64)
            } else {
                res is None
            },
            None => res is None,
        },
{
    let n = text.len();
    let mut start: usize = 0;
    if n > 0 && text[0] == 43u8 {
        start = 1;
    }
    let ghost digits = unsigned_digits(text@);
    assert(digits =~= text@.subrange(start as int, n as int));
    if start == n {
        return None;
    }
    let mut acc: u64 = 0;
    let mut i: usize = start;
    while i < n
        invariant
            start <= i <= n,
            start < n,
            n == text@.len(),
            digits == text@.subrange(start as int, n as int),
            digits == unsigned_digits(text@),
            forall|k: int| 0 <= k < i - start ==> is_digit(#[trigger] digits[k]),
            acc == digits_value(digits.subrange(0, i - start)),
            acc <= max,
        decreases n - i,
    {
        let b = text[i];
        assert(b == digits[i - start]);
        if b < 48u8 || b > 57u8 {
            assert(!is_digit(digits[i - start]));
            return None;
        }
        let next: u128 = acc as u128 * 10 + (b - 48u8) as u128;
        assert(digits.subrange(0, i - start + 1).drop_last() =~= digits.subrange(0, i - start));
        assert(next == digits_value(digits.subrange(0, i - start + 1)));
        if next > max as u128 {
            proof {
                if forall|k: int| 0 <= k < digits.len() ==> is_digit(#[trigger] digits[k]) {
                    lemma_digits_prefix_le(digits, i - start + 1);
                }
            }
            return None;
        }
        acc = next as u64;
        i = i + 1;
    }
    assert(digits.subrange(0, n - start) =~= digits);
    Some(acc)
}

/// The `u16` setting that an environment value gives, or `fallback`.
pub fn env_u16(value: Option<&str>, fallback: u16) -> (res: u16)
    ensures
        res == override_or(text_bytes(value), u16::MAX as nat, fallback as nat),
{
    match value {
        Some(text) => match parse_decimal(text.as_bytes(), u16::MAX as u64) {
            Some(v) => v as u16,
            None => fallback,
        },
        None => fallback,
    }
}

/// The `usize` setting that an environment value gives, or `fallback`.
pub fn env_usize(value: Option<&str>, fallback: usize) -> (res: usize)
    ensures
        res == override_or(text_bytes(value), usize::MAX as nat, fallback as nat),
{
    match value {
        Some(text) => match parse_decimal(text.as_bytes(), usize::MAX as u64) {
            Some(v) => v as usize,
            None => fallback,
        },
        None => fallback,
    }
}

/// The `u64` setting that an environment value gives, or `fallback`.
pub fn env_u64(value: Option<&str>, fallback: u64) -> (res: u64)
    ensures
        res == override_or(text_bytes(value), u64::MAX as nat, fallback as nat),
{
    match value {
        Some(text) => match parse_decimal(text.as_bytes(), u64::MAX) {
            Some(v) => v,
            None => fallback,
        },
        None => fallback,
    }
}

/// Runtime-tunable parameters for the Helix fusion engine.
/// All fields have sensible defaults; override them through the environment
/// ([`EngineConfig::from_env`]) or by constructing the value directly.
#[derive(Debug, Clone, Copy, PartialEq, Eq, Structural)]
pub struct EngineConfig {
    /// UDP port for GPS packets (10 Hz)
    pub gps_port: u16,
    /// UDP port for IMU packets (200 Hz)
    pub imu_port: u16,
    /// UDP port for barometer packets (50 Hz)
    pub baro_port: u16,
    /// Complementary-filter blending coefficient in [0.0, 1.0], as the bits of
    /// an `f32`: 0.0 trusts only IMU integration, 1.0 only the absolute
    /// altitude (GPS / baro).
    pub filter_alpha_bits: u32,
    /// Channel capacity shared by all sensor producers; bounded so that the
    /// producers block when fusion falls behind.
    pub channel_depth: usize,
    /// Minimum interval (µs) between consecutive state-estimate log lines.
    /// Set to 0 to log every cycle.
    pub log_throttle_us: u64,
}

/// 0.85, the general-purpose blending coefficient, as the bits of an `f32`.
pub const DEFAULT_ALPHA_BITS: u32 = 0x3f59_999a;

/// The defaults: ports 5001 (GPS), 5002 (IMU) and 5003 (barometer), α = 0.85,
/// a channel of 1024 messages and at most one log line every 2000 µs.
pub open spec fn default_config() -> EngineConfig {
    EngineConfig {
        gps_port: 5001,
        imu_port: 5002,
        baro_port: 5003,
        filter_alpha_bits: DEFAULT_ALPHA_BITS,
        channel_depth: 1024,
        log_throttle_us: 2000,
    }
}

impl Default for EngineConfig {
    fn default() -> (cfg: Self)
        ensures
            cfg == default_config(),
    {
        EngineConfig {
            gps_port: 5001,
            imu_port: 5002,
            baro_port: 5003,
            filter_alpha_bits: DEFAULT_ALPHA_BITS,
            channel_depth: 1024,
            log_throttle_us: 2_000,
        }
    }
}

impl EngineConfig {
    /// The configuration that the environment gives: each argument is the
    /// value of one variable (`HELIX_GPS_PORT`, `HELIX_IMU_PORT`,
    /// `HELIX_BARO_PORT`, `HELIX_CHANNEL_DEPTH`, `HELIX_LOG_THROTTLE_US`), or
    /// `None` when it is unset; `filter_alpha_bits` is `HELIX_ALPHA` already
    /// parsed as an `f32`, `None` when unset or unparsable. A field whose
    /// value does not parse keeps its default.
    pub fn from_env(
        gps_port: Option<&str>,
        imu_port: Option<&str>,
        baro_port: Option<&str>,
        filter_alpha_bits: Option<u32>,
        channel_depth: Option<&str>,
        log_throttle_us: Option<&str>,
    ) -> (cfg: EngineConfig)
        ensures
            cfg.gps_port == override_or(text_bytes(gps_port), u16::MAX as nat, 5001),
            cfg.imu_port == override_or(text_bytes(imu_port), u16::MAX as nat, 5002),
            cfg.baro_port == override_or(text_bytes(baro_port), u16::MAX as nat, 5003),
            cfg.filter_alpha_bits == match filter_alpha_bits {
                Some(bits) => bits,
                None => DEFAULT_ALPHA_BITS,
            },
            cfg.channel_depth == override_or(text_bytes(channel_depth), usize::MAX as nat, 1024),
            cfg.log_throttle_us == override_or(text_bytes(log_throttle_us), u64::MAX as nat, 2000),
    {
        let base = EngineConfig::default();
        EngineConfig {
            gps_port: env_u16(gps_port, base.gps_port),
            imu_port: env_u16(imu_port, base.imu_port),
            baro_port: env_u16(baro_port, base.baro_port),
            filter_alpha_bits: match filter_alpha_bits {
                Some(bits) => bits,
                None => base.filter_alpha_bits,
            },
            channel_depth: env_usize(channel_depth, base.channel_depth),
            log_throttle_us: env_u64(log_throttle_us, base.log_throttle_us),
        }
    }
}

} // verus!
