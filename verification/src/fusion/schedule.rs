//! The decisions of the fusion loop, as a state machine from the loop's
//! integer state and one sensor message to the next state and the work to do.
//!
//! The loop itself receives each message from the sensor channel, asks
//! [`FusionState::step`] what to do, performs the floating-point work that the
//! returned [`FusionAction`] names, and emits a state estimate.

use vstd::prelude::*;
use crate::fusion::filter::{elapsed, FilterClock};
use crate::sensor::{BaroPacket, GpsPacket, ImuPacket, SensorMessage};

verus! {

/// The ENU (East-North-Up) origin: latitude and longitude (`f64` bits) and
/// altitude (`f32` bits) of the first valid GPS fix.
#[derive(Debug, Clone, Copy, PartialEq, Eq, Structural)]
pub struct EnuOrigin {
    pub latitude_bits: u64,
    pub longitude_bits: u64,
    pub altitude_bits: u32,
}

/// The origin that a GPS fix would set.
pub open spec fn origin_of(p: GpsPacket) -> EnuOrigin {
    EnuOrigin {
        latitude_bits: p.latitude_bits,
        longitude_bits: p.longitude_bits,
        altitude_bits: p.altitude_bits,
    }
}

/// The work that one message calls for, with the packet it is done on.
#[derive(Debug, Clone, Copy, PartialEq, Eq, Structural)]
pub enum FusionAction {
    /// An IMU sample. `gyro_dt_us` is the time (µs) since the previous IMU
    /// sample (0 when time runs backwards), over which gyro, velocity and
    /// position are integrated; `None` when no earlier IMU sample with a
    /// nonzero timestamp precedes it, and nothing is integrated. The sample feeds the filter's IMU path either way.
    Imu { packet: ImuPacket, gyro_dt_us: Option<u64> },
    /// A barometer reading: convert it to altitude and feed the filter's
    /// absolute path.
    Baro { packet: BaroPacket },
    /// A GPS fix: project it onto the ENU plane about `origin`, and feed its
    /// altitude above the origin's to the filter's absolute path.
    Gps { packet: GpsPacket, origin: EnuOrigin },
}

/// What the loop does with one message.
#[derive(Debug, Clone, Copy, PartialEq, Eq, Structural)]
pub struct FusionStep {
    /// The sensor work to perform.
    pub action: FusionAction,
    /// Timestamp of the state estimate: the latest sensor timestamp seen so far.
    pub timestamp_us: u64,
    /// Number of cycles completed, this one included.
    pub cycle: u64,
    /// Whether this cycle's estimate is logged.
    pub log: bool,
}

/// The integer state of the fusion loop.
#[derive(Debug, Clone, Copy, PartialEq, Eq, Structural)]
pub struct FusionState {
    /// Minimum interval (µs) between logged estimates; 0 logs every cycle.
    pub log_throttle_us: u64,
    /// Latest sensor timestamp seen (µs).
    pub latest_ts_us: u64,
    /// Latest timestamp at which an estimate was logged (µs).
    pub last_log_ts_us: u64,
    /// Timestamp of the previous IMU sample (µs); 0 before the first, and 0
    /// also marks "no previous sample" after a sample stamped 0.
    pub last_imu_ts_us: u64,
    /// Number of messages processed.
    pub cycle: u64,
    /// ENU origin, set on the first GPS fix.
    pub enu_origin: Option<EnuOrigin>,
}

/// The larger of two timestamps.
pub open spec fn later(a: u64, b: u64) -> u64 {
    if a >= b {
        a
    } else {
        b
    }
}

impl FusionState {
    /// The latest timestamp once `msg` is seen.
    pub open spec fn latest_after(self, msg: SensorMessage) -> u64 {
        later(msg.timestamp(), self.latest_ts_us)
    }

    /// Whether the estimate after `msg` is logged: at least the throttle
    /// interval has passed since the last logged one.
    pub open spec fn logs_after(self, msg: SensorMessage) -> bool {
        elapsed(self.latest_after(msg), self.last_log_ts_us) >= self.log_throttle_us
    }

    /// The ENU origin in force while `msg` is processed.
    pub open spec fn origin_after(self, msg: SensorMessage) -> Option<EnuOrigin> {
        match msg {
            SensorMessage::Gps(p) => match self.enu_origin {
                Some(o) => Some(o),
                None => Some(origin_of(p)),
            },
            _ => self.enu_origin,
        }
    }

    /// The state after one message.
    pub open spec fn next(self, msg: SensorMessage) -> FusionState {
        FusionState {
            log_throttle_us: self.log_throttle_us,
            latest_ts_us: self.latest_after(msg),
            last_log_ts_us: if self.logs_after(msg) {
                self.latest_after(msg)
            } else {
                self.last_log_ts_us
            },
            last_imu_ts_us: match msg {
                SensorMessage::Imu(p) => p.timestamp_us,
                _ => self.last_imu_ts_us,
            },
            cycle: (self.cycle + 1) as u64,
            enu_origin: self.origin_after(msg),
        }
    }

    /// The work and the output of one message.
    pub open spec fn outcome(self, msg: SensorMessage) -> FusionStep {
        FusionStep {
            action: match msg {
                SensorMessage::Imu(p) => FusionAction::Imu {
                    packet: p,
                    gyro_dt_us: if self.last_imu_ts_us > 0 {
                        Some(elapsed(p.timestamp_us, self.last_imu_ts_us))
                    } else {
                        None
                    },
                },
                SensorMessage::Baro(p) => FusionAction::Baro { packet: p },
                SensorMessage::Gps(p) => FusionAction::Gps {
                    packet: p,
                    origin: match self.enu_origin {
                        Some(o) => o,
                        None => origin_of(p),
                    },
                },
            },
            timestamp_us: self.latest_after(msg),
            cycle: (self.cycle + 1) as u64,
            log: self.logs_after(msg),
        }
    }

    /// The state after a sequence of messages, in order.
    pub open spec fn run(self, msgs: Seq<SensorMessage>) -> FusionState
        decreases msgs.len(),
    {
        if msgs.len() == 0 {
            self
        } else {
            self.next(msgs[0]).run(msgs.drop_first())
        }
    }

    /// The state of the loop before any message: nothing seen, nothing logged,
    /// no origin.
    pub fn new(log_throttle_us: u64) -> (s: FusionState)
        ensures
            s == (FusionState {
                log_throttle_us,
                latest_ts_us: 0,
                last_log_ts_us: 0,
                last_imu_ts_us: 0,
                cycle: 0,
                enu_origin: None,
            }),
    {
        FusionState {
            log_throttle_us,
            latest_ts_us: 0,
            last_log_ts_us: 0,
            last_imu_ts_us: 0,
            cycle: 0,
            enu_origin: None,
        }
    }

    /// Processes one message: decides the sensor work, advances the clocks,
    /// seeds the ENU origin on the first GPS fix, counts the cycle and decides
    /// whether its estimate is logged.
    pub fn step(&mut self, msg: &SensorMessage) -> (out: FusionStep)
        requires
            old(self).cycle < u64::MAX,
        ensures
            *final(self) == old(self).next(*msg),
            out == old(self).outcome(*msg),
    {
        let ts = msg.timestamp_us();
        let latest = if ts >= self.latest_ts_us {
            ts
        } else {
            self.latest_ts_us
        };
        self.latest_ts_us = latest;
        let action = match msg {
            SensorMessage::Imu(p) => {
                let gyro_dt_us = if self.last_imu_ts_us > 0 {
                    Some(p.timestamp_us.saturating_sub(self.last_imu_ts_us))
                } else {
                    None
                };
                self.last_imu_ts_us = p.timestamp_us;
                FusionAction::Imu { packet: *p, gyro_dt_us }
            },
            SensorMessage::Baro(p) => FusionAction::Baro { packet: *p },
            SensorMessage::Gps(p) => {
                let origin = match self.enu_origin {
                    Some(o) => o,
                    None => {
                        let o = EnuOrigin {
                            latitude_bits: p.latitude_bits,
                            longitude_bits: p.longitude_bits,
                            altitude_bits: p.altitude_bits,
                        };
                        self.enu_origin = Some(o);
                        o
                    },
                };
                FusionAction::Gps { packet: *p, origin }
            },
        };
        self.cycle = self.cycle + 1;
        let log = latest.saturating_sub(self.last_log_ts_us) >= self.log_throttle_us;
        if log {
            self.last_log_ts_us = latest;
        }
        FusionStep { action, timestamp_us: latest, cycle: self.cycle, log }
    }
}

/// The latest timestamp among `msgs`, 0 when there is none.
pub open spec fn max_timestamp(msgs: Seq<SensorMessage>) -> u64
    decreases msgs.len(),
{
    if msgs.len() == 0 {
        0
    } else {
        later(msgs[0].timestamp(), max_timestamp(msgs.drop_first()))
    }
}

/// The origin that the first GPS fix among `msgs` sets, if there is one.
pub open spec fn first_fix(msgs: Seq<SensorMessage>) -> Option<EnuOrigin>
    decreases msgs.len(),
{
    if msgs.len() == 0 {
        None
    } else {
        match msgs[0] {
            SensorMessage::Gps(p) => Some(origin_of(p)),
            _ => first_fix(msgs.drop_first()),
        }
    }
}

/// The timestamp of the last IMU sample among `msgs`, if there is one.
pub open spec fn last_imu_stamp(msgs: Seq<SensorMessage>) -> Option<u64>
    decreases msgs.len(),
{
    if msgs.len() == 0 {
        None
    } else {
        match last_imu_stamp(msgs.drop_first()) {
            Some(t) => Some(t),
            None => match msgs[0] {
                SensorMessage::Imu(p) => Some(p.timestamp_us),
                _ => None,
            },
        }
    }
}

/// Gyro and acceleration are integrated from the second IMU sample on, each
/// over the time since the IMU sample before it: after any messages, the loop
/// holds the timestamp of the last IMU sample among them (or what it held
/// before, when there is none), and the next IMU sample integrates over the
/// time since that one, or not at all when no IMU sample was ever seen.
pub proof fn law_gyro_interval_follows_last_imu(s: FusionState, msgs: Seq<SensorMessage>, p: ImuPacket)
    ensures
        s.run(msgs).last_imu_ts_us == match last_imu_stamp(msgs) {
            Some(t) => t,
            None => s.last_imu_ts_us,
        },
        s.run(msgs).outcome(SensorMessage::Imu(p)).action == (FusionAction::Imu {
            packet: p,
            gyro_dt_us: if s.run(msgs).last_imu_ts_us > 0 {
                Some(elapsed(p.timestamp_us, s.run(msgs).last_imu_ts_us))
            } else {
                None
            },
        }),
    decreases msgs.len(),
{
    if msgs.len() > 0 {
        law_gyro_interval_follows_last_imu(s.next(msgs[0]), msgs.drop_first(), p);
    }
}

/// Each action carries the received packet unchanged: the sensor work is done
/// on the message's own readings, whatever the state.
pub proof fn law_action_carries_packet(
    s: FusionState,
    gps: GpsPacket,
    imu: ImuPacket,
    baro: BaroPacket,
)
    ensures
        s.outcome(SensorMessage::Baro(baro)).action == (FusionAction::Baro { packet: baro }),
        s.outcome(SensorMessage::Imu(imu)).action matches FusionAction::Imu { packet, .. } && packet
            == imu,
        s.outcome(SensorMessage::Gps(gps)).action matches FusionAction::Gps { packet, .. } && packet
            == gps,
{
}

/// The first GPS fix sets the origin to its own position: the origin of its
/// action, and the one the state keeps, hold that fix's latitude, longitude
/// and altitude; a later fix is projected about the kept origin, whatever its
/// own position.
pub proof fn law_first_fix_origin_fields(s: FusionState, p: GpsPacket)
    ensures
        s.enu_origin is None ==> (s.outcome(SensorMessage::Gps(p)).action matches FusionAction::Gps {
            origin,
            ..
        } && origin.latitude_bits == p.latitude_bits && origin.longitude_bits == p.longitude_bits
            && origin.altitude_bits == p.altitude_bits && s.next(SensorMessage::Gps(p)).enu_origin
            == Some(origin)),
        s.enu_origin is Some ==> (s.outcome(SensorMessage::Gps(p)).action matches FusionAction::Gps {
            origin,
            ..
        } && Some(origin) == s.enu_origin && s.next(SensorMessage::Gps(p)).enu_origin
            == s.enu_origin),
{
}

/// The timestamp that a step reports is the latest timestamp of the state it
/// leaves: never older than any timestamp seen before, never older than the
/// message's own packet timestamp, and equal to one of the two, for every kind
/// of sensor.
pub proof fn law_step_timestamp_is_latest(s: FusionState, gps: GpsPacket, imu: ImuPacket, baro: BaroPacket)
    ensures
        s.outcome(SensorMessage::Gps(gps)).timestamp_us == s.next(SensorMessage::Gps(gps)).latest_ts_us,
        s.outcome(SensorMessage::Imu(imu)).timestamp_us == s.next(SensorMessage::Imu(imu)).latest_ts_us,
        s.outcome(SensorMessage::Baro(baro)).timestamp_us == s.next(SensorMessage::Baro(baro)).latest_ts_us,
        s.outcome(SensorMessage::Gps(gps)).timestamp_us == if gps.timestamp_us >= s.latest_ts_us {
            gps.timestamp_us
        } else {
            s.latest_ts_us
        },
        s.outcome(SensorMessage::Imu(imu)).timestamp_us == if imu.timestamp_us >= s.latest_ts_us {
            imu.timestamp_us
        } else {
            s.latest_ts_us
        },
        s.outcome(SensorMessage::Baro(baro)).timestamp_us == if baro.timestamp_us >= s.latest_ts_us {
            baro.timestamp_us
        } else {
            s.latest_ts_us
        },
{
}

/// The cycle counter counts the messages processed.
pub proof fn law_cycle_counts_messages(s: FusionState, msgs: Seq<SensorMessage>)
    requires
        s.cycle + msgs.len() <= u64::MAX,
    ensures
        s.run(msgs).cycle == s.cycle + msgs.len(),
    decreases msgs.len(),
{
    if msgs.len() > 0 {
        law_cycle_counts_messages(s.next(msgs[0]), msgs.drop_first());
    }
}

/// Each estimate carries the latest sensor timestamp seen so far, whatever the
/// order in which the sensors' packets arrive.
pub proof fn law_latest_is_running_max(s: FusionState, msgs: Seq<SensorMessage>)
    ensures
        s.run(msgs).latest_ts_us == later(s.latest_ts_us, max_timestamp(msgs)),
    decreases msgs.len(),
{
    if msgs.len() > 0 {
        law_latest_is_running_max(s.next(msgs[0]), msgs.drop_first());
    }
}

/// The ENU origin is set by the first GPS fix and never moves afterwards.
pub proof fn law_origin_is_first_fix(s: FusionState, msgs: Seq<SensorMessage>)
    ensures
        s.run(msgs).enu_origin == match s.enu_origin {
            Some(o) => Some(o),
            None => first_fix(msgs),
        },
    decreases msgs.len(),
{
    if msgs.len() > 0 {
        law_origin_is_first_fix(s.next(msgs[0]), msgs.drop_first());
    }
}

/// The log throttle never changes while messages are processed, so the
/// per-cycle throttling laws below hold at every cycle of a run.
pub proof fn law_throttle_is_fixed(s: FusionState, msgs: Seq<SensorMessage>)
    ensures
        s.run(msgs).log_throttle_us == s.log_throttle_us,
    decreases msgs.len(),
{
    if msgs.len() > 0 {
        law_throttle_is_fixed(s.next(msgs[0]), msgs.drop_first());
    }
}

/// A throttle of 0 logs every cycle.
pub proof fn law_zero_throttle_logs_every_cycle(s: FusionState, msg: SensorMessage)
    requires
        s.log_throttle_us == 0,
    ensures
        s.outcome(msg).log,
{
}

/// Logged estimates are at least the throttle interval apart: a logged cycle
/// moves the log mark forward by at least the interval, and a cycle that is
/// not logged leaves it where it was.
pub proof fn law_log_lines_spaced(s: FusionState, msg: SensorMessage)
    ensures
        s.outcome(msg).log ==> s.next(msg).last_log_ts_us == s.next(msg).latest_ts_us,
        s.outcome(msg).log && s.log_throttle_us > 0 ==> s.next(msg).last_log_ts_us
            >= s.last_log_ts_us + s.log_throttle_us,
        !s.outcome(msg).log ==> s.next(msg).last_log_ts_us == s.last_log_ts_us,
{
}

/// The loop's IMU timestamp and the filter's clock agree: both hold the
/// same nonzero timestamp of the last IMU sample, or neither has one.
pub open spec fn imu_clocks_agree(s: FusionState, clock: FilterClock) -> bool {
    match clock.last_imu_timestamp() {
        Some(t) => t > 0 && s.last_imu_ts_us == t,
        None => s.last_imu_ts_us == 0,
    }
}

/// The orientation and the altitude channel integrate each IMU sample over the
/// same interval: while the loop's IMU timestamp and the filter's clock agree
/// (as they do from the start), an IMU sample gives the gyro the interval that
/// the filter integrates over; a sample with a nonzero timestamp keeps the two
/// in agreement. (A sample stamped 0 is where they part: the filter measures
/// the next sample from it, the loop does not integrate the next sample.)
pub proof fn law_gyro_and_filter_share_interval(s: FusionState, clock: FilterClock, p: ImuPacket)
    requires
        imu_clocks_agree(s, clock),
    ensures
        s.outcome(SensorMessage::Imu(p)).action == (FusionAction::Imu {
            packet: p,
            gyro_dt_us: clock.imu_delta(p.timestamp_us),
        }),
        p.timestamp_us > 0 ==> imu_clocks_agree(
            s.next(SensorMessage::Imu(p)),
            clock.after_imu(p.timestamp_us),
        ),
{
    assert(clock.after_imu(p.timestamp_us).last_imu_timestamp() == Some(p.timestamp_us)) by {
        FilterClock::lemma_after_imu_reference(clock, p.timestamp_us);
    }
}

} // verus!
