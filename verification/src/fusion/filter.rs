//! The integer side of the single-axis complementary filter: the timestamp
//! reference from which each IMU integration step takes its Δt, and the
//! diagnostic update counters.
//!
//! The blend itself (altitude and vertical velocity) is floating-point
//! arithmetic and lives with the engine; it asks this clock, on every IMU
//! sample, whether to integrate and over how many microseconds.

use vstd::prelude::*;

verus! {

/// `a - b`, or 0 when `b` is larger (saturating subtraction).
pub open spec fn elapsed(a: u64, b: u64) -> u64 {
    if a >= b {
        (a - b) as u64
    } else {
        0
    }
}

/// One call on a filter: an IMU sample taken at `timestamp_us`, or an
/// absolute altitude update.
#[derive(Debug, Clone, Copy, PartialEq, Eq, Structural)]
pub enum FilterUpdate {
    Imu { timestamp_us: u64 },
    Absolute,
}

/// Timestamp reference and update counters of a complementary filter.
#[derive(Debug, Clone, Copy)]
pub struct FilterClock {
    /// Timestamp of the last IMU sample (µs); `None` until the first one.
    last_imu_timestamp_us: Option<u64>,
    /// Running count of IMU updates that integrated.
    imu_update_count: u64,
    /// Running count of absolute updates.
    abs_update_count: u64,
}

impl FilterClock {
    /// Timestamp of the last IMU sample seen (µs), `None` before the first.
    pub closed spec fn last_imu_timestamp(self) -> Option<u64> {
        self.last_imu_timestamp_us
    }

    /// Number of IMU updates that advanced the filter.
    pub closed spec fn imu_updates(self) -> u64 {
        self.imu_update_count
    }

    /// Number of absolute (GPS / barometer) updates.
    pub closed spec fn abs_updates(self) -> u64 {
        self.abs_update_count
    }

    /// Whether the next IMU sample integrates: once any IMU sample has set the
    /// timestamp reference.
    pub open spec fn is_referenced(self) -> bool {
        self.last_imu_timestamp() is Some
    }

    /// The interval (µs) that an IMU sample at `timestamp_us` integrates over:
    /// the time since the previous sample (0 when the clock runs backwards),
    /// `None` for the first sample.
    pub open spec fn imu_delta(self, timestamp_us: u64) -> Option<u64> {
        match self.last_imu_timestamp() {
            Some(last) => Some(elapsed(timestamp_us, last)),
            None => None,
        }
    }

    /// The clock of a new filter: no reference, no updates.
    pub closed spec fn initial() -> FilterClock {
        FilterClock { last_imu_timestamp_us: None, imu_update_count: 0, abs_update_count: 0 }
    }

    /// The clock after an IMU sample at `timestamp_us`.
    pub closed spec fn after_imu(self, timestamp_us: u64) -> FilterClock {
        FilterClock {
            last_imu_timestamp_us: Some(timestamp_us),
            imu_update_count: if self.is_referenced() {
                (self.imu_update_count + 1) as u64
            } else {
                self.imu_update_count
            },
            abs_update_count: self.abs_update_count,
        }
    }

    /// The clock after an absolute update.
    pub closed spec fn after_absolute(self) -> FilterClock {
        FilterClock {
            last_imu_timestamp_us: self.last_imu_timestamp_us,
            imu_update_count: self.imu_update_count,
            abs_update_count: (self.abs_update_count + 1) as u64,
        }
    }

    /// The clock after one call.
    pub open spec fn after(self, update: FilterUpdate) -> FilterClock {
        match update {
            FilterUpdate::Imu { timestamp_us } => self.after_imu(timestamp_us),
            FilterUpdate::Absolute => self.after_absolute(),
        }
    }

    /// The clock after a sequence of calls, in order.
    pub open spec fn replay(self, updates: Seq<FilterUpdate>) -> FilterClock
        decreases updates.len(),
    {
        if updates.len() == 0 {
            self
        } else {
            self.after(updates[0]).replay(updates.drop_first())
        }
    }

    /// An IMU sample sets the reference to its own timestamp.
    pub proof fn lemma_after_imu_reference(self, timestamp_us: u64)
        ensures
            self.after_imu(timestamp_us).last_imu_timestamp() == Some(timestamp_us),
    {
    }

    /// The clock of a new filter: no reference, no updates.
    pub fn new() -> (clock: FilterClock)
        ensures
            clock == FilterClock::initial(),
            clock.last_imu_timestamp() is None,
            clock.imu_updates() == 0,
            clock.abs_updates() == 0,
    {
        FilterClock { last_imu_timestamp_us: None, imu_update_count: 0, abs_update_count: 0 }
    }

    /// Timestamp of the last IMU sample seen (µs), `None` before the first.
    pub fn last_imu_timestamp_us(&self) -> (ts: Option<u64>)
        ensures
            ts == self.last_imu_timestamp(),
    {
        self.last_imu_timestamp_us
    }

    /// Accounts for an IMU sample taken at `timestamp_us`.
    ///
    /// The first sample only sets the timestamp reference and returns `None`:
    /// the filter is not advanced, since Δt would be undefined. Every later
    /// sample returns `Some(Δt)` in microseconds, the time since the previous
    /// sample (0 when the clock runs backwards), and counts one IMU update.
    pub fn update_imu(&mut self, timestamp_us: u64) -> (delta_us: Option<u64>)
        requires
            old(self).is_referenced() ==> old(self).imu_updates() < u64::MAX,
        ensures
            *final(self) == old(self).after_imu(timestamp_us),
            final(self).last_imu_timestamp() == Some(timestamp_us),
            final(self).abs_updates() == old(self).abs_updates(),
            delta_us == old(self).imu_delta(timestamp_us),
            final(self).imu_updates() == if old(self).is_referenced() {
                old(self).imu_updates() + 1
            } else {
                old(self).imu_updates() as int
            },
    {
        let delta_us = match self.last_imu_timestamp_us {
            Some(last) => {
                self.imu_update_count = self.imu_update_count + 1;
                Some(timestamp_us.saturating_sub(last))
            },
            None => None,
        };
        self.last_imu_timestamp_us = Some(timestamp_us);
        delta_us
    }

    /// Accounts for an absolute altitude update (GPS or barometer).
    pub fn update_absolute(&mut self)
        requires
            old(self).abs_updates() < u64::MAX,
        ensures
            *final(self) == old(self).after_absolute(),
            final(self).abs_updates() == old(self).abs_updates() + 1,
            final(self).imu_updates() == old(self).imu_updates(),
            final(self).last_imu_timestamp() == old(self).last_imu_timestamp(),
    {
        self.abs_update_count = self.abs_update_count + 1;
    }

    /// Diagnostic snapshot: (imu_updates, abs_updates).
    pub fn update_counts(&self) -> (counts: (u64, u64))
        ensures
            counts == (self.imu_updates(), self.abs_updates()),
    {
        (self.imu_update_count, self.abs_update_count)
    }
}

/// The interval that an IMU sample integrates over is the time since the
/// previous sample: added to the previous timestamp it gives the new one when
/// time moves forward; it is 0 when time runs backwards; there is none before
/// the first sample.
pub proof fn law_imu_interval_is_time_since_previous(clock: FilterClock, timestamp_us: u64)
    ensures
        clock.last_imu_timestamp() is None ==> clock.imu_delta(timestamp_us) is None,
        clock.last_imu_timestamp() matches Some(last) ==> {
            &&& clock.imu_delta(timestamp_us) is Some
            &&& timestamp_us >= last ==> last + clock.imu_delta(timestamp_us).unwrap() == timestamp_us
            &&& timestamp_us < last ==> clock.imu_delta(timestamp_us).unwrap() == 0
        },
{
}

/// Number of IMU samples among `updates`.
pub open spec fn imu_samples(updates: Seq<FilterUpdate>) -> nat
    decreases updates.len(),
{
    if updates.len() == 0 {
        0
    } else {
        (if updates[0] is Imu {
            1nat
        } else {
            0nat
        }) + imu_samples(updates.drop_first())
    }
}

/// Number of absolute updates among `updates`.
pub open spec fn absolute_samples(updates: Seq<FilterUpdate>) -> nat
    decreases updates.len(),
{
    if updates.len() == 0 {
        0
    } else {
        (if updates[0] is Absolute {
            1nat
        } else {
            0nat
        }) + absolute_samples(updates.drop_first())
    }
}

proof fn lemma_replay_counts(c: FilterClock, updates: Seq<FilterUpdate>)
    requires
        c.imu_updates() + updates.len() <= u64::MAX,
        c.abs_updates() + updates.len() <= u64::MAX,
    ensures
        c.replay(updates).abs_updates() == c.abs_updates() + absolute_samples(updates),
        c.replay(updates).imu_updates() == c.imu_updates() + imu_samples(updates) - (if !c.is_referenced()
            && imu_samples(updates) > 0 {
            1int
        } else {
            0int
        }),
        c.replay(updates).is_referenced() == (c.is_referenced() || imu_samples(updates) > 0),
    decreases updates.len(),
{
    if updates.len() > 0 {
        lemma_replay_counts(c.after(updates[0]), updates.drop_first());
    }
}

/// The update counts of a filter follow from its calls alone: after k ≥ 1 IMU
/// samples and m absolute updates, in any order and with any timestamps, a new
/// filter reports (k − 1, m), since the first IMU sample only sets the
/// timestamp reference; with no IMU sample it reports (0, m).
pub proof fn law_update_counts(updates: Seq<FilterUpdate>)
    requires
        updates.len() <= u64::MAX,
    ensures
        FilterClock::initial().replay(updates).abs_updates() == absolute_samples(updates),
        imu_samples(updates) >= 1 ==> FilterClock::initial().replay(updates).imu_updates()
            == imu_samples(updates) - 1,
        imu_samples(updates) == 0 ==> FilterClock::initial().replay(updates).imu_updates() == 0,
{
    lemma_replay_counts(FilterClock::initial(), updates);
}

} // verus!
