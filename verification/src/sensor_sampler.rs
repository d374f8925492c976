//! The periodic sample source: a drift-free schedule over one sensor.
//!
//! Each tick is scheduled at `start + n * interval`, a function of the tick
//! count alone — never relative to when the previous tick actually ran — so
//! transient scheduling delay does not accumulate as drift.  The embedding
//! sleeps until the deadline and polls; the schedule decides whether a tick
//! is due and performs the reading.

use vstd::prelude::*;
use crate::gpio::{Gpio, Error, pin_valid, level_high};
use crate::moist_sensor::{MoistSensor, level_value, read_applied, read_ops, clear_applied, clear_ops};

verus! {

/// The interval in milliseconds of an interval given in seconds, saturated
/// to the u64 range.
pub open spec fn interval_millis_of(interval_secs: u64) -> u64 {
    if interval_secs as int * 1000 > u64::MAX as int {
        u64::MAX
    } else {
        (interval_secs * 1000) as u64
    }
}

/// A periodic producer of `(timestamp, value)` samples, one per tick of a
/// fixed wall-clock interval.
#[derive(Debug)]
pub struct SensorSampler {
    sensor: MoistSensor,
    start_millis: u64,
    interval_millis: u64,
    ticks: u64,
}

impl SensorSampler {
    /// The sensor the sampler reads.
    pub closed spec fn spec_sensor(&self) -> MoistSensor {
        self.sensor
    }

    /// The instant the schedule started, in milliseconds.
    pub closed spec fn spec_start_millis(&self) -> u64 {
        self.start_millis
    }

    /// The tick interval in milliseconds.
    pub closed spec fn spec_interval_millis(&self) -> u64 {
        self.interval_millis
    }

    /// How many ticks have fired.
    pub closed spec fn spec_ticks(&self) -> u64 {
        self.ticks
    }

    /// The moment the next tick fires: `start + (ticks + 1) * interval`.
    pub open spec fn deadline(&self) -> int {
        self.spec_start_millis() + (self.spec_ticks() + 1) * self.spec_interval_millis()
    }

    /// A sampler over `sensor`, ticking every `interval_secs` seconds from
    /// `start_millis`.
    pub fn new(sensor: MoistSensor, start_millis: u64, interval_secs: u64) -> (r: SensorSampler)
        ensures
            r.spec_sensor() == sensor,
            r.spec_start_millis() == start_millis,
            r.spec_interval_millis() == interval_millis_of(interval_secs),
            r.spec_ticks() == 0,
    {
        let prod: u128 = (interval_secs as u128) * 1000;
        let interval_millis: u64 = if prod > u64::MAX as u128 {
            u64::MAX
        } else {
            prod as u64
        };
        SensorSampler { sensor, start_millis, interval_millis, ticks: 0 }
    }

    /// The sensor the sampler reads, for the embedding's settle wait.
    pub fn sensor(&self) -> (r: &MoistSensor)
        ensures
            *r == self.spec_sensor(),
    {
        &self.sensor
    }

    /// The next deadline, saturated to the u64 range, for the embedding's
    /// interval sleep.
    pub fn deadline_millis(&self) -> (r: u64)
        ensures
            r as int == if self.deadline() > u64::MAX as int {
                u64::MAX as int
            } else {
                self.deadline()
            },
    {
        proof {
            vstd::arithmetic::mul::lemma_mul_upper_bound(
                self.ticks as int + 1,
                0x1_0000_0000_0000_0000,
                self.interval_millis as int,
                0xffff_ffff_ffff_ffff,
            );
        }
        let d: u128 = (self.start_millis as u128) + ((self.ticks as u128) + 1) * (
        self.interval_millis as u128);
        if d > u64::MAX as u128 {
            u64::MAX
        } else {
            d as u64
        }
    }

    /// Advance the schedule: before the deadline nothing is produced.  At or
    /// after it, one sample is read, stamped with `now_millis`, and the tick
    /// count moves one forward.  A read failure is final for the sequence —
    /// the caller tears the sensor down and stops.
    pub fn poll(&mut self, now_millis: u64, gpio: &mut Gpio) -> (r: Result<
        Option<(u64, u32)>,
        Error,
    >)
        requires
            old(gpio).wf(),
            old(self).spec_ticks() < u64::MAX,
        ensures
            final(gpio).wf(),
            final(self).spec_sensor() == old(self).spec_sensor(),
            final(self).spec_start_millis() == old(self).spec_start_millis(),
            final(self).spec_interval_millis() == old(self).spec_interval_millis(),
            (now_millis as int) < old(self).deadline() ==> (r == Result::<
                Option<(u64, u32)>,
                Error,
            >::Ok(None) && final(self).spec_ticks() == old(self).spec_ticks()
                && final(gpio)@ == old(gpio)@ && final(gpio).log() == old(gpio).log()),
            (now_millis as int) >= old(self).deadline() && pin_valid(
                old(self).spec_sensor().spec_power_pin(),
            ) && pin_valid(old(self).spec_sensor().spec_sense_pin()) ==> (r == Result::<
                Option<(u64, u32)>,
                Error,
            >::Ok(
                Some(
                    (
                        now_millis,
                        level_value(
                            old(self).spec_sensor().spec_polarity(),
                            level_high(old(gpio)@, old(self).spec_sensor().spec_sense_pin()),
                        ),
                    ),
                ),
            ) && final(self).spec_ticks() == old(self).spec_ticks() + 1
                && final(gpio)@ == read_applied(old(gpio)@, old(self).spec_sensor().spec_power_pin())
                && final(gpio).log() == old(gpio).log() + read_ops(old(self).spec_sensor().spec_power_pin())),
            (now_millis as int) >= old(self).deadline() && !pin_valid(
                old(self).spec_sensor().spec_power_pin(),
            ) ==> (r == Result::<Option<(u64, u32)>, Error>::Err(
                Error { pin: old(self).spec_sensor().spec_power_pin() },
            ) && final(gpio)@ == old(gpio)@ && final(gpio).log() == old(gpio).log()),
            (now_millis as int) >= old(self).deadline() && pin_valid(
                old(self).spec_sensor().spec_power_pin(),
            ) && !pin_valid(old(self).spec_sensor().spec_sense_pin()) ==> (r == Result::<
                Option<(u64, u32)>,
                Error,
            >::Err(Error { pin: old(self).spec_sensor().spec_sense_pin() })
                && final(gpio)@ == read_applied(old(gpio)@, old(self).spec_sensor().spec_power_pin())
                && final(gpio).log() == old(gpio).log() + read_ops(old(self).spec_sensor().spec_power_pin())),
            r is Err ==> final(self).spec_ticks() == old(self).spec_ticks(),
    {
        proof {
            vstd::arithmetic::mul::lemma_mul_upper_bound(
                self.ticks as int + 1,
                0x1_0000_0000_0000_0000,
                self.interval_millis as int,
                0xffff_ffff_ffff_ffff,
            );
        }
        let d: u128 = (self.start_millis as u128) + ((self.ticks as u128) + 1) * (
        self.interval_millis as u128);
        if (now_millis as u128) < d {
            return Ok(None);
        }
        let value = self.sensor.read(gpio)?;
        self.ticks = self.ticks + 1;
        Ok(Some((now_millis, value)))
    }

    /// Advance the schedule without reading: true exactly when the deadline
    /// has passed, moving the tick count one forward.  An embedding that
    /// reads the probe from device memory drives its reads off this, so the
    /// hardware pipeline follows the same drift-free schedule the window
    /// pipeline proves.
    pub fn advance(&mut self, now_millis: u64) -> (r: bool)
        requires
            old(self).spec_ticks() < u64::MAX,
        ensures
            final(self).spec_sensor() == old(self).spec_sensor(),
            final(self).spec_start_millis() == old(self).spec_start_millis(),
            final(self).spec_interval_millis() == old(self).spec_interval_millis(),
            r == ((now_millis as int) >= old(self).deadline()),
            r ==> final(self).spec_ticks() == old(self).spec_ticks() + 1,
            !r ==> final(self).spec_ticks() == old(self).spec_ticks(),
    {
        proof {
            vstd::arithmetic::mul::lemma_mul_upper_bound(
                self.ticks as int + 1,
                0x1_0000_0000_0000_0000,
                self.interval_millis as int,
                0xffff_ffff_ffff_ffff,
            );
        }
        let d: u128 = (self.start_millis as u128) + ((self.ticks as u128) + 1) * (
        self.interval_millis as u128);
        if (now_millis as u128) < d {
            return false;
        }
        self.ticks = self.ticks + 1;
        true
    }

    /// Tear the sensor down.  Must run exactly once when the sequence ends,
    /// whether it ended normally or by a failed read.
    pub fn finish(&self, gpio: &mut Gpio) -> (r: Result<(), Error>)
        requires
            old(gpio).wf(),
        ensures
            final(gpio).wf(),
            pin_valid(self.spec_sensor().spec_power_pin()) && pin_valid(
                self.spec_sensor().spec_sense_pin(),
            ) ==> (r is Ok && final(gpio)@ == clear_applied(
                old(gpio)@,
                self.spec_sensor().spec_power_pin(),
                self.spec_sensor().spec_sense_pin(),
            ) && final(gpio).log() == old(gpio).log() + clear_ops(
                self.spec_sensor().spec_power_pin(),
                self.spec_sensor().spec_sense_pin(),
            )),
    {
        self.sensor.clear(gpio)
    }
}

/// Law: the schedule is drift-free.  A produced tick moves the deadline
/// forward by exactly one interval from the previous deadline — the
/// deadlines are `start + n * interval`, whatever delays the ticks saw.
pub proof fn lemma_drift_free(s0: SensorSampler, s1: SensorSampler)
    requires
        s1.spec_ticks() == s0.spec_ticks() + 1,
        s1.spec_start_millis() == s0.spec_start_millis(),
        s1.spec_interval_millis() == s0.spec_interval_millis(),
    ensures
        s1.deadline() == s0.deadline() + s0.spec_interval_millis(),
{
    let t = s0.spec_ticks() as int;
    let iv = s0.spec_interval_millis() as int;
    assert((t + 2) * iv == (t + 1) * iv + iv) by (nonlinear_arith);
}

} // verus!
