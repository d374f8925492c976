//! The moisture probe protocol over the GPIO driver.
//!
//! A probe hangs on two pins: one powers it, one reads its digital output.
//! The probe corrodes when powered continuously, so it is energized only for
//! the brief settle time each reading needs, and every reading ends with the
//! power strobed off again — on the error path as well.

use vstd::prelude::*;
use crate::gpio::{
    Gpio, Mode, PullUpDown, Error, RegOp, pin_valid, energized, fsel_set, level_high,
    pull_applied, pull_ops, first_invalid, first_invalid_from, lemma_energized_push_other,
};
use crate::gpio::registers::{fsel_word, fsel_shift, set_word, clear_word, pin_bit};

verus! {

/// Which level of the sense pin counts as the sample value 1.  Probe wiring
/// varies between hardware revisions, so the mapping is configured rather
/// than hard-coded.
#[derive(Clone, Copy, Debug, PartialEq, Eq, Structural)]
pub enum Polarity {
    /// A high sense level reads as 1.
    ActiveHigh,
    /// A low sense level reads as 1.
    ActiveLow,
}

/// The sample value a sense level maps to under a polarity.
pub open spec fn level_value(polarity: Polarity, high: bool) -> u32 {
    match polarity {
        Polarity::ActiveHigh => if high {
            1u32
        } else {
            0u32
        },
        Polarity::ActiveLow => if high {
            0u32
        } else {
            1u32
        },
    }
}

/// The window after a sensor's pin initialization: sense pin to input with
/// pull-up, power pin to output with no pull.
pub open spec fn init_applied(regs: Seq<u32>, pwr: u8, val: u8) -> Seq<u32> {
    let a = regs.update(fsel_word(val), fsel_set(regs[fsel_word(val)], val, Mode::Input));
    let b = a.update(fsel_word(pwr), fsel_set(a[fsel_word(pwr)], pwr, Mode::Output));
    pull_applied(pull_applied(b))
}

/// The transactions of a sensor's pin initialization.
pub open spec fn init_ops(pwr: u8, val: u8) -> Seq<RegOp> {
    seq![
        RegOp {
            index: fsel_word(val),
            mask: 7u32 << fsel_shift(val),
            value: Mode::Input.spec_code() << fsel_shift(val),
        },
        RegOp {
            index: fsel_word(pwr),
            mask: 7u32 << fsel_shift(pwr),
            value: Mode::Output.spec_code() << fsel_shift(pwr),
        },
    ] + pull_ops(seq![val], PullUpDown::Up) + pull_ops(seq![pwr], PullUpDown::Off)
}

/// The window after a sensor teardown: power strobed off, both pins back to
/// input.
pub open spec fn clear_applied(regs: Seq<u32>, pwr: u8, val: u8) -> Seq<u32> {
    let a = regs.update(clear_word(pwr), 1u32 << pin_bit(pwr));
    let b = a.update(fsel_word(val), fsel_set(a[fsel_word(val)], val, Mode::Input));
    b.update(fsel_word(pwr), fsel_set(b[fsel_word(pwr)], pwr, Mode::Input))
}

/// The transactions of a sensor teardown.
pub open spec fn clear_ops(pwr: u8, val: u8) -> Seq<RegOp> {
    seq![
        RegOp { index: clear_word(pwr), mask: u32::MAX, value: 1u32 << pin_bit(pwr) },
        RegOp {
            index: fsel_word(val),
            mask: 7u32 << fsel_shift(val),
            value: Mode::Input.spec_code() << fsel_shift(val),
        },
        RegOp {
            index: fsel_word(pwr),
            mask: 7u32 << fsel_shift(pwr),
            value: Mode::Input.spec_code() << fsel_shift(pwr),
        },
    ]
}

/// The window and transactions of one reading: the power pin's set strobe,
/// then its clear strobe.  The sense register is only read.
pub open spec fn read_applied(regs: Seq<u32>, pwr: u8) -> Seq<u32> {
    regs.update(set_word(pwr), 1u32 << pin_bit(pwr)).update(
        clear_word(pwr),
        1u32 << pin_bit(pwr),
    )
}

/// The transactions of one reading.
pub open spec fn read_ops(pwr: u8) -> Seq<RegOp> {
    seq![
        RegOp { index: set_word(pwr), mask: u32::MAX, value: 1u32 << pin_bit(pwr) },
        RegOp { index: clear_word(pwr), mask: u32::MAX, value: 1u32 << pin_bit(pwr) },
    ]
}

/// A capability over one probe: the power pin, the sense pin, the settle
/// time the probe needs after power-up, and the polarity of the reading.
/// A stateless value — it only acts on a driver handed to it.
#[derive(Clone, Copy, Debug)]
pub struct MoistSensor {
    pwr_pin: u8,
    val_pin: u8,
    pwr_wait: u64,
    polarity: Polarity,
}

impl MoistSensor {
    /// The pin that powers the probe.
    pub closed spec fn spec_power_pin(&self) -> u8 {
        self.pwr_pin
    }

    /// The pin that senses the probe's output.
    pub closed spec fn spec_sense_pin(&self) -> u8 {
        self.val_pin
    }

    /// The settle time, in milliseconds, between energizing and sampling.
    pub closed spec fn spec_settle_millis(&self) -> u64 {
        self.pwr_wait
    }

    /// The configured polarity.
    pub closed spec fn spec_polarity(&self) -> Polarity {
        self.polarity
    }

    /// A sensor over the given pins, settle time and polarity.
    pub fn new(pwr_pin: u8, val_pin: u8, pwr_wait: u64, polarity: Polarity) -> (r: MoistSensor)
        ensures
            r.spec_power_pin() == pwr_pin,
            r.spec_sense_pin() == val_pin,
            r.spec_settle_millis() == pwr_wait,
            r.spec_polarity() == polarity,
    {
        MoistSensor { pwr_pin, val_pin, pwr_wait, polarity }
    }

    /// The pin that powers the probe.
    pub fn power_pin(&self) -> (r: u8)
        ensures
            r == self.spec_power_pin(),
    {
        self.pwr_pin
    }

    /// The pin that senses the probe's output.
    pub fn sense_pin(&self) -> (r: u8)
        ensures
            r == self.spec_sense_pin(),
    {
        self.val_pin
    }

    /// The settle time, in milliseconds, between energizing and sampling.
    pub fn settle_millis(&self) -> (r: u64)
        ensures
            r == self.spec_settle_millis(),
    {
        self.pwr_wait
    }

    /// The sample value a sense level maps to under the sensor's polarity,
    /// for an embedding that reads the level from the device itself.
    pub fn value_of_level(&self, high: bool) -> (r: u32)
        ensures
            r == level_value(self.spec_polarity(), high),
    {
        match self.polarity {
            Polarity::ActiveHigh => if high {
                1
            } else {
                0
            },
            Polarity::ActiveLow => if high {
                0
            } else {
                1
            },
        }
    }

    /// Prepare the probe's pins: sense pin to input with the pull-up enabled
    /// (a floating input would read noise while the probe is unpowered),
    /// power pin to output with no pull.
    pub fn init(&self, gpio: &mut Gpio) -> (r: Result<(), Error>)
        requires
            old(gpio).wf(),
        ensures
            final(gpio).wf(),
            pin_valid(self.spec_power_pin()) && pin_valid(self.spec_sense_pin()) ==> r is Ok
                && final(gpio)@ == init_applied(
                old(gpio)@,
                self.spec_power_pin(),
                self.spec_sense_pin(),
            ) && final(gpio).log() == old(gpio).log() + init_ops(
                self.spec_power_pin(),
                self.spec_sense_pin(),
            ),
            !pin_valid(self.spec_sense_pin()) ==> r == Result::<(), Error>::Err(
                Error { pin: self.spec_sense_pin() },
            ) && final(gpio)@ == old(gpio)@ && final(gpio).log() == old(gpio).log(),
            pin_valid(self.spec_sense_pin()) && !pin_valid(self.spec_power_pin()) ==> r
                == Result::<(), Error>::Err(Error { pin: self.spec_power_pin() }),
    {
        gpio.set_mode(self.val_pin, Mode::Input)?;
        gpio.set_mode(self.pwr_pin, Mode::Output)?;
        let vp = vec![self.val_pin];
        let pp = vec![self.pwr_pin];
        proof {
            assert(first_invalid_from(vp@, 1) == 1);
            assert(first_invalid(vp@) == 1);
            assert(first_invalid_from(pp@, 1) == 1);
            assert(first_invalid(pp@) == 1);
        }
        gpio.set_pullupdown(vp.as_slice(), PullUpDown::Up)?;
        gpio.set_pullupdown(pp.as_slice(), PullUpDown::Off)?;
        proof {
            assert(vp@ =~= seq![self.val_pin]);
            assert(pp@ =~= seq![self.pwr_pin]);
            assert(gpio.log() =~= old(gpio).log() + init_ops(
                self.spec_power_pin(),
                self.spec_sense_pin(),
            ));
        }
        Ok(())
    }

    /// Return the probe's pins to a safe idle: power strobed off, both pins
    /// back to input (high impedance).  Must run once at shutdown for every
    /// sensor that was initialized, even after a failed reading.
    pub fn clear(&self, gpio: &mut Gpio) -> (r: Result<(), Error>)
        requires
            old(gpio).wf(),
        ensures
            final(gpio).wf(),
            pin_valid(self.spec_power_pin()) && pin_valid(self.spec_sense_pin()) ==> r is Ok
                && final(gpio)@ == clear_applied(
                old(gpio)@,
                self.spec_power_pin(),
                self.spec_sense_pin(),
            ) && final(gpio).log() == old(gpio).log() + clear_ops(
                self.spec_power_pin(),
                self.spec_sense_pin(),
            ) && !energized(final(gpio).log(), self.spec_power_pin()),
            !pin_valid(self.spec_power_pin()) ==> r == Result::<(), Error>::Err(
                Error { pin: self.spec_power_pin() },
            ) && final(gpio)@ == old(gpio)@ && final(gpio).log() == old(gpio).log(),
    {
        gpio.clear(self.pwr_pin)?;
        gpio.set_mode(self.val_pin, Mode::Input)?;
        gpio.set_mode(self.pwr_pin, Mode::Input)?;
        proof {
            if pin_valid(self.pwr_pin) && pin_valid(self.val_pin) {
                assert(gpio.log() =~= old(gpio).log() + clear_ops(
                    self.spec_power_pin(),
                    self.spec_sense_pin(),
                ));
                let l0 = old(gpio).log().push(
                    RegOp {
                        index: clear_word(self.pwr_pin),
                        mask: u32::MAX,
                        value: 1u32 << pin_bit(self.pwr_pin),
                    },
                );
                let op1 = RegOp {
                    index: fsel_word(self.val_pin),
                    mask: 7u32 << fsel_shift(self.val_pin),
                    value: Mode::Input.spec_code() << fsel_shift(self.val_pin),
                };
                let op2 = RegOp {
                    index: fsel_word(self.pwr_pin),
                    mask: 7u32 << fsel_shift(self.pwr_pin),
                    value: Mode::Input.spec_code() << fsel_shift(self.pwr_pin),
                };
                lemma_energized_push_other(l0, op1, self.pwr_pin);
                lemma_energized_push_other(l0.push(op1), op2, self.pwr_pin);
            }
        }
        Ok(())
    }

    /// One probe reading: energize the power pin, let the probe settle,
    /// sample the sense pin, de-energize, and map the level to 0 or 1 by the
    /// configured polarity.  The de-energize strobe runs on the error path
    /// too, so a reading never leaves the probe powered.
    ///
    /// On hardware, the embedding waits the sensor's settle time between the
    /// energize strobe and the sample, holding the driver exclusively for
    /// the whole reading.
    pub fn read(&self, gpio: &mut Gpio) -> (r: Result<u32, Error>)
        requires
            old(gpio).wf(),
        ensures
            final(gpio).wf(),
            pin_valid(self.spec_power_pin())
                ==> !energized(final(gpio).log(), self.spec_power_pin()),
            pin_valid(self.spec_power_pin()) && pin_valid(self.spec_sense_pin())
                ==> r == Result::<u32, Error>::Ok(level_value(self.spec_polarity(), level_high(old(gpio)@, self.spec_sense_pin())))
                    && final(gpio)@ == read_applied(old(gpio)@, self.spec_power_pin())
                    && final(gpio).log() == old(gpio).log() + read_ops(self.spec_power_pin()),
            !pin_valid(self.spec_power_pin())
                ==> r == Result::<u32, Error>::Err(Error { pin: self.spec_power_pin() })
                    && final(gpio)@ == old(gpio)@ && final(gpio).log() == old(gpio).log(),
            pin_valid(self.spec_power_pin()) && !pin_valid(self.spec_sense_pin())
                ==> r == Result::<u32, Error>::Err(Error { pin: self.spec_sense_pin() })
                    && final(gpio)@ == read_applied(old(gpio)@, self.spec_power_pin())
                    && final(gpio).log() == old(gpio).log() + read_ops(self.spec_power_pin()),
    {
        gpio.set(self.pwr_pin)?;
        let lev = gpio.read(self.val_pin);
        gpio.clear(self.pwr_pin)?;
        proof {
            assert(gpio.log() =~= old(gpio).log() + read_ops(self.spec_power_pin()));
        }
        match lev {
            Ok(l) => {
                let v: u32 = match self.polarity {
                    Polarity::ActiveHigh => if l.is_high() {
                        1
                    } else {
                        0
                    },
                    Polarity::ActiveLow => if l.is_high() {
                        0
                    } else {
                        1
                    },
                };
                Ok(v)
            },
            Err(e) => Err(e),
        }
    }
}

} // verus!
