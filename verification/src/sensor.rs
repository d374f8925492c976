//! The sensor capability the publish pipeline depends on.

use vstd::prelude::*;
use crate::gpio::{Gpio, Error};
use crate::moist_sensor::MoistSensor;

verus! {

/// A capability over one sensor: prepare its pins, read one sample, restore
/// the pins to a safe idle.  The pipeline depends only on this interface,
/// never on a concrete probe type.
pub trait Sensor: Clone + Copy {
    /// Prepare the sensor's pins.
    fn init(&self, gpio: &mut Gpio) -> (r: Result<(), Error>)
        requires
            old(gpio).wf(),
        ensures
            final(gpio).wf(),
    ;

    /// Restore the sensor's pins to a safe idle.
    fn clear(&self, gpio: &mut Gpio) -> (r: Result<(), Error>)
        requires
            old(gpio).wf(),
        ensures
            final(gpio).wf(),
    ;

    /// Read one sample.
    fn read(&self, gpio: &mut Gpio) -> (r: Result<u32, Error>)
        requires
            old(gpio).wf(),
        ensures
            final(gpio).wf(),
    ;
}

impl Sensor for MoistSensor {
    fn init(&self, gpio: &mut Gpio) -> Result<(), Error> {
        MoistSensor::init(self, gpio)
    }

    fn clear(&self, gpio: &mut Gpio) -> Result<(), Error> {
        MoistSensor::clear(self, gpio)
    }

    fn read(&self, gpio: &mut Gpio) -> Result<u32, Error> {
        MoistSensor::read(self, gpio)
    }
}

} // verus!
