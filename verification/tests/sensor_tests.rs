use moist_sensor::gpio::registers::{
    GPCLR0, GPIO_REG_COUNT, GPLEV0, GPPUD, GPPUDCLK0, GPPUDCLK1, GPSET0,
};
use moist_sensor::gpio::{Error, Gpio, Mode};
use moist_sensor::moist_sensor::{MoistSensor, Polarity};
use moist_sensor::sensor::Sensor;

fn window_with_level(pin: u8, high: bool) -> Gpio {
    let mut words = vec![0u32; GPIO_REG_COUNT];
    if high {
        words[GPLEV0 + (pin / 32) as usize] |= 1 << (pin % 32);
    }
    Gpio::from_words(words)
}

#[test]
fn init_prepares_sense_input_and_power_output() {
    let sensor = MoistSensor::new(27, 17, 2, Polarity::ActiveLow);
    let mut gpio = Gpio::new();
    sensor.init(&mut gpio).unwrap();
    assert_eq!(gpio.read_mode(17).unwrap(), Mode::Input);
    assert_eq!(gpio.read_mode(27).unwrap(), Mode::Output);
    // Both pull sequences have run to completion: control and clocks clear.
    assert_eq!(gpio.read_word(GPPUD), 0);
    assert_eq!(gpio.read_word(GPPUDCLK0), 0);
    assert_eq!(gpio.read_word(GPPUDCLK1), 0);
}

#[test]
fn init_rejects_an_invalid_sense_pin_untouched() {
    let sensor = MoistSensor::new(27, 99, 2, Polarity::ActiveLow);
    let mut gpio = Gpio::new();
    let err = sensor.init(&mut gpio).unwrap_err();
    assert_eq!(err.pin, 99);
    for i in 0..GPIO_REG_COUNT {
        assert_eq!(gpio.read_word(i), 0);
    }
}

#[test]
fn read_maps_high_per_polarity() {
    // The probe's sense line reads high; the sample value follows the
    // configured polarity.
    let mut gpio = window_with_level(17, true);
    let active_low = MoistSensor::new(27, 17, 2, Polarity::ActiveLow);
    assert_eq!(active_low.read(&mut gpio).unwrap(), 0);
    let active_high = MoistSensor::new(27, 17, 2, Polarity::ActiveHigh);
    assert_eq!(active_high.read(&mut gpio).unwrap(), 1);
}

#[test]
fn read_maps_low_per_polarity() {
    let mut gpio = window_with_level(17, false);
    let active_low = MoistSensor::new(27, 17, 2, Polarity::ActiveLow);
    assert_eq!(active_low.read(&mut gpio).unwrap(), 1);
    let active_high = MoistSensor::new(27, 17, 2, Polarity::ActiveHigh);
    assert_eq!(active_high.read(&mut gpio).unwrap(), 0);
}

#[test]
fn read_energizes_then_clears_the_power_pin() {
    for high in [false, true] {
        for polarity in [Polarity::ActiveLow, Polarity::ActiveHigh] {
            let mut gpio = window_with_level(17, high);
            let sensor = MoistSensor::new(27, 17, 2, polarity);
            sensor.read(&mut gpio).unwrap();
            // The set strobe ran, and the clear strobe ran after it: the
            // last write to the power pin's strobe registers is the clear.
            assert_eq!(gpio.read_word(GPSET0), 1 << 27);
            assert_eq!(gpio.read_word(GPCLR0), 1 << 27);
        }
    }
}

#[test]
fn read_clears_power_even_when_the_sense_pin_is_bad() {
    // The sense read fails, but the de-energize strobe still runs.
    let mut gpio = Gpio::new();
    let sensor = MoistSensor::new(27, 99, 2, Polarity::ActiveLow);
    let err = sensor.read(&mut gpio).unwrap_err();
    assert_eq!(err.pin, 99);
    assert_eq!(gpio.read_word(GPSET0), 1 << 27);
    assert_eq!(gpio.read_word(GPCLR0), 1 << 27);
}

#[test]
fn read_with_invalid_power_pin_touches_nothing() {
    let mut gpio = Gpio::new();
    let sensor = MoistSensor::new(77, 17, 2, Polarity::ActiveLow);
    let err = sensor.read(&mut gpio).unwrap_err();
    assert_eq!(err.pin, 77);
    for i in 0..GPIO_REG_COUNT {
        assert_eq!(gpio.read_word(i), 0);
    }
}

#[test]
fn clear_returns_both_pins_to_input() {
    let sensor = MoistSensor::new(27, 17, 2, Polarity::ActiveLow);
    let mut gpio = Gpio::new();
    sensor.init(&mut gpio).unwrap();
    sensor.clear(&mut gpio).unwrap();
    assert_eq!(gpio.read_mode(17).unwrap(), Mode::Input);
    assert_eq!(gpio.read_mode(27).unwrap(), Mode::Input);
    assert_eq!(gpio.read_word(GPCLR0), 1 << 27);
}

fn pipeline_cycle<S: Sensor>(sensor: &S, gpio: &mut Gpio) -> Result<u32, Error> {
    // The pipeline sees any sensor only through the capability interface.
    sensor.init(gpio)?;
    let value = sensor.read(gpio)?;
    sensor.clear(gpio)?;
    Ok(value)
}

#[test]
fn sensor_capability_drives_a_full_cycle() {
    let mut gpio = window_with_level(17, true);
    let sensor = MoistSensor::new(27, 17, 2, Polarity::ActiveLow);
    assert_eq!(pipeline_cycle(&sensor, &mut gpio).unwrap(), 0);
    assert_eq!(gpio.read_mode(27).unwrap(), Mode::Input);
}

#[test]
fn probe_scenario_dry_reading() {
    // Sensor {power 27, sense 17, settle 2 ms}; the simulated window is
    // driven so the sense pin reads high after the probe is energized.
    let mut gpio = window_with_level(17, true);
    let sensor = MoistSensor::new(27, 17, 2, Polarity::ActiveLow);
    sensor.init(&mut gpio).unwrap();
    assert_eq!(sensor.settle_millis(), 2);
    assert_eq!(sensor.power_pin(), 27);
    assert_eq!(sensor.sense_pin(), 17);
    // With the deployed (active-low) polarity a high sense level is the
    // "dry" reading, value 0.
    let value = sensor.read(&mut gpio).unwrap();
    assert_eq!(value, 0);
    // Power is back off after the reading.
    assert_eq!(gpio.read_word(GPCLR0), 1 << 27);
}
