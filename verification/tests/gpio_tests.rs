use moist_sensor::gpio::registers::{
    pin_clear_value, pin_fsel_field, pin_lev_field, pin_pudclk_value, pin_set_value, GPCLR0,
    GPCLR1, GPIO_MEM_SIZE, GPIO_REG_COUNT, GPLEV0, GPPUD, GPPUDCLK0, GPPUDCLK1, GPSET0, GPSET1,
};
use moist_sensor::gpio::{validate_pin, Gpio, Level, Mode, PullUpDown};

#[test]
fn window_is_168_bytes_of_42_registers() {
    assert_eq!(GPIO_MEM_SIZE, 168);
    assert_eq!(GPIO_REG_COUNT, 42);
    assert_eq!(GPIO_MEM_SIZE, GPIO_REG_COUNT * 4);
}

#[test]
fn validate_pin_accepts_only_the_window() {
    for pin in 0u8..=54 {
        assert!(validate_pin(pin).is_ok());
    }
    for pin in 55u8..=255 {
        let err = validate_pin(pin).unwrap_err();
        assert_eq!(err.pin, pin);
    }
}

#[test]
fn mode_roundtrip_over_every_pin_and_mode() {
    let modes = [
        Mode::Input,
        Mode::Output,
        Mode::Alt0,
        Mode::Alt1,
        Mode::Alt2,
        Mode::Alt3,
        Mode::Alt4,
        Mode::Alt5,
    ];
    let mut gpio = Gpio::new();
    for pin in 0u8..=54 {
        for mode in modes.iter() {
            gpio.set_mode(pin, *mode).unwrap();
            assert_eq!(gpio.read_mode(pin).unwrap(), *mode);
        }
    }
}

#[test]
fn mode_codes_follow_the_peripheral_manual() {
    assert_eq!(Mode::Input.code(), 0);
    assert_eq!(Mode::Output.code(), 1);
    assert_eq!(Mode::Alt0.code(), 4);
    assert_eq!(Mode::Alt1.code(), 5);
    assert_eq!(Mode::Alt2.code(), 6);
    assert_eq!(Mode::Alt3.code(), 7);
    assert_eq!(Mode::Alt4.code(), 3);
    assert_eq!(Mode::Alt5.code(), 2);
}

#[test]
fn set_mode_touches_only_the_pin_field() {
    let mut gpio = Gpio::new();
    // Fill every function-select field of register 1 (pins 10..19), then
    // rewrite one pin and check its neighbours are untouched.
    for pin in 10u8..20 {
        gpio.set_mode(pin, Mode::Alt3).unwrap();
    }
    gpio.set_mode(14, Mode::Output).unwrap();
    assert_eq!(gpio.read_mode(14).unwrap(), Mode::Output);
    for pin in 10u8..20 {
        if pin != 14 {
            assert_eq!(gpio.read_mode(pin).unwrap(), Mode::Alt3);
        }
    }
}

#[test]
fn set_mode_rejects_out_of_window_pins() {
    let mut gpio = Gpio::new();
    let err = gpio.set_mode(55, Mode::Output).unwrap_err();
    assert_eq!(err.pin, 55);
    for i in 0..GPIO_REG_COUNT {
        assert_eq!(gpio.read_word(i), 0);
    }
}

#[test]
fn bank_resolution_is_total_and_injective() {
    // pin -> (pin / 32, pin % 32): total over the window, injective, and no
    // two pins of one bank share a strobe bit.
    let mut seen = Vec::new();
    for pin in 0u8..=54 {
        let set = pin_set_value(pin);
        let clear = pin_clear_value(pin);
        let lev = pin_lev_field(pin);
        let clk = pin_pudclk_value(pin);
        let bank = (pin / 32) as u32;
        let bit = (pin % 32) as u32;
        assert_eq!(set.mask, 1u32 << bit);
        assert_eq!(set.value, 1u32 << bit);
        assert_eq!(clear.mask, 1u32 << bit);
        assert_eq!(clear.value, 1u32 << bit);
        assert_eq!(clk.mask, 1u32 << bit);
        assert_eq!(clk.value, 1u32 << bit);
        assert_eq!(lev.mask, 1);
        assert_eq!(lev.shift, bit);
        assert!(!seen.contains(&(bank, bit)));
        seen.push((bank, bit));
    }
    assert_eq!(seen.len(), 55);
}

#[test]
fn fsel_resolution_is_total_and_injective() {
    let mut seen = Vec::new();
    for pin in 0u8..=54 {
        let f = pin_fsel_field(pin);
        assert_eq!(f.mask, 7);
        assert_eq!(f.shift, ((pin % 10) as u32) * 3);
        let word = pin / 10;
        assert!(!seen.contains(&(word, f.shift)));
        seen.push((word, f.shift));
    }
    assert_eq!(seen.len(), 55);
}

#[test]
fn set_and_clear_strobe_single_bits() {
    let mut gpio = Gpio::new();
    gpio.set(17).unwrap();
    assert_eq!(gpio.read_word(GPSET0), 1 << 17);
    assert_eq!(gpio.read_word(GPCLR0), 0);
    gpio.clear(17).unwrap();
    assert_eq!(gpio.read_word(GPCLR0), 1 << 17);
    // The second bank: pin 54 is bit 22 of bank 1.
    gpio.set(54).unwrap();
    assert_eq!(gpio.read_word(GPSET1), 1 << 22);
    gpio.clear(54).unwrap();
    assert_eq!(gpio.read_word(GPCLR1), 1 << 22);
}

#[test]
fn read_reports_the_level_register_bit() {
    let mut words = vec![0u32; GPIO_REG_COUNT];
    words[GPLEV0] = 1 << 17;
    let gpio = Gpio::from_words(words);
    assert!(gpio.read(17).unwrap().is_high());
    assert!(gpio.read(16).unwrap().is_low());
    let err = gpio.read(200).unwrap_err();
    assert_eq!(err.pin, 200);
}

#[test]
fn level_text_and_predicates() {
    assert!(Level::High.is_high());
    assert!(!Level::High.is_low());
    assert!(Level::Low.is_low());
    assert!(!Level::Low.is_high());
    assert_eq!(Level::Low.text(), "Low");
    assert_eq!(Level::High.text(), "High");
}

#[test]
fn pull_sequence_leaves_control_and_clocks_cleared() {
    let mut gpio = Gpio::new();
    gpio.set_pullupdown(&[17, 54], PullUpDown::Up).unwrap();
    // After the six steps the control bits and both clock registers are
    // back to zero: the batch's clock pulse is not left latched.
    assert_eq!(gpio.read_word(GPPUD), 0);
    assert_eq!(gpio.read_word(GPPUDCLK0), 0);
    assert_eq!(gpio.read_word(GPPUDCLK1), 0);
}

#[test]
fn pull_sequence_preserves_other_control_bits() {
    let mut words = vec![0u32; GPIO_REG_COUNT];
    words[GPPUD] = 0xffff_fffc; // bits outside the two pull bits
    let mut gpio = Gpio::from_words(words);
    gpio.set_pullupdown(&[4], PullUpDown::Down).unwrap();
    assert_eq!(gpio.read_word(GPPUD), 0xffff_fffc);
}

#[test]
fn pull_with_invalid_pin_touches_no_register() {
    let mut words = vec![0u32; GPIO_REG_COUNT];
    words[GPPUD] = 2;
    words[GPSET0] = 123;
    let mut gpio = Gpio::from_words(words.clone());
    let err = gpio.set_pullupdown(&[17, 99, 4], PullUpDown::Up).unwrap_err();
    assert_eq!(err.pin, 99);
    for i in 0..GPIO_REG_COUNT {
        assert_eq!(gpio.read_word(i), words[i]);
    }
}

#[test]
fn pull_reports_the_first_invalid_pin() {
    let mut gpio = Gpio::new();
    let err = gpio.set_pullupdown(&[60, 99], PullUpDown::Off).unwrap_err();
    assert_eq!(err.pin, 60);
}

#[test]
fn as_field_value_places_the_mode_code() {
    // Pin 17 sits in function-select register 1 at shift 21.
    let fv = Mode::Output.as_field_value(17);
    assert_eq!(fv.mask, 7 << 21);
    assert_eq!(fv.value, 1 << 21);
    let fv0 = Mode::Alt0.as_field_value(0);
    assert_eq!(fv0.mask, 7);
    assert_eq!(fv0.value, 4);
}
