use moist_sensor::gpio::registers::GPIO_REG_COUNT;
use moist_sensor::gpio::{Gpio, Mode};
use moist_sensor::moist_sensor::Polarity;
use moist_sensor::sensor_config::{from_toml, ConfigValue, SensorConfig, SensorsConfig};
use moist_sensor::sensor_setup::setup;

fn one_sensor_toml() -> &'static str {
    "[sensors.plant1]\nsensor_type = \"moisture\"\npwr_pin = 27\nval_pin = 17\n"
}

#[test]
fn from_toml_reads_one_record_with_defaults() {
    let config = from_toml(one_sensor_toml()).unwrap();
    assert_eq!(config.sensors.len(), 1);
    let s = &config.sensors[0];
    assert_eq!(s.id, "plant1");
    assert_eq!(s.sensor_type, "moisture");
    assert_eq!(s.pwr, 27);
    assert_eq!(s.val, 17);
    assert_eq!(s.pwr_wait, 2);
    assert_eq!(s.interval, 1);
    assert_eq!(s.polarity, Polarity::ActiveLow);
}

#[test]
fn from_toml_reads_explicit_durations() {
    let text = "[sensors.plant1]\nsensor_type = \"moisture\"\npwr_pin = 27\nval_pin = 17\npwr_wait = 5\ninterval = 30\n";
    let config = from_toml(text).unwrap();
    assert_eq!(config.sensors[0].pwr_wait, 5);
    assert_eq!(config.sensors[0].interval, 30);
}

#[test]
fn from_toml_reports_a_missing_key() {
    let text = "[sensors.plant1]\nsensor_type = \"moisture\"\npwr_pin = 27\n";
    let err = from_toml(text).unwrap_err();
    assert_eq!(err.key, "sensors.plant1.val_pin");
    assert_eq!(err.cause, "Was expected but not found");
}

#[test]
fn from_toml_reports_a_wrong_type() {
    let text = "[sensors.plant1]\nsensor_type = \"moisture\"\npwr_pin = \"27\"\nval_pin = 17\n";
    let err = from_toml(text).unwrap_err();
    assert_eq!(err.key, "sensors.plant1.pwr_pin");
    assert_eq!(err.cause, "Is not valid type, expected 'integer' but found 'string'");
}

#[test]
fn from_toml_reports_a_non_string_sensor_type() {
    let text = "[sensors.plant1]\nsensor_type = 3.5\npwr_pin = 27\nval_pin = 17\n";
    let err = from_toml(text).unwrap_err();
    assert_eq!(err.key, "sensors.plant1.sensor_type");
    assert_eq!(err.cause, "Is not valid type, expected 'string' but found 'float'");
}

#[test]
fn from_toml_reports_a_negative_duration() {
    let text = "[sensors.plant1]\nsensor_type = \"moisture\"\npwr_pin = 27\nval_pin = 17\npwr_wait = -1\n";
    let err = from_toml(text).unwrap_err();
    assert_eq!(err.key, "sensors.plant1.pwr_wait");
    assert_eq!(err.cause, "Must not be negative");
}

#[test]
fn from_toml_reports_a_missing_sensors_table() {
    let err = from_toml("other = 1\n").unwrap_err();
    assert_eq!(err.key, ".sensors");
    assert_eq!(err.cause, "Was expected but not found");
}

#[test]
fn from_toml_reports_a_non_table_sensors_key() {
    let err = from_toml("sensors = 4\n").unwrap_err();
    assert_eq!(err.key, ".sensors");
    assert_eq!(err.cause, "Is not valid type, expected 'table/object' but found 'integer'");
}

#[test]
fn from_toml_reports_unparsable_text() {
    let err = from_toml("sensors = = 4").unwrap_err();
    assert_eq!(err.key, "");
    assert!(!err.cause.is_empty());
}

#[test]
fn sensors_config_from_tree() {
    // The same record built as a tree rather than text.
    let record = ConfigValue::Table(vec![
        (String::from("pwr_pin"), ConfigValue::Int(27)),
        (String::from("sensor_type"), ConfigValue::Text(String::from("moisture"))),
        (String::from("val_pin"), ConfigValue::Int(17)),
    ]);
    let tree = ConfigValue::Table(vec![(
        String::from("sensors"),
        ConfigValue::Table(vec![(String::from("plant1"), record)]),
    )]);
    let config = SensorsConfig::from_toml(&tree).unwrap();
    assert_eq!(config.sensors.len(), 1);
    assert_eq!(config.sensors[0].pwr, 27);
}

#[test]
fn validate_accepts_the_bcm_set() {
    for pin in [4i64, 5, 6, 13, 16, 17, 18, 19, 20, 21, 22, 23, 24, 25, 26, 27] {
        let s = SensorConfig {
            id: String::from("x"),
            sensor_type: String::from("m"),
            pwr: pin,
            val: 17,
            pwr_wait: 2,
            interval: 1,
            polarity: Polarity::ActiveLow,
        };
        assert!(s.validate().is_ok(), "pin {} should be valid", pin);
    }
}

#[test]
fn validate_names_the_offending_pin_path() {
    let s = SensorConfig {
        id: String::from("plant1"),
        sensor_type: String::from("moisture"),
        pwr: 27,
        val: 99,
        pwr_wait: 2,
        interval: 1,
        polarity: Polarity::ActiveLow,
    };
    let err = s.validate().unwrap_err();
    assert_eq!(err.key, "sensors.plant1.val_pin");
    assert_eq!(err.cause, "Not a valid bcm pin: 99");
    let s2 = SensorConfig { pwr: -3, val: 17, ..s };
    let err2 = s2.validate().unwrap_err();
    assert_eq!(err2.key, "sensors.plant1.pwr_pin");
    assert_eq!(err2.cause, "Not a valid bcm pin: -3");
}

#[test]
fn sensors_config_validate_wants_exactly_one() {
    let empty = SensorsConfig { sensors: vec![] };
    let err = empty.validate().unwrap_err();
    assert_eq!(err.key, "sensors");
    assert_eq!(err.cause, "Only one sensor supported.");
    assert!(empty.initialize().is_err());
}

#[test]
fn initialize_builds_the_configured_pair() {
    let config = from_toml(one_sensor_toml()).unwrap();
    config.validate().unwrap();
    let (sensor, _formatter) = config.initialize().unwrap();
    assert_eq!(sensor.power_pin(), 27);
    assert_eq!(sensor.sense_pin(), 17);
    assert_eq!(sensor.settle_millis(), 2);
}

#[test]
fn error_message_names_key_and_cause() {
    let err = from_toml("sensors = 4\n").unwrap_err();
    assert_eq!(
        err.message(),
        "Sensor configuration error at [.sensors]: Is not valid type, expected 'table/object' but found 'integer'"
    );
}

#[test]
fn startup_with_invalid_pin_fails_before_touching_registers() {
    // An out-of-set pin in the configuration: startup fails with the error
    // naming the record's key path, and the register window is untouched.
    let text = "[sensors.plant1]\nsensor_type = \"moisture\"\npwr_pin = 27\nval_pin = 99\n";
    let config = from_toml(text).unwrap();
    let mut gpio = Gpio::new();
    let err = setup(&config, &mut gpio, 0).unwrap_err();
    assert_eq!(err.key, "sensors.plant1.val_pin");
    assert_eq!(err.cause, "Not a valid bcm pin: 99");
    for i in 0..GPIO_REG_COUNT {
        assert_eq!(gpio.read_word(i), 0);
    }
}

#[test]
fn startup_initializes_every_configured_sensor() {
    let config = from_toml(one_sensor_toml()).unwrap();
    let mut gpio = Gpio::new();
    let pairs = setup(&config, &mut gpio, 1000).unwrap();
    assert_eq!(pairs.len(), 1);
    assert_eq!(pairs[0].0.sensor().power_pin(), 27);
    assert_eq!(pairs[0].0.sensor().sense_pin(), 17);
    // The sense pin was prepared as an input, the power pin as an output.
    assert_eq!(gpio.read_mode(17).unwrap(), Mode::Input);
    assert_eq!(gpio.read_mode(27).unwrap(), Mode::Output);
}

#[test]
fn from_toml_reads_an_explicit_polarity() {
    let text = "[sensors.plant1]\nsensor_type = \"moisture\"\npwr_pin = 27\nval_pin = 17\npolarity = \"active_high\"\n";
    let config = from_toml(text).unwrap();
    assert_eq!(config.sensors[0].polarity, Polarity::ActiveHigh);
    // The initialized sensor follows the record's wiring: high reads as 1.
    let (sensor, _formatter) = config.sensors[0].initialize();
    assert_eq!(sensor.value_of_level(true), 1);
    assert_eq!(sensor.value_of_level(false), 0);
}

#[test]
fn default_polarity_is_active_low() {
    let config = from_toml(one_sensor_toml()).unwrap();
    let (sensor, _formatter) = config.sensors[0].initialize();
    assert_eq!(sensor.value_of_level(true), 0);
    assert_eq!(sensor.value_of_level(false), 1);
}

#[test]
fn from_toml_reports_an_unknown_polarity() {
    let text = "[sensors.plant1]\nsensor_type = \"moisture\"\npwr_pin = 27\nval_pin = 17\npolarity = \"foo\"\n";
    let err = from_toml(text).unwrap_err();
    assert_eq!(err.key, "sensors.plant1.polarity");
    assert_eq!(err.cause, "Not a valid polarity: foo");
}

#[test]
fn from_toml_reports_a_non_string_polarity() {
    let text = "[sensors.plant1]\nsensor_type = \"moisture\"\npwr_pin = 27\nval_pin = 17\npolarity = 1\n";
    let err = from_toml(text).unwrap_err();
    assert_eq!(err.key, "sensors.plant1.polarity");
    assert_eq!(err.cause, "Is not valid type, expected 'string' but found 'integer'");
}
