//! Sensor configuration: the records, their shape checks and their
//! validation, with every error naming the offending key path.
//!
//! The TOML text itself is parsed by the TOML crate; the tree it yields is
//! copied into the library's own [`ConfigValue`] so that everything after
//! the parse — keys, types, defaults, pin validation, error paths — is
//! stated and checked here.

use vstd::prelude::*;
use vstd::string::StringExecFns;
use crate::textfmt::dec_chars_i64;
use crate::textfmt::i64_string;
use crate::moist_sensor::{MoistSensor, Polarity};
use crate::sample_formatter::SampleFormatter;

verus! {

/// A configuration tree: the value kinds the sensor records use, and the
/// type name of anything else, kept for error messages.
pub enum ConfigValue {
    /// A string value.
    Text(String),
    /// An integer value.
    Int(i64),
    /// A table: entries in key order.
    Table(Vec<(String, ConfigValue)>),
    /// Any other TOML kind, carrying its type name.
    Other(String),
}

impl ConfigValue {
    /// The TOML type name of the value, as error messages print it.
    pub open spec fn spec_kind_name(&self) -> Seq<char> {
        match self {
            ConfigValue::Text(_) => "string"@,
            ConfigValue::Int(_) => "integer"@,
            ConfigValue::Table(_) => "table"@,
            ConfigValue::Other(name) => name@,
        }
    }

    /// The TOML type name of the value.
    pub fn kind_name(&self) -> (r: String)
        ensures
            r@ == self.spec_kind_name(),
    {
        match self {
            ConfigValue::Text(_) => String::from_str("string"),
            ConfigValue::Int(_) => String::from_str("integer"),
            ConfigValue::Table(_) => String::from_str("table"),
            ConfigValue::Other(name) => name.clone(),
        }
    }
}

/// The value under `key` among the entries, front to back.
pub open spec fn spec_lookup(
    entries: Seq<(String, ConfigValue)>,
    key: Seq<char>,
) -> Option<ConfigValue>
    decreases entries.len(),
{
    if entries.len() == 0 {
        None
    } else if entries[0].0@ == key {
        Some(entries[0].1)
    } else {
        spec_lookup(entries.skip(1), key)
    }
}

/// The value under `key` when the node is a table with such an entry.
pub open spec fn spec_get(conf: ConfigValue, key: Seq<char>) -> Option<ConfigValue> {
    match conf {
        ConfigValue::Table(entries) => spec_lookup(entries@, key),
        _ => None,
    }
}

/// A configuration error: the offending key path and the cause.
#[derive(Debug)]
pub struct Error {
    pub key: String,
    pub cause: String,
}

impl Error {
    /// The error as the report line the program prints.
    pub fn message(&self) -> (r: String)
        ensures
            r@ == "Sensor configuration error at ["@ + self.key@ + "]: "@ + self.cause@,
    {
        let mut s = String::from_str("Sensor configuration error at [");
        s.append(self.key.as_str());
        s.append("]: ");
        s.append(self.cause.as_str());
        proof {
            assert(s@ =~= "Sensor configuration error at ["@ + self.key@ + "]: "@ + self.cause@);
        }
        s
    }
}

/// The key path an error names: `scope.key`.
pub open spec fn key_path(scope: Seq<char>, key: Seq<char>) -> Seq<char> {
    scope + "."@ + key
}

/// The cause reported for a key that is not present.
pub open spec fn missing_cause() -> Seq<char> {
    "Was expected but not found"@
}

/// The cause reported for a key of the wrong type.
pub open spec fn type_cause(expected: Seq<char>, found: Seq<char>) -> Seq<char> {
    "Is not valid type, expected '"@ + expected + "' but found '"@ + found + "'"@
}

/// The cause reported for a missing or wrongly typed key.
pub open spec fn field_cause(v: Option<ConfigValue>, expected: Seq<char>) -> Seq<char> {
    match v {
        Option::None => missing_cause(),
        Option::Some(x) => type_cause(expected, x.spec_kind_name()),
    }
}

/// Build the key path `scope.key`.
fn make_key_path(scope: &str, key: &str) -> (r: String)
    ensures
        r@ == key_path(scope@, key@),
{
    let mut s = String::from_str(scope);
    s.append(".");
    s.append(key);
    proof {
        assert(s@ =~= key_path(scope@, key@));
    }
    s
}

/// Build the wrong-type cause.
fn make_type_cause(expected: &str, found: &String) -> (r: String)
    ensures
        r@ == type_cause(expected@, found@),
{
    let mut s = String::from_str("Is not valid type, expected '");
    s.append(expected);
    s.append("' but found '");
    s.append(found.as_str());
    s.append("'");
    proof {
        assert(s@ =~= type_cause(expected@, found@));
    }
    s
}

/// Find `key` among the entries.
fn lookup<'a>(entries: &'a Vec<(String, ConfigValue)>, key: &str) -> (r: Option<
    &'a ConfigValue,
>)
    ensures
        match r {
            Option::Some(v) => spec_lookup(entries@, key@) == Some(*v),
            Option::None => spec_lookup(entries@, key@) is None,
        },
{
    let key_string = key.to_owned();
    let n = entries.len();
    let mut i: usize = 0;
    proof {
        assert(entries@.skip(0) =~= entries@);
    }
    while i < n
        invariant
            n == entries@.len(),
            i <= n,
            spec_lookup(entries@, key@) == spec_lookup(entries@.skip(i as int), key@),
            key_string@ == key@,
        decreases n - i,
    {
        if entries[i].0 == key_string {
            proof {
                assert(entries@.skip(i as int)[0] == entries@[i as int]);
            }
            return Some(&entries[i].1);
        }
        proof {
            assert(entries@.skip(i as int)[0] == entries@[i as int]);
            assert(entries@.skip(i as int).skip(1) =~= entries@.skip(i as int + 1));
        }
        i += 1;
    }
    None
}

/// Fetch `key` from the table node `conf`, or report it missing at
/// `scope.key`.
fn get_key<'a>(conf: &'a ConfigValue, key: &str, scope: &str) -> (r: Result<
    &'a ConfigValue,
    Error,
>)
    ensures
        match r {
            Result::Ok(v) => spec_get(*conf, key@) == Some(*v),
            Result::Err(e) => spec_get(*conf, key@) is None && e.key@ == key_path(scope@, key@)
                && e.cause@ == missing_cause(),
        },
{
    let found: Option<&ConfigValue> = match conf {
        ConfigValue::Table(entries) => lookup(entries, key),
        _ => None,
    };
    match found {
        Some(v) => Ok(v),
        None => Err(
            Error {
                key: make_key_path(scope, key),
                cause: String::from_str("Was expected but not found"),
            },
        ),
    }
}

/// Fetch the string under `key`, or report the offending key path.
fn get_str(conf: &ConfigValue, key: &str, scope: &str) -> (r: Result<String, Error>)
    ensures
        match r {
            Result::Ok(s) => spec_get(*conf, key@) matches Some(ConfigValue::Text(t)) && s@ == t@,
            Result::Err(e) => e.key@ == key_path(scope@, key@) && e.cause@ == field_cause(
                spec_get(*conf, key@),
                "string"@,
            ) && !(spec_get(*conf, key@) matches Some(ConfigValue::Text(_))),
        },
{
    let v = get_key(conf, key, scope)?;
    match v {
        ConfigValue::Text(t) => Ok(t.clone()),
        other => Err(
            Error { key: make_key_path(scope, key), cause: make_type_cause("string", &other.kind_name()) },
        ),
    }
}

/// Fetch the integer under `key`, or report the offending key path.
fn get_int(conf: &ConfigValue, key: &str, scope: &str) -> (r: Result<i64, Error>)
    ensures
        match r {
            Result::Ok(n) => spec_get(*conf, key@) == Some(ConfigValue::Int(n)),
            Result::Err(e) => e.key@ == key_path(scope@, key@) && e.cause@ == field_cause(
                spec_get(*conf, key@),
                "integer"@,
            ) && !(spec_get(*conf, key@) matches Some(ConfigValue::Int(_))),
        },
{
    let v = get_key(conf, key, scope)?;
    match v {
        ConfigValue::Int(n) => Ok(*n),
        other => Err(
            Error { key: make_key_path(scope, key), cause: make_type_cause("integer", &other.kind_name()) },
        ),
    }
}

/// Settle time, in milliseconds, used when a record does not name one.
pub const DEFAULT_PWR_WAIT_MILLIS: u64 = 2;

/// Sample interval, in seconds, used when a record does not name one.
pub const DEFAULT_INTERVAL_SECS: u64 = 1;

/// An optional duration key is usable when absent (the default applies) or
/// a nonnegative integer.
pub open spec fn duration_ok(v: Option<ConfigValue>) -> bool {
    match v {
        Option::None => true,
        Option::Some(x) => match x {
            ConfigValue::Int(n) => n >= 0,
            _ => false,
        },
    }
}

/// The value of an optional duration key, given its fallback.
pub open spec fn spec_duration(v: Option<ConfigValue>, fallback: u64) -> int {
    match v {
        Option::None => fallback as int,
        Option::Some(x) => match x {
            ConfigValue::Int(n) => n as int,
            _ => 0,
        },
    }
}

/// The cause reported for a duration key that is present but unusable.
pub open spec fn duration_cause(v: Option<ConfigValue>) -> Seq<char> {
    match v {
        Option::None => missing_cause(),
        Option::Some(x) => match x {
            ConfigValue::Int(_) => "Must not be negative"@,
            _ => type_cause("integer"@, x.spec_kind_name()),
        },
    }
}

/// Fetch the optional duration under `key`, falling back to `fallback` when
/// the key is absent; a present key must be a nonnegative integer.
fn get_duration(conf: &ConfigValue, key: &str, scope: &str, fallback: u64) -> (r: Result<
    u64,
    Error,
>)
    ensures
        match r {
            Result::Ok(n) => duration_ok(spec_get(*conf, key@)) && n as int == spec_duration(
                spec_get(*conf, key@),
                fallback,
            ),
            Result::Err(e) => !duration_ok(spec_get(*conf, key@)) && e.key@ == key_path(
                scope@,
                key@,
            ) && e.cause@ == duration_cause(spec_get(*conf, key@)),
        },
{
    let found: Option<&ConfigValue> = match conf {
        ConfigValue::Table(entries) => lookup(entries, key),
        _ => None,
    };
    match found {
        None => Ok(fallback),
        Some(ConfigValue::Int(n)) => {
            if *n >= 0 {
                Ok(*n as u64)
            } else {
                Err(
                    Error {
                        key: make_key_path(scope, key),
                        cause: String::from_str("Must not be negative"),
                    },
                )
            }
        },
        Some(other) => Err(
            Error {
                key: make_key_path(scope, key),
                cause: make_type_cause("integer", &other.kind_name()),
            },
        ),
    }
}

/// An optional polarity key is usable when absent (the deployed active-low
/// wiring applies) or one of the two wiring names.
pub open spec fn polarity_ok(v: Option<ConfigValue>) -> bool {
    match v {
        Option::None => true,
        Option::Some(x) => match x {
            ConfigValue::Text(t) => t@ == "active_low"@ || t@ == "active_high"@,
            _ => false,
        },
    }
}

/// The polarity an optional key selects: a low sense level reads as 1
/// unless the record says `active_high`.
pub open spec fn spec_polarity_of(v: Option<ConfigValue>) -> Polarity {
    match v {
        Option::Some(x) => match x {
            ConfigValue::Text(t) => if t@ == "active_high"@ {
                Polarity::ActiveHigh
            } else {
                Polarity::ActiveLow
            },
            _ => Polarity::ActiveLow,
        },
        Option::None => Polarity::ActiveLow,
    }
}

/// The cause reported for a polarity key that is present but unusable.
pub open spec fn polarity_cause(v: Option<ConfigValue>) -> Seq<char> {
    match v {
        Option::None => missing_cause(),
        Option::Some(x) => match x {
            ConfigValue::Text(t) => "Not a valid polarity: "@ + t@,
            _ => type_cause("string"@, x.spec_kind_name()),
        },
    }
}

/// Fetch the optional polarity under `key`; a present key must name one of
/// the two wirings, `active_low` or `active_high`.
fn get_polarity(conf: &ConfigValue, key: &str, scope: &str) -> (r: Result<Polarity, Error>)
    ensures
        match r {
            Result::Ok(p) => polarity_ok(spec_get(*conf, key@)) && p == spec_polarity_of(
                spec_get(*conf, key@),
            ),
            Result::Err(e) => !polarity_ok(spec_get(*conf, key@)) && e.key@ == key_path(
                scope@,
                key@,
            ) && e.cause@ == polarity_cause(spec_get(*conf, key@)),
        },
{
    proof {
        reveal_strlit("active_low");
        reveal_strlit("active_high");
    }
    let found: Option<&ConfigValue> = match conf {
        ConfigValue::Table(entries) => lookup(entries, key),
        _ => None,
    };
    match found {
        None => Ok(Polarity::ActiveLow),
        Some(ConfigValue::Text(t)) => {
            let low = String::from_str("active_low");
            let high = String::from_str("active_high");
            if *t == low {
                proof {
                    assert(t@ == "active_low"@);
                    assert(t@.len() == 10);
                    assert("active_high"@.len() == 11);
                    assert(t@ != "active_high"@);
                }
                Ok(Polarity::ActiveLow)
            } else if *t == high {
                Ok(Polarity::ActiveHigh)
            } else {
                let mut cause = String::from_str("Not a valid polarity: ");
                cause.append(t.as_str());
                proof {
                    assert(cause@ =~= "Not a valid polarity: "@ + t@);
                }
                Err(Error { key: make_key_path(scope, key), cause })
            }
        },
        Some(other) => Err(
            Error {
                key: make_key_path(scope, key),
                cause: make_type_cause("string", &other.kind_name()),
            },
        ),
    }
}

/// One sensor record: identifier, type label, the power and sense pins, the
/// settle time in milliseconds, the sample interval in seconds, and the
/// probe wiring's polarity.
#[derive(Debug)]
pub struct SensorConfig {
    pub id: String,
    pub sensor_type: String,
    pub pwr: i64,
    pub val: i64,
    pub pwr_wait: u64,
    pub interval: u64,
    pub polarity: Polarity,
}

/// Whether a record node has the shape a sensor record needs.
pub open spec fn record_shape_ok(conf: ConfigValue) -> bool {
    &&& spec_get(conf, "sensor_type"@) matches Some(ConfigValue::Text(_))
    &&& spec_get(conf, "pwr_pin"@) matches Some(ConfigValue::Int(_))
    &&& spec_get(conf, "val_pin"@) matches Some(ConfigValue::Int(_))
    &&& duration_ok(spec_get(conf, "pwr_wait"@))
    &&& duration_ok(spec_get(conf, "interval"@))
    &&& polarity_ok(spec_get(conf, "polarity"@))
}

/// Whether the record `c` is what the node `conf` describes under `id`.
pub open spec fn record_matches(c: SensorConfig, id: Seq<char>, conf: ConfigValue) -> bool {
    &&& c.id@ == id
    &&& spec_get(conf, "sensor_type"@) matches Some(ConfigValue::Text(t)) && c.sensor_type@ == t@
    &&& spec_get(conf, "pwr_pin"@) == Some(ConfigValue::Int(c.pwr))
    &&& spec_get(conf, "val_pin"@) == Some(ConfigValue::Int(c.val))
    &&& c.pwr_wait as int == spec_duration(spec_get(conf, "pwr_wait"@), DEFAULT_PWR_WAIT_MILLIS)
    &&& c.interval as int == spec_duration(spec_get(conf, "interval"@), DEFAULT_INTERVAL_SECS)
    &&& c.polarity == spec_polarity_of(spec_get(conf, "polarity"@))
}

/// The key path and cause of the first shape failure of a record node, in
/// the order the fields are read.
pub open spec fn first_field_error(conf: ConfigValue, scope: Seq<char>) -> (Seq<char>, Seq<
    char,
>) {
    if !(spec_get(conf, "sensor_type"@) matches Some(ConfigValue::Text(_))) {
        (key_path(scope, "sensor_type"@), field_cause(spec_get(conf, "sensor_type"@), "string"@))
    } else if !(spec_get(conf, "pwr_pin"@) matches Some(ConfigValue::Int(_))) {
        (key_path(scope, "pwr_pin"@), field_cause(spec_get(conf, "pwr_pin"@), "integer"@))
    } else if !(spec_get(conf, "val_pin"@) matches Some(ConfigValue::Int(_))) {
        (key_path(scope, "val_pin"@), field_cause(spec_get(conf, "val_pin"@), "integer"@))
    } else if !duration_ok(spec_get(conf, "pwr_wait"@)) {
        (key_path(scope, "pwr_wait"@), duration_cause(spec_get(conf, "pwr_wait"@)))
    } else if !duration_ok(spec_get(conf, "interval"@)) {
        (key_path(scope, "interval"@), duration_cause(spec_get(conf, "interval"@)))
    } else {
        (key_path(scope, "polarity"@), polarity_cause(spec_get(conf, "polarity"@)))
    }
}

/// The valid BCM pin numbers a record may name.
pub open spec fn spec_bcm_valid(pin: i64) -> bool {
    pin == 4 || pin == 5 || pin == 6 || pin == 13 || pin == 16 || pin == 17 || pin == 18 || pin
        == 19 || pin == 20 || pin == 21 || pin == 22 || pin == 23 || pin == 24 || pin == 25 || pin
        == 26 || pin == 27
}

/// The cause reported for a pin outside the BCM set.
pub open spec fn bcm_cause(pin: i64) -> Seq<char> {
    "Not a valid bcm pin: "@ + dec_chars_i64(pin as int)
}

/// Whether `pin` is one of the BCM pins a record may name.
pub fn bcm_pin_ok(pin: i64) -> (r: bool)
    ensures
        r == spec_bcm_valid(pin),
{
    pin == 4 || pin == 5 || pin == 6 || pin == 13 || pin == 16 || pin == 17 || pin == 18 || pin
        == 19 || pin == 20 || pin == 21 || pin == 22 || pin == 23 || pin == 24 || pin == 25 || pin
        == 26 || pin == 27
}

/// Build the out-of-set pin cause.
fn make_bcm_cause(pin: i64) -> (r: String)
    ensures
        r@ == bcm_cause(pin),
{
    let mut s = String::from_str("Not a valid bcm pin: ");
    let num = i64_string(pin);
    s.append(num.as_str());
    proof {
        assert(s@ =~= bcm_cause(pin));
    }
    s
}

impl SensorConfig {
    /// Read one sensor record from the node under `id`, reporting the first
    /// missing or wrongly typed field at its key path `sensors.<id>.<field>`.
    pub fn from_toml(id: &str, conf: &ConfigValue) -> (r: Result<SensorConfig, Error>)
        ensures
            match r {
                Result::Ok(c) => record_shape_ok(*conf) && record_matches(c, id@, *conf),
                Result::Err(e) => !record_shape_ok(*conf) && (e.key@, e.cause@)
                    == first_field_error(*conf, "sensors."@ + id@),
            },
    {
        let mut parent_key = String::from_str("sensors.");
        parent_key.append(id);
        let sensor_type = get_str(conf, "sensor_type", parent_key.as_str())?;
        let pwr = get_int(conf, "pwr_pin", parent_key.as_str())?;
        let val = get_int(conf, "val_pin", parent_key.as_str())?;
        let pwr_wait = get_duration(
            conf,
            "pwr_wait",
            parent_key.as_str(),
            DEFAULT_PWR_WAIT_MILLIS,
        )?;
        let interval = get_duration(
            conf,
            "interval",
            parent_key.as_str(),
            DEFAULT_INTERVAL_SECS,
        )?;
        let polarity = get_polarity(conf, "polarity", parent_key.as_str())?;
        Ok(SensorConfig { id: id.to_owned(), sensor_type, pwr, val, pwr_wait, interval, polarity })
    }

    /// Check both pins against the BCM set, reporting the offending pin at
    /// its key path.
    pub fn validate(&self) -> (r: Result<(), Error>)
        ensures
            r is Ok <==> spec_bcm_valid(self.pwr) && spec_bcm_valid(self.val),
            !spec_bcm_valid(self.pwr) ==> (r matches Err(e) && e.key@ == key_path(
                "sensors."@ + self.id@,
                "pwr_pin"@,
            ) && e.cause@ == bcm_cause(self.pwr)),
            spec_bcm_valid(self.pwr) && !spec_bcm_valid(self.val) ==> (r matches Err(e) && e.key@
                == key_path("sensors."@ + self.id@, "val_pin"@) && e.cause@ == bcm_cause(
                self.val,
            )),
    {
        let mut scope = String::from_str("sensors.");
        scope.append(self.id.as_str());
        if !bcm_pin_ok(self.pwr) {
            return Err(
                Error { key: make_key_path(scope.as_str(), "pwr_pin"), cause: make_bcm_cause(self.pwr) },
            );
        }
        if !bcm_pin_ok(self.val) {
            return Err(
                Error { key: make_key_path(scope.as_str(), "val_pin"), cause: make_bcm_cause(self.val) },
            );
        }
        Ok(())
    }

    /// The sensor and formatter this record describes, wired with the
    /// record's polarity.
    pub fn initialize(&self) -> (r: (MoistSensor, SampleFormatter))
        ensures
            r.0.spec_power_pin() == self.pwr as u8,
            r.0.spec_sense_pin() == self.val as u8,
            r.0.spec_settle_millis() == self.pwr_wait,
            r.0.spec_polarity() == self.polarity,
            r.1.spec_sensor_id() == self.id@,
            r.1.spec_sample_type() == self.sensor_type@,
    {
        (
            MoistSensor::new(self.pwr as u8, self.val as u8, self.pwr_wait, self.polarity),
            SampleFormatter::new(self.id.clone(), self.sensor_type.clone()),
        )
    }
}

/// The configured sensors, in configuration order.
#[derive(Debug)]
pub struct SensorsConfig {
    pub sensors: Vec<SensorConfig>,
}

/// Index of the first record at or after `i` in the sensors table that
/// fails the shape check; the table length when every record passes.
pub open spec fn first_bad_record(entries: Seq<(String, ConfigValue)>, i: int) -> int
    decreases entries.len() - i,
{
    if i < 0 || i >= entries.len() {
        entries.len() as int
    } else if !record_shape_ok(entries[i].1) {
        i
    } else {
        first_bad_record(entries, i + 1)
    }
}

/// What reading a configuration tree yields: the record list of the
/// top-level `sensors` table, entry by entry in order — or, on the missing
/// or mistyped table and on the first bad record, exactly the error naming
/// the offending key path.
pub open spec fn config_read_post(tree: ConfigValue, r: Result<SensorsConfig, Error>) -> bool {
    match r {
        Result::Ok(sc) => spec_get(tree, "sensors"@) matches Some(ConfigValue::Table(es))
            && sc.sensors@.len() == es@.len() && (forall|i: int|
            0 <= i < es@.len() ==> record_shape_ok(#[trigger] es@[i].1) && record_matches(
                sc.sensors@[i],
                es@[i].0@,
                es@[i].1,
            )),
        Result::Err(e) => ({
            ||| {
                &&& !(spec_get(tree, "sensors"@) matches Some(ConfigValue::Table(_)))
                &&& e.key@ == key_path(""@, "sensors"@)
                &&& e.cause@ == field_cause(spec_get(tree, "sensors"@), "table/object"@)
            }
            ||| {
                &&& spec_get(tree, "sensors"@) matches Some(ConfigValue::Table(es))
                &&& first_bad_record(es@, 0) < es@.len()
                &&& (e.key@, e.cause@) == first_field_error(
                    es@[first_bad_record(es@, 0)].1,
                    "sensors."@ + es@[first_bad_record(es@, 0)].0@,
                )
            }
        }),
    }
}

impl SensorsConfig {
    /// Read the whole configuration: the top-level `sensors` table, one
    /// record per entry in order, reporting the first failure at its key
    /// path.
    pub fn from_toml(conf: &ConfigValue) -> (r: Result<SensorsConfig, Error>)
        ensures
            config_read_post(*conf, r),
    {
        let tbl = get_key(conf, "sensors", "")?;
        let entries = match tbl {
            ConfigValue::Table(es) => es,
            other => {
                return Err(
                    Error {
                        key: make_key_path("", "sensors"),
                        cause: make_type_cause("table/object", &other.kind_name()),
                    },
                );
            },
        };
        let n = entries.len();
        let mut sensors: Vec<SensorConfig> = Vec::new();
        let mut i: usize = 0;
        while i < n
            invariant
                n == entries@.len(),
                i <= n,
                spec_get(*conf, "sensors"@) == Some(ConfigValue::Table(*entries)),
                sensors@.len() == i,
                forall|j: int|
                    0 <= j < i ==> record_shape_ok(#[trigger] entries@[j].1) && record_matches(
                        sensors@[j],
                        entries@[j].0@,
                        entries@[j].1,
                    ),
                first_bad_record(entries@, 0) == first_bad_record(entries@, i as int),
            decreases n - i,
        {
            match SensorConfig::from_toml(entries[i].0.as_str(), &entries[i].1) {
                Ok(c) => {
                    sensors.push(c);
                },
                Err(e) => {
                    proof {
                        assert(first_bad_record(entries@, i as int) == i);
                    }
                    return Err(e);
                },
            }
            i += 1;
        }
        Ok(SensorsConfig { sensors })
    }

    /// Exactly one configured sensor is supported; check it against the BCM
    /// pin set.
    pub fn validate(&self) -> (r: Result<(), Error>)
        ensures
            r is Ok <==> self.sensors@.len() == 1 && spec_bcm_valid(self.sensors@[0].pwr)
                && spec_bcm_valid(self.sensors@[0].val),
            self.sensors@.len() != 1 ==> (r matches Err(e) && e.key@ == "sensors"@ && e.cause@
                == "Only one sensor supported."@),
            self.sensors@.len() == 1 && !spec_bcm_valid(self.sensors@[0].pwr) ==> (r matches Err(e)
                && e.key@ == key_path("sensors."@ + self.sensors@[0].id@, "pwr_pin"@) && e.cause@
                == bcm_cause(self.sensors@[0].pwr)),
            self.sensors@.len() == 1 && spec_bcm_valid(self.sensors@[0].pwr) && !spec_bcm_valid(
                self.sensors@[0].val,
            ) ==> (r matches Err(e) && e.key@ == key_path(
                "sensors."@ + self.sensors@[0].id@,
                "val_pin"@,
            ) && e.cause@ == bcm_cause(self.sensors@[0].val)),
    {
        if self.sensors.len() == 1 {
            self.sensors[0].validate()
        } else {
            Err(
                Error {
                    key: String::from_str("sensors"),
                    cause: String::from_str("Only one sensor supported."),
                },
            )
        }
    }

    /// The sensor and formatter of the single configured record.
    pub fn initialize(&self) -> (r: Result<(MoistSensor, SampleFormatter), Error>)
        ensures
            r is Ok <==> self.sensors@.len() == 1,
            self.sensors@.len() == 1 ==> (r matches Ok(p) && p.0.spec_power_pin()
                == self.sensors@[0].pwr as u8 && p.0.spec_sense_pin() == self.sensors@[0].val as u8
                && p.0.spec_settle_millis() == self.sensors@[0].pwr_wait && p.0.spec_polarity()
                == self.sensors@[0].polarity && p.1.spec_sensor_id() == self.sensors@[0].id@
                && p.1.spec_sample_type() == self.sensors@[0].sensor_type@),
            self.sensors@.len() != 1 ==> (r matches Err(e) && e.key@ == "sensors"@ && e.cause@
                == "Only one sensor supported."@),
    {
        if self.sensors.len() == 1 {
            Ok(self.sensors[0].initialize())
        } else {
            Err(
                Error {
                    key: String::from_str("sensors"),
                    cause: String::from_str("Only one sensor supported."),
                },
            )
        }
    }
}

#[verifier::external_type_specification]
#[verifier::external_body]
pub struct ExTomlValue(toml::Value);

/// Relies on toml::Value's readers (`as_str`-style variant access,
/// `type_str`, table iteration in key order): each TOML node is copied into
/// the library's configuration tree, with the type name of any kind the
/// records cannot use.
#[verifier::external_body]
fn config_of_toml(v: &toml::Value) -> ConfigValue {
    match v {
        toml::Value::String(s) => ConfigValue::Text(s.clone()),
        toml::Value::Integer(i) => ConfigValue::Int(*i),
        toml::Value::Table(t) => ConfigValue::Table(
            t.iter().map(|(k, x)| (k.clone(), config_of_toml(x))).collect(),
        ),
        other => ConfigValue::Other(String::from(other.type_str())),
    }
}

/// What the TOML crate's parse of the text yields: the library's
/// configuration tree, or the parser's message.  The parse reads the text
/// alone, so its result is a function of the text.
pub uninterp spec fn parsed_toml(s: Seq<char>) -> Result<ConfigValue, Seq<char>>;

/// Relies on `str::parse::<toml::Value>`: the text is parsed as TOML and the
/// tree handed over as the library's configuration tree; a parse failure
/// becomes the parser's message.
#[verifier::external_body]
fn parse_toml_text(s: &str) -> (r: Result<ConfigValue, String>)
    ensures
        match r {
            Result::Ok(tree) => parsed_toml(s@) == Result::<ConfigValue, Seq<char>>::Ok(tree),
            Result::Err(msg) => parsed_toml(s@) matches Err(m) && msg@ == m,
        },
{
    match s.parse::<toml::Value>() {
        Ok(v) => Ok(config_of_toml(&v)),
        Err(e) => Err(format!("{}", e)),
    }
}

/// Read the sensor configuration from TOML text: the text is parsed by the
/// TOML crate, and the tree it yields is read record by record.  A parse
/// failure is reported under the empty key path with the parser's message;
/// everything after the parse follows [`SensorsConfig::from_toml`]'s
/// contract on the parsed tree.
pub fn from_toml(toml_str: &str) -> (r: Result<SensorsConfig, Error>)
    ensures
        parsed_toml(toml_str@) matches Err(m) ==> (r matches Err(e) && e.key@ == Seq::<
            char,
        >::empty() && e.cause@ == m),
        parsed_toml(toml_str@) matches Ok(tree) ==> config_read_post(tree, r),
{
    match parse_toml_text(toml_str) {
        Ok(tree) => SensorsConfig::from_toml(&tree),
        Err(msg) => Err(Error { key: String::new(), cause: msg }),
    }
}

} // verus!
