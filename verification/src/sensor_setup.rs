//! Startup: from a read configuration to initialized sensors with their
//! formatters and samplers.
//!
//! Every record is validated against the BCM pin set before any register is
//! touched; a bad record fails startup with an error naming its key path,
//! and the window is left exactly as it was.

use vstd::prelude::*;
use crate::gpio::{Gpio, RegOp};
use crate::moist_sensor::{init_applied, init_ops};
use crate::sample_formatter::SampleFormatter;
use crate::sensor_config::{SensorConfig, SensorsConfig, Error, spec_bcm_valid, bcm_cause, key_path};
use crate::sensor_sampler::{SensorSampler, interval_millis_of};

verus! {

/// Index of the first record at or after `i` whose pins fail validation;
/// the list's length when every record passes.
pub open spec fn first_invalid_sensor(sensors: Seq<SensorConfig>, i: int) -> int
    decreases sensors.len() - i,
{
    if i < 0 || i >= sensors.len() {
        sensors.len() as int
    } else if !(spec_bcm_valid(sensors[i].pwr) && spec_bcm_valid(sensors[i].val)) {
        i
    } else {
        first_invalid_sensor(sensors, i + 1)
    }
}

/// The window after initializing every listed sensor in order.
pub open spec fn inits_applied(regs: Seq<u32>, sensors: Seq<SensorConfig>) -> Seq<u32>
    decreases sensors.len(),
{
    if sensors.len() == 0 {
        regs
    } else {
        inits_applied(
            init_applied(regs, sensors[0].pwr as u8, sensors[0].val as u8),
            sensors.skip(1),
        )
    }
}

/// The transactions of initializing every listed sensor in order.
pub open spec fn inits_ops(sensors: Seq<SensorConfig>) -> Seq<RegOp>
    decreases sensors.len(),
{
    if sensors.len() == 0 {
        Seq::empty()
    } else {
        init_ops(sensors[0].pwr as u8, sensors[0].val as u8) + inits_ops(sensors.skip(1))
    }
}

/// Whether the sampler/formatter pair is the one the record describes,
/// started at `start_millis`.
pub open spec fn pair_matches(
    pair: (SensorSampler, SampleFormatter),
    c: SensorConfig,
    start_millis: u64,
) -> bool {
    &&& pair.0.spec_sensor().spec_power_pin() == c.pwr as u8
    &&& pair.0.spec_sensor().spec_sense_pin() == c.val as u8
    &&& pair.0.spec_sensor().spec_settle_millis() == c.pwr_wait
    &&& pair.0.spec_sensor().spec_polarity() == c.polarity
    &&& pair.0.spec_start_millis() == start_millis
    &&& pair.0.spec_interval_millis() == interval_millis_of(c.interval)
    &&& pair.0.spec_ticks() == 0
    &&& pair.1.spec_sensor_id() == c.id@
    &&& pair.1.spec_sample_type() == c.sensor_type@
}

/// Validate every configured sensor, then prepare each one's pins and build
/// its sampler and formatter.  Validation is atomic: if any record names a
/// pin outside the BCM set, no register is touched and the first offending
/// record's error is returned, naming `sensors.<id>.pwr_pin` or `.val_pin`.
pub fn setup(config: &SensorsConfig, gpio: &mut Gpio, start_millis: u64) -> (r: Result<
    Vec<(SensorSampler, SampleFormatter)>,
    Error,
>)
    requires
        old(gpio).wf(),
    ensures
        final(gpio).wf(),
        r is Ok <==> first_invalid_sensor(config.sensors@, 0) == config.sensors@.len(),
        r matches Ok(pairs) ==> (pairs@.len() == config.sensors@.len() && (forall|i: int|
            0 <= i < pairs@.len() ==> pair_matches(
                #[trigger] pairs@[i],
                config.sensors@[i],
                start_millis,
            )) && final(gpio)@ == inits_applied(old(gpio)@, config.sensors@) && final(gpio).log()
            == old(gpio).log() + inits_ops(config.sensors@)),
        r matches Err(e) ==> ({
            let j = first_invalid_sensor(config.sensors@, 0);
            &&& j < config.sensors@.len()
            &&& final(gpio)@ == old(gpio)@
            &&& final(gpio).log() == old(gpio).log()
            &&& !spec_bcm_valid(config.sensors@[j].pwr) ==> (e.key@ == key_path(
                "sensors."@ + config.sensors@[j].id@,
                "pwr_pin"@,
            ) && e.cause@ == bcm_cause(config.sensors@[j].pwr))
            &&& spec_bcm_valid(config.sensors@[j].pwr) ==> (e.key@ == key_path(
                "sensors."@ + config.sensors@[j].id@,
                "val_pin"@,
            ) && e.cause@ == bcm_cause(config.sensors@[j].val))
        }),
{
    let n = config.sensors.len();
    let mut i: usize = 0;
    while i < n
        invariant
            n == config.sensors@.len(),
            i <= n,
            first_invalid_sensor(config.sensors@, 0) == first_invalid_sensor(
                config.sensors@,
                i as int,
            ),
            forall|j: int|
                #![trigger config.sensors@[j]]
                0 <= j < i ==> spec_bcm_valid(config.sensors@[j].pwr) && spec_bcm_valid(
                    config.sensors@[j].val,
                ),
            gpio.wf(),
            gpio@ == old(gpio)@,
            gpio.log() == old(gpio).log(),
        decreases n - i,
    {
        match config.sensors[i].validate() {
            Ok(_) => {
                proof {
                    assert(spec_bcm_valid(config.sensors@[i as int].pwr) && spec_bcm_valid(
                        config.sensors@[i as int].val,
                    ));
                }
            },
            Err(e) => {
                proof {
                    assert(first_invalid_sensor(config.sensors@, i as int) == i);
                }
                return Err(e);
            },
        }
        i += 1;
    }
    proof {
        assert(first_invalid_sensor(config.sensors@, n as int) == config.sensors@.len());
        assert(config.sensors@.skip(0) =~= config.sensors@);
    }
    let mut pairs: Vec<(SensorSampler, SampleFormatter)> = Vec::new();
    let mut k: usize = 0;
    while k < n
        invariant
            n == config.sensors@.len(),
            k <= n,
            gpio.wf(),
            forall|j: int|
                0 <= j < n ==> spec_bcm_valid(#[trigger] config.sensors@[j].pwr) && spec_bcm_valid(
                    config.sensors@[j].val,
                ),
            pairs@.len() == k,
            forall|j: int|
                0 <= j < k ==> pair_matches(#[trigger] pairs@[j], config.sensors@[j], start_millis),
            inits_applied(old(gpio)@, config.sensors@) == inits_applied(
                gpio@,
                config.sensors@.skip(k as int),
            ),
            old(gpio).log() + inits_ops(config.sensors@) == gpio.log() + inits_ops(
                config.sensors@.skip(k as int),
            ),
        decreases n - k,
    {
        let c = &config.sensors[k];
        let ghost pre_log = gpio.log();
        let (sensor, formatter) = c.initialize();
        proof {
            assert(config.sensors@.skip(k as int)[0] == config.sensors@[k as int]);
            assert(config.sensors@.skip(k as int).skip(1) =~= config.sensors@.skip(k as int + 1));
        }
        let _ = sensor.init(gpio);
        let sampler = SensorSampler::new(sensor, start_millis, c.interval);
        pairs.push((sampler, formatter));
        proof {
            let rest = inits_ops(config.sensors@.skip(k as int + 1));
            let this_ops = init_ops(
                config.sensors@[k as int].pwr as u8,
                config.sensors@[k as int].val as u8,
            );
            assert((pre_log + this_ops) + rest =~= pre_log + (this_ops + rest));
        }
        k += 1;
    }
    proof {
        assert(config.sensors@.skip(n as int) =~= Seq::<SensorConfig>::empty());
        assert(gpio.log() + inits_ops(config.sensors@.skip(n as int)) =~= gpio.log());
    }
    Ok(pairs)
}

} // verus!
