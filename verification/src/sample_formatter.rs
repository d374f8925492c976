//! The JSON wire payload of one sample.
//!
//! Each sample is published as a flat JSON object with the sensor's
//! identifier and type, the timestamp in milliseconds since the epoch, and
//! the sampled value.  Keys appear in alphabetical order and strings are
//! escaped as the compact JSON encoders write them, so the payload is stable
//! within a run and byte-exact in the contract.

use vstd::prelude::*;
use vstd::utf8::encode_utf8;
use crate::textfmt::{dec_digits, json_escape, push_decimal_u64, push_json_escaped};

verus! {

/// The JSON payload of one sample: an object holding `sensor_id`,
/// `sensor_type`, `timestamp` (milliseconds since the epoch) and `value`.
pub open spec fn sample_json(
    sample_type: Seq<char>,
    sensor_id: Seq<char>,
    timestamp: u64,
    value: u32,
) -> Seq<u8> {
    encode_utf8("{\"sensor_id\":\""@) + json_escape(encode_utf8(sensor_id)) + encode_utf8(
        "\",\"sensor_type\":\""@,
    ) + json_escape(encode_utf8(sample_type)) + encode_utf8("\",\"timestamp\":"@) + dec_digits(
        timestamp as nat,
    ) + encode_utf8(",\"value\":"@) + dec_digits(value as nat) + encode_utf8("}"@)
}

/// Renders samples of one sensor into their wire payload.
#[derive(Debug)]
pub struct SampleFormatter {
    sensor_id: String,
    sample_type: String,
}

impl SampleFormatter {
    /// The identifier written into each payload.
    pub closed spec fn spec_sensor_id(&self) -> Seq<char> {
        self.sensor_id@
    }

    /// The sensor type written into each payload.
    pub closed spec fn spec_sample_type(&self) -> Seq<char> {
        self.sample_type@
    }

    /// A formatter for the sensor with the given identifier and type.
    pub fn new(sensor_id: String, sample_type: String) -> (r: Self)
        ensures
            r.spec_sensor_id() == sensor_id@,
            r.spec_sample_type() == sample_type@,
    {
        Self { sensor_id, sample_type }
    }

    /// The JSON payload of one `(timestamp, value)` sample.
    pub fn format(&self, sample: &(u64, u32)) -> (r: Vec<u8>)
        ensures
            r@ == sample_json(
                self.spec_sample_type(),
                self.spec_sensor_id(),
                sample.0,
                sample.1,
            ),
    {
        let mut out: Vec<u8> = Vec::new();
        out.extend_from_slice("{\"sensor_id\":\"".as_bytes());
        push_json_escaped(&mut out, self.sensor_id.as_str().as_bytes());
        out.extend_from_slice("\",\"sensor_type\":\"".as_bytes());
        push_json_escaped(&mut out, self.sample_type.as_str().as_bytes());
        out.extend_from_slice("\",\"timestamp\":".as_bytes());
        push_decimal_u64(&mut out, sample.0);
        out.extend_from_slice(",\"value\":".as_bytes());
        push_decimal_u64(&mut out, sample.1 as u64);
        out.extend_from_slice("}".as_bytes());
        proof {
            assert(out@ =~= sample_json(
                self.spec_sample_type(),
                self.spec_sensor_id(),
                sample.0,
                sample.1,
            ));
        }
        out
    }
}

} // verus!
