//! Driver and publishing pipeline for a two-pin soil-moisture sensor on a
//! Broadcom-style GPIO peripheral.
//!
//! The heart of the crate is a register-level GPIO driver over a fixed
//! 168-byte register window, together with the sensor protocol built on it,
//! the sample wire formats, configuration validation, and the decision logic
//! of the two publish loops.  Everything here is verified; the hardware
//! memory mapping, sockets, timers and signal handling live with the binary
//! that embeds this library.

pub mod gpio;
pub mod moist_sensor;
pub mod rabbitmq_publisher;
pub mod sample_formatter;
pub mod sensor;
pub mod sensor_config;
pub mod sensor_sampler;
pub mod sensor_setup;
pub mod socket_publisher;
pub mod textfmt;
