//! Magnetometer types, configuration and drivers.

pub mod config;
pub mod magnetometer;
pub mod magnetometer_hmc5883;
pub mod magnetometer_mock;
