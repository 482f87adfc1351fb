//! Flight-control core: arming state, configuration records, GPS sentence and
//! frame parsing, and the sensor bookkeeping around them.

pub mod flight;
pub mod gps;
pub mod i2c_bus;
pub mod magnetometer_sensors;
