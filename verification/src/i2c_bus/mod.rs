//! A simulated I2C register device for tests and host builds.

pub mod mock_i2c;
