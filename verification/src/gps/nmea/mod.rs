//! NMEA sentence records that describe the satellite solution.

pub mod nmea_gsa;
