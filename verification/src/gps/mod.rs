//! GPS receivers: NMEA sentences, UBX frames, and the data records built from them.

pub mod config;
pub mod gps_config;
pub mod gps_data;
pub mod gps_parser;
pub mod gps_rescue_config;
pub mod gps_solution_data;
pub mod gps_status;
pub mod gps_status_data;
pub mod narrow;
pub mod nmea;
pub mod nmea_gga;
pub mod nmea_gsv;
pub mod nmea_parser;
pub mod nmea_rmc;
pub mod ublox_parser;
pub mod ubx;
pub mod ubx_ack;
pub mod ubx_cfg_msg;
pub mod ubx_cfg_nav5;
pub mod ubx_frame;
pub mod ubx_mon;
pub mod ubx_nav;
pub mod ubx_nav_posllh;
pub mod ubx_nav_pvt;
pub mod ubx_nav_status;
pub mod ubx_nav_velned;
pub mod ubx_parser;
