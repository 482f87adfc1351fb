//! UBX message definitions: class and message ids, and the payload layouts of the
//! acknowledgement, configuration, monitoring and navigation messages.

pub mod ubx_ack_ack;
pub mod ubx_ack_nak;
pub mod ubx_cfg;
pub mod ubx_cfg_navx5;
pub mod ubx_cfg_sbas;
pub mod ubx_ids;
pub mod ubx_mon_ver;
pub mod ubx_nav_dop;
pub mod ubx_nav_posllh;
pub mod ubx_nmea;
