use fc_core::gps::config::{Gps, GpsConfig as StoredGpsConfig, GpsRescueConfig as StoredGpsRescueConfig};
use fc_core::gps::gps_config::{GpsConfig, GpsModel, GpsOffOn, GpsProvider, SbasMode, UtcStandard};
use fc_core::gps::gps_data::{GpsData, GpsDataAbridged};
use fc_core::gps::gps_rescue_config::{GpsRescueAltitudeMode, GpsRescueConfig, GpsRescueSanityChecks};
use fc_core::gps::gps_solution_data::{GpsSolutionData, GpsSolutionDataAbridged};
use fc_core::gps::gps_status::{GpsStatus, UbxAckState};
use fc_core::gps::gps_status_data::GpsStatusData;
use fc_core::gps::nmea_gga::NmeaGga;
use fc_core::gps::ubx::ubx_nav_dop::UbxNavDop;
use fc_core::gps::ubx_nav_pvt::UbxNavPvt;

fn is_full<T: Sized + Send + Sync + Unpin + Copy + Clone + Default + PartialEq>() {}

#[test]
fn config_normal_types() {
    is_full::<StoredGpsConfig>();
    is_full::<StoredGpsRescueConfig>();
    is_full::<Gps>();
}

#[test]
fn config_test_new() {
    let config = StoredGpsConfig::new();
    assert_eq!(1, config.provider);
}

#[test]
fn gps_config_normal_types() {
    is_full::<GpsConfig>();
    is_full::<GpsOffOn>();
}

#[test]
fn gps_config_test_new() {
    let config = GpsConfig::new();
    assert_eq!(GpsProvider::Ubx, config.provider);
}

#[test]
fn gps_rescue_config_normal_types() {
    is_full::<GpsRescueConfig>();
}

#[test]
fn gps_solution_data_normal_types() {
    is_full::<GpsSolutionData>();
    is_full::<GpsSolutionDataAbridged>();
}

#[test]
fn gps_status_normal_types() {
    is_full::<GpsStatus>();
}

#[test]
fn gps_status_data_normal_types() {
    is_full::<GpsStatusData>();
}

#[test]
fn gps_data_normal_types() {
    is_full::<GpsData>();
    is_full::<GpsDataAbridged>();
}

#[test]
fn nav_pvt_maps_time_of_week() {
    let nav = UbxNavPvt { time_of_week_ms: 123_456_789, ..UbxNavPvt::default() };
    let mut gps = GpsData::default();
    gps.amend_with_ubx_nav_pvt(nav);
    assert_eq!(gps.time_of_week_ms, 123_456_789);
}

#[test]
fn nav_pvt_maps_fix_and_health() {
    let nav = UbxNavPvt { fix_type: 3, flags: 0x01, ..UbxNavPvt::default() };
    let mut gps = GpsData::default();
    gps.amend_with_ubx_nav_pvt(nav);
    assert_eq!(gps.fix, 3);
    assert_eq!(gps.is_healthy, 1);
}

#[test]
fn nav_pvt_fix_is_unhealthy_when_gnss_fix_ok_is_clear() {
    let nav = UbxNavPvt { fix_type: 3, flags: 0x00, ..UbxNavPvt::default() };
    let mut gps = GpsData::default();
    gps.amend_with_ubx_nav_pvt(nav);
    assert_eq!(gps.fix, 3);
    assert_eq!(gps.is_healthy, 0);
}

// Checks of the library's own beyond the scenarios above.

#[test]
fn stored_settings_map_to_enums() {
    assert_eq!(GpsProvider::from_u8(255), GpsProvider::NoProvider);
    assert_eq!(GpsProvider::from_u8(9), GpsProvider::Nmea);
    assert_eq!(GpsModel::from_u8(7), GpsModel::Airborne4G);
    assert_eq!(GpsModel::from_u8(8), GpsModel::Portable);
    assert_eq!(UtcStandard::from_u8(5), UtcStandard::Eu);
    assert_eq!(UtcStandard::from_u8(4), UtcStandard::Auto);
    // The byte 3 names GAGAN and the byte 4 turns SBAS off.
    assert_eq!(SbasMode::from_u8(3), SbasMode::Gagan);
    assert_eq!(SbasMode::from_u8(4), SbasMode::NoSbas);
    assert_eq!(SbasMode::NoSbas.value(), 5);
    assert_eq!(GpsOffOn::from_u8(2), GpsOffOn::Off);
    assert_eq!(GpsRescueSanityChecks::from_u8(7), GpsRescueSanityChecks::FsOnly);
    assert_eq!(GpsRescueAltitudeMode::from_u8(2), GpsRescueAltitudeMode::Current);
    assert_eq!(UbxAckState::from_u8(3), UbxAckState::GotNack);
    assert_eq!(UbxAckState::from_u8(4), UbxAckState::Idle);
}

#[test]
fn defaults_match_new() {
    assert_eq!(GpsRescueConfig::default().ground_speed_cmps, 750);
    assert_eq!(GpsRescueConfig::new().sanity_checks, GpsRescueSanityChecks::FsOnly);
    assert_eq!(StoredGpsRescueConfig::new().sanity_checks, 2);
    assert_eq!(StoredGpsConfig::new().sbas_mode, 5);
    assert_eq!(GpsConfig::default().sbas_mode, SbasMode::NoSbas);
    assert_eq!(GpsStatus::new().update_rate_hz, 10);
}

#[test]
fn nav_pvt_divides_toward_zero_and_limits() {
    let nav = UbxNavPvt {
        height_msl_mm: -15,
        height_ellipsoid_mm: 100,
        velocity_north_mmps: -19,
        velocity_east_mmps: 400_000,
        velocity_down_mmps: -400_000,
        ground_speed_mmps: 19,
        heading_degrees_x1e5: 0xffff_ffff,
        flags: 0x03,
        ..UbxNavPvt::default()
    };
    let mut gps = GpsData::default();
    gps.amend_with_ubx_nav_pvt(nav);
    assert_eq!(gps.altitude_cm, -1);
    assert_eq!(gps.geoid_separation_cm, 11);
    assert_eq!(gps.velocity_north_cmps, -1);
    assert_eq!(gps.velocity_east_cmps, i16::MAX);
    assert_eq!(gps.velocity_down_cmps, i16::MIN);
    assert_eq!(gps.ground_speed_cmps, 1);
    assert_eq!(gps.heading_deci_degrees, 0);
    assert_eq!(gps.is_healthy, 1);

    let mut solution = GpsSolutionData::new();
    solution.amend_with_nav_pvt_data(UbxNavPvt { ground_speed_mmps: -20, ..nav });
    assert_eq!(solution.ground_speed_cmps, 65_534);
    assert_eq!(solution.velocity_ned_cmps.east, i16::MAX);
    assert_eq!(solution.altitude_cm, -1);
}

#[test]
fn dop_is_taken_only_from_newer_messages() {
    let mut gps = GpsData::default();
    gps.time_of_week_ms = 1000;
    let old = UbxNavDop { time_of_week_ms: 1000, pdop_x100: 150, ..UbxNavDop::new() };
    gps.amend_with_ubx_nav_dop(old);
    assert_eq!(gps.pdop_x100, 0);
    let newer = UbxNavDop { time_of_week_ms: 1001, pdop_x100: 150, hdop_x100: 90, vdop_x100: 120, ..UbxNavDop::new() };
    gps.amend_with_ubx_nav_dop(newer);
    assert_eq!((gps.pdop_x100, gps.hdop_x100, gps.vdop_x100), (150, 90, 120));
}

#[test]
fn gga_amends_position_and_fix() {
    let gga = NmeaGga::parse(b"GPGGA,123519.500,4916.45,N,12311.12,W,1,08,0.9,545.4,M,46.9,M,,")
        .expect("GGA record should parse");
    let mut gps = GpsData::new();
    gps.amend_with_nmea_gga(gga);
    assert_eq!(gps.latitude_degrees_x1e7, 492_741_667);
    assert_eq!(gps.altitude_cm, 54_540);
    assert_eq!(gps.fix, 1);
    let mut solution = GpsSolutionData::default();
    solution.amend_with_gga(gga);
    assert_eq!(solution.satellite_count, 8);
    let mut status = GpsStatus::new();
    status.amend_with_nmea_gga(gga);
    assert_eq!(status, GpsStatus::new());
}
