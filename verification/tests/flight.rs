use fc_core::flight::arming::{ArmingConfig, ArmingFlags, DisarmingFlags};
use fc_core::flight::features::FeatureConfig;
use fc_core::flight::flight_controller::{take_newer_controls, AngleModeCalculationState};
use fc_core::flight::imu_filters::ImuFilterBankConfig;
use fc_core::flight::flight_controller_config::{
    AntiGravityConfig, CrashFlipConfig, CrashRecoveryConfig, DMaxConfig, FlightControllerFiltersConfig,
    FlightModeConfig, ItermRelaxConfig, PidConfig, PidConfigs, TpaConfig, YawSpinRecoveryConfig,
};
use fc_core::flight::rc_adjustments::{
    absolute_adjustment_rates, apply_absolute_rate_adjustment, clamp_rate_value, RcAdjustment,
};
use fc_core::flight::vehicle_controller::{VehicleControlInitializing, VehicleController};

fn is_full<T: Sized + Send + Sync + Unpin + Copy + Clone + Default + PartialEq>() {}

#[test]
fn arming_normal_types() {
    is_full::<ArmingFlags>();
    is_full::<DisarmingFlags>();
}

#[test]
fn features_normal_types() {
    is_full::<FeatureConfig>();
}

#[test]
fn flight_controller_config_normal_types() {
    is_full::<FlightControllerFiltersConfig>();
    is_full::<FlightModeConfig>();
    is_full::<TpaConfig>();
    is_full::<CrashFlipConfig>();
    is_full::<AntiGravityConfig>();
    is_full::<CrashFlipConfig>();
    is_full::<YawSpinRecoveryConfig>();
    is_full::<CrashRecoveryConfig>();
    is_full::<ItermRelaxConfig>();
    is_full::<DMaxConfig>();
}

#[test]
fn flight_controller_config_test_new() {
    let config = FlightControllerFiltersConfig::new();
    assert_eq!(75, config.dterm_lpf1_hz);
}

#[test]
fn vehicle_controller_normal_types() {
    is_full::<VehicleController>();
}

#[test]
fn vehicle_controller_test_new() {
    let _vehicle_controller = VehicleController::new();
}

// Checks of the library's own beyond the scenarios above.

#[test]
fn set_flags_read_as_set_and_stay_set() {
    let mut flags = ArmingFlags::new();
    assert!(!flags.is_set(ArmingFlags::ARMED));
    flags.set(ArmingFlags::ARMED);
    assert!(flags.is_set(ArmingFlags::ARMED));
    assert!(!flags.is_set(ArmingFlags::WAS_EVER_ARMED));
    flags.set(ArmingFlags::WAS_EVER_ARMED);
    assert!(flags.is_set(ArmingFlags::ARMED));
    assert_eq!(flags.flags(), 0x03);
    flags.set(ArmingFlags::WAS_EVER_ARMED);
    assert_eq!(flags.flags(), 0x03);

    let mut disarming = DisarmingFlags::default();
    disarming.set(DisarmingFlags::ARM_SWITCH);
    assert_eq!(disarming.flags(), 1 << 28);
    assert!(disarming.is_set(DisarmingFlags::ARM_SWITCH | DisarmingFlags::NO_GYRO));
    assert!(!disarming.is_set(DisarmingFlags::NO_GYRO));
}

#[test]
fn default_features_and_configs() {
    let features = FeatureConfig::new();
    assert_eq!(features.features(), (1 << 3) | (1 << 22) | (1 << 28));
    assert!(features.is_set(FeatureConfig::AIRMODE));
    assert!(!features.is_set(FeatureConfig::GPS));
    let mut features = FeatureConfig::default();
    features.set(FeatureConfig::GPS);
    assert!(features.is_set(FeatureConfig::GPS));
    assert_eq!(ArmingConfig::default().auto_disarm_delay, 5);
    assert_eq!(PidConfigs::new().pitch_rate, PidConfig::new5(47, 84, 34, 125, 0));
    assert_eq!(TpaConfig::default().mode, TpaConfig::TPA_MODE_D);
    assert_eq!(ItermRelaxConfig::new().relax, ItermRelaxConfig::RELAX_ON);
    assert_eq!(CrashRecoveryConfig::new().g_threshold, 400);
    assert_eq!(DMaxConfig::new().d_max, [0, 0]);
    assert_eq!(AngleModeCalculationState::new(), AngleModeCalculationState::CalculateRoll);
}

#[test]
fn vehicle_controller_initializing_flag() {
    let mut controller = VehicleController::new();
    assert!(!controller.sensor_fusion_filter_is_initializing());
    controller.set_sensor_fusion_filter_is_initializing(true);
    assert!(controller.sensor_fusion_filter_is_initializing());
}

#[test]
fn rate_adjustments() {
    let mut rates = [10u8, 20, 30];
    apply_absolute_rate_adjustment(RcAdjustment::PitchRollRate, 99, &mut rates);
    assert_eq!(rates, [99, 99, 30]);
    apply_absolute_rate_adjustment(RcAdjustment::YawRate, 1, &mut rates);
    assert_eq!(rates, [99, 99, 30]);
    assert_eq!(clamp_rate_value(-5), 1);
    assert_eq!(clamp_rate_value(300), 255);
    assert_eq!(clamp_rate_value(70), 70);
    assert_eq!(absolute_adjustment_rates(RcAdjustment::RollRate, 300, [10, 20, 30]), Some([255, 20, 30]));
    assert_eq!(absolute_adjustment_rates(RcAdjustment::RollRate, 10, [10, 20, 30]), None);
    assert_eq!(absolute_adjustment_rates(RcAdjustment::RcExpo, 50, [10, 20, 30]), None);
    assert_eq!(absolute_adjustment_rates(RcAdjustment::RollP, 50, [10, 20, 30]), None);
    assert_eq!(RcAdjustment::new(), RcAdjustment::NoAdjustment);
}

#[test]
fn imu_filters_normal_types() {
    is_full::<ImuFilterBankConfig>();
}

#[test]
fn imu_filters_test_new() {
    let config = ImuFilterBankConfig::new();
    assert_eq!(100, config.acc_lpf_hz);
}

#[test]
fn imu_filter_defaults() {
    let config = ImuFilterBankConfig::default();
    assert_eq!(config, ImuFilterBankConfig::new());
    assert_eq!(0, config.gyro_lpf1_hz);
    assert_eq!(250, config.gyro_lpf2_hz);
    assert_eq!(0, config.gyro_notch1_hz);
    assert_eq!(0, config.gyro_notch2_cutoff);
}

#[test]
fn setpoints_follow_only_newer_controls() {
    assert_eq!(take_newer_controls(0, 1), (1, true));
    assert_eq!(take_newer_controls(5, 5), (5, false));
    assert_eq!(take_newer_controls(7, 3), (7, false));
    // The same controls are taken once.
    let (kept, updated) = take_newer_controls(10, 11);
    assert!(updated);
    assert_eq!(take_newer_controls(kept, 11), (11, false));
}
