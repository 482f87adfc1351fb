//! Arming, features, controller configuration and in-flight adjustments for the flight loop.

pub mod arming;
pub mod features;
pub mod flight_controller;
pub mod flight_controller_config;
pub mod imu_filters;
pub mod rc_adjustments;
pub mod vehicle_controller;
