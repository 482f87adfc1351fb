use vstd::prelude::*;

verus! {

/// Access to whether the sensor fusion filter is still initializing.
pub trait VehicleControlInitializing {
    fn sensor_fusion_filter_is_initializing(&self) -> bool;

    fn set_sensor_fusion_filter_is_initializing(&mut self, sensor_fusion_filter_is_initializing: bool);
}

/// The vehicle-level state that the control loop shares.
#[derive(Clone, Copy, Debug, PartialEq, Eq, Structural)]
pub struct VehicleController {
    pub sensor_fusion_filter_is_initializing: bool,
}

impl VehicleController {
    #[verifier::allow_in_spec]
    pub fn new() -> Self
        returns
            (Self { sensor_fusion_filter_is_initializing: false }),
    {
        Self { sensor_fusion_filter_is_initializing: false }
    }
}

impl Default for VehicleController {
    fn default() -> (r: Self)
        ensures
            r == Self::new(),
    {
        Self::new()
    }
}

impl VehicleControlInitializing for VehicleController {
    fn sensor_fusion_filter_is_initializing(&self) -> (r: bool)
        ensures
            r == self.sensor_fusion_filter_is_initializing,
    {
        self.sensor_fusion_filter_is_initializing
    }

    fn set_sensor_fusion_filter_is_initializing(&mut self, sensor_fusion_filter_is_initializing: bool)
        ensures
            final(self).sensor_fusion_filter_is_initializing == sensor_fusion_filter_is_initializing,
    {
        self.sensor_fusion_filter_is_initializing = sensor_fusion_filter_is_initializing;
    }
}

} // verus!
