use vstd::prelude::*;

verus! {

/// Which axis the angle-mode calculation handles next.
#[derive(Clone, Copy, Debug, PartialEq, Eq, Structural)]
pub enum AngleModeCalculationState {
    CalculateRoll,
}

impl AngleModeCalculationState {
    #[verifier::allow_in_spec]
    pub fn new() -> Self
        returns
            AngleModeCalculationState::CalculateRoll,
    {
        AngleModeCalculationState::CalculateRoll
    }
}

impl Default for AngleModeCalculationState {
    fn default() -> (r: Self)
        ensures
            r == AngleModeCalculationState::CalculateRoll,
    {
        AngleModeCalculationState::CalculateRoll
    }
}

/// The setpoint decision of the motor-command loop: receiver controls stamped `tick_count`
/// are new (and the setpoints are updated from them) only when their stamp is later than
/// `last_tick_count`, the stamp of the controls last used. Returns the stamp to keep and
/// whether the setpoints are updated.
pub fn take_newer_controls(last_tick_count: u32, tick_count: u32) -> (r: (u32, bool))
    ensures
        r == (if tick_count > last_tick_count {
            (tick_count, true)
        } else {
            (last_tick_count, false)
        }),
{
    if tick_count > last_tick_count {
        (tick_count, true)
    } else {
        (last_tick_count, false)
    }
}

/// The stamp kept by the setpoint decision never goes back, and controls are used at most
/// once: after controls stamped `tick_count` were taken, the same controls are not new again.
pub proof fn lemma_controls_taken_once(last_tick_count: u32, tick_count: u32)
    ensures
        ({
            let kept = if tick_count > last_tick_count { tick_count } else { last_tick_count };
            &&& kept >= last_tick_count
            &&& kept >= tick_count
            &&& !(tick_count > kept)
        }),
{
}

} // verus!
