use vstd::prelude::*;

verus! {

/// What an in-flight adjustment channel changes; `NoAdjustment` changes nothing.
#[derive(Clone, Copy, Debug, PartialEq, Eq, Structural)]
pub enum RcAdjustment {
    NoAdjustment,
    /// Rates.
    ThrottleExpo,
    RateProfile,
    RcRate,
    RcExpo,
    RollRate,
    RollRcRate,
    RollRcExpo,
    PitchRate,
    PitchRcRate,
    PitchRcExpo,
    PitchRollRate,
    YawRate,
    YawRcRate,
    /// PIDs.
    RollP,
    RollI,
    RollD,
    RollK,
    PitchP,
    PitchI,
    PitchD,
    /// Called PITCH_F in Betaflight.
    PitchK,
    PitchRollP,
    PitchRollI,
    PitchRollD,
    PitchRollK,
    YawP,
    YawI,
    YawD,
    YawK,
    FeedforwardTransition,
    HorizonStrength,
    PidAudio,
    OsdProfile,
    LedProfile,
    LedDimmer,
    FunctionCount,
}

impl RcAdjustment {
    pub const COUNT: usize = 2;

    #[verifier::allow_in_spec]
    pub fn new() -> Self
        returns
            RcAdjustment::NoAdjustment,
    {
        RcAdjustment::NoAdjustment
    }

    /// The adjustments that act on the rates configuration.
    pub open spec fn is_rate_adjustment(self) -> bool {
        match self {
            RcAdjustment::ThrottleExpo | RcAdjustment::RateProfile | RcAdjustment::RcRate | RcAdjustment::RcExpo | RcAdjustment::RollRate | RcAdjustment::RollRcRate | RcAdjustment::RollRcExpo | RcAdjustment::PitchRate | RcAdjustment::PitchRcRate | RcAdjustment::PitchRcExpo | RcAdjustment::PitchRollRate | RcAdjustment::YawRate | RcAdjustment::YawRcRate => true,
            _ => false,
        }
    }
}

impl Default for RcAdjustment {
    fn default() -> (r: Self)
        ensures
            r == RcAdjustment::NoAdjustment,
    {
        RcAdjustment::NoAdjustment
    }
}

/// The roll axis.
pub const FD_ROLL: usize = 0;

/// The pitch axis.
pub const FD_PITCH: usize = 1;

/// The largest RC rate.
pub const RC_RATES_MAX: u8 = 255;

/// The RC rates (roll, pitch, yaw) after an absolute rate adjustment to `rate`.
pub open spec fn rates_after_adjustment(adjustment: RcAdjustment, rate: u8, rc_rates: Seq<u8>) -> Seq<
    u8,
> {
    match adjustment {
        RcAdjustment::RollRate => rc_rates.update(0, rate),
        RcAdjustment::PitchRate => rc_rates.update(1, rate),
        RcAdjustment::PitchRollRate => rc_rates.update(0, rate).update(1, rate),
        _ => rc_rates,
    }
}

/// An adjustment value limited to the RC rate range 1 to 255.
pub open spec fn rate_from_value(value: i32) -> u8 {
    if value < 1 {
        1
    } else if value > 255 {
        255
    } else {
        value as u8
    }
}

/// Sets the RC rate of the axes that a roll, pitch or roll-and-pitch rate adjustment names;
/// every other adjustment leaves the rates as they are.
pub fn apply_absolute_rate_adjustment(adjustment: RcAdjustment, rate: u8, rc_rates: &mut [u8; 3])
    ensures
        final(rc_rates)@ == rates_after_adjustment(adjustment, rate, old(rc_rates)@),
{
    match adjustment {
        RcAdjustment::RollRate => {
            rc_rates[FD_ROLL] = rate;
        },
        RcAdjustment::PitchRate => {
            rc_rates[FD_PITCH] = rate;
        },
        RcAdjustment::PitchRollRate => {
            rc_rates[FD_ROLL] = rate;
            rc_rates[FD_PITCH] = rate;
        },
        _ => {},
    }
}

/// Limits an adjustment value to the RC rate range 1 to 255.
pub fn clamp_rate_value(value: i32) -> (r: u8)
    ensures
        r == rate_from_value(value),
{
    if value < 1 {
        1
    } else if value > 255 {
        255
    } else {
        value as u8
    }
}

/// The decision of an absolute adjustment to `value`: for a rate adjustment, the new RC
/// rates when they differ from `rc_rates` (the configuration to store and publish); `None`
/// when there is nothing to store.
pub fn absolute_adjustment_rates(adjustment: RcAdjustment, value: i32, rc_rates: [u8; 3]) -> (r:
    Option<[u8; 3]>)
    ensures
        ({
            let new_rates = rates_after_adjustment(adjustment, rate_from_value(value), rc_rates@);
            &&& r is Some <==> adjustment.is_rate_adjustment() && new_rates != rc_rates@
            &&& r matches Some(rates) ==> rates@ == new_rates
        }),
{
    match adjustment {
        RcAdjustment::ThrottleExpo | RcAdjustment::RateProfile | RcAdjustment::RcRate | RcAdjustment::RcExpo | RcAdjustment::RollRate | RcAdjustment::RollRcRate | RcAdjustment::RollRcExpo | RcAdjustment::PitchRate | RcAdjustment::PitchRcRate | RcAdjustment::PitchRcExpo | RcAdjustment::PitchRollRate | RcAdjustment::YawRate | RcAdjustment::YawRcRate => {
            let mut rates = rc_rates;
            let new_rate = clamp_rate_value(value);
            apply_absolute_rate_adjustment(adjustment, new_rate, &mut rates);
            if rates[0] != rc_rates[0] || rates[1] != rc_rates[1] || rates[2] != rc_rates[2] {
                Some(rates)
            } else {
                assert(rates@ =~= rc_rates@);
                None
            }
        },
        _ => None,
    }
}

/// A rate adjustment sets exactly the axes it names: roll rate the roll entry, pitch rate the
/// pitch entry, pitch-and-roll rate both, each to `rate`; the other entries (the yaw entry
/// always) keep their values, and every other adjustment changes nothing.
pub proof fn lemma_rate_adjustment_axes(adjustment: RcAdjustment, rate: u8, rc_rates: Seq<u8>)
    requires
        rc_rates.len() == 3,
    ensures
        ({
            let r = rates_after_adjustment(adjustment, rate, rc_rates);
            let roll = FD_ROLL as int;
            let pitch = FD_PITCH as int;
            &&& r.len() == 3
            &&& r[2] == rc_rates[2]
            &&& r[roll] == (if adjustment == RcAdjustment::RollRate || adjustment
                == RcAdjustment::PitchRollRate {
                rate
            } else {
                rc_rates[roll]
            })
            &&& r[pitch] == (if adjustment == RcAdjustment::PitchRate || adjustment
                == RcAdjustment::PitchRollRate {
                rate
            } else {
                rc_rates[pitch]
            })
        }),
{
}

/// The rate an adjustment value gives is the value itself within 1 to 255, and the nearer
/// bound outside it.
pub proof fn lemma_rate_from_value(value: i32)
    ensures
        1 <= rate_from_value(value) <= 255,
        1 <= value <= 255 ==> rate_from_value(value) == value,
        value < 1 ==> rate_from_value(value) == 1,
        value > 255 ==> rate_from_value(value) == 255,
{
}

} // verus!
