use vstd::prelude::*;

verus! {

/// How the GPS receiver is set up.
#[derive(Clone, Copy, Debug, PartialEq, Eq, Structural)]
pub struct GpsConfig {
    pub provider: GpsProvider,
    pub sbas_mode: SbasMode,
    pub auto_config: GpsOffOn,
    pub auto_baud: GpsOffOn,
    pub gps_ublox_acquire_model: GpsModel,
    pub gps_ublox_flight_model: GpsModel,
    pub gps_update_rate_hz: u8,
    pub gps_ublox_use_galileo: u8,
    pub gps_set_home_point_once: u8,
    pub gps_use_3d_speed: u8,
    pub sbas_integrity: u8,
    pub gps_ublox_utc_standard: UtcStandard,
}

impl GpsConfig {
    #[verifier::allow_in_spec]
    pub fn new() -> Self
        returns
            (Self {
                provider: GpsProvider::Ubx,
                sbas_mode: SbasMode::NoSbas,
                auto_config: GpsOffOn::On,
                auto_baud: GpsOffOn::Off,
                gps_ublox_acquire_model: GpsModel::Stationary,
                gps_ublox_flight_model: GpsModel::Airborne4G,
                gps_update_rate_hz: 10,
                gps_ublox_use_galileo: 0,
                gps_set_home_point_once: 0,
                gps_use_3d_speed: 0,
                sbas_integrity: 0,
                gps_ublox_utc_standard: UtcStandard::Auto,
            }),
    {
        Self {
            provider: GpsProvider::Ubx,
            sbas_mode: SbasMode::NoSbas,
            auto_config: GpsOffOn::On,
            auto_baud: GpsOffOn::Off,
            gps_ublox_acquire_model: GpsModel::Stationary,
            gps_ublox_flight_model: GpsModel::Airborne4G,
            gps_update_rate_hz: 10,
            gps_ublox_use_galileo: 0,
            gps_set_home_point_once: 0,
            gps_use_3d_speed: 0,
            sbas_integrity: 0,
            gps_ublox_utc_standard: UtcStandard::Auto,
        }
    }
}

impl Default for GpsConfig {
    fn default() -> (r: Self)
        ensures
            r == Self::new(),
    {
        Self::new()
    }
}

/// The protocol that the receiver speaks; `NoProvider` means no receiver.
#[derive(Clone, Copy, Debug, PartialEq, Eq, Structural)]
pub enum GpsProvider {
    Nmea,
    Ubx,
    Msp,
    Mock,
    NoProvider,
}

impl GpsProvider {
    /// The setting that a stored byte names; unknown bytes give the default.
    pub open spec fn of_u8(value: u8) -> GpsProvider {
        if value == 0 {
            GpsProvider::Nmea
        } else if value == 1 {
            GpsProvider::Ubx
        } else if value == 2 {
            GpsProvider::Msp
        } else if value == 3 {
            GpsProvider::Mock
        } else if value == 255 {
            GpsProvider::NoProvider
        } else {
            GpsProvider::Nmea
        }
    }

    pub fn from_u8(value: u8) -> (r: Self)
        ensures
            r == Self::of_u8(value),
    {
        match value {
            0 => Self::Nmea,
            1 => Self::Ubx,
            2 => Self::Msp,
            3 => Self::Mock,
            255 => Self::NoProvider,
            _ => Self::Nmea,
        }
    }

    /// The byte that stores this setting.
    pub open spec fn code(self) -> u8 {
        match self {
            GpsProvider::Nmea => 0,
            GpsProvider::Ubx => 1,
            GpsProvider::Msp => 2,
            GpsProvider::Mock => 3,
            GpsProvider::NoProvider => 255,
        }
    }

    pub fn value(self) -> (r: u8)
        ensures
            r == self.code(),
    {
        match self {
            GpsProvider::Nmea => 0,
            GpsProvider::Ubx => 1,
            GpsProvider::Msp => 2,
            GpsProvider::Mock => 3,
            GpsProvider::NoProvider => 255,
        }
    }
}

impl Default for GpsProvider {
    fn default() -> (r: Self)
        ensures
            r == GpsProvider::Nmea,
    {
        GpsProvider::Nmea
    }
}

/// The dynamic platform model that the receiver assumes.
#[derive(Clone, Copy, Debug, PartialEq, Eq, Structural)]
pub enum GpsModel {
    Portable,
    Stationary,
    Pedestrian,
    Automotive,
    AtSea,
    Airborne1G,
    Airborne2G,
    Airborne4G,
}

impl GpsModel {
    /// The setting that a stored byte names; unknown bytes give the default.
    pub open spec fn of_u8(value: u8) -> GpsModel {
        if value == 0 {
            GpsModel::Portable
        } else if value == 1 {
            GpsModel::Stationary
        } else if value == 2 {
            GpsModel::Pedestrian
        } else if value == 3 {
            GpsModel::Automotive
        } else if value == 4 {
            GpsModel::AtSea
        } else if value == 5 {
            GpsModel::Airborne1G
        } else if value == 6 {
            GpsModel::Airborne2G
        } else if value == 7 {
            GpsModel::Airborne4G
        } else {
            GpsModel::Portable
        }
    }

    pub fn from_u8(value: u8) -> (r: Self)
        ensures
            r == Self::of_u8(value),
    {
        match value {
            0 => Self::Portable,
            1 => Self::Stationary,
            2 => Self::Pedestrian,
            3 => Self::Automotive,
            4 => Self::AtSea,
            5 => Self::Airborne1G,
            6 => Self::Airborne2G,
            7 => Self::Airborne4G,
            _ => Self::Portable,
        }
    }

    /// The byte that stores this setting.
    pub open spec fn code(self) -> u8 {
        match self {
            GpsModel::Portable => 0,
            GpsModel::Stationary => 1,
            GpsModel::Pedestrian => 2,
            GpsModel::Automotive => 3,
            GpsModel::AtSea => 4,
            GpsModel::Airborne1G => 5,
            GpsModel::Airborne2G => 6,
            GpsModel::Airborne4G => 7,
        }
    }

    pub fn value(self) -> (r: u8)
        ensures
            r == self.code(),
    {
        match self {
            GpsModel::Portable => 0,
            GpsModel::Stationary => 1,
            GpsModel::Pedestrian => 2,
            GpsModel::Automotive => 3,
            GpsModel::AtSea => 4,
            GpsModel::Airborne1G => 5,
            GpsModel::Airborne2G => 6,
            GpsModel::Airborne4G => 7,
        }
    }
}

impl Default for GpsModel {
    fn default() -> (r: Self)
        ensures
            r == GpsModel::Portable,
    {
        GpsModel::Portable
    }
}

/// The UTC variant that the receiver reports.
#[derive(Clone, Copy, Debug, PartialEq, Eq, Structural)]
pub enum UtcStandard {
    Auto,
    Usno,
    Eu,
    Su,
    Ntsc,
}

impl UtcStandard {
    /// The setting that a stored byte names; unknown bytes give the default.
    pub open spec fn of_u8(value: u8) -> UtcStandard {
        if value == 0 {
            UtcStandard::Auto
        } else if value == 3 {
            UtcStandard::Usno
        } else if value == 5 {
            UtcStandard::Eu
        } else if value == 6 {
            UtcStandard::Su
        } else if value == 7 {
            UtcStandard::Ntsc
        } else {
            UtcStandard::Auto
        }
    }

    pub fn from_u8(value: u8) -> (r: Self)
        ensures
            r == Self::of_u8(value),
    {
        match value {
            0 => Self::Auto,
            3 => Self::Usno,
            5 => Self::Eu,
            6 => Self::Su,
            7 => Self::Ntsc,
            _ => Self::Auto,
        }
    }

    /// The byte that stores this setting.
    pub open spec fn code(self) -> u8 {
        match self {
            UtcStandard::Auto => 0,
            UtcStandard::Usno => 3,
            UtcStandard::Eu => 5,
            UtcStandard::Su => 6,
            UtcStandard::Ntsc => 7,
        }
    }

    pub fn value(self) -> (r: u8)
        ensures
            r == self.code(),
    {
        match self {
            UtcStandard::Auto => 0,
            UtcStandard::Usno => 3,
            UtcStandard::Eu => 5,
            UtcStandard::Su => 6,
            UtcStandard::Ntsc => 7,
        }
    }
}

impl Default for UtcStandard {
    fn default() -> (r: Self)
        ensures
            r == UtcStandard::Auto,
    {
        UtcStandard::Auto
    }
}

/// The satellite-based augmentation system to use; `NoSbas` turns it off.
#[derive(Clone, Copy, Debug, PartialEq, Eq, Structural)]
pub enum SbasMode {
    Auto,
    Egnos,
    Waas,
    Msas,
    Gagan,
    NoSbas,
}

impl SbasMode {
    pub const COUNT: u8 = 13;

    /// The setting that a stored byte names; unknown bytes give the default.
    pub open spec fn of_u8(value: u8) -> SbasMode {
        if value == 0 {
            SbasMode::Auto
        } else if value == 1 {
            SbasMode::Egnos
        } else if value == 2 {
            SbasMode::Waas
        } else if value == 3 {
            SbasMode::Gagan
        } else if value == 4 {
            SbasMode::NoSbas
        } else {
            SbasMode::Auto
        }
    }

    pub fn from_u8(value: u8) -> (r: Self)
        ensures
            r == Self::of_u8(value),
    {
        match value {
            0 => Self::Auto,
            1 => Self::Egnos,
            2 => Self::Waas,
            3 => Self::Gagan,
            4 => Self::NoSbas,
            _ => Self::Auto,
        }
    }

    /// The byte that stores this setting.
    pub open spec fn code(self) -> u8 {
        match self {
            SbasMode::Auto => 0,
            SbasMode::Egnos => 1,
            SbasMode::Waas => 2,
            SbasMode::Msas => 3,
            SbasMode::Gagan => 4,
            SbasMode::NoSbas => 5,
        }
    }

    pub fn value(self) -> (r: u8)
        ensures
            r == self.code(),
    {
        match self {
            SbasMode::Auto => 0,
            SbasMode::Egnos => 1,
            SbasMode::Waas => 2,
            SbasMode::Msas => 3,
            SbasMode::Gagan => 4,
            SbasMode::NoSbas => 5,
        }
    }
}

impl Default for SbasMode {
    fn default() -> (r: Self)
        ensures
            r == SbasMode::Auto,
    {
        SbasMode::Auto
    }
}

/// A switch.
#[derive(Clone, Copy, Debug, PartialEq, Eq, Structural)]
pub enum GpsOffOn {
    Off,
    On,
}

impl GpsOffOn {
    pub const COUNT: u8 = 2;

    /// The setting that a stored byte names; unknown bytes give the default.
    pub open spec fn of_u8(value: u8) -> GpsOffOn {
        if value == 0 {
            GpsOffOn::Off
        } else if value == 1 {
            GpsOffOn::On
        } else {
            GpsOffOn::Off
        }
    }

    pub fn from_u8(value: u8) -> (r: Self)
        ensures
            r == Self::of_u8(value),
    {
        match value {
            0 => Self::Off,
            1 => Self::On,
            _ => Self::Off,
        }
    }

    /// The byte that stores this setting.
    pub open spec fn code(self) -> u8 {
        match self {
            GpsOffOn::Off => 0,
            GpsOffOn::On => 1,
        }
    }

    pub fn value(self) -> (r: u8)
        ensures
            r == self.code(),
    {
        match self {
            GpsOffOn::Off => 0,
            GpsOffOn::On => 1,
        }
    }
}

impl Default for GpsOffOn {
    fn default() -> (r: Self)
        ensures
            r == GpsOffOn::Off,
    {
        GpsOffOn::Off
    }
}

/// Reading back the stored byte of a provider gives the provider, and no two providers share a byte.
pub proof fn lemma_gps_provider_code_roundtrip(x: GpsProvider, y: GpsProvider)
    ensures
        GpsProvider::of_u8(x.code()) == x,
        x.code() == y.code() ==> x == y,
{
}

/// Reading back the stored byte of a platform model gives the model, and no two models share a byte.
pub proof fn lemma_gps_model_code_roundtrip(x: GpsModel, y: GpsModel)
    ensures
        GpsModel::of_u8(x.code()) == x,
        x.code() == y.code() ==> x == y,
{
}

/// Reading back the stored byte of a UTC standard gives the standard, and no two standards share a byte.
pub proof fn lemma_utc_standard_code_roundtrip(x: UtcStandard, y: UtcStandard)
    ensures
        UtcStandard::of_u8(x.code()) == x,
        x.code() == y.code() ==> x == y,
{
}

/// Reading back the stored byte of a switch gives the switch, and the two positions have different bytes.
pub proof fn lemma_gps_off_on_code_roundtrip(x: GpsOffOn, y: GpsOffOn)
    ensures
        GpsOffOn::of_u8(x.code()) == x,
        x.code() == y.code() ==> x == y,
{
}

/// The automatic, EGNOS and WAAS settings read back from their stored bytes, and no two settings
/// share a byte (the bytes 3 to 5 read back as Gagan, no SBAS and automatic).
pub proof fn lemma_sbas_mode_code_roundtrip(x: SbasMode, y: SbasMode)
    ensures
        (x == SbasMode::Auto || x == SbasMode::Egnos || x == SbasMode::Waas) ==> SbasMode::of_u8(x.code()) == x,
        x.code() == y.code() ==> x == y,
{
}

} // verus!
