use vstd::prelude::*;
use crate::magnetometer_sensors::magnetometer_hmc5883::MagnetometerHmc5883;
use crate::magnetometer_sensors::magnetometer_mock::MagnetometerMock;

verus! {

/// Type of magnetometer used or detected.
#[derive(Clone, Copy, Debug, PartialEq, Eq, Structural)]
pub enum MagnetometerType {
    Default,
    NoMagnetometer,
    Hmc5883,
    Ak8975,
    Ak8963,
    Qmc5883,
    Lis2Mdl,
    Lis3Mdl,
    Mpu925xAk8963,
    Ist8310,
    Mmc560x,
    Mock,
}

impl MagnetometerType {
    pub const COUNT: u8 = 11;

    /// The type that a stored byte names; unknown bytes give `Default`.
    pub open spec fn of_u8(value: u8) -> MagnetometerType {
        if value == 1 {
            MagnetometerType::NoMagnetometer
        } else if value == 2 {
            MagnetometerType::Hmc5883
        } else if value == 3 {
            MagnetometerType::Ak8975
        } else if value == 4 {
            MagnetometerType::Ak8963
        } else if value == 5 {
            MagnetometerType::Qmc5883
        } else if value == 6 {
            MagnetometerType::Lis2Mdl
        } else if value == 7 {
            MagnetometerType::Lis3Mdl
        } else if value == 8 {
            MagnetometerType::Mpu925xAk8963
        } else if value == 9 {
            MagnetometerType::Ist8310
        } else if value == 10 {
            MagnetometerType::Mmc560x
        } else if value == 11 {
            MagnetometerType::Mock
        } else {
            MagnetometerType::Default
        }
    }

    pub fn from_u8(value: u8) -> (r: Self)
        ensures
            r == Self::of_u8(value),
    {
        match value {
            1 => Self::NoMagnetometer,
            2 => Self::Hmc5883,
            3 => Self::Ak8975,
            4 => Self::Ak8963,
            5 => Self::Qmc5883,
            6 => Self::Lis2Mdl,
            7 => Self::Lis3Mdl,
            8 => Self::Mpu925xAk8963,
            9 => Self::Ist8310,
            10 => Self::Mmc560x,
            11 => Self::Mock,
            _ => Self::Default,
        }
    }

    /// The byte that stores this type.
    pub open spec fn code(self) -> u8 {
        match self {
            MagnetometerType::Default => 0,
            MagnetometerType::NoMagnetometer => 1,
            MagnetometerType::Hmc5883 => 2,
            MagnetometerType::Ak8975 => 3,
            MagnetometerType::Ak8963 => 4,
            MagnetometerType::Qmc5883 => 5,
            MagnetometerType::Lis2Mdl => 6,
            MagnetometerType::Lis3Mdl => 7,
            MagnetometerType::Mpu925xAk8963 => 8,
            MagnetometerType::Ist8310 => 9,
            MagnetometerType::Mmc560x => 10,
            MagnetometerType::Mock => 11,
        }
    }

    pub fn value(self) -> (r: u8)
        ensures
            r == self.code(),
    {
        match self {
            MagnetometerType::Default => 0,
            MagnetometerType::NoMagnetometer => 1,
            MagnetometerType::Hmc5883 => 2,
            MagnetometerType::Ak8975 => 3,
            MagnetometerType::Ak8963 => 4,
            MagnetometerType::Qmc5883 => 5,
            MagnetometerType::Lis2Mdl => 6,
            MagnetometerType::Lis3Mdl => 7,
            MagnetometerType::Mpu925xAk8963 => 8,
            MagnetometerType::Ist8310 => 9,
            MagnetometerType::Mmc560x => 10,
            MagnetometerType::Mock => 11,
        }
    }
}

impl Default for MagnetometerType {
    fn default() -> (r: Self)
        ensures
            r == MagnetometerType::Default,
    {
        MagnetometerType::Default
    }
}

/// A magnetometer reading as other tasks receive it.
#[derive(Clone, Copy, Debug, PartialEq, Eq, Structural)]
pub struct MagnetometerMessage {
    pub quality: u16,
}

impl MagnetometerMessage {
    #[verifier::allow_in_spec]
    pub fn new() -> Self
        returns
            (Self { quality: 0 }),
    {
        Self { quality: 0 }
    }
}

impl Default for MagnetometerMessage {
    fn default() -> (r: Self)
        ensures
            r == Self::new(),
    {
        Self::new()
    }
}

/// The common interface for magnetometers.
pub trait RxMagnetometer {
    fn message(&self) -> MagnetometerMessage;
}

/// A magnetometer of one of the supported kinds.
#[derive(Clone, Copy, Debug, PartialEq, Eq, Structural)]
pub enum Magnetometer {
    Mock(MagnetometerMock),
    Hmc5883(MagnetometerHmc5883),
}

impl Magnetometer {
    /// The driver for a supported magnetometer type; `None` for the others.
    pub fn new(magnetometer_type: MagnetometerType) -> (r: Option<Magnetometer>)
        ensures
            r == match magnetometer_type {
                MagnetometerType::Hmc5883 => Some(Magnetometer::Hmc5883(MagnetometerHmc5883::new())),
                MagnetometerType::Mock => Some(Magnetometer::Mock(MagnetometerMock::new())),
                _ => None,
            },
    {
        match magnetometer_type {
            MagnetometerType::Hmc5883 => Some(Self::Hmc5883(MagnetometerHmc5883::new())),
            MagnetometerType::Mock => Some(Self::Mock(MagnetometerMock::new())),
            _ => None,
        }
    }
}

impl RxMagnetometer for Magnetometer {
    fn message(&self) -> (r: MagnetometerMessage)
        ensures
            r == MagnetometerMessage::new(),
    {
        match self {
            Self::Mock(magnetometer) => magnetometer.message(),
            Self::Hmc5883(magnetometer) => magnetometer.message(),
        }
    }
}

/// Reading back the stored byte of a magnetometer type gives the type, and no two types share a byte.
pub proof fn lemma_magnetometer_type_code_roundtrip(x: MagnetometerType, y: MagnetometerType)
    ensures
        MagnetometerType::of_u8(x.code()) == x,
        x.code() == y.code() ==> x == y,
{
}

} // verus!
