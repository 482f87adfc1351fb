use fc_core::i2c_bus::mock_i2c::MockI2c;
use fc_core::magnetometer_sensors::config::{FlightDynamicsTrims, MagnetometerConfig};
use fc_core::magnetometer_sensors::magnetometer::{
    Magnetometer, MagnetometerMessage, MagnetometerType, RxMagnetometer,
};
use fc_core::magnetometer_sensors::magnetometer_mock::MagnetometerMock;

fn is_full<T: Sized + Send + Sync + Unpin + Copy + Clone + Default + PartialEq>() {}

#[test]
fn magnetometer_config_normal_types() {
    is_full::<MagnetometerConfig>();
}

#[test]
fn magnetometer_normal_types() {
    is_full::<MagnetometerMessage>();
    is_full::<MagnetometerType>();
}

// Checks of the library's own beyond the scenarios above.

#[test]
fn magnetometer_types_and_drivers() {
    assert_eq!(MagnetometerType::from_u8(11), MagnetometerType::Mock);
    assert_eq!(MagnetometerType::from_u8(1), MagnetometerType::NoMagnetometer);
    assert_eq!(MagnetometerType::from_u8(12), MagnetometerType::Default);
    assert_eq!(MagnetometerType::Ist8310.value(), 9);
    assert!(matches!(Magnetometer::new(MagnetometerType::Mock), Some(Magnetometer::Mock(_))));
    assert!(matches!(Magnetometer::new(MagnetometerType::Hmc5883), Some(Magnetometer::Hmc5883(_))));
    assert!(Magnetometer::new(MagnetometerType::Ak8975).is_none());
    let mag = Magnetometer::new(MagnetometerType::Mock).expect("mock magnetometer");
    assert_eq!(mag.message(), MagnetometerMessage::new());
    assert_eq!(MagnetometerMock::new().message().quality, 0);
    let config = MagnetometerConfig::default();
    assert_eq!(config.hardware, MagnetometerType::NoMagnetometer);
    assert_eq!(config.zero, FlightDynamicsTrims::new());
}

#[test]
fn mock_i2c_reads_back_what_was_written() {
    let mut bus = MockI2c::new();
    assert_eq!(bus.write(&[0x10, 1, 2, 3]), Ok(()));
    assert_eq!(bus.register(0x11), 2);
    let mut read = [0u8; 3];
    assert_eq!(bus.write_read(&[0x10], &mut read), Ok(()));
    assert_eq!(read, [1, 2, 3]);
    // The pointer moved past the bytes read.
    let mut next = [9u8; 1];
    assert_eq!(bus.read(&mut next), Ok(()));
    assert_eq!(next, [0]);
}

#[test]
fn mock_i2c_clips_at_the_last_register() {
    let mut bus = MockI2c::new();
    bus.set_registers(0xfe, &[7, 8, 9]);
    assert_eq!(bus.register(0xfe), 7);
    assert_eq!(bus.register(0xff), 8);
    assert_eq!(bus.register(0x00), 0);
    bus.set_register(0x00, 5);
    let mut read = [1u8; 4];
    assert_eq!(bus.write_read(&[0xfe], &mut read), Ok(()));
    assert_eq!(read, [7, 8, 0, 0]);
    // The pointer wrapped past the end: the next read starts at register 2.
    bus.set_register(0x02, 42);
    let mut next = [0u8; 1];
    assert_eq!(bus.read(&mut next), Ok(()));
    assert_eq!(next, [42]);
    assert_eq!(bus.write(&[]), Ok(()));
}
