use embedded_hal::blocking::i2c::Write as BusWrite;
use embedded_hal_mock::i2c::{Mock as I2cMock, Transaction as I2cTrans};
use embedded_hal_mock::MockError;
use isl29125::{
    color_from_reply, register_from_reply, BitFlags, ConversionStatus, Error, FaultCount,
    IRFilteringRange, InterruptPinMode, InterruptThresholdAssignment, Isl29125, Measurement,
    OperatingMode, Range, Register, Resolution, Status, Write, ADDR,
};

/// A handle without a bus: enough to ask what would be written.
fn detached() -> Isl29125<()> {
    Isl29125::new(())
}

/// Reports `write` to the handle as carried out with success.
fn accept(sensor: &mut Isl29125<()>, write: Write) {
    let outcome: Result<(), &str> = Ok(());
    assert!(sensor.complete(write, outcome).is_ok());
}

fn register_write(register: u8, value: u8) -> Write {
    Write::Register { register, value }
}

#[test]
fn register_map_matches_the_datasheet() {
    assert_eq!(ADDR, 0x44);
    assert_eq!(Register::DEVICE_ID, 0x00);
    assert_eq!(Register::CONFIG1, 0x01);
    assert_eq!(Register::CONFIG2, 0x02);
    assert_eq!(Register::CONFIG3, 0x03);
    assert_eq!(Register::THL, 0x04);
    assert_eq!(Register::STATUS, 0x08);
    assert_eq!(Register::GREEN_L, 0x09);
    assert_eq!(Register::RED_L, 0x0B);
    assert_eq!(Register::BLUE_L, 0x0D);
}

#[test]
fn bit_flags_match_the_datasheet() {
    assert_eq!(BitFlags::SYNC, 1 << 5);
    assert_eq!(BitFlags::RESOLUTION, 1 << 4);
    assert_eq!(BitFlags::RANGE, 1 << 3);
    assert_eq!(BitFlags::IR_OFFSET, 1 << 7);
    assert_eq!(BitFlags::CONVEN, 1 << 4);
    assert_eq!(BitFlags::BOUTF, 1 << 2);
    assert_eq!(BitFlags::CONVENF, 1 << 1);
    assert_eq!(BitFlags::RGBTHF, 1);
    assert_eq!(IRFilteringRange::MAX_MAGNITUDE, 63);
}

#[test]
fn register_write_is_address_then_value() {
    let write = register_write(0x01, 0x3D);
    assert_eq!(write.address(), 0x44);
    assert_eq!(write.bytes(), vec![0x01, 0x3D]);
}

#[test]
fn thresholds_go_out_low_byte_first() {
    let sensor = detached();
    let write = sensor.set_interrupt_thresholds(0x1234, 0x5678);
    assert_eq!(
        write,
        Write::Thresholds {
            low: 0x1234,
            high: 0x5678
        }
    );
    assert_eq!(write.address(), 0x44);
    assert_eq!(write.bytes(), vec![0x04, 0x34, 0x12, 0x78, 0x56]);
}

#[test]
fn thresholds_accept_the_whole_range() {
    let sensor = detached();
    assert_eq!(
        sensor.set_interrupt_thresholds(0, 0).bytes(),
        vec![0x04, 0x00, 0x00, 0x00, 0x00]
    );
    assert_eq!(
        sensor.set_interrupt_thresholds(0xFFFF, 0xFFFF).bytes(),
        vec![0x04, 0xFF, 0xFF, 0xFF, 0xFF]
    );
    assert_eq!(
        sensor.set_interrupt_thresholds(0x00FF, 0xFF00).bytes(),
        vec![0x04, 0xFF, 0x00, 0x00, 0xFF]
    );
    assert_eq!(
        sensor.set_interrupt_thresholds(150, 8500).bytes(),
        vec![0x04, 150, 0, 0x34, 0x21]
    );
}

#[test]
fn read_requests_name_register_and_length() {
    let sensor = detached();
    let colors = sensor.read();
    assert_eq!((colors.register, colors.count()), (0x09, 6));
    assert_eq!(colors.bytes(), vec![0x09]);
    assert_eq!(colors.address(), 0x44);
    let red = sensor.red();
    assert_eq!((red.register, red.count()), (0x0B, 2));
    assert_eq!(red.bytes(), vec![0x0B]);
    let green = sensor.green();
    assert_eq!((green.register, green.count()), (0x09, 2));
    let blue = sensor.blue();
    assert_eq!((blue.register, blue.count()), (0x0D, 2));
    let status = sensor.status();
    assert_eq!((status.register, status.count()), (0x08, 1));
    let id = sensor.device_id();
    assert_eq!((id.register, id.count()), (0x00, 1));
    assert_eq!(id.bytes(), vec![0x00]);
}

#[test]
fn reset_and_clear_status_are_fixed_writes() {
    let mut sensor = detached();
    assert_eq!(sensor.reset(), register_write(0x00, 0x46));
    assert_eq!(sensor.clear_status(), register_write(0x08, 0x00));
    let write = sensor.set_operating_mode(OperatingMode::RedGreenBlue);
    accept(&mut sensor, write);
    let write = sensor.enable_interrupt_on_conversion_done();
    accept(&mut sensor, write);
    assert_eq!(sensor.reset(), register_write(0x00, 0x46));
    assert_eq!(sensor.clear_status(), register_write(0x08, 0x00));
}

#[test]
fn reset_leaves_the_shadows_alone() {
    let mut sensor = detached();
    let write = sensor.set_operating_mode(OperatingMode::RedGreenBlue);
    accept(&mut sensor, write);
    let write = sensor.reset();
    accept(&mut sensor, write);
    let write = sensor.clear_status();
    accept(&mut sensor, write);
    assert_eq!(
        sensor.set_range(Range::Lux10000),
        register_write(0x01, 0b0000_1101)
    );
}

#[test]
fn operating_mode_keeps_the_other_fields() {
    let mut sensor = detached();
    for write in [
        sensor.set_resolution(Resolution::Bit12),
        sensor.set_range(Range::Lux10000),
        sensor.set_interrupt_pin_mode(InterruptPinMode::SyncStart),
    ] {
        let shadowed = match write {
            Write::Register { value, .. } => value,
            Write::Thresholds { .. } => unreachable!(),
        };
        assert!(shadowed != 0);
    }
    let write = sensor.set_resolution(Resolution::Bit12);
    accept(&mut sensor, write);
    let write = sensor.set_range(Range::Lux10000);
    accept(&mut sensor, write);
    let write = sensor.set_interrupt_pin_mode(InterruptPinMode::SyncStart);
    assert_eq!(write, register_write(0x01, 0b0011_1000));
    accept(&mut sensor, write);
    let modes = [
        (OperatingMode::PowerDown, 0u8),
        (OperatingMode::GreenOnly, 1),
        (OperatingMode::RedOnly, 2),
        (OperatingMode::BlueOnly, 3),
        (OperatingMode::StandBy, 4),
        (OperatingMode::RedGreenBlue, 5),
        (OperatingMode::RedGreen, 6),
        (OperatingMode::GreenBlue, 7),
    ];
    for (mode, code) in modes {
        let write = sensor.set_operating_mode(mode);
        assert_eq!(write, register_write(0x01, 0b0011_1000 | code));
        accept(&mut sensor, write);
    }
    let write = sensor.set_operating_mode(OperatingMode::RedOnly);
    assert_eq!(write, register_write(0x01, 0b0011_1010));
}

#[test]
fn single_bit_settings_change_one_bit() {
    let mut sensor = detached();
    let write = sensor.set_operating_mode(OperatingMode::GreenBlue);
    accept(&mut sensor, write);
    let write = sensor.set_resolution(Resolution::Bit12);
    assert_eq!(write, register_write(0x01, 0b0001_0111));
    accept(&mut sensor, write);
    let write = sensor.set_range(Range::Lux10000);
    assert_eq!(write, register_write(0x01, 0b0001_1111));
    accept(&mut sensor, write);
    let write = sensor.set_interrupt_pin_mode(InterruptPinMode::SyncStart);
    assert_eq!(write, register_write(0x01, 0b0011_1111));
    accept(&mut sensor, write);
    let write = sensor.set_resolution(Resolution::Bit16);
    assert_eq!(write, register_write(0x01, 0b0010_1111));
    accept(&mut sensor, write);
    let write = sensor.set_range(Range::Lux375);
    assert_eq!(write, register_write(0x01, 0b0010_0111));
    accept(&mut sensor, write);
    let write = sensor.set_interrupt_pin_mode(InterruptPinMode::Interrupt);
    assert_eq!(write, register_write(0x01, 0b0000_0111));
}

#[test]
fn interrupt_settings_share_configuration_three() {
    let mut sensor = detached();
    let write = sensor.set_interrupt_threshold_assignment(InterruptThresholdAssignment::Blue);
    assert_eq!(write, register_write(0x03, 0b0000_0011));
    accept(&mut sensor, write);
    let write = sensor.set_fault_count(FaultCount::Eight);
    assert_eq!(write, register_write(0x03, 0b0000_1111));
    accept(&mut sensor, write);
    let write = sensor.enable_interrupt_on_conversion_done();
    assert_eq!(write, register_write(0x03, 0b0001_1111));
    accept(&mut sensor, write);
    let write = sensor.set_fault_count(FaultCount::Two);
    assert_eq!(write, register_write(0x03, 0b0001_0111));
    accept(&mut sensor, write);
    let write = sensor.set_interrupt_threshold_assignment(InterruptThresholdAssignment::Red);
    assert_eq!(write, register_write(0x03, 0b0001_0110));
    accept(&mut sensor, write);
    let write = sensor.set_fault_count(FaultCount::Four);
    assert_eq!(write, register_write(0x03, 0b0001_1010));
    accept(&mut sensor, write);
    let write = sensor.disable_interrupt_on_conversion_done();
    assert_eq!(write, register_write(0x03, 0b0000_1010));
    accept(&mut sensor, write);
    let write = sensor.set_interrupt_threshold_assignment(InterruptThresholdAssignment::NoInterrupt);
    assert_eq!(write, register_write(0x03, 0b0000_1000));
    accept(&mut sensor, write);
    let write = sensor.set_fault_count(FaultCount::One);
    assert_eq!(write, register_write(0x03, 0b0000_0000));
}

#[test]
fn ir_filtering_accepts_up_to_sixty_three() {
    let sensor = detached();
    for magnitude in 0u8..=63 {
        let lower = sensor
            .set_ir_filtering::<()>(IRFilteringRange::Lower(magnitude))
            .unwrap();
        assert_eq!(lower, register_write(0x02, magnitude));
        let higher = sensor
            .set_ir_filtering::<()>(IRFilteringRange::Higher(magnitude))
            .unwrap();
        assert_eq!(higher, register_write(0x02, 0x80 | magnitude));
    }
    assert_eq!(
        sensor
            .set_ir_filtering::<()>(IRFilteringRange::Lower(35))
            .unwrap()
            .bytes(),
        vec![0x02, 35]
    );
}

#[test]
fn ir_filtering_rejects_above_sixty_three() {
    let sensor = detached();
    for magnitude in 64u8..=255 {
        let lower = sensor.set_ir_filtering::<()>(IRFilteringRange::Lower(magnitude));
        assert!(matches!(lower, Err(Error::InvalidInputData)));
        let higher = sensor.set_ir_filtering::<()>(IRFilteringRange::Higher(magnitude));
        assert!(matches!(higher, Err(Error::InvalidInputData)));
    }
}

#[test]
fn rejected_ir_filtering_touches_no_bus() {
    let sensor = Isl29125::new(I2cMock::new(&[]));
    assert!(sensor
        .set_ir_filtering::<MockError>(IRFilteringRange::Higher(200))
        .is_err());
    sensor.destroy().done();
}

#[test]
fn setter_twice_writes_the_same_and_keeps_the_shadow() {
    let mut sensor = detached();
    let write = sensor.set_fault_count(FaultCount::Four);
    accept(&mut sensor, write);
    let first = sensor.set_operating_mode(OperatingMode::RedGreen);
    accept(&mut sensor, first);
    let second = sensor.set_operating_mode(OperatingMode::RedGreen);
    assert_eq!(first, second);
    accept(&mut sensor, second);
    let third = sensor.set_operating_mode(OperatingMode::RedGreen);
    assert_eq!(third, register_write(0x01, 6));

    let first = sensor.set_resolution(Resolution::Bit12);
    accept(&mut sensor, first);
    let second = sensor.set_resolution(Resolution::Bit12);
    assert_eq!(first, second);
    assert_eq!(second, register_write(0x01, 0b0001_0110));
    let failed: Result<(), &str> = Err("nack");
    assert!(sensor.complete(second, failed).is_err());
    assert_eq!(
        sensor.set_resolution(Resolution::Bit12),
        register_write(0x01, 0b0001_0110)
    );

    let first = sensor.enable_interrupt_on_conversion_done();
    accept(&mut sensor, first);
    let second = sensor.enable_interrupt_on_conversion_done();
    assert_eq!(first, second);
    assert_eq!(second, register_write(0x03, 0b0001_1000));

    let first = sensor.set_interrupt_thresholds(7, 9);
    accept(&mut sensor, first);
    assert_eq!(first, sensor.set_interrupt_thresholds(7, 9));
    let first = sensor.set_ir_filtering::<()>(IRFilteringRange::Higher(1)).unwrap();
    accept(&mut sensor, first);
    assert_eq!(
        first,
        sensor.set_ir_filtering::<()>(IRFilteringRange::Higher(1)).unwrap()
    );
}

#[test]
fn configuration_registers_do_not_mix() {
    let mut sensor = detached();
    let write = sensor.set_operating_mode(OperatingMode::GreenBlue);
    accept(&mut sensor, write);
    let write = sensor.set_interrupt_pin_mode(InterruptPinMode::SyncStart);
    accept(&mut sensor, write);
    assert_eq!(
        sensor.set_interrupt_threshold_assignment(InterruptThresholdAssignment::Green),
        register_write(0x03, 0b0000_0001)
    );
    let write = sensor.set_fault_count(FaultCount::Eight);
    accept(&mut sensor, write);
    let write = sensor.enable_interrupt_on_conversion_done();
    accept(&mut sensor, write);
    assert_eq!(
        sensor.set_range(Range::Lux10000),
        register_write(0x01, 0b0010_1111)
    );
    let write = sensor.set_ir_filtering::<()>(IRFilteringRange::Higher(63)).unwrap();
    accept(&mut sensor, write);
    let write = sensor.set_interrupt_thresholds(0xFFFF, 0xFFFF);
    accept(&mut sensor, write);
    assert_eq!(
        sensor.set_range(Range::Lux10000),
        register_write(0x01, 0b0010_1111)
    );
    assert_eq!(
        sensor.set_fault_count(FaultCount::One),
        register_write(0x03, 0b0001_0000)
    );
}

#[test]
fn failed_write_leaves_the_shadow_as_it_was() {
    let mut sensor = detached();
    let write = sensor.set_operating_mode(OperatingMode::RedGreenBlue);
    accept(&mut sensor, write);
    let write = sensor.set_resolution(Resolution::Bit12);
    assert_eq!(write, register_write(0x01, 0b0001_0101));
    let result = sensor.complete(write, Err::<(), u32>(17));
    assert!(matches!(result, Err(Error::I2C(17))));
    assert_eq!(
        sensor.set_range(Range::Lux10000),
        register_write(0x01, 0b0000_1101)
    );
    let write = sensor.set_fault_count(FaultCount::Eight);
    let result = sensor.complete(write, Err::<(), u32>(3));
    assert!(matches!(result, Err(Error::I2C(3))));
    assert_eq!(
        sensor.enable_interrupt_on_conversion_done(),
        register_write(0x03, 0b0001_0000)
    );
}

#[test]
fn bus_error_during_a_setter_is_handed_on() {
    let failure = MockError::Io(std::io::ErrorKind::Other);
    let mut sensor = Isl29125::new(I2cMock::new(&[
        I2cTrans::write(0x44, vec![0x01, 0b0000_0101]).with_error(failure.clone()),
        I2cTrans::write(0x44, vec![0x01, 0b0001_0000]),
        I2cTrans::write(0x44, vec![0x01, 0b0001_0101]),
    ]));
    let write = sensor.set_operating_mode(OperatingMode::RedGreenBlue);
    let outcome = sensor.bus().write(write.address(), &write.bytes());
    match sensor.complete(write, outcome) {
        Err(Error::I2C(error)) => assert_eq!(error, failure),
        _ => panic!("the bus error should come back"),
    }
    let write = sensor.set_resolution(Resolution::Bit12);
    let outcome = sensor.bus().write(write.address(), &write.bytes());
    sensor.complete(write, outcome).unwrap();
    let write = sensor.set_operating_mode(OperatingMode::RedGreenBlue);
    let outcome = sensor.bus().write(write.address(), &write.bytes());
    sensor.complete(write, outcome).unwrap();
    sensor.destroy().done();
}

#[test]
fn completing_any_write_to_a_configuration_register_sets_its_shadow() {
    let mut sensor = detached();
    accept(&mut sensor, register_write(0x01, 0b1100_0000));
    assert_eq!(
        sensor.set_operating_mode(OperatingMode::GreenOnly),
        register_write(0x01, 0b1100_0001)
    );
    accept(&mut sensor, register_write(0x03, 0b1110_0000));
    assert_eq!(
        sensor.set_fault_count(FaultCount::Two),
        register_write(0x03, 0b1110_0100)
    );
    accept(&mut sensor, register_write(0x02, 0xFF));
    accept(&mut sensor, register_write(0x08, 0xFF));
    assert_eq!(
        sensor.set_operating_mode(OperatingMode::PowerDown),
        register_write(0x01, 0b1100_0000)
    );
    assert_eq!(
        sensor.disable_interrupt_on_conversion_done(),
        register_write(0x03, 0b1110_0000)
    );
}

#[test]
fn destroy_returns_the_transport() {
    let mut sensor = Isl29125::new(41u32);
    *sensor.bus() += 1;
    let write = sensor.set_range(Range::Lux10000);
    assert!(sensor.complete(write, Ok::<(), ()>(())).is_ok());
    assert_eq!(*sensor.bus(), 42);
    assert_eq!(sensor.destroy(), 42);
}

#[test]
fn measurement_is_green_red_blue_low_byte_first() {
    let reply: Result<[u8; 6], ()> = Ok([0x78, 0x56, 0x34, 0x12, 0xBC, 0x9A]);
    let m = Measurement::from_reply(reply).unwrap();
    assert_eq!(
        m,
        Measurement {
            red: 0x1234,
            green: 0x5678,
            blue: 0x9ABC
        }
    );
    let reply: Result<[u8; 6], ()> = Ok([0xFF, 0xFF, 0x00, 0x00, 0x01, 0x80]);
    let m = Measurement::from_reply(reply).unwrap();
    assert_eq!((m.green, m.red, m.blue), (0xFFFF, 0, 0x8001));
}

#[test]
fn failed_reads_hand_the_bus_error_on() {
    let reply: Result<[u8; 6], u8> = Err(9);
    assert!(matches!(
        Measurement::from_reply(reply),
        Err(Error::I2C(9))
    ));
    let reply: Result<[u8; 2], u8> = Err(8);
    assert!(matches!(color_from_reply(reply), Err(Error::I2C(8))));
    let reply: Result<[u8; 1], u8> = Err(7);
    assert!(matches!(register_from_reply(reply), Err(Error::I2C(7))));
    let reply: Result<[u8; 1], u8> = Err(6);
    assert!(matches!(Status::from_reply(reply), Err(Error::I2C(6))));
}

#[test]
fn color_is_low_byte_first() {
    assert_eq!(color_from_reply(Ok::<[u8; 2], ()>([0x34, 0x12])).unwrap(), 0x1234);
    assert_eq!(color_from_reply(Ok::<[u8; 2], ()>([0x00, 0x00])).unwrap(), 0);
    assert_eq!(color_from_reply(Ok::<[u8; 2], ()>([0xFF, 0xFF])).unwrap(), 0xFFFF);
    assert_eq!(color_from_reply(Ok::<[u8; 2], ()>([0xFF, 0x00])).unwrap(), 0x00FF);
    assert_eq!(color_from_reply(Ok::<[u8; 2], ()>([0x00, 0xFF])).unwrap(), 0xFF00);
}

#[test]
fn device_id_comes_back_unchecked() {
    assert_eq!(register_from_reply(Ok::<[u8; 1], ()>([0x7D])).unwrap(), 0x7D);
    assert_eq!(register_from_reply(Ok::<[u8; 1], ()>([0x00])).unwrap(), 0x00);
    assert_eq!(register_from_reply(Ok::<[u8; 1], ()>([0xAB])).unwrap(), 0xAB);
}

#[test]
fn status_with_all_flags_set() {
    let status = Status::from_reply(Ok::<[u8; 1], ()>([0b0011_0111])).unwrap();
    assert_eq!(
        status,
        Status {
            interrupt_triggered: true,
            conversion_completed: true,
            brownout: true,
            converting: ConversionStatus::Blue
        }
    );
    let status = Status::from_reply(Ok::<[u8; 1], ()>([0xFF])).unwrap();
    assert_eq!(
        status,
        Status {
            interrupt_triggered: true,
            conversion_completed: true,
            brownout: true,
            converting: ConversionStatus::Blue
        }
    );
}

#[test]
fn status_ignores_bits_of_no_field() {
    let status = Status::from_reply(Ok::<[u8; 1], ()>([0b1100_1000])).unwrap();
    assert_eq!(status, Status::default());
}

#[test]
fn status_fields_decode_independently() {
    for bits in 0u8..=255 {
        let status = Status::from_reply(Ok::<[u8; 1], ()>([bits])).unwrap();
        assert_eq!(status.interrupt_triggered, bits & 0b0000_0001 != 0);
        assert_eq!(status.conversion_completed, bits & 0b0000_0010 != 0);
        assert_eq!(status.brownout, bits & 0b0000_0100 != 0);
        let converting = match (bits >> 4) & 0b11 {
            0 => ConversionStatus::NoOperation,
            1 => ConversionStatus::Green,
            2 => ConversionStatus::Red,
            _ => ConversionStatus::Blue,
        };
        assert_eq!(status.converting, converting);
    }
}

#[test]
fn new_handle_starts_from_zero_shadows() {
    let sensor = detached();
    assert_eq!(
        sensor.set_resolution(Resolution::Bit16),
        register_write(0x01, 0)
    );
    assert_eq!(
        sensor.disable_interrupt_on_conversion_done(),
        register_write(0x03, 0)
    );
    assert_eq!(
        sensor.set_operating_mode(OperatingMode::default()),
        register_write(0x01, 0)
    );
}
