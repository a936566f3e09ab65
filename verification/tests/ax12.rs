use dynamixel::ax12::{Access, Register, RegisterInfo, Size};
use dynamixel::packets::{Request, Status};

/// The control table as the data sheet gives it: register, address, width
/// in bytes, whether it can be written.
fn table() -> Vec<(Register, u8, u8, bool)> {
    vec![
        (Register::ModelNumber, 0x00, 2, false),
        (Register::FirmwareVersion, 0x02, 1, false),
        (Register::Id, 0x03, 1, true),
        (Register::BaudRate, 0x04, 1, true),
        (Register::ReturnDelayTime, 0x05, 1, true),
        (Register::CWAngleLimit, 0x06, 2, true),
        (Register::CCWAngleLimit, 0x08, 2, true),
        (Register::TemperatureLimit, 0x0b, 1, true),
        (Register::VoltageLimitLow, 0x0c, 1, true),
        (Register::VoltageLimitHigh, 0x0d, 1, true),
        (Register::MaxLoad, 0x0e, 2, true),
        (Register::StatusReturnLevel, 0x10, 1, true),
        (Register::AlarmLed, 0x11, 1, true),
        (Register::AlarmShutdown, 0x12, 1, true),
        (Register::TorqueEnable, 0x18, 1, true),
        (Register::LedEnable, 0x19, 1, true),
        (Register::CwComplianceMargin, 0x1a, 1, true),
        (Register::CcwComplianceMargin, 0x1b, 1, true),
        (Register::CwComplianceSlope, 0x1c, 1, true),
        (Register::CcwComplianceSlope, 0x1d, 1, true),
        (Register::GoalPosition, 0x1e, 2, true),
        (Register::MovingSpeed, 0x20, 2, true),
        (Register::TorqueLimit, 0x22, 2, true),
        (Register::PresentPosition, 0x24, 2, false),
        (Register::PresentSpeed, 0x26, 2, false),
        (Register::PresentLoad, 0x28, 2, false),
        (Register::PresentVoltage, 0x2a, 1, false),
        (Register::PresentTemperature, 0x2b, 1, false),
        (Register::Registered, 0x2c, 1, false),
        (Register::Moving, 0x2e, 1, false),
        (Register::Lock, 0x2f, 1, true),
        (Register::Punch, 0x30, 2, true),
    ]
}

fn status_with(data: Vec<u8>) -> Status {
    Status { id: 1, error: 0, data }
}

#[test]
fn size_len_is_one_or_two() {
    assert_eq!(Size::Byte.len(), 1);
    assert_eq!(Size::HalfWord.len(), 2);
}

#[test]
fn info_gives_the_entry_of_the_table() {
    for (register, address, width, writable) in table() {
        let info: &'static RegisterInfo = register.info();
        assert_eq!(info.address, address, "{:?}", register);
        assert_eq!(info.size.len(), width as usize, "{:?}", register);
        assert_eq!(info.access == Access::RW, writable, "{:?}", register);
        assert_eq!(info.access == Access::R, !writable, "{:?}", register);
        assert!(!info.description.is_empty());
    }
}

#[test]
fn info_describes_the_register() {
    assert_eq!(Register::ModelNumber.info().description, "Model number");
    assert_eq!(Register::Id.info().description, "Actuator identifier");
    assert_eq!(Register::LedEnable.info().description, "Enable Led");
    assert_eq!(Register::GoalPosition.info().description, "Goal position");
    assert_eq!(Register::PresentTemperature.info().description, "Current temperature");
    assert_eq!(Register::Lock.info().description, "EEPROM Lock");
    assert_eq!(Register::Punch.info().description, "Punch value");
}

#[test]
fn read_request_matches_the_descriptor_of_every_register() {
    for (register, address, width, _) in table() {
        for id in [0x00u8, 0x01, 0xfe, 0xff] {
            match register.read_request(id) {
                Request::Read { id: target, addr, len } => {
                    assert_eq!(target, id);
                    assert_eq!(addr, address, "{:?}", register);
                    assert_eq!(len, width, "{:?}", register);
                    assert_eq!(addr, register.info().address);
                    assert_eq!(len as usize, register.info().size.len());
                }
                other => panic!("{:?} is no read request", other),
            }
        }
    }
}

#[test]
fn read_request_of_the_temperature_goes_over_the_line() {
    let bytes = Register::PresentTemperature.read_request(0x01).serialized();
    assert_eq!(bytes, vec![0xff, 0xff, 0x01, 0x04, 0x02, 0x2b, 0x01, 0xcc]);
}

#[test]
fn registers_do_not_overlap() {
    let table = table();
    for (i, (_, a, wa, _)) in table.iter().enumerate() {
        assert!(*a as usize + *wa as usize <= 0x32);
        for (_, b, wb, _) in table.iter().skip(i + 1) {
            assert!(a + wa <= *b || b + wb <= *a);
        }
    }
}

#[test]
fn one_byte_is_zero_extended() {
    assert_eq!(Register::PresentTemperature.parse_read_value(status_with(vec![0x2a])), 42);
    assert_eq!(Register::PresentTemperature.parse_read_value(status_with(vec![0xff])), 255);
    assert_eq!(Register::PresentTemperature.parse_read_value(status_with(vec![0x00])), 0);
}

#[test]
fn two_bytes_are_a_little_endian_half_word() {
    assert_eq!(Register::GoalPosition.parse_read_value(status_with(vec![0x01, 0x02])), 0x0201);
    assert_eq!(Register::GoalPosition.parse_read_value(status_with(vec![0xff, 0x03])), 1023);
    assert_eq!(Register::GoalPosition.parse_read_value(status_with(vec![0x00, 0x01])), 256);
    assert_eq!(Register::GoalPosition.parse_read_value(status_with(vec![0xff, 0xff])), 0xffff);
    assert_eq!(Register::GoalPosition.parse_read_value(status_with(vec![0x00, 0x00])), 0);
}

#[test]
fn try_parse_read_value_takes_one_or_two_bytes() {
    let register = Register::GoalPosition;
    assert_eq!(register.try_parse_read_value(status_with(vec![0x2a])), Some(42));
    assert_eq!(register.try_parse_read_value(status_with(vec![0x01, 0x02])), Some(0x0201));
}

#[test]
fn try_parse_read_value_refuses_other_widths() {
    let register = Register::GoalPosition;
    assert_eq!(register.try_parse_read_value(status_with(vec![])), None);
    assert_eq!(register.try_parse_read_value(status_with(vec![1, 2, 3])), None);
    assert_eq!(register.try_parse_read_value(status_with(vec![0; 253])), None);
}

#[test]
fn a_read_response_gives_the_value_of_the_register() {
    // id 1, no error, payload 0x20 0x02: position 544
    let frame = vec![0xff, 0xff, 0x01, 0x04, 0x00, 0x20, 0x02, 0xd8];
    let status = Status::from_bytes(&frame).unwrap();
    assert_eq!(Register::PresentPosition.parse_read_value(status), 544);
}
