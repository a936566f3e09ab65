//! The control table of the AX-12 actuator: which register lives at which
//! address, how wide it is and whether it can be written, and how a register
//! is asked for and its value read back.

use crate::packets::{Request, Status};
use byteorder::{ByteOrder, LittleEndian};
use vstd::prelude::*;

verus! {

/// Whether a register can be written.
#[derive(Debug, Clone, Copy, PartialEq, Eq, Structural)]
pub enum Access {
    /// Read-only.
    R,
    /// Readable and writable.
    RW,
}

/// Width of a register.
#[derive(Debug, Clone, Copy, PartialEq, Eq, Structural)]
pub enum Size {
    Byte,
    HalfWord,
}

impl Size {
    /// Number of bytes of a register of this width.
    pub open spec fn spec_len(&self) -> usize {
        match *self {
            Size::Byte => 1,
            Size::HalfWord => 2,
        }
    }

    /// Number of bytes of a register of this width: one or two.
    #[verifier::when_used_as_spec(spec_len)]
    pub fn len(&self) -> (n: usize)
        ensures
            n == self.spec_len(),
            n == 1 || n == 2,
    {
        match *self {
            Size::Byte => 1,
            Size::HalfWord => 2,
        }
    }
}

/// What the control table records of one register.
#[derive(Debug, Clone, Copy)]
pub struct RegisterInfo {
    pub description: &'static str,
    pub access: Access,
    pub address: u8,
    pub size: Size,
}

/// The registers of the actuator.
#[derive(Debug, Clone, Copy, PartialEq, Eq, Structural)]
pub enum Register {
    ModelNumber,
    FirmwareVersion,
    Id,
    BaudRate,
    ReturnDelayTime,
    CWAngleLimit,
    CCWAngleLimit,
    TemperatureLimit,
    VoltageLimitLow,
    VoltageLimitHigh,
    MaxLoad,
    StatusReturnLevel,
    AlarmLed,
    AlarmShutdown,
    TorqueEnable,
    LedEnable,
    CwComplianceMargin,
    CcwComplianceMargin,
    CwComplianceSlope,
    CcwComplianceSlope,
    GoalPosition,
    MovingSpeed,
    TorqueLimit,
    PresentPosition,
    PresentSpeed,
    PresentLoad,
    PresentVoltage,
    PresentTemperature,
    Registered,
    Moving,
    Lock,
    Punch,
}

/// The value that two bytes hold in little-endian order.
pub open spec fn le_u16(low: u8, high: u8) -> u16 {
    (low + 256 * high) as u16
}

/// The value that the payload of a read response holds: a single byte
/// stands for itself, two bytes are a little-endian half word.
pub open spec fn payload_value(data: Seq<u8>) -> u16
    recommends
        data.len() == 1 || data.len() == 2,
{
    if data.len() == 1 {
        data[0] as u16
    } else {
        le_u16(data[0], data[1])
    }
}

/// `ByteOrder::read_u16` of byteorder, for `LittleEndian`: the first two
/// bytes of `data` read as a little-endian half word. The call panics on
/// fewer than two bytes, which `requires` leaves out.
#[verifier::external_body]
fn read_u16_le(data: &[u8]) -> (value: u16)
    requires
        data@.len() >= 2,
    ensures
        value == le_u16(data@[0], data@[1]),
{
    LittleEndian::read_u16(data)
}

impl Register {
    /// What the register is, in words.
    pub open spec fn description(self) -> &'static str {
        match self {
            Register::ModelNumber => "Model number",
            Register::FirmwareVersion => "Firmware version",
            Register::Id => "Actuator identifier",
            Register::BaudRate => "Communication baud rate",
            Register::ReturnDelayTime => "Return delay time",
            Register::CWAngleLimit => "Clockwise angle limit",
            Register::CCWAngleLimit => "Counterclockwise angle limit",
            Register::TemperatureLimit => "Temperature alarm level",
            Register::VoltageLimitLow => "Low voltage alarm level",
            Register::VoltageLimitHigh => "High voltage alarm level",
            Register::MaxLoad => "Max load alarm level",
            Register::StatusReturnLevel => "Status return level",
            Register::AlarmLed => "LED indication on alarm",
            Register::AlarmShutdown => "Shutdown on alarm",
            Register::TorqueEnable => "Enable torque output",
            Register::LedEnable => "Enable Led",
            Register::CwComplianceMargin => "Clockwise compliance margin",
            Register::CcwComplianceMargin => "Counterclockwise compliance margin",
            Register::CwComplianceSlope => "Clockwise compliance slope",
            Register::CcwComplianceSlope => "Counterclockwise compliance slope",
            Register::GoalPosition => "Goal position",
            Register::MovingSpeed => "Moving speed",
            Register::TorqueLimit => "Torque limit",
            Register::PresentPosition => "Current position",
            Register::PresentSpeed => "Current speed",
            Register::PresentLoad => "Current load",
            Register::PresentVoltage => "Current voltage",
            Register::PresentTemperature => "Current temperature",
            Register::Registered => "Instruction registered",
            Register::Moving => "Is Moving",
            Register::Lock => "EEPROM Lock",
            Register::Punch => "Punch value",
        }
    }

    /// Whether the register can be written.
    pub open spec fn access(self) -> Access {
        match self {
            Register::ModelNumber => Access::R,
            Register::FirmwareVersion => Access::R,
            Register::Id => Access::RW,
            Register::BaudRate => Access::RW,
            Register::ReturnDelayTime => Access::RW,
            Register::CWAngleLimit => Access::RW,
            Register::CCWAngleLimit => Access::RW,
            Register::TemperatureLimit => Access::RW,
            Register::VoltageLimitLow => Access::RW,
            Register::VoltageLimitHigh => Access::RW,
            Register::MaxLoad => Access::RW,
            Register::StatusReturnLevel => Access::RW,
            Register::AlarmLed => Access::RW,
            Register::AlarmShutdown => Access::RW,
            Register::TorqueEnable => Access::RW,
            Register::LedEnable => Access::RW,
            Register::CwComplianceMargin => Access::RW,
            Register::CcwComplianceMargin => Access::RW,
            Register::CwComplianceSlope => Access::RW,
            Register::CcwComplianceSlope => Access::RW,
            Register::GoalPosition => Access::RW,
            Register::MovingSpeed => Access::RW,
            Register::TorqueLimit => Access::RW,
            Register::PresentPosition => Access::R,
            Register::PresentSpeed => Access::R,
            Register::PresentLoad => Access::R,
            Register::PresentVoltage => Access::R,
            Register::PresentTemperature => Access::R,
            Register::Registered => Access::R,
            Register::Moving => Access::R,
            Register::Lock => Access::RW,
            Register::Punch => Access::RW,
        }
    }

    /// Address of the first byte of the register.
    pub open spec fn address(self) -> u8 {
        match self {
            Register::ModelNumber => 0x00,
            Register::FirmwareVersion => 0x02,
            Register::Id => 0x03,
            Register::BaudRate => 0x04,
            Register::ReturnDelayTime => 0x05,
            Register::CWAngleLimit => 0x06,
            Register::CCWAngleLimit => 0x08,
            Register::TemperatureLimit => 0x0b,
            Register::VoltageLimitLow => 0x0c,
            Register::VoltageLimitHigh => 0x0d,
            Register::MaxLoad => 0x0e,
            Register::StatusReturnLevel => 0x10,
            Register::AlarmLed => 0x11,
            Register::AlarmShutdown => 0x12,
            Register::TorqueEnable => 0x18,
            Register::LedEnable => 0x19,
            Register::CwComplianceMargin => 0x1a,
            Register::CcwComplianceMargin => 0x1b,
            Register::CwComplianceSlope => 0x1c,
            Register::CcwComplianceSlope => 0x1d,
            Register::GoalPosition => 0x1e,
            Register::MovingSpeed => 0x20,
            Register::TorqueLimit => 0x22,
            Register::PresentPosition => 0x24,
            Register::PresentSpeed => 0x26,
            Register::PresentLoad => 0x28,
            Register::PresentVoltage => 0x2a,
            Register::PresentTemperature => 0x2b,
            Register::Registered => 0x2c,
            Register::Moving => 0x2e,
            Register::Lock => 0x2f,
            Register::Punch => 0x30,
        }
    }

    /// Width of the register.
    pub open spec fn size(self) -> Size {
        match self {
            Register::ModelNumber => Size::HalfWord,
            Register::FirmwareVersion => Size::Byte,
            Register::Id => Size::Byte,
            Register::BaudRate => Size::Byte,
            Register::ReturnDelayTime => Size::Byte,
            Register::CWAngleLimit => Size::HalfWord,
            Register::CCWAngleLimit => Size::HalfWord,
            Register::TemperatureLimit => Size::Byte,
            Register::VoltageLimitLow => Size::Byte,
            Register::VoltageLimitHigh => Size::Byte,
            Register::MaxLoad => Size::HalfWord,
            Register::StatusReturnLevel => Size::Byte,
            Register::AlarmLed => Size::Byte,
            Register::AlarmShutdown => Size::Byte,
            Register::TorqueEnable => Size::Byte,
            Register::LedEnable => Size::Byte,
            Register::CwComplianceMargin => Size::Byte,
            Register::CcwComplianceMargin => Size::Byte,
            Register::CwComplianceSlope => Size::Byte,
            Register::CcwComplianceSlope => Size::Byte,
            Register::GoalPosition => Size::HalfWord,
            Register::MovingSpeed => Size::HalfWord,
            Register::TorqueLimit => Size::HalfWord,
            Register::PresentPosition => Size::HalfWord,
            Register::PresentSpeed => Size::HalfWord,
            Register::PresentLoad => Size::HalfWord,
            Register::PresentVoltage => Size::Byte,
            Register::PresentTemperature => Size::Byte,
            Register::Registered => Size::Byte,
            Register::Moving => Size::Byte,
            Register::Lock => Size::Byte,
            Register::Punch => Size::HalfWord,
        }
    }

    /// The entry of the control table for this register.
    pub open spec fn descriptor(self) -> RegisterInfo {
        RegisterInfo {
            description: self.description(),
            access: self.access(),
            address: self.address(),
            size: self.size(),
        }
    }

    /// Looks the register up in the control table.
    pub fn info(&self) -> (info: &'static RegisterInfo)
        ensures
            *info == self.descriptor(),
    {
        match *self {
            Register::ModelNumber => &RegisterInfo {
                description: "Model number",
                access: Access::R,
                address: 0x00,
                size: Size::HalfWord,
            },
            Register::FirmwareVersion => &RegisterInfo {
                description: "Firmware version",
                access: Access::R,
                address: 0x02,
                size: Size::Byte,
            },
            Register::Id => &RegisterInfo {
                description: "Actuator identifier",
                access: Access::RW,
                address: 0x03,
                size: Size::Byte,
            },
            Register::BaudRate => &RegisterInfo {
                description: "Communication baud rate",
                access: Access::RW,
                address: 0x04,
                size: Size::Byte,
            },
            Register::ReturnDelayTime => &RegisterInfo {
                description: "Return delay time",
                access: Access::RW,
                address: 0x05,
                size: Size::Byte,
            },
            Register::CWAngleLimit => &RegisterInfo {
                description: "Clockwise angle limit",
                access: Access::RW,
                address: 0x06,
                size: Size::HalfWord,
            },
            Register::CCWAngleLimit => &RegisterInfo {
                description: "Counterclockwise angle limit",
                access: Access::RW,
                address: 0x08,
                size: Size::HalfWord,
            },
            Register::TemperatureLimit => &RegisterInfo {
                description: "Temperature alarm level",
                access: Access::RW,
                address: 0x0b,
                size: Size::Byte,
            },
            Register::VoltageLimitLow => &RegisterInfo {
                description: "Low voltage alarm level",
                access: Access::RW,
                address: 0x0c,
                size: Size::Byte,
            },
            Register::VoltageLimitHigh => &RegisterInfo {
                description: "High voltage alarm level",
                access: Access::RW,
                address: 0x0d,
                size: Size::Byte,
            },
            Register::MaxLoad => &RegisterInfo {
                description: "Max load alarm level",
                access: Access::RW,
                address: 0x0e,
                size: Size::HalfWord,
            },
            Register::StatusReturnLevel => &RegisterInfo {
                description: "Status return level",
                access: Access::RW,
                address: 0x10,
                size: Size::Byte,
            },
            Register::AlarmLed => &RegisterInfo {
                description: "LED indication on alarm",
                access: Access::RW,
                address: 0x11,
                size: Size::Byte,
            },
            Register::AlarmShutdown => &RegisterInfo {
                description: "Shutdown on alarm",
                access: Access::RW,
                address: 0x12,
                size: Size::Byte,
            },
            Register::TorqueEnable => &RegisterInfo {
                description: "Enable torque output",
                access: Access::RW,
                address: 0x18,
                size: Size::Byte,
            },
            Register::LedEnable => &RegisterInfo {
                description: "Enable Led",
                access: Access::RW,
                address: 0x19,
                size: Size::Byte,
            },
            Register::CwComplianceMargin => &RegisterInfo {
                description: "Clockwise compliance margin",
                access: Access::RW,
                address: 0x1a,
                size: Size::Byte,
            },
            Register::CcwComplianceMargin => &RegisterInfo {
                description: "Counterclockwise compliance margin",
                access: Access::RW,
                address: 0x1b,
                size: Size::Byte,
            },
            Register::CwComplianceSlope => &RegisterInfo {
                description: "Clockwise compliance slope",
                access: Access::RW,
                address: 0x1c,
                size: Size::Byte,
            },
            Register::CcwComplianceSlope => &RegisterInfo {
                description: "Counterclockwise compliance slope",
                access: Access::RW,
                address: 0x1d,
                size: Size::Byte,
            },
            Register::GoalPosition => &RegisterInfo {
                description: "Goal position",
                access: Access::RW,
                address: 0x1e,
                size: Size::HalfWord,
            },
            Register::MovingSpeed => &RegisterInfo {
                description: "Moving speed",
                access: Access::RW,
                address: 0x20,
                size: Size::HalfWord,
            },
            Register::TorqueLimit => &RegisterInfo {
                description: "Torque limit",
                access: Access::RW,
                address: 0x22,
                size: Size::HalfWord,
            },
            Register::PresentPosition => &RegisterInfo {
                description: "Current position",
                access: Access::R,
                address: 0x24,
                size: Size::HalfWord,
            },
            Register::PresentSpeed => &RegisterInfo {
                description: "Current speed",
                access: Access::R,
                address: 0x26,
                size: Size::HalfWord,
            },
            Register::PresentLoad => &RegisterInfo {
                description: "Current load",
                access: Access::R,
                address: 0x28,
                size: Size::HalfWord,
            },
            Register::PresentVoltage => &RegisterInfo {
                description: "Current voltage",
                access: Access::R,
                address: 0x2a,
                size: Size::Byte,
            },
            Register::PresentTemperature => &RegisterInfo {
                description: "Current temperature",
                access: Access::R,
                address: 0x2b,
                size: Size::Byte,
            },
            Register::Registered => &RegisterInfo {
                description: "Instruction registered",
                access: Access::R,
                address: 0x2c,
                size: Size::Byte,
            },
            Register::Moving => &RegisterInfo {
                description: "Is Moving",
                access: Access::R,
                address: 0x2e,
                size: Size::Byte,
            },
            Register::Lock => &RegisterInfo {
                description: "EEPROM Lock",
                access: Access::RW,
                address: 0x2f,
                size: Size::Byte,
            },
            Register::Punch => &RegisterInfo {
                description: "Punch value",
                access: Access::RW,
                address: 0x30,
                size: Size::HalfWord,
            },
        }
    }

    /// The request that reads this register from the device `id`.
    pub fn read_request(&self, id: u8) -> (request: Request)
        ensures
            request == (Request::Read { id, addr: self.address(), len: self.size().len() as u8 }),
    {
        let info = self.info();
        Request::Read { id, addr: info.address, len: info.size.len() as u8 }
    }

    /// Reads the value of a register out of the response to a read request.
    /// The payload is one byte or two; `try_parse_read_value` takes any.
    pub fn parse_read_value(&self, status: Status) -> (value: u16)
        requires
            status.data@.len() == 1 || status.data@.len() == 2,
        ensures
            value == payload_value(status.data@),
    {
        if status.data.len() == 1 {
            status.data[0] as u16
        } else {
            read_u16_le(status.data.as_slice())
        }
    }

    /// Reads the value of a register out of the response to a read request,
    /// or reports by `None` that the payload is neither one byte nor two.
    pub fn try_parse_read_value(&self, status: Status) -> (value: Option<u16>)
        ensures
            value == if status.data@.len() == 1 || status.data@.len() == 2 {
                Some(payload_value(status.data@))
            } else {
                None
            },
    {
        let n = status.data.len();
        if n == 1 || n == 2 {
            Some(self.parse_read_value(status))
        } else {
            None
        }
    }
}

/// No two registers share a byte of the control table, and the table ends
/// at address 0x32.
pub proof fn lemma_registers_do_not_overlap(a: Register, b: Register)
    requires
        a != b,
    ensures
        a.address() + a.size().len() <= b.address() || b.address() + b.size().len() <= a.address(),
        a.address() + a.size().len() <= 0x32,
{
}

} // verus!
