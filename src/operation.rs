use vstd::prelude::*;

use crate::frame::Frame;
use crate::measurement_mode::MeasurementMode;

verus! {

/// A register bank of the chip.
#[derive(Debug, Clone, Copy, PartialEq, Eq, Structural)]
pub enum Bank {
    /// Bank 0
    Zero,
    /// Bank 1
    One,
}

/// A readable register.
#[derive(Debug, Clone, Copy, PartialEq, Eq, Structural)]
pub enum Output {
    AccelerationX,
    AccelerationY,
    AccelerationZ,
    AngleX,
    AngleY,
    AngleZ,
    Temperature,
    SelfTest,
    Status,
    Error1,
    Error2,
    Command,
    WhoAmI,
    Serial1,
    Serial2,
    CurrentBank,
}

/// The bank that holds a register: the serial number halves live in bank 1,
/// everything else in bank 0.
pub open spec fn bank_of(o: Output) -> Bank {
    match o {
        Output::Serial1 | Output::Serial2 => Bank::One,
        _ => Bank::Zero,
    }
}

impl Output {
    /// The bank that must be selected to read this register.
    pub fn bank(self) -> (r: Bank)
        ensures
            r == bank_of(self),
    {
        match self {
            Output::Serial1 | Output::Serial2 => Bank::One,
            _ => Bank::Zero,
        }
    }
}

/// A request the chip understands.
#[derive(Debug, Clone, Copy, PartialEq, Eq, Structural)]
pub enum Operation {
    Read(Output),
    EnableAngleOutputs,
    ChangeMode(MeasurementMode),
    PowerDown,
    WakeUp,
    Reset,
    SwitchBank(Bank),
}

/// The 32-bit wire word of each operation: command, address, payload and
/// checksum as the chip defines them.
pub open spec fn frame_word(op: Operation) -> u32 {
    match op {
        Operation::Read(o) => match o {
            Output::AccelerationX => 0x040000F7u32,
            Output::AccelerationY => 0x080000FDu32,
            Output::AccelerationZ => 0x0C0000FBu32,
            Output::SelfTest => 0x100000E9u32,
            Output::AngleX => 0x240000C7u32,
            Output::AngleY => 0x280000CDu32,
            Output::AngleZ => 0x2C0000CBu32,
            Output::Temperature => 0x140000EFu32,
            Output::Status => 0x180000E5u32,
            Output::Error1 => 0x1C0000E3u32,
            Output::Error2 => 0x200000C1u32,
            Output::Command => 0x340000DFu32,
            Output::WhoAmI => 0x40000091u32,
            Output::Serial1 => 0x640000A7u32,
            Output::Serial2 => 0x680000ADu32,
            Output::CurrentBank => 0x7C0000B3u32,
        },
        Operation::EnableAngleOutputs => 0xB0001F6Fu32,
        Operation::ChangeMode(m) => match m {
            MeasurementMode::FullScale12 => 0xB400001Fu32,
            MeasurementMode::FullScale24 => 0xB4000102u32,
            MeasurementMode::Inclination => 0xB4000225u32,
            MeasurementMode::InclinationLowNoise => 0xB4000338u32,
        },
        Operation::PowerDown => 0xB400046Bu32,
        Operation::WakeUp => 0xB400001Fu32,
        Operation::Reset => 0xB4002098u32,
        Operation::SwitchBank(b) => match b {
            Bank::Zero => 0xFC000073u32,
            Bank::One => 0xFC00016Eu32,
        },
    }
}

/// The four bytes of a 32-bit word, most significant first.
pub open spec fn be_bytes(w: u32) -> Seq<u8> {
    seq![(w / 0x1000000) as u8, ((w / 0x10000) % 0x100) as u8, ((w / 0x100) % 0x100) as u8, (w % 0x100) as u8]
}

/// The frame that carries an operation.
pub open spec fn frame_of(op: Operation) -> Frame {
    Frame { bytes: [be_bytes(frame_word(op))[0], be_bytes(frame_word(op))[1], be_bytes(frame_word(op))[2], be_bytes(frame_word(op))[3]] }
}

impl Operation {
    /// The wire frame of this operation, looked up in the operation table.
    pub fn to_frame(self) -> (r: Frame)
        ensures
            r.bytes@ == be_bytes(frame_word(self)),
            r == frame_of(self),
    {
        let word: u32 = match self {
            Operation::Read(Output::AccelerationX) => 0x040000F7,
            Operation::Read(Output::AccelerationY) => 0x080000FD,
            Operation::Read(Output::AccelerationZ) => 0x0C0000FB,
            Operation::Read(Output::SelfTest) => 0x100000E9,
            Operation::EnableAngleOutputs => 0xB0001F6F,
            Operation::Read(Output::AngleX) => 0x240000C7,
            Operation::Read(Output::AngleY) => 0x280000CD,
            Operation::Read(Output::AngleZ) => 0x2C0000CB,
            Operation::Read(Output::Temperature) => 0x140000EF,
            Operation::Read(Output::Status) => 0x180000E5,
            Operation::Read(Output::Error1) => 0x1C0000E3,
            Operation::Read(Output::Error2) => 0x200000C1,
            Operation::Read(Output::Command) => 0x340000DF,
            Operation::ChangeMode(MeasurementMode::FullScale12) => 0xB400001F,
            Operation::ChangeMode(MeasurementMode::FullScale24) => 0xB4000102,
            Operation::ChangeMode(MeasurementMode::Inclination) => 0xB4000225,
            Operation::ChangeMode(MeasurementMode::InclinationLowNoise) => 0xB4000338,
            Operation::PowerDown => 0xB400046B,
            Operation::WakeUp => 0xB400001F,
            Operation::Reset => 0xB4002098,
            Operation::Read(Output::WhoAmI) => 0x40000091,
            Operation::Read(Output::Serial1) => 0x640000A7,
            Operation::Read(Output::Serial2) => 0x680000AD,
            Operation::Read(Output::CurrentBank) => 0x7C0000B3,
            Operation::SwitchBank(Bank::Zero) => 0xFC000073,
            Operation::SwitchBank(Bank::One) => 0xFC00016E,
        };
        let r = Frame {
            bytes: [(word / 0x1000000) as u8, ((word / 0x10000) % 0x100) as u8, ((word / 0x100) % 0x100) as u8, (word % 0x100) as u8],
        };
        assert(r.bytes@ =~= be_bytes(frame_word(self)));
        r
    }
}

} // verus!
