use scl3300::{crc8, Bank, Error, Frame, MeasurementMode, Operation, Output, ReturnStatus};

#[test]
fn test_crc8() {
    let examples = [
        [183, 0, 2, 169],
        [25, 0, 18, 157],
        [25, 0, 0, 106],
        [27, 0, 18, 158],
        [24, 0, 0, 229],
        [183, 0, 0, 147],
    ];

    for example in examples {
        let data = [example[0], example[1], example[2]];
        let crc = example[3];

        assert_eq!(crc8(data), crc, "CRC check failed for {:?}", example);
    }
}

#[test]
fn known_frames_pass_the_checksum_check() {
    let examples = [
        [183, 0, 2, 169],
        [25, 0, 18, 157],
        [25, 0, 0, 106],
        [27, 0, 18, 158],
        [24, 0, 0, 229],
        [183, 0, 0, 147],
    ];
    for example in examples {
        assert!(Frame::from_bytes(example).check_crc::<()>().is_ok());
    }
}

#[test]
fn appended_checksum_round_trips() {
    for data in [[0u8, 0, 0], [255, 255, 255], [0x18, 0x00, 0x00], [1, 2, 3], [0xB4, 0x00, 0x20]] {
        let frame = Frame::with_crc(data);
        assert_eq!(&frame.as_bytes()[..3], &data[..]);
        assert!(frame.check_crc::<()>().is_ok());
    }
    assert_eq!(Frame::with_crc([0x18, 0x00, 0x00]).as_bytes(), &[0x18, 0x00, 0x00, 0xE5]);
}

#[test]
fn every_single_bit_flip_is_detected() {
    let good = [25u8, 0, 18, 157];
    for i in 0..4 {
        for k in 0..8 {
            let mut bytes = good;
            bytes[i] ^= 1 << k;
            let r = Frame::from_bytes(bytes).check_crc::<()>();
            assert!(matches!(r, Err(Error::Crc)), "flip of bit {} in byte {} went unnoticed", k, i);
        }
    }
}

#[test]
fn return_status_and_payload_decode() {
    assert_eq!(Frame::from_bytes([24, 0, 0, 229]).return_status(), ReturnStatus::StartupInProgress);
    assert_eq!(Frame::from_bytes([25, 0, 18, 157]).return_status(), ReturnStatus::NormalOperation);
    assert_eq!(Frame::from_bytes([27, 0, 18, 158]).return_status(), ReturnStatus::Error);
    assert_eq!(Frame::from_bytes([45, 63, 129, 29]).data(), 0x3F81);
    assert_eq!(Frame::from_bytes([5, 255, 230, 197]).data(), 0xFFE6);
}

fn word(op: Operation) -> u32 {
    let b = op.to_frame().bytes;
    u32::from_be_bytes(b)
}

#[test]
fn operation_table_matches_the_wire_constants() {
    assert_eq!(word(Operation::Reset), 0xB4002098);
    assert_eq!(word(Operation::WakeUp), 0xB400001F);
    assert_eq!(word(Operation::PowerDown), 0xB400046B);
    assert_eq!(word(Operation::ChangeMode(MeasurementMode::FullScale12)), 0xB400001F);
    assert_eq!(word(Operation::ChangeMode(MeasurementMode::FullScale24)), 0xB4000102);
    assert_eq!(word(Operation::ChangeMode(MeasurementMode::Inclination)), 0xB4000225);
    assert_eq!(word(Operation::ChangeMode(MeasurementMode::InclinationLowNoise)), 0xB4000338);
    assert_eq!(word(Operation::EnableAngleOutputs), 0xB0001F6F);
    assert_eq!(word(Operation::Read(Output::WhoAmI)), 0x40000091);
    assert_eq!(word(Operation::Read(Output::Status)), 0x180000E5);
    assert_eq!(word(Operation::Read(Output::Error1)), 0x1C0000E3);
    assert_eq!(word(Operation::Read(Output::Error2)), 0x200000C1);
    assert_eq!(word(Operation::Read(Output::AccelerationX)), 0x040000F7);
    assert_eq!(word(Operation::Read(Output::AccelerationY)), 0x080000FD);
    assert_eq!(word(Operation::Read(Output::AccelerationZ)), 0x0C0000FB);
    assert_eq!(word(Operation::Read(Output::AngleX)), 0x240000C7);
    assert_eq!(word(Operation::Read(Output::AngleY)), 0x280000CD);
    assert_eq!(word(Operation::Read(Output::AngleZ)), 0x2C0000CB);
    assert_eq!(word(Operation::Read(Output::Temperature)), 0x140000EF);
    assert_eq!(word(Operation::Read(Output::SelfTest)), 0x100000E9);
    assert_eq!(word(Operation::Read(Output::Serial1)), 0x640000A7);
    assert_eq!(word(Operation::Read(Output::Serial2)), 0x680000AD);
    assert_eq!(word(Operation::SwitchBank(Bank::Zero)), 0xFC000073);
    assert_eq!(word(Operation::SwitchBank(Bank::One)), 0xFC00016E);
}

#[test]
fn every_operation_frame_carries_its_checksum() {
    let ops = [
        Operation::Reset,
        Operation::WakeUp,
        Operation::PowerDown,
        Operation::EnableAngleOutputs,
        Operation::ChangeMode(MeasurementMode::InclinationLowNoise),
        Operation::Read(Output::Command),
        Operation::Read(Output::CurrentBank),
        Operation::SwitchBank(Bank::One),
    ];
    for op in ops {
        assert!(op.to_frame().check_crc::<()>().is_ok());
    }
}

#[test]
fn register_banks() {
    assert_eq!(Output::Serial1.bank(), Bank::One);
    assert_eq!(Output::Serial2.bank(), Bank::One);
    assert_eq!(Output::AngleX.bank(), Bank::Zero);
    assert_eq!(Output::WhoAmI.bank(), Bank::Zero);
}
