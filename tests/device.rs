use scl3300::{Bank, ComponentId, Error, Frame, MeasurementMode, OffFrameRead, Temperature, Normal, Reading, Scl3300, Transition, Value};

/// A scripted SPI bus: each exchange must send the expected frame and wait,
/// and gets the scripted reply.
#[derive(Debug)]
struct Bus {
    script: Vec<([u8; 4], u32, Result<[u8; 4], u8>)>,
    pos: usize,
}

impl Bus {
    fn new(script: Vec<([u8; 4], u32, Result<[u8; 4], u8>)>) -> Self {
        Bus { script, pos: 0 }
    }

    fn exchange(&mut self, sent: [u8; 4], wait: u32) -> Result<[u8; 4], u8> {
        let (expected, expected_wait, reply) = self.script[self.pos];
        assert_eq!(sent, expected, "frame {} differs", self.pos);
        assert_eq!(wait, expected_wait, "wait after frame {} differs", self.pos);
        self.pos += 1;
        reply
    }

    fn done(&self) -> bool {
        self.pos == self.script.len()
    }
}

fn drive<T>(mut t: Transition<Bus, u8, T>) -> Transition<Bus, u8, T> {
    while let Some((frame, wait)) = t.next_transfer() {
        let reply = t.spi_mut().exchange(frame.bytes, wait);
        t = t.complete(reply.map(Frame::from_bytes));
    }
    t
}

fn drive_read(mut r: Reading<Bus, u8>) -> Reading<Bus, u8> {
    while let Some((frame, wait)) = r.next_transfer() {
        let reply = r.spi_mut().exchange(frame.bytes, wait);
        r = r.complete(reply.map(Frame::from_bytes));
    }
    r
}

const NS_10US: u32 = 10_000;
const NS_1MS: u32 = 1_000_000;

fn start_up_script(mode_frame: [u8; 4], settle: u32, last: [u8; 4]) -> Vec<([u8; 4], u32, Result<[u8; 4], u8>)> {
    vec![
        ([0xB4, 0x00, 0x20, 0x98], NS_1MS, Ok([3, 0, 0, 125])),
        (mode_frame, NS_10US, Ok([3, 0, 0, 125])),
        ([0xB0, 0x00, 0x1F, 0x6F], settle, Ok([183, 0, 2, 169])),
        ([0x18, 0x00, 0x00, 0xE5], NS_10US, Ok([179, 0, 31, 227])),
        ([0x18, 0x00, 0x00, 0xE5], NS_10US, Ok([27, 0, 18, 158])),
        ([0x18, 0x00, 0x00, 0xE5], NS_10US, Ok(last)),
    ]
}

fn started(mut script: Vec<([u8; 4], u32, Result<[u8; 4], u8>)>) -> Scl3300<Bus, Normal> {
    let mut full = start_up_script([0xB4, 0x00, 0x02, 0x25], 100_000_000, [25, 0, 18, 157]);
    full.append(&mut script);
    let t = drive(Scl3300::new(Bus::new(full)).start_up::<u8>(MeasurementMode::Inclination));
    t.finish().expect("start-up succeeds")
}

#[test]
fn start_up_in_inclination_mode_sends_the_literal_frames() {
    let bus = Bus::new(start_up_script([0xB4, 0x00, 0x02, 0x25], 100_000_000, [25, 0, 18, 157]));
    let t = drive(Scl3300::new(bus).start_up::<u8>(MeasurementMode::Inclination));
    let dev = t.finish().expect("start-up succeeds");
    assert_eq!(dev.measurement_mode(), MeasurementMode::Inclination);
    assert_eq!(dev.bank(), Some(Bank::Zero));
    assert!(dev.release().done());
}

#[test]
fn start_up_fails_while_the_chip_is_still_starting() {
    let bus = Bus::new(start_up_script([0xB4, 0x00, 0x00, 0x1F], 25_000_000, [24, 0, 0, 229]));
    let t = drive(Scl3300::new(bus).start_up::<u8>(MeasurementMode::FullScale12));
    match t.finish() {
        Err((Error::Startup, dev)) => {
            let bus = dev.release();
            assert!(bus.done());
        },
        other => panic!("unexpected outcome {:?}", other.map(|_| ())),
    }
}

#[test]
fn start_up_fails_on_an_error_status() {
    let bus = Bus::new(start_up_script([0xB4, 0x00, 0x01, 0x02], 15_000_000, [27, 0, 18, 158]));
    let t = drive(Scl3300::new(bus).start_up::<u8>(MeasurementMode::FullScale24));
    assert!(matches!(t.finish(), Err((Error::ReturnStatus, _))));
}

#[test]
fn start_up_stops_at_the_first_bad_checksum() {
    let bus = Bus::new(vec![
        ([0xB4, 0x00, 0x20, 0x98], NS_1MS, Ok([3, 0, 0, 125])),
        ([0xB4, 0x00, 0x03, 0x38], NS_10US, Ok([3, 0, 0, 124])),
    ]);
    let t = drive(Scl3300::new(bus).start_up::<u8>(MeasurementMode::InclinationLowNoise));
    match t.finish() {
        Err((Error::Crc, dev)) => assert!(dev.release().done()),
        other => panic!("unexpected outcome {:?}", other.map(|_| ())),
    }
}

#[test]
fn transport_errors_are_passed_on() {
    let bus = Bus::new(vec![([0xB4, 0x00, 0x20, 0x98], NS_1MS, Err(7))]);
    let t = drive(Scl3300::new(bus).start_up::<u8>(MeasurementMode::Inclination));
    assert!(matches!(t.finish(), Err((Error::Spi(7), _))));
}

#[test]
fn a_failed_start_up_can_be_retried() {
    let mut script = start_up_script([0xB4, 0x00, 0x02, 0x25], 100_000_000, [24, 0, 0, 229]);
    script.append(&mut start_up_script([0xB4, 0x00, 0x02, 0x25], 100_000_000, [25, 0, 18, 157]));
    let t = drive(Scl3300::new(Bus::new(script)).start_up::<u8>(MeasurementMode::Inclination));
    let dev = match t.finish() {
        Err((Error::Startup, dev)) => dev,
        other => panic!("unexpected outcome {:?}", other.map(|_| ())),
    };
    let t = drive(dev.start_up::<u8>(MeasurementMode::Inclination));
    assert!(t.finish().is_ok());
}

#[test]
fn full_session_reads_id_measurements_then_powers_down() {
    let dev = started(vec![
        ([0x40, 0x00, 0x00, 0x91], NS_10US, Ok([25, 0, 0, 106])),
        ([0xFC, 0x00, 0x00, 0x73], NS_10US, Ok([65, 0, 193, 54])),
        ([0x04, 0x00, 0x00, 0xF7], NS_10US, Ok([25, 0, 0, 106])),
        ([0x08, 0x00, 0x00, 0xFD], NS_10US, Ok([5, 255, 230, 197])),
        ([0x0C, 0x00, 0x00, 0xFB], NS_10US, Ok([9, 0, 141, 213])),
        ([0x24, 0x00, 0x00, 0xC7], NS_10US, Ok([13, 46, 112, 183])),
        ([0x28, 0x00, 0x00, 0xCD], NS_10US, Ok([37, 255, 233, 78])),
        ([0x2C, 0x00, 0x00, 0xCB], NS_10US, Ok([41, 0, 123, 212])),
        ([0x14, 0x00, 0x00, 0xEF], NS_10US, Ok([45, 63, 129, 29])),
        ([0xFC, 0x00, 0x00, 0x73], NS_10US, Ok([21, 22, 20, 216])),
        ([0xB4, 0x00, 0x04, 0x6B], NS_10US, Ok([253, 0, 0, 252])),
    ]);

    let reader = dev.read().whoami();
    let reading = drive_read(reader.finish::<u8>());
    let (dev, values) = reading.into_values();
    let values = values.expect("read succeeds");
    match values[0] {
        Value::ComponentId(id) => assert!(id.is_correct()),
        other => panic!("unexpected value {:?}", other),
    }

    let reader = dev.read().acceleration().inclination().temperature();
    let reading = drive_read(reader.finish::<u8>());
    let (dev, values) = reading.into_values();
    let values = values.expect("read succeeds");
    assert_eq!(values.len(), 3);
    match values[0] {
        Value::Acceleration(acc) => {
            assert_eq!((acc.x_raw(), acc.y_raw(), acc.z_raw()), (0xFFE6, 0x008D, 0x2E70));
            assert_eq!(acc.mode, MeasurementMode::Inclination);
        },
        other => panic!("unexpected value {:?}", other),
    }
    match values[1] {
        Value::Inclination(inc) => assert_eq!((inc.x_raw(), inc.y_raw(), inc.z_raw()), (0xFFE9, 0x007B, 0x3F81)),
        other => panic!("unexpected value {:?}", other),
    }
    match values[2] {
        Value::Temperature(t) => assert_eq!(t.raw(), 0x1614),
        other => panic!("unexpected value {:?}", other),
    }

    let t = drive(dev.power_down::<u8>());
    let dev = t.finish().expect("power-down succeeds");
    assert!(dev.release().done());
}

#[test]
fn chained_read_fills_each_value_from_the_next_response() {
    let dev = started(vec![
        ([0x14, 0x00, 0x00, 0xEF], NS_10US, Ok([25, 0x11, 0x11, 0])),
        ([0x10, 0x00, 0x00, 0xE9], NS_10US, Ok([25, 0x00, 0x05, 0])),
        ([0x18, 0x00, 0x00, 0xE5], NS_10US, Ok([25, 0x00, 0x06, 0])),
        ([0xFC, 0x00, 0x00, 0x73], NS_10US, Ok([25, 0x00, 0x14, 0])),
    ]
    .into_iter()
    .map(|(req, wait, reply)| (req, wait, reply.map(|b: [u8; 4]| Frame::with_crc([b[0], b[1], b[2]]).bytes)))
    .collect());
    let reader = dev.read().temperature().self_test().status();
    let reading = drive_read(reader.finish::<u8>());
    let (dev, values) = reading.into_values();
    let values = values.expect("read succeeds");
    assert!(matches!(values[0], Value::Temperature(t) if t.raw() == 0x0005));
    assert!(matches!(values[1], Value::SelfTest(s) if s.raw() == 0x0006 && s.mode == MeasurementMode::Inclination));
    assert!(matches!(values[2], Value::Status(s) if s.bits() == 0x0014));
    assert!(dev.release().done());
}

#[test]
fn serial_read_switches_to_bank_one_and_back() {
    let dev = started(vec![
        ([0xFC, 0x00, 0x01, 0x6E], NS_10US, Ok([25, 0, 0, 106])),
        ([0x64, 0x00, 0x00, 0xA7], NS_10US, Ok([25, 0, 0, 106])),
        ([0x68, 0x00, 0x00, 0xAD], NS_10US, Ok(Frame::with_crc([25, 0xF7, 0xDA]).bytes)),
        ([0xFC, 0x00, 0x00, 0x73], NS_10US, Ok(Frame::with_crc([25, 0x3C, 0xE5]).bytes)),
    ]);
    let reader = dev.read().serial();
    let reading = drive_read(reader.finish::<u8>());
    let (dev, values) = reading.into_values();
    let values = values.expect("read succeeds");
    match values[0] {
        Value::Serial(s) => assert_eq!(s.to_string(), "1021704154B33"),
        other => panic!("unexpected value {:?}", other),
    }
    assert_eq!(dev.bank(), Some(Bank::Zero));
    assert!(dev.release().done());
}

#[test]
fn reads_after_the_serial_switch_back_to_bank_zero_first() {
    let ok = |hi: u8, lo: u8| Ok(Frame::with_crc([25, hi, lo]).bytes);
    let dev = started(vec![
        ([0xFC, 0x00, 0x01, 0x6E], NS_10US, ok(0, 0)),
        ([0x64, 0x00, 0x00, 0xA7], NS_10US, ok(0, 0)),
        ([0x68, 0x00, 0x00, 0xAD], NS_10US, ok(0, 1)),
        ([0xFC, 0x00, 0x00, 0x73], NS_10US, ok(0, 2)),
        ([0x1C, 0x00, 0x00, 0xE3], NS_10US, ok(0, 3)),
        ([0x20, 0x00, 0x00, 0xC1], NS_10US, ok(0, 4)),
        ([0xFC, 0x00, 0x00, 0x73], NS_10US, ok(0, 5)),
    ]);
    let reader = dev.read().serial().error1().error2();
    let reading = drive_read(reader.finish::<u8>());
    let (dev, values) = reading.into_values();
    let values = values.expect("read succeeds");
    assert!(matches!(values[0], Value::Serial(s) if s.part1 == 1 && s.part2 == 2));
    assert!(matches!(values[1], Value::Error1(e) if e.bits() == 4));
    assert!(matches!(values[2], Value::Error2(e) if e.bits() == 5));
    assert_eq!(dev.bank(), Some(Bank::Zero));
    assert!(dev.release().done());
}

#[test]
fn a_failed_read_stops_and_forgets_the_bank() {
    let dev = started(vec![
        ([0xFC, 0x00, 0x01, 0x6E], NS_10US, Ok([25, 0, 0, 106])),
        ([0x64, 0x00, 0x00, 0xA7], NS_10US, Ok([27, 0, 18, 158])),
        // The next read must first select bank 0 again.
        ([0xFC, 0x00, 0x00, 0x73], NS_10US, Ok([25, 0, 0, 106])),
        ([0x14, 0x00, 0x00, 0xEF], NS_10US, Ok([25, 0, 0, 106])),
        ([0xFC, 0x00, 0x00, 0x73], NS_10US, Ok(Frame::with_crc([25, 0x16, 0x1E]).bytes)),
    ]);
    let reader = dev.read().serial();
    let reading = drive_read(reader.finish::<u8>());
    let (dev, values) = reading.into_values();
    assert!(matches!(values, Err(Error::ReturnStatus)));
    assert_eq!(dev.bank(), None);

    let reader = dev.read().temperature();
    let reading = drive_read(reader.finish::<u8>());
    let (dev, values) = reading.into_values();
    assert!(matches!(values.expect("read succeeds")[0], Value::Temperature(t) if t.raw() == 0x161E));
    assert_eq!(dev.bank(), Some(Bank::Zero));
    assert!(dev.release().done());
}

#[test]
fn an_empty_read_sends_nothing() {
    let dev = started(vec![]);
    let reading = dev.read().finish::<u8>();
    assert!(reading.next_transfer().is_none());
    let (dev, values) = reading.into_values();
    assert!(values.expect("nothing to fail").is_empty());
    assert!(dev.release().done());
}

#[test]
fn wake_up_restarts_in_a_new_mode() {
    let mut script = vec![([0xB4, 0x00, 0x04, 0x6B], NS_10US, Ok([253, 0, 0, 252]))];
    script.push(([0xB4, 0x00, 0x00, 0x1F], NS_1MS, Ok([3, 0, 0, 125])));
    script.append(&mut start_up_script([0xB4, 0x00, 0x01, 0x02], 15_000_000, [25, 0, 18, 157]));
    let dev = started(script);
    let t = drive(dev.power_down::<u8>());
    let dev = t.finish().expect("power-down succeeds");
    let t = drive(dev.wake_up::<u8>(MeasurementMode::FullScale24));
    let dev = t.finish().expect("wake-up succeeds");
    assert_eq!(dev.measurement_mode(), MeasurementMode::FullScale24);
    assert!(dev.release().done());
}


#[test]
fn typed_reads_go_through_off_frame_read() {
    let ok = |hi: u8, lo: u8| Ok(Frame::with_crc([25, hi, lo]).bytes);
    let dev = started(vec![
        ([0x40, 0x00, 0x00, 0x91], NS_10US, ok(0, 0)),
        ([0x14, 0x00, 0x00, 0xEF], NS_10US, ok(0x01, 0xC1)),
        ([0xFC, 0x00, 0x00, 0x73], NS_10US, ok(0x16, 0x1E)),
    ]);
    let reader = dev.read().request::<ComponentId>().request::<Temperature>();
    let (dev, values) = drive_read(reader.finish::<u8>()).into_values();
    let values = values.expect("read succeeds");
    let id = ComponentId::from_value(values[0]).expect("a component ID");
    assert!(id.is_correct());
    assert_eq!(Temperature::from_value(values[1]).expect("a temperature").raw(), 0x161E);
    assert!(Temperature::from_value(values[0]).is_none());
    assert!(dev.release().done());
}
