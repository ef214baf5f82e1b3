use vstd::prelude::*;
use vstd::string::*;

use crate::measurement_mode::{self_test_limit, MeasurementMode};

verus! {

/// The value of a 16-bit register word read as a two's-complement number.
pub open spec fn signed(raw: u16) -> int {
    if raw < 0x8000 {
        raw as int
    } else {
        raw as int - 0x10000
    }
}

/// An acceleration measurement: raw register words and the measurement
/// mode in effect when they were read.
#[derive(Debug, Clone, Copy, PartialEq, Eq, Structural)]
pub struct Acceleration {
    pub x: u16,
    pub y: u16,
    pub z: u16,
    pub mode: MeasurementMode,
}

impl Acceleration {
    /// An empty measurement, all axes zero, in the default mode.
    pub fn new() -> (r: Self)
        ensures
            r == (Acceleration { x: 0, y: 0, z: 0, mode: MeasurementMode::FullScale12 }),
    {
        Acceleration { x: 0, y: 0, z: 0, mode: MeasurementMode::FullScale12 }
    }

    /// The raw acceleration value in the X direction.
    pub fn x_raw(&self) -> (r: u16)
        ensures
            r == self.x,
    {
        self.x
    }

    /// The raw acceleration value in the Y direction.
    pub fn y_raw(&self) -> (r: u16)
        ensures
            r == self.y,
    {
        self.y
    }

    /// The raw acceleration value in the Z direction.
    pub fn z_raw(&self) -> (r: u16)
        ensures
            r == self.z,
    {
        self.z
    }
}

/// An inclination measurement: raw angle words, 2^14 per 90 degrees.
#[derive(Debug, Clone, Copy, PartialEq, Eq, Structural)]
pub struct Inclination {
    pub x: u16,
    pub y: u16,
    pub z: u16,
}

impl Inclination {
    /// An empty measurement, all axes zero.
    pub fn new() -> (r: Self)
        ensures
            r == (Inclination { x: 0, y: 0, z: 0 }),
    {
        Inclination { x: 0, y: 0, z: 0 }
    }

    /// The raw inclination value on the X axis.
    pub fn x_raw(&self) -> (r: u16)
        ensures
            r == self.x,
    {
        self.x
    }

    /// The raw inclination value on the Y axis.
    pub fn y_raw(&self) -> (r: u16)
        ensures
            r == self.y,
    {
        self.y
    }

    /// The raw inclination value on the Z axis.
    pub fn z_raw(&self) -> (r: u16)
        ensures
            r == self.z,
    {
        self.z
    }
}

/// A temperature measurement: the raw register word.
#[derive(Debug, Clone, Copy, PartialEq, Eq, Structural)]
pub struct Temperature {
    pub temp: u16,
}

impl Temperature {
    /// An empty measurement.
    pub fn new() -> (r: Self)
        ensures
            r.temp == 0,
    {
        Temperature { temp: 0 }
    }

    /// The raw temperature value.
    pub fn raw(&self) -> (r: u16)
        ensures
            r == self.temp,
    {
        self.temp
    }
}

/// A self-test reading and the measurement mode it was read in.
#[derive(Debug, Clone, Copy, PartialEq, Eq, Structural)]
pub struct SelfTest {
    pub sto: u16,
    pub mode: MeasurementMode,
}

impl SelfTest {
    /// An empty reading in the default mode.
    pub fn new() -> (r: Self)
        ensures
            r == (SelfTest { sto: 0, mode: MeasurementMode::FullScale12 }),
    {
        SelfTest { sto: 0, mode: MeasurementMode::FullScale12 }
    }

    /// The raw self-test value.
    pub fn raw(&self) -> (r: u16)
        ensures
            r == self.sto,
    {
        self.sto
    }

    /// Whether the reading, as a signed number, lies within the mode's
    /// thresholds (inclusive).
    pub fn is_within_thresholds(&self) -> (r: bool)
        ensures
            r == (-self_test_limit(self.mode) <= signed(self.sto) <= self_test_limit(self.mode)),
    {
        let (low, high) = self.mode.self_test_thresholds();
        let v: i32 = if self.sto < 0x8000 {
            self.sto as i32
        } else {
            self.sto as i32 - 0x10000
        };
        low as i32 <= v && v <= high as i32
    }
}

/// A component ID reading: the low byte of the `WHOAMI` register.
#[derive(Debug, Clone, Copy, PartialEq, Eq, Structural)]
pub struct ComponentId {
    pub id: u8,
}

impl ComponentId {
    /// The component ID the chip is expected to report.
    pub const WHOAMI: u8 = 0xC1;

    /// The raw component ID.
    pub fn raw(&self) -> (r: u8)
        ensures
            r == self.id,
    {
        self.id
    }

    /// Whether the component ID is the expected `WHOAMI` value.
    pub fn is_correct(&self) -> (r: bool)
        ensures
            r == (self.id == 0xC1),
    {
        self.id == Self::WHOAMI
    }
}

/// A full `WHOAMI` register word.
#[derive(Debug, Clone, Copy, PartialEq, Eq, Structural)]
pub struct WhoAmI {
    pub whoami: u16,
}

impl WhoAmI {
    /// An empty reading.
    pub fn new() -> (r: Self)
        ensures
            r.whoami == 0,
    {
        WhoAmI { whoami: 0 }
    }

    /// The raw `WHOAMI` value.
    pub fn raw(&self) -> (r: u16)
        ensures
            r == self.whoami,
    {
        self.whoami
    }

    /// Whether the low byte of the value is the expected component ID.
    pub fn check(&self) -> (r: bool)
        ensures
            r == (self.whoami % 256 == 0xC1),
    {
        self.whoami % 256 == 0xC1
    }
}

/// A power of ten.
pub open spec fn pow10(k: nat) -> nat
    decreases k,
{
    if k == 0 {
        1
    } else {
        10 * pow10((k - 1) as nat)
    }
}

/// The ASCII digit for a value below ten.
pub open spec fn digit_char(d: nat) -> char {
    ((d + 48) as u32) as char
}

/// `n` written with exactly ten decimal digits, zero-padded.
pub open spec fn decimal10(n: u32) -> Seq<char> {
    Seq::new(10, |i: int| digit_char((n as nat / pow10((9 - i) as nat)) % 10))
}

/// The printed serial number: ten digits, then the suffix `B33`.
pub open spec fn serial_text(n: u32) -> Seq<char> {
    decimal10(n) + seq!['B', '3', '3']
}

/// The 32-bit serial number of two register halves, `part2` high.
pub open spec fn serial_number(part1: u16, part2: u16) -> u32 {
    (part2 as int * 0x10000 + part1 as int) as u32
}

proof fn lemma_pow10_step(k: nat)
    ensures
        pow10(k + 1) / 10 == pow10(k),
        pow10(k) > 0,
    decreases k,
{
    if k > 0 {
        lemma_pow10_step((k - 1) as nat);
    }
}

/// One decimal digit as a string.
fn digit_string(d: u32) -> (r: String)
    requires
        d < 10,
    ensures
        r@ == seq![digit_char(d as nat)],
{
    let mut s = String::new();
    proof {
        reveal_strlit("0123456789");
    }
    let piece = "0123456789".substring_char(d as usize, d as usize + 1);
    s.append(piece);
    assert(s@ =~= seq![digit_char(d as nat)]);
    s
}

/// A serial number reading: the two 16-bit halves.
#[derive(Debug, Clone, Copy, PartialEq, Eq, Structural)]
pub struct Serial {
    pub part1: u16,
    pub part2: u16,
}

impl Serial {
    /// An empty reading.
    pub fn new() -> (r: Self)
        ensures
            r == (Serial { part1: 0, part2: 0 }),
    {
        Serial { part1: 0, part2: 0 }
    }

    /// The serial number as an integer: `part2` in the high half, `part1`
    /// in the low half.
    pub fn to_u32(&self) -> (r: u32)
        ensures
            r == serial_number(self.part1, self.part2),
            r as int == self.part2 as int * 0x10000 + self.part1 as int,
    {
        (self.part2 as u32) * 0x10000 + (self.part1 as u32)
    }

    /// The serial number as printed on the part: ten zero-padded decimal
    /// digits followed by `B33`.
    pub fn to_string(&self) -> (r: String)
        ensures
            r@ == serial_text(serial_number(self.part1, self.part2)),
    {
        let n = self.to_u32();
        let mut s = String::new();
        let mut divisor: u32 = 1_000_000_000;
        let mut i: u32 = 0;
        proof {
            reveal_with_fuel(pow10, 10);
        }
        while i < 10
            invariant
                i <= 10,
                divisor as nat == pow10((9 - i) as nat) || (i == 10 && divisor == 0),
                s@ == decimal10(n).subrange(0, i as int),
            decreases 10 - i,
        {
            proof {
                lemma_pow10_step((9 - i) as nat);
            }
            let d = (n / divisor) % 10;
            let piece = digit_string(d);
            s.append(piece.as_str());
            proof {
                lemma_pow10_step((8 - i) as nat);
            }
            assert(s@ =~= decimal10(n).subrange(0, i + 1));
            divisor = divisor / 10;
            i = i + 1;
        }
        proof {
            reveal_strlit("B33");
        }
        s.append("B33");
        assert(s@ =~= serial_text(n));
        s
    }
}

/// The `STATUS` register: a set of flag bits.
#[derive(Debug, Clone, Copy, PartialEq, Eq, Structural)]
pub struct Status {
    bits: u16,
}

/// The `ERR_FLAG1` register: a set of flag bits.
#[derive(Debug, Clone, Copy, PartialEq, Eq, Structural)]
pub struct Error1 {
    bits: u16,
}

/// The `ERR_FLAG2` register: a set of flag bits.
#[derive(Debug, Clone, Copy, PartialEq, Eq, Structural)]
pub struct Error2 {
    bits: u16,
}

impl View for Status {
    type V = u16;

    closed spec fn view(&self) -> u16 {
        self.bits
    }
}

impl View for Error1 {
    type V = u16;

    closed spec fn view(&self) -> u16 {
        self.bits
    }
}

impl View for Error2 {
    type V = u16;

    closed spec fn view(&self) -> u16 {
        self.bits
    }
}

impl Status {
    /// Digital block error type 1
    pub const DIGI1: u16 = 0b1000000000;
    /// Digital block error type 2
    pub const DIGI2: u16 = 0b0100000000;
    /// Clock error
    pub const CLK: u16 = 0b0010000000;
    /// Signal saturated in signal path
    pub const SAT: u16 = 0b0001000000;
    /// Temperature signal path saturated
    pub const TEM_SAT: u16 = 0b0000100000;
    /// Start-up indication or voltage level failure
    pub const PWR: u16 = 0b0000010000;
    /// Error in non-volatile memory
    pub const MEM: u16 = 0b0000001000;
    /// Device in power down mode
    pub const PD: u16 = 0b0000000100;
    /// Operation mode changed
    pub const MODE_CHANGE: u16 = 0b0000000010;
    /// Component internal connection error
    pub const PIN_CONTINUITY: u16 = 0b0000000001;

    /// The flags of a register word, unknown bits kept.
    pub fn from_bits_retain(bits: u16) -> (r: Self)
        ensures
            r@ == bits,
    {
        Status { bits }
    }

    /// The raw register word.
    pub fn bits(&self) -> (r: u16)
        ensures
            r == self@,
    {
        self.bits
    }

    /// Whether every bit of `flags` is set.
    pub fn contains(&self, flags: u16) -> (r: bool)
        ensures
            r == (self@ & flags == flags),
    {
        self.bits & flags == flags
    }
}

impl Error1 {
    /// Signal saturated at A2D
    pub const ADC_SAT: u16 = 0b100000000000;
    /// Signal saturated at C2V
    pub const AFE_SAT: u16 = 0b011111111110;
    /// Error in non-volatile memory
    pub const MEM: u16 = 0b000000000001;

    /// The flags of a register word, unknown bits kept.
    pub fn from_bits_retain(bits: u16) -> (r: Self)
        ensures
            r@ == bits,
    {
        Error1 { bits }
    }

    /// The raw register word.
    pub fn bits(&self) -> (r: u16)
        ensures
            r == self@,
    {
        self.bits
    }

    /// Whether every bit of `flags` is set.
    pub fn contains(&self, flags: u16) -> (r: bool)
        ensures
            r == (self@ & flags == flags),
    {
        self.bits & flags == flags
    }
}

impl Error2 {
    /// External capacitor connection error
    pub const D_EXT_C: u16 = 0b10000000000000;
    /// External capacitor connection error
    pub const A_EXT_C: u16 = 0b01000000000000;
    /// Analog ground connection error
    pub const AGND: u16 = 0b00100000000000;
    /// Supply voltage error
    pub const VDD: u16 = 0b00010000000000;
    /// Operation mode changed by user
    pub const MODE_CHANGE: u16 = 0b00001000000000;
    /// Device in power down mode
    pub const PD: u16 = 0b00000100000000;
    /// Memory CRC check failed
    pub const MEMORY_CRC: u16 = 0b00000010000000;
    /// Analog power error
    pub const APWR: u16 = 0b00000000100000;
    /// Digital power error; set after start-up or reset
    pub const DPWR: u16 = 0b00000000010000;
    /// Reference voltage error
    pub const VREF: u16 = 0b00000000001000;
    /// Analog power error
    pub const APWR_2: u16 = 0b00000000000100;
    /// Temperature signal path saturated
    pub const TEMP_SAT: u16 = 0b00000000000010;
    /// Clock error
    pub const CLK: u16 = 0b00000000000001;

    /// The flags of a register word, unknown bits kept.
    pub fn from_bits_retain(bits: u16) -> (r: Self)
        ensures
            r@ == bits,
    {
        Error2 { bits }
    }

    /// The raw register word.
    pub fn bits(&self) -> (r: u16)
        ensures
            r == self@,
    {
        self.bits
    }

    /// Whether every bit of `flags` is set.
    pub fn contains(&self, flags: u16) -> (r: bool)
        ensures
            r == (self@ & flags == flags),
    {
        self.bits & flags == flags
    }
}

} // verus!
