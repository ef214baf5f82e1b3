use vstd::prelude::*;

use crate::error::Error;

verus! {

/// One step of the bitwise CRC-8 loop (polynomial 0x1D).
pub open spec fn crc_step(c: u8) -> u8 {
    if c & 0x80u8 != 0 {
        ((c << 1u8) ^ 0x1du8) as u8
    } else {
        (c << 1u8) as u8
    }
}

/// `n` steps of the CRC-8 loop.
pub open spec fn crc_steps(c: u8, n: nat) -> u8
    decreases n,
{
    if n == 0 {
        c
    } else {
        crc_steps(crc_step(c), (n - 1) as nat)
    }
}

/// Folds one byte into a running CRC-8 register.
pub open spec fn crc_byte(c: u8, b: u8) -> u8 {
    crc_steps(c ^ b, 8)
}

/// The CRC register after the bytes of `s`, starting from 0xFF.
pub open spec fn crc_register(s: Seq<u8>) -> u8
    decreases s.len(),
{
    if s.len() == 0 {
        0xffu8
    } else {
        crc_byte(crc_register(s.drop_last()), s.last())
    }
}

/// The checksum of a frame's first three bytes: the complemented register.
pub open spec fn crc8_spec(a: u8, b: u8, c: u8) -> u8 {
    !crc_register(seq![a, b, c])
}

/// The two status bits of a frame's first byte.
pub open spec fn status_bits(b: u8) -> u8 {
    b & 3u8
}

/// Computes the CRC-8 checksum (polynomial 0x1D, initial value 0xFF, output
/// complemented) of the three bytes of `data`.
pub fn crc8(data: [u8; 3]) -> (r: u8)
    ensures
        r == crc8_spec(data[0], data[1], data[2]),
{
    let mut crc: u8 = 0xff;
    let mut i: usize = 0;
    while i < 3
        invariant
            i <= 3,
            crc == crc_register(data@.subrange(0, i as int)),
        decreases 3 - i,
    {
        let byte = data[i];
        crc = crc ^ byte;
        let ghost start = crc;
        let mut k: u8 = 0;
        while k < 8
            invariant
                k <= 8,
                crc_steps(crc, (8 - k) as nat) == crc_steps(start, 8),
            decreases 8 - k,
        {
            if crc & 0x80 != 0 {
                crc = (crc << 1u8) ^ 0x1d;
            } else {
                crc = crc << 1u8;
            }
            k = k + 1;
        }
        assert(data@.subrange(0, i + 1).drop_last() =~= data@.subrange(0, i as int));
        i = i + 1;
    }
    assert(data@.subrange(0, 3) =~= seq![data[0], data[1], data[2]]);
    !crc
}

/// How the chip reports its own state in every response frame.
#[derive(Debug, Clone, Copy, PartialEq, Eq, Structural)]
pub enum ReturnStatus {
    /// Status bits `00`: start-up is still in progress.
    StartupInProgress,
    /// Status bits `01`: normal operation.
    NormalOperation,
    /// Status bits `11`: the chip signals an error.
    Error,
}

/// A four-byte SPI frame: status/address byte, big-endian 16-bit payload,
/// CRC-8 checksum.
#[derive(Debug, Clone, Copy, PartialEq, Eq)]
pub struct Frame {
    pub bytes: [u8; 4],
}

impl Frame {
    /// Whether the checksum byte matches the first three bytes.
    pub open spec fn crc_ok(self) -> bool {
        self.bytes[3] == crc8_spec(self.bytes[0], self.bytes[1], self.bytes[2])
    }

    /// The big-endian payload of bytes 1 and 2.
    pub open spec fn payload(self) -> u16 {
        (self.bytes[1] as int * 256 + self.bytes[2] as int) as u16
    }

    /// Wraps four bytes as they came off the wire.
    pub fn from_bytes(bytes: [u8; 4]) -> (r: Frame)
        ensures
            r.bytes == bytes,
    {
        Frame { bytes }
    }

    /// Builds a frame from three bytes and their checksum.
    pub fn with_crc(data: [u8; 3]) -> (r: Frame)
        ensures
            r.bytes@ == seq![data[0], data[1], data[2], crc8_spec(data[0], data[1], data[2])],
    {
        let c = crc8(data);
        let r = Frame { bytes: [data[0], data[1], data[2], c] };
        assert(r.bytes@ =~= seq![data[0], data[1], data[2], c]);
        r
    }

    /// Decodes the return status from the low two bits of the first byte.
    /// The encoding `10` is never sent by the chip.
    pub fn return_status(&self) -> (r: ReturnStatus)
        requires
            status_bits(self.bytes[0]) != 2,
        ensures
            status_bits(self.bytes[0]) == 0 <==> r == ReturnStatus::StartupInProgress,
            status_bits(self.bytes[0]) == 1 <==> r == ReturnStatus::NormalOperation,
            status_bits(self.bytes[0]) == 3 <==> r == ReturnStatus::Error,
    {
        let b0 = self.bytes[0];
        let bits = b0 & 3;
        assert(b0 & 3u8 <= 3u8) by (bit_vector);
        if bits == 0 {
            ReturnStatus::StartupInProgress
        } else if bits == 1 {
            ReturnStatus::NormalOperation
        } else {
            ReturnStatus::Error
        }
    }

    /// The 16-bit payload, big-endian from bytes 1 and 2.
    pub fn data(&self) -> (r: u16)
        ensures
            r == self.payload(),
            r as int == self.bytes[1] as int * 256 + self.bytes[2] as int,
    {
        let hi = self.bytes[1] as u16;
        let lo = self.bytes[2] as u16;
        hi * 256 + lo
    }

    /// Compares the checksum byte with the CRC-8 of the first three bytes.
    pub fn check_crc<E>(&self) -> (r: Result<(), Error<E>>)
        ensures
            r is Ok <==> self.crc_ok(),
            r is Err ==> r == Err::<(), Error<E>>(Error::Crc),
    {
        let calculated = crc8([self.bytes[0], self.bytes[1], self.bytes[2]]);
        if calculated == self.bytes[3] {
            Ok(())
        } else {
            Err(Error::Crc)
        }
    }

    /// The four bytes of the frame.
    pub fn as_bytes(&self) -> (r: &[u8])
        ensures
            r@ == self.bytes@,
    {
        self.bytes.as_slice()
    }

    /// The four bytes of the frame, to be overwritten in place by a
    /// full-duplex transfer.
    pub fn as_bytes_mut(&mut self) -> (r: &mut [u8])
        ensures
            r@ == old(self).bytes@,
            final(self).bytes@ == final(r)@,
    {
        &mut self.bytes
    }
}

proof fn lemma_crc8_unfold(a: u8, b: u8, c: u8)
    ensures
        crc8_spec(a, b, c) == !crc_byte(crc_byte(crc_byte(0xffu8, a), b), c),
{
    let s = seq![a, b, c];
    assert(s.drop_last() =~= seq![a, b]);
    assert(seq![a, b].drop_last() =~= seq![a]);
    assert(seq![a].drop_last() =~= Seq::<u8>::empty());
    reveal_with_fuel(crc_register, 4);
}

/// A frame made of any three bytes and their checksum passes the checksum
/// check.
pub proof fn lemma_crc_round_trip(data: [u8; 3])
    ensures
        (Frame { bytes: [data[0], data[1], data[2], crc8_spec(data[0], data[1], data[2])] }).crc_ok(),
{
}

proof fn lemma_step_linear(x: u8, e: u8)
    by (bit_vector)
    ensures
        crc_step(x ^ e) == crc_step(x) ^ crc_step(e),
        e != 0 ==> crc_step(e) != 0,
{
}

proof fn lemma_steps_linear(x: u8, e: u8, n: nat)
    ensures
        crc_steps(x ^ e, n) == crc_steps(x, n) ^ crc_steps(e, n),
        e != 0 ==> crc_steps(e, n) != 0,
    decreases n,
{
    if n > 0 {
        lemma_step_linear(x, e);
        lemma_steps_linear(crc_step(x), crc_step(e), (n - 1) as nat);
    }
}

/// Changing the register or the byte by `d` changes the next register by
/// the eight steps of `d`, which is not zero when `d` is not.
proof fn lemma_byte_difference(c: u8, b: u8, d: u8)
    ensures
        crc_byte(c ^ d, b) == crc_byte(c, b) ^ crc_steps(d, 8),
        crc_byte(c, b ^ d) == crc_byte(c, b) ^ crc_steps(d, 8),
        d != 0 ==> crc_steps(d, 8) != 0,
{
    assert((c ^ d) ^ b == (c ^ b) ^ d) by (bit_vector);
    assert(c ^ (b ^ d) == (c ^ b) ^ d) by (bit_vector);
    lemma_steps_linear(c ^ b, d, 8);
}

proof fn lemma_xor_nonzero(x: u8, d: u8)
    by (bit_vector)
    ensures
        d != 0 ==> x ^ d != x,
        d != 0 ==> !(x ^ d) != !x,
{
}

proof fn lemma_single_bit_nonzero(k: u8)
    by (bit_vector)
    requires
        k < 8,
    ensures
        1u8 << k != 0,
{
}

/// Whether `g` is `f` with bit `k` of byte `i` flipped.
pub open spec fn flipped(f: Frame, g: Frame, i: int, k: u8) -> bool {
    forall|j: int| 0 <= j < 4 ==> #[trigger] g.bytes[j] == if j == i {
        f.bytes[j] ^ (1u8 << k)
    } else {
        f.bytes[j]
    }
}

/// A single flipped bit anywhere in a frame that passes the checksum check
/// makes it fail the check.
pub proof fn lemma_single_bit_flip_detected(f: Frame, g: Frame, i: int, k: u8)
    requires
        f.crc_ok(),
        flipped(f, g, i, k),
        0 <= i < 4,
        k < 8,
    ensures
        !g.crc_ok(),
{
    let (a, b, c, d) = (f.bytes[0], f.bytes[1], f.bytes[2], f.bytes[3]);
    let (a2, b2, c2, d2) = (g.bytes[0], g.bytes[1], g.bytes[2], g.bytes[3]);
    let e = 1u8 << k;
    lemma_single_bit_nonzero(k);
    lemma_crc8_unfold(a, b, c);
    lemma_crc8_unfold(a2, b2, c2);
    let r1 = crc_byte(0xffu8, a);
    let r2 = crc_byte(r1, b);
    let r3 = crc_byte(r2, c);
    if i == 3 {
        lemma_xor_nonzero(d, e);
    } else {
        let e3 = if i == 0 {
            lemma_byte_difference(0xffu8, a, e);
            let e1 = crc_steps(e, 8);
            lemma_byte_difference(r1, b, e1);
            let e2 = crc_steps(e1, 8);
            lemma_byte_difference(r2, c, e2);
            crc_steps(e2, 8)
        } else if i == 1 {
            lemma_byte_difference(r1, b, e);
            let e2 = crc_steps(e, 8);
            lemma_byte_difference(r2, c, e2);
            crc_steps(e2, 8)
        } else {
            lemma_byte_difference(r2, c, e);
            crc_steps(e, 8)
        };
        assert(crc_byte(crc_byte(crc_byte(0xffu8, a2), b2), c2) == r3 ^ e3);
        assert(e3 != 0);
        lemma_xor_nonzero(r3, e3);
    }
}

} // verus!
