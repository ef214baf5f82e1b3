use vstd::prelude::*;

verus! {

/// What can go wrong while talking to the inclinometer.
#[derive(Debug, Clone, Copy, PartialEq, Eq)]
pub enum Error<E> {
    /// The chip was still starting up when start-up was confirmed.
    Startup,
    /// The chip reported an error in a frame's return status.
    ReturnStatus,
    /// A received frame's checksum did not match its contents.
    Crc,
    /// The SPI transport failed.
    Spi(E),
}

} // verus!
