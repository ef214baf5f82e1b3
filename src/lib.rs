//! Driver logic for the SCL3300 three-axis inclinometer: the four-byte SPI
//! frame codec, the operation table, the off-frame read pipeline and the
//! device lifecycle, each with a contract that its code is proved to meet.
//!
//! The bus itself is driven by the caller: every pending exchange hands out
//! the next frame to send and takes back the frame that came in.

mod device;
mod error;
mod exchange;
mod frame;
mod measurement_mode;
mod operation;
pub mod output;
mod plan;

pub use device::{Normal, PowerDown, Reader, Reading, Scl3300, Transition, Uninitialized};
pub use error::Error;
pub use exchange::{Check, ExchangeView, Transfer};
pub use frame::{crc8, Frame, ReturnStatus};
pub use measurement_mode::MeasurementMode;
pub use operation::{Bank, Operation, Output};
pub use output::{Acceleration, ComponentId, Error1, Error2, Inclination, SelfTest, Serial, Status, Temperature, WhoAmI};
pub use plan::{Measurement, OffFrameRead, Value};
