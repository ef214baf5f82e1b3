use vstd::prelude::*;

use crate::error::Error;
use crate::exchange::{Check, Exchange, ExchangeView, Transfer};
use crate::frame::Frame;
use crate::measurement_mode::{settle_time_ns, MeasurementMode};
use crate::operation::{frame_of, Bank, Operation, Output};
use crate::plan::{read_transfers, read_values, registers, Measurement, OffFrameRead, ReadPlan, Value, MIN_WAIT_TIME_NS};

verus! {

/// The wait after a wake-up, in nanoseconds.
pub const WAKE_UP_TIME_NS: u32 = 1_000_000;

/// The wait after a software reset, in nanoseconds.
pub const RESET_TIME_NS: u32 = 1_000_000;

/// State of an inclinometer that has not been started: mode and bank unknown.
#[derive(Debug)]
pub struct Uninitialized {}

/// State of an inclinometer in normal operation.
#[derive(Debug)]
pub struct Normal {
    /// The measurement mode it was started in.
    pub mode: MeasurementMode,
    /// The selected register bank, `None` where it is not known.
    pub bank: Option<Bank>,
}

/// State of an inclinometer in power-down mode.
#[derive(Debug)]
pub struct PowerDown {}

/// The transfers of the start-up sequence: software reset, mode change,
/// enabling the angle outputs, two status reads that flush the pipeline,
/// and a third whose response must report normal operation. Every
/// response's checksum is checked.
pub open spec fn start_up_transfers(mode: MeasurementMode) -> Seq<Transfer> {
    seq![
        Transfer { operation: Operation::Reset, wait_ns: RESET_TIME_NS, check: Check::Crc },
        Transfer { operation: Operation::ChangeMode(mode), wait_ns: MIN_WAIT_TIME_NS, check: Check::Crc },
        Transfer { operation: Operation::EnableAngleOutputs, wait_ns: settle_time_ns(mode), check: Check::Crc },
        Transfer { operation: Operation::Read(Output::Status), wait_ns: MIN_WAIT_TIME_NS, check: Check::Crc },
        Transfer { operation: Operation::Read(Output::Status), wait_ns: MIN_WAIT_TIME_NS, check: Check::Crc },
        Transfer { operation: Operation::Read(Output::Status), wait_ns: MIN_WAIT_TIME_NS, check: Check::CrcAndStatus },
    ]
}

/// The transfers of a wake-up: the wake-up command, then start-up.
pub open spec fn wake_up_transfers(mode: MeasurementMode) -> Seq<Transfer> {
    seq![Transfer { operation: Operation::WakeUp, wait_ns: WAKE_UP_TIME_NS, check: Check::Crc }] + start_up_transfers(
        mode,
    )
}

/// The single transfer of a power-down.
pub open spec fn power_down_transfers() -> Seq<Transfer> {
    seq![Transfer { operation: Operation::PowerDown, wait_ns: MIN_WAIT_TIME_NS, check: Check::CrcAndStatus }]
}

fn start_up_plan(mode: MeasurementMode, first: Option<Transfer>) -> (r: Vec<Transfer>)
    ensures
        first is None ==> r@ == start_up_transfers(mode),
        first is Some ==> r@ == seq![first->Some_0] + start_up_transfers(mode),
{
    let mut r: Vec<Transfer> = Vec::new();
    match first {
        Some(t) => r.push(t),
        None => {},
    }
    r.push(Transfer { operation: Operation::Reset, wait_ns: RESET_TIME_NS, check: Check::Crc });
    r.push(Transfer { operation: Operation::ChangeMode(mode), wait_ns: MIN_WAIT_TIME_NS, check: Check::Crc });
    r.push(
        Transfer {
            operation: Operation::EnableAngleOutputs,
            wait_ns: mode.start_up_wait_time_ns(),
            check: Check::Crc,
        },
    );
    r.push(Transfer { operation: Operation::Read(Output::Status), wait_ns: MIN_WAIT_TIME_NS, check: Check::Crc });
    r.push(Transfer { operation: Operation::Read(Output::Status), wait_ns: MIN_WAIT_TIME_NS, check: Check::Crc });
    r.push(
        Transfer {
            operation: Operation::Read(Output::Status),
            wait_ns: MIN_WAIT_TIME_NS,
            check: Check::CrcAndStatus,
        },
    );
    match first {
        Some(t) => assert(r@ =~= seq![t] + start_up_transfers(mode)),
        None => assert(r@ =~= start_up_transfers(mode)),
    }
    r
}

/// An SCL3300 inclinometer on an SPI transport, in state `MODE`.
#[derive(Debug)]
pub struct Scl3300<SPI, MODE = Uninitialized> {
    spi: SPI,
    mode: MODE,
}

impl<SPI, MODE> Scl3300<SPI, MODE> {
    /// The SPI transport.
    pub closed spec fn spi(&self) -> SPI {
        self.spi
    }

    /// The state the inclinometer is in.
    pub closed spec fn state(&self) -> MODE {
        self.mode
    }

    fn transport(&mut self) -> (r: &mut SPI)
        ensures
            *r == old(self).spi(),
            final(self).spi() == *final(r),
            final(self).state() == old(self).state(),
        no_unwind
    {
        &mut self.spi
    }

    /// Ends the session and hands back the SPI transport.
    pub fn release(self) -> (r: SPI)
        ensures
            r == self.spi(),
    {
        self.spi
    }
}

impl<SPI> Scl3300<SPI, Uninitialized> {
    /// An inclinometer on the given SPI transport, not yet started.
    pub fn new(spi: SPI) -> (r: Self)
        ensures
            r.spi() == spi,
    {
        Scl3300 { spi, mode: Uninitialized {  } }
    }

    /// Starts the inclinometer in `mode`: the start-up sequence, to be run
    /// on the bus by the caller.
    pub fn start_up<E>(self, mode: MeasurementMode) -> (r: Transition<SPI, E, Normal>)
        ensures
            r.spi() == self.spi(),
            r.target() == (Normal { mode, bank: Some(Bank::Zero) }),
            r.exchange().transfers == start_up_transfers(mode),
            r.exchange().responses.len() == 0,
    {
        let transfers = start_up_plan(mode, None);
        Transition { spi: self.spi, exchange: Exchange::new(transfers), target: Normal { mode, bank: Some(Bank::Zero) } }
    }
}

impl<SPI> Scl3300<SPI, PowerDown> {
    /// Wakes the inclinometer up and starts it in `mode`, which need not be
    /// the mode it had before power-down.
    pub fn wake_up<E>(self, mode: MeasurementMode) -> (r: Transition<SPI, E, Normal>)
        ensures
            r.spi() == self.spi(),
            r.target() == (Normal { mode, bank: Some(Bank::Zero) }),
            r.exchange().transfers == wake_up_transfers(mode),
            r.exchange().responses.len() == 0,
    {
        let first = Transfer { operation: Operation::WakeUp, wait_ns: WAKE_UP_TIME_NS, check: Check::Crc };
        let transfers = start_up_plan(mode, Some(first));
        Transition { spi: self.spi, exchange: Exchange::new(transfers), target: Normal { mode, bank: Some(Bank::Zero) } }
    }
}

impl<SPI> Scl3300<SPI, Normal> {
    /// The measurement mode the inclinometer was started in.
    pub fn measurement_mode(&self) -> (r: MeasurementMode)
        ensures
            r == self.state().mode,
    {
        self.mode.mode
    }

    /// The register bank the session knows to be selected, if it knows.
    pub fn bank(&self) -> (r: Option<Bank>)
        ensures
            r == self.state().bank,
    {
        self.mode.bank
    }

    /// Puts the inclinometer into power-down mode.
    pub fn power_down<E>(self) -> (r: Transition<SPI, E, PowerDown>)
        ensures
            r.spi() == self.spi(),
            r.exchange().transfers == power_down_transfers(),
            r.exchange().responses.len() == 0,
    {
        let mut transfers: Vec<Transfer> = Vec::new();
        transfers.push(Transfer { operation: Operation::PowerDown, wait_ns: MIN_WAIT_TIME_NS, check: Check::CrcAndStatus });
        assert(transfers@ =~= power_down_transfers());
        Transition { spi: self.spi, exchange: Exchange::new(transfers), target: PowerDown {  } }
    }

    /// Starts a chained read in the current mode, from the bank the session
    /// knows to be selected.
    pub fn read(self) -> (r: Reader<SPI>)
        ensures
            r.device() == self,
            r.requests().len() == 0,
    {
        let plan = ReadPlan::new(self.mode.mode, self.mode.bank);
        Reader { device: self, plan }
    }
}

/// A state change in progress: the planned transfers, run on the bus by the
/// caller one at a time, and the state the inclinometer reaches once all of
/// them have succeeded.
#[must_use]
pub struct Transition<SPI, E, TARGET> {
    spi: SPI,
    exchange: Exchange<E>,
    target: TARGET,
}

impl<SPI, E, TARGET> Transition<SPI, E, TARGET> {
    /// The SPI transport.
    pub closed spec fn spi(&self) -> SPI {
        self.spi
    }

    /// The transfers and the responses so far.
    pub closed spec fn exchange(&self) -> ExchangeView<E> {
        self.exchange@
    }

    /// The state reached on success.
    pub closed spec fn target(&self) -> TARGET {
        self.target
    }

    /// The frame to send next and the time to wait after it, if a transfer
    /// is still due.
    pub fn next_transfer(&self) -> (r: Option<(Frame, u32)>)
        ensures
            r is None <==> self.exchange().is_done(),
            r is Some ==> ({
                let t = self.exchange().transfers[self.exchange().responses.len() as int];
                r == Some((frame_of(t.operation), t.wait_ns))
            }),
    {
        self.exchange.next_transfer()
    }

    /// Records the response to the transfer that was due.
    pub fn complete(self, response: Result<Frame, E>) -> (r: Self)
        requires
            !self.exchange().is_done(),
        ensures
            r.spi() == self.spi(),
            r.target() == self.target(),
            r.exchange().transfers == self.exchange().transfers,
            r.exchange().responses == self.exchange().responses.push(response),
    {
        let Transition { spi, exchange, target } = self;
        Transition { spi, exchange: exchange.complete(response), target }
    }

    /// The SPI transport, to run the next transfer on.
    pub fn spi_mut(&mut self) -> (r: &mut SPI)
        ensures
            *r == old(self).spi(),
            final(self).spi() == *final(r),
            final(self).exchange() == old(self).exchange(),
            final(self).target() == old(self).target(),
    {
        &mut self.spi
    }

    /// Ends the state change. On success the inclinometer is in the target
    /// state; on failure its state is unknown and it must be started again.
    pub fn finish(self) -> (r: Result<Scl3300<SPI, TARGET>, (Error<E>, Scl3300<SPI, Uninitialized>)>)
        requires
            self.exchange().is_done(),
        ensures
            r is Ok <==> self.exchange().succeeded(),
            r is Ok ==> r->Ok_0.spi() == self.spi() && r->Ok_0.state() == self.target(),
            r is Err ==> self.exchange().failure() == Some(r->Err_0.0) && r->Err_0.1.spi() == self.spi(),
    {
        let Transition { spi, exchange, target } = self;
        match exchange.into_result() {
            Ok(_) => Ok(Scl3300 { spi, mode: target }),
            Err(e) => Err((e, Scl3300 { spi, mode: Uninitialized {  } })),
        }
    }
}

/// A chained read being planned: each call adds a measurement; `finish`
/// adds the transfer that collects the last value.
#[must_use]
pub struct Reader<SPI> {
    device: Scl3300<SPI, Normal>,
    plan: ReadPlan,
}

impl<SPI> Reader<SPI> {
    /// The inclinometer read from.
    pub closed spec fn device(&self) -> Scl3300<SPI, Normal> {
        self.device
    }

    /// The measurements asked for so far.
    pub closed spec fn requests(&self) -> Seq<Measurement> {
        self.plan.requests()
    }

    #[verifier::type_invariant]
    spec fn inv(self) -> bool {
        &&& self.plan.mode() == self.device.mode.mode
        &&& self.plan.start() == self.device.mode.bank
    }

    fn add(self, m: Measurement) -> (r: Self)
        ensures
            r.device() == self.device(),
            r.requests() == self.requests().push(m),
    {
        proof {
            use_type_invariant(&self);
        }
        let Reader { device, plan } = self;
        Reader { device, plan: plan.request(m) }
    }

    /// Reads a value of type `V`.
    pub fn request<V: OffFrameRead>(self) -> (r: Self)
        ensures
            r.device() == self.device(),
            r.requests() == self.requests().push(V::kind()),
    {
        self.add(V::measurement())
    }

    /// Reads the acceleration on all three axes.
    pub fn acceleration(self) -> (r: Self)
        ensures
            r.device() == self.device(),
            r.requests() == self.requests().push(Measurement::Acceleration),
    {
        self.add(Measurement::Acceleration)
    }

    /// Reads the inclination on all three axes.
    pub fn inclination(self) -> (r: Self)
        ensures
            r.device() == self.device(),
            r.requests() == self.requests().push(Measurement::Inclination),
    {
        self.add(Measurement::Inclination)
    }

    /// Reads the temperature.
    pub fn temperature(self) -> (r: Self)
        ensures
            r.device() == self.device(),
            r.requests() == self.requests().push(Measurement::Temperature),
    {
        self.add(Measurement::Temperature)
    }

    /// Reads the self-test output.
    pub fn self_test(self) -> (r: Self)
        ensures
            r.device() == self.device(),
            r.requests() == self.requests().push(Measurement::SelfTest),
    {
        self.add(Measurement::SelfTest)
    }

    /// Reads the component ID from the `WHOAMI` register.
    pub fn whoami(self) -> (r: Self)
        ensures
            r.device() == self.device(),
            r.requests() == self.requests().push(Measurement::ComponentId),
    {
        self.add(Measurement::ComponentId)
    }

    /// Reads the serial number from bank 1.
    pub fn serial(self) -> (r: Self)
        ensures
            r.device() == self.device(),
            r.requests() == self.requests().push(Measurement::Serial),
    {
        self.add(Measurement::Serial)
    }

    /// Reads the `STATUS` register.
    pub fn status(self) -> (r: Self)
        ensures
            r.device() == self.device(),
            r.requests() == self.requests().push(Measurement::Status),
    {
        self.add(Measurement::Status)
    }

    /// Reads the `ERR_FLAG1` register.
    pub fn error1(self) -> (r: Self)
        ensures
            r.device() == self.device(),
            r.requests() == self.requests().push(Measurement::Error1),
    {
        self.add(Measurement::Error1)
    }

    /// Reads the `ERR_FLAG2` register.
    pub fn error2(self) -> (r: Self)
        ensures
            r.device() == self.device(),
            r.requests() == self.requests().push(Measurement::Error2),
    {
        self.add(Measurement::Error2)
    }

    /// Ends the planning: the reads, and one more transfer, a switch to bank
    /// 0, that collects the last value and restores the bank. The transfers
    /// are then run on the bus by the caller.
    pub fn finish<E>(self) -> (r: Reading<SPI, E>)
        ensures
            r.device() == self.device(),
            r.requests() == self.requests(),
            r.exchange().transfers == read_transfers(self.device().state().bank, self.requests()),
            r.exchange().responses.len() == 0,
    {
        proof {
            use_type_invariant(&self);
        }
        let transfers = self.plan.transfers();
        Reading { device: self.device, plan: self.plan, exchange: Exchange::new(transfers) }
    }
}

/// A chained read on the bus: the planned transfers and the responses so far.
#[must_use]
pub struct Reading<SPI, E> {
    device: Scl3300<SPI, Normal>,
    plan: ReadPlan,
    exchange: Exchange<E>,
}

impl<SPI, E> Reading<SPI, E> {
    /// The inclinometer read from, as it was when the read began.
    pub closed spec fn device(&self) -> Scl3300<SPI, Normal> {
        self.device
    }

    /// The measurements asked for.
    pub closed spec fn requests(&self) -> Seq<Measurement> {
        self.plan.requests()
    }

    /// The transfers and the responses so far.
    pub closed spec fn exchange(&self) -> ExchangeView<E> {
        self.exchange@
    }

    #[verifier::type_invariant]
    spec fn inv(self) -> bool {
        &&& self.plan.mode() == self.device.mode.mode
        &&& self.plan.start() == self.device.mode.bank
        &&& self.exchange@.transfers == read_transfers(self.plan.start(), self.plan.requests())
    }

    /// The frame to send next and the time to wait after it, if a transfer
    /// is still due.
    pub fn next_transfer(&self) -> (r: Option<(Frame, u32)>)
        ensures
            r is None <==> self.exchange().is_done(),
            r is Some ==> ({
                let t = self.exchange().transfers[self.exchange().responses.len() as int];
                r == Some((frame_of(t.operation), t.wait_ns))
            }),
    {
        self.exchange.next_transfer()
    }

    /// Records the response to the transfer that was due.
    pub fn complete(self, response: Result<Frame, E>) -> (r: Self)
        requires
            !self.exchange().is_done(),
        ensures
            r.device() == self.device(),
            r.requests() == self.requests(),
            r.exchange().transfers == self.exchange().transfers,
            r.exchange().responses == self.exchange().responses.push(response),
    {
        proof {
            use_type_invariant(&self);
        }
        let Reading { device, plan, exchange } = self;
        Reading { device, plan, exchange: exchange.complete(response) }
    }

    /// The SPI transport, to run the next transfer on.
    pub fn spi_mut(&mut self) -> (r: &mut SPI)
        ensures
            *r == old(self).device().spi(),
            final(self).device().spi() == *final(r),
            final(self).device().state() == old(self).device().state(),
            final(self).requests() == old(self).requests(),
            final(self).exchange() == old(self).exchange(),
    {
        proof {
            use_type_invariant(&*self);
        }
        self.device.transport()
    }

    /// Ends the read: the inclinometer, and the measurements in the order
    /// they were asked for or the first error. After a successful read that
    /// read any register, bank 0 is selected; after a failed one the bank
    /// is not known.
    pub fn into_values(self) -> (r: (Scl3300<SPI, Normal>, Result<Vec<Value>, Error<E>>))
        requires
            self.exchange().is_done(),
        ensures
            r.0.spi() == self.device().spi(),
            r.0.state().mode == self.device().state().mode,
            r.1 is Ok <==> self.exchange().succeeded(),
            r.1 is Ok ==> read_values(
                self.device().state().mode,
                self.device().state().bank,
                self.requests(),
                self.exchange().words(),
                r.1->Ok_0@,
            ),
            r.1 is Ok ==> r.0.state().bank == if registers(self.requests()).len() > 0 {
                Some(Bank::Zero)
            } else {
                self.device().state().bank
            },
            r.1 is Err ==> self.exchange().failure() == Some(r.1->Err_0) && r.0.state().bank is None,
    {
        proof {
            use_type_invariant(&self);
        }
        let Reading { device, plan, exchange } = self;
        let Scl3300 { spi, mode } = device;
        match exchange.into_result() {
            Ok(words) => {
                let values = plan.values(&words);
                let bank = if plan.is_empty() {
                    mode.bank
                } else {
                    Some(Bank::Zero)
                };
                (Scl3300 { spi, mode: Normal { mode: mode.mode, bank } }, Ok(values))
            },
            Err(e) => (Scl3300 { spi, mode: Normal { mode: mode.mode, bank: None } }, Err(e)),
        }
    }
}

} // verus!
