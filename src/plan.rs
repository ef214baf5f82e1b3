use vstd::prelude::*;

use crate::exchange::{Check, Transfer};
use crate::measurement_mode::MeasurementMode;
use crate::operation::{bank_of, Bank, Operation, Output};
use crate::output::{Acceleration, ComponentId, Error1, Error2, Inclination, SelfTest, Serial, Status, Temperature};

verus! {

/// The wait after a transfer that asks for no longer settle time, in
/// nanoseconds.
pub const MIN_WAIT_TIME_NS: u32 = 10_000;

/// A value that a reader can be asked for.
#[derive(Debug, Clone, Copy, PartialEq, Eq, Structural)]
pub enum Measurement {
    Acceleration,
    Inclination,
    Temperature,
    SelfTest,
    ComponentId,
    Serial,
    Status,
    Error1,
    Error2,
}

/// A value read from the chip.
#[derive(Debug, Clone, Copy, PartialEq, Eq)]
pub enum Value {
    Acceleration(Acceleration),
    Inclination(Inclination),
    Temperature(Temperature),
    SelfTest(SelfTest),
    ComponentId(ComponentId),
    Serial(Serial),
    Status(Status),
    Error1(Error1),
    Error2(Error2),
}

/// A type that a chained read can produce.
pub trait OffFrameRead: Sized {
    /// The measurement this type is read as.
    spec fn kind() -> Measurement;

    /// This type's value, where `v` holds one.
    spec fn of_value(v: Value) -> Option<Self>;

    /// The measurement this type is read as.
    fn measurement() -> (r: Measurement)
        ensures
            r == Self::kind(),
    ;

    /// This type's value, where `v` holds one.
    fn from_value(v: Value) -> (r: Option<Self>)
        ensures
            r == Self::of_value(v),
    ;
}

impl OffFrameRead for Acceleration {
    open spec fn kind() -> Measurement {
        Measurement::Acceleration
    }

    open spec fn of_value(v: Value) -> Option<Self> {
        match v {
            Value::Acceleration(x) => Some(x),
            _ => None,
        }
    }

    fn measurement() -> (r: Measurement) {
        Measurement::Acceleration
    }

    fn from_value(v: Value) -> (r: Option<Self>) {
        match v {
            Value::Acceleration(x) => Some(x),
            _ => None,
        }
    }
}

impl OffFrameRead for Inclination {
    open spec fn kind() -> Measurement {
        Measurement::Inclination
    }

    open spec fn of_value(v: Value) -> Option<Self> {
        match v {
            Value::Inclination(x) => Some(x),
            _ => None,
        }
    }

    fn measurement() -> (r: Measurement) {
        Measurement::Inclination
    }

    fn from_value(v: Value) -> (r: Option<Self>) {
        match v {
            Value::Inclination(x) => Some(x),
            _ => None,
        }
    }
}

impl OffFrameRead for Temperature {
    open spec fn kind() -> Measurement {
        Measurement::Temperature
    }

    open spec fn of_value(v: Value) -> Option<Self> {
        match v {
            Value::Temperature(x) => Some(x),
            _ => None,
        }
    }

    fn measurement() -> (r: Measurement) {
        Measurement::Temperature
    }

    fn from_value(v: Value) -> (r: Option<Self>) {
        match v {
            Value::Temperature(x) => Some(x),
            _ => None,
        }
    }
}

impl OffFrameRead for SelfTest {
    open spec fn kind() -> Measurement {
        Measurement::SelfTest
    }

    open spec fn of_value(v: Value) -> Option<Self> {
        match v {
            Value::SelfTest(x) => Some(x),
            _ => None,
        }
    }

    fn measurement() -> (r: Measurement) {
        Measurement::SelfTest
    }

    fn from_value(v: Value) -> (r: Option<Self>) {
        match v {
            Value::SelfTest(x) => Some(x),
            _ => None,
        }
    }
}

impl OffFrameRead for ComponentId {
    open spec fn kind() -> Measurement {
        Measurement::ComponentId
    }

    open spec fn of_value(v: Value) -> Option<Self> {
        match v {
            Value::ComponentId(x) => Some(x),
            _ => None,
        }
    }

    fn measurement() -> (r: Measurement) {
        Measurement::ComponentId
    }

    fn from_value(v: Value) -> (r: Option<Self>) {
        match v {
            Value::ComponentId(x) => Some(x),
            _ => None,
        }
    }
}

impl OffFrameRead for Serial {
    open spec fn kind() -> Measurement {
        Measurement::Serial
    }

    open spec fn of_value(v: Value) -> Option<Self> {
        match v {
            Value::Serial(x) => Some(x),
            _ => None,
        }
    }

    fn measurement() -> (r: Measurement) {
        Measurement::Serial
    }

    fn from_value(v: Value) -> (r: Option<Self>) {
        match v {
            Value::Serial(x) => Some(x),
            _ => None,
        }
    }
}

impl OffFrameRead for Status {
    open spec fn kind() -> Measurement {
        Measurement::Status
    }

    open spec fn of_value(v: Value) -> Option<Self> {
        match v {
            Value::Status(x) => Some(x),
            _ => None,
        }
    }

    fn measurement() -> (r: Measurement) {
        Measurement::Status
    }

    fn from_value(v: Value) -> (r: Option<Self>) {
        match v {
            Value::Status(x) => Some(x),
            _ => None,
        }
    }
}

impl OffFrameRead for Error1 {
    open spec fn kind() -> Measurement {
        Measurement::Error1
    }

    open spec fn of_value(v: Value) -> Option<Self> {
        match v {
            Value::Error1(x) => Some(x),
            _ => None,
        }
    }

    fn measurement() -> (r: Measurement) {
        Measurement::Error1
    }

    fn from_value(v: Value) -> (r: Option<Self>) {
        match v {
            Value::Error1(x) => Some(x),
            _ => None,
        }
    }
}

impl OffFrameRead for Error2 {
    open spec fn kind() -> Measurement {
        Measurement::Error2
    }

    open spec fn of_value(v: Value) -> Option<Self> {
        match v {
            Value::Error2(x) => Some(x),
            _ => None,
        }
    }

    fn measurement() -> (r: Measurement) {
        Measurement::Error2
    }

    fn from_value(v: Value) -> (r: Option<Self>) {
        match v {
            Value::Error2(x) => Some(x),
            _ => None,
        }
    }
}

/// The registers a measurement is read from, in the order they are read.
pub open spec fn registers_of(m: Measurement) -> Seq<Output> {
    match m {
        Measurement::Acceleration => seq![Output::AccelerationX, Output::AccelerationY, Output::AccelerationZ],
        Measurement::Inclination => seq![Output::AngleX, Output::AngleY, Output::AngleZ],
        Measurement::Temperature => seq![Output::Temperature],
        Measurement::SelfTest => seq![Output::SelfTest],
        Measurement::ComponentId => seq![Output::WhoAmI],
        Measurement::Serial => seq![Output::Serial1, Output::Serial2],
        Measurement::Status => seq![Output::Status],
        Measurement::Error1 => seq![Output::Error1],
        Measurement::Error2 => seq![Output::Error2],
    }
}

/// The number of registers a measurement is read from.
fn registers_of_len(m: Measurement) -> (r: usize)
    ensures
        r == registers_of(m).len(),
{
    match m {
        Measurement::Acceleration | Measurement::Inclination => 3,
        Measurement::Serial => 2,
        _ => 1,
    }
}

/// The registers of a sequence of measurements, one after the other.
pub open spec fn registers(requests: Seq<Measurement>) -> Seq<Output>
    decreases requests.len(),
{
    if requests.len() == 0 {
        Seq::empty()
    } else {
        registers(requests.drop_last()) + registers_of(requests.last())
    }
}

/// Whether `v` is measurement `m` made of the register words `w`, read in
/// `mode`.
pub open spec fn holds(m: Measurement, mode: MeasurementMode, w: Seq<u16>, v: Value) -> bool {
    match m {
        Measurement::Acceleration => v == Value::Acceleration(Acceleration { x: w[0], y: w[1], z: w[2], mode }),
        Measurement::Inclination => v == Value::Inclination(Inclination { x: w[0], y: w[1], z: w[2] }),
        Measurement::Temperature => v == Value::Temperature(Temperature { temp: w[0] }),
        Measurement::SelfTest => v == Value::SelfTest(SelfTest { sto: w[0], mode }),
        Measurement::ComponentId => v == Value::ComponentId(ComponentId { id: (w[0] % 256) as u8 }),
        Measurement::Serial => v == Value::Serial(Serial { part1: w[0], part2: w[1] }),
        Measurement::Status => v matches Value::Status(s) && s@ == w[0],
        Measurement::Error1 => v matches Value::Error1(s) && s@ == w[0],
        Measurement::Error2 => v matches Value::Error2(s) && s@ == w[0],
    }
}

/// The bank selected after the reads of `regs`, starting from `start`
/// (`None`: not known).
pub open spec fn bank_after(start: Option<Bank>, regs: Seq<Output>) -> Option<Bank> {
    if regs.len() == 0 {
        start
    } else {
        Some(bank_of(regs.last()))
    }
}

/// The operations that read `regs`, starting with bank `start`: each read
/// is preceded by a bank switch where its bank is not the selected one.
pub open spec fn plan(start: Option<Bank>, regs: Seq<Output>) -> Seq<Operation>
    decreases regs.len(),
{
    if regs.len() == 0 {
        Seq::empty()
    } else {
        let prev = plan(start, regs.drop_last());
        let r = regs.last();
        if bank_after(start, regs.drop_last()) == Some(bank_of(r)) {
            prev.push(Operation::Read(r))
        } else {
            prev.push(Operation::SwitchBank(bank_of(r))).push(Operation::Read(r))
        }
    }
}

/// Where in `plan(start, regs)` each register is requested.
pub open spec fn slots(start: Option<Bank>, regs: Seq<Output>) -> Seq<int>
    decreases regs.len(),
{
    if regs.len() == 0 {
        Seq::empty()
    } else {
        slots(start, regs.drop_last()).push(plan(start, regs).len() - 1)
    }
}

/// A transfer of a chained read: the shortest wait, checksum and return
/// status both checked.
pub open spec fn read_transfer(op: Operation) -> Transfer {
    Transfer { operation: op, wait_ns: MIN_WAIT_TIME_NS, check: Check::CrcAndStatus }
}

/// All transfers of a chained read of `requests`: the planned reads, then
/// one switch to bank 0 that collects the last value and restores the bank.
pub open spec fn read_transfers(start: Option<Bank>, requests: Seq<Measurement>) -> Seq<Transfer> {
    let regs = registers(requests);
    if regs.len() == 0 {
        Seq::empty()
    } else {
        plan(start, regs).map_values(|op: Operation| read_transfer(op)).push(
            read_transfer(Operation::SwitchBank(Bank::Zero)),
        )
    }
}

/// The value of each register of a chained read: the payload of the
/// response to the transfer after the one that requested it.
pub open spec fn register_values(start: Option<Bank>, requests: Seq<Measurement>, words: Seq<u16>) -> Seq<u16> {
    let s = slots(start, registers(requests));
    Seq::new(s.len(), |k: int| words[s[k] + 1])
}

/// The register values that belong to request `i`.
#[verifier::opaque]
pub open spec fn request_words(requests: Seq<Measurement>, vals: Seq<u16>, i: int) -> Seq<u16> {
    vals.subrange(registers(requests.take(i)).len() as int, registers(requests.take(i + 1)).len() as int)
}

/// Whether `values` are the measurements of a chained read of `requests`
/// whose responses carried `words`.
pub open spec fn read_values(
    mode: MeasurementMode,
    start: Option<Bank>,
    requests: Seq<Measurement>,
    words: Seq<u16>,
    values: Seq<Value>,
) -> bool {
    &&& values.len() == requests.len()
    &&& forall|i: int|
        0 <= i < requests.len() ==> holds(
            #[trigger] requests[i],
            mode,
            request_words(requests, register_values(start, requests, words), i),
            values[i],
        )
}

proof fn lemma_plan_facts(start: Option<Bank>, regs: Seq<Output>)
    ensures
        slots(start, regs).len() == regs.len(),
        regs.len() > 0 ==> plan(start, regs).len() > 0,
        forall|k: int|
            0 <= k < regs.len() ==> 0 <= #[trigger] slots(start, regs)[k] < plan(start, regs).len()
                && plan(start, regs)[slots(start, regs)[k]] == Operation::Read(regs[k]),
    decreases regs.len(),
{
    if regs.len() > 0 {
        let prev = regs.drop_last();
        lemma_plan_facts(start, prev);
        assert forall|k: int| 0 <= k < regs.len() implies 0 <= #[trigger] slots(start, regs)[k] < plan(start, regs).len()
            && plan(start, regs)[slots(start, regs)[k]] == Operation::Read(regs[k]) by {
            if k < regs.len() - 1 {
                assert(slots(start, regs)[k] == slots(start, prev)[k]);
                assert(regs[k] == prev[k]);
            }
        }
    }
}

proof fn lemma_registers_prefix(requests: Seq<Measurement>, i: int)
    requires
        0 <= i <= requests.len(),
    ensures
        registers(requests.take(i)) == registers(requests).subrange(0, registers(requests.take(i)).len() as int),
        registers(requests.take(i)).len() <= registers(requests).len(),
    decreases requests.len(),
{
    if i < requests.len() {
        let prev = requests.drop_last();
        assert(prev.take(i) =~= requests.take(i));
        lemma_registers_prefix(prev, i);
        assert(registers(requests) == registers(prev) + registers_of(requests.last()));
    } else {
        assert(requests.take(i) =~= requests);
    }
}

proof fn lemma_request_window(requests: Seq<Measurement>, i: int)
    requires
        0 <= i < requests.len(),
    ensures
        registers(requests.take(i + 1)).len() == registers(requests.take(i)).len() + registers_of(requests[i]).len(),
        registers(requests.take(i + 1)).len() <= registers(requests).len(),
{
    lemma_registers_step(requests, i);
    lemma_registers_prefix(requests, i + 1);
}

proof fn lemma_registers_step(requests: Seq<Measurement>, i: int)
    requires
        0 <= i < requests.len(),
    ensures
        registers(requests.take(i + 1)) == registers(requests.take(i)) + registers_of(requests[i]),
{
    assert(requests.take(i + 1).drop_last() =~= requests.take(i));
}

fn push_register(
    operations: &mut Vec<Operation>,
    slot_list: &mut Vec<usize>,
    bank: &mut Option<Bank>,
    start: Option<Bank>,
    r: Output,
    Ghost(regs): Ghost<Seq<Output>>,
)
    requires
        old(operations)@ == plan(start, regs),
        old(slot_list)@.len() == regs.len(),
        forall|k: int| 0 <= k < regs.len() ==> old(slot_list)@[k] as int == #[trigger] slots(start, regs)[k],
        *old(bank) == bank_after(start, regs),
    ensures
        final(operations)@ == plan(start, regs.push(r)),
        final(slot_list)@.len() == regs.len() + 1,
        forall|k: int| 0 <= k < regs.len() + 1 ==> final(slot_list)@[k] as int == #[trigger] slots(start, regs.push(r))[k],
        *final(bank) == bank_after(start, regs.push(r)),
{
    let ghost regs2 = regs.push(r);
    assert(regs2.drop_last() =~= regs);
    proof {
        lemma_plan_facts(start, regs);
        lemma_plan_facts(start, regs2);
    }
    let needed = r.bank();
    let switch = match *bank {
        Some(b) => b != needed,
        None => true,
    };
    if switch {
        operations.push(Operation::SwitchBank(needed));
        *bank = Some(needed);
    }
    operations.push(Operation::Read(r));
    let slot = operations.len() - 1;
    slot_list.push(slot);
    assert forall|k: int| 0 <= k < regs.len() + 1 implies slot_list@[k] as int == #[trigger] slots(start, regs2)[k] by {
        if k < regs.len() {
            assert(slots(start, regs2)[k] == slots(start, regs)[k]);
        }
    }
}

/// The transfers of a chained read, planned one measurement at a time.
pub struct ReadPlan {
    mode: MeasurementMode,
    start: Option<Bank>,
    bank: Option<Bank>,
    requests: Vec<Measurement>,
    operations: Vec<Operation>,
    slots: Vec<usize>,
}

impl ReadPlan {
    /// The measurement mode the values are read in.
    pub closed spec fn mode(&self) -> MeasurementMode {
        self.mode
    }

    /// The bank selected before the first transfer (`None`: not known).
    pub closed spec fn start(&self) -> Option<Bank> {
        self.start
    }

    /// The measurements asked for so far, in order.
    pub closed spec fn requests(&self) -> Seq<Measurement> {
        self.requests@
    }

    /// The internal invariant: the planned operations, their slots and the
    /// bank are those the requests give.
    #[verifier::type_invariant]
    spec fn inv(self) -> bool {
        let regs = registers(self.requests@);
        &&& self.operations@ == plan(self.start, regs)
        &&& self.slots@.len() == regs.len()
        &&& forall|k: int| 0 <= k < regs.len() ==> self.slots@[k] as int == #[trigger] slots(self.start, regs)[k]
        &&& self.bank == bank_after(self.start, regs)
    }

    /// An empty plan for reads in `mode`, with bank `start` selected.
    pub fn new(mode: MeasurementMode, start: Option<Bank>) -> (r: Self)
        ensures
            r.mode() == mode,
            r.start() == start,
            r.requests().len() == 0,
    {
        let r = ReadPlan { mode, start, bank: start, requests: Vec::new(), operations: Vec::new(), slots: Vec::new() };
        assert(registers(r.requests@) =~= Seq::<Output>::empty());
        r
    }

    /// Adds a measurement to the plan: its register reads, each preceded by
    /// a bank switch where needed.
    pub fn request(self, m: Measurement) -> (r: Self)
        ensures
            r.mode() == self.mode(),
            r.start() == self.start(),
            r.requests() == self.requests().push(m),
    {
        proof {
            use_type_invariant(&self);
        }
        let ReadPlan { mode, start, mut bank, mut requests, mut operations, mut slots } = self;
        let ghost regs = registers(requests@);
        let ghost reqs2 = requests@.push(m);
        assert(reqs2.drop_last() =~= requests@);
        match m {
            Measurement::Acceleration => {
                push_register(&mut operations, &mut slots, &mut bank, start, Output::AccelerationX, Ghost(regs));
                push_register(
                    &mut operations,
                    &mut slots,
                    &mut bank,
                    start,
                    Output::AccelerationY,
                    Ghost(regs.push(Output::AccelerationX)),
                );
                push_register(
                    &mut operations,
                    &mut slots,
                    &mut bank,
                    start,
                    Output::AccelerationZ,
                    Ghost(regs.push(Output::AccelerationX).push(Output::AccelerationY)),
                );
                assert(registers(reqs2) =~= regs.push(Output::AccelerationX).push(Output::AccelerationY).push(
                    Output::AccelerationZ,
                ));
            },
            Measurement::Inclination => {
                push_register(&mut operations, &mut slots, &mut bank, start, Output::AngleX, Ghost(regs));
                push_register(&mut operations, &mut slots, &mut bank, start, Output::AngleY, Ghost(regs.push(Output::AngleX)));
                push_register(
                    &mut operations,
                    &mut slots,
                    &mut bank,
                    start,
                    Output::AngleZ,
                    Ghost(regs.push(Output::AngleX).push(Output::AngleY)),
                );
                assert(registers(reqs2) =~= regs.push(Output::AngleX).push(Output::AngleY).push(Output::AngleZ));
            },
            Measurement::Serial => {
                push_register(&mut operations, &mut slots, &mut bank, start, Output::Serial1, Ghost(regs));
                push_register(&mut operations, &mut slots, &mut bank, start, Output::Serial2, Ghost(regs.push(Output::Serial1)));
                assert(registers(reqs2) =~= regs.push(Output::Serial1).push(Output::Serial2));
            },
            _ => {
                let r = match m {
                    Measurement::Temperature => Output::Temperature,
                    Measurement::SelfTest => Output::SelfTest,
                    Measurement::ComponentId => Output::WhoAmI,
                    Measurement::Status => Output::Status,
                    Measurement::Error1 => Output::Error1,
                    _ => Output::Error2,
                };
                push_register(&mut operations, &mut slots, &mut bank, start, r, Ghost(regs));
                assert(registers(reqs2) =~= regs.push(r));
            },
        }
        requests.push(m);
        ReadPlan { mode, start, bank, requests, operations, slots }
    }
}

impl ReadPlan {
    /// Whether any register read is planned.
    pub fn is_empty(&self) -> (r: bool)
        ensures
            r == (registers(self.requests()).len() == 0),
    {
        proof {
            use_type_invariant(self);
        }
        self.slots.len() == 0
    }

    /// Every transfer of the chained read, the final bank switch included.
    pub fn transfers(&self) -> (r: Vec<Transfer>)
        ensures
            r@ == read_transfers(self.start(), self.requests()),
    {
        proof {
            use_type_invariant(self);
        }
        let ghost regs = registers(self.requests@);
        let ghost ops = plan(self.start, regs);
        let mut r: Vec<Transfer> = Vec::new();
        if self.slots.len() == 0 {
            return r;
        }
        let mut i: usize = 0;
        while i < self.operations.len()
            invariant
                self.inv(),
                regs == registers(self.requests@),
                ops == plan(self.start, regs),
                i <= self.operations@.len(),
                r@ == ops.take(i as int).map_values(|op: Operation| read_transfer(op)),
            decreases self.operations@.len() - i,
        {
            r.push(Transfer { operation: self.operations[i], wait_ns: MIN_WAIT_TIME_NS, check: Check::CrcAndStatus });
            assert(r@ =~= ops.take(i + 1).map_values(|op: Operation| read_transfer(op)));
            i = i + 1;
        }
        r.push(Transfer { operation: Operation::SwitchBank(Bank::Zero), wait_ns: MIN_WAIT_TIME_NS, check: Check::CrcAndStatus });
        assert(ops.take(i as int) =~= ops);
        r
    }

    fn value_at(&self, words: &Vec<u16>, k: usize, m: Measurement) -> (v: Value)
        requires
            words@.len() == read_transfers(self.start(), self.requests()).len(),
            k + registers_of(m).len() <= registers(self.requests()).len(),
        ensures
            holds(
                m,
                self.mode(),
                register_values(self.start(), self.requests(), words@).subrange(k as int, k + registers_of(m).len()),
                v,
            ),
    {
        let ghost vals = register_values(self.start, self.requests@, words@);
        let ghost regs = registers(self.requests@);
        proof {
            use_type_invariant(self);
            lemma_plan_facts(self.start, regs);
            assert(regs.len() > 0);
            assert(words@.len() == self.operations@.len() + 1);
            assert forall|j: int| k <= j < k + registers_of(m).len() implies 0 <= #[trigger] self.slots@[j] < self.operations@.len()
                && vals[j] == words@[self.slots@[j] + 1] by {
                assert(self.slots@[j] as int == slots(self.start, regs)[j]);
            }
        }
        let ghost w = vals.subrange(k as int, k + registers_of(m).len());
        let planned = self.operations.len();
        let read = self.slots.len();
        assert(planned == self.operations@.len() && read == self.slots@.len());
        let mode = self.mode;
        match m {
            Measurement::Acceleration => {
                let x = words[self.slots[k] + 1];
                let y = words[self.slots[k + 1] + 1];
                let z = words[self.slots[k + 2] + 1];
                assert(w[0] == x && w[1] == y && w[2] == z);
                Value::Acceleration(Acceleration { x, y, z, mode })
            },
            Measurement::Inclination => {
                let x = words[self.slots[k] + 1];
                let y = words[self.slots[k + 1] + 1];
                let z = words[self.slots[k + 2] + 1];
                assert(w[0] == x && w[1] == y && w[2] == z);
                Value::Inclination(Inclination { x, y, z })
            },
            Measurement::Serial => {
                let part1 = words[self.slots[k] + 1];
                let part2 = words[self.slots[k + 1] + 1];
                assert(w[0] == part1 && w[1] == part2);
                Value::Serial(Serial { part1, part2 })
            },
            _ => {
                let word = words[self.slots[k] + 1];
                assert(w[0] == word);
                match m {
                    Measurement::Temperature => Value::Temperature(Temperature { temp: word }),
                    Measurement::SelfTest => Value::SelfTest(SelfTest { sto: word, mode }),
                    Measurement::ComponentId => Value::ComponentId(ComponentId { id: (word % 256) as u8 }),
                    Measurement::Status => Value::Status(Status::from_bits_retain(word)),
                    Measurement::Error1 => Value::Error1(Error1::from_bits_retain(word)),
                    _ => Value::Error2(Error2::from_bits_retain(word)),
                }
            },
        }
    }

    /// The measurements of a chained read whose responses carried `words`,
    /// one for each request.
    pub fn values(&self, words: &Vec<u16>) -> (r: Vec<Value>)
        requires
            words@.len() == read_transfers(self.start(), self.requests()).len(),
        ensures
            read_values(self.mode(), self.start(), self.requests(), words@, r@),
    {
        proof {
            use_type_invariant(self);
        }
        let ghost reqs = self.requests@;
        let ghost vals = register_values(self.start, reqs, words@);
        let mut r: Vec<Value> = Vec::new();
        let mut k: usize = 0;
        let mut i: usize = 0;
        let total = self.slots.len();
        assert(reqs.take(0) =~= Seq::<Measurement>::empty());
        while i < self.requests.len()
            invariant
                self.inv(),
                total == self.slots@.len(),
                reqs == self.requests@,
                vals == register_values(self.start, reqs, words@),
                words@.len() == read_transfers(self.start, reqs).len(),
                i <= reqs.len(),
                k == registers(reqs.take(i as int)).len(),
                r@.len() == i,
                forall|j: int| 0 <= j < i ==> holds(#[trigger] reqs[j], self.mode, request_words(reqs, vals, j), r@[j]),
            decreases reqs.len() - i,
        {
            let m = self.requests[i];
            proof {
                lemma_request_window(reqs, i as int);
            }
            let v = self.value_at(words, k, m);
            assert(holds(m, self.mode, request_words(reqs, vals, i as int), v)) by {
                reveal(request_words);
            }
            let ghost before = r@;
            r.push(v);
            assert forall|j: int| 0 <= j < i + 1 implies holds(#[trigger] reqs[j], self.mode, request_words(reqs, vals, j), r@[j]) by {
                if j < i {
                    assert(r@[j] == before[j]);
                }
            }
            k = k + registers_of_len(m);
            i = i + 1;
        }
        r
    }
}

/// Off-frame pipelining of a chained read: every register is requested by
/// a transfer of its own, its value is the payload of the response to the
/// next transfer, and one transfer beyond the planned reads (a switch to
/// bank 0) collects the last value. Where bank 0 is selected and every
/// register lives there, the reads are the first transfers in order: the
/// value of the `k`-th register comes with response `k + 1`.
pub proof fn lemma_off_frame_pipeline(start: Option<Bank>, requests: Seq<Measurement>, words: Seq<u16>)
    ensures
        ({
            let regs = registers(requests);
            let ops = plan(start, regs);
            let s = slots(start, regs);
            let ts = read_transfers(start, requests);
            &&& regs.len() == 0 ==> ts.len() == 0
            &&& regs.len() > 0 ==> ts.len() == ops.len() + 1
            &&& regs.len() > 0 ==> ts.last() == read_transfer(Operation::SwitchBank(Bank::Zero))
            &&& forall|k: int| 0 <= k < regs.len() ==> {
                &&& 0 <= #[trigger] s[k] < ops.len()
                &&& ts[s[k]].operation == Operation::Read(regs[k])
                &&& register_values(start, requests, words)[k] == words[s[k] + 1]
            }
            &&& (start == Some(Bank::Zero) && forall|k: int| 0 <= k < regs.len() ==> bank_of(#[trigger] regs[k]) == Bank::Zero)
                ==> ops.len() == regs.len() && forall|k: int| 0 <= k < regs.len() ==> #[trigger] s[k] == k
        }),
{
    let regs = registers(requests);
    lemma_plan_facts(start, regs);
    lemma_bank_zero_plan(start, regs);
}

proof fn lemma_bank_zero_plan(start: Option<Bank>, regs: Seq<Output>)
    ensures
        (start == Some(Bank::Zero) && forall|k: int| 0 <= k < regs.len() ==> bank_of(#[trigger] regs[k]) == Bank::Zero)
            ==> plan(start, regs).len() == regs.len() && forall|k: int| 0 <= k < regs.len() ==> #[trigger] slots(start, regs)[k] == k,
    decreases regs.len(),
{
    if regs.len() > 0 && start == Some(Bank::Zero) && forall|k: int| 0 <= k < regs.len() ==> bank_of(#[trigger] regs[k]) == Bank::Zero {
        let prev = regs.drop_last();
        assert forall|k: int| 0 <= k < prev.len() implies bank_of(#[trigger] prev[k]) == Bank::Zero by {
            assert(prev[k] == regs[k]);
        }
        lemma_bank_zero_plan(start, prev);
        lemma_plan_facts(start, prev);
        lemma_plan_facts(start, regs);
        assert(bank_of(regs[regs.len() - 1]) == Bank::Zero);
        assert forall|k: int| 0 <= k < regs.len() implies #[trigger] slots(start, regs)[k] == k by {
            if k < regs.len() - 1 {
                assert(slots(start, regs)[k] == slots(start, prev)[k]);
            }
        }
    }
}

} // verus!
