//! Two-wire bus controller: start/address/payload/stop framing over the
//! peripheral's control, data and status registers.
use vstd::prelude::*;

verus! {

/// Control register: interrupt flag (writing 1 starts the next step).
pub const TWINT: u8 = 0x80;
/// Control register: acknowledge received bytes.
pub const TWEA: u8 = 0x40;
/// Control register: issue a start condition.
pub const TWSTA: u8 = 0x20;
/// Control register: issue a stop condition.
pub const TWSTO: u8 = 0x10;
/// Control register: peripheral enabled.
pub const TWEN: u8 = 0x04;

/// Control value that issues a start condition.
pub const CONTROL_START: u8 = TWINT | TWSTA | TWEN;
/// Control value that issues a stop condition.
pub const CONTROL_STOP: u8 = TWINT | TWSTO | TWEN;
/// Control value that shifts one byte, and on reception answers with a nack.
pub const CONTROL_SHIFT: u8 = TWINT | TWEN;
/// Control value that receives one byte and answers with an ack.
pub const CONTROL_SHIFT_ACK: u8 = TWINT | TWEA | TWEN;

/// Status bits that matter, once the prescaler bits are masked off.
pub const STATUS_MASK: u8 = 0xF8;
/// Status: address with write bit sent, acknowledged by a device.
pub const STATUS_ADDRESS_ACK: u8 = 0x18;

/// Prescaler written at construction (divide by one).
pub const CLOCK_PRESCALER: u8 = 0x00;
/// Bit-rate divisor written at construction (400 kHz from a 16 MHz clock).
pub const CLOCK_DIVISOR: u8 = 0x0C;

/// Number of 7-bit addresses swept by a bus scan.
pub const SCAN_ADDRESSES: u8 = 0x7F;

/// Direction bit carried in the low bit of the address byte.
#[derive(Clone, Copy, Debug, PartialEq, Eq, Structural)]
pub enum DataDirection {
    Write,
    Read,
}

/// Errors of the bus and of the drivers built on it.
#[allow(non_camel_case_types)]
#[derive(Clone, Copy, Debug, PartialEq, Eq, Structural)]
pub enum TwiError {
    /// Reserved for a malformed address.
    InvalidAddress,
    /// The device did not acknowledge its address.
    NoConnection,
    /// A device refused its configuration.
    InitError,
    /// The shared bus is held by another driver.
    BusBusy,
}

/// One step observed on the peripheral's registers, in order.
#[derive(Clone, Copy, Debug, PartialEq, Eq, Structural)]
pub enum WireEvent {
    /// Prescaler and bit-rate divisor written.
    Clock(u8, u8),
    /// Value written to the control register.
    Control(u8),
    /// Spin until the hardware reports the current step done.
    Wait,
    /// Byte placed in the data register.
    DataOut(u8),
    /// Byte taken from the data register.
    DataIn(u8),
    /// Status register as read.
    Status(u8),
    /// Pause of the given number of microseconds.
    Delay(u32),
}

/// The register steps taken on a port, in order.
pub type WireHistory = Seq<WireEvent>;

/// The two-wire peripheral's registers, and a delay source.
///
/// Each operation adds exactly one step to the port's `history`; what the
/// registers read back is whatever the hardware gave, recorded as it was
/// returned.
pub trait TwiPort {
    /// Every register step taken on this port, in order.
    spec fn history(&self) -> WireHistory;

    fn set_clock(&mut self, prescaler: u8, divisor: u8)
        ensures
            final(self).history() == old(self).history().push(WireEvent::Clock(prescaler, divisor)),
    ;

    fn write_control(&mut self, value: u8)
        ensures
            final(self).history() == old(self).history().push(WireEvent::Control(value)),
    ;

    /// Busy-waits until the interrupt flag is set (no timeout).
    fn wait_flag(&mut self)
        ensures
            final(self).history() == old(self).history().push(WireEvent::Wait),
    ;

    fn write_data(&mut self, value: u8)
        ensures
            final(self).history() == old(self).history().push(WireEvent::DataOut(value)),
    ;

    fn read_data(&mut self) -> (r: u8)
        ensures
            final(self).history() == old(self).history().push(WireEvent::DataIn(r)),
    ;

    fn read_status(&mut self) -> (r: u8)
        ensures
            final(self).history() == old(self).history().push(WireEvent::Status(r)),
    ;

    fn delay_us(&mut self, us: u32)
        ensures
            final(self).history() == old(self).history().push(WireEvent::Delay(us)),
    ;
}

pub open spec fn direction_bit(dir: DataDirection) -> u8 {
    match dir {
        DataDirection::Write => 0,
        DataDirection::Read => 1,
    }
}

/// The byte sent after a start condition: the address shifted left, the
/// direction in bit 0.
pub open spec fn address_byte(addr: u8, dir: DataDirection) -> u8 {
    (((addr as int) * 2) % 256 + direction_bit(dir)) as u8
}

/// The status code reports that a device answered its address.
pub open spec fn acknowledged(status: u8) -> bool {
    status & STATUS_MASK == STATUS_ADDRESS_ACK
}

pub open spec fn start_condition_frame() -> Seq<WireEvent> {
    seq![WireEvent::Control(CONTROL_START), WireEvent::Wait]
}

pub open spec fn byte_frame(b: u8) -> Seq<WireEvent> {
    seq![WireEvent::DataOut(b), WireEvent::Control(CONTROL_SHIFT), WireEvent::Wait]
}

pub open spec fn stop_frame() -> Seq<WireEvent> {
    seq![WireEvent::Control(CONTROL_STOP)]
}

/// Start condition, then the address byte.
pub open spec fn address_frame(addr: u8, dir: DataDirection) -> Seq<WireEvent> {
    start_condition_frame() + seq![WireEvent::Wait] + byte_frame(address_byte(addr, dir)) + seq![
        WireEvent::Wait,
    ]
}

/// Each byte of `bs` shifted out, in order.
pub open spec fn bytes_frame(bs: Seq<u8>) -> Seq<WireEvent>
    decreases bs.len(),
{
    if bs.len() == 0 {
        seq![]
    } else {
        bytes_frame(bs.drop_last()) + byte_frame(bs.last())
    }
}

pub open spec fn ack_frame(v: u8) -> Seq<WireEvent> {
    seq![WireEvent::Control(CONTROL_SHIFT_ACK), WireEvent::Wait, WireEvent::DataIn(v)]
}

/// A byte received with a nack, which ends the transfer with a stop.
pub open spec fn nack_frame(v: u8) -> Seq<WireEvent> {
    seq![WireEvent::Control(CONTROL_SHIFT), WireEvent::Wait, WireEvent::DataIn(v)] + stop_frame()
}

/// Each byte of `vs` received with an ack.
pub open spec fn acks_frame(vs: Seq<u8>) -> Seq<WireEvent>
    decreases vs.len(),
{
    if vs.len() == 0 {
        seq![]
    } else {
        acks_frame(vs.drop_last()) + ack_frame(vs.last())
    }
}

/// A write transaction: start, address, payload, stop.
pub open spec fn write_frame(addr: u8, bs: Seq<u8>) -> Seq<WireEvent> {
    address_frame(addr, DataDirection::Write) + bytes_frame(bs) + stop_frame()
}

/// A register read: the register pointer written, a repeated start as a
/// read, all bytes but the last acknowledged, the last one nacked.
pub open spec fn read_frame(addr: u8, reg: u8, vs: Seq<u8>) -> Seq<WireEvent>
    recommends
        vs.len() > 0,
{
    address_frame(addr, DataDirection::Write) + byte_frame(reg) + address_frame(
        addr,
        DataDirection::Read,
    ) + acks_frame(vs.drop_last()) + nack_frame(vs.last())
}

/// A ping: the address sent for a write, the status read, a stop.
pub open spec fn ping_frame(addr: u8, status: u8) -> Seq<WireEvent> {
    address_frame(addr, DataDirection::Write) + seq![WireEvent::Wait, WireEvent::Status(status)]
        + stop_frame()
}

pub open spec fn ping_frame_len() -> int {
    10
}

/// The status recorded by a ping frame.
pub open spec fn ping_status(frame: Seq<WireEvent>) -> u8 {
    match frame[8] {
        WireEvent::Status(s) => s,
        _ => 0,
    }
}

/// The events of the ping of `addr` within a sweep that began at `base`.
pub open spec fn sweep_segment(events: Seq<WireEvent>, base: int, addr: int) -> Seq<WireEvent> {
    events.subrange(base + addr * ping_frame_len(), base + addr * ping_frame_len() + ping_frame_len())
}

proof fn lemma_acks_frame_injective(a: Seq<u8>, b: Seq<u8>)
    requires
        a.len() == b.len(),
        acks_frame(a) == acks_frame(b),
    ensures
        a == b,
    decreases a.len(),
{
    if a.len() > 0 {
        let fa = acks_frame(a);
        let fb = acks_frame(b);
        let n = fa.len() - 3;
        assert(fa.subrange(0, n) =~= acks_frame(a.drop_last()));
        assert(fb.subrange(0, n) =~= acks_frame(b.drop_last()));
        assert(fa[n + 2] == WireEvent::DataIn(a.last()));
        assert(fb[n + 2] == WireEvent::DataIn(b.last()));
        lemma_acks_frame_injective(a.drop_last(), b.drop_last());
        assert(a =~= a.drop_last().push(a.last()));
        assert(b =~= b.drop_last().push(b.last()));
    }
}

proof fn lemma_acks_frame_len(a: Seq<u8>)
    ensures
        acks_frame(a).len() == 3 * a.len(),
    decreases a.len(),
{
    if a.len() > 0 {
        lemma_acks_frame_len(a.drop_last());
    }
}

/// The bytes that a register read returns are fixed by its traffic on the
/// wire: two reads of the same register whose recorded traffic is the same
/// returned the same bytes.
pub proof fn lemma_read_reg_repeatable(addr: u8, reg: u8, first: Seq<u8>, second: Seq<u8>)
    requires
        first.len() > 0,
        first.len() == second.len(),
        read_frame(addr, reg, first) == read_frame(addr, reg, second),
    ensures
        first == second,
{
    let head = address_frame(addr, DataDirection::Write) + byte_frame(reg) + address_frame(
        addr,
        DataDirection::Read,
    );
    let fa = read_frame(addr, reg, first);
    let fb = read_frame(addr, reg, second);
    lemma_acks_frame_len(first.drop_last());
    lemma_acks_frame_len(second.drop_last());
    let n: int = (head.len() + 3 * first.drop_last().len()) as int;
    assert(fa.subrange(head.len() as int, n) =~= acks_frame(first.drop_last()));
    assert(fb.subrange(head.len() as int, n) =~= acks_frame(second.drop_last()));
    lemma_acks_frame_injective(first.drop_last(), second.drop_last());
    assert(fa[n + 2] == WireEvent::DataIn(first.last()));
    assert(fb[n + 2] == WireEvent::DataIn(second.last()));
    assert(first =~= first.drop_last().push(first.last()));
    assert(second =~= second.drop_last().push(second.last()));
}

/// Bus master over a register port. Each operation is a blocking, complete
/// sequence of register steps; `events` is the history of those steps.
pub struct TwiController<P: TwiPort> {
    port: P,
}

impl<P: TwiPort> TwiController<P> {
    /// Everything done on the port's registers, as the port records it.
    pub closed spec fn events(&self) -> Seq<WireEvent> {
        self.port.history()
    }

    /// Takes the peripheral and sets the bus clock.
    pub fn new(port: P) -> (r: Self)
        ensures
            r.events() == port.history().push(WireEvent::Clock(CLOCK_PRESCALER, CLOCK_DIVISOR)),
    {
        let mut port = port;
        port.set_clock(CLOCK_PRESCALER, CLOCK_DIVISOR);
        TwiController { port }
    }

    fn wait(&mut self)
        ensures
            final(self).events() == old(self).events().push(WireEvent::Wait),
    {
        self.port.wait_flag();
    }

    fn control(&mut self, value: u8)
        ensures
            final(self).events() == old(self).events().push(WireEvent::Control(value)),
    {
        self.port.write_control(value);
    }

    /// Pauses for `us` microseconds.
    pub fn delay_us(&mut self, us: u32)
        ensures
            final(self).events() == old(self).events().push(WireEvent::Delay(us)),
    {
        self.port.delay_us(us);
    }

    /// Issues a start condition and waits until it is on the bus.
    pub fn send_start_condition(&mut self)
        ensures
            final(self).events() == old(self).events() + start_condition_frame(),
    {
        self.control(CONTROL_START);
        self.wait();
        assert(self.events() =~= old(self).events() + start_condition_frame());
    }

    /// Issues a stop condition.
    pub fn stop_transaction(&mut self)
        ensures
            final(self).events() == old(self).events() + stop_frame(),
    {
        self.control(CONTROL_STOP);
        assert(self.events() =~= old(self).events() + stop_frame());
    }

    fn write_byte(&mut self, byte: u8)
        ensures
            final(self).events() == old(self).events() + byte_frame(byte),
    {
        self.port.write_data(byte);
        self.control(CONTROL_SHIFT);
        self.wait();
        assert(self.events() =~= old(self).events() + byte_frame(byte));
    }

    fn start_transaction(&mut self, slave_address: u8, direction: DataDirection)
        ensures
            final(self).events() == old(self).events() + address_frame(slave_address, direction),
    {
        let bit: u8 = match direction {
            DataDirection::Write => 0,
            DataDirection::Read => 1,
        };
        let byte: u8 = (slave_address % 128) * 2 + bit;
        assert(byte == address_byte(slave_address, direction));
        self.send_start_condition();
        self.wait();
        self.write_byte(byte);
        self.wait();
        assert(self.events() =~= old(self).events() + address_frame(slave_address, direction));
    }

    /// Receives one byte and acknowledges it, so that the transfer goes on.
    /// Expects a read transaction to be under way.
    pub fn read_ack(&mut self) -> (r: u8)
        ensures
            final(self).events() == old(self).events() + ack_frame(r),
    {
        self.control(CONTROL_SHIFT_ACK);
        self.wait();
        let r = self.port.read_data();
        assert(self.events() =~= old(self).events() + ack_frame(r));
        r
    }

    /// Receives one byte without acknowledging it, then stops the transfer.
    /// Expects a read transaction to be under way.
    pub fn read_nack(&mut self) -> (r: u8)
        ensures
            final(self).events() == old(self).events() + nack_frame(r),
    {
        self.control(CONTROL_SHIFT);
        self.wait();
        let r = self.port.read_data();
        self.stop_transaction();
        assert(self.events() =~= old(self).events() + nack_frame(r));
        r
    }

    fn write_data(&mut self, slave_address: u8, buffer: &[u8])
        ensures
            final(self).events() == old(self).events() + address_frame(
                slave_address,
                DataDirection::Write,
            ) + bytes_frame(buffer@),
    {
        self.start_transaction(slave_address, DataDirection::Write);
        let ghost base = self.events();
        let mut i: usize = 0;
        while i < buffer.len()
            invariant
                i <= buffer@.len(),
                self.events() == base + bytes_frame(buffer@.take(i as int)),
                base == old(self).events() + address_frame(slave_address, DataDirection::Write),
            decreases buffer@.len() - i,
        {
            self.write_byte(buffer[i]);
            assert(buffer@.take(i + 1).drop_last() =~= buffer@.take(i as int));
            assert(self.events() =~= base + bytes_frame(buffer@.take(i + 1)));
            i = i + 1;
        }
        assert(buffer@.take(i as int) =~= buffer@);
    }

    /// One write transaction: the bytes of `buffer` to the device, then stop.
    pub fn write_reg(&mut self, slave_address: u8, buffer: &[u8])
        ensures
            final(self).events() == old(self).events() + write_frame(slave_address, buffer@),
    {
        self.write_data(slave_address, buffer);
        self.stop_transaction();
        assert(self.events() =~= old(self).events() + write_frame(slave_address, buffer@));
    }

    /// Reads `buffer.len()` bytes from the device, starting at register
    /// `start_register`.
    pub fn read_reg(&mut self, slave_address: u8, start_register: u8, buffer: &mut [u8])
        requires
            old(buffer)@.len() > 0,
        ensures
            final(buffer)@.len() == old(buffer)@.len(),
            final(self).events() == old(self).events() + read_frame(
                slave_address,
                start_register,
                final(buffer)@,
            ),
    {
        let pointer: [u8; 1] = [start_register];
        self.write_data(slave_address, &pointer);
        assert(pointer@.drop_last() =~= Seq::<u8>::empty());
        assert(bytes_frame(Seq::<u8>::empty()) =~= Seq::<WireEvent>::empty());
        assert(bytes_frame(pointer@) =~= byte_frame(start_register));
        self.start_transaction(slave_address, DataDirection::Read);
        let ghost base = self.events();
        let last_byte: usize = buffer.len() - 1;
        let mut i: usize = 0;
        while i < last_byte
            invariant
                last_byte == buffer@.len() - 1,
                i <= last_byte,
                buffer@.len() == old(buffer)@.len(),
                self.events() == base + acks_frame(buffer@.take(i as int)),
            decreases last_byte - i,
        {
            let v = self.read_ack();
            let ghost prev = buffer@;
            buffer[i] = v;
            assert(buffer@.take(i as int) =~= prev.take(i as int));
            assert(buffer@.take(i + 1).drop_last() =~= buffer@.take(i as int));
            assert(self.events() =~= base + acks_frame(buffer@.take(i + 1)));
            i = i + 1;
        }
        let ghost mid = self.events();
        let v = self.read_nack();
        let ghost prev = buffer@;
        buffer[last_byte] = v;
        assert(buffer@.take(last_byte as int) =~= prev.take(last_byte as int));
        assert(buffer@.take(last_byte as int) =~= buffer@.drop_last());
        assert(self.events() =~= old(self).events() + read_frame(
            slave_address,
            start_register,
            buffer@,
        ));
    }

    /// Sends the address for a write and reports whether a device
    /// acknowledged it.
    pub fn ping_device(&mut self, slave_address: u8) -> (r: bool)
        ensures
            final(self).events().len() == old(self).events().len() + ping_frame_len(),
            final(self).events() == old(self).events() + ping_frame(
                slave_address,
                ping_status(final(self).events().skip(old(self).events().len() as int)),
            ),
            r == acknowledged(ping_status(final(self).events().skip(old(self).events().len() as int))),
    {
        self.start_transaction(slave_address, DataDirection::Write);
        self.wait();
        let status = self.port.read_status();
        let ret = status & STATUS_MASK == STATUS_ADDRESS_ACK;
        self.stop_transaction();
        assert(self.events() =~= old(self).events() + ping_frame(slave_address, status));
        assert(self.events().skip(old(self).events().len() as int) =~= ping_frame(slave_address, status));
        ret
    }

    /// Pings every address in [0, 127) in increasing order; entry `a` of the
    /// result tells whether the device at `a` acknowledged.
    pub fn ping_for_devices(&mut self) -> (r: [bool; 127])
        ensures
            final(self).events().len() == old(self).events().len() + 127 * ping_frame_len(),
            final(self).events().take(old(self).events().len() as int) == old(self).events(),
            forall|a: int|
                0 <= a < 127 ==> {
                    let seg = #[trigger] sweep_segment(final(self).events(), old(self).events().len() as int, a);
                    &&& seg == ping_frame(a as u8, ping_status(seg))
                    &&& r@[a] == acknowledged(ping_status(seg))
                },
    {
        let ghost base = old(self).events().len() as int;
        let mut device_list: [bool; 127] = [false; 127];
        let mut addr: u8 = 0;
        while addr < SCAN_ADDRESSES
            invariant
                addr <= 127,
                base == old(self).events().len(),
                self.events().len() == base + addr * ping_frame_len(),
                self.events().take(base) == old(self).events(),
                forall|a: int|
                    0 <= a < addr ==> {
                        let seg = #[trigger] sweep_segment(self.events(), base, a);
                        &&& seg == ping_frame(a as u8, ping_status(seg))
                        &&& device_list@[a] == acknowledged(ping_status(seg))
                    },
            decreases 127 - addr,
        {
            let ghost before = self.events();
            let found = self.ping_device(addr);
            let ghost after = self.events();
            device_list[addr as usize] = found;
            assert(after.take(before.len() as int) =~= before);
            assert forall|a: int| 0 <= a < addr + 1 implies {
                let seg = #[trigger] sweep_segment(after, base, a);
                &&& seg == ping_frame(a as u8, ping_status(seg))
                &&& device_list@[a] == acknowledged(ping_status(seg))
            } by {
                if a < addr {
                    assert(sweep_segment(after, base, a) =~= sweep_segment(before, base, a));
                } else {
                    assert(sweep_segment(after, base, a) =~= after.skip(before.len() as int));
                }
            }
            assert(after.take(base) =~= before.take(base));
            addr = addr + 1;
        }
        device_list
    }
}

} // verus!
