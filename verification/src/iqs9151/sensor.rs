//! The IQS9151's register protocol: the handle that owns the bus, the bytes
//! of each register write, the checks made on what is read back, and the
//! chunking of long configuration writes.
use vstd::prelude::*;
use crate::iqs9151::frame::{
    I2C_ADDRESS,
    INFO_SHOW_RESET,
    PRODUCT_NUMBER,
    SYS_CTRL_ALP_RE_ATI,
    SYS_CTRL_TP_RE_ATI,
};
use crate::iqs9151::output::Iqs9151ControllerTarget;

verus! {

/// Largest number of register bytes written in one bus transaction.
pub const I2C_WRITE_CHUNK_SIZE: usize = 30;

/// Milliseconds to wait for re-calibration (ATI) to finish.
pub const ATI_TIMEOUT_MS: u64 = 1000;

/// Milliseconds between polls while waiting for the sensor.
pub const ATI_POLL_INTERVAL_MS: u64 = 10;

/// Milliseconds to wait for the ready line while starting up.
pub const READY_STARTUP_TIMEOUT_MS: u64 = 500;

/// Milliseconds to wait for the ready line while configuring.
pub const READY_CONFIG_TIMEOUT_MS: u64 = 100;

/// Milliseconds to wait for the ready line before a configuration write.
pub const READY_WRITE_TIMEOUT_MS: u64 = 200;

/// Milliseconds to wait for the ready line before reading a frame.
pub const READY_RUNTIME_TIMEOUT_MS: u64 = 20;

/// Milliseconds to wait for the sensor to show its reset.
pub const SHOW_RESET_TIMEOUT_MS: u64 = 3000;

/// Milliseconds to let the sensor settle after acknowledging a reset.
pub const RESET_DELAY_MS: u64 = 100;

/// What can go wrong talking to the sensor.
#[derive(Clone, Copy, Debug, PartialEq, Eq)]
pub enum Iqs9151Error<E> {
    /// The bus transaction failed.
    Bus(E),
    /// The product number register held something else.
    UnexpectedProductNumber(u16),
    /// Re-calibration did not finish in time.
    AtiTimeout,
    /// The sensor did not show its reset in time.
    ShowResetTimeout,
}

/// An IQS9151 on a bus, at an address.
pub struct Iqs9151<I2C> {
    pub i2c: I2C,
    pub address: u8,
}

impl<I2C> Iqs9151<I2C> {
    /// The sensor at its default address.
    pub fn new(i2c: I2C) -> (r: Self)
        ensures
            r.i2c == i2c,
            r.address == I2C_ADDRESS,
    {
        Iqs9151 { i2c, address: I2C_ADDRESS }
    }

    /// The sensor at `address`.
    pub fn with_address(i2c: I2C, address: u8) -> (r: Self)
        ensures
            r.i2c == i2c,
            r.address == address,
    {
        Iqs9151 { i2c, address }
    }

    /// Give the bus back.
    pub fn release(self) -> (r: I2C)
        ensures
            r == self.i2c,
    {
        self.i2c
    }
}

/// The two little-endian bytes of a 16-bit register address or value.
pub open spec fn le_bytes(v: u16) -> (u8, u8) {
    ((v % 256) as u8, (v / 256) as u8)
}

fn le_bytes_of(v: u16) -> (r: (u8, u8))
    ensures
        r == le_bytes(v),
{
    ((v % 256) as u8, (v / 256) as u8)
}

/// The bytes that write a 16-bit value: register then value, both
/// little-endian.
pub fn write_u16_frame(register: u16, value: u16) -> (r: [u8; 4])
    ensures
        r@ == seq![le_bytes(register).0, le_bytes(register).1, le_bytes(value).0, le_bytes(value).1],
{
    let (r0, r1) = le_bytes_of(register);
    let (v0, v1) = le_bytes_of(value);
    let bytes = [r0, r1, v0, v1];
    assert(bytes@ =~= seq![r0, r1, v0, v1]);
    bytes
}

/// The bytes that write an 8-bit value: register little-endian, then value.
pub fn write_u8_frame(register: u16, value: u8) -> (r: [u8; 3])
    ensures
        r@ == seq![le_bytes(register).0, le_bytes(register).1, value],
{
    let (r0, r1) = le_bytes_of(register);
    let bytes = [r0, r1, value];
    assert(bytes@ =~= seq![r0, r1, value]);
    bytes
}

/// The bytes that write a run of register bytes: the start register
/// little-endian, then the data.
pub fn write_slice_frame(register: u16, data: &[u8]) -> (r: Vec<u8>)
    requires
        data@.len() <= I2C_WRITE_CHUNK_SIZE,
    ensures
        r@ == seq![le_bytes(register).0, le_bytes(register).1] + data@,
{
    let (r0, r1) = le_bytes_of(register);
    let mut tx: Vec<u8> = Vec::new();
    tx.push(r0);
    tx.push(r1);
    let mut i: usize = 0;
    while i < data.len()
        invariant
            i <= data@.len(),
            tx@ == seq![r0, r1] + data@.subrange(0, i as int),
        decreases data@.len() - i,
    {
        tx.push(data[i]);
        i = i + 1;
        assert(tx@ =~= seq![r0, r1] + data@.subrange(0, i as int));
    }
    assert(data@.subrange(0, data@.len() as int) =~= data@);
    tx
}

/// The register address read first for a block read, little-endian.
pub fn register_address_bytes(register: u16) -> (r: [u8; 2])
    ensures
        r@ == seq![le_bytes(register).0, le_bytes(register).1],
{
    let (r0, r1) = le_bytes_of(register);
    let bytes = [r0, r1];
    assert(bytes@ =~= seq![r0, r1]);
    bytes
}

/// The 16-bit value of two little-endian bytes read back.
pub fn u16_from_le(bytes: [u8; 2]) -> (r: u16)
    ensures
        r == bytes@[0] + bytes@[1] * 256,
{
    (bytes[0] as u16) + (bytes[1] as u16) * 256
}

/// A register value with the bits under `mask` replaced by those of `value`.
pub open spec fn merge_bits_spec(current: u16, mask: u16, value: u16) -> u16 {
    (current & !mask) | (value & mask)
}

/// The value to write back when updating the bits under `mask`.
pub fn merge_bits_u16(current: u16, mask: u16, value: u16) -> (r: u16)
    ensures
        r == merge_bits_spec(current, mask, value),
        r & mask == value & mask,
        r & !mask == current & !mask,
{
    let r = (current & !mask) | (value & mask);
    assert(r & mask == value & mask && r & !mask == current & !mask) by (bit_vector)
        requires
            r == (current & !mask) | (value & mask),
    ;
    r
}

/// Accept the product number read from the sensor only if it is the IQS9151's.
pub fn check_product_number<E>(product_number: u16) -> (r: Result<(), Iqs9151Error<E>>)
    ensures
        product_number == PRODUCT_NUMBER <==> r is Ok,
        product_number != PRODUCT_NUMBER ==> r == Err::<(), Iqs9151Error<E>>(
            Iqs9151Error::UnexpectedProductNumber(product_number),
        ),
{
    if product_number != PRODUCT_NUMBER {
        return Err(Iqs9151Error::UnexpectedProductNumber(product_number));
    }
    Ok(())
}

/// Whether the info flags show that the sensor has reset.
pub fn reset_shown(info_flags: u16) -> (r: bool)
    ensures
        r == (info_flags & INFO_SHOW_RESET != 0),
{
    info_flags & INFO_SHOW_RESET != 0
}

/// Whether both re-calibration requests in the system control register have
/// cleared.
pub fn ati_complete(control: u16) -> (r: bool)
    ensures
        r == (control & (SYS_CTRL_ALP_RE_ATI | SYS_CTRL_TP_RE_ATI) == 0),
{
    control & (SYS_CTRL_ALP_RE_ATI | SYS_CTRL_TP_RE_ATI) == 0
}

/// What a bounded wait for the sensor does after one poll.
#[derive(Clone, Copy, Debug, PartialEq, Eq, Structural)]
pub enum PollStep {
    /// The awaited condition holds: the wait succeeds.
    Done,
    /// The condition does not hold and the deadline has passed.
    TimedOut,
    /// Sleep for the poll interval and poll again.
    PollAgain,
}

/// The outcome of one poll: done when the condition holds, else timed out
/// once `now_ms` has reached the deadline, else poll again.
pub open spec fn poll_step_spec(done: bool, now_ms: u64, deadline_ms: u64) -> PollStep {
    if done {
        PollStep::Done
    } else if now_ms >= deadline_ms {
        PollStep::TimedOut
    } else {
        PollStep::PollAgain
    }
}

/// One poll of the wait for the sensor to show its reset, on the info flags
/// just read.
pub fn show_reset_poll_step(info_flags: u16, now_ms: u64, deadline_ms: u64) -> (r: PollStep)
    ensures
        r == poll_step_spec(info_flags & INFO_SHOW_RESET != 0, now_ms, deadline_ms),
{
    if reset_shown(info_flags) {
        PollStep::Done
    } else if now_ms >= deadline_ms {
        PollStep::TimedOut
    } else {
        PollStep::PollAgain
    }
}

/// One poll of the wait for re-calibration to finish, on the system control
/// register just read.
pub fn ati_poll_step(control: u16, now_ms: u64, deadline_ms: u64) -> (r: PollStep)
    ensures
        r == poll_step_spec(control & (SYS_CTRL_ALP_RE_ATI | SYS_CTRL_TP_RE_ATI) == 0, now_ms, deadline_ms),
{
    if ati_complete(control) {
        PollStep::Done
    } else if now_ms >= deadline_ms {
        PollStep::TimedOut
    } else {
        PollStep::PollAgain
    }
}

/// One bus write of a long configuration block: the register it starts at
/// and the range of the block's bytes it carries.
#[derive(Clone, Copy, Debug, PartialEq, Eq, Structural)]
pub struct WriteChunk {
    pub register: u16,
    pub start: usize,
    pub end: usize,
}

/// The chunks of a block of `len` bytes written from `start_register`:
/// consecutive runs of at most `I2C_WRITE_CHUNK_SIZE` bytes covering the
/// block in order, each at the register of its first byte.
pub open spec fn chunks_tile(chunks: Seq<WriteChunk>, start_register: u16, len: nat) -> bool {
    &&& (chunks.len() == 0 <==> len == 0)
    &&& chunks.len() > 0 ==> chunks[0].start == 0 && chunks[chunks.len() - 1].end == len
    &&& forall|i: int| 0 <= i < chunks.len() ==> {
        let c = #[trigger] chunks[i];
        &&& c.start < c.end <= len
        &&& c.end - c.start == if len - c.start > I2C_WRITE_CHUNK_SIZE {
            I2C_WRITE_CHUNK_SIZE as int
        } else {
            len - c.start
        }
        &&& c.register == start_register + c.start % 0x1_0000
    }
    &&& forall|i: int| 0 <= i < chunks.len() - 1 ==> #[trigger] chunks[i].end == chunks[i + 1].start
}

/// Whether every chunk of a block of `len` bytes starts at a register that
/// fits the 16-bit register space (the chunk offset taken modulo 2^16).
pub open spec fn chunk_registers_fit(start_register: u16, len: nat) -> bool {
    forall|k: int| 0 <= k && #[trigger] (30 * k) < len ==> start_register + (30 * k) % 0x1_0000 <= 0xffff
}

/// Split a block of `len` bytes written from `start_register` into bus writes.
pub fn write_chunks(start_register: u16, len: usize) -> (r: Vec<WriteChunk>)
    requires
        chunk_registers_fit(start_register, len as nat),
    ensures
        chunks_tile(r@, start_register, len as nat),
{
    let mut chunks: Vec<WriteChunk> = Vec::new();
    let mut offset: usize = 0;
    while offset < len
        invariant
            offset <= len,
            offset % 30 == 0 || offset == len,
            chunk_registers_fit(start_register, len as nat),
            chunks@.len() == 0 <==> offset == 0,
            chunks@.len() > 0 ==> chunks@[0].start == 0 && chunks@[chunks@.len() - 1].end == offset,
            forall|i: int| 0 <= i < chunks@.len() ==> {
                let c = #[trigger] chunks@[i];
                &&& c.start < c.end <= offset
                &&& c.end - c.start == if len - c.start > I2C_WRITE_CHUNK_SIZE {
                    I2C_WRITE_CHUNK_SIZE as int
                } else {
                    len - c.start
                }
                &&& c.register == start_register + c.start % 0x1_0000
            },
            forall|i: int| 0 <= i < chunks@.len() - 1 ==> #[trigger] chunks@[i].end == chunks@[i + 1].start,
        decreases len - offset,
    {
        let remaining = len - offset;
        let chunk_len = if remaining > I2C_WRITE_CHUNK_SIZE {
            I2C_WRITE_CHUNK_SIZE
        } else {
            remaining
        };
        assert(start_register + (30 * (offset as int / 30)) % 0x1_0000 <= 0xffff);
        let register = start_register + (offset % 0x1_0000) as u16;
        chunks.push(WriteChunk { register, start: offset, end: offset + chunk_len });
        offset = offset + chunk_len;
    }
    chunks
}

/// The sensor's ready line: which level means ready.
#[derive(Clone, Copy, Debug, PartialEq, Eq, Structural)]
pub enum ReadyPinPolarity {
    ActiveLow,
    ActiveHigh,
}

/// A sensor without a ready line: the device polls on a timer.
#[derive(Clone, Copy, Debug, Default, PartialEq, Eq, Structural)]
pub struct NoReadyPin;

/// The sensor's ready line and its polarity.
pub struct Iqs9151ReadyPin<PIN> {
    pub pin: PIN,
    pub polarity: ReadyPinPolarity,
}

impl<PIN> Iqs9151ReadyPin<PIN> {
    /// A ready line with the given polarity.
    pub fn new(pin: PIN, polarity: ReadyPinPolarity) -> (r: Self)
        ensures
            r.pin == pin,
            r.polarity == polarity,
    {
        Iqs9151ReadyPin { pin, polarity }
    }

    /// A ready line that is low when ready.
    pub fn active_low(pin: PIN) -> (r: Self)
        ensures
            r.pin == pin,
            r.polarity == ReadyPinPolarity::ActiveLow,
    {
        Self::new(pin, ReadyPinPolarity::ActiveLow)
    }

    /// A ready line that is high when ready.
    pub fn active_high(pin: PIN) -> (r: Self)
        ensures
            r.pin == pin,
            r.polarity == ReadyPinPolarity::ActiveHigh,
    {
        Self::new(pin, ReadyPinPolarity::ActiveHigh)
    }

    /// Give the pin back.
    pub fn release(self) -> (r: PIN)
        ensures
            r == self.pin,
    {
        self.pin
    }
}

/// A controller that runs a trackpad device and routes what it reads to the
/// central's HID reports or across the split link.
pub struct Iqs9151KeyboardController<DEVICE> {
    pub device: DEVICE,
    pub target: Iqs9151ControllerTarget,
}

impl<DEVICE> Iqs9151KeyboardController<DEVICE> {
    /// The controller on the central: motion becomes mouse reports.
    pub fn new_central(device: DEVICE) -> (r: Self)
        ensures
            r.device == device,
            r.target == Iqs9151ControllerTarget::HidReport,
    {
        Iqs9151KeyboardController { device, target: Iqs9151ControllerTarget::HidReport }
    }

    /// The controller on a peripheral: motion goes across the split link.
    pub fn new_peripheral(device: DEVICE) -> (r: Self)
        ensures
            r.device == device,
            r.target == Iqs9151ControllerTarget::SplitEvent,
    {
        Iqs9151KeyboardController { device, target: Iqs9151ControllerTarget::SplitEvent }
    }

    /// Give the device back.
    pub fn release(self) -> (r: DEVICE)
        ensures
            r == self.device,
    {
        self.device
    }
}

/// The central's controller for custom events that arrive over the split
/// link.
#[derive(Clone, Copy, Debug, Default, PartialEq, Eq, Structural)]
pub struct Iqs9151SplitEventController;

impl Iqs9151SplitEventController {
    /// The split-event controller.
    pub fn new() -> (r: Self) {
        Iqs9151SplitEventController
    }

    /// Where it routes the custom events it receives: to HID reports.
    pub fn target(&self) -> (r: Iqs9151ControllerTarget)
        ensures
            r == Iqs9151ControllerTarget::HidReport,
    {
        Iqs9151ControllerTarget::HidReport
    }
}

} // verus!
