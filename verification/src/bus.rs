//! The bytes that go over the serial bus for each register operation, and
//! the status word that comes back with every transfer.
//!
//! Every transfer begins with two address bytes: the upper four bits of
//! the first say whether it reads or writes, its lower four bits and the
//! second byte hold the address. While they go out, the chip's status comes
//! in. Data follows, most significant byte first.

use crate::registers::{ParameterSetImage, Register, RxParamSet};
use vstd::prelude::*;

verus! {

/// Upper four bits of the first address byte of a write.
pub const LONG_WRITE: u8 = 0xF0;

/// Upper four bits of the first address byte of a read.
pub const LONG_READ: u8 = 0x70;

/// Power mode value that holds the chip in reset.
pub const PWRMODE_RESET: u8 = 0x80;

/// Power mode value of the powered-down state, which ends a reset.
pub const PWRMODE_POWERDOWN: u8 = 0x00;

/// Byte `k` of the `width` bytes of `value`, the most significant first.
pub open spec fn data_byte(value: u32, width: int, k: int) -> u8 {
    if width - 1 - k == 3 {
        (value / 0x100_0000) as u8
    } else if width - 1 - k == 2 {
        ((value / 0x1_0000) % 0x100) as u8
    } else if width - 1 - k == 1 {
        ((value / 0x100) % 0x100) as u8
    } else {
        (value % 0x100) as u8
    }
}

/// The two address bytes for `address` under the access code `access`.
pub open spec fn address_bytes(access: u8, address: int) -> Seq<u8> {
    seq![(access + address / 0x100) as u8, (address % 0x100) as u8]
}

/// The transfer that writes `value` to `register`.
pub open spec fn write_frame(register: Register, value: u32) -> Seq<u8> {
    address_bytes(LONG_WRITE, register.address_of()) + Seq::new(
        register.width_of() as nat,
        |k: int| data_byte(value, register.width_of(), k),
    )
}

/// The transfer that reads `register`: the address, and a zero for every
/// byte that is to come back.
pub open spec fn read_frame(register: Register) -> Seq<u8> {
    address_bytes(LONG_READ, register.address_of()) + Seq::new(
        register.width_of() as nat,
        |k: int| 0u8,
    )
}

/// The sixteen bytes of a parameter set in the order of their addresses.
pub open spec fn image_bytes(image: ParameterSetImage) -> Seq<u8> {
    seq![
        image.agc_gain,
        image.agc_target,
        image.agc_hysteresis,
        image.agc_min_max,
        image.time_gain,
        image.datarate_gain,
        image.phase_gain,
        image.freq_gain_a,
        image.freq_gain_b,
        image.freq_gain_c,
        image.freq_gain_d,
        image.amplitude_gain,
        (image.freq_dev / 0x100) as u8,
        (image.freq_dev % 0x100) as u8,
        image.four_fsk,
        image.bb_offset_res,
    ]
}

/// The transfer that stores a parameter set in `slot`.
pub open spec fn parameter_set_frame(slot: RxParamSet, image: ParameterSetImage) -> Seq<u8> {
    address_bytes(LONG_WRITE, slot.base_address()) + image_bytes(image)
}

/// The value that the answer to a read of `register` holds: the bytes after
/// the two status bytes, the first the most significant. There is none if
/// the answer has not the length of the transfer.
pub open spec fn read_value(register: Register, answer: Seq<u8>) -> Option<u32> {
    if answer.len() != 2 + register.width_of() {
        None
    } else if register.width_of() == 1 {
        Some(answer[2] as u32)
    } else if register.width_of() == 2 {
        Some((answer[2] * 0x100 + answer[3]) as u32)
    } else if register.width_of() == 3 {
        Some((answer[2] * 0x1_0000 + answer[3] * 0x100 + answer[4]) as u32)
    } else {
        Some((answer[2] * 0x100_0000 + answer[3] * 0x1_0000 + answer[4] * 0x100 + answer[5]) as u32)
    }
}

/// The status word that came in with a transfer: its first two bytes, the
/// first the more significant. There is none in an answer of less than two
/// bytes.
pub open spec fn status_word(answer: Seq<u8>) -> Option<u16> {
    if answer.len() < 2 {
        None
    } else {
        Some((answer[0] * 0x100 + answer[1]) as u16)
    }
}

/// Adds the two address bytes to `frame`.
fn push_address(frame: &mut Vec<u8>, access: u8, address: u16)
    requires
        access == LONG_WRITE || access == LONG_READ,
        address < 0x1000,
    ensures
        final(frame)@ == old(frame)@ + address_bytes(access, address as int),
{
    frame.push(access + (address / 0x100) as u8);
    frame.push((address % 0x100) as u8);
    assert(frame@ =~= old(frame)@ + address_bytes(access, address as int));
}

/// Builds the transfer that writes `value` to `register`.
pub fn frame_write(register: Register, value: u32) -> (frame: Vec<u8>)
    ensures
        frame@ == write_frame(register, value),
{
    let mut frame: Vec<u8> = Vec::new();
    push_address(&mut frame, LONG_WRITE, register.address());
    let width = register.width();
    if width >= 4 {
        frame.push((value / 0x100_0000) as u8);
    }
    if width >= 3 {
        frame.push(((value / 0x1_0000) % 0x100) as u8);
    }
    if width >= 2 {
        frame.push(((value / 0x100) % 0x100) as u8);
    }
    frame.push((value % 0x100) as u8);
    assert(frame@ =~= write_frame(register, value));
    frame
}

/// Builds the transfer that reads `register`.
pub fn frame_read(register: Register) -> (frame: Vec<u8>)
    ensures
        frame@ == read_frame(register),
{
    let mut frame: Vec<u8> = Vec::new();
    push_address(&mut frame, LONG_READ, register.address());
    let width = register.width();
    let mut k: u8 = 0;
    while k < width
        invariant
            k <= width,
            width == register.width_of(),
            frame@ == address_bytes(LONG_READ, register.address_of()) + Seq::new(
                k as nat,
                |j: int| 0u8,
            ),
        decreases width - k,
    {
        frame.push(0);
        k = k + 1;
        assert(frame@ =~= address_bytes(LONG_READ, register.address_of()) + Seq::new(
            k as nat,
            |j: int| 0u8,
        ));
    }
    frame
}

/// Builds the transfer that stores `image` in `slot`.
pub fn frame_parameter_set(slot: RxParamSet, image: &ParameterSetImage) -> (frame: Vec<u8>)
    ensures
        frame@ == parameter_set_frame(slot, *image),
{
    let mut frame: Vec<u8> = Vec::new();
    push_address(&mut frame, LONG_WRITE, slot.bank_address());
    let mut bytes: Vec<u8> = vec![
        image.agc_gain,
        image.agc_target,
        image.agc_hysteresis,
        image.agc_min_max,
        image.time_gain,
        image.datarate_gain,
        image.phase_gain,
        image.freq_gain_a,
        image.freq_gain_b,
        image.freq_gain_c,
        image.freq_gain_d,
        image.amplitude_gain,
        (image.freq_dev / 0x100) as u8,
        (image.freq_dev % 0x100) as u8,
        image.four_fsk,
        image.bb_offset_res,
    ];
    assert(bytes@ =~= image_bytes(*image));
    frame.append(&mut bytes);
    frame
}

/// The transfer that reads `count` bytes from the FIFO in one burst.
pub open spec fn fifo_read_frame(count: u16) -> Seq<u8> {
    address_bytes(LONG_READ, Register::FifoData.address_of()) + Seq::new(
        count as nat,
        |k: int| 0u8,
    )
}

/// Builds the transfer that reads `count` bytes from the FIFO.
pub fn frame_fifo_read(count: u16) -> (frame: Vec<u8>)
    ensures
        frame@ == fifo_read_frame(count),
{
    let mut frame: Vec<u8> = Vec::new();
    push_address(&mut frame, LONG_READ, Register::FifoData.address());
    let mut k: u16 = 0;
    while k < count
        invariant
            k <= count,
            frame@ == address_bytes(LONG_READ, Register::FifoData.address_of()) + Seq::new(
                k as nat,
                |j: int| 0u8,
            ),
        decreases count - k,
    {
        frame.push(0);
        k = k + 1;
        assert(frame@ =~= address_bytes(LONG_READ, Register::FifoData.address_of()) + Seq::new(
            k as nat,
            |j: int| 0u8,
        ));
    }
    frame
}

/// What to send for a FIFO that holds `count` bytes: nothing if it is
/// empty, else the transfer that reads all of them.
pub fn fifo_read_plan(count: u16) -> (frame: Option<Vec<u8>>)
    ensures
        count == 0 ==> frame is None,
        count > 0 ==> (frame matches Some(f) && f@ == fifo_read_frame(count)),
{
    if count == 0 {
        None
    } else {
        Some(frame_fifo_read(count))
    }
}

/// What an answer holds after the two status bytes.
pub open spec fn payload(answer: Seq<u8>) -> Seq<u8> {
    if answer.len() < 2 {
        Seq::empty()
    } else {
        answer.skip(2)
    }
}

/// Takes the bytes after the status out of an answer.
pub fn strip_status(answer: &Vec<u8>) -> (bytes: Vec<u8>)
    ensures
        bytes@ == payload(answer@),
{
    let mut bytes: Vec<u8> = Vec::new();
    let mut i: usize = 2;
    while i < answer.len()
        invariant
            2 <= i,
            i <= answer.len() || answer.len() < 2,
            answer.len() >= 2 ==> bytes@ == answer@.subrange(2, i as int),
            answer.len() < 2 ==> bytes@.len() == 0,
        decreases answer.len() - i,
    {
        bytes.push(answer[i]);
        assert(answer@.subrange(2, i + 1) == answer@.subrange(2, i as int).push(answer@[i as int]));
        i = i + 1;
    }
    assert(bytes@ =~= payload(answer@));
    bytes
}

/// Takes the register's value out of the answer to a read.
pub fn decode_read(register: Register, answer: &Vec<u8>) -> (value: Option<u32>)
    ensures
        value == read_value(register, answer@),
{
    let width = register.width() as usize;
    if answer.len() != 2 + width {
        return None;
    }
    if width == 1 {
        Some(answer[2] as u32)
    } else if width == 2 {
        Some((answer[2] as u32) * 0x100 + (answer[3] as u32))
    } else if width == 3 {
        Some((answer[2] as u32) * 0x1_0000 + (answer[3] as u32) * 0x100 + (answer[4] as u32))
    } else {
        Some(
            (answer[2] as u32) * 0x100_0000 + (answer[3] as u32) * 0x1_0000 + (answer[4] as u32)
                * 0x100 + (answer[5] as u32),
        )
    }
}

/// Takes the status word out of the answer to any transfer.
pub fn decode_status(answer: &Vec<u8>) -> (status: Option<u16>)
    ensures
        status == status_word(answer@),
{
    if answer.len() < 2 {
        None
    } else {
        Some((answer[0] as u16) * 0x100 + (answer[1] as u16))
    }
}

/// The silicon revision that this driver is written for.
pub const EXPECTED_REVISION: u8 = 0x51;

/// Why the chip on the bus cannot be used.
#[derive(Clone, Copy, Debug, PartialEq, Eq, Structural)]
pub enum BusError {
    /// The chip does not identify itself as the revision that is expected.
    UnexpectedRevision { found: u8, expected: u8 },
}

/// Accepts the value of the revision register if it is the expected one.
pub fn check_revision(revision: u8) -> (r: Result<(), BusError>)
    ensures
        revision == EXPECTED_REVISION ==> r is Ok,
        revision != EXPECTED_REVISION ==> r == Err::<(), BusError>(
            BusError::UnexpectedRevision { found: revision, expected: EXPECTED_REVISION },
        ),
{
    if revision == EXPECTED_REVISION {
        Ok(())
    } else {
        Err(BusError::UnexpectedRevision { found: revision, expected: EXPECTED_REVISION })
    }
}

/// Remembers the status that was seen last, so that a change can be told
/// from a repetition.
#[derive(Clone, Copy, Debug, PartialEq, Eq, Structural)]
pub struct StatusWatcher {
    pub last: u16,
}

impl StatusWatcher {
    /// A watcher that has seen no status flag yet.
    pub fn new() -> (watcher: StatusWatcher)
        ensures
            watcher.last == 0,
    {
        StatusWatcher { last: 0 }
    }

    /// Takes the status of a transfer. Gives it back if it differs from the
    /// one before, so that it can be reported, and nothing if it repeats
    /// it.
    pub fn observe(&mut self, status: u16) -> (change: Option<u16>)
        ensures
            final(self).last == status,
            status != old(self).last ==> change == Some(status),
            status == old(self).last ==> change is None,
    {
        if status != self.last {
            self.last = status;
            Some(status)
        } else {
            None
        }
    }
}

} // verus!
