//! How received packets are cut up for the FIFO.

use crate::registers::{keeps_calibration, Operation, Register, Registers};
use vstd::prelude::*;

verus! {

/// Longest packet that is accepted, in bytes.
pub const PACKET_MAX_LENGTH: u8 = 0xFF;

/// Length field: at byte 0, with all significant bits counted (0xF).
pub const PACKET_LENGTH_CONFIG: u8 = 0x0F;

/// What is added to the length field to get the packet's length.
pub const PACKET_LENGTH_OFFSET: u8 = 0x09;

/// Chunk size code of the FIFO: code 9 is 240 bytes.
pub const PACKET_CHUNK_SIZE: u8 = 0x09;

/// Accept packets that span more than one chunk.
pub const ACCEPT_LARGE_PACKETS: u8 = 0x20;

/// The writes that set the packet format, with the given reference level
/// for signal strength readings.
pub open spec fn packet_format_operations(rssi_reference: u8) -> Seq<Operation> {
    seq![
        Operation::Write { register: Register::PktMaxLen, value: PACKET_MAX_LENGTH as u32 },
        Operation::Write { register: Register::PktLenCfg, value: PACKET_LENGTH_CONFIG as u32 },
        Operation::Write { register: Register::PktLenOffset, value: PACKET_LENGTH_OFFSET as u32 },
        Operation::Write { register: Register::PktChunkSize, value: PACKET_CHUNK_SIZE as u32 },
        Operation::Write { register: Register::PktAcceptFlags, value: ACCEPT_LARGE_PACKETS as u32 },
        Operation::Write { register: Register::RssiReference, value: rssi_reference as u32 },
    ]
}

/// Setting the packet format leaves the oscillator's calibration as it is.
pub proof fn lemma_packet_format_keeps_calibration(rssi_reference: u8)
    ensures
        keeps_calibration(packet_format_operations(rssi_reference)),
{
}

/// Records the packet format.
pub fn write_packet_format(radio: &mut Registers, rssi_reference: u8)
    ensures
        final(radio)@ =~= old(radio)@ + packet_format_operations(rssi_reference),
{
    radio.write_byte(Register::PktMaxLen, PACKET_MAX_LENGTH);
    radio.write_byte(Register::PktLenCfg, PACKET_LENGTH_CONFIG);
    radio.write_byte(Register::PktLenOffset, PACKET_LENGTH_OFFSET);
    radio.write_byte(Register::PktChunkSize, PACKET_CHUNK_SIZE);
    radio.write_byte(Register::PktAcceptFlags, ACCEPT_LARGE_PACKETS);
    radio.write_byte(Register::RssiReference, rssi_reference);
}

} // verus!
