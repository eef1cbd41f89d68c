use ax5043::fifo::{FIFOChunkRX, FIFODataRXFlags, FIFOError};
use ax5043::packet::{
    process_chunk, read_packet, ChunkEvent, ChunkOutcome, PacketBuffer, ReassemblyState,
};

fn flags(pktstart: bool, pktend: bool) -> FIFODataRXFlags {
    FIFODataRXFlags { pktstart, pktend, ..FIFODataRXFlags::empty() }
}

fn data(pktstart: bool, pktend: bool, bytes: &[u8]) -> FIFOChunkRX {
    FIFOChunkRX::DATA { flags: flags(pktstart, pktend), data: bytes.to_vec() }
}

fn genibus(bytes: &[u8]) -> u16 {
    crc::Crc::<u16>::new(&crc::CRC_16_GENIBUS).checksum(bytes)
}

fn with_checksum(bytes: &[u8], covered: &[u8]) -> Vec<u8> {
    let crc = genibus(covered);
    let mut out = bytes.to_vec();
    out.push((crc >> 8) as u8);
    out.push((crc & 0xFF) as u8);
    out
}

fn forwarded(outcomes: &[ChunkOutcome]) -> Vec<Vec<u8>> {
    let mut packets = Vec::new();
    for outcome in outcomes {
        if let ChunkEvent::Forwarded(packet) = &outcome.event {
            packets.push(packet.clone());
        }
    }
    packets
}

#[test]
fn two_chunks_with_right_checksum_forward_one_packet() {
    let mut buffer = PacketBuffer::new();
    let chunks = vec![
        data(true, false, b"AB"),
        data(false, true, &with_checksum(b"CD", b"ABCD")),
    ];
    let outcomes = read_packet(&Ok(chunks), &mut buffer);
    assert_eq!(outcomes.len(), 2);
    assert_eq!(outcomes[0], ChunkOutcome { restarted: false, event: ChunkEvent::Accumulated });
    assert_eq!(
        outcomes[1],
        ChunkOutcome { restarted: false, event: ChunkEvent::Forwarded(b"ABCD".to_vec()) }
    );
    assert_eq!(forwarded(&outcomes), vec![b"ABCD".to_vec()]);
    assert_eq!(buffer.state(), ReassemblyState::Empty);
    assert_eq!(buffer.len(), 0);
}

#[test]
fn two_chunks_with_wrong_checksum_forward_nothing() {
    let mut buffer = PacketBuffer::new();
    let right = genibus(b"ABCD");
    let wrong = right ^ 0x0001;
    let mut tail = b"CD".to_vec();
    tail.push((wrong >> 8) as u8);
    tail.push((wrong & 0xFF) as u8);
    let chunks = vec![data(true, false, b"AB"), data(false, true, &tail)];
    let outcomes = read_packet(&Ok(chunks), &mut buffer);
    assert_eq!(forwarded(&outcomes), Vec::<Vec<u8>>::new());
    assert_eq!(
        outcomes[1].event,
        ChunkEvent::ChecksumMismatch { received: wrong, calculated: right }
    );
    assert_eq!(buffer.state(), ReassemblyState::Empty);
    assert_eq!(buffer.len(), 0);
}

#[test]
fn checksum_is_the_genibus_crc_of_the_bytes_before_it() {
    // the catalogue's check value: CRC-16/GENIBUS of "123456789" is 0xD64E
    let mut buffer = PacketBuffer::new();
    let mut bytes = b"123456789".to_vec();
    bytes.extend_from_slice(&[0xD6, 0x4E]);
    let outcome = process_chunk(&data(true, true, &bytes), &mut buffer);
    assert_eq!(outcome.event, ChunkEvent::Forwarded(b"123456789".to_vec()));
    // the checksum is read most significant byte first
    let mut swapped = b"123456789".to_vec();
    swapped.extend_from_slice(&[0x4E, 0xD6]);
    let outcome = process_chunk(&data(true, true, &swapped), &mut buffer);
    assert_eq!(
        outcome.event,
        ChunkEvent::ChecksumMismatch { received: 0x4ED6, calculated: 0xD64E }
    );
}

#[test]
fn checksum_does_not_cover_itself() {
    // were the two checksum bytes covered too, this would not be forwarded
    let mut buffer = PacketBuffer::new();
    let outcome = process_chunk(&data(true, true, &with_checksum(b"", b"")), &mut buffer);
    assert_eq!(outcome.event, ChunkEvent::Forwarded(Vec::new()));
    assert_eq!(genibus(b""), 0x0000);
}

#[test]
fn reject_in_the_middle_discards_and_the_next_start_is_clean() {
    let mut buffer = PacketBuffer::new();
    process_chunk(&data(true, false, b"stale"), &mut buffer);
    assert_eq!(buffer.len(), 5);

    let crcfail = FIFODataRXFlags { crcfail: true, ..FIFODataRXFlags::empty() };
    let rejected = FIFOChunkRX::DATA { flags: crcfail, data: b"xx".to_vec() };
    let outcome = process_chunk(&rejected, &mut buffer);
    assert_eq!(
        outcome,
        ChunkOutcome { restarted: false, event: ChunkEvent::Rejected { flags: crcfail, dropped: 5 } }
    );
    assert_eq!(buffer.state(), ReassemblyState::Empty);
    assert_eq!(buffer.len(), 0);

    let outcome = process_chunk(&data(true, false, b"AB"), &mut buffer);
    assert_eq!(outcome, ChunkOutcome { restarted: false, event: ChunkEvent::Accumulated });
    assert_eq!(buffer.len(), 2);
    let outcome = process_chunk(&data(false, true, &with_checksum(b"CD", b"ABCD")), &mut buffer);
    assert_eq!(outcome.event, ChunkEvent::Forwarded(b"ABCD".to_vec()));
}

#[test]
fn every_reject_flag_rejects() {
    let none = FIFODataRXFlags::empty();
    let rejecting = [
        FIFODataRXFlags { abort: true, ..none },
        FIFODataRXFlags { sizefail: true, ..none },
        FIFODataRXFlags { addrfail: true, ..none },
        FIFODataRXFlags { crcfail: true, ..none },
        FIFODataRXFlags { residue: true, ..none },
        FIFODataRXFlags { abort: true, pktstart: true, pktend: true, ..none },
    ];
    for flags in rejecting {
        assert!(flags.is_reject());
        let mut buffer = PacketBuffer::new();
        process_chunk(&data(true, false, b"abc"), &mut buffer);
        let chunk = FIFOChunkRX::DATA { flags, data: with_checksum(b"AB", b"AB") };
        let outcome = process_chunk(&chunk, &mut buffer);
        assert_eq!(outcome.event, ChunkEvent::Rejected { flags, dropped: 3 });
        assert_eq!(buffer.state(), ReassemblyState::Empty);
        assert_eq!(buffer.len(), 0);
    }
    assert!(!none.is_reject());
    assert!(!flags(true, true).is_reject());
}

#[test]
fn rejected_chunk_without_bytes_is_handled() {
    let mut buffer = PacketBuffer::new();
    let abort = FIFODataRXFlags { abort: true, ..FIFODataRXFlags::empty() };
    let outcome = process_chunk(&FIFOChunkRX::DATA { flags: abort, data: vec![] }, &mut buffer);
    assert_eq!(outcome.event, ChunkEvent::Rejected { flags: abort, dropped: 0 });
}

#[test]
fn continuation_while_empty_changes_nothing() {
    let mut buffer = PacketBuffer::new();
    let outcome = process_chunk(&data(false, false, b"CD"), &mut buffer);
    assert_eq!(outcome, ChunkOutcome { restarted: false, event: ChunkEvent::InvalidContinuation });
    assert_eq!(buffer.state(), ReassemblyState::Empty);
    assert_eq!(buffer.len(), 0);
    // not even when it claims to end a packet with a checksum that is right
    let outcome = process_chunk(&data(false, true, &with_checksum(b"CD", b"CD")), &mut buffer);
    assert_eq!(outcome.event, ChunkEvent::InvalidContinuation);
    assert_eq!(buffer.state(), ReassemblyState::Empty);
    assert_eq!(buffer.len(), 0);
}

#[test]
fn continuation_after_an_empty_start_is_taken() {
    let mut buffer = PacketBuffer::new();
    let outcome = process_chunk(&data(true, false, b""), &mut buffer);
    assert_eq!(outcome.event, ChunkEvent::Accumulated);
    assert_eq!(buffer.state(), ReassemblyState::Accumulating);
    assert_eq!(buffer.len(), 0);
    let outcome = process_chunk(&data(false, true, &with_checksum(b"AB", b"AB")), &mut buffer);
    assert_eq!(outcome, ChunkOutcome { restarted: false, event: ChunkEvent::Forwarded(b"AB".to_vec()) });
}

#[test]
fn start_in_the_middle_drops_the_earlier_packet() {
    let mut buffer = PacketBuffer::new();
    process_chunk(&data(true, false, b"old"), &mut buffer);
    let outcome = process_chunk(&data(true, false, b"AB"), &mut buffer);
    assert_eq!(outcome, ChunkOutcome { restarted: true, event: ChunkEvent::Accumulated });
    assert_eq!(buffer.len(), 2);
    let outcome = process_chunk(&data(false, true, &with_checksum(b"CD", b"ABCD")), &mut buffer);
    assert_eq!(outcome.event, ChunkEvent::Forwarded(b"ABCD".to_vec()));
}

#[test]
fn packet_in_one_chunk() {
    let mut buffer = PacketBuffer::new();
    let outcome = process_chunk(&data(true, true, &with_checksum(b"ABCD", b"ABCD")), &mut buffer);
    assert_eq!(outcome, ChunkOutcome { restarted: false, event: ChunkEvent::Forwarded(b"ABCD".to_vec()) });
    assert_eq!(buffer.state(), ReassemblyState::Empty);
}

#[test]
fn packet_in_three_chunks() {
    let mut buffer = PacketBuffer::new();
    let chunks = vec![
        data(true, false, b"AB"),
        data(false, false, b"CD"),
        data(false, true, &with_checksum(b"EF", b"ABCDEF")),
    ];
    let outcomes = read_packet(&Ok(chunks), &mut buffer);
    assert_eq!(forwarded(&outcomes), vec![b"ABCDEF".to_vec()]);
}

#[test]
fn checksum_split_over_two_chunks() {
    let mut buffer = PacketBuffer::new();
    let whole = with_checksum(b"ABCD", b"ABCD");
    let chunks = vec![data(true, false, &whole[..5]), data(false, true, &whole[5..])];
    let outcomes = read_packet(&Ok(chunks), &mut buffer);
    assert_eq!(forwarded(&outcomes), vec![b"ABCD".to_vec()]);
}

#[test]
fn packet_too_short_for_a_checksum_is_dropped() {
    let mut buffer = PacketBuffer::new();
    let outcome = process_chunk(&data(true, true, b"A"), &mut buffer);
    assert_eq!(outcome.event, ChunkEvent::Truncated { length: 1 });
    assert_eq!(buffer.state(), ReassemblyState::Empty);
    let outcome = process_chunk(&data(true, true, b""), &mut buffer);
    assert_eq!(outcome.event, ChunkEvent::Truncated { length: 0 });
    assert_eq!(buffer.len(), 0);
}

#[test]
fn measurements_are_skipped() {
    let mut buffer = PacketBuffer::new();
    process_chunk(&data(true, false, b"AB"), &mut buffer);
    for chunk in [
        FIFOChunkRX::RSSI(7),
        FIFOChunkRX::FREQOFFS(1),
        FIFOChunkRX::ANTRSSI2 { rssi: 1, bgndnoise: 2 },
        FIFOChunkRX::TIMER(3),
        FIFOChunkRX::RFFREQOFFS(4),
        FIFOChunkRX::DATARATE(5),
        FIFOChunkRX::ANTRSSI3 { ant0rssi: 1, ant1rssi: 2, bgndnoise: 3 },
    ] {
        let outcome = process_chunk(&chunk, &mut buffer);
        assert_eq!(outcome, ChunkOutcome { restarted: false, event: ChunkEvent::Skipped });
        assert_eq!(buffer.state(), ReassemblyState::Accumulating);
        assert_eq!(buffer.len(), 2);
    }
    let outcome = process_chunk(&data(false, true, &with_checksum(b"CD", b"ABCD")), &mut buffer);
    assert_eq!(outcome.event, ChunkEvent::Forwarded(b"ABCD".to_vec()));
}

#[test]
fn failed_read_clears_the_buffer_and_the_next_read_goes_on() {
    let mut buffer = PacketBuffer::new();
    read_packet(&Ok(vec![data(true, false, b"AB")]), &mut buffer);
    assert_eq!(buffer.len(), 2);
    let outcomes = read_packet(&Err(FIFOError::Hardware), &mut buffer);
    assert!(outcomes.is_empty());
    assert_eq!(buffer.state(), ReassemblyState::Empty);
    assert_eq!(buffer.len(), 0);
    // the rest of the packet that was cut is not taken for a packet
    let outcomes =
        read_packet(&Ok(vec![data(false, true, &with_checksum(b"CD", b"CD"))]), &mut buffer);
    assert_eq!(outcomes[0].event, ChunkEvent::InvalidContinuation);
    let outcomes = read_packet(
        &Ok(vec![data(true, true, &with_checksum(b"ABCD", b"ABCD"))]),
        &mut buffer,
    );
    assert_eq!(forwarded(&outcomes), vec![b"ABCD".to_vec()]);
}

#[test]
fn read_without_chunks_changes_nothing() {
    let mut buffer = PacketBuffer::new();
    read_packet(&Ok(vec![data(true, false, b"AB")]), &mut buffer);
    let outcomes = read_packet(&Ok(vec![]), &mut buffer);
    assert!(outcomes.is_empty());
    assert_eq!(buffer.state(), ReassemblyState::Accumulating);
    assert_eq!(buffer.len(), 2);
}

#[test]
fn one_read_may_hold_several_packets() {
    let mut buffer = PacketBuffer::new();
    let chunks = vec![
        data(true, true, &with_checksum(b"one", b"one")),
        FIFOChunkRX::RSSI(40),
        data(true, false, b"tw"),
        data(false, true, &with_checksum(b"o", b"two")),
        data(true, true, b"bad-crc"),
        data(true, false, b"thr"),
    ];
    let outcomes = read_packet(&Ok(chunks), &mut buffer);
    assert_eq!(outcomes.len(), 6);
    assert_eq!(forwarded(&outcomes), vec![b"one".to_vec(), b"two".to_vec()]);
    assert!(matches!(outcomes[4].event, ChunkEvent::ChecksumMismatch { .. }));
    assert_eq!(buffer.state(), ReassemblyState::Accumulating);
    assert_eq!(buffer.len(), 3);
}

#[test]
fn conclude_compares_with_the_checksum_it_is_given() {
    let mut buffer = PacketBuffer::new();
    process_chunk(&data(true, false, &[b'A', b'B', 0x12, 0x34]), &mut buffer);
    assert_eq!(buffer.conclude(0x1234), ChunkEvent::Forwarded(b"AB".to_vec()));
    assert_eq!(buffer.state(), ReassemblyState::Empty);
    assert_eq!(buffer.len(), 0);

    process_chunk(&data(true, false, &[b'A', b'B', 0x12, 0x34]), &mut buffer);
    assert_eq!(
        buffer.conclude(0x1235),
        ChunkEvent::ChecksumMismatch { received: 0x1234, calculated: 0x1235 }
    );
    assert_eq!(buffer.len(), 0);

    process_chunk(&data(true, false, &[0xFF]), &mut buffer);
    assert_eq!(buffer.conclude(0), ChunkEvent::Truncated { length: 1 });
    assert_eq!(buffer.conclude(0), ChunkEvent::Truncated { length: 0 });
}

#[test]
fn clear_discards_the_packet() {
    let mut buffer = PacketBuffer::new();
    process_chunk(&data(true, false, b"AB"), &mut buffer);
    buffer.clear();
    assert_eq!(buffer.state(), ReassemblyState::Empty);
    assert_eq!(buffer.len(), 0);
}
