use ax5043::fifo::{parse_chunks, read_chunks, FIFOChunkRX, FIFODataRXFlags, FIFOError};
use ax5043::packet::{read_packet, ChunkEvent, PacketBuffer};

#[test]
fn flag_byte_is_read_bit_by_bit() {
    let none = FIFODataRXFlags::empty();
    assert_eq!(FIFODataRXFlags::from_bits(0x00), none);
    assert_eq!(FIFODataRXFlags::from_bits(0x01), FIFODataRXFlags { pktstart: true, ..none });
    assert_eq!(FIFODataRXFlags::from_bits(0x02), FIFODataRXFlags { pktend: true, ..none });
    assert_eq!(FIFODataRXFlags::from_bits(0x04), FIFODataRXFlags { residue: true, ..none });
    assert_eq!(FIFODataRXFlags::from_bits(0x08), FIFODataRXFlags { crcfail: true, ..none });
    assert_eq!(FIFODataRXFlags::from_bits(0x10), FIFODataRXFlags { addrfail: true, ..none });
    assert_eq!(FIFODataRXFlags::from_bits(0x20), FIFODataRXFlags { sizefail: true, ..none });
    assert_eq!(FIFODataRXFlags::from_bits(0x40), FIFODataRXFlags { abort: true, ..none });
    assert_eq!(FIFODataRXFlags::from_bits(0x80), none);
    assert_eq!(
        FIFODataRXFlags::from_bits(0x03),
        FIFODataRXFlags { pktstart: true, pktend: true, ..none }
    );
    assert_eq!(
        FIFODataRXFlags::from_bits(0xFF),
        FIFODataRXFlags {
            pktstart: true,
            pktend: true,
            residue: true,
            crcfail: true,
            addrfail: true,
            sizefail: true,
            abort: true,
        }
    );
}

#[test]
fn nothing_parses_to_nothing() {
    assert_eq!(parse_chunks(&vec![]), Ok(vec![]));
}

#[test]
fn data_chunk_has_length_flags_and_payload() {
    let bytes = vec![0xE1, 0x03, 0x01, b'A', b'B'];
    assert_eq!(
        parse_chunks(&bytes),
        Ok(vec![FIFOChunkRX::DATA {
            flags: FIFODataRXFlags { pktstart: true, ..FIFODataRXFlags::empty() },
            data: b"AB".to_vec(),
        }])
    );
}

#[test]
fn data_chunk_may_hold_flags_alone() {
    assert_eq!(
        parse_chunks(&vec![0xE1, 0x01, 0x40]),
        Ok(vec![FIFOChunkRX::DATA {
            flags: FIFODataRXFlags { abort: true, ..FIFODataRXFlags::empty() },
            data: vec![],
        }])
    );
}

#[test]
fn measurements_are_read_most_significant_byte_first() {
    let bytes = vec![
        0x31, 0x2A, // signal strength
        0x52, 0x12, 0x34, // frequency offset
        0x55, 0x01, 0x02, // signal strength and noise
        0x70, 0x01, 0x02, 0x03, // timer
        0x73, 0x0A, 0x0B, 0x0C, // RF frequency offset
        0x74, 0xFF, 0xFF, 0xFF, // data rate
        0x75, 0x07, 0x08, 0x09, // both antennas
    ];
    assert_eq!(
        parse_chunks(&bytes),
        Ok(vec![
            FIFOChunkRX::RSSI(0x2A),
            FIFOChunkRX::FREQOFFS(0x1234),
            FIFOChunkRX::ANTRSSI2 { rssi: 1, bgndnoise: 2 },
            FIFOChunkRX::TIMER(0x010203),
            FIFOChunkRX::RFFREQOFFS(0x0A0B0C),
            FIFOChunkRX::DATARATE(0xFFFFFF),
            FIFOChunkRX::ANTRSSI3 { ant0rssi: 7, ant1rssi: 8, bgndnoise: 9 },
        ])
    );
}

#[test]
fn chunks_follow_each_other() {
    let bytes = vec![0xE1, 0x03, 0x01, b'A', b'B', 0x31, 0x10, 0xE1, 0x02, 0x02, b'C'];
    let chunks = parse_chunks(&bytes).unwrap();
    assert_eq!(chunks.len(), 3);
    assert_eq!(chunks[1], FIFOChunkRX::RSSI(0x10));
    assert_eq!(
        chunks[2],
        FIFOChunkRX::DATA {
            flags: FIFODataRXFlags { pktend: true, ..FIFODataRXFlags::empty() },
            data: b"C".to_vec(),
        }
    );
}

#[test]
fn bytes_that_end_inside_a_chunk_are_an_error() {
    assert_eq!(parse_chunks(&vec![0x31]), Err(FIFOError::Truncated));
    assert_eq!(parse_chunks(&vec![0x52, 0x01]), Err(FIFOError::Truncated));
    assert_eq!(parse_chunks(&vec![0x55, 0x01]), Err(FIFOError::Truncated));
    assert_eq!(parse_chunks(&vec![0x70, 0x01, 0x02]), Err(FIFOError::Truncated));
    assert_eq!(parse_chunks(&vec![0x73, 0x01, 0x02]), Err(FIFOError::Truncated));
    assert_eq!(parse_chunks(&vec![0x74]), Err(FIFOError::Truncated));
    assert_eq!(parse_chunks(&vec![0x75, 0x01, 0x02]), Err(FIFOError::Truncated));
    assert_eq!(parse_chunks(&vec![0xE1]), Err(FIFOError::Truncated));
    assert_eq!(parse_chunks(&vec![0xE1, 0x03, 0x01, b'A']), Err(FIFOError::Truncated));
    // a whole chunk first does not help
    assert_eq!(parse_chunks(&vec![0x31, 0x01, 0xE1, 0x02, 0x01]), Err(FIFOError::Truncated));
}

#[test]
fn data_chunk_without_a_flag_byte_is_an_error() {
    assert_eq!(parse_chunks(&vec![0xE1, 0x00]), Err(FIFOError::Truncated));
    assert_eq!(parse_chunks(&vec![0xE1, 0x00, 0x31, 0x00]), Err(FIFOError::Truncated));
}

#[test]
fn unknown_header_is_an_error_that_names_it() {
    assert_eq!(parse_chunks(&vec![0x00]), Err(FIFOError::UnknownChunk { header: 0x00 }));
    assert_eq!(
        parse_chunks(&vec![0x31, 0x01, 0xE0, 0x01]),
        Err(FIFOError::UnknownChunk { header: 0xE0 })
    );
}

#[test]
fn longest_data_chunk() {
    let mut bytes = vec![0xE1, 0xFF, 0x03];
    bytes.extend(std::iter::repeat(0x5A).take(254));
    let chunks = parse_chunks(&bytes).unwrap();
    assert_eq!(chunks.len(), 1);
    match &chunks[0] {
        FIFOChunkRX::DATA { flags, data } => {
            assert!(flags.pktstart && flags.pktend);
            assert_eq!(data.len(), 254);
        }
        other => panic!("not a data chunk: {:?}", other),
    }
}

#[test]
fn parsed_bytes_go_straight_into_reassembly() {
    let crc = crc::Crc::<u16>::new(&crc::CRC_16_GENIBUS).checksum(b"ABCD");
    let bytes = vec![
        0xE1, 0x03, 0x01, b'A', b'B',
        0xE1, 0x05, 0x02, b'C', b'D', (crc >> 8) as u8, (crc & 0xFF) as u8,
    ];
    let mut buffer = PacketBuffer::new();
    let outcomes = read_packet(&parse_chunks(&bytes), &mut buffer);
    assert_eq!(outcomes.len(), 2);
    assert_eq!(outcomes[1].event, ChunkEvent::Forwarded(b"ABCD".to_vec()));
    // a read that cannot be parsed clears the buffer
    read_packet(&parse_chunks(&vec![0xE1, 0x03, 0x01, b'A', b'B']), &mut buffer);
    assert_eq!(buffer.len(), 2);
    let outcomes = read_packet(&parse_chunks(&vec![0xE1, 0x09]), &mut buffer);
    assert!(outcomes.is_empty());
    assert_eq!(buffer.len(), 0);
}

#[test]
fn reported_fault_goes_before_the_bytes() {
    let bytes = vec![0x31, 0x2A];
    assert_eq!(read_chunks(0x00, &bytes), Ok(vec![FIFOChunkRX::RSSI(0x2A)]));
    assert_eq!(read_chunks(0x03, &bytes), Ok(vec![FIFOChunkRX::RSSI(0x2A)]));
    assert_eq!(read_chunks(0x04, &bytes), Err(FIFOError::Hardware));
    assert_eq!(read_chunks(0x08, &bytes), Err(FIFOError::Hardware));
    assert_eq!(read_chunks(0x0C, &vec![]), Err(FIFOError::Hardware));
    assert_eq!(read_chunks(0xF3, &vec![0x31]), Err(FIFOError::Truncated));
}
