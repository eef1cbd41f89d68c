//! What the chip's receive FIFO hands out: a stream of chunks, each either a
//! piece of a packet with its flags or a measurement.

use vstd::prelude::*;

verus! {

/// The flags that come with a piece of a packet.
#[derive(Clone, Copy, Debug, PartialEq, Eq, Structural)]
pub struct FIFODataRXFlags {
    /// The piece begins a packet.
    pub pktstart: bool,
    /// The piece ends a packet.
    pub pktend: bool,
    /// The packet did not end on a byte boundary.
    pub residue: bool,
    /// The chip's own checksum test failed.
    pub crcfail: bool,
    /// The packet is addressed to someone else.
    pub addrfail: bool,
    /// The packet's length is not acceptable.
    pub sizefail: bool,
    /// The sender aborted the packet.
    pub abort: bool,
}

impl FIFODataRXFlags {
    /// No flag set.
    pub fn empty() -> (flags: FIFODataRXFlags)
        ensures
            flags == (FIFODataRXFlags {
                pktstart: false,
                pktend: false,
                residue: false,
                crcfail: false,
                addrfail: false,
                sizefail: false,
                abort: false,
            }),
    {
        FIFODataRXFlags {
            pktstart: false,
            pktend: false,
            residue: false,
            crcfail: false,
            addrfail: false,
            sizefail: false,
            abort: false,
        }
    }

    /// Whether one of the flags is set that make the packet worthless:
    /// abort, size, address or checksum failure, or residue.
    pub open spec fn rejects(self) -> bool {
        self.abort || self.sizefail || self.addrfail || self.crcfail || self.residue
    }

    /// Computes `rejects`.
    pub fn is_reject(&self) -> (r: bool)
        ensures
            r == self.rejects(),
    {
        self.abort || self.sizefail || self.addrfail || self.crcfail || self.residue
    }

    /// The flags of a flag byte: bit 0 is packet start, then packet end,
    /// residue, checksum failure, address failure, size failure and, in bit
    /// 6, abort. Bit 7 has no meaning.
    pub open spec fn of_byte(byte: u8) -> FIFODataRXFlags {
        FIFODataRXFlags {
            pktstart: byte % 2 == 1,
            pktend: (byte / 2) % 2 == 1,
            residue: (byte / 4) % 2 == 1,
            crcfail: (byte / 8) % 2 == 1,
            addrfail: (byte / 16) % 2 == 1,
            sizefail: (byte / 32) % 2 == 1,
            abort: (byte / 64) % 2 == 1,
        }
    }

    /// Computes `of_byte`.
    #[verifier::when_used_as_spec(of_byte)]
    pub fn from_bits(byte: u8) -> (flags: FIFODataRXFlags)
        ensures
            flags == Self::of_byte(byte),
    {
        FIFODataRXFlags {
            pktstart: byte % 2 == 1,
            pktend: (byte / 2) % 2 == 1,
            residue: (byte / 4) % 2 == 1,
            crcfail: (byte / 8) % 2 == 1,
            addrfail: (byte / 16) % 2 == 1,
            sizefail: (byte / 32) % 2 == 1,
            abort: (byte / 64) % 2 == 1,
        }
    }
}

/// One chunk read from the receive FIFO.
#[derive(Clone, Debug, PartialEq, Eq)]
pub enum FIFOChunkRX {
    /// A piece of a packet.
    DATA { flags: FIFODataRXFlags, data: Vec<u8> },
    /// Signal strength.
    RSSI(u8),
    /// Frequency offset.
    FREQOFFS(u16),
    /// Signal strength and background noise.
    ANTRSSI2 { rssi: u8, bgndnoise: u8 },
    /// Time stamp.
    TIMER(u32),
    /// RF frequency offset.
    RFFREQOFFS(u32),
    /// Data rate.
    DATARATE(u32),
    /// Signal strength of both antennas and background noise.
    ANTRSSI3 { ant0rssi: u8, ant1rssi: u8, bgndnoise: u8 },
}

/// A chunk as a value: the same, with the payload as a sequence.
pub enum ChunkModel {
    DATA { flags: FIFODataRXFlags, data: Seq<u8> },
    RSSI(u8),
    FREQOFFS(u16),
    ANTRSSI2 { rssi: u8, bgndnoise: u8 },
    TIMER(u32),
    RFFREQOFFS(u32),
    DATARATE(u32),
    ANTRSSI3 { ant0rssi: u8, ant1rssi: u8, bgndnoise: u8 },
}

impl View for FIFOChunkRX {
    type V = ChunkModel;

    open spec fn view(&self) -> ChunkModel {
        match *self {
            FIFOChunkRX::DATA { flags, data } => ChunkModel::DATA { flags, data: data@ },
            FIFOChunkRX::RSSI(v) => ChunkModel::RSSI(v),
            FIFOChunkRX::FREQOFFS(v) => ChunkModel::FREQOFFS(v),
            FIFOChunkRX::ANTRSSI2 { rssi, bgndnoise } => ChunkModel::ANTRSSI2 { rssi, bgndnoise },
            FIFOChunkRX::TIMER(v) => ChunkModel::TIMER(v),
            FIFOChunkRX::RFFREQOFFS(v) => ChunkModel::RFFREQOFFS(v),
            FIFOChunkRX::DATARATE(v) => ChunkModel::DATARATE(v),
            FIFOChunkRX::ANTRSSI3 { ant0rssi, ant1rssi, bgndnoise } => ChunkModel::ANTRSSI3 {
                ant0rssi,
                ant1rssi,
                bgndnoise,
            },
        }
    }
}

/// The chunks of a vector as values.
pub open spec fn chunk_models(chunks: Seq<FIFOChunkRX>) -> Seq<ChunkModel> {
    Seq::new(chunks.len(), |i: int| chunks[i]@)
}

/// Why a read of the FIFO gave no chunks.
#[derive(Clone, Copy, Debug, PartialEq, Eq, Structural)]
pub enum FIFOError {
    /// The chip reports that the FIFO ran over or was read empty.
    Hardware,
    /// The bytes end in the middle of a chunk.
    Truncated,
    /// A chunk begins with a byte that is no chunk header.
    UnknownChunk { header: u8 },
}

/// Header byte of a signal strength chunk.
pub const HEADER_RSSI: u8 = 0x31;

/// Header byte of a frequency offset chunk.
pub const HEADER_FREQOFFS: u8 = 0x52;

/// Header byte of a chunk with signal strength and background noise.
pub const HEADER_ANTRSSI2: u8 = 0x55;

/// Header byte of a time stamp chunk.
pub const HEADER_TIMER: u8 = 0x70;

/// Header byte of an RF frequency offset chunk.
pub const HEADER_RFFREQOFFS: u8 = 0x73;

/// Header byte of a data rate chunk.
pub const HEADER_DATARATE: u8 = 0x74;

/// Header byte of a chunk with the signal strength of both antennas.
pub const HEADER_ANTRSSI3: u8 = 0x75;

/// Header byte of a chunk with a piece of a packet.
pub const HEADER_DATA: u8 = 0xE1;

/// The three bytes from `at` on as one number, the first the most
/// significant.
pub open spec fn word24(bytes: Seq<u8>, at: int) -> int {
    bytes[at] * 0x1_0000 + bytes[at + 1] * 0x100 + bytes[at + 2]
}

/// The chunk that `bytes` begin with, and how many bytes it takes up.
///
/// The first byte says what the chunk is. A measurement has one, two or
/// three bytes after it, as the header's upper three bits say. A piece of a
/// packet has a length byte after the header and then that many bytes: the
/// flags, and the payload. `bytes` is not empty.
pub open spec fn first_chunk(bytes: Seq<u8>) -> Result<(ChunkModel, int), FIFOError> {
    let header = bytes[0];
    if header == HEADER_RSSI {
        if bytes.len() < 2 {
            Err(FIFOError::Truncated)
        } else {
            Ok((ChunkModel::RSSI(bytes[1]), 2))
        }
    } else if header == HEADER_FREQOFFS {
        if bytes.len() < 3 {
            Err(FIFOError::Truncated)
        } else {
            Ok((ChunkModel::FREQOFFS((bytes[1] * 0x100 + bytes[2]) as u16), 3))
        }
    } else if header == HEADER_ANTRSSI2 {
        if bytes.len() < 3 {
            Err(FIFOError::Truncated)
        } else {
            Ok((ChunkModel::ANTRSSI2 { rssi: bytes[1], bgndnoise: bytes[2] }, 3))
        }
    } else if header == HEADER_TIMER {
        if bytes.len() < 4 {
            Err(FIFOError::Truncated)
        } else {
            Ok((ChunkModel::TIMER(word24(bytes, 1) as u32), 4))
        }
    } else if header == HEADER_RFFREQOFFS {
        if bytes.len() < 4 {
            Err(FIFOError::Truncated)
        } else {
            Ok((ChunkModel::RFFREQOFFS(word24(bytes, 1) as u32), 4))
        }
    } else if header == HEADER_DATARATE {
        if bytes.len() < 4 {
            Err(FIFOError::Truncated)
        } else {
            Ok((ChunkModel::DATARATE(word24(bytes, 1) as u32), 4))
        }
    } else if header == HEADER_ANTRSSI3 {
        if bytes.len() < 4 {
            Err(FIFOError::Truncated)
        } else {
            Ok(
                (
                    ChunkModel::ANTRSSI3 {
                        ant0rssi: bytes[1],
                        ant1rssi: bytes[2],
                        bgndnoise: bytes[3],
                    },
                    4,
                ),
            )
        }
    } else if header == HEADER_DATA {
        if bytes.len() < 2 || bytes[1] < 1 || bytes.len() < 2 + bytes[1] {
            Err(FIFOError::Truncated)
        } else {
            Ok(
                (
                    ChunkModel::DATA {
                        flags: FIFODataRXFlags::of_byte(bytes[2]),
                        data: bytes.subrange(3, 2 + bytes[1]),
                    },
                    2 + bytes[1],
                ),
            )
        }
    } else {
        Err(FIFOError::UnknownChunk { header })
    }
}

/// `done` put before what `rest` parsed to, or the error of `rest`.
pub open spec fn after(done: Seq<ChunkModel>, rest: Result<Seq<ChunkModel>, FIFOError>) -> Result<
    Seq<ChunkModel>,
    FIFOError,
> {
    match rest {
        Ok(chunks) => Ok(done + chunks),
        Err(e) => Err(e),
    }
}

/// The chunks that `bytes` consist of, or the first reason why they are not
/// a run of whole chunks.
pub open spec fn parsed(bytes: Seq<u8>) -> Result<Seq<ChunkModel>, FIFOError>
    decreases bytes.len(),
{
    if bytes.len() == 0 {
        Ok(Seq::empty())
    } else {
        match first_chunk(bytes) {
            Err(e) => Err(e),
            Ok((chunk, used)) => if 0 < used <= bytes.len() {
                after(seq![chunk], parsed(bytes.skip(used)))
            } else {
                Err(FIFOError::Truncated)
            },
        }
    }
}

/// A chunk always takes up at least two bytes and no more than there are.
pub proof fn lemma_first_chunk_advances(bytes: Seq<u8>)
    requires
        bytes.len() > 0,
    ensures
        first_chunk(bytes) matches Ok((_, used)) ==> 2 <= used <= bytes.len(),
{
}

/// Reads the chunk that begins at `at`.
fn parse_chunk(bytes: &Vec<u8>, at: usize) -> (r: Result<(FIFOChunkRX, usize), FIFOError>)
    requires
        at < bytes.len(),
    ensures
        match first_chunk(bytes@.skip(at as int)) {
            Ok((chunk, used)) => r matches Ok((c, n)) && c@ == chunk && n == at + used && n
                <= bytes.len(),
            Err(e) => r == Err::<(FIFOChunkRX, usize), FIFOError>(e),
        },
{
    let ghost rest = bytes@.skip(at as int);
    let left = bytes.len() - at;
    assert(forall|k: int| 0 <= k < left ==> #[trigger] rest[k] == bytes@[at + k]);
    let header = bytes[at];
    if header == HEADER_RSSI {
        if left < 2 {
            return Err(FIFOError::Truncated);
        }
        Ok((FIFOChunkRX::RSSI(bytes[at + 1]), at + 2))
    } else if header == HEADER_FREQOFFS {
        if left < 3 {
            return Err(FIFOError::Truncated);
        }
        let v: u16 = (bytes[at + 1] as u16) * 0x100 + (bytes[at + 2] as u16);
        Ok((FIFOChunkRX::FREQOFFS(v), at + 3))
    } else if header == HEADER_ANTRSSI2 {
        if left < 3 {
            return Err(FIFOError::Truncated);
        }
        Ok((FIFOChunkRX::ANTRSSI2 { rssi: bytes[at + 1], bgndnoise: bytes[at + 2] }, at + 3))
    } else if header == HEADER_TIMER || header == HEADER_RFFREQOFFS || header == HEADER_DATARATE {
        if left < 4 {
            return Err(FIFOError::Truncated);
        }
        let v: u32 = (bytes[at + 1] as u32) * 0x1_0000 + (bytes[at + 2] as u32) * 0x100 + (bytes[at
            + 3] as u32);
        if header == HEADER_TIMER {
            Ok((FIFOChunkRX::TIMER(v), at + 4))
        } else if header == HEADER_RFFREQOFFS {
            Ok((FIFOChunkRX::RFFREQOFFS(v), at + 4))
        } else {
            Ok((FIFOChunkRX::DATARATE(v), at + 4))
        }
    } else if header == HEADER_ANTRSSI3 {
        if left < 4 {
            return Err(FIFOError::Truncated);
        }
        Ok(
            (
                FIFOChunkRX::ANTRSSI3 {
                    ant0rssi: bytes[at + 1],
                    ant1rssi: bytes[at + 2],
                    bgndnoise: bytes[at + 3],
                },
                at + 4,
            ),
        )
    } else if header == HEADER_DATA {
        if left < 2 {
            return Err(FIFOError::Truncated);
        }
        let length = bytes[at + 1] as usize;
        if length < 1 || left < 2 + length {
            return Err(FIFOError::Truncated);
        }
        let flags = FIFODataRXFlags::from_bits(bytes[at + 2]);
        let end = at + 2 + length;
        let mut data: Vec<u8> = Vec::new();
        let mut i: usize = at + 3;
        while i < end
            invariant
                at + 3 <= i <= end <= bytes.len(),
                data@ == bytes@.subrange(at + 3, i as int),
            decreases end - i,
        {
            data.push(bytes[i]);
            assert(bytes@.subrange(at + 3, i + 1) == bytes@.subrange(at + 3, i as int).push(
                bytes@[i as int],
            ));
            i = i + 1;
        }
        assert(data@ =~= rest.subrange(3, 2 + length));
        Ok((FIFOChunkRX::DATA { flags, data }, end))
    } else {
        Err(FIFOError::UnknownChunk { header })
    }
}

/// Cuts the bytes read from the FIFO into chunks.
pub fn parse_chunks(bytes: &Vec<u8>) -> (r: Result<Vec<FIFOChunkRX>, FIFOError>)
    ensures
        match parsed(bytes@) {
            Ok(chunks) => r matches Ok(v) && chunk_models(v@) == chunks,
            Err(e) => r == Err::<Vec<FIFOChunkRX>, FIFOError>(e),
        },
{
    let mut chunks: Vec<FIFOChunkRX> = Vec::new();
    let mut at: usize = 0;
    assert(bytes@.skip(0) =~= bytes@);
    assert(chunk_models(chunks@) =~= Seq::<ChunkModel>::empty());
    assert(after(chunk_models(chunks@), parsed(bytes@)) == parsed(bytes@)) by {
        if parsed(bytes@) is Ok {
            let all = parsed(bytes@)->Ok_0;
            assert(Seq::<ChunkModel>::empty() + all =~= all);
        }
    }
    while at < bytes.len()
        invariant
            at <= bytes.len(),
            parsed(bytes@) == after(chunk_models(chunks@), parsed(bytes@.skip(at as int))),
        decreases bytes.len() - at,
    {
        let ghost done = chunk_models(chunks@);
        let ghost rest = bytes@.skip(at as int);
        proof {
            lemma_first_chunk_advances(rest);
        }
        match parse_chunk(bytes, at) {
            Err(e) => {
                return Err(e);
            },
            Ok((chunk, next)) => {
                let ghost model = chunk@;
                chunks.push(chunk);
                proof {
                    assert(rest.skip(next - at) =~= bytes@.skip(next as int));
                    assert(chunk_models(chunks@) =~= done.push(model));
                    if parsed(bytes@.skip(next as int)) is Ok {
                        let tail = parsed(bytes@.skip(next as int))->Ok_0;
                        assert(done + (seq![model] + tail) =~= done.push(model) + tail);
                    }
                }
                at = next;
            },
        }
    }
    proof {
        assert(bytes@.skip(at as int).len() == 0);
        assert(chunk_models(chunks@) + Seq::<ChunkModel>::empty() =~= chunk_models(chunks@));
    }
    Ok(chunks)
}

/// Whether a value of the FIFO status register reports that the FIFO was
/// read empty (bit 2) or ran over (bit 3).
pub open spec fn fault_reported(status: u8) -> bool {
    (status / 4) % 2 == 1 || (status / 8) % 2 == 1
}

/// What one read of the FIFO amounts to: an error if the chip reports a
/// fault in `status`, the value of its FIFO status register; else the
/// chunks that `bytes` consist of.
pub fn read_chunks(status: u8, bytes: &Vec<u8>) -> (r: Result<Vec<FIFOChunkRX>, FIFOError>)
    ensures
        fault_reported(status) ==> r == Err::<Vec<FIFOChunkRX>, FIFOError>(FIFOError::Hardware),
        !fault_reported(status) ==> match parsed(bytes@) {
            Ok(chunks) => r matches Ok(v) && chunk_models(v@) == chunks,
            Err(e) => r == Err::<Vec<FIFOChunkRX>, FIFOError>(e),
        },
{
    if (status / 4) % 2 == 1 || (status / 8) % 2 == 1 {
        Err(FIFOError::Hardware)
    } else {
        parse_chunks(bytes)
    }
}

} // verus!
