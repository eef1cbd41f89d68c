//! Reassembly of packets from the pieces that the FIFO hands out, and the
//! test of the checksum that trails each packet.

use crate::fifo::{chunk_models, ChunkModel, FIFOChunkRX, FIFODataRXFlags, FIFOError};
use vstd::prelude::*;

verus! {

/// The CRC-16/GENIBUS checksum of `data`: what the `crc` crate computes for
/// its `CRC_16_GENIBUS` algorithm (polynomial 0x1021, start value 0xFFFF,
/// no reflection, final inversion).
pub uninterp spec fn crc16_genibus(data: Seq<u8>) -> u16;

/// Computes the CRC-16/GENIBUS checksum of `data` with
/// `crc::Crc::<u16>::checksum` on the catalogue's `CRC_16_GENIBUS`. The
/// contract gives the result its name and claims nothing else of it.
#[verifier::external_body]
fn checksum(data: &[u8]) -> (crc: u16)
    ensures
        crc == crc16_genibus(data@),
{
    crc::Crc::<u16>::new(&crc::CRC_16_GENIBUS).checksum(data)
}

/// Whether a packet is being put together.
#[derive(Clone, Copy, Debug, PartialEq, Eq, Structural)]
pub enum ReassemblyState {
    /// No packet has begun.
    Empty,
    /// A packet has begun and has not ended.
    Accumulating,
}

/// The packet under construction. It never outlives the packet: it is
/// cleared when the packet is complete, rejected or begun anew.
#[derive(Debug)]
pub struct PacketBuffer {
    state: ReassemblyState,
    bytes: Vec<u8>,
}

/// A packet buffer as a value.
pub struct BufferModel {
    pub state: ReassemblyState,
    pub bytes: Seq<u8>,
}

impl View for PacketBuffer {
    type V = BufferModel;

    closed spec fn view(&self) -> BufferModel {
        BufferModel { state: self.state, bytes: self.bytes@ }
    }
}

/// What became of a chunk.
#[derive(Clone, Debug, PartialEq, Eq)]
pub enum ChunkEvent {
    /// The chunk is a measurement and no piece of a packet.
    Skipped,
    /// The chunk carries a reject flag. The packet under construction, of
    /// `dropped` bytes, is discarded.
    Rejected { flags: FIFODataRXFlags, dropped: usize },
    /// The chunk continues a packet, and none has begun. It is discarded.
    InvalidContinuation,
    /// The chunk's bytes were added to the packet, which goes on.
    Accumulated,
    /// The packet is complete and its checksum is right. Here it is,
    /// without the checksum.
    Forwarded(Vec<u8>),
    /// The packet is complete and its checksum is wrong. It is dropped.
    ChecksumMismatch { received: u16, calculated: u16 },
    /// The packet ended before it held a checksum. It is dropped.
    Truncated { length: usize },
}

/// What became of a chunk, and whether it cut a packet short.
#[derive(Clone, Debug, PartialEq, Eq)]
pub struct ChunkOutcome {
    /// The chunk begins a packet while bytes of an earlier one were still
    /// waiting for their end; they are dropped.
    pub restarted: bool,
    pub event: ChunkEvent,
}

/// An event as a value.
pub enum EventModel {
    Skipped,
    Rejected { flags: FIFODataRXFlags, dropped: nat },
    InvalidContinuation,
    Accumulated,
    Forwarded(Seq<u8>),
    ChecksumMismatch { received: u16, calculated: u16 },
    Truncated { length: nat },
}

/// An outcome as a value.
pub struct OutcomeModel {
    pub restarted: bool,
    pub event: EventModel,
}

impl View for ChunkEvent {
    type V = EventModel;

    open spec fn view(&self) -> EventModel {
        match *self {
            ChunkEvent::Skipped => EventModel::Skipped,
            ChunkEvent::Rejected { flags, dropped } => EventModel::Rejected {
                flags,
                dropped: dropped as nat,
            },
            ChunkEvent::InvalidContinuation => EventModel::InvalidContinuation,
            ChunkEvent::Accumulated => EventModel::Accumulated,
            ChunkEvent::Forwarded(packet) => EventModel::Forwarded(packet@),
            ChunkEvent::ChecksumMismatch { received, calculated } => EventModel::ChecksumMismatch {
                received,
                calculated,
            },
            ChunkEvent::Truncated { length } => EventModel::Truncated { length: length as nat },
        }
    }
}

impl View for ChunkOutcome {
    type V = OutcomeModel;

    open spec fn view(&self) -> OutcomeModel {
        OutcomeModel { restarted: self.restarted, event: self.event@ }
    }
}

/// The outcomes of a vector as values.
pub open spec fn outcome_models(outcomes: Seq<ChunkOutcome>) -> Seq<OutcomeModel> {
    Seq::new(outcomes.len(), |i: int| outcomes[i]@)
}

/// The buffer with nothing in it.
pub open spec fn empty_buffer() -> BufferModel {
    BufferModel { state: ReassemblyState::Empty, bytes: Seq::empty() }
}

/// The part of a complete packet that the checksum covers: all but the
/// last two bytes.
pub open spec fn covered(bytes: Seq<u8>) -> Seq<u8> {
    if bytes.len() >= 2 {
        bytes.subrange(0, bytes.len() - 2)
    } else {
        bytes
    }
}

/// The checksum that trails a complete packet: its last two bytes, the
/// first of them the more significant.
pub open spec fn trailing(bytes: Seq<u8>) -> int {
    bytes[bytes.len() - 2] * 0x100 + bytes[bytes.len() - 1]
}

/// What becomes of a complete packet `bytes` when the checksum computed
/// over `covered(bytes)` is `calculated`.
pub open spec fn concluded(bytes: Seq<u8>, calculated: u16) -> EventModel {
    if bytes.len() < 2 {
        EventModel::Truncated { length: bytes.len() }
    } else if calculated == trailing(bytes) {
        EventModel::Forwarded(covered(bytes))
    } else {
        EventModel::ChecksumMismatch { received: trailing(bytes) as u16, calculated }
    }
}

/// One step of reassembly: the buffer and the outcome after `chunk`.
///
/// A reject flag clears the buffer. Else a chunk that neither begins a
/// packet nor finds one begun is discarded and changes nothing. Else the
/// chunk's bytes begin the packet anew or are added to it; and if the chunk
/// ends the packet, the packet is concluded and the buffer cleared.
pub open spec fn stepped(buffer: BufferModel, chunk: ChunkModel) -> (BufferModel, OutcomeModel) {
    match chunk {
        ChunkModel::DATA { flags, data } => {
            if flags.rejects() {
                (
                    empty_buffer(),
                    OutcomeModel {
                        restarted: false,
                        event: EventModel::Rejected { flags, dropped: buffer.bytes.len() },
                    },
                )
            } else if !flags.pktstart && buffer.state is Empty {
                (buffer, OutcomeModel { restarted: false, event: EventModel::InvalidContinuation })
            } else {
                let restarted = flags.pktstart && buffer.bytes.len() > 0;
                let bytes = if flags.pktstart {
                    data
                } else {
                    buffer.bytes + data
                };
                if flags.pktend {
                    (
                        empty_buffer(),
                        OutcomeModel {
                            restarted,
                            event: concluded(bytes, crc16_genibus(covered(bytes))),
                        },
                    )
                } else {
                    (
                        BufferModel { state: ReassemblyState::Accumulating, bytes },
                        OutcomeModel { restarted, event: EventModel::Accumulated },
                    )
                }
            }
        },
        _ => (buffer, OutcomeModel { restarted: false, event: EventModel::Skipped }),
    }
}

/// Reassembly over a run of chunks: the buffer after the last of them, and
/// the outcomes in the order of the chunks.
pub open spec fn ran(buffer: BufferModel, chunks: Seq<ChunkModel>) -> (
    BufferModel,
    Seq<OutcomeModel>,
)
    decreases chunks.len(),
{
    if chunks.len() == 0 {
        (buffer, Seq::empty())
    } else {
        let (before, outcomes) = ran(buffer, chunks.drop_last());
        let (after, outcome) = stepped(before, chunks.last());
        (after, outcomes.push(outcome))
    }
}

impl PacketBuffer {
    /// A buffer with nothing in it.
    pub fn new() -> (buffer: PacketBuffer)
        ensures
            buffer@ == empty_buffer(),
    {
        PacketBuffer { state: ReassemblyState::Empty, bytes: Vec::new() }
    }

    /// Whether a packet is being put together.
    pub fn state(&self) -> (state: ReassemblyState)
        ensures
            state == self@.state,
    {
        self.state
    }

    /// How many bytes of the packet are there.
    pub fn len(&self) -> (n: usize)
        ensures
            n == self@.bytes.len(),
    {
        self.bytes.len()
    }

    /// Discards whatever is there.
    pub fn clear(&mut self)
        ensures
            final(self)@ == empty_buffer(),
    {
        self.state = ReassemblyState::Empty;
        self.bytes.clear();
    }

    /// Adds `data` to the packet, after discarding what is there if `anew`.
    fn take_in(&mut self, data: &Vec<u8>, anew: bool)
        ensures
            final(self)@.state == ReassemblyState::Accumulating,
            final(self)@.bytes == if anew {
                data@
            } else {
                old(self)@.bytes + data@
            },
    {
        if anew {
            self.bytes.clear();
        }
        self.state = ReassemblyState::Accumulating;
        let ghost before = self.bytes@;
        let mut i: usize = 0;
        while i < data.len()
            invariant
                i <= data.len(),
                self.bytes@ == before + data@.subrange(0, i as int),
                self.state == ReassemblyState::Accumulating,
            decreases data.len() - i,
        {
            self.bytes.push(data[i]);
            assert(data@.subrange(0, i + 1) == data@.subrange(0, i as int).push(data@[i as int]));
            i = i + 1;
        }
        assert(data@.subrange(0, data@.len() as int) == data@);
        assert(before + data@ =~= if anew {
            data@
        } else {
            old(self)@.bytes + data@
        });
    }

    /// Ends the packet: compares `calculated`, the checksum computed over
    /// all but the last two bytes, with the checksum in those two bytes,
    /// hands the packet out if they agree, and clears the buffer either
    /// way.
    pub fn conclude(&mut self, calculated: u16) -> (event: ChunkEvent)
        ensures
            event@ == concluded(old(self)@.bytes, calculated),
            final(self)@ == empty_buffer(),
    {
        let n = self.bytes.len();
        if n < 2 {
            self.clear();
            return ChunkEvent::Truncated { length: n };
        }
        let received: u16 = (self.bytes[n - 2] as u16) * 0x100 + (self.bytes[n - 1] as u16);
        let event = if calculated == received {
            let mut packet: Vec<u8> = Vec::new();
            core::mem::swap(&mut packet, &mut self.bytes);
            packet.truncate(n - 2);
            ChunkEvent::Forwarded(packet)
        } else {
            ChunkEvent::ChecksumMismatch { received, calculated }
        };
        self.clear();
        event
    }

    /// The checksum over all of the packet but its last two bytes; over all
    /// of it while it is shorter than that.
    fn covered_checksum(&self) -> (crc: u16)
        ensures
            crc == crc16_genibus(covered(self@.bytes)),
    {
        let n = self.bytes.len();
        if n < 2 {
            checksum(self.bytes.as_slice())
        } else {
            checksum(vstd::slice::slice_subrange(self.bytes.as_slice(), 0, n - 2))
        }
    }
}

/// Takes one chunk from the FIFO into the reassembly of packets.
pub fn process_chunk(chunk: &FIFOChunkRX, packet: &mut PacketBuffer) -> (outcome: ChunkOutcome)
    ensures
        (final(packet)@, outcome@) == stepped(old(packet)@, chunk@),
{
    match chunk {
        FIFOChunkRX::DATA { flags, data } => {
            if flags.is_reject() {
                let dropped = packet.len();
                packet.clear();
                return ChunkOutcome {
                    restarted: false,
                    event: ChunkEvent::Rejected { flags: *flags, dropped },
                };
            }
            if !flags.pktstart && matches!(packet.state(), ReassemblyState::Empty) {
                return ChunkOutcome { restarted: false, event: ChunkEvent::InvalidContinuation };
            }
            let restarted = flags.pktstart && packet.len() > 0;
            packet.take_in(data, flags.pktstart);
            if flags.pktend {
                let calculated = packet.covered_checksum();
                let event = packet.conclude(calculated);
                ChunkOutcome { restarted, event }
            } else {
                ChunkOutcome { restarted, event: ChunkEvent::Accumulated }
            }
        },
        _ => ChunkOutcome { restarted: false, event: ChunkEvent::Skipped },
    }
}

/// Takes what one read of the FIFO gave into the reassembly of packets:
/// every chunk in turn, or, where the read failed, nothing but a cleared
/// buffer. A failed read is no reason to stop: the next one starts afresh.
pub fn read_packet(fifo: &Result<Vec<FIFOChunkRX>, FIFOError>, packet: &mut PacketBuffer) -> (outcomes:
    Vec<ChunkOutcome>)
    ensures
        match *fifo {
            Ok(chunks) => (final(packet)@, outcome_models(outcomes@)) == ran(
                old(packet)@,
                chunk_models(chunks@),
            ),
            Err(_) => final(packet)@ == empty_buffer() && outcomes@.len() == 0,
        },
{
    let mut outcomes: Vec<ChunkOutcome> = Vec::new();
    match fifo {
        Ok(chunks) => {
            let ghost models = chunk_models(chunks@);
            let mut i: usize = 0;
            assert(models.take(0) =~= Seq::<ChunkModel>::empty());
            assert(outcome_models(outcomes@) =~= Seq::<OutcomeModel>::empty());
            while i < chunks.len()
                invariant
                    i <= chunks.len(),
                    models == chunk_models(chunks@),
                    (packet@, outcome_models(outcomes@)) == ran(old(packet)@, models.take(i as int)),
                decreases chunks.len() - i,
            {
                let ghost before = outcomes@;
                let outcome = process_chunk(&chunks[i], packet);
                let ghost model = outcome@;
                outcomes.push(outcome);
                proof {
                    let next = models.take(i + 1);
                    assert(next.drop_last() =~= models.take(i as int));
                    assert(next.last() == chunks@[i as int]@);
                    assert(outcome_models(outcomes@) =~= outcome_models(before).push(model));
                }
                i = i + 1;
            }
            assert(models.take(chunks@.len() as int) =~= models);
        },
        Err(_) => {
            packet.clear();
        },
    }
    outcomes
}

impl BufferModel {
    /// Whether the buffer holds bytes only while a packet is under way.
    pub open spec fn wf(self) -> bool {
        self.state is Empty ==> self.bytes.len() == 0
    }
}

/// Reassembly keeps the buffer well formed, and a chunk that ends a packet
/// or is rejected leaves the buffer empty: nothing of a packet that is
/// complete or rejected stays behind.
pub proof fn lemma_buffer_cleared(buffer: BufferModel, chunk: ChunkModel)
    requires
        buffer.wf(),
    ensures
        stepped(buffer, chunk).0.wf(),
        chunk matches ChunkModel::DATA { flags, .. } && (flags.rejects() || (flags.pktend && (
            flags.pktstart || buffer.state is Accumulating))) ==> stepped(buffer, chunk).0
            == empty_buffer(),
{
}

/// A packet is handed on only if its checksum is right: a complete packet
/// whose trailing checksum differs from the one computed gives a mismatch
/// that names both, and no packet.
pub proof fn lemma_wrong_checksum_forwards_nothing(bytes: Seq<u8>, calculated: u16)
    requires
        bytes.len() >= 2,
        calculated != trailing(bytes),
    ensures
        concluded(bytes, calculated) == (EventModel::ChecksumMismatch {
            received: trailing(bytes) as u16,
            calculated,
        }),
{
}

/// A packet whose checksum is right is handed on whole and without its
/// checksum.
pub proof fn lemma_right_checksum_forwards_packet(bytes: Seq<u8>, calculated: u16)
    requires
        bytes.len() >= 2,
        calculated == trailing(bytes),
    ensures
        concluded(bytes, calculated) == EventModel::Forwarded(bytes.subrange(0, bytes.len() - 2)),
{
}

/// A rejected chunk in the middle of a packet discards what was gathered,
/// and a chunk that then begins a packet begins it clean: the buffer holds
/// that chunk's bytes and no others, and the chunk is not taken for a
/// restart.
pub proof fn lemma_reject_then_start_is_clean(
    buffer: BufferModel,
    rejected: ChunkModel,
    start: ChunkModel,
)
    requires
        rejected matches ChunkModel::DATA { flags, .. } && flags.rejects(),
        start matches ChunkModel::DATA { flags, .. } && flags.pktstart && !flags.rejects(),
    ensures
        ({
            let (cleared, first) = stepped(buffer, rejected);
            let (begun, second) = stepped(cleared, start);
            &&& cleared == empty_buffer()
            &&& first.event is Rejected
            &&& !second.restarted
            &&& !start->DATA_flags.pktend ==> begun == (BufferModel {
                state: ReassemblyState::Accumulating,
                bytes: start->DATA_data,
            }) && second.event is Accumulated
            &&& start->DATA_flags.pktend ==> begun == empty_buffer() && second.event == concluded(
                start->DATA_data,
                crc16_genibus(covered(start->DATA_data)),
            )
        }),
{
}

/// A chunk that does not begin a packet changes nothing while no packet
/// has begun: the state stays empty and no packet is handed on. Without a
/// reject flag the buffer is left exactly as it was.
pub proof fn lemma_continuation_while_empty(buffer: BufferModel, chunk: ChunkModel)
    requires
        buffer.state is Empty,
        chunk matches ChunkModel::DATA { flags, .. } && !flags.pktstart,
    ensures
        ({
            let (after, outcome) = stepped(buffer, chunk);
            &&& after.state is Empty
            &&& !(outcome.event is Forwarded)
            &&& !outcome.restarted
            &&& !chunk->DATA_flags.rejects() ==> after == buffer && outcome.event
                is InvalidContinuation
        }),
{
}

} // verus!
