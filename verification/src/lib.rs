//! Driver logic for a register-programmable packet-radio transceiver.
//!
//! The crate decides what is written to the chip and what is done with what
//! comes back; it never touches a bus, a pin or a socket itself. Bring-up
//! code records register operations in a `Registers`; the owner of the bus
//! replays them. Received FIFO chunks go through `packet`, and the receive
//! loop asks `event_loop` what to do next.

pub mod board;
pub mod bus;
pub mod channel;
pub mod config_rpi;
pub mod event_loop;
pub mod fifo;
pub mod fixed;
pub mod lband;
pub mod packet;
pub mod paramset;
pub mod pktformat;
pub mod presets;
pub mod receiver;
pub mod registers;
pub mod stages;
pub mod synth;
pub mod transmit;

pub use board::{AntSel, Board, DClk, Data, Pin, PwrAmp, SysClk, Xtal, XtalKind, IRQ, VCO};
pub use bus::{BusError, StatusWatcher};
pub use channel::{
    BitOrder, ChannelParameters, Encoding, Framing, Modulation, SlowRamp, BT, CRC, FEC,
};
pub use event_loop::{Action, Event, EventLoop};
pub use fifo::{FIFOChunkRX, FIFODataRXFlags, FIFOError};
pub use packet::{process_chunk, read_packet, ChunkEvent, ChunkOutcome, PacketBuffer};
pub use paramset::{
    Gain, RXParameterAGC, RXParameterBasebandOffset, RXParameterFreq, RXParameterGain,
    RXParameterSet,
};
pub use receiver::{RXParameters, ReceiverProfile};
pub use registers::{
    ConfigurationError, FreqReg, Operation, ParameterSetImage, Register, Registers, RxParamSet,
};
pub use stages::{
    Float5, PatternMatch0, PatternMatch1, Preamble1, Preamble2, Preamble3, RXParameterStages,
};
pub use synth::{
    CalibrationError, Control, LoopFilter, RangingClock, RangingPoll, RangingStep, Synthesizer, PLL,
};
pub use transmit::{AmplitudeShaping, Antenna, TXParameters};
