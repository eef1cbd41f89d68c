//! Named configurations of boards, synthesizers and channels.

use crate::board::{AntSel, Board, DClk, Data, Pin, PwrAmp, SysClk, Xtal, XtalKind, IRQ, VCO};
use crate::channel::{
    BitOrder, ChannelParameters, Encoding, Framing, Modulation, SlowRamp, BT, CRC, FEC,
};
use crate::registers::FreqReg;
use crate::synth::{Control, LoopFilter, RangingClock, Synthesizer, PLL};
use vstd::prelude::*;

verus! {

/// The L-band receiver card: a 16 MHz oscillator, the system clock handed
/// on undivided, and the power amplifier pin in use.
pub open spec fn c3_lband_model() -> Board {
    Board {
        sysclk: Pin { mode: SysClk::XtalDiv1, pullup: false, invert: false },
        dclk: Pin { mode: DClk::Z, pullup: true, invert: false },
        data: Pin { mode: Data::Z, pullup: true, invert: false },
        pwramp: Pin { mode: PwrAmp::PwrAmp, pullup: false, invert: false },
        irq: Pin { mode: IRQ::IRQ, pullup: false, invert: false },
        antsel: Pin { mode: AntSel::Z, pullup: true, invert: false },
        xtal: Xtal { kind: XtalKind::TCXO, freq: 16_000_000 },
        vco: VCO::Internal,
    }
}

/// Builds `c3_lband_model`.
#[verifier::when_used_as_spec(c3_lband_model)]
pub fn c3_lband() -> (board: Board)
    ensures
        board == c3_lband_model(),
{
    Board {
        sysclk: Pin { mode: SysClk::XtalDiv1, pullup: false, invert: false },
        dclk: Pin { mode: DClk::Z, pullup: true, invert: false },
        data: Pin { mode: Data::Z, pullup: true, invert: false },
        pwramp: Pin { mode: PwrAmp::PwrAmp, pullup: false, invert: false },
        irq: Pin { mode: IRQ::IRQ, pullup: false, invert: false },
        antsel: Pin { mode: AntSel::Z, pullup: true, invert: false },
        xtal: Xtal { kind: XtalKind::TCXO, freq: 16_000_000 },
        vco: VCO::Internal,
    }
}

/// The L-band signal after down-conversion: 457 MHz in register A, B not
/// in use.
pub open spec fn lband_dc_457_model() -> Synthesizer {
    Synthesizer {
        freq_a: 457_000_000,
        freq_b: 0,
        active: FreqReg::A,
        pll: PLL {
            charge_pump_current: 0x02,
            filter_bandwidth: LoopFilter::Internalx1,
            direct: false,
        },
        boost: PLL {
            charge_pump_current: 0xC8,
            filter_bandwidth: LoopFilter::Internalx5,
            direct: false,
        },
        vco_current: Control::Automatic,
        lock_detector_delay: Control::Automatic,
        ranging_clock: RangingClock::XtalDiv1024,
    }
}

/// Builds `lband_dc_457_model`.
#[verifier::when_used_as_spec(lband_dc_457_model)]
pub fn lband_dc_457() -> (synth: Synthesizer)
    ensures
        synth == lband_dc_457_model(),
{
    Synthesizer {
        freq_a: 457_000_000,
        freq_b: 0,
        active: FreqReg::A,
        pll: PLL {
            charge_pump_current: 0x02,
            filter_bandwidth: LoopFilter::Internalx1,
            direct: false,
        },
        boost: PLL {
            charge_pump_current: 0xC8,
            filter_bandwidth: LoopFilter::Internalx5,
            direct: false,
        },
        vco_current: Control::Automatic,
        lock_detector_delay: Control::Automatic,
        ranging_clock: RangingClock::XtalDiv1024,
    }
}

/// Gaussian minimum-shift keying with HDLC framing and a CCITT checksum,
/// scrambled NRZI, least significant bit first, at `datarate` bits per
/// second.
pub open spec fn gmsk_model(datarate: u32) -> ChannelParameters {
    ChannelParameters {
        modulation: Modulation::GMSK { ramp: SlowRamp::Bits1, bt: BT::Half },
        encoding: Encoding {
            invert: true,
            differential: true,
            scramble: true,
            manchester: false,
            nosync: false,
        },
        framing: Framing::HDLC { fec: FEC {  } },
        crc: CRC::CCITT { initial: 0xFFFF },
        datarate,
        bitorder: BitOrder::LSBFirst,
    }
}

/// Builds `gmsk_model`.
#[verifier::when_used_as_spec(gmsk_model)]
pub fn gmsk(datarate: u32) -> (channel: ChannelParameters)
    ensures
        channel == gmsk_model(datarate),
{
    ChannelParameters {
        modulation: Modulation::GMSK { ramp: SlowRamp::Bits1, bt: BT::Half },
        encoding: Encoding::nrzi().scrambled(),
        framing: Framing::HDLC { fec: FEC {  } },
        crc: CRC::CCITT { initial: 0xFFFF },
        datarate,
        bitorder: BitOrder::LSBFirst,
    }
}

/// The channel of the L-band link: 60 000 bits per second.
pub open spec fn gmsk_60000_model() -> ChannelParameters {
    gmsk_model(60_000)
}

/// Builds `gmsk_60000_model`.
#[verifier::when_used_as_spec(gmsk_60000_model)]
pub fn gmsk_60000() -> (channel: ChannelParameters)
    ensures
        channel == gmsk_60000_model(),
{
    gmsk(60_000)
}

} // verus!
