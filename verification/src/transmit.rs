//! The transmitter: output stage and amplitude shaping.

use crate::channel::ChannelParameters;
use crate::registers::{keeps_calibration, Operation, Register, Registers};
use vstd::prelude::*;

verus! {

/// How the antenna is connected.
#[derive(Clone, Copy, Debug, PartialEq, Eq, Structural)]
pub enum Antenna {
    SingleEnded,
    Differential,
}

/// How the amplitude moves between symbols.
#[derive(Clone, Copy, Debug, PartialEq, Eq, Structural)]
pub enum AmplitudeShaping {
    /// Raised-cosine shaping with the five coefficients of the chip's
    /// pre-distortion polynomial.
    RaisedCosine { a: u16, b: u16, c: u16, d: u16, e: u16 },
}

/// What the transmitter is asked to do.
#[derive(Clone, Copy, Debug, PartialEq, Eq, Structural)]
pub struct TXParameters {
    pub antenna: Antenna,
    pub amp: AmplitudeShaping,
    /// Hold the power amplifier back while the PLL is not locked.
    pub plllock_gate: bool,
    /// Hold the power amplifier back while the supply is too low.
    pub brownout_gate: bool,
}

impl TXParameters {
    /// The output stage register: bit 0 for a differential and bit 1 for a
    /// single-ended antenna, bit 2 for raised-cosine shaping, the channel's
    /// ramp in bits 4 and 5, the PLL gate in bit 6 and the brown-out gate
    /// in bit 7.
    pub open spec fn mod_cfg_a(self, channel: ChannelParameters) -> int {
        (match self.antenna {
            Antenna::Differential => 0x01int,
            Antenna::SingleEnded => 0x02,
        }) + 0x04 + 0x10 * channel.ramp().code_of() + (if self.plllock_gate {
            0x40int
        } else {
            0
        }) + (if self.brownout_gate {
            0x80int
        } else {
            0
        })
    }

    /// The writes that set the transmitter up: the output stage, then the
    /// five shaping coefficients.
    pub open spec fn operations(self, channel: ChannelParameters) -> Seq<Operation> {
        let AmplitudeShaping::RaisedCosine { a, b, c, d, e } = self.amp;
        seq![
            Operation::Write { register: Register::ModCfgA, value: self.mod_cfg_a(channel) as u32 },
            Operation::Write { register: Register::TxPwrCoeffA, value: a as u32 },
            Operation::Write { register: Register::TxPwrCoeffB, value: b as u32 },
            Operation::Write { register: Register::TxPwrCoeffC, value: c as u32 },
            Operation::Write { register: Register::TxPwrCoeffD, value: d as u32 },
            Operation::Write { register: Register::TxPwrCoeffE, value: e as u32 },
        ]
    }

    /// Setting the transmitter up leaves the oscillator's calibration as it
    /// is.
    pub proof fn lemma_keeps_calibration(self, channel: ChannelParameters)
        ensures
            keeps_calibration(self.operations(channel)),
    {
    }

    /// Records the transmitter's writes for a link on `channel`.
    pub fn write(&self, radio: &mut Registers, channel: &ChannelParameters)
        ensures
            final(radio)@ =~= old(radio)@ + self.operations(*channel),
    {
        let antenna: u8 = match self.antenna {
            Antenna::Differential => 0x01,
            Antenna::SingleEnded => 0x02,
        };
        let ramp: u8 = match channel.modulation {
            crate::channel::Modulation::GMSK { ramp, .. } => ramp.code(),
        };
        let pll: u8 = if self.plllock_gate {
            0x40
        } else {
            0
        };
        let brownout: u8 = if self.brownout_gate {
            0x80
        } else {
            0
        };
        radio.write_byte(Register::ModCfgA, antenna + 0x04 + 0x10 * ramp + pll + brownout);
        match self.amp {
            AmplitudeShaping::RaisedCosine { a, b, c, d, e } => {
                radio.record(Register::TxPwrCoeffA, a as u32);
                radio.record(Register::TxPwrCoeffB, b as u32);
                radio.record(Register::TxPwrCoeffC, c as u32);
                radio.record(Register::TxPwrCoeffD, d as u32);
                radio.record(Register::TxPwrCoeffE, e as u32);
            },
        }
    }
}

} // verus!
