//! The receiver parameter sets: four slots of gain-control and tracking-loop
//! settings, one of which is in force in each stage of reception.

use crate::fixed::{
    lemma_pow2_positive, lemma_round_half_up_error, pow2, round_div, round_half_up,
};
use crate::receiver::ReceiverProfile;
use crate::registers::{
    out_of_range, slot_loaded, ConfigurationError, Operation, ParameterSetImage, Register,
    Registers, RxParamSet,
};
use vstd::prelude::*;

verus! {

/// Largest mantissa and largest exponent of a loop gain: four bits each.
pub const GAIN_FIELD_MAX: u8 = 0x0F;

/// What is written for a baseband tracking loop that is not in use: both
/// gain exponents at their largest, which the chip treats as "loop off".
pub const BASEBAND_PHASE_OFF: u8 = 0x0F;

pub const BASEBAND_FREQ_OFF: u8 = 0x1F;

/// What is written for an RF tracking loop that is not in use.
pub const RF_PHASE_OFF: u8 = 0x1F;

pub const RF_FREQ_OFF: u8 = 0x1F;

/// What is written when no deviation is given. The chip's programming
/// manual defines the two deviation registers of a parameter set as one
/// unsigned twelve-bit word, without an enable flag and without a reserved
/// value: the demodulator feeds back the deviation that the word gives, and
/// with the word at zero it feeds back none. So the chip's code for "no
/// deviation feedback" is the word zero, and it has no other.
pub const FREQ_DEVIATION_OFF: u16 = 0;

/// Largest deviation word: twelve bits.
pub const FREQ_DEVIATION_MAX: u16 = 0x0FFF;

/// The gain-control loop of one parameter set.
#[derive(Clone, Copy, Debug, PartialEq, Eq, Structural)]
pub struct RXParameterAGC {
    pub attack: u8,
    pub decay: u8,
    pub target: u8,
    pub ahyst: u8,
    pub min: u8,
    pub max: u8,
}

impl RXParameterAGC {
    /// The loop as the chip comes up after a reset.
    pub fn new() -> (agc: RXParameterAGC)
        ensures
            agc == (RXParameterAGC {
                attack: 0x4,
                decay: 0xB,
                target: 0x76,
                ahyst: 0,
                min: 0,
                max: 0,
            }),
    {
        RXParameterAGC { attack: 0x4, decay: 0xB, target: 0x76, ahyst: 0, min: 0, max: 0 }
    }

    /// The loop that the vendor's configuration tool proposes.
    pub fn radiolab() -> (agc: RXParameterAGC)
        ensures
            agc == (RXParameterAGC {
                attack: 0x3,
                decay: 0x9,
                target: 0x84,
                ahyst: 0,
                min: 0,
                max: 0,
            }),
    {
        RXParameterAGC { attack: 0x3, decay: 0x9, target: 0x84, ahyst: 0, min: 0, max: 0 }
    }

    /// Gain control frozen: attack and decay at the value that stops the
    /// loop.
    pub fn off() -> (agc: RXParameterAGC)
        ensures
            agc == (RXParameterAGC {
                attack: 0xF,
                decay: 0xF,
                target: 0x84,
                ahyst: 0,
                min: 0,
                max: 0,
            }),
    {
        RXParameterAGC { attack: 0xF, decay: 0xF, target: 0x84, ahyst: 0, min: 0, max: 0 }
    }
}

/// A loop gain of the form mantissa · 2^exponent.
#[derive(Clone, Copy, Debug, PartialEq, Eq, Structural)]
pub enum Gain {
    /// The two fields as they are written.
    Literal { mantissa: u8, exponent: u8 },
    /// The gain is the receiver's data rate word divided by this number,
    /// brought into mantissa and exponent by `quantize`.
    CorrelationFraction(u16),
}

/// The two gains of one frequency tracking loop, as exponents.
#[derive(Clone, Copy, Debug, PartialEq, Eq, Structural)]
pub struct RXParameterFreq {
    pub phase: u8,
    pub freq: u8,
}

/// The tracking loops of one parameter set.
#[derive(Clone, Copy, Debug, PartialEq, Eq, Structural)]
pub struct RXParameterGain {
    /// Gain of the timing recovery loop.
    pub time: Gain,
    /// Gain of the data rate recovery loop.
    pub datarate: Gain,
    pub phase: u8,
    pub filter: u8,
    /// The baseband frequency loop, if it is in use.
    pub baseband: Option<RXParameterFreq>,
    /// The RF frequency loop, if it is in use.
    pub rf: Option<RXParameterFreq>,
    pub amplitude: u8,
    pub deviation_update: bool,
    pub ampl_agc_jump_correction: bool,
    pub ampl_averaging: bool,
}

/// The resistors of the baseband offset compensation.
#[derive(Clone, Copy, Debug, PartialEq, Eq, Structural)]
pub struct RXParameterBasebandOffset {
    pub a: u8,
    pub b: u8,
}

/// One receiver parameter set.
#[derive(Clone, Copy, Debug, PartialEq, Eq, Structural)]
pub struct RXParameterSet {
    pub agc: RXParameterAGC,
    pub gain: RXParameterGain,
    /// The deviation that the demodulator feeds back, if any.
    pub freq_dev: Option<u16>,
    pub decay: u8,
    pub baseband_offset: RXParameterBasebandOffset,
}

/// The mantissa that goes with exponent `e`: `numerator / (fraction · 2^e)`,
/// rounded to the nearest, a tie going up.
pub open spec fn mantissa_at(numerator: int, fraction: int, e: nat) -> int {
    round_half_up(numerator, fraction * pow2(e))
}

/// The first exponent from `e` upwards whose mantissa fits four bits, with
/// that mantissa; the largest mantissa and exponent if there is none up to
/// 15.
pub open spec fn quantized_from(numerator: int, fraction: int, e: nat) -> (int, int)
    decreases 16 - e,
{
    if e > 15 {
        (GAIN_FIELD_MAX as int, GAIN_FIELD_MAX as int)
    } else if mantissa_at(numerator, fraction, e) <= GAIN_FIELD_MAX {
        (mantissa_at(numerator, fraction, e), e as int)
    } else {
        quantized_from(numerator, fraction, e + 1)
    }
}

/// Mantissa and exponent for the gain `numerator / fraction`: the smallest
/// exponent whose rounded mantissa fits, or both fields at their largest
/// when the gain is too large for any exponent. A fraction of zero asks for
/// a gain beyond all bounds and gets the largest one too.
pub open spec fn quantized(numerator: int, fraction: int) -> (int, int) {
    if fraction == 0 {
        (GAIN_FIELD_MAX as int, GAIN_FIELD_MAX as int)
    } else {
        quantized_from(numerator, fraction, 0)
    }
}

/// What `quantized` gives is the least exponent that fits: the result's
/// fields are within four bits; if some exponent up to 15 fits, the result
/// is the least such exponent with its mantissa; if none does, both fields
/// are at their largest.
pub proof fn lemma_quantized_least(numerator: int, fraction: int)
    requires
        numerator >= 0,
        fraction > 0,
    ensures
        ({
            let (m, e) = quantized(numerator, fraction);
            &&& 0 <= m <= GAIN_FIELD_MAX
            &&& 0 <= e <= GAIN_FIELD_MAX
            &&& (exists|k: nat| k <= 15 && mantissa_at(numerator, fraction, k) <= GAIN_FIELD_MAX)
                ==> {
                &&& m == mantissa_at(numerator, fraction, e as nat)
                &&& forall|k: nat| k < e ==> mantissa_at(numerator, fraction, k) > GAIN_FIELD_MAX
            }
            &&& (forall|k: nat| k <= 15 ==> mantissa_at(numerator, fraction, k) > GAIN_FIELD_MAX)
                ==> m == GAIN_FIELD_MAX && e == GAIN_FIELD_MAX
        }),
{
    lemma_quantized_from(numerator, fraction, 0);
}

/// The mantissa never grows with the exponent.
pub proof fn lemma_mantissa_shrinks(numerator: int, fraction: int, low: nat, high: nat)
    requires
        numerator >= 0,
        fraction > 0,
        low <= high,
    ensures
        mantissa_at(numerator, fraction, high) <= mantissa_at(numerator, fraction, low),
    decreases high - low,
{
    if low < high {
        let before = (high - 1) as nat;
        lemma_mantissa_shrinks(numerator, fraction, low, before);
        lemma_pow2_positive(before);
        let d = fraction * pow2(before);
        assert(d > 0 && fraction * (2 * pow2(before)) == 2 * d) by (nonlinear_arith)
            requires
                d == fraction * pow2(before),
                fraction > 0,
                pow2(before) >= 1,
        ;
        assert(pow2(high) == 2 * pow2(before));
        crate::fixed::lemma_round_half_up_shrinks(numerator, d);
    }
}

/// How to tell what `quantized` gives: the exponent whose mantissa fits
/// while the mantissa of the exponent one below does not, with that
/// mantissa.
pub proof fn lemma_quantized_is(numerator: int, fraction: int, m: int, e: nat)
    requires
        numerator >= 0,
        fraction > 0,
        e <= 15,
        m == mantissa_at(numerator, fraction, e),
        m <= GAIN_FIELD_MAX,
        e > 0 ==> mantissa_at(numerator, fraction, (e - 1) as nat) > GAIN_FIELD_MAX,
    ensures
        quantized(numerator, fraction) == (m, e as int),
{
    lemma_quantized_least(numerator, fraction);
    let (found_m, found_e) = quantized(numerator, fraction);
    assert(found_e <= e) by {
        if found_e > e {
            assert(mantissa_at(numerator, fraction, e) > GAIN_FIELD_MAX);
        }
    }
    assert(found_e >= e) by {
        if found_e < e {
            lemma_mantissa_shrinks(numerator, fraction, found_e as nat, (e - 1) as nat);
        }
    }
}

/// No mantissa is negative.
proof fn lemma_mantissa_nonnegative(numerator: int, fraction: int, e: nat)
    requires
        numerator >= 0,
        fraction > 0,
    ensures
        mantissa_at(numerator, fraction, e) >= 0,
{
    lemma_pow2_positive(e);
    let d = fraction * pow2(e);
    assert(d > 0) by (nonlinear_arith)
        requires
            d == fraction * pow2(e),
            fraction > 0,
            pow2(e) >= 1,
    ;
    lemma_round_half_up_error(numerator, d);
}

/// What `quantized_from` gives is the least exponent from `start` on that
/// fits, or both fields at their largest.
proof fn lemma_quantized_from(numerator: int, fraction: int, start: nat)
    requires
        numerator >= 0,
        fraction > 0,
        start <= 16,
    ensures
        ({
            let (m, e) = quantized_from(numerator, fraction, start);
            &&& 0 <= m <= GAIN_FIELD_MAX
            &&& 0 <= e <= GAIN_FIELD_MAX
            &&& (exists|k: nat|
                start <= k <= 15 && mantissa_at(numerator, fraction, k) <= GAIN_FIELD_MAX) ==> {
                &&& start <= e
                &&& m == mantissa_at(numerator, fraction, e as nat)
                &&& forall|k: nat|
                    start <= k < e ==> mantissa_at(numerator, fraction, k) > GAIN_FIELD_MAX
            }
            &&& (forall|k: nat|
                start <= k <= 15 ==> mantissa_at(numerator, fraction, k) > GAIN_FIELD_MAX) ==> m
                == GAIN_FIELD_MAX && e == GAIN_FIELD_MAX
        }),
    decreases 16 - start,
{
    if start > 15 {
    } else if mantissa_at(numerator, fraction, start) <= GAIN_FIELD_MAX {
        lemma_mantissa_nonnegative(numerator, fraction, start);
    } else {
        lemma_quantized_from(numerator, fraction, start + 1);
        let (m, e) = quantized_from(numerator, fraction, start + 1);
        if exists|k: nat| start <= k <= 15 && mantissa_at(numerator, fraction, k) <= GAIN_FIELD_MAX {
            let k = choose|k: nat|
                start <= k <= 15 && mantissa_at(numerator, fraction, k) <= GAIN_FIELD_MAX;
            assert(start + 1 <= k <= 15);
            assert forall|j: nat| start <= j < e implies mantissa_at(numerator, fraction, j)
                > GAIN_FIELD_MAX by {
                if j > start {
                    assert(start + 1 <= j);
                }
            }
        }
    }
}

/// Brings the gain `numerator / fraction` into a four-bit mantissa and a
/// four-bit exponent.
pub fn quantize(numerator: u32, fraction: u16) -> (r: (u8, u8))
    ensures
        (r.0 as int, r.1 as int) == quantized(numerator as int, fraction as int),
        r.0 <= GAIN_FIELD_MAX,
        r.1 <= GAIN_FIELD_MAX,
{
    if fraction == 0 {
        return (GAIN_FIELD_MAX, GAIN_FIELD_MAX);
    }
    let mut e: u8 = 0;
    let mut scale: u128 = fraction as u128;
    proof {
        assert(pow2(0) == 1);
        assert(fraction * pow2(0) == fraction) by (nonlinear_arith)
            requires
                pow2(0) == 1,
        ;
    }
    while e <= 15
        invariant
            e <= 16,
            fraction > 0,
            scale == fraction * pow2(e as nat),
            1 <= scale <= 0x2_0000_0000,
            pow2(e as nat) >= 1,
            quantized(numerator as int, fraction as int) == quantized_from(
                numerator as int,
                fraction as int,
                e as nat,
            ),
        decreases 16 - e,
    {
        let m = round_div(numerator as u128, scale);
        assert(m == mantissa_at(numerator as int, fraction as int, e as nat));
        if m <= GAIN_FIELD_MAX as u128 {
            return (m as u8, e);
        }
        proof {
            let p = pow2(e as nat);
            assert(pow2((e + 1) as nat) == 2 * p);
            assert(fraction * (2 * p) == 2 * (fraction * p)) by (nonlinear_arith);
            // the mantissa did not fit, so the scale is still below the numerator
            lemma_round_half_up_error(numerator as int, scale as int);
        }
        assert(scale <= 0xFFFF_FFFF) by (nonlinear_arith)
            requires
                2 * scale * m <= 2 * numerator + scale,
                m >= 16,
                numerator <= 0xFFFF_FFFF,
                scale >= 1,
        ;
        scale = scale * 2;
        e = e + 1;
    }
    (GAIN_FIELD_MAX, GAIN_FIELD_MAX)
}

impl Gain {
    /// Whether the gain cannot be written: a literal with a field of more
    /// than four bits.
    pub open spec fn overflows(self) -> bool {
        self matches Gain::Literal { mantissa, exponent } && (mantissa > GAIN_FIELD_MAX || exponent
            > GAIN_FIELD_MAX)
    }

    /// The field of a literal that does not fit: the mantissa if it is too
    /// large, else the exponent.
    pub open spec fn offending(self) -> u8 {
        match self {
            Gain::Literal { mantissa, exponent } => if mantissa > GAIN_FIELD_MAX {
                mantissa
            } else {
                exponent
            },
            Gain::CorrelationFraction(_) => 0,
        }
    }

    /// The gain register: the mantissa in the high four bits, the exponent
    /// in the low four. `rx_datarate` is the receiver's data rate word.
    pub open spec fn value(self, rx_datarate: u32) -> int {
        match self {
            Gain::Literal { mantissa, exponent } => mantissa * 16 + exponent,
            Gain::CorrelationFraction(fraction) => {
                let (m, e) = quantized(rx_datarate as int, fraction as int);
                m * 16 + e
            },
        }
    }

    /// Computes the gain register, or refuses a literal that does not fit
    /// and names `register`.
    pub fn encode(&self, rx_datarate: u32, register: Register) -> (r: Result<
        u8,
        ConfigurationError,
    >)
        ensures
            self.overflows() ==> r == Err::<u8, ConfigurationError>(
                ConfigurationError::OutOfRange { register, value: self.offending() as u128 },
            ),
            !self.overflows() ==> r == Ok::<u8, ConfigurationError>(self.value(rx_datarate) as u8)
                && 0 <= self.value(rx_datarate) <= 0xFF,
    {
        match self {
            Gain::Literal { mantissa, exponent } => {
                if *mantissa > GAIN_FIELD_MAX {
                    Err(ConfigurationError::OutOfRange { register, value: *mantissa as u128 })
                } else if *exponent > GAIN_FIELD_MAX {
                    Err(ConfigurationError::OutOfRange { register, value: *exponent as u128 })
                } else {
                    Ok(*mantissa * 16 + *exponent)
                }
            },
            Gain::CorrelationFraction(fraction) => {
                let (m, e) = quantize(rx_datarate, *fraction);
                Ok(m * 16 + e)
            },
        }
    }
}

/// Refuses `value` when it is above `max`, naming `register`.
fn check(register: Register, value: u16, max: u16) -> (r: Result<(), ConfigurationError>)
    ensures
        value <= max ==> r is Ok,
        value > max ==> r == Err::<(), ConfigurationError>(
            ConfigurationError::OutOfRange { register, value: value as u128 },
        ),
{
    if value > max {
        Err(ConfigurationError::OutOfRange { register, value: value as u128 })
    } else {
        Ok(())
    }
}

impl RXParameterSet {
    /// A set for minimum-shift keying, in which only the gain control, the
    /// two correlation fractions, the gain of the baseband frequency loop
    /// and the deviation vary: phase gain 3, filter index 3, amplitude gain
    /// 6, deviation decay 6 with updates, no RF frequency loop, no baseband
    /// offset.
    pub open spec fn msk_model(
        agc: RXParameterAGC,
        time_fraction: u16,
        datarate_fraction: u16,
        loop_gain: u8,
        freq_dev: Option<u16>,
    ) -> RXParameterSet {
        RXParameterSet {
            agc,
            gain: RXParameterGain {
                time: Gain::CorrelationFraction(time_fraction),
                datarate: Gain::CorrelationFraction(datarate_fraction),
                phase: 0b0011,
                filter: 0b11,
                baseband: Some(RXParameterFreq { phase: loop_gain, freq: loop_gain }),
                rf: None,
                amplitude: 0b0110,
                deviation_update: true,
                ampl_agc_jump_correction: false,
                ampl_averaging: false,
            },
            freq_dev,
            decay: 0b0110,
            baseband_offset: RXParameterBasebandOffset { a: 0, b: 0 },
        }
    }

    /// Builds `msk_model`.
    #[verifier::when_used_as_spec(msk_model)]
    pub fn msk(
        agc: RXParameterAGC,
        time_fraction: u16,
        datarate_fraction: u16,
        loop_gain: u8,
        freq_dev: Option<u16>,
    ) -> (set: RXParameterSet)
        ensures
            set == Self::msk_model(agc, time_fraction, datarate_fraction, loop_gain, freq_dev),
    {
        RXParameterSet {
            agc,
            gain: RXParameterGain {
                time: Gain::CorrelationFraction(time_fraction),
                datarate: Gain::CorrelationFraction(datarate_fraction),
                phase: 0b0011,
                filter: 0b11,
                baseband: Some(RXParameterFreq { phase: loop_gain, freq: loop_gain }),
                rf: None,
                amplitude: 0b0110,
                deviation_update: true,
                ampl_agc_jump_correction: false,
                ampl_averaging: false,
            },
            freq_dev,
            decay: 0b0110,
            baseband_offset: RXParameterBasebandOffset { a: 0, b: 0 },
        }
    }

    /// The first field, in the order of the registers, that does not fit
    /// the bits it is meant for, as the error that names its register;
    /// `None` if all of them fit.
    pub open spec fn refusal(self) -> Option<ConfigurationError> {
        if self.agc.attack > 0x0F {
            out_of_range(Register::AgcGain, self.agc.attack as int)
        } else if self.agc.decay > 0x0F {
            out_of_range(Register::AgcGain, self.agc.decay as int)
        } else if self.agc.ahyst > 0x07 {
            out_of_range(Register::AgcAHyst, self.agc.ahyst as int)
        } else if self.agc.min > 0x07 {
            out_of_range(Register::AgcMinMax, self.agc.min as int)
        } else if self.agc.max > 0x07 {
            out_of_range(Register::AgcMinMax, self.agc.max as int)
        } else if self.gain.time.overflows() {
            out_of_range(Register::TimeGain, self.gain.time.offending() as int)
        } else if self.gain.datarate.overflows() {
            out_of_range(Register::DrGain, self.gain.datarate.offending() as int)
        } else if self.gain.phase > 0x0F {
            out_of_range(Register::PhaseGain, self.gain.phase as int)
        } else if self.gain.filter > 0x03 {
            out_of_range(Register::PhaseGain, self.gain.filter as int)
        } else if self.gain.baseband matches Some(loop_gain) && loop_gain.phase > 0x0F {
            out_of_range(Register::FreqGainA, self.gain.baseband->0.phase as int)
        } else if self.gain.baseband matches Some(loop_gain) && loop_gain.freq > 0x1F {
            out_of_range(Register::FreqGainB, self.gain.baseband->0.freq as int)
        } else if self.gain.rf matches Some(loop_gain) && loop_gain.phase > 0x1F {
            out_of_range(Register::FreqGainC, self.gain.rf->0.phase as int)
        } else if self.gain.rf matches Some(loop_gain) && loop_gain.freq > 0x1F {
            out_of_range(Register::FreqGainD, self.gain.rf->0.freq as int)
        } else if self.gain.amplitude > 0x0F {
            out_of_range(Register::AmplGain, self.gain.amplitude as int)
        } else if self.freq_dev matches Some(deviation) && deviation > FREQ_DEVIATION_MAX {
            out_of_range(Register::FreqDev, self.freq_dev->0 as int)
        } else if self.decay > 0x0F {
            out_of_range(Register::FourFsk, self.decay as int)
        } else if self.baseband_offset.a > 0x0F {
            out_of_range(Register::BbOffsRes, self.baseband_offset.a as int)
        } else if self.baseband_offset.b > 0x0F {
            out_of_range(Register::BbOffsRes, self.baseband_offset.b as int)
        } else {
            None
        }
    }

    /// The set as the chip stores it. Where a register holds two fields,
    /// the second stands sixteen times up (four bits), the filter index
    /// sixty-four times up (bit 6). A tracking loop that is not given is
    /// written as the chip's code for "loop off", the largest exponent in
    /// both of its registers, and never as the exponent zero, which would
    /// be the strongest gain there is. A deviation that is not given is
    /// written as `FREQ_DEVIATION_OFF`, the chip's code for "no deviation
    /// feedback"; the chip's programming manual defines that code as the
    /// deviation word zero (see the constant). `rx_datarate` is the
    /// receiver's data rate word, from which the gains given as correlation
    /// fractions are derived.
    pub open spec fn image(self, rx_datarate: u32) -> ParameterSetImage {
        ParameterSetImage {
            agc_gain: (self.agc.attack + 16 * self.agc.decay) as u8,
            agc_target: self.agc.target,
            agc_hysteresis: self.agc.ahyst,
            agc_min_max: (self.agc.min + 16 * self.agc.max) as u8,
            time_gain: self.gain.time.value(rx_datarate) as u8,
            datarate_gain: self.gain.datarate.value(rx_datarate) as u8,
            phase_gain: (self.gain.phase + 64 * self.gain.filter) as u8,
            freq_gain_a: match self.gain.baseband {
                Some(loop_gain) => loop_gain.phase,
                None => BASEBAND_PHASE_OFF,
            },
            freq_gain_b: match self.gain.baseband {
                Some(loop_gain) => loop_gain.freq,
                None => BASEBAND_FREQ_OFF,
            },
            freq_gain_c: match self.gain.rf {
                Some(loop_gain) => loop_gain.phase,
                None => RF_PHASE_OFF,
            },
            freq_gain_d: match self.gain.rf {
                Some(loop_gain) => loop_gain.freq,
                None => RF_FREQ_OFF,
            },
            amplitude_gain: (self.gain.amplitude + (if self.gain.ampl_agc_jump_correction {
                0x40int
            } else {
                0
            }) + (if self.gain.ampl_averaging {
                0x80int
            } else {
                0
            })) as u8,
            freq_dev: match self.freq_dev {
                Some(deviation) => deviation,
                None => FREQ_DEVIATION_OFF,
            },
            four_fsk: (self.decay + (if self.gain.deviation_update {
                0x10int
            } else {
                0
            })) as u8,
            bb_offset_res: (self.baseband_offset.a + 16 * self.baseband_offset.b) as u8,
        }
    }

    /// What the set compiles to: the refusal if there is one, else the
    /// image.
    pub open spec fn compiled(self, rx_datarate: u32) -> Result<
        ParameterSetImage,
        ConfigurationError,
    > {
        match self.refusal() {
            Some(e) => Err(e),
            None => Ok(self.image(rx_datarate)),
        }
    }

    /// Derives the sixteen bytes of the set for a receiver whose data rate
    /// word is `rx_datarate`.
    pub fn compile(&self, rx_datarate: u32) -> (r: Result<ParameterSetImage, ConfigurationError>)
        ensures
            r == self.compiled(rx_datarate),
    {
        check(Register::AgcGain, self.agc.attack as u16, 0x0F)?;
        check(Register::AgcGain, self.agc.decay as u16, 0x0F)?;
        check(Register::AgcAHyst, self.agc.ahyst as u16, 0x07)?;
        check(Register::AgcMinMax, self.agc.min as u16, 0x07)?;
        check(Register::AgcMinMax, self.agc.max as u16, 0x07)?;
        let time_gain = self.gain.time.encode(rx_datarate, Register::TimeGain)?;
        let datarate_gain = self.gain.datarate.encode(rx_datarate, Register::DrGain)?;
        check(Register::PhaseGain, self.gain.phase as u16, 0x0F)?;
        check(Register::PhaseGain, self.gain.filter as u16, 0x03)?;
        let (freq_gain_a, freq_gain_b) = match self.gain.baseband {
            Some(loop_gain) => {
                check(Register::FreqGainA, loop_gain.phase as u16, 0x0F)?;
                check(Register::FreqGainB, loop_gain.freq as u16, 0x1F)?;
                (loop_gain.phase, loop_gain.freq)
            },
            None => (BASEBAND_PHASE_OFF, BASEBAND_FREQ_OFF),
        };
        let (freq_gain_c, freq_gain_d) = match self.gain.rf {
            Some(loop_gain) => {
                check(Register::FreqGainC, loop_gain.phase as u16, 0x1F)?;
                check(Register::FreqGainD, loop_gain.freq as u16, 0x1F)?;
                (loop_gain.phase, loop_gain.freq)
            },
            None => (RF_PHASE_OFF, RF_FREQ_OFF),
        };
        check(Register::AmplGain, self.gain.amplitude as u16, 0x0F)?;
        let freq_dev = match self.freq_dev {
            Some(deviation) => {
                check(Register::FreqDev, deviation, FREQ_DEVIATION_MAX)?;
                deviation
            },
            None => FREQ_DEVIATION_OFF,
        };
        check(Register::FourFsk, self.decay as u16, 0x0F)?;
        check(Register::BbOffsRes, self.baseband_offset.a as u16, 0x0F)?;
        check(Register::BbOffsRes, self.baseband_offset.b as u16, 0x0F)?;
        let jump: u8 = if self.gain.ampl_agc_jump_correction {
            0x40
        } else {
            0
        };
        let averaging: u8 = if self.gain.ampl_averaging {
            0x80
        } else {
            0
        };
        let update: u8 = if self.gain.deviation_update {
            0x10
        } else {
            0
        };
        Ok(
            ParameterSetImage {
                agc_gain: self.agc.attack + 16 * self.agc.decay,
                agc_target: self.agc.target,
                agc_hysteresis: self.agc.ahyst,
                agc_min_max: self.agc.min + 16 * self.agc.max,
                time_gain,
                datarate_gain,
                phase_gain: self.gain.phase + 64 * self.gain.filter,
                freq_gain_a,
                freq_gain_b,
                freq_gain_c,
                freq_gain_d,
                amplitude_gain: self.gain.amplitude + jump + averaging,
                freq_dev,
                four_fsk: self.decay + update,
                bb_offset_res: self.baseband_offset.a + 16 * self.baseband_offset.b,
            },
        )
    }

    /// Compiles the set against the receiver profile that is in force and
    /// records its load into `slot`. From then on the slot counts as
    /// written. On an error nothing is recorded.
    pub fn write(&self, radio: &mut Registers, slot: RxParamSet, profile: &ReceiverProfile) -> (r:
        Result<(), ConfigurationError>)
        ensures
            match self.compiled(profile.rx_datarate) {
                Ok(image) => r is Ok && final(radio)@ == old(radio)@.push(
                    Operation::LoadParameterSet { slot, image },
                ) && slot_loaded(final(radio)@, slot),
                Err(e) => r == Err::<(), ConfigurationError>(e) && final(radio)@ == old(radio)@,
            },
    {
        let image = self.compile(profile.rx_datarate)?;
        radio.load_parameter_set(slot, image);
        Ok(())
    }
}

} // verus!
