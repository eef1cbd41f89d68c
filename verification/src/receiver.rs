//! The receiver profile: what the receive chain has to tolerate, compiled
//! into the intermediate frequency, decimation, data rate and offset
//! registers.
//!
//! Every quotient marked "rounded" below is rounded to the nearest integer,
//! a tie going up; the decimation is rounded down. All of it is integer
//! arithmetic.

use crate::board::{Board, Xtal};
use crate::channel::ChannelParameters;
use crate::fixed::{round_div, round_half_up};
use crate::registers::{
    keeps_calibration, ConfigurationError, Operation, Register, Registers,
};
use vstd::prelude::*;

verus! {

/// Largest intermediate-frequency word: the register has 16 bits.
pub const IF_FREQ_MAX: u32 = 0xFFFF;

/// Largest decimation: the register has 7 bits. Zero is no decimation the
/// chip can carry out.
pub const DECIMATION_MAX: u32 = 0x7F;

/// One more than the largest data rate or data rate offset word: 24 bits.
pub const RATE_LIMIT: u32 = 0x100_0000;

/// One more than the largest frequency offset word: 20 bits.
pub const RF_OFFSET_LIMIT: u32 = 0x10_0000;

/// Bit of the frequency offset register that lets the chip correct the
/// offset it has found.
pub const FREQ_OFFSET_CORRECTION: u32 = 0x80_0000;

/// Largest amplitude filter or frequency leak coefficient: 4 bits each.
pub const COEFFICIENT_MAX: u8 = 0x0F;

/// What the receiver has to cope with, in physical units.
#[derive(Clone, Copy, Debug, PartialEq, Eq, Structural)]
pub enum RXParameters {
    /// Reception of minimum-shift keying.
    MSK {
        /// Largest offset of the sender, in hertz, that is still tracked.
        /// Zero switches drift tracking off.
        max_dr_offset: u32,
        /// Whether the chip corrects the frequency offset it has found.
        freq_offs_corr: bool,
        /// Amplitude filter coefficient, handed through.
        ampl_filter: u8,
        /// Frequency leak coefficient, handed through.
        frequency_leak: u8,
    },
}

/// The register contents that receiver parameters compile to.
#[derive(Clone, Copy, Debug, PartialEq, Eq, Structural)]
pub struct ReceiverProfile {
    pub if_freq: u16,
    pub decimation: u8,
    pub rx_datarate: u32,
    pub max_dr_offset: u32,
    pub max_rf_offset: u32,
    pub freq_offs_corr: bool,
    pub ampl_filter: u8,
    pub frequency_leak: u8,
}

/// The bandwidth that minimum-shift keying occupies at `datarate` bits per
/// second, by Carson's rule with a modulation index of one half:
/// one and a half times the bit rate, rounded down.
pub open spec fn occupied_bandwidth(datarate: int) -> int {
    3 * datarate / 2
}

/// The intermediate frequency in hertz: one bit rate above zero.
pub open spec fn if_frequency(datarate: int) -> int {
    datarate
}

/// The bandwidth of the baseband filter in hertz: five times the occupied
/// bandwidth, which leaves the channel filter a quarter of it.
pub open spec fn baseband_bandwidth(datarate: int) -> int {
    5 * occupied_bandwidth(datarate)
}

/// `if_frequency · divider · 2^20 / xtal`, rounded.
pub open spec fn if_freq_word(datarate: int, xtal: Xtal) -> int {
    round_half_up(if_frequency(datarate) * xtal.divider() * 0x10_0000, xtal.freq as int)
}

/// `xtal / (baseband_bandwidth · 16 · divider)`, rounded down.
pub open spec fn decimation_value(datarate: int, xtal: Xtal) -> int {
    xtal.freq as int / (baseband_bandwidth(datarate) * 16 * xtal.divider())
}

/// `2^7 · xtal / (datarate · divider · decimation)`, rounded.
pub open spec fn rx_datarate_word(datarate: int, xtal: Xtal, decimation: int) -> int {
    round_half_up(0x80 * xtal.freq, datarate * xtal.divider() * decimation)
}

/// `2^7 · xtal · offset / (divider · datarate² · decimation)`, rounded.
pub open spec fn max_dr_offset_word(datarate: int, xtal: Xtal, decimation: int, offset: int) -> int {
    round_half_up(0x80 * xtal.freq * offset, xtal.divider() * datarate * datarate * decimation)
}

/// `offset · 2^24 / xtal`, rounded.
pub open spec fn max_rf_offset_word(offset: int, xtal: Xtal) -> int {
    round_half_up(offset * 0x100_0000, xtal.freq as int)
}

impl RXParameters {
    /// The offset to be tracked, in hertz.
    pub open spec fn offset(self) -> u32 {
        match self {
            RXParameters::MSK { max_dr_offset, .. } => max_dr_offset,
        }
    }

    /// Whether the offset found is corrected.
    pub open spec fn correction(self) -> bool {
        match self {
            RXParameters::MSK { freq_offs_corr, .. } => freq_offs_corr,
        }
    }

    /// The amplitude filter coefficient.
    pub open spec fn amplitude_filter(self) -> u8 {
        match self {
            RXParameters::MSK { ampl_filter, .. } => ampl_filter,
        }
    }

    /// The frequency leak coefficient.
    pub open spec fn leak(self) -> u8 {
        match self {
            RXParameters::MSK { frequency_leak, .. } => frequency_leak,
        }
    }

    /// The first register, in the order in which they are derived, whose
    /// value cannot be had or does not fit, with the reason; `None` if all
    /// of them can be written.
    ///
    /// The order is: intermediate frequency (no value with a reference of
    /// zero; 16 bits), decimation (no value at a data rate of zero; 1 to
    /// 127), data rate (24 bits), data rate offset (24 bits), frequency
    /// offset (20 bits), amplitude filter and frequency leak (4 bits each).
    pub open spec fn refusal(self, board: Board, channel: ChannelParameters) -> Option<
        ConfigurationError,
    > {
        let xtal = board.xtal;
        let rate = channel.datarate as int;
        let decimation = decimation_value(rate, xtal);
        if xtal.freq == 0 {
            Some(ConfigurationError::Undefined { register: Register::IfFreq })
        } else if if_freq_word(rate, xtal) > IF_FREQ_MAX {
            Some(
                ConfigurationError::OutOfRange {
                    register: Register::IfFreq,
                    value: if_freq_word(rate, xtal) as u128,
                },
            )
        } else if rate == 0 {
            Some(ConfigurationError::Undefined { register: Register::Decimation })
        } else if decimation < 1 || decimation > DECIMATION_MAX {
            Some(
                ConfigurationError::OutOfRange {
                    register: Register::Decimation,
                    value: decimation as u128,
                },
            )
        } else if rx_datarate_word(rate, xtal, decimation) >= RATE_LIMIT {
            Some(
                ConfigurationError::OutOfRange {
                    register: Register::RxDataRate,
                    value: rx_datarate_word(rate, xtal, decimation) as u128,
                },
            )
        } else if max_dr_offset_word(rate, xtal, decimation, self.offset() as int) >= RATE_LIMIT {
            Some(
                ConfigurationError::OutOfRange {
                    register: Register::MaxDrOffset,
                    value: max_dr_offset_word(rate, xtal, decimation, self.offset() as int) as u128,
                },
            )
        } else if max_rf_offset_word(self.offset() as int, xtal) >= RF_OFFSET_LIMIT {
            Some(
                ConfigurationError::OutOfRange {
                    register: Register::MaxRfOffset,
                    value: max_rf_offset_word(self.offset() as int, xtal) as u128,
                },
            )
        } else if self.amplitude_filter() > COEFFICIENT_MAX {
            Some(
                ConfigurationError::OutOfRange {
                    register: Register::AmplFilter,
                    value: self.amplitude_filter() as u128,
                },
            )
        } else if self.leak() > COEFFICIENT_MAX {
            Some(
                ConfigurationError::OutOfRange {
                    register: Register::FrequencyLeak,
                    value: self.leak() as u128,
                },
            )
        } else {
            None
        }
    }

    /// The profile that the formulas give. It is what is written when
    /// nothing is refused.
    pub open spec fn profile(self, board: Board, channel: ChannelParameters) -> ReceiverProfile {
        let xtal = board.xtal;
        let rate = channel.datarate as int;
        let decimation = decimation_value(rate, xtal);
        ReceiverProfile {
            if_freq: if_freq_word(rate, xtal) as u16,
            decimation: decimation as u8,
            rx_datarate: rx_datarate_word(rate, xtal, decimation) as u32,
            max_dr_offset: max_dr_offset_word(rate, xtal, decimation, self.offset() as int) as u32,
            max_rf_offset: max_rf_offset_word(self.offset() as int, xtal) as u32,
            freq_offs_corr: self.correction(),
            ampl_filter: self.amplitude_filter(),
            frequency_leak: self.leak(),
        }
    }

    /// What the parameters compile to: the refusal if there is one, else
    /// the profile.
    pub open spec fn compiled(self, board: Board, channel: ChannelParameters) -> Result<
        ReceiverProfile,
        ConfigurationError,
    > {
        match self.refusal(board, channel) {
            Some(e) => Err(e),
            None => Ok(self.profile(board, channel)),
        }
    }

    /// Derives the receiver's registers for this board and channel. The
    /// result depends on the three arguments alone: every register in
    /// range gives the profile, and the first one out of range gives the
    /// error that names it.
    pub fn compile(&self, board: &Board, channel: &ChannelParameters) -> (r: Result<
        ReceiverProfile,
        ConfigurationError,
    >)
        ensures
            r == self.compiled(*board, *channel),
            r matches Ok(profile) ==> profile.fits(),
    {
        let (offset, freq_offs_corr, ampl_filter, frequency_leak) = match self {
            RXParameters::MSK { max_dr_offset, freq_offs_corr, ampl_filter, frequency_leak } => (
                *max_dr_offset,
                *freq_offs_corr,
                *ampl_filter,
                *frequency_leak,
            ),
        };
        if board.xtal.freq == 0 {
            return Err(ConfigurationError::Undefined { register: Register::IfFreq });
        }
        let xtal: u128 = board.xtal.freq as u128;
        let div: u128 = board.xtal.div() as u128;
        let rate: u128 = channel.datarate as u128;
        let offset: u128 = offset as u128;

        assert(rate * div <= 0x2_0000_0000) by (nonlinear_arith)
            requires
                rate <= 0xFFFF_FFFF,
                1 <= div <= 2,
        ;
        let rate_div: u128 = rate * div;
        assert(rate_div == if_frequency(rate as int) * board.xtal.divider());
        let if_freq = round_div(rate_div * 0x10_0000, xtal);
        if if_freq > IF_FREQ_MAX as u128 {
            return Err(ConfigurationError::OutOfRange { register: Register::IfFreq, value: if_freq });
        }
        if channel.datarate == 0 {
            return Err(ConfigurationError::Undefined { register: Register::Decimation });
        }
        assert(rate_div >= 1) by (nonlinear_arith)
            requires
                rate_div == rate * div,
                rate >= 1,
                div >= 1,
        ;
        let bandwidth: u128 = 3 * rate / 2;
        let baseband: u128 = 5 * bandwidth;
        assert(baseband == baseband_bandwidth(rate as int));
        assert(baseband >= 5);
        let bandwidth16: u128 = baseband * 16;
        assert(bandwidth16 * div >= 1 && bandwidth16 * div <= bandwidth16 * 2 && bandwidth16 * div
            == baseband_bandwidth(rate as int) * 16 * board.xtal.divider()) by (nonlinear_arith)
            requires
                bandwidth16 == baseband_bandwidth(rate as int) * 16,
                bandwidth16 >= 1,
                div == board.xtal.divider(),
                1 <= div <= 2,
        ;
        let decimation: u128 = xtal / (bandwidth16 * div);
        assert(decimation == decimation_value(rate as int, board.xtal));
        if decimation < 1 || decimation > DECIMATION_MAX as u128 {
            return Err(
                ConfigurationError::OutOfRange { register: Register::Decimation, value: decimation },
            );
        }
        assert(rate_div * decimation <= 0x2_0000_0000 * 0x7F && rate_div * decimation >= 1
            && rate_div * decimation == rate * board.xtal.divider() * decimation)
            by (nonlinear_arith)
            requires
                1 <= rate_div <= 0x2_0000_0000,
                1 <= decimation <= 0x7F,
                rate_div == rate * board.xtal.divider(),
        ;
        let rx_datarate = round_div(0x80 * xtal, rate_div * decimation);
        if rx_datarate >= RATE_LIMIT as u128 {
            return Err(
                ConfigurationError::OutOfRange { register: Register::RxDataRate, value: rx_datarate },
            );
        }
        let scaled: u128 = 0x80 * xtal;
        assert(scaled * offset <= 0x80_0000_0000 * 0x1_0000_0000 && scaled * offset == 0x80
            * board.xtal.freq * offset) by (nonlinear_arith)
            requires
                scaled == 0x80 * board.xtal.freq,
                scaled <= 0x80_0000_0000,
                offset <= 0x1_0000_0000,
        ;
        assert(rate_div * rate <= 0x2_0000_0000 * 0x1_0000_0000 && rate_div * rate >= 1
            && rate_div * rate == board.xtal.divider() * rate * rate) by (nonlinear_arith)
            requires
                1 <= rate_div <= 0x2_0000_0000,
                1 <= rate <= 0x1_0000_0000,
                rate_div == rate * board.xtal.divider(),
        ;
        let squared: u128 = rate_div * rate;
        assert(squared * decimation <= 0x2_0000_0000_0000_0000 * 0x7F && squared * decimation >= 1
            && squared * decimation == board.xtal.divider() * rate * rate * decimation)
            by (nonlinear_arith)
            requires
                1 <= squared <= 0x2_0000_0000 * 0x1_0000_0000,
                1 <= decimation <= 0x7F,
                squared == board.xtal.divider() * rate * rate,
        ;
        let max_dr_offset = round_div(scaled * offset, squared * decimation);
        if max_dr_offset >= RATE_LIMIT as u128 {
            return Err(
                ConfigurationError::OutOfRange {
                    register: Register::MaxDrOffset,
                    value: max_dr_offset,
                },
            );
        }
        let max_rf_offset = round_div(offset * 0x100_0000, xtal);
        if max_rf_offset >= RF_OFFSET_LIMIT as u128 {
            return Err(
                ConfigurationError::OutOfRange {
                    register: Register::MaxRfOffset,
                    value: max_rf_offset,
                },
            );
        }
        if ampl_filter > COEFFICIENT_MAX {
            return Err(
                ConfigurationError::OutOfRange {
                    register: Register::AmplFilter,
                    value: ampl_filter as u128,
                },
            );
        }
        if frequency_leak > COEFFICIENT_MAX {
            return Err(
                ConfigurationError::OutOfRange {
                    register: Register::FrequencyLeak,
                    value: frequency_leak as u128,
                },
            );
        }
        Ok(
            ReceiverProfile {
                if_freq: if_freq as u16,
                decimation: decimation as u8,
                rx_datarate: rx_datarate as u32,
                max_dr_offset: max_dr_offset as u32,
                max_rf_offset: max_rf_offset as u32,
                freq_offs_corr,
                ampl_filter,
                frequency_leak,
            },
        )
    }

    /// Compiles the parameters and records the profile's writes. The
    /// profile is handed back: the parameter sets are derived from it. On
    /// an error nothing is recorded.
    pub fn write(&self, radio: &mut Registers, board: &Board, channel: &ChannelParameters) -> (r:
        Result<ReceiverProfile, ConfigurationError>)
        ensures
            r == self.compiled(*board, *channel),
            match r {
                Ok(profile) => profile.fits() && final(radio)@ =~= old(radio)@
                    + profile.operations(),
                Err(_) => final(radio)@ == old(radio)@,
            },
    {
        let profile = self.compile(board, channel)?;
        profile.write(radio);
        Ok(profile)
    }
}

impl ReceiverProfile {
    /// Whether every field fits the register it is meant for.
    pub open spec fn fits(self) -> bool {
        &&& 1 <= self.decimation <= DECIMATION_MAX
        &&& self.rx_datarate < RATE_LIMIT
        &&& self.max_dr_offset < RATE_LIMIT
        &&& self.max_rf_offset < RF_OFFSET_LIMIT
        &&& self.ampl_filter <= COEFFICIENT_MAX
        &&& self.frequency_leak <= COEFFICIENT_MAX
    }

    /// The frequency offset register: the offset word, and the correction
    /// flag in bit 23.
    pub open spec fn max_rf_offset_value(self) -> int {
        self.max_rf_offset + if self.freq_offs_corr {
            FREQ_OFFSET_CORRECTION as int
        } else {
            0
        }
    }

    /// The writes of the profile, in the order in which they are made.
    pub open spec fn operations(self) -> Seq<Operation> {
        seq![
            Operation::Write { register: Register::IfFreq, value: self.if_freq as u32 },
            Operation::Write { register: Register::Decimation, value: self.decimation as u32 },
            Operation::Write { register: Register::RxDataRate, value: self.rx_datarate },
            Operation::Write { register: Register::MaxDrOffset, value: self.max_dr_offset },
            Operation::Write {
                register: Register::MaxRfOffset,
                value: self.max_rf_offset_value() as u32,
            },
            Operation::Write { register: Register::AmplFilter, value: self.ampl_filter as u32 },
            Operation::Write {
                register: Register::FrequencyLeak,
                value: self.frequency_leak as u32,
            },
        ]
    }

    /// Writing the profile leaves the oscillator's calibration as it is.
    pub proof fn lemma_keeps_calibration(self)
        ensures
            keeps_calibration(self.operations()),
    {
    }

    /// Records the writes of the profile.
    pub fn write(&self, radio: &mut Registers)
        requires
            self.fits(),
        ensures
            final(radio)@ =~= old(radio)@ + self.operations(),
    {
        radio.record(Register::IfFreq, self.if_freq as u32);
        radio.write_byte(Register::Decimation, self.decimation);
        radio.record(Register::RxDataRate, self.rx_datarate);
        radio.record(Register::MaxDrOffset, self.max_dr_offset);
        let correction: u32 = if self.freq_offs_corr {
            FREQ_OFFSET_CORRECTION
        } else {
            0
        };
        radio.record(Register::MaxRfOffset, self.max_rf_offset + correction);
        radio.write_byte(Register::AmplFilter, self.ampl_filter);
        radio.write_byte(Register::FrequencyLeak, self.frequency_leak);
    }
}

/// The receiver's registers are a function of the intent, the board and the
/// channel, and the compiler either gives all of them or names the first
/// that is out of range: it succeeds exactly when nothing is refused, an
/// error is the refusal itself, and a refusal for being out of range names a
/// register whose formula does give a value outside the register's range.
pub proof fn lemma_receiver_profile_decided(
    intent: RXParameters,
    board: Board,
    channel: ChannelParameters,
)
    ensures
        intent.compiled(board, channel) is Ok <==> intent.refusal(board, channel) is None,
        intent.compiled(board, channel) matches Err(e) ==> intent.refusal(board, channel) == Some(
            e,
        ),
        intent.compiled(board, channel) matches Ok(p) ==> p == intent.profile(board, channel),
        intent.refusal(board, channel) matches Some(
            ConfigurationError::OutOfRange { register, .. },
        ) ==> ({
            let xtal = board.xtal;
            let rate = channel.datarate as int;
            let decimation = decimation_value(rate, xtal);
            let offset = intent.offset() as int;
            ||| register == Register::IfFreq && if_freq_word(rate, xtal) > IF_FREQ_MAX
            ||| register == Register::Decimation && (decimation < 1 || decimation
                > DECIMATION_MAX)
            ||| register == Register::RxDataRate && rx_datarate_word(rate, xtal, decimation)
                >= RATE_LIMIT
            ||| register == Register::MaxDrOffset && max_dr_offset_word(
                rate,
                xtal,
                decimation,
                offset,
            ) >= RATE_LIMIT
            ||| register == Register::MaxRfOffset && max_rf_offset_word(offset, xtal)
                >= RF_OFFSET_LIMIT
            ||| register == Register::AmplFilter && intent.amplitude_filter() > COEFFICIENT_MAX
            ||| register == Register::FrequencyLeak && intent.leak() > COEFFICIENT_MAX
        }),
{
}

} // verus!
