//! Frequency synthesis: turning carrier frequencies into the chip's
//! fixed-point frequency words, programming the PLL, and calibrating the
//! oscillator's range.

use crate::board::{Board, Xtal, VCO};
use crate::fixed::{lemma_round_half_up_error, round_div, round_half_up};
use crate::registers::{
    calibrated, ConfigurationError, FreqReg, Operation, Register, Registers,
};
use vstd::prelude::*;

verus! {

/// Carriers below this frequency are taken from the oscillator through the
/// divide-by-two output stage.
pub const RF_DIVIDE_BELOW: u64 = 800_000_000;

/// Value that starts a ranging cycle from the middle of the tuning range:
/// the start flag on top of range 8.
pub const RANGING_START: u8 = 0x18;

/// How often the ranging register is read before calibration is given up,
/// unless the caller chooses otherwise.
pub const RANGING_POLL_BUDGET: u32 = 1000;

/// The frequency word for `freq` hertz: `freq · 2^24 / (xtal / divider)`,
/// rounded to the nearest word, a tie going up.
pub open spec fn frequency_word(freq: int, xtal: Xtal) -> int {
    round_half_up(freq * 0x100_0000 * xtal.divider(), xtal.freq as int)
}

/// The frequency in hertz that `word` stands for, rounded to the nearest
/// hertz, a tie going up.
pub open spec fn word_frequency(word: int, xtal: Xtal) -> int {
    round_half_up(word * xtal.freq, 0x100_0000 * xtal.divider())
}

/// Computes the frequency word for `freq` with the given reference.
pub fn compile_frequency(freq: u64, xtal: &Xtal) -> (word: u128)
    requires
        xtal.freq > 0,
    ensures
        word == frequency_word(freq as int, *xtal),
{
    let div: u128 = xtal.div() as u128;
    let scaled: u128 = (freq as u128) * 0x100_0000;
    assert(scaled * div == freq * 0x100_0000 * xtal.divider() && scaled * div <= scaled * 2)
        by (nonlinear_arith)
        requires
            scaled == freq * 0x100_0000,
            div == xtal.divider(),
            1 <= div <= 2,
    ;
    round_div(scaled * div, xtal.freq as u128)
}

/// Computes the frequency in hertz that `word` stands for.
pub fn decode_frequency(word: u32, xtal: &Xtal) -> (freq: u64)
    ensures
        freq == word_frequency(word as int, *xtal),
{
    let div: u128 = xtal.div() as u128;
    assert(word * xtal.freq <= 0xFFFF_FFFF * 0xFFFF_FFFF) by (nonlinear_arith)
        requires
            0 <= word <= 0xFFFF_FFFF,
            0 <= xtal.freq <= 0xFFFF_FFFF,
    ;
    let product: u128 = (word as u128) * (xtal.freq as u128);
    let q = round_div(product, 0x100_0000 * div);
    proof {
        lemma_round_half_up_error(product as int, 0x100_0000 * div);
        assert(q <= 0xFFFF_FFFF_FFFF_FFFF) by (nonlinear_arith)
            requires
                2 * (0x100_0000 * div) * q <= 2 * product + 0x100_0000 * div,
                product <= 0xFFFF_FFFF * 0xFFFF_FFFF,
                1 <= div <= 2,
        ;
    }
    q as u64
}

/// Compiling a frequency and reading the word back gives a frequency within
/// one quantization step of the one asked for. A step is
/// `xtal / (2^24 · divider)` hertz, so the bound is stated multiplied out:
/// `|back − freq| · 2^24 · divider <= xtal`.
pub proof fn lemma_frequency_round_trip(freq: int, xtal: Xtal)
    requires
        freq >= 0,
        xtal.freq > 0,
    ensures
        ({
            let back = word_frequency(frequency_word(freq, xtal), xtal);
            let scale = 0x100_0000 * xtal.divider();
            &&& (back - freq) * scale <= xtal.freq
            &&& (freq - back) * scale <= xtal.freq
        }),
{
    let x = xtal.freq as int;
    let d: int = 0x100_0000 * xtal.divider();
    let n: int = freq * 0x100_0000 * xtal.divider();
    assert(n == freq * d) by (nonlinear_arith)
        requires
            n == freq * 0x100_0000 * xtal.divider(),
            d == 0x100_0000 * xtal.divider(),
    ;
    assert(n >= 0) by (nonlinear_arith)
        requires
            n == freq * d,
            freq >= 0,
            d > 0,
    ;
    let w = frequency_word(freq, xtal);
    lemma_round_half_up_error(n, x);
    // 2·x·w <= 2·freq·d + x < 2·x·w + 2·x
    let m: int = w * x;
    assert(m >= 0) by (nonlinear_arith)
        requires
            m == w * x,
            w >= 0,
            x > 0,
    ;
    let back = word_frequency(w, xtal);
    lemma_round_half_up_error(m, d);
    // 2·d·back <= 2·w·x + d < 2·d·back + 2·d
    assert(2 * x * w == 2 * m) by (nonlinear_arith)
        requires
            m == w * x,
    ;
    let k = back - freq;
    assert(2 * d * back - 2 * n == 2 * d * k) by (nonlinear_arith)
        requires
            n == freq * d,
            k == back - freq,
    ;
    // so −(x + d) < 2·d·k <= x + d
    assert(2 * d * k <= x + d);
    assert(2 * d * k > -(x + d));
    assert(k * d <= x) by (nonlinear_arith)
        requires
            2 * d * k <= x + d,
            d > 0,
            x > 0,
    ;
    assert((-k) * d <= x) by (nonlinear_arith)
        requires
            2 * d * k > -(x + d),
            d > 0,
            x > 0,
    ;
    assert((freq - back) * d == (-k) * d);
}

/// How the PLL's loop filter is set up.
#[derive(Clone, Copy, Debug, PartialEq, Eq, Structural)]
pub enum LoopFilter {
    External,
    Internalx1,
    Internalx2,
    Internalx5,
}

impl LoopFilter {
    /// The code of this choice in its register.
    pub open spec fn code_of(self) -> int {
        match self {
            LoopFilter::External => 0,
            LoopFilter::Internalx1 => 1,
            LoopFilter::Internalx2 => 2,
            LoopFilter::Internalx5 => 3,
        }
    }

    /// Computes `code_of`.
    pub fn code(&self) -> (c: u8)
        ensures
            c == self.code_of(),
            c <= 3,
    {
        match self {
            LoopFilter::External => 0,
            LoopFilter::Internalx1 => 1,
            LoopFilter::Internalx2 => 2,
            LoopFilter::Internalx5 => 3,
        }
    }
}

/// One set of PLL loop parameters.
#[derive(Clone, Copy, Debug, PartialEq, Eq, Structural)]
pub struct PLL {
    /// Charge-pump current, in the chip's steps of 8.5 µA.
    pub charge_pump_current: u8,
    pub filter_bandwidth: LoopFilter,
    /// Whether the loop filter goes straight to the oscillator, past the
    /// filter pin.
    pub direct: bool,
}

/// A setting that the chip can choose by itself or be told.
#[derive(Clone, Copy, Debug, PartialEq, Eq, Structural)]
pub enum Control {
    Automatic,
    Manual(u8),
}

/// The clock that paces a ranging cycle, as a fraction of the reference.
#[derive(Clone, Copy, Debug, PartialEq, Eq, Structural)]
pub enum RangingClock {
    XtalDiv256,
    XtalDiv512,
    XtalDiv1024,
    XtalDiv2048,
    XtalDiv4096,
    XtalDiv8192,
    XtalDiv16384,
    XtalDiv32768,
}

impl RangingClock {
    /// The code of this choice in its register.
    pub open spec fn code_of(self) -> int {
        match self {
            RangingClock::XtalDiv256 => 0,
            RangingClock::XtalDiv512 => 1,
            RangingClock::XtalDiv1024 => 2,
            RangingClock::XtalDiv2048 => 3,
            RangingClock::XtalDiv4096 => 4,
            RangingClock::XtalDiv8192 => 5,
            RangingClock::XtalDiv16384 => 6,
            RangingClock::XtalDiv32768 => 7,
        }
    }

    /// Computes `code_of`.
    pub fn code(&self) -> (c: u8)
        ensures
            c == self.code_of(),
            c <= 7,
    {
        match self {
            RangingClock::XtalDiv256 => 0,
            RangingClock::XtalDiv512 => 1,
            RangingClock::XtalDiv1024 => 2,
            RangingClock::XtalDiv2048 => 3,
            RangingClock::XtalDiv4096 => 4,
            RangingClock::XtalDiv8192 => 5,
            RangingClock::XtalDiv16384 => 6,
            RangingClock::XtalDiv32768 => 7,
        }
    }
}

/// What the synthesizer is asked to do. A frequency of 0 means that the
/// register is not used.
#[derive(Clone, Copy, Debug, PartialEq, Eq, Structural)]
pub struct Synthesizer {
    pub freq_a: u64,
    pub freq_b: u64,
    /// The register that drives the PLL.
    pub active: FreqReg,
    /// Loop parameters in normal operation.
    pub pll: PLL,
    /// Loop parameters while the loop settles.
    pub boost: PLL,
    pub vco_current: Control,
    pub lock_detector_delay: Control,
    pub ranging_clock: RangingClock,
}

/// The register contents that a synthesizer configuration compiles to.
#[derive(Clone, Copy, Debug, PartialEq, Eq, Structural)]
pub struct SynthesizerImage {
    pub pll_loop: u8,
    pub pll_cpi: u8,
    pub pll_loop_boost: u8,
    pub pll_cpi_boost: u8,
    pub vco_div: u8,
    pub perf_f34: u8,
    pub vco_current: u8,
    pub lock_detect: u8,
    pub ranging_clock: u8,
    pub freq_a: Option<u32>,
    pub freq_b: Option<u32>,
}

/// Flag of the loop register that connects the loop filter straight to the
/// oscillator.
pub const LOOP_DIRECT: u8 = 0x08;

/// The loop register: the filter code, bit 3 for the direct connection, and
/// bit 7 when register B drives the PLL.
pub open spec fn loop_value(pll: PLL, active: FreqReg) -> int {
    pll.filter_bandwidth.code_of() + (if pll.direct {
        LOOP_DIRECT as int
    } else {
        0
    }) + (if active is B {
        0x80int
    } else {
        0
    })
}

/// Computes `loop_value`.
fn loop_byte(pll: PLL, active: FreqReg) -> (v: u8)
    ensures
        v == loop_value(pll, active),
{
    let direct: u8 = if pll.direct {
        LOOP_DIRECT
    } else {
        0
    };
    let sel: u8 = match active {
        FreqReg::A => 0,
        FreqReg::B => 0x80,
    };
    pll.filter_bandwidth.code() + direct + sel
}

impl Synthesizer {
    /// The frequency that drives the PLL.
    pub open spec fn active_frequency(self) -> u64 {
        match self.active {
            FreqReg::A => self.freq_a,
            FreqReg::B => self.freq_b,
        }
    }

    /// The frequency register that drives the PLL.
    pub open spec fn active_register(self) -> Register {
        match self.active {
            FreqReg::A => Register::FreqA,
            FreqReg::B => Register::FreqB,
        }
    }

    /// Whether the carrier is taken through the divide-by-two stage.
    pub open spec fn rf_divided(self) -> bool {
        self.active_frequency() < RF_DIVIDE_BELOW
    }

    /// The oscillator selection register: the oscillator's code, and bit 2
    /// for the divide-by-two stage.
    pub open spec fn vco_div_value(self, board: Board) -> int {
        (match board.vco {
            VCO::Internal => 0x00int,
            VCO::Inductor => 0x30,
            VCO::External => 0x10,
        }) + if self.rf_divided() {
            0x04int
        } else {
            0
        }
    }

    /// The current register: 0 for automatic, else bit 7 on top of the
    /// six-bit current.
    pub open spec fn vco_current_value(self) -> int {
        match self.vco_current {
            Control::Automatic => 0,
            Control::Manual(v) => 0x80 + v,
        }
    }

    /// The lock-detector register: 0 for automatic, else bit 2 on top of the
    /// two-bit delay.
    pub open spec fn lock_detect_value(self) -> int {
        match self.lock_detector_delay {
            Control::Automatic => 0,
            Control::Manual(d) => 0x04 + d,
        }
    }

    /// What the configuration compiles to, or the first reason why it does
    /// not. The checks come in this order: the manual oscillator current
    /// (six bits), the manual lock-detector delay (two bits), the active
    /// frequency (it must be in use, and the reference must not be zero),
    /// then the words for A and B (32 bits each).
    pub open spec fn compiled(self, board: Board) -> Result<SynthesizerImage, ConfigurationError> {
        if self.vco_current matches Control::Manual(v) && v > 0x3F {
            Err(
                ConfigurationError::OutOfRange {
                    register: Register::PllVcoI,
                    value: self.vco_current->Manual_0 as u128,
                },
            )
        } else if self.lock_detector_delay matches Control::Manual(d) && d > 3 {
            Err(
                ConfigurationError::OutOfRange {
                    register: Register::PllLockDet,
                    value: self.lock_detector_delay->Manual_0 as u128,
                },
            )
        } else if self.active_frequency() == 0 || board.xtal.freq == 0 {
            Err(ConfigurationError::Undefined { register: self.active_register() })
        } else if self.freq_a != 0 && frequency_word(self.freq_a as int, board.xtal)
            > 0xFFFF_FFFF {
            Err(
                ConfigurationError::OutOfRange {
                    register: Register::FreqA,
                    value: frequency_word(self.freq_a as int, board.xtal) as u128,
                },
            )
        } else if self.freq_b != 0 && frequency_word(self.freq_b as int, board.xtal)
            > 0xFFFF_FFFF {
            Err(
                ConfigurationError::OutOfRange {
                    register: Register::FreqB,
                    value: frequency_word(self.freq_b as int, board.xtal) as u128,
                },
            )
        } else {
            Ok(
                SynthesizerImage {
                    pll_loop: loop_value(self.pll, self.active) as u8,
                    pll_cpi: self.pll.charge_pump_current,
                    pll_loop_boost: loop_value(self.boost, self.active) as u8,
                    pll_cpi_boost: self.boost.charge_pump_current,
                    vco_div: self.vco_div_value(board) as u8,
                    perf_f34: if self.rf_divided() {
                        0x28u8
                    } else {
                        0x08u8
                    },
                    vco_current: self.vco_current_value() as u8,
                    lock_detect: self.lock_detect_value() as u8,
                    ranging_clock: self.ranging_clock.code_of() as u8,
                    freq_a: if self.freq_a != 0 {
                        Some(frequency_word(self.freq_a as int, board.xtal) as u32)
                    } else {
                        None
                    },
                    freq_b: if self.freq_b != 0 {
                        Some(frequency_word(self.freq_b as int, board.xtal) as u32)
                    } else {
                        None
                    },
                },
            )
        }
    }

    /// Derives the register contents for this configuration on `board`.
    pub fn compile(&self, board: &Board) -> (r: Result<SynthesizerImage, ConfigurationError>)
        ensures
            r == self.compiled(*board),
    {
        let vco_current: u8 = match self.vco_current {
            Control::Automatic => 0,
            Control::Manual(v) => {
                if v > 0x3F {
                    return Err(
                        ConfigurationError::OutOfRange {
                            register: Register::PllVcoI,
                            value: v as u128,
                        },
                    );
                }
                0x80 + v
            },
        };
        let lock_detect: u8 = match self.lock_detector_delay {
            Control::Automatic => 0,
            Control::Manual(d) => {
                if d > 3 {
                    return Err(
                        ConfigurationError::OutOfRange {
                            register: Register::PllLockDet,
                            value: d as u128,
                        },
                    );
                }
                0x04 + d
            },
        };
        let (active_frequency, active_register) = match self.active {
            FreqReg::A => (self.freq_a, Register::FreqA),
            FreqReg::B => (self.freq_b, Register::FreqB),
        };
        if active_frequency == 0 || board.xtal.freq == 0 {
            return Err(ConfigurationError::Undefined { register: active_register });
        }
        let mut freq_a: Option<u32> = None;
        if self.freq_a != 0 {
            let word = compile_frequency(self.freq_a, &board.xtal);
            if word > 0xFFFF_FFFF {
                return Err(ConfigurationError::OutOfRange { register: Register::FreqA, value: word });
            }
            freq_a = Some(word as u32);
        }
        let mut freq_b: Option<u32> = None;
        if self.freq_b != 0 {
            let word = compile_frequency(self.freq_b, &board.xtal);
            if word > 0xFFFF_FFFF {
                return Err(ConfigurationError::OutOfRange { register: Register::FreqB, value: word });
            }
            freq_b = Some(word as u32);
        }
        let divided = active_frequency < RF_DIVIDE_BELOW;
        let vco: u8 = match board.vco {
            VCO::Internal => 0x00,
            VCO::Inductor => 0x30,
            VCO::External => 0x10,
        };
        let rfdiv: u8 = if divided {
            0x04
        } else {
            0
        };
        Ok(
            SynthesizerImage {
                pll_loop: loop_byte(self.pll, self.active),
                pll_cpi: self.pll.charge_pump_current,
                pll_loop_boost: loop_byte(self.boost, self.active),
                pll_cpi_boost: self.boost.charge_pump_current,
                vco_div: vco + rfdiv,
                perf_f34: if divided {
                    0x28
                } else {
                    0x08
                },
                vco_current,
                lock_detect,
                ranging_clock: self.ranging_clock.code(),
                freq_a,
                freq_b,
            },
        )
    }

    /// Compiles the configuration and records its writes. On an error
    /// nothing is recorded.
    pub fn write(self, radio: &mut Registers, board: &Board) -> (r: Result<
        Synthesizer,
        ConfigurationError,
    >)
        ensures
            match self.compiled(*board) {
                Ok(image) => r == Ok::<Synthesizer, ConfigurationError>(self) && final(radio)@
                    =~= old(radio)@ + image.operations(),
                Err(e) => r == Err::<Synthesizer, ConfigurationError>(e) && final(radio)@ == old(radio)@,
            },
    {
        let image = self.compile(board)?;
        image.write(radio);
        Ok(self)
    }

    /// The operations of one calibration: the loop parameters of normal
    /// operation are put in force, the cycle is started on the active
    /// register, and its end is awaited. The loop is calibrated with the
    /// parameters it then works with: nothing after the wait touches them.
    pub open spec fn ranging_operations(self) -> Seq<Operation> {
        seq![
            Operation::Write {
                register: Register::PllLoop,
                value: loop_value(self.pll, self.active) as u32,
            },
            Operation::Write {
                register: Register::PllCpi,
                value: self.pll.charge_pump_current as u32,
            },
            Operation::Write {
                register: match self.active {
                    FreqReg::A => Register::PllRangingA,
                    FreqReg::B => Register::PllRangingB,
                },
                value: RANGING_START as u32,
            },
            Operation::AwaitRanging { register: self.active },
        ]
    }

    /// Records one calibration of the oscillator's range. It belongs after
    /// every change of a frequency word or of a setting of the PLL and
    /// before the chip is put into receive or transmit mode: the record
    /// counts as calibrated from here until the next such change. The wait
    /// itself is carried out by whoever replays the record, with a
    /// `RangingPoll`.
    pub fn autorange(&self, radio: &mut Registers)
        ensures
            final(radio)@ =~= old(radio)@ + self.ranging_operations(),
            calibrated(final(radio)@),
    {
        radio.write_byte(Register::PllLoop, loop_byte(self.pll, self.active));
        radio.write_byte(Register::PllCpi, self.pll.charge_pump_current);
        let ranging = match self.active {
            FreqReg::A => Register::PllRangingA,
            FreqReg::B => Register::PllRangingB,
        };
        radio.write_byte(ranging, RANGING_START);
        radio.await_ranging(self.active);
        assert(radio@[radio@.len() - 1] is AwaitRanging);
    }
}

impl SynthesizerImage {
    /// The fixed part of the image, which is always written.
    pub open spec fn loop_operations(self) -> Seq<Operation> {
        seq![
            Operation::Write { register: Register::PllLoop, value: self.pll_loop as u32 },
            Operation::Write { register: Register::PllCpi, value: self.pll_cpi as u32 },
            Operation::Write { register: Register::PllLoopBoost, value: self.pll_loop_boost as u32 },
            Operation::Write { register: Register::PllCpiBoost, value: self.pll_cpi_boost as u32 },
            Operation::Write { register: Register::PllVcoDiv, value: self.vco_div as u32 },
            Operation::Write { register: Register::PerfF34, value: self.perf_f34 as u32 },
            Operation::Write { register: Register::PllVcoI, value: self.vco_current as u32 },
            Operation::Write { register: Register::PllLockDet, value: self.lock_detect as u32 },
            Operation::Write { register: Register::PllRngClk, value: self.ranging_clock as u32 },
        ]
    }

    /// The write of one frequency word, if the register is in use.
    pub open spec fn word_operations(register: Register, word: Option<u32>) -> Seq<Operation> {
        match word {
            Some(value) => seq![Operation::Write { register, value }],
            None => Seq::empty(),
        }
    }

    /// All writes of the image: the loop set-up, then word A, then word B.
    pub open spec fn operations(self) -> Seq<Operation> {
        self.loop_operations() + Self::word_operations(Register::FreqA, self.freq_a)
            + Self::word_operations(Register::FreqB, self.freq_b)
    }

    /// Records the writes of the image.
    pub fn write(&self, radio: &mut Registers)
        ensures
            final(radio)@ =~= old(radio)@ + self.operations(),
    {
        radio.write_byte(Register::PllLoop, self.pll_loop);
        radio.write_byte(Register::PllCpi, self.pll_cpi);
        radio.write_byte(Register::PllLoopBoost, self.pll_loop_boost);
        radio.write_byte(Register::PllCpiBoost, self.pll_cpi_boost);
        radio.write_byte(Register::PllVcoDiv, self.vco_div);
        radio.write_byte(Register::PerfF34, self.perf_f34);
        radio.write_byte(Register::PllVcoI, self.vco_current);
        radio.write_byte(Register::PllLockDet, self.lock_detect);
        radio.write_byte(Register::PllRngClk, self.ranging_clock);
        if let Some(word) = self.freq_a {
            radio.record(Register::FreqA, word);
        }
        if let Some(word) = self.freq_b {
            radio.record(Register::FreqB, word);
        }
    }
}

/// Why calibration failed.
#[derive(Clone, Copy, Debug, PartialEq, Eq, Structural)]
pub enum CalibrationError {
    /// The end of the ranging cycle was not seen within the budget of
    /// `polls` reads.
    RangingTimeout { polls: u32 },
}

/// What one read of the ranging register leads to.
#[derive(Clone, Copy, Debug, PartialEq, Eq, Structural)]
pub enum RangingStep {
    /// The cycle is still running: read again.
    Pending,
    /// The cycle has ended. The range that the chip settled on and its error
    /// flag are for diagnostics.
    Done { vco_range: u8, range_error: bool },
    /// The budget is used up.
    Failed(CalibrationError),
}

/// Whether a value of the ranging register shows the cycle as ended: the
/// start flag, bit 4, has cleared itself.
pub open spec fn ranging_done(status: u8) -> bool {
    (status / 0x10) % 2 == 0
}

/// The bounded wait for the end of a ranging cycle.
#[derive(Clone, Copy, Debug, PartialEq, Eq, Structural)]
pub struct RangingPoll {
    pub budget: u32,
    pub polls: u32,
}

impl RangingPoll {
    /// A wait that allows `budget` reads of the ranging register.
    pub fn new(budget: u32) -> (poll: RangingPoll)
        ensures
            poll == (RangingPoll { budget, polls: 0 }),
    {
        RangingPoll { budget, polls: 0 }
    }

    /// The decision on a read that returned `status`: with the budget used
    /// up the read does not count; else it counts, and ends the wait if the
    /// cycle is over or this was the last read allowed.
    pub open spec fn decided(self, status: u8) -> (RangingPoll, RangingStep) {
        if self.polls >= self.budget {
            (self, RangingStep::Failed(CalibrationError::RangingTimeout { polls: self.polls }))
        } else {
            let next = RangingPoll { budget: self.budget, polls: (self.polls + 1) as u32 };
            if ranging_done(status) {
                (
                    next,
                    RangingStep::Done {
                        vco_range: status % 0x10,
                        range_error: (status / 0x20) % 2 == 1,
                    },
                )
            } else if next.polls == self.budget {
                (next, RangingStep::Failed(CalibrationError::RangingTimeout { polls: next.polls }))
            } else {
                (next, RangingStep::Pending)
            }
        }
    }

    /// Takes one value read from the ranging register and says how the wait
    /// goes on.
    pub fn observe(&mut self, status: u8) -> (step: RangingStep)
        ensures
            (*final(self), step) == old(self).decided(status),
            step is Pending ==> final(self).polls == old(self).polls + 1 && final(self).polls
                < final(self).budget,
    {
        if self.polls >= self.budget {
            return RangingStep::Failed(CalibrationError::RangingTimeout { polls: self.polls });
        }
        self.polls = self.polls + 1;
        if (status / 0x10) % 2 == 0 {
            RangingStep::Done { vco_range: status % 0x10, range_error: (status / 0x20) % 2 == 1 }
        } else if self.polls == self.budget {
            RangingStep::Failed(CalibrationError::RangingTimeout { polls: self.polls })
        } else {
            RangingStep::Pending
        }
    }
}

impl RangingPoll {
    /// The wait after the reads `statuses`, in their order.
    pub open spec fn after_reads(self, statuses: Seq<u8>) -> RangingPoll
        decreases statuses.len(),
    {
        if statuses.len() == 0 {
            self
        } else {
            self.after_reads(statuses.drop_last()).decided(statuses.last()).0
        }
    }
}

/// The wait for the end of a ranging cycle is bounded by its budget: by the
/// time as many reads have been taken as the budget allows, whatever they
/// showed, the read that comes next is not answered with "read again".
pub proof fn lemma_ranging_wait_is_bounded(poll: RangingPoll, statuses: Seq<u8>, next: u8)
    requires
        poll.polls + statuses.len() + 1 >= poll.budget,
    ensures
        !(poll.after_reads(statuses).decided(next).1 is Pending),
{
    lemma_reads_are_counted(poll, statuses);
}

/// Every read counts until the budget is used up, and none after that.
proof fn lemma_reads_are_counted(poll: RangingPoll, statuses: Seq<u8>)
    ensures
        poll.after_reads(statuses).budget == poll.budget,
        poll.polls >= poll.budget ==> poll.after_reads(statuses).polls == poll.polls,
        poll.polls < poll.budget ==> poll.after_reads(statuses).polls == if poll.polls
            + statuses.len() < poll.budget {
            poll.polls + statuses.len()
        } else {
            poll.budget as int
        },
    decreases statuses.len(),
{
    if statuses.len() > 0 {
        lemma_reads_are_counted(poll, statuses.drop_last());
    }
}

} // verus!
