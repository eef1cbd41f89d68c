//! The chip's preamble state machine: up to three stages that wait for a bit
//! pattern or a timeout, then the packet stage. Each stage runs with one of
//! the receiver parameter sets, which therefore has to be loaded before the
//! stage machine is.

use crate::fixed::{lemma_pow2_positive, pow2};
use crate::registers::{
    keeps_calibration, out_of_range, slot_loaded, ConfigurationError, Operation, Register,
    Registers, RxParamSet,
};
use vstd::prelude::*;

verus! {

/// Largest mantissa of a timeout: five bits.
pub const TIMEOUT_MANTISSA_MAX: u8 = 0x1F;

/// Largest exponent of a timeout: three bits.
pub const TIMEOUT_EXPONENT_MAX: u8 = 0x07;

/// Largest length and tolerance of the 16-bit matcher: four bits.
pub const MATCH1_FIELD_MAX: u8 = 0x0F;

/// Largest length and tolerance of the 32-bit matcher: five bits.
pub const MATCH0_FIELD_MAX: u8 = 0x1F;

/// Flag in a matcher's length register: match on raw bits, not on the
/// decoded ones.
pub const MATCH_RAW: u8 = 0x80;

/// A timeout of `m · 2^e` bit times.
#[derive(Clone, Copy, Debug, PartialEq, Eq, Structural)]
pub struct Float5 {
    pub m: u8,
    pub e: u8,
}

impl Float5 {
    /// The timeout in bit times.
    pub open spec fn ticks(self) -> int {
        self.m * pow2(self.e as nat)
    }

    /// The timeout register: the exponent above the five bits of the
    /// mantissa.
    pub open spec fn value(self) -> int {
        self.e * 32 + self.m
    }

    /// Whether both fields fit.
    pub open spec fn fits(self) -> bool {
        self.m <= TIMEOUT_MANTISSA_MAX && self.e <= TIMEOUT_EXPONENT_MAX
    }

    /// The field that does not fit: the mantissa if it is too large, else
    /// the exponent.
    pub open spec fn offending(self) -> u8 {
        if self.m > TIMEOUT_MANTISSA_MAX {
            self.m
        } else {
            self.e
        }
    }

    /// Computes the timeout in bit times.
    pub fn to_ticks(&self) -> (t: u32)
        requires
            self.fits(),
        ensures
            t == self.ticks(),
    {
        let mut t: u32 = self.m as u32;
        let mut k: u8 = 0;
        proof {
            assert(pow2(0) == 1);
            assert(self.m * pow2(0) == self.m) by (nonlinear_arith)
                requires
                    pow2(0) == 1,
            ;
            assert(pow2(7) == 0x80) by {
                assert(pow2(1) == 2 * pow2(0));
                assert(pow2(2) == 2 * pow2(1));
                assert(pow2(3) == 2 * pow2(2));
                assert(pow2(4) == 2 * pow2(3));
                assert(pow2(5) == 2 * pow2(4));
                assert(pow2(6) == 2 * pow2(5));
                assert(pow2(7) == 2 * pow2(6));
            }
        }
        while k < self.e
            invariant
                self.fits(),
                k <= self.e,
                t == self.m * pow2(k as nat),
                t <= 0x1F * 0x80,
                1 <= pow2(k as nat),
                pow2(k as nat) * pow2((7 - k) as nat) == 0x80,
            decreases self.e - k,
        {
            proof {
                let p = pow2(k as nat);
                let rest = pow2((7 - k) as nat);
                assert(rest == 2 * pow2((6 - k) as nat));
                assert(pow2((k + 1) as nat) == 2 * p);
                lemma_pow2_positive((6 - k) as nat);
                assert((2 * p) * pow2((6 - k) as nat) == 0x80 && 2 * p <= 0x80)
                    by (nonlinear_arith)
                    requires
                        p * (2 * pow2((6 - k) as nat)) == 0x80,
                        pow2((6 - k) as nat) >= 1,
                        p >= 1,
                ;
                assert(self.m * (2 * p) == 2 * (self.m * p) && self.m * (2 * p) <= 0x1F * 0x80)
                    by (nonlinear_arith)
                    requires
                        0 <= self.m <= 0x1F,
                        0 <= 2 * p <= 0x80,
                ;
            }
            t = t * 2;
            k = k + 1;
        }
        t
    }

    /// Computes the timeout register, or refuses a field that does not fit
    /// and names `register`.
    pub fn encode(&self, register: Register) -> (r: Result<u8, ConfigurationError>)
        ensures
            self.fits() ==> r == Ok::<u8, ConfigurationError>(self.value() as u8),
            !self.fits() ==> r == Err::<u8, ConfigurationError>(
                ConfigurationError::OutOfRange { register, value: self.offending() as u128 },
            ),
    {
        if self.m > TIMEOUT_MANTISSA_MAX {
            Err(ConfigurationError::OutOfRange { register, value: self.m as u128 })
        } else if self.e > TIMEOUT_EXPONENT_MAX {
            Err(ConfigurationError::OutOfRange { register, value: self.e as u128 })
        } else {
            Ok(self.e * 32 + self.m)
        }
    }
}

/// What the 16-bit matcher looks for.
#[derive(Clone, Copy, Debug, PartialEq, Eq, Structural)]
pub struct PatternMatch1 {
    pub pat: u16,
    /// Length of the pattern in bits, less one.
    pub len: u8,
    /// Match on raw bits rather than decoded ones.
    pub raw: bool,
    /// A match is signalled when at most `min` or at least `max` bits agree.
    pub min: u8,
    pub max: u8,
}

/// What the 32-bit matcher looks for.
#[derive(Clone, Copy, Debug, PartialEq, Eq, Structural)]
pub struct PatternMatch0 {
    pub pat: u32,
    /// Length of the pattern in bits, less one.
    pub len: u8,
    /// Match on raw bits rather than decoded ones.
    pub raw: bool,
    /// A match is signalled when at most `min` or at least `max` bits agree.
    pub min: u8,
    pub max: u8,
}

/// The first preamble stage: the 16-bit matcher.
#[derive(Clone, Copy, Debug, PartialEq, Eq, Structural)]
pub struct Preamble1 {
    pub pattern: PatternMatch1,
    pub timeout: Float5,
    pub set: RxParamSet,
}

/// The second preamble stage: the 32-bit matcher.
#[derive(Clone, Copy, Debug, PartialEq, Eq, Structural)]
pub struct Preamble2 {
    pub pattern: PatternMatch0,
    pub timeout: Float5,
    pub set: RxParamSet,
}

/// The third preamble stage, which has a timeout and no matcher.
#[derive(Clone, Copy, Debug, PartialEq, Eq, Structural)]
pub struct Preamble3 {
    pub timeout: Float5,
    pub set: RxParamSet,
}

/// The whole stage machine. A stage that is `None` is switched off, and the
/// chip goes straight on to the one after it. The packet stage is always
/// there and has a parameter set only.
#[derive(Clone, Copy, Debug, PartialEq, Eq, Structural)]
pub struct RXParameterStages {
    pub preamble1: Option<Preamble1>,
    pub preamble2: Option<Preamble2>,
    pub preamble3: Option<Preamble3>,
    pub packet: RxParamSet,
}

/// The registers of the 16-bit matcher and its stage's timeout.
#[derive(Clone, Copy, Debug, PartialEq, Eq, Structural)]
pub struct Matcher1Image {
    pub pat: u16,
    pub len: u8,
    pub min: u8,
    pub max: u8,
    pub timeout: u8,
}

/// The registers of the 32-bit matcher and its stage's timeout.
#[derive(Clone, Copy, Debug, PartialEq, Eq, Structural)]
pub struct Matcher0Image {
    pub pat: u32,
    pub len: u8,
    pub min: u8,
    pub max: u8,
    pub timeout: u8,
}

/// The register contents that a stage machine compiles to.
#[derive(Clone, Copy, Debug, PartialEq, Eq, Structural)]
pub struct StageImage {
    pub first: Matcher1Image,
    pub second: Matcher0Image,
    pub timeout3: u8,
    pub slots: u8,
}

/// A matcher's length register: the length, and bit 7 for raw matching.
pub open spec fn match_len_value(len: u8, raw: bool) -> int {
    len + if raw {
        MATCH_RAW as int
    } else {
        0
    }
}

/// What is written for a first stage that is switched off: matcher and
/// timeout cleared.
pub open spec fn matcher1_off() -> Matcher1Image {
    Matcher1Image { pat: 0, len: 0, min: 0, max: 0, timeout: 0 }
}

/// What is written for a second stage that is switched off.
pub open spec fn matcher0_off() -> Matcher0Image {
    Matcher0Image { pat: 0, len: 0, min: 0, max: 0, timeout: 0 }
}

impl Preamble1 {
    /// The first field that does not fit: length, tolerances (four bits
    /// each), then the timeout.
    pub open spec fn refusal(self) -> Option<ConfigurationError> {
        if self.pattern.len > MATCH1_FIELD_MAX {
            out_of_range(Register::Match1Len, self.pattern.len as int)
        } else if self.pattern.min > MATCH1_FIELD_MAX {
            out_of_range(Register::Match1Min, self.pattern.min as int)
        } else if self.pattern.max > MATCH1_FIELD_MAX {
            out_of_range(Register::Match1Max, self.pattern.max as int)
        } else if !self.timeout.fits() {
            out_of_range(Register::TmgRxPreamble1, self.timeout.offending() as int)
        } else {
            None
        }
    }

    /// The stage's registers.
    pub open spec fn image(self) -> Matcher1Image {
        Matcher1Image {
            pat: self.pattern.pat,
            len: match_len_value(self.pattern.len, self.pattern.raw) as u8,
            min: self.pattern.min,
            max: self.pattern.max,
            timeout: self.timeout.value() as u8,
        }
    }

    /// Derives the stage's registers.
    pub fn compile(&self) -> (r: Result<Matcher1Image, ConfigurationError>)
        ensures
            match self.refusal() {
                Some(e) => r == Err::<Matcher1Image, ConfigurationError>(e),
                None => r == Ok::<Matcher1Image, ConfigurationError>(self.image()),
            },
    {
        let p = self.pattern;
        if p.len > MATCH1_FIELD_MAX {
            return Err(
                ConfigurationError::OutOfRange { register: Register::Match1Len, value: p.len as u128 },
            );
        }
        if p.min > MATCH1_FIELD_MAX {
            return Err(
                ConfigurationError::OutOfRange { register: Register::Match1Min, value: p.min as u128 },
            );
        }
        if p.max > MATCH1_FIELD_MAX {
            return Err(
                ConfigurationError::OutOfRange { register: Register::Match1Max, value: p.max as u128 },
            );
        }
        let timeout = self.timeout.encode(Register::TmgRxPreamble1)?;
        let raw: u8 = if p.raw {
            MATCH_RAW
        } else {
            0
        };
        Ok(Matcher1Image { pat: p.pat, len: p.len + raw, min: p.min, max: p.max, timeout })
    }
}

impl Preamble2 {
    /// The first field that does not fit: length, tolerances (five bits
    /// each), then the timeout.
    pub open spec fn refusal(self) -> Option<ConfigurationError> {
        if self.pattern.len > MATCH0_FIELD_MAX {
            out_of_range(Register::Match0Len, self.pattern.len as int)
        } else if self.pattern.min > MATCH0_FIELD_MAX {
            out_of_range(Register::Match0Min, self.pattern.min as int)
        } else if self.pattern.max > MATCH0_FIELD_MAX {
            out_of_range(Register::Match0Max, self.pattern.max as int)
        } else if !self.timeout.fits() {
            out_of_range(Register::TmgRxPreamble2, self.timeout.offending() as int)
        } else {
            None
        }
    }

    /// The stage's registers.
    pub open spec fn image(self) -> Matcher0Image {
        Matcher0Image {
            pat: self.pattern.pat,
            len: match_len_value(self.pattern.len, self.pattern.raw) as u8,
            min: self.pattern.min,
            max: self.pattern.max,
            timeout: self.timeout.value() as u8,
        }
    }

    /// Derives the stage's registers.
    pub fn compile(&self) -> (r: Result<Matcher0Image, ConfigurationError>)
        ensures
            match self.refusal() {
                Some(e) => r == Err::<Matcher0Image, ConfigurationError>(e),
                None => r == Ok::<Matcher0Image, ConfigurationError>(self.image()),
            },
    {
        let p = self.pattern;
        if p.len > MATCH0_FIELD_MAX {
            return Err(
                ConfigurationError::OutOfRange { register: Register::Match0Len, value: p.len as u128 },
            );
        }
        if p.min > MATCH0_FIELD_MAX {
            return Err(
                ConfigurationError::OutOfRange { register: Register::Match0Min, value: p.min as u128 },
            );
        }
        if p.max > MATCH0_FIELD_MAX {
            return Err(
                ConfigurationError::OutOfRange { register: Register::Match0Max, value: p.max as u128 },
            );
        }
        let timeout = self.timeout.encode(Register::TmgRxPreamble2)?;
        let raw: u8 = if p.raw {
            MATCH_RAW
        } else {
            0
        };
        Ok(Matcher0Image { pat: p.pat, len: p.len + raw, min: p.min, max: p.max, timeout })
    }
}

impl RXParameterStages {
    /// Whether the stage machine runs some stage with parameter set `slot`.
    pub open spec fn references(self, slot: RxParamSet) -> bool {
        ||| self.preamble1 matches Some(stage) && stage.set == slot
        ||| self.preamble2 matches Some(stage) && stage.set == slot
        ||| self.preamble3 matches Some(stage) && stage.set == slot
        ||| self.packet == slot
    }

    /// The parameter set of the third stage, or of the packet stage that the
    /// chip goes on to when there is no third.
    pub open spec fn slot3(self) -> RxParamSet {
        match self.preamble3 {
            Some(stage) => stage.set,
            None => self.packet,
        }
    }

    /// The parameter set of the second stage, or of what follows it.
    pub open spec fn slot2(self) -> RxParamSet {
        match self.preamble2 {
            Some(stage) => stage.set,
            None => self.slot3(),
        }
    }

    /// The parameter set of the first stage, or of what follows it.
    pub open spec fn slot1(self) -> RxParamSet {
        match self.preamble1 {
            Some(stage) => stage.set,
            None => self.slot2(),
        }
    }

    /// The stage-to-slot map register: two bits per stage, the first stage
    /// lowest, the packet stage highest. A stage that is switched off has
    /// the entry of the stage that the chip goes on to, so the map never
    /// names a set that no stage in use names.
    pub open spec fn slots_value(self) -> int {
        self.slot1().index() + 4 * self.slot2().index() + 16 * self.slot3().index() + 64
            * self.packet.index()
    }

    /// The first parameter set, in the order of the stages, that a stage in
    /// use names and that `log` does not leave loaded.
    pub open spec fn missing_slot(self, log: Seq<Operation>) -> Option<RxParamSet> {
        if self.preamble1 matches Some(stage) && !slot_loaded(log, stage.set) {
            Some(self.preamble1->0.set)
        } else if self.preamble2 matches Some(stage) && !slot_loaded(log, stage.set) {
            Some(self.preamble2->0.set)
        } else if self.preamble3 matches Some(stage) && !slot_loaded(log, stage.set) {
            Some(self.preamble3->0.set)
        } else if !slot_loaded(log, self.packet) {
            Some(self.packet)
        } else {
            None
        }
    }

    /// The first field, in the order of the stages, that does not fit the
    /// bits it is meant for.
    pub open spec fn field_refusal(self) -> Option<ConfigurationError> {
        if self.preamble1 matches Some(stage) && stage.refusal() is Some {
            self.preamble1->0.refusal()
        } else if self.preamble2 matches Some(stage) && stage.refusal() is Some {
            self.preamble2->0.refusal()
        } else if self.preamble3 matches Some(stage) && !stage.timeout.fits() {
            out_of_range(Register::TmgRxPreamble3, self.preamble3->0.timeout.offending() as int)
        } else {
            None
        }
    }

    /// The registers of the stage machine. A stage that is switched off has
    /// its matcher and its timeout cleared.
    pub open spec fn image(self) -> StageImage {
        StageImage {
            first: match self.preamble1 {
                Some(stage) => stage.image(),
                None => matcher1_off(),
            },
            second: match self.preamble2 {
                Some(stage) => stage.image(),
                None => matcher0_off(),
            },
            timeout3: match self.preamble3 {
                Some(stage) => stage.timeout.value() as u8,
                None => 0,
            },
            slots: self.slots_value() as u8,
        }
    }

    /// What the stage machine compiles to after the operations in `log`: an
    /// error for the first parameter set that is named and not loaded, else
    /// an error for the first field that does not fit, else the image.
    pub open spec fn compiled(self, log: Seq<Operation>) -> Result<StageImage, ConfigurationError> {
        match self.missing_slot(log) {
            Some(slot) => Err(ConfigurationError::UnwrittenSlot { slot }),
            None => match self.field_refusal() {
                Some(e) => Err(e),
                None => Ok(self.image()),
            },
        }
    }

    /// Looks for a parameter set that a stage in use names and that `radio`
    /// does not have loaded.
    pub fn find_missing_slot(&self, radio: &Registers) -> (missing: Option<RxParamSet>)
        ensures
            missing == self.missing_slot(radio@),
    {
        if let Some(stage) = self.preamble1 {
            if !radio.slot_written(stage.set) {
                return Some(stage.set);
            }
        }
        if let Some(stage) = self.preamble2 {
            if !radio.slot_written(stage.set) {
                return Some(stage.set);
            }
        }
        if let Some(stage) = self.preamble3 {
            if !radio.slot_written(stage.set) {
                return Some(stage.set);
            }
        }
        if !radio.slot_written(self.packet) {
            return Some(self.packet);
        }
        None
    }

    /// Computes the stage-to-slot map register.
    pub fn slot_map(&self) -> (v: u8)
        ensures
            v == self.slots_value(),
    {
        let slot3 = match self.preamble3 {
            Some(stage) => stage.set,
            None => self.packet,
        };
        let slot2 = match self.preamble2 {
            Some(stage) => stage.set,
            None => slot3,
        };
        let slot1 = match self.preamble1 {
            Some(stage) => stage.set,
            None => slot2,
        };
        slot1.number() + 4 * slot2.number() + 16 * slot3.number() + 64 * self.packet.number()
    }

    /// Derives the stage machine's registers, given what `radio` has on
    /// record.
    pub fn compile(&self, radio: &Registers) -> (r: Result<StageImage, ConfigurationError>)
        ensures
            r == self.compiled(radio@),
    {
        if let Some(slot) = self.find_missing_slot(radio) {
            return Err(ConfigurationError::UnwrittenSlot { slot });
        }
        let first = match self.preamble1 {
            Some(stage) => stage.compile()?,
            None => Matcher1Image { pat: 0, len: 0, min: 0, max: 0, timeout: 0 },
        };
        let second = match self.preamble2 {
            Some(stage) => stage.compile()?,
            None => Matcher0Image { pat: 0, len: 0, min: 0, max: 0, timeout: 0 },
        };
        let timeout3 = match self.preamble3 {
            Some(stage) => stage.timeout.encode(Register::TmgRxPreamble3)?,
            None => 0,
        };
        Ok(StageImage { first, second, timeout3, slots: self.slot_map() })
    }

    /// Compiles the stage machine and records its writes. It is refused,
    /// and nothing is recorded, unless every parameter set that a stage in
    /// use names has been loaded into `radio` since the last reset.
    pub fn write(&self, radio: &mut Registers) -> (r: Result<(), ConfigurationError>)
        ensures
            match self.compiled(old(radio)@) {
                Ok(image) => r is Ok && final(radio)@ =~= old(radio)@ + image.operations(),
                Err(e) => r == Err::<(), ConfigurationError>(e) && final(radio)@ == old(radio)@,
            },
    {
        let image = self.compile(radio)?;
        image.write(radio);
        Ok(())
    }
}

impl StageImage {
    /// The writes of the image, in the order in which they are made.
    pub open spec fn operations(self) -> Seq<Operation> {
        seq![
            Operation::Write { register: Register::Match1Pat, value: self.first.pat as u32 },
            Operation::Write { register: Register::Match1Len, value: self.first.len as u32 },
            Operation::Write { register: Register::Match1Min, value: self.first.min as u32 },
            Operation::Write { register: Register::Match1Max, value: self.first.max as u32 },
            Operation::Write { register: Register::TmgRxPreamble1, value: self.first.timeout as u32 },
            Operation::Write { register: Register::Match0Pat, value: self.second.pat },
            Operation::Write { register: Register::Match0Len, value: self.second.len as u32 },
            Operation::Write { register: Register::Match0Min, value: self.second.min as u32 },
            Operation::Write { register: Register::Match0Max, value: self.second.max as u32 },
            Operation::Write {
                register: Register::TmgRxPreamble2,
                value: self.second.timeout as u32,
            },
            Operation::Write { register: Register::TmgRxPreamble3, value: self.timeout3 as u32 },
            Operation::Write { register: Register::RxParamSets, value: self.slots as u32 },
        ]
    }

    /// Writing the stage machine leaves the oscillator's calibration as it
    /// is.
    pub proof fn lemma_keeps_calibration(self)
        ensures
            keeps_calibration(self.operations()),
    {
    }

    /// Records the writes of the image.
    pub fn write(&self, radio: &mut Registers)
        ensures
            final(radio)@ =~= old(radio)@ + self.operations(),
    {
        radio.record(Register::Match1Pat, self.first.pat as u32);
        radio.write_byte(Register::Match1Len, self.first.len);
        radio.write_byte(Register::Match1Min, self.first.min);
        radio.write_byte(Register::Match1Max, self.first.max);
        radio.write_byte(Register::TmgRxPreamble1, self.first.timeout);
        radio.record(Register::Match0Pat, self.second.pat);
        radio.write_byte(Register::Match0Len, self.second.len);
        radio.write_byte(Register::Match0Min, self.second.min);
        radio.write_byte(Register::Match0Max, self.second.max);
        radio.write_byte(Register::TmgRxPreamble2, self.second.timeout);
        radio.write_byte(Register::TmgRxPreamble3, self.timeout3);
        radio.write_byte(Register::RxParamSets, self.slots);
    }
}

/// The stage machine is never written ahead of the parameter sets it runs
/// with: if a stage in use names a set that `log` does not leave loaded,
/// compiling against `log` fails with an error that names such a set.
pub proof fn lemma_stages_need_loaded_slots(
    stages: RXParameterStages,
    log: Seq<Operation>,
    slot: RxParamSet,
)
    requires
        stages.references(slot),
        !slot_loaded(log, slot),
    ensures
        stages.compiled(log) matches Err(ConfigurationError::UnwrittenSlot { slot: named })
            && stages.references(named) && !slot_loaded(log, named),
{
}

/// Where the stage machine compiles, every parameter set it names is
/// loaded.
pub proof fn lemma_compiled_stages_have_slots(
    stages: RXParameterStages,
    log: Seq<Operation>,
    slot: RxParamSet,
)
    requires
        stages.compiled(log) is Ok,
        stages.references(slot),
    ensures
        slot_loaded(log, slot),
{
}

} // verus!
