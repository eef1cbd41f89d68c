//! The chip's register file as seen by bring-up: named registers, and the
//! ordered list of bus operations that the configuration code has decided on.
//!
//! Nothing here touches the bus. `Registers` records operations; whoever owns
//! the transport replays them in order.

use vstd::prelude::*;

verus! {

/// One of the four receiver parameter-set slots.
#[derive(Clone, Copy, Debug, PartialEq, Eq, Structural)]
pub enum RxParamSet {
    Set0,
    Set1,
    Set2,
    Set3,
}

impl RxParamSet {
    /// The slot's number, 0 to 3.
    pub open spec fn index(self) -> int {
        match self {
            RxParamSet::Set0 => 0,
            RxParamSet::Set1 => 1,
            RxParamSet::Set2 => 2,
            RxParamSet::Set3 => 3,
        }
    }

    /// Computes `index`.
    pub fn number(&self) -> (n: u8)
        ensures
            n == self.index(),
    {
        match self {
            RxParamSet::Set0 => 0,
            RxParamSet::Set1 => 1,
            RxParamSet::Set2 => 2,
            RxParamSet::Set3 => 3,
        }
    }

    /// First address of the slot's sixteen-byte register bank.
    pub open spec fn base_address(self) -> int {
        0x120 + 0x10 * self.index()
    }

    /// Computes `base_address`.
    pub fn bank_address(&self) -> (a: u16)
        ensures
            a == self.base_address(),
    {
        let n: u16 = self.number() as u16;
        0x120 + 0x10 * n
    }
}

/// Which of the two synthesizer frequency registers is meant.
#[derive(Clone, Copy, Debug, PartialEq, Eq, Structural)]
pub enum FreqReg {
    A,
    B,
}

/// The registers that this driver programs or reads, by name.
#[derive(Clone, Copy, Debug, PartialEq, Eq, Structural)]
pub enum Register {
    Revision,
    PwrMode,
    PowStickyStat,
    IrqMask,
    Modulation,
    Encoding,
    Framing,
    CrcInit,
    Fec,
    PinFuncSysClk,
    PinFuncDClk,
    PinFuncData,
    PinFuncIrq,
    PinFuncAntSel,
    PinFuncPwrAmp,
    FifoStat,
    FifoData,
    FifoCount,
    FifoThresh,
    PllLoop,
    PllCpi,
    PllVcoDiv,
    PllRangingA,
    FreqA,
    PllLoopBoost,
    PllCpiBoost,
    PllRangingB,
    FreqB,
    Rssi,
    IfFreq,
    Decimation,
    RxDataRate,
    MaxDrOffset,
    MaxRfOffset,
    AmplFilter,
    FrequencyLeak,
    RxParamSets,
    AgcGain,
    AgcTarget,
    AgcAHyst,
    AgcMinMax,
    TimeGain,
    DrGain,
    PhaseGain,
    FreqGainA,
    FreqGainB,
    FreqGainC,
    FreqGainD,
    AmplGain,
    FreqDev,
    FourFsk,
    BbOffsRes,
    ModCfgF,
    FskDev,
    ModCfgA,
    TxRate,
    TxPwrCoeffA,
    TxPwrCoeffB,
    TxPwrCoeffC,
    TxPwrCoeffD,
    TxPwrCoeffE,
    PllVcoI,
    PllLockDet,
    PllRngClk,
    PktAddrCfg,
    PktLenCfg,
    PktLenOffset,
    PktMaxLen,
    Match0Pat,
    Match0Len,
    Match0Min,
    Match0Max,
    Match1Pat,
    Match1Len,
    Match1Min,
    Match1Max,
    TmgRxPreamble1,
    TmgRxPreamble2,
    TmgRxPreamble3,
    RssiReference,
    PktChunkSize,
    PktAcceptFlags,
    PerfF10,
    PerfF11,
    PerfF18,
    PerfF26,
    PerfF34,
    PerfF35,
}

impl Register {
    /// The register's address on the bus. The parameter-set registers
    /// (`AgcGain` to `BbOffsRes`) are given at their place in slot 0; slot
    /// `n` holds the same layout sixteen bytes further on per slot.
    pub open spec fn address_of(self) -> int {
        match self {
            Register::Revision => 0x000,
            Register::PwrMode => 0x002,
            Register::PowStickyStat => 0x004,
            Register::IrqMask => 0x006,
            Register::Modulation => 0x010,
            Register::Encoding => 0x011,
            Register::Framing => 0x012,
            Register::CrcInit => 0x014,
            Register::Fec => 0x018,
            Register::PinFuncSysClk => 0x021,
            Register::PinFuncDClk => 0x022,
            Register::PinFuncData => 0x023,
            Register::PinFuncIrq => 0x024,
            Register::PinFuncAntSel => 0x025,
            Register::PinFuncPwrAmp => 0x026,
            Register::FifoStat => 0x028,
            Register::FifoData => 0x029,
            Register::FifoCount => 0x02A,
            Register::FifoThresh => 0x02E,
            Register::PllLoop => 0x030,
            Register::PllCpi => 0x031,
            Register::PllVcoDiv => 0x032,
            Register::PllRangingA => 0x033,
            Register::FreqA => 0x034,
            Register::PllLoopBoost => 0x038,
            Register::PllCpiBoost => 0x039,
            Register::PllRangingB => 0x03B,
            Register::FreqB => 0x03C,
            Register::Rssi => 0x040,
            Register::IfFreq => 0x100,
            Register::Decimation => 0x102,
            Register::RxDataRate => 0x103,
            Register::MaxDrOffset => 0x106,
            Register::MaxRfOffset => 0x109,
            Register::AmplFilter => 0x115,
            Register::FrequencyLeak => 0x116,
            Register::RxParamSets => 0x117,
            Register::AgcGain => 0x120,
            Register::AgcTarget => 0x121,
            Register::AgcAHyst => 0x122,
            Register::AgcMinMax => 0x123,
            Register::TimeGain => 0x124,
            Register::DrGain => 0x125,
            Register::PhaseGain => 0x126,
            Register::FreqGainA => 0x127,
            Register::FreqGainB => 0x128,
            Register::FreqGainC => 0x129,
            Register::FreqGainD => 0x12A,
            Register::AmplGain => 0x12B,
            Register::FreqDev => 0x12C,
            Register::FourFsk => 0x12E,
            Register::BbOffsRes => 0x12F,
            Register::ModCfgF => 0x160,
            Register::FskDev => 0x161,
            Register::ModCfgA => 0x164,
            Register::TxRate => 0x165,
            Register::TxPwrCoeffA => 0x168,
            Register::TxPwrCoeffB => 0x16A,
            Register::TxPwrCoeffC => 0x16C,
            Register::TxPwrCoeffD => 0x16E,
            Register::TxPwrCoeffE => 0x170,
            Register::PllVcoI => 0x180,
            Register::PllLockDet => 0x182,
            Register::PllRngClk => 0x183,
            Register::PktAddrCfg => 0x200,
            Register::PktLenCfg => 0x201,
            Register::PktLenOffset => 0x202,
            Register::PktMaxLen => 0x203,
            Register::Match0Pat => 0x210,
            Register::Match0Len => 0x214,
            Register::Match0Min => 0x215,
            Register::Match0Max => 0x216,
            Register::Match1Pat => 0x218,
            Register::Match1Len => 0x21C,
            Register::Match1Min => 0x21D,
            Register::Match1Max => 0x21E,
            Register::TmgRxPreamble1 => 0x229,
            Register::TmgRxPreamble2 => 0x22A,
            Register::TmgRxPreamble3 => 0x22B,
            Register::RssiReference => 0x22C,
            Register::PktChunkSize => 0x230,
            Register::PktAcceptFlags => 0x233,
            Register::PerfF10 => 0xF10,
            Register::PerfF11 => 0xF11,
            Register::PerfF18 => 0xF18,
            Register::PerfF26 => 0xF26,
            Register::PerfF34 => 0xF34,
            Register::PerfF35 => 0xF35,
        }
    }

    /// How many bytes the register occupies, most significant byte first.
    pub open spec fn width_of(self) -> int {
        match self {
            Register::CrcInit | Register::FreqA | Register::FreqB | Register::Match0Pat => 4,
            Register::RxDataRate
            | Register::MaxDrOffset
            | Register::MaxRfOffset
            | Register::FskDev
            | Register::TxRate => 3,
            Register::IrqMask
            | Register::FifoCount
            | Register::FifoThresh
            | Register::IfFreq
            | Register::FreqDev
            | Register::TxPwrCoeffA
            | Register::TxPwrCoeffB
            | Register::TxPwrCoeffC
            | Register::TxPwrCoeffD
            | Register::TxPwrCoeffE
            | Register::Match1Pat => 2,
            _ => 1,
        }
    }

    /// One more than the largest value the register can hold.
    pub open spec fn capacity(self) -> int {
        if self.width_of() == 1 {
            0x100
        } else if self.width_of() == 2 {
            0x1_0000
        } else if self.width_of() == 3 {
            0x100_0000
        } else {
            0x1_0000_0000
        }
    }

    /// Computes `address_of`.
    pub fn address(&self) -> (a: u16)
        ensures
            a == self.address_of(),
    {
        match self {
            Register::Revision => 0x000,
            Register::PwrMode => 0x002,
            Register::PowStickyStat => 0x004,
            Register::IrqMask => 0x006,
            Register::Modulation => 0x010,
            Register::Encoding => 0x011,
            Register::Framing => 0x012,
            Register::CrcInit => 0x014,
            Register::Fec => 0x018,
            Register::PinFuncSysClk => 0x021,
            Register::PinFuncDClk => 0x022,
            Register::PinFuncData => 0x023,
            Register::PinFuncIrq => 0x024,
            Register::PinFuncAntSel => 0x025,
            Register::PinFuncPwrAmp => 0x026,
            Register::FifoStat => 0x028,
            Register::FifoData => 0x029,
            Register::FifoCount => 0x02A,
            Register::FifoThresh => 0x02E,
            Register::PllLoop => 0x030,
            Register::PllCpi => 0x031,
            Register::PllVcoDiv => 0x032,
            Register::PllRangingA => 0x033,
            Register::FreqA => 0x034,
            Register::PllLoopBoost => 0x038,
            Register::PllCpiBoost => 0x039,
            Register::PllRangingB => 0x03B,
            Register::FreqB => 0x03C,
            Register::Rssi => 0x040,
            Register::IfFreq => 0x100,
            Register::Decimation => 0x102,
            Register::RxDataRate => 0x103,
            Register::MaxDrOffset => 0x106,
            Register::MaxRfOffset => 0x109,
            Register::AmplFilter => 0x115,
            Register::FrequencyLeak => 0x116,
            Register::RxParamSets => 0x117,
            Register::AgcGain => 0x120,
            Register::AgcTarget => 0x121,
            Register::AgcAHyst => 0x122,
            Register::AgcMinMax => 0x123,
            Register::TimeGain => 0x124,
            Register::DrGain => 0x125,
            Register::PhaseGain => 0x126,
            Register::FreqGainA => 0x127,
            Register::FreqGainB => 0x128,
            Register::FreqGainC => 0x129,
            Register::FreqGainD => 0x12A,
            Register::AmplGain => 0x12B,
            Register::FreqDev => 0x12C,
            Register::FourFsk => 0x12E,
            Register::BbOffsRes => 0x12F,
            Register::ModCfgF => 0x160,
            Register::FskDev => 0x161,
            Register::ModCfgA => 0x164,
            Register::TxRate => 0x165,
            Register::TxPwrCoeffA => 0x168,
            Register::TxPwrCoeffB => 0x16A,
            Register::TxPwrCoeffC => 0x16C,
            Register::TxPwrCoeffD => 0x16E,
            Register::TxPwrCoeffE => 0x170,
            Register::PllVcoI => 0x180,
            Register::PllLockDet => 0x182,
            Register::PllRngClk => 0x183,
            Register::PktAddrCfg => 0x200,
            Register::PktLenCfg => 0x201,
            Register::PktLenOffset => 0x202,
            Register::PktMaxLen => 0x203,
            Register::Match0Pat => 0x210,
            Register::Match0Len => 0x214,
            Register::Match0Min => 0x215,
            Register::Match0Max => 0x216,
            Register::Match1Pat => 0x218,
            Register::Match1Len => 0x21C,
            Register::Match1Min => 0x21D,
            Register::Match1Max => 0x21E,
            Register::TmgRxPreamble1 => 0x229,
            Register::TmgRxPreamble2 => 0x22A,
            Register::TmgRxPreamble3 => 0x22B,
            Register::RssiReference => 0x22C,
            Register::PktChunkSize => 0x230,
            Register::PktAcceptFlags => 0x233,
            Register::PerfF10 => 0xF10,
            Register::PerfF11 => 0xF11,
            Register::PerfF18 => 0xF18,
            Register::PerfF26 => 0xF26,
            Register::PerfF34 => 0xF34,
            Register::PerfF35 => 0xF35,
        }
    }

    /// Computes `width_of`.
    pub fn width(&self) -> (w: u8)
        ensures
            w == self.width_of(),
            1 <= w <= 4,
    {
        match self {
            Register::CrcInit | Register::FreqA | Register::FreqB | Register::Match0Pat => 4,
            Register::RxDataRate
            | Register::MaxDrOffset
            | Register::MaxRfOffset
            | Register::FskDev
            | Register::TxRate => 3,
            Register::IrqMask
            | Register::FifoCount
            | Register::FifoThresh
            | Register::IfFreq
            | Register::FreqDev
            | Register::TxPwrCoeffA
            | Register::TxPwrCoeffB
            | Register::TxPwrCoeffC
            | Register::TxPwrCoeffD
            | Register::TxPwrCoeffE
            | Register::Match1Pat => 2,
            _ => 1,
        }
    }

    /// Whether the register sets the synthesizer up: the two frequency
    /// words, and the settings of the PLL (loop filter and charge pump in
    /// normal and boosted operation, oscillator selection and current, lock
    /// detector, ranging clock). A write to one of them puts the
    /// oscillator's calibration out of date.
    pub open spec fn tunes(self) -> bool {
        self == Register::FreqA || self == Register::FreqB || self == Register::PllLoop || self
            == Register::PllCpi || self == Register::PllLoopBoost || self
            == Register::PllCpiBoost || self == Register::PllVcoDiv || self == Register::PllVcoI
            || self == Register::PllLockDet || self == Register::PllRngClk
    }

    /// Computes `tunes`.
    pub fn is_tuning(&self) -> (r: bool)
        ensures
            r == self.tunes(),
    {
        match self {
            Register::FreqA
            | Register::FreqB
            | Register::PllLoop
            | Register::PllCpi
            | Register::PllLoopBoost
            | Register::PllCpiBoost
            | Register::PllVcoDiv
            | Register::PllVcoI
            | Register::PllLockDet
            | Register::PllRngClk => true,
            _ => false,
        }
    }

    /// Whether `value` can be stored in the register without loss.
    pub fn holds(&self, value: u32) -> (ok: bool)
        ensures
            ok == (value < self.capacity()),
    {
        let w = self.width();
        if w == 1 {
            value < 0x100
        } else if w == 2 {
            value < 0x1_0000
        } else if w == 3 {
            value < 0x100_0000
        } else {
            true
        }
    }
}

/// Why a configuration cannot be turned into register contents.
#[derive(Clone, Copy, Debug, PartialEq, Eq, Structural)]
pub enum ConfigurationError {
    /// The value derived for `register` does not fit the field it is meant for.
    OutOfRange { register: Register, value: u128 },
    /// There is no value for `register`: its formula divides by a quantity
    /// that is zero here, or what it stands for is not in use.
    Undefined { register: Register },
    /// The stage machine names a parameter set that has not been loaded.
    UnwrittenSlot { slot: RxParamSet },
}

/// The refusal of `value` for being too large for its field in `register`.
pub open spec fn out_of_range(register: Register, value: int) -> Option<ConfigurationError> {
    Some(ConfigurationError::OutOfRange { register, value: value as u128 })
}

/// The sixteen bytes of one receiver parameter set, as the chip stores them.
#[derive(Clone, Copy, Debug, PartialEq, Eq, Structural)]
pub struct ParameterSetImage {
    pub agc_gain: u8,
    pub agc_target: u8,
    pub agc_hysteresis: u8,
    pub agc_min_max: u8,
    pub time_gain: u8,
    pub datarate_gain: u8,
    pub phase_gain: u8,
    pub freq_gain_a: u8,
    pub freq_gain_b: u8,
    pub freq_gain_c: u8,
    pub freq_gain_d: u8,
    pub amplitude_gain: u8,
    pub freq_dev: u16,
    pub four_fsk: u8,
    pub bb_offset_res: u8,
}

/// One step of traffic on the register bus.
#[derive(Clone, Copy, Debug, PartialEq, Eq, Structural)]
#[allow(inconsistent_fields)]
pub enum Operation {
    /// Store `value` in `register`.
    Write { register: Register, value: u32 },
    /// Read `register` and discard what comes back; reading clears the
    /// chip's sticky flags.
    Read { register: Register },
    /// Store a whole parameter set in its slot, as one burst.
    LoadParameterSet { slot: RxParamSet, image: ParameterSetImage },
    /// Poll the ranging register of the given frequency register until the
    /// calibration cycle has ended.
    AwaitRanging { register: FreqReg },
    /// Return every register to its power-on value.
    Reset,
}

/// Whether the operations in `log` leave parameter set `slot` loaded: it was
/// stored at some point, and the chip has not been reset since.
pub open spec fn slot_loaded(log: Seq<Operation>, slot: RxParamSet) -> bool {
    exists|i: int|
        0 <= i < log.len() && loads_slot(#[trigger] log[i], slot) && forall|j: int|
            i < j < log.len() ==> !(#[trigger] log[j] is Reset)
}

/// Whether `op` stores parameter set `slot`.
pub open spec fn loads_slot(op: Operation, slot: RxParamSet) -> bool {
    op matches Operation::LoadParameterSet { slot: s, .. } && s == slot
}

/// What parameter set `slot` holds after the operations in `log`: the image
/// that was stored in it last, if none was stored or the chip was reset
/// since, nothing.
pub open spec fn slot_image(log: Seq<Operation>, slot: RxParamSet) -> Option<ParameterSetImage>
    decreases log.len(),
{
    if log.len() == 0 {
        None
    } else {
        match log.last() {
            Operation::Reset => None,
            Operation::LoadParameterSet { slot: s, image } => if s == slot {
                Some(image)
            } else {
                slot_image(log.drop_last(), slot)
            },
            _ => slot_image(log.drop_last(), slot),
        }
    }
}

/// A parameter set holds an image exactly when it is loaded.
pub proof fn lemma_slot_image_iff_loaded(log: Seq<Operation>, slot: RxParamSet)
    ensures
        slot_image(log, slot) is Some <==> slot_loaded(log, slot),
    decreases log.len(),
{
    if log.len() == 0 {
    } else {
        let before = log.drop_last();
        let last = log.len() - 1;
        lemma_slot_image_iff_loaded(before, slot);
        assert(before.push(log.last()) =~= log);
        if log.last() is Reset {
            if slot_loaded(log, slot) {
                let i = choose|i: int|
                    0 <= i < log.len() && loads_slot(#[trigger] log[i], slot) && forall|j: int|
                        i < j < log.len() ==> !(#[trigger] log[j] is Reset);
                if i < last {
                    assert(!(log[last] is Reset));
                }
            }
        } else if loads_slot(log.last(), slot) {
            assert(loads_slot(log[last], slot));
        } else {
            if slot_loaded(before, slot) {
                lemma_slot_stays_loaded(before, log.last(), slot);
            }
            if slot_loaded(log, slot) {
                let i = choose|i: int|
                    0 <= i < log.len() && loads_slot(#[trigger] log[i], slot) && forall|j: int|
                        i < j < log.len() ==> !(#[trigger] log[j] is Reset);
                assert(i < last);
                assert(loads_slot(before[i], slot));
                assert forall|j: int| i < j < before.len() implies !(#[trigger] before[j]
                    is Reset) by {
                    assert(before[j] == log[j]);
                }
            }
        }
    }
}

/// A parameter set that is loaded stays loaded over any operation but a
/// reset.
pub proof fn lemma_slot_stays_loaded(log: Seq<Operation>, op: Operation, slot: RxParamSet)
    requires
        slot_loaded(log, slot),
        !(op is Reset),
    ensures
        slot_loaded(log.push(op), slot),
{
    let i = choose|i: int|
        0 <= i < log.len() && loads_slot(#[trigger] log[i], slot) && forall|j: int|
            i < j < log.len() ==> !(#[trigger] log[j] is Reset);
    let longer = log.push(op);
    assert(loads_slot(longer[i], slot));
    assert forall|j: int| i < j < longer.len() implies !(#[trigger] longer[j] is Reset) by {
        if j < log.len() {
            assert(longer[j] == log[j]);
        }
    }
}

/// The parameter sets do not depend on each other: loading one neither
/// loads nor unloads another.
pub proof fn lemma_slots_are_independent(
    log: Seq<Operation>,
    loaded: RxParamSet,
    image: ParameterSetImage,
    other: RxParamSet,
)
    requires
        loaded != other,
    ensures
        slot_loaded(log.push(Operation::LoadParameterSet { slot: loaded, image }), other)
            == slot_loaded(log, other),
{
    let op = Operation::LoadParameterSet { slot: loaded, image };
    let longer = log.push(op);
    if slot_loaded(log, other) {
        lemma_slot_stays_loaded(log, op, other);
    }
    if slot_loaded(longer, other) {
        let i = choose|i: int|
            0 <= i < longer.len() && loads_slot(#[trigger] longer[i], other) && forall|j: int|
                i < j < longer.len() ==> !(#[trigger] longer[j] is Reset);
        assert(i < log.len());
        assert(loads_slot(log[i], other));
        assert forall|j: int| i < j < log.len() implies !(#[trigger] log[j] is Reset) by {
            assert(longer[j] == log[j]);
        }
    }
}

/// Whether `op` puts the oscillator's calibration out of date: a reset, or a
/// write that sets the synthesizer up anew, be it a frequency word or a
/// setting of the PLL.
pub open spec fn retunes(op: Operation) -> bool {
    op is Reset || (op matches Operation::Write { register, .. } && register.tunes())
}

/// Whether the operations in `log` leave the oscillator calibrated: a wait
/// for the end of a ranging cycle is among them, and after it comes neither
/// a reset nor a write to a frequency word or to a setting of the PLL.
pub open spec fn calibrated(log: Seq<Operation>) -> bool {
    exists|i: int|
        0 <= i < log.len() && #[trigger] log[i] is AwaitRanging && forall|j: int|
            i < j < log.len() ==> !retunes(#[trigger] log[j])
}

/// Whether there is neither a reset nor a write that sets the synthesizer up
/// anew among `ops`.
pub open spec fn keeps_calibration(ops: Seq<Operation>) -> bool {
    forall|k: int| 0 <= k < ops.len() ==> !retunes(#[trigger] ops[k])
}

/// A calibration stays good over any operations among which there is
/// neither a reset nor a write that sets the synthesizer up anew.
pub proof fn lemma_stays_calibrated(log: Seq<Operation>, more: Seq<Operation>)
    requires
        calibrated(log),
        keeps_calibration(more),
    ensures
        calibrated(log + more),
{
    let i = choose|i: int|
        0 <= i < log.len() && #[trigger] log[i] is AwaitRanging && forall|j: int|
            i < j < log.len() ==> !retunes(#[trigger] log[j]);
    let longer = log + more;
    assert(longer[i] is AwaitRanging);
    assert forall|j: int| i < j < longer.len() implies !retunes(#[trigger] longer[j]) by {
        if j < log.len() {
            assert(longer[j] == log[j]);
        } else {
            assert(longer[j] == more[j - log.len()]);
        }
    }
}

/// The bus operations decided on so far, oldest first.
pub struct Registers {
    ops: Vec<Operation>,
}

impl View for Registers {
    type V = Seq<Operation>;

    closed spec fn view(&self) -> Seq<Operation> {
        self.ops@
    }
}

impl Registers {
    /// An empty record: nothing has been sent to the chip.
    pub fn new() -> (radio: Registers)
        ensures
            radio@ == Seq::<Operation>::empty(),
    {
        Registers { ops: Vec::new() }
    }

    /// Records a write of `value` to `register`, or refuses it when the
    /// register is too narrow for the value.
    pub fn write(&mut self, register: Register, value: u32) -> (r: Result<(), ConfigurationError>)
        ensures
            value < register.capacity() ==> r is Ok && final(self)@ == old(self)@.push(
                Operation::Write { register, value },
            ),
            value >= register.capacity() ==> r == Err::<(), ConfigurationError>(
                ConfigurationError::OutOfRange { register, value: value as u128 },
            ) && final(self)@ == old(self)@,
    {
        if register.holds(value) {
            self.ops.push(Operation::Write { register, value });
            Ok(())
        } else {
            Err(ConfigurationError::OutOfRange { register, value: value as u128 })
        }
    }

    /// Records a write of one byte, which every register can take.
    pub fn write_byte(&mut self, register: Register, value: u8)
        ensures
            final(self)@ == old(self)@.push(Operation::Write { register, value: value as u32 }),
    {
        self.ops.push(Operation::Write { register, value: value as u32 });
    }

    /// Records a write of a value that is known to fit the register.
    pub fn record(&mut self, register: Register, value: u32)
        requires
            value < register.capacity(),
        ensures
            final(self)@ == old(self)@.push(Operation::Write { register, value }),
    {
        self.ops.push(Operation::Write { register, value });
    }

    /// Records a read of `register` whose result nobody waits for.
    pub fn read(&mut self, register: Register)
        ensures
            final(self)@ == old(self)@.push(Operation::Read { register }),
    {
        self.ops.push(Operation::Read { register });
    }

    /// Records the burst that stores `image` in parameter set `slot`.
    pub fn load_parameter_set(&mut self, slot: RxParamSet, image: ParameterSetImage)
        ensures
            final(self)@ == old(self)@.push(Operation::LoadParameterSet { slot, image }),
            slot_loaded(final(self)@, slot),
    {
        self.ops.push(Operation::LoadParameterSet { slot, image });
        proof {
            let log = self.ops@;
            let last = log.len() - 1;
            assert(loads_slot(log[last], slot));
        }
    }

    /// Records a wait for the end of the ranging cycle of `register`.
    pub fn await_ranging(&mut self, register: FreqReg)
        ensures
            final(self)@ == old(self)@.push(Operation::AwaitRanging { register }),
    {
        self.ops.push(Operation::AwaitRanging { register });
    }

    /// Records a chip reset. Parameter sets loaded before it count as lost.
    pub fn reset(&mut self)
        ensures
            final(self)@ == old(self)@.push(Operation::Reset),
            forall|slot: RxParamSet| !slot_loaded(final(self)@, slot),
    {
        self.ops.push(Operation::Reset);
        proof {
            let log = self.ops@;
            let last = log.len() - 1;
            assert(log[last] is Reset);
            assert forall|slot: RxParamSet| !slot_loaded(log, slot) by {
                if slot_loaded(log, slot) {
                    let i = choose|i: int|
                        0 <= i < log.len() && loads_slot(#[trigger] log[i], slot) && forall|j: int|
                            i < j < log.len() ==> !(#[trigger] log[j] is Reset);
                    assert(i < last);
                    assert(!(log[last] is Reset));
                }
            }
        }
    }

    /// Whether the oscillator is calibrated once everything on record has
    /// been carried out.
    pub fn is_calibrated(&self) -> (r: bool)
        ensures
            r == calibrated(self@),
    {
        let n = self.ops.len();
        let mut k: usize = n;
        while k > 0
            invariant
                k <= n,
                n == self.ops@.len(),
                forall|j: int| k <= j < n ==> !retunes(#[trigger] self.ops@[j]),
                forall|j: int| k <= j < n ==> !(#[trigger] self.ops@[j] is AwaitRanging),
            decreases k,
        {
            k = k - 1;
            match self.ops[k] {
                Operation::AwaitRanging { .. } => {
                    assert(self.ops@[k as int] is AwaitRanging);
                    return true;
                },
                Operation::Reset => {
                    proof {
                        self.lemma_not_calibrated_before(k as int);
                    }
                    return false;
                },
                Operation::Write { register, .. } => {
                    if register.is_tuning() {
                        proof {
                            self.lemma_not_calibrated_before(k as int);
                        }
                        return false;
                    }
                },
                _ => {},
            }
        }
        proof {
            let log = self.ops@;
            if calibrated(log) {
                let i = choose|i: int|
                    0 <= i < log.len() && #[trigger] log[i] is AwaitRanging && forall|j: int|
                        i < j < log.len() ==> !retunes(#[trigger] log[j]);
                assert(!(log[i] is AwaitRanging));
            }
        }
        false
    }

    /// With an operation at `k` that puts the calibration out of date and
    /// no wait for ranging after it, the record is not calibrated.
    proof fn lemma_not_calibrated_before(&self, k: int)
        requires
            0 <= k < self.ops@.len(),
            retunes(self.ops@[k]),
            forall|j: int| k < j < self.ops@.len() ==> !(#[trigger] self.ops@[j] is AwaitRanging),
        ensures
            !calibrated(self@),
    {
        let log = self.ops@;
        if calibrated(log) {
            let i = choose|i: int|
                0 <= i < log.len() && #[trigger] log[i] is AwaitRanging && forall|j: int|
                    i < j < log.len() ==> !retunes(#[trigger] log[j]);
            if i < k {
                assert(!retunes(log[k]));
            } else if i > k {
                assert(!(log[i] is AwaitRanging));
            }
        }
    }

    /// How many operations are on record.
    pub fn len(&self) -> (n: usize)
        ensures
            n == self@.len(),
    {
        self.ops.len()
    }

    /// The `i`-th operation on record.
    pub fn operation(&self, i: usize) -> (op: Operation)
        requires
            i < self@.len(),
        ensures
            op == self@[i as int],
    {
        self.ops[i]
    }

    /// The image that parameter set `slot` holds once everything on record
    /// has been carried out.
    pub fn parameter_set(&self, slot: RxParamSet) -> (image: Option<ParameterSetImage>)
        ensures
            image == slot_image(self@, slot),
            image is Some <==> slot_loaded(self@, slot),
    {
        proof {
            lemma_slot_image_iff_loaded(self@, slot);
        }
        let n = self.ops.len();
        let mut k: usize = n;
        assert(self.ops@.take(n as int) =~= self.ops@);
        while k > 0
            invariant
                k <= n,
                n == self.ops@.len(),
                slot_image(self.ops@, slot) == slot_image(self.ops@.take(k as int), slot),
                slot_image(self.ops@, slot) is Some <==> slot_loaded(self.ops@, slot),
            decreases k,
        {
            let ghost prefix = self.ops@.take(k as int);
            k = k - 1;
            proof {
                assert(prefix.last() == self.ops@[k as int]);
                assert(prefix.drop_last() =~= self.ops@.take(k as int));
            }
            match self.ops[k] {
                Operation::LoadParameterSet { slot: s, image } => {
                    if s.number() == slot.number() {
                        return Some(image);
                    }
                },
                Operation::Reset => {
                    return None;
                },
                _ => {},
            }
        }
        None
    }

    /// Whether parameter set `slot` is loaded once everything on record has
    /// been carried out.
    pub fn slot_written(&self, slot: RxParamSet) -> (written: bool)
        ensures
            written == slot_loaded(self@, slot),
    {
        let n = self.ops.len();
        let mut k: usize = n;
        while k > 0
            invariant
                k <= n,
                n == self.ops@.len(),
                forall|j: int| k <= j < n ==> !(#[trigger] self.ops@[j] is Reset),
                forall|j: int| k <= j < n ==> !loads_slot(#[trigger] self.ops@[j], slot),
            decreases k,
        {
            k = k - 1;
            match self.ops[k] {
                Operation::LoadParameterSet { slot: s, .. } => {
                    if s.number() == slot.number() {
                        assert(loads_slot(self.ops@[k as int], slot));
                        return true;
                    }
                },
                Operation::Reset => {
                    proof {
                        let log = self.ops@;
                        if slot_loaded(log, slot) {
                            let i = choose|i: int|
                                0 <= i < log.len() && loads_slot(#[trigger] log[i], slot)
                                    && forall|j: int|
                                    i < j < log.len() ==> !(#[trigger] log[j] is Reset);
                            if i < k {
                                assert(!(log[k as int] is Reset));
                            }
                        }
                    }
                    return false;
                },
                _ => {},
            }
        }
        proof {
            let log = self.ops@;
            if slot_loaded(log, slot) {
                let i = choose|i: int|
                    0 <= i < log.len() && loads_slot(#[trigger] log[i], slot) && forall|j: int|
                        i < j < log.len() ==> !(#[trigger] log[j] is Reset);
                assert(!loads_slot(log[i], slot));
            }
        }
        false
    }
}

} // verus!
