//! Bring-up of the UHF radio on the single-board-computer carrier, for
//! reception or for transmission.

use crate::board::{AntSel, Board, DClk, Data, Pin, PwrAmp, SysClk, Xtal, XtalKind, IRQ, VCO};
use crate::channel::{ChannelImage, ChannelParameters};
use crate::fixed::{lemma_pow2_values, pow2};
use crate::paramset::{lemma_quantized_is, mantissa_at, RXParameterAGC, RXParameterSet};
use crate::pktformat::{
    lemma_packet_format_keeps_calibration, packet_format_operations, write_packet_format,
};
use crate::presets::gmsk;
use crate::receiver::{
    baseband_bandwidth, decimation_value, if_freq_word, max_dr_offset_word, max_rf_offset_word,
    rx_datarate_word, RXParameters, ReceiverProfile,
};
use crate::registers::{
    calibrated, keeps_calibration, lemma_slot_stays_loaded, lemma_stays_calibrated, slot_loaded,
    ConfigurationError, FreqReg, Operation, ParameterSetImage, Register, Registers, RxParamSet,
};
use crate::stages::{
    Float5, PatternMatch0, PatternMatch1, Preamble1, Preamble2, RXParameterStages,
};
use crate::synth::{
    frequency_word, Control, LoopFilter, RangingClock, Synthesizer, SynthesizerImage, PLL,
};
use crate::transmit::{AmplitudeShaping, Antenna, TXParameters};
use vstd::prelude::*;

verus! {

/// Reference level for signal strength readings.
pub const RSSI_REFERENCE: u8 = 0;

/// The carrier board: a 48 MHz oscillator, which the power amplifier pin
/// switches on, the interrupt pin in use, and every other pin left floating
/// with its pull-up.
pub open spec fn board_model() -> Board {
    Board {
        sysclk: Pin { mode: SysClk::Z, pullup: true, invert: false },
        dclk: Pin { mode: DClk::Z, pullup: true, invert: false },
        data: Pin { mode: Data::Z, pullup: true, invert: false },
        pwramp: Pin { mode: PwrAmp::TCXO, pullup: false, invert: false },
        irq: Pin { mode: IRQ::IRQ, pullup: false, invert: false },
        antsel: Pin { mode: AntSel::Z, pullup: true, invert: false },
        xtal: Xtal { kind: XtalKind::TCXO, freq: 48_000_000 },
        vco: VCO::Internal,
    }
}

/// Builds `board_model`.
#[verifier::when_used_as_spec(board_model)]
pub fn board() -> (b: Board)
    ensures
        b == board_model(),
{
    Board {
        sysclk: Pin { mode: SysClk::Z, pullup: true, invert: false },
        dclk: Pin { mode: DClk::Z, pullup: true, invert: false },
        data: Pin { mode: Data::Z, pullup: true, invert: false },
        pwramp: Pin { mode: PwrAmp::TCXO, pullup: false, invert: false },
        irq: Pin { mode: IRQ::IRQ, pullup: false, invert: false },
        antsel: Pin { mode: AntSel::Z, pullup: true, invert: false },
        xtal: Xtal { kind: XtalKind::TCXO, freq: 48_000_000 },
        vco: VCO::Internal,
    }
}

/// The synthesizer: 436.5 MHz in register A, B not in use.
pub open spec fn synthesizer_model() -> Synthesizer {
    Synthesizer {
        freq_a: 436_500_000,
        freq_b: 0,
        active: FreqReg::A,
        pll: PLL {
            charge_pump_current: 0x02,
            filter_bandwidth: LoopFilter::Internalx1,
            direct: false,
        },
        boost: PLL {
            charge_pump_current: 0xC8,
            filter_bandwidth: LoopFilter::Internalx5,
            direct: false,
        },
        vco_current: Control::Automatic,
        lock_detector_delay: Control::Automatic,
        ranging_clock: RangingClock::XtalDiv1024,
    }
}

/// Builds `synthesizer_model`.
#[verifier::when_used_as_spec(synthesizer_model)]
pub fn synthesizer() -> (s: Synthesizer)
    ensures
        s == synthesizer_model(),
{
    Synthesizer {
        freq_a: 436_500_000,
        freq_b: 0,
        active: FreqReg::A,
        pll: PLL {
            charge_pump_current: 0x02,
            filter_bandwidth: LoopFilter::Internalx1,
            direct: false,
        },
        boost: PLL {
            charge_pump_current: 0xC8,
            filter_bandwidth: LoopFilter::Internalx5,
            direct: false,
        },
        vco_current: Control::Automatic,
        lock_detector_delay: Control::Automatic,
        ranging_clock: RangingClock::XtalDiv1024,
    }
}

/// The synthesizer as it works during reception: the same, but for the
/// loop, which runs with the widest internal filter, connected directly,
/// and a charge-pump current of 0x10. These are the parameters that the
/// ranging for reception puts in force and calibrates.
pub open spec fn receive_synthesizer_model() -> Synthesizer {
    Synthesizer {
        pll: PLL {
            charge_pump_current: 0x10,
            filter_bandwidth: LoopFilter::Internalx5,
            direct: true,
        },
        ..synthesizer_model()
    }
}

/// Builds `receive_synthesizer_model`.
#[verifier::when_used_as_spec(receive_synthesizer_model)]
pub fn receive_synthesizer() -> (s: Synthesizer)
    ensures
        s == receive_synthesizer_model(),
{
    Synthesizer {
        pll: PLL {
            charge_pump_current: 0x10,
            filter_bandwidth: LoopFilter::Internalx5,
            direct: true,
        },
        ..synthesizer()
    }
}

/// The channel: 9600 bits per second.
pub open spec fn channel_model() -> ChannelParameters {
    gmsk(9_600)
}

/// Builds `channel_model`.
#[verifier::when_used_as_spec(channel_model)]
pub fn channel() -> (c: ChannelParameters)
    ensures
        c == channel_model(),
{
    gmsk(9_600)
}

/// The transmitter: a single-ended antenna, raised-cosine shaping with the
/// second coefficient at 0x700 and the others at zero, and both gates in
/// force.
pub open spec fn transmitter_model() -> TXParameters {
    TXParameters {
        antenna: Antenna::SingleEnded,
        amp: AmplitudeShaping::RaisedCosine { a: 0, b: 0x700, c: 0, d: 0, e: 0 },
        plllock_gate: true,
        brownout_gate: true,
    }
}

/// Builds `transmitter_model`.
#[verifier::when_used_as_spec(transmitter_model)]
pub fn transmitter() -> (t: TXParameters)
    ensures
        t == transmitter_model(),
{
    TXParameters {
        antenna: Antenna::SingleEnded,
        amp: AmplitudeShaping::RaisedCosine { a: 0, b: 0x700, c: 0, d: 0, e: 0 },
        plllock_gate: true,
        brownout_gate: true,
    }
}

/// What the receiver is asked to tolerate: no drift tracking, frequency
/// offset correction on.
pub open spec fn intent_model() -> RXParameters {
    RXParameters::MSK { max_dr_offset: 0, freq_offs_corr: true, ampl_filter: 0, frequency_leak: 0 }
}

/// Builds `intent_model`.
#[verifier::when_used_as_spec(intent_model)]
pub fn intent() -> (rxp: RXParameters)
    ensures
        rxp == intent_model(),
{
    RXParameters::MSK { max_dr_offset: 0, freq_offs_corr: true, ampl_filter: 0, frequency_leak: 0 }
}

/// The stage machine: sixteen bits of preamble under set 0, then
/// thirty-two bits under set 1, then the packet under set 3.
pub open spec fn stages_model() -> RXParameterStages {
    RXParameterStages {
        preamble1: Some(
            Preamble1 {
                pattern: PatternMatch1 { pat: 0x1111, len: 15, raw: false, min: 0, max: 15 },
                timeout: Float5 { m: 0x17, e: 5 },
                set: RxParamSet::Set0,
            },
        ),
        preamble2: Some(
            Preamble2 {
                pattern: PatternMatch0 { pat: 0x1111_1111, len: 31, raw: false, min: 0, max: 31 },
                timeout: Float5 { m: 0x17, e: 0 },
                set: RxParamSet::Set1,
            },
        ),
        preamble3: None,
        packet: RxParamSet::Set3,
    }
}

/// Builds `stages_model`.
#[verifier::when_used_as_spec(stages_model)]
pub fn stages() -> (s: RXParameterStages)
    ensures
        s == stages_model(),
{
    RXParameterStages {
        preamble1: Some(
            Preamble1 {
                pattern: PatternMatch1 { pat: 0x1111, len: 15, raw: false, min: 0, max: 15 },
                timeout: Float5 { m: 0x17, e: 5 },
                set: RxParamSet::Set0,
            },
        ),
        preamble2: Some(
            Preamble2 {
                pattern: PatternMatch0 { pat: 0x1111_1111, len: 31, raw: false, min: 0, max: 31 },
                timeout: Float5 { m: 0x17, e: 0 },
                set: RxParamSet::Set1,
            },
        ),
        preamble3: None,
        packet: RxParamSet::Set3,
    }
}

/// The gain control that all three parameter sets use: the chip's own.
pub open spec fn agc() -> RXParameterAGC {
    RXParameterAGC { attack: 0x4, decay: 0xB, target: 0x76, ahyst: 0, min: 0, max: 0 }
}

/// The parameter set of the first stage.
pub open spec fn set0() -> RXParameterSet {
    RXParameterSet::msk_model(agc(), 4, 255, 0x0A, None)
}

/// The parameter set of the second stage.
pub open spec fn set1() -> RXParameterSet {
    RXParameterSet::msk_model(agc(), 16, 512, 0x0A, Some(0x32u16))
}

/// The parameter set of the packet stage.
pub open spec fn set3() -> RXParameterSet {
    RXParameterSet::msk_model(agc(), 32, 1024, 0x0D, Some(0x32u16))
}

/// The registers of the synthesizer on this board.
pub open spec fn synthesizer_image() -> SynthesizerImage {
    synthesizer().compiled(board())->Ok_0
}

/// The registers of the channel on this board.
pub open spec fn channel_image() -> ChannelImage {
    channel().compiled(board())->Ok_0
}

/// The registers of the receiver on this board and channel.
pub open spec fn profile() -> ReceiverProfile {
    intent().profile(board(), channel())
}

/// The registers of parameter set `set` for this receiver.
pub open spec fn set_image(set: RXParameterSet) -> ParameterSetImage {
    set.image(profile().rx_datarate)
}

/// The performance tuning that goes with reception.
pub open spec fn tuning_operations() -> Seq<Operation> {
    seq![
        Operation::Write { register: Register::PerfF18, value: 0x02 },
        Operation::Write { register: Register::PerfF26, value: 0x96 },
    ]
}

/// The loads of the three parameter sets.
pub open spec fn set_operations() -> Seq<Operation> {
    seq![
        Operation::LoadParameterSet { slot: RxParamSet::Set0, image: set_image(set0()) },
        Operation::LoadParameterSet { slot: RxParamSet::Set1, image: set_image(set1()) },
        Operation::LoadParameterSet { slot: RxParamSet::Set3, image: set_image(set3()) },
    ]
}

/// This configuration compiles: every word it asks for fits its register.
pub proof fn lemma_configuration_compiles()
    ensures
        synthesizer().compiled(board()) is Ok,
        channel().compiled(board()) is Ok,
        intent().compiled(board(), channel()) == Ok::<ReceiverProfile, ConfigurationError>(
            profile(),
        ),
        set0().refusal() is None,
        set1().refusal() is None,
        set3().refusal() is None,
        stages().field_refusal() is None,
        synthesizer_image().freq_a == Some(305_135_616u32),
        channel_image().fsk_dev == 839,
        channel_image().tx_rate == 3355,
        profile() == (ReceiverProfile {
            if_freq: 419,
            decimation: 20,
            rx_datarate: 16000,
            max_dr_offset: 0,
            max_rf_offset: 0,
            freq_offs_corr: true,
            ampl_filter: 0,
            frequency_leak: 0,
        }),
{
    let xtal = board().xtal;
    assert(xtal.divider() == 2);
    assert(436_500_000 * 0x100_0000 * xtal.divider() == 14_646_509_568_000_000);
    assert(29_293_019_184_000_000int / 96_000_000int == 305_135_616);
    assert(frequency_word(436_500_000, xtal) == 305_135_616);
    assert(80_578_636_800int / 96_000_000int == 839);
    assert(channel().fsk_dev_word(board()) == 839);
    assert(322_170_547_200int / 96_000_000int == 3355);
    assert(channel().tx_rate_word(board()) == 3355);
    assert(9_600 * xtal.divider() * 0x10_0000 == 20_132_659_200);
    assert(40_313_318_400int / 96_000_000int == 419);
    assert(if_freq_word(9_600, xtal) == 419);
    assert(baseband_bandwidth(9_600) == 72_000);
    assert(baseband_bandwidth(9_600) * 16 * xtal.divider() == 2_304_000);
    assert(48_000_000int / 2_304_000 == 20);
    assert(decimation_value(9_600, xtal) == 20);
    assert(9_600 * xtal.divider() * 20 == 384_000);
    assert(12_288_384_000int / 768_000int == 16000);
    assert(rx_datarate_word(9_600, xtal, 20) == 16000);
    assert(xtal.divider() * 9_600 * 9_600 * 20 == 3_686_400_000);
    assert(0x80 * xtal.freq * 0 == 0);
    assert(3_686_400_000int / 7_372_800_000int == 0);
    assert(max_dr_offset_word(9_600, xtal, 20, 0) == 0);
    assert(max_rf_offset_word(0, xtal) == 0);
}

/// The three parameter sets as they are loaded, byte by byte, with the
/// gains brought into mantissa and exponent.
pub proof fn lemma_parameter_set_images()
    ensures
        set_image(set0()) == (ParameterSetImage {
            agc_gain: 0xB4,
            agc_target: 0x76,
            agc_hysteresis: 0,
            agc_min_max: 0,
            time_gain: 0x89,
            datarate_gain: 0x83,
            phase_gain: 0xC3,
            freq_gain_a: 0x0A,
            freq_gain_b: 0x0A,
            freq_gain_c: 0x1F,
            freq_gain_d: 0x1F,
            amplitude_gain: 0x06,
            freq_dev: 0,
            four_fsk: 0x16,
            bb_offset_res: 0,
        }),
        set_image(set1()) == (ParameterSetImage {
            agc_gain: 0xB4,
            agc_target: 0x76,
            agc_hysteresis: 0,
            agc_min_max: 0,
            time_gain: 0x87,
            datarate_gain: 0x82,
            phase_gain: 0xC3,
            freq_gain_a: 0x0A,
            freq_gain_b: 0x0A,
            freq_gain_c: 0x1F,
            freq_gain_d: 0x1F,
            amplitude_gain: 0x06,
            freq_dev: 0x32,
            four_fsk: 0x16,
            bb_offset_res: 0,
        }),
        set_image(set3()) == (ParameterSetImage {
            agc_gain: 0xB4,
            agc_target: 0x76,
            agc_hysteresis: 0,
            agc_min_max: 0,
            time_gain: 0x86,
            datarate_gain: 0x81,
            phase_gain: 0xC3,
            freq_gain_a: 0x0D,
            freq_gain_b: 0x0D,
            freq_gain_c: 0x1F,
            freq_gain_d: 0x1F,
            amplitude_gain: 0x06,
            freq_dev: 0x32,
            four_fsk: 0x16,
            bb_offset_res: 0,
        }),
{
    lemma_configuration_compiles();
    lemma_pow2_values();
    assert(4 * pow2(9) == 2048);
    assert(34048int / 4096int == 8);
    assert(mantissa_at(16000, 4, 9) == 8);
    assert(4 * pow2(8) == 1024);
    assert(33024int / 2048int == 16);
    assert(mantissa_at(16000, 4, 8) == 16);
    lemma_quantized_is(16000, 4, 8, 9);
    assert(255 * pow2(3) == 2040);
    assert(34040int / 4080int == 8);
    assert(mantissa_at(16000, 255, 3) == 8);
    assert(255 * pow2(2) == 1020);
    assert(33020int / 2040int == 16);
    assert(mantissa_at(16000, 255, 2) == 16);
    lemma_quantized_is(16000, 255, 8, 3);
    assert(16 * pow2(7) == 2048);
    assert(mantissa_at(16000, 16, 7) == 8);
    assert(16 * pow2(6) == 1024);
    assert(mantissa_at(16000, 16, 6) == 16);
    lemma_quantized_is(16000, 16, 8, 7);
    assert(512 * pow2(2) == 2048);
    assert(mantissa_at(16000, 512, 2) == 8);
    assert(512 * pow2(1) == 1024);
    assert(mantissa_at(16000, 512, 1) == 16);
    lemma_quantized_is(16000, 512, 8, 2);
    assert(32 * pow2(6) == 2048);
    assert(mantissa_at(16000, 32, 6) == 8);
    assert(32 * pow2(5) == 1024);
    assert(mantissa_at(16000, 32, 5) == 16);
    lemma_quantized_is(16000, 32, 8, 6);
    assert(1024 * pow2(1) == 2048);
    assert(mantissa_at(16000, 1024, 1) == 8);
    assert(1024 * pow2(0) == 1024);
    assert(mantissa_at(16000, 1024, 0) == 16);
    lemma_quantized_is(16000, 1024, 8, 1);
}

/// Records the set-up that reception and transmission share: board,
/// synthesizer and channel, and a calibration of the oscillator at the
/// end.
pub fn config(radio: &mut Registers) -> (r: Result<(Board, ChannelParameters), ConfigurationError>)
    ensures
        r == Ok::<(Board, ChannelParameters), ConfigurationError>((board(), channel())),
        final(radio)@ =~= old(radio)@ + board().operations() + synthesizer_image().operations()
            + channel_image().operations() + synthesizer().ranging_operations(),
        calibrated(final(radio)@),
{
    proof {
        lemma_configuration_compiles();
    }
    let board = board().write(radio);
    let synth = synthesizer().write(radio, &board)?;
    let channel = channel().write(radio, &board)?;
    synth.autorange(radio);
    Ok((board, channel))
}

/// Records the whole bring-up of the transmitter: the shared set-up, then
/// the output stage and the amplitude shaping.
pub fn configure_radio_tx(radio: &mut Registers) -> (r: Result<Board, ConfigurationError>)
    ensures
        r == Ok::<Board, ConfigurationError>(board()),
        final(radio)@ =~= old(radio)@ + board().operations() + synthesizer_image().operations()
            + channel_image().operations() + synthesizer().ranging_operations()
            + transmitter().operations(channel()),
        calibrated(final(radio)@),
{
    let (board, channel) = config(radio)?;
    proof {
        transmitter().lemma_keeps_calibration(channel);
        lemma_stays_calibrated(radio@, transmitter().operations(channel));
    }
    transmitter().write(radio, &channel);
    Ok(board)
}

/// Loading the parameter sets leaves the oscillator's calibration as it is.
pub proof fn lemma_sets_keep_calibration()
    ensures
        keeps_calibration(set_operations()),
{
}

/// Records the tuning that goes with reception.
fn tune_for_reception(radio: &mut Registers)
    ensures
        final(radio)@ =~= old(radio)@ + tuning_operations(),
{
    radio.write_byte(Register::PerfF18, 0x02);
    radio.write_byte(Register::PerfF26, 0x96);
}

/// Compiles the three parameter sets against the receiver's profile and
/// records their loads.
fn load_parameter_sets(radio: &mut Registers, rxp: &ReceiverProfile) -> (r: Result<
    (),
    ConfigurationError,
>)
    requires
        *rxp == profile(),
    ensures
        r is Ok,
        final(radio)@ =~= old(radio)@ + set_operations(),
        slot_loaded(final(radio)@, RxParamSet::Set0),
        slot_loaded(final(radio)@, RxParamSet::Set1),
        slot_loaded(final(radio)@, RxParamSet::Set3),
{
    proof {
        lemma_configuration_compiles();
    }
    let set0 = RXParameterSet::msk(RXParameterAGC::new(), 4, 255, 0x0A, None);
    set0.write(radio, RxParamSet::Set0, rxp)?;
    let ghost log0 = radio@;

    let set1 = RXParameterSet::msk(RXParameterAGC::new(), 16, 512, 0x0A, Some(0x32));
    set1.write(radio, RxParamSet::Set1, rxp)?;
    let ghost log1 = radio@;

    let set3 = RXParameterSet::msk(RXParameterAGC::new(), 32, 1024, 0x0D, Some(0x32));
    set3.write(radio, RxParamSet::Set3, rxp)?;

    proof {
        lemma_slot_stays_loaded(log0, log1.last(), RxParamSet::Set0);
        assert(log0.push(log1.last()) =~= log1);
        lemma_slot_stays_loaded(log1, radio@.last(), RxParamSet::Set0);
        lemma_slot_stays_loaded(log1, radio@.last(), RxParamSet::Set1);
        assert(log1.push(radio@.last()) =~= radio@);
    }
    Ok(())
}

/// Records the whole bring-up of the receiver: the shared set-up, the
/// tuning for reception, the loop parameters for reception with a ranging
/// of their own, the receiver profile, parameter sets 0, 1 and 3, the stage
/// machine that runs with them, and the packet format. The last write to a
/// frequency word or to a setting of the PLL is followed by a wait for
/// ranging.
pub fn configure_radio_rx(radio: &mut Registers) -> (r: Result<
    (Board, ChannelParameters),
    ConfigurationError,
>)
    ensures
        r == Ok::<(Board, ChannelParameters), ConfigurationError>((board(), channel())),
        final(radio)@ =~= old(radio)@ + board().operations() + synthesizer_image().operations()
            + channel_image().operations() + synthesizer().ranging_operations()
            + tuning_operations() + receive_synthesizer().ranging_operations()
            + profile().operations() + set_operations() + stages().image().operations()
            + packet_format_operations(RSSI_REFERENCE),
        calibrated(final(radio)@),
{
    proof {
        lemma_configuration_compiles();
    }
    let (board, channel) = config(radio)?;

    tune_for_reception(radio);
    receive_synthesizer().autorange(radio);
    let ghost tuned = radio@;

    let rxp = intent().write(radio, &board, &channel)?;
    let ghost profiled = radio@;
    proof {
        profile().lemma_keeps_calibration();
        lemma_stays_calibrated(tuned, profile().operations());
    }

    load_parameter_sets(radio, &rxp)?;
    let ghost loaded = radio@;
    proof {
        lemma_sets_keep_calibration();
        lemma_stays_calibrated(profiled, set_operations());
    }

    stages().write(radio)?;
    let ghost staged = radio@;
    proof {
        stages().image().lemma_keeps_calibration();
        lemma_stays_calibrated(loaded, stages().image().operations());
    }

    write_packet_format(radio, RSSI_REFERENCE);
    proof {
        lemma_packet_format_keeps_calibration(RSSI_REFERENCE);
        lemma_stays_calibrated(staged, packet_format_operations(RSSI_REFERENCE));
    }
    Ok((board, channel))
}

} // verus!
