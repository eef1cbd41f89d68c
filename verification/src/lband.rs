//! Bring-up of the L-band receiver.

use crate::board::Board;
use crate::channel::{ChannelImage, ChannelParameters};
use crate::fixed::{lemma_pow2_values, pow2};
use crate::paramset::{lemma_quantized_is, mantissa_at, RXParameterAGC, RXParameterSet};
use crate::pktformat::{
    lemma_packet_format_keeps_calibration, packet_format_operations, write_packet_format,
};
use crate::presets::{c3_lband, gmsk_60000, lband_dc_457};
use crate::receiver::{
    baseband_bandwidth, decimation_value, if_freq_word, max_dr_offset_word, max_rf_offset_word,
    rx_datarate_word, RXParameters, ReceiverProfile,
};
use crate::registers::{
    calibrated, keeps_calibration, lemma_slot_stays_loaded, lemma_stays_calibrated, slot_loaded,
    ConfigurationError, Operation, ParameterSetImage, Register, Registers, RxParamSet,
};
use crate::stages::{
    Float5, PatternMatch0, PatternMatch1, Preamble1, Preamble2, RXParameterStages,
};
use crate::synth::SynthesizerImage;
use vstd::prelude::*;

verus! {

/// FIFO fill level at which the chip raises its threshold flag: half the
/// FIFO.
pub const FIFO_THRESHOLD: u8 = 128;

/// Reference level for signal strength readings.
pub const RSSI_REFERENCE: u8 = 32;

/// What the receiver is asked to tolerate: no drift tracking, frequency
/// offset correction on.
pub open spec fn intent_model() -> RXParameters {
    RXParameters::MSK { max_dr_offset: 0, freq_offs_corr: true, ampl_filter: 0, frequency_leak: 0 }
}

/// Builds `intent_model`.
#[verifier::when_used_as_spec(intent_model)]
pub fn intent() -> (rxp: RXParameters)
    ensures
        rxp == intent_model(),
{
    RXParameters::MSK { max_dr_offset: 0, freq_offs_corr: true, ampl_filter: 0, frequency_leak: 0 }
}

/// The stage machine: sixteen bits of HDLC flags without a timeout under
/// set 0, then thirty-two bits of flags under set 1, then the packet under
/// set 3.
pub open spec fn stages_model() -> RXParameterStages {
    RXParameterStages {
        preamble1: Some(
            Preamble1 {
                pattern: PatternMatch1 { pat: 0x7E7E, len: 15, raw: false, min: 0, max: 15 },
                timeout: Float5 { m: 0, e: 0 },
                set: RxParamSet::Set0,
            },
        ),
        preamble2: Some(
            Preamble2 {
                pattern: PatternMatch0 { pat: 0x7E7E_7E7E, len: 31, raw: false, min: 0, max: 31 },
                timeout: Float5 { m: 0x17, e: 5 },
                set: RxParamSet::Set1,
            },
        ),
        preamble3: None,
        packet: RxParamSet::Set3,
    }
}

/// Builds `stages_model`.
#[verifier::when_used_as_spec(stages_model)]
pub fn stages() -> (s: RXParameterStages)
    ensures
        s == stages_model(),
{
    RXParameterStages {
        preamble1: Some(
            Preamble1 {
                pattern: PatternMatch1 { pat: 0x7E7E, len: 15, raw: false, min: 0, max: 15 },
                timeout: Float5 { m: 0, e: 0 },
                set: RxParamSet::Set0,
            },
        ),
        preamble2: Some(
            Preamble2 {
                pattern: PatternMatch0 { pat: 0x7E7E_7E7E, len: 31, raw: false, min: 0, max: 31 },
                timeout: Float5 { m: 0x17, e: 5 },
                set: RxParamSet::Set1,
            },
        ),
        preamble3: None,
        packet: RxParamSet::Set3,
    }
}

/// The parameter set of the first stage.
pub open spec fn set0() -> RXParameterSet {
    RXParameterSet::msk_model(
        RXParameterAGC { attack: 0x3, decay: 0x9, target: 0x84, ahyst: 0, min: 0, max: 0 },
        4,
        255,
        0x06,
        None,
    )
}

/// The parameter set of the second stage.
pub open spec fn set1() -> RXParameterSet {
    RXParameterSet::msk_model(
        RXParameterAGC { attack: 0x3, decay: 0x9, target: 0x84, ahyst: 0, min: 0, max: 0 },
        16,
        512,
        0x06,
        Some(0x32u16),
    )
}

/// The parameter set of the packet stage.
pub open spec fn set3() -> RXParameterSet {
    RXParameterSet::msk_model(
        RXParameterAGC { attack: 0xF, decay: 0xF, target: 0x84, ahyst: 0, min: 0, max: 0 },
        32,
        1024,
        0x0A,
        Some(0x32u16),
    )
}

/// The registers of the synthesizer preset on this board.
pub open spec fn synthesizer_image() -> SynthesizerImage {
    lband_dc_457().compiled(c3_lband())->Ok_0
}

/// The registers of the channel preset on this board.
pub open spec fn channel_image() -> ChannelImage {
    gmsk_60000().compiled(c3_lband())->Ok_0
}

/// The registers of the receiver on this board and channel.
pub open spec fn profile() -> ReceiverProfile {
    intent().profile(c3_lband(), gmsk_60000())
}

/// The registers of parameter set `set` for this receiver.
pub open spec fn set_image(set: RXParameterSet) -> ParameterSetImage {
    set.image(profile().rx_datarate)
}

/// What `configure_radio` records on top of the board, the synthesizer and
/// the channel: the FIFO threshold.
pub open spec fn fifo_operations() -> Seq<Operation> {
    seq![Operation::Write { register: Register::FifoThresh, value: FIFO_THRESHOLD as u32 }]
}

/// The performance tuning that goes with reception.
pub open spec fn tuning_operations() -> Seq<Operation> {
    seq![
        Operation::Write { register: Register::PerfF18, value: 0x02 },
        Operation::Write { register: Register::PerfF26, value: 0x98 },
    ]
}

/// The loads of the three parameter sets.
pub open spec fn set_operations() -> Seq<Operation> {
    seq![
        Operation::LoadParameterSet { slot: RxParamSet::Set0, image: set_image(set0()) },
        Operation::LoadParameterSet { slot: RxParamSet::Set1, image: set_image(set1()) },
        Operation::LoadParameterSet { slot: RxParamSet::Set3, image: set_image(set3()) },
    ]
}

/// The presets compile: every word they ask for fits its register.
pub proof fn lemma_presets_compile()
    ensures
        lband_dc_457().compiled(c3_lband()) is Ok,
        gmsk_60000().compiled(c3_lband()) is Ok,
        intent().compiled(c3_lband(), gmsk_60000()) == Ok::<ReceiverProfile, ConfigurationError>(
            profile(),
        ),
        set0().refusal() is None,
        set1().refusal() is None,
        set3().refusal() is None,
        stages().field_refusal() is None,
        synthesizer_image().freq_a == Some(479_199_232u32),
        channel_image().fsk_dev == 15729,
        channel_image().tx_rate == 62915,
        profile() == (ReceiverProfile {
            if_freq: 3932,
            decimation: 2,
            rx_datarate: 17067,
            max_dr_offset: 0,
            max_rf_offset: 0,
            freq_offs_corr: true,
            ampl_filter: 0,
            frequency_leak: 0,
        }),
{
    let xtal = c3_lband().xtal;
    assert(xtal.divider() == 1);
    assert(if_freq_word(60_000, xtal) == 3932);
    assert(baseband_bandwidth(60_000) == 450_000);
    assert(baseband_bandwidth(60_000) * 16 * xtal.divider() == 7_200_000);
    assert(16_000_000int / 7_200_000 == 2);
    assert(decimation_value(60_000, xtal) == 2);
    assert(60_000 * xtal.divider() * 2 == 120_000);
    assert(4_096_120_000int / 240_000int == 17067);
    assert(rx_datarate_word(60_000, xtal, 2) == 17067);
    assert(xtal.divider() * 60_000 * 60_000 * 2 == 7_200_000_000);
    assert(0x80 * xtal.freq * 0 == 0);
    assert(7_200_000_000int / 14_400_000_000int == 0);
    assert(max_dr_offset_word(60_000, xtal, 2, 0) == 0);
    assert(max_rf_offset_word(0, xtal) == 0);
}

/// The three parameter sets as they are loaded, byte by byte, with the
/// gains brought into mantissa and exponent.
pub proof fn lemma_parameter_set_images()
    ensures
        set_image(set0()) == (ParameterSetImage {
            agc_gain: 0x93,
            agc_target: 0x84,
            agc_hysteresis: 0,
            agc_min_max: 0,
            time_gain: 0x89,
            datarate_gain: 0x83,
            phase_gain: 0xC3,
            freq_gain_a: 0x06,
            freq_gain_b: 0x06,
            freq_gain_c: 0x1F,
            freq_gain_d: 0x1F,
            amplitude_gain: 0x06,
            freq_dev: 0,
            four_fsk: 0x16,
            bb_offset_res: 0,
        }),
        set_image(set1()) == (ParameterSetImage {
            agc_gain: 0x93,
            agc_target: 0x84,
            agc_hysteresis: 0,
            agc_min_max: 0,
            time_gain: 0x87,
            datarate_gain: 0x82,
            phase_gain: 0xC3,
            freq_gain_a: 0x06,
            freq_gain_b: 0x06,
            freq_gain_c: 0x1F,
            freq_gain_d: 0x1F,
            amplitude_gain: 0x06,
            freq_dev: 0x32,
            four_fsk: 0x16,
            bb_offset_res: 0,
        }),
        set_image(set3()) == (ParameterSetImage {
            agc_gain: 0xFF,
            agc_target: 0x84,
            agc_hysteresis: 0,
            agc_min_max: 0,
            time_gain: 0x86,
            datarate_gain: 0x81,
            phase_gain: 0xC3,
            freq_gain_a: 0x0A,
            freq_gain_b: 0x0A,
            freq_gain_c: 0x1F,
            freq_gain_d: 0x1F,
            amplitude_gain: 0x06,
            freq_dev: 0x32,
            four_fsk: 0x16,
            bb_offset_res: 0,
        }),
{
    lemma_presets_compile();
    lemma_pow2_values();
    assert(4 * pow2(9) == 2048);
    assert(36182int / 4096int == 8);
    assert(mantissa_at(17067, 4, 9) == 8);
    assert(4 * pow2(8) == 1024);
    assert(35158int / 2048int == 17);
    assert(mantissa_at(17067, 4, 8) == 17);
    lemma_quantized_is(17067, 4, 8, 9);
    assert(255 * pow2(3) == 2040);
    assert(36174int / 4080int == 8);
    assert(mantissa_at(17067, 255, 3) == 8);
    assert(255 * pow2(2) == 1020);
    assert(35154int / 2040int == 17);
    assert(mantissa_at(17067, 255, 2) == 17);
    lemma_quantized_is(17067, 255, 8, 3);
    assert(16 * pow2(7) == 2048);
    assert(mantissa_at(17067, 16, 7) == 8);
    assert(16 * pow2(6) == 1024);
    assert(mantissa_at(17067, 16, 6) == 17);
    lemma_quantized_is(17067, 16, 8, 7);
    assert(512 * pow2(2) == 2048);
    assert(mantissa_at(17067, 512, 2) == 8);
    assert(512 * pow2(1) == 1024);
    assert(mantissa_at(17067, 512, 1) == 17);
    lemma_quantized_is(17067, 512, 8, 2);
    assert(32 * pow2(6) == 2048);
    assert(mantissa_at(17067, 32, 6) == 8);
    assert(32 * pow2(5) == 1024);
    assert(mantissa_at(17067, 32, 5) == 17);
    lemma_quantized_is(17067, 32, 8, 6);
    assert(1024 * pow2(1) == 2048);
    assert(mantissa_at(17067, 1024, 1) == 8);
    assert(1024 * pow2(0) == 1024);
    assert(mantissa_at(17067, 1024, 0) == 17);
    lemma_quantized_is(17067, 1024, 8, 1);
}

/// Records the set-up that reception and transmission share: board,
/// synthesizer, channel and FIFO threshold, and a calibration of the
/// oscillator at the end.
pub fn configure_radio(radio: &mut Registers) -> (r: Result<
    (Board, ChannelParameters),
    ConfigurationError,
>)
    ensures
        r == Ok::<(Board, ChannelParameters), ConfigurationError>((c3_lband(), gmsk_60000())),
        final(radio)@ =~= old(radio)@ + c3_lband().operations() + synthesizer_image().operations()
            + channel_image().operations() + fifo_operations()
            + lband_dc_457().ranging_operations(),
        calibrated(final(radio)@),
{
    proof {
        lemma_presets_compile();
    }
    let board = c3_lband().write(radio);
    let synth = lband_dc_457().write(radio, &board)?;
    let channel = gmsk_60000().write(radio, &board)?;
    radio.record(Register::FifoThresh, FIFO_THRESHOLD as u32);
    synth.autorange(radio);
    Ok((board, channel))
}

/// The tuning for reception leaves the oscillator's calibration as it is.
pub proof fn lemma_tuning_keeps_calibration()
    ensures
        keeps_calibration(tuning_operations()),
{
}

/// Loading the parameter sets leaves the oscillator's calibration as it is.
pub proof fn lemma_sets_keep_calibration()
    ensures
        keeps_calibration(set_operations()),
{
}

/// Records the tuning that goes with reception.
fn tune_for_reception(radio: &mut Registers)
    ensures
        final(radio)@ =~= old(radio)@ + tuning_operations(),
{
    radio.write_byte(Register::PerfF18, 0x02);
    radio.write_byte(Register::PerfF26, 0x98);
}

/// Compiles the three parameter sets against the receiver's profile and
/// records their loads.
fn load_parameter_sets(radio: &mut Registers, rxp: &ReceiverProfile) -> (r: Result<
    (),
    ConfigurationError,
>)
    requires
        *rxp == profile(),
    ensures
        r is Ok,
        final(radio)@ =~= old(radio)@ + set_operations(),
        slot_loaded(final(radio)@, RxParamSet::Set0),
        slot_loaded(final(radio)@, RxParamSet::Set1),
        slot_loaded(final(radio)@, RxParamSet::Set3),
{
    proof {
        lemma_presets_compile();
    }
    let set0 = RXParameterSet::msk(RXParameterAGC::radiolab(), 4, 255, 0x06, None);
    set0.write(radio, RxParamSet::Set0, rxp)?;
    let ghost log0 = radio@;

    let set1 = RXParameterSet::msk(RXParameterAGC::radiolab(), 16, 512, 0x06, Some(0x32));
    set1.write(radio, RxParamSet::Set1, rxp)?;
    let ghost log1 = radio@;

    let set3 = RXParameterSet::msk(RXParameterAGC::off(), 32, 1024, 0x0A, Some(0x32));
    set3.write(radio, RxParamSet::Set3, rxp)?;

    proof {
        lemma_slot_stays_loaded(log0, log1.last(), RxParamSet::Set0);
        assert(log0.push(log1.last()) =~= log1);
        lemma_slot_stays_loaded(log1, radio@.last(), RxParamSet::Set0);
        lemma_slot_stays_loaded(log1, radio@.last(), RxParamSet::Set1);
        assert(log1.push(radio@.last()) =~= radio@);
    }
    Ok(())
}

/// Records the whole bring-up of the receiver: the shared set-up, the
/// performance tuning, the receiver profile, parameter sets 0, 1 and 3,
/// the stage machine that runs with them, and the packet format.
pub fn configure_radio_rx(radio: &mut Registers) -> (r: Result<
    (Board, ChannelParameters),
    ConfigurationError,
>)
    ensures
        r == Ok::<(Board, ChannelParameters), ConfigurationError>((c3_lband(), gmsk_60000())),
        final(radio)@ =~= old(radio)@ + c3_lband().operations() + synthesizer_image().operations()
            + channel_image().operations() + fifo_operations()
            + lband_dc_457().ranging_operations() + tuning_operations() + profile().operations()
            + set_operations() + stages().image().operations() + packet_format_operations(
            RSSI_REFERENCE,
        ),
        calibrated(final(radio)@),
{
    proof {
        lemma_presets_compile();
    }
    let (board, channel) = configure_radio(radio)?;
    let ghost shared = radio@;

    tune_for_reception(radio);
    let ghost tuned = radio@;
    proof {
        lemma_tuning_keeps_calibration();
        lemma_stays_calibrated(shared, tuning_operations());
    }

    let rxp = intent().write(radio, &board, &channel)?;
    let ghost profiled = radio@;
    proof {
        profile().lemma_keeps_calibration();
        lemma_stays_calibrated(tuned, profile().operations());
    }

    load_parameter_sets(radio, &rxp)?;
    let ghost loaded = radio@;
    proof {
        lemma_sets_keep_calibration();
        lemma_stays_calibrated(profiled, set_operations());
    }

    stages().write(radio)?;
    let ghost staged = radio@;
    proof {
        stages().image().lemma_keeps_calibration();
        lemma_stays_calibrated(loaded, stages().image().operations());
    }

    write_packet_format(radio, RSSI_REFERENCE);
    proof {
        lemma_packet_format_keeps_calibration(RSSI_REFERENCE);
        lemma_stays_calibrated(staged, packet_format_operations(RSSI_REFERENCE));
    }
    Ok((board, channel))
}

/// Power mode for reception: receiver on, with oscillator and reference
/// enabled.
pub const POWER_MODE_RECEIVE: u8 = 0x69;

/// FIFO command that clears the error flags.
pub const FIFO_CLEAR_ERROR: u8 = 0x02;

/// FIFO command that discards the FIFO's contents.
pub const FIFO_CLEAR_DATA: u8 = 0x03;

/// Interrupt mask bit for "the FIFO is not empty".
pub const IRQ_FIFO_NOT_EMPTY: u16 = 0x0001;

/// What puts the chip into reception once it is brought up: the power
/// mode, two reads that clear the sticky lock and power flags, a clean
/// FIFO, and the interrupt for data in the FIFO.
pub open spec fn receive_operations() -> Seq<Operation> {
    seq![
        Operation::Write { register: Register::PwrMode, value: POWER_MODE_RECEIVE as u32 },
        Operation::Read { register: Register::PllRangingA },
        Operation::Read { register: Register::PowStickyStat },
        Operation::Write { register: Register::FifoStat, value: FIFO_CLEAR_ERROR as u32 },
        Operation::Write { register: Register::FifoStat, value: FIFO_CLEAR_DATA as u32 },
        Operation::Write { register: Register::IrqMask, value: IRQ_FIFO_NOT_EMPTY as u32 },
    ]
}

/// Records the switch to reception. The oscillator has to be calibrated
/// for the frequency and the PLL settings that are in force, as it is after
/// `configure_radio_rx`: a wait for ranging has to be on record, with no
/// write to a frequency word or to a setting of the PLL after it.
pub fn start_receiving(radio: &mut Registers)
    requires
        calibrated(old(radio)@),
    ensures
        final(radio)@ =~= old(radio)@ + receive_operations(),
        calibrated(final(radio)@),
{
    proof {
        lemma_stays_calibrated(old(radio)@, receive_operations());
    }
    radio.write_byte(Register::PwrMode, POWER_MODE_RECEIVE);
    radio.read(Register::PllRangingA);
    radio.read(Register::PowStickyStat);
    radio.write_byte(Register::FifoStat, FIFO_CLEAR_ERROR);
    radio.write_byte(Register::FifoStat, FIFO_CLEAR_DATA);
    radio.record(Register::IrqMask, IRQ_FIFO_NOT_EMPTY as u32);
}

/// Records what leaves the chip in a safe state: a reset. The power
/// amplifier is switched off before this is carried out.
pub fn shutdown(radio: &mut Registers)
    ensures
        final(radio)@ == old(radio)@.push(Operation::Reset),
{
    radio.reset();
}

} // verus!
