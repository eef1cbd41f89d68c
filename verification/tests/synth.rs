use ax5043::board::{Xtal, XtalKind};
use ax5043::presets::{c3_lband, lband_dc_457};
use ax5043::registers::{ConfigurationError, FreqReg, Operation, Register, Registers};
use ax5043::synth::{
    compile_frequency, decode_frequency, CalibrationError, Control, RangingPoll, RangingStep,
};

fn tcxo(freq: u32) -> Xtal {
    Xtal { kind: XtalKind::TCXO, freq }
}

#[test]
fn frequency_word_of_457_mhz_on_16_mhz() {
    assert_eq!(compile_frequency(457_000_000, &tcxo(16_000_000)), 479_199_232);
}

#[test]
fn frequency_word_of_436_5_mhz_on_48_mhz_counts_the_divider() {
    assert_eq!(compile_frequency(436_500_000, &tcxo(48_000_000)), 305_135_616);
}

#[test]
fn frequency_word_rounds_a_tie_up() {
    // 3 * 2^24 * 2 / 2^26 = 1.5
    assert_eq!(compile_frequency(3, &tcxo(0x400_0000)), 2);
    // 1 * 2^24 * 2 / 2^26 = 0.5
    assert_eq!(compile_frequency(1, &tcxo(0x400_0000)), 1);
}

#[test]
fn frequency_word_rounds_to_nearest() {
    // 100 * 2^24 / 16e6 = 104.8576
    assert_eq!(compile_frequency(100, &tcxo(16_000_000)), 105);
    // 10 * 2^24 / 16e6 = 10.48576
    assert_eq!(compile_frequency(10, &tcxo(16_000_000)), 10);
}

#[test]
fn decoded_frequency_is_within_one_step() {
    let xtal = tcxo(16_000_000);
    for freq in [400_000_000u64, 436_500_000, 457_000_000, 457_000_001, 1_050_000_000] {
        let word = compile_frequency(freq, &xtal);
        assert!(word <= u32::MAX as u128);
        let back = decode_frequency(word as u32, &xtal);
        let diff = if back > freq { back - freq } else { freq - back };
        // one step is 16e6 / 2^24 Hz, a little under one hertz
        assert!((diff as u128) * 0x100_0000 <= 16_000_000);
        assert_eq!(back, freq);
    }
}

#[test]
fn decoded_frequency_with_a_coarse_step() {
    // 48 MHz with the divider: one step is 48e6 / 2^25 = 1.43 Hz
    let xtal = tcxo(48_000_000);
    for freq in [436_500_000u64, 436_500_001, 436_500_002, 145_800_000] {
        let word = compile_frequency(freq, &xtal) as u32;
        let back = decode_frequency(word, &xtal);
        let diff = if back > freq { back - freq } else { freq - back };
        assert!((diff as u128) * 0x200_0000 <= 48_000_000);
    }
}

#[test]
fn decode_exact_value() {
    // 479199232 * 16e6 / 2^24 = 457000000
    assert_eq!(decode_frequency(479_199_232, &tcxo(16_000_000)), 457_000_000);
    assert_eq!(decode_frequency(0, &tcxo(16_000_000)), 0);
}

#[test]
fn synthesizer_preset_compiles_to_its_image() {
    let image = lband_dc_457().compile(&c3_lband()).unwrap();
    assert_eq!(image.freq_a, Some(479_199_232));
    assert_eq!(image.freq_b, None);
    assert_eq!(image.pll_loop, 0x01);
    assert_eq!(image.pll_cpi, 0x02);
    assert_eq!(image.pll_loop_boost, 0x03);
    assert_eq!(image.pll_cpi_boost, 0xC8);
    // below 800 MHz the divide-by-two stage is in use
    assert_eq!(image.vco_div, 0x04);
    assert_eq!(image.perf_f34, 0x28);
    assert_eq!(image.vco_current, 0);
    assert_eq!(image.lock_detect, 0);
    assert_eq!(image.ranging_clock, 2);
}

#[test]
fn register_b_drives_the_pll_when_active() {
    let mut synth = lband_dc_457();
    synth.freq_b = 900_000_000;
    synth.active = FreqReg::B;
    let image = synth.compile(&c3_lband()).unwrap();
    assert_eq!(image.pll_loop, 0x81);
    assert_eq!(image.pll_loop_boost, 0x83);
    assert_eq!(image.vco_div, 0x00);
    assert_eq!(image.perf_f34, 0x08);
    assert_eq!(image.freq_b, Some(943_718_400));
}

#[test]
fn manual_settings_are_flagged() {
    let mut synth = lband_dc_457();
    synth.vco_current = Control::Manual(0x13);
    synth.lock_detector_delay = Control::Manual(2);
    let image = synth.compile(&c3_lband()).unwrap();
    assert_eq!(image.vco_current, 0x93);
    assert_eq!(image.lock_detect, 0x06);
}

#[test]
fn manual_current_of_more_than_six_bits_is_refused() {
    let mut synth = lband_dc_457();
    synth.vco_current = Control::Manual(0x40);
    assert_eq!(
        synth.compile(&c3_lband()),
        Err(ConfigurationError::OutOfRange { register: Register::PllVcoI, value: 0x40 })
    );
}

#[test]
fn manual_delay_of_more_than_two_bits_is_refused() {
    let mut synth = lband_dc_457();
    synth.lock_detector_delay = Control::Manual(4);
    assert_eq!(
        synth.compile(&c3_lband()),
        Err(ConfigurationError::OutOfRange { register: Register::PllLockDet, value: 4 })
    );
}

#[test]
fn active_register_without_a_frequency_is_refused() {
    let mut synth = lband_dc_457();
    synth.active = FreqReg::B;
    assert_eq!(
        synth.compile(&c3_lband()),
        Err(ConfigurationError::Undefined { register: Register::FreqB })
    );
}

#[test]
fn synthesizer_with_reference_of_zero_is_refused() {
    let mut board = c3_lband();
    board.xtal.freq = 0;
    assert_eq!(
        lband_dc_457().compile(&board),
        Err(ConfigurationError::Undefined { register: Register::FreqA })
    );
}

#[test]
fn frequency_beyond_the_word_is_refused_with_its_value() {
    let mut synth = lband_dc_457();
    synth.freq_a = 5_000_000_000;
    // 5e9 * 2^24 / 16e6 = 5242880000
    assert_eq!(
        synth.compile(&c3_lband()),
        Err(ConfigurationError::OutOfRange { register: Register::FreqA, value: 5_242_880_000 })
    );
}

#[test]
fn failed_write_records_nothing() {
    let mut radio = Registers::new();
    let mut synth = lband_dc_457();
    synth.freq_a = 5_000_000_000;
    assert!(synth.write(&mut radio, &c3_lband()).is_err());
    assert_eq!(radio.len(), 0);
}

#[test]
fn write_records_loop_then_word() {
    let mut radio = Registers::new();
    let synth = lband_dc_457().write(&mut radio, &c3_lband()).unwrap();
    assert_eq!(synth, lband_dc_457());
    assert_eq!(radio.len(), 10);
    assert_eq!(
        radio.operation(0),
        Operation::Write { register: Register::PllLoop, value: 0x01 }
    );
    assert_eq!(
        radio.operation(8),
        Operation::Write { register: Register::PllRngClk, value: 2 }
    );
    assert_eq!(
        radio.operation(9),
        Operation::Write { register: Register::FreqA, value: 479_199_232 }
    );
}

#[test]
fn autorange_records_start_and_wait() {
    let mut radio = Registers::new();
    lband_dc_457().autorange(&mut radio);
    assert_eq!(radio.len(), 4);
    assert_eq!(radio.operation(0), Operation::Write { register: Register::PllLoop, value: 0x01 });
    assert_eq!(radio.operation(1), Operation::Write { register: Register::PllCpi, value: 0x02 });
    assert_eq!(
        radio.operation(2),
        Operation::Write { register: Register::PllRangingA, value: 0x18 }
    );
    assert_eq!(radio.operation(3), Operation::AwaitRanging { register: FreqReg::A });
}

#[test]
fn ranging_poll_ends_when_the_start_flag_clears() {
    let mut poll = RangingPoll::new(10);
    assert_eq!(poll.observe(0x18), RangingStep::Pending);
    assert_eq!(poll.observe(0x1A), RangingStep::Pending);
    assert_eq!(
        poll.observe(0xC5),
        RangingStep::Done { vco_range: 5, range_error: false }
    );
    assert_eq!(poll.polls, 3);
}

#[test]
fn ranging_poll_reports_the_error_flag() {
    let mut poll = RangingPoll::new(10);
    assert_eq!(
        poll.observe(0x2F),
        RangingStep::Done { vco_range: 15, range_error: true }
    );
}

#[test]
fn ranging_poll_gives_up_when_the_budget_is_spent() {
    let mut poll = RangingPoll::new(3);
    assert_eq!(poll.observe(0x18), RangingStep::Pending);
    assert_eq!(poll.observe(0x18), RangingStep::Pending);
    assert_eq!(
        poll.observe(0x18),
        RangingStep::Failed(CalibrationError::RangingTimeout { polls: 3 })
    );
    // and stays failed, without counting on
    assert_eq!(
        poll.observe(0x08),
        RangingStep::Failed(CalibrationError::RangingTimeout { polls: 3 })
    );
    assert_eq!(poll.polls, 3);
}

#[test]
fn ranging_poll_without_a_budget_fails_at_once() {
    let mut poll = RangingPoll::new(0);
    assert_eq!(
        poll.observe(0x08),
        RangingStep::Failed(CalibrationError::RangingTimeout { polls: 0 })
    );
}

#[test]
fn last_allowed_read_may_still_succeed() {
    let mut poll = RangingPoll::new(1);
    assert_eq!(poll.observe(0x08), RangingStep::Done { vco_range: 8, range_error: false });
}

#[test]
fn direct_connection_is_bit_3_of_the_loop_register() {
    let mut synth = lband_dc_457();
    synth.pll.direct = true;
    synth.boost.direct = true;
    let image = synth.compile(&c3_lband()).unwrap();
    assert_eq!(image.pll_loop, 0x09);
    assert_eq!(image.pll_loop_boost, 0x0B);
    let mut radio = Registers::new();
    synth.autorange(&mut radio);
    assert_eq!(radio.operation(0), Operation::Write { register: Register::PllLoop, value: 0x09 });
    assert!(radio.is_calibrated());
}
