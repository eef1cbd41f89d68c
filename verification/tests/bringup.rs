use ax5043::config_rpi;
use ax5043::lband;
use ax5043::presets::{c3_lband, gmsk, gmsk_60000, lband_dc_457};
use ax5043::registers::{FreqReg, Operation, Register, Registers, RxParamSet};

fn writes_to(radio: &Registers, register: Register) -> Vec<u32> {
    let mut found = Vec::new();
    for i in 0..radio.len() {
        if let Operation::Write { register: r, value } = radio.operation(i) {
            if r == register {
                found.push(value);
            }
        }
    }
    found
}

fn position(radio: &Registers, wanted: Operation) -> Option<usize> {
    (0..radio.len()).find(|i| radio.operation(*i) == wanted)
}

fn loads(radio: &Registers) -> Vec<RxParamSet> {
    let mut found = Vec::new();
    for i in 0..radio.len() {
        if let Operation::LoadParameterSet { slot, .. } = radio.operation(i) {
            found.push(slot);
        }
    }
    found
}

#[test]
fn lband_configure_radio_records_board_synth_channel_and_calibration() {
    let mut radio = Registers::new();
    let (board, channel) = lband::configure_radio(&mut radio).unwrap();
    assert_eq!(board, c3_lband());
    assert_eq!(channel, gmsk_60000());
    // 9 board, 10 synthesizer, 9 channel, 1 threshold, 4 calibration
    assert_eq!(radio.len(), 33);
    assert_eq!(
        radio.operation(0),
        Operation::Write { register: Register::PinFuncSysClk, value: 4 }
    );
    assert_eq!(writes_to(&radio, Register::FreqA), vec![479_199_232]);
    assert_eq!(writes_to(&radio, Register::FreqB), Vec::<u32>::new());
    assert_eq!(writes_to(&radio, Register::TxRate), vec![62915]);
    assert_eq!(writes_to(&radio, Register::FifoThresh), vec![128]);
    assert_eq!(radio.operation(32), Operation::AwaitRanging { register: FreqReg::A });
}

#[test]
fn lband_configure_radio_rx_records_the_whole_bring_up() {
    let mut radio = Registers::new();
    let (board, channel) = lband::configure_radio_rx(&mut radio).unwrap();
    assert_eq!(board, c3_lband());
    assert_eq!(channel, gmsk_60000());
    // 33 shared, 2 tuning, 7 profile, 3 sets, 12 stage machine, 6 packet format
    assert_eq!(radio.len(), 63);
    assert_eq!(writes_to(&radio, Register::PerfF18), vec![0x02]);
    assert_eq!(writes_to(&radio, Register::PerfF26), vec![0x98]);
    assert_eq!(writes_to(&radio, Register::IfFreq), vec![3932]);
    assert_eq!(writes_to(&radio, Register::Decimation), vec![2]);
    assert_eq!(writes_to(&radio, Register::RxDataRate), vec![17067]);
    assert_eq!(writes_to(&radio, Register::MaxDrOffset), vec![0]);
    assert_eq!(writes_to(&radio, Register::MaxRfOffset), vec![0x80_0000]);
    assert_eq!(loads(&radio), vec![RxParamSet::Set0, RxParamSet::Set1, RxParamSet::Set3]);
    assert_eq!(writes_to(&radio, Register::Match1Pat), vec![0x7E7E]);
    assert_eq!(writes_to(&radio, Register::Match0Pat), vec![0x7E7E_7E7E]);
    assert_eq!(writes_to(&radio, Register::TmgRxPreamble1), vec![0]);
    assert_eq!(writes_to(&radio, Register::TmgRxPreamble2), vec![0xB7]);
    assert_eq!(writes_to(&radio, Register::RxParamSets), vec![0xF4]);
    assert_eq!(writes_to(&radio, Register::PktMaxLen), vec![0xFF]);
    assert_eq!(writes_to(&radio, Register::PktLenCfg), vec![0x0F]);
    assert_eq!(writes_to(&radio, Register::PktLenOffset), vec![0x09]);
    assert_eq!(writes_to(&radio, Register::PktChunkSize), vec![0x09]);
    assert_eq!(writes_to(&radio, Register::PktAcceptFlags), vec![0x20]);
    assert_eq!(writes_to(&radio, Register::RssiReference), vec![32]);
    assert_eq!(radio.operation(62), Operation::Write { register: Register::RssiReference, value: 32 });
}

#[test]
fn lband_parameter_sets_hold_the_quantized_gains() {
    let mut radio = Registers::new();
    lband::configure_radio_rx(&mut radio).unwrap();
    let mut images = Vec::new();
    for i in 0..radio.len() {
        if let Operation::LoadParameterSet { image, .. } = radio.operation(i) {
            images.push(image);
        }
    }
    assert_eq!(images.len(), 3);
    // 17067 / 4 -> 8 * 2^9, 17067 / 16 -> 8 * 2^7, 17067 / 32 -> 8 * 2^6
    assert_eq!(images[0].time_gain, 0x89);
    assert_eq!(images[1].time_gain, 0x87);
    assert_eq!(images[2].time_gain, 0x86);
    // 17067 / 255 -> 8 * 2^3, / 512 -> 8 * 2^2, / 1024 -> 8 * 2^1
    assert_eq!(images[0].datarate_gain, 0x83);
    assert_eq!(images[1].datarate_gain, 0x82);
    assert_eq!(images[2].datarate_gain, 0x81);
    assert_eq!(images[0].agc_gain, 0x93);
    assert_eq!(images[2].agc_gain, 0xFF);
    assert_eq!(images[0].freq_gain_a, 0x06);
    assert_eq!(images[2].freq_gain_b, 0x0A);
    assert_eq!(images[0].freq_gain_c, 0x1F);
    assert_eq!(images[0].freq_dev, 0);
    assert_eq!(images[1].freq_dev, 0x32);
}

#[test]
fn stage_machine_comes_after_the_sets_it_names() {
    let mut radio = Registers::new();
    lband::configure_radio_rx(&mut radio).unwrap();
    let map = position(&radio, Operation::Write { register: Register::RxParamSets, value: 0xF4 })
        .unwrap();
    let first_matcher =
        position(&radio, Operation::Write { register: Register::Match1Pat, value: 0x7E7E })
            .unwrap();
    for i in 0..radio.len() {
        if let Operation::LoadParameterSet { .. } = radio.operation(i) {
            assert!(i < first_matcher);
            assert!(i < map);
        }
    }
    assert!(radio.slot_written(RxParamSet::Set0));
    assert!(radio.slot_written(RxParamSet::Set1));
    assert!(!radio.slot_written(RxParamSet::Set2));
    assert!(radio.slot_written(RxParamSet::Set3));
}

#[test]
fn calibration_comes_after_the_frequency_and_before_reception() {
    let mut radio = Registers::new();
    lband::configure_radio_rx(&mut radio).unwrap();
    lband::start_receiving(&mut radio);
    let word = position(&radio, Operation::Write { register: Register::FreqA, value: 479_199_232 })
        .unwrap();
    let wait = position(&radio, Operation::AwaitRanging { register: FreqReg::A }).unwrap();
    let receive =
        position(&radio, Operation::Write { register: Register::PwrMode, value: 0x69 }).unwrap();
    assert!(word < wait);
    assert!(wait < receive);
}

#[test]
fn bring_up_goes_on_top_of_what_is_on_record() {
    let mut radio = Registers::new();
    radio.reset();
    lband::configure_radio_rx(&mut radio).unwrap();
    assert_eq!(radio.len(), 64);
    assert_eq!(radio.operation(0), Operation::Reset);
}

#[test]
fn start_receiving_records_power_mode_flag_reads_fifo_and_interrupt() {
    let mut radio = Registers::new();
    lband::configure_radio_rx(&mut radio).unwrap();
    let before = radio.len();
    assert!(radio.is_calibrated());
    lband::start_receiving(&mut radio);
    let expected = [
        Operation::Write { register: Register::PwrMode, value: 0x69 },
        Operation::Read { register: Register::PllRangingA },
        Operation::Read { register: Register::PowStickyStat },
        Operation::Write { register: Register::FifoStat, value: 0x02 },
        Operation::Write { register: Register::FifoStat, value: 0x03 },
        Operation::Write { register: Register::IrqMask, value: 0x0001 },
    ];
    assert_eq!(radio.len(), before + expected.len());
    for (i, op) in expected.iter().enumerate() {
        assert_eq!(radio.operation(before + i), *op);
    }
    assert!(radio.is_calibrated());
}

#[test]
fn calibration_is_out_of_date_after_a_new_frequency_or_a_reset() {
    let mut radio = Registers::new();
    assert!(!radio.is_calibrated());
    lband_dc_457().write(&mut radio, &c3_lband()).unwrap();
    assert!(!radio.is_calibrated());
    lband_dc_457().autorange(&mut radio);
    assert!(radio.is_calibrated());
    radio.write_byte(Register::PerfF18, 0x02);
    radio.read(Register::PllRangingA);
    assert!(radio.is_calibrated());
    radio.record(Register::FreqB, 1);
    assert!(!radio.is_calibrated());
    lband_dc_457().autorange(&mut radio);
    assert!(radio.is_calibrated());
    radio.record(Register::FreqA, 479_199_232);
    assert!(!radio.is_calibrated());
    lband_dc_457().autorange(&mut radio);
    radio.reset();
    assert!(!radio.is_calibrated());
}

#[test]
fn calibration_is_out_of_date_after_any_change_of_the_pll() {
    let pll = [
        Register::PllLoop,
        Register::PllCpi,
        Register::PllLoopBoost,
        Register::PllCpiBoost,
        Register::PllVcoDiv,
        Register::PllVcoI,
        Register::PllLockDet,
        Register::PllRngClk,
    ];
    for register in pll {
        assert!(register.is_tuning());
        let mut radio = Registers::new();
        lband_dc_457().autorange(&mut radio);
        assert!(radio.is_calibrated());
        radio.write_byte(register, 0x01);
        assert!(!radio.is_calibrated());
        lband_dc_457().autorange(&mut radio);
        assert!(radio.is_calibrated());
    }
    assert!(Register::FreqA.is_tuning());
    assert!(Register::FreqB.is_tuning());
    for register in [
        Register::PllRangingA,
        Register::PllRangingB,
        Register::PerfF18,
        Register::IfFreq,
        Register::RxParamSets,
        Register::PwrMode,
    ] {
        assert!(!register.is_tuning());
        let mut radio = Registers::new();
        lband_dc_457().autorange(&mut radio);
        radio.write_byte(register, 0x01);
        assert!(radio.is_calibrated());
    }
}

#[test]
fn a_wait_for_ranging_follows_the_last_synthesizer_write_of_every_bring_up() {
    let records = [
        {
            let mut radio = Registers::new();
            lband::configure_radio_rx(&mut radio).unwrap();
            radio
        },
        {
            let mut radio = Registers::new();
            config_rpi::configure_radio_rx(&mut radio).unwrap();
            radio
        },
        {
            let mut radio = Registers::new();
            config_rpi::configure_radio_tx(&mut radio).unwrap();
            radio
        },
    ];
    for radio in records {
        let mut last_tuning = None;
        let mut last_wait = None;
        for i in 0..radio.len() {
            match radio.operation(i) {
                Operation::Write { register, .. } if register.is_tuning() => last_tuning = Some(i),
                Operation::AwaitRanging { .. } => last_wait = Some(i),
                _ => {}
            }
        }
        assert!(last_tuning.unwrap() < last_wait.unwrap());
    }
}

#[test]
fn every_bring_up_ends_calibrated() {
    let mut radio = Registers::new();
    lband::configure_radio(&mut radio).unwrap();
    assert!(radio.is_calibrated());
    let mut radio = Registers::new();
    config_rpi::config(&mut radio).unwrap();
    assert!(radio.is_calibrated());
    let mut radio = Registers::new();
    config_rpi::configure_radio_tx(&mut radio).unwrap();
    assert!(radio.is_calibrated());
    let mut radio = Registers::new();
    config_rpi::configure_radio_rx(&mut radio).unwrap();
    assert!(radio.is_calibrated());
}

#[test]
fn shutdown_records_a_reset() {
    let mut radio = Registers::new();
    lband::configure_radio_rx(&mut radio).unwrap();
    lband::shutdown(&mut radio);
    assert_eq!(radio.operation(radio.len() - 1), Operation::Reset);
    assert!(!radio.slot_written(RxParamSet::Set0));
    assert!(!radio.slot_written(RxParamSet::Set3));
}

#[test]
fn rpi_config_records_board_synth_channel_and_calibration() {
    let mut radio = Registers::new();
    let (board, channel) = config_rpi::config(&mut radio).unwrap();
    assert_eq!(board, config_rpi::board());
    assert_eq!(board.xtal.freq, 48_000_000);
    assert_eq!(channel, gmsk(9_600));
    assert_eq!(radio.len(), 32);
    // floating with pull-up: code 2, bit 7
    assert_eq!(radio.operation(0), Operation::Write { register: Register::PinFuncSysClk, value: 0x82 });
    // the oscillator is switched by the power amplifier pin: code 7
    assert_eq!(writes_to(&radio, Register::PinFuncPwrAmp), vec![0x07]);
    // above 24.8 MHz the divider is 2
    assert_eq!(writes_to(&radio, Register::PerfF35), vec![0x11]);
    assert_eq!(writes_to(&radio, Register::FreqA), vec![305_135_616]);
    assert_eq!(writes_to(&radio, Register::FskDev), vec![839]);
    assert_eq!(writes_to(&radio, Register::TxRate), vec![3355]);
    assert_eq!(radio.operation(31), Operation::AwaitRanging { register: FreqReg::A });
}

#[test]
fn rpi_configure_radio_tx_adds_the_transmitter() {
    let mut radio = Registers::new();
    let board = config_rpi::configure_radio_tx(&mut radio).unwrap();
    assert_eq!(board, config_rpi::board());
    assert_eq!(radio.len(), 38);
    // single-ended 0x02, shaping 0x04, ramp of one bit 0x00, both gates 0xC0
    assert_eq!(writes_to(&radio, Register::ModCfgA), vec![0xC6]);
    assert_eq!(writes_to(&radio, Register::TxPwrCoeffA), vec![0]);
    assert_eq!(writes_to(&radio, Register::TxPwrCoeffB), vec![0x700]);
    assert_eq!(writes_to(&radio, Register::TxPwrCoeffE), vec![0]);
    assert_eq!(loads(&radio), Vec::<RxParamSet>::new());
}

#[test]
fn rpi_configure_radio_rx_records_the_whole_bring_up() {
    let mut radio = Registers::new();
    let (board, channel) = config_rpi::configure_radio_rx(&mut radio).unwrap();
    assert_eq!(board, config_rpi::board());
    assert_eq!(channel, config_rpi::channel());
    // 32 shared, 2 tuning, 4 ranging for reception, 7 profile, 3 sets, 12 stage machine,
    // 6 packet format
    assert_eq!(radio.len(), 66);
    assert_eq!(writes_to(&radio, Register::PerfF26), vec![0x96]);
    // the loop register is written by the synthesizer, for the first ranging, and for
    // reception, where the widest filter is connected directly
    assert_eq!(writes_to(&radio, Register::PllLoop), vec![0x01, 0x01, 0x0B]);
    assert_eq!(writes_to(&radio, Register::PllCpi), vec![0x02, 0x02, 0x10]);
    // the loop settings for reception are ranged with
    let receive_loop =
        position(&radio, Operation::Write { register: Register::PllLoop, value: 0x0B }).unwrap();
    assert_eq!(
        radio.operation(receive_loop + 1),
        Operation::Write { register: Register::PllCpi, value: 0x10 }
    );
    assert_eq!(
        radio.operation(receive_loop + 2),
        Operation::Write { register: Register::PllRangingA, value: 0x18 }
    );
    assert_eq!(
        radio.operation(receive_loop + 3),
        Operation::AwaitRanging { register: FreqReg::A }
    );
    assert_eq!(writes_to(&radio, Register::PllRangingA), vec![0x18, 0x18]);
    assert_eq!(writes_to(&radio, Register::IfFreq), vec![419]);
    assert_eq!(writes_to(&radio, Register::Decimation), vec![20]);
    assert_eq!(writes_to(&radio, Register::RxDataRate), vec![16000]);
    assert_eq!(loads(&radio), vec![RxParamSet::Set0, RxParamSet::Set1, RxParamSet::Set3]);
    assert_eq!(writes_to(&radio, Register::Match1Pat), vec![0x1111]);
    assert_eq!(writes_to(&radio, Register::Match0Pat), vec![0x1111_1111]);
    assert_eq!(writes_to(&radio, Register::TmgRxPreamble1), vec![0xB7]);
    assert_eq!(writes_to(&radio, Register::TmgRxPreamble2), vec![0x17]);
    assert_eq!(writes_to(&radio, Register::RssiReference), vec![0]);
}

#[test]
fn rpi_parameter_sets_hold_the_quantized_gains() {
    let mut radio = Registers::new();
    config_rpi::configure_radio_rx(&mut radio).unwrap();
    let mut images = Vec::new();
    for i in 0..radio.len() {
        if let Operation::LoadParameterSet { image, .. } = radio.operation(i) {
            images.push(image);
        }
    }
    assert_eq!(images.len(), 3);
    // 16000 / 4 -> 8 * 2^9; 16000 / 255 -> 8 * 2^3
    assert_eq!(images[0].time_gain, 0x89);
    assert_eq!(images[0].datarate_gain, 0x83);
    // 16000 / 32 = 500 -> 8 * 2^6; 16000 / 1024 = 15.6 -> 8 * 2^1
    assert_eq!(images[2].time_gain, 0x86);
    assert_eq!(images[2].datarate_gain, 0x81);
    assert_eq!(images[0].agc_gain, 0xB4);
    assert_eq!(images[0].agc_target, 0x76);
    assert_eq!(images[0].freq_gain_a, 0x0A);
    assert_eq!(images[2].freq_gain_a, 0x0D);
}

#[test]
fn synth_preset_is_what_the_bring_up_uses() {
    assert_eq!(lband_dc_457().freq_a, 457_000_000);
    assert_eq!(config_rpi::synthesizer().freq_a, 436_500_000);
    assert_eq!(config_rpi::transmitter().plllock_gate, true);
    assert_eq!(config_rpi::receive_synthesizer().freq_a, 436_500_000);
    assert_eq!(config_rpi::receive_synthesizer().boost, config_rpi::synthesizer().boost);
    assert_eq!(config_rpi::receive_synthesizer().pll.charge_pump_current, 0x10);
    assert!(config_rpi::receive_synthesizer().pll.direct);
    assert_eq!(lband::stages().packet, RxParamSet::Set3);
    assert_eq!(config_rpi::stages().packet, RxParamSet::Set3);
}
