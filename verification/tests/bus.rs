use ax5043::bus::{
    check_revision, decode_read, decode_status, fifo_read_plan, frame_fifo_read,
    frame_parameter_set, frame_read, frame_write, strip_status, BusError, StatusWatcher,
    EXPECTED_REVISION,
};
use ax5043::registers::{
    ConfigurationError, Operation, ParameterSetImage, Register, Registers, RxParamSet,
};

#[test]
fn write_frame_is_address_then_value() {
    assert_eq!(frame_write(Register::PwrMode, 0x69), vec![0xF0, 0x02, 0x69]);
    assert_eq!(frame_write(Register::PerfF35, 0x11), vec![0xFF, 0x35, 0x11]);
    assert_eq!(frame_write(Register::IfFreq, 0x0F5C), vec![0xF1, 0x00, 0x0F, 0x5C]);
    assert_eq!(frame_write(Register::RxDataRate, 17067), vec![0xF1, 0x03, 0x00, 0x42, 0xAB]);
    assert_eq!(
        frame_write(Register::FreqA, 479_199_232),
        vec![0xF0, 0x34, 0x1C, 0x90, 0x00, 0x00]
    );
    assert_eq!(
        frame_write(Register::Match0Pat, 0x7E7E_7E7E),
        vec![0xF2, 0x10, 0x7E, 0x7E, 0x7E, 0x7E]
    );
}

#[test]
fn read_frame_is_address_then_zeros() {
    assert_eq!(frame_read(Register::Revision), vec![0x70, 0x00, 0x00]);
    assert_eq!(frame_read(Register::PllRangingA), vec![0x70, 0x33, 0x00]);
    assert_eq!(frame_read(Register::FifoCount), vec![0x70, 0x2A, 0x00, 0x00]);
    assert_eq!(frame_read(Register::FreqA), vec![0x70, 0x34, 0, 0, 0, 0]);
    assert_eq!(frame_read(Register::PerfF10), vec![0x7F, 0x10, 0x00]);
}

#[test]
fn read_value_follows_the_status_bytes() {
    assert_eq!(decode_read(Register::Revision, &vec![0x80, 0x00, 0x51]), Some(0x51));
    assert_eq!(decode_read(Register::FifoCount, &vec![0x80, 0x00, 0x01, 0x02]), Some(0x0102));
    assert_eq!(
        decode_read(Register::RxDataRate, &vec![0, 0, 0x00, 0x42, 0xAB]),
        Some(17067)
    );
    assert_eq!(
        decode_read(Register::FreqA, &vec![0, 0, 0x1C, 0x90, 0x00, 0x00]),
        Some(479_199_232)
    );
    assert_eq!(decode_read(Register::FreqA, &vec![0, 0, 0xFF, 0xFF, 0xFF, 0xFF]), Some(u32::MAX));
}

#[test]
fn answer_of_the_wrong_length_has_no_value() {
    assert_eq!(decode_read(Register::Revision, &vec![0x80, 0x00]), None);
    assert_eq!(decode_read(Register::Revision, &vec![0x80, 0x00, 0x51, 0x00]), None);
    assert_eq!(decode_read(Register::FreqA, &vec![]), None);
}

#[test]
fn status_is_the_first_two_bytes() {
    assert_eq!(decode_status(&vec![0x80, 0x01, 0x51]), Some(0x8001));
    assert_eq!(decode_status(&vec![0x12, 0x34]), Some(0x1234));
    assert_eq!(decode_status(&vec![0x12]), None);
    assert_eq!(decode_status(&vec![]), None);
}

#[test]
fn parameter_set_goes_out_as_one_burst() {
    let image = ParameterSetImage {
        agc_gain: 1,
        agc_target: 2,
        agc_hysteresis: 3,
        agc_min_max: 4,
        time_gain: 5,
        datarate_gain: 6,
        phase_gain: 7,
        freq_gain_a: 8,
        freq_gain_b: 9,
        freq_gain_c: 10,
        freq_gain_d: 11,
        amplitude_gain: 12,
        freq_dev: 0x0D0E,
        four_fsk: 15,
        bb_offset_res: 16,
    };
    assert_eq!(
        frame_parameter_set(RxParamSet::Set0, &image),
        vec![0xF1, 0x20, 1, 2, 3, 4, 5, 6, 7, 8, 9, 10, 11, 12, 0x0D, 0x0E, 15, 16]
    );
    assert_eq!(frame_parameter_set(RxParamSet::Set1, &image)[..2], [0xF1, 0x30]);
    assert_eq!(frame_parameter_set(RxParamSet::Set2, &image)[..2], [0xF1, 0x40]);
    assert_eq!(frame_parameter_set(RxParamSet::Set3, &image)[..2], [0xF1, 0x50]);
    assert_eq!(RxParamSet::Set3.bank_address(), 0x150);
    assert_eq!(RxParamSet::Set2.number(), 2);
}

#[test]
fn revision_is_checked() {
    assert_eq!(EXPECTED_REVISION, 0x51);
    assert_eq!(check_revision(0x51), Ok(()));
    assert_eq!(
        check_revision(0x50),
        Err(BusError::UnexpectedRevision { found: 0x50, expected: 0x51 })
    );
    assert_eq!(
        check_revision(0x00),
        Err(BusError::UnexpectedRevision { found: 0x00, expected: 0x51 })
    );
}

#[test]
fn watcher_reports_changes_only() {
    let mut watcher = StatusWatcher::new();
    assert_eq!(watcher.observe(0), None);
    assert_eq!(watcher.observe(0x8001), Some(0x8001));
    assert_eq!(watcher.observe(0x8001), None);
    assert_eq!(watcher.observe(0x8001), None);
    assert_eq!(watcher.observe(0x8000), Some(0x8000));
    assert_eq!(watcher.observe(0), Some(0));
    assert_eq!(watcher.last, 0);
}

#[test]
fn registers_have_addresses_and_widths() {
    assert_eq!(Register::Revision.address(), 0x000);
    assert_eq!(Register::PwrMode.address(), 0x002);
    assert_eq!(Register::FreqA.address(), 0x034);
    assert_eq!(Register::FreqA.width(), 4);
    assert_eq!(Register::Rssi.address(), 0x040);
    assert_eq!(Register::Rssi.width(), 1);
    assert_eq!(Register::IfFreq.address(), 0x100);
    assert_eq!(Register::IfFreq.width(), 2);
    assert_eq!(Register::RxDataRate.width(), 3);
    assert_eq!(Register::Decimation.width(), 1);
    assert_eq!(Register::RxParamSets.address(), 0x117);
    assert_eq!(Register::PerfF35.address(), 0xF35);
    assert!(Register::Decimation.holds(0xFF));
    assert!(!Register::Decimation.holds(0x100));
    assert!(Register::IfFreq.holds(0xFFFF));
    assert!(!Register::IfFreq.holds(0x1_0000));
    assert!(Register::RxDataRate.holds(0xFF_FFFF));
    assert!(!Register::RxDataRate.holds(0x100_0000));
    assert!(Register::FreqA.holds(u32::MAX));
}

#[test]
fn write_refuses_what_the_register_cannot_hold() {
    let mut radio = Registers::new();
    assert_eq!(radio.write(Register::Decimation, 0x7F), Ok(()));
    assert_eq!(
        radio.write(Register::Decimation, 0x100),
        Err(ConfigurationError::OutOfRange { register: Register::Decimation, value: 0x100 })
    );
    assert_eq!(
        radio.write(Register::TxRate, 0x100_0000),
        Err(ConfigurationError::OutOfRange { register: Register::TxRate, value: 0x100_0000 })
    );
    assert_eq!(radio.write(Register::FreqB, u32::MAX), Ok(()));
    assert_eq!(radio.len(), 2);
    assert_eq!(radio.operation(0), Operation::Write { register: Register::Decimation, value: 0x7F });
    assert_eq!(radio.operation(1), Operation::Write { register: Register::FreqB, value: u32::MAX });
}

#[test]
fn operations_are_recorded_in_order() {
    let mut radio = Registers::new();
    assert_eq!(radio.len(), 0);
    radio.write_byte(Register::PerfF18, 2);
    radio.read(Register::PowStickyStat);
    radio.record(Register::IrqMask, 1);
    radio.reset();
    assert_eq!(radio.len(), 4);
    assert_eq!(radio.operation(0), Operation::Write { register: Register::PerfF18, value: 2 });
    assert_eq!(radio.operation(1), Operation::Read { register: Register::PowStickyStat });
    assert_eq!(radio.operation(2), Operation::Write { register: Register::IrqMask, value: 1 });
    assert_eq!(radio.operation(3), Operation::Reset);
}

#[test]
fn fifo_is_read_in_one_burst() {
    assert_eq!(frame_fifo_read(0), vec![0x70, 0x29]);
    assert_eq!(frame_fifo_read(3), vec![0x70, 0x29, 0, 0, 0]);
    assert_eq!(frame_fifo_read(300).len(), 302);
    assert_eq!(strip_status(&vec![0x80, 0x00, 0xE1, 0x01, 0x03]), vec![0xE1, 0x01, 0x03]);
    assert_eq!(strip_status(&vec![0x80, 0x00]), Vec::<u8>::new());
    assert_eq!(strip_status(&vec![0x80]), Vec::<u8>::new());
    assert_eq!(strip_status(&vec![]), Vec::<u8>::new());
}

#[test]
fn empty_fifo_is_not_read() {
    assert_eq!(fifo_read_plan(0), None);
    assert_eq!(fifo_read_plan(1), Some(vec![0x70, 0x29, 0]));
    assert_eq!(fifo_read_plan(3), Some(vec![0x70, 0x29, 0, 0, 0]));
    assert_eq!(fifo_read_plan(256).unwrap().len(), 258);
}
