use gigacenter::access::{EcAccess, RegisterBank, RegisterBatch};
use gigacenter::bat::BatThreshold;
use gigacenter::ec::{BitPos, BitState, RWData};
use gigacenter::error::EcError;
use gigacenter::fan_speed::{CpuFanSpeed, FanMode};
use gigacenter::rate_limit::{parse_timestamp, timestamp_text, write_delay_ms, WRITE_TIMEOUT_MS};
use gigacenter::temp::CpuTemp;
use gigacenter::traits::{ReadEC, WriteResult};

#[test]
fn first_write_does_not_wait() {
    assert_eq!(write_delay_ms(None, 0), 0);
    assert_eq!(write_delay_ms(None, 1_700_000_000_000), 0);
}

#[test]
fn back_to_back_writes_wait_out_the_window() {
    assert_eq!(WRITE_TIMEOUT_MS, 2000);
    assert_eq!(write_delay_ms(Some(10_000), 10_000), 2000);
    assert_eq!(write_delay_ms(Some(10_000), 10_500), 1500);
    assert_eq!(write_delay_ms(Some(10_000), 11_999), 1);
    assert_eq!(write_delay_ms(Some(10_000), 12_000), 0);
    assert_eq!(write_delay_ms(Some(10_000), 50_000), 0);
    for elapsed in [0u64, 1, 700, 1999, 2000, 2001, 9000] {
        let last = 1_000_000u64;
        let now = last + elapsed;
        assert!(now + write_delay_ms(Some(last), now) >= last + 2000);
    }
}

#[test]
fn clock_behind_last_write_waits_full_window() {
    assert_eq!(write_delay_ms(Some(5000), 4000), 2000);
}

#[test]
fn timestamp_parsing() {
    assert_eq!(parse_timestamp(b"1700000000000"), Some(1_700_000_000_000));
    assert_eq!(parse_timestamp(b"0"), Some(0));
    assert_eq!(parse_timestamp(b"18446744073709551615"), Some(u64::MAX));
    assert_eq!(parse_timestamp(b"18446744073709551616"), None);
    assert_eq!(parse_timestamp(b""), None);
    assert_eq!(parse_timestamp(b"12a"), None);
    assert_eq!(parse_timestamp(b"-5"), None);
}

#[test]
fn bank_reads_fill_descriptors() {
    let mut bank = RegisterBank::new();
    bank.set(0x60, 45);
    bank.set(0x08, 0b0100_0000);
    bank.set(0xFC, 0x0A);
    bank.set(0xFD, 0xBC);
    let mut ops = vec![
        RWData::U8 { reg: 0x60, value: 0 },
        RWData::U1 { reg: 0x08, pos: BitPos::new(6), state: BitState::Disabled },
        RWData::U16 { reg: 0xFC, value: 0 },
    ];
    assert_eq!(bank.read_data_inner(&mut ops), Ok(()));
    assert_eq!(
        ops,
        vec![
            RWData::U8 { reg: 0x60, value: 45 },
            RWData::U1 { reg: 0x08, pos: BitPos::new(6), state: BitState::Enabled },
            RWData::U16 { reg: 0xFC, value: 0x0ABC },
        ]
    );
    assert_eq!(bank.get(0x60), 45);
}

#[test]
fn bank_word_read_past_end_fails() {
    let mut bank = RegisterBank::new();
    let mut ops = vec![RWData::U16 { reg: 0xFF, value: 0 }];
    assert_eq!(bank.read_data_inner(&mut ops), Err(EcError::RegisterOutOfRange(0xFF)));
}

#[test]
fn bank_failed_read_keeps_filled_prefix() {
    let mut bank = RegisterBank::new();
    bank.set(0x60, 45);
    bank.set(0x61, 50);
    let mut ops = vec![
        RWData::U8 { reg: 0x60, value: 0 },
        RWData::U16 { reg: 0xFF, value: 9 },
        RWData::U8 { reg: 0x61, value: 1 },
    ];
    assert_eq!(bank.read_data_inner(&mut ops), Err(EcError::RegisterOutOfRange(0xFF)));
    assert_eq!(
        ops,
        vec![
            RWData::U8 { reg: 0x60, value: 45 },
            RWData::U16 { reg: 0xFF, value: 9 },
            RWData::U8 { reg: 0x61, value: 1 },
        ]
    );
    assert_eq!(bank.get(0x60), 45);
}

#[test]
fn bank_bit_write_is_read_modify_write() {
    let mut bank = RegisterBank::new();
    bank.set(0x08, 0b1000_0001);
    bank.set(0x0C, 0b1111_1111);
    assert_eq!(bank.write_data(&FanMode::Eco), WriteResult::Done);
    assert_eq!(bank.get(0x08), 0b1100_0001);
    assert_eq!(bank.get(0x0C), 0b1110_1111);
}

#[test]
fn bank_fan_mode_round_trip() {
    for mode in [FanMode::Normal, FanMode::Eco, FanMode::Power, FanMode::Turbo] {
        let mut bank = RegisterBank::new();
        bank.write_data(&mode);
        let mut ops = FanMode::data_to_read();
        bank.read_data_inner(&mut ops).unwrap();
        assert_eq!(FanMode::from_read_data(&ops), Ok(mode));
    }
}

#[test]
fn bank_turbo_sets_fixed_speed() {
    let mut bank = RegisterBank::new();
    bank.write_data(&FanMode::Turbo);
    assert_eq!(bank.get(0xB0), 0xE5);
    assert_eq!(bank.get(0xB1), 0xE5);
}

#[test]
fn bank_threshold_round_trip() {
    for v in [60u8, 75, 99, 100] {
        let mut bank = RegisterBank::new();
        bank.write_data(&BatThreshold::new(v));
        let mut ops = BatThreshold::data_to_read();
        bank.read_data_inner(&mut ops).unwrap();
        assert_eq!(BatThreshold::from_read_data(&ops).unwrap().actual_value(), v);
    }
}

#[test]
fn bank_sensor_readings() {
    let mut bank = RegisterBank::new();
    bank.set(0x60, 52);
    bank.set(0xFC, 0x01);
    bank.set(0xFD, 0x2C);
    let mut t = CpuTemp::data_to_read();
    bank.read_data_inner(&mut t).unwrap();
    assert_eq!(CpuTemp::from_read_data(&t).unwrap().value(), 52);
    let mut s = CpuFanSpeed::data_to_read();
    bank.read_data_inner(&mut s).unwrap();
    assert_eq!(CpuFanSpeed::from_read_data(&s).unwrap().value(), 300);
    assert!(CpuTemp::from_read_data(&s).is_err());
}

#[test]
fn batch_steps_of_a_bit_write() {
    let ops = vec![
        RWData::U16 { reg: 0xFC, value: 7 },
        RWData::U1 { reg: 0x08, pos: BitPos::new(6), state: BitState::Enabled },
        RWData::U8 { reg: 0xB0, value: 0xE5 },
    ];
    let mut batch = RegisterBatch::writing(ops);
    assert!(batch.is_write());
    assert_eq!(batch.next_access(), EcAccess::Read { reg: 0x08, len: 1 });
    batch.on_read(&[0x01]);
    assert_eq!(batch.next_access(), EcAccess::Write { reg: 0x08, value: 0x41 });
    batch.on_written();
    assert_eq!(batch.next_access(), EcAccess::Write { reg: 0xB0, value: 0xE5 });
    batch.on_written();
    assert_eq!(batch.next_access(), EcAccess::Finished);
    assert!(batch.is_finished());
}

#[test]
fn batch_steps_of_a_read() {
    let ops = vec![RWData::U8 { reg: 0x61, value: 0 }, RWData::U16 { reg: 0xFE, value: 0 }];
    let mut batch = RegisterBatch::reading(ops);
    assert_eq!(batch.next_access(), EcAccess::Read { reg: 0x61, len: 1 });
    batch.on_read(&[40]);
    assert_eq!(batch.next_access(), EcAccess::Read { reg: 0xFE, len: 2 });
    batch.on_read(&[0x02, 0x00]);
    assert!(batch.is_finished());
    assert_eq!(batch.into_ops(), vec![RWData::U8 { reg: 0x61, value: 40 }, RWData::U16 { reg: 0xFE, value: 512 }]);
}

#[test]
fn timestamp_text_is_decimal() {
    assert_eq!(timestamp_text(0), b"0".to_vec());
    assert_eq!(timestamp_text(7), b"7".to_vec());
    assert_eq!(timestamp_text(1_700_000_000_123), b"1700000000123".to_vec());
    assert_eq!(timestamp_text(u64::MAX), b"18446744073709551615".to_vec());
    for ms in [0u64, 9, 10, 99, 100, 2000, 123_456_789, u64::MAX] {
        assert_eq!(parse_timestamp(&timestamp_text(ms)), Some(ms));
    }
}
