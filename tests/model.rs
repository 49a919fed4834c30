use gigacenter::bat::BatThreshold;
use gigacenter::ec::{read_bit, word_from_be, write_bit, BitPos, BitState, RWData};
use gigacenter::error::EcError;
use gigacenter::fan_speed::FanMode;
use gigacenter::traits::{InvokeDaemon, ReadEC, WriteEC};
use gigacenter::codec::DaemonReq;

fn flag(reg: u8, bit: u8, state: BitState) -> RWData {
    RWData::U1 { reg, pos: BitPos::new(bit), state }
}

#[test]
fn bit_pos_accepts_zero_to_seven() {
    for b in 0u8..=7 {
        let p = BitPos::try_new(b).expect("in range");
        assert_eq!(p.get(), b);
        assert_eq!(BitPos::new(b).get(), b);
    }
}

#[test]
fn bit_pos_rejects_above_seven() {
    for b in [8u8, 9, 100, 255] {
        assert_eq!(BitPos::try_new(b), Err(EcError::BitOutOfRange(b)));
    }
}

#[test]
fn bit_state_values() {
    assert_eq!(BitState::Disabled.as_u8(), 0);
    assert_eq!(BitState::Enabled.as_u8(), 1);
}

#[test]
fn read_bit_picks_one_bit() {
    assert_eq!(read_bit(0b0100_0000, BitPos::new(6)), BitState::Enabled);
    assert_eq!(read_bit(0b1011_1111, BitPos::new(6)), BitState::Disabled);
    assert_eq!(read_bit(0x01, BitPos::new(0)), BitState::Enabled);
    assert_eq!(read_bit(0x80, BitPos::new(7)), BitState::Enabled);
}

#[test]
fn write_bit_keeps_other_bits() {
    assert_eq!(write_bit(0b1010_1010, BitPos::new(0), BitState::Enabled), 0b1010_1011);
    assert_eq!(write_bit(0b1010_1010, BitPos::new(1), BitState::Disabled), 0b1010_1000);
    assert_eq!(write_bit(0xFF, BitPos::new(7), BitState::Disabled), 0x7F);
    assert_eq!(write_bit(0x00, BitPos::new(4), BitState::Disabled), 0x00);
}

#[test]
fn word_is_big_endian() {
    assert_eq!(word_from_be(0x12, 0x34), 0x1234);
    let op = RWData::U16 { reg: 0xFC, value: 0 };
    assert_eq!(op.fill(&[0x0A, 0xBC]), RWData::U16 { reg: 0xFC, value: 0x0ABC });
    assert_eq!(op.read_len(), 2);
    assert_eq!(op.register(), 0xFC);
}

#[test]
fn fill_bit_and_byte() {
    let bit = flag(0x08, 6, BitState::Disabled);
    assert_eq!(bit.fill(&[0x40]), flag(0x08, 6, BitState::Enabled));
    let byte = RWData::U8 { reg: 0x60, value: 0 };
    assert_eq!(byte.fill(&[45]), RWData::U8 { reg: 0x60, value: 45 });
}

#[test]
fn threshold_range() {
    for v in 60u8..=100 {
        let t = BatThreshold::try_new(v).expect("in range");
        assert_eq!(t.actual_value(), v);
        assert_eq!(t.value(), v);
        assert!(t.is_valid());
    }
    for v in [0u8, 59, 101, 150, 255] {
        assert_eq!(BatThreshold::try_new(v), Err(EcError::ThresholdOutOfRange(v)));
    }
}

#[test]
fn threshold_hundred_disables_custom_mode() {
    let t = BatThreshold::new(100);
    assert!(!t.custom_mode_enabled());
    assert_eq!(
        t.data_to_write(),
        vec![
            flag(0xC6, 0, BitState::Disabled),
            flag(0x0F, 2, BitState::Disabled),
            RWData::U8 { reg: 0xA9, value: 100 },
        ]
    );
}

#[test]
fn threshold_below_hundred_enables_custom_mode() {
    for v in 60u8..=99 {
        let t = BatThreshold::new(v);
        assert!(t.custom_mode_enabled());
        assert_eq!(t.actual_value(), v);
        assert_eq!(
            t.data_to_write(),
            vec![
                flag(0xC6, 0, BitState::Enabled),
                flag(0x0F, 2, BitState::Enabled),
                RWData::U8 { reg: 0xA9, value: v },
            ]
        );
    }
}

#[test]
fn threshold_read_back() {
    assert_eq!(
        BatThreshold::data_to_read(),
        vec![flag(0x0F, 2, BitState::Disabled), RWData::U8 { reg: 0xA9, value: 0 }]
    );
    let on = BatThreshold::from_read_data(&[flag(0x0F, 2, BitState::Enabled), RWData::U8 { reg: 0xA9, value: 80 }]).unwrap();
    assert_eq!(on.actual_value(), 80);
    let off = BatThreshold::from_read_data(&[flag(0x0F, 2, BitState::Disabled), RWData::U8 { reg: 0xA9, value: 80 }]).unwrap();
    assert_eq!(off.actual_value(), 100);
    assert_eq!(BatThreshold::from_read_data(&[RWData::U8 { reg: 0xA9, value: 80 }]), Err(EcError::Protocol));
}

#[test]
fn threshold_request() {
    let t = BatThreshold::new(70);
    assert!(matches!(t.daemon_action(), DaemonReq::SetBatThreshold(x) if x == t));
}

#[test]
fn fan_mode_write_descriptors() {
    let d = BitState::Disabled;
    let e = BitState::Enabled;
    let flags = |a, b, c, f| vec![flag(0x08, 6, a), flag(0x0C, 4, b), flag(0x0D, 7, c), flag(0x06, 4, f)];
    assert_eq!(FanMode::Normal.data_to_write(), flags(d, d, d, d));
    assert_eq!(FanMode::Eco.data_to_write(), flags(e, d, d, d));
    assert_eq!(FanMode::Power.data_to_write(), flags(d, e, d, d));
    let mut turbo = flags(d, d, e, e);
    turbo.push(RWData::U8 { reg: 0xB0, value: 0xE5 });
    turbo.push(RWData::U8 { reg: 0xB1, value: 0xE5 });
    assert_eq!(FanMode::Turbo.data_to_write(), turbo);
    assert_eq!(FanMode::Unsupported.data_to_write(), vec![]);
    assert_eq!(FanMode::data_to_read(), flags(d, d, d, d));
}

#[test]
fn fan_mode_decoding() {
    let d = BitState::Disabled;
    let e = BitState::Enabled;
    let read = |a, b, c, f| FanMode::from_read_data(&[flag(0x08, 6, a), flag(0x0C, 4, b), flag(0x0D, 7, c), flag(0x06, 4, f)]);
    assert_eq!(read(d, d, d, d), Ok(FanMode::Normal));
    assert_eq!(read(e, d, d, d), Ok(FanMode::Eco));
    assert_eq!(read(d, e, d, d), Ok(FanMode::Power));
    assert_eq!(read(d, d, e, e), Ok(FanMode::Turbo));
    assert_eq!(read(e, e, d, d), Ok(FanMode::Unsupported));
    assert_eq!(read(d, d, e, d), Ok(FanMode::Unsupported));
    assert_eq!(FanMode::from_read_data(&[flag(0x08, 6, e)]), Err(EcError::Protocol));
    assert_eq!(
        FanMode::from_read_data(&[flag(0x0C, 4, d), flag(0x08, 6, d), flag(0x0D, 7, d), flag(0x06, 4, d)]),
        Err(EcError::Protocol)
    );
}

#[test]
fn fan_mode_names() {
    for m in [FanMode::Normal, FanMode::Eco, FanMode::Power, FanMode::Turbo] {
        assert_eq!(FanMode::from_name(m.name()), Some(m));
    }
    assert_eq!(FanMode::Unsupported.name(), "unsupported");
    assert_eq!(FanMode::Eco.name(), "eco");
    assert_eq!(FanMode::from_name("unsupported"), None);
    assert_eq!(FanMode::from_name("Eco"), None);
    assert_eq!(FanMode::from_name(""), None);
}

#[test]
fn fan_mode_request() {
    assert!(matches!(FanMode::Turbo.daemon_action(), DaemonReq::SetFanMode(FanMode::Turbo)));
}

#[test]
fn threshold_written_by_value_whatever_the_flag() {
    let t = BatThreshold::from_raw(70, false);
    assert!(t.is_valid());
    assert_eq!(
        t.data_to_write(),
        vec![
            flag(0xC6, 0, BitState::Enabled),
            flag(0x0F, 2, BitState::Enabled),
            RWData::U8 { reg: 0xA9, value: 70 },
        ]
    );
    assert!(!BatThreshold::from_raw(150, false).is_valid());
    assert!(!BatThreshold::from_raw(150, true).is_valid());
    assert!(BatThreshold::from_raw(100, false).is_valid());
}
