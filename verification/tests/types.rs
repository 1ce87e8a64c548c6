use dnp3_master::enums::{CommandStatus, FunctionCode, OpType, TripCloseCode};
use dnp3_master::header::{Control, Iin, Sequence};
use dnp3_master::objects::{FixedSizeVariation, Group2Var1, RangedSequence};
use dnp3_master::types::{ControlCode, DoubleBit, Timestamp, MAX_TIMESTAMP};

#[test]
fn iterates_over_g2v1() {
    let seq = RangedSequence::new(1, vec![0xAA, 0xBB]);

    let items: Vec<(Group2Var1, u16)> = seq.iter();
    assert_eq!(items.len(), 2);
    assert_eq!(items[0], (Group2Var1 { flags: 0xAA }, 1));
    assert_eq!(items[1], (Group2Var1 { flags: 0xBB }, 2));
}

#[test]
fn ranged_sequence_stops_at_the_last_index() {
    let seq = RangedSequence::new(65535, vec![1, 2, 3]);
    let items = seq.iter();
    assert_eq!(items, vec![(Group2Var1 { flags: 1 }, 65535)]);
    assert_eq!(RangedSequence::new(7, vec![]).iter::<Group2Var1>().len(), 0);
}

#[test]
fn timestamp_display_formatting_works_as_expected() {
    assert_eq!(format!("{}", Timestamp::min().to_string()), "1970-01-01T00:00:00.000Z");
    assert_eq!(
        format!("{}", Timestamp::max().to_string()),
        "+10889-08-02T05:31:50.655Z"
    );
}

#[test]
fn timestamp_of_any_value_has_a_text() {
    let timestamp = Timestamp::new(u64::MAX);
    assert_eq!(timestamp.value, MAX_TIMESTAMP);
    assert_eq!(timestamp.to_string(), "+10889-08-02T05:31:50.655Z");
    assert_eq!(Timestamp { value: u64::MAX }.to_string(), "<out of range>");
    assert_eq!(Timestamp::describe(None), "<out of range>");
    assert_eq!(Timestamp::describe(Some(String::from("x"))), "x");
    assert_eq!(Timestamp::new(1_000).to_string(), "1970-01-01T00:00:01.000Z");
}

#[test]
fn timestamp_keeps_48_bits() {
    assert_eq!(Timestamp::new(0x0001_0000_0000_0005).value, 5);
    assert_eq!(Timestamp::new(42).value, 42);
    assert_eq!(Timestamp::min().value, 0);
    assert_eq!(Timestamp::max().value, 0x0000_FFFF_FFFF_FFFF);
}

#[test]
fn timestamp_checked_add_stops_at_the_maximum() {
    assert_eq!(Timestamp::new(10).checked_add(5), Some(Timestamp { value: 15 }));
    assert_eq!(Timestamp::max().checked_add(0), Some(Timestamp::max()));
    assert_eq!(Timestamp::max().checked_add(1), None);
    assert_eq!(
        Timestamp::new(MAX_TIMESTAMP - 3).checked_add(3),
        Some(Timestamp::max())
    );
    assert_eq!(Timestamp::new(MAX_TIMESTAMP - 3).checked_add(4), None);
    assert_eq!(Timestamp { value: u64::MAX }.checked_add(0), None);
}

fn test_control_code_round_trip(byte: u8, cc: ControlCode) {
    assert_eq!(cc.as_u8(), byte);
    assert_eq!(ControlCode::from(byte), cc)
}

#[test]
fn correctly_converts_control_code_to_and_from_u8() {
    test_control_code_round_trip(
        0b10_1_1_0100,
        ControlCode {
            tcc: TripCloseCode::Trip,
            clear: true,
            queue: true,
            op_type: OpType::LatchOff,
        },
    );

    test_control_code_round_trip(
        0b10_0_1_0100,
        ControlCode {
            tcc: TripCloseCode::Trip,
            clear: false,
            queue: true,
            op_type: OpType::LatchOff,
        },
    );

    test_control_code_round_trip(
        0b10_1_0_0100,
        ControlCode {
            tcc: TripCloseCode::Trip,
            clear: true,
            queue: false,
            op_type: OpType::LatchOff,
        },
    );

    test_control_code_round_trip(
        0b11_0_0_0000,
        ControlCode {
            tcc: TripCloseCode::Reserved,
            clear: false,
            queue: false,
            op_type: OpType::Nul,
        },
    );
}

#[test]
fn control_code_round_trips_for_every_byte() {
    for byte in 0..=255u8 {
        assert_eq!(ControlCode::from(byte).as_u8(), byte);
    }
}

#[test]
fn double_bit_reads_the_lowest_two_bits() {
    assert_eq!(DoubleBit::from(0b1111_1100), DoubleBit::Intermediate);
    assert_eq!(DoubleBit::from(0b0000_0001), DoubleBit::DeterminedOff);
    assert_eq!(DoubleBit::from(0b1000_0010), DoubleBit::DeterminedOn);
    assert_eq!(DoubleBit::from(0b0000_0011), DoubleBit::Indeterminate);
}

#[test]
fn function_codes_round_trip() {
    assert_eq!(FunctionCode::Read.as_u8(), 1);
    assert_eq!(FunctionCode::UnsolicitedResponse.as_u8(), 130);
    assert_eq!(FunctionCode::from_u8(129), Some(FunctionCode::Response));
    assert_eq!(FunctionCode::from_u8(20), Some(FunctionCode::EnableUnsolicited));
    assert_eq!(FunctionCode::from_u8(200), None);
    assert!(FunctionCode::UnsolicitedResponse.is_unsolicited());
    assert!(!FunctionCode::Response.is_unsolicited());
    for byte in 0..=255u8 {
        if let Some(f) = FunctionCode::from_u8(byte) {
            assert_eq!(f.as_u8(), byte);
        }
    }
}

#[test]
fn enumerations_round_trip() {
    for byte in 0..=255u8 {
        assert_eq!(CommandStatus::from(byte).as_u8(), byte);
        assert_eq!(OpType::from(byte).as_u8(), byte);
        assert_eq!(TripCloseCode::from(byte).as_u8(), byte);
    }
    assert_eq!(CommandStatus::from(0), CommandStatus::Success);
    assert_eq!(CommandStatus::from(4), CommandStatus::NotSupported);
    assert_eq!(CommandStatus::from(77), CommandStatus::Unknown(77));
    assert_eq!(OpType::from(3), OpType::LatchOn);
    assert_eq!(TripCloseCode::from(1), TripCloseCode::Close);
}

#[test]
fn sequence_wraps_at_sixteen() {
    let mut seq = Sequence::new(14);
    assert_eq!(seq.increment().value(), 14);
    assert_eq!(seq.increment().value(), 15);
    assert_eq!(seq.increment().value(), 0);
    assert_eq!(seq.value(), 1);
    assert_eq!(Sequence::new(0x35).value(), 5);
    let mut s = Sequence::new(3);
    for _ in 0..16 {
        s.increment();
    }
    assert_eq!(s.value(), 3);
}

#[test]
fn control_byte_holds_bits_and_sequence() {
    assert_eq!(Control::request(Sequence::new(0)).to_u8(), 0xC0);
    assert_eq!(Control::request(Sequence::new(7)).to_u8(), 0xC7);
    assert_eq!(Control::confirm(Sequence::new(5), true).to_u8(), 0xD5);
    let c = Control::from_u8(0xA3);
    assert!(c.fir && !c.fin && c.con && !c.uns);
    assert_eq!(c.seq.value(), 3);
    assert!(!c.is_fir_and_fin());
    for byte in 0..=255u8 {
        assert_eq!(Control::from_u8(byte).to_u8(), byte);
    }
}

#[test]
fn indications_are_read_from_their_bits() {
    let iin = Iin::from_u16(0x0080);
    assert!(iin.get_device_restart());
    assert!(!iin.get_need_time());
    assert!(!iin.get_event_buffer_overflow());
    let iin = Iin::from_u16(0x0810);
    assert!(iin.get_need_time());
    assert!(iin.get_event_buffer_overflow());
    assert!(!iin.get_device_restart());
    assert!(Iin::from_u16(0x0040).get_device_trouble());
    assert!(Iin::from_u16(0x0002).has_class_events());
    assert!(!Iin::from_u16(0x0001).has_class_events());
}

#[test]
fn fixed_size_object_is_parsed_from_its_bytes() {
    let bytes = [0x81u8, 0x01];
    let mut cursor = scursor::ReadCursor::new(&bytes);
    assert_eq!(Group2Var1::parse(&mut cursor).ok(), Some(Group2Var1 { flags: 0x81 }));
    assert_eq!(Group2Var1::parse(&mut cursor).ok(), Some(Group2Var1 { flags: 0x01 }));
    assert!(Group2Var1::parse(&mut cursor).is_err());
    assert!(cursor.is_empty());
}
