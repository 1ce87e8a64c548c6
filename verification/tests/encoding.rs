use dnp3_master::command::{
    CommandBuilder, CommandHeader, CommandHeaders, CommandResponseError, EncodeError,
    PrefixedCommandHeader,
};
use dnp3_master::enums::{CommandStatus, FunctionCode, OpType, TripCloseCode};
use dnp3_master::format::{confirm_solicited, confirm_unsolicited, start_request};
use dnp3_master::header::{Control, Sequence};
use dnp3_master::objects::{
    Group12Var1, Group41Var1, Group41Var2, Group41Var3, Group41Var4, HeaderCollection,
    HeaderDetails, PrefixedVariation,
};
use dnp3_master::request::{AutoRequest, Classes, EventClasses, ReadRequest};
use dnp3_master::tasks::{AutoTask, ReadOrigin, ReadTask};
use dnp3_master::types::ControlCode;
use dnp3_master::variation::Variation;
use scursor::WriteCursor;

fn latch_on() -> Group12Var1 {
    Group12Var1 {
        code: ControlCode {
            tcc: TripCloseCode::Nul,
            clear: false,
            queue: false,
            op_type: OpType::LatchOn,
        },
        count: 1,
        on_time: 1000,
        off_time: 0x01020304,
        status: CommandStatus::Success,
    }
}

#[test]
fn class_scan_writes_one_header_per_class() {
    let mut buffer = [0u8; 32];
    let mut cursor = WriteCursor::new(&mut buffer);
    assert!(ReadRequest::class_scan(Classes::integrity())
        .format(&mut cursor)
        .is_ok());
    assert_eq!(
        cursor.written(),
        &[60, 2, 0x06, 60, 3, 0x06, 60, 4, 0x06, 60, 1, 0x06]
    );

    let mut buffer = [0u8; 32];
    let mut cursor = WriteCursor::new(&mut buffer);
    let events = Classes::events(EventClasses::new(true, false, true));
    assert!(ReadRequest::class_scan(events).format(&mut cursor).is_ok());
    assert_eq!(cursor.written(), &[60, 2, 0x06, 60, 4, 0x06]);
    assert!(EventClasses::new(false, false, true).any());
    assert!(!EventClasses::none().any());
    assert!(EventClasses::all().class2);
}

#[test]
fn ranges_are_written_low_byte_first() {
    let mut buffer = [0u8; 32];
    let mut cursor = WriteCursor::new(&mut buffer);
    assert!(ReadRequest::one_byte_range(Variation::Group1Var2, 3, 9)
        .format(&mut cursor)
        .is_ok());
    assert!(
        ReadRequest::two_byte_range(Variation::Group30Var1, 0x0102, 0xA0B0)
            .format(&mut cursor)
            .is_ok()
    );
    assert_eq!(
        cursor.written(),
        &[1, 2, 0x00, 3, 9, 30, 1, 0x01, 0x02, 0x01, 0xB0, 0xA0]
    );
}

#[test]
fn a_request_that_does_not_fit_is_refused() {
    let mut buffer = [0u8; 5];
    let mut cursor = WriteCursor::new(&mut buffer);
    assert!(ReadRequest::class_scan(Classes::integrity())
        .format(&mut cursor)
        .is_err());
    let mut buffer = [0u8; 6];
    let mut cursor = WriteCursor::new(&mut buffer);
    assert!(
        ReadRequest::two_byte_range(Variation::Group30Var1, 1, 2)
            .format(&mut cursor)
            .is_err()
    );
    assert_eq!(cursor.written(), &[30, 1, 0x01, 1, 0]);
}

#[test]
fn read_task_opens_with_control_and_function() {
    let task = ReadTask {
        request: ReadRequest::class_scan(Classes::events(EventClasses::new(true, false, false))),
        origin: ReadOrigin::User,
    };
    let mut buffer = [0u8; 32];
    let mut cursor = WriteCursor::new(&mut buffer);
    assert!(task.format(Sequence::new(9), &mut cursor).is_ok());
    assert_eq!(cursor.written(), &[0xC9, 0x01, 60, 2, 0x06]);
}

#[test]
fn confirmations_are_two_bytes() {
    let mut buffer = [0u8; 8];
    let mut cursor = WriteCursor::new(&mut buffer);
    assert!(confirm_solicited(Sequence::new(2), &mut cursor).is_ok());
    assert!(confirm_unsolicited(Sequence::new(5), &mut cursor).is_ok());
    assert!(start_request(
        Control::request(Sequence::new(15)),
        FunctionCode::Write,
        &mut cursor
    )
    .is_ok());
    assert_eq!(cursor.written(), &[0xC2, 0x00, 0xD5, 0x00, 0xCF, 0x02]);
}

#[test]
fn housekeeping_requests_have_their_bytes() {
    let mut buffer = [0u8; 32];
    let mut cursor = WriteCursor::new(&mut buffer);
    assert!(AutoRequest::ClearRestartBit.format(&mut cursor).is_ok());
    assert_eq!(cursor.written(), &[80, 1, 0x00, 7, 7, 0]);
    assert_eq!(AutoRequest::ClearRestartBit.function(), FunctionCode::Write);
    assert_eq!(
        AutoRequest::EnableUnsolicited(EventClasses::all()).function(),
        FunctionCode::EnableUnsolicited
    );
    assert_eq!(
        AutoRequest::DisableUnsolicited(EventClasses::all()).description(),
        "disable unsolicited reporting"
    );
    assert_eq!(
        AutoRequest::ClearRestartBit.description(),
        "clear restart IIN bit"
    );

    let mut buffer = [0u8; 32];
    let mut cursor = WriteCursor::new(&mut buffer);
    let task = AutoTask::DisableUnsolicited(EventClasses::new(false, true, false));
    assert!(task.write(&mut cursor).is_ok());
    assert_eq!(cursor.written(), &[60, 3, 0x06]);
    assert_eq!(task.function(), FunctionCode::DisableUnsolicited);
    assert_eq!(
        AutoTask::EnableUnsolicited(EventClasses::all()).description(),
        "enable unsolicited reporting"
    );
}

#[test]
fn command_headers_are_written_with_count_and_prefix() {
    let mut builder = CommandBuilder::new();
    builder.add(latch_on(), 3u8);
    builder.add(
        Group41Var2 {
            value: -2,
            status: CommandStatus::Success,
        },
        0x0102u16,
    );
    let headers = builder.build();
    let mut buffer = [0u8; 64];
    let mut cursor = WriteCursor::new(&mut buffer);
    assert_eq!(headers.write(&mut cursor), Ok(()));
    assert_eq!(
        cursor.written(),
        &[
            12, 1, 0x17, 1, 3, 0x03, 1, 0xE8, 0x03, 0, 0, 0x04, 0x03, 0x02, 0x01, 0, // g12v1
            41, 2, 0x28, 1, 0, 0x02, 0x01, 0xFE, 0xFF, 0, // g41v2
        ]
    );
}

#[test]
fn analog_outputs_are_written_low_byte_first() {
    let mut buffer = [0u8; 64];
    let mut cursor = WriteCursor::new(&mut buffer);
    let v1 = CommandBuilder::single(
        Group41Var1 {
            value: -3,
            status: CommandStatus::Success,
        },
        3u8,
    );
    assert_eq!(v1.write(&mut cursor), Ok(()));
    let v3 = CommandBuilder::single(
        Group41Var3 {
            value: 1.5f32.to_bits(),
            status: CommandStatus::Timeout,
        },
        1u8,
    );
    assert_eq!(v3.write(&mut cursor), Ok(()));
    let v4 = CommandBuilder::single(
        Group41Var4 {
            value: 0x0102030405060708,
            status: CommandStatus::Success,
        },
        2u8,
    );
    assert_eq!(v4.write(&mut cursor), Ok(()));
    assert_eq!(
        cursor.written(),
        &[
            41, 1, 0x17, 1, 3, 0xFD, 0xFF, 0xFF, 0xFF, 0, // g41v1
            41, 3, 0x17, 1, 1, 0x00, 0x00, 0xC0, 0x3F, 1, // g41v3
            41, 4, 0x17, 1, 2, 8, 7, 6, 5, 4, 3, 2, 1, 0, // g41v4
        ]
    );
}

#[test]
fn command_write_reports_why_it_failed() {
    let headers = CommandBuilder::single(latch_on(), 3u8);
    let mut buffer = [0u8; 10];
    let mut cursor = WriteCursor::new(&mut buffer);
    assert_eq!(headers.write(&mut cursor), Err(EncodeError::BufferFull));

    let many: Vec<(Group41Var2, u8)> = (0..256)
        .map(|_| {
            (
                Group41Var2 {
                    value: 0,
                    status: CommandStatus::Success,
                },
                0u8,
            )
        })
        .collect();
    let headers = CommandHeaders {
        headers: vec![CommandHeader::U8(PrefixedCommandHeader::G41V2(many))],
    };
    let mut buffer = [0u8; 2048];
    let mut cursor = WriteCursor::new(&mut buffer);
    assert_eq!(headers.write(&mut cursor), Err(EncodeError::TooManyObjects));
    assert_eq!(cursor.written().len(), 0);
    assert!(!headers.count_ok());
}

fn echo_u8(items: Vec<(Group12Var1, u8)>) -> HeaderCollection {
    HeaderCollection::new(vec![HeaderDetails::OneByteCountAndPrefix(
        items.len() as u8,
        PrefixedVariation::Group12Var1(items),
    )])
}

#[test]
fn command_response_must_echo_the_request() {
    let sent = CommandBuilder::single(latch_on(), 3u8);
    assert_eq!(sent.compare(&echo_u8(vec![(latch_on(), 3)])), Ok(()));
    assert_eq!(
        sent.compare(&HeaderCollection::empty()),
        Err(CommandResponseError::HeaderCountMismatch)
    );
    let twice = HeaderCollection::new(vec![
        HeaderDetails::OneByteCountAndPrefix(1, PrefixedVariation::Group12Var1(vec![(latch_on(), 3)])),
        HeaderDetails::AllObjects(Variation::Group60Var1),
    ]);
    assert_eq!(
        sent.compare(&twice),
        Err(CommandResponseError::HeaderCountMismatch)
    );
    let wide = HeaderCollection::new(vec![HeaderDetails::TwoByteCountAndPrefix(
        1,
        PrefixedVariation::Group12Var1(vec![(latch_on(), 3)]),
    )]);
    assert_eq!(
        sent.compare(&wide),
        Err(CommandResponseError::HeaderTypeMismatch)
    );
    let other = HeaderCollection::new(vec![HeaderDetails::OneByteCountAndPrefix(
        1,
        PrefixedVariation::Group41Var1(vec![(
            Group41Var1 {
                value: 1,
                status: CommandStatus::Success,
            },
            3,
        )]),
    )]);
    assert_eq!(
        sent.compare(&other),
        Err(CommandResponseError::HeaderTypeMismatch)
    );
    assert_eq!(
        sent.compare(&echo_u8(vec![])),
        Err(CommandResponseError::ObjectCountMismatch)
    );
    assert_eq!(
        sent.compare(&echo_u8(vec![(latch_on(), 3), (latch_on(), 4)])),
        Err(CommandResponseError::ObjectCountMismatch)
    );
    assert_eq!(
        sent.compare(&echo_u8(vec![(latch_on(), 4)])),
        Err(CommandResponseError::ObjectValueMismatch)
    );
    let mut changed = latch_on();
    changed.on_time = 1;
    assert_eq!(
        sent.compare(&echo_u8(vec![(changed, 3)])),
        Err(CommandResponseError::ObjectValueMismatch)
    );
    let mut refused = latch_on();
    refused.status = CommandStatus::NotSupported;
    assert_eq!(
        sent.compare(&echo_u8(vec![(refused, 4)])),
        Err(CommandResponseError::BadStatus(CommandStatus::NotSupported))
    );
}

#[test]
fn builder_keeps_the_order_of_its_headers() {
    let mut builder = CommandBuilder::default();
    builder.add(latch_on(), 1u16);
    builder.add(latch_on(), 2u8);
    let headers = builder.build();
    assert_eq!(headers.headers.len(), 2);
    assert!(matches!(
        &headers.headers[0],
        CommandHeader::U16(PrefixedCommandHeader::G12V1(items)) if items == &vec![(latch_on(), 1u16)]
    ));
    assert!(matches!(
        &headers.headers[1],
        CommandHeader::U8(PrefixedCommandHeader::G12V1(items)) if items == &vec![(latch_on(), 2u8)]
    ));
    assert!(headers.count_ok());
}
