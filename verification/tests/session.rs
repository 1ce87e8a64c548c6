use dnp3_master::association::{
    Association, AssociationError, AssociationMsgDetails, Configuration, Next, Pending,
};
use dnp3_master::command::{CommandBuilder, CommandResponseError};
use dnp3_master::enums::{CommandStatus, FunctionCode};
use dnp3_master::header::{Control, Iin, ResponseHeader, Sequence};
use dnp3_master::objects::{
    Group41Var1, HeaderCollection, HeaderDetails, ObjectParseError, PrefixedVariation,
};
use dnp3_master::request::{Classes, EventClasses, ReadRequest};
use dnp3_master::session::{
    DecodeLogLevel, Exchange, MasterMsg, MasterReply, MasterSession, Message, MessageReply,
    Outcome, ReadResponseAction, Response, Screened, WaitEvent, MIN_TX_BUFFER_SIZE,
};
use dnp3_master::tasks::{
    AssociationTask, AutoTask, CommandState, CommandTask, LinkError, NonReadTask, ReadOrigin,
    ReadTask, RestartType, RunError, Shutdown, Task, TaskError,
};
use dnp3_master::variation::Variation;
use scursor::WriteCursor;

const ADDRESS: u16 = 1024;

fn config() -> Configuration {
    Configuration {
        disable_unsol_classes: EventClasses::all(),
        enable_unsol_classes: EventClasses::all(),
        integrity_classes: Classes::integrity(),
    }
}

fn nothing_pending() -> Pending {
    Pending {
        clear_restart: false,
        disable_unsolicited: false,
        integrity_poll: false,
        enable_unsolicited: false,
    }
}

fn quiet_association(address: u16, seq: u8) -> Association {
    let mut association = Association::new(address, config());
    association.pending = nothing_pending();
    association.seq = Sequence::new(seq);
    association
}

fn session_with(seq: u8) -> MasterSession {
    let mut session = MasterSession::new(DecodeLogLevel::Nothing, 5000, 2048);
    let reply = session.process_master_message(MasterMsg::AddAssociation(quiet_association(ADDRESS, seq)));
    assert_eq!(reply, MasterReply::Added(Ok(())));
    session
}

fn class1_read() -> ReadTask {
    ReadTask {
        request: ReadRequest::class_scan(Classes::events(EventClasses::new(true, false, false))),
        origin: ReadOrigin::User,
    }
}

fn read_task() -> AssociationTask {
    AssociationTask {
        address: ADDRESS,
        details: Task::Read(class1_read()),
    }
}

fn control(fir: bool, fin: bool, con: bool, seq: u8) -> Control {
    Control {
        fir,
        fin,
        con,
        uns: false,
        seq: Sequence::new(seq),
    }
}

fn response(function: FunctionCode, control: Control, iin: u16, headers: Vec<HeaderDetails>) -> Response {
    Response {
        header: ResponseHeader::new(control, function, Iin::from_u16(iin)),
        objects: Ok(HeaderCollection::new(headers)),
    }
}

fn one_header() -> Vec<HeaderDetails> {
    vec![HeaderDetails::AllObjects(Variation::Group1Var2)]
}

fn quiet() -> Outcome {
    Outcome {
        unsolicited: false,
        deliver: false,
        transmit: None,
        finished: None,
        fresh_deadline: false,
    }
}

fn seq_of(session: &MasterSession) -> u8 {
    session.associations.associations[0].seq.value()
}

#[test]
fn simple_class_1_poll_in_a_single_fragment() {
    let mut session = session_with(0);
    let mut buffer = [0u8; 2048];
    let mut cursor = WriteCursor::new(&mut buffer);
    let outcome = session.run_task(read_task(), &mut cursor);
    assert_eq!(
        outcome,
        Outcome {
            transmit: Some(ADDRESS),
            fresh_deadline: true,
            ..quiet()
        }
    );
    assert_eq!(cursor.written(), &[0xC0, 0x01, 60, 2, 0x06]);
    assert!(session.is_reading());

    let mut buffer = [0u8; 2048];
    let mut cursor = WriteCursor::new(&mut buffer);
    let fragment = response(FunctionCode::Response, control(true, true, false, 0), 0x0000, vec![]);
    let outcome = session.execute_read_task(ADDRESS, &fragment, &mut cursor, 0);
    assert_eq!(
        outcome,
        Outcome {
            deliver: true,
            finished: Some(Ok(())),
            ..quiet()
        }
    );
    assert_eq!(cursor.written().len(), 0);
    assert!(session.is_idle());
    assert_eq!(seq_of(&session), 1);
}

#[test]
fn multi_fragment_read_is_confirmed_and_continued() {
    let mut session = session_with(2);
    let mut buffer = [0u8; 2048];
    let mut cursor = WriteCursor::new(&mut buffer);
    session.run_task(read_task(), &mut cursor);
    assert_eq!(cursor.written()[0], 0xC2);

    let mut buffer = [0u8; 2048];
    let mut cursor = WriteCursor::new(&mut buffer);
    let first = response(FunctionCode::Response, control(true, false, true, 2), 0, one_header());
    let outcome = session.execute_read_task(ADDRESS, &first, &mut cursor, 0);
    assert_eq!(
        outcome,
        Outcome {
            deliver: true,
            transmit: Some(ADDRESS),
            fresh_deadline: true,
            ..quiet()
        }
    );
    assert_eq!(cursor.written(), &[0xC2, 0x00]);
    assert!(matches!(
        session.exchange,
        Exchange::Read { destination: ADDRESS, seq, is_first: false, .. } if seq.value() == 3
    ));
    assert_eq!(seq_of(&session), 4);

    // the same fragment once more is dropped without a second confirmation
    let mut buffer = [0u8; 2048];
    let mut cursor = WriteCursor::new(&mut buffer);
    let outcome = session.execute_read_task(ADDRESS, &first, &mut cursor, 0);
    assert_eq!(outcome, quiet());
    assert_eq!(cursor.written().len(), 0);
    assert!(session.is_reading());

    let last = response(FunctionCode::Response, control(false, true, false, 3), 0, one_header());
    let outcome = session.execute_read_task(ADDRESS, &last, &mut cursor, 0);
    assert_eq!(
        outcome,
        Outcome {
            deliver: true,
            finished: Some(Ok(())),
            ..quiet()
        }
    );
    assert_eq!(cursor.written().len(), 0);
    assert!(session.is_idle());
}

#[test]
fn final_fragment_that_asks_for_confirmation_is_confirmed() {
    let mut session = session_with(4);
    let mut buffer = [0u8; 64];
    let mut cursor = WriteCursor::new(&mut buffer);
    session.run_task(read_task(), &mut cursor);
    let mut buffer = [0u8; 64];
    let mut cursor = WriteCursor::new(&mut buffer);
    let only = response(FunctionCode::Response, control(true, true, true, 4), 0, vec![]);
    let outcome = session.execute_read_task(ADDRESS, &only, &mut cursor, 0);
    assert_eq!(
        outcome,
        Outcome {
            deliver: true,
            transmit: Some(ADDRESS),
            finished: Some(Ok(())),
            ..quiet()
        }
    );
    assert_eq!(cursor.written(), &[0xC4, 0x00]);
}

#[test]
fn unsolicited_during_idle_is_confirmed_and_raises_the_restart_flag() {
    let mut session = session_with(0);
    let mut uns = control(true, true, true, 5);
    uns.uns = true;
    let fragment = response(FunctionCode::UnsolicitedResponse, uns, 0x0080, vec![]);
    let outcome = session.handle_fragment_while_idle(ADDRESS, &fragment);
    assert_eq!(
        outcome,
        Outcome {
            unsolicited: true,
            ..quiet()
        }
    );
    assert!(session.associations.associations[0].pending.clear_restart);
    assert!(session.is_idle());

    let mut buffer = [0u8; 64];
    let mut cursor = WriteCursor::new(&mut buffer);
    assert_eq!(
        MasterSession::confirm_unsolicited(true, fragment.header.control, &mut cursor),
        Ok(true)
    );
    assert_eq!(cursor.written(), &[0xD5, 0x00]);

    match session.get_next_task(0) {
        Next::Now(task) => {
            assert_eq!(task.address, ADDRESS);
            assert!(matches!(
                task.details,
                Task::NonRead(NonReadTask::Auto(AutoTask::ClearRestartBit))
            ));
        }
        _ => panic!("the restart bit is to be cleared"),
    }
}

#[test]
fn unsolicited_confirmation_needs_a_valid_fragment_that_asks_for_it() {
    let mut buffer = [0u8; 64];
    let mut cursor = WriteCursor::new(&mut buffer);
    let asks = control(true, true, true, 5);
    let asks_not = control(true, true, false, 5);
    assert_eq!(MasterSession::confirm_unsolicited(false, asks, &mut cursor), Ok(false));
    assert_eq!(MasterSession::confirm_unsolicited(true, asks_not, &mut cursor), Ok(false));
    assert_eq!(cursor.written().len(), 0);
    let mut small = [0u8; 1];
    let mut cursor = WriteCursor::new(&mut small);
    assert_eq!(
        MasterSession::confirm_unsolicited(true, asks, &mut cursor),
        Err(TaskError::WriteError)
    );
}

#[test]
fn unsolicited_from_an_unknown_address_is_dropped() {
    let mut session = session_with(0);
    let fragment = response(FunctionCode::UnsolicitedResponse, control(true, true, true, 5), 0x0080, vec![]);
    assert_eq!(session.handle_fragment_while_idle(7, &fragment), quiet());
    assert!(!session.handle_unsolicited(7, &fragment));
    assert!(!session.associations.associations[0].pending.clear_restart);
    let solicited = response(FunctionCode::Response, control(true, true, true, 5), 0x0080, vec![]);
    assert_eq!(session.handle_fragment_while_idle(ADDRESS, &solicited), quiet());
    assert!(!session.associations.associations[0].pending.clear_restart);
}

#[test]
fn wrong_seq_response_is_ignored_until_the_deadline() {
    let mut session = session_with(7);
    let mut buffer = [0u8; 64];
    let mut cursor = WriteCursor::new(&mut buffer);
    session.run_task(read_task(), &mut cursor);
    assert_eq!(cursor.written()[0], 0xC7);

    let mut buffer = [0u8; 64];
    let mut cursor = WriteCursor::new(&mut buffer);
    let fragment = response(FunctionCode::Response, control(true, true, false, 6), 0x0080, vec![]);
    assert_eq!(session.execute_read_task(ADDRESS, &fragment, &mut cursor, 0), quiet());
    assert!(session.is_reading());
    assert!(!session.associations.associations[0].pending.clear_restart);

    let other = response(FunctionCode::Response, control(true, true, false, 7), 0, vec![]);
    assert_eq!(session.execute_read_task(9, &other, &mut cursor, 0), quiet());
    assert!(session.is_reading());

    let timeout = MasterSession::read_next_response(WaitEvent::Deadline);
    assert_eq!(timeout, Err(TaskError::ResponseTimeout));
    assert_eq!(session.task_failed(TaskError::ResponseTimeout), Ok(()));
    assert!(session.is_idle());
}

#[test]
fn unsolicited_during_a_read_leaves_the_read_as_it_is() {
    let mut session = session_with(1);
    let mut buffer = [0u8; 64];
    let mut cursor = WriteCursor::new(&mut buffer);
    session.run_task(read_task(), &mut cursor);
    let mut buffer = [0u8; 64];
    let mut cursor = WriteCursor::new(&mut buffer);
    let uns = response(FunctionCode::UnsolicitedResponse, control(true, true, true, 1), 0x0800, vec![]);
    let outcome = session.execute_read_task(ADDRESS, &uns, &mut cursor, 0);
    assert_eq!(
        outcome,
        Outcome {
            unsolicited: true,
            ..quiet()
        }
    );
    assert!(session.associations.associations[0].pending.integrity_poll);
    assert!(matches!(
        session.exchange,
        Exchange::Read { is_first: true, seq, .. } if seq.value() == 1
    ));
    let done = response(FunctionCode::Response, control(true, true, false, 1), 0, vec![]);
    let outcome = session.execute_read_task(ADDRESS, &done, &mut cursor, 0);
    assert_eq!(outcome.finished, Some(Ok(())));
}

fn read_failure(is_first_fragment: Response, then: Option<Response>) -> Option<Result<(), TaskError>> {
    let mut session = session_with(0);
    let mut buffer = [0u8; 64];
    let mut cursor = WriteCursor::new(&mut buffer);
    session.run_task(read_task(), &mut cursor);
    let mut buffer = [0u8; 64];
    let mut cursor = WriteCursor::new(&mut buffer);
    let mut outcome = session.execute_read_task(ADDRESS, &is_first_fragment, &mut cursor, 0);
    if let Some(next) = then {
        outcome = session.execute_read_task(ADDRESS, &next, &mut cursor, 0);
    }
    if outcome.finished.is_some() {
        assert!(session.is_idle());
    }
    outcome.finished
}

#[test]
fn read_fragments_out_of_order_fail_the_read() {
    let no_fir = response(FunctionCode::Response, control(false, true, false, 0), 0, vec![]);
    assert_eq!(read_failure(no_fir, None), Some(Err(TaskError::NeverReceivedFir)));

    let first = response(FunctionCode::Response, control(true, false, true, 0), 0, vec![]);
    let again = response(FunctionCode::Response, control(true, true, false, 1), 0, vec![]);
    assert_eq!(read_failure(first, Some(again)), Some(Err(TaskError::UnexpectedFir)));

    let no_con = response(FunctionCode::Response, control(true, false, false, 0), 0, vec![]);
    assert_eq!(read_failure(no_con, None), Some(Err(TaskError::NonFinWithoutCon)));

    let bad = Response {
        header: ResponseHeader::new(control(true, true, false, 0), FunctionCode::Response, Iin::from_u16(0)),
        objects: Err(ObjectParseError::UnknownQualifier(0x99)),
    };
    assert_eq!(
        read_failure(bad, None),
        Some(Err(TaskError::BadResponse(ObjectParseError::UnknownQualifier(0x99))))
    );
}

#[test]
fn task_for_an_unknown_address_fails_at_once() {
    let mut session = session_with(0);
    let mut buffer = [0u8; 64];
    let mut cursor = WriteCursor::new(&mut buffer);
    let task = AssociationTask {
        address: 5,
        details: Task::Read(class1_read()),
    };
    let outcome = session.run_task(task, &mut cursor);
    assert_eq!(
        outcome,
        Outcome {
            finished: Some(Err(TaskError::NoSuchAssociation(5))),
            ..quiet()
        }
    );
    assert!(session.is_idle());
    assert_eq!(cursor.written().len(), 0);
    assert_eq!(seq_of(&session), 0);
}

#[test]
fn request_that_does_not_fit_fails_the_task() {
    let mut session = session_with(0);
    let mut buffer = [0u8; 4];
    let mut cursor = WriteCursor::new(&mut buffer);
    let outcome = session.run_task(read_task(), &mut cursor);
    assert_eq!(outcome.finished, Some(Err(TaskError::WriteError)));
    assert!(session.is_idle());
}

fn select_task() -> (Group41Var1, AssociationTask) {
    let object = Group41Var1 {
        value: 1234,
        status: CommandStatus::Success,
    };
    let task = AssociationTask {
        address: ADDRESS,
        details: Task::NonRead(NonReadTask::Command(CommandTask {
            state: CommandState::Select,
            headers: CommandBuilder::single(object, 3u8),
        })),
    };
    (object, task)
}

fn echo(object: Group41Var1, index: u8) -> Vec<HeaderDetails> {
    vec![HeaderDetails::OneByteCountAndPrefix(
        1,
        PrefixedVariation::Group41Var1(vec![(object, index)]),
    )]
}

#[test]
fn select_before_operate_sends_select_then_operate() {
    let mut session = session_with(0);
    let (object, task) = select_task();
    let mut buffer = [0u8; 64];
    let mut cursor = WriteCursor::new(&mut buffer);
    let outcome = session.run_task(task, &mut cursor);
    assert_eq!(outcome.transmit, Some(ADDRESS));
    assert_eq!(
        cursor.written(),
        &[0xC0, 0x03, 41, 1, 0x17, 1, 3, 0xD2, 0x04, 0, 0, 0]
    );

    let mut buffer = [0u8; 64];
    let mut cursor = WriteCursor::new(&mut buffer);
    let selected = response(FunctionCode::Response, control(true, true, false, 0), 0, echo(object, 3));
    let outcome = session.continue_non_read_task(ADDRESS, &selected, &mut cursor);
    assert_eq!(
        outcome,
        Outcome {
            transmit: Some(ADDRESS),
            fresh_deadline: true,
            ..quiet()
        }
    );
    assert_eq!(
        cursor.written(),
        &[0xC1, 0x04, 41, 1, 0x17, 1, 3, 0xD2, 0x04, 0, 0, 0]
    );
    assert!(matches!(
        &session.exchange,
        Exchange::NonRead { seq, task: NonReadTask::Command(t), .. }
            if seq.value() == 1 && t.state == CommandState::Operate
    ));

    // the response to the selection, once more, is not taken for the operation
    let mut buffer = [0u8; 64];
    let mut cursor = WriteCursor::new(&mut buffer);
    assert_eq!(session.continue_non_read_task(ADDRESS, &selected, &mut cursor), quiet());

    let operated = response(FunctionCode::Response, control(true, true, false, 1), 0, echo(object, 3));
    let outcome = session.continue_non_read_task(ADDRESS, &operated, &mut cursor);
    assert_eq!(
        outcome,
        Outcome {
            finished: Some(Ok(())),
            ..quiet()
        }
    );
    assert!(session.is_idle());
    assert_eq!(seq_of(&session), 2);
    assert_eq!(cursor.written().len(), 0);
}

#[test]
fn command_response_that_differs_fails_the_command() {
    let mut session = session_with(0);
    let (object, task) = select_task();
    let mut buffer = [0u8; 64];
    let mut cursor = WriteCursor::new(&mut buffer);
    session.run_task(task, &mut cursor);
    let mut buffer = [0u8; 64];
    let mut cursor = WriteCursor::new(&mut buffer);
    let wrong = response(FunctionCode::Response, control(true, true, false, 0), 0, echo(object, 4));
    let outcome = session.continue_non_read_task(ADDRESS, &wrong, &mut cursor);
    assert_eq!(
        outcome.finished,
        Some(Err(TaskError::Command(CommandResponseError::ObjectValueMismatch)))
    );
    assert!(session.is_idle());
}

#[test]
fn response_in_more_than_one_fragment_fails_a_command() {
    let mut session = session_with(0);
    let (object, task) = select_task();
    let mut buffer = [0u8; 64];
    let mut cursor = WriteCursor::new(&mut buffer);
    session.run_task(task, &mut cursor);
    let part = response(FunctionCode::Response, control(true, false, true, 0), 0, echo(object, 3));
    assert_eq!(
        session.validate_non_read_response(ADDRESS, Sequence::new(0), ADDRESS, &part),
        Err(TaskError::MultiFragmentResponse)
    );
    assert_eq!(
        session.validate_non_read_response(ADDRESS, Sequence::new(0), 3, &part),
        Ok(Screened::Ignored)
    );
    assert_eq!(
        session.validate_non_read_response(ADDRESS, Sequence::new(1), ADDRESS, &part),
        Ok(Screened::Ignored)
    );
    let mut buffer = [0u8; 64];
    let mut cursor = WriteCursor::new(&mut buffer);
    let outcome = session.continue_non_read_task(ADDRESS, &part, &mut cursor);
    assert_eq!(outcome.finished, Some(Err(TaskError::MultiFragmentResponse)));
    assert!(session.is_idle());
}

#[test]
fn link_failure_mid_exchange_ends_the_run() {
    let mut session = session_with(0);
    let queued = session.process_message(
        Some(Message::Association(
            ADDRESS,
            AssociationMsgDetails::QueueTask(Task::NonRead(NonReadTask::Restart(RestartType::Cold))),
        )),
        true,
        0,
    );
    assert_eq!(queued, Ok(MessageReply::Association(Ok(()))));
    let mut buffer = [0u8; 64];
    let mut cursor = WriteCursor::new(&mut buffer);
    session.run_task(read_task(), &mut cursor);
    assert_eq!(cursor.written()[0], 0xC0);

    let failure = MasterSession::read_next_response(WaitEvent::ReadError(LinkError::Io));
    assert_eq!(failure, Err(TaskError::Lower(LinkError::Io)));
    let run = session.task_failed(TaskError::Lower(LinkError::Io));
    assert_eq!(run, Err(RunError::Link(LinkError::Io)));
    assert_eq!(RunError::Link(LinkError::Io).to_task_error(), TaskError::Lower(LinkError::Io));

    let canceled = session.reset(RunError::Link(LinkError::Io));
    assert!(session.is_idle());
    assert_eq!(canceled.len(), 1);
    assert_eq!(canceled[0].0, ADDRESS);
    assert_eq!(canceled[0].1.len(), 1);
    assert!(matches!(
        canceled[0].1[0],
        Task::NonRead(NonReadTask::Restart(RestartType::Cold))
    ));
    assert!(session.associations.associations[0].queue.is_empty());

    assert_eq!(session.process_message(None, false, 0), Err(Shutdown));
    assert_eq!(
        MasterSession::read_next_response(WaitEvent::QueueClosed),
        Err(TaskError::Shutdown)
    );
    assert_eq!(session.task_failed(TaskError::Shutdown), Err(RunError::Shutdown));
    assert_eq!(RunError::Shutdown.to_task_error(), TaskError::Shutdown);
    assert_eq!(MasterSession::read_next_response(WaitEvent::Fragment), Ok(()));
}

#[test]
fn housekeeping_goes_by_fixed_priority() {
    let mut session = MasterSession::new(DecodeLogLevel::Nothing, 5000, 2048);
    let mut association = Association::new(ADDRESS, config());
    association.pending = Pending {
        clear_restart: true,
        disable_unsolicited: true,
        integrity_poll: true,
        enable_unsolicited: true,
    };
    session.process_master_message(MasterMsg::AddAssociation(association));

    let mut order: Vec<String> = Vec::new();
    for _ in 0..4 {
        let task = match session.get_next_task(0) {
            Next::Now(task) => task,
            _ => panic!("housekeeping is pending"),
        };
        order.push(match &task.details {
            Task::NonRead(NonReadTask::Auto(t)) => String::from(t.description()),
            Task::Read(t) => {
                assert_eq!(t.origin, ReadOrigin::Integrity);
                String::from("integrity poll")
            }
            _ => panic!("not a housekeeping task"),
        });
        let mut buffer = [0u8; 64];
        let mut cursor = WriteCursor::new(&mut buffer);
        let started = session.run_task(task, &mut cursor);
        assert_eq!(started.transmit, Some(ADDRESS));
        let seq = (seq_of(&session) + 15) % 16;
        let reply = response(FunctionCode::Response, control(true, true, false, seq), 0, vec![]);
        let mut buffer = [0u8; 64];
        let mut cursor = WriteCursor::new(&mut buffer);
        let outcome = if session.is_reading() {
            session.execute_read_task(ADDRESS, &reply, &mut cursor, 0)
        } else {
            session.continue_non_read_task(ADDRESS, &reply, &mut cursor)
        };
        assert_eq!(outcome.finished, Some(Ok(())));
    }
    assert_eq!(
        order,
        vec![
            "clear restart IIN bit",
            "disable unsolicited reporting",
            "integrity poll",
            "enable unsolicited reporting"
        ]
    );
    assert!(matches!(session.get_next_task(0), Next::Nothing));
}

#[test]
fn failed_housekeeping_is_asked_for_again() {
    let mut session = session_with(0);
    session.associations.associations[0].pending.disable_unsolicited = true;
    let task = match session.get_next_task(0) {
        Next::Now(task) => task,
        _ => panic!("housekeeping is pending"),
    };
    let mut buffer = [0u8; 64];
    let mut cursor = WriteCursor::new(&mut buffer);
    session.run_task(task, &mut cursor);
    assert_eq!(cursor.written(), &[0xC0, 21, 60, 2, 6, 60, 3, 6, 60, 4, 6]);
    assert_eq!(session.task_failed(TaskError::ResponseTimeout), Ok(()));
    assert!(session.associations.associations[0].pending.disable_unsolicited);
    assert!(matches!(
        session.get_next_task(0),
        Next::Now(AssociationTask {
            address: ADDRESS,
            details: Task::NonRead(NonReadTask::Auto(AutoTask::DisableUnsolicited(_)))
        })
    ));

    // a restart that the outstation still reports keeps the flag raised
    let mut session = session_with(0);
    session.associations.associations[0].pending.clear_restart = true;
    let task = match session.get_next_task(0) {
        Next::Now(task) => task,
        _ => panic!("housekeeping is pending"),
    };
    let mut buffer = [0u8; 64];
    let mut cursor = WriteCursor::new(&mut buffer);
    session.run_task(task, &mut cursor);
    assert_eq!(cursor.written(), &[0xC0, 2, 80, 1, 0, 7, 7, 0]);
    let still = response(FunctionCode::Response, control(true, true, false, 0), 0x0080, vec![]);
    let mut buffer = [0u8; 64];
    let mut cursor = WriteCursor::new(&mut buffer);
    let outcome = session.continue_non_read_task(ADDRESS, &still, &mut cursor);
    assert_eq!(outcome.finished, Some(Ok(())));
    assert!(session.associations.associations[0].pending.clear_restart);
}

#[test]
fn polls_run_when_due_and_are_scheduled_anew() {
    let mut session = session_with(0);
    let request = ReadRequest::one_byte_range(Variation::Group1Var2, 0, 9);
    for (interval, now) in [(500u64, 100u64), (300, 100)] {
        let reply = session.process_message(
            Some(Message::Association(ADDRESS, AssociationMsgDetails::AddPoll(request, interval))),
            false,
            now,
        );
        assert_eq!(reply, Ok(MessageReply::Association(Ok(()))));
    }
    assert!(matches!(session.get_next_task(100), Next::NotBefore(400)));
    assert!(matches!(session.get_next_task(399), Next::NotBefore(400)));
    let task = match session.get_next_task(400) {
        Next::Now(task) => task,
        _ => panic!("a poll is due"),
    };
    assert!(matches!(
        &task.details,
        Task::Read(ReadTask { origin: ReadOrigin::Poll(1), .. })
    ));
    let mut buffer = [0u8; 64];
    let mut cursor = WriteCursor::new(&mut buffer);
    session.run_task(task, &mut cursor);
    assert_eq!(cursor.written(), &[0xC0, 0x01, 1, 2, 0x00, 0, 9]);
    let done = response(FunctionCode::Response, control(true, true, false, 0), 0, vec![]);
    let mut buffer = [0u8; 64];
    let mut cursor = WriteCursor::new(&mut buffer);
    let outcome = session.execute_read_task(ADDRESS, &done, &mut cursor, 450);
    assert_eq!(outcome.finished, Some(Ok(())));
    assert!(matches!(session.get_next_task(450), Next::NotBefore(600)));
    assert!(matches!(
        session.get_next_task(600),
        Next::Now(AssociationTask {
            details: Task::Read(ReadTask { origin: ReadOrigin::Poll(0), .. }),
            ..
        })
    ));
}

#[test]
fn first_registered_association_with_a_task_goes_first() {
    let mut session = MasterSession::new(DecodeLogLevel::Nothing, 5000, 2048);
    for address in [10u16, 20, 30] {
        session.process_master_message(MasterMsg::AddAssociation(quiet_association(address, 0)));
    }
    for address in [30u16, 20] {
        let reply = session.process_message(
            Some(Message::Association(
                address,
                AssociationMsgDetails::QueueTask(Task::NonRead(NonReadTask::TimeSync)),
            )),
            true,
            0,
        );
        assert_eq!(reply, Ok(MessageReply::Association(Ok(()))));
    }
    assert!(matches!(
        session.get_next_task(0),
        Next::Now(AssociationTask { address: 20, .. })
    ));
    assert!(matches!(
        session.get_next_task(0),
        Next::Now(AssociationTask { address: 30, .. })
    ));
    assert!(matches!(session.get_next_task(0), Next::Nothing));
}

#[test]
fn control_messages_are_answered() {
    let mut session = MasterSession::new(DecodeLogLevel::Header, 5000, 10);
    assert_eq!(session.tx_buffer_size, MIN_TX_BUFFER_SIZE);
    assert_eq!(session.deadline_from(1_000), 6_000);
    assert_eq!(session.deadline_from(u64::MAX - 10), u64::MAX);
    assert_eq!(MasterSession::new(DecodeLogLevel::Header, 5000, 4096).tx_buffer_size, 4096);
    assert_eq!(
        session.process_master_message(MasterMsg::GetDecodeLogLevel),
        MasterReply::Level(DecodeLogLevel::Header)
    );
    assert_eq!(
        session.process_master_message(MasterMsg::SetDecodeLogLevel(DecodeLogLevel::ObjectValues)),
        MasterReply::LevelSet
    );
    assert_eq!(
        session.process_master_message(MasterMsg::GetDecodeLogLevel),
        MasterReply::Level(DecodeLogLevel::ObjectValues)
    );
    assert_eq!(
        session.process_master_message(MasterMsg::AddAssociation(quiet_association(1, 0))),
        MasterReply::Added(Ok(()))
    );
    assert_eq!(
        session.process_master_message(MasterMsg::AddAssociation(quiet_association(1, 0))),
        MasterReply::Added(Err(AssociationError::DuplicateAddress(1)))
    );
    assert_eq!(session.associations.associations.len(), 1);
    let unknown = session.process_message(
        Some(Message::Association(
            2,
            AssociationMsgDetails::QueueTask(Task::NonRead(NonReadTask::TimeSync)),
        )),
        true,
        0,
    );
    assert_eq!(
        unknown,
        Ok(MessageReply::Association(Err(TaskError::NoSuchAssociation(2))))
    );
    let offline = session.process_message(
        Some(Message::Association(
            1,
            AssociationMsgDetails::QueueTask(Task::NonRead(NonReadTask::TimeSync)),
        )),
        false,
        0,
    );
    assert_eq!(offline, Ok(MessageReply::Association(Err(TaskError::NoConnection))));
    let classes = session.process_message(
        Some(Message::Association(
            1,
            AssociationMsgDetails::SetUnsolicitedClasses(EventClasses::new(true, false, false)),
        )),
        false,
        0,
    );
    assert_eq!(classes, Ok(MessageReply::Association(Ok(()))));
    assert!(session.associations.associations[0].pending.enable_unsolicited);
    assert_eq!(
        session.process_message(Some(Message::Master(MasterMsg::RemoveAssociation(1))), true, 0),
        Ok(MessageReply::Master(MasterReply::Removed(true)))
    );
    assert_eq!(
        session.process_master_message(MasterMsg::RemoveAssociation(1)),
        MasterReply::Removed(false)
    );
}

#[test]
fn messages_during_an_exchange_leave_it_in_flight() {
    let mut session = session_with(3);
    let mut buffer = [0u8; 64];
    let mut cursor = WriteCursor::new(&mut buffer);
    session.run_task(read_task(), &mut cursor);
    session.process_master_message(MasterMsg::SetDecodeLogLevel(DecodeLogLevel::Header));
    session.process_master_message(MasterMsg::AddAssociation(quiet_association(9, 0)));
    assert!(matches!(
        session.exchange,
        Exchange::Read { destination: ADDRESS, is_first: true, seq, .. } if seq.value() == 3
    ));
    session.process_master_message(MasterMsg::RemoveAssociation(ADDRESS));
    let mut buffer = [0u8; 64];
    let mut cursor = WriteCursor::new(&mut buffer);
    let reply = response(FunctionCode::Response, control(true, true, false, 3), 0, vec![]);
    let outcome = session.execute_read_task(ADDRESS, &reply, &mut cursor, 0);
    assert_eq!(outcome.finished, Some(Err(TaskError::NoSuchAssociation(ADDRESS))));
    assert!(session.is_idle());
}

#[test]
fn read_step_tells_what_to_do_with_a_fragment() {
    let mut session = session_with(0);
    let mut buffer = [0u8; 64];
    let mut cursor = WriteCursor::new(&mut buffer);
    let task = class1_read();
    let last = response(FunctionCode::Response, control(true, true, false, 0), 0x0080, vec![]);
    let step = session.process_read_response(ADDRESS, true, Sequence::new(0), &task, ADDRESS, &last, &mut cursor);
    assert_eq!(step.action, Ok(ReadResponseAction::Complete));
    assert!(step.deliver && !step.confirm && !step.unsolicited);
    assert!(session.associations.associations[0].pending.clear_restart);
    let more = response(FunctionCode::Response, control(true, false, true, 0), 0, vec![]);
    let step = session.process_read_response(ADDRESS, true, Sequence::new(0), &task, ADDRESS, &more, &mut cursor);
    assert_eq!(step.action, Ok(ReadResponseAction::ReadNext));
    assert!(step.confirm);
    assert_eq!(cursor.written(), &[0xC0, 0x00]);
    let step = session.process_read_response(ADDRESS, true, Sequence::new(1), &task, ADDRESS, &more, &mut cursor);
    assert_eq!(step.action, Ok(ReadResponseAction::Ignore));
    assert!(!step.deliver);
    let mut small = [0u8; 1];
    let mut cursor = WriteCursor::new(&mut small);
    let step = session.process_read_response(ADDRESS, true, Sequence::new(0), &task, ADDRESS, &more, &mut cursor);
    assert_eq!(step.action, Err(TaskError::WriteError));
    assert_eq!(
        MasterSession::confirm_solicited(Sequence::new(0), &mut cursor),
        Err(TaskError::WriteError)
    );
    assert_eq!(TaskError::ResponseTimeout.to_run_error(), None);
    assert_eq!(TaskError::Shutdown.to_run_error(), Some(RunError::Shutdown));
}

#[test]
fn a_fragment_is_held_against_what_is_in_flight() {
    let mut session = session_with(0);
    let mut buffer = [0u8; 64];
    let mut cursor = WriteCursor::new(&mut buffer);
    let reply = response(FunctionCode::Response, control(true, true, false, 0), 0, vec![]);
    assert_eq!(session.handle_fragment(ADDRESS, &reply, &mut cursor, 0), quiet());

    session.run_task(read_task(), &mut cursor);
    let mut buffer = [0u8; 64];
    let mut cursor = WriteCursor::new(&mut buffer);
    let outcome = session.handle_fragment(ADDRESS, &reply, &mut cursor, 0);
    assert_eq!(outcome.finished, Some(Ok(())));
    assert!(outcome.deliver);

    let task = AssociationTask {
        address: ADDRESS,
        details: Task::NonRead(NonReadTask::EmptyResponse(FunctionCode::RecordCurrentTime)),
    };
    let outcome = session.run_task(task, &mut cursor);
    assert_eq!(outcome.transmit, Some(ADDRESS));
    assert_eq!(cursor.written(), &[0xC1, 24]);
    let mut buffer = [0u8; 64];
    let mut cursor = WriteCursor::new(&mut buffer);
    let full = response(FunctionCode::Response, control(true, true, false, 1), 0, one_header());
    let outcome = session.handle_fragment(ADDRESS, &full, &mut cursor, 0);
    assert_eq!(
        outcome,
        Outcome {
            finished: Some(Err(TaskError::UnexpectedResponseHeaders)),
            ..quiet()
        }
    );
    assert!(session.is_idle());
}
