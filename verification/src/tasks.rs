//! The closed set of tasks that a master runs against an outstation.

use vstd::prelude::*;
use crate::association::{Association, Pending};
use crate::command::{headers_encodable, headers_outcome, CommandHeaders, CommandResponseError};
use crate::command::EncodeError;
use crate::cursor::{appended, lemma_appended_failed, lemma_appended_then, limit, written};
use crate::enums::FunctionCode;
use crate::format::{request_header_bytes, start_request};
use crate::header::{Control, Iin, ResponseHeader, Sequence};
use crate::objects::{HeaderCollection, ObjectParseError};
use crate::request::{AutoRequest, EventClasses, ReadRequest};

verus! {

/// A failure of the link below the session.
#[derive(Copy, Clone, Debug, PartialEq, Eq, Structural)]
pub enum LinkError {
    Io,
    BadFrame,
}

/// Why a task failed.
#[derive(Copy, Clone, Debug, PartialEq, Eq, Structural)]
pub enum TaskError {
    Shutdown,
    Lower(LinkError),
    ResponseTimeout,
    MultiFragmentResponse,
    UnexpectedFir,
    NeverReceivedFir,
    NonFinWithoutCon,
    NoSuchAssociation(u16),
    NoConnection,
    WriteError,
    BadResponse(ObjectParseError),
    UnexpectedResponseHeaders,
    Command(CommandResponseError),
}

/// Why a session run ended.
#[derive(Copy, Clone, Debug, PartialEq, Eq, Structural)]
pub enum RunError {
    Link(LinkError),
    Shutdown,
}

/// The control queue was closed.
#[derive(Copy, Clone, Debug, PartialEq, Eq, Structural)]
pub struct Shutdown;

/// The run error that a task error amounts to, if it ends the run.
pub open spec fn run_error_of(err: TaskError) -> Option<RunError> {
    match err {
        TaskError::Shutdown => Some(RunError::Shutdown),
        TaskError::Lower(e) => Some(RunError::Link(e)),
        _ => None,
    }
}

/// The task error that pending tasks are failed with when a run ends.
pub open spec fn task_error_of(err: RunError) -> TaskError {
    match err {
        RunError::Shutdown => TaskError::Shutdown,
        RunError::Link(e) => TaskError::Lower(e),
    }
}

impl TaskError {
    /// Task errors that end the run; every other error fails the task only.
    pub fn to_run_error(self) -> (r: Option<RunError>)
        ensures
            r == run_error_of(self),
    {
        match self {
            TaskError::Shutdown => Some(RunError::Shutdown),
            TaskError::Lower(e) => Some(RunError::Link(e)),
            _ => None,
        }
    }
}

impl RunError {
    pub fn to_task_error(self) -> (r: TaskError)
        ensures
            r == task_error_of(self),
    {
        match self {
            RunError::Shutdown => TaskError::Shutdown,
            RunError::Link(e) => TaskError::Lower(e),
        }
    }
}

/// A housekeeping task that the master schedules on its own.
#[derive(Copy, Clone, Debug, PartialEq, Eq, Structural)]
pub enum AutoTask {
    ClearRestartBit,
    EnableUnsolicited(EventClasses),
    DisableUnsolicited(EventClasses),
}

impl AutoTask {
    /// The request that carries out the task.
    pub open spec fn request(self) -> AutoRequest {
        match self {
            AutoTask::ClearRestartBit => AutoRequest::ClearRestartBit,
            AutoTask::EnableUnsolicited(c) => AutoRequest::EnableUnsolicited(c),
            AutoTask::DisableUnsolicited(c) => AutoRequest::DisableUnsolicited(c),
        }
    }

    /// The pending flags after a response to the task. A cleared restart bit
    /// counts only when the response no longer reports the restart.
    pub open spec fn after_response(self, pending: Pending, iin: Iin) -> Pending {
        match self {
            AutoTask::ClearRestartBit => Pending { clear_restart: iin.device_restart(), ..pending },
            AutoTask::EnableUnsolicited(_) => Pending { enable_unsolicited: false, ..pending },
            AutoTask::DisableUnsolicited(_) => Pending { disable_unsolicited: false, ..pending },
        }
    }

    /// The pending flags after the task failed: its flag is raised again.
    pub open spec fn after_failure(self, pending: Pending) -> Pending {
        match self {
            AutoTask::ClearRestartBit => Pending { clear_restart: true, ..pending },
            AutoTask::EnableUnsolicited(_) => Pending { enable_unsolicited: true, ..pending },
            AutoTask::DisableUnsolicited(_) => Pending { disable_unsolicited: true, ..pending },
        }
    }

    pub fn wrap(self) -> (r: Task)
        ensures
            r == Task::NonRead(NonReadTask::Auto(self)),
    {
        Task::NonRead(NonReadTask::Auto(self))
    }

    pub fn write(&self, cursor: &mut scursor::WriteCursor) -> (r: Result<(), scursor::WriteError>)
        ensures
            appended(*old(cursor), *final(cursor), r is Ok, self.request().bytes()),
    {
        match self {
            AutoTask::ClearRestartBit => AutoRequest::ClearRestartBit.format(cursor),
            AutoTask::EnableUnsolicited(classes) => classes.write(cursor),
            AutoTask::DisableUnsolicited(classes) => classes.write(cursor),
        }
    }

    pub fn function(&self) -> (r: FunctionCode)
        ensures
            r == self.request().function_code(),
    {
        match self {
            AutoTask::ClearRestartBit => FunctionCode::Write,
            AutoTask::EnableUnsolicited(_) => FunctionCode::EnableUnsolicited,
            AutoTask::DisableUnsolicited(_) => FunctionCode::DisableUnsolicited,
        }
    }

    pub fn description(&self) -> (r: &'static str)
        ensures
            r@ == (match *self {
                AutoTask::ClearRestartBit => "clear restart IIN bit"@,
                AutoTask::EnableUnsolicited(_) => "enable unsolicited reporting"@,
                AutoTask::DisableUnsolicited(_) => "disable unsolicited reporting"@,
            }),
    {
        match self {
            AutoTask::ClearRestartBit => "clear restart IIN bit",
            AutoTask::EnableUnsolicited(_) => "enable unsolicited reporting",
            AutoTask::DisableUnsolicited(_) => "disable unsolicited reporting",
        }
    }

    /// Takes note of the response: object headers in it are ignored, the
    /// task's flag is settled, and no further request follows.
    pub fn handle(self, association: &mut Association, header: ResponseHeader, objects: &HeaderCollection) -> (r:
        Option<NonReadTask>)
        ensures
            r is None,
            final(association).pending == self.after_response(old(association).pending, header.iin),
            final(association).same_but_pending(*old(association)),
    {
        match self {
            AutoTask::DisableUnsolicited(_) => {
                association.on_disable_unsolicited_response(header.iin);
            },
            AutoTask::EnableUnsolicited(_) => {
                association.on_enable_unsolicited_response(header.iin);
            },
            AutoTask::ClearRestartBit => {
                association.on_clear_restart_iin_response(header.iin);
            },
        }
        None
    }

    /// Raises the task's flag again, so that the task is retried.
    pub fn on_task_error(self, association: &mut Association, err: TaskError)
        ensures
            final(association).pending == self.after_failure(old(association).pending),
            final(association).same_but_pending(*old(association)),
    {
        match self {
            AutoTask::DisableUnsolicited(_) => {
                association.on_disable_unsolicited_failure();
            },
            AutoTask::EnableUnsolicited(_) => {
                association.on_enable_unsolicited_failure();
            },
            AutoTask::ClearRestartBit => {
                association.on_clear_restart_iin_failure();
            },
        }
    }
}

/// Where a read task comes from, which decides what its completion settles.
#[derive(Copy, Clone, Debug, PartialEq, Eq, Structural)]
pub enum ReadOrigin {
    /// The integrity scan that the master owes after a restart or an overflow.
    Integrity,
    /// The periodic poll with this identifier.
    Poll(u64),
    /// A read that a user asked for.
    User,
}

/// A read request with its origin.
#[derive(Copy, Clone, Debug, PartialEq, Eq, Structural)]
pub struct ReadTask {
    pub request: ReadRequest,
    pub origin: ReadOrigin,
}

impl ReadTask {
    /// The bytes of the read request with sequence number `seq`.
    pub open spec fn bytes(self, seq: Sequence) -> Seq<u8> {
        request_header_bytes(
            Control { fir: true, fin: true, con: false, uns: false, seq },
            FunctionCode::Read,
        ) + self.request.bytes()
    }

    pub fn format(&self, seq: Sequence, cursor: &mut scursor::WriteCursor) -> (r: Result<
        (),
        scursor::WriteError,
    >)
        ensures
            appended(*old(cursor), *final(cursor), r is Ok, self.bytes(seq)),
    {
        let ghost c0 = *cursor;
        let ghost head = request_header_bytes(
            Control { fir: true, fin: true, con: false, uns: false, seq },
            FunctionCode::Read,
        );
        let r0 = start_request(Control::request(seq), FunctionCode::Read, cursor);
        if let Err(e) = r0 {
            proof {
                lemma_appended_failed(c0, *cursor, head, self.request.bytes());
            }
            return Err(e);
        }
        let ghost c1 = *cursor;
        let r1 = self.request.format(cursor);
        proof {
            lemma_appended_then(c0, c1, *cursor, r1 is Ok, head, self.request.bytes());
        }
        r1
    }

    /// Takes note of an accepted fragment: its indications are applied to
    /// the association before the objects are handed on.
    pub fn handle(&self, association: &mut Association, header: ResponseHeader)
        ensures
            final(association).pending == old(association).pending.observe(header.iin),
            final(association).same_but_pending(*old(association)),
    {
        association.process_iin(header.iin);
    }
}

/// Which step of a command a request carries out.
#[derive(Copy, Clone, Debug, PartialEq, Eq, Structural)]
pub enum CommandState {
    Select,
    Operate,
    DirectOperate,
}

/// A command with the step it is at.
#[derive(Clone, Debug)]
pub struct CommandTask {
    pub state: CommandState,
    pub headers: CommandHeaders,
}

/// Kind of restart to ask of the outstation.
#[derive(Copy, Clone, Debug, PartialEq, Eq, Structural)]
pub enum RestartType {
    Cold,
    Warm,
}

/// A task other than a read: its response fits in one fragment.
#[derive(Clone, Debug)]
pub enum NonReadTask {
    Auto(AutoTask),
    Command(CommandTask),
    TimeSync,
    Restart(RestartType),
    EmptyResponse(FunctionCode),
}

impl CommandState {
    pub open spec fn function_code(self) -> FunctionCode {
        match self {
            CommandState::Select => FunctionCode::Select,
            CommandState::Operate => FunctionCode::Operate,
            CommandState::DirectOperate => FunctionCode::DirectOperate,
        }
    }
}

impl NonReadTask {
    /// The function code of the task's request.
    pub open spec fn function_code(self) -> FunctionCode {
        match self {
            NonReadTask::Auto(t) => t.request().function_code(),
            NonReadTask::Command(t) => t.state.function_code(),
            NonReadTask::TimeSync => FunctionCode::RecordCurrentTime,
            NonReadTask::Restart(RestartType::Cold) => FunctionCode::ColdRestart,
            NonReadTask::Restart(RestartType::Warm) => FunctionCode::WarmRestart,
            NonReadTask::EmptyResponse(f) => f,
        }
    }

    /// The object headers of the task's request.
    pub open spec fn body(self) -> Seq<u8> {
        match self {
            NonReadTask::Auto(t) => t.request().bytes(),
            NonReadTask::Command(t) => t.headers.bytes(),
            _ => Seq::empty(),
        }
    }

    /// Whether the request can be encoded at all, given room enough.
    pub open spec fn encodable(self) -> bool {
        match self {
            NonReadTask::Command(t) => headers_encodable(t.headers.headers@),
            _ => true,
        }
    }

    /// What a response with these objects means for the task: it is over,
    /// it goes on with a further request, or it has failed. A selection
    /// that the outstation echoed is followed by the operation.
    pub open spec fn outcome(self, objects: Result<HeaderCollection, ObjectParseError>) -> Result<
        Option<NonReadTask>,
        TaskError,
    > {
        match objects {
            Err(e) => Err(TaskError::BadResponse(e)),
            Ok(headers) => match self {
                NonReadTask::Auto(_) => Ok(None),
                NonReadTask::Command(t) => match headers_outcome(
                    t.headers.headers@,
                    headers.headers@,
                    0,
                ) {
                    Err(e) => Err(TaskError::Command(e)),
                    Ok(_) => match t.state {
                        CommandState::Select => Ok(
                            Some(
                                NonReadTask::Command(
                                    CommandTask { state: CommandState::Operate, headers: t.headers },
                                ),
                            ),
                        ),
                        _ => Ok(None),
                    },
                },
                NonReadTask::Restart(_) => Ok(None),
                _ => if headers.headers@.len() == 0 {
                    Ok(None)
                } else {
                    Err(TaskError::UnexpectedResponseHeaders)
                },
            },
        }
    }

    /// The pending flags after a response with these objects.
    pub open spec fn pending_after(
        self,
        pending: Pending,
        iin: Iin,
        objects: Result<HeaderCollection, ObjectParseError>,
    ) -> Pending {
        match self {
            NonReadTask::Auto(t) => if objects is Ok {
                t.after_response(pending, iin)
            } else {
                t.after_failure(pending)
            },
            _ => pending,
        }
    }

    /// The pending flags after the task failed.
    pub open spec fn pending_after_failure(self, pending: Pending) -> Pending {
        match self {
            NonReadTask::Auto(t) => t.after_failure(pending),
            _ => pending,
        }
    }

    pub fn function(&self) -> (r: FunctionCode)
        ensures
            r == self.function_code(),
    {
        match self {
            NonReadTask::Auto(t) => t.function(),
            NonReadTask::Command(t) => match t.state {
                CommandState::Select => FunctionCode::Select,
                CommandState::Operate => FunctionCode::Operate,
                CommandState::DirectOperate => FunctionCode::DirectOperate,
            },
            NonReadTask::TimeSync => FunctionCode::RecordCurrentTime,
            NonReadTask::Restart(RestartType::Cold) => FunctionCode::ColdRestart,
            NonReadTask::Restart(RestartType::Warm) => FunctionCode::WarmRestart,
            NonReadTask::EmptyResponse(f) => *f,
        }
    }

    /// Writes the object headers of the request.
    pub fn write(&self, cursor: &mut scursor::WriteCursor) -> (r: Result<(), EncodeError>)
        ensures
            !self.encodable() ==> r == Err::<(), EncodeError>(EncodeError::TooManyObjects)
                && written(*final(cursor)) == written(*old(cursor)) && limit(*final(cursor))
                == limit(*old(cursor)),
            self.encodable() ==> appended(*old(cursor), *final(cursor), r is Ok, self.body()) && (r is Err
                ==> r == Err::<(), EncodeError>(EncodeError::BufferFull)),
    {
        match self {
            NonReadTask::Auto(t) => match t.write(cursor) {
                Ok(_) => Ok(()),
                Err(_) => Err(EncodeError::BufferFull),
            },
            NonReadTask::Command(t) => t.headers.write(cursor),
            _ => Ok(()),
        }
    }

    /// Settles the task against a response from its outstation.
    pub fn handle(
        self,
        association: &mut Association,
        header: ResponseHeader,
        objects: &Result<HeaderCollection, ObjectParseError>,
    ) -> (r: Result<Option<NonReadTask>, TaskError>)
        ensures
            r == self.outcome(*objects),
            final(association).pending == self.pending_after(
                old(association).pending,
                header.iin,
                *objects,
            ),
            final(association).same_but_pending(*old(association)),
    {
        match objects {
            Err(e) => {
                let err = TaskError::BadResponse(*e);
                self.on_task_error(association, err);
                Err(err)
            },
            Ok(headers) => match self {
                NonReadTask::Auto(t) => {
                    let next = t.handle(association, header, headers);
                    Ok(None)
                },
                NonReadTask::Command(t) => match t.headers.compare(headers) {
                    Err(e) => Err(TaskError::Command(e)),
                    Ok(_) => match t.state {
                        CommandState::Select => Ok(
                            Some(
                                NonReadTask::Command(
                                    CommandTask { state: CommandState::Operate, headers: t.headers },
                                ),
                            ),
                        ),
                        _ => Ok(None),
                    },
                },
                NonReadTask::Restart(_) => Ok(None),
                _ => if headers.is_empty() {
                    Ok(None)
                } else {
                    Err(TaskError::UnexpectedResponseHeaders)
                },
            },
        }
    }

    /// Takes note of the task's failure.
    pub fn on_task_error(&self, association: &mut Association, err: TaskError)
        ensures
            final(association).pending == self.pending_after_failure(old(association).pending),
            final(association).same_but_pending(*old(association)),
    {
        match self {
            NonReadTask::Auto(t) => t.on_task_error(association, err),
            _ => {},
        }
    }
}

/// A task of either kind.
#[derive(Clone, Debug)]
pub enum Task {
    Read(ReadTask),
    NonRead(NonReadTask),
}

/// A task with the outstation it is meant for.
#[derive(Clone, Debug)]
pub struct AssociationTask {
    pub address: u16,
    pub details: Task,
}

} // verus!
