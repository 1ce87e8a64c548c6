//! The master session: one request in flight at a time, responses matched
//! by source and sequence number, unsolicited fragments taken at any moment.
//!
//! The session waits for nothing itself. Its caller waits on the transport,
//! the timer and the control queue, hands each event to the session, and
//! carries out what the session answers.

use vstd::prelude::*;
use crate::association::{after_pick, after_reset, changed_at, lemma_lookup_after_change, lookup};
use crate::association::{map_decision, pending_after_read, polls_after_read};
use crate::association::{message_applied, Association, AssociationError, AssociationMap};
use crate::association::{AssociationMsgDetails, Next, Pending, Poll};
use crate::command::EncodeError;
use crate::cursor::{appended, fits, lemma_appended_then, limit, written};
use crate::enums::FunctionCode;
use crate::format::{confirm_bytes, request_header_bytes, start_request};
use crate::header::{next_seq, Control, ResponseHeader, Sequence};
use crate::objects::{HeaderCollection, ObjectParseError};
use crate::tasks::{run_error_of, AssociationTask, LinkError, NonReadTask, ReadOrigin, ReadTask};
use crate::tasks::{RunError, Shutdown, Task, TaskError};

verus! {

/// Smallest transmit buffer that a session works with.
pub const MIN_TX_BUFFER_SIZE: usize = 249;

/// Transmit buffer size used when nothing else is asked for.
pub const DEFAULT_TX_BUFFER_SIZE: usize = 2048;

/// Smallest receive buffer of the transport.
pub const MIN_RX_BUFFER_SIZE: usize = 2048;

/// Receive buffer size used when nothing else is asked for.
pub const DEFAULT_RX_BUFFER_SIZE: usize = 2048;

/// How much of the traffic is decoded into the log.
#[derive(Copy, Clone, Debug, PartialEq, Eq, Structural)]
pub enum DecodeLogLevel {
    Nothing,
    Header,
    ObjectHeaders,
    ObjectValues,
}

/// A received fragment.
#[derive(Debug)]
pub struct Response {
    pub header: ResponseHeader,
    pub objects: Result<HeaderCollection, ObjectParseError>,
}

/// The solicited exchange in flight, if any. A session has at most one.
#[allow(inconsistent_fields)]
#[derive(Clone, Debug)]
pub enum Exchange {
    Idle,
    Read { destination: u16, seq: Sequence, is_first: bool, task: ReadTask },
    NonRead { destination: u16, seq: Sequence, task: NonReadTask },
}

/// What to do after a fragment was looked at during a read.
#[derive(Copy, Clone, Debug, PartialEq, Eq, Structural)]
pub enum ReadResponseAction {
    Ignore,
    ReadNext,
    Complete,
}

/// A control message for the session itself.
#[derive(Clone, Debug)]
pub enum MasterMsg {
    AddAssociation(Association),
    RemoveAssociation(u16),
    SetDecodeLogLevel(DecodeLogLevel),
    GetDecodeLogLevel,
}

/// The answer to a control message for the session.
#[derive(Copy, Clone, Debug, PartialEq, Eq)]
pub enum MasterReply {
    Added(Result<(), AssociationError>),
    Removed(bool),
    LevelSet,
    Level(DecodeLogLevel),
}

/// A control message.
#[derive(Clone, Debug)]
pub enum Message {
    Master(MasterMsg),
    Association(u16, AssociationMsgDetails),
}

/// The answer to a control message.
#[derive(Copy, Clone, Debug, PartialEq, Eq)]
pub enum MessageReply {
    Master(MasterReply),
    Association(Result<(), TaskError>),
}

/// What ended a wait for the next fragment.
#[derive(Copy, Clone, Debug, PartialEq, Eq, Structural)]
pub enum WaitEvent {
    /// The transport has read something.
    Fragment,
    /// The response deadline has passed.
    Deadline,
    /// The transport failed.
    ReadError(LinkError),
    /// The control queue was closed.
    QueueClosed,
}

/// What the caller has to do after the session has looked at an event, in
/// the order of the fields.
#[derive(Copy, Clone, Debug, PartialEq, Eq)]
pub struct Outcome {
    /// Hand the fragment to the unsolicited handler of its source, then ask
    /// the session whether to confirm it.
    pub unsolicited: bool,
    /// Hand the objects of the fragment to the handler of the read.
    pub deliver: bool,
    /// Send what the cursor holds to this address.
    pub transmit: Option<u16>,
    /// The task in flight has ended in this way.
    pub finished: Option<Result<(), TaskError>>,
    /// The wait for the next fragment starts with a fresh deadline.
    pub fresh_deadline: bool,
}

/// The outcome that asks nothing of the caller.
pub open spec fn quiet() -> Outcome {
    Outcome { unsolicited: false, deliver: false, transmit: None, finished: None, fresh_deadline: false }
}

/// The session.
pub struct MasterSession {
    pub level: DecodeLogLevel,
    /// Milliseconds that an outstation has to produce each fragment.
    pub timeout: u64,
    pub associations: AssociationMap,
    pub exchange: Exchange,
    pub tx_buffer_size: usize,
}

/// What a fragment means to a read in flight.
pub enum ReadVerdict {
    /// It is unsolicited, and no part of the read.
    Unsolicited,
    /// It is from another outstation or has another sequence number.
    Ignore,
    /// It breaks the rules of a fragmented response.
    Fail(TaskError),
    /// It is the next fragment of the response.
    Accept { confirm: bool, complete: bool },
}

/// Judges a fragment from `source` against the read that waits for the
/// fragment with number `seq` from `destination`; `known` says whether the
/// destination is still registered.
pub open spec fn read_verdict(
    destination: u16,
    is_first: bool,
    seq: Sequence,
    source: u16,
    response: Response,
    known: bool,
) -> ReadVerdict {
    let c = response.header.control;
    if response.header.function == FunctionCode::UnsolicitedResponse {
        ReadVerdict::Unsolicited
    } else if source != destination {
        ReadVerdict::Ignore
    } else if c.seq != seq {
        ReadVerdict::Ignore
    } else if c.fir && !is_first {
        ReadVerdict::Fail(TaskError::UnexpectedFir)
    } else if !c.fir && is_first {
        ReadVerdict::Fail(TaskError::NeverReceivedFir)
    } else if !c.fin && !c.con {
        ReadVerdict::Fail(TaskError::NonFinWithoutCon)
    } else if !known {
        ReadVerdict::Fail(TaskError::NoSuchAssociation(destination))
    } else {
        match response.objects {
            Err(e) => ReadVerdict::Fail(TaskError::BadResponse(e)),
            Ok(_) => ReadVerdict::Accept { confirm: c.con, complete: c.fin },
        }
    }
}

/// What a fragment means to a request other than a read.
pub enum NonReadVerdict {
    Unsolicited,
    Ignore,
    Fail(TaskError),
    Accept,
}

/// Judges a fragment from `source` against the request with number `seq`
/// that was sent to `destination`.
pub open spec fn non_read_verdict(destination: u16, seq: Sequence, source: u16, header: ResponseHeader) -> NonReadVerdict {
    if header.function == FunctionCode::UnsolicitedResponse {
        NonReadVerdict::Unsolicited
    } else if source != destination {
        NonReadVerdict::Ignore
    } else if header.control.seq != seq {
        NonReadVerdict::Ignore
    } else if !(header.control.fir && header.control.fin) {
        NonReadVerdict::Fail(TaskError::MultiFragmentResponse)
    } else {
        NonReadVerdict::Accept
    }
}

/// What became of a fragment that was screened for a request other than a read.
#[derive(Copy, Clone, Debug, PartialEq, Eq, Structural)]
pub enum Screened {
    /// Unsolicited; `deliver` says whether its source is registered.
    Unsolicited { deliver: bool },
    Ignored,
    Accepted,
}

/// What a request needs in order to be sent.
pub trait RequestWriter {
    spec fn function_of(&self) -> FunctionCode;

    spec fn body_of(&self) -> Seq<u8>;

    spec fn can_encode(&self) -> bool;

    fn request_function(&self) -> (r: FunctionCode)
        ensures
            r == self.function_of(),
    ;

    fn write_body(&self, cursor: &mut scursor::WriteCursor) -> (r: Result<(), EncodeError>)
        ensures
            limit(*final(cursor)) == limit(*old(cursor)),
            written(*old(cursor)).is_prefix_of(written(*final(cursor))),
            r is Ok <==> self.can_encode() && fits(*old(cursor), self.body_of().len()),
            r is Ok ==> written(*final(cursor)) == written(*old(cursor)) + self.body_of(),
    ;
}

impl RequestWriter for ReadTask {
    open spec fn function_of(&self) -> FunctionCode {
        FunctionCode::Read
    }

    open spec fn body_of(&self) -> Seq<u8> {
        self.request.bytes()
    }

    open spec fn can_encode(&self) -> bool {
        true
    }

    fn request_function(&self) -> (r: FunctionCode) {
        FunctionCode::Read
    }

    fn write_body(&self, cursor: &mut scursor::WriteCursor) -> (r: Result<(), EncodeError>) {
        match self.request.format(cursor) {
            Ok(_) => Ok(()),
            Err(_) => Err(EncodeError::BufferFull),
        }
    }
}

impl RequestWriter for NonReadTask {
    open spec fn function_of(&self) -> FunctionCode {
        self.function_code()
    }

    open spec fn body_of(&self) -> Seq<u8> {
        self.body()
    }

    open spec fn can_encode(&self) -> bool {
        self.encodable()
    }

    fn request_function(&self) -> (r: FunctionCode) {
        self.function()
    }

    fn write_body(&self, cursor: &mut scursor::WriteCursor) -> (r: Result<(), EncodeError>) {
        self.write(cursor)
    }
}

/// The bytes of a request with sequence number `seq`.
pub open spec fn request_bytes(seq: Sequence, function: FunctionCode, body: Seq<u8>) -> Seq<u8> {
    request_header_bytes(Control { fir: true, fin: true, con: false, uns: false, seq }, function)
        + body
}

/// What sending a request to `address` gives: the sequence number it went
/// out with, or why it did not go out.
pub open spec fn send_result(
    assocs: Seq<Association>,
    address: u16,
    function: FunctionCode,
    body: Seq<u8>,
    can_encode: bool,
    cursor: scursor::WriteCursor,
) -> Result<Sequence, TaskError> {
    match lookup(assocs, address) {
        None => Err(TaskError::NoSuchAssociation(address)),
        Some(i) => if can_encode && fits(
            cursor,
            request_bytes(assocs[i].seq, function, body).len(),
        ) {
            Ok(assocs[i].seq)
        } else {
            Err(TaskError::WriteError)
        },
    }
}

/// The sequence number after `seq`.
pub open spec fn seq_after(seq: Sequence) -> Sequence {
    Sequence { value: next_seq(seq.value) }
}

/// How an attempt to send a request to `address` changes the associations
/// and the cursor: the association's sequence number advances as soon as
/// the association is found, and the request is appended when it fits.
pub open spec fn sent(
    before: Seq<Association>,
    after: Seq<Association>,
    address: u16,
    function: FunctionCode,
    body: Seq<u8>,
    c0: scursor::WriteCursor,
    c1: scursor::WriteCursor,
    r: Result<Sequence, TaskError>,
) -> bool {
    &&& limit(c1) == limit(c0)
    &&& written(c0).is_prefix_of(written(c1))
    &&& match lookup(before, address) {
        None => after == before && written(c1) == written(c0),
        Some(i) => changed_at(
            before,
            after,
            i,
            seq_after(before[i].seq),
            before[i].pending,
            before[i].polls@,
        ) && (r is Ok ==> written(c1) == written(c0) + request_bytes(before[i].seq, function, body)),
    }
}

/// How a control message for the session changes it, and what is answered:
/// an association is added behind the others unless its address is taken;
/// an association is removed if it is there; the decode level is set or
/// told. The exchange in flight is not touched.
pub open spec fn master_applied(before: MasterSession, after: MasterSession, msg: MasterMsg, r: MasterReply) -> bool {
    &&& after.exchange == before.exchange
    &&& after.tx_buffer_size == before.tx_buffer_size
    &&& after.timeout == before.timeout
    &&& match msg {
        MasterMsg::AddAssociation(a) => after.level == before.level && (match lookup(
            before.assocs(),
            a.address,
        ) {
            Some(_) => r == MasterReply::Added(Err(AssociationError::DuplicateAddress(a.address)))
                && after.assocs() == before.assocs(),
            None => r == MasterReply::Added(Ok(())) && after.assocs() == before.assocs().push(a),
        }),
        MasterMsg::RemoveAssociation(address) => after.level == before.level && (match lookup(
            before.assocs(),
            address,
        ) {
            Some(i) => r == MasterReply::Removed(true) && after.assocs() == before.assocs().remove(i),
            None => r == MasterReply::Removed(false) && after.assocs() == before.assocs(),
        }),
        MasterMsg::SetDecodeLogLevel(level) => r == MasterReply::LevelSet && after.level == level
            && after.assocs() == before.assocs(),
        MasterMsg::GetDecodeLogLevel => r == MasterReply::Level(before.level) && after.level
            == before.level && after.assocs() == before.assocs(),
    }
}

impl MasterSession {
    /// The associations, in order of registration.
    pub open spec fn assocs(self) -> Seq<Association> {
        self.associations.associations@
    }

    /// A session with no association and nothing in flight. A transmit
    /// buffer size under the minimum is raised to the minimum.
    pub fn new(level: DecodeLogLevel, response_timeout: u64, tx_buffer_size: usize) -> (r:
        MasterSession)
        ensures
            r.level == level,
            r.timeout == response_timeout,
            r.assocs().len() == 0,
            r.exchange is Idle,
            r.tx_buffer_size == if tx_buffer_size < MIN_TX_BUFFER_SIZE {
                MIN_TX_BUFFER_SIZE
            } else {
                tx_buffer_size
            },
    {
        let size: usize = if tx_buffer_size < MIN_TX_BUFFER_SIZE {
            MIN_TX_BUFFER_SIZE
        } else {
            tx_buffer_size
        };
        MasterSession {
            level,
            timeout: response_timeout,
            associations: AssociationMap::new(),
            exchange: Exchange::Idle,
            tx_buffer_size: size,
        }
    }

    /// The instant by which a fragment awaited from `now` on must arrive:
    /// one response timeout later, or the last instant there is.
    pub fn deadline_from(&self, now: u64) -> (r: u64)
        ensures
            r == if now + self.timeout > u64::MAX {
                u64::MAX
            } else {
                (now + self.timeout) as u64
            },
    {
        if now > u64::MAX - self.timeout {
            u64::MAX
        } else {
            now + self.timeout
        }
    }

    pub fn is_idle(&self) -> (r: bool)
        ensures
            r == (self.exchange is Idle),
    {
        match &self.exchange {
            Exchange::Idle => true,
            _ => false,
        }
    }

    pub fn is_reading(&self) -> (r: bool)
        ensures
            r == (self.exchange is Read),
    {
        match &self.exchange {
            Exchange::Read { .. } => true,
            _ => false,
        }
    }

    /// Applies a control message for the session. The exchange in flight
    /// is not touched.
    pub fn process_master_message(&mut self, msg: MasterMsg) -> (r: MasterReply)
        ensures
            master_applied(*old(self), *final(self), msg, r),
    {
        match msg {
            MasterMsg::AddAssociation(association) => MasterReply::Added(
                self.associations.register(association),
            ),
            MasterMsg::RemoveAssociation(address) => MasterReply::Removed(
                self.associations.remove(address),
            ),
            MasterMsg::SetDecodeLogLevel(level) => {
                self.level = level;
                MasterReply::LevelSet
            },
            MasterMsg::GetDecodeLogLevel => MasterReply::Level(self.level),
        }
    }

    /// Applies what the control queue has yielded: `None` stands for a
    /// closed queue. A message for an unknown address is answered with an
    /// error and changes nothing. The exchange in flight is not touched.
    pub fn process_message(&mut self, msg: Option<Message>, is_connected: bool, now: u64) -> (r:
        Result<MessageReply, Shutdown>)
        ensures
            r is Err <==> msg is None,
            final(self).exchange == old(self).exchange,
            final(self).tx_buffer_size == old(self).tx_buffer_size,
            final(self).timeout == old(self).timeout,
            match msg {
                None => *final(self) == *old(self),
                Some(Message::Master(m)) => r is Ok && r->Ok_0 is Master && master_applied(
                    *old(self),
                    *final(self),
                    m,
                    r->Ok_0->Master_0,
                ),
                Some(Message::Association(address, details)) => final(self).level == old(self).level && (match lookup(old(self).assocs(), address) {
                    None => r == Ok::<MessageReply, Shutdown>(
                        MessageReply::Association(Err(TaskError::NoSuchAssociation(address))),
                    ) && final(self).assocs() == old(self).assocs(),
                    Some(i) => r is Ok && r->Ok_0 is Association && final(self).assocs().len() == old(self).assocs().len() && message_applied(
                        old(self).assocs()[i],
                        final(self).assocs()[i],
                        details,
                        is_connected,
                        now,
                        r->Ok_0->Association_0,
                    ) && (forall|j: int|
                        0 <= j < old(self).assocs().len() && j != i ==> #[trigger] final(self).assocs()[j] == old(self).assocs()[j]),
                }),
            },
    {
        match msg {
            None => Err(Shutdown),
            Some(Message::Master(m)) => Ok(MessageReply::Master(self.process_master_message(m))),
            Some(Message::Association(address, details)) => match self.associations.find(address) {
                None => Ok(MessageReply::Association(Err(TaskError::NoSuchAssociation(address)))),
                Some(i) => {
                    let reply = self.associations.associations[i].process_message(
                        details,
                        is_connected,
                        now,
                    );
                    Ok(MessageReply::Association(reply))
                },
            },
        }
    }

    /// Classifies what ended a wait for a response.
    pub fn read_next_response(event: WaitEvent) -> (r: Result<(), TaskError>)
        ensures
            r == (match event {
                WaitEvent::Fragment => Ok::<(), TaskError>(()),
                WaitEvent::Deadline => Err(TaskError::ResponseTimeout),
                WaitEvent::ReadError(e) => Err(TaskError::Lower(e)),
                WaitEvent::QueueClosed => Err(TaskError::Shutdown),
            }),
    {
        match event {
            WaitEvent::Fragment => Ok(()),
            WaitEvent::Deadline => Err(TaskError::ResponseTimeout),
            WaitEvent::ReadError(e) => Err(TaskError::Lower(e)),
            WaitEvent::QueueClosed => Err(TaskError::Shutdown),
        }
    }

    /// Ends the run: the exchange in flight is dropped and every queue is
    /// emptied. What is handed back lists the canceled tasks.
    pub fn reset(&mut self, err: RunError) -> (r: Vec<(u16, Vec<Task>)>)
        ensures
            final(self).exchange is Idle,
            final(self).same_frame(*old(self)),
            after_reset(old(self).assocs(), final(self).assocs(), r@),
    {
        self.exchange = Exchange::Idle;
        self.associations.reset(err)
    }

    /// Picks the next task at `now`.
    pub fn get_next_task(&mut self, now: u64) -> (r: Next<AssociationTask>)
        ensures
            r == map_decision(old(self).assocs(), now),
            after_pick(old(self).assocs(), final(self).assocs(), now),
            final(self).exchange == old(self).exchange,
            final(self).same_frame(*old(self)),
    {
        self.associations.next_task(now)
    }

    /// Encodes a request for `address` with the association's current
    /// sequence number, and advances that number.
    pub fn send_request<U: RequestWriter>(
        &mut self,
        address: u16,
        request: &U,
        cursor: &mut scursor::WriteCursor,
    ) -> (r: Result<Sequence, TaskError>)
        ensures
            r == send_result(
                old(self).assocs(),
                address,
                request.function_of(),
                request.body_of(),
                request.can_encode(),
                *old(cursor),
            ),
            sent(
                old(self).assocs(),
                final(self).assocs(),
                address,
                request.function_of(),
                request.body_of(),
                *old(cursor),
                *final(cursor),
                r,
            ),
            final(self).exchange == old(self).exchange,
            final(self).same_frame(*old(self)),
    {
        let i: usize = match self.associations.find(address) {
            Some(i) => i,
            None => {
                return Err(TaskError::NoSuchAssociation(address));
            },
        };
        let seq: Sequence = self.associations.associations[i].increment_seq();
        let ghost c0 = *cursor;
        let ghost head = request_header_bytes(
            Control { fir: true, fin: true, con: false, uns: false, seq },
            request.function_of(),
        );
        let r0 = start_request(Control::request(seq), request.request_function(), cursor);
        if r0.is_err() {
            return Err(TaskError::WriteError);
        }
        let ghost c1 = *cursor;
        let r1 = request.write_body(cursor);
        proof {
            assert((written(c0) + head) + request.body_of() =~= written(c0) + (head
                + request.body_of()));
        }
        if r1.is_err() {
            return Err(TaskError::WriteError);
        }
        Ok(seq)
    }
}

/// What the session found in a fragment during a read.
#[derive(Copy, Clone, Debug)]
pub struct ReadStep {
    /// How the read goes on, or why it has failed.
    pub action: Result<ReadResponseAction, TaskError>,
    /// The fragment is for the unsolicited handler of its source.
    pub unsolicited: bool,
    /// The objects of the fragment are for the handler of the read.
    pub deliver: bool,
    /// The cursor holds a confirmation to send to the outstation.
    pub confirm: bool,
}

/// The associations after the indications `iin` of a fragment from
/// `source` were applied: the pending flags of that association have taken
/// note of them, and an unknown source changes nothing.
pub open spec fn observed(before: Seq<Association>, after: Seq<Association>, source: u16, header: ResponseHeader) -> bool {
    match lookup(before, source) {
        Some(j) => changed_at(
            before,
            after,
            j,
            before[j].seq,
            before[j].pending.observe(header.iin),
            before[j].polls@,
        ),
        None => after == before,
    }
}

/// The confirmation owed for an accepted fragment of a read.
pub open spec fn solicited_confirmation(confirm: bool, seq: Sequence) -> Seq<u8> {
    if confirm {
        confirm_bytes(seq, false)
    } else {
        Seq::empty()
    }
}

impl MasterSession {
    /// Everything but the associations and the exchange is as in `other`.
    pub open spec fn same_frame(self, other: MasterSession) -> bool {
        self.level == other.level && self.timeout == other.timeout && self.tx_buffer_size
            == other.tx_buffer_size
    }

    /// Takes note of an unsolicited fragment: the indications are applied
    /// to the association of its source before any handler sees the
    /// fragment. The answer says whether the source is registered, that is,
    /// whether the fragment is to be handed to its unsolicited handler.
    pub fn handle_unsolicited(&mut self, source: u16, response: &Response) -> (r: bool)
        ensures
            r == (lookup(old(self).assocs(), source) is Some),
            observed(old(self).assocs(), final(self).assocs(), source, response.header),
            final(self).exchange == old(self).exchange,
            final(self).same_frame(*old(self)),
    {
        match self.associations.find(source) {
            Some(i) => {
                self.associations.associations[i].process_iin(response.header.iin);
                true
            },
            None => false,
        }
    }

    /// Encodes the confirmation of a solicited fragment.
    pub fn confirm_solicited(seq: Sequence, cursor: &mut scursor::WriteCursor) -> (r: Result<
        (),
        TaskError,
    >)
        ensures
            appended(*old(cursor), *final(cursor), r is Ok, confirm_bytes(seq, false)),
            r is Err ==> r == Err::<(), TaskError>(TaskError::WriteError),
    {
        match crate::format::confirm_solicited(seq, cursor) {
            Ok(_) => Ok(()),
            Err(_) => Err(TaskError::WriteError),
        }
    }

    /// Encodes the confirmation of an unsolicited fragment where one is
    /// owed: the handler found the fragment valid and the fragment asks
    /// for confirmation. The answer says whether the cursor holds one.
    pub fn confirm_unsolicited(valid: bool, control: Control, cursor: &mut scursor::WriteCursor) -> (r:
        Result<bool, TaskError>)
        ensures
            !(valid && control.con) ==> r == Ok::<bool, TaskError>(false) && *final(cursor) == *old(cursor),
            valid && control.con ==> appended(
                *old(cursor),
                *final(cursor),
                r is Ok,
                confirm_bytes(control.seq, true),
            ) && (r is Ok ==> r == Ok::<bool, TaskError>(true)) && (r is Err ==> r == Err::<
                bool,
                TaskError,
            >(TaskError::WriteError)),
    {
        if valid && control.con {
            match crate::format::confirm_unsolicited(control.seq, cursor) {
                Ok(_) => Ok(true),
                Err(_) => Err(TaskError::WriteError),
            }
        } else {
            Ok(false)
        }
    }

    /// Looks at a fragment that arrived while nothing was in flight: an
    /// unsolicited one is taken, any other is dropped.
    pub fn handle_fragment_while_idle(&mut self, source: u16, response: &Response) -> (r: Outcome)
        ensures
            idle_stepped(*old(self), *final(self), source, *response, r),
    {
        if response.header.function.is_unsolicited() {
            let known = self.handle_unsolicited(source, response);
            Outcome {
                unsolicited: known,
                deliver: false,
                transmit: None,
                finished: None,
                fresh_deadline: false,
            }
        } else {
            Outcome {
                unsolicited: false,
                deliver: false,
                transmit: None,
                finished: None,
                fresh_deadline: false,
            }
        }
    }

    /// Screens a fragment for a request other than a read that was sent to
    /// `destination` with number `seq`.
    pub fn validate_non_read_response(
        &mut self,
        destination: u16,
        seq: Sequence,
        source: u16,
        response: &Response,
    ) -> (r: Result<Screened, TaskError>)
        ensures
            final(self).exchange == old(self).exchange,
            final(self).same_frame(*old(self)),
            match non_read_verdict(destination, seq, source, response.header) {
                NonReadVerdict::Unsolicited => r == Ok::<Screened, TaskError>(
                    Screened::Unsolicited { deliver: lookup(old(self).assocs(), source) is Some },
                ) && observed(old(self).assocs(), final(self).assocs(), source, response.header),
                NonReadVerdict::Ignore => r == Ok::<Screened, TaskError>(Screened::Ignored) && final(self).assocs() == old(self).assocs(),
                NonReadVerdict::Fail(e) => r == Err::<Screened, TaskError>(e) && final(self).assocs()
                    == old(self).assocs(),
                NonReadVerdict::Accept => r == Ok::<Screened, TaskError>(Screened::Accepted) && final(self).assocs() == old(self).assocs(),
            },
    {
        if response.header.function.is_unsolicited() {
            let known = self.handle_unsolicited(source, response);
            return Ok(Screened::Unsolicited { deliver: known });
        }
        if source != destination {
            return Ok(Screened::Ignored);
        }
        if response.header.control.seq != seq {
            return Ok(Screened::Ignored);
        }
        if !response.header.control.is_fir_and_fin() {
            return Err(TaskError::MultiFragmentResponse);
        }
        Ok(Screened::Accepted)
    }

    /// Looks at a fragment during a read. An accepted fragment has its
    /// indications applied before its objects are handed on, and is
    /// confirmed when it asks for that, whether it is the last one or not.
    pub fn process_read_response(
        &mut self,
        destination: u16,
        is_first: bool,
        seq: Sequence,
        task: &ReadTask,
        source: u16,
        response: &Response,
        cursor: &mut scursor::WriteCursor,
    ) -> (r: ReadStep)
        ensures
            final(self).exchange == old(self).exchange,
            final(self).same_frame(*old(self)),
            limit(*final(cursor)) == limit(*old(cursor)),
            written(*old(cursor)).is_prefix_of(written(*final(cursor))),
            match read_verdict(
                destination,
                is_first,
                seq,
                source,
                *response,
                lookup(old(self).assocs(), destination) is Some,
            ) {
                ReadVerdict::Unsolicited => r.action == Ok::<ReadResponseAction, TaskError>(
                    ReadResponseAction::Ignore,
                ) && r.unsolicited == (lookup(old(self).assocs(), source) is Some) && !r.deliver
                    && !r.confirm && observed(
                    old(self).assocs(),
                    final(self).assocs(),
                    source,
                    response.header,
                ) && *final(cursor) == *old(cursor),
                ReadVerdict::Ignore => r.action == Ok::<ReadResponseAction, TaskError>(
                    ReadResponseAction::Ignore,
                ) && !r.unsolicited && !r.deliver && !r.confirm && final(self).assocs() == old(self).assocs() && *final(cursor) == *old(cursor),
                ReadVerdict::Fail(e) => r.action == Err::<ReadResponseAction, TaskError>(e)
                    && !r.unsolicited && !r.deliver && !r.confirm && final(self).assocs() == old(self).assocs() && *final(cursor) == *old(cursor),
                ReadVerdict::Accept { confirm, complete } => !r.unsolicited && r.deliver && observed(
                    old(self).assocs(),
                    final(self).assocs(),
                    destination,
                    response.header,
                ) && if confirm && !fits(*old(cursor), 2) {
                    r.action == Err::<ReadResponseAction, TaskError>(TaskError::WriteError)
                        && !r.confirm
                } else {
                    r.action == Ok::<ReadResponseAction, TaskError>(
                        if complete {
                            ReadResponseAction::Complete
                        } else {
                            ReadResponseAction::ReadNext
                        },
                    ) && r.confirm == confirm && written(*final(cursor)) == written(*old(cursor))
                        + solicited_confirmation(confirm, seq)
                },
            },
    {
        let header = response.header;
        if header.function.is_unsolicited() {
            let known = self.handle_unsolicited(source, response);
            return ReadStep {
                action: Ok(ReadResponseAction::Ignore),
                unsolicited: known,
                deliver: false,
                confirm: false,
            };
        }
        if source != destination {
            return ReadStep {
                action: Ok(ReadResponseAction::Ignore),
                unsolicited: false,
                deliver: false,
                confirm: false,
            };
        }
        if header.control.seq != seq {
            return ReadStep {
                action: Ok(ReadResponseAction::Ignore),
                unsolicited: false,
                deliver: false,
                confirm: false,
            };
        }
        if header.control.fir && !is_first {
            return ReadStep {
                action: Err(TaskError::UnexpectedFir),
                unsolicited: false,
                deliver: false,
                confirm: false,
            };
        }
        if !header.control.fir && is_first {
            return ReadStep {
                action: Err(TaskError::NeverReceivedFir),
                unsolicited: false,
                deliver: false,
                confirm: false,
            };
        }
        if !header.control.fin && !header.control.con {
            return ReadStep {
                action: Err(TaskError::NonFinWithoutCon),
                unsolicited: false,
                deliver: false,
                confirm: false,
            };
        }
        let i: usize = match self.associations.find(destination) {
            Some(i) => i,
            None => {
                return ReadStep {
                    action: Err(TaskError::NoSuchAssociation(destination)),
                    unsolicited: false,
                    deliver: false,
                    confirm: false,
                };
            },
        };
        if let Err(e) = &response.objects {
            return ReadStep {
                action: Err(TaskError::BadResponse(*e)),
                unsolicited: false,
                deliver: false,
                confirm: false,
            };
        }
        task.handle(&mut self.associations.associations[i], header);
        if header.control.con {
            if let Err(e) = MasterSession::confirm_solicited(seq, cursor) {
                return ReadStep { action: Err(e), unsolicited: false, deliver: true, confirm: false };
            }
        }
        proof {
            assert(written(*old(cursor)) + Seq::<u8>::empty() =~= written(*old(cursor)));
        }
        if header.control.fin {
            ReadStep {
                action: Ok(ReadResponseAction::Complete),
                unsolicited: false,
                deliver: true,
                confirm: header.control.con,
            }
        } else {
            ReadStep {
                action: Ok(ReadResponseAction::ReadNext),
                unsolicited: false,
                deliver: true,
                confirm: header.control.con,
            }
        }
    }
}

/// The outcome of a request that went out to `destination`.
pub open spec fn started(destination: u16) -> Outcome {
    Outcome { transmit: Some(destination), fresh_deadline: true, ..quiet() }
}

/// The outcome of a task that ended with `result`.
pub open spec fn ended(result: Result<(), TaskError>) -> Outcome {
    Outcome { finished: Some(result), ..quiet() }
}

/// The associations after a task for `address` failed before or after its
/// request went out: `moved` says whether the sequence number had advanced.
pub open spec fn failed_at(
    before: Seq<Association>,
    after: Seq<Association>,
    address: u16,
    moved: bool,
    pending: spec_fn(Pending) -> Pending,
) -> bool {
    match lookup(before, address) {
        Some(i) => changed_at(
            before,
            after,
            i,
            if moved {
                seq_after(before[i].seq)
            } else {
                before[i].seq
            },
            pending(before[i].pending),
            before[i].polls@,
        ),
        None => after == before,
    }
}

/// How a fragment changes a session with a read in flight, and what is asked
/// of the caller.
pub open spec fn read_stepped(
    before: MasterSession,
    after: MasterSession,
    c0: scursor::WriteCursor,
    c1: scursor::WriteCursor,
    source: u16,
    response: Response,
    now: u64,
    r: Outcome,
) -> bool {
    &&& after.same_frame(before)
    &&& limit(c1) == limit(c0)
    &&& written(c0).is_prefix_of(written(c1))
    &&& ({
        let destination = before.exchange->Read_destination;
        let seq = before.exchange->Read_seq;
        let is_first = before.exchange->Read_is_first;
        let task = before.exchange->Read_task;
        let olds = before.assocs();
        let news = after.assocs();
        match read_verdict(
            destination,
            is_first,
            seq,
            source,
            response,
            lookup(olds, destination) is Some,
        ) {
            ReadVerdict::Unsolicited => r == (Outcome {
                unsolicited: lookup(olds, source) is Some,
                ..quiet()
            }) && observed(olds, news, source, response.header) && after.exchange
                == before.exchange && c1 == c0,
            ReadVerdict::Ignore => r == quiet() && news == olds && after.exchange
                == before.exchange && c1 == c0,
            ReadVerdict::Fail(e) => r == ended(Err(e)) && news == olds && after.exchange is Idle && c1 == c0,
            ReadVerdict::Accept { confirm, complete } => {
                let i = lookup(olds, destination)->0;
                let noted = olds[i].pending.observe(response.header.iin);
                if confirm && !fits(c0, 2) {
                    r == (Outcome { deliver: true, ..ended(Err(TaskError::WriteError)) })
                        && after.exchange is Idle && changed_at(
                        olds,
                        news,
                        i,
                        olds[i].seq,
                        noted,
                        olds[i].polls@,
                    )
                } else {
                    let transmit = if confirm {
                        Some(destination)
                    } else {
                        None
                    };
                    written(c1) == written(c0)
                        + solicited_confirmation(confirm, seq) && if complete {
                        r == (Outcome { deliver: true, transmit, ..ended(Ok(())) }) && after.exchange is Idle && changed_at(
                            olds,
                            news,
                            i,
                            olds[i].seq,
                            pending_after_read(noted, task.origin),
                            polls_after_read(olds[i].polls@, task.origin, now),
                        )
                    } else {
                        r == (Outcome {
                            deliver: true,
                            transmit,
                            fresh_deadline: true,
                            ..quiet()
                        }) && after.exchange == (Exchange::Read {
                            destination,
                            seq: olds[i].seq,
                            is_first: false,
                            task,
                        }) && changed_at(
                            olds,
                            news,
                            i,
                            seq_after(olds[i].seq),
                            noted,
                            olds[i].polls@,
                        )
                    }
                }
            },
        }
    })
}

/// How a fragment changes a session with a request other than a read in
/// flight, and what is asked of the caller.
pub open spec fn non_read_stepped(
    before: MasterSession,
    after: MasterSession,
    c0: scursor::WriteCursor,
    c1: scursor::WriteCursor,
    source: u16,
    response: Response,
    r: Outcome,
) -> bool {
    &&& after.same_frame(before)
    &&& limit(c1) == limit(c0)
    &&& written(c0).is_prefix_of(written(c1))
    &&& ({
        let destination = before.exchange->NonRead_destination;
        let seq = before.exchange->NonRead_seq;
        let task = before.exchange->NonRead_task;
        let olds = before.assocs();
        let news = after.assocs();
        match non_read_verdict(destination, seq, source, response.header) {
            NonReadVerdict::Unsolicited => r == (Outcome {
                unsolicited: lookup(olds, source) is Some,
                ..quiet()
            }) && observed(olds, news, source, response.header) && after.exchange
                == before.exchange && c1 == c0,
            NonReadVerdict::Ignore => r == quiet() && news == olds && after.exchange
                == before.exchange && c1 == c0,
            NonReadVerdict::Fail(e) => r == ended(Err(e)) && after.exchange is Idle
                && failed_at(
                olds,
                news,
                destination,
                false,
                |p: Pending| task.pending_after_failure(p),
            ) && c1 == c0,
            NonReadVerdict::Accept => match lookup(olds, destination) {
                None => r == ended(Err(TaskError::NoSuchAssociation(destination))) && after.exchange is Idle && news == olds && c1 == c0,
                Some(i) => {
                    let noted = olds[i].pending.observe(response.header.iin);
                    let settled = task.pending_after(
                        noted,
                        response.header.iin,
                        response.objects,
                    );
                    match task.outcome(response.objects) {
                        Err(e) => r == ended(Err(e)) && after.exchange is Idle
                            && changed_at(
                            olds,
                            news,
                            i,
                            olds[i].seq,
                            settled,
                            olds[i].polls@,
                        ) && c1 == c0,
                        Ok(None) => r == ended(Ok(())) && after.exchange is Idle
                            && changed_at(
                            olds,
                            news,
                            i,
                            olds[i].seq,
                            settled,
                            olds[i].polls@,
                        ) && c1 == c0,
                        Ok(Some(next)) => {
                            let bytes = request_bytes(
                                olds[i].seq,
                                next.function_code(),
                                next.body(),
                            );
                            if next.encodable() && fits(c0, bytes.len()) {
                                r == started(destination) && after.exchange == (
                                Exchange::NonRead {
                                    destination,
                                    seq: olds[i].seq,
                                    task: next,
                                }) && changed_at(
                                    olds,
                                    news,
                                    i,
                                    seq_after(olds[i].seq),
                                    settled,
                                    olds[i].polls@,
                                ) && written(c1) == written(c0) + bytes
                            } else {
                                r == ended(Err(TaskError::WriteError)) && after.exchange is Idle && changed_at(
                                    olds,
                                    news,
                                    i,
                                    seq_after(olds[i].seq),
                                    next.pending_after_failure(settled),
                                    olds[i].polls@,
                                )
                            }
                        },
                    }
                },
            },
        }
    })
}

/// How a fragment changes a session with nothing in flight, and what is
/// asked of the caller: an unsolicited fragment is taken, any other dropped.
pub open spec fn idle_stepped(
    before: MasterSession,
    after: MasterSession,
    source: u16,
    response: Response,
    r: Outcome,
) -> bool {
    &&& after.exchange == before.exchange
    &&& after.same_frame(before)
    &&& response.header.function == FunctionCode::UnsolicitedResponse ==> observed(
        before.assocs(),
        after.assocs(),
        source,
        response.header,
    ) && r == (Outcome { unsolicited: lookup(before.assocs(), source) is Some, ..quiet() })
    &&& response.header.function != FunctionCode::UnsolicitedResponse ==> after.assocs()
        == before.assocs() && r == quiet()
}

impl MasterSession {
    /// Starts a read: the request goes out with the association's current
    /// sequence number, and the session then waits for the first fragment.
    pub fn run_read_task(&mut self, destination: u16, task: ReadTask, cursor: &mut scursor::WriteCursor) -> (r:
        Outcome)
        requires
            old(self).exchange is Idle,
        ensures
            final(self).same_frame(*old(self)),
            sent(
                old(self).assocs(),
                final(self).assocs(),
                destination,
                FunctionCode::Read,
                task.request.bytes(),
                *old(cursor),
                *final(cursor),
                send_result(
                    old(self).assocs(),
                    destination,
                    FunctionCode::Read,
                    task.request.bytes(),
                    true,
                    *old(cursor),
                ),
            ),
            match send_result(
                old(self).assocs(),
                destination,
                FunctionCode::Read,
                task.request.bytes(),
                true,
                *old(cursor),
            ) {
                Ok(seq) => r == started(destination) && final(self).exchange == (Exchange::Read {
                    destination,
                    seq,
                    is_first: true,
                    task,
                }),
                Err(e) => r == ended(Err(e)) && final(self).exchange is Idle,
            },
    {
        match self.send_request(destination, &task, cursor) {
            Ok(seq) => {
                self.exchange = Exchange::Read { destination, seq, is_first: true, task };
                Outcome {
                    unsolicited: false,
                    deliver: false,
                    transmit: Some(destination),
                    finished: None,
                    fresh_deadline: true,
                }
            },
            Err(e) => Outcome {
                unsolicited: false,
                deliver: false,
                transmit: None,
                finished: Some(Err(e)),
                fresh_deadline: false,
            },
        }
    }

    /// Starts a task other than a read. A housekeeping task whose request
    /// cannot go out has its flag raised again.
    pub fn run_non_read_task(&mut self, destination: u16, task: NonReadTask, cursor: &mut scursor::WriteCursor) -> (r:
        Outcome)
        requires
            old(self).exchange is Idle,
        ensures
            final(self).same_frame(*old(self)),
            limit(*final(cursor)) == limit(*old(cursor)),
            written(*old(cursor)).is_prefix_of(written(*final(cursor))),
            match send_result(
                old(self).assocs(),
                destination,
                task.function_code(),
                task.body(),
                task.encodable(),
                *old(cursor),
            ) {
                Ok(seq) => r == started(destination) && final(self).exchange == (Exchange::NonRead {
                    destination,
                    seq,
                    task,
                }) && sent(
                    old(self).assocs(),
                    final(self).assocs(),
                    destination,
                    task.function_code(),
                    task.body(),
                    *old(cursor),
                    *final(cursor),
                    Ok(seq),
                ),
                Err(e) => r == ended(Err(e)) && final(self).exchange is Idle && failed_at(
                    old(self).assocs(),
                    final(self).assocs(),
                    destination,
                    true,
                    |p: Pending| task.pending_after_failure(p),
                ),
            },
    {
        match self.send_request(destination, &task, cursor) {
            Ok(seq) => {
                self.exchange = Exchange::NonRead { destination, seq, task };
                Outcome {
                    unsolicited: false,
                    deliver: false,
                    transmit: Some(destination),
                    finished: None,
                    fresh_deadline: true,
                }
            },
            Err(e) => {
                proof {
                    let before = old(self).assocs();
                    if lookup(before, destination) is Some {
                        let k = lookup(before, destination)->0;
                        lemma_lookup_after_change(
                            before,
                            self.assocs(),
                            k,
                            seq_after(before[k].seq),
                            before[k].pending,
                            before[k].polls@,
                            destination,
                        );
                    }
                }
                match self.associations.find(destination) {
                    Some(i) => {
                        task.on_task_error(&mut self.associations.associations[i], e);
                    },
                    None => {},
                }
                Outcome {
                    unsolicited: false,
                    deliver: false,
                    transmit: None,
                    finished: Some(Err(e)),
                    fresh_deadline: false,
                }
            },
        }
    }

    /// Starts the task that the scheduler picked. The session must have
    /// nothing in flight: it runs one solicited exchange at a time.
    pub fn run_task(&mut self, task: AssociationTask, cursor: &mut scursor::WriteCursor) -> (r: Outcome)
        requires
            old(self).exchange is Idle,
        ensures
            final(self).same_frame(*old(self)),
            limit(*final(cursor)) == limit(*old(cursor)),
            written(*old(cursor)).is_prefix_of(written(*final(cursor))),
            match task.details {
                Task::Read(t) => sent(
                    old(self).assocs(),
                    final(self).assocs(),
                    task.address,
                    FunctionCode::Read,
                    t.request.bytes(),
                    *old(cursor),
                    *final(cursor),
                    send_result(
                        old(self).assocs(),
                        task.address,
                        FunctionCode::Read,
                        t.request.bytes(),
                        true,
                        *old(cursor),
                    ),
                ) && (match send_result(
                    old(self).assocs(),
                    task.address,
                    FunctionCode::Read,
                    t.request.bytes(),
                    true,
                    *old(cursor),
                ) {
                    Ok(seq) => r == started(task.address) && final(self).exchange == (Exchange::Read {
                        destination: task.address,
                        seq,
                        is_first: true,
                        task: t,
                    }),
                    Err(e) => r == ended(Err(e)) && final(self).exchange is Idle,
                }),
                Task::NonRead(t) => match send_result(
                    old(self).assocs(),
                    task.address,
                    t.function_code(),
                    t.body(),
                    t.encodable(),
                    *old(cursor),
                ) {
                    Ok(seq) => r == started(task.address) && final(self).exchange == (
                    Exchange::NonRead { destination: task.address, seq, task: t }) && sent(
                        old(self).assocs(),
                        final(self).assocs(),
                        task.address,
                        t.function_code(),
                        t.body(),
                        *old(cursor),
                        *final(cursor),
                        Ok(seq),
                    ),
                    Err(e) => r == ended(Err(e)) && final(self).exchange is Idle && failed_at(
                        old(self).assocs(),
                        final(self).assocs(),
                        task.address,
                        true,
                        |p: Pending| t.pending_after_failure(p),
                    ),
                },
            },
    {
        match task.details {
            Task::Read(t) => self.run_read_task(task.address, t, cursor),
            Task::NonRead(t) => self.run_non_read_task(task.address, t, cursor),
        }
    }

    /// Ends the task in flight with an error that came from outside the
    /// exchange: a missed deadline, a failed link, a closed queue. A
    /// housekeeping task has its flag raised again. The answer is the
    /// error of the run where the error ends the run, too.
    pub fn task_failed(&mut self, err: TaskError) -> (r: Result<(), RunError>)
        ensures
            final(self).exchange is Idle,
            final(self).same_frame(*old(self)),
            r == (match run_error_of(err) {
                Some(e) => Err::<(), RunError>(e),
                None => Ok(()),
            }),
            match old(self).exchange {
                Exchange::NonRead { destination, seq, task } => failed_at(
                    old(self).assocs(),
                    final(self).assocs(),
                    destination,
                    false,
                    |p: Pending| task.pending_after_failure(p),
                ),
                _ => final(self).assocs() == old(self).assocs(),
            },
    {
        let mut ex = Exchange::Idle;
        std::mem::swap(&mut self.exchange, &mut ex);
        match ex {
            Exchange::NonRead { destination, seq, task } => {
                match self.associations.find(destination) {
                    Some(i) => {
                        task.on_task_error(&mut self.associations.associations[i], err);
                    },
                    None => {},
                }
            },
            _ => {},
        }
        match err.to_run_error() {
            Some(e) => Err(e),
            None => Ok(()),
        }
    }

    /// Takes a fragment while a read is in flight.
    ///
    /// A fragment that is accepted and is the last one ends the read: an
    /// integrity poll lowers its flag, a periodic poll is scheduled anew.
    /// An accepted fragment that is not the last one was confirmed; the
    /// read then waits, with a fresh deadline, for the fragment with the
    /// association's next sequence number. Any other fragment leaves the
    /// read as it is, or fails it.
    pub fn execute_read_task(
        &mut self,
        source: u16,
        response: &Response,
        cursor: &mut scursor::WriteCursor,
        now: u64,
    ) -> (r: Outcome)
        requires
            old(self).exchange is Read,
        ensures
            read_stepped(*old(self), *final(self), *old(cursor), *final(cursor), source, *response, now, r),
    {
        let (destination, seq, is_first, task) = match &self.exchange {
            Exchange::Read { destination, seq, is_first, task } => (
                *destination,
                *seq,
                *is_first,
                *task,
            ),
            _ => vstd::pervasive::unreached(),
        };
        let step = self.process_read_response(
            destination,
            is_first,
            seq,
            &task,
            source,
            response,
            cursor,
        );
        let transmit: Option<u16> = if step.confirm {
            Some(destination)
        } else {
            None
        };
        proof {
            let before = old(self).assocs();
            if lookup(before, destination) is Some {
                let k = lookup(before, destination)->0;
                if observed(before, self.assocs(), destination, response.header) {
                    lemma_lookup_after_change(
                        before,
                        self.assocs(),
                        k,
                        before[k].seq,
                        before[k].pending.observe(response.header.iin),
                        before[k].polls@,
                        destination,
                    );
                }
            }
        }
        match step.action {
            Err(e) => {
                self.exchange = Exchange::Idle;
                Outcome {
                    unsolicited: false,
                    deliver: step.deliver,
                    transmit: None,
                    finished: Some(Err(e)),
                    fresh_deadline: false,
                }
            },
            Ok(ReadResponseAction::Ignore) => Outcome {
                unsolicited: step.unsolicited,
                deliver: false,
                transmit: None,
                finished: None,
                fresh_deadline: false,
            },
            Ok(ReadResponseAction::Complete) => {
                self.exchange = Exchange::Idle;
                match self.associations.find(destination) {
                    Some(i) => {
                        self.associations.associations[i].complete_read(task.origin, now);
                        Outcome {
                            unsolicited: false,
                            deliver: true,
                            transmit,
                            finished: Some(Ok(())),
                            fresh_deadline: false,
                        }
                    },
                    None => Outcome {
                        unsolicited: false,
                        deliver: true,
                        transmit,
                        finished: Some(Err(TaskError::NoSuchAssociation(destination))),
                        fresh_deadline: false,
                    },
                }
            },
            Ok(ReadResponseAction::ReadNext) => {
                match self.associations.find(destination) {
                    Some(i) => {
                        let next: Sequence = self.associations.associations[i].increment_seq();
                        self.exchange = Exchange::Read { destination, seq: next, is_first: false, task };
                        Outcome {
                            unsolicited: false,
                            deliver: true,
                            transmit,
                            finished: None,
                            fresh_deadline: true,
                        }
                    },
                    None => {
                        self.exchange = Exchange::Idle;
                        Outcome {
                            unsolicited: false,
                            deliver: true,
                            transmit,
                            finished: Some(Err(TaskError::NoSuchAssociation(destination))),
                            fresh_deadline: false,
                        }
                    },
                }
            },
        }
    }
}

impl MasterSession {
    /// Takes a fragment while a request other than a read is in flight.
    ///
    /// The response must come from the outstation asked, carry the number
    /// of the request and fit in one fragment. Its indications are applied
    /// before the task looks at it. The task then is over, has failed, or
    /// goes on with a further request, which is sent with a fresh sequence
    /// number and awaited with a fresh deadline.
    pub fn continue_non_read_task(
        &mut self,
        source: u16,
        response: &Response,
        cursor: &mut scursor::WriteCursor,
    ) -> (r: Outcome)
        requires
            old(self).exchange is NonRead,
        ensures
            non_read_stepped(*old(self), *final(self), *old(cursor), *final(cursor), source, *response, r),
    {
        let mut ex = Exchange::Idle;
        std::mem::swap(&mut self.exchange, &mut ex);
        let (destination, seq, task) = match ex {
            Exchange::NonRead { destination, seq, task } => (destination, seq, task),
            _ => vstd::pervasive::unreached(),
        };
        let ghost before = old(self).assocs();
        let header = response.header;
        match self.validate_non_read_response(destination, seq, source, response) {
            Err(e) => {
                match self.associations.find(destination) {
                    Some(i) => {
                        task.on_task_error(&mut self.associations.associations[i], e);
                    },
                    None => {},
                }
                Outcome {
                    unsolicited: false,
                    deliver: false,
                    transmit: None,
                    finished: Some(Err(e)),
                    fresh_deadline: false,
                }
            },
            Ok(Screened::Unsolicited { deliver }) => {
                self.exchange = Exchange::NonRead { destination, seq, task };
                Outcome {
                    unsolicited: deliver,
                    deliver: false,
                    transmit: None,
                    finished: None,
                    fresh_deadline: false,
                }
            },
            Ok(Screened::Ignored) => {
                self.exchange = Exchange::NonRead { destination, seq, task };
                Outcome {
                    unsolicited: false,
                    deliver: false,
                    transmit: None,
                    finished: None,
                    fresh_deadline: false,
                }
            },
            Ok(Screened::Accepted) => match self.associations.find(destination) {
                None => Outcome {
                    unsolicited: false,
                    deliver: false,
                    transmit: None,
                    finished: Some(Err(TaskError::NoSuchAssociation(destination))),
                    fresh_deadline: false,
                },
                Some(i) => {
                    let ghost noted = before[i as int].pending.observe(header.iin);
                    let ghost settled = task.pending_after(noted, header.iin, response.objects);
                    self.associations.associations[i].process_iin(header.iin);
                    let handled = task.handle(
                        &mut self.associations.associations[i],
                        header,
                        &response.objects,
                    );
                    proof {
                        assert(changed_at(
                            before,
                            self.assocs(),
                            i as int,
                            before[i as int].seq,
                            settled,
                            before[i as int].polls@,
                        ));
                        lemma_lookup_after_change(
                            before,
                            self.assocs(),
                            i as int,
                            before[i as int].seq,
                            settled,
                            before[i as int].polls@,
                            destination,
                        );
                    }
                    match handled {
                        Err(e) => Outcome {
                            unsolicited: false,
                            deliver: false,
                            transmit: None,
                            finished: Some(Err(e)),
                            fresh_deadline: false,
                        },
                        Ok(None) => Outcome {
                            unsolicited: false,
                            deliver: false,
                            transmit: None,
                            finished: Some(Ok(())),
                            fresh_deadline: false,
                        },
                        Ok(Some(next)) => {
                            let ghost mid = self.assocs();
                            match self.send_request(destination, &next, cursor) {
                                Ok(s) => {
                                    self.exchange = Exchange::NonRead {
                                        destination,
                                        seq: s,
                                        task: next,
                                    };
                                    Outcome {
                                        unsolicited: false,
                                        deliver: false,
                                        transmit: Some(destination),
                                        finished: None,
                                        fresh_deadline: true,
                                    }
                                },
                                Err(e) => {
                                    proof {
                                        lemma_lookup_after_change(
                                            mid,
                                            self.assocs(),
                                            i as int,
                                            seq_after(mid[i as int].seq),
                                            mid[i as int].pending,
                                            mid[i as int].polls@,
                                            destination,
                                        );
                                    }
                                    match self.associations.find(destination) {
                                        Some(k) => {
                                            next.on_task_error(
                                                &mut self.associations.associations[k],
                                                e,
                                            );
                                        },
                                        None => {},
                                    }
                                    Outcome {
                                        unsolicited: false,
                                        deliver: false,
                                        transmit: None,
                                        finished: Some(Err(e)),
                                        fresh_deadline: false,
                                    }
                                },
                            }
                        },
                    }
                },
            },
        }
    }
}

impl MasterSession {
    /// Takes a fragment, whatever the session is doing: it is held against
    /// the read in flight, against the other request in flight, or taken as
    /// one that arrived while the session was idle.
    pub fn handle_fragment(
        &mut self,
        source: u16,
        response: &Response,
        cursor: &mut scursor::WriteCursor,
        now: u64,
    ) -> (r: Outcome)
        ensures
            match old(self).exchange {
                Exchange::Idle => idle_stepped(*old(self), *final(self), source, *response, r)
                    && *final(cursor) == *old(cursor),
                Exchange::Read { .. } => read_stepped(
                    *old(self),
                    *final(self),
                    *old(cursor),
                    *final(cursor),
                    source,
                    *response,
                    now,
                    r,
                ),
                Exchange::NonRead { .. } => non_read_stepped(
                    *old(self),
                    *final(self),
                    *old(cursor),
                    *final(cursor),
                    source,
                    *response,
                    r,
                ),
            },
    {
        if self.is_idle() {
            self.handle_fragment_while_idle(source, response)
        } else if self.is_reading() {
            self.execute_read_task(source, response, cursor, now)
        } else {
            self.continue_non_read_task(source, response, cursor)
        }
    }
}

/// A read fragment ends the read exactly when it is solicited, comes from
/// the outstation asked, carries the awaited number, has its first-fragment
/// bit set just when it is the first, is final, and can be parsed, while
/// the outstation is still registered.
pub proof fn lemma_read_completes(
    destination: u16,
    is_first: bool,
    seq: Sequence,
    source: u16,
    response: Response,
    known: bool,
)
    ensures
        (read_verdict(destination, is_first, seq, source, response, known) matches ReadVerdict::Accept {
            complete,
            ..
        } && complete) <==> (response.header.function != FunctionCode::UnsolicitedResponse && source
            == destination && response.header.control.seq == seq && response.header.control.fir
            == is_first && response.header.control.fin && known && response.objects is Ok),
{
}

/// A read fragment makes the read go on exactly when it is solicited,
/// comes from the outstation asked, carries the awaited number, has its
/// first-fragment bit set just when it is the first, is not final, asks
/// for confirmation, and can be parsed, while the outstation is still
/// registered. The confirmation is then owed.
pub proof fn lemma_read_continues(
    destination: u16,
    is_first: bool,
    seq: Sequence,
    source: u16,
    response: Response,
    known: bool,
)
    ensures
        (read_verdict(destination, is_first, seq, source, response, known) matches ReadVerdict::Accept {
            complete,
            ..
        } && !complete) <==> (response.header.function != FunctionCode::UnsolicitedResponse
            && source == destination && response.header.control.seq == seq
            && response.header.control.fir == is_first && !response.header.control.fin
            && response.header.control.con && known && response.objects is Ok),
        read_verdict(destination, is_first, seq, source, response, known) matches ReadVerdict::Accept {
            complete,
            confirm,
        } ==> complete || confirm,
{
}

/// An unsolicited fragment never ends, fails or advances a read, and a
/// fragment from elsewhere or with another number never does either.
pub proof fn lemma_read_undisturbed(
    destination: u16,
    is_first: bool,
    seq: Sequence,
    source: u16,
    response: Response,
    known: bool,
)
    requires
        response.header.function == FunctionCode::UnsolicitedResponse || source != destination
            || response.header.control.seq != seq,
    ensures
        read_verdict(destination, is_first, seq, source, response, known) is Unsolicited
            || read_verdict(destination, is_first, seq, source, response, known) is Ignore,
{
}

/// A fragment that was accepted as a part of a read, and was not the last,
/// is ignored when it arrives once more: the read by then awaits the next
/// sequence number.
pub proof fn lemma_duplicate_ignored(
    destination: u16,
    is_first: bool,
    seq: Sequence,
    source: u16,
    response: Response,
    known: bool,
)
    requires
        seq.wf(),
        read_verdict(destination, is_first, seq, source, response, known) matches ReadVerdict::Accept {
            complete,
            ..
        } && !complete,
    ensures
        read_verdict(destination, false, seq_after(seq), source, response, known) is Ignore,
{
}

/// A response that was accepted for a request other than a read is ignored
/// for the request that follows it, which goes out with the next number.
pub proof fn lemma_duplicate_response_ignored(
    destination: u16,
    seq: Sequence,
    source: u16,
    header: ResponseHeader,
)
    requires
        seq.wf(),
        non_read_verdict(destination, seq, source, header) is Accept,
    ensures
        non_read_verdict(destination, seq_after(seq), source, header) is Ignore,
{
}

/// The number of a request that follows another differs from it, and
/// sixteen requests in a row bring the number back.
pub proof fn lemma_seq_advances(seq: Sequence)
    requires
        seq.wf(),
    ensures
        seq_after(seq).wf(),
        seq_after(seq) != seq,
        seq_after(seq).value == (seq.value + 1) % 16,
{
}

/// How a read stands after a run of fragments.
pub enum ReadEnd {
    /// The final fragment has arrived.
    Completed,
    /// A fragment broke the rules.
    Failed(TaskError),
    /// The read still waits for a fragment.
    Waiting,
}

/// Where a read that awaits the fragment with number `seq` from
/// `destination` stands after the fragments `frags` arrived in this order,
/// each with its source, the outstation staying registered and its sequence
/// number touched by nothing but the read.
pub open spec fn read_trace(
    destination: u16,
    is_first: bool,
    seq: Sequence,
    frags: Seq<(u16, Response)>,
) -> ReadEnd
    decreases frags.len(),
{
    if frags.len() == 0 {
        ReadEnd::Waiting
    } else {
        match read_verdict(destination, is_first, seq, frags[0].0, frags[0].1, true) {
            ReadVerdict::Unsolicited => read_trace(destination, is_first, seq, frags.skip(1)),
            ReadVerdict::Ignore => read_trace(destination, is_first, seq, frags.skip(1)),
            ReadVerdict::Fail(e) => ReadEnd::Failed(e),
            ReadVerdict::Accept { confirm, complete } => if complete {
                ReadEnd::Completed
            } else {
                read_trace(destination, false, seq_after(seq), frags.skip(1))
            },
        }
    }
}

/// A fragment that is no part of the awaited response: unsolicited, from
/// another outstation, or with another sequence number.
pub open spec fn is_noise(destination: u16, seq: Sequence, fragment: (u16, Response)) -> bool {
    fragment.1.header.function == FunctionCode::UnsolicitedResponse || fragment.0 != destination
        || fragment.1.header.control.seq != seq
}

/// The solicited fragments of a whole response, in order, with any number
/// of fragments that are no part of it before each of them: the first
/// fragment of the response alone has the first-fragment bit, the last
/// alone the final bit, every other asks for confirmation, the sequence
/// numbers count up from `seq`, and every fragment can be parsed.
pub open spec fn orderly(destination: u16, is_first: bool, seq: Sequence, frags: Seq<(u16, Response)>) -> bool
    decreases frags.len(),
{
    frags.len() > 0 && if is_noise(destination, seq, frags[0]) {
        orderly(destination, is_first, seq, frags.skip(1))
    } else {
        let c = frags[0].1.header.control;
        c.fir == is_first && frags[0].1.objects is Ok && if c.fin {
            true
        } else {
            c.con && orderly(destination, false, seq_after(seq), frags.skip(1))
        }
    }
}

/// However unsolicited fragments and fragments from elsewhere are mixed
/// into it, a read completes exactly when the fragments of a whole,
/// well-formed response with the right sequence numbers arrive.
pub proof fn lemma_read_completes_iff_orderly(
    destination: u16,
    is_first: bool,
    seq: Sequence,
    frags: Seq<(u16, Response)>,
)
    ensures
        read_trace(destination, is_first, seq, frags) is Completed <==> orderly(
            destination,
            is_first,
            seq,
            frags,
        ),
    decreases frags.len(),
{
    if frags.len() > 0 {
        lemma_read_completes_iff_orderly(destination, is_first, seq, frags.skip(1));
        lemma_read_completes_iff_orderly(destination, false, seq_after(seq), frags.skip(1));
    }
}

/// A fragment that is no part of the awaited response changes nothing in
/// how the read ends.
pub proof fn lemma_noise_is_skipped(
    destination: u16,
    is_first: bool,
    seq: Sequence,
    noise: (u16, Response),
    frags: Seq<(u16, Response)>,
)
    requires
        is_noise(destination, seq, noise),
    ensures
        read_trace(destination, is_first, seq, seq![noise] + frags) == read_trace(
            destination,
            is_first,
            seq,
            frags,
        ),
{
    assert((seq![noise] + frags).skip(1) =~= frags);
}

} // verus!
