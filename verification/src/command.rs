//! Command requests and the check of the response that echoes them.

use vstd::prelude::*;
use crate::cursor::{appended, le_bytes, lemma_le_bytes_len, limit, step_i16, step_i32, step_u16};
use crate::cursor::{lemma_appended_failed_longer, lemma_appended_then, step_u32, step_u64};
use crate::cursor::{step_u8, written};
use crate::enums::CommandStatus;
use crate::format::{COUNT_AND_PREFIX_16, COUNT_AND_PREFIX_8};
use crate::types::control_code_byte;
use crate::variation::Variation;
use crate::objects::{CommandObject, Group12Var1, Group41Var1, Group41Var2, Group41Var3};
use crate::objects::{Group41Var4, HeaderCollection, HeaderDetails, PrefixedVariation};

verus! {

/// How the response to a command differs from what was sent.
#[derive(Copy, Clone, Debug, PartialEq, Eq, Structural)]
pub enum CommandResponseError {
    HeaderCountMismatch,
    HeaderTypeMismatch,
    ObjectCountMismatch,
    ObjectValueMismatch,
    BadStatus(CommandStatus),
}

/// Command objects of one variation, each with the index it is meant for.
#[derive(Clone, Debug)]
pub enum PrefixedCommandHeader<I> {
    G12V1(Vec<(Group12Var1, I)>),
    G41V1(Vec<(Group41Var1, I)>),
    G41V2(Vec<(Group41Var2, I)>),
    G41V3(Vec<(Group41Var3, I)>),
    G41V4(Vec<(Group41Var4, I)>),
}

impl<I> PrefixedCommandHeader<I> {
    /// The objects of the header with their indices, in order.
    pub open spec fn objects(self) -> Seq<(CommandObject, I)> {
        match self {
            PrefixedCommandHeader::G12V1(v) => v@.map_values(
                |p: (Group12Var1, I)| (CommandObject::G12V1(p.0), p.1),
            ),
            PrefixedCommandHeader::G41V1(v) => v@.map_values(
                |p: (Group41Var1, I)| (CommandObject::G41V1(p.0), p.1),
            ),
            PrefixedCommandHeader::G41V2(v) => v@.map_values(
                |p: (Group41Var2, I)| (CommandObject::G41V2(p.0), p.1),
            ),
            PrefixedCommandHeader::G41V3(v) => v@.map_values(
                |p: (Group41Var3, I)| (CommandObject::G41V3(p.0), p.1),
            ),
            PrefixedCommandHeader::G41V4(v) => v@.map_values(
                |p: (Group41Var4, I)| (CommandObject::G41V4(p.0), p.1),
            ),
        }
    }
}

/// One command header, with one-byte or two-byte indices.
#[derive(Clone, Debug)]
pub enum CommandHeader {
    U8(PrefixedCommandHeader<u8>),
    U16(PrefixedCommandHeader<u16>),
}

/// An index width that command objects can be addressed with.
pub trait Index: Sized + Copy {
    /// The command header that holds objects with indices of this width.
    spec fn wrap(header: PrefixedCommandHeader<Self>) -> CommandHeader;

    fn get_command_header(header: PrefixedCommandHeader<Self>) -> (r: CommandHeader)
        ensures
            r == Self::wrap(header),
    ;

    fn same(&self, other: &Self) -> (r: bool)
        ensures
            r == (*self == *other),
    ;

    /// The bytes of the index in front of an object.
    spec fn index_bytes(&self) -> Seq<u8>;

    /// The largest number of objects that the count field can announce.
    spec fn count_limit() -> nat;

    /// The bytes of the count field for `n` objects.
    spec fn count_bytes(n: nat) -> Seq<u8>;

    /// The qualifier code of a header with a count and prefixes of this width.
    spec fn qualifier() -> u8;

    fn qualifier_code() -> (r: u8)
        ensures
            r == Self::qualifier(),
    ;

    fn count_fits(n: usize) -> (r: bool)
        ensures
            r == (n <= Self::count_limit()),
    ;

    /// Writes the index as one step of a longer write of `total`.
    fn write_index(
        &self,
        cursor: &mut scursor::WriteCursor,
        Ghost(start): Ghost<scursor::WriteCursor>,
        Ghost(done): Ghost<Seq<u8>>,
        Ghost(total): Ghost<Seq<u8>>,
    ) -> (r: Result<(), scursor::WriteError>)
        requires
            appended(start, *old(cursor), true, done),
            (done + self.index_bytes()).len() <= total.len(),
        ensures
            r is Ok ==> appended(start, *final(cursor), true, done + self.index_bytes()),
            r is Err ==> appended(start, *final(cursor), false, total),
    ;

    /// Writes the count field as one step of a longer write of `total`.
    fn write_count(
        n: usize,
        cursor: &mut scursor::WriteCursor,
        Ghost(start): Ghost<scursor::WriteCursor>,
        Ghost(done): Ghost<Seq<u8>>,
        Ghost(total): Ghost<Seq<u8>>,
    ) -> (r: Result<(), scursor::WriteError>)
        requires
            n <= Self::count_limit(),
            appended(start, *old(cursor), true, done),
            (done + Self::count_bytes(n as nat)).len() <= total.len(),
        ensures
            r is Ok ==> appended(start, *final(cursor), true, done + Self::count_bytes(n as nat)),
            r is Err ==> appended(start, *final(cursor), false, total),
    ;
}

impl Index for u8 {
    open spec fn wrap(header: PrefixedCommandHeader<u8>) -> CommandHeader {
        CommandHeader::U8(header)
    }

    fn get_command_header(header: PrefixedCommandHeader<u8>) -> (r: CommandHeader) {
        CommandHeader::U8(header)
    }

    fn same(&self, other: &u8) -> (r: bool) {
        *self == *other
    }

    open spec fn index_bytes(&self) -> Seq<u8> {
        seq![*self]
    }

    open spec fn count_limit() -> nat {
        255
    }

    open spec fn count_bytes(n: nat) -> Seq<u8> {
        seq![n as u8]
    }

    open spec fn qualifier() -> u8 {
        COUNT_AND_PREFIX_8
    }

    fn qualifier_code() -> (r: u8) {
        COUNT_AND_PREFIX_8
    }

    fn count_fits(n: usize) -> (r: bool) {
        n <= 255
    }

    fn write_index(
        &self,
        cursor: &mut scursor::WriteCursor,
        Ghost(start): Ghost<scursor::WriteCursor>,
        Ghost(done): Ghost<Seq<u8>>,
        Ghost(total): Ghost<Seq<u8>>,
    ) -> (r: Result<(), scursor::WriteError>) {
        step_u8(cursor, *self, Ghost(start), Ghost(done), Ghost(total))
    }

    fn write_count(
        n: usize,
        cursor: &mut scursor::WriteCursor,
        Ghost(start): Ghost<scursor::WriteCursor>,
        Ghost(done): Ghost<Seq<u8>>,
        Ghost(total): Ghost<Seq<u8>>,
    ) -> (r: Result<(), scursor::WriteError>) {
        step_u8(cursor, n as u8, Ghost(start), Ghost(done), Ghost(total))
    }
}

impl Index for u16 {
    open spec fn wrap(header: PrefixedCommandHeader<u16>) -> CommandHeader {
        CommandHeader::U16(header)
    }

    fn get_command_header(header: PrefixedCommandHeader<u16>) -> (r: CommandHeader) {
        CommandHeader::U16(header)
    }

    fn same(&self, other: &u16) -> (r: bool) {
        *self == *other
    }

    open spec fn index_bytes(&self) -> Seq<u8> {
        le_bytes(*self as int, 2)
    }

    open spec fn count_limit() -> nat {
        65535
    }

    open spec fn count_bytes(n: nat) -> Seq<u8> {
        le_bytes(n as int, 2)
    }

    open spec fn qualifier() -> u8 {
        COUNT_AND_PREFIX_16
    }

    fn qualifier_code() -> (r: u8) {
        COUNT_AND_PREFIX_16
    }

    fn count_fits(n: usize) -> (r: bool) {
        n <= 65535
    }

    fn write_index(
        &self,
        cursor: &mut scursor::WriteCursor,
        Ghost(start): Ghost<scursor::WriteCursor>,
        Ghost(done): Ghost<Seq<u8>>,
        Ghost(total): Ghost<Seq<u8>>,
    ) -> (r: Result<(), scursor::WriteError>) {
        step_u16(cursor, *self, Ghost(start), Ghost(done), Ghost(total))
    }

    fn write_count(
        n: usize,
        cursor: &mut scursor::WriteCursor,
        Ghost(start): Ghost<scursor::WriteCursor>,
        Ghost(done): Ghost<Seq<u8>>,
        Ghost(total): Ghost<Seq<u8>>,
    ) -> (r: Result<(), scursor::WriteError>) {
        step_u16(cursor, n as u16, Ghost(start), Ghost(done), Ghost(total))
    }
}

/// The bytes of a command object: its fields in order, numbers low byte
/// first, the status last.
pub open spec fn object_bytes(o: CommandObject) -> Seq<u8> {
    match o {
        CommandObject::G12V1(x) => seq![control_code_byte(x.code), x.count] + le_bytes(
            x.on_time as int,
            4,
        ) + le_bytes(x.off_time as int, 4) + seq![x.status.wire()],
        CommandObject::G41V1(x) => le_bytes(x.value as int, 4) + seq![x.status.wire()],
        CommandObject::G41V2(x) => le_bytes(x.value as int, 2) + seq![x.status.wire()],
        CommandObject::G41V3(x) => le_bytes(x.value as int, 4) + seq![x.status.wire()],
        CommandObject::G41V4(x) => le_bytes(x.value as int, 8) + seq![x.status.wire()],
    }
}

/// The variation under which a command object is sent.
pub open spec fn object_variation(o: CommandObject) -> Variation {
    match o {
        CommandObject::G12V1(_) => Variation::Group12Var1,
        CommandObject::G41V1(_) => Variation::Group41Var1,
        CommandObject::G41V2(_) => Variation::Group41Var2,
        CommandObject::G41V3(_) => Variation::Group41Var3,
        CommandObject::G41V4(_) => Variation::Group41Var4,
    }
}

/// An object that can be sent as a command.
pub trait Command: Sized + Copy {
    /// The object, as one of the known command objects.
    spec fn object(&self) -> CommandObject;

    /// The status field of the object.
    spec fn status_of(&self) -> CommandStatus;

    fn status(&self) -> (r: CommandStatus)
        ensures
            r == self.status_of(),
    ;

    fn same(&self, other: &Self) -> (r: bool)
        ensures
            r == (*self == *other),
    ;

    fn to_header<I: Index>(&self, index: I) -> (r: CommandHeader)
        ensures
            exists|h: PrefixedCommandHeader<I>|
                r == I::wrap(h) && h.objects() == seq![(self.object(), index)],
    ;

    fn variation(&self) -> (r: Variation)
        ensures
            r == object_variation(self.object()),
    ;

    /// Writes the object as one step of a longer write of `total`.
    fn write(
        &self,
        cursor: &mut scursor::WriteCursor,
        Ghost(start): Ghost<scursor::WriteCursor>,
        Ghost(done): Ghost<Seq<u8>>,
        Ghost(total): Ghost<Seq<u8>>,
    ) -> (r: Result<(), scursor::WriteError>)
        requires
            appended(start, *old(cursor), true, done),
            (done + object_bytes(self.object())).len() <= total.len(),
        ensures
            r is Ok ==> appended(start, *final(cursor), true, done + object_bytes(self.object())),
            r is Err ==> appended(start, *final(cursor), false, total),
    ;
}

impl Command for Group12Var1 {
    open spec fn object(&self) -> CommandObject {
        CommandObject::G12V1(*self)
    }

    open spec fn status_of(&self) -> CommandStatus {
        self.status
    }

    fn status(&self) -> (r: CommandStatus) {
        self.status
    }

    fn same(&self, other: &Self) -> (r: bool) {
        *self == *other
    }

    fn to_header<I: Index>(&self, index: I) -> (r: CommandHeader) {
        let items: Vec<(Group12Var1, I)> = vec![(*self, index)];
        let header = PrefixedCommandHeader::G12V1(items);
        assert(header.objects() =~= seq![(self.object(), index)]);
        I::get_command_header(header)
    }

    fn variation(&self) -> (r: Variation) {
        Variation::Group12Var1
    }

    fn write(
        &self,
        cursor: &mut scursor::WriteCursor,
        Ghost(start): Ghost<scursor::WriteCursor>,
        Ghost(done): Ghost<Seq<u8>>,
        Ghost(total): Ghost<Seq<u8>>,
    ) -> (r: Result<(), scursor::WriteError>) {
        proof {
            lemma_le_bytes_len(self.on_time as int, 4);
            lemma_le_bytes_len(self.off_time as int, 4);
        }
        let ghost d0 = done;
        step_u8(cursor, self.code.as_u8(), Ghost(start), Ghost(d0), Ghost(total))?;
        let ghost d1 = d0 + seq![control_code_byte(self.code)];
        step_u8(cursor, self.count, Ghost(start), Ghost(d1), Ghost(total))?;
        let ghost d2 = d1 + seq![self.count];
        step_u32(cursor, self.on_time, Ghost(start), Ghost(d2), Ghost(total))?;
        let ghost d3 = d2 + le_bytes(self.on_time as int, 4);
        step_u32(cursor, self.off_time, Ghost(start), Ghost(d3), Ghost(total))?;
        let ghost d4 = d3 + le_bytes(self.off_time as int, 4);
        step_u8(cursor, self.status.as_u8(), Ghost(start), Ghost(d4), Ghost(total))?;
        proof {
            assert(d4 + seq![self.status.wire()] =~= done + object_bytes(self.object()));
        }
        Ok(())
    }
}

impl Command for Group41Var1 {
    open spec fn object(&self) -> CommandObject {
        CommandObject::G41V1(*self)
    }

    open spec fn status_of(&self) -> CommandStatus {
        self.status
    }

    fn status(&self) -> (r: CommandStatus) {
        self.status
    }

    fn same(&self, other: &Self) -> (r: bool) {
        *self == *other
    }

    fn to_header<I: Index>(&self, index: I) -> (r: CommandHeader) {
        let items: Vec<(Group41Var1, I)> = vec![(*self, index)];
        let header = PrefixedCommandHeader::G41V1(items);
        assert(header.objects() =~= seq![(self.object(), index)]);
        I::get_command_header(header)
    }

    fn variation(&self) -> (r: Variation) {
        Variation::Group41Var1
    }

    fn write(
        &self,
        cursor: &mut scursor::WriteCursor,
        Ghost(start): Ghost<scursor::WriteCursor>,
        Ghost(done): Ghost<Seq<u8>>,
        Ghost(total): Ghost<Seq<u8>>,
    ) -> (r: Result<(), scursor::WriteError>) {
        proof {
            lemma_le_bytes_len(self.value as int, 4);
        }
        let ghost d0 = done;
        step_i32(cursor, self.value, Ghost(start), Ghost(d0), Ghost(total))?;
        let ghost d1 = d0 + le_bytes(self.value as int, 4);
        step_u8(cursor, self.status.as_u8(), Ghost(start), Ghost(d1), Ghost(total))?;
        proof {
            assert(d1 + seq![self.status.wire()] =~= done + object_bytes(self.object()));
        }
        Ok(())
    }
}

impl Command for Group41Var2 {
    open spec fn object(&self) -> CommandObject {
        CommandObject::G41V2(*self)
    }

    open spec fn status_of(&self) -> CommandStatus {
        self.status
    }

    fn status(&self) -> (r: CommandStatus) {
        self.status
    }

    fn same(&self, other: &Self) -> (r: bool) {
        *self == *other
    }

    fn to_header<I: Index>(&self, index: I) -> (r: CommandHeader) {
        let items: Vec<(Group41Var2, I)> = vec![(*self, index)];
        let header = PrefixedCommandHeader::G41V2(items);
        assert(header.objects() =~= seq![(self.object(), index)]);
        I::get_command_header(header)
    }

    fn variation(&self) -> (r: Variation) {
        Variation::Group41Var2
    }

    fn write(
        &self,
        cursor: &mut scursor::WriteCursor,
        Ghost(start): Ghost<scursor::WriteCursor>,
        Ghost(done): Ghost<Seq<u8>>,
        Ghost(total): Ghost<Seq<u8>>,
    ) -> (r: Result<(), scursor::WriteError>) {
        proof {
            lemma_le_bytes_len(self.value as int, 2);
        }
        let ghost d0 = done;
        step_i16(cursor, self.value, Ghost(start), Ghost(d0), Ghost(total))?;
        let ghost d1 = d0 + le_bytes(self.value as int, 2);
        step_u8(cursor, self.status.as_u8(), Ghost(start), Ghost(d1), Ghost(total))?;
        proof {
            assert(d1 + seq![self.status.wire()] =~= done + object_bytes(self.object()));
        }
        Ok(())
    }
}

impl Command for Group41Var3 {
    open spec fn object(&self) -> CommandObject {
        CommandObject::G41V3(*self)
    }

    open spec fn status_of(&self) -> CommandStatus {
        self.status
    }

    fn status(&self) -> (r: CommandStatus) {
        self.status
    }

    fn same(&self, other: &Self) -> (r: bool) {
        *self == *other
    }

    fn to_header<I: Index>(&self, index: I) -> (r: CommandHeader) {
        let items: Vec<(Group41Var3, I)> = vec![(*self, index)];
        let header = PrefixedCommandHeader::G41V3(items);
        assert(header.objects() =~= seq![(self.object(), index)]);
        I::get_command_header(header)
    }

    fn variation(&self) -> (r: Variation) {
        Variation::Group41Var3
    }

    fn write(
        &self,
        cursor: &mut scursor::WriteCursor,
        Ghost(start): Ghost<scursor::WriteCursor>,
        Ghost(done): Ghost<Seq<u8>>,
        Ghost(total): Ghost<Seq<u8>>,
    ) -> (r: Result<(), scursor::WriteError>) {
        proof {
            lemma_le_bytes_len(self.value as int, 4);
        }
        let ghost d0 = done;
        step_u32(cursor, self.value, Ghost(start), Ghost(d0), Ghost(total))?;
        let ghost d1 = d0 + le_bytes(self.value as int, 4);
        step_u8(cursor, self.status.as_u8(), Ghost(start), Ghost(d1), Ghost(total))?;
        proof {
            assert(d1 + seq![self.status.wire()] =~= done + object_bytes(self.object()));
        }
        Ok(())
    }
}

impl Command for Group41Var4 {
    open spec fn object(&self) -> CommandObject {
        CommandObject::G41V4(*self)
    }

    open spec fn status_of(&self) -> CommandStatus {
        self.status
    }

    fn status(&self) -> (r: CommandStatus) {
        self.status
    }

    fn same(&self, other: &Self) -> (r: bool) {
        *self == *other
    }

    fn to_header<I: Index>(&self, index: I) -> (r: CommandHeader) {
        let items: Vec<(Group41Var4, I)> = vec![(*self, index)];
        let header = PrefixedCommandHeader::G41V4(items);
        assert(header.objects() =~= seq![(self.object(), index)]);
        I::get_command_header(header)
    }

    fn variation(&self) -> (r: Variation) {
        Variation::Group41Var4
    }

    fn write(
        &self,
        cursor: &mut scursor::WriteCursor,
        Ghost(start): Ghost<scursor::WriteCursor>,
        Ghost(done): Ghost<Seq<u8>>,
        Ghost(total): Ghost<Seq<u8>>,
    ) -> (r: Result<(), scursor::WriteError>) {
        proof {
            lemma_le_bytes_len(self.value as int, 8);
        }
        let ghost d0 = done;
        step_u64(cursor, self.value, Ghost(start), Ghost(d0), Ghost(total))?;
        let ghost d1 = d0 + le_bytes(self.value as int, 8);
        step_u8(cursor, self.status.as_u8(), Ghost(start), Ghost(d1), Ghost(total))?;
        proof {
            assert(d1 + seq![self.status.wire()] =~= done + object_bytes(self.object()));
        }
        Ok(())
    }
}

/// The verdict on received objects against sent ones, from position `i` on:
/// the first position that differs decides. A missing or surplus received
/// object is a count mismatch; a received status other than success is
/// reported before any difference in value.
pub open spec fn items_outcome<V: Command, I: Index>(
    received: Seq<(V, I)>,
    sent: Seq<(V, I)>,
    i: int,
) -> Result<(), CommandResponseError>
    decreases sent.len() - i,
{
    if i < 0 || i >= sent.len() {
        if received.len() > sent.len() {
            Err(CommandResponseError::ObjectCountMismatch)
        } else {
            Ok(())
        }
    } else if i >= received.len() {
        Err(CommandResponseError::ObjectCountMismatch)
    } else if received[i].0.status_of() != CommandStatus::Success {
        Err(CommandResponseError::BadStatus(received[i].0.status_of()))
    } else if received[i] != sent[i] {
        Err(CommandResponseError::ObjectValueMismatch)
    } else {
        items_outcome(received, sent, i + 1)
    }
}

/// The verdict on one received header against the header that was sent: the
/// index width and the variation must agree, then the objects are compared.
pub open spec fn header_outcome(sent: CommandHeader, response: HeaderDetails) -> Result<
    (),
    CommandResponseError,
> {
    match (sent, response) {
        (
            CommandHeader::U8(PrefixedCommandHeader::G12V1(s)),
            HeaderDetails::OneByteCountAndPrefix(_, PrefixedVariation::Group12Var1(r)),
        ) => items_outcome(r@, s@, 0),
        (
            CommandHeader::U16(PrefixedCommandHeader::G12V1(s)),
            HeaderDetails::TwoByteCountAndPrefix(_, PrefixedVariation::Group12Var1(r)),
        ) => items_outcome(r@, s@, 0),
        (
            CommandHeader::U8(PrefixedCommandHeader::G41V1(s)),
            HeaderDetails::OneByteCountAndPrefix(_, PrefixedVariation::Group41Var1(r)),
        ) => items_outcome(r@, s@, 0),
        (
            CommandHeader::U16(PrefixedCommandHeader::G41V1(s)),
            HeaderDetails::TwoByteCountAndPrefix(_, PrefixedVariation::Group41Var1(r)),
        ) => items_outcome(r@, s@, 0),
        (
            CommandHeader::U8(PrefixedCommandHeader::G41V2(s)),
            HeaderDetails::OneByteCountAndPrefix(_, PrefixedVariation::Group41Var2(r)),
        ) => items_outcome(r@, s@, 0),
        (
            CommandHeader::U16(PrefixedCommandHeader::G41V2(s)),
            HeaderDetails::TwoByteCountAndPrefix(_, PrefixedVariation::Group41Var2(r)),
        ) => items_outcome(r@, s@, 0),
        (
            CommandHeader::U8(PrefixedCommandHeader::G41V3(s)),
            HeaderDetails::OneByteCountAndPrefix(_, PrefixedVariation::Group41Var3(r)),
        ) => items_outcome(r@, s@, 0),
        (
            CommandHeader::U16(PrefixedCommandHeader::G41V3(s)),
            HeaderDetails::TwoByteCountAndPrefix(_, PrefixedVariation::Group41Var3(r)),
        ) => items_outcome(r@, s@, 0),
        (
            CommandHeader::U8(PrefixedCommandHeader::G41V4(s)),
            HeaderDetails::OneByteCountAndPrefix(_, PrefixedVariation::Group41Var4(r)),
        ) => items_outcome(r@, s@, 0),
        (
            CommandHeader::U16(PrefixedCommandHeader::G41V4(s)),
            HeaderDetails::TwoByteCountAndPrefix(_, PrefixedVariation::Group41Var4(r)),
        ) => items_outcome(r@, s@, 0),
        _ => Err(CommandResponseError::HeaderTypeMismatch),
    }
}

/// The verdict on the received headers against the sent ones, from position
/// `i` on: every sent header needs its received counterpart, the first
/// failing pair decides, and a surplus received header is a count mismatch.
pub open spec fn headers_outcome(sent: Seq<CommandHeader>, received: Seq<HeaderDetails>, i: int) -> Result<
    (),
    CommandResponseError,
>
    decreases sent.len() - i,
{
    if i < 0 || i >= sent.len() {
        if received.len() > sent.len() {
            Err(CommandResponseError::HeaderCountMismatch)
        } else {
            Ok(())
        }
    } else if i >= received.len() {
        Err(CommandResponseError::HeaderCountMismatch)
    } else if header_outcome(sent[i], received[i]) is Err {
        header_outcome(sent[i], received[i])
    } else {
        headers_outcome(sent, received, i + 1)
    }
}

impl CommandHeader {
    /// Compares the objects of a received header with the sent ones.
    pub fn compare_items<V: Command, I: Index>(received: &Vec<(V, I)>, sent: &Vec<(V, I)>) -> (r:
        Result<(), CommandResponseError>)
        ensures
            r == items_outcome(received@, sent@, 0),
    {
        let mut i: usize = 0;
        while i < sent.len()
            invariant
                0 <= i <= sent.len(),
                items_outcome(received@, sent@, 0) == items_outcome(received@, sent@, i as int),
            decreases sent.len() - i,
        {
            if i >= received.len() {
                return Err(CommandResponseError::ObjectCountMismatch);
            }
            let x: &(V, I) = &received[i];
            let item: &(V, I) = &sent[i];
            let status: CommandStatus = x.0.status();
            if status != CommandStatus::Success {
                return Err(CommandResponseError::BadStatus(status));
            }
            if !(x.0.same(&item.0) && x.1.same(&item.1)) {
                return Err(CommandResponseError::ObjectValueMismatch);
            }
            i = i + 1;
        }
        if received.len() > sent.len() {
            return Err(CommandResponseError::ObjectCountMismatch);
        }
        Ok(())
    }

    /// Compares one received header with this sent header.
    pub fn compare(&self, response: &HeaderDetails) -> (r: Result<(), CommandResponseError>)
        ensures
            r == header_outcome(*self, *response),
    {
        match self {
            CommandHeader::U8(PrefixedCommandHeader::G12V1(items)) => match response {
                HeaderDetails::OneByteCountAndPrefix(_, PrefixedVariation::Group12Var1(seq)) => {
                    Self::compare_items(seq, items)
                },
                _ => Err(CommandResponseError::HeaderTypeMismatch),
            },
            CommandHeader::U16(PrefixedCommandHeader::G12V1(items)) => match response {
                HeaderDetails::TwoByteCountAndPrefix(_, PrefixedVariation::Group12Var1(seq)) => {
                    Self::compare_items(seq, items)
                },
                _ => Err(CommandResponseError::HeaderTypeMismatch),
            },
            CommandHeader::U8(PrefixedCommandHeader::G41V1(items)) => match response {
                HeaderDetails::OneByteCountAndPrefix(_, PrefixedVariation::Group41Var1(seq)) => {
                    Self::compare_items(seq, items)
                },
                _ => Err(CommandResponseError::HeaderTypeMismatch),
            },
            CommandHeader::U16(PrefixedCommandHeader::G41V1(items)) => match response {
                HeaderDetails::TwoByteCountAndPrefix(_, PrefixedVariation::Group41Var1(seq)) => {
                    Self::compare_items(seq, items)
                },
                _ => Err(CommandResponseError::HeaderTypeMismatch),
            },
            CommandHeader::U8(PrefixedCommandHeader::G41V2(items)) => match response {
                HeaderDetails::OneByteCountAndPrefix(_, PrefixedVariation::Group41Var2(seq)) => {
                    Self::compare_items(seq, items)
                },
                _ => Err(CommandResponseError::HeaderTypeMismatch),
            },
            CommandHeader::U16(PrefixedCommandHeader::G41V2(items)) => match response {
                HeaderDetails::TwoByteCountAndPrefix(_, PrefixedVariation::Group41Var2(seq)) => {
                    Self::compare_items(seq, items)
                },
                _ => Err(CommandResponseError::HeaderTypeMismatch),
            },
            CommandHeader::U8(PrefixedCommandHeader::G41V3(items)) => match response {
                HeaderDetails::OneByteCountAndPrefix(_, PrefixedVariation::Group41Var3(seq)) => {
                    Self::compare_items(seq, items)
                },
                _ => Err(CommandResponseError::HeaderTypeMismatch),
            },
            CommandHeader::U16(PrefixedCommandHeader::G41V3(items)) => match response {
                HeaderDetails::TwoByteCountAndPrefix(_, PrefixedVariation::Group41Var3(seq)) => {
                    Self::compare_items(seq, items)
                },
                _ => Err(CommandResponseError::HeaderTypeMismatch),
            },
            CommandHeader::U8(PrefixedCommandHeader::G41V4(items)) => match response {
                HeaderDetails::OneByteCountAndPrefix(_, PrefixedVariation::Group41Var4(seq)) => {
                    Self::compare_items(seq, items)
                },
                _ => Err(CommandResponseError::HeaderTypeMismatch),
            },
            CommandHeader::U16(PrefixedCommandHeader::G41V4(items)) => match response {
                HeaderDetails::TwoByteCountAndPrefix(_, PrefixedVariation::Group41Var4(seq)) => {
                    Self::compare_items(seq, items)
                },
                _ => Err(CommandResponseError::HeaderTypeMismatch),
            },
        }
    }
}

/// The headers of one command request, in the order they are sent.
#[derive(Clone, Debug)]
pub struct CommandHeaders {
    pub headers: Vec<CommandHeader>,
}

impl CommandHeaders {
    /// Compares the headers of a response with the headers that were sent.
    pub fn compare(&self, headers: &HeaderCollection) -> (r: Result<(), CommandResponseError>)
        ensures
            r == headers_outcome(self.headers@, headers.headers@, 0),
    {
        let mut i: usize = 0;
        while i < self.headers.len()
            invariant
                0 <= i <= self.headers.len(),
                headers_outcome(self.headers@, headers.headers@, 0) == headers_outcome(
                    self.headers@,
                    headers.headers@,
                    i as int,
                ),
            decreases self.headers.len() - i,
        {
            if i >= headers.headers.len() {
                return Err(CommandResponseError::HeaderCountMismatch);
            }
            let one = self.headers[i].compare(&headers.headers[i]);
            if let Err(e) = one {
                return Err(e);
            }
            i = i + 1;
        }
        if headers.headers.len() > self.headers.len() {
            return Err(CommandResponseError::HeaderCountMismatch);
        }
        Ok(())
    }
}

/// Collects the headers of a command request.
pub struct CommandBuilder {
    pub headers: Vec<CommandHeader>,
}

impl CommandBuilder {
    pub fn new() -> (r: CommandBuilder)
        ensures
            r.headers@.len() == 0,
    {
        CommandBuilder { headers: Vec::new() }
    }

    /// Appends a header that holds `command` alone, at `index`.
    pub fn add<C: Command, I: Index>(&mut self, command: C, index: I)
        ensures
            final(self).headers@.len() == old(self).headers@.len() + 1,
            final(self).headers@.drop_last() == old(self).headers@,
            exists|h: PrefixedCommandHeader<I>|
                final(self).headers@.last() == I::wrap(h) && h.objects() == seq![(command.object(), index)],
    {
        let header = command.to_header(index);
        self.headers.push(header);
        assert(self.headers@.drop_last() =~= old(self).headers@);
    }

    /// The request that holds `command` alone, at `index`.
    pub fn single<C: Command, I: Index>(command: C, index: I) -> (r: CommandHeaders)
        ensures
            r.headers@.len() == 1,
            exists|h: PrefixedCommandHeader<I>|
                r.headers@[0] == I::wrap(h) && h.objects() == seq![(command.object(), index)],
    {
        let mut builder = CommandBuilder::new();
        builder.add(command, index);
        builder.build()
    }

    pub fn build(self) -> (r: CommandHeaders)
        ensures
            r.headers == self.headers,
    {
        CommandHeaders { headers: self.headers }
    }
}

impl Default for CommandBuilder {
    fn default() -> (r: CommandBuilder)
        ensures
            r.headers@.len() == 0,
    {
        CommandBuilder::new()
    }
}

/// Why a request could not be encoded.
#[derive(Copy, Clone, Debug, PartialEq, Eq, Structural)]
pub enum EncodeError {
    /// The request does not fit in the transmit buffer.
    BufferFull,
    /// A header holds more objects than its count field can announce.
    TooManyObjects,
}

/// The bytes of objects with their index prefixes, in order.
pub open spec fn items_bytes<V: Command, I: Index>(items: Seq<(V, I)>) -> Seq<u8>
    decreases items.len(),
{
    if items.len() == 0 {
        Seq::empty()
    } else {
        items_bytes(items.drop_last()) + items.last().1.index_bytes() + object_bytes(
            items.last().0.object(),
        )
    }
}

/// The bytes of a header with a count and index prefixes: group, variation,
/// qualifier and count, then the objects.
pub open spec fn prefixed_bytes<V: Command, I: Index>(variation: Variation, items: Seq<(V, I)>) -> Seq<
    u8,
> {
    seq![variation.group_var().0, variation.group_var().1, I::qualifier()] + I::count_bytes(
        items.len(),
    ) + items_bytes(items)
}

proof fn lemma_items_bytes_grow<V: Command, I: Index>(items: Seq<(V, I)>, i: int)
    requires
        0 <= i <= items.len(),
    ensures
        items_bytes(items.take(i)).len() <= items_bytes(items).len(),
    decreases items.len() - i,
{
    if i < items.len() {
        lemma_items_bytes_grow(items, i + 1);
        assert(items.take(i + 1).drop_last() =~= items.take(i));
    } else {
        assert(items.take(i) =~= items);
    }
}

/// Writes a header with a count and index prefixes for objects of `variation`.
fn write_prefixed_items<V: Command, I: Index>(
    cursor: &mut scursor::WriteCursor,
    variation: Variation,
    items: &Vec<(V, I)>,
) -> (r: Result<(), scursor::WriteError>)
    requires
        items@.len() <= I::count_limit(),
    ensures
        appended(*old(cursor), *final(cursor), r is Ok, prefixed_bytes(variation, items@)),
{
    let ghost start = *cursor;
    let ghost total = prefixed_bytes(variation, items@);
    let ghost head = seq![variation.group_var().0, variation.group_var().1, I::qualifier()];
    let gv: (u8, u8) = variation.to_group_and_var();
    let ghost d0 = Seq::<u8>::empty();
    let ghost d1 = d0 + seq![gv.0];
    let ghost d2 = d1 + seq![gv.1];
    step_u8(cursor, gv.0, Ghost(start), Ghost(d0), Ghost(total))?;
    step_u8(cursor, gv.1, Ghost(start), Ghost(d1), Ghost(total))?;
    step_u8(cursor, I::qualifier_code(), Ghost(start), Ghost(d2), Ghost(total))?;
    proof {
        assert(d2 + seq![I::qualifier()] =~= head);
    }
    I::write_count(items.len(), cursor, Ghost(start), Ghost(head), Ghost(total))?;
    let ghost front = head + I::count_bytes(items@.len());
    let mut i: usize = 0;
    proof {
        assert(items@.take(0) =~= Seq::empty());
        assert(front + items_bytes(items@.take(0)) =~= front);
    }
    while i < items.len()
        invariant
            0 <= i <= items.len(),
            start == *old(cursor),
            total == prefixed_bytes(variation, items@),
            total == front + items_bytes(items@),
            appended(start, *cursor, true, front + items_bytes(items@.take(i as int))),
        decreases items.len() - i,
    {
        let ghost done = front + items_bytes(items@.take(i as int));
        let item: &(V, I) = &items[i];
        proof {
            lemma_items_bytes_grow(items@, i + 1);
            assert(items@.take(i + 1).drop_last() =~= items@.take(i as int));
            assert(items@.take(i + 1).last() == items@[i as int]);
            assert(front + items_bytes(items@.take(i + 1)) =~= done + item.1.index_bytes()
                + object_bytes(item.0.object()));
        }
        item.1.write_index(cursor, Ghost(start), Ghost(done), Ghost(total))?;
        item.0.write(cursor, Ghost(start), Ghost(done + item.1.index_bytes()), Ghost(total))?;
        i = i + 1;
    }
    proof {
        assert(items@.take(i as int) =~= items@);
    }
    Ok(())
}

impl<I: Index> PrefixedCommandHeader<I> {
    /// The number of objects in the header.
    pub open spec fn count(self) -> nat {
        self.objects().len()
    }

    /// The bytes of the header on the wire.
    pub open spec fn bytes(self) -> Seq<u8> {
        match self {
            PrefixedCommandHeader::G12V1(v) => prefixed_bytes(Variation::Group12Var1, v@),
            PrefixedCommandHeader::G41V1(v) => prefixed_bytes(Variation::Group41Var1, v@),
            PrefixedCommandHeader::G41V2(v) => prefixed_bytes(Variation::Group41Var2, v@),
            PrefixedCommandHeader::G41V3(v) => prefixed_bytes(Variation::Group41Var3, v@),
            PrefixedCommandHeader::G41V4(v) => prefixed_bytes(Variation::Group41Var4, v@),
        }
    }

    /// Whether the count field can announce the objects of the header.
    pub fn count_ok(&self) -> (r: bool)
        ensures
            r == (self.count() <= I::count_limit()),
    {
        match self {
            PrefixedCommandHeader::G12V1(v) => I::count_fits(v.len()),
            PrefixedCommandHeader::G41V1(v) => I::count_fits(v.len()),
            PrefixedCommandHeader::G41V2(v) => I::count_fits(v.len()),
            PrefixedCommandHeader::G41V3(v) => I::count_fits(v.len()),
            PrefixedCommandHeader::G41V4(v) => I::count_fits(v.len()),
        }
    }

    pub fn write(&self, cursor: &mut scursor::WriteCursor) -> (r: Result<(), scursor::WriteError>)
        requires
            self.count() <= I::count_limit(),
        ensures
            appended(*old(cursor), *final(cursor), r is Ok, self.bytes()),
    {
        match self {
            PrefixedCommandHeader::G12V1(v) => write_prefixed_items(cursor, Variation::Group12Var1, v),
            PrefixedCommandHeader::G41V1(v) => write_prefixed_items(cursor, Variation::Group41Var1, v),
            PrefixedCommandHeader::G41V2(v) => write_prefixed_items(cursor, Variation::Group41Var2, v),
            PrefixedCommandHeader::G41V3(v) => write_prefixed_items(cursor, Variation::Group41Var3, v),
            PrefixedCommandHeader::G41V4(v) => write_prefixed_items(cursor, Variation::Group41Var4, v),
        }
    }
}

/// The bytes of command headers, one after the other.
pub open spec fn headers_bytes(headers: Seq<CommandHeader>) -> Seq<u8>
    decreases headers.len(),
{
    if headers.len() == 0 {
        Seq::empty()
    } else {
        headers_bytes(headers.drop_last()) + headers.last().bytes()
    }
}

/// Whether every header can announce its objects in its count field.
pub open spec fn headers_encodable(headers: Seq<CommandHeader>) -> bool {
    forall|i: int| 0 <= i < headers.len() ==> (#[trigger] headers[i]).encodable()
}

proof fn lemma_headers_bytes_grow(headers: Seq<CommandHeader>, i: int)
    requires
        0 <= i <= headers.len(),
    ensures
        headers_bytes(headers.take(i)).len() <= headers_bytes(headers).len(),
    decreases headers.len() - i,
{
    if i < headers.len() {
        lemma_headers_bytes_grow(headers, i + 1);
        assert(headers.take(i + 1).drop_last() =~= headers.take(i));
    } else {
        assert(headers.take(i) =~= headers);
    }
}

impl CommandHeader {
    /// The bytes of the header on the wire.
    pub open spec fn bytes(self) -> Seq<u8> {
        match self {
            CommandHeader::U8(h) => h.bytes(),
            CommandHeader::U16(h) => h.bytes(),
        }
    }

    /// Whether the count field can announce the objects of the header.
    pub open spec fn encodable(self) -> bool {
        match self {
            CommandHeader::U8(h) => h.count() <= 255,
            CommandHeader::U16(h) => h.count() <= 65535,
        }
    }

    pub fn count_ok(&self) -> (r: bool)
        ensures
            r == self.encodable(),
    {
        match self {
            CommandHeader::U8(h) => h.count_ok(),
            CommandHeader::U16(h) => h.count_ok(),
        }
    }

    pub fn write(&self, cursor: &mut scursor::WriteCursor) -> (r: Result<(), scursor::WriteError>)
        requires
            self.encodable(),
        ensures
            appended(*old(cursor), *final(cursor), r is Ok, self.bytes()),
    {
        match self {
            CommandHeader::U8(header) => header.write(cursor),
            CommandHeader::U16(header) => header.write(cursor),
        }
    }
}

impl CommandHeaders {
    /// The bytes of the headers on the wire.
    pub open spec fn bytes(self) -> Seq<u8> {
        headers_bytes(self.headers@)
    }

    /// Whether every header can announce its objects.
    pub fn count_ok(&self) -> (r: bool)
        ensures
            r == headers_encodable(self.headers@),
    {
        let mut i: usize = 0;
        while i < self.headers.len()
            invariant
                0 <= i <= self.headers.len(),
                forall|j: int| 0 <= j < i ==> (#[trigger] self.headers@[j]).encodable(),
            decreases self.headers.len() - i,
        {
            if !self.headers[i].count_ok() {
                return false;
            }
            i = i + 1;
        }
        true
    }

    /// Writes the headers in order. A header with more objects than its
    /// count field can announce is refused before anything is written.
    pub fn write(&self, cursor: &mut scursor::WriteCursor) -> (r: Result<(), EncodeError>)
        ensures
            !headers_encodable(self.headers@) ==> r == Err::<(), EncodeError>(
                EncodeError::TooManyObjects,
            ) && written(*final(cursor)) == written(*old(cursor)) && limit(*final(cursor)) == limit(
                *old(cursor),
            ),
            headers_encodable(self.headers@) ==> appended(
                *old(cursor),
                *final(cursor),
                r is Ok,
                self.bytes(),
            ) && (r is Err ==> r == Err::<(), EncodeError>(EncodeError::BufferFull)),
    {
        if !self.count_ok() {
            return Err(EncodeError::TooManyObjects);
        }
        let ghost start = *cursor;
        let ghost total = self.bytes();
        let mut i: usize = 0;
        proof {
            assert(self.headers@.take(0) =~= Seq::empty());
        }
        while i < self.headers.len()
            invariant
                0 <= i <= self.headers.len(),
                start == *old(cursor),
                headers_encodable(self.headers@),
                total == headers_bytes(self.headers@),
                appended(start, *cursor, true, headers_bytes(self.headers@.take(i as int))),
            decreases self.headers.len() - i,
        {
            let ghost mid = *cursor;
            let ghost done = headers_bytes(self.headers@.take(i as int));
            let one = self.headers[i].write(cursor);
            proof {
                lemma_headers_bytes_grow(self.headers@, i + 1);
                assert(self.headers@.take(i + 1).drop_last() =~= self.headers@.take(i as int));
                assert(self.headers@.take(i + 1).last() == self.headers@[i as int]);
                lemma_appended_then(
                    start,
                    mid,
                    *cursor,
                    one is Ok,
                    done,
                    self.headers@[i as int].bytes(),
                );
            }
            if one.is_err() {
                proof {
                    lemma_appended_failed_longer(
                        start,
                        *cursor,
                        done + self.headers@[i as int].bytes(),
                        total,
                    );
                }
                return Err(EncodeError::BufferFull);
            }
            i = i + 1;
        }
        proof {
            assert(self.headers@.take(i as int) =~= self.headers@);
        }
        Ok(())
    }
}

} // verus!
