//! Command objects and the parsed form of received object headers.

use vstd::prelude::*;
use crate::cursor::{reader, take_u8, unread};
use crate::enums::CommandStatus;
use crate::types::ControlCode;
use crate::variation::Variation;

verus! {

/// Binary input event without time.
#[derive(Copy, Clone, Debug, PartialEq, Eq, Structural)]
pub struct Group2Var1 {
    pub flags: u8,
}

/// Control relay output block.
#[derive(Copy, Clone, Debug, PartialEq, Eq, Structural)]
pub struct Group12Var1 {
    pub code: ControlCode,
    pub count: u8,
    pub on_time: u32,
    pub off_time: u32,
    pub status: CommandStatus,
}

/// Analog output, 32-bit integer.
#[derive(Copy, Clone, Debug, PartialEq, Eq, Structural)]
pub struct Group41Var1 {
    pub value: i32,
    pub status: CommandStatus,
}

/// Analog output, 16-bit integer.
#[derive(Copy, Clone, Debug, PartialEq, Eq, Structural)]
pub struct Group41Var2 {
    pub value: i16,
    pub status: CommandStatus,
}

/// Analog output, single precision. `value` holds the bits of the number.
#[derive(Copy, Clone, Debug, PartialEq, Eq, Structural)]
pub struct Group41Var3 {
    pub value: u32,
    pub status: CommandStatus,
}

/// Analog output, double precision. `value` holds the bits of the number.
#[derive(Copy, Clone, Debug, PartialEq, Eq, Structural)]
pub struct Group41Var4 {
    pub value: u64,
    pub status: CommandStatus,
}

/// Any one command object.
#[derive(Copy, Clone, Debug, PartialEq, Eq, Structural)]
pub enum CommandObject {
    G12V1(Group12Var1),
    G41V1(Group41Var1),
    G41V2(Group41Var2),
    G41V3(Group41Var3),
    G41V4(Group41Var4),
}

/// Received objects that carry an index prefix.
#[derive(Clone, Debug)]
pub enum PrefixedVariation<I> {
    Group12Var1(Vec<(Group12Var1, I)>),
    Group41Var1(Vec<(Group41Var1, I)>),
    Group41Var2(Vec<(Group41Var2, I)>),
    Group41Var3(Vec<(Group41Var3, I)>),
    Group41Var4(Vec<(Group41Var4, I)>),
    Other(Variation),
}

/// One received object header, already parsed.
#[derive(Clone, Debug)]
pub enum HeaderDetails {
    AllObjects(Variation),
    OneByteStartStop(u8, u8, Variation),
    TwoByteStartStop(u16, u16, Variation),
    OneByteCountAndPrefix(u8, PrefixedVariation<u8>),
    TwoByteCountAndPrefix(u16, PrefixedVariation<u16>),
}

/// The object headers of one fragment, in the order received.
#[derive(Clone, Debug)]
pub struct HeaderCollection {
    pub headers: Vec<HeaderDetails>,
}

impl HeaderCollection {
    pub fn new(headers: Vec<HeaderDetails>) -> (r: HeaderCollection)
        ensures
            r.headers == headers,
    {
        HeaderCollection { headers }
    }

    pub fn empty() -> (r: HeaderCollection)
        ensures
            r.headers@.len() == 0,
    {
        HeaderCollection { headers: Vec::new() }
    }

    pub fn is_empty(&self) -> (r: bool)
        ensures
            r == (self.headers@.len() == 0),
    {
        self.headers.len() == 0
    }
}

/// Why the objects of a fragment could not be parsed.
#[derive(Copy, Clone, Debug, PartialEq, Eq, Structural)]
pub enum ObjectParseError {
    UnknownGroupVariation(u8, u8),
    UnknownQualifier(u8),
    InsufficientBytes,
    InvalidRange,
}

/// An object whose encoding has a fixed number of bytes.
pub trait FixedSizeVariation: Sized {
    /// The number of bytes of one object.
    spec fn size() -> nat;

    /// The object that the first `size()` bytes of `bytes` stand for.
    spec fn decode(bytes: Seq<u8>) -> Self;

    /// Reads one object. It fails exactly when fewer bytes than one object
    /// takes are left, and then steps back over nothing.
    fn parse(cursor: &mut scursor::ReadCursor) -> (r: Result<Self, scursor::ReadError>)
        ensures
            Self::size() > 0,
            match r {
                Ok(v) => unread(*old(cursor)).len() >= Self::size() && v == Self::decode(
                    unread(*old(cursor)),
                ) && unread(*final(cursor)) == unread(*old(cursor)).skip(Self::size() as int),
                Err(_) => unread(*old(cursor)).len() < Self::size() && unread(*final(cursor)).len()
                    <= unread(*old(cursor)).len(),
            },
    ;
}

impl FixedSizeVariation for Group2Var1 {
    open spec fn size() -> nat {
        1
    }

    open spec fn decode(bytes: Seq<u8>) -> Group2Var1 {
        Group2Var1 { flags: bytes[0] }
    }

    fn parse(cursor: &mut scursor::ReadCursor) -> (r: Result<Group2Var1, scursor::ReadError>) {
        match take_u8(cursor) {
            Ok(flags) => Ok(Group2Var1 { flags }),
            Err(e) => Err(e),
        }
    }
}

/// The objects that `bytes` hold, one after the other, numbered upwards
/// from `index`: as many as are whole and have an index of sixteen bits.
pub open spec fn ranged_items<T: FixedSizeVariation>(bytes: Seq<u8>, index: int) -> Seq<(T, u16)>
    decreases bytes.len(),
{
    if T::size() == 0 || bytes.len() < T::size() || index > 65535 || index < 0 {
        Seq::empty()
    } else {
        seq![(T::decode(bytes), index as u16)] + ranged_items::<T>(
            bytes.skip(T::size() as int),
            index + 1,
        )
    }
}

/// A run of objects of one fixed size, numbered upwards from `start`.
#[derive(Clone, Debug)]
pub struct RangedSequence {
    pub start: u16,
    pub data: Vec<u8>,
}

impl RangedSequence {
    pub fn new(start: u16, data: Vec<u8>) -> (r: RangedSequence)
        ensures
            r.start == start,
            r.data == data,
    {
        RangedSequence { start, data }
    }

    /// The objects of the run with their indices, in order.
    pub fn iter<T: FixedSizeVariation>(&self) -> (r: Vec<(T, u16)>)
        ensures
            r@ == ranged_items::<T>(self.data@, self.start as int),
    {
        let mut out: Vec<(T, u16)> = Vec::new();
        let mut cursor = reader(self.data.as_slice());
        let mut index: u32 = self.start as u32;
        let mut more: bool = true;
        while more
            invariant
                index <= 65536,
                more ==> out@ + ranged_items::<T>(unread(cursor), index as int) == ranged_items::<T>(
                    self.data@,
                    self.start as int,
                ),
                !more ==> out@ == ranged_items::<T>(self.data@, self.start as int),
            decreases unread(cursor).len() + (if more { 1nat } else { 0nat }),
        {
            if index > 65535 {
                more = false;
                proof {
                    assert(out@ + Seq::<(T, u16)>::empty() =~= out@);
                }
            } else {
                let ghost rest = unread(cursor);
                let ghost before = out@;
                match T::parse(&mut cursor) {
                    Ok(v) => {
                        out.push((v, index as u16));
                        proof {
                            assert(before + (seq![(v, index as u16)] + ranged_items::<T>(
                                rest.skip(T::size() as int),
                                index + 1,
                            )) =~= out@ + ranged_items::<T>(unread(cursor), index + 1));
                        }
                        index = index + 1;
                    },
                    Err(_) => {
                        more = false;
                        proof {
                            assert(out@ + Seq::<(T, u16)>::empty() =~= out@);
                        }
                    },
                }
            }
        }
        out
    }
}

/// Objects that a range header announces.
#[derive(Clone, Debug)]
pub enum RangedVariation {
    Group2Var1(RangedSequence),
    Other(Variation),
}

/// A received header that names a range of indices.
#[derive(Clone, Debug)]
pub enum Header {
    OneByteStartStop(u8, u8, RangedVariation),
    TwoByteStartStop(u16, u16, RangedVariation),
}

} // verus!
