//! What a master can ask for: class scans, index ranges and the housekeeping
//! requests.

use vstd::prelude::*;
use crate::cursor::{appended, lemma_appended_failed, lemma_appended_then};
use crate::enums::FunctionCode;
use crate::format::{all_objects_bytes, clear_restart_bytes, range16_bytes, range8_bytes};
use crate::format::{write_all_objects_header, write_clear_restart, write_range_only_u16};
use crate::format::write_range_only_u8;
use crate::variation::Variation;

verus! {

/// How a command is carried out.
#[derive(Copy, Clone, Debug, PartialEq, Eq, Structural)]
pub enum CommandMode {
    DirectOperate,
    SelectBeforeOperate,
}

/// A choice among the three event classes.
#[derive(Copy, Clone, Debug, PartialEq, Eq, Structural)]
pub struct EventClasses {
    pub class1: bool,
    pub class2: bool,
    pub class3: bool,
}

/// A choice among the static class and the event classes.
#[derive(Copy, Clone, Debug, PartialEq, Eq, Structural)]
pub struct Classes {
    pub class0: bool,
    pub events: EventClasses,
}

/// A range of indices of one variation.
#[derive(Copy, Clone, Debug, PartialEq, Eq, Structural)]
pub struct RangeScan<T> {
    pub variation: Variation,
    pub start: T,
    pub stop: T,
}

/// The header for `variation` where `wanted`, nothing otherwise.
pub open spec fn optional_header(wanted: bool, variation: Variation) -> Seq<u8> {
    if wanted {
        all_objects_bytes(variation)
    } else {
        Seq::empty()
    }
}

fn write_optional(cursor: &mut scursor::WriteCursor, wanted: bool, variation: Variation) -> (r:
    Result<(), scursor::WriteError>)
    ensures
        appended(*old(cursor), *final(cursor), r is Ok, optional_header(wanted, variation)),
{
    if wanted {
        write_all_objects_header(cursor, variation)
    } else {
        Ok(())
    }
}

impl EventClasses {
    pub fn new(class1: bool, class2: bool, class3: bool) -> (r: EventClasses)
        ensures
            r == (EventClasses { class1, class2, class3 }),
    {
        EventClasses { class1, class2, class3 }
    }

    pub fn any(self) -> (r: bool)
        ensures
            r == (self.class1 || self.class2 || self.class3),
    {
        self.class1 || self.class2 || self.class3
    }

    pub fn all() -> (r: EventClasses)
        ensures
            r == (EventClasses { class1: true, class2: true, class3: true }),
    {
        EventClasses { class1: true, class2: true, class3: true }
    }

    pub fn none() -> (r: EventClasses)
        ensures
            r == (EventClasses { class1: false, class2: false, class3: false }),
    {
        EventClasses { class1: false, class2: false, class3: false }
    }

    /// One all-objects header per chosen class, in class order.
    pub open spec fn bytes(self) -> Seq<u8> {
        optional_header(self.class1, Variation::Group60Var2) + optional_header(
            self.class2,
            Variation::Group60Var3,
        ) + optional_header(self.class3, Variation::Group60Var4)
    }

    pub fn write(self, cursor: &mut scursor::WriteCursor) -> (r: Result<(), scursor::WriteError>)
        ensures
            appended(*old(cursor), *final(cursor), r is Ok, self.bytes()),
    {
        let ghost b1 = optional_header(self.class1, Variation::Group60Var2);
        let ghost b2 = optional_header(self.class2, Variation::Group60Var3);
        let ghost b3 = optional_header(self.class3, Variation::Group60Var4);
        let ghost c0 = *cursor;
        let r1 = write_optional(cursor, self.class1, Variation::Group60Var2);
        if let Err(e) = r1 {
            proof {
                lemma_appended_failed(c0, *cursor, b1, b2 + b3);
                assert(b1 + (b2 + b3) =~= self.bytes());
            }
            return Err(e);
        }
        let ghost c1 = *cursor;
        let r2 = write_optional(cursor, self.class2, Variation::Group60Var3);
        proof {
            lemma_appended_then(c0, c1, *cursor, r2 is Ok, b1, b2);
        }
        if let Err(e) = r2 {
            proof {
                lemma_appended_failed(c0, *cursor, b1 + b2, b3);
            }
            return Err(e);
        }
        let ghost c2 = *cursor;
        let r3 = write_optional(cursor, self.class3, Variation::Group60Var4);
        proof {
            lemma_appended_then(c0, c2, *cursor, r3 is Ok, b1 + b2, b3);
        }
        r3
    }
}

impl Classes {
    pub fn new(class0: bool, events: EventClasses) -> (r: Classes)
        ensures
            r == (Classes { class0, events }),
    {
        Classes { events, class0 }
    }

    /// A scan of event classes alone.
    pub fn events(events: EventClasses) -> (r: Classes)
        ensures
            r == (Classes { class0: false, events }),
    {
        Classes::new(false, events)
    }

    /// The integrity scan: every event class, then the static class.
    pub fn integrity() -> (r: Classes)
        ensures
            r == (Classes {
                class0: true,
                events: EventClasses { class1: true, class2: true, class3: true },
            }),
    {
        Classes::new(true, EventClasses::all())
    }

    /// The event class headers, then the header of the static class.
    pub open spec fn bytes(self) -> Seq<u8> {
        self.events.bytes() + optional_header(self.class0, Variation::Group60Var1)
    }

    pub fn write(self, cursor: &mut scursor::WriteCursor) -> (r: Result<(), scursor::WriteError>)
        ensures
            appended(*old(cursor), *final(cursor), r is Ok, self.bytes()),
    {
        let ghost c0 = *cursor;
        let r1 = self.events.write(cursor);
        if let Err(e) = r1 {
            proof {
                lemma_appended_failed(
                    c0,
                    *cursor,
                    self.events.bytes(),
                    optional_header(self.class0, Variation::Group60Var1),
                );
            }
            return Err(e);
        }
        let ghost c1 = *cursor;
        let r2 = write_optional(cursor, self.class0, Variation::Group60Var1);
        proof {
            lemma_appended_then(
                c0,
                c1,
                *cursor,
                r2 is Ok,
                self.events.bytes(),
                optional_header(self.class0, Variation::Group60Var1),
            );
        }
        r2
    }
}

impl<T> RangeScan<T> {
    pub fn new(variation: Variation, start: T, stop: T) -> (r: RangeScan<T>)
        ensures
            r == (RangeScan { variation, start, stop }),
    {
        RangeScan { variation, start, stop }
    }
}

impl RangeScan<u8> {
    pub fn write(self, cursor: &mut scursor::WriteCursor) -> (r: Result<(), scursor::WriteError>)
        ensures
            appended(
                *old(cursor),
                *final(cursor),
                r is Ok,
                range8_bytes(self.variation, self.start, self.stop),
            ),
    {
        write_range_only_u8(cursor, self.variation, self.start, self.stop)
    }
}

impl RangeScan<u16> {
    pub fn write(self, cursor: &mut scursor::WriteCursor) -> (r: Result<(), scursor::WriteError>)
        ensures
            appended(
                *old(cursor),
                *final(cursor),
                r is Ok,
                range16_bytes(self.variation, self.start, self.stop),
            ),
    {
        write_range_only_u16(cursor, self.variation, self.start, self.stop)
    }
}

/// The body of a read request.
#[derive(Copy, Clone, Debug, PartialEq, Eq, Structural)]
pub enum ReadRequest {
    ClassScan(Classes),
    Range8(RangeScan<u8>),
    Range16(RangeScan<u16>),
}

impl ReadRequest {
    pub fn class_scan(scan: Classes) -> (r: ReadRequest)
        ensures
            r == ReadRequest::ClassScan(scan),
    {
        ReadRequest::ClassScan(scan)
    }

    pub fn one_byte_range(variation: Variation, start: u8, stop: u8) -> (r: ReadRequest)
        ensures
            r == ReadRequest::Range8(RangeScan { variation, start, stop }),
    {
        ReadRequest::Range8(RangeScan::new(variation, start, stop))
    }

    pub fn two_byte_range(variation: Variation, start: u16, stop: u16) -> (r: ReadRequest)
        ensures
            r == ReadRequest::Range16(RangeScan { variation, start, stop }),
    {
        ReadRequest::Range16(RangeScan::new(variation, start, stop))
    }

    /// The object headers of the request.
    pub open spec fn bytes(self) -> Seq<u8> {
        match self {
            ReadRequest::ClassScan(classes) => classes.bytes(),
            ReadRequest::Range8(scan) => range8_bytes(scan.variation, scan.start, scan.stop),
            ReadRequest::Range16(scan) => range16_bytes(scan.variation, scan.start, scan.stop),
        }
    }

    pub fn format(self, cursor: &mut scursor::WriteCursor) -> (r: Result<(), scursor::WriteError>)
        ensures
            appended(*old(cursor), *final(cursor), r is Ok, self.bytes()),
    {
        match self {
            ReadRequest::ClassScan(classes) => classes.write(cursor),
            ReadRequest::Range8(scan) => scan.write(cursor),
            ReadRequest::Range16(scan) => scan.write(cursor),
        }
    }
}

/// A housekeeping request that the master issues on its own.
#[derive(Copy, Clone, Debug, PartialEq, Eq, Structural)]
pub enum AutoRequest {
    ClearRestartBit,
    EnableUnsolicited(EventClasses),
    DisableUnsolicited(EventClasses),
}

impl AutoRequest {
    /// The object headers of the request.
    pub open spec fn bytes(self) -> Seq<u8> {
        match self {
            AutoRequest::ClearRestartBit => clear_restart_bytes(),
            AutoRequest::EnableUnsolicited(classes) => classes.bytes(),
            AutoRequest::DisableUnsolicited(classes) => classes.bytes(),
        }
    }

    pub open spec fn function_code(self) -> FunctionCode {
        match self {
            AutoRequest::ClearRestartBit => FunctionCode::Write,
            AutoRequest::EnableUnsolicited(_) => FunctionCode::EnableUnsolicited,
            AutoRequest::DisableUnsolicited(_) => FunctionCode::DisableUnsolicited,
        }
    }

    pub fn format(&self, cursor: &mut scursor::WriteCursor) -> (r: Result<(), scursor::WriteError>)
        ensures
            appended(*old(cursor), *final(cursor), r is Ok, self.bytes()),
    {
        match self {
            AutoRequest::ClearRestartBit => write_clear_restart(cursor),
            AutoRequest::EnableUnsolicited(classes) => classes.write(cursor),
            AutoRequest::DisableUnsolicited(classes) => classes.write(cursor),
        }
    }

    pub fn function(&self) -> (r: FunctionCode)
        ensures
            r == self.function_code(),
    {
        match self {
            AutoRequest::ClearRestartBit => FunctionCode::Write,
            AutoRequest::EnableUnsolicited(_) => FunctionCode::EnableUnsolicited,
            AutoRequest::DisableUnsolicited(_) => FunctionCode::DisableUnsolicited,
        }
    }

    pub fn description(&self) -> (r: &'static str)
        ensures
            r@ == (match *self {
                AutoRequest::ClearRestartBit => "clear restart IIN bit"@,
                AutoRequest::EnableUnsolicited(_) => "enable unsolicited reporting"@,
                AutoRequest::DisableUnsolicited(_) => "disable unsolicited reporting"@,
            }),
    {
        match self {
            AutoRequest::ClearRestartBit => "clear restart IIN bit",
            AutoRequest::EnableUnsolicited(_) => "enable unsolicited reporting",
            AutoRequest::DisableUnsolicited(_) => "disable unsolicited reporting",
        }
    }
}

} // verus!
