//! Small value types carried by measurement and command objects.

use vstd::prelude::*;
use crate::enums::{OpType, TripCloseCode};
use chrono::TimeZone;

verus! {

/// Largest value of a 48-bit timestamp.
pub const MAX_TIMESTAMP: u64 = 0x0000_FFFF_FFFF_FFFF;

/// Milliseconds since the Unix epoch, in 48 bits.
#[derive(Copy, Clone, Debug, PartialEq, Eq, Structural)]
pub struct Timestamp {
    pub value: u64,
}

/// The text that chrono gives for the UTC date and time that lies `millis`
/// milliseconds after the Unix epoch, in RFC 3339 form with three decimals of
/// a second and `Z` for the offset; `None` where chrono has no such date.
pub uninterp spec fn rfc3339_millis_text(millis: int) -> Option<Seq<char>>;

/// `chrono::TimeZone::timestamp_millis_opt` on `Utc`, its single result
/// rendered by `chrono::DateTime::to_rfc3339_opts` with millisecond precision
/// and `Z`. The outcome is a function of `millis` alone; it is named, not
/// described, and nothing is claimed of which instants have a date.
#[verifier::external_body]
fn utc_rfc3339_millis(millis: i64) -> (r: Option<String>)
    ensures
        match r {
            Some(text) => rfc3339_millis_text(millis as int) == Some(text@),
            None => rfc3339_millis_text(millis as int) is None,
        },
{
    match chrono::Utc.timestamp_millis_opt(millis).single() {
        Some(date) => Some(date.to_rfc3339_opts(chrono::SecondsFormat::Millis, true)),
        None => None,
    }
}

impl Timestamp {
    /// A timestamp keeps the low 48 bits of `value`.
    pub fn new(value: u64) -> (r: Timestamp)
        ensures
            r.value == value & MAX_TIMESTAMP,
            r.value <= MAX_TIMESTAMP,
            value <= MAX_TIMESTAMP ==> r.value == value,
    {
        assert(value & 0x0000_FFFF_FFFF_FFFF <= 0x0000_FFFF_FFFF_FFFF) by (bit_vector);
        assert(value <= 0x0000_FFFF_FFFF_FFFF ==> value & 0x0000_FFFF_FFFF_FFFF == value)
            by (bit_vector);
        Timestamp { value: value & MAX_TIMESTAMP }
    }

    /// Adds `x` milliseconds; `None` where the sum leaves the 48-bit range.
    pub fn checked_add(self, x: u16) -> (r: Option<Timestamp>)
        ensures
            match r {
                Some(t) => self.value + x <= MAX_TIMESTAMP && t.value == self.value + x,
                None => self.value + x > MAX_TIMESTAMP,
            },
    {
        if self.value > MAX_TIMESTAMP {
            return None;
        }
        let max_add: u64 = MAX_TIMESTAMP - self.value;
        if x as u64 > max_add {
            return None;
        }
        Some(Timestamp::new(self.value + x as u64))
    }

    pub fn min() -> (r: Timestamp)
        ensures
            r.value == 0,
    {
        Timestamp::new(0)
    }

    pub fn max() -> (r: Timestamp)
        ensures
            r.value == MAX_TIMESTAMP,
    {
        Timestamp::new(MAX_TIMESTAMP)
    }

    /// The text shown for a rendered date, or for the lack of one.
    pub fn describe(text: Option<String>) -> (r: String)
        ensures
            r@ == (match text {
                Some(t) => t@,
                None => "<out of range>"@,
            }),
    {
        match text {
            Some(t) => t,
            None => "<out of range>".to_string(),
        }
    }

    /// RFC 3339 text of the timestamp with millisecond precision, or
    /// `<out of range>` where it has no date.
    pub fn to_string(self) -> (r: String)
        ensures
            r@ == (if self.value > i64::MAX {
                "<out of range>"@
            } else {
                match rfc3339_millis_text(self.value as int) {
                    Some(t) => t,
                    None => "<out of range>"@,
                }
            }),
    {
        if self.value > 0x7FFF_FFFF_FFFF_FFFF {
            Timestamp::describe(None)
        } else {
            let millis: i64 = self.value as i64;
            Timestamp::describe(utc_rfc3339_millis(millis))
        }
    }
}

/// State of a double-bit binary input.
#[derive(Copy, Clone, Debug, PartialEq, Eq, Structural)]
pub enum DoubleBit {
    Intermediate,
    DeterminedOff,
    DeterminedOn,
    Indeterminate,
}

impl DoubleBit {
    /// Decodes the lowest two bits of `x`.
    pub fn from(x: u8) -> (r: DoubleBit)
        ensures
            r == (if x & 3 == 0 {
                DoubleBit::Intermediate
            } else if x & 3 == 1 {
                DoubleBit::DeterminedOff
            } else if x & 3 == 2 {
                DoubleBit::DeterminedOn
            } else {
                DoubleBit::Indeterminate
            }),
    {
        let low: u8 = x & 3;
        if low == 0 {
            DoubleBit::Intermediate
        } else if low == 1 {
            DoubleBit::DeterminedOff
        } else if low == 2 {
            DoubleBit::DeterminedOn
        } else {
            DoubleBit::Indeterminate
        }
    }
}

/// Control code of a relay output block.
#[derive(Copy, Clone, Debug, PartialEq, Eq, Structural)]
pub struct ControlCode {
    pub tcc: TripCloseCode,
    pub clear: bool,
    pub queue: bool,
    pub op_type: OpType,
}

/// The byte of a control code: trip/close in the top two bits, then the
/// clear bit, the queue bit, and the operation type in the low four.
pub open spec fn control_code_byte(c: ControlCode) -> u8 {
    ((c.tcc.wire() << 6) | (if c.clear { 0x20u8 } else { 0u8 }) | (if c.queue { 0x10u8 } else { 0u8 }))
        | c.op_type.wire()
}

impl ControlCode {
    pub open spec fn of(x: u8) -> ControlCode {
        ControlCode {
            tcc: TripCloseCode::of((x & 0xC0) >> 6),
            clear: x & 0x20 != 0,
            queue: x & 0x10 != 0,
            op_type: OpType::of(x & 0x0F),
        }
    }

    /// A control code whose parts each fit the bits set aside for them.
    pub open spec fn wf(self) -> bool {
        self.tcc.wire() <= 3 && self.op_type.wire() <= 15
    }

    pub fn from(x: u8) -> (r: ControlCode)
        ensures
            r == ControlCode::of(x),
    {
        ControlCode {
            tcc: TripCloseCode::from((x & 0xC0) >> 6),
            clear: x & 0x20 != 0,
            queue: x & 0x10 != 0,
            op_type: OpType::from(x & 0x0F),
        }
    }

    pub fn as_u8(self) -> (r: u8)
        ensures
            r == control_code_byte(self),
    {
        let mut x: u8 = 0;
        x = x | (self.tcc.as_u8() << 6);
        if self.clear {
            x = x | 0x20;
        }
        if self.queue {
            x = x | 0x10;
        }
        x = x | self.op_type.as_u8();
        assert(0u8 | (self.tcc.wire() << 6) == (self.tcc.wire() << 6)) by (bit_vector);
        assert(forall|a: u8| #[trigger] (a | 0u8) == a) by (bit_vector);
        x
    }

    /// Decoding the byte of a well-formed control code gives the code back.
    pub proof fn lemma_round_trip(self)
        requires
            self.wf(),
            self.tcc != TripCloseCode::Unknown(self.tcc.wire()),
            self.op_type != OpType::Unknown(self.op_type.wire()),
        ensures
            ControlCode::of(control_code_byte(self)) == self,
    {
        let t: u8 = self.tcc.wire();
        let o: u8 = self.op_type.wire();
        let c: u8 = if self.clear { 0x20u8 } else { 0u8 };
        let q: u8 = if self.queue { 0x10u8 } else { 0u8 };
        let b: u8 = ((t << 6) | c | q) | o;
        assert(t <= 3 && o <= 15 && (c == 0x20 || c == 0) && (q == 0x10 || q == 0) ==> ((((t << 6)
            | c | q) | o) & 0xC0) >> 6 == t && (((t << 6) | c | q) | o) & 0x0F == o && ((((t << 6)
            | c | q) | o) & 0x20 != 0) == (c == 0x20) && ((((t << 6) | c | q) | o) & 0x10 != 0)
            == (q == 0x10)) by (bit_vector);
    }

    /// Encoding a decoded byte gives the byte back.
    pub proof fn lemma_byte_round_trip(x: u8)
        ensures
            control_code_byte(ControlCode::of(x)) == x,
            ControlCode::of(x).wf(),
    {
        let t: u8 = (x & 0xC0) >> 6;
        let o: u8 = x & 0x0F;
        let c: u8 = if x & 0x20 != 0 { 0x20u8 } else { 0u8 };
        let q: u8 = if x & 0x10 != 0 { 0x10u8 } else { 0u8 };
        assert(((x & 0xC0) >> 6) <= 3 && (x & 0x0F) <= 15) by (bit_vector);
        assert(TripCloseCode::of(t).wire() == t);
        assert(OpType::of(o).wire() == o);
        assert(((((x & 0xC0) >> 6) << 6) | (if x & 0x20 != 0 { 0x20u8 } else { 0u8 }) | (if x & 0x10
            != 0 { 0x10u8 } else { 0u8 })) | (x & 0x0F) == x) by (bit_vector);
    }
}

} // verus!
