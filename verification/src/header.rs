//! Fragment headers: sequence numbers, control bits and internal indications.

use vstd::prelude::*;
use crate::enums::FunctionCode;

verus! {

/// Four-bit application sequence number.
#[derive(Copy, Clone, Debug, PartialEq, Eq, Structural)]
pub struct Sequence {
    pub value: u8,
}

/// The sequence number that follows `v`, wrapping from 15 to 0.
pub open spec fn next_seq(v: u8) -> u8 {
    if v >= 15 {
        0u8
    } else {
        (v + 1) as u8
    }
}

impl Sequence {
    /// A sequence number is well formed when it fits in four bits.
    pub open spec fn wf(self) -> bool {
        self.value <= 15
    }

    /// Keeps the low four bits of `x`.
    pub fn new(x: u8) -> (r: Sequence)
        ensures
            r.value == x & 0x0F,
            r.wf(),
            x <= 15 ==> r.value == x,
    {
        assert(x & 0x0F <= 15) by (bit_vector);
        assert(x <= 15 ==> x & 0x0F == x) by (bit_vector);
        Sequence { value: x & 0x0F }
    }

    pub fn value(self) -> (r: u8)
        ensures
            r == self.value,
    {
        self.value
    }

    /// Hands out the current number and advances to the next one.
    pub fn increment(&mut self) -> (r: Sequence)
        ensures
            r == *old(self),
            final(self).value == next_seq(old(self).value),
            final(self).wf(),
    {
        let current: Sequence = *self;
        if self.value >= 15 {
            self.value = 0;
        } else {
            self.value = self.value + 1;
        }
        current
    }
}

/// Control bits of a fragment.
#[derive(Copy, Clone, Debug, PartialEq, Eq, Structural)]
pub struct Control {
    pub fir: bool,
    pub fin: bool,
    pub con: bool,
    pub uns: bool,
    pub seq: Sequence,
}

/// The control byte for the given bits: FIR, FIN, CON and UNS from the top,
/// the sequence number in the low four bits.
pub open spec fn control_byte(c: Control) -> u8 {
    ((if c.fir { 0x80int } else { 0int }) + (if c.fin { 0x40int } else { 0int }) + (if c.con { 0x20int } else { 0int })
        + (if c.uns { 0x10int } else { 0int }) + (c.seq.value & 0x0F) as int) as u8
}

impl Control {
    /// Control field of a master request: a single fragment, no confirmation asked.
    pub fn request(seq: Sequence) -> (r: Control)
        ensures
            r == (Control { fir: true, fin: true, con: false, uns: false, seq }),
    {
        Control { fir: true, fin: true, con: false, uns: false, seq }
    }

    /// Control field of a confirmation, solicited or unsolicited.
    pub fn confirm(seq: Sequence, unsolicited: bool) -> (r: Control)
        ensures
            r == (Control { fir: true, fin: true, con: false, uns: unsolicited, seq }),
    {
        Control { fir: true, fin: true, con: false, uns: unsolicited, seq }
    }

    pub fn is_fir_and_fin(self) -> (r: bool)
        ensures
            r == (self.fir && self.fin),
    {
        self.fir && self.fin
    }

    pub fn to_u8(self) -> (r: u8)
        ensures
            r == control_byte(self),
    {
        let v: u8 = self.seq.value;
        let low: u8 = v & 0x0F;
        assert(low <= 15) by (bit_vector)
            requires
                low == v & 0x0F,
        ;
        let mut x: u8 = low;
        if self.fir {
            x = x + 0x80;
        }
        if self.fin {
            x = x + 0x40;
        }
        if self.con {
            x = x + 0x20;
        }
        if self.uns {
            x = x + 0x10;
        }
        x
    }

    /// Reads the control bits out of a byte.
    pub fn from_u8(x: u8) -> (r: Control)
        ensures
            r.fir == (x & 0x80 != 0),
            r.fin == (x & 0x40 != 0),
            r.con == (x & 0x20 != 0),
            r.uns == (x & 0x10 != 0),
            r.seq.value == x & 0x0F,
            r.seq.wf(),
    {
        Control {
            fir: x & 0x80 != 0,
            fin: x & 0x40 != 0,
            con: x & 0x20 != 0,
            uns: x & 0x10 != 0,
            seq: Sequence::new(x),
        }
    }
}

/// Internal indications, the two status bytes that open every response.
#[derive(Copy, Clone, Debug, PartialEq, Eq, Structural)]
pub struct Iin {
    pub iin1: u8,
    pub iin2: u8,
}

impl Iin {
    pub open spec fn device_restart(self) -> bool {
        self.iin1 & 0x80 != 0
    }

    pub open spec fn device_trouble(self) -> bool {
        self.iin1 & 0x40 != 0
    }

    pub open spec fn need_time(self) -> bool {
        self.iin1 & 0x10 != 0
    }

    pub open spec fn class_events(self) -> bool {
        self.iin1 & 0x0E != 0
    }

    pub open spec fn event_buffer_overflow(self) -> bool {
        self.iin2 & 0x08 != 0
    }

    /// Splits a 16-bit value: the first indication byte is the low one.
    pub fn from_u16(x: u16) -> (r: Iin)
        ensures
            r.iin1 == (x & 0xFF) as u8,
            r.iin2 == (x >> 8) as u8,
    {
        assert(x & 0xFF <= 0xFF) by (bit_vector);
        assert(x >> 8 <= 0xFF) by (bit_vector);
        Iin { iin1: (x & 0xFF) as u8, iin2: (x >> 8) as u8 }
    }

    pub fn get_device_restart(self) -> (r: bool)
        ensures
            r == self.device_restart(),
    {
        self.iin1 & 0x80 != 0
    }

    pub fn get_device_trouble(self) -> (r: bool)
        ensures
            r == self.device_trouble(),
    {
        self.iin1 & 0x40 != 0
    }

    pub fn get_need_time(self) -> (r: bool)
        ensures
            r == self.need_time(),
    {
        self.iin1 & 0x10 != 0
    }

    pub fn has_class_events(self) -> (r: bool)
        ensures
            r == self.class_events(),
    {
        self.iin1 & 0x0E != 0
    }

    pub fn get_event_buffer_overflow(self) -> (r: bool)
        ensures
            r == self.event_buffer_overflow(),
    {
        self.iin2 & 0x08 != 0
    }
}

/// Header of a response fragment.
#[derive(Copy, Clone, Debug, PartialEq, Eq, Structural)]
pub struct ResponseHeader {
    pub control: Control,
    pub function: FunctionCode,
    pub iin: Iin,
}

impl ResponseHeader {
    pub fn new(control: Control, function: FunctionCode, iin: Iin) -> (r: ResponseHeader)
        ensures
            r == (ResponseHeader { control, function, iin }),
    {
        ResponseHeader { control, function, iin }
    }
}

} // verus!
