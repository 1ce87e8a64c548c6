//! Encoding of request headers and confirmations.

use vstd::prelude::*;
use crate::cursor::{appended, le_bytes, limit, put_u16_le, put_u8, written};
use crate::cursor::{lemma_appended_failed, lemma_appended_then, lemma_whole_is_appended};
use crate::enums::FunctionCode;
use crate::header::{control_byte, Control, Sequence};
use crate::variation::Variation;

verus! {

/// Qualifier of a header that asks for all objects.
pub const ALL_OBJECTS: u8 = 0x06;

/// Qualifier of a header with one-byte start and stop indices.
pub const RANGE_8: u8 = 0x00;

/// Qualifier of a header with two-byte start and stop indices.
pub const RANGE_16: u8 = 0x01;

/// Qualifier of a header with a one-byte count and one-byte index prefixes.
pub const COUNT_AND_PREFIX_8: u8 = 0x17;

/// Qualifier of a header with a two-byte count and two-byte index prefixes.
pub const COUNT_AND_PREFIX_16: u8 = 0x28;

/// The two bytes that open a request.
pub open spec fn request_header_bytes(control: Control, function: FunctionCode) -> Seq<u8> {
    seq![control_byte(control), function.wire()]
}

/// The bytes of a confirmation for `seq`.
pub open spec fn confirm_bytes(seq: Sequence, unsolicited: bool) -> Seq<u8> {
    request_header_bytes(
        Control { fir: true, fin: true, con: false, uns: unsolicited, seq },
        FunctionCode::Confirm,
    )
}

/// An object header that asks for every object of a variation.
pub open spec fn all_objects_bytes(variation: Variation) -> Seq<u8> {
    seq![variation.group_var().0, variation.group_var().1, ALL_OBJECTS]
}

/// An object header that asks for the objects from `start` to `stop`, with
/// one-byte indices.
pub open spec fn range8_bytes(variation: Variation, start: u8, stop: u8) -> Seq<u8> {
    seq![variation.group_var().0, variation.group_var().1, RANGE_8, start, stop]
}

/// An object header that asks for the objects from `start` to `stop`, with
/// two-byte indices.
pub open spec fn range16_bytes(variation: Variation, start: u16, stop: u16) -> Seq<u8> {
    seq![variation.group_var().0, variation.group_var().1, RANGE_16] + le_bytes(start as int, 2)
        + le_bytes(stop as int, 2)
}

/// The write that clears the restart indication: bit 7 of the internal
/// indications, set to zero.
pub open spec fn clear_restart_bytes() -> Seq<u8> {
    seq![80u8, 1u8, RANGE_8, 7u8, 7u8, 0u8]
}

/// Writes `bytes` one after the other, stopping at the first that does not fit.
pub fn write_all(cursor: &mut scursor::WriteCursor, bytes: &Vec<u8>) -> (r: Result<
    (),
    scursor::WriteError,
>)
    ensures
        appended(*old(cursor), *final(cursor), r is Ok, bytes@),
{
    let mut i: usize = 0;
    while i < bytes.len()
        invariant
            0 <= i <= bytes.len(),
            appended(*old(cursor), *cursor, true, bytes@.take(i as int)),
        decreases bytes.len() - i,
    {
        let ghost mid = *cursor;
        let r = put_u8(cursor, bytes[i]);
        proof {
            lemma_whole_is_appended(mid, *cursor, r is Ok, seq![bytes@[i as int]]);
            lemma_appended_then(
                *old(cursor),
                mid,
                *cursor,
                r is Ok,
                bytes@.take(i as int),
                seq![bytes@[i as int]],
            );
            assert(bytes@.take(i as int) + seq![bytes@[i as int]] =~= bytes@.take(i + 1));
        }
        match r {
            Ok(_) => {},
            Err(e) => {
                proof {
                    assert(bytes@.take(i + 1) + bytes@.skip(i + 1) =~= bytes@);
                    lemma_appended_failed(
                        *old(cursor),
                        *cursor,
                        bytes@.take(i + 1),
                        bytes@.skip(i + 1),
                    );
                }
                return Err(e);
            },
        }
        i = i + 1;
    }
    proof {
        assert(bytes@.take(i as int) =~= bytes@);
    }
    Ok(())
}

/// Opens a request with its control byte and function code.
pub fn start_request(control: Control, function: FunctionCode, cursor: &mut scursor::WriteCursor) -> (r:
    Result<(), scursor::WriteError>)
    ensures
        appended(*old(cursor), *final(cursor), r is Ok, request_header_bytes(control, function)),
{
    let bytes: Vec<u8> = vec![control.to_u8(), function.as_u8()];
    assert(bytes@ =~= request_header_bytes(control, function));
    write_all(cursor, &bytes)
}

/// Encodes the confirmation of a solicited fragment.
pub fn confirm_solicited(seq: Sequence, cursor: &mut scursor::WriteCursor) -> (r: Result<
    (),
    scursor::WriteError,
>)
    ensures
        appended(*old(cursor), *final(cursor), r is Ok, confirm_bytes(seq, false)),
{
    start_request(Control::confirm(seq, false), FunctionCode::Confirm, cursor)
}

/// Encodes the confirmation of an unsolicited fragment.
pub fn confirm_unsolicited(seq: Sequence, cursor: &mut scursor::WriteCursor) -> (r: Result<
    (),
    scursor::WriteError,
>)
    ensures
        appended(*old(cursor), *final(cursor), r is Ok, confirm_bytes(seq, true)),
{
    start_request(Control::confirm(seq, true), FunctionCode::Confirm, cursor)
}

/// Writes a header that asks for all objects of `variation`.
pub fn write_all_objects_header(cursor: &mut scursor::WriteCursor, variation: Variation) -> (r:
    Result<(), scursor::WriteError>)
    ensures
        appended(*old(cursor), *final(cursor), r is Ok, all_objects_bytes(variation)),
{
    let gv: (u8, u8) = variation.to_group_and_var();
    let bytes: Vec<u8> = vec![gv.0, gv.1, ALL_OBJECTS];
    assert(bytes@ =~= all_objects_bytes(variation));
    write_all(cursor, &bytes)
}

/// Writes a header that asks for a range of objects by one-byte indices.
pub fn write_range_only_u8(
    cursor: &mut scursor::WriteCursor,
    variation: Variation,
    start: u8,
    stop: u8,
) -> (r: Result<(), scursor::WriteError>)
    ensures
        appended(*old(cursor), *final(cursor), r is Ok, range8_bytes(variation, start, stop)),
{
    let gv: (u8, u8) = variation.to_group_and_var();
    let bytes: Vec<u8> = vec![gv.0, gv.1, RANGE_8, start, stop];
    assert(bytes@ =~= range8_bytes(variation, start, stop));
    write_all(cursor, &bytes)
}

/// Writes a header that asks for a range of objects by two-byte indices.
pub fn write_range_only_u16(
    cursor: &mut scursor::WriteCursor,
    variation: Variation,
    start: u16,
    stop: u16,
) -> (r: Result<(), scursor::WriteError>)
    ensures
        appended(*old(cursor), *final(cursor), r is Ok, range16_bytes(variation, start, stop)),
{
    let gv: (u8, u8) = variation.to_group_and_var();
    let head: Vec<u8> = vec![gv.0, gv.1, RANGE_16];
    let ghost h = seq![variation.group_var().0, variation.group_var().1, RANGE_16];
    assert(head@ =~= h);
    let ghost c0 = *cursor;
    let r0 = write_all(cursor, &head);
    if let Err(e) = r0 {
        proof {
            lemma_appended_failed(c0, *cursor, h, le_bytes(start as int, 2) + le_bytes(stop as int, 2));
            assert(h + (le_bytes(start as int, 2) + le_bytes(stop as int, 2)) =~= range16_bytes(
                variation,
                start,
                stop,
            ));
        }
        return Err(e);
    }
    let ghost c1 = *cursor;
    let r1 = put_u16_le(cursor, start);
    proof {
        lemma_whole_is_appended(c1, *cursor, r1 is Ok, le_bytes(start as int, 2));
        lemma_appended_then(c0, c1, *cursor, r1 is Ok, h, le_bytes(start as int, 2));
    }
    if let Err(e) = r1 {
        proof {
            lemma_appended_failed(c0, *cursor, h + le_bytes(start as int, 2), le_bytes(stop as int, 2));
        }
        return Err(e);
    }
    let ghost c2 = *cursor;
    let r2 = put_u16_le(cursor, stop);
    proof {
        lemma_whole_is_appended(c2, *cursor, r2 is Ok, le_bytes(stop as int, 2));
        lemma_appended_then(
            c0,
            c2,
            *cursor,
            r2 is Ok,
            h + le_bytes(start as int, 2),
            le_bytes(stop as int, 2),
        );
    }
    r2
}

/// Writes the object that sets the restart indication to zero.
pub fn write_clear_restart(cursor: &mut scursor::WriteCursor) -> (r: Result<(), scursor::WriteError>)
    ensures
        appended(*old(cursor), *final(cursor), r is Ok, clear_restart_bytes()),
{
    let bytes: Vec<u8> = vec![80, 1, RANGE_8, 7, 7, 0];
    assert(bytes@ =~= clear_restart_bytes());
    write_all(cursor, &bytes)
}

} // verus!
