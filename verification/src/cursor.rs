//! Contracts for the byte cursor that requests are encoded into.
//!
//! The cursor is the one of the `scursor` crate. Its state is modelled by the
//! bytes written so far and by the length of the buffer it was made over.

use vstd::prelude::*;

verus! {

#[verifier::external_type_specification]
#[verifier::external_body]
pub struct ExWriteCursor<'a>(scursor::WriteCursor<'a>);

#[verifier::external_type_specification]
#[verifier::external_body]
pub struct ExWriteError(scursor::WriteError);

#[verifier::external_type_specification]
#[verifier::external_body]
pub struct ExReadCursor<'a>(scursor::ReadCursor<'a>);

#[verifier::external_type_specification]
#[verifier::external_body]
pub struct ExReadError(scursor::ReadError);

/// The bytes from the read cursor's position on: what is still to be read.
pub uninterp spec fn unread(cursor: scursor::ReadCursor) -> Seq<u8>;

/// `scursor::ReadCursor::new`: a cursor at the start of `data`.
#[verifier::external_body]
pub(crate) fn reader<'a>(data: &'a [u8]) -> (cursor: scursor::ReadCursor<'a>)
    ensures
        unread(cursor) == data@,
{
    scursor::ReadCursor::new(data)
}

/// `scursor::ReadCursor::read_u8`: hands out the next byte and steps over
/// it, or fails without a change when nothing is left to read.
#[verifier::external_body]
pub(crate) fn take_u8(cursor: &mut scursor::ReadCursor) -> (r: Result<u8, scursor::ReadError>)
    ensures
        match r {
            Ok(v) => unread(*old(cursor)).len() > 0 && v == unread(*old(cursor))[0] && unread(
                *final(cursor),
            ) == unread(*old(cursor)).skip(1),
            Err(_) => unread(*old(cursor)).len() == 0 && unread(*final(cursor)) == unread(
                *old(cursor),
            ),
        },
{
    cursor.read_u8()
}

/// The bytes in front of the cursor's position: what `written()` returns.
pub uninterp spec fn written(cursor: scursor::WriteCursor) -> Seq<u8>;

/// The length of the buffer that the cursor was made over.
pub uninterp spec fn limit(cursor: scursor::WriteCursor) -> nat;

/// The `n` low bytes of `v`, least significant first. A negative `v` gives
/// the bytes of its two's complement.
pub open spec fn le_bytes(v: int, n: nat) -> Seq<u8>
    decreases n,
{
    if n == 0 {
        Seq::empty()
    } else {
        seq![(v % 256) as u8] + le_bytes(v / 256, (n - 1) as nat)
    }
}

/// Whether `n` more bytes fit behind what the cursor has written. A write of
/// no bytes always fits.
pub open spec fn fits(cursor: scursor::WriteCursor, n: nat) -> bool {
    n == 0 || written(cursor).len() + n <= limit(cursor)
}

/// How a write of `bytes` that reported `ok` relates the cursor before it to
/// the cursor after it: the write succeeds exactly when the bytes fit, and
/// then appends them; a failed write never shortens what was written.
pub open spec fn appended(
    before: scursor::WriteCursor,
    after: scursor::WriteCursor,
    ok: bool,
    bytes: Seq<u8>,
) -> bool {
    &&& limit(after) == limit(before)
    &&& ok == fits(before, bytes.len())
    &&& ok ==> written(after) == written(before) + bytes
    &&& !ok ==> written(before).is_prefix_of(written(after))
}

/// Like [`appended`], for a write that leaves the cursor untouched on failure.
pub open spec fn appended_whole(
    before: scursor::WriteCursor,
    after: scursor::WriteCursor,
    ok: bool,
    bytes: Seq<u8>,
) -> bool {
    &&& limit(after) == limit(before)
    &&& ok == fits(before, bytes.len())
    &&& ok ==> written(after) == written(before) + bytes
    &&& !ok ==> written(after) == written(before)
}

/// `scursor::WriteCursor::write_u8`: stores one byte at the position and
/// advances, or fails without a change when the buffer is full.
#[verifier::external_body]
pub(crate) fn put_u8(cursor: &mut scursor::WriteCursor, value: u8) -> (r: Result<
    (),
    scursor::WriteError,
>)
    ensures
        limit(*final(cursor)) == limit(*old(cursor)),
        r is Ok == (written(*old(cursor)).len() + (seq![value]).len() <= limit(*old(cursor))),
        r is Ok ==> written(*final(cursor)) == written(*old(cursor)) + seq![value],
        r is Err ==> written(*final(cursor)) == written(*old(cursor)),
{
    cursor.write_u8(value)
}

/// `scursor::WriteCursor::write_u16_le`: stores two bytes, low byte first,
/// or fails without a change when fewer than two bytes are free.
#[verifier::external_body]
pub(crate) fn put_u16_le(cursor: &mut scursor::WriteCursor, value: u16) -> (r: Result<
    (),
    scursor::WriteError,
>)
    ensures
        limit(*final(cursor)) == limit(*old(cursor)),
        r is Ok == (written(*old(cursor)).len() + (le_bytes(value as int, 2)).len() <= limit(*old(cursor))),
        r is Ok ==> written(*final(cursor)) == written(*old(cursor)) + le_bytes(value as int, 2),
        r is Err ==> written(*final(cursor)) == written(*old(cursor)),
{
    cursor.write_u16_le(value)
}

/// `scursor::WriteCursor::write_u32_le`: stores four bytes, low byte first,
/// or fails without a change when fewer than four bytes are free.
#[verifier::external_body]
pub(crate) fn put_u32_le(cursor: &mut scursor::WriteCursor, value: u32) -> (r: Result<
    (),
    scursor::WriteError,
>)
    ensures
        limit(*final(cursor)) == limit(*old(cursor)),
        r is Ok == (written(*old(cursor)).len() + (le_bytes(value as int, 4)).len() <= limit(*old(cursor))),
        r is Ok ==> written(*final(cursor)) == written(*old(cursor)) + le_bytes(value as int, 4),
        r is Err ==> written(*final(cursor)) == written(*old(cursor)),
{
    cursor.write_u32_le(value)
}

/// `scursor::WriteCursor::write_u64_le`: stores eight bytes, low byte first,
/// or fails without a change when fewer than eight bytes are free.
#[verifier::external_body]
pub(crate) fn put_u64_le(cursor: &mut scursor::WriteCursor, value: u64) -> (r: Result<
    (),
    scursor::WriteError,
>)
    ensures
        limit(*final(cursor)) == limit(*old(cursor)),
        r is Ok == (written(*old(cursor)).len() + (le_bytes(value as int, 8)).len() <= limit(*old(cursor))),
        r is Ok ==> written(*final(cursor)) == written(*old(cursor)) + le_bytes(value as int, 8),
        r is Err ==> written(*final(cursor)) == written(*old(cursor)),
{
    cursor.write_u64_le(value)
}

/// `scursor::WriteCursor::write_i16_le`: stores the two bytes of the two's
/// complement of `value`, low byte first, or fails without a change.
#[verifier::external_body]
pub(crate) fn put_i16_le(cursor: &mut scursor::WriteCursor, value: i16) -> (r: Result<
    (),
    scursor::WriteError,
>)
    ensures
        limit(*final(cursor)) == limit(*old(cursor)),
        r is Ok == (written(*old(cursor)).len() + (le_bytes(value as int, 2)).len() <= limit(*old(cursor))),
        r is Ok ==> written(*final(cursor)) == written(*old(cursor)) + le_bytes(value as int, 2),
        r is Err ==> written(*final(cursor)) == written(*old(cursor)),
{
    cursor.write_i16_le(value)
}

/// `scursor::WriteCursor::write_i32_le`: stores the four bytes of the two's
/// complement of `value`, low byte first, or fails without a change.
#[verifier::external_body]
pub(crate) fn put_i32_le(cursor: &mut scursor::WriteCursor, value: i32) -> (r: Result<
    (),
    scursor::WriteError,
>)
    ensures
        limit(*final(cursor)) == limit(*old(cursor)),
        r is Ok == (written(*old(cursor)).len() + (le_bytes(value as int, 4)).len() <= limit(*old(cursor))),
        r is Ok ==> written(*final(cursor)) == written(*old(cursor)) + le_bytes(value as int, 4),
        r is Err ==> written(*final(cursor)) == written(*old(cursor)),
{
    cursor.write_i32_le(value)
}

/// A whole write is a write.
pub proof fn lemma_whole_is_appended(
    before: scursor::WriteCursor,
    after: scursor::WriteCursor,
    ok: bool,
    bytes: Seq<u8>,
)
    requires
        appended_whole(before, after, ok, bytes),
    ensures
        appended(before, after, ok, bytes),
{
}

/// Two writes in a row, the second made only after the first succeeded, are
/// one write of the joined bytes.
pub proof fn lemma_appended_then(
    a: scursor::WriteCursor,
    b: scursor::WriteCursor,
    c: scursor::WriteCursor,
    ok2: bool,
    x: Seq<u8>,
    y: Seq<u8>,
)
    requires
        appended(a, b, true, x),
        appended(b, c, ok2, y),
    ensures
        appended(a, c, ok2, x + y),
{
    assert((written(a) + x) + y =~= written(a) + (x + y));
    if !ok2 {
        assert(written(a).is_prefix_of(written(b)));
    }
}

/// A failed first write is a failed write of any longer byte string.
pub proof fn lemma_appended_failed(
    a: scursor::WriteCursor,
    b: scursor::WriteCursor,
    x: Seq<u8>,
    y: Seq<u8>,
)
    requires
        appended(a, b, false, x),
    ensures
        appended(a, b, false, x + y),
{
}

/// Writes one byte as the next step of a longer write of `total` that began
/// at `start` and has written `done` so far.
pub(crate) fn step_u8(
    cursor: &mut scursor::WriteCursor,
    value: u8,
    Ghost(start): Ghost<scursor::WriteCursor>,
    Ghost(done): Ghost<Seq<u8>>,
    Ghost(total): Ghost<Seq<u8>>,
) -> (r: Result<(), scursor::WriteError>)
    requires
        appended(start, *old(cursor), true, done),
        (done + seq![value]).len() <= total.len(),
    ensures
        r is Ok ==> appended(start, *final(cursor), true, done + seq![value]),
        r is Err ==> appended(start, *final(cursor), false, total),
{
    let ghost mid = *cursor;
    let r = put_u8(cursor, value);
    proof {
        assert((done + seq![value]).len() == done.len() + 1);
        lemma_appended_then(start, mid, *cursor, r is Ok, done, seq![value]);
    }
    r
}

/// Writes two bytes, low byte first, as the next step of a longer write.
pub(crate) fn step_u16(
    cursor: &mut scursor::WriteCursor,
    value: u16,
    Ghost(start): Ghost<scursor::WriteCursor>,
    Ghost(done): Ghost<Seq<u8>>,
    Ghost(total): Ghost<Seq<u8>>,
) -> (r: Result<(), scursor::WriteError>)
    requires
        appended(start, *old(cursor), true, done),
        (done + le_bytes(value as int, 2)).len() <= total.len(),
    ensures
        r is Ok ==> appended(start, *final(cursor), true, done + le_bytes(value as int, 2)),
        r is Err ==> appended(start, *final(cursor), false, total),
{
    let ghost mid = *cursor;
    let r = put_u16_le(cursor, value);
    proof {
        lemma_le_bytes_len(value as int, 2);
        lemma_appended_then(start, mid, *cursor, r is Ok, done, le_bytes(value as int, 2));
    }
    r
}

/// Writes four bytes, low byte first, as the next step of a longer write.
pub(crate) fn step_u32(
    cursor: &mut scursor::WriteCursor,
    value: u32,
    Ghost(start): Ghost<scursor::WriteCursor>,
    Ghost(done): Ghost<Seq<u8>>,
    Ghost(total): Ghost<Seq<u8>>,
) -> (r: Result<(), scursor::WriteError>)
    requires
        appended(start, *old(cursor), true, done),
        (done + le_bytes(value as int, 4)).len() <= total.len(),
    ensures
        r is Ok ==> appended(start, *final(cursor), true, done + le_bytes(value as int, 4)),
        r is Err ==> appended(start, *final(cursor), false, total),
{
    let ghost mid = *cursor;
    let r = put_u32_le(cursor, value);
    proof {
        lemma_le_bytes_len(value as int, 4);
        lemma_appended_then(start, mid, *cursor, r is Ok, done, le_bytes(value as int, 4));
    }
    r
}

/// Writes eight bytes, low byte first, as the next step of a longer write.
pub(crate) fn step_u64(
    cursor: &mut scursor::WriteCursor,
    value: u64,
    Ghost(start): Ghost<scursor::WriteCursor>,
    Ghost(done): Ghost<Seq<u8>>,
    Ghost(total): Ghost<Seq<u8>>,
) -> (r: Result<(), scursor::WriteError>)
    requires
        appended(start, *old(cursor), true, done),
        (done + le_bytes(value as int, 8)).len() <= total.len(),
    ensures
        r is Ok ==> appended(start, *final(cursor), true, done + le_bytes(value as int, 8)),
        r is Err ==> appended(start, *final(cursor), false, total),
{
    let ghost mid = *cursor;
    let r = put_u64_le(cursor, value);
    proof {
        lemma_le_bytes_len(value as int, 8);
        lemma_appended_then(start, mid, *cursor, r is Ok, done, le_bytes(value as int, 8));
    }
    r
}

/// Writes a signed 16-bit value as the next step of a longer write.
pub(crate) fn step_i16(
    cursor: &mut scursor::WriteCursor,
    value: i16,
    Ghost(start): Ghost<scursor::WriteCursor>,
    Ghost(done): Ghost<Seq<u8>>,
    Ghost(total): Ghost<Seq<u8>>,
) -> (r: Result<(), scursor::WriteError>)
    requires
        appended(start, *old(cursor), true, done),
        (done + le_bytes(value as int, 2)).len() <= total.len(),
    ensures
        r is Ok ==> appended(start, *final(cursor), true, done + le_bytes(value as int, 2)),
        r is Err ==> appended(start, *final(cursor), false, total),
{
    let ghost mid = *cursor;
    let r = put_i16_le(cursor, value);
    proof {
        lemma_le_bytes_len(value as int, 2);
        lemma_appended_then(start, mid, *cursor, r is Ok, done, le_bytes(value as int, 2));
    }
    r
}

/// Writes a signed 32-bit value as the next step of a longer write.
pub(crate) fn step_i32(
    cursor: &mut scursor::WriteCursor,
    value: i32,
    Ghost(start): Ghost<scursor::WriteCursor>,
    Ghost(done): Ghost<Seq<u8>>,
    Ghost(total): Ghost<Seq<u8>>,
) -> (r: Result<(), scursor::WriteError>)
    requires
        appended(start, *old(cursor), true, done),
        (done + le_bytes(value as int, 4)).len() <= total.len(),
    ensures
        r is Ok ==> appended(start, *final(cursor), true, done + le_bytes(value as int, 4)),
        r is Err ==> appended(start, *final(cursor), false, total),
{
    let ghost mid = *cursor;
    let r = put_i32_le(cursor, value);
    proof {
        lemma_le_bytes_len(value as int, 4);
        lemma_appended_then(start, mid, *cursor, r is Ok, done, le_bytes(value as int, 4));
    }
    r
}

/// A write that failed for want of room fails for any byte string at least
/// as long.
pub proof fn lemma_appended_failed_longer(
    a: scursor::WriteCursor,
    b: scursor::WriteCursor,
    x: Seq<u8>,
    total: Seq<u8>,
)
    requires
        appended(a, b, false, x),
        x.len() <= total.len(),
    ensures
        appended(a, b, false, total),
{
}

/// `le_bytes` gives as many bytes as asked for.
pub proof fn lemma_le_bytes_len(v: int, n: nat)
    ensures
        le_bytes(v, n).len() == n,
    decreases n,
{
    if n > 0 {
        lemma_le_bytes_len(v / 256, (n - 1) as nat);
    }
}

} // verus!
