//! Serialization into a byte buffer.

use super::LengthField;
use crate::bytes::string::{utf16_encoding, utf8_encoding, Encoding, Utf8};
use crate::bytes::wire::{be_u16, be_u32, be_u64, put_slice, put_u16, put_u32, put_u64};
use vstd::prelude::*;

verus! {

/// Represents an error when serializing data.
#[derive(Debug, PartialEq, Eq, Structural)]
pub struct SerializeError;

/// Result of a serialization: the size of the written data.
pub type Written = Result<usize, SerializeError>;

/// The bytes of a length field holding `n`.
pub open spec fn field_bytes(len: LengthField, n: nat) -> Seq<u8> {
    match len {
        LengthField::U8 => seq![n as u8],
        LengthField::U16 => be_u16(n as u16),
        LengthField::U32 => be_u32(n as u32),
    }
}

/// Whether writing a value with a preceding length field, into a buffer holding `before`, can
/// leave `after` in it and return `result`, given the bytes `payload` and the result `r` of
/// writing the value alone into an empty buffer.
///
/// The value is written into a separate buffer first: if it fails, or its size doesn't fit in the
/// length field, nothing is written.
pub open spec fn length_writes(
    r: Written,
    payload: Seq<u8>,
    len: LengthField,
    before: Seq<u8>,
    after: Seq<u8>,
    result: Written,
) -> bool {
    match r {
        Err(e) => result == Err::<usize, SerializeError>(e) && after == before,
        Ok(n) => if n > len.spec_max() || n + len.spec_width() > usize::MAX {
            result == Err::<usize, SerializeError>(SerializeError) && after == before
        } else {
            result == Ok::<usize, SerializeError>((n + len.spec_width()) as usize) && after
                == before + field_bytes(len, n as nat) + payload
        },
    }
}

/// Serialize data into a SOME/IP byte stream.
pub trait Serialize {
    /// Whether serializing `self` into a buffer holding `before` can leave `after` in it and
    /// return `result`.
    spec fn spec_writes(&self, before: Seq<u8>, after: Seq<u8>, result: Written) -> bool;

    /// Whether `self` can be serialized into any buffer.
    spec fn spec_ready(&self) -> bool;

    /// Serializes the implementing type into the buffer.
    ///
    /// Returns the size of the serialized data.
    ///
    /// # Errors
    ///
    /// Returns an error if serialization fails for any reason.
    fn serialize(&self, buffer: &mut Vec<u8>) -> (result: Written)
        requires
            self.spec_ready(),
        ensures
            self.spec_writes(old(buffer)@, final(buffer)@, result),
    ;

    /// Serializes the implementing type into the buffer, preceded by a length field that holds
    /// the size of the serialized data.
    ///
    /// Returns the size of the serialized data including the length field.
    ///
    /// # Errors
    ///
    /// Returns an error if serialization fails for any reason, or if the length of the serialized
    /// data exceeds the capacity of the length field. Nothing is written then.
    fn serialize_len(&self, length: LengthField, buffer: &mut Vec<u8>) -> (result: Written)
        requires
            self.spec_ready(),
        ensures
            exists|payload: Seq<u8>, r: Written|
                #[trigger] self.spec_writes(Seq::empty(), payload, r) && length_writes(
                    r,
                    payload,
                    length,
                    old(buffer)@,
                    final(buffer)@,
                    result,
                ),
    {
        // Serialize the payload first to get its size.
        let mut payload: Vec<u8> = Vec::new();
        let written = self.serialize(&mut payload);
        let ghost payload_bytes = payload@;
        assert(self.spec_writes(Seq::empty(), payload_bytes, written));
        append_with_length(written, &mut payload, length, buffer)
    }
}

/// Appends a length field holding the size of the serialized `payload`, then the payload, to the
/// buffer, given the result `written` of serializing it. Nothing is written if the serialization
/// failed or its size does not fit in the length field.
fn append_with_length(
    written: Written,
    payload: &mut Vec<u8>,
    length: LengthField,
    buffer: &mut Vec<u8>,
) -> (result: Written)
    ensures
        length_writes(written, old(payload)@, length, old(buffer)@, final(buffer)@, result),
{
    let size = match written {
        Ok(size) => size,
        Err(e) => return Err(e),
    };
    let width = field_width(length);
    if size > field_max(length) {
        return Err(SerializeError);
    }
    let total = match size.checked_add(width) {
        Some(total) => total,
        None => return Err(SerializeError),
    };
    let ghost start = buffer@;
    write_field(length, size, buffer);
    let ghost payload_bytes = payload@;
    buffer.append(payload);
    assert(buffer@ == start + field_bytes(length, size as nat) + payload_bytes);
    Ok(total)
}

/// The size of a length field in bytes.
fn field_width(len: LengthField) -> (width: usize)
    ensures
        width == len.spec_width(),
{
    match len {
        LengthField::U8 => 1,
        LengthField::U16 => 2,
        LengthField::U32 => 4,
    }
}

/// The largest length that a length field can hold.
fn field_max(len: LengthField) -> (max: usize)
    ensures
        max == len.spec_max(),
{
    match len {
        LengthField::U8 => 0xff,
        LengthField::U16 => 0xffff,
        LengthField::U32 => 0xffff_ffff,
    }
}

/// Writes a length field holding `n`, which must fit in it.
fn write_field(len: LengthField, n: usize, buffer: &mut Vec<u8>)
    requires
        n <= len.spec_max(),
    ensures
        final(buffer)@ == old(buffer)@ + field_bytes(len, n as nat),
{
    match len {
        LengthField::U8 => {
            buffer.push(n as u8);
            assert(final(buffer)@ =~= old(buffer)@ + field_bytes(len, n as nat));
        },
        LengthField::U16 => put_u16(buffer, n as u16),
        LengthField::U32 => put_u32(buffer, n as u32),
    }
}

/// Whether writing `item` after `total` bytes were written, from `before`, can leave `after` and
/// return `result`: the running total, or the item's error, or an error if the total overflows.
pub open spec fn step_writes<T: Serialize + ?Sized>(
    item: &T,
    total: usize,
    before: Seq<u8>,
    after: Seq<u8>,
    result: Written,
) -> bool {
    exists|r: Written|
        #[trigger] item.spec_writes(before, after, r) && match r {
            Err(e) => result == Err::<usize, SerializeError>(e),
            Ok(n) => if total + n > usize::MAX {
                result == Err::<usize, SerializeError>(SerializeError)
            } else {
                result == Ok::<usize, SerializeError>((total + n) as usize)
            },
        }
}

/// Writes `item` after `total` bytes were written, adding its size to the total.
fn write_next<T: Serialize + ?Sized>(item: &T, buffer: &mut Vec<u8>, total: usize) -> (result:
    Written)
    requires
        item.spec_ready(),
    ensures
        step_writes(item, total, old(buffer)@, final(buffer)@, result),
{
    let r = item.serialize(buffer);
    assert(item.spec_writes(old(buffer)@, buffer@, r));
    match r {
        Ok(n) => match total.checked_add(n) {
            Some(t) => Ok(t),
            None => Err(SerializeError),
        },
        Err(e) => Err(e),
    }
}

/// Whether the first `k` items were written one after the other through the given buffer states
/// and running totals.
pub open spec fn write_trace<T: Serialize>(
    items: Seq<T>,
    states: Seq<Seq<u8>>,
    totals: Seq<usize>,
    k: int,
) -> bool {
    &&& 0 <= k <= items.len()
    &&& states.len() == k + 1
    &&& totals.len() == k + 1
    &&& forall|i: int| 0 <= i < k ==> #[trigger] write_step(items, states, totals, i)
}

/// Whether item `i` was written from its state to the next one, adding to the running total.
pub open spec fn write_step<T: Serialize>(
    items: Seq<T>,
    states: Seq<Seq<u8>>,
    totals: Seq<usize>,
    i: int,
) -> bool {
    step_writes(&items[i], totals[i], states[i], states[i + 1], Ok(totals[i + 1]))
}

/// Whether writing the items one after the other, from `before`, can leave `after` and return
/// `result`: the sum of their sizes, or the first error.
pub open spec fn items_write<T: Serialize>(
    items: Seq<T>,
    before: Seq<u8>,
    after: Seq<u8>,
    result: Written,
) -> bool {
    exists|states: Seq<Seq<u8>>, totals: Seq<usize>, k: int|
        {
            &&& #[trigger] write_trace(items, states, totals, k)
            &&& states[0] == before
            &&& totals[0] == 0
            &&& if k == items.len() {
                after == states[k] && result == Ok::<usize, SerializeError>(totals[k])
            } else {
                result is Err && step_writes(&items[k], totals[k], states[k], after, result)
            }
        }
}

/// Writes the items one after the other.
fn write_items<T: Serialize>(items: &[T], buffer: &mut Vec<u8>) -> (result: Written)
    requires
        forall|i: int| 0 <= i < items@.len() ==> (#[trigger] items@[i]).spec_ready(),
    ensures
        items_write(items@, old(buffer)@, final(buffer)@, result),
{
    let ghost start = buffer@;
    let mut total: usize = 0;
    let mut i: usize = 0;
    let ghost mut states: Seq<Seq<u8>> = seq![buffer@];
    let ghost mut totals: Seq<usize> = seq![0usize];
    while i < items.len()
        invariant
            i <= items@.len(),
            forall|j: int| 0 <= j < items@.len() ==> (#[trigger] items@[j]).spec_ready(),
            start == old(buffer)@,
            write_trace(items@, states, totals, i as int),
            states[0] == start,
            totals[0] == 0,
            states.last() == buffer@,
            totals.last() == total,
        decreases items.len() - i,
    {
        let ghost mid = buffer@;
        let r = write_next(&items[i], buffer, total);
        match r {
            Ok(t) => {
                proof {
                    let s2 = states.push(buffer@);
                    let t2 = totals.push(t);
                    assert forall|j: int| 0 <= j < i + 1 implies #[trigger] write_step(items@, s2, t2, j) by {
                        if j < i {
                            assert(write_step(items@, states, totals, j));
                            assert(s2[j] == states[j] && s2[j + 1] == states[j + 1]);
                            assert(t2[j] == totals[j] && t2[j + 1] == totals[j + 1]);
                        }
                    }
                    states = s2;
                    totals = t2;
                }
                total = t;
            },
            Err(e) => {
                assert(write_trace(items@, states, totals, i as int));
                return Err(e);
            },
        }
        i = i + 1;
    }
    Ok(total)
}

impl Serialize for u8 {
    open spec fn spec_writes(&self, before: Seq<u8>, after: Seq<u8>, result: Written) -> bool {
        after == before + seq![*self] && result == Ok::<usize, SerializeError>(1)
    }

    open spec fn spec_ready(&self) -> bool {
        true
    }

    fn serialize(&self, buffer: &mut Vec<u8>) -> (result: Written) {
        buffer.push(*self);
        assert(buffer@ =~= old(buffer)@ + seq![*self]);
        Ok(1)
    }
}

impl Serialize for i8 {
    open spec fn spec_writes(&self, before: Seq<u8>, after: Seq<u8>, result: Written) -> bool {
        after == before + seq![*self as u8] && result == Ok::<usize, SerializeError>(1)
    }

    open spec fn spec_ready(&self) -> bool {
        true
    }

    fn serialize(&self, buffer: &mut Vec<u8>) -> (result: Written) {
        buffer.push(*self as u8);
        assert(buffer@ =~= old(buffer)@ + seq![*self as u8]);
        Ok(1)
    }
}

impl Serialize for u16 {
    open spec fn spec_writes(&self, before: Seq<u8>, after: Seq<u8>, result: Written) -> bool {
        after == before + be_u16(*self) && result == Ok::<usize, SerializeError>(2)
    }

    open spec fn spec_ready(&self) -> bool {
        true
    }

    fn serialize(&self, buffer: &mut Vec<u8>) -> (result: Written) {
        put_u16(buffer, *self);
        Ok(2)
    }
}

impl Serialize for i16 {
    open spec fn spec_writes(&self, before: Seq<u8>, after: Seq<u8>, result: Written) -> bool {
        after == before + be_u16(*self as u16) && result == Ok::<usize, SerializeError>(2)
    }

    open spec fn spec_ready(&self) -> bool {
        true
    }

    fn serialize(&self, buffer: &mut Vec<u8>) -> (result: Written) {
        put_u16(buffer, *self as u16);
        Ok(2)
    }
}

impl Serialize for u32 {
    open spec fn spec_writes(&self, before: Seq<u8>, after: Seq<u8>, result: Written) -> bool {
        after == before + be_u32(*self) && result == Ok::<usize, SerializeError>(4)
    }

    open spec fn spec_ready(&self) -> bool {
        true
    }

    fn serialize(&self, buffer: &mut Vec<u8>) -> (result: Written) {
        put_u32(buffer, *self);
        Ok(4)
    }
}

impl Serialize for i32 {
    open spec fn spec_writes(&self, before: Seq<u8>, after: Seq<u8>, result: Written) -> bool {
        after == before + be_u32(*self as u32) && result == Ok::<usize, SerializeError>(4)
    }

    open spec fn spec_ready(&self) -> bool {
        true
    }

    fn serialize(&self, buffer: &mut Vec<u8>) -> (result: Written) {
        put_u32(buffer, *self as u32);
        Ok(4)
    }
}

impl Serialize for u64 {
    open spec fn spec_writes(&self, before: Seq<u8>, after: Seq<u8>, result: Written) -> bool {
        after == before + be_u64(*self) && result == Ok::<usize, SerializeError>(8)
    }

    open spec fn spec_ready(&self) -> bool {
        true
    }

    fn serialize(&self, buffer: &mut Vec<u8>) -> (result: Written) {
        put_u64(buffer, *self);
        Ok(8)
    }
}

impl Serialize for i64 {
    open spec fn spec_writes(&self, before: Seq<u8>, after: Seq<u8>, result: Written) -> bool {
        after == before + be_u64(*self as u64) && result == Ok::<usize, SerializeError>(8)
    }

    open spec fn spec_ready(&self) -> bool {
        true
    }

    fn serialize(&self, buffer: &mut Vec<u8>) -> (result: Written) {
        put_u64(buffer, *self as u64);
        Ok(8)
    }
}

impl Serialize for bool {
    open spec fn spec_writes(&self, before: Seq<u8>, after: Seq<u8>, result: Written) -> bool {
        after == before + seq![if *self {
            1u8
        } else {
            0u8
        }] && result == Ok::<usize, SerializeError>(1)
    }

    open spec fn spec_ready(&self) -> bool {
        true
    }

    fn serialize(&self, buffer: &mut Vec<u8>) -> (result: Written) {
        if *self {
            1u8.serialize(buffer)
        } else {
            0u8.serialize(buffer)
        }
    }
}

/// Slices write each element in order.
impl<T: Serialize> Serialize for [T] {
    open spec fn spec_writes(&self, before: Seq<u8>, after: Seq<u8>, result: Written) -> bool {
        items_write(self@, before, after, result)
    }

    open spec fn spec_ready(&self) -> bool {
        forall|i: int| 0 <= i < self@.len() ==> (#[trigger] self@[i]).spec_ready()
    }

    fn serialize(&self, buffer: &mut Vec<u8>) -> (result: Written) {
        write_items(self, buffer)
    }
}

/// Vectors write each element in order.
impl<T: Serialize> Serialize for Vec<T> {
    open spec fn spec_writes(&self, before: Seq<u8>, after: Seq<u8>, result: Written) -> bool {
        items_write(self@, before, after, result)
    }

    open spec fn spec_ready(&self) -> bool {
        forall|i: int| 0 <= i < self@.len() ==> (#[trigger] self@[i]).spec_ready()
    }

    fn serialize(&self, buffer: &mut Vec<u8>) -> (result: Written) {
        write_items(self.as_slice(), buffer)
    }
}

/// Arrays write each element in order.
impl<T: Serialize, const N: usize> Serialize for [T; N] {
    open spec fn spec_writes(&self, before: Seq<u8>, after: Seq<u8>, result: Written) -> bool {
        items_write(self@, before, after, result)
    }

    open spec fn spec_ready(&self) -> bool {
        forall|i: int| 0 <= i < self@.len() ==> (#[trigger] self@[i]).spec_ready()
    }

    fn serialize(&self, buffer: &mut Vec<u8>) -> (result: Written) {
        write_items(self.as_slice(), buffer)
    }
}

/// Functions write whatever they write into the buffer, and return what they return: what that
/// is, only their own contract says. `serialize` states that the call leaves the buffer and
/// returns the result as a call of the function on that buffer can.
impl<F: Fn(&mut Vec<u8>) -> Written> Serialize for F {
    open spec fn spec_writes(&self, before: Seq<u8>, after: Seq<u8>, result: Written) -> bool {
        true
    }

    open spec fn spec_ready(&self) -> bool {
        forall|b: &mut Vec<u8>| call_requires(*self, (b,))
    }

    fn serialize(&self, buffer: &mut Vec<u8>) -> (result: Written)
        ensures
            exists|b: &mut Vec<u8>|
                #![trigger call_ensures(*self, (b,), result)]
                *b == *old(buffer) && *final(b) == *final(buffer) && call_ensures(*self, (b,), result),
    {
        self(buffer)
    }

    /// The payload is what the function writes into an empty buffer.
    fn serialize_len(&self, length: LengthField, buffer: &mut Vec<u8>) -> (result: Written)
        ensures
            exists|b: &mut Vec<u8>, r: Written|
                #![trigger call_ensures(*self, (b,), r)]
                (*b)@ == Seq::<u8>::empty() && call_ensures(*self, (b,), r) && length_writes(
                    r,
                    final(b)@,
                    length,
                    old(buffer)@,
                    final(buffer)@,
                    result,
                ),
    {
        let mut payload: Vec<u8> = Vec::new();
        let written = self(&mut payload);
        let ghost payload_bytes = payload@;
        let result = append_with_length(written, &mut payload, length, buffer);
        assert(self.spec_writes(Seq::empty(), payload_bytes, written));
        result
    }
}

impl<A: Serialize> Serialize for (A,) {
    open spec fn spec_writes(&self, before: Seq<u8>, after: Seq<u8>, result: Written) -> bool {
        step_writes(&self.0, 0usize, before, after, result)
    }

    open spec fn spec_ready(&self) -> bool {
        self.0.spec_ready()
    }

    fn serialize(&self, buffer: &mut Vec<u8>) -> (result: Written) {
        write_next(&self.0, buffer, 0usize)
    }
}

impl<A: Serialize, B: Serialize> Serialize for (A, B) {
    open spec fn spec_writes(&self, before: Seq<u8>, after: Seq<u8>, result: Written) -> bool {
        exists|m0: Seq<u8>, r0: Written| #[trigger] step_writes(&self.0, 0usize, before, m0, r0) && match r0 { Err(e) => after == m0 && result == Err::<usize, SerializeError>(e), Ok(t0) => step_writes(&self.1, t0, m0, after, result) }
    }

    open spec fn spec_ready(&self) -> bool {
        self.0.spec_ready() && self.1.spec_ready()
    }

    fn serialize(&self, buffer: &mut Vec<u8>) -> (result: Written) {
        let ghost m0_before = buffer@;
        let r0 = write_next(&self.0, buffer, 0usize);
        let ghost m0 = buffer@;
        let t0 = match r0 { Ok(t) => t, Err(e) => return Err(e) };
        write_next(&self.1, buffer, t0)
    }
}

impl<A: Serialize, B: Serialize, C: Serialize> Serialize for (A, B, C) {
    open spec fn spec_writes(&self, before: Seq<u8>, after: Seq<u8>, result: Written) -> bool {
        exists|m0: Seq<u8>, r0: Written| #[trigger] step_writes(&self.0, 0usize, before, m0, r0) && match r0 { Err(e) => after == m0 && result == Err::<usize, SerializeError>(e), Ok(t0) => exists|m1: Seq<u8>, r1: Written| #[trigger] step_writes(&self.1, t0, m0, m1, r1) && match r1 { Err(e) => after == m1 && result == Err::<usize, SerializeError>(e), Ok(t1) => step_writes(&self.2, t1, m1, after, result) } }
    }

    open spec fn spec_ready(&self) -> bool {
        self.0.spec_ready() && self.1.spec_ready() && self.2.spec_ready()
    }

    fn serialize(&self, buffer: &mut Vec<u8>) -> (result: Written) {
        let ghost m0_before = buffer@;
        let r0 = write_next(&self.0, buffer, 0usize);
        let ghost m0 = buffer@;
        let t0 = match r0 { Ok(t) => t, Err(e) => return Err(e) };
        let ghost m1_before = buffer@;
        let r1 = write_next(&self.1, buffer, t0);
        let ghost m1 = buffer@;
        let t1 = match r1 { Ok(t) => t, Err(e) => return Err(e) };
        write_next(&self.2, buffer, t1)
    }
}

impl<A: Serialize, B: Serialize, C: Serialize, D: Serialize> Serialize for (A, B, C, D) {
    open spec fn spec_writes(&self, before: Seq<u8>, after: Seq<u8>, result: Written) -> bool {
        exists|m0: Seq<u8>, r0: Written| #[trigger] step_writes(&self.0, 0usize, before, m0, r0) && match r0 { Err(e) => after == m0 && result == Err::<usize, SerializeError>(e), Ok(t0) => exists|m1: Seq<u8>, r1: Written| #[trigger] step_writes(&self.1, t0, m0, m1, r1) && match r1 { Err(e) => after == m1 && result == Err::<usize, SerializeError>(e), Ok(t1) => exists|m2: Seq<u8>, r2: Written| #[trigger] step_writes(&self.2, t1, m1, m2, r2) && match r2 { Err(e) => after == m2 && result == Err::<usize, SerializeError>(e), Ok(t2) => step_writes(&self.3, t2, m2, after, result) } } }
    }

    open spec fn spec_ready(&self) -> bool {
        self.0.spec_ready() && self.1.spec_ready() && self.2.spec_ready() && self.3.spec_ready()
    }

    fn serialize(&self, buffer: &mut Vec<u8>) -> (result: Written) {
        let ghost m0_before = buffer@;
        let r0 = write_next(&self.0, buffer, 0usize);
        let ghost m0 = buffer@;
        let t0 = match r0 { Ok(t) => t, Err(e) => return Err(e) };
        let ghost m1_before = buffer@;
        let r1 = write_next(&self.1, buffer, t0);
        let ghost m1 = buffer@;
        let t1 = match r1 { Ok(t) => t, Err(e) => return Err(e) };
        let ghost m2_before = buffer@;
        let r2 = write_next(&self.2, buffer, t1);
        let ghost m2 = buffer@;
        let t2 = match r2 { Ok(t) => t, Err(e) => return Err(e) };
        write_next(&self.3, buffer, t2)
    }
}

impl<A: Serialize, B: Serialize, C: Serialize, D: Serialize, E: Serialize> Serialize for (A, B, C, D, E) {
    open spec fn spec_writes(&self, before: Seq<u8>, after: Seq<u8>, result: Written) -> bool {
        exists|m0: Seq<u8>, r0: Written| #[trigger] step_writes(&self.0, 0usize, before, m0, r0) && match r0 { Err(e) => after == m0 && result == Err::<usize, SerializeError>(e), Ok(t0) => exists|m1: Seq<u8>, r1: Written| #[trigger] step_writes(&self.1, t0, m0, m1, r1) && match r1 { Err(e) => after == m1 && result == Err::<usize, SerializeError>(e), Ok(t1) => exists|m2: Seq<u8>, r2: Written| #[trigger] step_writes(&self.2, t1, m1, m2, r2) && match r2 { Err(e) => after == m2 && result == Err::<usize, SerializeError>(e), Ok(t2) => exists|m3: Seq<u8>, r3: Written| #[trigger] step_writes(&self.3, t2, m2, m3, r3) && match r3 { Err(e) => after == m3 && result == Err::<usize, SerializeError>(e), Ok(t3) => step_writes(&self.4, t3, m3, after, result) } } } }
    }

    open spec fn spec_ready(&self) -> bool {
        self.0.spec_ready() && self.1.spec_ready() && self.2.spec_ready() && self.3.spec_ready() && self.4.spec_ready()
    }

    fn serialize(&self, buffer: &mut Vec<u8>) -> (result: Written) {
        let ghost m0_before = buffer@;
        let r0 = write_next(&self.0, buffer, 0usize);
        let ghost m0 = buffer@;
        let t0 = match r0 { Ok(t) => t, Err(e) => return Err(e) };
        let ghost m1_before = buffer@;
        let r1 = write_next(&self.1, buffer, t0);
        let ghost m1 = buffer@;
        let t1 = match r1 { Ok(t) => t, Err(e) => return Err(e) };
        let ghost m2_before = buffer@;
        let r2 = write_next(&self.2, buffer, t1);
        let ghost m2 = buffer@;
        let t2 = match r2 { Ok(t) => t, Err(e) => return Err(e) };
        let ghost m3_before = buffer@;
        let r3 = write_next(&self.3, buffer, t2);
        let ghost m3 = buffer@;
        let t3 = match r3 { Ok(t) => t, Err(e) => return Err(e) };
        write_next(&self.4, buffer, t3)
    }
}

impl<A: Serialize, B: Serialize, C: Serialize, D: Serialize, E: Serialize, F: Serialize> Serialize for (A, B, C, D, E, F) {
    open spec fn spec_writes(&self, before: Seq<u8>, after: Seq<u8>, result: Written) -> bool {
        exists|m0: Seq<u8>, r0: Written| #[trigger] step_writes(&self.0, 0usize, before, m0, r0) && match r0 { Err(e) => after == m0 && result == Err::<usize, SerializeError>(e), Ok(t0) => exists|m1: Seq<u8>, r1: Written| #[trigger] step_writes(&self.1, t0, m0, m1, r1) && match r1 { Err(e) => after == m1 && result == Err::<usize, SerializeError>(e), Ok(t1) => exists|m2: Seq<u8>, r2: Written| #[trigger] step_writes(&self.2, t1, m1, m2, r2) && match r2 { Err(e) => after == m2 && result == Err::<usize, SerializeError>(e), Ok(t2) => exists|m3: Seq<u8>, r3: Written| #[trigger] step_writes(&self.3, t2, m2, m3, r3) && match r3 { Err(e) => after == m3 && result == Err::<usize, SerializeError>(e), Ok(t3) => exists|m4: Seq<u8>, r4: Written| #[trigger] step_writes(&self.4, t3, m3, m4, r4) && match r4 { Err(e) => after == m4 && result == Err::<usize, SerializeError>(e), Ok(t4) => step_writes(&self.5, t4, m4, after, result) } } } } }
    }

    open spec fn spec_ready(&self) -> bool {
        self.0.spec_ready() && self.1.spec_ready() && self.2.spec_ready() && self.3.spec_ready() && self.4.spec_ready() && self.5.spec_ready()
    }

    fn serialize(&self, buffer: &mut Vec<u8>) -> (result: Written) {
        let ghost m0_before = buffer@;
        let r0 = write_next(&self.0, buffer, 0usize);
        let ghost m0 = buffer@;
        let t0 = match r0 { Ok(t) => t, Err(e) => return Err(e) };
        let ghost m1_before = buffer@;
        let r1 = write_next(&self.1, buffer, t0);
        let ghost m1 = buffer@;
        let t1 = match r1 { Ok(t) => t, Err(e) => return Err(e) };
        let ghost m2_before = buffer@;
        let r2 = write_next(&self.2, buffer, t1);
        let ghost m2 = buffer@;
        let t2 = match r2 { Ok(t) => t, Err(e) => return Err(e) };
        let ghost m3_before = buffer@;
        let r3 = write_next(&self.3, buffer, t2);
        let ghost m3 = buffer@;
        let t3 = match r3 { Ok(t) => t, Err(e) => return Err(e) };
        let ghost m4_before = buffer@;
        let r4 = write_next(&self.4, buffer, t3);
        let ghost m4 = buffer@;
        let t4 = match r4 { Ok(t) => t, Err(e) => return Err(e) };
        write_next(&self.5, buffer, t4)
    }
}

impl<A: Serialize, B: Serialize, C: Serialize, D: Serialize, E: Serialize, F: Serialize, G: Serialize> Serialize for (A, B, C, D, E, F, G) {
    open spec fn spec_writes(&self, before: Seq<u8>, after: Seq<u8>, result: Written) -> bool {
        exists|m0: Seq<u8>, r0: Written| #[trigger] step_writes(&self.0, 0usize, before, m0, r0) && match r0 { Err(e) => after == m0 && result == Err::<usize, SerializeError>(e), Ok(t0) => exists|m1: Seq<u8>, r1: Written| #[trigger] step_writes(&self.1, t0, m0, m1, r1) && match r1 { Err(e) => after == m1 && result == Err::<usize, SerializeError>(e), Ok(t1) => exists|m2: Seq<u8>, r2: Written| #[trigger] step_writes(&self.2, t1, m1, m2, r2) && match r2 { Err(e) => after == m2 && result == Err::<usize, SerializeError>(e), Ok(t2) => exists|m3: Seq<u8>, r3: Written| #[trigger] step_writes(&self.3, t2, m2, m3, r3) && match r3 { Err(e) => after == m3 && result == Err::<usize, SerializeError>(e), Ok(t3) => exists|m4: Seq<u8>, r4: Written| #[trigger] step_writes(&self.4, t3, m3, m4, r4) && match r4 { Err(e) => after == m4 && result == Err::<usize, SerializeError>(e), Ok(t4) => exists|m5: Seq<u8>, r5: Written| #[trigger] step_writes(&self.5, t4, m4, m5, r5) && match r5 { Err(e) => after == m5 && result == Err::<usize, SerializeError>(e), Ok(t5) => step_writes(&self.6, t5, m5, after, result) } } } } } }
    }

    open spec fn spec_ready(&self) -> bool {
        self.0.spec_ready() && self.1.spec_ready() && self.2.spec_ready() && self.3.spec_ready() && self.4.spec_ready() && self.5.spec_ready() && self.6.spec_ready()
    }

    fn serialize(&self, buffer: &mut Vec<u8>) -> (result: Written) {
        let ghost m0_before = buffer@;
        let r0 = write_next(&self.0, buffer, 0usize);
        let ghost m0 = buffer@;
        let t0 = match r0 { Ok(t) => t, Err(e) => return Err(e) };
        let ghost m1_before = buffer@;
        let r1 = write_next(&self.1, buffer, t0);
        let ghost m1 = buffer@;
        let t1 = match r1 { Ok(t) => t, Err(e) => return Err(e) };
        let ghost m2_before = buffer@;
        let r2 = write_next(&self.2, buffer, t1);
        let ghost m2 = buffer@;
        let t2 = match r2 { Ok(t) => t, Err(e) => return Err(e) };
        let ghost m3_before = buffer@;
        let r3 = write_next(&self.3, buffer, t2);
        let ghost m3 = buffer@;
        let t3 = match r3 { Ok(t) => t, Err(e) => return Err(e) };
        let ghost m4_before = buffer@;
        let r4 = write_next(&self.4, buffer, t3);
        let ghost m4 = buffer@;
        let t4 = match r4 { Ok(t) => t, Err(e) => return Err(e) };
        let ghost m5_before = buffer@;
        let r5 = write_next(&self.5, buffer, t4);
        let ghost m5 = buffer@;
        let t5 = match r5 { Ok(t) => t, Err(e) => return Err(e) };
        write_next(&self.6, buffer, t5)
    }
}

impl<A: Serialize, B: Serialize, C: Serialize, D: Serialize, E: Serialize, F: Serialize, G: Serialize, H: Serialize> Serialize for (A, B, C, D, E, F, G, H) {
    open spec fn spec_writes(&self, before: Seq<u8>, after: Seq<u8>, result: Written) -> bool {
        exists|m0: Seq<u8>, r0: Written| #[trigger] step_writes(&self.0, 0usize, before, m0, r0) && match r0 { Err(e) => after == m0 && result == Err::<usize, SerializeError>(e), Ok(t0) => exists|m1: Seq<u8>, r1: Written| #[trigger] step_writes(&self.1, t0, m0, m1, r1) && match r1 { Err(e) => after == m1 && result == Err::<usize, SerializeError>(e), Ok(t1) => exists|m2: Seq<u8>, r2: Written| #[trigger] step_writes(&self.2, t1, m1, m2, r2) && match r2 { Err(e) => after == m2 && result == Err::<usize, SerializeError>(e), Ok(t2) => exists|m3: Seq<u8>, r3: Written| #[trigger] step_writes(&self.3, t2, m2, m3, r3) && match r3 { Err(e) => after == m3 && result == Err::<usize, SerializeError>(e), Ok(t3) => exists|m4: Seq<u8>, r4: Written| #[trigger] step_writes(&self.4, t3, m3, m4, r4) && match r4 { Err(e) => after == m4 && result == Err::<usize, SerializeError>(e), Ok(t4) => exists|m5: Seq<u8>, r5: Written| #[trigger] step_writes(&self.5, t4, m4, m5, r5) && match r5 { Err(e) => after == m5 && result == Err::<usize, SerializeError>(e), Ok(t5) => exists|m6: Seq<u8>, r6: Written| #[trigger] step_writes(&self.6, t5, m5, m6, r6) && match r6 { Err(e) => after == m6 && result == Err::<usize, SerializeError>(e), Ok(t6) => step_writes(&self.7, t6, m6, after, result) } } } } } } }
    }

    open spec fn spec_ready(&self) -> bool {
        self.0.spec_ready() && self.1.spec_ready() && self.2.spec_ready() && self.3.spec_ready() && self.4.spec_ready() && self.5.spec_ready() && self.6.spec_ready() && self.7.spec_ready()
    }

    fn serialize(&self, buffer: &mut Vec<u8>) -> (result: Written) {
        let ghost m0_before = buffer@;
        let r0 = write_next(&self.0, buffer, 0usize);
        let ghost m0 = buffer@;
        let t0 = match r0 { Ok(t) => t, Err(e) => return Err(e) };
        let ghost m1_before = buffer@;
        let r1 = write_next(&self.1, buffer, t0);
        let ghost m1 = buffer@;
        let t1 = match r1 { Ok(t) => t, Err(e) => return Err(e) };
        let ghost m2_before = buffer@;
        let r2 = write_next(&self.2, buffer, t1);
        let ghost m2 = buffer@;
        let t2 = match r2 { Ok(t) => t, Err(e) => return Err(e) };
        let ghost m3_before = buffer@;
        let r3 = write_next(&self.3, buffer, t2);
        let ghost m3 = buffer@;
        let t3 = match r3 { Ok(t) => t, Err(e) => return Err(e) };
        let ghost m4_before = buffer@;
        let r4 = write_next(&self.4, buffer, t3);
        let ghost m4 = buffer@;
        let t4 = match r4 { Ok(t) => t, Err(e) => return Err(e) };
        let ghost m5_before = buffer@;
        let r5 = write_next(&self.5, buffer, t4);
        let ghost m5 = buffer@;
        let t5 = match r5 { Ok(t) => t, Err(e) => return Err(e) };
        let ghost m6_before = buffer@;
        let r6 = write_next(&self.6, buffer, t5);
        let ghost m6 = buffer@;
        let t6 = match r6 { Ok(t) => t, Err(e) => return Err(e) };
        write_next(&self.7, buffer, t6)
    }
}

impl<A: Serialize, B: Serialize, C: Serialize, D: Serialize, E: Serialize, F: Serialize, G: Serialize, H: Serialize, I: Serialize> Serialize for (A, B, C, D, E, F, G, H, I) {
    open spec fn spec_writes(&self, before: Seq<u8>, after: Seq<u8>, result: Written) -> bool {
        exists|m0: Seq<u8>, r0: Written| #[trigger] step_writes(&self.0, 0usize, before, m0, r0) && match r0 { Err(e) => after == m0 && result == Err::<usize, SerializeError>(e), Ok(t0) => exists|m1: Seq<u8>, r1: Written| #[trigger] step_writes(&self.1, t0, m0, m1, r1) && match r1 { Err(e) => after == m1 && result == Err::<usize, SerializeError>(e), Ok(t1) => exists|m2: Seq<u8>, r2: Written| #[trigger] step_writes(&self.2, t1, m1, m2, r2) && match r2 { Err(e) => after == m2 && result == Err::<usize, SerializeError>(e), Ok(t2) => exists|m3: Seq<u8>, r3: Written| #[trigger] step_writes(&self.3, t2, m2, m3, r3) && match r3 { Err(e) => after == m3 && result == Err::<usize, SerializeError>(e), Ok(t3) => exists|m4: Seq<u8>, r4: Written| #[trigger] step_writes(&self.4, t3, m3, m4, r4) && match r4 { Err(e) => after == m4 && result == Err::<usize, SerializeError>(e), Ok(t4) => exists|m5: Seq<u8>, r5: Written| #[trigger] step_writes(&self.5, t4, m4, m5, r5) && match r5 { Err(e) => after == m5 && result == Err::<usize, SerializeError>(e), Ok(t5) => exists|m6: Seq<u8>, r6: Written| #[trigger] step_writes(&self.6, t5, m5, m6, r6) && match r6 { Err(e) => after == m6 && result == Err::<usize, SerializeError>(e), Ok(t6) => exists|m7: Seq<u8>, r7: Written| #[trigger] step_writes(&self.7, t6, m6, m7, r7) && match r7 { Err(e) => after == m7 && result == Err::<usize, SerializeError>(e), Ok(t7) => step_writes(&self.8, t7, m7, after, result) } } } } } } } }
    }

    open spec fn spec_ready(&self) -> bool {
        self.0.spec_ready() && self.1.spec_ready() && self.2.spec_ready() && self.3.spec_ready() && self.4.spec_ready() && self.5.spec_ready() && self.6.spec_ready() && self.7.spec_ready() && self.8.spec_ready()
    }

    fn serialize(&self, buffer: &mut Vec<u8>) -> (result: Written) {
        let ghost m0_before = buffer@;
        let r0 = write_next(&self.0, buffer, 0usize);
        let ghost m0 = buffer@;
        let t0 = match r0 { Ok(t) => t, Err(e) => return Err(e) };
        let ghost m1_before = buffer@;
        let r1 = write_next(&self.1, buffer, t0);
        let ghost m1 = buffer@;
        let t1 = match r1 { Ok(t) => t, Err(e) => return Err(e) };
        let ghost m2_before = buffer@;
        let r2 = write_next(&self.2, buffer, t1);
        let ghost m2 = buffer@;
        let t2 = match r2 { Ok(t) => t, Err(e) => return Err(e) };
        let ghost m3_before = buffer@;
        let r3 = write_next(&self.3, buffer, t2);
        let ghost m3 = buffer@;
        let t3 = match r3 { Ok(t) => t, Err(e) => return Err(e) };
        let ghost m4_before = buffer@;
        let r4 = write_next(&self.4, buffer, t3);
        let ghost m4 = buffer@;
        let t4 = match r4 { Ok(t) => t, Err(e) => return Err(e) };
        let ghost m5_before = buffer@;
        let r5 = write_next(&self.5, buffer, t4);
        let ghost m5 = buffer@;
        let t5 = match r5 { Ok(t) => t, Err(e) => return Err(e) };
        let ghost m6_before = buffer@;
        let r6 = write_next(&self.6, buffer, t5);
        let ghost m6 = buffer@;
        let t6 = match r6 { Ok(t) => t, Err(e) => return Err(e) };
        let ghost m7_before = buffer@;
        let r7 = write_next(&self.7, buffer, t6);
        let ghost m7 = buffer@;
        let t7 = match r7 { Ok(t) => t, Err(e) => return Err(e) };
        write_next(&self.8, buffer, t7)
    }
}

impl<A: Serialize, B: Serialize, C: Serialize, D: Serialize, E: Serialize, F: Serialize, G: Serialize, H: Serialize, I: Serialize, J: Serialize> Serialize for (A, B, C, D, E, F, G, H, I, J) {
    open spec fn spec_writes(&self, before: Seq<u8>, after: Seq<u8>, result: Written) -> bool {
        exists|m0: Seq<u8>, r0: Written| #[trigger] step_writes(&self.0, 0usize, before, m0, r0) && match r0 { Err(e) => after == m0 && result == Err::<usize, SerializeError>(e), Ok(t0) => exists|m1: Seq<u8>, r1: Written| #[trigger] step_writes(&self.1, t0, m0, m1, r1) && match r1 { Err(e) => after == m1 && result == Err::<usize, SerializeError>(e), Ok(t1) => exists|m2: Seq<u8>, r2: Written| #[trigger] step_writes(&self.2, t1, m1, m2, r2) && match r2 { Err(e) => after == m2 && result == Err::<usize, SerializeError>(e), Ok(t2) => exists|m3: Seq<u8>, r3: Written| #[trigger] step_writes(&self.3, t2, m2, m3, r3) && match r3 { Err(e) => after == m3 && result == Err::<usize, SerializeError>(e), Ok(t3) => exists|m4: Seq<u8>, r4: Written| #[trigger] step_writes(&self.4, t3, m3, m4, r4) && match r4 { Err(e) => after == m4 && result == Err::<usize, SerializeError>(e), Ok(t4) => exists|m5: Seq<u8>, r5: Written| #[trigger] step_writes(&self.5, t4, m4, m5, r5) && match r5 { Err(e) => after == m5 && result == Err::<usize, SerializeError>(e), Ok(t5) => exists|m6: Seq<u8>, r6: Written| #[trigger] step_writes(&self.6, t5, m5, m6, r6) && match r6 { Err(e) => after == m6 && result == Err::<usize, SerializeError>(e), Ok(t6) => exists|m7: Seq<u8>, r7: Written| #[trigger] step_writes(&self.7, t6, m6, m7, r7) && match r7 { Err(e) => after == m7 && result == Err::<usize, SerializeError>(e), Ok(t7) => exists|m8: Seq<u8>, r8: Written| #[trigger] step_writes(&self.8, t7, m7, m8, r8) && match r8 { Err(e) => after == m8 && result == Err::<usize, SerializeError>(e), Ok(t8) => step_writes(&self.9, t8, m8, after, result) } } } } } } } } }
    }

    open spec fn spec_ready(&self) -> bool {
        self.0.spec_ready() && self.1.spec_ready() && self.2.spec_ready() && self.3.spec_ready() && self.4.spec_ready() && self.5.spec_ready() && self.6.spec_ready() && self.7.spec_ready() && self.8.spec_ready() && self.9.spec_ready()
    }

    fn serialize(&self, buffer: &mut Vec<u8>) -> (result: Written) {
        let ghost m0_before = buffer@;
        let r0 = write_next(&self.0, buffer, 0usize);
        let ghost m0 = buffer@;
        let t0 = match r0 { Ok(t) => t, Err(e) => return Err(e) };
        let ghost m1_before = buffer@;
        let r1 = write_next(&self.1, buffer, t0);
        let ghost m1 = buffer@;
        let t1 = match r1 { Ok(t) => t, Err(e) => return Err(e) };
        let ghost m2_before = buffer@;
        let r2 = write_next(&self.2, buffer, t1);
        let ghost m2 = buffer@;
        let t2 = match r2 { Ok(t) => t, Err(e) => return Err(e) };
        let ghost m3_before = buffer@;
        let r3 = write_next(&self.3, buffer, t2);
        let ghost m3 = buffer@;
        let t3 = match r3 { Ok(t) => t, Err(e) => return Err(e) };
        let ghost m4_before = buffer@;
        let r4 = write_next(&self.4, buffer, t3);
        let ghost m4 = buffer@;
        let t4 = match r4 { Ok(t) => t, Err(e) => return Err(e) };
        let ghost m5_before = buffer@;
        let r5 = write_next(&self.5, buffer, t4);
        let ghost m5 = buffer@;
        let t5 = match r5 { Ok(t) => t, Err(e) => return Err(e) };
        let ghost m6_before = buffer@;
        let r6 = write_next(&self.6, buffer, t5);
        let ghost m6 = buffer@;
        let t6 = match r6 { Ok(t) => t, Err(e) => return Err(e) };
        let ghost m7_before = buffer@;
        let r7 = write_next(&self.7, buffer, t6);
        let ghost m7 = buffer@;
        let t7 = match r7 { Ok(t) => t, Err(e) => return Err(e) };
        let ghost m8_before = buffer@;
        let r8 = write_next(&self.8, buffer, t7);
        let ghost m8 = buffer@;
        let t8 = match r8 { Ok(t) => t, Err(e) => return Err(e) };
        write_next(&self.9, buffer, t8)
    }
}

impl<A: Serialize, B: Serialize, C: Serialize, D: Serialize, E: Serialize, F: Serialize, G: Serialize, H: Serialize, I: Serialize, J: Serialize, K: Serialize> Serialize for (A, B, C, D, E, F, G, H, I, J, K) {
    open spec fn spec_writes(&self, before: Seq<u8>, after: Seq<u8>, result: Written) -> bool {
        exists|m0: Seq<u8>, r0: Written| #[trigger] step_writes(&self.0, 0usize, before, m0, r0) && match r0 { Err(e) => after == m0 && result == Err::<usize, SerializeError>(e), Ok(t0) => exists|m1: Seq<u8>, r1: Written| #[trigger] step_writes(&self.1, t0, m0, m1, r1) && match r1 { Err(e) => after == m1 && result == Err::<usize, SerializeError>(e), Ok(t1) => exists|m2: Seq<u8>, r2: Written| #[trigger] step_writes(&self.2, t1, m1, m2, r2) && match r2 { Err(e) => after == m2 && result == Err::<usize, SerializeError>(e), Ok(t2) => exists|m3: Seq<u8>, r3: Written| #[trigger] step_writes(&self.3, t2, m2, m3, r3) && match r3 { Err(e) => after == m3 && result == Err::<usize, SerializeError>(e), Ok(t3) => exists|m4: Seq<u8>, r4: Written| #[trigger] step_writes(&self.4, t3, m3, m4, r4) && match r4 { Err(e) => after == m4 && result == Err::<usize, SerializeError>(e), Ok(t4) => exists|m5: Seq<u8>, r5: Written| #[trigger] step_writes(&self.5, t4, m4, m5, r5) && match r5 { Err(e) => after == m5 && result == Err::<usize, SerializeError>(e), Ok(t5) => exists|m6: Seq<u8>, r6: Written| #[trigger] step_writes(&self.6, t5, m5, m6, r6) && match r6 { Err(e) => after == m6 && result == Err::<usize, SerializeError>(e), Ok(t6) => exists|m7: Seq<u8>, r7: Written| #[trigger] step_writes(&self.7, t6, m6, m7, r7) && match r7 { Err(e) => after == m7 && result == Err::<usize, SerializeError>(e), Ok(t7) => exists|m8: Seq<u8>, r8: Written| #[trigger] step_writes(&self.8, t7, m7, m8, r8) && match r8 { Err(e) => after == m8 && result == Err::<usize, SerializeError>(e), Ok(t8) => exists|m9: Seq<u8>, r9: Written| #[trigger] step_writes(&self.9, t8, m8, m9, r9) && match r9 { Err(e) => after == m9 && result == Err::<usize, SerializeError>(e), Ok(t9) => step_writes(&self.10, t9, m9, after, result) } } } } } } } } } }
    }

    open spec fn spec_ready(&self) -> bool {
        self.0.spec_ready() && self.1.spec_ready() && self.2.spec_ready() && self.3.spec_ready() && self.4.spec_ready() && self.5.spec_ready() && self.6.spec_ready() && self.7.spec_ready() && self.8.spec_ready() && self.9.spec_ready() && self.10.spec_ready()
    }

    fn serialize(&self, buffer: &mut Vec<u8>) -> (result: Written) {
        let ghost m0_before = buffer@;
        let r0 = write_next(&self.0, buffer, 0usize);
        let ghost m0 = buffer@;
        let t0 = match r0 { Ok(t) => t, Err(e) => return Err(e) };
        let ghost m1_before = buffer@;
        let r1 = write_next(&self.1, buffer, t0);
        let ghost m1 = buffer@;
        let t1 = match r1 { Ok(t) => t, Err(e) => return Err(e) };
        let ghost m2_before = buffer@;
        let r2 = write_next(&self.2, buffer, t1);
        let ghost m2 = buffer@;
        let t2 = match r2 { Ok(t) => t, Err(e) => return Err(e) };
        let ghost m3_before = buffer@;
        let r3 = write_next(&self.3, buffer, t2);
        let ghost m3 = buffer@;
        let t3 = match r3 { Ok(t) => t, Err(e) => return Err(e) };
        let ghost m4_before = buffer@;
        let r4 = write_next(&self.4, buffer, t3);
        let ghost m4 = buffer@;
        let t4 = match r4 { Ok(t) => t, Err(e) => return Err(e) };
        let ghost m5_before = buffer@;
        let r5 = write_next(&self.5, buffer, t4);
        let ghost m5 = buffer@;
        let t5 = match r5 { Ok(t) => t, Err(e) => return Err(e) };
        let ghost m6_before = buffer@;
        let r6 = write_next(&self.6, buffer, t5);
        let ghost m6 = buffer@;
        let t6 = match r6 { Ok(t) => t, Err(e) => return Err(e) };
        let ghost m7_before = buffer@;
        let r7 = write_next(&self.7, buffer, t6);
        let ghost m7 = buffer@;
        let t7 = match r7 { Ok(t) => t, Err(e) => return Err(e) };
        let ghost m8_before = buffer@;
        let r8 = write_next(&self.8, buffer, t7);
        let ghost m8 = buffer@;
        let t8 = match r8 { Ok(t) => t, Err(e) => return Err(e) };
        let ghost m9_before = buffer@;
        let r9 = write_next(&self.9, buffer, t8);
        let ghost m9 = buffer@;
        let t9 = match r9 { Ok(t) => t, Err(e) => return Err(e) };
        write_next(&self.10, buffer, t9)
    }
}

impl<A: Serialize, B: Serialize, C: Serialize, D: Serialize, E: Serialize, F: Serialize, G: Serialize, H: Serialize, I: Serialize, J: Serialize, K: Serialize, L: Serialize> Serialize for (A, B, C, D, E, F, G, H, I, J, K, L) {
    open spec fn spec_writes(&self, before: Seq<u8>, after: Seq<u8>, result: Written) -> bool {
        exists|m0: Seq<u8>, r0: Written| #[trigger] step_writes(&self.0, 0usize, before, m0, r0) && match r0 { Err(e) => after == m0 && result == Err::<usize, SerializeError>(e), Ok(t0) => exists|m1: Seq<u8>, r1: Written| #[trigger] step_writes(&self.1, t0, m0, m1, r1) && match r1 { Err(e) => after == m1 && result == Err::<usize, SerializeError>(e), Ok(t1) => exists|m2: Seq<u8>, r2: Written| #[trigger] step_writes(&self.2, t1, m1, m2, r2) && match r2 { Err(e) => after == m2 && result == Err::<usize, SerializeError>(e), Ok(t2) => exists|m3: Seq<u8>, r3: Written| #[trigger] step_writes(&self.3, t2, m2, m3, r3) && match r3 { Err(e) => after == m3 && result == Err::<usize, SerializeError>(e), Ok(t3) => exists|m4: Seq<u8>, r4: Written| #[trigger] step_writes(&self.4, t3, m3, m4, r4) && match r4 { Err(e) => after == m4 && result == Err::<usize, SerializeError>(e), Ok(t4) => exists|m5: Seq<u8>, r5: Written| #[trigger] step_writes(&self.5, t4, m4, m5, r5) && match r5 { Err(e) => after == m5 && result == Err::<usize, SerializeError>(e), Ok(t5) => exists|m6: Seq<u8>, r6: Written| #[trigger] step_writes(&self.6, t5, m5, m6, r6) && match r6 { Err(e) => after == m6 && result == Err::<usize, SerializeError>(e), Ok(t6) => exists|m7: Seq<u8>, r7: Written| #[trigger] step_writes(&self.7, t6, m6, m7, r7) && match r7 { Err(e) => after == m7 && result == Err::<usize, SerializeError>(e), Ok(t7) => exists|m8: Seq<u8>, r8: Written| #[trigger] step_writes(&self.8, t7, m7, m8, r8) && match r8 { Err(e) => after == m8 && result == Err::<usize, SerializeError>(e), Ok(t8) => exists|m9: Seq<u8>, r9: Written| #[trigger] step_writes(&self.9, t8, m8, m9, r9) && match r9 { Err(e) => after == m9 && result == Err::<usize, SerializeError>(e), Ok(t9) => exists|m10: Seq<u8>, r10: Written| #[trigger] step_writes(&self.10, t9, m9, m10, r10) && match r10 { Err(e) => after == m10 && result == Err::<usize, SerializeError>(e), Ok(t10) => step_writes(&self.11, t10, m10, after, result) } } } } } } } } } } }
    }

    open spec fn spec_ready(&self) -> bool {
        self.0.spec_ready() && self.1.spec_ready() && self.2.spec_ready() && self.3.spec_ready() && self.4.spec_ready() && self.5.spec_ready() && self.6.spec_ready() && self.7.spec_ready() && self.8.spec_ready() && self.9.spec_ready() && self.10.spec_ready() && self.11.spec_ready()
    }

    fn serialize(&self, buffer: &mut Vec<u8>) -> (result: Written) {
        let ghost m0_before = buffer@;
        let r0 = write_next(&self.0, buffer, 0usize);
        let ghost m0 = buffer@;
        let t0 = match r0 { Ok(t) => t, Err(e) => return Err(e) };
        let ghost m1_before = buffer@;
        let r1 = write_next(&self.1, buffer, t0);
        let ghost m1 = buffer@;
        let t1 = match r1 { Ok(t) => t, Err(e) => return Err(e) };
        let ghost m2_before = buffer@;
        let r2 = write_next(&self.2, buffer, t1);
        let ghost m2 = buffer@;
        let t2 = match r2 { Ok(t) => t, Err(e) => return Err(e) };
        let ghost m3_before = buffer@;
        let r3 = write_next(&self.3, buffer, t2);
        let ghost m3 = buffer@;
        let t3 = match r3 { Ok(t) => t, Err(e) => return Err(e) };
        let ghost m4_before = buffer@;
        let r4 = write_next(&self.4, buffer, t3);
        let ghost m4 = buffer@;
        let t4 = match r4 { Ok(t) => t, Err(e) => return Err(e) };
        let ghost m5_before = buffer@;
        let r5 = write_next(&self.5, buffer, t4);
        let ghost m5 = buffer@;
        let t5 = match r5 { Ok(t) => t, Err(e) => return Err(e) };
        let ghost m6_before = buffer@;
        let r6 = write_next(&self.6, buffer, t5);
        let ghost m6 = buffer@;
        let t6 = match r6 { Ok(t) => t, Err(e) => return Err(e) };
        let ghost m7_before = buffer@;
        let r7 = write_next(&self.7, buffer, t6);
        let ghost m7 = buffer@;
        let t7 = match r7 { Ok(t) => t, Err(e) => return Err(e) };
        let ghost m8_before = buffer@;
        let r8 = write_next(&self.8, buffer, t7);
        let ghost m8 = buffer@;
        let t8 = match r8 { Ok(t) => t, Err(e) => return Err(e) };
        let ghost m9_before = buffer@;
        let r9 = write_next(&self.9, buffer, t8);
        let ghost m9 = buffer@;
        let t9 = match r9 { Ok(t) => t, Err(e) => return Err(e) };
        let ghost m10_before = buffer@;
        let r10 = write_next(&self.10, buffer, t9);
        let ghost m10 = buffer@;
        let t10 = match r10 { Ok(t) => t, Err(e) => return Err(e) };
        write_next(&self.11, buffer, t10)
    }
}

/// Serialize strings into a SOME/IP byte stream, with a Byte Order Mark before and a delimiter
/// after the characters.
pub trait SerializeString {
    /// The characters of the string.
    spec fn spec_text(&self) -> Seq<char>;

    /// Serializes the string into the buffer using UTF-8 encoding, optionally preceded by a length
    /// field.
    ///
    /// # Errors
    ///
    /// Returns an error if the serialized data doesn't fit in the length field, or its size in
    /// a `usize`.
    fn serialize_utf8(&self, buffer: &mut Vec<u8>, len: Option<LengthField>) -> (result: Written)
        ensures
            string_writes(utf8_encoding(self.spec_text()), len, old(buffer)@, final(buffer)@, result),
    ;

    /// Serializes the string into the buffer using UTF-16 Big-Endian encoding, optionally preceded
    /// by a length field.
    ///
    /// # Errors
    ///
    /// Returns an error if the serialized data doesn't fit in the length field, or its size in
    /// a `usize`.
    fn serialize_utf16_be(&self, buffer: &mut Vec<u8>, len: Option<LengthField>) -> (result: Written)
        ensures
            string_writes(
                utf16_encoding(self.spec_text(), true),
                len,
                old(buffer)@,
                final(buffer)@,
                result,
            ),
    ;

    /// Serializes the string into the buffer using UTF-16 Little-Endian encoding, optionally
    /// preceded by a length field.
    ///
    /// # Errors
    ///
    /// Returns an error if the serialized data doesn't fit in the length field, or its size in
    /// a `usize`.
    fn serialize_utf16_le(&self, buffer: &mut Vec<u8>, len: Option<LengthField>) -> (result: Written)
        ensures
            string_writes(
                utf16_encoding(self.spec_text(), false),
                len,
                old(buffer)@,
                final(buffer)@,
                result,
            ),
    ;
}

/// Whether writing an encoded string, optionally preceded by a length field, from `before` can
/// leave `after` and return `result`.
pub open spec fn string_writes(
    encoded: Result<Seq<u8>, crate::bytes::ser::SerializeError>,
    len: Option<LengthField>,
    before: Seq<u8>,
    after: Seq<u8>,
    result: Written,
) -> bool {
    match encoded {
        Err(_) => result == Err::<usize, SerializeError>(SerializeError) && before.is_prefix_of(
            after,
        ),
        Ok(bytes) => match len {
            None => after == before + bytes && result == Ok::<usize, SerializeError>(
                bytes.len() as usize,
            ),
            Some(len) => if bytes.len() > len.spec_max() || bytes.len() + len.spec_width()
                > usize::MAX {
                result == Err::<usize, SerializeError>(SerializeError) && after == before
            } else {
                result == Ok::<usize, SerializeError>((bytes.len() + len.spec_width()) as usize)
                    && after == before + field_bytes(len, bytes.len()) + bytes
            },
        },
    }
}

/// Writes an encoded string, once written into `payload`, preceded by a length field if there is
/// one.
fn write_string(
    written: Result<usize, crate::bytes::ser::SerializeError>,
    payload: Vec<u8>,
    len: Option<LengthField>,
    buffer: &mut Vec<u8>,
    Ghost(encoded): Ghost<Result<Seq<u8>, crate::bytes::ser::SerializeError>>,
) -> (result: Written)
    requires
        crate::bytes::ser::serialized(encoded, Seq::empty(), payload@, written),
        len is None,
    ensures
        string_writes(encoded, len, old(buffer)@, final(buffer)@, result),
{
    match written {
        Ok(size) => {
            let mut payload = payload;
            let ghost bytes = payload@;
            buffer.append(&mut payload);
            assert(buffer@ =~= old(buffer)@ + bytes);
            Ok(size)
        },
        Err(_) => Err(SerializeError),
    }
}

/// Writes an encoded string, once written into `payload`, preceded by a length field.
fn write_string_with_length(
    written: Result<usize, crate::bytes::ser::SerializeError>,
    payload: Vec<u8>,
    len: LengthField,
    buffer: &mut Vec<u8>,
    Ghost(encoded): Ghost<Result<Seq<u8>, crate::bytes::ser::SerializeError>>,
) -> (result: Written)
    requires
        crate::bytes::ser::serialized(encoded, Seq::empty(), payload@, written),
    ensures
        string_writes(encoded, Some(len), old(buffer)@, final(buffer)@, result),
{
    match written {
        Ok(size) => {
            assert(payload@ =~= encoded.unwrap());
            if size > field_max(len) {
                return Err(SerializeError);
            }
            let total = match size.checked_add(field_width(len)) {
                Some(total) => total,
                None => return Err(SerializeError),
            };
            let ghost start = buffer@;
            write_field(len, size, buffer);
            let mut payload = payload;
            let ghost bytes = payload@;
            buffer.append(&mut payload);
            assert(buffer@ == start + field_bytes(len, size as nat) + bytes);
            Ok(total)
        },
        Err(_) => Err(SerializeError),
    }
}

impl SerializeString for str {
    open spec fn spec_text(&self) -> Seq<char> {
        self@
    }

    fn serialize_utf8(&self, buffer: &mut Vec<u8>, len: Option<LengthField>) -> (result: Written) {
        let mut payload: Vec<u8> = Vec::new();
        let written = Utf8::serialize(self, &mut payload);
        assert(Seq::<u8>::empty() + payload@ =~= payload@);
        match len {
            None => write_string(written, payload, len, buffer, Ghost(utf8_encoding(self@))),
            Some(len) => write_string_with_length(written, payload, len, buffer, Ghost(utf8_encoding(self@))),
        }
    }

    fn serialize_utf16_be(&self, buffer: &mut Vec<u8>, len: Option<LengthField>) -> (result: Written) {
        let mut payload: Vec<u8> = Vec::new();
        let written = crate::bytes::string::serialize_utf16(self, &mut payload, true);
        match len {
            None => write_string(written, payload, len, buffer, Ghost(utf16_encoding(self@, true))),
            Some(len) => write_string_with_length(written, payload, len, buffer, Ghost(utf16_encoding(self@, true))),
        }
    }

    fn serialize_utf16_le(&self, buffer: &mut Vec<u8>, len: Option<LengthField>) -> (result: Written) {
        let mut payload: Vec<u8> = Vec::new();
        let written = crate::bytes::string::serialize_utf16(self, &mut payload, false);
        match len {
            None => write_string(written, payload, len, buffer, Ghost(utf16_encoding(self@, false))),
            Some(len) => write_string_with_length(written, payload, len, buffer, Ghost(utf16_encoding(self@, false))),
        }
    }
}

} // verus!
