//! What the codec promises as a whole: what a value writes, a deserializer reads back.

use super::de::{read_fixed, utf16_scan, utf8_scan, Deserialize};
use super::de::utf16_reads;
use crate::bytes::laws::{
    lemma_unit_roundtrip, lemma_units_bytes_at, lemma_units_decode, lemma_units_have_no_zero,
};
use crate::bytes::string::{
    decode_utf16, lemma_units_bytes_len, unit_bytes, unit_from, units_bytes, utf16_encoding,
    utf16_units,
};
use super::ser::{
    field_bytes, items_write, length_writes, step_writes, write_step, write_trace, Serialize,
    SerializeError, Written,
};
use super::LengthField;
use super::Error;
use crate::bytes::wire::{lemma_u16_roundtrip, lemma_u32_roundtrip, lemma_u64_roundtrip};
use vstd::prelude::*;

verus! {

/// The bytes that a write appended, read at the position where they start, whatever follows.
proof fn lemma_appended(before: Seq<u8>, written: Seq<u8>, rest: Seq<u8>)
    ensures
        read_fixed(before + written + rest, before.len() as int, None, written.len()) == Ok::<
            Seq<u8>,
            Error,
        >(written),
        (before + written + rest).subrange(
            before.len() as int,
            (before.len() + written.len()) as int,
        ) + rest == written + rest,
{
    assert((before + written + rest).subrange(before.len() as int, (before.len() + written.len()) as int)
        =~= written);
}

/// A `u8` that was written reads back from where it was written.
pub proof fn lemma_u8_written_reads_back(value: u8, before: Seq<u8>, after: Seq<u8>, rest: Seq<u8>)
    requires
        value.spec_writes(before, after, Ok::<usize, super::ser::SerializeError>(1)),
    ensures
        u8::spec_reads(after + rest, before.len() as int, None, Ok::<u8, Error>(value), (before.len() + 1) as int),
{
    lemma_appended(before, seq![value], rest);
}

/// An `i8` that was written reads back from where it was written.
pub proof fn lemma_i8_written_reads_back(value: i8, before: Seq<u8>, after: Seq<u8>, rest: Seq<u8>)
    requires
        value.spec_writes(before, after, Ok::<usize, super::ser::SerializeError>(1)),
    ensures
        i8::spec_reads(after + rest, before.len() as int, None, Ok::<i8, Error>(value), (before.len() + 1) as int),
{
    lemma_appended(before, seq![value as u8], rest);
    assert((value as u8) as i8 == value) by (bit_vector);
}

/// A `bool` that was written reads back from where it was written.
pub proof fn lemma_bool_written_reads_back(value: bool, before: Seq<u8>, after: Seq<u8>, rest: Seq<u8>)
    requires
        value.spec_writes(before, after, Ok::<usize, super::ser::SerializeError>(1)),
    ensures
        bool::spec_reads(after + rest, before.len() as int, None, Ok::<bool, Error>(value), (before.len() + 1) as int),
{
    let b: u8 = if value { 1u8 } else { 0u8 };
    lemma_appended(before, seq![b], rest);
    assert((1u8 & 1u8) == 1u8 && (0u8 & 1u8) != 1u8) by (bit_vector);
}

/// A `u16` that was written reads back from where it was written.
pub proof fn lemma_u16_written_reads_back(value: u16, before: Seq<u8>, after: Seq<u8>, rest: Seq<u8>)
    requires
        value.spec_writes(before, after, Ok::<usize, super::ser::SerializeError>(2)),
    ensures
        u16::spec_reads(after + rest, before.len() as int, None, Ok::<u16, Error>(value), (before.len() + 2) as int),
{
    let written = crate::bytes::wire::be_u16(value);
    lemma_appended(before, written, rest);
    lemma_u16_roundtrip(value, Seq::empty());
    assert(written + Seq::<u8>::empty() =~= written);
}

/// An `i16` that was written reads back from where it was written.
pub proof fn lemma_i16_written_reads_back(value: i16, before: Seq<u8>, after: Seq<u8>, rest: Seq<u8>)
    requires
        value.spec_writes(before, after, Ok::<usize, super::ser::SerializeError>(2)),
    ensures
        i16::spec_reads(after + rest, before.len() as int, None, Ok::<i16, Error>(value), (before.len() + 2) as int),
{
    let written = crate::bytes::wire::be_u16(value as u16);
    lemma_appended(before, written, rest);
    lemma_u16_roundtrip(value as u16, Seq::empty());
    assert(written + Seq::<u8>::empty() =~= written);
    assert((value as u16) as i16 == value) by (bit_vector);
}

/// A `u32` that was written reads back from where it was written.
pub proof fn lemma_u32_written_reads_back(value: u32, before: Seq<u8>, after: Seq<u8>, rest: Seq<u8>)
    requires
        value.spec_writes(before, after, Ok::<usize, super::ser::SerializeError>(4)),
    ensures
        u32::spec_reads(after + rest, before.len() as int, None, Ok::<u32, Error>(value), (before.len() + 4) as int),
{
    let written = crate::bytes::wire::be_u32(value);
    lemma_appended(before, written, rest);
    lemma_u32_roundtrip(value, Seq::empty());
    assert(written + Seq::<u8>::empty() =~= written);
}

/// An `i32` that was written reads back from where it was written.
pub proof fn lemma_i32_written_reads_back(value: i32, before: Seq<u8>, after: Seq<u8>, rest: Seq<u8>)
    requires
        value.spec_writes(before, after, Ok::<usize, super::ser::SerializeError>(4)),
    ensures
        i32::spec_reads(after + rest, before.len() as int, None, Ok::<i32, Error>(value), (before.len() + 4) as int),
{
    let written = crate::bytes::wire::be_u32(value as u32);
    lemma_appended(before, written, rest);
    lemma_u32_roundtrip(value as u32, Seq::empty());
    assert(written + Seq::<u8>::empty() =~= written);
    assert((value as u32) as i32 == value) by (bit_vector);
}

/// A `u64` that was written reads back from where it was written.
pub proof fn lemma_u64_written_reads_back(value: u64, before: Seq<u8>, after: Seq<u8>, rest: Seq<u8>)
    requires
        value.spec_writes(before, after, Ok::<usize, super::ser::SerializeError>(8)),
    ensures
        u64::spec_reads(after + rest, before.len() as int, None, Ok::<u64, Error>(value), (before.len() + 8) as int),
{
    let written = crate::bytes::wire::be_u64(value);
    lemma_appended(before, written, rest);
    lemma_u64_roundtrip(value, Seq::empty());
    assert(written + Seq::<u8>::empty() =~= written);
}

/// An `i64` that was written reads back from where it was written.
pub proof fn lemma_i64_written_reads_back(value: i64, before: Seq<u8>, after: Seq<u8>, rest: Seq<u8>)
    requires
        value.spec_writes(before, after, Ok::<usize, super::ser::SerializeError>(8)),
    ensures
        i64::spec_reads(after + rest, before.len() as int, None, Ok::<i64, Error>(value), (before.len() + 8) as int),
{
    let written = crate::bytes::wire::be_u64(value as u64);
    lemma_appended(before, written, rest);
    lemma_u64_roundtrip(value as u64, Seq::empty());
    assert(written + Seq::<u8>::empty() =~= written);
    assert((value as u64) as i64 == value) by (bit_vector);
}

/// Popping a limit after pushing one restores the limits that were there before the push.
pub proof fn lemma_pop_undoes_push(limits: Seq<usize>, limit: usize)
    ensures
        limits.push(limit).drop_last() == limits,
        limits.push(limit).len() > 0,
{
    assert(limits.push(limit).drop_last() =~= limits);
}


/// Whenever writing `value` succeeds with `n`, it appended exactly `n` bytes to what the buffer
/// held: the size it returns is the number of bytes it wrote.
pub open spec fn writes_exactly<T: Serialize + ?Sized>(value: &T) -> bool {
    forall|before: Seq<u8>, after: Seq<u8>, n: usize|
        #[trigger] value.spec_writes(before, after, Ok::<usize, SerializeError>(n))
            ==> before.is_prefix_of(after) && after.len() == before.len() + n
}

/// Every basic value returns the number of bytes it wrote.
pub proof fn lemma_basic_values_write_exactly(
    a: u8,
    b: i8,
    c: bool,
    d: u16,
    e: i16,
    f: u32,
    g: i32,
    h: u64,
    i: i64,
)
    ensures
        writes_exactly(&a),
        writes_exactly(&b),
        writes_exactly(&c),
        writes_exactly(&d),
        writes_exactly(&e),
        writes_exactly(&f),
        writes_exactly(&g),
        writes_exactly(&h),
        writes_exactly(&i),
{
    assert forall|before: Seq<u8>, after: Seq<u8>, n: usize|
        #[trigger] a.spec_writes(before, after, Ok::<usize, SerializeError>(n)) implies before.is_prefix_of(after) && after.len() == before.len() + n by {
        assert(after.subrange(0, before.len() as int) =~= before);
    }
    assert forall|before: Seq<u8>, after: Seq<u8>, n: usize|
        #[trigger] b.spec_writes(before, after, Ok::<usize, SerializeError>(n)) implies before.is_prefix_of(after) && after.len() == before.len() + n by {
        assert(after.subrange(0, before.len() as int) =~= before);
    }
    assert forall|before: Seq<u8>, after: Seq<u8>, n: usize|
        #[trigger] c.spec_writes(before, after, Ok::<usize, SerializeError>(n)) implies before.is_prefix_of(after) && after.len() == before.len() + n by {
        assert(after.subrange(0, before.len() as int) =~= before);
    }
    assert forall|before: Seq<u8>, after: Seq<u8>, n: usize|
        #[trigger] d.spec_writes(before, after, Ok::<usize, SerializeError>(n)) implies before.is_prefix_of(after) && after.len() == before.len() + n by {
        assert(after.subrange(0, before.len() as int) =~= before);
    }
    assert forall|before: Seq<u8>, after: Seq<u8>, n: usize|
        #[trigger] e.spec_writes(before, after, Ok::<usize, SerializeError>(n)) implies before.is_prefix_of(after) && after.len() == before.len() + n by {
        assert(after.subrange(0, before.len() as int) =~= before);
    }
    assert forall|before: Seq<u8>, after: Seq<u8>, n: usize|
        #[trigger] f.spec_writes(before, after, Ok::<usize, SerializeError>(n)) implies before.is_prefix_of(after) && after.len() == before.len() + n by {
        assert(after.subrange(0, before.len() as int) =~= before);
    }
    assert forall|before: Seq<u8>, after: Seq<u8>, n: usize|
        #[trigger] g.spec_writes(before, after, Ok::<usize, SerializeError>(n)) implies before.is_prefix_of(after) && after.len() == before.len() + n by {
        assert(after.subrange(0, before.len() as int) =~= before);
    }
    assert forall|before: Seq<u8>, after: Seq<u8>, n: usize|
        #[trigger] h.spec_writes(before, after, Ok::<usize, SerializeError>(n)) implies before.is_prefix_of(after) && after.len() == before.len() + n by {
        assert(after.subrange(0, before.len() as int) =~= before);
    }
    assert forall|before: Seq<u8>, after: Seq<u8>, n: usize|
        #[trigger] i.spec_writes(before, after, Ok::<usize, SerializeError>(n)) implies before.is_prefix_of(after) && after.len() == before.len() + n by {
        assert(after.subrange(0, before.len() as int) =~= before);
    }
}

/// Writing an item after `total` bytes were written adds the number of bytes the item wrote to
/// the total.
pub proof fn lemma_step_adds_written<T: Serialize + ?Sized>(
    item: &T,
    total: usize,
    before: Seq<u8>,
    after: Seq<u8>,
    result: usize,
)
    requires
        writes_exactly(item),
        step_writes(item, total, before, after, Ok::<usize, SerializeError>(result)),
    ensures
        before.is_prefix_of(after),
        after.len() == before.len() + result - total,
{
    let r = choose|r: Written|
        #[trigger] item.spec_writes(before, after, r) && match r {
            Err(e) => Ok::<usize, SerializeError>(result) == Err::<usize, SerializeError>(e),
            Ok(n) => if total + n > usize::MAX {
                Ok::<usize, SerializeError>(result) == Err::<usize, SerializeError>(SerializeError)
            } else {
                Ok::<usize, SerializeError>(result) == Ok::<usize, SerializeError>((total + n) as usize)
            },
        };
    assert(r is Ok);
    assert(item.spec_writes(before, after, Ok::<usize, SerializeError>(r->Ok_0)));
}

/// Along a trace of successful writes, each buffer state extends the first by the running total.
proof fn lemma_trace_adds_written<T: Serialize>(
    items: Seq<T>,
    states: Seq<Seq<u8>>,
    totals: Seq<usize>,
    k: int,
    j: int,
)
    requires
        forall|i: int| 0 <= i < items.len() ==> writes_exactly(#[trigger] &items[i]),
        write_trace(items, states, totals, k),
        totals[0] == 0,
        0 <= j <= k,
    ensures
        states[0].is_prefix_of(states[j]),
        states[j].len() == states[0].len() + totals[j],
    decreases j,
{
    if j > 0 {
        lemma_trace_adds_written(items, states, totals, k, j - 1);
        assert(write_step(items, states, totals, j - 1));
        assert(writes_exactly(&items[j - 1]));
        lemma_step_adds_written(&items[j - 1], totals[j - 1], states[j - 1], states[j], totals[j]);
        assert forall|i: int| 0 <= i < states[0].len() implies states[j][i] == states[0][i] by {
            assert(states[j - 1][i] == states[0][i]);
        }
    }
}

/// Writing items one after the other returns the number of bytes they appended together, when
/// each item returns the number of bytes it wrote. So do vectors, slices and arrays, which write
/// their elements so.
pub proof fn lemma_items_add_written<T: Serialize>(
    items: Seq<T>,
    before: Seq<u8>,
    after: Seq<u8>,
    n: usize,
)
    requires
        forall|i: int| 0 <= i < items.len() ==> writes_exactly(#[trigger] &items[i]),
        items_write(items, before, after, Ok::<usize, SerializeError>(n)),
    ensures
        before.is_prefix_of(after),
        after.len() == before.len() + n,
{
    let (states, totals, k) = choose|states: Seq<Seq<u8>>, totals: Seq<usize>, k: int|
        {
            &&& #[trigger] write_trace(items, states, totals, k)
            &&& states[0] == before
            &&& totals[0] == 0
            &&& if k == items.len() {
                after == states[k] && Ok::<usize, SerializeError>(n) == Ok::<usize, SerializeError>(totals[k])
            } else {
                Ok::<usize, SerializeError>(n) is Err && step_writes(&items[k], totals[k], states[k], after, Ok::<usize, SerializeError>(n))
            }
        };
    lemma_trace_adds_written(items, states, totals, k, k);
}

/// A vector returns the number of bytes it wrote whenever its elements do.
pub proof fn lemma_vec_writes_exactly<T: Serialize>(items: &Vec<T>)
    requires
        forall|i: int| 0 <= i < items@.len() ==> writes_exactly(#[trigger] &items@[i]),
    ensures
        writes_exactly(items),
{
    assert forall|before: Seq<u8>, after: Seq<u8>, n: usize|
        #[trigger] items.spec_writes(before, after, Ok::<usize, SerializeError>(n)) implies before.is_prefix_of(after) && after.len() == before.len() + n by {
        lemma_items_add_written(items@, before, after, n);
    }
}

/// A pair returns the number of bytes it wrote whenever both its elements do: the first
/// element's bytes, then the second's.
pub proof fn lemma_pair_writes_exactly<A: Serialize, B: Serialize>(pair: &(A, B))
    requires
        writes_exactly(&pair.0),
        writes_exactly(&pair.1),
    ensures
        writes_exactly(pair),
{
    assert forall|before: Seq<u8>, after: Seq<u8>, n: usize|
        #[trigger] pair.spec_writes(before, after, Ok::<usize, SerializeError>(n)) implies before.is_prefix_of(after) && after.len() == before.len() + n by {
        let (m0, r0) = choose|m0: Seq<u8>, r0: Written| #[trigger] step_writes(&pair.0, 0usize, before, m0, r0) && match r0 { Err(e) => after == m0 && Ok::<usize, SerializeError>(n) == Err::<usize, SerializeError>(e), Ok(t0) => step_writes(&pair.1, t0, m0, after, Ok::<usize, SerializeError>(n)) };
        let t0 = r0->Ok_0;
        lemma_step_adds_written(&pair.0, 0usize, before, m0, t0);
        lemma_step_adds_written(&pair.1, t0, m0, after, n);
        assert forall|i: int| 0 <= i < before.len() implies after[i] == before[i] by {
            assert(m0[i] == before[i]);
        }
    }
}

/// A value written after a length field: the field holds the number of bytes the value wrote,
/// the value's bytes follow it, and the size returned counts both.
pub proof fn lemma_length_field_holds_written<T: Serialize + ?Sized>(
    value: &T,
    payload: Seq<u8>,
    r: Written,
    length: LengthField,
    before: Seq<u8>,
    after: Seq<u8>,
    total: usize,
)
    requires
        writes_exactly(value),
        value.spec_writes(Seq::empty(), payload, r),
        length_writes(r, payload, length, before, after, Ok::<usize, SerializeError>(total)),
    ensures
        after == before + field_bytes(length, payload.len()) + payload,
        total == payload.len() + length.spec_width(),
{
    assert(r is Ok);
    assert(value.spec_writes(Seq::empty(), payload, Ok::<usize, SerializeError>(r->Ok_0)));
}

/// Reading a UTF-16 string stops only at a zero code unit: the units it gives are those of the
/// data, in order, none of them zero, and the read ends right after the first zero unit, or,
/// where there is none before the bound, with less than one unit left.
pub proof fn lemma_utf16_scan_stops_at_zero_unit(data: Seq<u8>, from: int, to: int, big_endian: bool)
    requires
        0 <= from,
        to <= data.len(),
    ensures
        ({
            let (units, end, found) = utf16_scan(data, from, to, big_endian);
            &&& end == from + 2 * units.len() + if found {
                2int
            } else {
                0int
            }
            &&& forall|i: int|
                0 <= i < units.len() ==> #[trigger] units[i] == unit_from(
                    data.subrange(from + 2 * i, from + 2 * i + 2),
                    big_endian,
                ) && units[i] != 0
            &&& found ==> end <= to && unit_from(data.subrange(end - 2, end), big_endian) == 0
            &&& !found ==> end + 2 > to
        }),
    decreases to - from,
{
    if from + 2 <= to {
        let unit = unit_from(data.subrange(from, from + 2), big_endian);
        if unit != 0 {
            lemma_utf16_scan_stops_at_zero_unit(data, from + 2, to, big_endian);
            let (rest, end, found) = utf16_scan(data, from + 2, to, big_endian);
            let units = seq![unit] + rest;
            assert forall|i: int| 0 <= i < units.len() implies #[trigger] units[i] == unit_from(
                data.subrange(from + 2 * i, from + 2 * i + 2),
                big_endian,
            ) && units[i] != 0 by {
                if i > 0 {
                    assert(units[i] == rest[i - 1]);
                    assert(from + 2 + 2 * (i - 1) == from + 2 * i);
                }
            }
        }
    }
}

/// Reading a UTF-8 string stops only at a zero byte: the bytes it gives are those of the data,
/// in order, none of them zero, and the read ends right after the first zero byte, or at the
/// bound where there is none before it.
pub proof fn lemma_utf8_scan_stops_at_zero(data: Seq<u8>, from: int, to: int)
    requires
        0 <= from,
        to <= data.len(),
    ensures
        ({
            let (bytes, end, found) = utf8_scan(data, from, to);
            &&& from <= to ==> end == from + bytes.len() + if found {
                1int
            } else {
                0int
            }
            &&& forall|i: int| 0 <= i < bytes.len() ==> #[trigger] bytes[i] == data[from + i] && bytes[i] != 0
            &&& found ==> end <= to && data[end - 1] == 0
            &&& !found ==> end >= to
        }),
    decreases to - from,
{
    if from < to && data[from] != 0 {
        lemma_utf8_scan_stops_at_zero(data, from + 1, to);
        let (rest, end, found) = utf8_scan(data, from + 1, to);
        let bytes = seq![data[from]] + rest;
        assert forall|i: int| 0 <= i < bytes.len() implies #[trigger] bytes[i] == data[from + i] && bytes[i] != 0 by {
            if i > 0 {
                assert(bytes[i] == rest[i - 1]);
            }
        }
    }
}

/// Non-zero code units laid out in the data from `from` on, followed by a zero unit, are read as
/// exactly those units, and the read ends after the zero unit.
proof fn lemma_scan_laid_out_units(data: Seq<u8>, from: int, units: Seq<u16>, big_endian: bool)
    requires
        0 <= from,
        from + 2 * units.len() + 2 <= data.len(),
        forall|i: int| 0 <= i < units.len() ==> #[trigger] units[i] != 0,
        forall|i: int|
            0 <= i < units.len() ==> unit_from(data.subrange(from + 2 * i, from + 2 * i + 2), big_endian)
                == #[trigger] units[i],
        unit_from(
            data.subrange(from + 2 * units.len(), from + 2 * units.len() + 2),
            big_endian,
        ) == 0,
    ensures
        utf16_scan(data, from, data.len() as int, big_endian) == (units, from + 2 * units.len() + 2, true),
    decreases units.len(),
{
    if units.len() == 0 {
        assert(utf16_scan(data, from, data.len() as int, big_endian) == (Seq::<u16>::empty(), from + 2, true));
        assert(units =~= Seq::<u16>::empty());
    } else {
        let tail = units.drop_first();
        assert forall|i: int| 0 <= i < tail.len() implies unit_from(
            data.subrange(from + 2 + 2 * i, from + 2 + 2 * i + 2),
            big_endian,
        ) == #[trigger] tail[i] by {
            assert(tail[i] == units[i + 1]);
            assert(from + 2 * (i + 1) == from + 2 + 2 * i);
        }
        assert forall|i: int| 0 <= i < tail.len() implies #[trigger] tail[i] != 0 by {
            assert(tail[i] == units[i + 1]);
        }
        assert(from + 2 + 2 * tail.len() == from + 2 * units.len());
        lemma_scan_laid_out_units(data, from + 2, tail, big_endian);
        assert(units[0] == unit_from(data.subrange(from, from + 2), big_endian));
        assert(seq![units[0]] + tail =~= units);
    }
}

/// A text without NUL characters, written in UTF-16 with its Byte Order Mark and delimiter,
/// reads back as that text with a string read that starts where it was written, whatever came
/// before and whatever follows; the read ends right after the delimiter.
pub proof fn lemma_utf16_string_reads_back(
    text: Seq<char>,
    big_endian: bool,
    before: Seq<u8>,
    rest: Seq<u8>,
    result: super::Result<String>,
    after: int,
)
    requires
        forall|i: int| 0 <= i < text.len() ==> text[i] != '\0',
        utf16_encoding(text, big_endian) is Ok,
        <String as Deserialize>::spec_reads(
            before + utf16_encoding(text, big_endian).unwrap() + rest,
            before.len() as int,
            None,
            result,
            after,
        ),
    ensures
        result matches Ok(s) && s@ == text,
        after == before.len() + utf16_encoding(text, big_endian).unwrap().len(),
{
    let units = utf16_units(text);
    let body = units_bytes(units, big_endian);
    let encoded = unit_bytes(0xfeff, big_endian) + body + unit_bytes(0, big_endian);
    let data = before + encoded + rest;
    let c = before.len() as int;
    let n = units.len() as int;
    lemma_units_bytes_len(units, big_endian);
    lemma_unit_roundtrip(0xfeff, big_endian);
    lemma_unit_roundtrip(0, big_endian);
    assert(encoded == utf16_encoding(text, big_endian).unwrap());
    assert(encoded.len() == 2 * n + 4);
    // The Byte Order Mark selects the encoding.
    assert(data.subrange(c, c + 2) =~= unit_bytes(0xfeff, big_endian));
    if big_endian {
        lemma_u16_roundtrip(0xfeff, Seq::empty());
        assert(unit_bytes(0xfeff, true) + Seq::<u8>::empty() =~= unit_bytes(0xfeff, true));
    } else {
        assert(((((0xfeffu16 as u8) as u16) << 8u16) | (((0xfeffu16 >> 8u16) as u8) as u16)) == 0xfffeu16)
            by (bit_vector);
    }
    // The code units follow, then the zero delimiter.
    assert forall|i: int| 0 <= i < n implies unit_from(
        data.subrange(c + 2 + 2 * i, c + 2 + 2 * i + 2),
        big_endian,
    ) == #[trigger] units[i] by {
        lemma_units_bytes_at(units, big_endian, i);
        lemma_unit_roundtrip(units[i], big_endian);
        assert(data.subrange(c + 2 + 2 * i, c + 2 + 2 * i + 2) =~= body.subrange(2 * i, 2 * i + 2));
    }
    assert(data.subrange(c + 2 + 2 * n, c + 2 + 2 * n + 2) =~= unit_bytes(0, big_endian));
    lemma_units_have_no_zero(text);
    lemma_scan_laid_out_units(data, c + 2, units, big_endian);
    lemma_units_decode(text);
}
} // verus!
