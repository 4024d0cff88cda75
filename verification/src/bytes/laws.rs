//! What the encodings promise as a whole: a value reads back from the bytes it writes.

use super::de::{Deserialize, DeserializeError};
use super::length::{after_length_field, Length};
use super::string::{
    StaticString, char_units, zero_bytes, decode_utf16, dynamic_string_read, lemma_units_bytes_len, read_units, unit_bytes,
    unit_from, units_bytes, utf16_units, without_delimiters, DynamicString, Encoding, Text, Utf16BE,
    Utf16LE, Utf8,
};
use vstd::utf8::{
    encode_scalar, encode_utf8, encode_utf8_decode_utf8, encode_utf8_valid_utf8, has_width_1_encoding,
    has_width_2_encoding, has_width_3_encoding,
};
use super::array::{read_all, DynamicArray};
use super::ser::{lemma_all_agree, serialize_all, size_all, Serialize};
use super::wire::{be_u16, be_u32, be_u64, lemma_u16_roundtrip, lemma_u32_roundtrip, lemma_u64_roundtrip};
use vstd::prelude::*;
use vstd::std_specs::cmp::PartialEqSpec;

verus! {

/// `value` serializes, and reading its bytes back gives `value` and consumes exactly those
/// bytes, whatever bytes follow them.
pub open spec fn reads_back<T: Serialize + Deserialize<Output = T> + DeepView>(value: &T) -> bool {
    &&& value.spec_serialize() is Ok
    &&& forall|rest: Seq<u8>|
        #[trigger] T::spec_deserialize(value.spec_serialize().unwrap() + rest) == Ok::<
            (<T as DeepView>::V, nat),
            DeserializeError,
        >((value.deep_view(), value.spec_serialize().unwrap().len()))
}

/// A `u8` reads back from its byte.
pub proof fn lemma_u8_reads_back(value: u8)
    ensures
        reads_back(&value),
{
    assert forall|rest: Seq<u8>| #[trigger]
        u8::spec_deserialize(value.spec_serialize().unwrap() + rest) == Ok::<(u8, nat), DeserializeError>(
            (value, 1),
        ) by {
        assert((seq![value] + rest)[0] == value);
    }
}

/// An `i8` reads back from its byte.
pub proof fn lemma_i8_reads_back(value: i8)
    ensures
        reads_back(&value),
{
    assert forall|rest: Seq<u8>| #[trigger]
        i8::spec_deserialize(value.spec_serialize().unwrap() + rest) == Ok::<(i8, nat), DeserializeError>(
            (value, 1),
        ) by {
        assert((seq![value as u8] + rest)[0] == value as u8);
        assert((value as u8) as i8 == value) by (bit_vector);
    }
}

/// A `bool` reads back from its byte.
pub proof fn lemma_bool_reads_back(value: bool)
    ensures
        reads_back(&value),
{
    assert forall|rest: Seq<u8>| #[trigger]
        bool::spec_deserialize(value.spec_serialize().unwrap() + rest) == Ok::<(bool, nat), DeserializeError>(
            (value, 1),
        ) by {
        let b: u8 = if value { 1u8 } else { 0u8 };
        assert((seq![b] + rest)[0] == b);
        assert((1u8 & 1u8) == 1u8 && (0u8 & 1u8) != 1u8) by (bit_vector);
    }
}

/// A `u16` reads back from its big-endian bytes.
pub proof fn lemma_u16_reads_back(value: u16)
    ensures
        reads_back(&value),
{
    assert forall|rest: Seq<u8>| #[trigger]
        u16::spec_deserialize(value.spec_serialize().unwrap() + rest) == Ok::<(u16, nat), DeserializeError>(
            (value, 2),
        ) by {
        lemma_u16_roundtrip(value, rest);
    }
}

/// An `i16` reads back from its big-endian bytes.
pub proof fn lemma_i16_reads_back(value: i16)
    ensures
        reads_back(&value),
{
    assert forall|rest: Seq<u8>| #[trigger]
        i16::spec_deserialize(value.spec_serialize().unwrap() + rest) == Ok::<(i16, nat), DeserializeError>(
            (value, 2),
        ) by {
        lemma_u16_roundtrip(value as u16, rest);
        assert((value as u16) as i16 == value) by (bit_vector);
    }
}

/// A `u32` reads back from its big-endian bytes.
pub proof fn lemma_u32_reads_back(value: u32)
    ensures
        reads_back(&value),
{
    assert forall|rest: Seq<u8>| #[trigger]
        u32::spec_deserialize(value.spec_serialize().unwrap() + rest) == Ok::<(u32, nat), DeserializeError>(
            (value, 4),
        ) by {
        lemma_u32_roundtrip(value, rest);
    }
}

/// An `i32` reads back from its big-endian bytes.
pub proof fn lemma_i32_reads_back(value: i32)
    ensures
        reads_back(&value),
{
    assert forall|rest: Seq<u8>| #[trigger]
        i32::spec_deserialize(value.spec_serialize().unwrap() + rest) == Ok::<(i32, nat), DeserializeError>(
            (value, 4),
        ) by {
        lemma_u32_roundtrip(value as u32, rest);
        assert((value as u32) as i32 == value) by (bit_vector);
    }
}

/// A `u64` reads back from its big-endian bytes.
pub proof fn lemma_u64_reads_back(value: u64)
    ensures
        reads_back(&value),
{
    assert forall|rest: Seq<u8>| #[trigger]
        u64::spec_deserialize(value.spec_serialize().unwrap() + rest) == Ok::<(u64, nat), DeserializeError>(
            (value, 8),
        ) by {
        lemma_u64_roundtrip(value, rest);
    }
}

/// An `i64` reads back from its big-endian bytes.
pub proof fn lemma_i64_reads_back(value: i64)
    ensures
        reads_back(&value),
{
    assert forall|rest: Seq<u8>| #[trigger]
        i64::spec_deserialize(value.spec_serialize().unwrap() + rest) == Ok::<(i64, nat), DeserializeError>(
            (value, 8),
        ) by {
        lemma_u64_roundtrip(value as u64, rest);
        assert((value as u64) as i64 == value) by (bit_vector);
    }
}

/// A pair reads back from its bytes whenever both its elements do and the pair's size fits in
/// `usize`.
pub proof fn lemma_pair_reads_back<
    A: Serialize + Deserialize<Output = A> + DeepView,
    B: Serialize + Deserialize<Output = B> + DeepView,
>(a: A, b: B)
    requires
        reads_back(&a),
        reads_back(&b),
        a.spec_serialize().unwrap().len() + b.spec_serialize().unwrap().len() <= usize::MAX,
    ensures
        reads_back(&(a, b)),
{
    let sa = a.spec_serialize().unwrap();
    let sb = b.spec_serialize().unwrap();
    assert(Seq::<u8>::empty() + sa =~= sa);
    let pair = (a, b);
    assert forall|rest: Seq<u8>| #[trigger]
        <(A, B)>::spec_deserialize(pair.spec_serialize().unwrap() + rest) == Ok::<
            (<(A, B) as DeepView>::V, nat),
            DeserializeError,
        >((pair.deep_view(), pair.spec_serialize().unwrap().len())) by {
        let input = sa + sb + rest;
        assert(pair.spec_serialize().unwrap() == sa + sb);
        assert(input =~= sa + (sb + rest));
        assert(A::spec_deserialize(sa + (sb + rest)) == Ok::<(<A as DeepView>::V, nat), DeserializeError>(
            (a.deep_view(), sa.len()),
        ));
        assert(input.skip(sa.len() as int) =~= sb + rest);
        assert(B::spec_deserialize(sb + rest) == Ok::<(<B as DeepView>::V, nat), DeserializeError>(
            (b.deep_view(), sb.len()),
        ));
    }
}

/// A value written after a length field reads back after that field: the field holds the size of
/// the value, and the value is read from the bytes that the field covers. This holds for every
/// length field that can hold the value's size, whatever bytes follow.
pub proof fn lemma_length_reads_back<L: Length, T: Serialize + Deserialize<Output = T> + DeepView>(
    value: &T,
    rest: Seq<u8>,
)
    requires
        reads_back(value),
        value.spec_serialize().unwrap().len() <= L::spec_max(),
        value.spec_serialize().unwrap().len() + L::spec_width() <= usize::MAX,
    ensures
        ({
            let bytes = value.spec_serialize().unwrap();
            let written = L::spec_serialize_value(value.spec_serialize(), value.spec_size());
            &&& written == Ok::<Seq<u8>, super::ser::SerializeError>(
                L::spec_field(bytes.len() as usize) + bytes,
            )
            &&& L::spec_read_field(written.unwrap() + rest) matches Some(length)
                && after_length_field::<T>(written.unwrap() + rest, L::spec_width(), length) == Ok::<
                (<T as DeepView>::V, nat),
                DeserializeError,
            >((value.deep_view(), written.unwrap().len()))
        }),
{
    let bytes = value.spec_serialize().unwrap();
    let n = bytes.len() as usize;
    value.lemma_size_agrees();
    L::lemma_field_reads_back(n, bytes, rest);
    let field = L::spec_field(n);
    let input = field + bytes + rest;
    let length = L::spec_read_field(input).unwrap();
    let covered = input.skip(L::spec_width() as int).take(length as int);
    let tail = rest.take(length - n);
    assert(covered =~= bytes + tail);
    assert(T::spec_deserialize(bytes + tail) == Ok::<(<T as DeepView>::V, nat), DeserializeError>(
        (value.deep_view(), bytes.len()),
    ));
}

/// No byte of the UTF-8 encoding of a character other than NUL is zero.
proof fn lemma_scalar_has_no_zero(c: char)
    requires
        c != '\0',
    ensures
        forall|i: int| 0 <= i < encode_scalar(c as u32).len() ==> #[trigger] encode_scalar(c as u32)[i] != 0u8,
{
    let v = c as u32;
    assert(v != 0) by {
        assert(('\0' as u32) == 0);
        vstd::utf8::char_u32_cast(c, v);
    }
    if has_width_1_encoding(v) {
        assert(0 < v <= 0x7f ==> (v & 0x7f) as u8 != 0u8) by (bit_vector);
    } else {
        assert(forall|x: u8| #![auto] (0x80u8 | x) != 0u8 && (0xc0u8 | x) != 0u8 && (0xe0u8 | x)
            != 0u8 && (0xf0u8 | x) != 0u8) by (bit_vector);
    }
}

/// No byte of the UTF-8 encoding of a text without NUL characters is zero.
proof fn lemma_utf8_has_no_zero(text: Seq<char>)
    requires
        forall|i: int| 0 <= i < text.len() ==> text[i] != '\0',
    ensures
        forall|i: int| 0 <= i < encode_utf8(text).len() ==> encode_utf8(text)[i] != 0u8,
    decreases text.len(),
{
    if text.len() > 0 {
        lemma_scalar_has_no_zero(text[0]);
        lemma_utf8_has_no_zero(text.drop_first());
        let head = encode_scalar(text[0] as u32);
        let tail = encode_utf8(text.drop_first());
        assert(encode_utf8(text) == head + tail);
        assert forall|i: int| 0 <= i < encode_utf8(text).len() implies encode_utf8(text)[i] != 0u8 by {
            if i < head.len() {
                assert(encode_utf8(text)[i] == head[i]);
            } else {
                assert(encode_utf8(text)[i] == tail[i - head.len()]);
            }
        }
    }
}

/// Bytes without a zero, followed by one or more zeros, lose exactly those zeros to the removal
/// of delimiters.
proof fn lemma_trailing_delimiters(bytes: Seq<u8>, zeros: nat)
    requires
        forall|i: int| 0 <= i < bytes.len() ==> bytes[i] != 0u8,
        zeros >= 1,
    ensures
        without_delimiters(bytes + zero_bytes(zeros), 0u8) == Ok::<Seq<u8>, DeserializeError>(
            bytes,
        ),
{
    let input = bytes + zero_bytes(zeros);
    let n = bytes.len() as int;
    assert(input[n].eq_spec(&0u8));
    assert forall|j: int| 0 <= j < n implies !input[j].eq_spec(&0u8) by {
        assert(input[j] == bytes[j]);
    }
    let p = choose|p: int|
        0 <= p < input.len() && input[p].eq_spec(&0u8) && forall|j: int|
            0 <= j < p ==> !input[j].eq_spec(&0u8);
    assert(p == n) by {
        if p < n {
            assert(input[p] == bytes[p]);
        }
    }
    assert forall|j: int| p <= j < input.len() implies input[j].eq_spec(&0u8) by {
        assert(input[j] == 0u8);
    }
    assert(input.take(n) =~= bytes);
}

/// Bytes without a zero, followed by one zero, lose exactly that zero to the removal of
/// delimiters.
proof fn lemma_single_delimiter(bytes: Seq<u8>)
    requires
        forall|i: int| 0 <= i < bytes.len() ==> bytes[i] != 0u8,
    ensures
        without_delimiters(bytes.push(0u8), 0u8) == Ok::<Seq<u8>, DeserializeError>(bytes),
{
    lemma_trailing_delimiters(bytes, 1);
    assert(bytes.push(0u8) =~= bytes + zero_bytes(1));
}

/// A text without NUL characters reads back from its UTF-8 encoding: the Byte Order Mark, the
/// bytes of the text and a zero delimiter.
pub proof fn lemma_utf8_reads_back(text: Seq<char>)
    requires
        forall|i: int| 0 <= i < text.len() ==> text[i] != '\0',
        encode_utf8(text).len() + 4 <= usize::MAX,
    ensures
        Utf8::spec_encode(text) matches Ok(bytes) && Utf8::spec_decode(bytes) == Ok::<
            Seq<char>,
            DeserializeError,
        >(text),
{
    let encoded = encode_utf8(text);
    let bytes = seq![0xefu8, 0xbbu8, 0xbfu8] + encoded + seq![0u8];
    lemma_utf8_has_no_zero(text);
    lemma_single_delimiter(encoded);
    assert(bytes.take(3) =~= seq![0xefu8, 0xbbu8, 0xbfu8]);
    assert(bytes.skip(3) =~= encoded.push(0u8));
    encode_utf8_valid_utf8(text);
    encode_utf8_decode_utf8(text);
}

/// A dynamic string reads back from its bytes whenever its text reads back from its encoding:
/// the length field holds the size of the encoded text, and the text is decoded from the bytes
/// that the field covers. Whatever bytes follow are left alone when the field has a width; a
/// field of zero bytes covers everything that follows, so there nothing may follow.
pub proof fn lemma_dynamic_reads_back<L: Length, E: Encoding, Value: Text>(
    string: &DynamicString<L, E, Value>,
    rest: Seq<u8>,
)
    requires
        E::spec_encode(string.spec_text()) matches Ok(encoded) && E::spec_decode(encoded) == Ok::<
            Seq<char>,
            DeserializeError,
        >(string.spec_text()) && encoded.len() + L::spec_width() <= usize::MAX && encoded.len()
            <= L::spec_max(),
        L::spec_width() > 0 || rest.len() == 0,
    ensures
        string.spec_serialize() matches Ok(bytes) && dynamic_string_read::<L, E>(bytes + rest) == Ok::<
            (Seq<char>, nat),
            DeserializeError,
        >((string.spec_text(), bytes.len())),
{
    let text = string.spec_text();
    let encoded = E::spec_encode(text).unwrap();
    let n = encoded.len() as usize;
    E::lemma_size_agrees(text);
    L::lemma_field_reads_back(n, encoded, rest);
    let field = L::spec_field(n);
    let input = field + encoded + rest;
    let length = L::spec_read_field(input).unwrap();
    assert(length == n);
    assert(input.skip(L::spec_width() as int).take(length as int) =~= encoded);
}

/// A dynamic UTF-8 string without NUL characters reads back from its bytes: the length field,
/// then the Byte Order Mark, the bytes of the text and a zero delimiter.
pub proof fn lemma_dynamic_utf8_reads_back<L: Length, Value: Text>(
    string: &DynamicString<L, Utf8, Value>,
    rest: Seq<u8>,
)
    requires
        forall|i: int| 0 <= i < string.spec_text().len() ==> string.spec_text()[i] != '\0',
        encode_utf8(string.spec_text()).len() + 4 + L::spec_width() <= usize::MAX,
        encode_utf8(string.spec_text()).len() + 4 <= L::spec_max(),
        L::spec_width() > 0 || rest.len() == 0,
    ensures
        string.spec_serialize() matches Ok(bytes) && dynamic_string_read::<L, Utf8>(bytes + rest)
            == Ok::<(Seq<char>, nat), DeserializeError>((string.spec_text(), bytes.len())),
{
    lemma_utf8_reads_back(string.spec_text());
    lemma_dynamic_reads_back(string, rest);
}

/// The encoding of a non-empty sequence of values is the encoding of the first value followed by
/// the encoding of the rest.
proof fn lemma_serialize_all_front<T: Serialize>(items: Seq<T>)
    requires
        items.len() > 0,
        serialize_all(items) is Ok,
    ensures
        serialize_all(items.drop_first()) is Ok,
        items[0].spec_serialize() is Ok,
        serialize_all(items).unwrap() == items[0].spec_serialize().unwrap() + serialize_all(
            items.drop_first(),
        ).unwrap(),
    decreases items.len(),
{
    if items.len() == 1 {
        assert(items.drop_last() =~= Seq::<T>::empty());
        assert(items.drop_first() =~= Seq::<T>::empty());
        assert(Seq::<u8>::empty() + items[0].spec_serialize().unwrap() =~= items[0].spec_serialize().unwrap());
        assert(items[0].spec_serialize().unwrap() + Seq::<u8>::empty() =~= items[0].spec_serialize().unwrap());
    } else {
        let front = items.drop_last();
        let rest = items.drop_first();
        lemma_serialize_all_front(front);
        assert(front.drop_first() =~= rest.drop_last());
        assert(front[0] == items[0]);
        assert(rest.last() == items.last());
        let first = items[0].spec_serialize().unwrap();
        let middle = serialize_all(front.drop_first()).unwrap();
        let last = items.last().spec_serialize().unwrap();
        assert(serialize_all(items).unwrap() == first + middle + last);
        assert(serialize_all(rest).unwrap() == middle + last);
        assert(first + middle + last =~= first + (middle + last));
    }
}

/// Values whose encodings are not empty and read back, encoded one after the other, read back
/// one after the other until the bytes end.
pub proof fn lemma_all_read_back<T: Serialize + Deserialize<Output = T> + DeepView>(items: Seq<T>)
    requires
        forall|i: int| 0 <= i < items.len() ==> reads_back(&#[trigger] items[i]),
        forall|i: int| 0 <= i < items.len() ==> (#[trigger] items[i]).spec_serialize().unwrap().len() > 0,
        serialize_all(items) is Ok,
    ensures
        read_all::<T>(serialize_all(items).unwrap()) == Ok::<(Seq<<T as DeepView>::V>, nat), DeserializeError>(
            (items.map_values(|item: T| item.deep_view()), serialize_all(items).unwrap().len()),
        ),
    decreases items.len(),
{
    let bytes = serialize_all(items).unwrap();
    if items.len() == 0 {
        assert(items.map_values(|item: T| item.deep_view()) =~= Seq::<<T as DeepView>::V>::empty());
    } else {
        lemma_serialize_all_front(items);
        let rest = items.drop_first();
        assert forall|i: int| 0 <= i < rest.len() implies reads_back(&#[trigger] rest[i]) by {
            assert(rest[i] == items[i + 1]);
        }
        assert forall|i: int| 0 <= i < rest.len() implies (#[trigger] rest[i]).spec_serialize().unwrap().len() > 0 by {
            assert(rest[i] == items[i + 1]);
        }
        lemma_all_read_back(rest);
        let first = items[0].spec_serialize().unwrap();
        let tail = serialize_all(rest).unwrap();
        assert(reads_back(&items[0]));
        assert(T::spec_deserialize(first + tail) == Ok::<(<T as DeepView>::V, nat), DeserializeError>(
            (items[0].deep_view(), first.len()),
        ));
        assert(bytes.skip(first.len() as int) =~= tail);
        assert(items.map_values(|item: T| item.deep_view()) =~= seq![items[0].deep_view()]
            + rest.map_values(|item: T| item.deep_view()));
    }
}

/// A dynamic array reads back from its bytes whenever its items do and none of them is written
/// as no bytes: the length field holds the size of the items' bytes, and the items are read from
/// the bytes that the field covers until they end. Whatever bytes follow are left alone when the
/// field has a width; a field of zero bytes covers everything that follows, so there nothing may
/// follow.
pub proof fn lemma_dynamic_array_reads_back<
    'a,
    L: Length,
    T: Serialize + Deserialize<Output = T> + DeepView,
>(array: &DynamicArray<L, &'a Vec<T>>, rest: Seq<u8>)
    requires
        forall|i: int| 0 <= i < array.spec_inner()@.len() ==> reads_back(&#[trigger] array.spec_inner()@[i]),
        forall|i: int|
            0 <= i < array.spec_inner()@.len() ==> (#[trigger] array.spec_inner()@[i]).spec_serialize().unwrap().len() > 0,
        serialize_all(array.spec_inner()@) matches Ok(bytes) && bytes.len() <= L::spec_max() && bytes.len()
            + L::spec_width() <= usize::MAX,
        L::spec_width() > 0 || rest.len() == 0,
    ensures
        array.spec_serialize() matches Ok(bytes) && DynamicArray::<L, Vec<T>>::spec_deserialize(bytes + rest)
            == Ok::<(Seq<<T as DeepView>::V>, nat), DeserializeError>(
            (array.spec_inner().deep_view(), bytes.len()),
        ),
{
    let items = array.spec_inner()@;
    let encoded = serialize_all(items).unwrap();
    let n = encoded.len() as usize;
    lemma_all_agree(items);
    lemma_all_read_back(items);
    L::lemma_field_reads_back(n, encoded, rest);
    let field = L::spec_field(n);
    let input = field + encoded + rest;
    let length = L::spec_read_field(input).unwrap();
    assert(length == n);
    assert(input.skip(L::spec_width() as int).take(length as int) =~= encoded);
    assert(array.spec_inner().deep_view() =~= items.map_values(|item: T| item.deep_view()));
}

/// The code units of a non-empty text are those of its first character followed by those of the
/// rest.
proof fn lemma_units_front(text: Seq<char>)
    requires
        text.len() > 0,
    ensures
        utf16_units(text) == char_units(text[0]) + utf16_units(text.drop_first()),
    decreases text.len(),
{
    if text.len() == 1 {
        assert(text.drop_last() =~= Seq::<char>::empty());
        assert(text.drop_first() =~= Seq::<char>::empty());
        assert(utf16_units(text) =~= char_units(text[0]) + utf16_units(text.drop_first()));
    } else {
        let front = text.drop_last();
        let rest = text.drop_first();
        lemma_units_front(front);
        assert(front.drop_first() =~= rest.drop_last());
        assert(front[0] == text[0]);
        assert(rest.last() == text.last());
        assert(utf16_units(text) =~= char_units(text[0]) + utf16_units(rest));
    }
}

/// The code units of a character decode back to the character, before whatever units follow.
proof fn lemma_char_units_decode(c: char, rest: Seq<u16>)
    ensures
        decode_utf16(char_units(c) + rest) == match decode_utf16(rest) {
            Some(text) => Some(seq![c] + text),
            None => None::<Seq<char>>,
        },
{
    let v = c as u32;
    vstd::utf8::char_is_scalar(c);
    vstd::utf8::char_u32_cast(c, v);
    let units = char_units(c) + rest;
    if v < 0x10000 {
        let u = v as u16;
        assert(units[0] == u);
        assert(units.drop_first() =~= rest);
        assert(u < 0xd800 || u > 0xdfff);
        assert(u as char == c);
    } else {
        let w = (v - 0x10000) as u32;
        let hi = (0xd800u32 + (w >> 10u32)) as u16;
        let lo = (0xdc00u32 + (w & 0x3ffu32)) as u16;
        assert(units[0] == hi && units[1] == lo);
        assert(units.skip(2) =~= rest);
        assert(0xd800 <= hi <= 0xdbff && 0xdc00 <= lo <= 0xdfff && 0x10000 + (hi - 0xd800) * 0x400
            + (lo - 0xdc00) == v) by (bit_vector)
            requires
                0x10000 <= v <= 0x10ffff,
                w == v - 0x10000,
                hi == (0xd800u32 + (w >> 10u32)) as u16,
                lo == (0xdc00u32 + (w & 0x3ffu32)) as u16,
        ;
        let d = 0x10000 + (hi - 0xd800) * 0x400 + (lo - 0xdc00);
        assert(d as char == c);
    }
}

/// The code units of a text decode back to the text.
pub(crate) proof fn lemma_units_decode(text: Seq<char>)
    ensures
        decode_utf16(utf16_units(text)) == Some(text),
    decreases text.len(),
{
    if text.len() > 0 {
        lemma_units_front(text);
        lemma_units_decode(text.drop_first());
        lemma_char_units_decode(text[0], utf16_units(text.drop_first()));
        assert(seq![text[0]] + text.drop_first() =~= text);
    }
}

/// No code unit of a text without NUL characters is zero.
pub(crate) proof fn lemma_units_have_no_zero(text: Seq<char>)
    requires
        forall|i: int| 0 <= i < text.len() ==> text[i] != '\0',
    ensures
        forall|i: int| 0 <= i < utf16_units(text).len() ==> #[trigger] utf16_units(text)[i] != 0u16,
    decreases text.len(),
{
    if text.len() > 0 {
        let front = text.drop_last();
        let c = text.last();
        lemma_units_have_no_zero(front);
        let v = c as u32;
        vstd::utf8::char_u32_cast(c, v);
        assert(v != 0) by {
            assert(('\0' as u32) == 0);
        }
        let head = utf16_units(front);
        let tail = char_units(c);
        assert forall|i: int| 0 <= i < tail.len() implies tail[i] != 0u16 by {
            if v >= 0x10000 {
                let w = (v - 0x10000) as u32;
                assert((0xd800u32 + (w >> 10u32)) as u16 != 0u16 && (0xdc00u32 + (w & 0x3ffu32)) as u16
                    != 0u16) by (bit_vector)
                    requires
                        0x10000 <= v <= 0x10ffff,
                        w == v - 0x10000,
                ;
            }
        }
        assert forall|i: int| 0 <= i < utf16_units(text).len() implies #[trigger] utf16_units(text)[i]
            != 0u16 by {
            if i < head.len() {
                assert(utf16_units(text)[i] == head[i]);
            } else {
                assert(utf16_units(text)[i] == tail[i - head.len()]);
            }
        }
    }
}

/// The bytes of a code unit stand for the unit in the same byte order.
pub(crate) proof fn lemma_unit_roundtrip(unit: u16, big_endian: bool)
    ensures
        unit_bytes(unit, big_endian).len() == 2,
        unit_from(unit_bytes(unit, big_endian), big_endian) == unit,
{
    super::wire::lemma_u16_roundtrip(unit, Seq::empty());
    assert(super::wire::be_u16(unit) + Seq::<u8>::empty() =~= super::wire::be_u16(unit));
    if !big_endian {
        let b = unit_bytes(unit, false);
        assert(seq![b[1], b[0]] =~= super::wire::be_u16(unit));
    }
}

/// Each pair of bytes of encoded code units holds the unit at its position.
pub(crate) proof fn lemma_units_bytes_at(units: Seq<u16>, big_endian: bool, i: int)
    requires
        0 <= i < units.len(),
    ensures
        units_bytes(units, big_endian).subrange(2 * i, 2 * i + 2) == unit_bytes(units[i], big_endian),
    decreases units.len(),
{
    let front = units.drop_last();
    lemma_units_bytes_len(front, big_endian);
    lemma_unit_roundtrip(units.last(), big_endian);
    let all = units_bytes(units, big_endian);
    let head = units_bytes(front, big_endian);
    if i < units.len() - 1 {
        lemma_units_bytes_at(front, big_endian, i);
        assert(all.subrange(2 * i, 2 * i + 2) =~= head.subrange(2 * i, 2 * i + 2));
    } else {
        assert(all.subrange(2 * i, 2 * i + 2) =~= unit_bytes(units.last(), big_endian));
    }
}

/// Encoded code units read back as those units.
proof fn lemma_units_read_back(units: Seq<u16>, big_endian: bool)
    ensures
        read_units(units_bytes(units, big_endian), big_endian) == units,
{
    lemma_units_bytes_len(units, big_endian);
    let bytes = units_bytes(units, big_endian);
    assert forall|i: int| 0 <= i < units.len() implies #[trigger] read_units(bytes, big_endian)[i]
        == units[i] by {
        lemma_units_bytes_at(units, big_endian, i);
        lemma_unit_roundtrip(units[i], big_endian);
    }
    assert(read_units(bytes, big_endian) =~= units);
}

/// Code units without a zero, followed by one zero unit, lose exactly that unit to the removal
/// of delimiters.
proof fn lemma_single_unit_delimiter(units: Seq<u16>)
    requires
        forall|i: int| 0 <= i < units.len() ==> units[i] != 0u16,
    ensures
        without_delimiters(units.push(0u16), 0u16) == Ok::<Seq<u16>, DeserializeError>(units),
{
    let input = units.push(0u16);
    let n = units.len() as int;
    assert(input[n].eq_spec(&0u16));
    assert forall|j: int| 0 <= j < n implies !input[j].eq_spec(&0u16) by {
        assert(input[j] == units[j]);
    }
    let p = choose|p: int|
        0 <= p < input.len() && input[p].eq_spec(&0u16) && forall|j: int|
            0 <= j < p ==> !input[j].eq_spec(&0u16);
    assert(p == n) by {
        if p < n {
            assert(input[p] == units[p]);
        }
    }
    assert(input.take(n) =~= units);
}

/// The UTF-16 text after a Byte Order Mark reads back from its code units and zero delimiter.
proof fn lemma_utf16_body_reads_back(text: Seq<char>, big_endian: bool)
    requires
        forall|i: int| 0 <= i < text.len() ==> text[i] != '\0',
    ensures
        super::string::utf16_text(
            units_bytes(utf16_units(text), big_endian) + unit_bytes(0, big_endian),
            big_endian,
            if big_endian {
                "invalid UTF-16BE string"
            } else {
                "invalid UTF-16LE string"
            },
        ) == Ok::<Seq<char>, DeserializeError>(text),
{
    let units = utf16_units(text);
    lemma_units_have_no_zero(text);
    let all = units.push(0u16);
    assert(all.drop_last() =~= units);
    assert(units_bytes(all, big_endian) == units_bytes(units, big_endian) + unit_bytes(0, big_endian));
    lemma_units_bytes_len(all, big_endian);
    lemma_units_read_back(all, big_endian);
    lemma_single_unit_delimiter(units);
    lemma_units_decode(text);
}

/// A text without NUL characters reads back from its big-endian UTF-16 encoding: the Byte Order
/// Mark, the code units of the text and a zero delimiter.
pub proof fn lemma_utf16be_reads_back(text: Seq<char>)
    requires
        forall|i: int| 0 <= i < text.len() ==> text[i] != '\0',
        2 * utf16_units(text).len() + 4 <= usize::MAX,
    ensures
        Utf16BE::spec_encode(text) matches Ok(bytes) && Utf16BE::spec_decode(bytes) == Ok::<
            Seq<char>,
            DeserializeError,
        >(text),
{
    let body = units_bytes(utf16_units(text), true) + unit_bytes(0, true);
    let bytes = unit_bytes(0xfeff, true) + units_bytes(utf16_units(text), true) + unit_bytes(0, true);
    assert(bytes =~= unit_bytes(0xfeff, true) + body);
    super::wire::lemma_u16_roundtrip(0xfeff, body);
    assert(bytes.skip(2) =~= body);
    lemma_utf16_body_reads_back(text, true);
}

/// A text without NUL characters reads back from its little-endian UTF-16 encoding: the Byte
/// Order Mark, the code units of the text and a zero delimiter.
pub proof fn lemma_utf16le_reads_back(text: Seq<char>)
    requires
        forall|i: int| 0 <= i < text.len() ==> text[i] != '\0',
        2 * utf16_units(text).len() + 4 <= usize::MAX,
    ensures
        Utf16LE::spec_encode(text) matches Ok(bytes) && Utf16LE::spec_decode(bytes) == Ok::<
            Seq<char>,
            DeserializeError,
        >(text),
{
    let body = units_bytes(utf16_units(text), false) + unit_bytes(0, false);
    let bytes = unit_bytes(0xfeff, false) + units_bytes(utf16_units(text), false) + unit_bytes(0, false);
    assert(bytes =~= unit_bytes(0xfeff, false) + body);
    assert(unit_bytes(0xfeff, false) == super::wire::be_u16(0xfffe)) by {
        assert((0xfeffu16 as u8) == 0xffu8 && ((0xfeffu16 >> 8u16) as u8) == 0xfeu8) by (bit_vector);
        assert(((0xfffeu16 >> 8u16) as u8) == 0xffu8 && (0xfffeu16 as u8) == 0xfeu8) by (bit_vector);
    }
    super::wire::lemma_u16_roundtrip(0xfffe, body);
    assert(bytes.skip(2) =~= body);
    lemma_utf16_body_reads_back(text, false);
}

/// UTF-8 bytes after a Byte Order Mark read as the text they encode, once their delimiters are
/// removed.
proof fn lemma_utf8_decoding_after_bom(rest: Seq<u8>, encoded: Seq<u8>, text: Seq<char>)
    requires
        without_delimiters(rest, 0u8) == Ok::<Seq<u8>, DeserializeError>(encoded),
        vstd::utf8::valid_utf8(encoded),
        vstd::utf8::decode_utf8(encoded) == text,
    ensures
        Utf8::spec_decode(seq![0xefu8, 0xbbu8, 0xbfu8] + rest) == Ok::<Seq<char>, DeserializeError>(text),
{
    let input = seq![0xefu8, 0xbbu8, 0xbfu8] + rest;
    assert(input.take(3) =~= seq![0xefu8, 0xbbu8, 0xbfu8]);
    assert(input.skip(3) =~= rest);
}

/// A text without NUL characters reads back from its UTF-8 encoding followed by any number of
/// zero bytes.
proof fn lemma_utf8_padded_reads_back(text: Seq<char>, padding: nat)
    requires
        forall|i: int| 0 <= i < text.len() ==> text[i] != '\0',
        encode_utf8(text).len() + 4 <= usize::MAX,
    ensures
        Utf8::spec_encode(text) matches Ok(bytes) && Utf8::spec_decode(bytes + zero_bytes(padding))
            == Ok::<Seq<char>, DeserializeError>(text),
{
    let encoded = encode_utf8(text);
    let bom = seq![0xefu8, 0xbbu8, 0xbfu8];
    let rest = encoded + zero_bytes(padding + 1);
    let bytes = bom + encoded + seq![0u8];
    assert(Utf8::spec_encode(text) == Ok::<Seq<u8>, super::ser::SerializeError>(bytes));
    assert(seq![0u8] + zero_bytes(padding) =~= zero_bytes(padding + 1));
    assert(bytes + zero_bytes(padding) =~= bom + rest) by {
        vstd::seq_lib::lemma_concat_associative(bom, encoded, seq![0u8]);
        vstd::seq_lib::lemma_concat_associative(bom + encoded, seq![0u8], zero_bytes(padding));
        vstd::seq_lib::lemma_concat_associative(bom, encoded, zero_bytes(padding + 1));
        vstd::seq_lib::lemma_concat_associative(encoded, seq![0u8], zero_bytes(padding));
    }
    lemma_utf8_has_no_zero(text);
    lemma_trailing_delimiters(encoded, padding + 1);
    encode_utf8_valid_utf8(text);
    encode_utf8_decode_utf8(text);
    lemma_utf8_decoding_after_bom(rest, encoded, text);
}

/// A static string reads back from its bytes whenever its text reads back from its encoding
/// followed by the zero padding, with nothing after them: the whole input is decoded.
pub proof fn lemma_static_reads_back<const N: usize, E: Encoding, Value: Text>(
    string: &StaticString<N, E, Value>,
)
    requires
        E::spec_encode(string.spec_text()) matches Ok(encoded) && encoded.len() <= N
            && E::spec_decode(encoded + zero_bytes((N - encoded.len()) as nat)) == Ok::<
            Seq<char>,
            DeserializeError,
        >(string.spec_text()),
    ensures
        string.spec_serialize() matches Ok(bytes) && bytes.len() == N
            && StaticString::<N, E, String>::spec_deserialize(bytes) == Ok::<
            (Seq<char>, nat),
            DeserializeError,
        >((string.spec_text(), N as nat)),
{
    E::lemma_size_agrees(string.spec_text());
}

/// A static UTF-8 string without NUL characters reads back from its bytes: the Byte Order Mark,
/// the bytes of the text, a zero delimiter and zero padding up to the size of the string, with
/// nothing after them.
pub proof fn lemma_static_utf8_reads_back<const N: usize, Value: Text>(string: &StaticString<N, Utf8, Value>)
    requires
        forall|i: int| 0 <= i < string.spec_text().len() ==> string.spec_text()[i] != '\0',
        encode_utf8(string.spec_text()).len() + 4 <= N,
    ensures
        string.spec_serialize() matches Ok(bytes) && bytes.len() == N
            && StaticString::<N, Utf8, String>::spec_deserialize(bytes) == Ok::<
            (Seq<char>, nat),
            DeserializeError,
        >((string.spec_text(), N as nat)),
{
    lemma_utf8_padded_reads_back(string.spec_text(), (N - (encode_utf8(string.spec_text()).len() + 4)) as nat);
    lemma_static_reads_back(string);
}


/// `n` zero code units.
spec fn zero_units(n: nat) -> Seq<u16> {
    Seq::new(n, |_i: int| 0u16)
}

/// Encoded code units followed by zero bytes read back as those units followed by one zero unit
/// for each whole pair of zero bytes.
proof fn lemma_read_units_padded(units: Seq<u16>, big_endian: bool, padding: nat)
    ensures
        read_units(units_bytes(units, big_endian) + zero_bytes(padding), big_endian) == units
            + zero_units(padding / 2),
{
    let encoded = units_bytes(units, big_endian);
    let input = encoded + zero_bytes(padding);
    let n = units.len() as int;
    lemma_units_bytes_len(units, big_endian);
    assert(input.len() / 2 == n + padding / 2);
    assert(unit_bytes(0, big_endian) =~= seq![0u8, 0u8]) by {
        assert(((0u16 >> 8u16) as u8) == 0u8 && (0u16 as u8) == 0u8) by (bit_vector);
    }
    lemma_unit_roundtrip(0, big_endian);
    assert forall|i: int| 0 <= i < n + padding / 2 implies #[trigger] read_units(input, big_endian)[i]
        == (units + zero_units(padding / 2))[i] by {
        if i < n {
            lemma_units_bytes_at(units, big_endian, i);
            lemma_unit_roundtrip(units[i], big_endian);
            assert(input.subrange(2 * i, 2 * i + 2) =~= encoded.subrange(2 * i, 2 * i + 2));
        } else {
            assert(input.subrange(2 * i, 2 * i + 2) =~= seq![0u8, 0u8]);
        }
    }
    assert(read_units(input, big_endian) =~= units + zero_units(padding / 2));
}

/// Code units without a zero, followed by one or more zero units, lose exactly those units to
/// the removal of delimiters.
proof fn lemma_trailing_unit_delimiters(units: Seq<u16>, zeros: nat)
    requires
        forall|i: int| 0 <= i < units.len() ==> units[i] != 0u16,
        zeros >= 1,
    ensures
        without_delimiters(units + zero_units(zeros), 0u16) == Ok::<Seq<u16>, DeserializeError>(
            units,
        ),
{
    let input = units + zero_units(zeros);
    let n = units.len() as int;
    assert(input[n].eq_spec(&0u16));
    assert forall|j: int| 0 <= j < n implies !input[j].eq_spec(&0u16) by {
        assert(input[j] == units[j]);
    }
    let p = choose|p: int|
        0 <= p < input.len() && input[p].eq_spec(&0u16) && forall|j: int|
            0 <= j < p ==> !input[j].eq_spec(&0u16);
    assert(p == n) by {
        if p < n {
            assert(input[p] == units[p]);
        }
    }
    assert forall|j: int| p <= j < input.len() implies input[j].eq_spec(&0u16) by {
        assert(input[j] == 0u16);
    }
    assert(input.take(n) =~= units);
}

/// The UTF-16 text after a Byte Order Mark reads back from its code units, its zero delimiter
/// and any number of zero bytes after them.
proof fn lemma_utf16_padded_body_reads_back(text: Seq<char>, big_endian: bool, padding: nat)
    requires
        forall|i: int| 0 <= i < text.len() ==> text[i] != '\0',
    ensures
        super::string::utf16_text(
            units_bytes(utf16_units(text), big_endian) + unit_bytes(0, big_endian) + zero_bytes(
                padding,
            ),
            big_endian,
            if big_endian {
                "invalid UTF-16BE string"
            } else {
                "invalid UTF-16LE string"
            },
        ) == Ok::<Seq<char>, DeserializeError>(text),
{
    let units = utf16_units(text);
    let all = units.push(0u16);
    assert(all.drop_last() =~= units);
    assert(units_bytes(all, big_endian) == units_bytes(units, big_endian) + unit_bytes(0, big_endian));
    let input = units_bytes(all, big_endian) + zero_bytes(padding);
    let raw = units + zero_units(padding / 2 + 1);
    assert(super::string::raw_utf16(input, big_endian) == Ok::<Seq<u16>, DeserializeError>(raw)) by {
        lemma_units_bytes_len(all, big_endian);
        lemma_read_units_padded(all, big_endian, padding);
        assert(all + zero_units(padding / 2) =~= raw);
        if input.len() % 2 == 1 {
            assert(input.last() == 0u8);
        }
    }
    assert(without_delimiters(raw, 0u16) == Ok::<Seq<u16>, DeserializeError>(units)) by {
        lemma_units_have_no_zero(text);
        lemma_trailing_unit_delimiters(units, padding / 2 + 1);
    }
    lemma_units_decode(text);
}

/// A static big-endian UTF-16 string without NUL characters reads back from its bytes: the Byte
/// Order Mark, the code units of the text, a zero delimiter and zero padding up to the size of
/// the string, with nothing after them.
pub proof fn lemma_static_utf16be_reads_back<const N: usize, Value: Text>(
    string: &StaticString<N, Utf16BE, Value>,
)
    requires
        forall|i: int| 0 <= i < string.spec_text().len() ==> string.spec_text()[i] != '\0',
        2 * utf16_units(string.spec_text()).len() + 4 <= N,
    ensures
        string.spec_serialize() matches Ok(bytes) && bytes.len() == N
            && StaticString::<N, Utf16BE, String>::spec_deserialize(bytes) == Ok::<
            (Seq<char>, nat),
            DeserializeError,
        >((string.spec_text(), N as nat)),
{
    let text = string.spec_text();
    let units = utf16_units(text);
    lemma_units_bytes_len(units, true);
    let padding = (N - (2 * units.len() + 4)) as nat;
    let body = units_bytes(units, true) + unit_bytes(0, true) + zero_bytes(padding);
    let encoded = unit_bytes(0xfeff, true) + units_bytes(units, true) + unit_bytes(0, true);
    assert(encoded + zero_bytes(padding) =~= unit_bytes(0xfeff, true) + body);
    super::wire::lemma_u16_roundtrip(0xfeff, body);
    assert((encoded + zero_bytes(padding)).skip(2) =~= body);
    lemma_utf16_padded_body_reads_back(text, true, padding);
    lemma_static_reads_back(string);
}

/// A static little-endian UTF-16 string without NUL characters reads back from its bytes: the
/// Byte Order Mark, the code units of the text, a zero delimiter and zero padding up to the size
/// of the string, with nothing after them.
pub proof fn lemma_static_utf16le_reads_back<const N: usize, Value: Text>(
    string: &StaticString<N, Utf16LE, Value>,
)
    requires
        forall|i: int| 0 <= i < string.spec_text().len() ==> string.spec_text()[i] != '\0',
        2 * utf16_units(string.spec_text()).len() + 4 <= N,
    ensures
        string.spec_serialize() matches Ok(bytes) && bytes.len() == N
            && StaticString::<N, Utf16LE, String>::spec_deserialize(bytes) == Ok::<
            (Seq<char>, nat),
            DeserializeError,
        >((string.spec_text(), N as nat)),
{
    let text = string.spec_text();
    let units = utf16_units(text);
    lemma_units_bytes_len(units, false);
    let padding = (N - (2 * units.len() + 4)) as nat;
    let body = units_bytes(units, false) + unit_bytes(0, false) + zero_bytes(padding);
    let encoded = unit_bytes(0xfeff, false) + units_bytes(units, false) + unit_bytes(0, false);
    assert(encoded + zero_bytes(padding) =~= unit_bytes(0xfeff, false) + body);
    assert(unit_bytes(0xfeff, false) == super::wire::be_u16(0xfffe)) by {
        assert((0xfeffu16 as u8) == 0xffu8 && ((0xfeffu16 >> 8u16) as u8) == 0xfeu8) by (bit_vector);
        assert(((0xfffeu16 >> 8u16) as u8) == 0xffu8 && (0xfffeu16 as u8) == 0xfeu8) by (bit_vector);
    }
    super::wire::lemma_u16_roundtrip(0xfffe, body);
    assert((encoded + zero_bytes(padding)).skip(2) =~= body);
    lemma_utf16_padded_body_reads_back(text, false, padding);
    lemma_static_reads_back(string);
}

} // verus!
