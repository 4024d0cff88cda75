//! Dynamic and static strings.
//!
//! Strings are written with a Byte Order Mark before them and a delimiter after them, encoded as
//! UTF-8, UTF-16 big endian or UTF-16 little endian. A [`DynamicString`] is preceded by a length
//! field, a [`StaticString`] always occupies the same number of bytes.

use super::de::{is_rest_of, lemma_rest_of_trans, Deserialize, DeserializeError};
use super::length::Length;
use super::ser::{add_sizes, serialized, size_agrees, Serialize, SerializeError};
use super::wire::{be_u16, put_bytes, put_slice, u16_from_be, Reader};
use core::marker::PhantomData;
use vstd::prelude::*;
use vstd::std_specs::cmp::PartialEqSpec;
use vstd::std_specs::iter::IteratorSpec;
use vstd::utf8::{decode_utf8, valid_utf8};

verus! {

broadcast use vstd::string::axiom_spec_iter;

/// Size of the string encoding in bytes: the Byte Order Mark and the delimiter.
///
/// It's the same for UTF-8 and UTF-16.
const ENCODING_SIZE: usize = 4;

/// Values that hold a string.
pub trait Text {
    /// The characters of the string.
    spec fn text(&self) -> Seq<char>;

    /// Returns the string.
    fn as_text(&self) -> (text: &str)
        ensures
            text@ == self.text(),
    ;
}

impl Text for str {
    open spec fn text(&self) -> Seq<char> {
        self@
    }

    fn as_text(&self) -> (text: &str) {
        self
    }
}

impl Text for String {
    open spec fn text(&self) -> Seq<char> {
        self@
    }

    fn as_text(&self) -> (text: &str) {
        self.as_str()
    }
}

impl<'a, T: Text + ?Sized> Text for &'a T {
    open spec fn text(&self) -> Seq<char> {
        (**self).text()
    }

    fn as_text(&self) -> (text: &str) {
        (**self).as_text()
    }
}

/// How a reader before and after decoding a string, and the result returned, relate to the
/// characters (or the error) that its bytes stand for: on success, all bytes were consumed.
pub open spec fn decoded(
    expected: Result<Seq<char>, DeserializeError>,
    before: Seq<u8>,
    after: Seq<u8>,
    result: Result<String, DeserializeError>,
) -> bool {
    match expected {
        Ok(text) => {
            &&& result matches Ok(s) && s@ == text
            &&& after == Seq::<u8>::empty()
        },
        Err(e) => {
            &&& result == Err::<String, DeserializeError>(e)
            &&& is_rest_of(after, before)
        },
    }
}

/// String encoding according to the SOME/IP on-wire format.
pub trait Encoding: Sealed {
    /// The bytes that [`Encoding::serialize`] writes for `text`, or the error it reports.
    spec fn spec_encode(text: Seq<char>) -> Result<Seq<u8>, SerializeError>;

    /// The value that [`Encoding::size`] returns for `text`.
    spec fn spec_size(text: Seq<char>) -> Option<usize>;

    /// The characters that [`Encoding::deserialize`] reads from all of `input`, or the error it
    /// reports.
    spec fn spec_decode(input: Seq<u8>) -> Result<Seq<char>, DeserializeError>;

    /// Whenever a string serializes successfully, [`Encoding::size`] returns the length of the
    /// serialized data.
    proof fn lemma_size_agrees(text: Seq<char>)
        ensures
            size_agrees(Self::spec_encode(text), Self::spec_size(text)),
    ;

    /// Serializes the `value` into the given `buffer`.
    ///
    /// Includes a Byte Order Mark and a Delimiter before and after the actual string,
    /// respectively.
    ///
    /// Returns the length of the serialized data.
    ///
    /// # Errors
    ///
    /// Returns a [`SerializeError`] if the serialization fails. Some data may still be written to
    /// the buffer if an error occurs.
    fn serialize(value: &str, buffer: &mut Vec<u8>) -> (result: Result<usize, SerializeError>)
        ensures
            serialized(Self::spec_encode(value@), old(buffer)@, final(buffer)@, result),
    ;

    /// Returns the size of the `value` when serialized, including the Byte Order Mark and the
    /// Delimiter.
    ///
    /// Returns [`None`] if the size is out of bounds.
    fn size(value: &str) -> (size: Option<usize>)
        ensures
            size == Self::spec_size(value@),
    ;

    /// Deserializes a null-terminated [`String`] from all the remaining bytes of the `buffer`.
    ///
    /// Expects a Byte Order Mark and a Delimiter at the start and end of the string,
    /// respectively.
    ///
    /// # Errors
    ///
    /// Returns a [`DeserializeError`] if the deserialization fails: if the string is not
    /// null-terminated or if there is a null character before the end of the string.
    fn deserialize(buffer: &mut Reader) -> (result: Result<String, DeserializeError>)
        ensures
            decoded(Self::spec_decode(old(buffer)@), old(buffer)@, final(buffer)@, result),
    ;
}

/// Sealed trait to prevent external implementations.
pub trait Sealed {
}

/// The bytes of a UTF-8 string: Byte Order Mark, the encoded characters and a delimiter.
pub open spec fn utf8_encoding(text: Seq<char>) -> Result<Seq<u8>, SerializeError> {
    let bytes = vstd::utf8::encode_utf8(text);
    if bytes.len() + 4 > usize::MAX {
        Err(SerializeError::SizeOverflow)
    } else {
        Ok(seq![0xefu8, 0xbbu8, 0xbfu8] + bytes + seq![0u8])
    }
}

/// The input without its trailing delimiters.
///
/// Fails if there is no delimiter, or if anything but delimiters follows the first one.
pub open spec fn without_delimiters<T: PartialEq>(input: Seq<T>, delimiter: T) -> Result<
    Seq<T>,
    DeserializeError,
> {
    if exists|i: int| 0 <= i < input.len() && input[i].eq_spec(&delimiter) {
        let p = choose|p: int|
            0 <= p < input.len() && input[p].eq_spec(&delimiter) && forall|j: int|
                0 <= j < p ==> !input[j].eq_spec(&delimiter);
        if forall|j: int| p <= j < input.len() ==> input[j].eq_spec(&delimiter) {
            Ok(input.take(p))
        } else {
            Err(DeserializeError::InvariantFailed("null byte before end of string"))
        }
    } else {
        Err(DeserializeError::InvariantFailed("not null terminated"))
    }
}

/// The characters that the bytes of a UTF-8 string stand for.
pub open spec fn utf8_decoding(input: Seq<u8>) -> Result<Seq<char>, DeserializeError> {
    if input.len() < 3 {
        Err(DeserializeError::InsufficientData)
    } else if input.take(3) != seq![0xefu8, 0xbbu8, 0xbfu8] {
        Err(DeserializeError::InvariantFailed("invalid UTF-8 Byte Order Mark"))
    } else {
        match without_delimiters(input.skip(3), 0u8) {
            Err(e) => Err(e),
            Ok(bytes) => if valid_utf8(bytes) {
                Ok(decode_utf8(bytes))
            } else {
                Err(DeserializeError::InvariantFailed("invalid UTF-8 string"))
            },
        }
    }
}

/// UTF-8 encoding for strings.
#[derive(Debug, Clone, Copy, PartialEq, Eq, Hash)]
pub struct Utf8;

impl Sealed for Utf8 {
}

impl Encoding for Utf8 {
    open spec fn spec_encode(text: Seq<char>) -> Result<Seq<u8>, SerializeError> {
        utf8_encoding(text)
    }

    open spec fn spec_size(text: Seq<char>) -> Option<usize> {
        let n = vstd::utf8::encode_utf8(text).len();
        if n + 4 > usize::MAX {
            None
        } else {
            Some((n + 4) as usize)
        }
    }

    open spec fn spec_decode(input: Seq<u8>) -> Result<Seq<char>, DeserializeError> {
        utf8_decoding(input)
    }

    proof fn lemma_size_agrees(text: Seq<char>) {
    }

    fn serialize(value: &str, buffer: &mut Vec<u8>) -> (result: Result<usize, SerializeError>) {
        let ghost start = buffer@;
        // UTF-8 Byte Order Mark + String + Delimiter
        buffer.push(0xef);
        buffer.push(0xbb);
        buffer.push(0xbf);
        let bytes = value.as_bytes();
        put_slice(buffer, bytes);
        buffer.push(0x00);
        let ghost encoded = vstd::utf8::encode_utf8(value@);
        assert(buffer@ =~= start + (seq![0xefu8, 0xbbu8, 0xbfu8] + encoded + seq![0u8]));
        match bytes.len().checked_add(ENCODING_SIZE) {
            Some(size) => Ok(size),
            None => {
                assert(start.is_prefix_of(buffer@));
                Err(SerializeError::SizeOverflow)
            },
        }
    }

    fn size(value: &str) -> (size: Option<usize>) {
        value.as_bytes().len().checked_add(ENCODING_SIZE)
    }

    fn deserialize(buffer: &mut Reader) -> (result: Result<String, DeserializeError>) {
        let ghost input = buffer@;
        // Extract the Byte Order Mark.
        if buffer.remaining() < 3 {
            return Err(DeserializeError::InsufficientData);
        }
        let b0 = buffer.try_get_u8()?;
        let b1 = buffer.try_get_u8()?;
        let b2 = buffer.try_get_u8()?;
        assert(buffer@ =~= input.skip(3));
        if !(b0 == 0xef && b1 == 0xbb && b2 == 0xbf) {
            assert(input.take(3) != seq![0xefu8, 0xbbu8, 0xbfu8]) by {
                if input.take(3) == seq![0xefu8, 0xbbu8, 0xbfu8] {
                    assert(input.take(3)[0] == b0 && input.take(3)[1] == b1 && input.take(3)[2] == b2);
                }
            }
            return Err(DeserializeError::invariant_failed("invalid UTF-8 Byte Order Mark"));
        }
        assert(input.take(3) =~= seq![0xefu8, 0xbbu8, 0xbfu8]);
        // Extract the remainder of the buffer to a vector.
        let n = buffer.remaining();
        let raw = buffer.copy_to_vec(n);
        assert(raw@ =~= input.skip(3));
        assert(buffer@ =~= Seq::<u8>::empty());
        // Check if the string is correctly null terminated.
        let trimmed = remove_delimiters(raw, 0u8)?;
        // Convert the vector into an UTF-8 string.
        match string_from_utf8(trimmed) {
            Some(s) => Ok(s),
            None => Err(DeserializeError::invariant_failed("invalid UTF-8 string")),
        }
    }
}

/// Decodes UTF-8 bytes into a [`String`].
///
/// Calls `String::from_utf8`, which per its documentation fails exactly when the bytes are not
/// valid UTF-8, and otherwise holds the characters that the bytes encode.
#[verifier::external_body]
pub(crate) fn string_from_utf8(bytes: Vec<u8>) -> (s: Option<String>)
    ensures
        match s {
            Some(s) => valid_utf8(bytes@) && s@ == decode_utf8(bytes@),
            None => !valid_utf8(bytes@),
        },
{
    String::from_utf8(bytes).ok()
}

/// The UTF-16 code units of a character.
pub open spec fn char_units(c: char) -> Seq<u16> {
    let v = c as u32;
    if v < 0x10000 {
        seq![v as u16]
    } else {
        let w = (v - 0x10000) as u32;
        seq![(0xd800u32 + (w >> 10u32)) as u16, (0xdc00u32 + (w & 0x3ffu32)) as u16]
    }
}

/// The UTF-16 code units of a string.
pub open spec fn utf16_units(text: Seq<char>) -> Seq<u16>
    decreases text.len(),
{
    if text.len() == 0 {
        Seq::empty()
    } else {
        utf16_units(text.drop_last()) + char_units(text.last())
    }
}

/// The characters that UTF-16 code units stand for, or `None` if they hold an unpaired
/// surrogate.
pub open spec fn decode_utf16(units: Seq<u16>) -> Option<Seq<char>>
    decreases units.len(),
{
    if units.len() == 0 {
        Some(Seq::empty())
    } else {
        let u = units[0];
        if u < 0xd800 || u > 0xdfff {
            match decode_utf16(units.drop_first()) {
                Some(rest) => Some(seq![u as char] + rest),
                None => None,
            }
        } else if u <= 0xdbff && units.len() >= 2 && 0xdc00 <= units[1] <= 0xdfff {
            let v = 0x10000 + (u - 0xd800) * 0x400 + (units[1] - 0xdc00);
            match decode_utf16(units.skip(2)) {
                Some(rest) => Some(seq![v as char] + rest),
                None => None,
            }
        } else {
            None
        }
    }
}

/// The two bytes of a UTF-16 code unit in the given byte order.
pub open spec fn unit_bytes(unit: u16, big_endian: bool) -> Seq<u8> {
    if big_endian {
        be_u16(unit)
    } else {
        seq![unit as u8, (unit >> 8u16) as u8]
    }
}

/// The bytes of UTF-16 code units in the given byte order.
pub open spec fn units_bytes(units: Seq<u16>, big_endian: bool) -> Seq<u8>
    decreases units.len(),
{
    if units.len() == 0 {
        Seq::empty()
    } else {
        units_bytes(units.drop_last(), big_endian) + unit_bytes(units.last(), big_endian)
    }
}

/// The code unit that two bytes stand for in the given byte order.
pub open spec fn unit_from(bytes: Seq<u8>, big_endian: bool) -> u16 {
    if big_endian {
        u16_from_be(bytes)
    } else {
        u16_from_be(seq![bytes[1], bytes[0]])
    }
}

/// The code units that pairs of bytes stand for in the given byte order; an odd last byte is
/// left out.
pub open spec fn read_units(bytes: Seq<u8>, big_endian: bool) -> Seq<u16> {
    Seq::new(bytes.len() / 2, |i: int| unit_from(bytes.subrange(2 * i, 2 * i + 2), big_endian))
}

/// The bytes of a UTF-16 string: Byte Order Mark, the encoded characters and a delimiter.
pub open spec fn utf16_encoding(text: Seq<char>, big_endian: bool) -> Result<
    Seq<u8>,
    SerializeError,
> {
    let units = utf16_units(text);
    if 2 * units.len() + 4 > usize::MAX {
        Err(SerializeError::SizeOverflow)
    } else {
        Ok(unit_bytes(0xfeff, big_endian) + units_bytes(units, big_endian) + unit_bytes(0, big_endian))
    }
}

/// The size of a UTF-16 string: two bytes per code unit, the Byte Order Mark and the delimiter.
pub open spec fn utf16_size(text: Seq<char>) -> Option<usize> {
    let n = utf16_units(text).len();
    if 2 * n + 4 > usize::MAX {
        None
    } else {
        Some((2 * n + 4) as usize)
    }
}

/// The raw code units after the Byte Order Mark of a UTF-16 string: an odd last byte must be
/// zero.
pub open spec fn raw_utf16(input: Seq<u8>, big_endian: bool) -> Result<Seq<u16>, DeserializeError> {
    if input.len() % 2 == 1 && input.last() != 0 {
        Err(DeserializeError::InvariantFailed("not null terminated"))
    } else {
        Ok(read_units(input, big_endian))
    }
}

/// The characters that the bytes of a UTF-16 string stand for, once the Byte Order Mark is
/// checked.
pub open spec fn utf16_text(rest: Seq<u8>, big_endian: bool, invalid: &'static str) -> Result<
    Seq<char>,
    DeserializeError,
> {
    match raw_utf16(rest, big_endian) {
        Err(e) => Err(e),
        Ok(raw) => match without_delimiters(raw, 0u16) {
            Err(e) => Err(e),
            Ok(units) => match decode_utf16(units) {
                Some(text) => Ok(text),
                None => Err(DeserializeError::InvariantFailed(invalid)),
            },
        },
    }
}

/// Appending a character appends its code units.
proof fn lemma_units_push(text: Seq<char>, c: char)
    ensures
        utf16_units(text.push(c)) == utf16_units(text) + char_units(c),
{
    assert(text.push(c).drop_last() =~= text);
}

/// Appending a code unit appends its bytes.
proof fn lemma_units_bytes_push(units: Seq<u16>, u: u16, big_endian: bool)
    ensures
        units_bytes(units.push(u), big_endian) == units_bytes(units, big_endian) + unit_bytes(
            u,
            big_endian,
        ),
{
    assert(units.push(u).drop_last() =~= units);
}

/// The code units of a prefix are at most those of the whole string.
proof fn lemma_units_prefix(text: Seq<char>, i: int)
    requires
        0 <= i <= text.len(),
    ensures
        utf16_units(text.take(i)).len() <= utf16_units(text).len(),
    decreases text.len() - i,
{
    if i < text.len() {
        lemma_units_prefix(text, i + 1);
        assert(text.take(i + 1).drop_last() =~= text.take(i));
    } else {
        assert(text.take(i) =~= text);
    }
}

/// Writes a code unit in the given byte order.
fn put_unit(buffer: &mut Vec<u8>, unit: u16, big_endian: bool)
    ensures
        final(buffer)@ == old(buffer)@ + unit_bytes(unit, big_endian),
{
    if big_endian {
        buffer.push((unit >> 8u16) as u8);
        buffer.push(unit as u8);
    } else {
        buffer.push(unit as u8);
        buffer.push((unit >> 8u16) as u8);
    }
    assert(final(buffer)@ =~= old(buffer)@ + unit_bytes(unit, big_endian));
}

/// Returns the UTF-16 code units of a character: the second one only for a character outside of
/// the Basic Multilingual Plane.
fn encode_char(c: char) -> (units: (u16, Option<u16>))
    ensures
        match units.1 {
            None => char_units(c) == seq![units.0],
            Some(low) => char_units(c) == seq![units.0, low],
        },
{
    let v = c as u32;
    if v < 0x10000 {
        (v as u16, None)
    } else {
        let w = v - 0x10000;
        assert(w < 0x100000) by {
            assert(c as u32 <= 0x10ffff);
        }
        assert((0xd800u32 + (w >> 10u32)) < 0x10000) by (bit_vector)
            requires
                w < 0x100000u32,
        ;
        assert((0xdc00u32 + (w & 0x3ffu32)) < 0x10000) by (bit_vector);
        ((0xd800u32 + (w >> 10u32)) as u16, Some((0xdc00u32 + (w & 0x3ffu32)) as u16))
    }
}

/// Serializes `value` as a UTF-16 string in the given byte order.
pub(crate) fn serialize_utf16(value: &str, buffer: &mut Vec<u8>, big_endian: bool) -> (result: Result<
    usize,
    SerializeError,
>)
    ensures
        serialized(utf16_encoding(value@, big_endian), old(buffer)@, final(buffer)@, result),
{
    let ghost start = buffer@;
    let ghost text = value@;
    let mut size: usize = ENCODING_SIZE;
    // UTF-16 Byte Order Mark + String + Delimiter
    put_unit(buffer, 0xfeff, big_endian);
    let ghost mut done: Seq<char> = Seq::empty();
    let mut chars = value.chars();
    loop
        invariant
            text == value@,
            chars.remaining().len() + done.len() == text.len(),
            text == done + chars.remaining(),
            start == old(buffer)@,
            2 * utf16_units(done).len() + 4 == size,
            buffer@ == start + unit_bytes(0xfeff, big_endian) + units_bytes(
                utf16_units(done),
                big_endian,
            ),
            chars.obeys_prophetic_iter_laws(),
            chars.decrease() is Some,
        ensures
            done == text,
            2 * utf16_units(done).len() + 4 == size,
            buffer@ == start + unit_bytes(0xfeff, big_endian) + units_bytes(
                utf16_units(done),
                big_endian,
            ),
        decreases chars.decrease()->0,
    {
        let ghost before = chars.remaining();
        let next = chars.next();
        match next {
            None => {
                assert(done =~= text);
                break ;
            },
            Some(c) => {
                assert(text == done.push(c) + chars.remaining()) by {
                    assert(before =~= seq![c] + chars.remaining());
                    assert(done + before =~= done.push(c) + chars.remaining());
                }
                proof {
                    lemma_units_push(done, c);
                    lemma_units_prefix(text, done.len() + 1int);
                    assert(text.take(done.len() + 1int) =~= done.push(c));
                }
                let (high, low) = encode_char(c);
                assert(utf16_units(done.push(c)).len() <= utf16_units(text).len());
                assert(utf16_units(done.push(c)).len() == utf16_units(done).len() + char_units(
                    c,
                ).len());
                size = match size.checked_add(2) {
                    Some(size) => size,
                    None => {
                        assert(start.is_prefix_of(buffer@));
                        assert(2 * utf16_units(text).len() + 4 > usize::MAX);
                        return Err(SerializeError::SizeOverflow);
                    },
                };
                put_unit(buffer, high, big_endian);
                proof {
                    lemma_units_bytes_push(utf16_units(done), high, big_endian);
                }
                match low {
                    None => {},
                    Some(low) => {
                        size = match size.checked_add(2) {
                            Some(size) => size,
                            None => {
                                assert(start.is_prefix_of(buffer@)) by {
                                    assert forall|i: int| 0 <= i < start.len() implies start[i]
                                        == buffer@[i] by {}
                                }
                                assert(2 * utf16_units(text).len() + 4 > usize::MAX);
                                return Err(SerializeError::SizeOverflow);
                            },
                        };
                        put_unit(buffer, low, big_endian);
                        proof {
                            lemma_units_bytes_push(utf16_units(done).push(high), low, big_endian);
                        }
                    },
                }
                proof {
                    assert(utf16_units(done) + char_units(c) =~= (match low {
                        None => utf16_units(done).push(high),
                        Some(l) => utf16_units(done).push(high).push(l),
                    }));
                    done = done.push(c);
                }
                assert(buffer@ =~= start + unit_bytes(0xfeff, big_endian) + units_bytes(
                    utf16_units(done),
                    big_endian,
                ));
            },
        }
    }
    put_unit(buffer, 0x0000, big_endian);
    proof {
        lemma_units_bytes_len(utf16_units(text), big_endian);
    }
    assert(buffer@ =~= start + (unit_bytes(0xfeff, big_endian) + units_bytes(
        utf16_units(text),
        big_endian,
    ) + unit_bytes(0, big_endian)));
    Ok(size)
}

/// Returns the size of `value` as a UTF-16 string.
fn size_utf16(value: &str) -> (size: Option<usize>)
    ensures
        size == utf16_size(value@),
{
    let ghost text = value@;
    let mut count: usize = 0;
    let ghost mut done: Seq<char> = Seq::empty();
    let mut chars = value.chars();
    loop
        invariant
            text == value@,
            chars.remaining().len() + done.len() == text.len(),
            text == done + chars.remaining(),
            count == utf16_units(done).len(),
            chars.obeys_prophetic_iter_laws(),
            chars.decrease() is Some,
        ensures
            done == text,
            count == utf16_units(done).len(),
        decreases chars.decrease()->0,
    {
        let ghost before = chars.remaining();
        match chars.next() {
            None => {
                assert(done =~= text);
                break ;
            },
            Some(c) => {
                assert(text == done.push(c) + chars.remaining()) by {
                    assert(before =~= seq![c] + chars.remaining());
                    assert(done + before =~= done.push(c) + chars.remaining());
                }
                proof {
                    lemma_units_push(done, c);
                    lemma_units_prefix(text, done.len() + 1int);
                    assert(text.take(done.len() + 1int) =~= done.push(c));
                }
                let (_, low) = encode_char(c);
                let n: usize = if low.is_some() {
                    2
                } else {
                    1
                };
                count = match count.checked_add(n) {
                    Some(count) => count,
                    None => return None,
                };
                proof {
                    done = done.push(c);
                }
            },
        }
    }
    match count.checked_mul(2) {
        Some(size) => size.checked_add(ENCODING_SIZE),
        None => None,
    }
}

/// Extracts a raw UTF-16 string from all the remaining bytes of the `buffer`, reading code units
/// in the given byte order.
///
/// Removes odd padding from the end of the string.
///
/// # Errors
///
/// Returns a [`DeserializeError`] if the odd byte isn't null.
pub fn deserialize_raw_utf16(buffer: &mut Reader, big_endian: bool) -> (result: Result<
    Vec<u16>,
    DeserializeError,
>)
    ensures
        match raw_utf16(old(buffer)@, big_endian) {
            Ok(units) => result matches Ok(v) && v@ == units && final(buffer)@ == Seq::<u8>::empty(),
            Err(e) => result == Err::<Vec<u16>, DeserializeError>(e) && is_rest_of(
                final(buffer)@,
                old(buffer)@,
            ),
        },
{
    let ghost input = buffer@;
    let total = buffer.remaining();
    let mut raw: Vec<u16> = Vec::new();
    let mut consumed: usize = 0;
    while buffer.remaining() >= 2
        invariant
            total == input.len(),
            consumed % 2 == 0,
            consumed <= input.len(),
            buffer@ == input.skip(consumed as int),
            raw@ == read_units(input.take(consumed as int), big_endian),
        decreases buffer@.len(),
    {
        let ghost before = buffer@;
        let unit = if big_endian {
            buffer.try_get_u16()
        } else {
            buffer.try_get_u16_le()
        };
        let unit = match unit {
            Ok(unit) => unit,
            Err(e) => {
                assert(false);
                return Err(e);
            },
        };
        proof {
            assert(input.subrange(consumed as int, consumed + 2) =~= before.take(2));
            assert(unit == unit_from(input.subrange(consumed as int, consumed + 2), big_endian));
        }
        raw.push(unit);
        consumed = consumed + 2;
        assert(buffer@ =~= input.skip(consumed as int));
        assert(raw@ =~= read_units(input.take(consumed as int), big_endian)) by {
            assert forall|i: int| 0 <= i < consumed / 2 implies #[trigger] raw@[i] == unit_from(
                input.take(consumed as int).subrange(2 * i, 2 * i + 2),
                big_endian,
            ) by {
                assert(input.take(consumed as int).subrange(2 * i, 2 * i + 2) =~= input.subrange(
                    2 * i,
                    2 * i + 2,
                ));
                if i < consumed / 2 - 1 {
                    assert(input.take(consumed - 2).subrange(2 * i, 2 * i + 2) =~= input.subrange(
                        2 * i,
                        2 * i + 2,
                    ));
                }
            }
        }
    }
    if buffer.remaining() == 1 {
        // Must be padding.
        let ghost before = buffer@;
        let last = match buffer.try_get_u8() {
            Ok(b) => b,
            Err(e) => {
                assert(false);
                return Err(e);
            },
        };
        assert(last == input.last());
        if last != 0 {
            return Err(DeserializeError::invariant_failed("not null terminated"));
        }
    }
    assert(consumed / 2 == input.len() / 2);
    assert forall|i: int| 0 <= i < input.len() / 2 implies #[trigger] read_units(
        input.take(consumed as int),
        big_endian,
    )[i] == read_units(input, big_endian)[i] by {
        assert(input.take(consumed as int).subrange(2 * i, 2 * i + 2) =~= input.subrange(
            2 * i,
            2 * i + 2,
        ));
    }
    assert(read_units(input.take(consumed as int), big_endian) =~= read_units(input, big_endian));
    Ok(raw)
}

/// Removes the trailing `delimiter` from the given `input`.
///
/// # Errors
///
/// Returns a [`DeserializeError::InvariantFailed`] if the input doesn't have a delimiter or if
/// there is anything but delimiters after the first one.
pub fn remove_delimiters<T: PartialEq + Copy>(input: Vec<T>, delimiter: T) -> (result: Result<
    Vec<T>,
    DeserializeError,
>)
    requires
        T::obeys_eq_spec(),
    ensures
        match without_delimiters(input@, delimiter) {
            Ok(trimmed) => result matches Ok(v) && v@ == trimmed,
            Err(e) => result == Err::<Vec<T>, DeserializeError>(e),
        },
{
    let mut input = input;
    let ghost s = input@;
    // Find the first delimiter.
    let mut position: usize = 0;
    while position < input.len()
        invariant
            T::obeys_eq_spec(),
            input@ == s,
            position <= s.len(),
            forall|j: int| 0 <= j < position ==> !s[j].eq_spec(&delimiter),
        ensures
            position <= s.len(),
            position < s.len() ==> s[position as int].eq_spec(&delimiter),
            forall|j: int| 0 <= j < position ==> !s[j].eq_spec(&delimiter),
        decreases s.len() - position,
    {
        if input[position] == delimiter {
            break ;
        }
        position = position + 1;
    }
    if position == input.len() {
        return Err(DeserializeError::invariant_failed("not null terminated"));
    }
    proof {
        lemma_first_delimiter(s, delimiter, position as int);
    }
    // Trim the delimiter.
    let remainder = input.split_off(position);
    assert(remainder@ =~= s.skip(position as int));
    // Check for non-null data after the delimiter.
    let mut i: usize = 0;
    while i < remainder.len()
        invariant
            T::obeys_eq_spec(),
            remainder@ == s.skip(position as int),
            remainder.len() == s.len() - position,
            i <= remainder.len(),
            forall|j: int| position <= j < position + i ==> s[j].eq_spec(&delimiter),
        ensures
            i <= remainder.len(),
            forall|j: int| position <= j < position + i ==> s[j].eq_spec(&delimiter),
            i < remainder.len() ==> !s[position + i].eq_spec(&delimiter),
        decreases remainder.len() - i,
    {
        if remainder[i] != delimiter {
            assert(remainder@[i as int] == s[position + i]);
            break ;
        }
        i = i + 1;
    }
    if i < remainder.len() {
        return Err(DeserializeError::invariant_failed("null byte before end of string"));
    }
    assert(input@ =~= s.take(position as int));
    Ok(input)
}

/// What [`without_delimiters`] gives, once the first delimiter is known.
proof fn lemma_first_delimiter<T: PartialEq>(s: Seq<T>, delimiter: T, position: int)
    requires
        0 <= position < s.len(),
        s[position].eq_spec(&delimiter),
        forall|j: int| 0 <= j < position ==> !s[j].eq_spec(&delimiter),
    ensures
        without_delimiters(s, delimiter) == if forall|j: int|
            position <= j < s.len() ==> s[j].eq_spec(&delimiter) {
            Ok::<Seq<T>, DeserializeError>(s.take(position))
        } else {
            Err(DeserializeError::InvariantFailed("null byte before end of string"))
        },
{
    let p = choose|p: int|
        0 <= p < s.len() && s[p].eq_spec(&delimiter) && forall|j: int|
            0 <= j < p ==> !s[j].eq_spec(&delimiter);
    assert(0 <= p < s.len() && s[p].eq_spec(&delimiter));
    if p < position {
        assert(!s[p].eq_spec(&delimiter));
    }
    if p > position {
        assert(!s[position].eq_spec(&delimiter));
    }
}

/// Decodes UTF-16 code units into a [`String`].
///
/// Calls `String::from_utf16`, which per its documentation fails exactly when the code units
/// hold an unpaired surrogate, and otherwise holds the characters that they encode.
#[verifier::external_body]
pub(crate) fn string_from_utf16(units: &[u16]) -> (s: Option<String>)
    ensures
        match decode_utf16(units@) {
            Some(text) => s matches Some(s) && s@ == text,
            None => s is None,
        },
{
    String::from_utf16(units).ok()
}

/// Deserializes a UTF-16 string in the given byte order, once its Byte Order Mark was read.
fn deserialize_utf16(buffer: &mut Reader, big_endian: bool, invalid: &'static str) -> (result:
    Result<String, DeserializeError>)
    ensures
        decoded(utf16_text(old(buffer)@, big_endian, invalid), old(buffer)@, final(buffer)@, result),
{
    // Extract the remainder of the buffer to a vector.
    let raw = deserialize_raw_utf16(buffer, big_endian)?;
    // Check if the string is correctly null terminated.
    let trimmed = remove_delimiters(raw, 0u16)?;
    // Convert the vector into an UTF-16 string.
    match string_from_utf16(trimmed.as_slice()) {
        Some(s) => Ok(s),
        None => Err(DeserializeError::InvariantFailed(invalid)),
    }
}

/// UTF-16 Little Endian encoding for strings.
#[derive(Debug, Clone, Copy, PartialEq, Eq, Hash)]
pub struct Utf16LE;

impl Sealed for Utf16LE {
}

impl Encoding for Utf16LE {
    open spec fn spec_encode(text: Seq<char>) -> Result<Seq<u8>, SerializeError> {
        utf16_encoding(text, false)
    }

    open spec fn spec_size(text: Seq<char>) -> Option<usize> {
        utf16_size(text)
    }

    open spec fn spec_decode(input: Seq<u8>) -> Result<Seq<char>, DeserializeError> {
        if input.len() < 2 {
            Err(DeserializeError::InsufficientData)
        } else if u16_from_be(input) != 0xfffe {
            Err(DeserializeError::InvariantFailed("invalid UTF-16LE Byte Order Mark"))
        } else {
            utf16_text(input.skip(2), false, "invalid UTF-16LE string")
        }
    }

    proof fn lemma_size_agrees(text: Seq<char>) {
        lemma_units_bytes_len(utf16_units(text), false);
    }

    fn serialize(value: &str, buffer: &mut Vec<u8>) -> (result: Result<usize, SerializeError>) {
        serialize_utf16(value, buffer, false)
    }

    fn size(value: &str) -> (size: Option<usize>) {
        size_utf16(value)
    }

    fn deserialize(buffer: &mut Reader) -> (result: Result<String, DeserializeError>) {
        let ghost input = buffer@;
        // Extract the Byte Order Mark.
        let bom = buffer.try_get_u16()?;
        if bom != 0xfffe {
            return Err(DeserializeError::invariant_failed("invalid UTF-16LE Byte Order Mark"));
        }
        let ghost after_bom = buffer@;
        let result = deserialize_utf16(buffer, false, "invalid UTF-16LE string");
        proof {
            if result is Err {
                lemma_rest_of_trans(input, after_bom, buffer@);
            }
        }
        result
    }
}

/// UTF-16 Big Endian encoding for strings.
#[derive(Debug, Clone, Copy, PartialEq, Eq, Hash)]
pub struct Utf16BE;

impl Sealed for Utf16BE {
}

impl Encoding for Utf16BE {
    open spec fn spec_encode(text: Seq<char>) -> Result<Seq<u8>, SerializeError> {
        utf16_encoding(text, true)
    }

    open spec fn spec_size(text: Seq<char>) -> Option<usize> {
        utf16_size(text)
    }

    open spec fn spec_decode(input: Seq<u8>) -> Result<Seq<char>, DeserializeError> {
        if input.len() < 2 {
            Err(DeserializeError::InsufficientData)
        } else if u16_from_be(input) != 0xfeff {
            Err(DeserializeError::InvariantFailed("invalid UTF-16BE Byte Order Mark"))
        } else {
            utf16_text(input.skip(2), true, "invalid UTF-16BE string")
        }
    }

    proof fn lemma_size_agrees(text: Seq<char>) {
        lemma_units_bytes_len(utf16_units(text), true);
    }

    fn serialize(value: &str, buffer: &mut Vec<u8>) -> (result: Result<usize, SerializeError>) {
        serialize_utf16(value, buffer, true)
    }

    fn size(value: &str) -> (size: Option<usize>) {
        // Same as Little Endian.
        Utf16LE::size(value)
    }

    fn deserialize(buffer: &mut Reader) -> (result: Result<String, DeserializeError>) {
        let ghost input = buffer@;
        // Extract the Byte Order Mark.
        let bom = buffer.try_get_u16()?;
        if bom != 0xfeff {
            return Err(DeserializeError::invariant_failed("invalid UTF-16BE Byte Order Mark"));
        }
        let ghost after_bom = buffer@;
        let result = deserialize_utf16(buffer, true, "invalid UTF-16BE string");
        proof {
            if result is Err {
                lemma_rest_of_trans(input, after_bom, buffer@);
            }
        }
        result
    }
}

/// Two bytes per code unit.
pub(crate) proof fn lemma_units_bytes_len(units: Seq<u16>, big_endian: bool)
    ensures
        units_bytes(units, big_endian).len() == 2 * units.len(),
    decreases units.len(),
{
    if units.len() > 0 {
        lemma_units_bytes_len(units.drop_last(), big_endian);
    }
}

/// A string as written by an [`Encoding`], without a length field.
struct Encoded<'a, E> {
    text: &'a str,
    _encoding: PhantomData<E>,
}

impl<'a, E: Encoding> Serialize for Encoded<'a, E> {
    closed spec fn spec_serialize(&self) -> Result<Seq<u8>, SerializeError> {
        E::spec_encode(self.text@)
    }

    closed spec fn spec_size(&self) -> Option<usize> {
        E::spec_size(self.text@)
    }

    proof fn lemma_size_agrees(&self) {
        E::lemma_size_agrees(self.text@);
    }

    fn serialize(&self, buffer: &mut Vec<u8>) -> (result: Result<usize, SerializeError>) {
        E::serialize(self.text, buffer)
    }

    fn size(&self) -> (result: Option<usize>) {
        E::size(self.text)
    }
}

/// A string as read by an [`Encoding`], from all the bytes it's given.
struct Decoded<E> {
    _encoding: PhantomData<E>,
}

impl<E: Encoding> Deserialize for Decoded<E> {
    type Output = String;

    closed spec fn spec_deserialize(input: Seq<u8>) -> Result<(Seq<char>, nat), DeserializeError> {
        match E::spec_decode(input) {
            Ok(text) => Ok((text, input.len())),
            Err(e) => Err(e),
        }
    }

    closed spec fn spec_size_hint() -> Option<usize> {
        None
    }

    fn deserialize(buffer: &mut Reader) -> (result: Result<String, DeserializeError>) {
        let ghost input = buffer@;
        let result = E::deserialize(buffer);
        assert(input.skip(input.len() as int) =~= Seq::<u8>::empty());
        result
    }

    fn size_hint() -> (result: Option<usize>) {
        None
    }
}

/// Dynamically sized string.
///
/// Encodes the size of the string in a preceding length field.
pub struct DynamicString<L, E, Value> {
    /// String to serialize.
    inner: Value,
    /// Length to include before the string.
    _length: PhantomData<L>,
    /// Encoding to use when serializing/deserializing the string.
    _encoding: PhantomData<E>,
}

impl<L: Length, E: Encoding, Value: Text> DynamicString<L, E, Value> {
    /// The wrapped string.
    pub closed spec fn spec_text(&self) -> Seq<char> {
        self.inner.text()
    }
}

impl<L: Length, E: Encoding, Value: Text> From<Value> for DynamicString<L, E, Value> {
    fn from(value: Value) -> (string: Self)
        ensures
            string.spec_text() == value.text(),
    {
        Self { inner: value, _length: PhantomData, _encoding: PhantomData }
    }
}

impl<L: Length, E: Encoding, Value: Text> vstd::std_specs::convert::FromSpecImpl<Value> for DynamicString<L, E, Value> {
    open spec fn obeys_from_spec() -> bool {
        true
    }

    closed spec fn from_spec(value: Value) -> Self {
        DynamicString { inner: value, _length: PhantomData, _encoding: PhantomData }
    }
}

impl<L: Length, E: Encoding, Value: Text> Serialize for DynamicString<L, E, Value> {
    open spec fn spec_serialize(&self) -> Result<Seq<u8>, SerializeError> {
        L::spec_serialize_value(E::spec_encode(self.spec_text()), E::spec_size(self.spec_text()))
    }

    open spec fn spec_size(&self) -> Option<usize> {
        add_sizes(E::spec_size(self.spec_text()), Some(L::spec_width() as usize))
    }

    proof fn lemma_size_agrees(&self) {
        E::lemma_size_agrees(self.spec_text());
        L::lemma_field_agrees(E::spec_encode(self.spec_text()), E::spec_size(self.spec_text()));
    }

    fn serialize(&self, buffer: &mut Vec<u8>) -> (result: Result<usize, SerializeError>) {
        let wrapper = Encoded::<E> { text: self.inner.as_text(), _encoding: PhantomData };
        L::serialize(&wrapper, buffer)
    }

    fn size(&self) -> (result: Option<usize>) {
        proof {
            E::lemma_size_agrees(self.spec_text());
            L::lemma_field_agrees(E::spec_encode(self.spec_text()), E::spec_size(self.spec_text()));
        }
        match E::size(self.inner.as_text()) {
            Some(size) => size.checked_add(L::size()),
            None => None,
        }
    }
}

/// What a length field followed by a string reads from `input`.
pub open spec fn dynamic_string_read<L: Length, E: Encoding>(input: Seq<u8>) -> Result<
    (Seq<char>, nat),
    DeserializeError,
> {
    match L::spec_read_field(input) {
        None => Err(DeserializeError::InsufficientData),
        Some(length) => if length > input.len() - L::spec_width() {
            Err(DeserializeError::InsufficientData)
        } else {
            let window = input.skip(L::spec_width() as int).take(length as int);
            match E::spec_decode(window) {
                Err(e) => Err(e),
                Ok(text) => Ok((text, L::spec_width() + length)),
            }
        },
    }
}

impl<L: Length, E: Encoding> Deserialize for DynamicString<L, E, String> {
    type Output = String;

    open spec fn spec_deserialize(input: Seq<u8>) -> Result<(Seq<char>, nat), DeserializeError> {
        dynamic_string_read::<L, E>(input)
    }

    open spec fn spec_size_hint() -> Option<usize> {
        Some(L::spec_width() as usize)
    }

    fn deserialize(buffer: &mut Reader) -> (result: Result<String, DeserializeError>) {
        L::deserialize::<Decoded<E>>(buffer)
    }

    fn size_hint() -> (result: Option<usize>) {
        Some(L::size())
    }
}

/// Statically sized string.
///
/// Serialized static strings always have the same length regardless of the size of the actual
/// string. Extra space is padded with delimiters.
pub struct StaticString<const N: usize, E, Value> {
    /// String to serialize.
    value: Value,
    /// Encoding to use when serializing/deserializing the string.
    _encoding: PhantomData<E>,
}

impl<const N: usize, E: Encoding, Value: Text> StaticString<N, E, Value> {
    /// The wrapped string.
    pub closed spec fn spec_text(&self) -> Seq<char> {
        self.value.text()
    }
}

/// `n` zero bytes.
pub open spec fn zero_bytes(n: nat) -> Seq<u8> {
    Seq::new(n, |_i: int| 0u8)
}

/// The bytes of a string padded with zeros to `n` bytes.
pub open spec fn padded(
    encoded: Result<Seq<u8>, SerializeError>,
    size: Option<usize>,
    n: usize,
) -> Result<Seq<u8>, SerializeError> {
    match size {
        None => Err(SerializeError::SizeOverflow),
        Some(s) => if s > n {
            Err(SerializeError::InvariantFailed("string exceeds static array capacity"))
        } else {
            match encoded {
                Err(e) => Err(e),
                Ok(b) => Ok(b + zero_bytes((n - b.len()) as nat)),
            }
        },
    }
}

impl<const N: usize, E: Encoding, Value: Text> From<Value> for StaticString<N, E, Value> {
    fn from(value: Value) -> (string: Self)
        ensures
            string.spec_text() == value.text(),
    {
        Self { value, _encoding: PhantomData }
    }
}

impl<const N: usize, E: Encoding, Value: Text> vstd::std_specs::convert::FromSpecImpl<Value> for StaticString<N, E, Value> {
    open spec fn obeys_from_spec() -> bool {
        true
    }

    closed spec fn from_spec(value: Value) -> Self {
        StaticString { value, _encoding: PhantomData }
    }
}

impl<const N: usize, E: Encoding, Value: Text> Serialize for StaticString<N, E, Value> {
    open spec fn spec_serialize(&self) -> Result<Seq<u8>, SerializeError> {
        padded(E::spec_encode(self.spec_text()), E::spec_size(self.spec_text()), N)
    }

    open spec fn spec_size(&self) -> Option<usize> {
        Some(N)
    }

    proof fn lemma_size_agrees(&self) {
        E::lemma_size_agrees(self.spec_text());
        if let Ok(b) = E::spec_encode(self.spec_text()) {
            if let Some(s) = E::spec_size(self.spec_text()) {
                if s <= N {
                    assert((b + zero_bytes((N - b.len()) as nat)).len() == N);
                }
            }
        }
    }

    /// The size is checked before anything is written: a string that does not fit leaves the
    /// buffer as it was.
    fn serialize(&self, buffer: &mut Vec<u8>) -> (result: Result<usize, SerializeError>)
        ensures
            (match E::spec_size(self.spec_text()) {
                None => true,
                Some(size) => size > N,
            }) ==> final(buffer)@ == old(buffer)@,
    {
        let text = self.value.as_text();
        proof {
            E::lemma_size_agrees(text@);
        }
        // Check if the string fits in the array.
        let size = match E::size(text) {
            Some(size) => size,
            None => return Err(SerializeError::SizeOverflow),
        };
        if size > N {
            return Err(SerializeError::invariant_failed("string exceeds static array capacity"));
        }
        // Write the string into the buffer.
        let ghost start = buffer@;
        let written = E::serialize(text, buffer)?;
        // Fill the remaining space with '0'.
        let ghost middle = buffer@;
        put_bytes(buffer, 0, N - written);
        assert(buffer@ =~= start + (E::spec_encode(text@).unwrap() + zero_bytes((N - written) as nat)));
        // Return the size of the array.
        Ok(N)
    }

    fn size(&self) -> (result: Option<usize>) {
        Some(N)
    }
}

impl<const N: usize, E: Encoding> Deserialize for StaticString<N, E, String> {
    type Output = String;

    open spec fn spec_deserialize(input: Seq<u8>) -> Result<(Seq<char>, nat), DeserializeError> {
        match E::spec_decode(input) {
            Ok(text) => Ok((text, input.len())),
            Err(e) => Err(e),
        }
    }

    open spec fn spec_size_hint() -> Option<usize> {
        Some(N)
    }

    fn deserialize(buffer: &mut Reader) -> (result: Result<String, DeserializeError>) {
        let ghost input = buffer@;
        let result = E::deserialize(buffer);
        assert(input.skip(input.len() as int) =~= Seq::<u8>::empty());
        result
    }

    fn size_hint() -> (result: Option<usize>) {
        Some(N)
    }
}

} // verus!
