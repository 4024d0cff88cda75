//! Length fields.
//!
//! The SOME/IP length field encodes the length of a dynamically sized payload before the payload
//! itself. It's 0, 1, 2 or 4 bytes wide.

use super::de::{deserialized, is_rest_of, Deserialize, DeserializeError};
use super::ser::{add_sizes, serialized, size_agrees, Serialize, SerializeError};
use super::wire::{
    be_u16, be_u32, lemma_u16_roundtrip, lemma_u32_roundtrip, put_u16, put_u32, u16_from_be,
    u32_from_be, Reader,
};
use core::marker::PhantomData;
use vstd::prelude::*;

verus! {

/// Sealed trait to prevent external implementations.
pub trait Sealed {
}

/// The bytes written for a value preceded by a length field of `width` bytes that can hold up to
/// `max`, given the encoding of the value, its size, and the bytes of the length field.
pub open spec fn with_length_field(
    ser: Result<Seq<u8>, SerializeError>,
    size: Option<usize>,
    max: nat,
    field: Seq<u8>,
) -> Result<Seq<u8>, SerializeError> {
    match size {
        None => Err(SerializeError::SizeOverflow),
        Some(s) => if s > max {
            Err(SerializeError::LengthOverflow)
        } else {
            match ser {
                Err(e) => Err(e),
                Ok(b) => if b.len() != s {
                    Err(SerializeError::SizeMismatch)
                } else if b.len() + field.len() > usize::MAX {
                    Err(SerializeError::SizeOverflow)
                } else {
                    Ok(field + b)
                },
            }
        },
    }
}

/// The value read after a length field of `width` bytes holding `length`: `Value` is read from
/// the next `length` bytes only.
pub open spec fn after_length_field<Value: Deserialize>(
    input: Seq<u8>,
    width: nat,
    length: nat,
) -> Result<(<Value::Output as DeepView>::V, nat), DeserializeError> {
    if length > input.len() - width {
        Err(DeserializeError::InsufficientData)
    } else {
        match Value::spec_deserialize(input.skip(width as int).take(length as int)) {
            Err(e) => Err(e),
            Ok((v, n)) => Ok((v, width + n)),
        }
    }
}

/// Length of a value.
///
/// Encodes the length of a dynamically sized type in the SOME/IP on-wire format.
pub trait Length: Sealed {
    /// The bytes that [`Length::serialize`] writes for a value with the given encoding and size.
    spec fn spec_serialize_value(
        ser: Result<Seq<u8>, SerializeError>,
        size: Option<usize>,
    ) -> Result<Seq<u8>, SerializeError>;

    /// The length held by the field at the start of `input`, or `None` if `input` is too short to
    /// hold the field.
    spec fn spec_read_field(input: Seq<u8>) -> Option<nat>;

    /// The size of the length field in bytes.
    spec fn spec_width() -> nat;

    /// The value that [`Length::capacity`] returns.
    spec fn spec_capacity() -> Option<usize>;

    /// Whenever a value with a length field serializes successfully, its size is the size of the
    /// value plus the width of the field.
    proof fn lemma_field_agrees(ser: Result<Seq<u8>, SerializeError>, size: Option<usize>)
        requires
            size_agrees(ser, size),
        ensures
            Self::spec_width() <= 4,
            size_agrees(
                Self::spec_serialize_value(ser, size),
                add_sizes(size, Some(Self::spec_width() as usize)),
            ),
    ;

    /// Serializes the `value` into the given `buffer` with a length field.
    ///
    /// Returns the size of the serialized data in bytes, including the length field itself.
    ///
    /// # Errors
    ///
    /// Returns a [`SerializeError`] if the serialization fails. Some data may still be written to
    /// the buffer if an error occurs.
    fn serialize<Value: Serialize + ?Sized>(value: &Value, buffer: &mut Vec<u8>) -> (result: Result<
        usize,
        SerializeError,
    >)
        ensures
            serialized(
                Self::spec_serialize_value(value.spec_serialize(), value.spec_size()),
                old(buffer)@,
                final(buffer)@,
                result,
            ),
    ;

    /// Deserializes a value from the given `buffer` with a preceding length field.
    ///
    /// The value in the length field limits the bytes that the value is read from.
    ///
    /// # Errors
    ///
    /// Returns a [`DeserializeError`] if the deserialization fails.
    fn deserialize<Value: Deserialize>(buffer: &mut Reader) -> (result: Result<
        Value::Output,
        DeserializeError,
    >)
        ensures
            deserialized(
                match Self::spec_read_field(old(buffer)@) {
                    None => Err(DeserializeError::InsufficientData),
                    Some(length) => after_length_field::<Value>(
                        old(buffer)@,
                        Self::spec_width(),
                        length,
                    ),
                },
                old(buffer)@,
                final(buffer)@,
                result,
            ),
    ;

    /// The bytes of the length field that holds `length`.
    spec fn spec_field(length: usize) -> Seq<u8>;

    /// The largest length that the field can hold.
    spec fn spec_max() -> nat;

    /// The field that holds `length` is as wide as the field, and a value preceded by it is
    /// written as the field followed by the value's bytes. Reading the field back gives at least
    /// `length`, and more only when the field is zero bytes wide and the rest of the input
    /// follows.
    proof fn lemma_field_reads_back(length: usize, bytes: Seq<u8>, rest: Seq<u8>)
        requires
            length <= Self::spec_max(),
            bytes.len() == length,
            length + Self::spec_width() <= usize::MAX,
        ensures
            Self::spec_field(length).len() == Self::spec_width(),
            Self::spec_serialize_value(Ok(bytes), Some(length)) == Ok::<Seq<u8>, SerializeError>(
                Self::spec_field(length) + bytes,
            ),
            Self::spec_read_field(Self::spec_field(length) + bytes + rest) matches Some(l) && length
                <= l <= length + rest.len() && (l > length ==> Self::spec_width() == 0),
    ;

    /// Serializes the `value` into the given `buffer` with a length field, using the given pair of
    /// functions in place of [`Serialize`].
    ///
    /// The `size` function announces the size of the value, which the length field holds; the
    /// `serialize` function then writes the value after the field and returns how many bytes it
    /// wrote. A field of zero bytes asks no size and only calls `serialize`.
    ///
    /// Returns the size of the serialized data in bytes, including the length field itself.
    ///
    /// # Errors
    ///
    /// Returns [`SerializeError::SizeOverflow`] if `size` gives no size,
    /// [`SerializeError::LengthOverflow`] if the size does not fit in the field, the error of
    /// `serialize` if it fails, and [`SerializeError::SizeMismatch`] if it wrote another number of
    /// bytes than `size` announced.
    fn serialize_with<Value, SerializeFn, SizeFn>(
        serialize: SerializeFn,
        size: SizeFn,
        value: Value,
        buffer: &mut Vec<u8>,
    ) -> (result: Result<usize, SerializeError>) where
        SerializeFn: Fn(&Value, &mut Vec<u8>) -> Result<usize, SerializeError>,
        SizeFn: Fn(&Value) -> Option<usize>,

        requires
            size.requires((&value,)),
            forall|b: &mut Vec<u8>| serialize.requires((&value, b)),
        ensures
            Self::spec_width() == 0 ==> exists|b: &mut Vec<u8>|
                #[trigger] serialize.ensures((&value, b), result) && *b == *old(buffer) && *final(b)
                    == *final(buffer),
            Self::spec_width() > 0 ==> exists|announced: Option<usize>|
                #[trigger] size.ensures((&value,), announced) && match announced {
                    None => result == Err::<usize, SerializeError>(SerializeError::SizeOverflow)
                        && *final(buffer) == *old(buffer),
                    Some(n) => if n > Self::spec_max() {
                        result == Err::<usize, SerializeError>(SerializeError::LengthOverflow)
                            && *final(buffer) == *old(buffer)
                    } else {
                        exists|b: &mut Vec<u8>, written: Result<usize, SerializeError>|
                            #[trigger] serialize.ensures((&value, b), written) && b@ == old(buffer)@
                                + Self::spec_field(n) && final(b)@ == final(buffer)@ && result
                                == result_after_field(written, n, Self::spec_width())
                    },
                },
    ;

    /// Deserializes a value from the given `buffer` with a preceding length field, using the
    /// given function in place of [`Deserialize`].
    ///
    /// The function reads from the bytes that the length field covers, and no further; the
    /// buffer advances past the field and what the function read. A field of zero bytes hands the
    /// function the buffer itself.
    ///
    /// # Errors
    ///
    /// Returns [`DeserializeError::InsufficientData`] if the buffer is too short for the field or
    /// for the length it holds, and the error of the function if it fails.
    fn deserialize_with<'a, Value, Function>(function: Function, buffer: &mut Reader<'a>) -> (result:
        Result<Value, DeserializeError>) where
        Function: Fn(&mut Reader<'a>) -> Result<Value, DeserializeError>,

        requires
            forall|r: &mut Reader<'a>| function.requires((r,)),
        ensures
            Self::spec_width() == 0 ==> exists|r: &mut Reader<'a>|
                #[trigger] function.ensures((r,), result) && *r == *old(buffer) && *final(r)
                    == *final(buffer),
            Self::spec_width() > 0 ==> match Self::spec_read_field(old(buffer)@) {
                None => result == Err::<Value, DeserializeError>(DeserializeError::InsufficientData)
                    && is_rest_of(final(buffer)@, old(buffer)@),
                Some(length) => if length > old(buffer)@.len() - Self::spec_width() {
                    result == Err::<Value, DeserializeError>(DeserializeError::InsufficientData)
                        && is_rest_of(final(buffer)@, old(buffer)@)
                } else {
                    exists|r: &mut Reader<'a>|
                        #[trigger] function.ensures((r,), result) && r@ == old(buffer)@.skip(
                            Self::spec_width() as int,
                        ).take(length as int) && (final(r)@.len() <= length ==> final(buffer)@
                            == old(buffer)@.skip(Self::spec_width() + length - final(r)@.len()))
                },
            },
    ;

    /// Returns the size of the length field in bytes.
    fn size() -> (size: usize)
        ensures
            size == Self::spec_width(),
    ;

    /// Returns the capacity of the length field: the maximum value that it can represent.
    ///
    /// Returns [`None`] is the capacity is greater than [`usize::MAX`].
    fn capacity() -> (capacity: Option<usize>)
        ensures
            capacity == Self::spec_capacity(),
    ;
}

/// Writes `value` after a length field, once the field itself was written.
fn serialize_after_field<Value: Serialize + ?Sized>(
    value: &Value,
    size: usize,
    width: usize,
    buffer: &mut Vec<u8>,
    Ghost(start): Ghost<Seq<u8>>,
    Ghost(field): Ghost<Seq<u8>>,
) -> (result: Result<usize, SerializeError>)
    requires
        old(buffer)@ == start + field,
        field.len() == width,
        value.spec_size() == Some(size),
    ensures
        serialized(
            match value.spec_serialize() {
                Err(e) => Err(e),
                Ok(b) => if b.len() != size {
                    Err(SerializeError::SizeMismatch)
                } else if b.len() + field.len() > usize::MAX {
                    Err(SerializeError::SizeOverflow)
                } else {
                    Ok(field + b)
                },
            },
            start,
            final(buffer)@,
            result,
        ),
{
    let actual = match value.serialize(buffer) {
        Ok(actual) => actual,
        Err(e) => {
            assert(start.is_prefix_of(buffer@)) by {
                assert forall|i: int| 0 <= i < start.len() implies start[i] == buffer@[i] by {
                    assert(old(buffer)@[i] == buffer@[i]);
                }
            }
            return Err(e);
        },
    };
    assert(buffer@ =~= start + (field + value.spec_serialize().unwrap()));
    if actual != size {
        return Err(SerializeError::SizeMismatch);
    }
    match actual.checked_add(width) {
        Some(total) => Ok(total),
        None => Err(SerializeError::SizeOverflow),
    }
}

/// Reads `Value` from the next `length` bytes of the buffer, once the length field was read.
fn deserialize_after_field<Value: Deserialize>(
    buffer: &mut Reader,
    length: usize,
    Ghost(start): Ghost<Seq<u8>>,
    Ghost(width): Ghost<nat>,
) -> (result: Result<Value::Output, DeserializeError>)
    requires
        width <= start.len(),
        old(buffer)@ == start.skip(width as int),
    ensures
        deserialized(after_length_field::<Value>(start, width, length as nat), start, final(buffer)@, result),
{
    if length > buffer.remaining() {
        return Err(DeserializeError::InsufficientData);
    }
    let mut take = buffer.sub(length);
    let ghost taken = take@;
    let value = Value::deserialize(&mut take);
    match value {
        Ok(v) => {
            let consumed = length - take.remaining();
            let ghost n = Value::spec_deserialize(taken).unwrap().1;
            assert(consumed == n);
            buffer.advance(consumed);
            assert(buffer@ =~= start.skip((width + n) as int));
            Ok(v)
        },
        Err(e) => {
            Err(e)
        },
    }
}

/// What serializing with a length field returns, once the value's function returned `written`
/// after `size` bytes were announced for the value, with a field of `width` bytes.
pub open spec fn result_after_field(
    written: Result<usize, SerializeError>,
    size: usize,
    width: nat,
) -> Result<usize, SerializeError> {
    match written {
        Err(e) => Err(e),
        Ok(n) => if n != size {
            Err(SerializeError::SizeMismatch)
        } else if n + width > usize::MAX {
            Err(SerializeError::SizeOverflow)
        } else {
            Ok((n + width) as usize)
        },
    }
}

/// Calls the value's serialization function once the length field was written, and checks what
/// it returns against the announced `size`.
fn serialize_with_after_field<Value, SerializeFn>(
    serialize: SerializeFn,
    value: &Value,
    size: usize,
    width: usize,
    buffer: &mut Vec<u8>,
) -> (result: Result<usize, SerializeError>) where
    SerializeFn: Fn(&Value, &mut Vec<u8>) -> Result<usize, SerializeError>,

    requires
        forall|b: &mut Vec<u8>| serialize.requires((value, b)),
    ensures
        exists|b: &mut Vec<u8>, written: Result<usize, SerializeError>|
            #[trigger] serialize.ensures((value, b), written) && *b == *old(buffer) && *final(b)
                == *final(buffer) && result == result_after_field(written, size, width as nat),
{
    let written = serialize(value, buffer);
    match written {
        Err(e) => Err(e),
        Ok(n) => if n != size {
            Err(SerializeError::SizeMismatch)
        } else {
            match n.checked_add(width) {
                Some(total) => Ok(total),
                None => Err(SerializeError::SizeOverflow),
            }
        },
    }
}

/// Calls the value's deserialization function on the `length` bytes after a length field, and
/// advances the buffer past what it read.
fn deserialize_with_after_field<'a, Value, Function>(
    function: Function,
    buffer: &mut Reader<'a>,
    length: usize,
    Ghost(start): Ghost<Seq<u8>>,
    Ghost(width): Ghost<nat>,
) -> (result: Result<Value, DeserializeError>) where
    Function: Fn(&mut Reader<'a>) -> Result<Value, DeserializeError>,

    requires
        forall|r: &mut Reader<'a>| function.requires((r,)),
        width <= start.len(),
        old(buffer)@ == start.skip(width as int),
    ensures
        length > start.len() - width ==> result == Err::<Value, DeserializeError>(
            DeserializeError::InsufficientData,
        ) && is_rest_of(final(buffer)@, start),
        length <= start.len() - width ==> exists|r: &mut Reader<'a>|
            #[trigger] function.ensures((r,), result) && r@ == start.skip(width as int).take(
                length as int,
            ) && (final(r)@.len() <= length ==> final(buffer)@ == start.skip(
                width + length - final(r)@.len(),
            )),
{
    if length > buffer.remaining() {
        assert(is_rest_of(buffer@, start));
        return Err(DeserializeError::InsufficientData);
    }
    let mut take = buffer.sub(length);
    let result = function(&mut take);
    let left = take.remaining();
    if left <= length {
        buffer.advance(length - left);
        assert(buffer@ =~= start.skip(width + length - left));
    }
    result
}

/// 8-bit length field.
///
/// Used to encode lengths between 0 and 255 bytes long.
#[derive(Debug, Clone, Copy, PartialEq, Eq)]
pub struct LengthU8;

/// 16-bit length field.
///
/// Used to encode lengths between 0 and 65'535 bytes long.
#[derive(Debug, Clone, Copy, PartialEq, Eq)]
pub struct LengthU16;

/// 32-bit length field.
///
/// Used to encode lengths between 0 and 4'294'967'295 bytes long.
#[derive(Debug, Clone, Copy, PartialEq, Eq)]
pub struct LengthU32;

/// 0-bit length field.
///
/// Used to skip length encoding.
#[derive(Debug, Clone, Copy, PartialEq, Eq)]
pub struct LengthZero;

impl LengthU8 {
    /// Minimum value of the length field.
    pub const MIN: u8 = 0;

    /// Maximum value of the length field.
    pub const MAX: u8 = 0xff;
}

impl LengthU16 {
    /// Minimum value of the length field.
    pub const MIN: u16 = 0;

    /// Maximum value of the length field.
    pub const MAX: u16 = 0xffff;
}

impl LengthU32 {
    /// Minimum value of the length field.
    pub const MIN: u32 = 0;

    /// Maximum value of the length field.
    pub const MAX: u32 = 0xffff_ffff;
}

impl Sealed for LengthU8 {
}

impl Sealed for LengthU16 {
}

impl Sealed for LengthU32 {
}

impl Sealed for LengthZero {
}

impl Length for LengthU8 {
    open spec fn spec_serialize_value(
        ser: Result<Seq<u8>, SerializeError>,
        size: Option<usize>,
    ) -> Result<Seq<u8>, SerializeError> {
        with_length_field(ser, size, 0xff, seq![size.unwrap() as u8])
    }

    open spec fn spec_read_field(input: Seq<u8>) -> Option<nat> {
        if input.len() < 1 {
            None
        } else {
            Some(input[0] as nat)
        }
    }

    open spec fn spec_width() -> nat {
        1
    }

    open spec fn spec_capacity() -> Option<usize> {
        Some(0xff)
    }

    proof fn lemma_field_agrees(ser: Result<Seq<u8>, SerializeError>, size: Option<usize>) {
    }

    fn serialize<Value: Serialize + ?Sized>(value: &Value, buffer: &mut Vec<u8>) -> (result: Result<
        usize,
        SerializeError,
    >) {
        let size = match value.size() {
            Some(size) => size,
            None => return Err(SerializeError::SizeOverflow),
        };
        if size > 0xff {
            return Err(SerializeError::LengthOverflow);
        }
        let ghost start = buffer@;
        let ghost field = seq![size as u8];
        buffer.push(size as u8);
        assert(buffer@ =~= start + field);
        serialize_after_field(value, size, 1, buffer, Ghost(start), Ghost(field))
    }

    fn deserialize<Value: Deserialize>(buffer: &mut Reader) -> (result: Result<
        Value::Output,
        DeserializeError,
    >) {
        let ghost start = buffer@;
        let length = buffer.try_get_u8()?;
        deserialize_after_field::<Value>(buffer, length as usize, Ghost(start), Ghost(1))
    }

    open spec fn spec_field(length: usize) -> Seq<u8> {
        seq![length as u8]
    }

    open spec fn spec_max() -> nat {
        0xff
    }

    fn serialize_with<Value, SerializeFn, SizeFn>(
        serialize: SerializeFn,
        size: SizeFn,
        value: Value,
        buffer: &mut Vec<u8>,
    ) -> (result: Result<usize, SerializeError>) where
        SerializeFn: Fn(&Value, &mut Vec<u8>) -> Result<usize, SerializeError>,
        SizeFn: Fn(&Value) -> Option<usize>,
     {
        let announced = size(&value);
        let n = match announced {
            Some(n) => n,
            None => return Err(SerializeError::SizeOverflow),
        };
        if n > 0xff {
            return Err(SerializeError::LengthOverflow);
        }
        let ghost start = buffer@;
        buffer.push(n as u8);
        assert(buffer@ =~= start + Self::spec_field(n));
        serialize_with_after_field(serialize, &value, n, 1, buffer)
    }

    fn deserialize_with<'a, Value, Function>(function: Function, buffer: &mut Reader<'a>) -> (result:
        Result<Value, DeserializeError>) where
        Function: Fn(&mut Reader<'a>) -> Result<Value, DeserializeError>,
     {
        let ghost start = buffer@;
        let length = buffer.try_get_u8()?;
        deserialize_with_after_field(function, buffer, length as usize, Ghost(start), Ghost(1))
    }

    proof fn lemma_field_reads_back(length: usize, bytes: Seq<u8>, rest: Seq<u8>) {
        assert((seq![length as u8] + bytes + rest)[0] == length as u8);
    }

    fn size() -> (size: usize) {
        1
    }

    fn capacity() -> (capacity: Option<usize>) {
        Some(0xff)
    }
}

impl Length for LengthU16 {
    open spec fn spec_serialize_value(
        ser: Result<Seq<u8>, SerializeError>,
        size: Option<usize>,
    ) -> Result<Seq<u8>, SerializeError> {
        with_length_field(ser, size, 0xffff, be_u16(size.unwrap() as u16))
    }

    open spec fn spec_read_field(input: Seq<u8>) -> Option<nat> {
        if input.len() < 2 {
            None
        } else {
            Some(u16_from_be(input) as nat)
        }
    }

    open spec fn spec_width() -> nat {
        2
    }

    open spec fn spec_capacity() -> Option<usize> {
        Some(0xffff)
    }

    proof fn lemma_field_agrees(ser: Result<Seq<u8>, SerializeError>, size: Option<usize>) {
    }

    fn serialize<Value: Serialize + ?Sized>(value: &Value, buffer: &mut Vec<u8>) -> (result: Result<
        usize,
        SerializeError,
    >) {
        let size = match value.size() {
            Some(size) => size,
            None => return Err(SerializeError::SizeOverflow),
        };
        if size > 0xffff {
            return Err(SerializeError::LengthOverflow);
        }
        let ghost start = buffer@;
        put_u16(buffer, size as u16);
        serialize_after_field(value, size, 2, buffer, Ghost(start), Ghost(be_u16(size as u16)))
    }

    fn deserialize<Value: Deserialize>(buffer: &mut Reader) -> (result: Result<
        Value::Output,
        DeserializeError,
    >) {
        let ghost start = buffer@;
        let length = buffer.try_get_u16()?;
        deserialize_after_field::<Value>(buffer, length as usize, Ghost(start), Ghost(2))
    }

    open spec fn spec_field(length: usize) -> Seq<u8> {
        be_u16(length as u16)
    }

    open spec fn spec_max() -> nat {
        0xffff
    }

    fn serialize_with<Value, SerializeFn, SizeFn>(
        serialize: SerializeFn,
        size: SizeFn,
        value: Value,
        buffer: &mut Vec<u8>,
    ) -> (result: Result<usize, SerializeError>) where
        SerializeFn: Fn(&Value, &mut Vec<u8>) -> Result<usize, SerializeError>,
        SizeFn: Fn(&Value) -> Option<usize>,
     {
        let announced = size(&value);
        let n = match announced {
            Some(n) => n,
            None => return Err(SerializeError::SizeOverflow),
        };
        if n > 0xffff {
            return Err(SerializeError::LengthOverflow);
        }
        let ghost start = buffer@;
        put_u16(buffer, n as u16);
        assert(buffer@ =~= start + Self::spec_field(n));
        serialize_with_after_field(serialize, &value, n, 2, buffer)
    }

    fn deserialize_with<'a, Value, Function>(function: Function, buffer: &mut Reader<'a>) -> (result:
        Result<Value, DeserializeError>) where
        Function: Fn(&mut Reader<'a>) -> Result<Value, DeserializeError>,
     {
        let ghost start = buffer@;
        let length = buffer.try_get_u16()?;
        deserialize_with_after_field(function, buffer, length as usize, Ghost(start), Ghost(2))
    }

    proof fn lemma_field_reads_back(length: usize, bytes: Seq<u8>, rest: Seq<u8>) {
        lemma_u16_roundtrip(length as u16, bytes + rest);
        assert(be_u16(length as u16) + bytes + rest =~= be_u16(length as u16) + (bytes + rest));
    }

    fn size() -> (size: usize) {
        2
    }

    fn capacity() -> (capacity: Option<usize>) {
        Some(0xffff)
    }
}

impl Length for LengthU32 {
    open spec fn spec_serialize_value(
        ser: Result<Seq<u8>, SerializeError>,
        size: Option<usize>,
    ) -> Result<Seq<u8>, SerializeError> {
        with_length_field(ser, size, 0xffff_ffff, be_u32(size.unwrap() as u32))
    }

    open spec fn spec_read_field(input: Seq<u8>) -> Option<nat> {
        if input.len() < 4 {
            None
        } else {
            Some(u32_from_be(input) as nat)
        }
    }

    open spec fn spec_width() -> nat {
        4
    }

    open spec fn spec_capacity() -> Option<usize> {
        if usize::MAX >= 0xffff_ffff {
            Some(0xffff_ffff)
        } else {
            None
        }
    }

    proof fn lemma_field_agrees(ser: Result<Seq<u8>, SerializeError>, size: Option<usize>) {
    }

    fn serialize<Value: Serialize + ?Sized>(value: &Value, buffer: &mut Vec<u8>) -> (result: Result<
        usize,
        SerializeError,
    >) {
        let size = match value.size() {
            Some(size) => size,
            None => return Err(SerializeError::SizeOverflow),
        };
        if size as u64 > 0xffff_ffffu64 {
            return Err(SerializeError::LengthOverflow);
        }
        let ghost start = buffer@;
        put_u32(buffer, size as u32);
        serialize_after_field(value, size, 4, buffer, Ghost(start), Ghost(be_u32(size as u32)))
    }

    fn deserialize<Value: Deserialize>(buffer: &mut Reader) -> (result: Result<
        Value::Output,
        DeserializeError,
    >) {
        let ghost start = buffer@;
        let length = buffer.try_get_u32()?;
        deserialize_after_field::<Value>(buffer, length as usize, Ghost(start), Ghost(4))
    }

    open spec fn spec_field(length: usize) -> Seq<u8> {
        be_u32(length as u32)
    }

    open spec fn spec_max() -> nat {
        0xffff_ffff
    }

    fn serialize_with<Value, SerializeFn, SizeFn>(
        serialize: SerializeFn,
        size: SizeFn,
        value: Value,
        buffer: &mut Vec<u8>,
    ) -> (result: Result<usize, SerializeError>) where
        SerializeFn: Fn(&Value, &mut Vec<u8>) -> Result<usize, SerializeError>,
        SizeFn: Fn(&Value) -> Option<usize>,
     {
        let announced = size(&value);
        let n = match announced {
            Some(n) => n,
            None => return Err(SerializeError::SizeOverflow),
        };
        if n > 0xffff_ffff {
            return Err(SerializeError::LengthOverflow);
        }
        let ghost start = buffer@;
        put_u32(buffer, n as u32);
        assert(buffer@ =~= start + Self::spec_field(n));
        serialize_with_after_field(serialize, &value, n, 4, buffer)
    }

    fn deserialize_with<'a, Value, Function>(function: Function, buffer: &mut Reader<'a>) -> (result:
        Result<Value, DeserializeError>) where
        Function: Fn(&mut Reader<'a>) -> Result<Value, DeserializeError>,
     {
        let ghost start = buffer@;
        let length = buffer.try_get_u32()?;
        deserialize_with_after_field(function, buffer, length as usize, Ghost(start), Ghost(4))
    }

    proof fn lemma_field_reads_back(length: usize, bytes: Seq<u8>, rest: Seq<u8>) {
        lemma_u32_roundtrip(length as u32, bytes + rest);
        assert(be_u32(length as u32) + bytes + rest =~= be_u32(length as u32) + (bytes + rest));
    }

    fn size() -> (size: usize) {
        4
    }

    fn capacity() -> (capacity: Option<usize>) {
        if usize::MAX as u64 >= 0xffff_ffffu64 {
            Some(0xffff_ffffusize)
        } else {
            None
        }
    }
}

impl Length for LengthZero {
    open spec fn spec_serialize_value(
        ser: Result<Seq<u8>, SerializeError>,
        size: Option<usize>,
    ) -> Result<Seq<u8>, SerializeError> {
        ser
    }

    open spec fn spec_read_field(input: Seq<u8>) -> Option<nat> {
        Some(input.len())
    }

    open spec fn spec_width() -> nat {
        0
    }

    open spec fn spec_capacity() -> Option<usize> {
        Some(usize::MAX)
    }

    proof fn lemma_field_agrees(ser: Result<Seq<u8>, SerializeError>, size: Option<usize>) {
    }

    fn serialize<Value: Serialize + ?Sized>(value: &Value, buffer: &mut Vec<u8>) -> (result: Result<
        usize,
        SerializeError,
    >) {
        value.serialize(buffer)
    }

    fn deserialize<Value: Deserialize>(buffer: &mut Reader) -> (result: Result<
        Value::Output,
        DeserializeError,
    >) {
        assert(buffer@.skip(0).take(buffer@.len() as int) =~= buffer@);
        Value::deserialize(buffer)
    }

    open spec fn spec_field(length: usize) -> Seq<u8> {
        Seq::empty()
    }

    open spec fn spec_max() -> nat {
        usize::MAX as nat
    }

    fn serialize_with<Value, SerializeFn, SizeFn>(
        serialize: SerializeFn,
        size: SizeFn,
        value: Value,
        buffer: &mut Vec<u8>,
    ) -> (result: Result<usize, SerializeError>) where
        SerializeFn: Fn(&Value, &mut Vec<u8>) -> Result<usize, SerializeError>,
        SizeFn: Fn(&Value) -> Option<usize>,
     {
        serialize(&value, buffer)
    }

    fn deserialize_with<'a, Value, Function>(function: Function, buffer: &mut Reader<'a>) -> (result:
        Result<Value, DeserializeError>) where
        Function: Fn(&mut Reader<'a>) -> Result<Value, DeserializeError>,
     {
        function(buffer)
    }

    proof fn lemma_field_reads_back(length: usize, bytes: Seq<u8>, rest: Seq<u8>) {
        assert(Seq::<u8>::empty() + bytes =~= bytes);
        assert(Seq::<u8>::empty() + bytes + rest =~= bytes + rest);
    }

    fn size() -> (size: usize) {
        0
    }

    fn capacity() -> (capacity: Option<usize>) {
        Some(usize::MAX)
    }
}

/// Wrapper for serializing a value with a preceding length field.
///
/// See also [`Length::serialize`].
pub struct SerializeWithLength<'value, L, Value: ?Sized> {
    /// Value to serialize.
    value: &'value Value,
    /// Length to serialize before the value.
    _length: PhantomData<L>,
}

impl<'value, L: Length, Value: Serialize + ?Sized> SerializeWithLength<'value, L, Value> {
    /// The wrapped value.
    pub closed spec fn spec_value(&self) -> &'value Value {
        self.value
    }
}

impl<'value, L: Length, Value: Serialize + ?Sized> From<&'value Value> for SerializeWithLength<'value, L, Value> {
    fn from(value: &'value Value) -> (with_length: Self)
        ensures
            with_length.spec_value() == value,
    {
        Self { value, _length: PhantomData }
    }
}

impl<'value, L: Length, Value: Serialize + ?Sized> vstd::std_specs::convert::FromSpecImpl<&'value Value> for SerializeWithLength<'value, L, Value> {
    open spec fn obeys_from_spec() -> bool {
        true
    }

    closed spec fn from_spec(value: &'value Value) -> Self {
        SerializeWithLength { value, _length: PhantomData }
    }
}

impl<'value, L: Length, Value: Serialize + ?Sized> Serialize for SerializeWithLength<
    'value,
    L,
    Value,
> {
    open spec fn spec_serialize(&self) -> Result<Seq<u8>, SerializeError> {
        L::spec_serialize_value(self.spec_value().spec_serialize(), self.spec_value().spec_size())
    }

    open spec fn spec_size(&self) -> Option<usize> {
        add_sizes(self.spec_value().spec_size(), Some(L::spec_width() as usize))
    }

    proof fn lemma_size_agrees(&self) {
        self.spec_value().lemma_size_agrees();
        L::lemma_field_agrees(self.spec_value().spec_serialize(), self.spec_value().spec_size());
    }

    fn serialize(&self, buffer: &mut Vec<u8>) -> (result: Result<usize, SerializeError>) {
        L::serialize(self.value, buffer)
    }

    fn size(&self) -> (result: Option<usize>) {
        proof {
            self.value.lemma_size_agrees();
            L::lemma_field_agrees(self.value.spec_serialize(), self.value.spec_size());
        }
        match self.value.size() {
            None => None,
            Some(s) => s.checked_add(L::size()),
        }
    }
}

/// Wrapper for deserializing a value with a preceding length field.
///
/// See also [`Length::deserialize`].
pub struct DeserializeWithLength<L, Value> {
    /// Length to deserialize before the value.
    _length: PhantomData<L>,
    /// Value to deserialize.
    _value: PhantomData<Value>,
}

impl<L: Length, Value: Deserialize> Deserialize for DeserializeWithLength<L, Value> {
    type Output = Value::Output;

    open spec fn spec_deserialize(input: Seq<u8>) -> Result<
        (<Value::Output as DeepView>::V, nat),
        DeserializeError,
    > {
        match L::spec_read_field(input) {
            None => Err(DeserializeError::InsufficientData),
            Some(length) => after_length_field::<Value>(input, L::spec_width(), length),
        }
    }

    open spec fn spec_size_hint() -> Option<usize> {
        Some(L::spec_width() as usize)
    }

    fn deserialize(buffer: &mut Reader) -> (result: Result<Value::Output, DeserializeError>) {
        L::deserialize::<Value>(buffer)
    }

    fn size_hint() -> (result: Option<usize>) {
        Some(L::size())
    }
}

} // verus!
