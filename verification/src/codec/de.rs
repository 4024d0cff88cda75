//! Deserialization from a byte slice read in order.

use super::{Error, LengthField, Result};
use crate::bytes::string::{decode_utf16, string_from_utf16, string_from_utf8, unit_from};
use crate::bytes::wire::{u16_from_be, u32_from_be, u64_from_be};
use vstd::prelude::*;
use vstd::utf8::{decode_utf8, valid_utf8};

verus! {

/// Extracts data from a byte buffer in sequential order.
///
/// Arbitrary limits can be set with [`Deserializer::push_limit`], and removed with
/// [`Deserializer::pop_limit`], to further control the amount of bytes that can be read at any
/// given time. Each limit is a position in the buffer that reads can't go past.
pub struct Deserializer<'de> {
    buffer: &'de [u8],
    cursor: usize,
    limits: Vec<usize>,
}

/// The bytes that reading `n` bytes at `cursor` gives, or the error it fails with: reading past
/// the limit, if there is one, or past the end of the data.
pub open spec fn read_fixed(data: Seq<u8>, cursor: int, limit: Option<int>, n: nat) -> Result<
    Seq<u8>,
> {
    if limit matches Some(l) && cursor + n > l {
        Err(Error::ExceedsLimit)
    } else if cursor + n > data.len() {
        Err(Error::BufferOverflow)
    } else {
        Ok(data.subrange(cursor, cursor + n))
    }
}

/// The position that reads can't go past.
pub open spec fn read_bound(data: Seq<u8>, limit: Option<int>) -> int {
    match limit {
        Some(l) => l,
        None => data.len() as int,
    }
}

/// The error that reading past [`read_bound`] fails with.
pub open spec fn bound_error(limit: Option<int>) -> Error {
    match limit {
        Some(_) => Error::ExceedsLimit,
        None => Error::BufferOverflow,
    }
}

impl<'de> Deserializer<'de> {
    #[verifier::type_invariant]
    spec fn inv(self) -> bool {
        &&& self.cursor <= self.buffer@.len()
        &&& forall|i: int|
            0 <= i < self.limits@.len() ==> self.cursor <= #[trigger] self.limits@[i]
                <= self.buffer@.len()
        &&& forall|i: int, j: int|
            0 <= i < j < self.limits@.len() ==> #[trigger] self.limits@[j] <= #[trigger] self.limits@[i]
    }

    /// The bytes being read.
    pub closed spec fn spec_data(&self) -> Seq<u8> {
        self.buffer@
    }

    /// The position of the next byte to read.
    pub closed spec fn spec_cursor(&self) -> int {
        self.cursor as int
    }

    /// The limits that were set, the last one innermost.
    pub closed spec fn spec_limits(&self) -> Seq<usize> {
        self.limits@
    }

    /// The innermost limit, if any.
    pub open spec fn spec_limit(&self) -> Option<int> {
        if self.spec_limits().len() == 0 {
            None
        } else {
            Some(self.spec_limits().last() as int)
        }
    }

    /// The cursor never passes the innermost limit, nor the end of the data.
    fn reveal_bounds(&self)
        ensures
            0 <= self.spec_cursor() <= read_bound(self.spec_data(), self.spec_limit()) <= self.spec_data().len(),
    {
        proof {
            use_type_invariant(self);
            if self.limits@.len() > 0 {
                assert(self.limits@[self.limits@.len() - 1] == self.limits@.last());
            }
        }
    }

    /// Create a new [`Deserializer`] at the start of `buffer`, without limits.
    pub fn new(buffer: &'de [u8]) -> (de: Self)
        ensures
            de.spec_data() == buffer@,
            de.spec_cursor() == 0,
            de.spec_limits() == Seq::<usize>::empty(),
    {
        Self { buffer, cursor: 0, limits: Vec::new() }
    }

    /// Returns the position of the next byte to read.
    pub fn cursor(&self) -> (cursor: usize)
        ensures
            cursor == self.spec_cursor(),
    {
        self.cursor
    }

    /// Reads `N` bytes from the buffer, and advances the read position accordingly.
    ///
    /// Does bounds checking to prevent reading past any set limit, or the end of the buffer.
    ///
    /// # Errors
    ///
    /// Returns an error if reading would exceed the set limit or the buffer's length; the read
    /// position is then left as it is.
    pub fn read<const N: usize>(&mut self) -> (result: Result<[u8; N]>)
        ensures
            final(self).spec_data() == old(self).spec_data(),
            final(self).spec_limits() == old(self).spec_limits(),
            match read_fixed(
                old(self).spec_data(),
                old(self).spec_cursor(),
                old(self).spec_limit(),
                N as nat,
            ) {
                Ok(bytes) => result matches Ok(a) && a@ == bytes && final(self).spec_cursor()
                    == old(self).spec_cursor() + N,
                Err(e) => result == Err::<[u8; N], Error>(e) && final(self).spec_cursor()
                    == old(self).spec_cursor(),
            },
    {
        proof {
            use_type_invariant(&*self);
        }
        let count = self.limits.len();
        if count > 0 {
            let limit = self.limits[count - 1];
            if N > limit - self.cursor {
                return Err(Error::ExceedsLimit);
            }
        }
        if N > self.buffer.len() - self.cursor {
            return Err(Error::BufferOverflow);
        }
        let len = self.buffer.len();
        let mut bytes = [0u8; N];
        let mut i: usize = 0;
        while i < N
            invariant
                i <= N,
                len == self.buffer@.len(),
                self.cursor + N <= self.buffer@.len(),
                forall|j: int| 0 <= j < i ==> bytes@[j] == self.buffer@[self.cursor + j],
            decreases N - i,
        {
            bytes[i] = self.buffer[self.cursor + i];
            i = i + 1;
        }
        assert(bytes@ =~= self.buffer@.subrange(self.cursor as int, self.cursor + N));
        proof {
            if count > 0 {
                assert forall|k: int| 0 <= k < self.limits@.len() implies self.cursor + N
                    <= #[trigger] self.limits@[k] by {
                    if k < count - 1 {
                        assert(self.limits@[count - 1] <= self.limits@[k]);
                    }
                }
            }
        }
        self.cursor = self.cursor + N;
        Ok(bytes)
    }

    /// Adds a limit to the amount of bytes which can be read, starting from the current position.
    ///
    /// # Errors
    ///
    /// Returns an error if the new limit exceeds the previous one, or the length of the buffer.
    pub fn push_limit(&mut self, limit: usize) -> (result: Result<()>)
        ensures
            final(self).spec_data() == old(self).spec_data(),
            final(self).spec_cursor() == old(self).spec_cursor(),
            if old(self).spec_limit() matches Some(l) && old(self).spec_cursor() + limit > l {
                result == Err::<(), Error>(Error::ExceedsLimit) && final(self).spec_limits()
                    == old(self).spec_limits()
            } else if old(self).spec_cursor() + limit > old(self).spec_data().len() {
                result == Err::<(), Error>(Error::BufferOverflow) && final(self).spec_limits()
                    == old(self).spec_limits()
            } else {
                &&& result == Ok::<(), Error>(())
                &&& final(self).spec_limits() == old(self).spec_limits().push(
                    (old(self).spec_cursor() + limit) as usize,
                )
                &&& final(self).spec_limit() == Some(old(self).spec_cursor() + limit)
            },
    {
        proof {
            use_type_invariant(&*self);
        }
        let count = self.limits.len();
        if count > 0 {
            let current_limit = self.limits[count - 1];
            if limit > current_limit - self.cursor {
                return Err(Error::ExceedsLimit);
            }
        }
        if limit > self.buffer.len() - self.cursor {
            return Err(Error::BufferOverflow);
        }
        let new_limit = self.cursor + limit;
        proof {
            if count > 0 {
                assert forall|k: int| 0 <= k < count implies new_limit <= #[trigger] self.limits@[k] by {
                    if k < count - 1 {
                        assert(self.limits@[count - 1] <= self.limits@[k]);
                    }
                }
            }
        }
        let mut limits: Vec<usize> = Vec::new();
        core::mem::swap(&mut limits, &mut self.limits);
        limits.push(new_limit);
        self.limits = limits;
        Ok(())
    }

    /// Removes the limit added by the last call to [`Deserializer::push_limit`].
    ///
    /// # Errors
    ///
    /// Returns an error if there are no limits to remove.
    pub fn pop_limit(&mut self) -> (result: Result<()>)
        ensures
            final(self).spec_data() == old(self).spec_data(),
            final(self).spec_cursor() == old(self).spec_cursor(),
            if old(self).spec_limits().len() == 0 {
                result == Err::<(), Error>(Error::Failure) && final(self).spec_limits() == old(
                    self,
                ).spec_limits()
            } else {
                result == Ok::<(), Error>(()) && final(self).spec_limits() == old(
                    self,
                ).spec_limits().drop_last()
            },
    {
        proof {
            use_type_invariant(&*self);
        }
        let mut limits: Vec<usize> = Vec::new();
        core::mem::swap(&mut limits, &mut self.limits);
        let popped = limits.pop();
        self.limits = limits;
        match popped {
            Some(_) => Ok(()),
            None => Err(Error::Failure),
        }
    }
}

/// The value of a length field.
pub open spec fn length_value(bytes: Seq<u8>, len: LengthField) -> nat {
    match len {
        LengthField::U8 => bytes[0] as nat,
        LengthField::U16 => u16_from_be(bytes) as nat,
        LengthField::U32 => u32_from_be(bytes) as nat,
    }
}

/// Whether reading a length field at `cursor`, then a value from as many bytes as it holds, can
/// give `result` and leave the cursor at `after`, given whether reading the value at a cursor with
/// a limit can give a result and leave the cursor somewhere.
pub open spec fn length_reads<T>(
    data: Seq<u8>,
    cursor: int,
    limit: Option<int>,
    len: LengthField,
    reads: spec_fn(int, Option<int>, Result<T>, int) -> bool,
    result: Result<T>,
    after: int,
) -> bool {
    match read_fixed(data, cursor, limit, len.spec_width()) {
        Err(e) => result == Err::<T, Error>(e) && after == cursor,
        Ok(bytes) => {
            let start = cursor + len.spec_width();
            let end = start + length_value(bytes, len);
            if limit matches Some(l) && end > l {
                result == Err::<T, Error>(Error::ExceedsLimit) && after == start
            } else if end > data.len() {
                result == Err::<T, Error>(Error::BufferOverflow) && after == start
            } else {
                reads(start, Some(end), result, after)
            }
        },
    }
}

/// Deserialize data from a [`Deserializer`].
pub trait Deserialize: Sized {
    /// Whether deserializing from `data` at `cursor`, with the innermost limit `limit`, can give
    /// `result` and leave the cursor at `after`.
    spec fn spec_reads(
        data: Seq<u8>,
        cursor: int,
        limit: Option<int>,
        result: Result<Self>,
        after: int,
    ) -> bool;

    /// Deserializes an instance of the implementing type from a [`Deserializer`].
    ///
    /// # Errors
    ///
    /// Returns an error if the deserialization process fails, such as when encountering
    /// unexpected data or running out of data.
    fn deserialize(de: &mut Deserializer) -> (result: Result<Self>)
        ensures
            final(de).spec_data() == old(de).spec_data(),
            final(de).spec_limits() == old(de).spec_limits(),
            Self::spec_reads(
                old(de).spec_data(),
                old(de).spec_cursor(),
                old(de).spec_limit(),
                result,
                final(de).spec_cursor(),
            ),
    ;

    /// Deserializes an instance of the implementing type preceded by a length field.
    ///
    /// Reads the length field and uses it to limit the amount of data read.
    ///
    /// # Errors
    ///
    /// Returns an error if the deserialization process fails, such as when encountering
    /// unexpected data, running out of data, or exceeding the specified length.
    fn deserialize_len(de: &mut Deserializer, len: LengthField) -> (result: Result<Self>)
        ensures
            final(de).spec_data() == old(de).spec_data(),
            final(de).spec_limits() == old(de).spec_limits(),
        default_ensures
            final(de).spec_data() == old(de).spec_data(),
            final(de).spec_limits() == old(de).spec_limits(),
            length_reads::<Self>(
                old(de).spec_data(),
                old(de).spec_cursor(),
                old(de).spec_limit(),
                len,
                |c: int, l: Option<int>, r: Result<Self>, a: int|
                    Self::spec_reads(old(de).spec_data(), c, l, r, a),
                result,
                final(de).spec_cursor(),
            ),
    {
        let ghost data = de.spec_data();
        let ghost cursor = de.spec_cursor();
        let ghost limit = de.spec_limit();
        let ghost field = read_fixed(data, cursor, limit, len.spec_width());
        let length: usize = match len {
            LengthField::U8 => {
                let bytes: [u8; 1] = de.read()?;
                assert(bytes@ == field.unwrap());
                bytes[0] as usize
            },
            LengthField::U16 => {
                let bytes: [u8; 2] = de.read()?;
                assert(bytes@ == field.unwrap());
                (((bytes[0] as u16) << 8u16) | (bytes[1] as u16)) as usize
            },
            LengthField::U32 => {
                let bytes: [u8; 4] = de.read()?;
                assert(bytes@ == field.unwrap());
                (((bytes[0] as u32) << 24u32) | ((bytes[1] as u32) << 16u32) | ((bytes[2] as u32)
                    << 8u32) | (bytes[3] as u32)) as usize
            },
        };
        assert(length == length_value(field.unwrap(), len));
        assert(de.spec_cursor() == cursor + len.spec_width());
        de.push_limit(length)?;
        assert(de.spec_limit() == Some(cursor + len.spec_width() + length));
        let result = Self::deserialize(de);
        let popped = de.pop_limit();
        assert(popped is Ok);
        assert(Self::spec_reads(data, cursor + len.spec_width(), Some(cursor + len.spec_width() + length), result, de.spec_cursor()));
        result
    }
}

/// Whether reading a basic value of `n` bytes can give `result` and leave the cursor at `after`,
/// given the value that its bytes stand for.
pub open spec fn fixed_reads<T>(
    data: Seq<u8>,
    cursor: int,
    limit: Option<int>,
    n: nat,
    value: spec_fn(Seq<u8>) -> T,
    result: Result<T>,
    after: int,
) -> bool {
    match read_fixed(data, cursor, limit, n) {
        Ok(bytes) => result == Ok::<T, Error>(value(bytes)) && after == cursor + n,
        Err(e) => result == Err::<T, Error>(e) && after == cursor,
    }
}

impl Deserialize for u8 {
    open spec fn spec_reads(
        data: Seq<u8>,
        cursor: int,
        limit: Option<int>,
        result: Result<u8>,
        after: int,
    ) -> bool {
        fixed_reads(data, cursor, limit, 1, |b: Seq<u8>| b[0], result, after)
    }


    fn deserialize(de: &mut Deserializer) -> (result: Result<u8>) {
        let bytes: [u8; 1] = de.read()?;
        Ok(bytes[0])
    }
}

impl Deserialize for i8 {
    open spec fn spec_reads(
        data: Seq<u8>,
        cursor: int,
        limit: Option<int>,
        result: Result<i8>,
        after: int,
    ) -> bool {
        fixed_reads(data, cursor, limit, 1, |b: Seq<u8>| b[0] as i8, result, after)
    }


    fn deserialize(de: &mut Deserializer) -> (result: Result<i8>) {
        let bytes: [u8; 1] = de.read()?;
        Ok(bytes[0] as i8)
    }
}

impl Deserialize for u16 {
    open spec fn spec_reads(
        data: Seq<u8>,
        cursor: int,
        limit: Option<int>,
        result: Result<u16>,
        after: int,
    ) -> bool {
        fixed_reads(data, cursor, limit, 2, |b: Seq<u8>| u16_from_be(b), result, after)
    }


    fn deserialize(de: &mut Deserializer) -> (result: Result<u16>) {
        let b: [u8; 2] = de.read()?;
        Ok(((b[0] as u16) << 8u16) | (b[1] as u16))
    }
}

impl Deserialize for i16 {
    open spec fn spec_reads(
        data: Seq<u8>,
        cursor: int,
        limit: Option<int>,
        result: Result<i16>,
        after: int,
    ) -> bool {
        fixed_reads(data, cursor, limit, 2, |b: Seq<u8>| u16_from_be(b) as i16, result, after)
    }


    fn deserialize(de: &mut Deserializer) -> (result: Result<i16>) {
        let b: [u8; 2] = de.read()?;
        Ok((((b[0] as u16) << 8u16) | (b[1] as u16)) as i16)
    }
}

impl Deserialize for u32 {
    open spec fn spec_reads(
        data: Seq<u8>,
        cursor: int,
        limit: Option<int>,
        result: Result<u32>,
        after: int,
    ) -> bool {
        fixed_reads(data, cursor, limit, 4, |b: Seq<u8>| u32_from_be(b), result, after)
    }


    fn deserialize(de: &mut Deserializer) -> (result: Result<u32>) {
        let b: [u8; 4] = de.read()?;
        Ok(((b[0] as u32) << 24u32) | ((b[1] as u32) << 16u32) | ((b[2] as u32) << 8u32) | (
        b[3] as u32))
    }
}

impl Deserialize for i32 {
    open spec fn spec_reads(
        data: Seq<u8>,
        cursor: int,
        limit: Option<int>,
        result: Result<i32>,
        after: int,
    ) -> bool {
        fixed_reads(data, cursor, limit, 4, |b: Seq<u8>| u32_from_be(b) as i32, result, after)
    }


    fn deserialize(de: &mut Deserializer) -> (result: Result<i32>) {
        let b: [u8; 4] = de.read()?;
        Ok((((b[0] as u32) << 24u32) | ((b[1] as u32) << 16u32) | ((b[2] as u32) << 8u32) | (
        b[3] as u32)) as i32)
    }
}

/// The `u64` whose big-endian bytes are the eight bytes of an array.
fn u64_from_array(b: [u8; 8]) -> (v: u64)
    ensures
        v == u64_from_be(b@),
{
    let hi = ((b[0] as u32) << 24u32) | ((b[1] as u32) << 16u32) | ((b[2] as u32) << 8u32) | (
    b[3] as u32);
    let lo = ((b[4] as u32) << 24u32) | ((b[5] as u32) << 16u32) | ((b[6] as u32) << 8u32) | (
    b[7] as u32);
    assert(b@.skip(4)[0] == b[4] && b@.skip(4)[1] == b[5] && b@.skip(4)[2] == b[6] && b@.skip(
        4,
    )[3] == b[7]);
    ((hi as u64) << 32u64) | (lo as u64)
}

impl Deserialize for u64 {
    open spec fn spec_reads(
        data: Seq<u8>,
        cursor: int,
        limit: Option<int>,
        result: Result<u64>,
        after: int,
    ) -> bool {
        fixed_reads(data, cursor, limit, 8, |b: Seq<u8>| u64_from_be(b), result, after)
    }


    fn deserialize(de: &mut Deserializer) -> (result: Result<u64>) {
        let b: [u8; 8] = de.read()?;
        Ok(u64_from_array(b))
    }
}

impl Deserialize for i64 {
    open spec fn spec_reads(
        data: Seq<u8>,
        cursor: int,
        limit: Option<int>,
        result: Result<i64>,
        after: int,
    ) -> bool {
        fixed_reads(data, cursor, limit, 8, |b: Seq<u8>| u64_from_be(b) as i64, result, after)
    }


    fn deserialize(de: &mut Deserializer) -> (result: Result<i64>) {
        let b: [u8; 8] = de.read()?;
        Ok(u64_from_array(b) as i64)
    }
}

impl Deserialize for bool {
    open spec fn spec_reads(
        data: Seq<u8>,
        cursor: int,
        limit: Option<int>,
        result: Result<bool>,
        after: int,
    ) -> bool {
        fixed_reads(data, cursor, limit, 1, |b: Seq<u8>| b[0] & 1u8 == 1u8, result, after)
    }

    fn deserialize(de: &mut Deserializer) -> (result: Result<bool>) {
        let bytes: [u8; 1] = de.read()?;
        Ok((bytes[0] & 0x01) == 1u8)
    }

    /// Basic types refuse a length field.
    fn deserialize_len(_de: &mut Deserializer, _len: LengthField) -> (result: Result<bool>)
        ensures
            result matches Err(Error::Message(m)) && m@
                == "basic types should not include a length field"@,
            *final(_de) == *old(_de),
    {
        Err(Error::Message("basic types should not include a length field".to_owned()))
    }
}

/// Whether a read of `T` at `cursor` leaves the cursor at `after` and gives `item`: its value if
/// it succeeded, or a default value if it failed.
pub open spec fn item_or_default<T: Deserialize + Default>(
    data: Seq<u8>,
    limit: Option<int>,
    cursor: int,
    item: T,
    after: int,
) -> bool {
    exists|r: Result<T>|
        #[trigger] T::spec_reads(data, cursor, limit, r, after) && match r {
            Ok(v) => item == v,
            Err(_) => call_ensures(T::default, (), item),
        }
}

/// Whether the cursors and items are those of reads one after the other, errors replaced by
/// default values.
pub open spec fn items_or_defaults<T: Deserialize + Default>(
    data: Seq<u8>,
    limit: Option<int>,
    cursors: Seq<int>,
    items: Seq<T>,
) -> bool {
    &&& cursors.len() == items.len() + 1
    &&& forall|i: int|
        0 <= i < items.len() ==> item_or_default(data, limit, cursors[i], #[trigger] items[i], cursors[i + 1])
}

/// Whether reads one after the other from `cursor` to `after` give `items`, errors replaced by
/// default values.
pub open spec fn array_reads<T: Deserialize + Default>(
    data: Seq<u8>,
    cursor: int,
    limit: Option<int>,
    items: Seq<T>,
    after: int,
) -> bool {
    exists|cursors: Seq<int>|
        #[trigger] items_or_defaults(data, limit, cursors, items) && cursors[0] == cursor
            && cursors.last() == after
}

impl<T: Deserialize + Default + Copy, const N: usize> Deserialize for [T; N] {
    /// Each element is read in turn; an element that fails to read is the default value.
    open spec fn spec_reads(
        data: Seq<u8>,
        cursor: int,
        limit: Option<int>,
        result: Result<[T; N]>,
        after: int,
    ) -> bool {
        result matches Ok(array) && array_reads(data, cursor, limit, array@, after)
    }


    fn deserialize(de: &mut Deserializer) -> (result: Result<[T; N]>) {
        let ghost data = de.spec_data();
        let ghost limit = de.spec_limit();
        let mut array = [T::default(); N];
        let mut i: usize = 0;
        let ghost mut cursors: Seq<int> = seq![de.spec_cursor()];
        while i < N
            invariant
                i <= N,
                data == old(de).spec_data(),
                limit == old(de).spec_limit(),
                de.spec_data() == data,
                de.spec_limit() == limit,
                de.spec_limits() == old(de).spec_limits(),
                cursors.len() == i + 1,
                cursors[0] == old(de).spec_cursor(),
                cursors.last() == de.spec_cursor(),
                items_or_defaults(data, limit, cursors, array@.take(i as int)),
            decreases N - i,
        {
            let ghost before = de.spec_cursor();
            let ghost prefix = array@.take(i as int);
            let read = T::deserialize(de);
            let item = match read {
                Ok(v) => v,
                Err(_) => {
                    let default = T::default;
                    default()
                },
            };
            assert(item_or_default(data, limit, before, item, de.spec_cursor()));
            array[i] = item;
            proof {
                cursors = cursors.push(de.spec_cursor());
                assert(array@.take(i + 1) =~= prefix.push(item));
            }
            i = i + 1;
        }
        assert(array@.take(N as int) =~= array@);
        assert(items_or_defaults(data, limit, cursors, array@));
        assert(array_reads(data, old(de).spec_cursor(), limit, array@, de.spec_cursor()));
        Ok(array)
    }
}

/// Whether the cursors and items are those of successful reads one after the other, each going
/// further.
pub open spec fn successful_reads<T: Deserialize>(
    data: Seq<u8>,
    limit: Option<int>,
    cursors: Seq<int>,
    items: Seq<T>,
) -> bool {
    &&& cursors.len() == items.len() + 1
    &&& forall|i: int| 0 <= i < items.len() ==> #[trigger] read_step::<T>(data, limit, cursors, items, i)
}

/// Whether the read of item `i` goes from its cursor to the next one and gives the item.
pub open spec fn read_step<T: Deserialize>(
    data: Seq<u8>,
    limit: Option<int>,
    cursors: Seq<int>,
    items: Seq<T>,
    i: int,
) -> bool {
    T::spec_reads(data, cursors[i], limit, Ok(items[i]), cursors[i + 1]) && cursors[i] < cursors[i + 1]
}

/// One more successful read that goes further extends the reads.
proof fn lemma_successful_push<T: Deserialize>(
    data: Seq<u8>,
    limit: Option<int>,
    cursors: Seq<int>,
    items: Seq<T>,
    after: int,
    item: T,
)
    requires
        successful_reads(data, limit, cursors, items),
        T::spec_reads(data, cursors.last(), limit, Ok(item), after),
        cursors.last() < after,
    ensures
        successful_reads(data, limit, cursors.push(after), items.push(item)),
{
    let c2 = cursors.push(after);
    let i2 = items.push(item);
    assert forall|i: int| 0 <= i < i2.len() implies #[trigger] read_step::<T>(data, limit, c2, i2, i) by {
        if i < items.len() {
            assert(read_step::<T>(data, limit, cursors, items, i));
            assert(i2[i] == items[i]);
            assert(c2[i] == cursors[i] && c2[i + 1] == cursors[i + 1]);
        } else {
            assert(c2[i] == cursors.last());
        }
    }
}

impl<T: Deserialize> Deserialize for Vec<T> {
    /// Elements are read until one exceeds the limit; any other error is returned. An element
    /// that reads no data ends the vector.
    open spec fn spec_reads(
        data: Seq<u8>,
        cursor: int,
        limit: Option<int>,
        result: Result<Vec<T>>,
        after: int,
    ) -> bool {
        exists|cursors: Seq<int>, items: Seq<T>, last: Result<T>|
            {
                &&& #[trigger] successful_reads(data, limit, cursors, items)
                &&& cursors[0] == cursor
                &&& #[trigger] T::spec_reads(data, cursors.last(), limit, last, after)
                &&& match last {
                    Ok(_) => after <= cursors.last() && (result matches Ok(v) && v@ == items),
                    Err(Error::ExceedsLimit) => result matches Ok(v) && v@ == items,
                    Err(e) => result == Err::<Vec<T>, Error>(e),
                }
            }
    }


    fn deserialize(de: &mut Deserializer) -> (result: Result<Vec<T>>) {
        let ghost data = de.spec_data();
        let ghost limit = de.spec_limit();
        let mut vec: Vec<T> = Vec::new();
        let ghost mut cursors: Seq<int> = seq![de.spec_cursor()];
        loop
            invariant
                data == old(de).spec_data(),
                limit == old(de).spec_limit(),
                de.spec_data() == data,
                de.spec_limit() == limit,
                de.spec_limits() == old(de).spec_limits(),
                cursors[0] == old(de).spec_cursor(),
                cursors.last() == de.spec_cursor(),
                successful_reads(data, limit, cursors, vec@),
            decreases data.len() - de.spec_cursor(),
        {
            de.reveal_bounds();
            let before = de.cursor();
            let read = T::deserialize(de);
            de.reveal_bounds();
            match read {
                Ok(element) => {
                    if de.cursor() <= before {
                        return Ok(vec);
                    }
                    let ghost prefix = vec@;
                    vec.push(element);
                    proof {
                        lemma_successful_push::<T>(data, limit, cursors, prefix, de.spec_cursor(), element);
                        cursors = cursors.push(de.spec_cursor());
                    }
                },
                Err(Error::ExceedsLimit) => {
                    return Ok(vec);
                },
                Err(err) => {
                    return Err(err);
                },
            }
        }
    }
}

/// The bytes from `from` up to the first zero before `to`, where the read ends, and whether
/// a zero was found.
pub open spec fn utf8_scan(data: Seq<u8>, from: int, to: int) -> (Seq<u8>, int, bool)
    decreases to - from,
{
    if from >= to {
        (Seq::empty(), from, false)
    } else if data[from] == 0 {
        (Seq::empty(), from + 1, true)
    } else {
        let (rest, end, found) = utf8_scan(data, from + 1, to);
        (seq![data[from]] + rest, end, found)
    }
}

/// The code units from `from` up to the first zero unit before `to`, where the read ends, and
/// whether a zero unit was found.
pub open spec fn utf16_scan(data: Seq<u8>, from: int, to: int, big_endian: bool) -> (
    Seq<u16>,
    int,
    bool,
)
    decreases to - from,
{
    if from + 2 > to {
        (Seq::empty(), from, false)
    } else {
        let unit = unit_from(data.subrange(from, from + 2), big_endian);
        if unit == 0 {
            (Seq::empty(), from + 2, true)
        } else {
            let (rest, end, found) = utf16_scan(data, from + 2, to, big_endian);
            (seq![unit] + rest, end, found)
        }
    }
}

/// Whether reading a null-terminated UTF-8 string at `cursor` can give `result` and leave the
/// cursor at `after`.
pub open spec fn utf8_reads(
    data: Seq<u8>,
    cursor: int,
    limit: Option<int>,
    result: Result<String>,
    after: int,
) -> bool {
    let (raw, end, found) = utf8_scan(data, cursor, read_bound(data, limit));
    &&& after == end
    &&& if !found {
        result == Err::<String, Error>(bound_error(limit))
    } else if valid_utf8(raw) {
        result matches Ok(s) && s@ == decode_utf8(raw)
    } else {
        result == Err::<String, Error>(Error::Failure)
    }
}

/// Whether reading a null-terminated UTF-16 string at `cursor` can give `result` and leave the
/// cursor at `after`.
pub open spec fn utf16_reads(
    data: Seq<u8>,
    cursor: int,
    limit: Option<int>,
    big_endian: bool,
    result: Result<String>,
    after: int,
) -> bool {
    let (raw, end, found) = utf16_scan(data, cursor, read_bound(data, limit), big_endian);
    &&& after == end
    &&& if !found {
        result == Err::<String, Error>(bound_error(limit))
    } else {
        match decode_utf16(raw) {
            Some(text) => result matches Ok(s) && s@ == text,
            None => result == Err::<String, Error>(Error::Failure),
        }
    }
}

/// Deserializes a null-terminated UTF-8 string.
fn deserialize_utf8(de: &mut Deserializer) -> (result: Result<String>)
    ensures
        final(de).spec_data() == old(de).spec_data(),
        final(de).spec_limits() == old(de).spec_limits(),
        utf8_reads(
            old(de).spec_data(),
            old(de).spec_cursor(),
            old(de).spec_limit(),
            result,
            final(de).spec_cursor(),
        ),
{
    let ghost data = de.spec_data();
    let ghost limit = de.spec_limit();
    let ghost bound = read_bound(data, limit);
    let ghost start = de.spec_cursor();
    de.reveal_bounds();
    let mut raw_string: Vec<u8> = Vec::new();
    loop
        invariant_except_break
            ({
                let (raw, end, found) = utf8_scan(data, start, bound);
                let (rest, rest_end, rest_found) = utf8_scan(data, de.spec_cursor(), bound);
                &&& raw == raw_string@ + rest
                &&& end == rest_end
                &&& found == rest_found
            }),
        invariant
            data == old(de).spec_data(),
            limit == old(de).spec_limit(),
            de.spec_data() == data,
            de.spec_limit() == limit,
            de.spec_limits() == old(de).spec_limits(),
            start == old(de).spec_cursor(),
            bound == read_bound(data, limit),
            de.spec_cursor() <= bound <= data.len(),
        ensures
            ({
                let (raw, end, found) = utf8_scan(data, start, bound);
                &&& raw == raw_string@
                &&& end == de.spec_cursor()
                &&& found
            }),
        decreases bound - de.spec_cursor(),
    {
        let ghost at = de.spec_cursor();
        let bytes: [u8; 1] = match de.read() {
            Ok(b) => b,
            Err(e) => {
                assert(utf8_scan(data, at, bound) == (Seq::<u8>::empty(), at, false));
                assert(raw_string@ + Seq::<u8>::empty() =~= raw_string@);
                return Err(e);
            },
        };
        de.reveal_bounds();
        let value = bytes[0];
        if value == 0x00 {
            assert(raw_string@ + Seq::<u8>::empty() =~= raw_string@);
            break ;
        }
        let ghost prefix = raw_string@;
        raw_string.push(value);
        assert(prefix + (seq![value] + utf8_scan(data, at + 1, bound).0) =~= raw_string@
            + utf8_scan(data, at + 1, bound).0);
    }
    let ghost raw = raw_string@;
    match string_from_utf8(raw_string) {
        Some(s) => Ok(s),
        None => Err(Error::Failure),
    }
}

/// Deserializes a null-terminated UTF-16 string in the given byte order.
fn deserialize_utf16(de: &mut Deserializer, big_endian: bool) -> (result: Result<String>)
    ensures
        final(de).spec_data() == old(de).spec_data(),
        final(de).spec_limits() == old(de).spec_limits(),
        utf16_reads(
            old(de).spec_data(),
            old(de).spec_cursor(),
            old(de).spec_limit(),
            big_endian,
            result,
            final(de).spec_cursor(),
        ),
{
    let ghost data = de.spec_data();
    let ghost limit = de.spec_limit();
    let ghost bound = read_bound(data, limit);
    let ghost start = de.spec_cursor();
    de.reveal_bounds();
    let mut raw_string: Vec<u16> = Vec::new();
    loop
        invariant_except_break
            ({
                let (raw, end, found) = utf16_scan(data, start, bound, big_endian);
                let (rest, rest_end, rest_found) = utf16_scan(
                    data,
                    de.spec_cursor(),
                    bound,
                    big_endian,
                );
                &&& raw == raw_string@ + rest
                &&& end == rest_end
                &&& found == rest_found
            }),
        invariant
            data == old(de).spec_data(),
            limit == old(de).spec_limit(),
            de.spec_data() == data,
            de.spec_limit() == limit,
            de.spec_limits() == old(de).spec_limits(),
            start == old(de).spec_cursor(),
            bound == read_bound(data, limit),
            de.spec_cursor() <= bound <= data.len(),
        ensures
            ({
                let (raw, end, found) = utf16_scan(data, start, bound, big_endian);
                &&& raw == raw_string@
                &&& end == de.spec_cursor()
                &&& found
            }),
        decreases bound - de.spec_cursor(),
    {
        let ghost at = de.spec_cursor();
        let bytes: [u8; 2] = match de.read() {
            Ok(b) => b,
            Err(e) => {
                assert(utf16_scan(data, at, bound, big_endian) == (Seq::<u16>::empty(), at, false));
                assert(raw_string@ + Seq::<u16>::empty() =~= raw_string@);
                return Err(e);
            },
        };
        de.reveal_bounds();
        let value: u16 = if big_endian {
            ((bytes[0] as u16) << 8u16) | (bytes[1] as u16)
        } else {
            ((bytes[1] as u16) << 8u16) | (bytes[0] as u16)
        };
        assert(value == unit_from(data.subrange(at, at + 2), big_endian)) by {
            assert(bytes@ == data.subrange(at, at + 2));
            if !big_endian {
                assert(seq![bytes[1], bytes[0]][0] == bytes[1]);
            }
        }
        if value == 0x0000 {
            assert(raw_string@ + Seq::<u16>::empty() =~= raw_string@);
            break ;
        }
        let ghost prefix = raw_string@;
        raw_string.push(value);
        assert(prefix + (seq![value] + utf16_scan(data, at + 2, bound, big_endian).0)
            =~= raw_string@ + utf16_scan(data, at + 2, bound, big_endian).0);
    }
    match string_from_utf16(raw_string.as_slice()) {
        Some(s) => Ok(s),
        None => Err(Error::Failure),
    }
}

impl Deserialize for String {
    /// The Byte Order Mark decides the encoding: `0xefbb` followed by `0xbf` for UTF-8, `0xfeff`
    /// for UTF-16 big endian and `0xfffe` for UTF-16 little endian.
    open spec fn spec_reads(
        data: Seq<u8>,
        cursor: int,
        limit: Option<int>,
        result: Result<String>,
        after: int,
    ) -> bool {
        match read_fixed(data, cursor, limit, 2) {
            Err(e) => result == Err::<String, Error>(e) && after == cursor,
            Ok(b) => {
                let bom = u16_from_be(b);
                if bom == 0xefbb {
                    match read_fixed(data, cursor + 2, limit, 1) {
                        Err(e) => result == Err::<String, Error>(e) && after == cursor + 2,
                        Ok(b2) => if b2[0] != 0xbf {
                            result == Err::<String, Error>(Error::Failure) && after == cursor + 3
                        } else {
                            utf8_reads(data, cursor + 3, limit, result, after)
                        },
                    }
                } else if bom == 0xfeff {
                    utf16_reads(data, cursor + 2, limit, true, result, after)
                } else if bom == 0xfffe {
                    utf16_reads(data, cursor + 2, limit, false, result, after)
                } else {
                    result == Err::<String, Error>(Error::Failure) && after == cursor + 2
                }
            },
        }
    }


    fn deserialize(de: &mut Deserializer) -> (result: Result<String>) {
        let bom = u16::deserialize(de)?;
        if bom == 0xefbb {
            let b: [u8; 1] = de.read()?;
            if b[0] != 0xbf {
                return Err(Error::Failure);
            }
            deserialize_utf8(de)
        } else if bom == 0xfeff {
            deserialize_utf16(de, true)
        } else if bom == 0xfffe {
            deserialize_utf16(de, false)
        } else {
            Err(Error::Failure)
        }
    }
}

} // verus!
