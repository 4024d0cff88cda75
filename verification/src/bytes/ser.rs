//! Serialization according to the SOME/IP protocol.
//!
//! Provides the [`Serialize`] trait and its implementations for the basic types, tuples, arrays
//! and byte buffers.

use super::wire::{be_u16, be_u32, be_u64, put_slice, put_u16, put_u32, put_u64};
use vstd::array::array_index_get;
use vstd::prelude::*;

verus! {

/// Error when serializing data.
#[derive(Debug, Clone, PartialEq, Eq, Hash)]
#[non_exhaustive]
pub enum SerializeError {
    /// The target buffer doesn't have enough capacity for `self`.
    BufferOverflow,
    /// An invariant of the serialized type wasn't upheld.
    InvariantFailed(&'static str),
    /// Length exceeds the capacity of the length field.
    LengthOverflow,
    /// Size of the serialized data doesn't match value returned by [`Serialize::size`].
    SizeMismatch,
    /// Size exceeds the capacity of [`usize`].
    SizeOverflow,
}

impl SerializeError {
    /// Creates a new [`SerializeError::InvariantFailed`] with the given `message`.
    pub fn invariant_failed(message: &'static str) -> (e: Self)
        ensures
            e == SerializeError::InvariantFailed(message),
    {
        SerializeError::InvariantFailed(message)
    }
}

/// How a buffer before and after a serialization, and the result returned, relate to the bytes
/// (or the error) that the serialized value stands for.
///
/// On success the bytes were appended and their number returned; on failure the error is returned
/// and the buffer still starts with what it held before (some data may have been written).
pub open spec fn serialized(
    expected: Result<Seq<u8>, SerializeError>,
    before: Seq<u8>,
    after: Seq<u8>,
    result: Result<usize, SerializeError>,
) -> bool {
    match expected {
        Ok(bytes) => {
            &&& bytes.len() <= usize::MAX
            &&& result == Ok::<usize, SerializeError>(bytes.len() as usize)
            &&& after == before + bytes
        },
        Err(e) => {
            &&& result == Err::<usize, SerializeError>(e)
            &&& before.is_prefix_of(after)
        },
    }
}

/// The encoding of two values written one after the other, with the running size checked
/// against [`usize::MAX`].
pub open spec fn concat_serialized(
    a: Result<Seq<u8>, SerializeError>,
    b: Result<Seq<u8>, SerializeError>,
) -> Result<Seq<u8>, SerializeError> {
    match a {
        Err(e) => Err(e),
        Ok(x) => match b {
            Err(e) => Err(e),
            Ok(y) => if x.len() + y.len() <= usize::MAX {
                Ok(x + y)
            } else {
                Err(SerializeError::SizeOverflow)
            },
        },
    }
}

/// The sum of two sizes, or `None` if either is `None` or the sum exceeds [`usize::MAX`].
pub open spec fn add_sizes(a: Option<usize>, b: Option<usize>) -> Option<usize> {
    match (a, b) {
        (Some(x), Some(y)) => if x + y <= usize::MAX {
            Some((x + y) as usize)
        } else {
            None
        },
        _ => None,
    }
}

/// Whether a size agrees with an encoding: whenever the encoding succeeds, the size is its length.
pub open spec fn size_agrees(ser: Result<Seq<u8>, SerializeError>, size: Option<usize>) -> bool {
    ser matches Ok(b) ==> b.len() <= usize::MAX && size == Some(b.len() as usize)
}

/// Concatenation keeps sizes agreeing with encodings.
pub proof fn lemma_concat_agrees(
    a: Result<Seq<u8>, SerializeError>,
    sa: Option<usize>,
    b: Result<Seq<u8>, SerializeError>,
    sb: Option<usize>,
)
    requires
        size_agrees(a, sa),
        size_agrees(b, sb),
    ensures
        size_agrees(concat_serialized(a, b), add_sizes(sa, sb)),
{
}

/// Serialize according to the SOME/IP on-wire format.
pub trait Serialize {
    /// The bytes that `self` serializes into, or the error that serialization reports.
    spec fn spec_serialize(&self) -> Result<Seq<u8>, SerializeError>;

    /// The value that [`Serialize::size`] returns.
    spec fn spec_size(&self) -> Option<usize>;

    /// Whenever `self` serializes successfully, [`Serialize::size`] returns the length of the
    /// serialized data.
    proof fn lemma_size_agrees(&self)
        ensures
            size_agrees(self.spec_serialize(), self.spec_size()),
    ;

    /// Serializes `self` into the given `buffer`.
    ///
    /// Returns the length of the serialized data.
    ///
    /// # Errors
    ///
    /// Returns a [`SerializeError`] if the serialization fails. Some data may still be written to
    /// the buffer if an error occurs.
    fn serialize(&self, buffer: &mut Vec<u8>) -> (result: Result<usize, SerializeError>)
        ensures
            serialized(self.spec_serialize(), old(buffer)@, final(buffer)@, result),
    ;

    /// Returns the size of `self` when serialized.
    ///
    /// Returns [`None`] if the size is out of bounds.
    fn size(&self) -> (result: Option<usize>)
        ensures
            result == self.spec_size(),
    ;

    /// Returns `self` serialized into a new buffer.
    ///
    /// # Errors
    ///
    /// Returns [`SerializeError::SizeOverflow`] if [`Serialize::size`] returns [`None`], or the
    /// error of the serialization.
    fn to_bytes(&self) -> (result: Result<Vec<u8>, SerializeError>)
        ensures
            match self.spec_size() {
                None => result == Err::<Vec<u8>, SerializeError>(SerializeError::SizeOverflow),
                Some(_) => match self.spec_serialize() {
                    Ok(b) => result matches Ok(v) && v@ == b,
                    Err(e) => result == Err::<Vec<u8>, SerializeError>(e),
                },
            },
    {
        match self.size() {
            None => Err(SerializeError::SizeOverflow),
            Some(size) => {
                let mut buffer: Vec<u8> = Vec::with_capacity(size);
                match self.serialize(&mut buffer) {
                    Ok(_) => {
                        assert(buffer@ =~= self.spec_serialize().unwrap());
                        Ok(buffer)
                    },
                    Err(e) => Err(e),
                }
            },
        }
    }
}

/// Writes one more value after an accumulated encoding, adding its size to the running total.
pub(crate) fn serialize_next<T: Serialize + ?Sized>(
    item: &T,
    buffer: &mut Vec<u8>,
    total: usize,
    Ghost(start): Ghost<Seq<u8>>,
    Ghost(acc): Ghost<Result<Seq<u8>, SerializeError>>,
) -> (result: Result<usize, SerializeError>)
    requires
        acc matches Ok(b) && old(buffer)@ == start + b && total == b.len(),
    ensures
        serialized(concat_serialized(acc, item.spec_serialize()), start, final(buffer)@, result),
{
    let ghost before = buffer@;
    match item.serialize(buffer) {
        Ok(n) => match total.checked_add(n) {
            Some(t) => {
                assert(buffer@ =~= start + (acc.unwrap() + item.spec_serialize().unwrap()));
                Ok(t)
            },
            None => {
                assert(buffer@ =~= start + (acc.unwrap() + item.spec_serialize().unwrap()));
                Err(SerializeError::SizeOverflow)
            },
        },
        Err(e) => {
            assert(start.is_prefix_of(buffer@)) by {
                assert(before.is_prefix_of(buffer@));
                assert forall|i: int| 0 <= i < start.len() implies start[i] == buffer@[i] by {
                    assert(before[i] == buffer@[i]);
                }
            }
            Err(e)
        },
    }
}

impl Serialize for u8 {
    open spec fn spec_serialize(&self) -> Result<Seq<u8>, SerializeError> {
        Ok(seq![*self])
    }

    open spec fn spec_size(&self) -> Option<usize> {
        Some(1)
    }

    proof fn lemma_size_agrees(&self) {
    }

    fn serialize(&self, buffer: &mut Vec<u8>) -> (result: Result<usize, SerializeError>) {
        buffer.push(*self);
        assert(buffer@ =~= old(buffer)@ + seq![*self]);
        Ok(1)
    }

    fn size(&self) -> (result: Option<usize>) {
        Some(1)
    }
}

impl Serialize for i8 {
    open spec fn spec_serialize(&self) -> Result<Seq<u8>, SerializeError> {
        Ok(seq![*self as u8])
    }

    open spec fn spec_size(&self) -> Option<usize> {
        Some(1)
    }

    proof fn lemma_size_agrees(&self) {
    }

    fn serialize(&self, buffer: &mut Vec<u8>) -> (result: Result<usize, SerializeError>) {
        buffer.push(*self as u8);
        assert(buffer@ =~= old(buffer)@ + seq![*self as u8]);
        Ok(1)
    }

    fn size(&self) -> (result: Option<usize>) {
        Some(1)
    }
}

impl Serialize for u16 {
    open spec fn spec_serialize(&self) -> Result<Seq<u8>, SerializeError> {
        Ok(be_u16(*self))
    }

    open spec fn spec_size(&self) -> Option<usize> {
        Some(2)
    }

    proof fn lemma_size_agrees(&self) {
    }

    fn serialize(&self, buffer: &mut Vec<u8>) -> (result: Result<usize, SerializeError>) {
        put_u16(buffer, *self);
        Ok(2)
    }

    fn size(&self) -> (result: Option<usize>) {
        Some(2)
    }
}

impl Serialize for i16 {
    open spec fn spec_serialize(&self) -> Result<Seq<u8>, SerializeError> {
        Ok(be_u16(*self as u16))
    }

    open spec fn spec_size(&self) -> Option<usize> {
        Some(2)
    }

    proof fn lemma_size_agrees(&self) {
    }

    fn serialize(&self, buffer: &mut Vec<u8>) -> (result: Result<usize, SerializeError>) {
        put_u16(buffer, *self as u16);
        Ok(2)
    }

    fn size(&self) -> (result: Option<usize>) {
        Some(2)
    }
}

impl Serialize for u32 {
    open spec fn spec_serialize(&self) -> Result<Seq<u8>, SerializeError> {
        Ok(be_u32(*self))
    }

    open spec fn spec_size(&self) -> Option<usize> {
        Some(4)
    }

    proof fn lemma_size_agrees(&self) {
    }

    fn serialize(&self, buffer: &mut Vec<u8>) -> (result: Result<usize, SerializeError>) {
        put_u32(buffer, *self);
        Ok(4)
    }

    fn size(&self) -> (result: Option<usize>) {
        Some(4)
    }
}

impl Serialize for i32 {
    open spec fn spec_serialize(&self) -> Result<Seq<u8>, SerializeError> {
        Ok(be_u32(*self as u32))
    }

    open spec fn spec_size(&self) -> Option<usize> {
        Some(4)
    }

    proof fn lemma_size_agrees(&self) {
    }

    fn serialize(&self, buffer: &mut Vec<u8>) -> (result: Result<usize, SerializeError>) {
        put_u32(buffer, *self as u32);
        Ok(4)
    }

    fn size(&self) -> (result: Option<usize>) {
        Some(4)
    }
}

impl Serialize for u64 {
    open spec fn spec_serialize(&self) -> Result<Seq<u8>, SerializeError> {
        Ok(be_u64(*self))
    }

    open spec fn spec_size(&self) -> Option<usize> {
        Some(8)
    }

    proof fn lemma_size_agrees(&self) {
    }

    fn serialize(&self, buffer: &mut Vec<u8>) -> (result: Result<usize, SerializeError>) {
        put_u64(buffer, *self);
        Ok(8)
    }

    fn size(&self) -> (result: Option<usize>) {
        Some(8)
    }
}

impl Serialize for i64 {
    open spec fn spec_serialize(&self) -> Result<Seq<u8>, SerializeError> {
        Ok(be_u64(*self as u64))
    }

    open spec fn spec_size(&self) -> Option<usize> {
        Some(8)
    }

    proof fn lemma_size_agrees(&self) {
    }

    fn serialize(&self, buffer: &mut Vec<u8>) -> (result: Result<usize, SerializeError>) {
        put_u64(buffer, *self as u64);
        Ok(8)
    }

    fn size(&self) -> (result: Option<usize>) {
        Some(8)
    }
}

impl Serialize for bool {
    open spec fn spec_serialize(&self) -> Result<Seq<u8>, SerializeError> {
        Ok(seq![if *self { 1u8 } else { 0u8 }])
    }

    open spec fn spec_size(&self) -> Option<usize> {
        Some(1)
    }

    proof fn lemma_size_agrees(&self) {
    }

    fn serialize(&self, buffer: &mut Vec<u8>) -> (result: Result<usize, SerializeError>) {
        if *self {
            buffer.push(1u8);
        } else {
            buffer.push(0u8);
        }
        assert(buffer@ =~= old(buffer)@ + self.spec_serialize().unwrap());
        Ok(1)
    }

    fn size(&self) -> (result: Option<usize>) {
        Some(1)
    }
}

/// A byte buffer serializes into its own contents.
impl Serialize for Vec<u8> {
    open spec fn spec_serialize(&self) -> Result<Seq<u8>, SerializeError> {
        Ok(self@)
    }

    open spec fn spec_size(&self) -> Option<usize> {
        Some(self@.len() as usize)
    }

    proof fn lemma_size_agrees(&self) {
        assert(self.len() == self@.len());
    }

    fn serialize(&self, buffer: &mut Vec<u8>) -> (result: Result<usize, SerializeError>) {
        put_slice(buffer, self.as_slice());
        Ok(self.len())
    }

    fn size(&self) -> (result: Option<usize>) {
        Some(self.len())
    }
}

impl<'a, T: Serialize + ?Sized> Serialize for &'a T {
    open spec fn spec_serialize(&self) -> Result<Seq<u8>, SerializeError> {
        (**self).spec_serialize()
    }

    open spec fn spec_size(&self) -> Option<usize> {
        (**self).spec_size()
    }

    proof fn lemma_size_agrees(&self) {
        (**self).lemma_size_agrees();
    }

    fn serialize(&self, buffer: &mut Vec<u8>) -> (result: Result<usize, SerializeError>) {
        (**self).serialize(buffer)
    }

    fn size(&self) -> (result: Option<usize>) {
        (**self).size()
    }
}

impl<T: Serialize> Serialize for Box<T> {
    open spec fn spec_serialize(&self) -> Result<Seq<u8>, SerializeError> {
        (**self).spec_serialize()
    }

    open spec fn spec_size(&self) -> Option<usize> {
        (**self).spec_size()
    }

    proof fn lemma_size_agrees(&self) {
        (**self).lemma_size_agrees();
    }

    fn serialize(&self, buffer: &mut Vec<u8>) -> (result: Result<usize, SerializeError>) {
        (**self).serialize(buffer)
    }

    fn size(&self) -> (result: Option<usize>) {
        (**self).size()
    }
}

/// The encoding of a sequence of values written one after the other.
pub open spec fn serialize_all<T: Serialize>(items: Seq<T>) -> Result<Seq<u8>, SerializeError>
    decreases items.len(),
{
    if items.len() == 0 {
        Ok(Seq::empty())
    } else {
        concat_serialized(serialize_all(items.drop_last()), items.last().spec_serialize())
    }
}

/// The sum of the sizes of a sequence of values.
pub open spec fn size_all<T: Serialize>(items: Seq<T>) -> Option<usize>
    decreases items.len(),
{
    if items.len() == 0 {
        Some(0)
    } else {
        add_sizes(size_all(items.drop_last()), items.last().spec_size())
    }
}

/// The sizes of a sequence of values agree with their encodings.
pub proof fn lemma_all_agree<T: Serialize>(items: Seq<T>)
    ensures
        size_agrees(serialize_all(items), size_all(items)),
    decreases items.len(),
{
    if items.len() > 0 {
        lemma_all_agree(items.drop_last());
        items.last().lemma_size_agrees();
        lemma_concat_agrees(
            serialize_all(items.drop_last()),
            size_all(items.drop_last()),
            items.last().spec_serialize(),
            items.last().spec_size(),
        );
    }
}

/// Statically sized arrays serialize each element in order, without a length field.
impl<T: Serialize, const N: usize> Serialize for [T; N] {
    open spec fn spec_serialize(&self) -> Result<Seq<u8>, SerializeError> {
        serialize_all(self@)
    }

    open spec fn spec_size(&self) -> Option<usize> {
        size_all(self@)
    }

    proof fn lemma_size_agrees(&self) {
        lemma_all_agree(self@);
    }

    fn serialize(&self, buffer: &mut Vec<u8>) -> (result: Result<usize, SerializeError>) {
        let ghost start = buffer@;
        let mut total: usize = 0;
        let mut i: usize = 0;
        assert(self@.take(0) =~= Seq::<T>::empty());
        while i < N
            invariant
                i <= N,
                self@.len() == N,
                start == old(buffer)@,
                serialize_all(self@.take(i as int)) matches Ok(b) && buffer@ == start + b
                    && total == b.len(),
            decreases N - i,
        {
            let ghost acc = serialize_all(self@.take(i as int));
            let item = array_index_get(self, i);
            assert(self@.take(i + 1).drop_last() =~= self@.take(i as int));
            assert(self@.take(i + 1).last() == *item);
            assert(serialize_all(self@.take(i + 1)) == concat_serialized(acc, item.spec_serialize()));
            total = match serialize_next(item, buffer, total, Ghost(start), Ghost(acc)) {
                Ok(t) => t,
                Err(e) => {
                    proof {
                        lemma_serialize_all_err(self@, i + 1);
                    }
                    return Err(e);
                },
            };
            i = i + 1;
        }
        assert(self@.take(N as int) =~= self@);
        Ok(total)
    }

    fn size(&self) -> (result: Option<usize>) {
        let mut total: usize = 0;
        let mut i: usize = 0;
        assert(self@.take(0) =~= Seq::<T>::empty());
        while i < N
            invariant
                i <= N,
                self@.len() == N,
                size_all(self@.take(i as int)) == Some(total),
            decreases N - i,
        {
            let item = array_index_get(self, i);
            assert(self@.take(i + 1).drop_last() =~= self@.take(i as int));
            let s = match item.size() {
                Some(s) => s,
                None => {
                    proof {
                        lemma_size_all_none(self@, i + 1);
                    }
                    return None;
                },
            };
            total = match total.checked_add(s) {
                Some(t) => t,
                None => {
                    proof {
                        lemma_size_all_none(self@, i + 1);
                    }
                    return None;
                },
            };
            i = i + 1;
        }
        assert(self@.take(N as int) =~= self@);
        Some(total)
    }
}

/// Once a prefix fails to serialize, the whole sequence fails with the same error.
pub(crate) proof fn lemma_serialize_all_err<T: Serialize>(items: Seq<T>, k: int)
    requires
        0 <= k <= items.len(),
        serialize_all(items.take(k)) is Err,
    ensures
        serialize_all(items) == serialize_all(items.take(k)),
    decreases items.len() - k,
{
    if k < items.len() {
        assert(items.take(k + 1).drop_last() =~= items.take(k));
        lemma_serialize_all_err(items, k + 1);
    } else {
        assert(items.take(k) =~= items);
    }
}

/// Once a prefix has no size, neither has the whole sequence.
pub(crate) proof fn lemma_size_all_none<T: Serialize>(items: Seq<T>, k: int)
    requires
        0 <= k <= items.len(),
        size_all(items.take(k)) is None,
    ensures
        size_all(items) is None,
    decreases items.len() - k,
{
    if k < items.len() {
        assert(items.take(k + 1).drop_last() =~= items.take(k));
        lemma_size_all_none(items, k + 1);
    } else {
        assert(items.take(k) =~= items);
    }
}

impl<A: Serialize> Serialize for (A,) {
    open spec fn spec_serialize(&self) -> Result<Seq<u8>, SerializeError> {
        concat_serialized(Ok::<Seq<u8>, SerializeError>(Seq::empty()), self.0.spec_serialize())
    }

    open spec fn spec_size(&self) -> Option<usize> {
        add_sizes(Some(0usize), self.0.spec_size())
    }

    proof fn lemma_size_agrees(&self) {
        self.0.lemma_size_agrees();
        lemma_concat_agrees(Ok::<Seq<u8>, SerializeError>(Seq::empty()), Some(0usize), self.0.spec_serialize(), self.0.spec_size());
    }

    fn serialize(&self, buffer: &mut Vec<u8>) -> (result: Result<usize, SerializeError>) {
        let ghost start = buffer@;
        let t0 = serialize_next(&self.0, buffer, 0usize, Ghost(start), Ghost(Ok::<Seq<u8>, SerializeError>(Seq::empty())))?;
        Ok(t0)
    }

    fn size(&self) -> (result: Option<usize>) {
        let s0 = match self.0.size() { Some(s) => s, None => return None };
        let s0 = match 0usize.checked_add(s0) { Some(s) => s, None => return None };
        Some(s0)
    }
}

impl<A: Serialize, B: Serialize> Serialize for (A, B) {
    open spec fn spec_serialize(&self) -> Result<Seq<u8>, SerializeError> {
        concat_serialized(concat_serialized(Ok::<Seq<u8>, SerializeError>(Seq::empty()), self.0.spec_serialize()), self.1.spec_serialize())
    }

    open spec fn spec_size(&self) -> Option<usize> {
        add_sizes(add_sizes(Some(0usize), self.0.spec_size()), self.1.spec_size())
    }

    proof fn lemma_size_agrees(&self) {
        self.0.lemma_size_agrees();
        lemma_concat_agrees(Ok::<Seq<u8>, SerializeError>(Seq::empty()), Some(0usize), self.0.spec_serialize(), self.0.spec_size());
        self.1.lemma_size_agrees();
        lemma_concat_agrees(concat_serialized(Ok::<Seq<u8>, SerializeError>(Seq::empty()), self.0.spec_serialize()), add_sizes(Some(0usize), self.0.spec_size()), self.1.spec_serialize(), self.1.spec_size());
    }

    fn serialize(&self, buffer: &mut Vec<u8>) -> (result: Result<usize, SerializeError>) {
        let ghost start = buffer@;
        let t0 = serialize_next(&self.0, buffer, 0usize, Ghost(start), Ghost(Ok::<Seq<u8>, SerializeError>(Seq::empty())))?;
        let t1 = serialize_next(&self.1, buffer, t0, Ghost(start), Ghost(concat_serialized(Ok::<Seq<u8>, SerializeError>(Seq::empty()), self.0.spec_serialize())))?;
        Ok(t1)
    }

    fn size(&self) -> (result: Option<usize>) {
        let s0 = match self.0.size() { Some(s) => s, None => return None };
        let s0 = match 0usize.checked_add(s0) { Some(s) => s, None => return None };
        let s1 = match self.1.size() { Some(s) => s, None => return None };
        let s1 = match s0.checked_add(s1) { Some(s) => s, None => return None };
        Some(s1)
    }
}

impl<A: Serialize, B: Serialize, C: Serialize> Serialize for (A, B, C) {
    open spec fn spec_serialize(&self) -> Result<Seq<u8>, SerializeError> {
        concat_serialized(concat_serialized(concat_serialized(Ok::<Seq<u8>, SerializeError>(Seq::empty()), self.0.spec_serialize()), self.1.spec_serialize()), self.2.spec_serialize())
    }

    open spec fn spec_size(&self) -> Option<usize> {
        add_sizes(add_sizes(add_sizes(Some(0usize), self.0.spec_size()), self.1.spec_size()), self.2.spec_size())
    }

    proof fn lemma_size_agrees(&self) {
        self.0.lemma_size_agrees();
        lemma_concat_agrees(Ok::<Seq<u8>, SerializeError>(Seq::empty()), Some(0usize), self.0.spec_serialize(), self.0.spec_size());
        self.1.lemma_size_agrees();
        lemma_concat_agrees(concat_serialized(Ok::<Seq<u8>, SerializeError>(Seq::empty()), self.0.spec_serialize()), add_sizes(Some(0usize), self.0.spec_size()), self.1.spec_serialize(), self.1.spec_size());
        self.2.lemma_size_agrees();
        lemma_concat_agrees(concat_serialized(concat_serialized(Ok::<Seq<u8>, SerializeError>(Seq::empty()), self.0.spec_serialize()), self.1.spec_serialize()), add_sizes(add_sizes(Some(0usize), self.0.spec_size()), self.1.spec_size()), self.2.spec_serialize(), self.2.spec_size());
    }

    fn serialize(&self, buffer: &mut Vec<u8>) -> (result: Result<usize, SerializeError>) {
        let ghost start = buffer@;
        let t0 = serialize_next(&self.0, buffer, 0usize, Ghost(start), Ghost(Ok::<Seq<u8>, SerializeError>(Seq::empty())))?;
        let t1 = serialize_next(&self.1, buffer, t0, Ghost(start), Ghost(concat_serialized(Ok::<Seq<u8>, SerializeError>(Seq::empty()), self.0.spec_serialize())))?;
        let t2 = serialize_next(&self.2, buffer, t1, Ghost(start), Ghost(concat_serialized(concat_serialized(Ok::<Seq<u8>, SerializeError>(Seq::empty()), self.0.spec_serialize()), self.1.spec_serialize())))?;
        Ok(t2)
    }

    fn size(&self) -> (result: Option<usize>) {
        let s0 = match self.0.size() { Some(s) => s, None => return None };
        let s0 = match 0usize.checked_add(s0) { Some(s) => s, None => return None };
        let s1 = match self.1.size() { Some(s) => s, None => return None };
        let s1 = match s0.checked_add(s1) { Some(s) => s, None => return None };
        let s2 = match self.2.size() { Some(s) => s, None => return None };
        let s2 = match s1.checked_add(s2) { Some(s) => s, None => return None };
        Some(s2)
    }
}

impl<A: Serialize, B: Serialize, C: Serialize, D: Serialize> Serialize for (A, B, C, D) {
    open spec fn spec_serialize(&self) -> Result<Seq<u8>, SerializeError> {
        concat_serialized(concat_serialized(concat_serialized(concat_serialized(Ok::<Seq<u8>, SerializeError>(Seq::empty()), self.0.spec_serialize()), self.1.spec_serialize()), self.2.spec_serialize()), self.3.spec_serialize())
    }

    open spec fn spec_size(&self) -> Option<usize> {
        add_sizes(add_sizes(add_sizes(add_sizes(Some(0usize), self.0.spec_size()), self.1.spec_size()), self.2.spec_size()), self.3.spec_size())
    }

    proof fn lemma_size_agrees(&self) {
        self.0.lemma_size_agrees();
        lemma_concat_agrees(Ok::<Seq<u8>, SerializeError>(Seq::empty()), Some(0usize), self.0.spec_serialize(), self.0.spec_size());
        self.1.lemma_size_agrees();
        lemma_concat_agrees(concat_serialized(Ok::<Seq<u8>, SerializeError>(Seq::empty()), self.0.spec_serialize()), add_sizes(Some(0usize), self.0.spec_size()), self.1.spec_serialize(), self.1.spec_size());
        self.2.lemma_size_agrees();
        lemma_concat_agrees(concat_serialized(concat_serialized(Ok::<Seq<u8>, SerializeError>(Seq::empty()), self.0.spec_serialize()), self.1.spec_serialize()), add_sizes(add_sizes(Some(0usize), self.0.spec_size()), self.1.spec_size()), self.2.spec_serialize(), self.2.spec_size());
        self.3.lemma_size_agrees();
        lemma_concat_agrees(concat_serialized(concat_serialized(concat_serialized(Ok::<Seq<u8>, SerializeError>(Seq::empty()), self.0.spec_serialize()), self.1.spec_serialize()), self.2.spec_serialize()), add_sizes(add_sizes(add_sizes(Some(0usize), self.0.spec_size()), self.1.spec_size()), self.2.spec_size()), self.3.spec_serialize(), self.3.spec_size());
    }

    fn serialize(&self, buffer: &mut Vec<u8>) -> (result: Result<usize, SerializeError>) {
        let ghost start = buffer@;
        let t0 = serialize_next(&self.0, buffer, 0usize, Ghost(start), Ghost(Ok::<Seq<u8>, SerializeError>(Seq::empty())))?;
        let t1 = serialize_next(&self.1, buffer, t0, Ghost(start), Ghost(concat_serialized(Ok::<Seq<u8>, SerializeError>(Seq::empty()), self.0.spec_serialize())))?;
        let t2 = serialize_next(&self.2, buffer, t1, Ghost(start), Ghost(concat_serialized(concat_serialized(Ok::<Seq<u8>, SerializeError>(Seq::empty()), self.0.spec_serialize()), self.1.spec_serialize())))?;
        let t3 = serialize_next(&self.3, buffer, t2, Ghost(start), Ghost(concat_serialized(concat_serialized(concat_serialized(Ok::<Seq<u8>, SerializeError>(Seq::empty()), self.0.spec_serialize()), self.1.spec_serialize()), self.2.spec_serialize())))?;
        Ok(t3)
    }

    fn size(&self) -> (result: Option<usize>) {
        let s0 = match self.0.size() { Some(s) => s, None => return None };
        let s0 = match 0usize.checked_add(s0) { Some(s) => s, None => return None };
        let s1 = match self.1.size() { Some(s) => s, None => return None };
        let s1 = match s0.checked_add(s1) { Some(s) => s, None => return None };
        let s2 = match self.2.size() { Some(s) => s, None => return None };
        let s2 = match s1.checked_add(s2) { Some(s) => s, None => return None };
        let s3 = match self.3.size() { Some(s) => s, None => return None };
        let s3 = match s2.checked_add(s3) { Some(s) => s, None => return None };
        Some(s3)
    }
}

impl<A: Serialize, B: Serialize, C: Serialize, D: Serialize, E: Serialize> Serialize for (A, B, C, D, E) {
    open spec fn spec_serialize(&self) -> Result<Seq<u8>, SerializeError> {
        concat_serialized(concat_serialized(concat_serialized(concat_serialized(concat_serialized(Ok::<Seq<u8>, SerializeError>(Seq::empty()), self.0.spec_serialize()), self.1.spec_serialize()), self.2.spec_serialize()), self.3.spec_serialize()), self.4.spec_serialize())
    }

    open spec fn spec_size(&self) -> Option<usize> {
        add_sizes(add_sizes(add_sizes(add_sizes(add_sizes(Some(0usize), self.0.spec_size()), self.1.spec_size()), self.2.spec_size()), self.3.spec_size()), self.4.spec_size())
    }

    proof fn lemma_size_agrees(&self) {
        self.0.lemma_size_agrees();
        lemma_concat_agrees(Ok::<Seq<u8>, SerializeError>(Seq::empty()), Some(0usize), self.0.spec_serialize(), self.0.spec_size());
        self.1.lemma_size_agrees();
        lemma_concat_agrees(concat_serialized(Ok::<Seq<u8>, SerializeError>(Seq::empty()), self.0.spec_serialize()), add_sizes(Some(0usize), self.0.spec_size()), self.1.spec_serialize(), self.1.spec_size());
        self.2.lemma_size_agrees();
        lemma_concat_agrees(concat_serialized(concat_serialized(Ok::<Seq<u8>, SerializeError>(Seq::empty()), self.0.spec_serialize()), self.1.spec_serialize()), add_sizes(add_sizes(Some(0usize), self.0.spec_size()), self.1.spec_size()), self.2.spec_serialize(), self.2.spec_size());
        self.3.lemma_size_agrees();
        lemma_concat_agrees(concat_serialized(concat_serialized(concat_serialized(Ok::<Seq<u8>, SerializeError>(Seq::empty()), self.0.spec_serialize()), self.1.spec_serialize()), self.2.spec_serialize()), add_sizes(add_sizes(add_sizes(Some(0usize), self.0.spec_size()), self.1.spec_size()), self.2.spec_size()), self.3.spec_serialize(), self.3.spec_size());
        self.4.lemma_size_agrees();
        lemma_concat_agrees(concat_serialized(concat_serialized(concat_serialized(concat_serialized(Ok::<Seq<u8>, SerializeError>(Seq::empty()), self.0.spec_serialize()), self.1.spec_serialize()), self.2.spec_serialize()), self.3.spec_serialize()), add_sizes(add_sizes(add_sizes(add_sizes(Some(0usize), self.0.spec_size()), self.1.spec_size()), self.2.spec_size()), self.3.spec_size()), self.4.spec_serialize(), self.4.spec_size());
    }

    fn serialize(&self, buffer: &mut Vec<u8>) -> (result: Result<usize, SerializeError>) {
        let ghost start = buffer@;
        let t0 = serialize_next(&self.0, buffer, 0usize, Ghost(start), Ghost(Ok::<Seq<u8>, SerializeError>(Seq::empty())))?;
        let t1 = serialize_next(&self.1, buffer, t0, Ghost(start), Ghost(concat_serialized(Ok::<Seq<u8>, SerializeError>(Seq::empty()), self.0.spec_serialize())))?;
        let t2 = serialize_next(&self.2, buffer, t1, Ghost(start), Ghost(concat_serialized(concat_serialized(Ok::<Seq<u8>, SerializeError>(Seq::empty()), self.0.spec_serialize()), self.1.spec_serialize())))?;
        let t3 = serialize_next(&self.3, buffer, t2, Ghost(start), Ghost(concat_serialized(concat_serialized(concat_serialized(Ok::<Seq<u8>, SerializeError>(Seq::empty()), self.0.spec_serialize()), self.1.spec_serialize()), self.2.spec_serialize())))?;
        let t4 = serialize_next(&self.4, buffer, t3, Ghost(start), Ghost(concat_serialized(concat_serialized(concat_serialized(concat_serialized(Ok::<Seq<u8>, SerializeError>(Seq::empty()), self.0.spec_serialize()), self.1.spec_serialize()), self.2.spec_serialize()), self.3.spec_serialize())))?;
        Ok(t4)
    }

    fn size(&self) -> (result: Option<usize>) {
        let s0 = match self.0.size() { Some(s) => s, None => return None };
        let s0 = match 0usize.checked_add(s0) { Some(s) => s, None => return None };
        let s1 = match self.1.size() { Some(s) => s, None => return None };
        let s1 = match s0.checked_add(s1) { Some(s) => s, None => return None };
        let s2 = match self.2.size() { Some(s) => s, None => return None };
        let s2 = match s1.checked_add(s2) { Some(s) => s, None => return None };
        let s3 = match self.3.size() { Some(s) => s, None => return None };
        let s3 = match s2.checked_add(s3) { Some(s) => s, None => return None };
        let s4 = match self.4.size() { Some(s) => s, None => return None };
        let s4 = match s3.checked_add(s4) { Some(s) => s, None => return None };
        Some(s4)
    }
}

impl<A: Serialize, B: Serialize, C: Serialize, D: Serialize, E: Serialize, F: Serialize> Serialize for (A, B, C, D, E, F) {
    open spec fn spec_serialize(&self) -> Result<Seq<u8>, SerializeError> {
        concat_serialized(concat_serialized(concat_serialized(concat_serialized(concat_serialized(concat_serialized(Ok::<Seq<u8>, SerializeError>(Seq::empty()), self.0.spec_serialize()), self.1.spec_serialize()), self.2.spec_serialize()), self.3.spec_serialize()), self.4.spec_serialize()), self.5.spec_serialize())
    }

    open spec fn spec_size(&self) -> Option<usize> {
        add_sizes(add_sizes(add_sizes(add_sizes(add_sizes(add_sizes(Some(0usize), self.0.spec_size()), self.1.spec_size()), self.2.spec_size()), self.3.spec_size()), self.4.spec_size()), self.5.spec_size())
    }

    proof fn lemma_size_agrees(&self) {
        self.0.lemma_size_agrees();
        lemma_concat_agrees(Ok::<Seq<u8>, SerializeError>(Seq::empty()), Some(0usize), self.0.spec_serialize(), self.0.spec_size());
        self.1.lemma_size_agrees();
        lemma_concat_agrees(concat_serialized(Ok::<Seq<u8>, SerializeError>(Seq::empty()), self.0.spec_serialize()), add_sizes(Some(0usize), self.0.spec_size()), self.1.spec_serialize(), self.1.spec_size());
        self.2.lemma_size_agrees();
        lemma_concat_agrees(concat_serialized(concat_serialized(Ok::<Seq<u8>, SerializeError>(Seq::empty()), self.0.spec_serialize()), self.1.spec_serialize()), add_sizes(add_sizes(Some(0usize), self.0.spec_size()), self.1.spec_size()), self.2.spec_serialize(), self.2.spec_size());
        self.3.lemma_size_agrees();
        lemma_concat_agrees(concat_serialized(concat_serialized(concat_serialized(Ok::<Seq<u8>, SerializeError>(Seq::empty()), self.0.spec_serialize()), self.1.spec_serialize()), self.2.spec_serialize()), add_sizes(add_sizes(add_sizes(Some(0usize), self.0.spec_size()), self.1.spec_size()), self.2.spec_size()), self.3.spec_serialize(), self.3.spec_size());
        self.4.lemma_size_agrees();
        lemma_concat_agrees(concat_serialized(concat_serialized(concat_serialized(concat_serialized(Ok::<Seq<u8>, SerializeError>(Seq::empty()), self.0.spec_serialize()), self.1.spec_serialize()), self.2.spec_serialize()), self.3.spec_serialize()), add_sizes(add_sizes(add_sizes(add_sizes(Some(0usize), self.0.spec_size()), self.1.spec_size()), self.2.spec_size()), self.3.spec_size()), self.4.spec_serialize(), self.4.spec_size());
        self.5.lemma_size_agrees();
        lemma_concat_agrees(concat_serialized(concat_serialized(concat_serialized(concat_serialized(concat_serialized(Ok::<Seq<u8>, SerializeError>(Seq::empty()), self.0.spec_serialize()), self.1.spec_serialize()), self.2.spec_serialize()), self.3.spec_serialize()), self.4.spec_serialize()), add_sizes(add_sizes(add_sizes(add_sizes(add_sizes(Some(0usize), self.0.spec_size()), self.1.spec_size()), self.2.spec_size()), self.3.spec_size()), self.4.spec_size()), self.5.spec_serialize(), self.5.spec_size());
    }

    fn serialize(&self, buffer: &mut Vec<u8>) -> (result: Result<usize, SerializeError>) {
        let ghost start = buffer@;
        let t0 = serialize_next(&self.0, buffer, 0usize, Ghost(start), Ghost(Ok::<Seq<u8>, SerializeError>(Seq::empty())))?;
        let t1 = serialize_next(&self.1, buffer, t0, Ghost(start), Ghost(concat_serialized(Ok::<Seq<u8>, SerializeError>(Seq::empty()), self.0.spec_serialize())))?;
        let t2 = serialize_next(&self.2, buffer, t1, Ghost(start), Ghost(concat_serialized(concat_serialized(Ok::<Seq<u8>, SerializeError>(Seq::empty()), self.0.spec_serialize()), self.1.spec_serialize())))?;
        let t3 = serialize_next(&self.3, buffer, t2, Ghost(start), Ghost(concat_serialized(concat_serialized(concat_serialized(Ok::<Seq<u8>, SerializeError>(Seq::empty()), self.0.spec_serialize()), self.1.spec_serialize()), self.2.spec_serialize())))?;
        let t4 = serialize_next(&self.4, buffer, t3, Ghost(start), Ghost(concat_serialized(concat_serialized(concat_serialized(concat_serialized(Ok::<Seq<u8>, SerializeError>(Seq::empty()), self.0.spec_serialize()), self.1.spec_serialize()), self.2.spec_serialize()), self.3.spec_serialize())))?;
        let t5 = serialize_next(&self.5, buffer, t4, Ghost(start), Ghost(concat_serialized(concat_serialized(concat_serialized(concat_serialized(concat_serialized(Ok::<Seq<u8>, SerializeError>(Seq::empty()), self.0.spec_serialize()), self.1.spec_serialize()), self.2.spec_serialize()), self.3.spec_serialize()), self.4.spec_serialize())))?;
        Ok(t5)
    }

    fn size(&self) -> (result: Option<usize>) {
        let s0 = match self.0.size() { Some(s) => s, None => return None };
        let s0 = match 0usize.checked_add(s0) { Some(s) => s, None => return None };
        let s1 = match self.1.size() { Some(s) => s, None => return None };
        let s1 = match s0.checked_add(s1) { Some(s) => s, None => return None };
        let s2 = match self.2.size() { Some(s) => s, None => return None };
        let s2 = match s1.checked_add(s2) { Some(s) => s, None => return None };
        let s3 = match self.3.size() { Some(s) => s, None => return None };
        let s3 = match s2.checked_add(s3) { Some(s) => s, None => return None };
        let s4 = match self.4.size() { Some(s) => s, None => return None };
        let s4 = match s3.checked_add(s4) { Some(s) => s, None => return None };
        let s5 = match self.5.size() { Some(s) => s, None => return None };
        let s5 = match s4.checked_add(s5) { Some(s) => s, None => return None };
        Some(s5)
    }
}

impl<A: Serialize, B: Serialize, C: Serialize, D: Serialize, E: Serialize, F: Serialize, G: Serialize> Serialize for (A, B, C, D, E, F, G) {
    open spec fn spec_serialize(&self) -> Result<Seq<u8>, SerializeError> {
        concat_serialized(concat_serialized(concat_serialized(concat_serialized(concat_serialized(concat_serialized(concat_serialized(Ok::<Seq<u8>, SerializeError>(Seq::empty()), self.0.spec_serialize()), self.1.spec_serialize()), self.2.spec_serialize()), self.3.spec_serialize()), self.4.spec_serialize()), self.5.spec_serialize()), self.6.spec_serialize())
    }

    open spec fn spec_size(&self) -> Option<usize> {
        add_sizes(add_sizes(add_sizes(add_sizes(add_sizes(add_sizes(add_sizes(Some(0usize), self.0.spec_size()), self.1.spec_size()), self.2.spec_size()), self.3.spec_size()), self.4.spec_size()), self.5.spec_size()), self.6.spec_size())
    }

    proof fn lemma_size_agrees(&self) {
        self.0.lemma_size_agrees();
        lemma_concat_agrees(Ok::<Seq<u8>, SerializeError>(Seq::empty()), Some(0usize), self.0.spec_serialize(), self.0.spec_size());
        self.1.lemma_size_agrees();
        lemma_concat_agrees(concat_serialized(Ok::<Seq<u8>, SerializeError>(Seq::empty()), self.0.spec_serialize()), add_sizes(Some(0usize), self.0.spec_size()), self.1.spec_serialize(), self.1.spec_size());
        self.2.lemma_size_agrees();
        lemma_concat_agrees(concat_serialized(concat_serialized(Ok::<Seq<u8>, SerializeError>(Seq::empty()), self.0.spec_serialize()), self.1.spec_serialize()), add_sizes(add_sizes(Some(0usize), self.0.spec_size()), self.1.spec_size()), self.2.spec_serialize(), self.2.spec_size());
        self.3.lemma_size_agrees();
        lemma_concat_agrees(concat_serialized(concat_serialized(concat_serialized(Ok::<Seq<u8>, SerializeError>(Seq::empty()), self.0.spec_serialize()), self.1.spec_serialize()), self.2.spec_serialize()), add_sizes(add_sizes(add_sizes(Some(0usize), self.0.spec_size()), self.1.spec_size()), self.2.spec_size()), self.3.spec_serialize(), self.3.spec_size());
        self.4.lemma_size_agrees();
        lemma_concat_agrees(concat_serialized(concat_serialized(concat_serialized(concat_serialized(Ok::<Seq<u8>, SerializeError>(Seq::empty()), self.0.spec_serialize()), self.1.spec_serialize()), self.2.spec_serialize()), self.3.spec_serialize()), add_sizes(add_sizes(add_sizes(add_sizes(Some(0usize), self.0.spec_size()), self.1.spec_size()), self.2.spec_size()), self.3.spec_size()), self.4.spec_serialize(), self.4.spec_size());
        self.5.lemma_size_agrees();
        lemma_concat_agrees(concat_serialized(concat_serialized(concat_serialized(concat_serialized(concat_serialized(Ok::<Seq<u8>, SerializeError>(Seq::empty()), self.0.spec_serialize()), self.1.spec_serialize()), self.2.spec_serialize()), self.3.spec_serialize()), self.4.spec_serialize()), add_sizes(add_sizes(add_sizes(add_sizes(add_sizes(Some(0usize), self.0.spec_size()), self.1.spec_size()), self.2.spec_size()), self.3.spec_size()), self.4.spec_size()), self.5.spec_serialize(), self.5.spec_size());
        self.6.lemma_size_agrees();
        lemma_concat_agrees(concat_serialized(concat_serialized(concat_serialized(concat_serialized(concat_serialized(concat_serialized(Ok::<Seq<u8>, SerializeError>(Seq::empty()), self.0.spec_serialize()), self.1.spec_serialize()), self.2.spec_serialize()), self.3.spec_serialize()), self.4.spec_serialize()), self.5.spec_serialize()), add_sizes(add_sizes(add_sizes(add_sizes(add_sizes(add_sizes(Some(0usize), self.0.spec_size()), self.1.spec_size()), self.2.spec_size()), self.3.spec_size()), self.4.spec_size()), self.5.spec_size()), self.6.spec_serialize(), self.6.spec_size());
    }

    fn serialize(&self, buffer: &mut Vec<u8>) -> (result: Result<usize, SerializeError>) {
        let ghost start = buffer@;
        let t0 = serialize_next(&self.0, buffer, 0usize, Ghost(start), Ghost(Ok::<Seq<u8>, SerializeError>(Seq::empty())))?;
        let t1 = serialize_next(&self.1, buffer, t0, Ghost(start), Ghost(concat_serialized(Ok::<Seq<u8>, SerializeError>(Seq::empty()), self.0.spec_serialize())))?;
        let t2 = serialize_next(&self.2, buffer, t1, Ghost(start), Ghost(concat_serialized(concat_serialized(Ok::<Seq<u8>, SerializeError>(Seq::empty()), self.0.spec_serialize()), self.1.spec_serialize())))?;
        let t3 = serialize_next(&self.3, buffer, t2, Ghost(start), Ghost(concat_serialized(concat_serialized(concat_serialized(Ok::<Seq<u8>, SerializeError>(Seq::empty()), self.0.spec_serialize()), self.1.spec_serialize()), self.2.spec_serialize())))?;
        let t4 = serialize_next(&self.4, buffer, t3, Ghost(start), Ghost(concat_serialized(concat_serialized(concat_serialized(concat_serialized(Ok::<Seq<u8>, SerializeError>(Seq::empty()), self.0.spec_serialize()), self.1.spec_serialize()), self.2.spec_serialize()), self.3.spec_serialize())))?;
        let t5 = serialize_next(&self.5, buffer, t4, Ghost(start), Ghost(concat_serialized(concat_serialized(concat_serialized(concat_serialized(concat_serialized(Ok::<Seq<u8>, SerializeError>(Seq::empty()), self.0.spec_serialize()), self.1.spec_serialize()), self.2.spec_serialize()), self.3.spec_serialize()), self.4.spec_serialize())))?;
        let t6 = serialize_next(&self.6, buffer, t5, Ghost(start), Ghost(concat_serialized(concat_serialized(concat_serialized(concat_serialized(concat_serialized(concat_serialized(Ok::<Seq<u8>, SerializeError>(Seq::empty()), self.0.spec_serialize()), self.1.spec_serialize()), self.2.spec_serialize()), self.3.spec_serialize()), self.4.spec_serialize()), self.5.spec_serialize())))?;
        Ok(t6)
    }

    fn size(&self) -> (result: Option<usize>) {
        let s0 = match self.0.size() { Some(s) => s, None => return None };
        let s0 = match 0usize.checked_add(s0) { Some(s) => s, None => return None };
        let s1 = match self.1.size() { Some(s) => s, None => return None };
        let s1 = match s0.checked_add(s1) { Some(s) => s, None => return None };
        let s2 = match self.2.size() { Some(s) => s, None => return None };
        let s2 = match s1.checked_add(s2) { Some(s) => s, None => return None };
        let s3 = match self.3.size() { Some(s) => s, None => return None };
        let s3 = match s2.checked_add(s3) { Some(s) => s, None => return None };
        let s4 = match self.4.size() { Some(s) => s, None => return None };
        let s4 = match s3.checked_add(s4) { Some(s) => s, None => return None };
        let s5 = match self.5.size() { Some(s) => s, None => return None };
        let s5 = match s4.checked_add(s5) { Some(s) => s, None => return None };
        let s6 = match self.6.size() { Some(s) => s, None => return None };
        let s6 = match s5.checked_add(s6) { Some(s) => s, None => return None };
        Some(s6)
    }
}

impl<A: Serialize, B: Serialize, C: Serialize, D: Serialize, E: Serialize, F: Serialize, G: Serialize, H: Serialize> Serialize for (A, B, C, D, E, F, G, H) {
    open spec fn spec_serialize(&self) -> Result<Seq<u8>, SerializeError> {
        concat_serialized(concat_serialized(concat_serialized(concat_serialized(concat_serialized(concat_serialized(concat_serialized(concat_serialized(Ok::<Seq<u8>, SerializeError>(Seq::empty()), self.0.spec_serialize()), self.1.spec_serialize()), self.2.spec_serialize()), self.3.spec_serialize()), self.4.spec_serialize()), self.5.spec_serialize()), self.6.spec_serialize()), self.7.spec_serialize())
    }

    open spec fn spec_size(&self) -> Option<usize> {
        add_sizes(add_sizes(add_sizes(add_sizes(add_sizes(add_sizes(add_sizes(add_sizes(Some(0usize), self.0.spec_size()), self.1.spec_size()), self.2.spec_size()), self.3.spec_size()), self.4.spec_size()), self.5.spec_size()), self.6.spec_size()), self.7.spec_size())
    }

    proof fn lemma_size_agrees(&self) {
        self.0.lemma_size_agrees();
        lemma_concat_agrees(Ok::<Seq<u8>, SerializeError>(Seq::empty()), Some(0usize), self.0.spec_serialize(), self.0.spec_size());
        self.1.lemma_size_agrees();
        lemma_concat_agrees(concat_serialized(Ok::<Seq<u8>, SerializeError>(Seq::empty()), self.0.spec_serialize()), add_sizes(Some(0usize), self.0.spec_size()), self.1.spec_serialize(), self.1.spec_size());
        self.2.lemma_size_agrees();
        lemma_concat_agrees(concat_serialized(concat_serialized(Ok::<Seq<u8>, SerializeError>(Seq::empty()), self.0.spec_serialize()), self.1.spec_serialize()), add_sizes(add_sizes(Some(0usize), self.0.spec_size()), self.1.spec_size()), self.2.spec_serialize(), self.2.spec_size());
        self.3.lemma_size_agrees();
        lemma_concat_agrees(concat_serialized(concat_serialized(concat_serialized(Ok::<Seq<u8>, SerializeError>(Seq::empty()), self.0.spec_serialize()), self.1.spec_serialize()), self.2.spec_serialize()), add_sizes(add_sizes(add_sizes(Some(0usize), self.0.spec_size()), self.1.spec_size()), self.2.spec_size()), self.3.spec_serialize(), self.3.spec_size());
        self.4.lemma_size_agrees();
        lemma_concat_agrees(concat_serialized(concat_serialized(concat_serialized(concat_serialized(Ok::<Seq<u8>, SerializeError>(Seq::empty()), self.0.spec_serialize()), self.1.spec_serialize()), self.2.spec_serialize()), self.3.spec_serialize()), add_sizes(add_sizes(add_sizes(add_sizes(Some(0usize), self.0.spec_size()), self.1.spec_size()), self.2.spec_size()), self.3.spec_size()), self.4.spec_serialize(), self.4.spec_size());
        self.5.lemma_size_agrees();
        lemma_concat_agrees(concat_serialized(concat_serialized(concat_serialized(concat_serialized(concat_serialized(Ok::<Seq<u8>, SerializeError>(Seq::empty()), self.0.spec_serialize()), self.1.spec_serialize()), self.2.spec_serialize()), self.3.spec_serialize()), self.4.spec_serialize()), add_sizes(add_sizes(add_sizes(add_sizes(add_sizes(Some(0usize), self.0.spec_size()), self.1.spec_size()), self.2.spec_size()), self.3.spec_size()), self.4.spec_size()), self.5.spec_serialize(), self.5.spec_size());
        self.6.lemma_size_agrees();
        lemma_concat_agrees(concat_serialized(concat_serialized(concat_serialized(concat_serialized(concat_serialized(concat_serialized(Ok::<Seq<u8>, SerializeError>(Seq::empty()), self.0.spec_serialize()), self.1.spec_serialize()), self.2.spec_serialize()), self.3.spec_serialize()), self.4.spec_serialize()), self.5.spec_serialize()), add_sizes(add_sizes(add_sizes(add_sizes(add_sizes(add_sizes(Some(0usize), self.0.spec_size()), self.1.spec_size()), self.2.spec_size()), self.3.spec_size()), self.4.spec_size()), self.5.spec_size()), self.6.spec_serialize(), self.6.spec_size());
        self.7.lemma_size_agrees();
        lemma_concat_agrees(concat_serialized(concat_serialized(concat_serialized(concat_serialized(concat_serialized(concat_serialized(concat_serialized(Ok::<Seq<u8>, SerializeError>(Seq::empty()), self.0.spec_serialize()), self.1.spec_serialize()), self.2.spec_serialize()), self.3.spec_serialize()), self.4.spec_serialize()), self.5.spec_serialize()), self.6.spec_serialize()), add_sizes(add_sizes(add_sizes(add_sizes(add_sizes(add_sizes(add_sizes(Some(0usize), self.0.spec_size()), self.1.spec_size()), self.2.spec_size()), self.3.spec_size()), self.4.spec_size()), self.5.spec_size()), self.6.spec_size()), self.7.spec_serialize(), self.7.spec_size());
    }

    fn serialize(&self, buffer: &mut Vec<u8>) -> (result: Result<usize, SerializeError>) {
        let ghost start = buffer@;
        let t0 = serialize_next(&self.0, buffer, 0usize, Ghost(start), Ghost(Ok::<Seq<u8>, SerializeError>(Seq::empty())))?;
        let t1 = serialize_next(&self.1, buffer, t0, Ghost(start), Ghost(concat_serialized(Ok::<Seq<u8>, SerializeError>(Seq::empty()), self.0.spec_serialize())))?;
        let t2 = serialize_next(&self.2, buffer, t1, Ghost(start), Ghost(concat_serialized(concat_serialized(Ok::<Seq<u8>, SerializeError>(Seq::empty()), self.0.spec_serialize()), self.1.spec_serialize())))?;
        let t3 = serialize_next(&self.3, buffer, t2, Ghost(start), Ghost(concat_serialized(concat_serialized(concat_serialized(Ok::<Seq<u8>, SerializeError>(Seq::empty()), self.0.spec_serialize()), self.1.spec_serialize()), self.2.spec_serialize())))?;
        let t4 = serialize_next(&self.4, buffer, t3, Ghost(start), Ghost(concat_serialized(concat_serialized(concat_serialized(concat_serialized(Ok::<Seq<u8>, SerializeError>(Seq::empty()), self.0.spec_serialize()), self.1.spec_serialize()), self.2.spec_serialize()), self.3.spec_serialize())))?;
        let t5 = serialize_next(&self.5, buffer, t4, Ghost(start), Ghost(concat_serialized(concat_serialized(concat_serialized(concat_serialized(concat_serialized(Ok::<Seq<u8>, SerializeError>(Seq::empty()), self.0.spec_serialize()), self.1.spec_serialize()), self.2.spec_serialize()), self.3.spec_serialize()), self.4.spec_serialize())))?;
        let t6 = serialize_next(&self.6, buffer, t5, Ghost(start), Ghost(concat_serialized(concat_serialized(concat_serialized(concat_serialized(concat_serialized(concat_serialized(Ok::<Seq<u8>, SerializeError>(Seq::empty()), self.0.spec_serialize()), self.1.spec_serialize()), self.2.spec_serialize()), self.3.spec_serialize()), self.4.spec_serialize()), self.5.spec_serialize())))?;
        let t7 = serialize_next(&self.7, buffer, t6, Ghost(start), Ghost(concat_serialized(concat_serialized(concat_serialized(concat_serialized(concat_serialized(concat_serialized(concat_serialized(Ok::<Seq<u8>, SerializeError>(Seq::empty()), self.0.spec_serialize()), self.1.spec_serialize()), self.2.spec_serialize()), self.3.spec_serialize()), self.4.spec_serialize()), self.5.spec_serialize()), self.6.spec_serialize())))?;
        Ok(t7)
    }

    fn size(&self) -> (result: Option<usize>) {
        let s0 = match self.0.size() { Some(s) => s, None => return None };
        let s0 = match 0usize.checked_add(s0) { Some(s) => s, None => return None };
        let s1 = match self.1.size() { Some(s) => s, None => return None };
        let s1 = match s0.checked_add(s1) { Some(s) => s, None => return None };
        let s2 = match self.2.size() { Some(s) => s, None => return None };
        let s2 = match s1.checked_add(s2) { Some(s) => s, None => return None };
        let s3 = match self.3.size() { Some(s) => s, None => return None };
        let s3 = match s2.checked_add(s3) { Some(s) => s, None => return None };
        let s4 = match self.4.size() { Some(s) => s, None => return None };
        let s4 = match s3.checked_add(s4) { Some(s) => s, None => return None };
        let s5 = match self.5.size() { Some(s) => s, None => return None };
        let s5 = match s4.checked_add(s5) { Some(s) => s, None => return None };
        let s6 = match self.6.size() { Some(s) => s, None => return None };
        let s6 = match s5.checked_add(s6) { Some(s) => s, None => return None };
        let s7 = match self.7.size() { Some(s) => s, None => return None };
        let s7 = match s6.checked_add(s7) { Some(s) => s, None => return None };
        Some(s7)
    }
}

impl<A: Serialize, B: Serialize, C: Serialize, D: Serialize, E: Serialize, F: Serialize, G: Serialize, H: Serialize, I: Serialize> Serialize for (A, B, C, D, E, F, G, H, I) {
    open spec fn spec_serialize(&self) -> Result<Seq<u8>, SerializeError> {
        concat_serialized(concat_serialized(concat_serialized(concat_serialized(concat_serialized(concat_serialized(concat_serialized(concat_serialized(concat_serialized(Ok::<Seq<u8>, SerializeError>(Seq::empty()), self.0.spec_serialize()), self.1.spec_serialize()), self.2.spec_serialize()), self.3.spec_serialize()), self.4.spec_serialize()), self.5.spec_serialize()), self.6.spec_serialize()), self.7.spec_serialize()), self.8.spec_serialize())
    }

    open spec fn spec_size(&self) -> Option<usize> {
        add_sizes(add_sizes(add_sizes(add_sizes(add_sizes(add_sizes(add_sizes(add_sizes(add_sizes(Some(0usize), self.0.spec_size()), self.1.spec_size()), self.2.spec_size()), self.3.spec_size()), self.4.spec_size()), self.5.spec_size()), self.6.spec_size()), self.7.spec_size()), self.8.spec_size())
    }

    proof fn lemma_size_agrees(&self) {
        self.0.lemma_size_agrees();
        lemma_concat_agrees(Ok::<Seq<u8>, SerializeError>(Seq::empty()), Some(0usize), self.0.spec_serialize(), self.0.spec_size());
        self.1.lemma_size_agrees();
        lemma_concat_agrees(concat_serialized(Ok::<Seq<u8>, SerializeError>(Seq::empty()), self.0.spec_serialize()), add_sizes(Some(0usize), self.0.spec_size()), self.1.spec_serialize(), self.1.spec_size());
        self.2.lemma_size_agrees();
        lemma_concat_agrees(concat_serialized(concat_serialized(Ok::<Seq<u8>, SerializeError>(Seq::empty()), self.0.spec_serialize()), self.1.spec_serialize()), add_sizes(add_sizes(Some(0usize), self.0.spec_size()), self.1.spec_size()), self.2.spec_serialize(), self.2.spec_size());
        self.3.lemma_size_agrees();
        lemma_concat_agrees(concat_serialized(concat_serialized(concat_serialized(Ok::<Seq<u8>, SerializeError>(Seq::empty()), self.0.spec_serialize()), self.1.spec_serialize()), self.2.spec_serialize()), add_sizes(add_sizes(add_sizes(Some(0usize), self.0.spec_size()), self.1.spec_size()), self.2.spec_size()), self.3.spec_serialize(), self.3.spec_size());
        self.4.lemma_size_agrees();
        lemma_concat_agrees(concat_serialized(concat_serialized(concat_serialized(concat_serialized(Ok::<Seq<u8>, SerializeError>(Seq::empty()), self.0.spec_serialize()), self.1.spec_serialize()), self.2.spec_serialize()), self.3.spec_serialize()), add_sizes(add_sizes(add_sizes(add_sizes(Some(0usize), self.0.spec_size()), self.1.spec_size()), self.2.spec_size()), self.3.spec_size()), self.4.spec_serialize(), self.4.spec_size());
        self.5.lemma_size_agrees();
        lemma_concat_agrees(concat_serialized(concat_serialized(concat_serialized(concat_serialized(concat_serialized(Ok::<Seq<u8>, SerializeError>(Seq::empty()), self.0.spec_serialize()), self.1.spec_serialize()), self.2.spec_serialize()), self.3.spec_serialize()), self.4.spec_serialize()), add_sizes(add_sizes(add_sizes(add_sizes(add_sizes(Some(0usize), self.0.spec_size()), self.1.spec_size()), self.2.spec_size()), self.3.spec_size()), self.4.spec_size()), self.5.spec_serialize(), self.5.spec_size());
        self.6.lemma_size_agrees();
        lemma_concat_agrees(concat_serialized(concat_serialized(concat_serialized(concat_serialized(concat_serialized(concat_serialized(Ok::<Seq<u8>, SerializeError>(Seq::empty()), self.0.spec_serialize()), self.1.spec_serialize()), self.2.spec_serialize()), self.3.spec_serialize()), self.4.spec_serialize()), self.5.spec_serialize()), add_sizes(add_sizes(add_sizes(add_sizes(add_sizes(add_sizes(Some(0usize), self.0.spec_size()), self.1.spec_size()), self.2.spec_size()), self.3.spec_size()), self.4.spec_size()), self.5.spec_size()), self.6.spec_serialize(), self.6.spec_size());
        self.7.lemma_size_agrees();
        lemma_concat_agrees(concat_serialized(concat_serialized(concat_serialized(concat_serialized(concat_serialized(concat_serialized(concat_serialized(Ok::<Seq<u8>, SerializeError>(Seq::empty()), self.0.spec_serialize()), self.1.spec_serialize()), self.2.spec_serialize()), self.3.spec_serialize()), self.4.spec_serialize()), self.5.spec_serialize()), self.6.spec_serialize()), add_sizes(add_sizes(add_sizes(add_sizes(add_sizes(add_sizes(add_sizes(Some(0usize), self.0.spec_size()), self.1.spec_size()), self.2.spec_size()), self.3.spec_size()), self.4.spec_size()), self.5.spec_size()), self.6.spec_size()), self.7.spec_serialize(), self.7.spec_size());
        self.8.lemma_size_agrees();
        lemma_concat_agrees(concat_serialized(concat_serialized(concat_serialized(concat_serialized(concat_serialized(concat_serialized(concat_serialized(concat_serialized(Ok::<Seq<u8>, SerializeError>(Seq::empty()), self.0.spec_serialize()), self.1.spec_serialize()), self.2.spec_serialize()), self.3.spec_serialize()), self.4.spec_serialize()), self.5.spec_serialize()), self.6.spec_serialize()), self.7.spec_serialize()), add_sizes(add_sizes(add_sizes(add_sizes(add_sizes(add_sizes(add_sizes(add_sizes(Some(0usize), self.0.spec_size()), self.1.spec_size()), self.2.spec_size()), self.3.spec_size()), self.4.spec_size()), self.5.spec_size()), self.6.spec_size()), self.7.spec_size()), self.8.spec_serialize(), self.8.spec_size());
    }

    fn serialize(&self, buffer: &mut Vec<u8>) -> (result: Result<usize, SerializeError>) {
        let ghost start = buffer@;
        let t0 = serialize_next(&self.0, buffer, 0usize, Ghost(start), Ghost(Ok::<Seq<u8>, SerializeError>(Seq::empty())))?;
        let t1 = serialize_next(&self.1, buffer, t0, Ghost(start), Ghost(concat_serialized(Ok::<Seq<u8>, SerializeError>(Seq::empty()), self.0.spec_serialize())))?;
        let t2 = serialize_next(&self.2, buffer, t1, Ghost(start), Ghost(concat_serialized(concat_serialized(Ok::<Seq<u8>, SerializeError>(Seq::empty()), self.0.spec_serialize()), self.1.spec_serialize())))?;
        let t3 = serialize_next(&self.3, buffer, t2, Ghost(start), Ghost(concat_serialized(concat_serialized(concat_serialized(Ok::<Seq<u8>, SerializeError>(Seq::empty()), self.0.spec_serialize()), self.1.spec_serialize()), self.2.spec_serialize())))?;
        let t4 = serialize_next(&self.4, buffer, t3, Ghost(start), Ghost(concat_serialized(concat_serialized(concat_serialized(concat_serialized(Ok::<Seq<u8>, SerializeError>(Seq::empty()), self.0.spec_serialize()), self.1.spec_serialize()), self.2.spec_serialize()), self.3.spec_serialize())))?;
        let t5 = serialize_next(&self.5, buffer, t4, Ghost(start), Ghost(concat_serialized(concat_serialized(concat_serialized(concat_serialized(concat_serialized(Ok::<Seq<u8>, SerializeError>(Seq::empty()), self.0.spec_serialize()), self.1.spec_serialize()), self.2.spec_serialize()), self.3.spec_serialize()), self.4.spec_serialize())))?;
        let t6 = serialize_next(&self.6, buffer, t5, Ghost(start), Ghost(concat_serialized(concat_serialized(concat_serialized(concat_serialized(concat_serialized(concat_serialized(Ok::<Seq<u8>, SerializeError>(Seq::empty()), self.0.spec_serialize()), self.1.spec_serialize()), self.2.spec_serialize()), self.3.spec_serialize()), self.4.spec_serialize()), self.5.spec_serialize())))?;
        let t7 = serialize_next(&self.7, buffer, t6, Ghost(start), Ghost(concat_serialized(concat_serialized(concat_serialized(concat_serialized(concat_serialized(concat_serialized(concat_serialized(Ok::<Seq<u8>, SerializeError>(Seq::empty()), self.0.spec_serialize()), self.1.spec_serialize()), self.2.spec_serialize()), self.3.spec_serialize()), self.4.spec_serialize()), self.5.spec_serialize()), self.6.spec_serialize())))?;
        let t8 = serialize_next(&self.8, buffer, t7, Ghost(start), Ghost(concat_serialized(concat_serialized(concat_serialized(concat_serialized(concat_serialized(concat_serialized(concat_serialized(concat_serialized(Ok::<Seq<u8>, SerializeError>(Seq::empty()), self.0.spec_serialize()), self.1.spec_serialize()), self.2.spec_serialize()), self.3.spec_serialize()), self.4.spec_serialize()), self.5.spec_serialize()), self.6.spec_serialize()), self.7.spec_serialize())))?;
        Ok(t8)
    }

    fn size(&self) -> (result: Option<usize>) {
        let s0 = match self.0.size() { Some(s) => s, None => return None };
        let s0 = match 0usize.checked_add(s0) { Some(s) => s, None => return None };
        let s1 = match self.1.size() { Some(s) => s, None => return None };
        let s1 = match s0.checked_add(s1) { Some(s) => s, None => return None };
        let s2 = match self.2.size() { Some(s) => s, None => return None };
        let s2 = match s1.checked_add(s2) { Some(s) => s, None => return None };
        let s3 = match self.3.size() { Some(s) => s, None => return None };
        let s3 = match s2.checked_add(s3) { Some(s) => s, None => return None };
        let s4 = match self.4.size() { Some(s) => s, None => return None };
        let s4 = match s3.checked_add(s4) { Some(s) => s, None => return None };
        let s5 = match self.5.size() { Some(s) => s, None => return None };
        let s5 = match s4.checked_add(s5) { Some(s) => s, None => return None };
        let s6 = match self.6.size() { Some(s) => s, None => return None };
        let s6 = match s5.checked_add(s6) { Some(s) => s, None => return None };
        let s7 = match self.7.size() { Some(s) => s, None => return None };
        let s7 = match s6.checked_add(s7) { Some(s) => s, None => return None };
        let s8 = match self.8.size() { Some(s) => s, None => return None };
        let s8 = match s7.checked_add(s8) { Some(s) => s, None => return None };
        Some(s8)
    }
}

impl<A: Serialize, B: Serialize, C: Serialize, D: Serialize, E: Serialize, F: Serialize, G: Serialize, H: Serialize, I: Serialize, J: Serialize> Serialize for (A, B, C, D, E, F, G, H, I, J) {
    open spec fn spec_serialize(&self) -> Result<Seq<u8>, SerializeError> {
        concat_serialized(concat_serialized(concat_serialized(concat_serialized(concat_serialized(concat_serialized(concat_serialized(concat_serialized(concat_serialized(concat_serialized(Ok::<Seq<u8>, SerializeError>(Seq::empty()), self.0.spec_serialize()), self.1.spec_serialize()), self.2.spec_serialize()), self.3.spec_serialize()), self.4.spec_serialize()), self.5.spec_serialize()), self.6.spec_serialize()), self.7.spec_serialize()), self.8.spec_serialize()), self.9.spec_serialize())
    }

    open spec fn spec_size(&self) -> Option<usize> {
        add_sizes(add_sizes(add_sizes(add_sizes(add_sizes(add_sizes(add_sizes(add_sizes(add_sizes(add_sizes(Some(0usize), self.0.spec_size()), self.1.spec_size()), self.2.spec_size()), self.3.spec_size()), self.4.spec_size()), self.5.spec_size()), self.6.spec_size()), self.7.spec_size()), self.8.spec_size()), self.9.spec_size())
    }

    proof fn lemma_size_agrees(&self) {
        self.0.lemma_size_agrees();
        lemma_concat_agrees(Ok::<Seq<u8>, SerializeError>(Seq::empty()), Some(0usize), self.0.spec_serialize(), self.0.spec_size());
        self.1.lemma_size_agrees();
        lemma_concat_agrees(concat_serialized(Ok::<Seq<u8>, SerializeError>(Seq::empty()), self.0.spec_serialize()), add_sizes(Some(0usize), self.0.spec_size()), self.1.spec_serialize(), self.1.spec_size());
        self.2.lemma_size_agrees();
        lemma_concat_agrees(concat_serialized(concat_serialized(Ok::<Seq<u8>, SerializeError>(Seq::empty()), self.0.spec_serialize()), self.1.spec_serialize()), add_sizes(add_sizes(Some(0usize), self.0.spec_size()), self.1.spec_size()), self.2.spec_serialize(), self.2.spec_size());
        self.3.lemma_size_agrees();
        lemma_concat_agrees(concat_serialized(concat_serialized(concat_serialized(Ok::<Seq<u8>, SerializeError>(Seq::empty()), self.0.spec_serialize()), self.1.spec_serialize()), self.2.spec_serialize()), add_sizes(add_sizes(add_sizes(Some(0usize), self.0.spec_size()), self.1.spec_size()), self.2.spec_size()), self.3.spec_serialize(), self.3.spec_size());
        self.4.lemma_size_agrees();
        lemma_concat_agrees(concat_serialized(concat_serialized(concat_serialized(concat_serialized(Ok::<Seq<u8>, SerializeError>(Seq::empty()), self.0.spec_serialize()), self.1.spec_serialize()), self.2.spec_serialize()), self.3.spec_serialize()), add_sizes(add_sizes(add_sizes(add_sizes(Some(0usize), self.0.spec_size()), self.1.spec_size()), self.2.spec_size()), self.3.spec_size()), self.4.spec_serialize(), self.4.spec_size());
        self.5.lemma_size_agrees();
        lemma_concat_agrees(concat_serialized(concat_serialized(concat_serialized(concat_serialized(concat_serialized(Ok::<Seq<u8>, SerializeError>(Seq::empty()), self.0.spec_serialize()), self.1.spec_serialize()), self.2.spec_serialize()), self.3.spec_serialize()), self.4.spec_serialize()), add_sizes(add_sizes(add_sizes(add_sizes(add_sizes(Some(0usize), self.0.spec_size()), self.1.spec_size()), self.2.spec_size()), self.3.spec_size()), self.4.spec_size()), self.5.spec_serialize(), self.5.spec_size());
        self.6.lemma_size_agrees();
        lemma_concat_agrees(concat_serialized(concat_serialized(concat_serialized(concat_serialized(concat_serialized(concat_serialized(Ok::<Seq<u8>, SerializeError>(Seq::empty()), self.0.spec_serialize()), self.1.spec_serialize()), self.2.spec_serialize()), self.3.spec_serialize()), self.4.spec_serialize()), self.5.spec_serialize()), add_sizes(add_sizes(add_sizes(add_sizes(add_sizes(add_sizes(Some(0usize), self.0.spec_size()), self.1.spec_size()), self.2.spec_size()), self.3.spec_size()), self.4.spec_size()), self.5.spec_size()), self.6.spec_serialize(), self.6.spec_size());
        self.7.lemma_size_agrees();
        lemma_concat_agrees(concat_serialized(concat_serialized(concat_serialized(concat_serialized(concat_serialized(concat_serialized(concat_serialized(Ok::<Seq<u8>, SerializeError>(Seq::empty()), self.0.spec_serialize()), self.1.spec_serialize()), self.2.spec_serialize()), self.3.spec_serialize()), self.4.spec_serialize()), self.5.spec_serialize()), self.6.spec_serialize()), add_sizes(add_sizes(add_sizes(add_sizes(add_sizes(add_sizes(add_sizes(Some(0usize), self.0.spec_size()), self.1.spec_size()), self.2.spec_size()), self.3.spec_size()), self.4.spec_size()), self.5.spec_size()), self.6.spec_size()), self.7.spec_serialize(), self.7.spec_size());
        self.8.lemma_size_agrees();
        lemma_concat_agrees(concat_serialized(concat_serialized(concat_serialized(concat_serialized(concat_serialized(concat_serialized(concat_serialized(concat_serialized(Ok::<Seq<u8>, SerializeError>(Seq::empty()), self.0.spec_serialize()), self.1.spec_serialize()), self.2.spec_serialize()), self.3.spec_serialize()), self.4.spec_serialize()), self.5.spec_serialize()), self.6.spec_serialize()), self.7.spec_serialize()), add_sizes(add_sizes(add_sizes(add_sizes(add_sizes(add_sizes(add_sizes(add_sizes(Some(0usize), self.0.spec_size()), self.1.spec_size()), self.2.spec_size()), self.3.spec_size()), self.4.spec_size()), self.5.spec_size()), self.6.spec_size()), self.7.spec_size()), self.8.spec_serialize(), self.8.spec_size());
        self.9.lemma_size_agrees();
        lemma_concat_agrees(concat_serialized(concat_serialized(concat_serialized(concat_serialized(concat_serialized(concat_serialized(concat_serialized(concat_serialized(concat_serialized(Ok::<Seq<u8>, SerializeError>(Seq::empty()), self.0.spec_serialize()), self.1.spec_serialize()), self.2.spec_serialize()), self.3.spec_serialize()), self.4.spec_serialize()), self.5.spec_serialize()), self.6.spec_serialize()), self.7.spec_serialize()), self.8.spec_serialize()), add_sizes(add_sizes(add_sizes(add_sizes(add_sizes(add_sizes(add_sizes(add_sizes(add_sizes(Some(0usize), self.0.spec_size()), self.1.spec_size()), self.2.spec_size()), self.3.spec_size()), self.4.spec_size()), self.5.spec_size()), self.6.spec_size()), self.7.spec_size()), self.8.spec_size()), self.9.spec_serialize(), self.9.spec_size());
    }

    fn serialize(&self, buffer: &mut Vec<u8>) -> (result: Result<usize, SerializeError>) {
        let ghost start = buffer@;
        let t0 = serialize_next(&self.0, buffer, 0usize, Ghost(start), Ghost(Ok::<Seq<u8>, SerializeError>(Seq::empty())))?;
        let t1 = serialize_next(&self.1, buffer, t0, Ghost(start), Ghost(concat_serialized(Ok::<Seq<u8>, SerializeError>(Seq::empty()), self.0.spec_serialize())))?;
        let t2 = serialize_next(&self.2, buffer, t1, Ghost(start), Ghost(concat_serialized(concat_serialized(Ok::<Seq<u8>, SerializeError>(Seq::empty()), self.0.spec_serialize()), self.1.spec_serialize())))?;
        let t3 = serialize_next(&self.3, buffer, t2, Ghost(start), Ghost(concat_serialized(concat_serialized(concat_serialized(Ok::<Seq<u8>, SerializeError>(Seq::empty()), self.0.spec_serialize()), self.1.spec_serialize()), self.2.spec_serialize())))?;
        let t4 = serialize_next(&self.4, buffer, t3, Ghost(start), Ghost(concat_serialized(concat_serialized(concat_serialized(concat_serialized(Ok::<Seq<u8>, SerializeError>(Seq::empty()), self.0.spec_serialize()), self.1.spec_serialize()), self.2.spec_serialize()), self.3.spec_serialize())))?;
        let t5 = serialize_next(&self.5, buffer, t4, Ghost(start), Ghost(concat_serialized(concat_serialized(concat_serialized(concat_serialized(concat_serialized(Ok::<Seq<u8>, SerializeError>(Seq::empty()), self.0.spec_serialize()), self.1.spec_serialize()), self.2.spec_serialize()), self.3.spec_serialize()), self.4.spec_serialize())))?;
        let t6 = serialize_next(&self.6, buffer, t5, Ghost(start), Ghost(concat_serialized(concat_serialized(concat_serialized(concat_serialized(concat_serialized(concat_serialized(Ok::<Seq<u8>, SerializeError>(Seq::empty()), self.0.spec_serialize()), self.1.spec_serialize()), self.2.spec_serialize()), self.3.spec_serialize()), self.4.spec_serialize()), self.5.spec_serialize())))?;
        let t7 = serialize_next(&self.7, buffer, t6, Ghost(start), Ghost(concat_serialized(concat_serialized(concat_serialized(concat_serialized(concat_serialized(concat_serialized(concat_serialized(Ok::<Seq<u8>, SerializeError>(Seq::empty()), self.0.spec_serialize()), self.1.spec_serialize()), self.2.spec_serialize()), self.3.spec_serialize()), self.4.spec_serialize()), self.5.spec_serialize()), self.6.spec_serialize())))?;
        let t8 = serialize_next(&self.8, buffer, t7, Ghost(start), Ghost(concat_serialized(concat_serialized(concat_serialized(concat_serialized(concat_serialized(concat_serialized(concat_serialized(concat_serialized(Ok::<Seq<u8>, SerializeError>(Seq::empty()), self.0.spec_serialize()), self.1.spec_serialize()), self.2.spec_serialize()), self.3.spec_serialize()), self.4.spec_serialize()), self.5.spec_serialize()), self.6.spec_serialize()), self.7.spec_serialize())))?;
        let t9 = serialize_next(&self.9, buffer, t8, Ghost(start), Ghost(concat_serialized(concat_serialized(concat_serialized(concat_serialized(concat_serialized(concat_serialized(concat_serialized(concat_serialized(concat_serialized(Ok::<Seq<u8>, SerializeError>(Seq::empty()), self.0.spec_serialize()), self.1.spec_serialize()), self.2.spec_serialize()), self.3.spec_serialize()), self.4.spec_serialize()), self.5.spec_serialize()), self.6.spec_serialize()), self.7.spec_serialize()), self.8.spec_serialize())))?;
        Ok(t9)
    }

    fn size(&self) -> (result: Option<usize>) {
        let s0 = match self.0.size() { Some(s) => s, None => return None };
        let s0 = match 0usize.checked_add(s0) { Some(s) => s, None => return None };
        let s1 = match self.1.size() { Some(s) => s, None => return None };
        let s1 = match s0.checked_add(s1) { Some(s) => s, None => return None };
        let s2 = match self.2.size() { Some(s) => s, None => return None };
        let s2 = match s1.checked_add(s2) { Some(s) => s, None => return None };
        let s3 = match self.3.size() { Some(s) => s, None => return None };
        let s3 = match s2.checked_add(s3) { Some(s) => s, None => return None };
        let s4 = match self.4.size() { Some(s) => s, None => return None };
        let s4 = match s3.checked_add(s4) { Some(s) => s, None => return None };
        let s5 = match self.5.size() { Some(s) => s, None => return None };
        let s5 = match s4.checked_add(s5) { Some(s) => s, None => return None };
        let s6 = match self.6.size() { Some(s) => s, None => return None };
        let s6 = match s5.checked_add(s6) { Some(s) => s, None => return None };
        let s7 = match self.7.size() { Some(s) => s, None => return None };
        let s7 = match s6.checked_add(s7) { Some(s) => s, None => return None };
        let s8 = match self.8.size() { Some(s) => s, None => return None };
        let s8 = match s7.checked_add(s8) { Some(s) => s, None => return None };
        let s9 = match self.9.size() { Some(s) => s, None => return None };
        let s9 = match s8.checked_add(s9) { Some(s) => s, None => return None };
        Some(s9)
    }
}

impl<A: Serialize, B: Serialize, C: Serialize, D: Serialize, E: Serialize, F: Serialize, G: Serialize, H: Serialize, I: Serialize, J: Serialize, K: Serialize> Serialize for (A, B, C, D, E, F, G, H, I, J, K) {
    open spec fn spec_serialize(&self) -> Result<Seq<u8>, SerializeError> {
        concat_serialized(concat_serialized(concat_serialized(concat_serialized(concat_serialized(concat_serialized(concat_serialized(concat_serialized(concat_serialized(concat_serialized(concat_serialized(Ok::<Seq<u8>, SerializeError>(Seq::empty()), self.0.spec_serialize()), self.1.spec_serialize()), self.2.spec_serialize()), self.3.spec_serialize()), self.4.spec_serialize()), self.5.spec_serialize()), self.6.spec_serialize()), self.7.spec_serialize()), self.8.spec_serialize()), self.9.spec_serialize()), self.10.spec_serialize())
    }

    open spec fn spec_size(&self) -> Option<usize> {
        add_sizes(add_sizes(add_sizes(add_sizes(add_sizes(add_sizes(add_sizes(add_sizes(add_sizes(add_sizes(add_sizes(Some(0usize), self.0.spec_size()), self.1.spec_size()), self.2.spec_size()), self.3.spec_size()), self.4.spec_size()), self.5.spec_size()), self.6.spec_size()), self.7.spec_size()), self.8.spec_size()), self.9.spec_size()), self.10.spec_size())
    }

    proof fn lemma_size_agrees(&self) {
        self.0.lemma_size_agrees();
        lemma_concat_agrees(Ok::<Seq<u8>, SerializeError>(Seq::empty()), Some(0usize), self.0.spec_serialize(), self.0.spec_size());
        self.1.lemma_size_agrees();
        lemma_concat_agrees(concat_serialized(Ok::<Seq<u8>, SerializeError>(Seq::empty()), self.0.spec_serialize()), add_sizes(Some(0usize), self.0.spec_size()), self.1.spec_serialize(), self.1.spec_size());
        self.2.lemma_size_agrees();
        lemma_concat_agrees(concat_serialized(concat_serialized(Ok::<Seq<u8>, SerializeError>(Seq::empty()), self.0.spec_serialize()), self.1.spec_serialize()), add_sizes(add_sizes(Some(0usize), self.0.spec_size()), self.1.spec_size()), self.2.spec_serialize(), self.2.spec_size());
        self.3.lemma_size_agrees();
        lemma_concat_agrees(concat_serialized(concat_serialized(concat_serialized(Ok::<Seq<u8>, SerializeError>(Seq::empty()), self.0.spec_serialize()), self.1.spec_serialize()), self.2.spec_serialize()), add_sizes(add_sizes(add_sizes(Some(0usize), self.0.spec_size()), self.1.spec_size()), self.2.spec_size()), self.3.spec_serialize(), self.3.spec_size());
        self.4.lemma_size_agrees();
        lemma_concat_agrees(concat_serialized(concat_serialized(concat_serialized(concat_serialized(Ok::<Seq<u8>, SerializeError>(Seq::empty()), self.0.spec_serialize()), self.1.spec_serialize()), self.2.spec_serialize()), self.3.spec_serialize()), add_sizes(add_sizes(add_sizes(add_sizes(Some(0usize), self.0.spec_size()), self.1.spec_size()), self.2.spec_size()), self.3.spec_size()), self.4.spec_serialize(), self.4.spec_size());
        self.5.lemma_size_agrees();
        lemma_concat_agrees(concat_serialized(concat_serialized(concat_serialized(concat_serialized(concat_serialized(Ok::<Seq<u8>, SerializeError>(Seq::empty()), self.0.spec_serialize()), self.1.spec_serialize()), self.2.spec_serialize()), self.3.spec_serialize()), self.4.spec_serialize()), add_sizes(add_sizes(add_sizes(add_sizes(add_sizes(Some(0usize), self.0.spec_size()), self.1.spec_size()), self.2.spec_size()), self.3.spec_size()), self.4.spec_size()), self.5.spec_serialize(), self.5.spec_size());
        self.6.lemma_size_agrees();
        lemma_concat_agrees(concat_serialized(concat_serialized(concat_serialized(concat_serialized(concat_serialized(concat_serialized(Ok::<Seq<u8>, SerializeError>(Seq::empty()), self.0.spec_serialize()), self.1.spec_serialize()), self.2.spec_serialize()), self.3.spec_serialize()), self.4.spec_serialize()), self.5.spec_serialize()), add_sizes(add_sizes(add_sizes(add_sizes(add_sizes(add_sizes(Some(0usize), self.0.spec_size()), self.1.spec_size()), self.2.spec_size()), self.3.spec_size()), self.4.spec_size()), self.5.spec_size()), self.6.spec_serialize(), self.6.spec_size());
        self.7.lemma_size_agrees();
        lemma_concat_agrees(concat_serialized(concat_serialized(concat_serialized(concat_serialized(concat_serialized(concat_serialized(concat_serialized(Ok::<Seq<u8>, SerializeError>(Seq::empty()), self.0.spec_serialize()), self.1.spec_serialize()), self.2.spec_serialize()), self.3.spec_serialize()), self.4.spec_serialize()), self.5.spec_serialize()), self.6.spec_serialize()), add_sizes(add_sizes(add_sizes(add_sizes(add_sizes(add_sizes(add_sizes(Some(0usize), self.0.spec_size()), self.1.spec_size()), self.2.spec_size()), self.3.spec_size()), self.4.spec_size()), self.5.spec_size()), self.6.spec_size()), self.7.spec_serialize(), self.7.spec_size());
        self.8.lemma_size_agrees();
        lemma_concat_agrees(concat_serialized(concat_serialized(concat_serialized(concat_serialized(concat_serialized(concat_serialized(concat_serialized(concat_serialized(Ok::<Seq<u8>, SerializeError>(Seq::empty()), self.0.spec_serialize()), self.1.spec_serialize()), self.2.spec_serialize()), self.3.spec_serialize()), self.4.spec_serialize()), self.5.spec_serialize()), self.6.spec_serialize()), self.7.spec_serialize()), add_sizes(add_sizes(add_sizes(add_sizes(add_sizes(add_sizes(add_sizes(add_sizes(Some(0usize), self.0.spec_size()), self.1.spec_size()), self.2.spec_size()), self.3.spec_size()), self.4.spec_size()), self.5.spec_size()), self.6.spec_size()), self.7.spec_size()), self.8.spec_serialize(), self.8.spec_size());
        self.9.lemma_size_agrees();
        lemma_concat_agrees(concat_serialized(concat_serialized(concat_serialized(concat_serialized(concat_serialized(concat_serialized(concat_serialized(concat_serialized(concat_serialized(Ok::<Seq<u8>, SerializeError>(Seq::empty()), self.0.spec_serialize()), self.1.spec_serialize()), self.2.spec_serialize()), self.3.spec_serialize()), self.4.spec_serialize()), self.5.spec_serialize()), self.6.spec_serialize()), self.7.spec_serialize()), self.8.spec_serialize()), add_sizes(add_sizes(add_sizes(add_sizes(add_sizes(add_sizes(add_sizes(add_sizes(add_sizes(Some(0usize), self.0.spec_size()), self.1.spec_size()), self.2.spec_size()), self.3.spec_size()), self.4.spec_size()), self.5.spec_size()), self.6.spec_size()), self.7.spec_size()), self.8.spec_size()), self.9.spec_serialize(), self.9.spec_size());
        self.10.lemma_size_agrees();
        lemma_concat_agrees(concat_serialized(concat_serialized(concat_serialized(concat_serialized(concat_serialized(concat_serialized(concat_serialized(concat_serialized(concat_serialized(concat_serialized(Ok::<Seq<u8>, SerializeError>(Seq::empty()), self.0.spec_serialize()), self.1.spec_serialize()), self.2.spec_serialize()), self.3.spec_serialize()), self.4.spec_serialize()), self.5.spec_serialize()), self.6.spec_serialize()), self.7.spec_serialize()), self.8.spec_serialize()), self.9.spec_serialize()), add_sizes(add_sizes(add_sizes(add_sizes(add_sizes(add_sizes(add_sizes(add_sizes(add_sizes(add_sizes(Some(0usize), self.0.spec_size()), self.1.spec_size()), self.2.spec_size()), self.3.spec_size()), self.4.spec_size()), self.5.spec_size()), self.6.spec_size()), self.7.spec_size()), self.8.spec_size()), self.9.spec_size()), self.10.spec_serialize(), self.10.spec_size());
    }

    fn serialize(&self, buffer: &mut Vec<u8>) -> (result: Result<usize, SerializeError>) {
        let ghost start = buffer@;
        let t0 = serialize_next(&self.0, buffer, 0usize, Ghost(start), Ghost(Ok::<Seq<u8>, SerializeError>(Seq::empty())))?;
        let t1 = serialize_next(&self.1, buffer, t0, Ghost(start), Ghost(concat_serialized(Ok::<Seq<u8>, SerializeError>(Seq::empty()), self.0.spec_serialize())))?;
        let t2 = serialize_next(&self.2, buffer, t1, Ghost(start), Ghost(concat_serialized(concat_serialized(Ok::<Seq<u8>, SerializeError>(Seq::empty()), self.0.spec_serialize()), self.1.spec_serialize())))?;
        let t3 = serialize_next(&self.3, buffer, t2, Ghost(start), Ghost(concat_serialized(concat_serialized(concat_serialized(Ok::<Seq<u8>, SerializeError>(Seq::empty()), self.0.spec_serialize()), self.1.spec_serialize()), self.2.spec_serialize())))?;
        let t4 = serialize_next(&self.4, buffer, t3, Ghost(start), Ghost(concat_serialized(concat_serialized(concat_serialized(concat_serialized(Ok::<Seq<u8>, SerializeError>(Seq::empty()), self.0.spec_serialize()), self.1.spec_serialize()), self.2.spec_serialize()), self.3.spec_serialize())))?;
        let t5 = serialize_next(&self.5, buffer, t4, Ghost(start), Ghost(concat_serialized(concat_serialized(concat_serialized(concat_serialized(concat_serialized(Ok::<Seq<u8>, SerializeError>(Seq::empty()), self.0.spec_serialize()), self.1.spec_serialize()), self.2.spec_serialize()), self.3.spec_serialize()), self.4.spec_serialize())))?;
        let t6 = serialize_next(&self.6, buffer, t5, Ghost(start), Ghost(concat_serialized(concat_serialized(concat_serialized(concat_serialized(concat_serialized(concat_serialized(Ok::<Seq<u8>, SerializeError>(Seq::empty()), self.0.spec_serialize()), self.1.spec_serialize()), self.2.spec_serialize()), self.3.spec_serialize()), self.4.spec_serialize()), self.5.spec_serialize())))?;
        let t7 = serialize_next(&self.7, buffer, t6, Ghost(start), Ghost(concat_serialized(concat_serialized(concat_serialized(concat_serialized(concat_serialized(concat_serialized(concat_serialized(Ok::<Seq<u8>, SerializeError>(Seq::empty()), self.0.spec_serialize()), self.1.spec_serialize()), self.2.spec_serialize()), self.3.spec_serialize()), self.4.spec_serialize()), self.5.spec_serialize()), self.6.spec_serialize())))?;
        let t8 = serialize_next(&self.8, buffer, t7, Ghost(start), Ghost(concat_serialized(concat_serialized(concat_serialized(concat_serialized(concat_serialized(concat_serialized(concat_serialized(concat_serialized(Ok::<Seq<u8>, SerializeError>(Seq::empty()), self.0.spec_serialize()), self.1.spec_serialize()), self.2.spec_serialize()), self.3.spec_serialize()), self.4.spec_serialize()), self.5.spec_serialize()), self.6.spec_serialize()), self.7.spec_serialize())))?;
        let t9 = serialize_next(&self.9, buffer, t8, Ghost(start), Ghost(concat_serialized(concat_serialized(concat_serialized(concat_serialized(concat_serialized(concat_serialized(concat_serialized(concat_serialized(concat_serialized(Ok::<Seq<u8>, SerializeError>(Seq::empty()), self.0.spec_serialize()), self.1.spec_serialize()), self.2.spec_serialize()), self.3.spec_serialize()), self.4.spec_serialize()), self.5.spec_serialize()), self.6.spec_serialize()), self.7.spec_serialize()), self.8.spec_serialize())))?;
        let t10 = serialize_next(&self.10, buffer, t9, Ghost(start), Ghost(concat_serialized(concat_serialized(concat_serialized(concat_serialized(concat_serialized(concat_serialized(concat_serialized(concat_serialized(concat_serialized(concat_serialized(Ok::<Seq<u8>, SerializeError>(Seq::empty()), self.0.spec_serialize()), self.1.spec_serialize()), self.2.spec_serialize()), self.3.spec_serialize()), self.4.spec_serialize()), self.5.spec_serialize()), self.6.spec_serialize()), self.7.spec_serialize()), self.8.spec_serialize()), self.9.spec_serialize())))?;
        Ok(t10)
    }

    fn size(&self) -> (result: Option<usize>) {
        let s0 = match self.0.size() { Some(s) => s, None => return None };
        let s0 = match 0usize.checked_add(s0) { Some(s) => s, None => return None };
        let s1 = match self.1.size() { Some(s) => s, None => return None };
        let s1 = match s0.checked_add(s1) { Some(s) => s, None => return None };
        let s2 = match self.2.size() { Some(s) => s, None => return None };
        let s2 = match s1.checked_add(s2) { Some(s) => s, None => return None };
        let s3 = match self.3.size() { Some(s) => s, None => return None };
        let s3 = match s2.checked_add(s3) { Some(s) => s, None => return None };
        let s4 = match self.4.size() { Some(s) => s, None => return None };
        let s4 = match s3.checked_add(s4) { Some(s) => s, None => return None };
        let s5 = match self.5.size() { Some(s) => s, None => return None };
        let s5 = match s4.checked_add(s5) { Some(s) => s, None => return None };
        let s6 = match self.6.size() { Some(s) => s, None => return None };
        let s6 = match s5.checked_add(s6) { Some(s) => s, None => return None };
        let s7 = match self.7.size() { Some(s) => s, None => return None };
        let s7 = match s6.checked_add(s7) { Some(s) => s, None => return None };
        let s8 = match self.8.size() { Some(s) => s, None => return None };
        let s8 = match s7.checked_add(s8) { Some(s) => s, None => return None };
        let s9 = match self.9.size() { Some(s) => s, None => return None };
        let s9 = match s8.checked_add(s9) { Some(s) => s, None => return None };
        let s10 = match self.10.size() { Some(s) => s, None => return None };
        let s10 = match s9.checked_add(s10) { Some(s) => s, None => return None };
        Some(s10)
    }
}

impl<A: Serialize, B: Serialize, C: Serialize, D: Serialize, E: Serialize, F: Serialize, G: Serialize, H: Serialize, I: Serialize, J: Serialize, K: Serialize, L: Serialize> Serialize for (A, B, C, D, E, F, G, H, I, J, K, L) {
    open spec fn spec_serialize(&self) -> Result<Seq<u8>, SerializeError> {
        concat_serialized(concat_serialized(concat_serialized(concat_serialized(concat_serialized(concat_serialized(concat_serialized(concat_serialized(concat_serialized(concat_serialized(concat_serialized(concat_serialized(Ok::<Seq<u8>, SerializeError>(Seq::empty()), self.0.spec_serialize()), self.1.spec_serialize()), self.2.spec_serialize()), self.3.spec_serialize()), self.4.spec_serialize()), self.5.spec_serialize()), self.6.spec_serialize()), self.7.spec_serialize()), self.8.spec_serialize()), self.9.spec_serialize()), self.10.spec_serialize()), self.11.spec_serialize())
    }

    open spec fn spec_size(&self) -> Option<usize> {
        add_sizes(add_sizes(add_sizes(add_sizes(add_sizes(add_sizes(add_sizes(add_sizes(add_sizes(add_sizes(add_sizes(add_sizes(Some(0usize), self.0.spec_size()), self.1.spec_size()), self.2.spec_size()), self.3.spec_size()), self.4.spec_size()), self.5.spec_size()), self.6.spec_size()), self.7.spec_size()), self.8.spec_size()), self.9.spec_size()), self.10.spec_size()), self.11.spec_size())
    }

    proof fn lemma_size_agrees(&self) {
        self.0.lemma_size_agrees();
        lemma_concat_agrees(Ok::<Seq<u8>, SerializeError>(Seq::empty()), Some(0usize), self.0.spec_serialize(), self.0.spec_size());
        self.1.lemma_size_agrees();
        lemma_concat_agrees(concat_serialized(Ok::<Seq<u8>, SerializeError>(Seq::empty()), self.0.spec_serialize()), add_sizes(Some(0usize), self.0.spec_size()), self.1.spec_serialize(), self.1.spec_size());
        self.2.lemma_size_agrees();
        lemma_concat_agrees(concat_serialized(concat_serialized(Ok::<Seq<u8>, SerializeError>(Seq::empty()), self.0.spec_serialize()), self.1.spec_serialize()), add_sizes(add_sizes(Some(0usize), self.0.spec_size()), self.1.spec_size()), self.2.spec_serialize(), self.2.spec_size());
        self.3.lemma_size_agrees();
        lemma_concat_agrees(concat_serialized(concat_serialized(concat_serialized(Ok::<Seq<u8>, SerializeError>(Seq::empty()), self.0.spec_serialize()), self.1.spec_serialize()), self.2.spec_serialize()), add_sizes(add_sizes(add_sizes(Some(0usize), self.0.spec_size()), self.1.spec_size()), self.2.spec_size()), self.3.spec_serialize(), self.3.spec_size());
        self.4.lemma_size_agrees();
        lemma_concat_agrees(concat_serialized(concat_serialized(concat_serialized(concat_serialized(Ok::<Seq<u8>, SerializeError>(Seq::empty()), self.0.spec_serialize()), self.1.spec_serialize()), self.2.spec_serialize()), self.3.spec_serialize()), add_sizes(add_sizes(add_sizes(add_sizes(Some(0usize), self.0.spec_size()), self.1.spec_size()), self.2.spec_size()), self.3.spec_size()), self.4.spec_serialize(), self.4.spec_size());
        self.5.lemma_size_agrees();
        lemma_concat_agrees(concat_serialized(concat_serialized(concat_serialized(concat_serialized(concat_serialized(Ok::<Seq<u8>, SerializeError>(Seq::empty()), self.0.spec_serialize()), self.1.spec_serialize()), self.2.spec_serialize()), self.3.spec_serialize()), self.4.spec_serialize()), add_sizes(add_sizes(add_sizes(add_sizes(add_sizes(Some(0usize), self.0.spec_size()), self.1.spec_size()), self.2.spec_size()), self.3.spec_size()), self.4.spec_size()), self.5.spec_serialize(), self.5.spec_size());
        self.6.lemma_size_agrees();
        lemma_concat_agrees(concat_serialized(concat_serialized(concat_serialized(concat_serialized(concat_serialized(concat_serialized(Ok::<Seq<u8>, SerializeError>(Seq::empty()), self.0.spec_serialize()), self.1.spec_serialize()), self.2.spec_serialize()), self.3.spec_serialize()), self.4.spec_serialize()), self.5.spec_serialize()), add_sizes(add_sizes(add_sizes(add_sizes(add_sizes(add_sizes(Some(0usize), self.0.spec_size()), self.1.spec_size()), self.2.spec_size()), self.3.spec_size()), self.4.spec_size()), self.5.spec_size()), self.6.spec_serialize(), self.6.spec_size());
        self.7.lemma_size_agrees();
        lemma_concat_agrees(concat_serialized(concat_serialized(concat_serialized(concat_serialized(concat_serialized(concat_serialized(concat_serialized(Ok::<Seq<u8>, SerializeError>(Seq::empty()), self.0.spec_serialize()), self.1.spec_serialize()), self.2.spec_serialize()), self.3.spec_serialize()), self.4.spec_serialize()), self.5.spec_serialize()), self.6.spec_serialize()), add_sizes(add_sizes(add_sizes(add_sizes(add_sizes(add_sizes(add_sizes(Some(0usize), self.0.spec_size()), self.1.spec_size()), self.2.spec_size()), self.3.spec_size()), self.4.spec_size()), self.5.spec_size()), self.6.spec_size()), self.7.spec_serialize(), self.7.spec_size());
        self.8.lemma_size_agrees();
        lemma_concat_agrees(concat_serialized(concat_serialized(concat_serialized(concat_serialized(concat_serialized(concat_serialized(concat_serialized(concat_serialized(Ok::<Seq<u8>, SerializeError>(Seq::empty()), self.0.spec_serialize()), self.1.spec_serialize()), self.2.spec_serialize()), self.3.spec_serialize()), self.4.spec_serialize()), self.5.spec_serialize()), self.6.spec_serialize()), self.7.spec_serialize()), add_sizes(add_sizes(add_sizes(add_sizes(add_sizes(add_sizes(add_sizes(add_sizes(Some(0usize), self.0.spec_size()), self.1.spec_size()), self.2.spec_size()), self.3.spec_size()), self.4.spec_size()), self.5.spec_size()), self.6.spec_size()), self.7.spec_size()), self.8.spec_serialize(), self.8.spec_size());
        self.9.lemma_size_agrees();
        lemma_concat_agrees(concat_serialized(concat_serialized(concat_serialized(concat_serialized(concat_serialized(concat_serialized(concat_serialized(concat_serialized(concat_serialized(Ok::<Seq<u8>, SerializeError>(Seq::empty()), self.0.spec_serialize()), self.1.spec_serialize()), self.2.spec_serialize()), self.3.spec_serialize()), self.4.spec_serialize()), self.5.spec_serialize()), self.6.spec_serialize()), self.7.spec_serialize()), self.8.spec_serialize()), add_sizes(add_sizes(add_sizes(add_sizes(add_sizes(add_sizes(add_sizes(add_sizes(add_sizes(Some(0usize), self.0.spec_size()), self.1.spec_size()), self.2.spec_size()), self.3.spec_size()), self.4.spec_size()), self.5.spec_size()), self.6.spec_size()), self.7.spec_size()), self.8.spec_size()), self.9.spec_serialize(), self.9.spec_size());
        self.10.lemma_size_agrees();
        lemma_concat_agrees(concat_serialized(concat_serialized(concat_serialized(concat_serialized(concat_serialized(concat_serialized(concat_serialized(concat_serialized(concat_serialized(concat_serialized(Ok::<Seq<u8>, SerializeError>(Seq::empty()), self.0.spec_serialize()), self.1.spec_serialize()), self.2.spec_serialize()), self.3.spec_serialize()), self.4.spec_serialize()), self.5.spec_serialize()), self.6.spec_serialize()), self.7.spec_serialize()), self.8.spec_serialize()), self.9.spec_serialize()), add_sizes(add_sizes(add_sizes(add_sizes(add_sizes(add_sizes(add_sizes(add_sizes(add_sizes(add_sizes(Some(0usize), self.0.spec_size()), self.1.spec_size()), self.2.spec_size()), self.3.spec_size()), self.4.spec_size()), self.5.spec_size()), self.6.spec_size()), self.7.spec_size()), self.8.spec_size()), self.9.spec_size()), self.10.spec_serialize(), self.10.spec_size());
        self.11.lemma_size_agrees();
        lemma_concat_agrees(concat_serialized(concat_serialized(concat_serialized(concat_serialized(concat_serialized(concat_serialized(concat_serialized(concat_serialized(concat_serialized(concat_serialized(concat_serialized(Ok::<Seq<u8>, SerializeError>(Seq::empty()), self.0.spec_serialize()), self.1.spec_serialize()), self.2.spec_serialize()), self.3.spec_serialize()), self.4.spec_serialize()), self.5.spec_serialize()), self.6.spec_serialize()), self.7.spec_serialize()), self.8.spec_serialize()), self.9.spec_serialize()), self.10.spec_serialize()), add_sizes(add_sizes(add_sizes(add_sizes(add_sizes(add_sizes(add_sizes(add_sizes(add_sizes(add_sizes(add_sizes(Some(0usize), self.0.spec_size()), self.1.spec_size()), self.2.spec_size()), self.3.spec_size()), self.4.spec_size()), self.5.spec_size()), self.6.spec_size()), self.7.spec_size()), self.8.spec_size()), self.9.spec_size()), self.10.spec_size()), self.11.spec_serialize(), self.11.spec_size());
    }

    fn serialize(&self, buffer: &mut Vec<u8>) -> (result: Result<usize, SerializeError>) {
        let ghost start = buffer@;
        let t0 = serialize_next(&self.0, buffer, 0usize, Ghost(start), Ghost(Ok::<Seq<u8>, SerializeError>(Seq::empty())))?;
        let t1 = serialize_next(&self.1, buffer, t0, Ghost(start), Ghost(concat_serialized(Ok::<Seq<u8>, SerializeError>(Seq::empty()), self.0.spec_serialize())))?;
        let t2 = serialize_next(&self.2, buffer, t1, Ghost(start), Ghost(concat_serialized(concat_serialized(Ok::<Seq<u8>, SerializeError>(Seq::empty()), self.0.spec_serialize()), self.1.spec_serialize())))?;
        let t3 = serialize_next(&self.3, buffer, t2, Ghost(start), Ghost(concat_serialized(concat_serialized(concat_serialized(Ok::<Seq<u8>, SerializeError>(Seq::empty()), self.0.spec_serialize()), self.1.spec_serialize()), self.2.spec_serialize())))?;
        let t4 = serialize_next(&self.4, buffer, t3, Ghost(start), Ghost(concat_serialized(concat_serialized(concat_serialized(concat_serialized(Ok::<Seq<u8>, SerializeError>(Seq::empty()), self.0.spec_serialize()), self.1.spec_serialize()), self.2.spec_serialize()), self.3.spec_serialize())))?;
        let t5 = serialize_next(&self.5, buffer, t4, Ghost(start), Ghost(concat_serialized(concat_serialized(concat_serialized(concat_serialized(concat_serialized(Ok::<Seq<u8>, SerializeError>(Seq::empty()), self.0.spec_serialize()), self.1.spec_serialize()), self.2.spec_serialize()), self.3.spec_serialize()), self.4.spec_serialize())))?;
        let t6 = serialize_next(&self.6, buffer, t5, Ghost(start), Ghost(concat_serialized(concat_serialized(concat_serialized(concat_serialized(concat_serialized(concat_serialized(Ok::<Seq<u8>, SerializeError>(Seq::empty()), self.0.spec_serialize()), self.1.spec_serialize()), self.2.spec_serialize()), self.3.spec_serialize()), self.4.spec_serialize()), self.5.spec_serialize())))?;
        let t7 = serialize_next(&self.7, buffer, t6, Ghost(start), Ghost(concat_serialized(concat_serialized(concat_serialized(concat_serialized(concat_serialized(concat_serialized(concat_serialized(Ok::<Seq<u8>, SerializeError>(Seq::empty()), self.0.spec_serialize()), self.1.spec_serialize()), self.2.spec_serialize()), self.3.spec_serialize()), self.4.spec_serialize()), self.5.spec_serialize()), self.6.spec_serialize())))?;
        let t8 = serialize_next(&self.8, buffer, t7, Ghost(start), Ghost(concat_serialized(concat_serialized(concat_serialized(concat_serialized(concat_serialized(concat_serialized(concat_serialized(concat_serialized(Ok::<Seq<u8>, SerializeError>(Seq::empty()), self.0.spec_serialize()), self.1.spec_serialize()), self.2.spec_serialize()), self.3.spec_serialize()), self.4.spec_serialize()), self.5.spec_serialize()), self.6.spec_serialize()), self.7.spec_serialize())))?;
        let t9 = serialize_next(&self.9, buffer, t8, Ghost(start), Ghost(concat_serialized(concat_serialized(concat_serialized(concat_serialized(concat_serialized(concat_serialized(concat_serialized(concat_serialized(concat_serialized(Ok::<Seq<u8>, SerializeError>(Seq::empty()), self.0.spec_serialize()), self.1.spec_serialize()), self.2.spec_serialize()), self.3.spec_serialize()), self.4.spec_serialize()), self.5.spec_serialize()), self.6.spec_serialize()), self.7.spec_serialize()), self.8.spec_serialize())))?;
        let t10 = serialize_next(&self.10, buffer, t9, Ghost(start), Ghost(concat_serialized(concat_serialized(concat_serialized(concat_serialized(concat_serialized(concat_serialized(concat_serialized(concat_serialized(concat_serialized(concat_serialized(Ok::<Seq<u8>, SerializeError>(Seq::empty()), self.0.spec_serialize()), self.1.spec_serialize()), self.2.spec_serialize()), self.3.spec_serialize()), self.4.spec_serialize()), self.5.spec_serialize()), self.6.spec_serialize()), self.7.spec_serialize()), self.8.spec_serialize()), self.9.spec_serialize())))?;
        let t11 = serialize_next(&self.11, buffer, t10, Ghost(start), Ghost(concat_serialized(concat_serialized(concat_serialized(concat_serialized(concat_serialized(concat_serialized(concat_serialized(concat_serialized(concat_serialized(concat_serialized(concat_serialized(Ok::<Seq<u8>, SerializeError>(Seq::empty()), self.0.spec_serialize()), self.1.spec_serialize()), self.2.spec_serialize()), self.3.spec_serialize()), self.4.spec_serialize()), self.5.spec_serialize()), self.6.spec_serialize()), self.7.spec_serialize()), self.8.spec_serialize()), self.9.spec_serialize()), self.10.spec_serialize())))?;
        Ok(t11)
    }

    fn size(&self) -> (result: Option<usize>) {
        let s0 = match self.0.size() { Some(s) => s, None => return None };
        let s0 = match 0usize.checked_add(s0) { Some(s) => s, None => return None };
        let s1 = match self.1.size() { Some(s) => s, None => return None };
        let s1 = match s0.checked_add(s1) { Some(s) => s, None => return None };
        let s2 = match self.2.size() { Some(s) => s, None => return None };
        let s2 = match s1.checked_add(s2) { Some(s) => s, None => return None };
        let s3 = match self.3.size() { Some(s) => s, None => return None };
        let s3 = match s2.checked_add(s3) { Some(s) => s, None => return None };
        let s4 = match self.4.size() { Some(s) => s, None => return None };
        let s4 = match s3.checked_add(s4) { Some(s) => s, None => return None };
        let s5 = match self.5.size() { Some(s) => s, None => return None };
        let s5 = match s4.checked_add(s5) { Some(s) => s, None => return None };
        let s6 = match self.6.size() { Some(s) => s, None => return None };
        let s6 = match s5.checked_add(s6) { Some(s) => s, None => return None };
        let s7 = match self.7.size() { Some(s) => s, None => return None };
        let s7 = match s6.checked_add(s7) { Some(s) => s, None => return None };
        let s8 = match self.8.size() { Some(s) => s, None => return None };
        let s8 = match s7.checked_add(s8) { Some(s) => s, None => return None };
        let s9 = match self.9.size() { Some(s) => s, None => return None };
        let s9 = match s8.checked_add(s9) { Some(s) => s, None => return None };
        let s10 = match self.10.size() { Some(s) => s, None => return None };
        let s10 = match s9.checked_add(s10) { Some(s) => s, None => return None };
        let s11 = match self.11.size() { Some(s) => s, None => return None };
        let s11 = match s10.checked_add(s11) { Some(s) => s, None => return None };
        Some(s11)
    }
}
/// Wrapper for serializing a value with a pair of functions.
///
/// The functions take the place of [`Serialize::serialize`] and [`Serialize::size`]: one writes
/// the value into a buffer and returns how many bytes it wrote, the other announces that number.
pub struct SerializeWithFn<'value, Value, SerializeFn, SizeFn> {
    /// Value to serialize.
    value: &'value Value,
    /// Serialization function. Equivalent to [`Serialize::serialize`].
    serialize: SerializeFn,
    /// Size function. Equivalent to [`Serialize::size`].
    size: SizeFn,
}

impl<'value, Value, SerializeFn, SizeFn> SerializeWithFn<'value, Value, SerializeFn, SizeFn> where
    SerializeFn: Fn(&Value, &mut Vec<u8>) -> Result<usize, SerializeError>,
    SizeFn: Fn(&Value) -> Option<usize>,
 {
    /// The value to serialize.
    pub closed spec fn value(&self) -> &'value Value {
        self.value
    }

    /// The function that writes the value.
    pub closed spec fn serialize_fn(&self) -> SerializeFn {
        self.serialize
    }

    /// The function that announces the size of the value.
    pub closed spec fn size_fn(&self) -> SizeFn {
        self.size
    }

    /// Creates a new [`SerializeWithFn`].
    #[must_use]
    pub fn new(value: &'value Value, serialize: SerializeFn, size: SizeFn) -> (wrapper: Self)
        ensures
            wrapper.value() == value,
            wrapper.serialize_fn() == serialize,
            wrapper.size_fn() == size,
    {
        Self { value, serialize, size }
    }

    /// Serializes the value into the given `buffer` with the serialization function, and returns
    /// what it returns.
    ///
    /// # Errors
    ///
    /// Returns the error of the serialization function.
    pub fn serialize(&self, buffer: &mut Vec<u8>) -> (result: Result<usize, SerializeError>)
        requires
            forall|b: &mut Vec<u8>| self.serialize_fn().requires((self.value(), b)),
        ensures
            exists|b: &mut Vec<u8>|
                #[trigger] self.serialize_fn().ensures((self.value(), b), result) && *b == *old(
                    buffer,
                ) && *final(b) == *final(buffer),
    {
        assert(self.serialize_fn().requires((self.value(), buffer)));
        (self.serialize)(self.value, buffer)
    }

    /// Returns the size of the value, as the size function announces it.
    pub fn size(&self) -> (result: Option<usize>)
        requires
            self.size_fn().requires((self.value(),)),
        ensures
            self.size_fn().ensures((self.value(),), result),
    {
        (self.size)(self.value)
    }

    /// Returns the value serialized into a new buffer.
    ///
    /// # Errors
    ///
    /// Returns [`SerializeError::SizeOverflow`] if the size function gives no size, or the error
    /// of the serialization function.
    pub fn to_bytes(&self) -> (result: Result<Vec<u8>, SerializeError>)
        requires
            self.size_fn().requires((self.value(),)),
            forall|b: &mut Vec<u8>| self.serialize_fn().requires((self.value(), b)),
        ensures
            exists|announced: Option<usize>|
                #[trigger] self.size_fn().ensures((self.value(),), announced) && match announced {
                    None => result == Err::<Vec<u8>, SerializeError>(SerializeError::SizeOverflow),
                    Some(_) => exists|b: &mut Vec<u8>, written: Result<usize, SerializeError>|
                        #[trigger] self.serialize_fn().ensures((self.value(), b), written) && b@
                            == Seq::<u8>::empty() && match written {
                            Ok(_) => result matches Ok(v) && v@ == final(b)@,
                            Err(e) => result == Err::<Vec<u8>, SerializeError>(e),
                        },
                },
    {
        match self.size() {
            None => Err(SerializeError::SizeOverflow),
            Some(size) => {
                let mut buffer: Vec<u8> = Vec::with_capacity(size);
                match self.serialize(&mut buffer) {
                    Ok(_) => Ok(buffer),
                    Err(e) => Err(e),
                }
            },
        }
    }
}
} // verus!
