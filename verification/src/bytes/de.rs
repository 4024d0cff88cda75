//! Deserialization according to the SOME/IP protocol.
//!
//! Provides the [`Deserialize`] trait and its implementations for the basic types, tuples, arrays
//! and byte buffers.

use super::ser::add_sizes;
use super::wire::{Reader, u16_from_be, u32_from_be, u64_from_be};
use vstd::prelude::*;

verus! {

/// Error when deserializing data.
#[derive(Debug, Clone, PartialEq, Eq, Hash)]
#[non_exhaustive]
pub enum DeserializeError {
    /// There is insufficient data in the buffer to deserialize the complete type.
    InsufficientData,
    /// An invariant of the deserialized type wasn't upheld.
    InvariantFailed(&'static str),
    /// Value of the length field exceeds [`usize::MAX`].
    LengthOverflow,
}

impl DeserializeError {
    /// Creates a new [`DeserializeError::InvariantFailed`] with the given `message`.
    pub fn invariant_failed(message: &'static str) -> (e: Self)
        ensures
            e == DeserializeError::InvariantFailed(message),
    {
        DeserializeError::InvariantFailed(message)
    }
}

/// Whether `after` is what is left of `before` once some of its first bytes were read.
pub open spec fn is_rest_of(after: Seq<u8>, before: Seq<u8>) -> bool {
    &&& after.len() <= before.len()
    &&& forall|i: int| 0 <= i < after.len() ==> after[i] == before[i + before.len() - after.len()]
}

/// Reading is transitive.
pub proof fn lemma_rest_of_trans(a: Seq<u8>, b: Seq<u8>, c: Seq<u8>)
    requires
        is_rest_of(b, a),
        is_rest_of(c, b),
    ensures
        is_rest_of(c, a),
{
}

/// Skipping `n` then `m` bytes is skipping `n + m` bytes.
pub proof fn lemma_skip_skip(s: Seq<u8>, n: int, m: int)
    requires
        0 <= n <= s.len(),
        0 <= m <= s.len() - n,
    ensures
        s.skip(n).skip(m) == s.skip(n + m),
{
    assert(s.skip(n).skip(m) =~= s.skip(n + m));
}

/// How a reader before and after a deserialization, and the result returned, relate to the value
/// (or the error) that the leading bytes stand for.
///
/// On success the value is returned and the bytes it took were consumed; on failure the error is
/// returned and some of the leading bytes may have been consumed.
pub open spec fn deserialized<T: DeepView>(
    expected: Result<(T::V, nat), DeserializeError>,
    before: Seq<u8>,
    after: Seq<u8>,
    result: Result<T, DeserializeError>,
) -> bool {
    match expected {
        Ok((v, n)) => {
            &&& n <= before.len()
            &&& after == before.skip(n as int)
            &&& result matches Ok(x) && x.deep_view() == v
        },
        Err(e) => {
            &&& result == Err::<T, DeserializeError>(e)
            &&& is_rest_of(after, before)
        },
    }
}

/// Deserialize data from a SOME/IP byte stream.
pub trait Deserialize {
    /// Type of the deserialized data.
    type Output: DeepView;

    /// The value that the leading bytes of `input` stand for and their number, or the error that
    /// deserialization reports.
    spec fn spec_deserialize(input: Seq<u8>) -> Result<
        (<Self::Output as DeepView>::V, nat),
        DeserializeError,
    >;

    /// The value that [`Deserialize::size_hint`] returns.
    spec fn spec_size_hint() -> Option<usize>;

    /// Deserializes an instance of [`Deserialize::Output`] from the buffer.
    ///
    /// # Errors
    ///
    /// Returns a [`DeserializeError`] if the deserialization fails.
    fn deserialize(buffer: &mut Reader) -> (result: Result<Self::Output, DeserializeError>)
        ensures
            deserialized(Self::spec_deserialize(old(buffer)@), old(buffer)@, final(buffer)@, result),
    ;

    /// Returns the minimum size of a correctly serialized [`Deserialize::Output`].
    ///
    /// Returns [`None`] if the size is larger than [`usize::MAX`].
    fn size_hint() -> (result: Option<usize>)
        ensures
            result == Self::spec_size_hint(),
    ;
}

/// Reads one more value after `consumed` bytes of `start` were read.
fn deserialize_next<T: Deserialize>(
    buffer: &mut Reader,
    Ghost(start): Ghost<Seq<u8>>,
    Ghost(consumed): Ghost<nat>,
) -> (result: Result<T::Output, DeserializeError>)
    requires
        consumed <= start.len(),
        old(buffer)@ == start.skip(consumed as int),
    ensures
        match T::spec_deserialize(start.skip(consumed as int)) {
            Ok((v, n)) => {
                &&& consumed + n <= start.len()
                &&& final(buffer)@ == start.skip((consumed + n) as int)
                &&& result matches Ok(x) && x.deep_view() == v
            },
            Err(e) => {
                &&& result == Err::<T::Output, DeserializeError>(e)
                &&& is_rest_of(final(buffer)@, start)
            },
        },
{
    let r = T::deserialize(buffer);
    proof {
        match T::spec_deserialize(start.skip(consumed as int)) {
            Ok((v, n)) => {
                lemma_skip_skip(start, consumed as int, n as int);
            },
            Err(e) => {
                lemma_rest_of_trans(start, start.skip(consumed as int), buffer@);
            },
        }
    }
    r
}

/// Reads a fixed number of bytes, or fails with [`DeserializeError::InsufficientData`].
pub open spec fn fixed<V>(input: Seq<u8>, n: nat, v: V) -> Result<(V, nat), DeserializeError> {
    if input.len() >= n {
        Ok((v, n))
    } else {
        Err(DeserializeError::InsufficientData)
    }
}

impl Deserialize for u8 {
    type Output = u8;

    open spec fn spec_deserialize(input: Seq<u8>) -> Result<(u8, nat), DeserializeError> {
        fixed(input, 1, input[0])
    }

    open spec fn spec_size_hint() -> Option<usize> {
        Some(1)
    }

    fn deserialize(buffer: &mut Reader) -> (result: Result<u8, DeserializeError>) {
        buffer.try_get_u8()
    }

    fn size_hint() -> (result: Option<usize>) {
        Some(1)
    }
}

impl Deserialize for i8 {
    type Output = i8;

    open spec fn spec_deserialize(input: Seq<u8>) -> Result<(i8, nat), DeserializeError> {
        fixed(input, 1, input[0] as i8)
    }

    open spec fn spec_size_hint() -> Option<usize> {
        Some(1)
    }

    fn deserialize(buffer: &mut Reader) -> (result: Result<i8, DeserializeError>) {
        match buffer.try_get_u8() {
            Ok(v) => Ok(v as i8),
            Err(e) => Err(e),
        }
    }

    fn size_hint() -> (result: Option<usize>) {
        Some(1)
    }
}

impl Deserialize for u16 {
    type Output = u16;

    open spec fn spec_deserialize(input: Seq<u8>) -> Result<(u16, nat), DeserializeError> {
        fixed(input, 2, u16_from_be(input))
    }

    open spec fn spec_size_hint() -> Option<usize> {
        Some(2)
    }

    fn deserialize(buffer: &mut Reader) -> (result: Result<u16, DeserializeError>) {
        buffer.try_get_u16()
    }

    fn size_hint() -> (result: Option<usize>) {
        Some(2)
    }
}

impl Deserialize for i16 {
    type Output = i16;

    open spec fn spec_deserialize(input: Seq<u8>) -> Result<(i16, nat), DeserializeError> {
        fixed(input, 2, u16_from_be(input) as i16)
    }

    open spec fn spec_size_hint() -> Option<usize> {
        Some(2)
    }

    fn deserialize(buffer: &mut Reader) -> (result: Result<i16, DeserializeError>) {
        match buffer.try_get_u16() {
            Ok(v) => Ok(v as i16),
            Err(e) => Err(e),
        }
    }

    fn size_hint() -> (result: Option<usize>) {
        Some(2)
    }
}

impl Deserialize for u32 {
    type Output = u32;

    open spec fn spec_deserialize(input: Seq<u8>) -> Result<(u32, nat), DeserializeError> {
        fixed(input, 4, u32_from_be(input))
    }

    open spec fn spec_size_hint() -> Option<usize> {
        Some(4)
    }

    fn deserialize(buffer: &mut Reader) -> (result: Result<u32, DeserializeError>) {
        buffer.try_get_u32()
    }

    fn size_hint() -> (result: Option<usize>) {
        Some(4)
    }
}

impl Deserialize for i32 {
    type Output = i32;

    open spec fn spec_deserialize(input: Seq<u8>) -> Result<(i32, nat), DeserializeError> {
        fixed(input, 4, u32_from_be(input) as i32)
    }

    open spec fn spec_size_hint() -> Option<usize> {
        Some(4)
    }

    fn deserialize(buffer: &mut Reader) -> (result: Result<i32, DeserializeError>) {
        match buffer.try_get_u32() {
            Ok(v) => Ok(v as i32),
            Err(e) => Err(e),
        }
    }

    fn size_hint() -> (result: Option<usize>) {
        Some(4)
    }
}

impl Deserialize for u64 {
    type Output = u64;

    open spec fn spec_deserialize(input: Seq<u8>) -> Result<(u64, nat), DeserializeError> {
        fixed(input, 8, u64_from_be(input))
    }

    open spec fn spec_size_hint() -> Option<usize> {
        Some(8)
    }

    fn deserialize(buffer: &mut Reader) -> (result: Result<u64, DeserializeError>) {
        buffer.try_get_u64()
    }

    fn size_hint() -> (result: Option<usize>) {
        Some(8)
    }
}

impl Deserialize for i64 {
    type Output = i64;

    open spec fn spec_deserialize(input: Seq<u8>) -> Result<(i64, nat), DeserializeError> {
        fixed(input, 8, u64_from_be(input) as i64)
    }

    open spec fn spec_size_hint() -> Option<usize> {
        Some(8)
    }

    fn deserialize(buffer: &mut Reader) -> (result: Result<i64, DeserializeError>) {
        match buffer.try_get_u64() {
            Ok(v) => Ok(v as i64),
            Err(e) => Err(e),
        }
    }

    fn size_hint() -> (result: Option<usize>) {
        Some(8)
    }
}

/// Only the lowest bit of the byte is checked.
impl Deserialize for bool {
    type Output = bool;

    open spec fn spec_deserialize(input: Seq<u8>) -> Result<(bool, nat), DeserializeError> {
        fixed(input, 1, (input[0] & 1u8) == 1u8)
    }

    open spec fn spec_size_hint() -> Option<usize> {
        Some(1)
    }

    fn deserialize(buffer: &mut Reader) -> (result: Result<bool, DeserializeError>) {
        match buffer.try_get_u8() {
            Ok(v) => Ok((v & 1u8) == 1u8),
            Err(e) => Err(e),
        }
    }

    fn size_hint() -> (result: Option<usize>) {
        Some(1)
    }
}

/// A byte buffer takes all the remaining bytes.
impl Deserialize for Vec<u8> {
    type Output = Vec<u8>;

    open spec fn spec_deserialize(input: Seq<u8>) -> Result<(Seq<u8>, nat), DeserializeError> {
        Ok((input, input.len()))
    }

    open spec fn spec_size_hint() -> Option<usize> {
        Some(0)
    }

    fn deserialize(buffer: &mut Reader) -> (result: Result<Vec<u8>, DeserializeError>) {
        let n = buffer.remaining();
        let bytes = buffer.copy_to_vec(n);
        assert(buffer@ =~= old(buffer)@.skip(n as int));
        assert(bytes.deep_view() =~= old(buffer)@);
        Ok(bytes)
    }

    fn size_hint() -> (result: Option<usize>) {
        Some(0)
    }
}

impl<T: Deserialize<Output = T> + DeepView> Deserialize for Box<T> {
    type Output = Box<T>;

    open spec fn spec_deserialize(input: Seq<u8>) -> Result<(T::V, nat), DeserializeError> {
        T::spec_deserialize(input)
    }

    open spec fn spec_size_hint() -> Option<usize> {
        T::spec_size_hint()
    }

    fn deserialize(buffer: &mut Reader) -> (result: Result<Box<T>, DeserializeError>) {
        match T::deserialize(buffer) {
            Ok(v) => Ok(Box::new(v)),
            Err(e) => Err(e),
        }
    }

    fn size_hint() -> (result: Option<usize>) {
        T::size_hint()
    }
}

/// The values that `count` items read one after the other from `input` stand for, with the number
/// of bytes read.
pub open spec fn read_count<T: Deserialize>(input: Seq<u8>, count: nat) -> Result<
    (Seq<<T::Output as DeepView>::V>, nat),
    DeserializeError,
>
    decreases count,
{
    if count == 0 {
        Ok((Seq::empty(), 0))
    } else {
        match read_count::<T>(input, (count - 1) as nat) {
            Err(e) => Err(e),
            Ok((vs, n)) => match T::spec_deserialize(input.skip(n as int)) {
                Err(e) => Err(e),
                Ok((v, m)) => Ok((vs.push(v), n + m)),
            },
        }
    }
}

/// Statically sized arrays read each element in order.
impl<T: Deserialize<Output = T> + DeepView + Copy + Default, const N: usize> Deserialize for [T; N] {
    type Output = Self;

    open spec fn spec_deserialize(input: Seq<u8>) -> Result<(Seq<T::V>, nat), DeserializeError> {
        read_count::<T>(input, N as nat)
    }

    open spec fn spec_size_hint() -> Option<usize> {
        match T::spec_size_hint() {
            None => None,
            Some(size) => if size * N > usize::MAX {
                None
            } else {
                Some((size * N) as usize)
            },
        }
    }

    fn deserialize(buffer: &mut Reader) -> (result: Result<Self, DeserializeError>) {
        let ghost start = buffer@;
        let mut array = [T::default(); N];
        let mut i: usize = 0;
        let ghost mut consumed: nat = 0;
        assert(start.skip(0) =~= start);
        while i < N
            invariant
                i <= N,
                start == old(buffer)@,
                read_count::<T>(start, i as nat) matches Ok((vs, n)) && n == consumed && vs
                    =~= array.deep_view().take(i as int),
                consumed <= start.len(),
                buffer@ == start.skip(consumed as int),
            decreases N - i,
        {
            let item = match deserialize_next::<T>(buffer, Ghost(start), Ghost(consumed)) {
                Ok(item) => item,
                Err(e) => {
                    proof {
                        lemma_read_count_err::<T>(start, (i + 1) as nat, N as nat);
                    }
                    return Err(e);
                },
            };
            let ghost prefix = array.deep_view().take(i as int);
            array[i] = item;
            proof {
                consumed = consumed + T::spec_deserialize(start.skip(consumed as int)).unwrap().1;
                assert(array.deep_view().take(i + 1) =~= prefix.push(item.deep_view())) by {
                    assert forall|j: int| 0 <= j < i implies #[trigger] array.deep_view()[j]
                        == prefix[j] by {}
                }
            }
            i = i + 1;
        }
        assert(array.deep_view().take(N as int) =~= array.deep_view());
        Ok(array)
    }

    fn size_hint() -> (result: Option<usize>) {
        match T::size_hint() {
            Some(size) => size.checked_mul(N),
            None => None,
        }
    }
}

/// Once a prefix of the items fails to read, more items fail with the same error.
proof fn lemma_read_count_err<T: Deserialize>(input: Seq<u8>, k: nat, count: nat)
    requires
        k <= count,
        read_count::<T>(input, k) is Err,
    ensures
        read_count::<T>(input, count) == read_count::<T>(input, k),
    decreases count - k,
{
    if k < count {
        lemma_read_count_err::<T>(input, k, (count - 1) as nat);
    }
}

impl<A: Deserialize<Output = A> + DeepView> Deserialize for (A,) {
    type Output = Self;

    open spec fn spec_deserialize(input: Seq<u8>) -> Result<(<Self as DeepView>::V, nat), DeserializeError> {
        match A::spec_deserialize(input) {
            Err(e) => Err(e),
            Ok((v0, n0)) => Ok(((v0,), n0)),
        }
    }

    open spec fn spec_size_hint() -> Option<usize> {
        add_sizes(Some(0usize), A::spec_size_hint())
    }

    fn deserialize(buffer: &mut Reader) -> (result: Result<Self::Output, DeserializeError>) {
        let ghost start = buffer@;
        assert(start.skip(0) =~= start);
        let x0 = deserialize_next::<A>(buffer, Ghost(start), Ghost(0nat))?;
        Ok((x0,))
    }

    fn size_hint() -> (result: Option<usize>) {
        let h0 = match A::size_hint() { Some(h) => h, None => return None };
        let h0 = match 0usize.checked_add(h0) { Some(h) => h, None => return None };
        Some(h0)
    }
}

impl<A: Deserialize<Output = A> + DeepView, B: Deserialize<Output = B> + DeepView> Deserialize for (A, B) {
    type Output = Self;

    open spec fn spec_deserialize(input: Seq<u8>) -> Result<(<Self as DeepView>::V, nat), DeserializeError> {
        match A::spec_deserialize(input) {
            Err(e) => Err(e),
            Ok((v0, n0)) => match B::spec_deserialize(input.skip((n0) as int)) {
            Err(e) => Err(e),
            Ok((v1, n1)) => Ok(((v0, v1), n0 + n1)),
        },
        }
    }

    open spec fn spec_size_hint() -> Option<usize> {
        add_sizes(add_sizes(Some(0usize), A::spec_size_hint()), B::spec_size_hint())
    }

    fn deserialize(buffer: &mut Reader) -> (result: Result<Self::Output, DeserializeError>) {
        let ghost start = buffer@;
        assert(start.skip(0) =~= start);
        let x0 = deserialize_next::<A>(buffer, Ghost(start), Ghost(0nat))?;
        let x1 = deserialize_next::<B>(buffer, Ghost(start), Ghost(A::spec_deserialize(start.skip((0nat) as int)).unwrap().1))?;
        Ok((x0, x1))
    }

    fn size_hint() -> (result: Option<usize>) {
        let h0 = match A::size_hint() { Some(h) => h, None => return None };
        let h0 = match 0usize.checked_add(h0) { Some(h) => h, None => return None };
        let h1 = match B::size_hint() { Some(h) => h, None => return None };
        let h1 = match h0.checked_add(h1) { Some(h) => h, None => return None };
        Some(h1)
    }
}

impl<A: Deserialize<Output = A> + DeepView, B: Deserialize<Output = B> + DeepView, C: Deserialize<Output = C> + DeepView> Deserialize for (A, B, C) {
    type Output = Self;

    open spec fn spec_deserialize(input: Seq<u8>) -> Result<(<Self as DeepView>::V, nat), DeserializeError> {
        match A::spec_deserialize(input) {
            Err(e) => Err(e),
            Ok((v0, n0)) => match B::spec_deserialize(input.skip((n0) as int)) {
            Err(e) => Err(e),
            Ok((v1, n1)) => match C::spec_deserialize(input.skip((n0 + n1) as int)) {
            Err(e) => Err(e),
            Ok((v2, n2)) => Ok(((v0, v1, v2), n0 + n1 + n2)),
        },
        },
        }
    }

    open spec fn spec_size_hint() -> Option<usize> {
        add_sizes(add_sizes(add_sizes(Some(0usize), A::spec_size_hint()), B::spec_size_hint()), C::spec_size_hint())
    }

    fn deserialize(buffer: &mut Reader) -> (result: Result<Self::Output, DeserializeError>) {
        let ghost start = buffer@;
        assert(start.skip(0) =~= start);
        let x0 = deserialize_next::<A>(buffer, Ghost(start), Ghost(0nat))?;
        let x1 = deserialize_next::<B>(buffer, Ghost(start), Ghost(A::spec_deserialize(start.skip((0nat) as int)).unwrap().1))?;
        let x2 = deserialize_next::<C>(buffer, Ghost(start), Ghost(A::spec_deserialize(start.skip((0nat) as int)).unwrap().1 + B::spec_deserialize(start.skip((A::spec_deserialize(start.skip((0nat) as int)).unwrap().1) as int)).unwrap().1))?;
        Ok((x0, x1, x2))
    }

    fn size_hint() -> (result: Option<usize>) {
        let h0 = match A::size_hint() { Some(h) => h, None => return None };
        let h0 = match 0usize.checked_add(h0) { Some(h) => h, None => return None };
        let h1 = match B::size_hint() { Some(h) => h, None => return None };
        let h1 = match h0.checked_add(h1) { Some(h) => h, None => return None };
        let h2 = match C::size_hint() { Some(h) => h, None => return None };
        let h2 = match h1.checked_add(h2) { Some(h) => h, None => return None };
        Some(h2)
    }
}

impl<A: Deserialize<Output = A> + DeepView, B: Deserialize<Output = B> + DeepView, C: Deserialize<Output = C> + DeepView, D: Deserialize<Output = D> + DeepView> Deserialize for (A, B, C, D) {
    type Output = Self;

    open spec fn spec_deserialize(input: Seq<u8>) -> Result<(<Self as DeepView>::V, nat), DeserializeError> {
        match A::spec_deserialize(input) {
            Err(e) => Err(e),
            Ok((v0, n0)) => match B::spec_deserialize(input.skip((n0) as int)) {
            Err(e) => Err(e),
            Ok((v1, n1)) => match C::spec_deserialize(input.skip((n0 + n1) as int)) {
            Err(e) => Err(e),
            Ok((v2, n2)) => match D::spec_deserialize(input.skip((n0 + n1 + n2) as int)) {
            Err(e) => Err(e),
            Ok((v3, n3)) => Ok(((v0, v1, v2, v3), n0 + n1 + n2 + n3)),
        },
        },
        },
        }
    }

    open spec fn spec_size_hint() -> Option<usize> {
        add_sizes(add_sizes(add_sizes(add_sizes(Some(0usize), A::spec_size_hint()), B::spec_size_hint()), C::spec_size_hint()), D::spec_size_hint())
    }

    fn deserialize(buffer: &mut Reader) -> (result: Result<Self::Output, DeserializeError>) {
        let ghost start = buffer@;
        assert(start.skip(0) =~= start);
        let x0 = deserialize_next::<A>(buffer, Ghost(start), Ghost(0nat))?;
        let x1 = deserialize_next::<B>(buffer, Ghost(start), Ghost(A::spec_deserialize(start.skip((0nat) as int)).unwrap().1))?;
        let x2 = deserialize_next::<C>(buffer, Ghost(start), Ghost(A::spec_deserialize(start.skip((0nat) as int)).unwrap().1 + B::spec_deserialize(start.skip((A::spec_deserialize(start.skip((0nat) as int)).unwrap().1) as int)).unwrap().1))?;
        let x3 = deserialize_next::<D>(buffer, Ghost(start), Ghost(A::spec_deserialize(start.skip((0nat) as int)).unwrap().1 + B::spec_deserialize(start.skip((A::spec_deserialize(start.skip((0nat) as int)).unwrap().1) as int)).unwrap().1 + C::spec_deserialize(start.skip((A::spec_deserialize(start.skip((0nat) as int)).unwrap().1 + B::spec_deserialize(start.skip((A::spec_deserialize(start.skip((0nat) as int)).unwrap().1) as int)).unwrap().1) as int)).unwrap().1))?;
        Ok((x0, x1, x2, x3))
    }

    fn size_hint() -> (result: Option<usize>) {
        let h0 = match A::size_hint() { Some(h) => h, None => return None };
        let h0 = match 0usize.checked_add(h0) { Some(h) => h, None => return None };
        let h1 = match B::size_hint() { Some(h) => h, None => return None };
        let h1 = match h0.checked_add(h1) { Some(h) => h, None => return None };
        let h2 = match C::size_hint() { Some(h) => h, None => return None };
        let h2 = match h1.checked_add(h2) { Some(h) => h, None => return None };
        let h3 = match D::size_hint() { Some(h) => h, None => return None };
        let h3 = match h2.checked_add(h3) { Some(h) => h, None => return None };
        Some(h3)
    }
}

impl<A: Deserialize<Output = A> + DeepView, B: Deserialize<Output = B> + DeepView, C: Deserialize<Output = C> + DeepView, D: Deserialize<Output = D> + DeepView, E: Deserialize<Output = E> + DeepView> Deserialize for (A, B, C, D, E) {
    type Output = Self;

    open spec fn spec_deserialize(input: Seq<u8>) -> Result<(<Self as DeepView>::V, nat), DeserializeError> {
        match A::spec_deserialize(input) {
            Err(e) => Err(e),
            Ok((v0, n0)) => match B::spec_deserialize(input.skip((n0) as int)) {
            Err(e) => Err(e),
            Ok((v1, n1)) => match C::spec_deserialize(input.skip((n0 + n1) as int)) {
            Err(e) => Err(e),
            Ok((v2, n2)) => match D::spec_deserialize(input.skip((n0 + n1 + n2) as int)) {
            Err(e) => Err(e),
            Ok((v3, n3)) => match E::spec_deserialize(input.skip((n0 + n1 + n2 + n3) as int)) {
            Err(e) => Err(e),
            Ok((v4, n4)) => Ok(((v0, v1, v2, v3, v4), n0 + n1 + n2 + n3 + n4)),
        },
        },
        },
        },
        }
    }

    open spec fn spec_size_hint() -> Option<usize> {
        add_sizes(add_sizes(add_sizes(add_sizes(add_sizes(Some(0usize), A::spec_size_hint()), B::spec_size_hint()), C::spec_size_hint()), D::spec_size_hint()), E::spec_size_hint())
    }

    fn deserialize(buffer: &mut Reader) -> (result: Result<Self::Output, DeserializeError>) {
        let ghost start = buffer@;
        assert(start.skip(0) =~= start);
        let x0 = deserialize_next::<A>(buffer, Ghost(start), Ghost(0nat))?;
        let x1 = deserialize_next::<B>(buffer, Ghost(start), Ghost(A::spec_deserialize(start.skip((0nat) as int)).unwrap().1))?;
        let x2 = deserialize_next::<C>(buffer, Ghost(start), Ghost(A::spec_deserialize(start.skip((0nat) as int)).unwrap().1 + B::spec_deserialize(start.skip((A::spec_deserialize(start.skip((0nat) as int)).unwrap().1) as int)).unwrap().1))?;
        let x3 = deserialize_next::<D>(buffer, Ghost(start), Ghost(A::spec_deserialize(start.skip((0nat) as int)).unwrap().1 + B::spec_deserialize(start.skip((A::spec_deserialize(start.skip((0nat) as int)).unwrap().1) as int)).unwrap().1 + C::spec_deserialize(start.skip((A::spec_deserialize(start.skip((0nat) as int)).unwrap().1 + B::spec_deserialize(start.skip((A::spec_deserialize(start.skip((0nat) as int)).unwrap().1) as int)).unwrap().1) as int)).unwrap().1))?;
        let x4 = deserialize_next::<E>(buffer, Ghost(start), Ghost(A::spec_deserialize(start.skip((0nat) as int)).unwrap().1 + B::spec_deserialize(start.skip((A::spec_deserialize(start.skip((0nat) as int)).unwrap().1) as int)).unwrap().1 + C::spec_deserialize(start.skip((A::spec_deserialize(start.skip((0nat) as int)).unwrap().1 + B::spec_deserialize(start.skip((A::spec_deserialize(start.skip((0nat) as int)).unwrap().1) as int)).unwrap().1) as int)).unwrap().1 + D::spec_deserialize(start.skip((A::spec_deserialize(start.skip((0nat) as int)).unwrap().1 + B::spec_deserialize(start.skip((A::spec_deserialize(start.skip((0nat) as int)).unwrap().1) as int)).unwrap().1 + C::spec_deserialize(start.skip((A::spec_deserialize(start.skip((0nat) as int)).unwrap().1 + B::spec_deserialize(start.skip((A::spec_deserialize(start.skip((0nat) as int)).unwrap().1) as int)).unwrap().1) as int)).unwrap().1) as int)).unwrap().1))?;
        Ok((x0, x1, x2, x3, x4))
    }

    fn size_hint() -> (result: Option<usize>) {
        let h0 = match A::size_hint() { Some(h) => h, None => return None };
        let h0 = match 0usize.checked_add(h0) { Some(h) => h, None => return None };
        let h1 = match B::size_hint() { Some(h) => h, None => return None };
        let h1 = match h0.checked_add(h1) { Some(h) => h, None => return None };
        let h2 = match C::size_hint() { Some(h) => h, None => return None };
        let h2 = match h1.checked_add(h2) { Some(h) => h, None => return None };
        let h3 = match D::size_hint() { Some(h) => h, None => return None };
        let h3 = match h2.checked_add(h3) { Some(h) => h, None => return None };
        let h4 = match E::size_hint() { Some(h) => h, None => return None };
        let h4 = match h3.checked_add(h4) { Some(h) => h, None => return None };
        Some(h4)
    }
}

impl<A: Deserialize<Output = A> + DeepView, B: Deserialize<Output = B> + DeepView, C: Deserialize<Output = C> + DeepView, D: Deserialize<Output = D> + DeepView, E: Deserialize<Output = E> + DeepView, F: Deserialize<Output = F> + DeepView> Deserialize for (A, B, C, D, E, F) {
    type Output = Self;

    open spec fn spec_deserialize(input: Seq<u8>) -> Result<(<Self as DeepView>::V, nat), DeserializeError> {
        match A::spec_deserialize(input) {
            Err(e) => Err(e),
            Ok((v0, n0)) => match B::spec_deserialize(input.skip((n0) as int)) {
            Err(e) => Err(e),
            Ok((v1, n1)) => match C::spec_deserialize(input.skip((n0 + n1) as int)) {
            Err(e) => Err(e),
            Ok((v2, n2)) => match D::spec_deserialize(input.skip((n0 + n1 + n2) as int)) {
            Err(e) => Err(e),
            Ok((v3, n3)) => match E::spec_deserialize(input.skip((n0 + n1 + n2 + n3) as int)) {
            Err(e) => Err(e),
            Ok((v4, n4)) => match F::spec_deserialize(input.skip((n0 + n1 + n2 + n3 + n4) as int)) {
            Err(e) => Err(e),
            Ok((v5, n5)) => Ok(((v0, v1, v2, v3, v4, v5), n0 + n1 + n2 + n3 + n4 + n5)),
        },
        },
        },
        },
        },
        }
    }

    open spec fn spec_size_hint() -> Option<usize> {
        add_sizes(add_sizes(add_sizes(add_sizes(add_sizes(add_sizes(Some(0usize), A::spec_size_hint()), B::spec_size_hint()), C::spec_size_hint()), D::spec_size_hint()), E::spec_size_hint()), F::spec_size_hint())
    }

    fn deserialize(buffer: &mut Reader) -> (result: Result<Self::Output, DeserializeError>) {
        let ghost start = buffer@;
        assert(start.skip(0) =~= start);
        let x0 = deserialize_next::<A>(buffer, Ghost(start), Ghost(0nat))?;
        let x1 = deserialize_next::<B>(buffer, Ghost(start), Ghost(A::spec_deserialize(start.skip((0nat) as int)).unwrap().1))?;
        let x2 = deserialize_next::<C>(buffer, Ghost(start), Ghost(A::spec_deserialize(start.skip((0nat) as int)).unwrap().1 + B::spec_deserialize(start.skip((A::spec_deserialize(start.skip((0nat) as int)).unwrap().1) as int)).unwrap().1))?;
        let x3 = deserialize_next::<D>(buffer, Ghost(start), Ghost(A::spec_deserialize(start.skip((0nat) as int)).unwrap().1 + B::spec_deserialize(start.skip((A::spec_deserialize(start.skip((0nat) as int)).unwrap().1) as int)).unwrap().1 + C::spec_deserialize(start.skip((A::spec_deserialize(start.skip((0nat) as int)).unwrap().1 + B::spec_deserialize(start.skip((A::spec_deserialize(start.skip((0nat) as int)).unwrap().1) as int)).unwrap().1) as int)).unwrap().1))?;
        let x4 = deserialize_next::<E>(buffer, Ghost(start), Ghost(A::spec_deserialize(start.skip((0nat) as int)).unwrap().1 + B::spec_deserialize(start.skip((A::spec_deserialize(start.skip((0nat) as int)).unwrap().1) as int)).unwrap().1 + C::spec_deserialize(start.skip((A::spec_deserialize(start.skip((0nat) as int)).unwrap().1 + B::spec_deserialize(start.skip((A::spec_deserialize(start.skip((0nat) as int)).unwrap().1) as int)).unwrap().1) as int)).unwrap().1 + D::spec_deserialize(start.skip((A::spec_deserialize(start.skip((0nat) as int)).unwrap().1 + B::spec_deserialize(start.skip((A::spec_deserialize(start.skip((0nat) as int)).unwrap().1) as int)).unwrap().1 + C::spec_deserialize(start.skip((A::spec_deserialize(start.skip((0nat) as int)).unwrap().1 + B::spec_deserialize(start.skip((A::spec_deserialize(start.skip((0nat) as int)).unwrap().1) as int)).unwrap().1) as int)).unwrap().1) as int)).unwrap().1))?;
        let x5 = deserialize_next::<F>(buffer, Ghost(start), Ghost(A::spec_deserialize(start.skip((0nat) as int)).unwrap().1 + B::spec_deserialize(start.skip((A::spec_deserialize(start.skip((0nat) as int)).unwrap().1) as int)).unwrap().1 + C::spec_deserialize(start.skip((A::spec_deserialize(start.skip((0nat) as int)).unwrap().1 + B::spec_deserialize(start.skip((A::spec_deserialize(start.skip((0nat) as int)).unwrap().1) as int)).unwrap().1) as int)).unwrap().1 + D::spec_deserialize(start.skip((A::spec_deserialize(start.skip((0nat) as int)).unwrap().1 + B::spec_deserialize(start.skip((A::spec_deserialize(start.skip((0nat) as int)).unwrap().1) as int)).unwrap().1 + C::spec_deserialize(start.skip((A::spec_deserialize(start.skip((0nat) as int)).unwrap().1 + B::spec_deserialize(start.skip((A::spec_deserialize(start.skip((0nat) as int)).unwrap().1) as int)).unwrap().1) as int)).unwrap().1) as int)).unwrap().1 + E::spec_deserialize(start.skip((A::spec_deserialize(start.skip((0nat) as int)).unwrap().1 + B::spec_deserialize(start.skip((A::spec_deserialize(start.skip((0nat) as int)).unwrap().1) as int)).unwrap().1 + C::spec_deserialize(start.skip((A::spec_deserialize(start.skip((0nat) as int)).unwrap().1 + B::spec_deserialize(start.skip((A::spec_deserialize(start.skip((0nat) as int)).unwrap().1) as int)).unwrap().1) as int)).unwrap().1 + D::spec_deserialize(start.skip((A::spec_deserialize(start.skip((0nat) as int)).unwrap().1 + B::spec_deserialize(start.skip((A::spec_deserialize(start.skip((0nat) as int)).unwrap().1) as int)).unwrap().1 + C::spec_deserialize(start.skip((A::spec_deserialize(start.skip((0nat) as int)).unwrap().1 + B::spec_deserialize(start.skip((A::spec_deserialize(start.skip((0nat) as int)).unwrap().1) as int)).unwrap().1) as int)).unwrap().1) as int)).unwrap().1) as int)).unwrap().1))?;
        Ok((x0, x1, x2, x3, x4, x5))
    }

    fn size_hint() -> (result: Option<usize>) {
        let h0 = match A::size_hint() { Some(h) => h, None => return None };
        let h0 = match 0usize.checked_add(h0) { Some(h) => h, None => return None };
        let h1 = match B::size_hint() { Some(h) => h, None => return None };
        let h1 = match h0.checked_add(h1) { Some(h) => h, None => return None };
        let h2 = match C::size_hint() { Some(h) => h, None => return None };
        let h2 = match h1.checked_add(h2) { Some(h) => h, None => return None };
        let h3 = match D::size_hint() { Some(h) => h, None => return None };
        let h3 = match h2.checked_add(h3) { Some(h) => h, None => return None };
        let h4 = match E::size_hint() { Some(h) => h, None => return None };
        let h4 = match h3.checked_add(h4) { Some(h) => h, None => return None };
        let h5 = match F::size_hint() { Some(h) => h, None => return None };
        let h5 = match h4.checked_add(h5) { Some(h) => h, None => return None };
        Some(h5)
    }
}

impl<A: Deserialize<Output = A> + DeepView, B: Deserialize<Output = B> + DeepView, C: Deserialize<Output = C> + DeepView, D: Deserialize<Output = D> + DeepView, E: Deserialize<Output = E> + DeepView, F: Deserialize<Output = F> + DeepView, G: Deserialize<Output = G> + DeepView> Deserialize for (A, B, C, D, E, F, G) {
    type Output = Self;

    open spec fn spec_deserialize(input: Seq<u8>) -> Result<(<Self as DeepView>::V, nat), DeserializeError> {
        match A::spec_deserialize(input) {
            Err(e) => Err(e),
            Ok((v0, n0)) => match B::spec_deserialize(input.skip((n0) as int)) {
            Err(e) => Err(e),
            Ok((v1, n1)) => match C::spec_deserialize(input.skip((n0 + n1) as int)) {
            Err(e) => Err(e),
            Ok((v2, n2)) => match D::spec_deserialize(input.skip((n0 + n1 + n2) as int)) {
            Err(e) => Err(e),
            Ok((v3, n3)) => match E::spec_deserialize(input.skip((n0 + n1 + n2 + n3) as int)) {
            Err(e) => Err(e),
            Ok((v4, n4)) => match F::spec_deserialize(input.skip((n0 + n1 + n2 + n3 + n4) as int)) {
            Err(e) => Err(e),
            Ok((v5, n5)) => match G::spec_deserialize(input.skip((n0 + n1 + n2 + n3 + n4 + n5) as int)) {
            Err(e) => Err(e),
            Ok((v6, n6)) => Ok(((v0, v1, v2, v3, v4, v5, v6), n0 + n1 + n2 + n3 + n4 + n5 + n6)),
        },
        },
        },
        },
        },
        },
        }
    }

    open spec fn spec_size_hint() -> Option<usize> {
        add_sizes(add_sizes(add_sizes(add_sizes(add_sizes(add_sizes(add_sizes(Some(0usize), A::spec_size_hint()), B::spec_size_hint()), C::spec_size_hint()), D::spec_size_hint()), E::spec_size_hint()), F::spec_size_hint()), G::spec_size_hint())
    }

    fn deserialize(buffer: &mut Reader) -> (result: Result<Self::Output, DeserializeError>) {
        let ghost start = buffer@;
        assert(start.skip(0) =~= start);
        let x0 = deserialize_next::<A>(buffer, Ghost(start), Ghost(0nat))?;
        let x1 = deserialize_next::<B>(buffer, Ghost(start), Ghost(A::spec_deserialize(start.skip((0nat) as int)).unwrap().1))?;
        let x2 = deserialize_next::<C>(buffer, Ghost(start), Ghost(A::spec_deserialize(start.skip((0nat) as int)).unwrap().1 + B::spec_deserialize(start.skip((A::spec_deserialize(start.skip((0nat) as int)).unwrap().1) as int)).unwrap().1))?;
        let x3 = deserialize_next::<D>(buffer, Ghost(start), Ghost(A::spec_deserialize(start.skip((0nat) as int)).unwrap().1 + B::spec_deserialize(start.skip((A::spec_deserialize(start.skip((0nat) as int)).unwrap().1) as int)).unwrap().1 + C::spec_deserialize(start.skip((A::spec_deserialize(start.skip((0nat) as int)).unwrap().1 + B::spec_deserialize(start.skip((A::spec_deserialize(start.skip((0nat) as int)).unwrap().1) as int)).unwrap().1) as int)).unwrap().1))?;
        let x4 = deserialize_next::<E>(buffer, Ghost(start), Ghost(A::spec_deserialize(start.skip((0nat) as int)).unwrap().1 + B::spec_deserialize(start.skip((A::spec_deserialize(start.skip((0nat) as int)).unwrap().1) as int)).unwrap().1 + C::spec_deserialize(start.skip((A::spec_deserialize(start.skip((0nat) as int)).unwrap().1 + B::spec_deserialize(start.skip((A::spec_deserialize(start.skip((0nat) as int)).unwrap().1) as int)).unwrap().1) as int)).unwrap().1 + D::spec_deserialize(start.skip((A::spec_deserialize(start.skip((0nat) as int)).unwrap().1 + B::spec_deserialize(start.skip((A::spec_deserialize(start.skip((0nat) as int)).unwrap().1) as int)).unwrap().1 + C::spec_deserialize(start.skip((A::spec_deserialize(start.skip((0nat) as int)).unwrap().1 + B::spec_deserialize(start.skip((A::spec_deserialize(start.skip((0nat) as int)).unwrap().1) as int)).unwrap().1) as int)).unwrap().1) as int)).unwrap().1))?;
        let x5 = deserialize_next::<F>(buffer, Ghost(start), Ghost(A::spec_deserialize(start.skip((0nat) as int)).unwrap().1 + B::spec_deserialize(start.skip((A::spec_deserialize(start.skip((0nat) as int)).unwrap().1) as int)).unwrap().1 + C::spec_deserialize(start.skip((A::spec_deserialize(start.skip((0nat) as int)).unwrap().1 + B::spec_deserialize(start.skip((A::spec_deserialize(start.skip((0nat) as int)).unwrap().1) as int)).unwrap().1) as int)).unwrap().1 + D::spec_deserialize(start.skip((A::spec_deserialize(start.skip((0nat) as int)).unwrap().1 + B::spec_deserialize(start.skip((A::spec_deserialize(start.skip((0nat) as int)).unwrap().1) as int)).unwrap().1 + C::spec_deserialize(start.skip((A::spec_deserialize(start.skip((0nat) as int)).unwrap().1 + B::spec_deserialize(start.skip((A::spec_deserialize(start.skip((0nat) as int)).unwrap().1) as int)).unwrap().1) as int)).unwrap().1) as int)).unwrap().1 + E::spec_deserialize(start.skip((A::spec_deserialize(start.skip((0nat) as int)).unwrap().1 + B::spec_deserialize(start.skip((A::spec_deserialize(start.skip((0nat) as int)).unwrap().1) as int)).unwrap().1 + C::spec_deserialize(start.skip((A::spec_deserialize(start.skip((0nat) as int)).unwrap().1 + B::spec_deserialize(start.skip((A::spec_deserialize(start.skip((0nat) as int)).unwrap().1) as int)).unwrap().1) as int)).unwrap().1 + D::spec_deserialize(start.skip((A::spec_deserialize(start.skip((0nat) as int)).unwrap().1 + B::spec_deserialize(start.skip((A::spec_deserialize(start.skip((0nat) as int)).unwrap().1) as int)).unwrap().1 + C::spec_deserialize(start.skip((A::spec_deserialize(start.skip((0nat) as int)).unwrap().1 + B::spec_deserialize(start.skip((A::spec_deserialize(start.skip((0nat) as int)).unwrap().1) as int)).unwrap().1) as int)).unwrap().1) as int)).unwrap().1) as int)).unwrap().1))?;
        let x6 = deserialize_next::<G>(buffer, Ghost(start), Ghost(A::spec_deserialize(start.skip((0nat) as int)).unwrap().1 + B::spec_deserialize(start.skip((A::spec_deserialize(start.skip((0nat) as int)).unwrap().1) as int)).unwrap().1 + C::spec_deserialize(start.skip((A::spec_deserialize(start.skip((0nat) as int)).unwrap().1 + B::spec_deserialize(start.skip((A::spec_deserialize(start.skip((0nat) as int)).unwrap().1) as int)).unwrap().1) as int)).unwrap().1 + D::spec_deserialize(start.skip((A::spec_deserialize(start.skip((0nat) as int)).unwrap().1 + B::spec_deserialize(start.skip((A::spec_deserialize(start.skip((0nat) as int)).unwrap().1) as int)).unwrap().1 + C::spec_deserialize(start.skip((A::spec_deserialize(start.skip((0nat) as int)).unwrap().1 + B::spec_deserialize(start.skip((A::spec_deserialize(start.skip((0nat) as int)).unwrap().1) as int)).unwrap().1) as int)).unwrap().1) as int)).unwrap().1 + E::spec_deserialize(start.skip((A::spec_deserialize(start.skip((0nat) as int)).unwrap().1 + B::spec_deserialize(start.skip((A::spec_deserialize(start.skip((0nat) as int)).unwrap().1) as int)).unwrap().1 + C::spec_deserialize(start.skip((A::spec_deserialize(start.skip((0nat) as int)).unwrap().1 + B::spec_deserialize(start.skip((A::spec_deserialize(start.skip((0nat) as int)).unwrap().1) as int)).unwrap().1) as int)).unwrap().1 + D::spec_deserialize(start.skip((A::spec_deserialize(start.skip((0nat) as int)).unwrap().1 + B::spec_deserialize(start.skip((A::spec_deserialize(start.skip((0nat) as int)).unwrap().1) as int)).unwrap().1 + C::spec_deserialize(start.skip((A::spec_deserialize(start.skip((0nat) as int)).unwrap().1 + B::spec_deserialize(start.skip((A::spec_deserialize(start.skip((0nat) as int)).unwrap().1) as int)).unwrap().1) as int)).unwrap().1) as int)).unwrap().1) as int)).unwrap().1 + F::spec_deserialize(start.skip((A::spec_deserialize(start.skip((0nat) as int)).unwrap().1 + B::spec_deserialize(start.skip((A::spec_deserialize(start.skip((0nat) as int)).unwrap().1) as int)).unwrap().1 + C::spec_deserialize(start.skip((A::spec_deserialize(start.skip((0nat) as int)).unwrap().1 + B::spec_deserialize(start.skip((A::spec_deserialize(start.skip((0nat) as int)).unwrap().1) as int)).unwrap().1) as int)).unwrap().1 + D::spec_deserialize(start.skip((A::spec_deserialize(start.skip((0nat) as int)).unwrap().1 + B::spec_deserialize(start.skip((A::spec_deserialize(start.skip((0nat) as int)).unwrap().1) as int)).unwrap().1 + C::spec_deserialize(start.skip((A::spec_deserialize(start.skip((0nat) as int)).unwrap().1 + B::spec_deserialize(start.skip((A::spec_deserialize(start.skip((0nat) as int)).unwrap().1) as int)).unwrap().1) as int)).unwrap().1) as int)).unwrap().1 + E::spec_deserialize(start.skip((A::spec_deserialize(start.skip((0nat) as int)).unwrap().1 + B::spec_deserialize(start.skip((A::spec_deserialize(start.skip((0nat) as int)).unwrap().1) as int)).unwrap().1 + C::spec_deserialize(start.skip((A::spec_deserialize(start.skip((0nat) as int)).unwrap().1 + B::spec_deserialize(start.skip((A::spec_deserialize(start.skip((0nat) as int)).unwrap().1) as int)).unwrap().1) as int)).unwrap().1 + D::spec_deserialize(start.skip((A::spec_deserialize(start.skip((0nat) as int)).unwrap().1 + B::spec_deserialize(start.skip((A::spec_deserialize(start.skip((0nat) as int)).unwrap().1) as int)).unwrap().1 + C::spec_deserialize(start.skip((A::spec_deserialize(start.skip((0nat) as int)).unwrap().1 + B::spec_deserialize(start.skip((A::spec_deserialize(start.skip((0nat) as int)).unwrap().1) as int)).unwrap().1) as int)).unwrap().1) as int)).unwrap().1) as int)).unwrap().1) as int)).unwrap().1))?;
        Ok((x0, x1, x2, x3, x4, x5, x6))
    }

    fn size_hint() -> (result: Option<usize>) {
        let h0 = match A::size_hint() { Some(h) => h, None => return None };
        let h0 = match 0usize.checked_add(h0) { Some(h) => h, None => return None };
        let h1 = match B::size_hint() { Some(h) => h, None => return None };
        let h1 = match h0.checked_add(h1) { Some(h) => h, None => return None };
        let h2 = match C::size_hint() { Some(h) => h, None => return None };
        let h2 = match h1.checked_add(h2) { Some(h) => h, None => return None };
        let h3 = match D::size_hint() { Some(h) => h, None => return None };
        let h3 = match h2.checked_add(h3) { Some(h) => h, None => return None };
        let h4 = match E::size_hint() { Some(h) => h, None => return None };
        let h4 = match h3.checked_add(h4) { Some(h) => h, None => return None };
        let h5 = match F::size_hint() { Some(h) => h, None => return None };
        let h5 = match h4.checked_add(h5) { Some(h) => h, None => return None };
        let h6 = match G::size_hint() { Some(h) => h, None => return None };
        let h6 = match h5.checked_add(h6) { Some(h) => h, None => return None };
        Some(h6)
    }
}

impl<A: Deserialize<Output = A> + DeepView, B: Deserialize<Output = B> + DeepView, C: Deserialize<Output = C> + DeepView, D: Deserialize<Output = D> + DeepView, E: Deserialize<Output = E> + DeepView, F: Deserialize<Output = F> + DeepView, G: Deserialize<Output = G> + DeepView, H: Deserialize<Output = H> + DeepView> Deserialize for (A, B, C, D, E, F, G, H) {
    type Output = Self;

    open spec fn spec_deserialize(input: Seq<u8>) -> Result<(<Self as DeepView>::V, nat), DeserializeError> {
        match A::spec_deserialize(input) {
            Err(e) => Err(e),
            Ok((v0, n0)) => match B::spec_deserialize(input.skip((n0) as int)) {
            Err(e) => Err(e),
            Ok((v1, n1)) => match C::spec_deserialize(input.skip((n0 + n1) as int)) {
            Err(e) => Err(e),
            Ok((v2, n2)) => match D::spec_deserialize(input.skip((n0 + n1 + n2) as int)) {
            Err(e) => Err(e),
            Ok((v3, n3)) => match E::spec_deserialize(input.skip((n0 + n1 + n2 + n3) as int)) {
            Err(e) => Err(e),
            Ok((v4, n4)) => match F::spec_deserialize(input.skip((n0 + n1 + n2 + n3 + n4) as int)) {
            Err(e) => Err(e),
            Ok((v5, n5)) => match G::spec_deserialize(input.skip((n0 + n1 + n2 + n3 + n4 + n5) as int)) {
            Err(e) => Err(e),
            Ok((v6, n6)) => match H::spec_deserialize(input.skip((n0 + n1 + n2 + n3 + n4 + n5 + n6) as int)) {
            Err(e) => Err(e),
            Ok((v7, n7)) => Ok(((v0, v1, v2, v3, v4, v5, v6, v7), n0 + n1 + n2 + n3 + n4 + n5 + n6 + n7)),
        },
        },
        },
        },
        },
        },
        },
        }
    }

    open spec fn spec_size_hint() -> Option<usize> {
        add_sizes(add_sizes(add_sizes(add_sizes(add_sizes(add_sizes(add_sizes(add_sizes(Some(0usize), A::spec_size_hint()), B::spec_size_hint()), C::spec_size_hint()), D::spec_size_hint()), E::spec_size_hint()), F::spec_size_hint()), G::spec_size_hint()), H::spec_size_hint())
    }

    fn deserialize(buffer: &mut Reader) -> (result: Result<Self::Output, DeserializeError>) {
        let ghost start = buffer@;
        assert(start.skip(0) =~= start);
        let x0 = deserialize_next::<A>(buffer, Ghost(start), Ghost(0nat))?;
        let x1 = deserialize_next::<B>(buffer, Ghost(start), Ghost(A::spec_deserialize(start.skip((0nat) as int)).unwrap().1))?;
        let x2 = deserialize_next::<C>(buffer, Ghost(start), Ghost(A::spec_deserialize(start.skip((0nat) as int)).unwrap().1 + B::spec_deserialize(start.skip((A::spec_deserialize(start.skip((0nat) as int)).unwrap().1) as int)).unwrap().1))?;
        let x3 = deserialize_next::<D>(buffer, Ghost(start), Ghost(A::spec_deserialize(start.skip((0nat) as int)).unwrap().1 + B::spec_deserialize(start.skip((A::spec_deserialize(start.skip((0nat) as int)).unwrap().1) as int)).unwrap().1 + C::spec_deserialize(start.skip((A::spec_deserialize(start.skip((0nat) as int)).unwrap().1 + B::spec_deserialize(start.skip((A::spec_deserialize(start.skip((0nat) as int)).unwrap().1) as int)).unwrap().1) as int)).unwrap().1))?;
        let x4 = deserialize_next::<E>(buffer, Ghost(start), Ghost(A::spec_deserialize(start.skip((0nat) as int)).unwrap().1 + B::spec_deserialize(start.skip((A::spec_deserialize(start.skip((0nat) as int)).unwrap().1) as int)).unwrap().1 + C::spec_deserialize(start.skip((A::spec_deserialize(start.skip((0nat) as int)).unwrap().1 + B::spec_deserialize(start.skip((A::spec_deserialize(start.skip((0nat) as int)).unwrap().1) as int)).unwrap().1) as int)).unwrap().1 + D::spec_deserialize(start.skip((A::spec_deserialize(start.skip((0nat) as int)).unwrap().1 + B::spec_deserialize(start.skip((A::spec_deserialize(start.skip((0nat) as int)).unwrap().1) as int)).unwrap().1 + C::spec_deserialize(start.skip((A::spec_deserialize(start.skip((0nat) as int)).unwrap().1 + B::spec_deserialize(start.skip((A::spec_deserialize(start.skip((0nat) as int)).unwrap().1) as int)).unwrap().1) as int)).unwrap().1) as int)).unwrap().1))?;
        let x5 = deserialize_next::<F>(buffer, Ghost(start), Ghost(A::spec_deserialize(start.skip((0nat) as int)).unwrap().1 + B::spec_deserialize(start.skip((A::spec_deserialize(start.skip((0nat) as int)).unwrap().1) as int)).unwrap().1 + C::spec_deserialize(start.skip((A::spec_deserialize(start.skip((0nat) as int)).unwrap().1 + B::spec_deserialize(start.skip((A::spec_deserialize(start.skip((0nat) as int)).unwrap().1) as int)).unwrap().1) as int)).unwrap().1 + D::spec_deserialize(start.skip((A::spec_deserialize(start.skip((0nat) as int)).unwrap().1 + B::spec_deserialize(start.skip((A::spec_deserialize(start.skip((0nat) as int)).unwrap().1) as int)).unwrap().1 + C::spec_deserialize(start.skip((A::spec_deserialize(start.skip((0nat) as int)).unwrap().1 + B::spec_deserialize(start.skip((A::spec_deserialize(start.skip((0nat) as int)).unwrap().1) as int)).unwrap().1) as int)).unwrap().1) as int)).unwrap().1 + E::spec_deserialize(start.skip((A::spec_deserialize(start.skip((0nat) as int)).unwrap().1 + B::spec_deserialize(start.skip((A::spec_deserialize(start.skip((0nat) as int)).unwrap().1) as int)).unwrap().1 + C::spec_deserialize(start.skip((A::spec_deserialize(start.skip((0nat) as int)).unwrap().1 + B::spec_deserialize(start.skip((A::spec_deserialize(start.skip((0nat) as int)).unwrap().1) as int)).unwrap().1) as int)).unwrap().1 + D::spec_deserialize(start.skip((A::spec_deserialize(start.skip((0nat) as int)).unwrap().1 + B::spec_deserialize(start.skip((A::spec_deserialize(start.skip((0nat) as int)).unwrap().1) as int)).unwrap().1 + C::spec_deserialize(start.skip((A::spec_deserialize(start.skip((0nat) as int)).unwrap().1 + B::spec_deserialize(start.skip((A::spec_deserialize(start.skip((0nat) as int)).unwrap().1) as int)).unwrap().1) as int)).unwrap().1) as int)).unwrap().1) as int)).unwrap().1))?;
        let x6 = deserialize_next::<G>(buffer, Ghost(start), Ghost(A::spec_deserialize(start.skip((0nat) as int)).unwrap().1 + B::spec_deserialize(start.skip((A::spec_deserialize(start.skip((0nat) as int)).unwrap().1) as int)).unwrap().1 + C::spec_deserialize(start.skip((A::spec_deserialize(start.skip((0nat) as int)).unwrap().1 + B::spec_deserialize(start.skip((A::spec_deserialize(start.skip((0nat) as int)).unwrap().1) as int)).unwrap().1) as int)).unwrap().1 + D::spec_deserialize(start.skip((A::spec_deserialize(start.skip((0nat) as int)).unwrap().1 + B::spec_deserialize(start.skip((A::spec_deserialize(start.skip((0nat) as int)).unwrap().1) as int)).unwrap().1 + C::spec_deserialize(start.skip((A::spec_deserialize(start.skip((0nat) as int)).unwrap().1 + B::spec_deserialize(start.skip((A::spec_deserialize(start.skip((0nat) as int)).unwrap().1) as int)).unwrap().1) as int)).unwrap().1) as int)).unwrap().1 + E::spec_deserialize(start.skip((A::spec_deserialize(start.skip((0nat) as int)).unwrap().1 + B::spec_deserialize(start.skip((A::spec_deserialize(start.skip((0nat) as int)).unwrap().1) as int)).unwrap().1 + C::spec_deserialize(start.skip((A::spec_deserialize(start.skip((0nat) as int)).unwrap().1 + B::spec_deserialize(start.skip((A::spec_deserialize(start.skip((0nat) as int)).unwrap().1) as int)).unwrap().1) as int)).unwrap().1 + D::spec_deserialize(start.skip((A::spec_deserialize(start.skip((0nat) as int)).unwrap().1 + B::spec_deserialize(start.skip((A::spec_deserialize(start.skip((0nat) as int)).unwrap().1) as int)).unwrap().1 + C::spec_deserialize(start.skip((A::spec_deserialize(start.skip((0nat) as int)).unwrap().1 + B::spec_deserialize(start.skip((A::spec_deserialize(start.skip((0nat) as int)).unwrap().1) as int)).unwrap().1) as int)).unwrap().1) as int)).unwrap().1) as int)).unwrap().1 + F::spec_deserialize(start.skip((A::spec_deserialize(start.skip((0nat) as int)).unwrap().1 + B::spec_deserialize(start.skip((A::spec_deserialize(start.skip((0nat) as int)).unwrap().1) as int)).unwrap().1 + C::spec_deserialize(start.skip((A::spec_deserialize(start.skip((0nat) as int)).unwrap().1 + B::spec_deserialize(start.skip((A::spec_deserialize(start.skip((0nat) as int)).unwrap().1) as int)).unwrap().1) as int)).unwrap().1 + D::spec_deserialize(start.skip((A::spec_deserialize(start.skip((0nat) as int)).unwrap().1 + B::spec_deserialize(start.skip((A::spec_deserialize(start.skip((0nat) as int)).unwrap().1) as int)).unwrap().1 + C::spec_deserialize(start.skip((A::spec_deserialize(start.skip((0nat) as int)).unwrap().1 + B::spec_deserialize(start.skip((A::spec_deserialize(start.skip((0nat) as int)).unwrap().1) as int)).unwrap().1) as int)).unwrap().1) as int)).unwrap().1 + E::spec_deserialize(start.skip((A::spec_deserialize(start.skip((0nat) as int)).unwrap().1 + B::spec_deserialize(start.skip((A::spec_deserialize(start.skip((0nat) as int)).unwrap().1) as int)).unwrap().1 + C::spec_deserialize(start.skip((A::spec_deserialize(start.skip((0nat) as int)).unwrap().1 + B::spec_deserialize(start.skip((A::spec_deserialize(start.skip((0nat) as int)).unwrap().1) as int)).unwrap().1) as int)).unwrap().1 + D::spec_deserialize(start.skip((A::spec_deserialize(start.skip((0nat) as int)).unwrap().1 + B::spec_deserialize(start.skip((A::spec_deserialize(start.skip((0nat) as int)).unwrap().1) as int)).unwrap().1 + C::spec_deserialize(start.skip((A::spec_deserialize(start.skip((0nat) as int)).unwrap().1 + B::spec_deserialize(start.skip((A::spec_deserialize(start.skip((0nat) as int)).unwrap().1) as int)).unwrap().1) as int)).unwrap().1) as int)).unwrap().1) as int)).unwrap().1) as int)).unwrap().1))?;
        let x7 = deserialize_next::<H>(buffer, Ghost(start), Ghost(A::spec_deserialize(start.skip((0nat) as int)).unwrap().1 + B::spec_deserialize(start.skip((A::spec_deserialize(start.skip((0nat) as int)).unwrap().1) as int)).unwrap().1 + C::spec_deserialize(start.skip((A::spec_deserialize(start.skip((0nat) as int)).unwrap().1 + B::spec_deserialize(start.skip((A::spec_deserialize(start.skip((0nat) as int)).unwrap().1) as int)).unwrap().1) as int)).unwrap().1 + D::spec_deserialize(start.skip((A::spec_deserialize(start.skip((0nat) as int)).unwrap().1 + B::spec_deserialize(start.skip((A::spec_deserialize(start.skip((0nat) as int)).unwrap().1) as int)).unwrap().1 + C::spec_deserialize(start.skip((A::spec_deserialize(start.skip((0nat) as int)).unwrap().1 + B::spec_deserialize(start.skip((A::spec_deserialize(start.skip((0nat) as int)).unwrap().1) as int)).unwrap().1) as int)).unwrap().1) as int)).unwrap().1 + E::spec_deserialize(start.skip((A::spec_deserialize(start.skip((0nat) as int)).unwrap().1 + B::spec_deserialize(start.skip((A::spec_deserialize(start.skip((0nat) as int)).unwrap().1) as int)).unwrap().1 + C::spec_deserialize(start.skip((A::spec_deserialize(start.skip((0nat) as int)).unwrap().1 + B::spec_deserialize(start.skip((A::spec_deserialize(start.skip((0nat) as int)).unwrap().1) as int)).unwrap().1) as int)).unwrap().1 + D::spec_deserialize(start.skip((A::spec_deserialize(start.skip((0nat) as int)).unwrap().1 + B::spec_deserialize(start.skip((A::spec_deserialize(start.skip((0nat) as int)).unwrap().1) as int)).unwrap().1 + C::spec_deserialize(start.skip((A::spec_deserialize(start.skip((0nat) as int)).unwrap().1 + B::spec_deserialize(start.skip((A::spec_deserialize(start.skip((0nat) as int)).unwrap().1) as int)).unwrap().1) as int)).unwrap().1) as int)).unwrap().1) as int)).unwrap().1 + F::spec_deserialize(start.skip((A::spec_deserialize(start.skip((0nat) as int)).unwrap().1 + B::spec_deserialize(start.skip((A::spec_deserialize(start.skip((0nat) as int)).unwrap().1) as int)).unwrap().1 + C::spec_deserialize(start.skip((A::spec_deserialize(start.skip((0nat) as int)).unwrap().1 + B::spec_deserialize(start.skip((A::spec_deserialize(start.skip((0nat) as int)).unwrap().1) as int)).unwrap().1) as int)).unwrap().1 + D::spec_deserialize(start.skip((A::spec_deserialize(start.skip((0nat) as int)).unwrap().1 + B::spec_deserialize(start.skip((A::spec_deserialize(start.skip((0nat) as int)).unwrap().1) as int)).unwrap().1 + C::spec_deserialize(start.skip((A::spec_deserialize(start.skip((0nat) as int)).unwrap().1 + B::spec_deserialize(start.skip((A::spec_deserialize(start.skip((0nat) as int)).unwrap().1) as int)).unwrap().1) as int)).unwrap().1) as int)).unwrap().1 + E::spec_deserialize(start.skip((A::spec_deserialize(start.skip((0nat) as int)).unwrap().1 + B::spec_deserialize(start.skip((A::spec_deserialize(start.skip((0nat) as int)).unwrap().1) as int)).unwrap().1 + C::spec_deserialize(start.skip((A::spec_deserialize(start.skip((0nat) as int)).unwrap().1 + B::spec_deserialize(start.skip((A::spec_deserialize(start.skip((0nat) as int)).unwrap().1) as int)).unwrap().1) as int)).unwrap().1 + D::spec_deserialize(start.skip((A::spec_deserialize(start.skip((0nat) as int)).unwrap().1 + B::spec_deserialize(start.skip((A::spec_deserialize(start.skip((0nat) as int)).unwrap().1) as int)).unwrap().1 + C::spec_deserialize(start.skip((A::spec_deserialize(start.skip((0nat) as int)).unwrap().1 + B::spec_deserialize(start.skip((A::spec_deserialize(start.skip((0nat) as int)).unwrap().1) as int)).unwrap().1) as int)).unwrap().1) as int)).unwrap().1) as int)).unwrap().1) as int)).unwrap().1 + G::spec_deserialize(start.skip((A::spec_deserialize(start.skip((0nat) as int)).unwrap().1 + B::spec_deserialize(start.skip((A::spec_deserialize(start.skip((0nat) as int)).unwrap().1) as int)).unwrap().1 + C::spec_deserialize(start.skip((A::spec_deserialize(start.skip((0nat) as int)).unwrap().1 + B::spec_deserialize(start.skip((A::spec_deserialize(start.skip((0nat) as int)).unwrap().1) as int)).unwrap().1) as int)).unwrap().1 + D::spec_deserialize(start.skip((A::spec_deserialize(start.skip((0nat) as int)).unwrap().1 + B::spec_deserialize(start.skip((A::spec_deserialize(start.skip((0nat) as int)).unwrap().1) as int)).unwrap().1 + C::spec_deserialize(start.skip((A::spec_deserialize(start.skip((0nat) as int)).unwrap().1 + B::spec_deserialize(start.skip((A::spec_deserialize(start.skip((0nat) as int)).unwrap().1) as int)).unwrap().1) as int)).unwrap().1) as int)).unwrap().1 + E::spec_deserialize(start.skip((A::spec_deserialize(start.skip((0nat) as int)).unwrap().1 + B::spec_deserialize(start.skip((A::spec_deserialize(start.skip((0nat) as int)).unwrap().1) as int)).unwrap().1 + C::spec_deserialize(start.skip((A::spec_deserialize(start.skip((0nat) as int)).unwrap().1 + B::spec_deserialize(start.skip((A::spec_deserialize(start.skip((0nat) as int)).unwrap().1) as int)).unwrap().1) as int)).unwrap().1 + D::spec_deserialize(start.skip((A::spec_deserialize(start.skip((0nat) as int)).unwrap().1 + B::spec_deserialize(start.skip((A::spec_deserialize(start.skip((0nat) as int)).unwrap().1) as int)).unwrap().1 + C::spec_deserialize(start.skip((A::spec_deserialize(start.skip((0nat) as int)).unwrap().1 + B::spec_deserialize(start.skip((A::spec_deserialize(start.skip((0nat) as int)).unwrap().1) as int)).unwrap().1) as int)).unwrap().1) as int)).unwrap().1) as int)).unwrap().1 + F::spec_deserialize(start.skip((A::spec_deserialize(start.skip((0nat) as int)).unwrap().1 + B::spec_deserialize(start.skip((A::spec_deserialize(start.skip((0nat) as int)).unwrap().1) as int)).unwrap().1 + C::spec_deserialize(start.skip((A::spec_deserialize(start.skip((0nat) as int)).unwrap().1 + B::spec_deserialize(start.skip((A::spec_deserialize(start.skip((0nat) as int)).unwrap().1) as int)).unwrap().1) as int)).unwrap().1 + D::spec_deserialize(start.skip((A::spec_deserialize(start.skip((0nat) as int)).unwrap().1 + B::spec_deserialize(start.skip((A::spec_deserialize(start.skip((0nat) as int)).unwrap().1) as int)).unwrap().1 + C::spec_deserialize(start.skip((A::spec_deserialize(start.skip((0nat) as int)).unwrap().1 + B::spec_deserialize(start.skip((A::spec_deserialize(start.skip((0nat) as int)).unwrap().1) as int)).unwrap().1) as int)).unwrap().1) as int)).unwrap().1 + E::spec_deserialize(start.skip((A::spec_deserialize(start.skip((0nat) as int)).unwrap().1 + B::spec_deserialize(start.skip((A::spec_deserialize(start.skip((0nat) as int)).unwrap().1) as int)).unwrap().1 + C::spec_deserialize(start.skip((A::spec_deserialize(start.skip((0nat) as int)).unwrap().1 + B::spec_deserialize(start.skip((A::spec_deserialize(start.skip((0nat) as int)).unwrap().1) as int)).unwrap().1) as int)).unwrap().1 + D::spec_deserialize(start.skip((A::spec_deserialize(start.skip((0nat) as int)).unwrap().1 + B::spec_deserialize(start.skip((A::spec_deserialize(start.skip((0nat) as int)).unwrap().1) as int)).unwrap().1 + C::spec_deserialize(start.skip((A::spec_deserialize(start.skip((0nat) as int)).unwrap().1 + B::spec_deserialize(start.skip((A::spec_deserialize(start.skip((0nat) as int)).unwrap().1) as int)).unwrap().1) as int)).unwrap().1) as int)).unwrap().1) as int)).unwrap().1) as int)).unwrap().1) as int)).unwrap().1))?;
        Ok((x0, x1, x2, x3, x4, x5, x6, x7))
    }

    fn size_hint() -> (result: Option<usize>) {
        let h0 = match A::size_hint() { Some(h) => h, None => return None };
        let h0 = match 0usize.checked_add(h0) { Some(h) => h, None => return None };
        let h1 = match B::size_hint() { Some(h) => h, None => return None };
        let h1 = match h0.checked_add(h1) { Some(h) => h, None => return None };
        let h2 = match C::size_hint() { Some(h) => h, None => return None };
        let h2 = match h1.checked_add(h2) { Some(h) => h, None => return None };
        let h3 = match D::size_hint() { Some(h) => h, None => return None };
        let h3 = match h2.checked_add(h3) { Some(h) => h, None => return None };
        let h4 = match E::size_hint() { Some(h) => h, None => return None };
        let h4 = match h3.checked_add(h4) { Some(h) => h, None => return None };
        let h5 = match F::size_hint() { Some(h) => h, None => return None };
        let h5 = match h4.checked_add(h5) { Some(h) => h, None => return None };
        let h6 = match G::size_hint() { Some(h) => h, None => return None };
        let h6 = match h5.checked_add(h6) { Some(h) => h, None => return None };
        let h7 = match H::size_hint() { Some(h) => h, None => return None };
        let h7 = match h6.checked_add(h7) { Some(h) => h, None => return None };
        Some(h7)
    }
}

impl<A: Deserialize<Output = A> + DeepView, B: Deserialize<Output = B> + DeepView, C: Deserialize<Output = C> + DeepView, D: Deserialize<Output = D> + DeepView, E: Deserialize<Output = E> + DeepView, F: Deserialize<Output = F> + DeepView, G: Deserialize<Output = G> + DeepView, H: Deserialize<Output = H> + DeepView, I: Deserialize<Output = I> + DeepView> Deserialize for (A, B, C, D, E, F, G, H, I) {
    type Output = Self;

    open spec fn spec_deserialize(input: Seq<u8>) -> Result<(<Self as DeepView>::V, nat), DeserializeError> {
        match A::spec_deserialize(input) {
            Err(e) => Err(e),
            Ok((v0, n0)) => match B::spec_deserialize(input.skip((n0) as int)) {
            Err(e) => Err(e),
            Ok((v1, n1)) => match C::spec_deserialize(input.skip((n0 + n1) as int)) {
            Err(e) => Err(e),
            Ok((v2, n2)) => match D::spec_deserialize(input.skip((n0 + n1 + n2) as int)) {
            Err(e) => Err(e),
            Ok((v3, n3)) => match E::spec_deserialize(input.skip((n0 + n1 + n2 + n3) as int)) {
            Err(e) => Err(e),
            Ok((v4, n4)) => match F::spec_deserialize(input.skip((n0 + n1 + n2 + n3 + n4) as int)) {
            Err(e) => Err(e),
            Ok((v5, n5)) => match G::spec_deserialize(input.skip((n0 + n1 + n2 + n3 + n4 + n5) as int)) {
            Err(e) => Err(e),
            Ok((v6, n6)) => match H::spec_deserialize(input.skip((n0 + n1 + n2 + n3 + n4 + n5 + n6) as int)) {
            Err(e) => Err(e),
            Ok((v7, n7)) => match I::spec_deserialize(input.skip((n0 + n1 + n2 + n3 + n4 + n5 + n6 + n7) as int)) {
            Err(e) => Err(e),
            Ok((v8, n8)) => Ok(((v0, v1, v2, v3, v4, v5, v6, v7, v8), n0 + n1 + n2 + n3 + n4 + n5 + n6 + n7 + n8)),
        },
        },
        },
        },
        },
        },
        },
        },
        }
    }

    open spec fn spec_size_hint() -> Option<usize> {
        add_sizes(add_sizes(add_sizes(add_sizes(add_sizes(add_sizes(add_sizes(add_sizes(add_sizes(Some(0usize), A::spec_size_hint()), B::spec_size_hint()), C::spec_size_hint()), D::spec_size_hint()), E::spec_size_hint()), F::spec_size_hint()), G::spec_size_hint()), H::spec_size_hint()), I::spec_size_hint())
    }

    fn deserialize(buffer: &mut Reader) -> (result: Result<Self::Output, DeserializeError>) {
        let ghost start = buffer@;
        assert(start.skip(0) =~= start);
        let x0 = deserialize_next::<A>(buffer, Ghost(start), Ghost(0nat))?;
        let x1 = deserialize_next::<B>(buffer, Ghost(start), Ghost(A::spec_deserialize(start.skip((0nat) as int)).unwrap().1))?;
        let x2 = deserialize_next::<C>(buffer, Ghost(start), Ghost(A::spec_deserialize(start.skip((0nat) as int)).unwrap().1 + B::spec_deserialize(start.skip((A::spec_deserialize(start.skip((0nat) as int)).unwrap().1) as int)).unwrap().1))?;
        let x3 = deserialize_next::<D>(buffer, Ghost(start), Ghost(A::spec_deserialize(start.skip((0nat) as int)).unwrap().1 + B::spec_deserialize(start.skip((A::spec_deserialize(start.skip((0nat) as int)).unwrap().1) as int)).unwrap().1 + C::spec_deserialize(start.skip((A::spec_deserialize(start.skip((0nat) as int)).unwrap().1 + B::spec_deserialize(start.skip((A::spec_deserialize(start.skip((0nat) as int)).unwrap().1) as int)).unwrap().1) as int)).unwrap().1))?;
        let x4 = deserialize_next::<E>(buffer, Ghost(start), Ghost(A::spec_deserialize(start.skip((0nat) as int)).unwrap().1 + B::spec_deserialize(start.skip((A::spec_deserialize(start.skip((0nat) as int)).unwrap().1) as int)).unwrap().1 + C::spec_deserialize(start.skip((A::spec_deserialize(start.skip((0nat) as int)).unwrap().1 + B::spec_deserialize(start.skip((A::spec_deserialize(start.skip((0nat) as int)).unwrap().1) as int)).unwrap().1) as int)).unwrap().1 + D::spec_deserialize(start.skip((A::spec_deserialize(start.skip((0nat) as int)).unwrap().1 + B::spec_deserialize(start.skip((A::spec_deserialize(start.skip((0nat) as int)).unwrap().1) as int)).unwrap().1 + C::spec_deserialize(start.skip((A::spec_deserialize(start.skip((0nat) as int)).unwrap().1 + B::spec_deserialize(start.skip((A::spec_deserialize(start.skip((0nat) as int)).unwrap().1) as int)).unwrap().1) as int)).unwrap().1) as int)).unwrap().1))?;
        let x5 = deserialize_next::<F>(buffer, Ghost(start), Ghost(A::spec_deserialize(start.skip((0nat) as int)).unwrap().1 + B::spec_deserialize(start.skip((A::spec_deserialize(start.skip((0nat) as int)).unwrap().1) as int)).unwrap().1 + C::spec_deserialize(start.skip((A::spec_deserialize(start.skip((0nat) as int)).unwrap().1 + B::spec_deserialize(start.skip((A::spec_deserialize(start.skip((0nat) as int)).unwrap().1) as int)).unwrap().1) as int)).unwrap().1 + D::spec_deserialize(start.skip((A::spec_deserialize(start.skip((0nat) as int)).unwrap().1 + B::spec_deserialize(start.skip((A::spec_deserialize(start.skip((0nat) as int)).unwrap().1) as int)).unwrap().1 + C::spec_deserialize(start.skip((A::spec_deserialize(start.skip((0nat) as int)).unwrap().1 + B::spec_deserialize(start.skip((A::spec_deserialize(start.skip((0nat) as int)).unwrap().1) as int)).unwrap().1) as int)).unwrap().1) as int)).unwrap().1 + E::spec_deserialize(start.skip((A::spec_deserialize(start.skip((0nat) as int)).unwrap().1 + B::spec_deserialize(start.skip((A::spec_deserialize(start.skip((0nat) as int)).unwrap().1) as int)).unwrap().1 + C::spec_deserialize(start.skip((A::spec_deserialize(start.skip((0nat) as int)).unwrap().1 + B::spec_deserialize(start.skip((A::spec_deserialize(start.skip((0nat) as int)).unwrap().1) as int)).unwrap().1) as int)).unwrap().1 + D::spec_deserialize(start.skip((A::spec_deserialize(start.skip((0nat) as int)).unwrap().1 + B::spec_deserialize(start.skip((A::spec_deserialize(start.skip((0nat) as int)).unwrap().1) as int)).unwrap().1 + C::spec_deserialize(start.skip((A::spec_deserialize(start.skip((0nat) as int)).unwrap().1 + B::spec_deserialize(start.skip((A::spec_deserialize(start.skip((0nat) as int)).unwrap().1) as int)).unwrap().1) as int)).unwrap().1) as int)).unwrap().1) as int)).unwrap().1))?;
        let x6 = deserialize_next::<G>(buffer, Ghost(start), Ghost(A::spec_deserialize(start.skip((0nat) as int)).unwrap().1 + B::spec_deserialize(start.skip((A::spec_deserialize(start.skip((0nat) as int)).unwrap().1) as int)).unwrap().1 + C::spec_deserialize(start.skip((A::spec_deserialize(start.skip((0nat) as int)).unwrap().1 + B::spec_deserialize(start.skip((A::spec_deserialize(start.skip((0nat) as int)).unwrap().1) as int)).unwrap().1) as int)).unwrap().1 + D::spec_deserialize(start.skip((A::spec_deserialize(start.skip((0nat) as int)).unwrap().1 + B::spec_deserialize(start.skip((A::spec_deserialize(start.skip((0nat) as int)).unwrap().1) as int)).unwrap().1 + C::spec_deserialize(start.skip((A::spec_deserialize(start.skip((0nat) as int)).unwrap().1 + B::spec_deserialize(start.skip((A::spec_deserialize(start.skip((0nat) as int)).unwrap().1) as int)).unwrap().1) as int)).unwrap().1) as int)).unwrap().1 + E::spec_deserialize(start.skip((A::spec_deserialize(start.skip((0nat) as int)).unwrap().1 + B::spec_deserialize(start.skip((A::spec_deserialize(start.skip((0nat) as int)).unwrap().1) as int)).unwrap().1 + C::spec_deserialize(start.skip((A::spec_deserialize(start.skip((0nat) as int)).unwrap().1 + B::spec_deserialize(start.skip((A::spec_deserialize(start.skip((0nat) as int)).unwrap().1) as int)).unwrap().1) as int)).unwrap().1 + D::spec_deserialize(start.skip((A::spec_deserialize(start.skip((0nat) as int)).unwrap().1 + B::spec_deserialize(start.skip((A::spec_deserialize(start.skip((0nat) as int)).unwrap().1) as int)).unwrap().1 + C::spec_deserialize(start.skip((A::spec_deserialize(start.skip((0nat) as int)).unwrap().1 + B::spec_deserialize(start.skip((A::spec_deserialize(start.skip((0nat) as int)).unwrap().1) as int)).unwrap().1) as int)).unwrap().1) as int)).unwrap().1) as int)).unwrap().1 + F::spec_deserialize(start.skip((A::spec_deserialize(start.skip((0nat) as int)).unwrap().1 + B::spec_deserialize(start.skip((A::spec_deserialize(start.skip((0nat) as int)).unwrap().1) as int)).unwrap().1 + C::spec_deserialize(start.skip((A::spec_deserialize(start.skip((0nat) as int)).unwrap().1 + B::spec_deserialize(start.skip((A::spec_deserialize(start.skip((0nat) as int)).unwrap().1) as int)).unwrap().1) as int)).unwrap().1 + D::spec_deserialize(start.skip((A::spec_deserialize(start.skip((0nat) as int)).unwrap().1 + B::spec_deserialize(start.skip((A::spec_deserialize(start.skip((0nat) as int)).unwrap().1) as int)).unwrap().1 + C::spec_deserialize(start.skip((A::spec_deserialize(start.skip((0nat) as int)).unwrap().1 + B::spec_deserialize(start.skip((A::spec_deserialize(start.skip((0nat) as int)).unwrap().1) as int)).unwrap().1) as int)).unwrap().1) as int)).unwrap().1 + E::spec_deserialize(start.skip((A::spec_deserialize(start.skip((0nat) as int)).unwrap().1 + B::spec_deserialize(start.skip((A::spec_deserialize(start.skip((0nat) as int)).unwrap().1) as int)).unwrap().1 + C::spec_deserialize(start.skip((A::spec_deserialize(start.skip((0nat) as int)).unwrap().1 + B::spec_deserialize(start.skip((A::spec_deserialize(start.skip((0nat) as int)).unwrap().1) as int)).unwrap().1) as int)).unwrap().1 + D::spec_deserialize(start.skip((A::spec_deserialize(start.skip((0nat) as int)).unwrap().1 + B::spec_deserialize(start.skip((A::spec_deserialize(start.skip((0nat) as int)).unwrap().1) as int)).unwrap().1 + C::spec_deserialize(start.skip((A::spec_deserialize(start.skip((0nat) as int)).unwrap().1 + B::spec_deserialize(start.skip((A::spec_deserialize(start.skip((0nat) as int)).unwrap().1) as int)).unwrap().1) as int)).unwrap().1) as int)).unwrap().1) as int)).unwrap().1) as int)).unwrap().1))?;
        let x7 = deserialize_next::<H>(buffer, Ghost(start), Ghost(A::spec_deserialize(start.skip((0nat) as int)).unwrap().1 + B::spec_deserialize(start.skip((A::spec_deserialize(start.skip((0nat) as int)).unwrap().1) as int)).unwrap().1 + C::spec_deserialize(start.skip((A::spec_deserialize(start.skip((0nat) as int)).unwrap().1 + B::spec_deserialize(start.skip((A::spec_deserialize(start.skip((0nat) as int)).unwrap().1) as int)).unwrap().1) as int)).unwrap().1 + D::spec_deserialize(start.skip((A::spec_deserialize(start.skip((0nat) as int)).unwrap().1 + B::spec_deserialize(start.skip((A::spec_deserialize(start.skip((0nat) as int)).unwrap().1) as int)).unwrap().1 + C::spec_deserialize(start.skip((A::spec_deserialize(start.skip((0nat) as int)).unwrap().1 + B::spec_deserialize(start.skip((A::spec_deserialize(start.skip((0nat) as int)).unwrap().1) as int)).unwrap().1) as int)).unwrap().1) as int)).unwrap().1 + E::spec_deserialize(start.skip((A::spec_deserialize(start.skip((0nat) as int)).unwrap().1 + B::spec_deserialize(start.skip((A::spec_deserialize(start.skip((0nat) as int)).unwrap().1) as int)).unwrap().1 + C::spec_deserialize(start.skip((A::spec_deserialize(start.skip((0nat) as int)).unwrap().1 + B::spec_deserialize(start.skip((A::spec_deserialize(start.skip((0nat) as int)).unwrap().1) as int)).unwrap().1) as int)).unwrap().1 + D::spec_deserialize(start.skip((A::spec_deserialize(start.skip((0nat) as int)).unwrap().1 + B::spec_deserialize(start.skip((A::spec_deserialize(start.skip((0nat) as int)).unwrap().1) as int)).unwrap().1 + C::spec_deserialize(start.skip((A::spec_deserialize(start.skip((0nat) as int)).unwrap().1 + B::spec_deserialize(start.skip((A::spec_deserialize(start.skip((0nat) as int)).unwrap().1) as int)).unwrap().1) as int)).unwrap().1) as int)).unwrap().1) as int)).unwrap().1 + F::spec_deserialize(start.skip((A::spec_deserialize(start.skip((0nat) as int)).unwrap().1 + B::spec_deserialize(start.skip((A::spec_deserialize(start.skip((0nat) as int)).unwrap().1) as int)).unwrap().1 + C::spec_deserialize(start.skip((A::spec_deserialize(start.skip((0nat) as int)).unwrap().1 + B::spec_deserialize(start.skip((A::spec_deserialize(start.skip((0nat) as int)).unwrap().1) as int)).unwrap().1) as int)).unwrap().1 + D::spec_deserialize(start.skip((A::spec_deserialize(start.skip((0nat) as int)).unwrap().1 + B::spec_deserialize(start.skip((A::spec_deserialize(start.skip((0nat) as int)).unwrap().1) as int)).unwrap().1 + C::spec_deserialize(start.skip((A::spec_deserialize(start.skip((0nat) as int)).unwrap().1 + B::spec_deserialize(start.skip((A::spec_deserialize(start.skip((0nat) as int)).unwrap().1) as int)).unwrap().1) as int)).unwrap().1) as int)).unwrap().1 + E::spec_deserialize(start.skip((A::spec_deserialize(start.skip((0nat) as int)).unwrap().1 + B::spec_deserialize(start.skip((A::spec_deserialize(start.skip((0nat) as int)).unwrap().1) as int)).unwrap().1 + C::spec_deserialize(start.skip((A::spec_deserialize(start.skip((0nat) as int)).unwrap().1 + B::spec_deserialize(start.skip((A::spec_deserialize(start.skip((0nat) as int)).unwrap().1) as int)).unwrap().1) as int)).unwrap().1 + D::spec_deserialize(start.skip((A::spec_deserialize(start.skip((0nat) as int)).unwrap().1 + B::spec_deserialize(start.skip((A::spec_deserialize(start.skip((0nat) as int)).unwrap().1) as int)).unwrap().1 + C::spec_deserialize(start.skip((A::spec_deserialize(start.skip((0nat) as int)).unwrap().1 + B::spec_deserialize(start.skip((A::spec_deserialize(start.skip((0nat) as int)).unwrap().1) as int)).unwrap().1) as int)).unwrap().1) as int)).unwrap().1) as int)).unwrap().1) as int)).unwrap().1 + G::spec_deserialize(start.skip((A::spec_deserialize(start.skip((0nat) as int)).unwrap().1 + B::spec_deserialize(start.skip((A::spec_deserialize(start.skip((0nat) as int)).unwrap().1) as int)).unwrap().1 + C::spec_deserialize(start.skip((A::spec_deserialize(start.skip((0nat) as int)).unwrap().1 + B::spec_deserialize(start.skip((A::spec_deserialize(start.skip((0nat) as int)).unwrap().1) as int)).unwrap().1) as int)).unwrap().1 + D::spec_deserialize(start.skip((A::spec_deserialize(start.skip((0nat) as int)).unwrap().1 + B::spec_deserialize(start.skip((A::spec_deserialize(start.skip((0nat) as int)).unwrap().1) as int)).unwrap().1 + C::spec_deserialize(start.skip((A::spec_deserialize(start.skip((0nat) as int)).unwrap().1 + B::spec_deserialize(start.skip((A::spec_deserialize(start.skip((0nat) as int)).unwrap().1) as int)).unwrap().1) as int)).unwrap().1) as int)).unwrap().1 + E::spec_deserialize(start.skip((A::spec_deserialize(start.skip((0nat) as int)).unwrap().1 + B::spec_deserialize(start.skip((A::spec_deserialize(start.skip((0nat) as int)).unwrap().1) as int)).unwrap().1 + C::spec_deserialize(start.skip((A::spec_deserialize(start.skip((0nat) as int)).unwrap().1 + B::spec_deserialize(start.skip((A::spec_deserialize(start.skip((0nat) as int)).unwrap().1) as int)).unwrap().1) as int)).unwrap().1 + D::spec_deserialize(start.skip((A::spec_deserialize(start.skip((0nat) as int)).unwrap().1 + B::spec_deserialize(start.skip((A::spec_deserialize(start.skip((0nat) as int)).unwrap().1) as int)).unwrap().1 + C::spec_deserialize(start.skip((A::spec_deserialize(start.skip((0nat) as int)).unwrap().1 + B::spec_deserialize(start.skip((A::spec_deserialize(start.skip((0nat) as int)).unwrap().1) as int)).unwrap().1) as int)).unwrap().1) as int)).unwrap().1) as int)).unwrap().1 + F::spec_deserialize(start.skip((A::spec_deserialize(start.skip((0nat) as int)).unwrap().1 + B::spec_deserialize(start.skip((A::spec_deserialize(start.skip((0nat) as int)).unwrap().1) as int)).unwrap().1 + C::spec_deserialize(start.skip((A::spec_deserialize(start.skip((0nat) as int)).unwrap().1 + B::spec_deserialize(start.skip((A::spec_deserialize(start.skip((0nat) as int)).unwrap().1) as int)).unwrap().1) as int)).unwrap().1 + D::spec_deserialize(start.skip((A::spec_deserialize(start.skip((0nat) as int)).unwrap().1 + B::spec_deserialize(start.skip((A::spec_deserialize(start.skip((0nat) as int)).unwrap().1) as int)).unwrap().1 + C::spec_deserialize(start.skip((A::spec_deserialize(start.skip((0nat) as int)).unwrap().1 + B::spec_deserialize(start.skip((A::spec_deserialize(start.skip((0nat) as int)).unwrap().1) as int)).unwrap().1) as int)).unwrap().1) as int)).unwrap().1 + E::spec_deserialize(start.skip((A::spec_deserialize(start.skip((0nat) as int)).unwrap().1 + B::spec_deserialize(start.skip((A::spec_deserialize(start.skip((0nat) as int)).unwrap().1) as int)).unwrap().1 + C::spec_deserialize(start.skip((A::spec_deserialize(start.skip((0nat) as int)).unwrap().1 + B::spec_deserialize(start.skip((A::spec_deserialize(start.skip((0nat) as int)).unwrap().1) as int)).unwrap().1) as int)).unwrap().1 + D::spec_deserialize(start.skip((A::spec_deserialize(start.skip((0nat) as int)).unwrap().1 + B::spec_deserialize(start.skip((A::spec_deserialize(start.skip((0nat) as int)).unwrap().1) as int)).unwrap().1 + C::spec_deserialize(start.skip((A::spec_deserialize(start.skip((0nat) as int)).unwrap().1 + B::spec_deserialize(start.skip((A::spec_deserialize(start.skip((0nat) as int)).unwrap().1) as int)).unwrap().1) as int)).unwrap().1) as int)).unwrap().1) as int)).unwrap().1) as int)).unwrap().1) as int)).unwrap().1))?;
        let x8 = deserialize_next::<I>(buffer, Ghost(start), Ghost(A::spec_deserialize(start.skip((0nat) as int)).unwrap().1 + B::spec_deserialize(start.skip((A::spec_deserialize(start.skip((0nat) as int)).unwrap().1) as int)).unwrap().1 + C::spec_deserialize(start.skip((A::spec_deserialize(start.skip((0nat) as int)).unwrap().1 + B::spec_deserialize(start.skip((A::spec_deserialize(start.skip((0nat) as int)).unwrap().1) as int)).unwrap().1) as int)).unwrap().1 + D::spec_deserialize(start.skip((A::spec_deserialize(start.skip((0nat) as int)).unwrap().1 + B::spec_deserialize(start.skip((A::spec_deserialize(start.skip((0nat) as int)).unwrap().1) as int)).unwrap().1 + C::spec_deserialize(start.skip((A::spec_deserialize(start.skip((0nat) as int)).unwrap().1 + B::spec_deserialize(start.skip((A::spec_deserialize(start.skip((0nat) as int)).unwrap().1) as int)).unwrap().1) as int)).unwrap().1) as int)).unwrap().1 + E::spec_deserialize(start.skip((A::spec_deserialize(start.skip((0nat) as int)).unwrap().1 + B::spec_deserialize(start.skip((A::spec_deserialize(start.skip((0nat) as int)).unwrap().1) as int)).unwrap().1 + C::spec_deserialize(start.skip((A::spec_deserialize(start.skip((0nat) as int)).unwrap().1 + B::spec_deserialize(start.skip((A::spec_deserialize(start.skip((0nat) as int)).unwrap().1) as int)).unwrap().1) as int)).unwrap().1 + D::spec_deserialize(start.skip((A::spec_deserialize(start.skip((0nat) as int)).unwrap().1 + B::spec_deserialize(start.skip((A::spec_deserialize(start.skip((0nat) as int)).unwrap().1) as int)).unwrap().1 + C::spec_deserialize(start.skip((A::spec_deserialize(start.skip((0nat) as int)).unwrap().1 + B::spec_deserialize(start.skip((A::spec_deserialize(start.skip((0nat) as int)).unwrap().1) as int)).unwrap().1) as int)).unwrap().1) as int)).unwrap().1) as int)).unwrap().1 + F::spec_deserialize(start.skip((A::spec_deserialize(start.skip((0nat) as int)).unwrap().1 + B::spec_deserialize(start.skip((A::spec_deserialize(start.skip((0nat) as int)).unwrap().1) as int)).unwrap().1 + C::spec_deserialize(start.skip((A::spec_deserialize(start.skip((0nat) as int)).unwrap().1 + B::spec_deserialize(start.skip((A::spec_deserialize(start.skip((0nat) as int)).unwrap().1) as int)).unwrap().1) as int)).unwrap().1 + D::spec_deserialize(start.skip((A::spec_deserialize(start.skip((0nat) as int)).unwrap().1 + B::spec_deserialize(start.skip((A::spec_deserialize(start.skip((0nat) as int)).unwrap().1) as int)).unwrap().1 + C::spec_deserialize(start.skip((A::spec_deserialize(start.skip((0nat) as int)).unwrap().1 + B::spec_deserialize(start.skip((A::spec_deserialize(start.skip((0nat) as int)).unwrap().1) as int)).unwrap().1) as int)).unwrap().1) as int)).unwrap().1 + E::spec_deserialize(start.skip((A::spec_deserialize(start.skip((0nat) as int)).unwrap().1 + B::spec_deserialize(start.skip((A::spec_deserialize(start.skip((0nat) as int)).unwrap().1) as int)).unwrap().1 + C::spec_deserialize(start.skip((A::spec_deserialize(start.skip((0nat) as int)).unwrap().1 + B::spec_deserialize(start.skip((A::spec_deserialize(start.skip((0nat) as int)).unwrap().1) as int)).unwrap().1) as int)).unwrap().1 + D::spec_deserialize(start.skip((A::spec_deserialize(start.skip((0nat) as int)).unwrap().1 + B::spec_deserialize(start.skip((A::spec_deserialize(start.skip((0nat) as int)).unwrap().1) as int)).unwrap().1 + C::spec_deserialize(start.skip((A::spec_deserialize(start.skip((0nat) as int)).unwrap().1 + B::spec_deserialize(start.skip((A::spec_deserialize(start.skip((0nat) as int)).unwrap().1) as int)).unwrap().1) as int)).unwrap().1) as int)).unwrap().1) as int)).unwrap().1) as int)).unwrap().1 + G::spec_deserialize(start.skip((A::spec_deserialize(start.skip((0nat) as int)).unwrap().1 + B::spec_deserialize(start.skip((A::spec_deserialize(start.skip((0nat) as int)).unwrap().1) as int)).unwrap().1 + C::spec_deserialize(start.skip((A::spec_deserialize(start.skip((0nat) as int)).unwrap().1 + B::spec_deserialize(start.skip((A::spec_deserialize(start.skip((0nat) as int)).unwrap().1) as int)).unwrap().1) as int)).unwrap().1 + D::spec_deserialize(start.skip((A::spec_deserialize(start.skip((0nat) as int)).unwrap().1 + B::spec_deserialize(start.skip((A::spec_deserialize(start.skip((0nat) as int)).unwrap().1) as int)).unwrap().1 + C::spec_deserialize(start.skip((A::spec_deserialize(start.skip((0nat) as int)).unwrap().1 + B::spec_deserialize(start.skip((A::spec_deserialize(start.skip((0nat) as int)).unwrap().1) as int)).unwrap().1) as int)).unwrap().1) as int)).unwrap().1 + E::spec_deserialize(start.skip((A::spec_deserialize(start.skip((0nat) as int)).unwrap().1 + B::spec_deserialize(start.skip((A::spec_deserialize(start.skip((0nat) as int)).unwrap().1) as int)).unwrap().1 + C::spec_deserialize(start.skip((A::spec_deserialize(start.skip((0nat) as int)).unwrap().1 + B::spec_deserialize(start.skip((A::spec_deserialize(start.skip((0nat) as int)).unwrap().1) as int)).unwrap().1) as int)).unwrap().1 + D::spec_deserialize(start.skip((A::spec_deserialize(start.skip((0nat) as int)).unwrap().1 + B::spec_deserialize(start.skip((A::spec_deserialize(start.skip((0nat) as int)).unwrap().1) as int)).unwrap().1 + C::spec_deserialize(start.skip((A::spec_deserialize(start.skip((0nat) as int)).unwrap().1 + B::spec_deserialize(start.skip((A::spec_deserialize(start.skip((0nat) as int)).unwrap().1) as int)).unwrap().1) as int)).unwrap().1) as int)).unwrap().1) as int)).unwrap().1 + F::spec_deserialize(start.skip((A::spec_deserialize(start.skip((0nat) as int)).unwrap().1 + B::spec_deserialize(start.skip((A::spec_deserialize(start.skip((0nat) as int)).unwrap().1) as int)).unwrap().1 + C::spec_deserialize(start.skip((A::spec_deserialize(start.skip((0nat) as int)).unwrap().1 + B::spec_deserialize(start.skip((A::spec_deserialize(start.skip((0nat) as int)).unwrap().1) as int)).unwrap().1) as int)).unwrap().1 + D::spec_deserialize(start.skip((A::spec_deserialize(start.skip((0nat) as int)).unwrap().1 + B::spec_deserialize(start.skip((A::spec_deserialize(start.skip((0nat) as int)).unwrap().1) as int)).unwrap().1 + C::spec_deserialize(start.skip((A::spec_deserialize(start.skip((0nat) as int)).unwrap().1 + B::spec_deserialize(start.skip((A::spec_deserialize(start.skip((0nat) as int)).unwrap().1) as int)).unwrap().1) as int)).unwrap().1) as int)).unwrap().1 + E::spec_deserialize(start.skip((A::spec_deserialize(start.skip((0nat) as int)).unwrap().1 + B::spec_deserialize(start.skip((A::spec_deserialize(start.skip((0nat) as int)).unwrap().1) as int)).unwrap().1 + C::spec_deserialize(start.skip((A::spec_deserialize(start.skip((0nat) as int)).unwrap().1 + B::spec_deserialize(start.skip((A::spec_deserialize(start.skip((0nat) as int)).unwrap().1) as int)).unwrap().1) as int)).unwrap().1 + D::spec_deserialize(start.skip((A::spec_deserialize(start.skip((0nat) as int)).unwrap().1 + B::spec_deserialize(start.skip((A::spec_deserialize(start.skip((0nat) as int)).unwrap().1) as int)).unwrap().1 + C::spec_deserialize(start.skip((A::spec_deserialize(start.skip((0nat) as int)).unwrap().1 + B::spec_deserialize(start.skip((A::spec_deserialize(start.skip((0nat) as int)).unwrap().1) as int)).unwrap().1) as int)).unwrap().1) as int)).unwrap().1) as int)).unwrap().1) as int)).unwrap().1) as int)).unwrap().1 + H::spec_deserialize(start.skip((A::spec_deserialize(start.skip((0nat) as int)).unwrap().1 + B::spec_deserialize(start.skip((A::spec_deserialize(start.skip((0nat) as int)).unwrap().1) as int)).unwrap().1 + C::spec_deserialize(start.skip((A::spec_deserialize(start.skip((0nat) as int)).unwrap().1 + B::spec_deserialize(start.skip((A::spec_deserialize(start.skip((0nat) as int)).unwrap().1) as int)).unwrap().1) as int)).unwrap().1 + D::spec_deserialize(start.skip((A::spec_deserialize(start.skip((0nat) as int)).unwrap().1 + B::spec_deserialize(start.skip((A::spec_deserialize(start.skip((0nat) as int)).unwrap().1) as int)).unwrap().1 + C::spec_deserialize(start.skip((A::spec_deserialize(start.skip((0nat) as int)).unwrap().1 + B::spec_deserialize(start.skip((A::spec_deserialize(start.skip((0nat) as int)).unwrap().1) as int)).unwrap().1) as int)).unwrap().1) as int)).unwrap().1 + E::spec_deserialize(start.skip((A::spec_deserialize(start.skip((0nat) as int)).unwrap().1 + B::spec_deserialize(start.skip((A::spec_deserialize(start.skip((0nat) as int)).unwrap().1) as int)).unwrap().1 + C::spec_deserialize(start.skip((A::spec_deserialize(start.skip((0nat) as int)).unwrap().1 + B::spec_deserialize(start.skip((A::spec_deserialize(start.skip((0nat) as int)).unwrap().1) as int)).unwrap().1) as int)).unwrap().1 + D::spec_deserialize(start.skip((A::spec_deserialize(start.skip((0nat) as int)).unwrap().1 + B::spec_deserialize(start.skip((A::spec_deserialize(start.skip((0nat) as int)).unwrap().1) as int)).unwrap().1 + C::spec_deserialize(start.skip((A::spec_deserialize(start.skip((0nat) as int)).unwrap().1 + B::spec_deserialize(start.skip((A::spec_deserialize(start.skip((0nat) as int)).unwrap().1) as int)).unwrap().1) as int)).unwrap().1) as int)).unwrap().1) as int)).unwrap().1 + F::spec_deserialize(start.skip((A::spec_deserialize(start.skip((0nat) as int)).unwrap().1 + B::spec_deserialize(start.skip((A::spec_deserialize(start.skip((0nat) as int)).unwrap().1) as int)).unwrap().1 + C::spec_deserialize(start.skip((A::spec_deserialize(start.skip((0nat) as int)).unwrap().1 + B::spec_deserialize(start.skip((A::spec_deserialize(start.skip((0nat) as int)).unwrap().1) as int)).unwrap().1) as int)).unwrap().1 + D::spec_deserialize(start.skip((A::spec_deserialize(start.skip((0nat) as int)).unwrap().1 + B::spec_deserialize(start.skip((A::spec_deserialize(start.skip((0nat) as int)).unwrap().1) as int)).unwrap().1 + C::spec_deserialize(start.skip((A::spec_deserialize(start.skip((0nat) as int)).unwrap().1 + B::spec_deserialize(start.skip((A::spec_deserialize(start.skip((0nat) as int)).unwrap().1) as int)).unwrap().1) as int)).unwrap().1) as int)).unwrap().1 + E::spec_deserialize(start.skip((A::spec_deserialize(start.skip((0nat) as int)).unwrap().1 + B::spec_deserialize(start.skip((A::spec_deserialize(start.skip((0nat) as int)).unwrap().1) as int)).unwrap().1 + C::spec_deserialize(start.skip((A::spec_deserialize(start.skip((0nat) as int)).unwrap().1 + B::spec_deserialize(start.skip((A::spec_deserialize(start.skip((0nat) as int)).unwrap().1) as int)).unwrap().1) as int)).unwrap().1 + D::spec_deserialize(start.skip((A::spec_deserialize(start.skip((0nat) as int)).unwrap().1 + B::spec_deserialize(start.skip((A::spec_deserialize(start.skip((0nat) as int)).unwrap().1) as int)).unwrap().1 + C::spec_deserialize(start.skip((A::spec_deserialize(start.skip((0nat) as int)).unwrap().1 + B::spec_deserialize(start.skip((A::spec_deserialize(start.skip((0nat) as int)).unwrap().1) as int)).unwrap().1) as int)).unwrap().1) as int)).unwrap().1) as int)).unwrap().1) as int)).unwrap().1 + G::spec_deserialize(start.skip((A::spec_deserialize(start.skip((0nat) as int)).unwrap().1 + B::spec_deserialize(start.skip((A::spec_deserialize(start.skip((0nat) as int)).unwrap().1) as int)).unwrap().1 + C::spec_deserialize(start.skip((A::spec_deserialize(start.skip((0nat) as int)).unwrap().1 + B::spec_deserialize(start.skip((A::spec_deserialize(start.skip((0nat) as int)).unwrap().1) as int)).unwrap().1) as int)).unwrap().1 + D::spec_deserialize(start.skip((A::spec_deserialize(start.skip((0nat) as int)).unwrap().1 + B::spec_deserialize(start.skip((A::spec_deserialize(start.skip((0nat) as int)).unwrap().1) as int)).unwrap().1 + C::spec_deserialize(start.skip((A::spec_deserialize(start.skip((0nat) as int)).unwrap().1 + B::spec_deserialize(start.skip((A::spec_deserialize(start.skip((0nat) as int)).unwrap().1) as int)).unwrap().1) as int)).unwrap().1) as int)).unwrap().1 + E::spec_deserialize(start.skip((A::spec_deserialize(start.skip((0nat) as int)).unwrap().1 + B::spec_deserialize(start.skip((A::spec_deserialize(start.skip((0nat) as int)).unwrap().1) as int)).unwrap().1 + C::spec_deserialize(start.skip((A::spec_deserialize(start.skip((0nat) as int)).unwrap().1 + B::spec_deserialize(start.skip((A::spec_deserialize(start.skip((0nat) as int)).unwrap().1) as int)).unwrap().1) as int)).unwrap().1 + D::spec_deserialize(start.skip((A::spec_deserialize(start.skip((0nat) as int)).unwrap().1 + B::spec_deserialize(start.skip((A::spec_deserialize(start.skip((0nat) as int)).unwrap().1) as int)).unwrap().1 + C::spec_deserialize(start.skip((A::spec_deserialize(start.skip((0nat) as int)).unwrap().1 + B::spec_deserialize(start.skip((A::spec_deserialize(start.skip((0nat) as int)).unwrap().1) as int)).unwrap().1) as int)).unwrap().1) as int)).unwrap().1) as int)).unwrap().1 + F::spec_deserialize(start.skip((A::spec_deserialize(start.skip((0nat) as int)).unwrap().1 + B::spec_deserialize(start.skip((A::spec_deserialize(start.skip((0nat) as int)).unwrap().1) as int)).unwrap().1 + C::spec_deserialize(start.skip((A::spec_deserialize(start.skip((0nat) as int)).unwrap().1 + B::spec_deserialize(start.skip((A::spec_deserialize(start.skip((0nat) as int)).unwrap().1) as int)).unwrap().1) as int)).unwrap().1 + D::spec_deserialize(start.skip((A::spec_deserialize(start.skip((0nat) as int)).unwrap().1 + B::spec_deserialize(start.skip((A::spec_deserialize(start.skip((0nat) as int)).unwrap().1) as int)).unwrap().1 + C::spec_deserialize(start.skip((A::spec_deserialize(start.skip((0nat) as int)).unwrap().1 + B::spec_deserialize(start.skip((A::spec_deserialize(start.skip((0nat) as int)).unwrap().1) as int)).unwrap().1) as int)).unwrap().1) as int)).unwrap().1 + E::spec_deserialize(start.skip((A::spec_deserialize(start.skip((0nat) as int)).unwrap().1 + B::spec_deserialize(start.skip((A::spec_deserialize(start.skip((0nat) as int)).unwrap().1) as int)).unwrap().1 + C::spec_deserialize(start.skip((A::spec_deserialize(start.skip((0nat) as int)).unwrap().1 + B::spec_deserialize(start.skip((A::spec_deserialize(start.skip((0nat) as int)).unwrap().1) as int)).unwrap().1) as int)).unwrap().1 + D::spec_deserialize(start.skip((A::spec_deserialize(start.skip((0nat) as int)).unwrap().1 + B::spec_deserialize(start.skip((A::spec_deserialize(start.skip((0nat) as int)).unwrap().1) as int)).unwrap().1 + C::spec_deserialize(start.skip((A::spec_deserialize(start.skip((0nat) as int)).unwrap().1 + B::spec_deserialize(start.skip((A::spec_deserialize(start.skip((0nat) as int)).unwrap().1) as int)).unwrap().1) as int)).unwrap().1) as int)).unwrap().1) as int)).unwrap().1) as int)).unwrap().1) as int)).unwrap().1) as int)).unwrap().1))?;
        Ok((x0, x1, x2, x3, x4, x5, x6, x7, x8))
    }

    fn size_hint() -> (result: Option<usize>) {
        let h0 = match A::size_hint() { Some(h) => h, None => return None };
        let h0 = match 0usize.checked_add(h0) { Some(h) => h, None => return None };
        let h1 = match B::size_hint() { Some(h) => h, None => return None };
        let h1 = match h0.checked_add(h1) { Some(h) => h, None => return None };
        let h2 = match C::size_hint() { Some(h) => h, None => return None };
        let h2 = match h1.checked_add(h2) { Some(h) => h, None => return None };
        let h3 = match D::size_hint() { Some(h) => h, None => return None };
        let h3 = match h2.checked_add(h3) { Some(h) => h, None => return None };
        let h4 = match E::size_hint() { Some(h) => h, None => return None };
        let h4 = match h3.checked_add(h4) { Some(h) => h, None => return None };
        let h5 = match F::size_hint() { Some(h) => h, None => return None };
        let h5 = match h4.checked_add(h5) { Some(h) => h, None => return None };
        let h6 = match G::size_hint() { Some(h) => h, None => return None };
        let h6 = match h5.checked_add(h6) { Some(h) => h, None => return None };
        let h7 = match H::size_hint() { Some(h) => h, None => return None };
        let h7 = match h6.checked_add(h7) { Some(h) => h, None => return None };
        let h8 = match I::size_hint() { Some(h) => h, None => return None };
        let h8 = match h7.checked_add(h8) { Some(h) => h, None => return None };
        Some(h8)
    }
}

impl<A: Deserialize<Output = A> + DeepView, B: Deserialize<Output = B> + DeepView, C: Deserialize<Output = C> + DeepView, D: Deserialize<Output = D> + DeepView, E: Deserialize<Output = E> + DeepView, F: Deserialize<Output = F> + DeepView, G: Deserialize<Output = G> + DeepView, H: Deserialize<Output = H> + DeepView, I: Deserialize<Output = I> + DeepView, J: Deserialize<Output = J> + DeepView> Deserialize for (A, B, C, D, E, F, G, H, I, J) {
    type Output = Self;

    open spec fn spec_deserialize(input: Seq<u8>) -> Result<(<Self as DeepView>::V, nat), DeserializeError> {
        match A::spec_deserialize(input) {
            Err(e) => Err(e),
            Ok((v0, n0)) => match B::spec_deserialize(input.skip((n0) as int)) {
            Err(e) => Err(e),
            Ok((v1, n1)) => match C::spec_deserialize(input.skip((n0 + n1) as int)) {
            Err(e) => Err(e),
            Ok((v2, n2)) => match D::spec_deserialize(input.skip((n0 + n1 + n2) as int)) {
            Err(e) => Err(e),
            Ok((v3, n3)) => match E::spec_deserialize(input.skip((n0 + n1 + n2 + n3) as int)) {
            Err(e) => Err(e),
            Ok((v4, n4)) => match F::spec_deserialize(input.skip((n0 + n1 + n2 + n3 + n4) as int)) {
            Err(e) => Err(e),
            Ok((v5, n5)) => match G::spec_deserialize(input.skip((n0 + n1 + n2 + n3 + n4 + n5) as int)) {
            Err(e) => Err(e),
            Ok((v6, n6)) => match H::spec_deserialize(input.skip((n0 + n1 + n2 + n3 + n4 + n5 + n6) as int)) {
            Err(e) => Err(e),
            Ok((v7, n7)) => match I::spec_deserialize(input.skip((n0 + n1 + n2 + n3 + n4 + n5 + n6 + n7) as int)) {
            Err(e) => Err(e),
            Ok((v8, n8)) => match J::spec_deserialize(input.skip((n0 + n1 + n2 + n3 + n4 + n5 + n6 + n7 + n8) as int)) {
            Err(e) => Err(e),
            Ok((v9, n9)) => Ok(((v0, v1, v2, v3, v4, v5, v6, v7, v8, v9), n0 + n1 + n2 + n3 + n4 + n5 + n6 + n7 + n8 + n9)),
        },
        },
        },
        },
        },
        },
        },
        },
        },
        }
    }

    open spec fn spec_size_hint() -> Option<usize> {
        add_sizes(add_sizes(add_sizes(add_sizes(add_sizes(add_sizes(add_sizes(add_sizes(add_sizes(add_sizes(Some(0usize), A::spec_size_hint()), B::spec_size_hint()), C::spec_size_hint()), D::spec_size_hint()), E::spec_size_hint()), F::spec_size_hint()), G::spec_size_hint()), H::spec_size_hint()), I::spec_size_hint()), J::spec_size_hint())
    }

    fn deserialize(buffer: &mut Reader) -> (result: Result<Self::Output, DeserializeError>) {
        let ghost start = buffer@;
        assert(start.skip(0) =~= start);
        let x0 = deserialize_next::<A>(buffer, Ghost(start), Ghost(0nat))?;
        let x1 = deserialize_next::<B>(buffer, Ghost(start), Ghost(A::spec_deserialize(start.skip((0nat) as int)).unwrap().1))?;
        let x2 = deserialize_next::<C>(buffer, Ghost(start), Ghost(A::spec_deserialize(start.skip((0nat) as int)).unwrap().1 + B::spec_deserialize(start.skip((A::spec_deserialize(start.skip((0nat) as int)).unwrap().1) as int)).unwrap().1))?;
        let x3 = deserialize_next::<D>(buffer, Ghost(start), Ghost(A::spec_deserialize(start.skip((0nat) as int)).unwrap().1 + B::spec_deserialize(start.skip((A::spec_deserialize(start.skip((0nat) as int)).unwrap().1) as int)).unwrap().1 + C::spec_deserialize(start.skip((A::spec_deserialize(start.skip((0nat) as int)).unwrap().1 + B::spec_deserialize(start.skip((A::spec_deserialize(start.skip((0nat) as int)).unwrap().1) as int)).unwrap().1) as int)).unwrap().1))?;
        let x4 = deserialize_next::<E>(buffer, Ghost(start), Ghost(A::spec_deserialize(start.skip((0nat) as int)).unwrap().1 + B::spec_deserialize(start.skip((A::spec_deserialize(start.skip((0nat) as int)).unwrap().1) as int)).unwrap().1 + C::spec_deserialize(start.skip((A::spec_deserialize(start.skip((0nat) as int)).unwrap().1 + B::spec_deserialize(start.skip((A::spec_deserialize(start.skip((0nat) as int)).unwrap().1) as int)).unwrap().1) as int)).unwrap().1 + D::spec_deserialize(start.skip((A::spec_deserialize(start.skip((0nat) as int)).unwrap().1 + B::spec_deserialize(start.skip((A::spec_deserialize(start.skip((0nat) as int)).unwrap().1) as int)).unwrap().1 + C::spec_deserialize(start.skip((A::spec_deserialize(start.skip((0nat) as int)).unwrap().1 + B::spec_deserialize(start.skip((A::spec_deserialize(start.skip((0nat) as int)).unwrap().1) as int)).unwrap().1) as int)).unwrap().1) as int)).unwrap().1))?;
        let x5 = deserialize_next::<F>(buffer, Ghost(start), Ghost(A::spec_deserialize(start.skip((0nat) as int)).unwrap().1 + B::spec_deserialize(start.skip((A::spec_deserialize(start.skip((0nat) as int)).unwrap().1) as int)).unwrap().1 + C::spec_deserialize(start.skip((A::spec_deserialize(start.skip((0nat) as int)).unwrap().1 + B::spec_deserialize(start.skip((A::spec_deserialize(start.skip((0nat) as int)).unwrap().1) as int)).unwrap().1) as int)).unwrap().1 + D::spec_deserialize(start.skip((A::spec_deserialize(start.skip((0nat) as int)).unwrap().1 + B::spec_deserialize(start.skip((A::spec_deserialize(start.skip((0nat) as int)).unwrap().1) as int)).unwrap().1 + C::spec_deserialize(start.skip((A::spec_deserialize(start.skip((0nat) as int)).unwrap().1 + B::spec_deserialize(start.skip((A::spec_deserialize(start.skip((0nat) as int)).unwrap().1) as int)).unwrap().1) as int)).unwrap().1) as int)).unwrap().1 + E::spec_deserialize(start.skip((A::spec_deserialize(start.skip((0nat) as int)).unwrap().1 + B::spec_deserialize(start.skip((A::spec_deserialize(start.skip((0nat) as int)).unwrap().1) as int)).unwrap().1 + C::spec_deserialize(start.skip((A::spec_deserialize(start.skip((0nat) as int)).unwrap().1 + B::spec_deserialize(start.skip((A::spec_deserialize(start.skip((0nat) as int)).unwrap().1) as int)).unwrap().1) as int)).unwrap().1 + D::spec_deserialize(start.skip((A::spec_deserialize(start.skip((0nat) as int)).unwrap().1 + B::spec_deserialize(start.skip((A::spec_deserialize(start.skip((0nat) as int)).unwrap().1) as int)).unwrap().1 + C::spec_deserialize(start.skip((A::spec_deserialize(start.skip((0nat) as int)).unwrap().1 + B::spec_deserialize(start.skip((A::spec_deserialize(start.skip((0nat) as int)).unwrap().1) as int)).unwrap().1) as int)).unwrap().1) as int)).unwrap().1) as int)).unwrap().1))?;
        let x6 = deserialize_next::<G>(buffer, Ghost(start), Ghost(A::spec_deserialize(start.skip((0nat) as int)).unwrap().1 + B::spec_deserialize(start.skip((A::spec_deserialize(start.skip((0nat) as int)).unwrap().1) as int)).unwrap().1 + C::spec_deserialize(start.skip((A::spec_deserialize(start.skip((0nat) as int)).unwrap().1 + B::spec_deserialize(start.skip((A::spec_deserialize(start.skip((0nat) as int)).unwrap().1) as int)).unwrap().1) as int)).unwrap().1 + D::spec_deserialize(start.skip((A::spec_deserialize(start.skip((0nat) as int)).unwrap().1 + B::spec_deserialize(start.skip((A::spec_deserialize(start.skip((0nat) as int)).unwrap().1) as int)).unwrap().1 + C::spec_deserialize(start.skip((A::spec_deserialize(start.skip((0nat) as int)).unwrap().1 + B::spec_deserialize(start.skip((A::spec_deserialize(start.skip((0nat) as int)).unwrap().1) as int)).unwrap().1) as int)).unwrap().1) as int)).unwrap().1 + E::spec_deserialize(start.skip((A::spec_deserialize(start.skip((0nat) as int)).unwrap().1 + B::spec_deserialize(start.skip((A::spec_deserialize(start.skip((0nat) as int)).unwrap().1) as int)).unwrap().1 + C::spec_deserialize(start.skip((A::spec_deserialize(start.skip((0nat) as int)).unwrap().1 + B::spec_deserialize(start.skip((A::spec_deserialize(start.skip((0nat) as int)).unwrap().1) as int)).unwrap().1) as int)).unwrap().1 + D::spec_deserialize(start.skip((A::spec_deserialize(start.skip((0nat) as int)).unwrap().1 + B::spec_deserialize(start.skip((A::spec_deserialize(start.skip((0nat) as int)).unwrap().1) as int)).unwrap().1 + C::spec_deserialize(start.skip((A::spec_deserialize(start.skip((0nat) as int)).unwrap().1 + B::spec_deserialize(start.skip((A::spec_deserialize(start.skip((0nat) as int)).unwrap().1) as int)).unwrap().1) as int)).unwrap().1) as int)).unwrap().1) as int)).unwrap().1 + F::spec_deserialize(start.skip((A::spec_deserialize(start.skip((0nat) as int)).unwrap().1 + B::spec_deserialize(start.skip((A::spec_deserialize(start.skip((0nat) as int)).unwrap().1) as int)).unwrap().1 + C::spec_deserialize(start.skip((A::spec_deserialize(start.skip((0nat) as int)).unwrap().1 + B::spec_deserialize(start.skip((A::spec_deserialize(start.skip((0nat) as int)).unwrap().1) as int)).unwrap().1) as int)).unwrap().1 + D::spec_deserialize(start.skip((A::spec_deserialize(start.skip((0nat) as int)).unwrap().1 + B::spec_deserialize(start.skip((A::spec_deserialize(start.skip((0nat) as int)).unwrap().1) as int)).unwrap().1 + C::spec_deserialize(start.skip((A::spec_deserialize(start.skip((0nat) as int)).unwrap().1 + B::spec_deserialize(start.skip((A::spec_deserialize(start.skip((0nat) as int)).unwrap().1) as int)).unwrap().1) as int)).unwrap().1) as int)).unwrap().1 + E::spec_deserialize(start.skip((A::spec_deserialize(start.skip((0nat) as int)).unwrap().1 + B::spec_deserialize(start.skip((A::spec_deserialize(start.skip((0nat) as int)).unwrap().1) as int)).unwrap().1 + C::spec_deserialize(start.skip((A::spec_deserialize(start.skip((0nat) as int)).unwrap().1 + B::spec_deserialize(start.skip((A::spec_deserialize(start.skip((0nat) as int)).unwrap().1) as int)).unwrap().1) as int)).unwrap().1 + D::spec_deserialize(start.skip((A::spec_deserialize(start.skip((0nat) as int)).unwrap().1 + B::spec_deserialize(start.skip((A::spec_deserialize(start.skip((0nat) as int)).unwrap().1) as int)).unwrap().1 + C::spec_deserialize(start.skip((A::spec_deserialize(start.skip((0nat) as int)).unwrap().1 + B::spec_deserialize(start.skip((A::spec_deserialize(start.skip((0nat) as int)).unwrap().1) as int)).unwrap().1) as int)).unwrap().1) as int)).unwrap().1) as int)).unwrap().1) as int)).unwrap().1))?;
        let x7 = deserialize_next::<H>(buffer, Ghost(start), Ghost(A::spec_deserialize(start.skip((0nat) as int)).unwrap().1 + B::spec_deserialize(start.skip((A::spec_deserialize(start.skip((0nat) as int)).unwrap().1) as int)).unwrap().1 + C::spec_deserialize(start.skip((A::spec_deserialize(start.skip((0nat) as int)).unwrap().1 + B::spec_deserialize(start.skip((A::spec_deserialize(start.skip((0nat) as int)).unwrap().1) as int)).unwrap().1) as int)).unwrap().1 + D::spec_deserialize(start.skip((A::spec_deserialize(start.skip((0nat) as int)).unwrap().1 + B::spec_deserialize(start.skip((A::spec_deserialize(start.skip((0nat) as int)).unwrap().1) as int)).unwrap().1 + C::spec_deserialize(start.skip((A::spec_deserialize(start.skip((0nat) as int)).unwrap().1 + B::spec_deserialize(start.skip((A::spec_deserialize(start.skip((0nat) as int)).unwrap().1) as int)).unwrap().1) as int)).unwrap().1) as int)).unwrap().1 + E::spec_deserialize(start.skip((A::spec_deserialize(start.skip((0nat) as int)).unwrap().1 + B::spec_deserialize(start.skip((A::spec_deserialize(start.skip((0nat) as int)).unwrap().1) as int)).unwrap().1 + C::spec_deserialize(start.skip((A::spec_deserialize(start.skip((0nat) as int)).unwrap().1 + B::spec_deserialize(start.skip((A::spec_deserialize(start.skip((0nat) as int)).unwrap().1) as int)).unwrap().1) as int)).unwrap().1 + D::spec_deserialize(start.skip((A::spec_deserialize(start.skip((0nat) as int)).unwrap().1 + B::spec_deserialize(start.skip((A::spec_deserialize(start.skip((0nat) as int)).unwrap().1) as int)).unwrap().1 + C::spec_deserialize(start.skip((A::spec_deserialize(start.skip((0nat) as int)).unwrap().1 + B::spec_deserialize(start.skip((A::spec_deserialize(start.skip((0nat) as int)).unwrap().1) as int)).unwrap().1) as int)).unwrap().1) as int)).unwrap().1) as int)).unwrap().1 + F::spec_deserialize(start.skip((A::spec_deserialize(start.skip((0nat) as int)).unwrap().1 + B::spec_deserialize(start.skip((A::spec_deserialize(start.skip((0nat) as int)).unwrap().1) as int)).unwrap().1 + C::spec_deserialize(start.skip((A::spec_deserialize(start.skip((0nat) as int)).unwrap().1 + B::spec_deserialize(start.skip((A::spec_deserialize(start.skip((0nat) as int)).unwrap().1) as int)).unwrap().1) as int)).unwrap().1 + D::spec_deserialize(start.skip((A::spec_deserialize(start.skip((0nat) as int)).unwrap().1 + B::spec_deserialize(start.skip((A::spec_deserialize(start.skip((0nat) as int)).unwrap().1) as int)).unwrap().1 + C::spec_deserialize(start.skip((A::spec_deserialize(start.skip((0nat) as int)).unwrap().1 + B::spec_deserialize(start.skip((A::spec_deserialize(start.skip((0nat) as int)).unwrap().1) as int)).unwrap().1) as int)).unwrap().1) as int)).unwrap().1 + E::spec_deserialize(start.skip((A::spec_deserialize(start.skip((0nat) as int)).unwrap().1 + B::spec_deserialize(start.skip((A::spec_deserialize(start.skip((0nat) as int)).unwrap().1) as int)).unwrap().1 + C::spec_deserialize(start.skip((A::spec_deserialize(start.skip((0nat) as int)).unwrap().1 + B::spec_deserialize(start.skip((A::spec_deserialize(start.skip((0nat) as int)).unwrap().1) as int)).unwrap().1) as int)).unwrap().1 + D::spec_deserialize(start.skip((A::spec_deserialize(start.skip((0nat) as int)).unwrap().1 + B::spec_deserialize(start.skip((A::spec_deserialize(start.skip((0nat) as int)).unwrap().1) as int)).unwrap().1 + C::spec_deserialize(start.skip((A::spec_deserialize(start.skip((0nat) as int)).unwrap().1 + B::spec_deserialize(start.skip((A::spec_deserialize(start.skip((0nat) as int)).unwrap().1) as int)).unwrap().1) as int)).unwrap().1) as int)).unwrap().1) as int)).unwrap().1) as int)).unwrap().1 + G::spec_deserialize(start.skip((A::spec_deserialize(start.skip((0nat) as int)).unwrap().1 + B::spec_deserialize(start.skip((A::spec_deserialize(start.skip((0nat) as int)).unwrap().1) as int)).unwrap().1 + C::spec_deserialize(start.skip((A::spec_deserialize(start.skip((0nat) as int)).unwrap().1 + B::spec_deserialize(start.skip((A::spec_deserialize(start.skip((0nat) as int)).unwrap().1) as int)).unwrap().1) as int)).unwrap().1 + D::spec_deserialize(start.skip((A::spec_deserialize(start.skip((0nat) as int)).unwrap().1 + B::spec_deserialize(start.skip((A::spec_deserialize(start.skip((0nat) as int)).unwrap().1) as int)).unwrap().1 + C::spec_deserialize(start.skip((A::spec_deserialize(start.skip((0nat) as int)).unwrap().1 + B::spec_deserialize(start.skip((A::spec_deserialize(start.skip((0nat) as int)).unwrap().1) as int)).unwrap().1) as int)).unwrap().1) as int)).unwrap().1 + E::spec_deserialize(start.skip((A::spec_deserialize(start.skip((0nat) as int)).unwrap().1 + B::spec_deserialize(start.skip((A::spec_deserialize(start.skip((0nat) as int)).unwrap().1) as int)).unwrap().1 + C::spec_deserialize(start.skip((A::spec_deserialize(start.skip((0nat) as int)).unwrap().1 + B::spec_deserialize(start.skip((A::spec_deserialize(start.skip((0nat) as int)).unwrap().1) as int)).unwrap().1) as int)).unwrap().1 + D::spec_deserialize(start.skip((A::spec_deserialize(start.skip((0nat) as int)).unwrap().1 + B::spec_deserialize(start.skip((A::spec_deserialize(start.skip((0nat) as int)).unwrap().1) as int)).unwrap().1 + C::spec_deserialize(start.skip((A::spec_deserialize(start.skip((0nat) as int)).unwrap().1 + B::spec_deserialize(start.skip((A::spec_deserialize(start.skip((0nat) as int)).unwrap().1) as int)).unwrap().1) as int)).unwrap().1) as int)).unwrap().1) as int)).unwrap().1 + F::spec_deserialize(start.skip((A::spec_deserialize(start.skip((0nat) as int)).unwrap().1 + B::spec_deserialize(start.skip((A::spec_deserialize(start.skip((0nat) as int)).unwrap().1) as int)).unwrap().1 + C::spec_deserialize(start.skip((A::spec_deserialize(start.skip((0nat) as int)).unwrap().1 + B::spec_deserialize(start.skip((A::spec_deserialize(start.skip((0nat) as int)).unwrap().1) as int)).unwrap().1) as int)).unwrap().1 + D::spec_deserialize(start.skip((A::spec_deserialize(start.skip((0nat) as int)).unwrap().1 + B::spec_deserialize(start.skip((A::spec_deserialize(start.skip((0nat) as int)).unwrap().1) as int)).unwrap().1 + C::spec_deserialize(start.skip((A::spec_deserialize(start.skip((0nat) as int)).unwrap().1 + B::spec_deserialize(start.skip((A::spec_deserialize(start.skip((0nat) as int)).unwrap().1) as int)).unwrap().1) as int)).unwrap().1) as int)).unwrap().1 + E::spec_deserialize(start.skip((A::spec_deserialize(start.skip((0nat) as int)).unwrap().1 + B::spec_deserialize(start.skip((A::spec_deserialize(start.skip((0nat) as int)).unwrap().1) as int)).unwrap().1 + C::spec_deserialize(start.skip((A::spec_deserialize(start.skip((0nat) as int)).unwrap().1 + B::spec_deserialize(start.skip((A::spec_deserialize(start.skip((0nat) as int)).unwrap().1) as int)).unwrap().1) as int)).unwrap().1 + D::spec_deserialize(start.skip((A::spec_deserialize(start.skip((0nat) as int)).unwrap().1 + B::spec_deserialize(start.skip((A::spec_deserialize(start.skip((0nat) as int)).unwrap().1) as int)).unwrap().1 + C::spec_deserialize(start.skip((A::spec_deserialize(start.skip((0nat) as int)).unwrap().1 + B::spec_deserialize(start.skip((A::spec_deserialize(start.skip((0nat) as int)).unwrap().1) as int)).unwrap().1) as int)).unwrap().1) as int)).unwrap().1) as int)).unwrap().1) as int)).unwrap().1) as int)).unwrap().1))?;
        let x8 = deserialize_next::<I>(buffer, Ghost(start), Ghost(A::spec_deserialize(start.skip((0nat) as int)).unwrap().1 + B::spec_deserialize(start.skip((A::spec_deserialize(start.skip((0nat) as int)).unwrap().1) as int)).unwrap().1 + C::spec_deserialize(start.skip((A::spec_deserialize(start.skip((0nat) as int)).unwrap().1 + B::spec_deserialize(start.skip((A::spec_deserialize(start.skip((0nat) as int)).unwrap().1) as int)).unwrap().1) as int)).unwrap().1 + D::spec_deserialize(start.skip((A::spec_deserialize(start.skip((0nat) as int)).unwrap().1 + B::spec_deserialize(start.skip((A::spec_deserialize(start.skip((0nat) as int)).unwrap().1) as int)).unwrap().1 + C::spec_deserialize(start.skip((A::spec_deserialize(start.skip((0nat) as int)).unwrap().1 + B::spec_deserialize(start.skip((A::spec_deserialize(start.skip((0nat) as int)).unwrap().1) as int)).unwrap().1) as int)).unwrap().1) as int)).unwrap().1 + E::spec_deserialize(start.skip((A::spec_deserialize(start.skip((0nat) as int)).unwrap().1 + B::spec_deserialize(start.skip((A::spec_deserialize(start.skip((0nat) as int)).unwrap().1) as int)).unwrap().1 + C::spec_deserialize(start.skip((A::spec_deserialize(start.skip((0nat) as int)).unwrap().1 + B::spec_deserialize(start.skip((A::spec_deserialize(start.skip((0nat) as int)).unwrap().1) as int)).unwrap().1) as int)).unwrap().1 + D::spec_deserialize(start.skip((A::spec_deserialize(start.skip((0nat) as int)).unwrap().1 + B::spec_deserialize(start.skip((A::spec_deserialize(start.skip((0nat) as int)).unwrap().1) as int)).unwrap().1 + C::spec_deserialize(start.skip((A::spec_deserialize(start.skip((0nat) as int)).unwrap().1 + B::spec_deserialize(start.skip((A::spec_deserialize(start.skip((0nat) as int)).unwrap().1) as int)).unwrap().1) as int)).unwrap().1) as int)).unwrap().1) as int)).unwrap().1 + F::spec_deserialize(start.skip((A::spec_deserialize(start.skip((0nat) as int)).unwrap().1 + B::spec_deserialize(start.skip((A::spec_deserialize(start.skip((0nat) as int)).unwrap().1) as int)).unwrap().1 + C::spec_deserialize(start.skip((A::spec_deserialize(start.skip((0nat) as int)).unwrap().1 + B::spec_deserialize(start.skip((A::spec_deserialize(start.skip((0nat) as int)).unwrap().1) as int)).unwrap().1) as int)).unwrap().1 + D::spec_deserialize(start.skip((A::spec_deserialize(start.skip((0nat) as int)).unwrap().1 + B::spec_deserialize(start.skip((A::spec_deserialize(start.skip((0nat) as int)).unwrap().1) as int)).unwrap().1 + C::spec_deserialize(start.skip((A::spec_deserialize(start.skip((0nat) as int)).unwrap().1 + B::spec_deserialize(start.skip((A::spec_deserialize(start.skip((0nat) as int)).unwrap().1) as int)).unwrap().1) as int)).unwrap().1) as int)).unwrap().1 + E::spec_deserialize(start.skip((A::spec_deserialize(start.skip((0nat) as int)).unwrap().1 + B::spec_deserialize(start.skip((A::spec_deserialize(start.skip((0nat) as int)).unwrap().1) as int)).unwrap().1 + C::spec_deserialize(start.skip((A::spec_deserialize(start.skip((0nat) as int)).unwrap().1 + B::spec_deserialize(start.skip((A::spec_deserialize(start.skip((0nat) as int)).unwrap().1) as int)).unwrap().1) as int)).unwrap().1 + D::spec_deserialize(start.skip((A::spec_deserialize(start.skip((0nat) as int)).unwrap().1 + B::spec_deserialize(start.skip((A::spec_deserialize(start.skip((0nat) as int)).unwrap().1) as int)).unwrap().1 + C::spec_deserialize(start.skip((A::spec_deserialize(start.skip((0nat) as int)).unwrap().1 + B::spec_deserialize(start.skip((A::spec_deserialize(start.skip((0nat) as int)).unwrap().1) as int)).unwrap().1) as int)).unwrap().1) as int)).unwrap().1) as int)).unwrap().1) as int)).unwrap().1 + G::spec_deserialize(start.skip((A::spec_deserialize(start.skip((0nat) as int)).unwrap().1 + B::spec_deserialize(start.skip((A::spec_deserialize(start.skip((0nat) as int)).unwrap().1) as int)).unwrap().1 + C::spec_deserialize(start.skip((A::spec_deserialize(start.skip((0nat) as int)).unwrap().1 + B::spec_deserialize(start.skip((A::spec_deserialize(start.skip((0nat) as int)).unwrap().1) as int)).unwrap().1) as int)).unwrap().1 + D::spec_deserialize(start.skip((A::spec_deserialize(start.skip((0nat) as int)).unwrap().1 + B::spec_deserialize(start.skip((A::spec_deserialize(start.skip((0nat) as int)).unwrap().1) as int)).unwrap().1 + C::spec_deserialize(start.skip((A::spec_deserialize(start.skip((0nat) as int)).unwrap().1 + B::spec_deserialize(start.skip((A::spec_deserialize(start.skip((0nat) as int)).unwrap().1) as int)).unwrap().1) as int)).unwrap().1) as int)).unwrap().1 + E::spec_deserialize(start.skip((A::spec_deserialize(start.skip((0nat) as int)).unwrap().1 + B::spec_deserialize(start.skip((A::spec_deserialize(start.skip((0nat) as int)).unwrap().1) as int)).unwrap().1 + C::spec_deserialize(start.skip((A::spec_deserialize(start.skip((0nat) as int)).unwrap().1 + B::spec_deserialize(start.skip((A::spec_deserialize(start.skip((0nat) as int)).unwrap().1) as int)).unwrap().1) as int)).unwrap().1 + D::spec_deserialize(start.skip((A::spec_deserialize(start.skip((0nat) as int)).unwrap().1 + B::spec_deserialize(start.skip((A::spec_deserialize(start.skip((0nat) as int)).unwrap().1) as int)).unwrap().1 + C::spec_deserialize(start.skip((A::spec_deserialize(start.skip((0nat) as int)).unwrap().1 + B::spec_deserialize(start.skip((A::spec_deserialize(start.skip((0nat) as int)).unwrap().1) as int)).unwrap().1) as int)).unwrap().1) as int)).unwrap().1) as int)).unwrap().1 + F::spec_deserialize(start.skip((A::spec_deserialize(start.skip((0nat) as int)).unwrap().1 + B::spec_deserialize(start.skip((A::spec_deserialize(start.skip((0nat) as int)).unwrap().1) as int)).unwrap().1 + C::spec_deserialize(start.skip((A::spec_deserialize(start.skip((0nat) as int)).unwrap().1 + B::spec_deserialize(start.skip((A::spec_deserialize(start.skip((0nat) as int)).unwrap().1) as int)).unwrap().1) as int)).unwrap().1 + D::spec_deserialize(start.skip((A::spec_deserialize(start.skip((0nat) as int)).unwrap().1 + B::spec_deserialize(start.skip((A::spec_deserialize(start.skip((0nat) as int)).unwrap().1) as int)).unwrap().1 + C::spec_deserialize(start.skip((A::spec_deserialize(start.skip((0nat) as int)).unwrap().1 + B::spec_deserialize(start.skip((A::spec_deserialize(start.skip((0nat) as int)).unwrap().1) as int)).unwrap().1) as int)).unwrap().1) as int)).unwrap().1 + E::spec_deserialize(start.skip((A::spec_deserialize(start.skip((0nat) as int)).unwrap().1 + B::spec_deserialize(start.skip((A::spec_deserialize(start.skip((0nat) as int)).unwrap().1) as int)).unwrap().1 + C::spec_deserialize(start.skip((A::spec_deserialize(start.skip((0nat) as int)).unwrap().1 + B::spec_deserialize(start.skip((A::spec_deserialize(start.skip((0nat) as int)).unwrap().1) as int)).unwrap().1) as int)).unwrap().1 + D::spec_deserialize(start.skip((A::spec_deserialize(start.skip((0nat) as int)).unwrap().1 + B::spec_deserialize(start.skip((A::spec_deserialize(start.skip((0nat) as int)).unwrap().1) as int)).unwrap().1 + C::spec_deserialize(start.skip((A::spec_deserialize(start.skip((0nat) as int)).unwrap().1 + B::spec_deserialize(start.skip((A::spec_deserialize(start.skip((0nat) as int)).unwrap().1) as int)).unwrap().1) as int)).unwrap().1) as int)).unwrap().1) as int)).unwrap().1) as int)).unwrap().1) as int)).unwrap().1 + H::spec_deserialize(start.skip((A::spec_deserialize(start.skip((0nat) as int)).unwrap().1 + B::spec_deserialize(start.skip((A::spec_deserialize(start.skip((0nat) as int)).unwrap().1) as int)).unwrap().1 + C::spec_deserialize(start.skip((A::spec_deserialize(start.skip((0nat) as int)).unwrap().1 + B::spec_deserialize(start.skip((A::spec_deserialize(start.skip((0nat) as int)).unwrap().1) as int)).unwrap().1) as int)).unwrap().1 + D::spec_deserialize(start.skip((A::spec_deserialize(start.skip((0nat) as int)).unwrap().1 + B::spec_deserialize(start.skip((A::spec_deserialize(start.skip((0nat) as int)).unwrap().1) as int)).unwrap().1 + C::spec_deserialize(start.skip((A::spec_deserialize(start.skip((0nat) as int)).unwrap().1 + B::spec_deserialize(start.skip((A::spec_deserialize(start.skip((0nat) as int)).unwrap().1) as int)).unwrap().1) as int)).unwrap().1) as int)).unwrap().1 + E::spec_deserialize(start.skip((A::spec_deserialize(start.skip((0nat) as int)).unwrap().1 + B::spec_deserialize(start.skip((A::spec_deserialize(start.skip((0nat) as int)).unwrap().1) as int)).unwrap().1 + C::spec_deserialize(start.skip((A::spec_deserialize(start.skip((0nat) as int)).unwrap().1 + B::spec_deserialize(start.skip((A::spec_deserialize(start.skip((0nat) as int)).unwrap().1) as int)).unwrap().1) as int)).unwrap().1 + D::spec_deserialize(start.skip((A::spec_deserialize(start.skip((0nat) as int)).unwrap().1 + B::spec_deserialize(start.skip((A::spec_deserialize(start.skip((0nat) as int)).unwrap().1) as int)).unwrap().1 + C::spec_deserialize(start.skip((A::spec_deserialize(start.skip((0nat) as int)).unwrap().1 + B::spec_deserialize(start.skip((A::spec_deserialize(start.skip((0nat) as int)).unwrap().1) as int)).unwrap().1) as int)).unwrap().1) as int)).unwrap().1) as int)).unwrap().1 + F::spec_deserialize(start.skip((A::spec_deserialize(start.skip((0nat) as int)).unwrap().1 + B::spec_deserialize(start.skip((A::spec_deserialize(start.skip((0nat) as int)).unwrap().1) as int)).unwrap().1 + C::spec_deserialize(start.skip((A::spec_deserialize(start.skip((0nat) as int)).unwrap().1 + B::spec_deserialize(start.skip((A::spec_deserialize(start.skip((0nat) as int)).unwrap().1) as int)).unwrap().1) as int)).unwrap().1 + D::spec_deserialize(start.skip((A::spec_deserialize(start.skip((0nat) as int)).unwrap().1 + B::spec_deserialize(start.skip((A::spec_deserialize(start.skip((0nat) as int)).unwrap().1) as int)).unwrap().1 + C::spec_deserialize(start.skip((A::spec_deserialize(start.skip((0nat) as int)).unwrap().1 + B::spec_deserialize(start.skip((A::spec_deserialize(start.skip((0nat) as int)).unwrap().1) as int)).unwrap().1) as int)).unwrap().1) as int)).unwrap().1 + E::spec_deserialize(start.skip((A::spec_deserialize(start.skip((0nat) as int)).unwrap().1 + B::spec_deserialize(start.skip((A::spec_deserialize(start.skip((0nat) as int)).unwrap().1) as int)).unwrap().1 + C::spec_deserialize(start.skip((A::spec_deserialize(start.skip((0nat) as int)).unwrap().1 + B::spec_deserialize(start.skip((A::spec_deserialize(start.skip((0nat) as int)).unwrap().1) as int)).unwrap().1) as int)).unwrap().1 + D::spec_deserialize(start.skip((A::spec_deserialize(start.skip((0nat) as int)).unwrap().1 + B::spec_deserialize(start.skip((A::spec_deserialize(start.skip((0nat) as int)).unwrap().1) as int)).unwrap().1 + C::spec_deserialize(start.skip((A::spec_deserialize(start.skip((0nat) as int)).unwrap().1 + B::spec_deserialize(start.skip((A::spec_deserialize(start.skip((0nat) as int)).unwrap().1) as int)).unwrap().1) as int)).unwrap().1) as int)).unwrap().1) as int)).unwrap().1) as int)).unwrap().1 + G::spec_deserialize(start.skip((A::spec_deserialize(start.skip((0nat) as int)).unwrap().1 + B::spec_deserialize(start.skip((A::spec_deserialize(start.skip((0nat) as int)).unwrap().1) as int)).unwrap().1 + C::spec_deserialize(start.skip((A::spec_deserialize(start.skip((0nat) as int)).unwrap().1 + B::spec_deserialize(start.skip((A::spec_deserialize(start.skip((0nat) as int)).unwrap().1) as int)).unwrap().1) as int)).unwrap().1 + D::spec_deserialize(start.skip((A::spec_deserialize(start.skip((0nat) as int)).unwrap().1 + B::spec_deserialize(start.skip((A::spec_deserialize(start.skip((0nat) as int)).unwrap().1) as int)).unwrap().1 + C::spec_deserialize(start.skip((A::spec_deserialize(start.skip((0nat) as int)).unwrap().1 + B::spec_deserialize(start.skip((A::spec_deserialize(start.skip((0nat) as int)).unwrap().1) as int)).unwrap().1) as int)).unwrap().1) as int)).unwrap().1 + E::spec_deserialize(start.skip((A::spec_deserialize(start.skip((0nat) as int)).unwrap().1 + B::spec_deserialize(start.skip((A::spec_deserialize(start.skip((0nat) as int)).unwrap().1) as int)).unwrap().1 + C::spec_deserialize(start.skip((A::spec_deserialize(start.skip((0nat) as int)).unwrap().1 + B::spec_deserialize(start.skip((A::spec_deserialize(start.skip((0nat) as int)).unwrap().1) as int)).unwrap().1) as int)).unwrap().1 + D::spec_deserialize(start.skip((A::spec_deserialize(start.skip((0nat) as int)).unwrap().1 + B::spec_deserialize(start.skip((A::spec_deserialize(start.skip((0nat) as int)).unwrap().1) as int)).unwrap().1 + C::spec_deserialize(start.skip((A::spec_deserialize(start.skip((0nat) as int)).unwrap().1 + B::spec_deserialize(start.skip((A::spec_deserialize(start.skip((0nat) as int)).unwrap().1) as int)).unwrap().1) as int)).unwrap().1) as int)).unwrap().1) as int)).unwrap().1 + F::spec_deserialize(start.skip((A::spec_deserialize(start.skip((0nat) as int)).unwrap().1 + B::spec_deserialize(start.skip((A::spec_deserialize(start.skip((0nat) as int)).unwrap().1) as int)).unwrap().1 + C::spec_deserialize(start.skip((A::spec_deserialize(start.skip((0nat) as int)).unwrap().1 + B::spec_deserialize(start.skip((A::spec_deserialize(start.skip((0nat) as int)).unwrap().1) as int)).unwrap().1) as int)).unwrap().1 + D::spec_deserialize(start.skip((A::spec_deserialize(start.skip((0nat) as int)).unwrap().1 + B::spec_deserialize(start.skip((A::spec_deserialize(start.skip((0nat) as int)).unwrap().1) as int)).unwrap().1 + C::spec_deserialize(start.skip((A::spec_deserialize(start.skip((0nat) as int)).unwrap().1 + B::spec_deserialize(start.skip((A::spec_deserialize(start.skip((0nat) as int)).unwrap().1) as int)).unwrap().1) as int)).unwrap().1) as int)).unwrap().1 + E::spec_deserialize(start.skip((A::spec_deserialize(start.skip((0nat) as int)).unwrap().1 + B::spec_deserialize(start.skip((A::spec_deserialize(start.skip((0nat) as int)).unwrap().1) as int)).unwrap().1 + C::spec_deserialize(start.skip((A::spec_deserialize(start.skip((0nat) as int)).unwrap().1 + B::spec_deserialize(start.skip((A::spec_deserialize(start.skip((0nat) as int)).unwrap().1) as int)).unwrap().1) as int)).unwrap().1 + D::spec_deserialize(start.skip((A::spec_deserialize(start.skip((0nat) as int)).unwrap().1 + B::spec_deserialize(start.skip((A::spec_deserialize(start.skip((0nat) as int)).unwrap().1) as int)).unwrap().1 + C::spec_deserialize(start.skip((A::spec_deserialize(start.skip((0nat) as int)).unwrap().1 + B::spec_deserialize(start.skip((A::spec_deserialize(start.skip((0nat) as int)).unwrap().1) as int)).unwrap().1) as int)).unwrap().1) as int)).unwrap().1) as int)).unwrap().1) as int)).unwrap().1) as int)).unwrap().1) as int)).unwrap().1))?;
        let x9 = deserialize_next::<J>(buffer, Ghost(start), Ghost(A::spec_deserialize(start.skip((0nat) as int)).unwrap().1 + B::spec_deserialize(start.skip((A::spec_deserialize(start.skip((0nat) as int)).unwrap().1) as int)).unwrap().1 + C::spec_deserialize(start.skip((A::spec_deserialize(start.skip((0nat) as int)).unwrap().1 + B::spec_deserialize(start.skip((A::spec_deserialize(start.skip((0nat) as int)).unwrap().1) as int)).unwrap().1) as int)).unwrap().1 + D::spec_deserialize(start.skip((A::spec_deserialize(start.skip((0nat) as int)).unwrap().1 + B::spec_deserialize(start.skip((A::spec_deserialize(start.skip((0nat) as int)).unwrap().1) as int)).unwrap().1 + C::spec_deserialize(start.skip((A::spec_deserialize(start.skip((0nat) as int)).unwrap().1 + B::spec_deserialize(start.skip((A::spec_deserialize(start.skip((0nat) as int)).unwrap().1) as int)).unwrap().1) as int)).unwrap().1) as int)).unwrap().1 + E::spec_deserialize(start.skip((A::spec_deserialize(start.skip((0nat) as int)).unwrap().1 + B::spec_deserialize(start.skip((A::spec_deserialize(start.skip((0nat) as int)).unwrap().1) as int)).unwrap().1 + C::spec_deserialize(start.skip((A::spec_deserialize(start.skip((0nat) as int)).unwrap().1 + B::spec_deserialize(start.skip((A::spec_deserialize(start.skip((0nat) as int)).unwrap().1) as int)).unwrap().1) as int)).unwrap().1 + D::spec_deserialize(start.skip((A::spec_deserialize(start.skip((0nat) as int)).unwrap().1 + B::spec_deserialize(start.skip((A::spec_deserialize(start.skip((0nat) as int)).unwrap().1) as int)).unwrap().1 + C::spec_deserialize(start.skip((A::spec_deserialize(start.skip((0nat) as int)).unwrap().1 + B::spec_deserialize(start.skip((A::spec_deserialize(start.skip((0nat) as int)).unwrap().1) as int)).unwrap().1) as int)).unwrap().1) as int)).unwrap().1) as int)).unwrap().1 + F::spec_deserialize(start.skip((A::spec_deserialize(start.skip((0nat) as int)).unwrap().1 + B::spec_deserialize(start.skip((A::spec_deserialize(start.skip((0nat) as int)).unwrap().1) as int)).unwrap().1 + C::spec_deserialize(start.skip((A::spec_deserialize(start.skip((0nat) as int)).unwrap().1 + B::spec_deserialize(start.skip((A::spec_deserialize(start.skip((0nat) as int)).unwrap().1) as int)).unwrap().1) as int)).unwrap().1 + D::spec_deserialize(start.skip((A::spec_deserialize(start.skip((0nat) as int)).unwrap().1 + B::spec_deserialize(start.skip((A::spec_deserialize(start.skip((0nat) as int)).unwrap().1) as int)).unwrap().1 + C::spec_deserialize(start.skip((A::spec_deserialize(start.skip((0nat) as int)).unwrap().1 + B::spec_deserialize(start.skip((A::spec_deserialize(start.skip((0nat) as int)).unwrap().1) as int)).unwrap().1) as int)).unwrap().1) as int)).unwrap().1 + E::spec_deserialize(start.skip((A::spec_deserialize(start.skip((0nat) as int)).unwrap().1 + B::spec_deserialize(start.skip((A::spec_deserialize(start.skip((0nat) as int)).unwrap().1) as int)).unwrap().1 + C::spec_deserialize(start.skip((A::spec_deserialize(start.skip((0nat) as int)).unwrap().1 + B::spec_deserialize(start.skip((A::spec_deserialize(start.skip((0nat) as int)).unwrap().1) as int)).unwrap().1) as int)).unwrap().1 + D::spec_deserialize(start.skip((A::spec_deserialize(start.skip((0nat) as int)).unwrap().1 + B::spec_deserialize(start.skip((A::spec_deserialize(start.skip((0nat) as int)).unwrap().1) as int)).unwrap().1 + C::spec_deserialize(start.skip((A::spec_deserialize(start.skip((0nat) as int)).unwrap().1 + B::spec_deserialize(start.skip((A::spec_deserialize(start.skip((0nat) as int)).unwrap().1) as int)).unwrap().1) as int)).unwrap().1) as int)).unwrap().1) as int)).unwrap().1) as int)).unwrap().1 + G::spec_deserialize(start.skip((A::spec_deserialize(start.skip((0nat) as int)).unwrap().1 + B::spec_deserialize(start.skip((A::spec_deserialize(start.skip((0nat) as int)).unwrap().1) as int)).unwrap().1 + C::spec_deserialize(start.skip((A::spec_deserialize(start.skip((0nat) as int)).unwrap().1 + B::spec_deserialize(start.skip((A::spec_deserialize(start.skip((0nat) as int)).unwrap().1) as int)).unwrap().1) as int)).unwrap().1 + D::spec_deserialize(start.skip((A::spec_deserialize(start.skip((0nat) as int)).unwrap().1 + B::spec_deserialize(start.skip((A::spec_deserialize(start.skip((0nat) as int)).unwrap().1) as int)).unwrap().1 + C::spec_deserialize(start.skip((A::spec_deserialize(start.skip((0nat) as int)).unwrap().1 + B::spec_deserialize(start.skip((A::spec_deserialize(start.skip((0nat) as int)).unwrap().1) as int)).unwrap().1) as int)).unwrap().1) as int)).unwrap().1 + E::spec_deserialize(start.skip((A::spec_deserialize(start.skip((0nat) as int)).unwrap().1 + B::spec_deserialize(start.skip((A::spec_deserialize(start.skip((0nat) as int)).unwrap().1) as int)).unwrap().1 + C::spec_deserialize(start.skip((A::spec_deserialize(start.skip((0nat) as int)).unwrap().1 + B::spec_deserialize(start.skip((A::spec_deserialize(start.skip((0nat) as int)).unwrap().1) as int)).unwrap().1) as int)).unwrap().1 + D::spec_deserialize(start.skip((A::spec_deserialize(start.skip((0nat) as int)).unwrap().1 + B::spec_deserialize(start.skip((A::spec_deserialize(start.skip((0nat) as int)).unwrap().1) as int)).unwrap().1 + C::spec_deserialize(start.skip((A::spec_deserialize(start.skip((0nat) as int)).unwrap().1 + B::spec_deserialize(start.skip((A::spec_deserialize(start.skip((0nat) as int)).unwrap().1) as int)).unwrap().1) as int)).unwrap().1) as int)).unwrap().1) as int)).unwrap().1 + F::spec_deserialize(start.skip((A::spec_deserialize(start.skip((0nat) as int)).unwrap().1 + B::spec_deserialize(start.skip((A::spec_deserialize(start.skip((0nat) as int)).unwrap().1) as int)).unwrap().1 + C::spec_deserialize(start.skip((A::spec_deserialize(start.skip((0nat) as int)).unwrap().1 + B::spec_deserialize(start.skip((A::spec_deserialize(start.skip((0nat) as int)).unwrap().1) as int)).unwrap().1) as int)).unwrap().1 + D::spec_deserialize(start.skip((A::spec_deserialize(start.skip((0nat) as int)).unwrap().1 + B::spec_deserialize(start.skip((A::spec_deserialize(start.skip((0nat) as int)).unwrap().1) as int)).unwrap().1 + C::spec_deserialize(start.skip((A::spec_deserialize(start.skip((0nat) as int)).unwrap().1 + B::spec_deserialize(start.skip((A::spec_deserialize(start.skip((0nat) as int)).unwrap().1) as int)).unwrap().1) as int)).unwrap().1) as int)).unwrap().1 + E::spec_deserialize(start.skip((A::spec_deserialize(start.skip((0nat) as int)).unwrap().1 + B::spec_deserialize(start.skip((A::spec_deserialize(start.skip((0nat) as int)).unwrap().1) as int)).unwrap().1 + C::spec_deserialize(start.skip((A::spec_deserialize(start.skip((0nat) as int)).unwrap().1 + B::spec_deserialize(start.skip((A::spec_deserialize(start.skip((0nat) as int)).unwrap().1) as int)).unwrap().1) as int)).unwrap().1 + D::spec_deserialize(start.skip((A::spec_deserialize(start.skip((0nat) as int)).unwrap().1 + B::spec_deserialize(start.skip((A::spec_deserialize(start.skip((0nat) as int)).unwrap().1) as int)).unwrap().1 + C::spec_deserialize(start.skip((A::spec_deserialize(start.skip((0nat) as int)).unwrap().1 + B::spec_deserialize(start.skip((A::spec_deserialize(start.skip((0nat) as int)).unwrap().1) as int)).unwrap().1) as int)).unwrap().1) as int)).unwrap().1) as int)).unwrap().1) as int)).unwrap().1) as int)).unwrap().1 + H::spec_deserialize(start.skip((A::spec_deserialize(start.skip((0nat) as int)).unwrap().1 + B::spec_deserialize(start.skip((A::spec_deserialize(start.skip((0nat) as int)).unwrap().1) as int)).unwrap().1 + C::spec_deserialize(start.skip((A::spec_deserialize(start.skip((0nat) as int)).unwrap().1 + B::spec_deserialize(start.skip((A::spec_deserialize(start.skip((0nat) as int)).unwrap().1) as int)).unwrap().1) as int)).unwrap().1 + D::spec_deserialize(start.skip((A::spec_deserialize(start.skip((0nat) as int)).unwrap().1 + B::spec_deserialize(start.skip((A::spec_deserialize(start.skip((0nat) as int)).unwrap().1) as int)).unwrap().1 + C::spec_deserialize(start.skip((A::spec_deserialize(start.skip((0nat) as int)).unwrap().1 + B::spec_deserialize(start.skip((A::spec_deserialize(start.skip((0nat) as int)).unwrap().1) as int)).unwrap().1) as int)).unwrap().1) as int)).unwrap().1 + E::spec_deserialize(start.skip((A::spec_deserialize(start.skip((0nat) as int)).unwrap().1 + B::spec_deserialize(start.skip((A::spec_deserialize(start.skip((0nat) as int)).unwrap().1) as int)).unwrap().1 + C::spec_deserialize(start.skip((A::spec_deserialize(start.skip((0nat) as int)).unwrap().1 + B::spec_deserialize(start.skip((A::spec_deserialize(start.skip((0nat) as int)).unwrap().1) as int)).unwrap().1) as int)).unwrap().1 + D::spec_deserialize(start.skip((A::spec_deserialize(start.skip((0nat) as int)).unwrap().1 + B::spec_deserialize(start.skip((A::spec_deserialize(start.skip((0nat) as int)).unwrap().1) as int)).unwrap().1 + C::spec_deserialize(start.skip((A::spec_deserialize(start.skip((0nat) as int)).unwrap().1 + B::spec_deserialize(start.skip((A::spec_deserialize(start.skip((0nat) as int)).unwrap().1) as int)).unwrap().1) as int)).unwrap().1) as int)).unwrap().1) as int)).unwrap().1 + F::spec_deserialize(start.skip((A::spec_deserialize(start.skip((0nat) as int)).unwrap().1 + B::spec_deserialize(start.skip((A::spec_deserialize(start.skip((0nat) as int)).unwrap().1) as int)).unwrap().1 + C::spec_deserialize(start.skip((A::spec_deserialize(start.skip((0nat) as int)).unwrap().1 + B::spec_deserialize(start.skip((A::spec_deserialize(start.skip((0nat) as int)).unwrap().1) as int)).unwrap().1) as int)).unwrap().1 + D::spec_deserialize(start.skip((A::spec_deserialize(start.skip((0nat) as int)).unwrap().1 + B::spec_deserialize(start.skip((A::spec_deserialize(start.skip((0nat) as int)).unwrap().1) as int)).unwrap().1 + C::spec_deserialize(start.skip((A::spec_deserialize(start.skip((0nat) as int)).unwrap().1 + B::spec_deserialize(start.skip((A::spec_deserialize(start.skip((0nat) as int)).unwrap().1) as int)).unwrap().1) as int)).unwrap().1) as int)).unwrap().1 + E::spec_deserialize(start.skip((A::spec_deserialize(start.skip((0nat) as int)).unwrap().1 + B::spec_deserialize(start.skip((A::spec_deserialize(start.skip((0nat) as int)).unwrap().1) as int)).unwrap().1 + C::spec_deserialize(start.skip((A::spec_deserialize(start.skip((0nat) as int)).unwrap().1 + B::spec_deserialize(start.skip((A::spec_deserialize(start.skip((0nat) as int)).unwrap().1) as int)).unwrap().1) as int)).unwrap().1 + D::spec_deserialize(start.skip((A::spec_deserialize(start.skip((0nat) as int)).unwrap().1 + B::spec_deserialize(start.skip((A::spec_deserialize(start.skip((0nat) as int)).unwrap().1) as int)).unwrap().1 + C::spec_deserialize(start.skip((A::spec_deserialize(start.skip((0nat) as int)).unwrap().1 + B::spec_deserialize(start.skip((A::spec_deserialize(start.skip((0nat) as int)).unwrap().1) as int)).unwrap().1) as int)).unwrap().1) as int)).unwrap().1) as int)).unwrap().1) as int)).unwrap().1 + G::spec_deserialize(start.skip((A::spec_deserialize(start.skip((0nat) as int)).unwrap().1 + B::spec_deserialize(start.skip((A::spec_deserialize(start.skip((0nat) as int)).unwrap().1) as int)).unwrap().1 + C::spec_deserialize(start.skip((A::spec_deserialize(start.skip((0nat) as int)).unwrap().1 + B::spec_deserialize(start.skip((A::spec_deserialize(start.skip((0nat) as int)).unwrap().1) as int)).unwrap().1) as int)).unwrap().1 + D::spec_deserialize(start.skip((A::spec_deserialize(start.skip((0nat) as int)).unwrap().1 + B::spec_deserialize(start.skip((A::spec_deserialize(start.skip((0nat) as int)).unwrap().1) as int)).unwrap().1 + C::spec_deserialize(start.skip((A::spec_deserialize(start.skip((0nat) as int)).unwrap().1 + B::spec_deserialize(start.skip((A::spec_deserialize(start.skip((0nat) as int)).unwrap().1) as int)).unwrap().1) as int)).unwrap().1) as int)).unwrap().1 + E::spec_deserialize(start.skip((A::spec_deserialize(start.skip((0nat) as int)).unwrap().1 + B::spec_deserialize(start.skip((A::spec_deserialize(start.skip((0nat) as int)).unwrap().1) as int)).unwrap().1 + C::spec_deserialize(start.skip((A::spec_deserialize(start.skip((0nat) as int)).unwrap().1 + B::spec_deserialize(start.skip((A::spec_deserialize(start.skip((0nat) as int)).unwrap().1) as int)).unwrap().1) as int)).unwrap().1 + D::spec_deserialize(start.skip((A::spec_deserialize(start.skip((0nat) as int)).unwrap().1 + B::spec_deserialize(start.skip((A::spec_deserialize(start.skip((0nat) as int)).unwrap().1) as int)).unwrap().1 + C::spec_deserialize(start.skip((A::spec_deserialize(start.skip((0nat) as int)).unwrap().1 + B::spec_deserialize(start.skip((A::spec_deserialize(start.skip((0nat) as int)).unwrap().1) as int)).unwrap().1) as int)).unwrap().1) as int)).unwrap().1) as int)).unwrap().1 + F::spec_deserialize(start.skip((A::spec_deserialize(start.skip((0nat) as int)).unwrap().1 + B::spec_deserialize(start.skip((A::spec_deserialize(start.skip((0nat) as int)).unwrap().1) as int)).unwrap().1 + C::spec_deserialize(start.skip((A::spec_deserialize(start.skip((0nat) as int)).unwrap().1 + B::spec_deserialize(start.skip((A::spec_deserialize(start.skip((0nat) as int)).unwrap().1) as int)).unwrap().1) as int)).unwrap().1 + D::spec_deserialize(start.skip((A::spec_deserialize(start.skip((0nat) as int)).unwrap().1 + B::spec_deserialize(start.skip((A::spec_deserialize(start.skip((0nat) as int)).unwrap().1) as int)).unwrap().1 + C::spec_deserialize(start.skip((A::spec_deserialize(start.skip((0nat) as int)).unwrap().1 + B::spec_deserialize(start.skip((A::spec_deserialize(start.skip((0nat) as int)).unwrap().1) as int)).unwrap().1) as int)).unwrap().1) as int)).unwrap().1 + E::spec_deserialize(start.skip((A::spec_deserialize(start.skip((0nat) as int)).unwrap().1 + B::spec_deserialize(start.skip((A::spec_deserialize(start.skip((0nat) as int)).unwrap().1) as int)).unwrap().1 + C::spec_deserialize(start.skip((A::spec_deserialize(start.skip((0nat) as int)).unwrap().1 + B::spec_deserialize(start.skip((A::spec_deserialize(start.skip((0nat) as int)).unwrap().1) as int)).unwrap().1) as int)).unwrap().1 + D::spec_deserialize(start.skip((A::spec_deserialize(start.skip((0nat) as int)).unwrap().1 + B::spec_deserialize(start.skip((A::spec_deserialize(start.skip((0nat) as int)).unwrap().1) as int)).unwrap().1 + C::spec_deserialize(start.skip((A::spec_deserialize(start.skip((0nat) as int)).unwrap().1 + B::spec_deserialize(start.skip((A::spec_deserialize(start.skip((0nat) as int)).unwrap().1) as int)).unwrap().1) as int)).unwrap().1) as int)).unwrap().1) as int)).unwrap().1) as int)).unwrap().1) as int)).unwrap().1) as int)).unwrap().1 + I::spec_deserialize(start.skip((A::spec_deserialize(start.skip((0nat) as int)).unwrap().1 + B::spec_deserialize(start.skip((A::spec_deserialize(start.skip((0nat) as int)).unwrap().1) as int)).unwrap().1 + C::spec_deserialize(start.skip((A::spec_deserialize(start.skip((0nat) as int)).unwrap().1 + B::spec_deserialize(start.skip((A::spec_deserialize(start.skip((0nat) as int)).unwrap().1) as int)).unwrap().1) as int)).unwrap().1 + D::spec_deserialize(start.skip((A::spec_deserialize(start.skip((0nat) as int)).unwrap().1 + B::spec_deserialize(start.skip((A::spec_deserialize(start.skip((0nat) as int)).unwrap().1) as int)).unwrap().1 + C::spec_deserialize(start.skip((A::spec_deserialize(start.skip((0nat) as int)).unwrap().1 + B::spec_deserialize(start.skip((A::spec_deserialize(start.skip((0nat) as int)).unwrap().1) as int)).unwrap().1) as int)).unwrap().1) as int)).unwrap().1 + E::spec_deserialize(start.skip((A::spec_deserialize(start.skip((0nat) as int)).unwrap().1 + B::spec_deserialize(start.skip((A::spec_deserialize(start.skip((0nat) as int)).unwrap().1) as int)).unwrap().1 + C::spec_deserialize(start.skip((A::spec_deserialize(start.skip((0nat) as int)).unwrap().1 + B::spec_deserialize(start.skip((A::spec_deserialize(start.skip((0nat) as int)).unwrap().1) as int)).unwrap().1) as int)).unwrap().1 + D::spec_deserialize(start.skip((A::spec_deserialize(start.skip((0nat) as int)).unwrap().1 + B::spec_deserialize(start.skip((A::spec_deserialize(start.skip((0nat) as int)).unwrap().1) as int)).unwrap().1 + C::spec_deserialize(start.skip((A::spec_deserialize(start.skip((0nat) as int)).unwrap().1 + B::spec_deserialize(start.skip((A::spec_deserialize(start.skip((0nat) as int)).unwrap().1) as int)).unwrap().1) as int)).unwrap().1) as int)).unwrap().1) as int)).unwrap().1 + F::spec_deserialize(start.skip((A::spec_deserialize(start.skip((0nat) as int)).unwrap().1 + B::spec_deserialize(start.skip((A::spec_deserialize(start.skip((0nat) as int)).unwrap().1) as int)).unwrap().1 + C::spec_deserialize(start.skip((A::spec_deserialize(start.skip((0nat) as int)).unwrap().1 + B::spec_deserialize(start.skip((A::spec_deserialize(start.skip((0nat) as int)).unwrap().1) as int)).unwrap().1) as int)).unwrap().1 + D::spec_deserialize(start.skip((A::spec_deserialize(start.skip((0nat) as int)).unwrap().1 + B::spec_deserialize(start.skip((A::spec_deserialize(start.skip((0nat) as int)).unwrap().1) as int)).unwrap().1 + C::spec_deserialize(start.skip((A::spec_deserialize(start.skip((0nat) as int)).unwrap().1 + B::spec_deserialize(start.skip((A::spec_deserialize(start.skip((0nat) as int)).unwrap().1) as int)).unwrap().1) as int)).unwrap().1) as int)).unwrap().1 + E::spec_deserialize(start.skip((A::spec_deserialize(start.skip((0nat) as int)).unwrap().1 + B::spec_deserialize(start.skip((A::spec_deserialize(start.skip((0nat) as int)).unwrap().1) as int)).unwrap().1 + C::spec_deserialize(start.skip((A::spec_deserialize(start.skip((0nat) as int)).unwrap().1 + B::spec_deserialize(start.skip((A::spec_deserialize(start.skip((0nat) as int)).unwrap().1) as int)).unwrap().1) as int)).unwrap().1 + D::spec_deserialize(start.skip((A::spec_deserialize(start.skip((0nat) as int)).unwrap().1 + B::spec_deserialize(start.skip((A::spec_deserialize(start.skip((0nat) as int)).unwrap().1) as int)).unwrap().1 + C::spec_deserialize(start.skip((A::spec_deserialize(start.skip((0nat) as int)).unwrap().1 + B::spec_deserialize(start.skip((A::spec_deserialize(start.skip((0nat) as int)).unwrap().1) as int)).unwrap().1) as int)).unwrap().1) as int)).unwrap().1) as int)).unwrap().1) as int)).unwrap().1 + G::spec_deserialize(start.skip((A::spec_deserialize(start.skip((0nat) as int)).unwrap().1 + B::spec_deserialize(start.skip((A::spec_deserialize(start.skip((0nat) as int)).unwrap().1) as int)).unwrap().1 + C::spec_deserialize(start.skip((A::spec_deserialize(start.skip((0nat) as int)).unwrap().1 + B::spec_deserialize(start.skip((A::spec_deserialize(start.skip((0nat) as int)).unwrap().1) as int)).unwrap().1) as int)).unwrap().1 + D::spec_deserialize(start.skip((A::spec_deserialize(start.skip((0nat) as int)).unwrap().1 + B::spec_deserialize(start.skip((A::spec_deserialize(start.skip((0nat) as int)).unwrap().1) as int)).unwrap().1 + C::spec_deserialize(start.skip((A::spec_deserialize(start.skip((0nat) as int)).unwrap().1 + B::spec_deserialize(start.skip((A::spec_deserialize(start.skip((0nat) as int)).unwrap().1) as int)).unwrap().1) as int)).unwrap().1) as int)).unwrap().1 + E::spec_deserialize(start.skip((A::spec_deserialize(start.skip((0nat) as int)).unwrap().1 + B::spec_deserialize(start.skip((A::spec_deserialize(start.skip((0nat) as int)).unwrap().1) as int)).unwrap().1 + C::spec_deserialize(start.skip((A::spec_deserialize(start.skip((0nat) as int)).unwrap().1 + B::spec_deserialize(start.skip((A::spec_deserialize(start.skip((0nat) as int)).unwrap().1) as int)).unwrap().1) as int)).unwrap().1 + D::spec_deserialize(start.skip((A::spec_deserialize(start.skip((0nat) as int)).unwrap().1 + B::spec_deserialize(start.skip((A::spec_deserialize(start.skip((0nat) as int)).unwrap().1) as int)).unwrap().1 + C::spec_deserialize(start.skip((A::spec_deserialize(start.skip((0nat) as int)).unwrap().1 + B::spec_deserialize(start.skip((A::spec_deserialize(start.skip((0nat) as int)).unwrap().1) as int)).unwrap().1) as int)).unwrap().1) as int)).unwrap().1) as int)).unwrap().1 + F::spec_deserialize(start.skip((A::spec_deserialize(start.skip((0nat) as int)).unwrap().1 + B::spec_deserialize(start.skip((A::spec_deserialize(start.skip((0nat) as int)).unwrap().1) as int)).unwrap().1 + C::spec_deserialize(start.skip((A::spec_deserialize(start.skip((0nat) as int)).unwrap().1 + B::spec_deserialize(start.skip((A::spec_deserialize(start.skip((0nat) as int)).unwrap().1) as int)).unwrap().1) as int)).unwrap().1 + D::spec_deserialize(start.skip((A::spec_deserialize(start.skip((0nat) as int)).unwrap().1 + B::spec_deserialize(start.skip((A::spec_deserialize(start.skip((0nat) as int)).unwrap().1) as int)).unwrap().1 + C::spec_deserialize(start.skip((A::spec_deserialize(start.skip((0nat) as int)).unwrap().1 + B::spec_deserialize(start.skip((A::spec_deserialize(start.skip((0nat) as int)).unwrap().1) as int)).unwrap().1) as int)).unwrap().1) as int)).unwrap().1 + E::spec_deserialize(start.skip((A::spec_deserialize(start.skip((0nat) as int)).unwrap().1 + B::spec_deserialize(start.skip((A::spec_deserialize(start.skip((0nat) as int)).unwrap().1) as int)).unwrap().1 + C::spec_deserialize(start.skip((A::spec_deserialize(start.skip((0nat) as int)).unwrap().1 + B::spec_deserialize(start.skip((A::spec_deserialize(start.skip((0nat) as int)).unwrap().1) as int)).unwrap().1) as int)).unwrap().1 + D::spec_deserialize(start.skip((A::spec_deserialize(start.skip((0nat) as int)).unwrap().1 + B::spec_deserialize(start.skip((A::spec_deserialize(start.skip((0nat) as int)).unwrap().1) as int)).unwrap().1 + C::spec_deserialize(start.skip((A::spec_deserialize(start.skip((0nat) as int)).unwrap().1 + B::spec_deserialize(start.skip((A::spec_deserialize(start.skip((0nat) as int)).unwrap().1) as int)).unwrap().1) as int)).unwrap().1) as int)).unwrap().1) as int)).unwrap().1) as int)).unwrap().1) as int)).unwrap().1 + H::spec_deserialize(start.skip((A::spec_deserialize(start.skip((0nat) as int)).unwrap().1 + B::spec_deserialize(start.skip((A::spec_deserialize(start.skip((0nat) as int)).unwrap().1) as int)).unwrap().1 + C::spec_deserialize(start.skip((A::spec_deserialize(start.skip((0nat) as int)).unwrap().1 + B::spec_deserialize(start.skip((A::spec_deserialize(start.skip((0nat) as int)).unwrap().1) as int)).unwrap().1) as int)).unwrap().1 + D::spec_deserialize(start.skip((A::spec_deserialize(start.skip((0nat) as int)).unwrap().1 + B::spec_deserialize(start.skip((A::spec_deserialize(start.skip((0nat) as int)).unwrap().1) as int)).unwrap().1 + C::spec_deserialize(start.skip((A::spec_deserialize(start.skip((0nat) as int)).unwrap().1 + B::spec_deserialize(start.skip((A::spec_deserialize(start.skip((0nat) as int)).unwrap().1) as int)).unwrap().1) as int)).unwrap().1) as int)).unwrap().1 + E::spec_deserialize(start.skip((A::spec_deserialize(start.skip((0nat) as int)).unwrap().1 + B::spec_deserialize(start.skip((A::spec_deserialize(start.skip((0nat) as int)).unwrap().1) as int)).unwrap().1 + C::spec_deserialize(start.skip((A::spec_deserialize(start.skip((0nat) as int)).unwrap().1 + B::spec_deserialize(start.skip((A::spec_deserialize(start.skip((0nat) as int)).unwrap().1) as int)).unwrap().1) as int)).unwrap().1 + D::spec_deserialize(start.skip((A::spec_deserialize(start.skip((0nat) as int)).unwrap().1 + B::spec_deserialize(start.skip((A::spec_deserialize(start.skip((0nat) as int)).unwrap().1) as int)).unwrap().1 + C::spec_deserialize(start.skip((A::spec_deserialize(start.skip((0nat) as int)).unwrap().1 + B::spec_deserialize(start.skip((A::spec_deserialize(start.skip((0nat) as int)).unwrap().1) as int)).unwrap().1) as int)).unwrap().1) as int)).unwrap().1) as int)).unwrap().1 + F::spec_deserialize(start.skip((A::spec_deserialize(start.skip((0nat) as int)).unwrap().1 + B::spec_deserialize(start.skip((A::spec_deserialize(start.skip((0nat) as int)).unwrap().1) as int)).unwrap().1 + C::spec_deserialize(start.skip((A::spec_deserialize(start.skip((0nat) as int)).unwrap().1 + B::spec_deserialize(start.skip((A::spec_deserialize(start.skip((0nat) as int)).unwrap().1) as int)).unwrap().1) as int)).unwrap().1 + D::spec_deserialize(start.skip((A::spec_deserialize(start.skip((0nat) as int)).unwrap().1 + B::spec_deserialize(start.skip((A::spec_deserialize(start.skip((0nat) as int)).unwrap().1) as int)).unwrap().1 + C::spec_deserialize(start.skip((A::spec_deserialize(start.skip((0nat) as int)).unwrap().1 + B::spec_deserialize(start.skip((A::spec_deserialize(start.skip((0nat) as int)).unwrap().1) as int)).unwrap().1) as int)).unwrap().1) as int)).unwrap().1 + E::spec_deserialize(start.skip((A::spec_deserialize(start.skip((0nat) as int)).unwrap().1 + B::spec_deserialize(start.skip((A::spec_deserialize(start.skip((0nat) as int)).unwrap().1) as int)).unwrap().1 + C::spec_deserialize(start.skip((A::spec_deserialize(start.skip((0nat) as int)).unwrap().1 + B::spec_deserialize(start.skip((A::spec_deserialize(start.skip((0nat) as int)).unwrap().1) as int)).unwrap().1) as int)).unwrap().1 + D::spec_deserialize(start.skip((A::spec_deserialize(start.skip((0nat) as int)).unwrap().1 + B::spec_deserialize(start.skip((A::spec_deserialize(start.skip((0nat) as int)).unwrap().1) as int)).unwrap().1 + C::spec_deserialize(start.skip((A::spec_deserialize(start.skip((0nat) as int)).unwrap().1 + B::spec_deserialize(start.skip((A::spec_deserialize(start.skip((0nat) as int)).unwrap().1) as int)).unwrap().1) as int)).unwrap().1) as int)).unwrap().1) as int)).unwrap().1) as int)).unwrap().1 + G::spec_deserialize(start.skip((A::spec_deserialize(start.skip((0nat) as int)).unwrap().1 + B::spec_deserialize(start.skip((A::spec_deserialize(start.skip((0nat) as int)).unwrap().1) as int)).unwrap().1 + C::spec_deserialize(start.skip((A::spec_deserialize(start.skip((0nat) as int)).unwrap().1 + B::spec_deserialize(start.skip((A::spec_deserialize(start.skip((0nat) as int)).unwrap().1) as int)).unwrap().1) as int)).unwrap().1 + D::spec_deserialize(start.skip((A::spec_deserialize(start.skip((0nat) as int)).unwrap().1 + B::spec_deserialize(start.skip((A::spec_deserialize(start.skip((0nat) as int)).unwrap().1) as int)).unwrap().1 + C::spec_deserialize(start.skip((A::spec_deserialize(start.skip((0nat) as int)).unwrap().1 + B::spec_deserialize(start.skip((A::spec_deserialize(start.skip((0nat) as int)).unwrap().1) as int)).unwrap().1) as int)).unwrap().1) as int)).unwrap().1 + E::spec_deserialize(start.skip((A::spec_deserialize(start.skip((0nat) as int)).unwrap().1 + B::spec_deserialize(start.skip((A::spec_deserialize(start.skip((0nat) as int)).unwrap().1) as int)).unwrap().1 + C::spec_deserialize(start.skip((A::spec_deserialize(start.skip((0nat) as int)).unwrap().1 + B::spec_deserialize(start.skip((A::spec_deserialize(start.skip((0nat) as int)).unwrap().1) as int)).unwrap().1) as int)).unwrap().1 + D::spec_deserialize(start.skip((A::spec_deserialize(start.skip((0nat) as int)).unwrap().1 + B::spec_deserialize(start.skip((A::spec_deserialize(start.skip((0nat) as int)).unwrap().1) as int)).unwrap().1 + C::spec_deserialize(start.skip((A::spec_deserialize(start.skip((0nat) as int)).unwrap().1 + B::spec_deserialize(start.skip((A::spec_deserialize(start.skip((0nat) as int)).unwrap().1) as int)).unwrap().1) as int)).unwrap().1) as int)).unwrap().1) as int)).unwrap().1 + F::spec_deserialize(start.skip((A::spec_deserialize(start.skip((0nat) as int)).unwrap().1 + B::spec_deserialize(start.skip((A::spec_deserialize(start.skip((0nat) as int)).unwrap().1) as int)).unwrap().1 + C::spec_deserialize(start.skip((A::spec_deserialize(start.skip((0nat) as int)).unwrap().1 + B::spec_deserialize(start.skip((A::spec_deserialize(start.skip((0nat) as int)).unwrap().1) as int)).unwrap().1) as int)).unwrap().1 + D::spec_deserialize(start.skip((A::spec_deserialize(start.skip((0nat) as int)).unwrap().1 + B::spec_deserialize(start.skip((A::spec_deserialize(start.skip((0nat) as int)).unwrap().1) as int)).unwrap().1 + C::spec_deserialize(start.skip((A::spec_deserialize(start.skip((0nat) as int)).unwrap().1 + B::spec_deserialize(start.skip((A::spec_deserialize(start.skip((0nat) as int)).unwrap().1) as int)).unwrap().1) as int)).unwrap().1) as int)).unwrap().1 + E::spec_deserialize(start.skip((A::spec_deserialize(start.skip((0nat) as int)).unwrap().1 + B::spec_deserialize(start.skip((A::spec_deserialize(start.skip((0nat) as int)).unwrap().1) as int)).unwrap().1 + C::spec_deserialize(start.skip((A::spec_deserialize(start.skip((0nat) as int)).unwrap().1 + B::spec_deserialize(start.skip((A::spec_deserialize(start.skip((0nat) as int)).unwrap().1) as int)).unwrap().1) as int)).unwrap().1 + D::spec_deserialize(start.skip((A::spec_deserialize(start.skip((0nat) as int)).unwrap().1 + B::spec_deserialize(start.skip((A::spec_deserialize(start.skip((0nat) as int)).unwrap().1) as int)).unwrap().1 + C::spec_deserialize(start.skip((A::spec_deserialize(start.skip((0nat) as int)).unwrap().1 + B::spec_deserialize(start.skip((A::spec_deserialize(start.skip((0nat) as int)).unwrap().1) as int)).unwrap().1) as int)).unwrap().1) as int)).unwrap().1) as int)).unwrap().1) as int)).unwrap().1) as int)).unwrap().1) as int)).unwrap().1) as int)).unwrap().1))?;
        Ok((x0, x1, x2, x3, x4, x5, x6, x7, x8, x9))
    }

    fn size_hint() -> (result: Option<usize>) {
        let h0 = match A::size_hint() { Some(h) => h, None => return None };
        let h0 = match 0usize.checked_add(h0) { Some(h) => h, None => return None };
        let h1 = match B::size_hint() { Some(h) => h, None => return None };
        let h1 = match h0.checked_add(h1) { Some(h) => h, None => return None };
        let h2 = match C::size_hint() { Some(h) => h, None => return None };
        let h2 = match h1.checked_add(h2) { Some(h) => h, None => return None };
        let h3 = match D::size_hint() { Some(h) => h, None => return None };
        let h3 = match h2.checked_add(h3) { Some(h) => h, None => return None };
        let h4 = match E::size_hint() { Some(h) => h, None => return None };
        let h4 = match h3.checked_add(h4) { Some(h) => h, None => return None };
        let h5 = match F::size_hint() { Some(h) => h, None => return None };
        let h5 = match h4.checked_add(h5) { Some(h) => h, None => return None };
        let h6 = match G::size_hint() { Some(h) => h, None => return None };
        let h6 = match h5.checked_add(h6) { Some(h) => h, None => return None };
        let h7 = match H::size_hint() { Some(h) => h, None => return None };
        let h7 = match h6.checked_add(h7) { Some(h) => h, None => return None };
        let h8 = match I::size_hint() { Some(h) => h, None => return None };
        let h8 = match h7.checked_add(h8) { Some(h) => h, None => return None };
        let h9 = match J::size_hint() { Some(h) => h, None => return None };
        let h9 = match h8.checked_add(h9) { Some(h) => h, None => return None };
        Some(h9)
    }
}

impl<A: Deserialize<Output = A> + DeepView, B: Deserialize<Output = B> + DeepView, C: Deserialize<Output = C> + DeepView, D: Deserialize<Output = D> + DeepView, E: Deserialize<Output = E> + DeepView, F: Deserialize<Output = F> + DeepView, G: Deserialize<Output = G> + DeepView, H: Deserialize<Output = H> + DeepView, I: Deserialize<Output = I> + DeepView, J: Deserialize<Output = J> + DeepView, K: Deserialize<Output = K> + DeepView> Deserialize for (A, B, C, D, E, F, G, H, I, J, K) {
    type Output = Self;

    open spec fn spec_deserialize(input: Seq<u8>) -> Result<(<Self as DeepView>::V, nat), DeserializeError> {
        match A::spec_deserialize(input) {
            Err(e) => Err(e),
            Ok((v0, n0)) => match B::spec_deserialize(input.skip((n0) as int)) {
            Err(e) => Err(e),
            Ok((v1, n1)) => match C::spec_deserialize(input.skip((n0 + n1) as int)) {
            Err(e) => Err(e),
            Ok((v2, n2)) => match D::spec_deserialize(input.skip((n0 + n1 + n2) as int)) {
            Err(e) => Err(e),
            Ok((v3, n3)) => match E::spec_deserialize(input.skip((n0 + n1 + n2 + n3) as int)) {
            Err(e) => Err(e),
            Ok((v4, n4)) => match F::spec_deserialize(input.skip((n0 + n1 + n2 + n3 + n4) as int)) {
            Err(e) => Err(e),
            Ok((v5, n5)) => match G::spec_deserialize(input.skip((n0 + n1 + n2 + n3 + n4 + n5) as int)) {
            Err(e) => Err(e),
            Ok((v6, n6)) => match H::spec_deserialize(input.skip((n0 + n1 + n2 + n3 + n4 + n5 + n6) as int)) {
            Err(e) => Err(e),
            Ok((v7, n7)) => match I::spec_deserialize(input.skip((n0 + n1 + n2 + n3 + n4 + n5 + n6 + n7) as int)) {
            Err(e) => Err(e),
            Ok((v8, n8)) => match J::spec_deserialize(input.skip((n0 + n1 + n2 + n3 + n4 + n5 + n6 + n7 + n8) as int)) {
            Err(e) => Err(e),
            Ok((v9, n9)) => match K::spec_deserialize(input.skip((n0 + n1 + n2 + n3 + n4 + n5 + n6 + n7 + n8 + n9) as int)) {
            Err(e) => Err(e),
            Ok((v10, n10)) => Ok(((v0, v1, v2, v3, v4, v5, v6, v7, v8, v9, v10), n0 + n1 + n2 + n3 + n4 + n5 + n6 + n7 + n8 + n9 + n10)),
        },
        },
        },
        },
        },
        },
        },
        },
        },
        },
        }
    }

    open spec fn spec_size_hint() -> Option<usize> {
        add_sizes(add_sizes(add_sizes(add_sizes(add_sizes(add_sizes(add_sizes(add_sizes(add_sizes(add_sizes(add_sizes(Some(0usize), A::spec_size_hint()), B::spec_size_hint()), C::spec_size_hint()), D::spec_size_hint()), E::spec_size_hint()), F::spec_size_hint()), G::spec_size_hint()), H::spec_size_hint()), I::spec_size_hint()), J::spec_size_hint()), K::spec_size_hint())
    }

    fn deserialize(buffer: &mut Reader) -> (result: Result<Self::Output, DeserializeError>) {
        let ghost start = buffer@;
        assert(start.skip(0) =~= start);
        let x0 = deserialize_next::<A>(buffer, Ghost(start), Ghost(0nat))?;
        let x1 = deserialize_next::<B>(buffer, Ghost(start), Ghost(A::spec_deserialize(start.skip((0nat) as int)).unwrap().1))?;
        let x2 = deserialize_next::<C>(buffer, Ghost(start), Ghost(A::spec_deserialize(start.skip((0nat) as int)).unwrap().1 + B::spec_deserialize(start.skip((A::spec_deserialize(start.skip((0nat) as int)).unwrap().1) as int)).unwrap().1))?;
        let x3 = deserialize_next::<D>(buffer, Ghost(start), Ghost(A::spec_deserialize(start.skip((0nat) as int)).unwrap().1 + B::spec_deserialize(start.skip((A::spec_deserialize(start.skip((0nat) as int)).unwrap().1) as int)).unwrap().1 + C::spec_deserialize(start.skip((A::spec_deserialize(start.skip((0nat) as int)).unwrap().1 + B::spec_deserialize(start.skip((A::spec_deserialize(start.skip((0nat) as int)).unwrap().1) as int)).unwrap().1) as int)).unwrap().1))?;
        let x4 = deserialize_next::<E>(buffer, Ghost(start), Ghost(A::spec_deserialize(start.skip((0nat) as int)).unwrap().1 + B::spec_deserialize(start.skip((A::spec_deserialize(start.skip((0nat) as int)).unwrap().1) as int)).unwrap().1 + C::spec_deserialize(start.skip((A::spec_deserialize(start.skip((0nat) as int)).unwrap().1 + B::spec_deserialize(start.skip((A::spec_deserialize(start.skip((0nat) as int)).unwrap().1) as int)).unwrap().1) as int)).unwrap().1 + D::spec_deserialize(start.skip((A::spec_deserialize(start.skip((0nat) as int)).unwrap().1 + B::spec_deserialize(start.skip((A::spec_deserialize(start.skip((0nat) as int)).unwrap().1) as int)).unwrap().1 + C::spec_deserialize(start.skip((A::spec_deserialize(start.skip((0nat) as int)).unwrap().1 + B::spec_deserialize(start.skip((A::spec_deserialize(start.skip((0nat) as int)).unwrap().1) as int)).unwrap().1) as int)).unwrap().1) as int)).unwrap().1))?;
        let x5 = deserialize_next::<F>(buffer, Ghost(start), Ghost(A::spec_deserialize(start.skip((0nat) as int)).unwrap().1 + B::spec_deserialize(start.skip((A::spec_deserialize(start.skip((0nat) as int)).unwrap().1) as int)).unwrap().1 + C::spec_deserialize(start.skip((A::spec_deserialize(start.skip((0nat) as int)).unwrap().1 + B::spec_deserialize(start.skip((A::spec_deserialize(start.skip((0nat) as int)).unwrap().1) as int)).unwrap().1) as int)).unwrap().1 + D::spec_deserialize(start.skip((A::spec_deserialize(start.skip((0nat) as int)).unwrap().1 + B::spec_deserialize(start.skip((A::spec_deserialize(start.skip((0nat) as int)).unwrap().1) as int)).unwrap().1 + C::spec_deserialize(start.skip((A::spec_deserialize(start.skip((0nat) as int)).unwrap().1 + B::spec_deserialize(start.skip((A::spec_deserialize(start.skip((0nat) as int)).unwrap().1) as int)).unwrap().1) as int)).unwrap().1) as int)).unwrap().1 + E::spec_deserialize(start.skip((A::spec_deserialize(start.skip((0nat) as int)).unwrap().1 + B::spec_deserialize(start.skip((A::spec_deserialize(start.skip((0nat) as int)).unwrap().1) as int)).unwrap().1 + C::spec_deserialize(start.skip((A::spec_deserialize(start.skip((0nat) as int)).unwrap().1 + B::spec_deserialize(start.skip((A::spec_deserialize(start.skip((0nat) as int)).unwrap().1) as int)).unwrap().1) as int)).unwrap().1 + D::spec_deserialize(start.skip((A::spec_deserialize(start.skip((0nat) as int)).unwrap().1 + B::spec_deserialize(start.skip((A::spec_deserialize(start.skip((0nat) as int)).unwrap().1) as int)).unwrap().1 + C::spec_deserialize(start.skip((A::spec_deserialize(start.skip((0nat) as int)).unwrap().1 + B::spec_deserialize(start.skip((A::spec_deserialize(start.skip((0nat) as int)).unwrap().1) as int)).unwrap().1) as int)).unwrap().1) as int)).unwrap().1) as int)).unwrap().1))?;
        let x6 = deserialize_next::<G>(buffer, Ghost(start), Ghost(A::spec_deserialize(start.skip((0nat) as int)).unwrap().1 + B::spec_deserialize(start.skip((A::spec_deserialize(start.skip((0nat) as int)).unwrap().1) as int)).unwrap().1 + C::spec_deserialize(start.skip((A::spec_deserialize(start.skip((0nat) as int)).unwrap().1 + B::spec_deserialize(start.skip((A::spec_deserialize(start.skip((0nat) as int)).unwrap().1) as int)).unwrap().1) as int)).unwrap().1 + D::spec_deserialize(start.skip((A::spec_deserialize(start.skip((0nat) as int)).unwrap().1 + B::spec_deserialize(start.skip((A::spec_deserialize(start.skip((0nat) as int)).unwrap().1) as int)).unwrap().1 + C::spec_deserialize(start.skip((A::spec_deserialize(start.skip((0nat) as int)).unwrap().1 + B::spec_deserialize(start.skip((A::spec_deserialize(start.skip((0nat) as int)).unwrap().1) as int)).unwrap().1) as int)).unwrap().1) as int)).unwrap().1 + E::spec_deserialize(start.skip((A::spec_deserialize(start.skip((0nat) as int)).unwrap().1 + B::spec_deserialize(start.skip((A::spec_deserialize(start.skip((0nat) as int)).unwrap().1) as int)).unwrap().1 + C::spec_deserialize(start.skip((A::spec_deserialize(start.skip((0nat) as int)).unwrap().1 + B::spec_deserialize(start.skip((A::spec_deserialize(start.skip((0nat) as int)).unwrap().1) as int)).unwrap().1) as int)).unwrap().1 + D::spec_deserialize(start.skip((A::spec_deserialize(start.skip((0nat) as int)).unwrap().1 + B::spec_deserialize(start.skip((A::spec_deserialize(start.skip((0nat) as int)).unwrap().1) as int)).unwrap().1 + C::spec_deserialize(start.skip((A::spec_deserialize(start.skip((0nat) as int)).unwrap().1 + B::spec_deserialize(start.skip((A::spec_deserialize(start.skip((0nat) as int)).unwrap().1) as int)).unwrap().1) as int)).unwrap().1) as int)).unwrap().1) as int)).unwrap().1 + F::spec_deserialize(start.skip((A::spec_deserialize(start.skip((0nat) as int)).unwrap().1 + B::spec_deserialize(start.skip((A::spec_deserialize(start.skip((0nat) as int)).unwrap().1) as int)).unwrap().1 + C::spec_deserialize(start.skip((A::spec_deserialize(start.skip((0nat) as int)).unwrap().1 + B::spec_deserialize(start.skip((A::spec_deserialize(start.skip((0nat) as int)).unwrap().1) as int)).unwrap().1) as int)).unwrap().1 + D::spec_deserialize(start.skip((A::spec_deserialize(start.skip((0nat) as int)).unwrap().1 + B::spec_deserialize(start.skip((A::spec_deserialize(start.skip((0nat) as int)).unwrap().1) as int)).unwrap().1 + C::spec_deserialize(start.skip((A::spec_deserialize(start.skip((0nat) as int)).unwrap().1 + B::spec_deserialize(start.skip((A::spec_deserialize(start.skip((0nat) as int)).unwrap().1) as int)).unwrap().1) as int)).unwrap().1) as int)).unwrap().1 + E::spec_deserialize(start.skip((A::spec_deserialize(start.skip((0nat) as int)).unwrap().1 + B::spec_deserialize(start.skip((A::spec_deserialize(start.skip((0nat) as int)).unwrap().1) as int)).unwrap().1 + C::spec_deserialize(start.skip((A::spec_deserialize(start.skip((0nat) as int)).unwrap().1 + B::spec_deserialize(start.skip((A::spec_deserialize(start.skip((0nat) as int)).unwrap().1) as int)).unwrap().1) as int)).unwrap().1 + D::spec_deserialize(start.skip((A::spec_deserialize(start.skip((0nat) as int)).unwrap().1 + B::spec_deserialize(start.skip((A::spec_deserialize(start.skip((0nat) as int)).unwrap().1) as int)).unwrap().1 + C::spec_deserialize(start.skip((A::spec_deserialize(start.skip((0nat) as int)).unwrap().1 + B::spec_deserialize(start.skip((A::spec_deserialize(start.skip((0nat) as int)).unwrap().1) as int)).unwrap().1) as int)).unwrap().1) as int)).unwrap().1) as int)).unwrap().1) as int)).unwrap().1))?;
        let x7 = deserialize_next::<H>(buffer, Ghost(start), Ghost(A::spec_deserialize(start.skip((0nat) as int)).unwrap().1 + B::spec_deserialize(start.skip((A::spec_deserialize(start.skip((0nat) as int)).unwrap().1) as int)).unwrap().1 + C::spec_deserialize(start.skip((A::spec_deserialize(start.skip((0nat) as int)).unwrap().1 + B::spec_deserialize(start.skip((A::spec_deserialize(start.skip((0nat) as int)).unwrap().1) as int)).unwrap().1) as int)).unwrap().1 + D::spec_deserialize(start.skip((A::spec_deserialize(start.skip((0nat) as int)).unwrap().1 + B::spec_deserialize(start.skip((A::spec_deserialize(start.skip((0nat) as int)).unwrap().1) as int)).unwrap().1 + C::spec_deserialize(start.skip((A::spec_deserialize(start.skip((0nat) as int)).unwrap().1 + B::spec_deserialize(start.skip((A::spec_deserialize(start.skip((0nat) as int)).unwrap().1) as int)).unwrap().1) as int)).unwrap().1) as int)).unwrap().1 + E::spec_deserialize(start.skip((A::spec_deserialize(start.skip((0nat) as int)).unwrap().1 + B::spec_deserialize(start.skip((A::spec_deserialize(start.skip((0nat) as int)).unwrap().1) as int)).unwrap().1 + C::spec_deserialize(start.skip((A::spec_deserialize(start.skip((0nat) as int)).unwrap().1 + B::spec_deserialize(start.skip((A::spec_deserialize(start.skip((0nat) as int)).unwrap().1) as int)).unwrap().1) as int)).unwrap().1 + D::spec_deserialize(start.skip((A::spec_deserialize(start.skip((0nat) as int)).unwrap().1 + B::spec_deserialize(start.skip((A::spec_deserialize(start.skip((0nat) as int)).unwrap().1) as int)).unwrap().1 + C::spec_deserialize(start.skip((A::spec_deserialize(start.skip((0nat) as int)).unwrap().1 + B::spec_deserialize(start.skip((A::spec_deserialize(start.skip((0nat) as int)).unwrap().1) as int)).unwrap().1) as int)).unwrap().1) as int)).unwrap().1) as int)).unwrap().1 + F::spec_deserialize(start.skip((A::spec_deserialize(start.skip((0nat) as int)).unwrap().1 + B::spec_deserialize(start.skip((A::spec_deserialize(start.skip((0nat) as int)).unwrap().1) as int)).unwrap().1 + C::spec_deserialize(start.skip((A::spec_deserialize(start.skip((0nat) as int)).unwrap().1 + B::spec_deserialize(start.skip((A::spec_deserialize(start.skip((0nat) as int)).unwrap().1) as int)).unwrap().1) as int)).unwrap().1 + D::spec_deserialize(start.skip((A::spec_deserialize(start.skip((0nat) as int)).unwrap().1 + B::spec_deserialize(start.skip((A::spec_deserialize(start.skip((0nat) as int)).unwrap().1) as int)).unwrap().1 + C::spec_deserialize(start.skip((A::spec_deserialize(start.skip((0nat) as int)).unwrap().1 + B::spec_deserialize(start.skip((A::spec_deserialize(start.skip((0nat) as int)).unwrap().1) as int)).unwrap().1) as int)).unwrap().1) as int)).unwrap().1 + E::spec_deserialize(start.skip((A::spec_deserialize(start.skip((0nat) as int)).unwrap().1 + B::spec_deserialize(start.skip((A::spec_deserialize(start.skip((0nat) as int)).unwrap().1) as int)).unwrap().1 + C::spec_deserialize(start.skip((A::spec_deserialize(start.skip((0nat) as int)).unwrap().1 + B::spec_deserialize(start.skip((A::spec_deserialize(start.skip((0nat) as int)).unwrap().1) as int)).unwrap().1) as int)).unwrap().1 + D::spec_deserialize(start.skip((A::spec_deserialize(start.skip((0nat) as int)).unwrap().1 + B::spec_deserialize(start.skip((A::spec_deserialize(start.skip((0nat) as int)).unwrap().1) as int)).unwrap().1 + C::spec_deserialize(start.skip((A::spec_deserialize(start.skip((0nat) as int)).unwrap().1 + B::spec_deserialize(start.skip((A::spec_deserialize(start.skip((0nat) as int)).unwrap().1) as int)).unwrap().1) as int)).unwrap().1) as int)).unwrap().1) as int)).unwrap().1) as int)).unwrap().1 + G::spec_deserialize(start.skip((A::spec_deserialize(start.skip((0nat) as int)).unwrap().1 + B::spec_deserialize(start.skip((A::spec_deserialize(start.skip((0nat) as int)).unwrap().1) as int)).unwrap().1 + C::spec_deserialize(start.skip((A::spec_deserialize(start.skip((0nat) as int)).unwrap().1 + B::spec_deserialize(start.skip((A::spec_deserialize(start.skip((0nat) as int)).unwrap().1) as int)).unwrap().1) as int)).unwrap().1 + D::spec_deserialize(start.skip((A::spec_deserialize(start.skip((0nat) as int)).unwrap().1 + B::spec_deserialize(start.skip((A::spec_deserialize(start.skip((0nat) as int)).unwrap().1) as int)).unwrap().1 + C::spec_deserialize(start.skip((A::spec_deserialize(start.skip((0nat) as int)).unwrap().1 + B::spec_deserialize(start.skip((A::spec_deserialize(start.skip((0nat) as int)).unwrap().1) as int)).unwrap().1) as int)).unwrap().1) as int)).unwrap().1 + E::spec_deserialize(start.skip((A::spec_deserialize(start.skip((0nat) as int)).unwrap().1 + B::spec_deserialize(start.skip((A::spec_deserialize(start.skip((0nat) as int)).unwrap().1) as int)).unwrap().1 + C::spec_deserialize(start.skip((A::spec_deserialize(start.skip((0nat) as int)).unwrap().1 + B::spec_deserialize(start.skip((A::spec_deserialize(start.skip((0nat) as int)).unwrap().1) as int)).unwrap().1) as int)).unwrap().1 + D::spec_deserialize(start.skip((A::spec_deserialize(start.skip((0nat) as int)).unwrap().1 + B::spec_deserialize(start.skip((A::spec_deserialize(start.skip((0nat) as int)).unwrap().1) as int)).unwrap().1 + C::spec_deserialize(start.skip((A::spec_deserialize(start.skip((0nat) as int)).unwrap().1 + B::spec_deserialize(start.skip((A::spec_deserialize(start.skip((0nat) as int)).unwrap().1) as int)).unwrap().1) as int)).unwrap().1) as int)).unwrap().1) as int)).unwrap().1 + F::spec_deserialize(start.skip((A::spec_deserialize(start.skip((0nat) as int)).unwrap().1 + B::spec_deserialize(start.skip((A::spec_deserialize(start.skip((0nat) as int)).unwrap().1) as int)).unwrap().1 + C::spec_deserialize(start.skip((A::spec_deserialize(start.skip((0nat) as int)).unwrap().1 + B::spec_deserialize(start.skip((A::spec_deserialize(start.skip((0nat) as int)).unwrap().1) as int)).unwrap().1) as int)).unwrap().1 + D::spec_deserialize(start.skip((A::spec_deserialize(start.skip((0nat) as int)).unwrap().1 + B::spec_deserialize(start.skip((A::spec_deserialize(start.skip((0nat) as int)).unwrap().1) as int)).unwrap().1 + C::spec_deserialize(start.skip((A::spec_deserialize(start.skip((0nat) as int)).unwrap().1 + B::spec_deserialize(start.skip((A::spec_deserialize(start.skip((0nat) as int)).unwrap().1) as int)).unwrap().1) as int)).unwrap().1) as int)).unwrap().1 + E::spec_deserialize(start.skip((A::spec_deserialize(start.skip((0nat) as int)).unwrap().1 + B::spec_deserialize(start.skip((A::spec_deserialize(start.skip((0nat) as int)).unwrap().1) as int)).unwrap().1 + C::spec_deserialize(start.skip((A::spec_deserialize(start.skip((0nat) as int)).unwrap().1 + B::spec_deserialize(start.skip((A::spec_deserialize(start.skip((0nat) as int)).unwrap().1) as int)).unwrap().1) as int)).unwrap().1 + D::spec_deserialize(start.skip((A::spec_deserialize(start.skip((0nat) as int)).unwrap().1 + B::spec_deserialize(start.skip((A::spec_deserialize(start.skip((0nat) as int)).unwrap().1) as int)).unwrap().1 + C::spec_deserialize(start.skip((A::spec_deserialize(start.skip((0nat) as int)).unwrap().1 + B::spec_deserialize(start.skip((A::spec_deserialize(start.skip((0nat) as int)).unwrap().1) as int)).unwrap().1) as int)).unwrap().1) as int)).unwrap().1) as int)).unwrap().1) as int)).unwrap().1) as int)).unwrap().1))?;
        let x8 = deserialize_next::<I>(buffer, Ghost(start), Ghost(A::spec_deserialize(start.skip((0nat) as int)).unwrap().1 + B::spec_deserialize(start.skip((A::spec_deserialize(start.skip((0nat) as int)).unwrap().1) as int)).unwrap().1 + C::spec_deserialize(start.skip((A::spec_deserialize(start.skip((0nat) as int)).unwrap().1 + B::spec_deserialize(start.skip((A::spec_deserialize(start.skip((0nat) as int)).unwrap().1) as int)).unwrap().1) as int)).unwrap().1 + D::spec_deserialize(start.skip((A::spec_deserialize(start.skip((0nat) as int)).unwrap().1 + B::spec_deserialize(start.skip((A::spec_deserialize(start.skip((0nat) as int)).unwrap().1) as int)).unwrap().1 + C::spec_deserialize(start.skip((A::spec_deserialize(start.skip((0nat) as int)).unwrap().1 + B::spec_deserialize(start.skip((A::spec_deserialize(start.skip((0nat) as int)).unwrap().1) as int)).unwrap().1) as int)).unwrap().1) as int)).unwrap().1 + E::spec_deserialize(start.skip((A::spec_deserialize(start.skip((0nat) as int)).unwrap().1 + B::spec_deserialize(start.skip((A::spec_deserialize(start.skip((0nat) as int)).unwrap().1) as int)).unwrap().1 + C::spec_deserialize(start.skip((A::spec_deserialize(start.skip((0nat) as int)).unwrap().1 + B::spec_deserialize(start.skip((A::spec_deserialize(start.skip((0nat) as int)).unwrap().1) as int)).unwrap().1) as int)).unwrap().1 + D::spec_deserialize(start.skip((A::spec_deserialize(start.skip((0nat) as int)).unwrap().1 + B::spec_deserialize(start.skip((A::spec_deserialize(start.skip((0nat) as int)).unwrap().1) as int)).unwrap().1 + C::spec_deserialize(start.skip((A::spec_deserialize(start.skip((0nat) as int)).unwrap().1 + B::spec_deserialize(start.skip((A::spec_deserialize(start.skip((0nat) as int)).unwrap().1) as int)).unwrap().1) as int)).unwrap().1) as int)).unwrap().1) as int)).unwrap().1 + F::spec_deserialize(start.skip((A::spec_deserialize(start.skip((0nat) as int)).unwrap().1 + B::spec_deserialize(start.skip((A::spec_deserialize(start.skip((0nat) as int)).unwrap().1) as int)).unwrap().1 + C::spec_deserialize(start.skip((A::spec_deserialize(start.skip((0nat) as int)).unwrap().1 + B::spec_deserialize(start.skip((A::spec_deserialize(start.skip((0nat) as int)).unwrap().1) as int)).unwrap().1) as int)).unwrap().1 + D::spec_deserialize(start.skip((A::spec_deserialize(start.skip((0nat) as int)).unwrap().1 + B::spec_deserialize(start.skip((A::spec_deserialize(start.skip((0nat) as int)).unwrap().1) as int)).unwrap().1 + C::spec_deserialize(start.skip((A::spec_deserialize(start.skip((0nat) as int)).unwrap().1 + B::spec_deserialize(start.skip((A::spec_deserialize(start.skip((0nat) as int)).unwrap().1) as int)).unwrap().1) as int)).unwrap().1) as int)).unwrap().1 + E::spec_deserialize(start.skip((A::spec_deserialize(start.skip((0nat) as int)).unwrap().1 + B::spec_deserialize(start.skip((A::spec_deserialize(start.skip((0nat) as int)).unwrap().1) as int)).unwrap().1 + C::spec_deserialize(start.skip((A::spec_deserialize(start.skip((0nat) as int)).unwrap().1 + B::spec_deserialize(start.skip((A::spec_deserialize(start.skip((0nat) as int)).unwrap().1) as int)).unwrap().1) as int)).unwrap().1 + D::spec_deserialize(start.skip((A::spec_deserialize(start.skip((0nat) as int)).unwrap().1 + B::spec_deserialize(start.skip((A::spec_deserialize(start.skip((0nat) as int)).unwrap().1) as int)).unwrap().1 + C::spec_deserialize(start.skip((A::spec_deserialize(start.skip((0nat) as int)).unwrap().1 + B::spec_deserialize(start.skip((A::spec_deserialize(start.skip((0nat) as int)).unwrap().1) as int)).unwrap().1) as int)).unwrap().1) as int)).unwrap().1) as int)).unwrap().1) as int)).unwrap().1 + G::spec_deserialize(start.skip((A::spec_deserialize(start.skip((0nat) as int)).unwrap().1 + B::spec_deserialize(start.skip((A::spec_deserialize(start.skip((0nat) as int)).unwrap().1) as int)).unwrap().1 + C::spec_deserialize(start.skip((A::spec_deserialize(start.skip((0nat) as int)).unwrap().1 + B::spec_deserialize(start.skip((A::spec_deserialize(start.skip((0nat) as int)).unwrap().1) as int)).unwrap().1) as int)).unwrap().1 + D::spec_deserialize(start.skip((A::spec_deserialize(start.skip((0nat) as int)).unwrap().1 + B::spec_deserialize(start.skip((A::spec_deserialize(start.skip((0nat) as int)).unwrap().1) as int)).unwrap().1 + C::spec_deserialize(start.skip((A::spec_deserialize(start.skip((0nat) as int)).unwrap().1 + B::spec_deserialize(start.skip((A::spec_deserialize(start.skip((0nat) as int)).unwrap().1) as int)).unwrap().1) as int)).unwrap().1) as int)).unwrap().1 + E::spec_deserialize(start.skip((A::spec_deserialize(start.skip((0nat) as int)).unwrap().1 + B::spec_deserialize(start.skip((A::spec_deserialize(start.skip((0nat) as int)).unwrap().1) as int)).unwrap().1 + C::spec_deserialize(start.skip((A::spec_deserialize(start.skip((0nat) as int)).unwrap().1 + B::spec_deserialize(start.skip((A::spec_deserialize(start.skip((0nat) as int)).unwrap().1) as int)).unwrap().1) as int)).unwrap().1 + D::spec_deserialize(start.skip((A::spec_deserialize(start.skip((0nat) as int)).unwrap().1 + B::spec_deserialize(start.skip((A::spec_deserialize(start.skip((0nat) as int)).unwrap().1) as int)).unwrap().1 + C::spec_deserialize(start.skip((A::spec_deserialize(start.skip((0nat) as int)).unwrap().1 + B::spec_deserialize(start.skip((A::spec_deserialize(start.skip((0nat) as int)).unwrap().1) as int)).unwrap().1) as int)).unwrap().1) as int)).unwrap().1) as int)).unwrap().1 + F::spec_deserialize(start.skip((A::spec_deserialize(start.skip((0nat) as int)).unwrap().1 + B::spec_deserialize(start.skip((A::spec_deserialize(start.skip((0nat) as int)).unwrap().1) as int)).unwrap().1 + C::spec_deserialize(start.skip((A::spec_deserialize(start.skip((0nat) as int)).unwrap().1 + B::spec_deserialize(start.skip((A::spec_deserialize(start.skip((0nat) as int)).unwrap().1) as int)).unwrap().1) as int)).unwrap().1 + D::spec_deserialize(start.skip((A::spec_deserialize(start.skip((0nat) as int)).unwrap().1 + B::spec_deserialize(start.skip((A::spec_deserialize(start.skip((0nat) as int)).unwrap().1) as int)).unwrap().1 + C::spec_deserialize(start.skip((A::spec_deserialize(start.skip((0nat) as int)).unwrap().1 + B::spec_deserialize(start.skip((A::spec_deserialize(start.skip((0nat) as int)).unwrap().1) as int)).unwrap().1) as int)).unwrap().1) as int)).unwrap().1 + E::spec_deserialize(start.skip((A::spec_deserialize(start.skip((0nat) as int)).unwrap().1 + B::spec_deserialize(start.skip((A::spec_deserialize(start.skip((0nat) as int)).unwrap().1) as int)).unwrap().1 + C::spec_deserialize(start.skip((A::spec_deserialize(start.skip((0nat) as int)).unwrap().1 + B::spec_deserialize(start.skip((A::spec_deserialize(start.skip((0nat) as int)).unwrap().1) as int)).unwrap().1) as int)).unwrap().1 + D::spec_deserialize(start.skip((A::spec_deserialize(start.skip((0nat) as int)).unwrap().1 + B::spec_deserialize(start.skip((A::spec_deserialize(start.skip((0nat) as int)).unwrap().1) as int)).unwrap().1 + C::spec_deserialize(start.skip((A::spec_deserialize(start.skip((0nat) as int)).unwrap().1 + B::spec_deserialize(start.skip((A::spec_deserialize(start.skip((0nat) as int)).unwrap().1) as int)).unwrap().1) as int)).unwrap().1) as int)).unwrap().1) as int)).unwrap().1) as int)).unwrap().1) as int)).unwrap().1 + H::spec_deserialize(start.skip((A::spec_deserialize(start.skip((0nat) as int)).unwrap().1 + B::spec_deserialize(start.skip((A::spec_deserialize(start.skip((0nat) as int)).unwrap().1) as int)).unwrap().1 + C::spec_deserialize(start.skip((A::spec_deserialize(start.skip((0nat) as int)).unwrap().1 + B::spec_deserialize(start.skip((A::spec_deserialize(start.skip((0nat) as int)).unwrap().1) as int)).unwrap().1) as int)).unwrap().1 + D::spec_deserialize(start.skip((A::spec_deserialize(start.skip((0nat) as int)).unwrap().1 + B::spec_deserialize(start.skip((A::spec_deserialize(start.skip((0nat) as int)).unwrap().1) as int)).unwrap().1 + C::spec_deserialize(start.skip((A::spec_deserialize(start.skip((0nat) as int)).unwrap().1 + B::spec_deserialize(start.skip((A::spec_deserialize(start.skip((0nat) as int)).unwrap().1) as int)).unwrap().1) as int)).unwrap().1) as int)).unwrap().1 + E::spec_deserialize(start.skip((A::spec_deserialize(start.skip((0nat) as int)).unwrap().1 + B::spec_deserialize(start.skip((A::spec_deserialize(start.skip((0nat) as int)).unwrap().1) as int)).unwrap().1 + C::spec_deserialize(start.skip((A::spec_deserialize(start.skip((0nat) as int)).unwrap().1 + B::spec_deserialize(start.skip((A::spec_deserialize(start.skip((0nat) as int)).unwrap().1) as int)).unwrap().1) as int)).unwrap().1 + D::spec_deserialize(start.skip((A::spec_deserialize(start.skip((0nat) as int)).unwrap().1 + B::spec_deserialize(start.skip((A::spec_deserialize(start.skip((0nat) as int)).unwrap().1) as int)).unwrap().1 + C::spec_deserialize(start.skip((A::spec_deserialize(start.skip((0nat) as int)).unwrap().1 + B::spec_deserialize(start.skip((A::spec_deserialize(start.skip((0nat) as int)).unwrap().1) as int)).unwrap().1) as int)).unwrap().1) as int)).unwrap().1) as int)).unwrap().1 + F::spec_deserialize(start.skip((A::spec_deserialize(start.skip((0nat) as int)).unwrap().1 + B::spec_deserialize(start.skip((A::spec_deserialize(start.skip((0nat) as int)).unwrap().1) as int)).unwrap().1 + C::spec_deserialize(start.skip((A::spec_deserialize(start.skip((0nat) as int)).unwrap().1 + B::spec_deserialize(start.skip((A::spec_deserialize(start.skip((0nat) as int)).unwrap().1) as int)).unwrap().1) as int)).unwrap().1 + D::spec_deserialize(start.skip((A::spec_deserialize(start.skip((0nat) as int)).unwrap().1 + B::spec_deserialize(start.skip((A::spec_deserialize(start.skip((0nat) as int)).unwrap().1) as int)).unwrap().1 + C::spec_deserialize(start.skip((A::spec_deserialize(start.skip((0nat) as int)).unwrap().1 + B::spec_deserialize(start.skip((A::spec_deserialize(start.skip((0nat) as int)).unwrap().1) as int)).unwrap().1) as int)).unwrap().1) as int)).unwrap().1 + E::spec_deserialize(start.skip((A::spec_deserialize(start.skip((0nat) as int)).unwrap().1 + B::spec_deserialize(start.skip((A::spec_deserialize(start.skip((0nat) as int)).unwrap().1) as int)).unwrap().1 + C::spec_deserialize(start.skip((A::spec_deserialize(start.skip((0nat) as int)).unwrap().1 + B::spec_deserialize(start.skip((A::spec_deserialize(start.skip((0nat) as int)).unwrap().1) as int)).unwrap().1) as int)).unwrap().1 + D::spec_deserialize(start.skip((A::spec_deserialize(start.skip((0nat) as int)).unwrap().1 + B::spec_deserialize(start.skip((A::spec_deserialize(start.skip((0nat) as int)).unwrap().1) as int)).unwrap().1 + C::spec_deserialize(start.skip((A::spec_deserialize(start.skip((0nat) as int)).unwrap().1 + B::spec_deserialize(start.skip((A::spec_deserialize(start.skip((0nat) as int)).unwrap().1) as int)).unwrap().1) as int)).unwrap().1) as int)).unwrap().1) as int)).unwrap().1) as int)).unwrap().1 + G::spec_deserialize(start.skip((A::spec_deserialize(start.skip((0nat) as int)).unwrap().1 + B::spec_deserialize(start.skip((A::spec_deserialize(start.skip((0nat) as int)).unwrap().1) as int)).unwrap().1 + C::spec_deserialize(start.skip((A::spec_deserialize(start.skip((0nat) as int)).unwrap().1 + B::spec_deserialize(start.skip((A::spec_deserialize(start.skip((0nat) as int)).unwrap().1) as int)).unwrap().1) as int)).unwrap().1 + D::spec_deserialize(start.skip((A::spec_deserialize(start.skip((0nat) as int)).unwrap().1 + B::spec_deserialize(start.skip((A::spec_deserialize(start.skip((0nat) as int)).unwrap().1) as int)).unwrap().1 + C::spec_deserialize(start.skip((A::spec_deserialize(start.skip((0nat) as int)).unwrap().1 + B::spec_deserialize(start.skip((A::spec_deserialize(start.skip((0nat) as int)).unwrap().1) as int)).unwrap().1) as int)).unwrap().1) as int)).unwrap().1 + E::spec_deserialize(start.skip((A::spec_deserialize(start.skip((0nat) as int)).unwrap().1 + B::spec_deserialize(start.skip((A::spec_deserialize(start.skip((0nat) as int)).unwrap().1) as int)).unwrap().1 + C::spec_deserialize(start.skip((A::spec_deserialize(start.skip((0nat) as int)).unwrap().1 + B::spec_deserialize(start.skip((A::spec_deserialize(start.skip((0nat) as int)).unwrap().1) as int)).unwrap().1) as int)).unwrap().1 + D::spec_deserialize(start.skip((A::spec_deserialize(start.skip((0nat) as int)).unwrap().1 + B::spec_deserialize(start.skip((A::spec_deserialize(start.skip((0nat) as int)).unwrap().1) as int)).unwrap().1 + C::spec_deserialize(start.skip((A::spec_deserialize(start.skip((0nat) as int)).unwrap().1 + B::spec_deserialize(start.skip((A::spec_deserialize(start.skip((0nat) as int)).unwrap().1) as int)).unwrap().1) as int)).unwrap().1) as int)).unwrap().1) as int)).unwrap().1 + F::spec_deserialize(start.skip((A::spec_deserialize(start.skip((0nat) as int)).unwrap().1 + B::spec_deserialize(start.skip((A::spec_deserialize(start.skip((0nat) as int)).unwrap().1) as int)).unwrap().1 + C::spec_deserialize(start.skip((A::spec_deserialize(start.skip((0nat) as int)).unwrap().1 + B::spec_deserialize(start.skip((A::spec_deserialize(start.skip((0nat) as int)).unwrap().1) as int)).unwrap().1) as int)).unwrap().1 + D::spec_deserialize(start.skip((A::spec_deserialize(start.skip((0nat) as int)).unwrap().1 + B::spec_deserialize(start.skip((A::spec_deserialize(start.skip((0nat) as int)).unwrap().1) as int)).unwrap().1 + C::spec_deserialize(start.skip((A::spec_deserialize(start.skip((0nat) as int)).unwrap().1 + B::spec_deserialize(start.skip((A::spec_deserialize(start.skip((0nat) as int)).unwrap().1) as int)).unwrap().1) as int)).unwrap().1) as int)).unwrap().1 + E::spec_deserialize(start.skip((A::spec_deserialize(start.skip((0nat) as int)).unwrap().1 + B::spec_deserialize(start.skip((A::spec_deserialize(start.skip((0nat) as int)).unwrap().1) as int)).unwrap().1 + C::spec_deserialize(start.skip((A::spec_deserialize(start.skip((0nat) as int)).unwrap().1 + B::spec_deserialize(start.skip((A::spec_deserialize(start.skip((0nat) as int)).unwrap().1) as int)).unwrap().1) as int)).unwrap().1 + D::spec_deserialize(start.skip((A::spec_deserialize(start.skip((0nat) as int)).unwrap().1 + B::spec_deserialize(start.skip((A::spec_deserialize(start.skip((0nat) as int)).unwrap().1) as int)).unwrap().1 + C::spec_deserialize(start.skip((A::spec_deserialize(start.skip((0nat) as int)).unwrap().1 + B::spec_deserialize(start.skip((A::spec_deserialize(start.skip((0nat) as int)).unwrap().1) as int)).unwrap().1) as int)).unwrap().1) as int)).unwrap().1) as int)).unwrap().1) as int)).unwrap().1) as int)).unwrap().1) as int)).unwrap().1))?;
        let x9 = deserialize_next::<J>(buffer, Ghost(start), Ghost(A::spec_deserialize(start.skip((0nat) as int)).unwrap().1 + B::spec_deserialize(start.skip((A::spec_deserialize(start.skip((0nat) as int)).unwrap().1) as int)).unwrap().1 + C::spec_deserialize(start.skip((A::spec_deserialize(start.skip((0nat) as int)).unwrap().1 + B::spec_deserialize(start.skip((A::spec_deserialize(start.skip((0nat) as int)).unwrap().1) as int)).unwrap().1) as int)).unwrap().1 + D::spec_deserialize(start.skip((A::spec_deserialize(start.skip((0nat) as int)).unwrap().1 + B::spec_deserialize(start.skip((A::spec_deserialize(start.skip((0nat) as int)).unwrap().1) as int)).unwrap().1 + C::spec_deserialize(start.skip((A::spec_deserialize(start.skip((0nat) as int)).unwrap().1 + B::spec_deserialize(start.skip((A::spec_deserialize(start.skip((0nat) as int)).unwrap().1) as int)).unwrap().1) as int)).unwrap().1) as int)).unwrap().1 + E::spec_deserialize(start.skip((A::spec_deserialize(start.skip((0nat) as int)).unwrap().1 + B::spec_deserialize(start.skip((A::spec_deserialize(start.skip((0nat) as int)).unwrap().1) as int)).unwrap().1 + C::spec_deserialize(start.skip((A::spec_deserialize(start.skip((0nat) as int)).unwrap().1 + B::spec_deserialize(start.skip((A::spec_deserialize(start.skip((0nat) as int)).unwrap().1) as int)).unwrap().1) as int)).unwrap().1 + D::spec_deserialize(start.skip((A::spec_deserialize(start.skip((0nat) as int)).unwrap().1 + B::spec_deserialize(start.skip((A::spec_deserialize(start.skip((0nat) as int)).unwrap().1) as int)).unwrap().1 + C::spec_deserialize(start.skip((A::spec_deserialize(start.skip((0nat) as int)).unwrap().1 + B::spec_deserialize(start.skip((A::spec_deserialize(start.skip((0nat) as int)).unwrap().1) as int)).unwrap().1) as int)).unwrap().1) as int)).unwrap().1) as int)).unwrap().1 + F::spec_deserialize(start.skip((A::spec_deserialize(start.skip((0nat) as int)).unwrap().1 + B::spec_deserialize(start.skip((A::spec_deserialize(start.skip((0nat) as int)).unwrap().1) as int)).unwrap().1 + C::spec_deserialize(start.skip((A::spec_deserialize(start.skip((0nat) as int)).unwrap().1 + B::spec_deserialize(start.skip((A::spec_deserialize(start.skip((0nat) as int)).unwrap().1) as int)).unwrap().1) as int)).unwrap().1 + D::spec_deserialize(start.skip((A::spec_deserialize(start.skip((0nat) as int)).unwrap().1 + B::spec_deserialize(start.skip((A::spec_deserialize(start.skip((0nat) as int)).unwrap().1) as int)).unwrap().1 + C::spec_deserialize(start.skip((A::spec_deserialize(start.skip((0nat) as int)).unwrap().1 + B::spec_deserialize(start.skip((A::spec_deserialize(start.skip((0nat) as int)).unwrap().1) as int)).unwrap().1) as int)).unwrap().1) as int)).unwrap().1 + E::spec_deserialize(start.skip((A::spec_deserialize(start.skip((0nat) as int)).unwrap().1 + B::spec_deserialize(start.skip((A::spec_deserialize(start.skip((0nat) as int)).unwrap().1) as int)).unwrap().1 + C::spec_deserialize(start.skip((A::spec_deserialize(start.skip((0nat) as int)).unwrap().1 + B::spec_deserialize(start.skip((A::spec_deserialize(start.skip((0nat) as int)).unwrap().1) as int)).unwrap().1) as int)).unwrap().1 + D::spec_deserialize(start.skip((A::spec_deserialize(start.skip((0nat) as int)).unwrap().1 + B::spec_deserialize(start.skip((A::spec_deserialize(start.skip((0nat) as int)).unwrap().1) as int)).unwrap().1 + C::spec_deserialize(start.skip((A::spec_deserialize(start.skip((0nat) as int)).unwrap().1 + B::spec_deserialize(start.skip((A::spec_deserialize(start.skip((0nat) as int)).unwrap().1) as int)).unwrap().1) as int)).unwrap().1) as int)).unwrap().1) as int)).unwrap().1) as int)).unwrap().1 + G::spec_deserialize(start.skip((A::spec_deserialize(start.skip((0nat) as int)).unwrap().1 + B::spec_deserialize(start.skip((A::spec_deserialize(start.skip((0nat) as int)).unwrap().1) as int)).unwrap().1 + C::spec_deserialize(start.skip((A::spec_deserialize(start.skip((0nat) as int)).unwrap().1 + B::spec_deserialize(start.skip((A::spec_deserialize(start.skip((0nat) as int)).unwrap().1) as int)).unwrap().1) as int)).unwrap().1 + D::spec_deserialize(start.skip((A::spec_deserialize(start.skip((0nat) as int)).unwrap().1 + B::spec_deserialize(start.skip((A::spec_deserialize(start.skip((0nat) as int)).unwrap().1) as int)).unwrap().1 + C::spec_deserialize(start.skip((A::spec_deserialize(start.skip((0nat) as int)).unwrap().1 + B::spec_deserialize(start.skip((A::spec_deserialize(start.skip((0nat) as int)).unwrap().1) as int)).unwrap().1) as int)).unwrap().1) as int)).unwrap().1 + E::spec_deserialize(start.skip((A::spec_deserialize(start.skip((0nat) as int)).unwrap().1 + B::spec_deserialize(start.skip((A::spec_deserialize(start.skip((0nat) as int)).unwrap().1) as int)).unwrap().1 + C::spec_deserialize(start.skip((A::spec_deserialize(start.skip((0nat) as int)).unwrap().1 + B::spec_deserialize(start.skip((A::spec_deserialize(start.skip((0nat) as int)).unwrap().1) as int)).unwrap().1) as int)).unwrap().1 + D::spec_deserialize(start.skip((A::spec_deserialize(start.skip((0nat) as int)).unwrap().1 + B::spec_deserialize(start.skip((A::spec_deserialize(start.skip((0nat) as int)).unwrap().1) as int)).unwrap().1 + C::spec_deserialize(start.skip((A::spec_deserialize(start.skip((0nat) as int)).unwrap().1 + B::spec_deserialize(start.skip((A::spec_deserialize(start.skip((0nat) as int)).unwrap().1) as int)).unwrap().1) as int)).unwrap().1) as int)).unwrap().1) as int)).unwrap().1 + F::spec_deserialize(start.skip((A::spec_deserialize(start.skip((0nat) as int)).unwrap().1 + B::spec_deserialize(start.skip((A::spec_deserialize(start.skip((0nat) as int)).unwrap().1) as int)).unwrap().1 + C::spec_deserialize(start.skip((A::spec_deserialize(start.skip((0nat) as int)).unwrap().1 + B::spec_deserialize(start.skip((A::spec_deserialize(start.skip((0nat) as int)).unwrap().1) as int)).unwrap().1) as int)).unwrap().1 + D::spec_deserialize(start.skip((A::spec_deserialize(start.skip((0nat) as int)).unwrap().1 + B::spec_deserialize(start.skip((A::spec_deserialize(start.skip((0nat) as int)).unwrap().1) as int)).unwrap().1 + C::spec_deserialize(start.skip((A::spec_deserialize(start.skip((0nat) as int)).unwrap().1 + B::spec_deserialize(start.skip((A::spec_deserialize(start.skip((0nat) as int)).unwrap().1) as int)).unwrap().1) as int)).unwrap().1) as int)).unwrap().1 + E::spec_deserialize(start.skip((A::spec_deserialize(start.skip((0nat) as int)).unwrap().1 + B::spec_deserialize(start.skip((A::spec_deserialize(start.skip((0nat) as int)).unwrap().1) as int)).unwrap().1 + C::spec_deserialize(start.skip((A::spec_deserialize(start.skip((0nat) as int)).unwrap().1 + B::spec_deserialize(start.skip((A::spec_deserialize(start.skip((0nat) as int)).unwrap().1) as int)).unwrap().1) as int)).unwrap().1 + D::spec_deserialize(start.skip((A::spec_deserialize(start.skip((0nat) as int)).unwrap().1 + B::spec_deserialize(start.skip((A::spec_deserialize(start.skip((0nat) as int)).unwrap().1) as int)).unwrap().1 + C::spec_deserialize(start.skip((A::spec_deserialize(start.skip((0nat) as int)).unwrap().1 + B::spec_deserialize(start.skip((A::spec_deserialize(start.skip((0nat) as int)).unwrap().1) as int)).unwrap().1) as int)).unwrap().1) as int)).unwrap().1) as int)).unwrap().1) as int)).unwrap().1) as int)).unwrap().1 + H::spec_deserialize(start.skip((A::spec_deserialize(start.skip((0nat) as int)).unwrap().1 + B::spec_deserialize(start.skip((A::spec_deserialize(start.skip((0nat) as int)).unwrap().1) as int)).unwrap().1 + C::spec_deserialize(start.skip((A::spec_deserialize(start.skip((0nat) as int)).unwrap().1 + B::spec_deserialize(start.skip((A::spec_deserialize(start.skip((0nat) as int)).unwrap().1) as int)).unwrap().1) as int)).unwrap().1 + D::spec_deserialize(start.skip((A::spec_deserialize(start.skip((0nat) as int)).unwrap().1 + B::spec_deserialize(start.skip((A::spec_deserialize(start.skip((0nat) as int)).unwrap().1) as int)).unwrap().1 + C::spec_deserialize(start.skip((A::spec_deserialize(start.skip((0nat) as int)).unwrap().1 + B::spec_deserialize(start.skip((A::spec_deserialize(start.skip((0nat) as int)).unwrap().1) as int)).unwrap().1) as int)).unwrap().1) as int)).unwrap().1 + E::spec_deserialize(start.skip((A::spec_deserialize(start.skip((0nat) as int)).unwrap().1 + B::spec_deserialize(start.skip((A::spec_deserialize(start.skip((0nat) as int)).unwrap().1) as int)).unwrap().1 + C::spec_deserialize(start.skip((A::spec_deserialize(start.skip((0nat) as int)).unwrap().1 + B::spec_deserialize(start.skip((A::spec_deserialize(start.skip((0nat) as int)).unwrap().1) as int)).unwrap().1) as int)).unwrap().1 + D::spec_deserialize(start.skip((A::spec_deserialize(start.skip((0nat) as int)).unwrap().1 + B::spec_deserialize(start.skip((A::spec_deserialize(start.skip((0nat) as int)).unwrap().1) as int)).unwrap().1 + C::spec_deserialize(start.skip((A::spec_deserialize(start.skip((0nat) as int)).unwrap().1 + B::spec_deserialize(start.skip((A::spec_deserialize(start.skip((0nat) as int)).unwrap().1) as int)).unwrap().1) as int)).unwrap().1) as int)).unwrap().1) as int)).unwrap().1 + F::spec_deserialize(start.skip((A::spec_deserialize(start.skip((0nat) as int)).unwrap().1 + B::spec_deserialize(start.skip((A::spec_deserialize(start.skip((0nat) as int)).unwrap().1) as int)).unwrap().1 + C::spec_deserialize(start.skip((A::spec_deserialize(start.skip((0nat) as int)).unwrap().1 + B::spec_deserialize(start.skip((A::spec_deserialize(start.skip((0nat) as int)).unwrap().1) as int)).unwrap().1) as int)).unwrap().1 + D::spec_deserialize(start.skip((A::spec_deserialize(start.skip((0nat) as int)).unwrap().1 + B::spec_deserialize(start.skip((A::spec_deserialize(start.skip((0nat) as int)).unwrap().1) as int)).unwrap().1 + C::spec_deserialize(start.skip((A::spec_deserialize(start.skip((0nat) as int)).unwrap().1 + B::spec_deserialize(start.skip((A::spec_deserialize(start.skip((0nat) as int)).unwrap().1) as int)).unwrap().1) as int)).unwrap().1) as int)).unwrap().1 + E::spec_deserialize(start.skip((A::spec_deserialize(start.skip((0nat) as int)).unwrap().1 + B::spec_deserialize(start.skip((A::spec_deserialize(start.skip((0nat) as int)).unwrap().1) as int)).unwrap().1 + C::spec_deserialize(start.skip((A::spec_deserialize(start.skip((0nat) as int)).unwrap().1 + B::spec_deserialize(start.skip((A::spec_deserialize(start.skip((0nat) as int)).unwrap().1) as int)).unwrap().1) as int)).unwrap().1 + D::spec_deserialize(start.skip((A::spec_deserialize(start.skip((0nat) as int)).unwrap().1 + B::spec_deserialize(start.skip((A::spec_deserialize(start.skip((0nat) as int)).unwrap().1) as int)).unwrap().1 + C::spec_deserialize(start.skip((A::spec_deserialize(start.skip((0nat) as int)).unwrap().1 + B::spec_deserialize(start.skip((A::spec_deserialize(start.skip((0nat) as int)).unwrap().1) as int)).unwrap().1) as int)).unwrap().1) as int)).unwrap().1) as int)).unwrap().1) as int)).unwrap().1 + G::spec_deserialize(start.skip((A::spec_deserialize(start.skip((0nat) as int)).unwrap().1 + B::spec_deserialize(start.skip((A::spec_deserialize(start.skip((0nat) as int)).unwrap().1) as int)).unwrap().1 + C::spec_deserialize(start.skip((A::spec_deserialize(start.skip((0nat) as int)).unwrap().1 + B::spec_deserialize(start.skip((A::spec_deserialize(start.skip((0nat) as int)).unwrap().1) as int)).unwrap().1) as int)).unwrap().1 + D::spec_deserialize(start.skip((A::spec_deserialize(start.skip((0nat) as int)).unwrap().1 + B::spec_deserialize(start.skip((A::spec_deserialize(start.skip((0nat) as int)).unwrap().1) as int)).unwrap().1 + C::spec_deserialize(start.skip((A::spec_deserialize(start.skip((0nat) as int)).unwrap().1 + B::spec_deserialize(start.skip((A::spec_deserialize(start.skip((0nat) as int)).unwrap().1) as int)).unwrap().1) as int)).unwrap().1) as int)).unwrap().1 + E::spec_deserialize(start.skip((A::spec_deserialize(start.skip((0nat) as int)).unwrap().1 + B::spec_deserialize(start.skip((A::spec_deserialize(start.skip((0nat) as int)).unwrap().1) as int)).unwrap().1 + C::spec_deserialize(start.skip((A::spec_deserialize(start.skip((0nat) as int)).unwrap().1 + B::spec_deserialize(start.skip((A::spec_deserialize(start.skip((0nat) as int)).unwrap().1) as int)).unwrap().1) as int)).unwrap().1 + D::spec_deserialize(start.skip((A::spec_deserialize(start.skip((0nat) as int)).unwrap().1 + B::spec_deserialize(start.skip((A::spec_deserialize(start.skip((0nat) as int)).unwrap().1) as int)).unwrap().1 + C::spec_deserialize(start.skip((A::spec_deserialize(start.skip((0nat) as int)).unwrap().1 + B::spec_deserialize(start.skip((A::spec_deserialize(start.skip((0nat) as int)).unwrap().1) as int)).unwrap().1) as int)).unwrap().1) as int)).unwrap().1) as int)).unwrap().1 + F::spec_deserialize(start.skip((A::spec_deserialize(start.skip((0nat) as int)).unwrap().1 + B::spec_deserialize(start.skip((A::spec_deserialize(start.skip((0nat) as int)).unwrap().1) as int)).unwrap().1 + C::spec_deserialize(start.skip((A::spec_deserialize(start.skip((0nat) as int)).unwrap().1 + B::spec_deserialize(start.skip((A::spec_deserialize(start.skip((0nat) as int)).unwrap().1) as int)).unwrap().1) as int)).unwrap().1 + D::spec_deserialize(start.skip((A::spec_deserialize(start.skip((0nat) as int)).unwrap().1 + B::spec_deserialize(start.skip((A::spec_deserialize(start.skip((0nat) as int)).unwrap().1) as int)).unwrap().1 + C::spec_deserialize(start.skip((A::spec_deserialize(start.skip((0nat) as int)).unwrap().1 + B::spec_deserialize(start.skip((A::spec_deserialize(start.skip((0nat) as int)).unwrap().1) as int)).unwrap().1) as int)).unwrap().1) as int)).unwrap().1 + E::spec_deserialize(start.skip((A::spec_deserialize(start.skip((0nat) as int)).unwrap().1 + B::spec_deserialize(start.skip((A::spec_deserialize(start.skip((0nat) as int)).unwrap().1) as int)).unwrap().1 + C::spec_deserialize(start.skip((A::spec_deserialize(start.skip((0nat) as int)).unwrap().1 + B::spec_deserialize(start.skip((A::spec_deserialize(start.skip((0nat) as int)).unwrap().1) as int)).unwrap().1) as int)).unwrap().1 + D::spec_deserialize(start.skip((A::spec_deserialize(start.skip((0nat) as int)).unwrap().1 + B::spec_deserialize(start.skip((A::spec_deserialize(start.skip((0nat) as int)).unwrap().1) as int)).unwrap().1 + C::spec_deserialize(start.skip((A::spec_deserialize(start.skip((0nat) as int)).unwrap().1 + B::spec_deserialize(start.skip((A::spec_deserialize(start.skip((0nat) as int)).unwrap().1) as int)).unwrap().1) as int)).unwrap().1) as int)).unwrap().1) as int)).unwrap().1) as int)).unwrap().1) as int)).unwrap().1) as int)).unwrap().1 + I::spec_deserialize(start.skip((A::spec_deserialize(start.skip((0nat) as int)).unwrap().1 + B::spec_deserialize(start.skip((A::spec_deserialize(start.skip((0nat) as int)).unwrap().1) as int)).unwrap().1 + C::spec_deserialize(start.skip((A::spec_deserialize(start.skip((0nat) as int)).unwrap().1 + B::spec_deserialize(start.skip((A::spec_deserialize(start.skip((0nat) as int)).unwrap().1) as int)).unwrap().1) as int)).unwrap().1 + D::spec_deserialize(start.skip((A::spec_deserialize(start.skip((0nat) as int)).unwrap().1 + B::spec_deserialize(start.skip((A::spec_deserialize(start.skip((0nat) as int)).unwrap().1) as int)).unwrap().1 + C::spec_deserialize(start.skip((A::spec_deserialize(start.skip((0nat) as int)).unwrap().1 + B::spec_deserialize(start.skip((A::spec_deserialize(start.skip((0nat) as int)).unwrap().1) as int)).unwrap().1) as int)).unwrap().1) as int)).unwrap().1 + E::spec_deserialize(start.skip((A::spec_deserialize(start.skip((0nat) as int)).unwrap().1 + B::spec_deserialize(start.skip((A::spec_deserialize(start.skip((0nat) as int)).unwrap().1) as int)).unwrap().1 + C::spec_deserialize(start.skip((A::spec_deserialize(start.skip((0nat) as int)).unwrap().1 + B::spec_deserialize(start.skip((A::spec_deserialize(start.skip((0nat) as int)).unwrap().1) as int)).unwrap().1) as int)).unwrap().1 + D::spec_deserialize(start.skip((A::spec_deserialize(start.skip((0nat) as int)).unwrap().1 + B::spec_deserialize(start.skip((A::spec_deserialize(start.skip((0nat) as int)).unwrap().1) as int)).unwrap().1 + C::spec_deserialize(start.skip((A::spec_deserialize(start.skip((0nat) as int)).unwrap().1 + B::spec_deserialize(start.skip((A::spec_deserialize(start.skip((0nat) as int)).unwrap().1) as int)).unwrap().1) as int)).unwrap().1) as int)).unwrap().1) as int)).unwrap().1 + F::spec_deserialize(start.skip((A::spec_deserialize(start.skip((0nat) as int)).unwrap().1 + B::spec_deserialize(start.skip((A::spec_deserialize(start.skip((0nat) as int)).unwrap().1) as int)).unwrap().1 + C::spec_deserialize(start.skip((A::spec_deserialize(start.skip((0nat) as int)).unwrap().1 + B::spec_deserialize(start.skip((A::spec_deserialize(start.skip((0nat) as int)).unwrap().1) as int)).unwrap().1) as int)).unwrap().1 + D::spec_deserialize(start.skip((A::spec_deserialize(start.skip((0nat) as int)).unwrap().1 + B::spec_deserialize(start.skip((A::spec_deserialize(start.skip((0nat) as int)).unwrap().1) as int)).unwrap().1 + C::spec_deserialize(start.skip((A::spec_deserialize(start.skip((0nat) as int)).unwrap().1 + B::spec_deserialize(start.skip((A::spec_deserialize(start.skip((0nat) as int)).unwrap().1) as int)).unwrap().1) as int)).unwrap().1) as int)).unwrap().1 + E::spec_deserialize(start.skip((A::spec_deserialize(start.skip((0nat) as int)).unwrap().1 + B::spec_deserialize(start.skip((A::spec_deserialize(start.skip((0nat) as int)).unwrap().1) as int)).unwrap().1 + C::spec_deserialize(start.skip((A::spec_deserialize(start.skip((0nat) as int)).unwrap().1 + B::spec_deserialize(start.skip((A::spec_deserialize(start.skip((0nat) as int)).unwrap().1) as int)).unwrap().1) as int)).unwrap().1 + D::spec_deserialize(start.skip((A::spec_deserialize(start.skip((0nat) as int)).unwrap().1 + B::spec_deserialize(start.skip((A::spec_deserialize(start.skip((0nat) as int)).unwrap().1) as int)).unwrap().1 + C::spec_deserialize(start.skip((A::spec_deserialize(start.skip((0nat) as int)).unwrap().1 + B::spec_deserialize(start.skip((A::spec_deserialize(start.skip((0nat) as int)).unwrap().1) as int)).unwrap().1) as int)).unwrap().1) as int)).unwrap().1) as int)).unwrap().1) as int)).unwrap().1 + G::spec_deserialize(start.skip((A::spec_deserialize(start.skip((0nat) as int)).unwrap().1 + B::spec_deserialize(start.skip((A::spec_deserialize(start.skip((0nat) as int)).unwrap().1) as int)).unwrap().1 + C::spec_deserialize(start.skip((A::spec_deserialize(start.skip((0nat) as int)).unwrap().1 + B::spec_deserialize(start.skip((A::spec_deserialize(start.skip((0nat) as int)).unwrap().1) as int)).unwrap().1) as int)).unwrap().1 + D::spec_deserialize(start.skip((A::spec_deserialize(start.skip((0nat) as int)).unwrap().1 + B::spec_deserialize(start.skip((A::spec_deserialize(start.skip((0nat) as int)).unwrap().1) as int)).unwrap().1 + C::spec_deserialize(start.skip((A::spec_deserialize(start.skip((0nat) as int)).unwrap().1 + B::spec_deserialize(start.skip((A::spec_deserialize(start.skip((0nat) as int)).unwrap().1) as int)).unwrap().1) as int)).unwrap().1) as int)).unwrap().1 + E::spec_deserialize(start.skip((A::spec_deserialize(start.skip((0nat) as int)).unwrap().1 + B::spec_deserialize(start.skip((A::spec_deserialize(start.skip((0nat) as int)).unwrap().1) as int)).unwrap().1 + C::spec_deserialize(start.skip((A::spec_deserialize(start.skip((0nat) as int)).unwrap().1 + B::spec_deserialize(start.skip((A::spec_deserialize(start.skip((0nat) as int)).unwrap().1) as int)).unwrap().1) as int)).unwrap().1 + D::spec_deserialize(start.skip((A::spec_deserialize(start.skip((0nat) as int)).unwrap().1 + B::spec_deserialize(start.skip((A::spec_deserialize(start.skip((0nat) as int)).unwrap().1) as int)).unwrap().1 + C::spec_deserialize(start.skip((A::spec_deserialize(start.skip((0nat) as int)).unwrap().1 + B::spec_deserialize(start.skip((A::spec_deserialize(start.skip((0nat) as int)).unwrap().1) as int)).unwrap().1) as int)).unwrap().1) as int)).unwrap().1) as int)).unwrap().1 + F::spec_deserialize(start.skip((A::spec_deserialize(start.skip((0nat) as int)).unwrap().1 + B::spec_deserialize(start.skip((A::spec_deserialize(start.skip((0nat) as int)).unwrap().1) as int)).unwrap().1 + C::spec_deserialize(start.skip((A::spec_deserialize(start.skip((0nat) as int)).unwrap().1 + B::spec_deserialize(start.skip((A::spec_deserialize(start.skip((0nat) as int)).unwrap().1) as int)).unwrap().1) as int)).unwrap().1 + D::spec_deserialize(start.skip((A::spec_deserialize(start.skip((0nat) as int)).unwrap().1 + B::spec_deserialize(start.skip((A::spec_deserialize(start.skip((0nat) as int)).unwrap().1) as int)).unwrap().1 + C::spec_deserialize(start.skip((A::spec_deserialize(start.skip((0nat) as int)).unwrap().1 + B::spec_deserialize(start.skip((A::spec_deserialize(start.skip((0nat) as int)).unwrap().1) as int)).unwrap().1) as int)).unwrap().1) as int)).unwrap().1 + E::spec_deserialize(start.skip((A::spec_deserialize(start.skip((0nat) as int)).unwrap().1 + B::spec_deserialize(start.skip((A::spec_deserialize(start.skip((0nat) as int)).unwrap().1) as int)).unwrap().1 + C::spec_deserialize(start.skip((A::spec_deserialize(start.skip((0nat) as int)).unwrap().1 + B::spec_deserialize(start.skip((A::spec_deserialize(start.skip((0nat) as int)).unwrap().1) as int)).unwrap().1) as int)).unwrap().1 + D::spec_deserialize(start.skip((A::spec_deserialize(start.skip((0nat) as int)).unwrap().1 + B::spec_deserialize(start.skip((A::spec_deserialize(start.skip((0nat) as int)).unwrap().1) as int)).unwrap().1 + C::spec_deserialize(start.skip((A::spec_deserialize(start.skip((0nat) as int)).unwrap().1 + B::spec_deserialize(start.skip((A::spec_deserialize(start.skip((0nat) as int)).unwrap().1) as int)).unwrap().1) as int)).unwrap().1) as int)).unwrap().1) as int)).unwrap().1) as int)).unwrap().1) as int)).unwrap().1 + H::spec_deserialize(start.skip((A::spec_deserialize(start.skip((0nat) as int)).unwrap().1 + B::spec_deserialize(start.skip((A::spec_deserialize(start.skip((0nat) as int)).unwrap().1) as int)).unwrap().1 + C::spec_deserialize(start.skip((A::spec_deserialize(start.skip((0nat) as int)).unwrap().1 + B::spec_deserialize(start.skip((A::spec_deserialize(start.skip((0nat) as int)).unwrap().1) as int)).unwrap().1) as int)).unwrap().1 + D::spec_deserialize(start.skip((A::spec_deserialize(start.skip((0nat) as int)).unwrap().1 + B::spec_deserialize(start.skip((A::spec_deserialize(start.skip((0nat) as int)).unwrap().1) as int)).unwrap().1 + C::spec_deserialize(start.skip((A::spec_deserialize(start.skip((0nat) as int)).unwrap().1 + B::spec_deserialize(start.skip((A::spec_deserialize(start.skip((0nat) as int)).unwrap().1) as int)).unwrap().1) as int)).unwrap().1) as int)).unwrap().1 + E::spec_deserialize(start.skip((A::spec_deserialize(start.skip((0nat) as int)).unwrap().1 + B::spec_deserialize(start.skip((A::spec_deserialize(start.skip((0nat) as int)).unwrap().1) as int)).unwrap().1 + C::spec_deserialize(start.skip((A::spec_deserialize(start.skip((0nat) as int)).unwrap().1 + B::spec_deserialize(start.skip((A::spec_deserialize(start.skip((0nat) as int)).unwrap().1) as int)).unwrap().1) as int)).unwrap().1 + D::spec_deserialize(start.skip((A::spec_deserialize(start.skip((0nat) as int)).unwrap().1 + B::spec_deserialize(start.skip((A::spec_deserialize(start.skip((0nat) as int)).unwrap().1) as int)).unwrap().1 + C::spec_deserialize(start.skip((A::spec_deserialize(start.skip((0nat) as int)).unwrap().1 + B::spec_deserialize(start.skip((A::spec_deserialize(start.skip((0nat) as int)).unwrap().1) as int)).unwrap().1) as int)).unwrap().1) as int)).unwrap().1) as int)).unwrap().1 + F::spec_deserialize(start.skip((A::spec_deserialize(start.skip((0nat) as int)).unwrap().1 + B::spec_deserialize(start.skip((A::spec_deserialize(start.skip((0nat) as int)).unwrap().1) as int)).unwrap().1 + C::spec_deserialize(start.skip((A::spec_deserialize(start.skip((0nat) as int)).unwrap().1 + B::spec_deserialize(start.skip((A::spec_deserialize(start.skip((0nat) as int)).unwrap().1) as int)).unwrap().1) as int)).unwrap().1 + D::spec_deserialize(start.skip((A::spec_deserialize(start.skip((0nat) as int)).unwrap().1 + B::spec_deserialize(start.skip((A::spec_deserialize(start.skip((0nat) as int)).unwrap().1) as int)).unwrap().1 + C::spec_deserialize(start.skip((A::spec_deserialize(start.skip((0nat) as int)).unwrap().1 + B::spec_deserialize(start.skip((A::spec_deserialize(start.skip((0nat) as int)).unwrap().1) as int)).unwrap().1) as int)).unwrap().1) as int)).unwrap().1 + E::spec_deserialize(start.skip((A::spec_deserialize(start.skip((0nat) as int)).unwrap().1 + B::spec_deserialize(start.skip((A::spec_deserialize(start.skip((0nat) as int)).unwrap().1) as int)).unwrap().1 + C::spec_deserialize(start.skip((A::spec_deserialize(start.skip((0nat) as int)).unwrap().1 + B::spec_deserialize(start.skip((A::spec_deserialize(start.skip((0nat) as int)).unwrap().1) as int)).unwrap().1) as int)).unwrap().1 + D::spec_deserialize(start.skip((A::spec_deserialize(start.skip((0nat) as int)).unwrap().1 + B::spec_deserialize(start.skip((A::spec_deserialize(start.skip((0nat) as int)).unwrap().1) as int)).unwrap().1 + C::spec_deserialize(start.skip((A::spec_deserialize(start.skip((0nat) as int)).unwrap().1 + B::spec_deserialize(start.skip((A::spec_deserialize(start.skip((0nat) as int)).unwrap().1) as int)).unwrap().1) as int)).unwrap().1) as int)).unwrap().1) as int)).unwrap().1) as int)).unwrap().1 + G::spec_deserialize(start.skip((A::spec_deserialize(start.skip((0nat) as int)).unwrap().1 + B::spec_deserialize(start.skip((A::spec_deserialize(start.skip((0nat) as int)).unwrap().1) as int)).unwrap().1 + C::spec_deserialize(start.skip((A::spec_deserialize(start.skip((0nat) as int)).unwrap().1 + B::spec_deserialize(start.skip((A::spec_deserialize(start.skip((0nat) as int)).unwrap().1) as int)).unwrap().1) as int)).unwrap().1 + D::spec_deserialize(start.skip((A::spec_deserialize(start.skip((0nat) as int)).unwrap().1 + B::spec_deserialize(start.skip((A::spec_deserialize(start.skip((0nat) as int)).unwrap().1) as int)).unwrap().1 + C::spec_deserialize(start.skip((A::spec_deserialize(start.skip((0nat) as int)).unwrap().1 + B::spec_deserialize(start.skip((A::spec_deserialize(start.skip((0nat) as int)).unwrap().1) as int)).unwrap().1) as int)).unwrap().1) as int)).unwrap().1 + E::spec_deserialize(start.skip((A::spec_deserialize(start.skip((0nat) as int)).unwrap().1 + B::spec_deserialize(start.skip((A::spec_deserialize(start.skip((0nat) as int)).unwrap().1) as int)).unwrap().1 + C::spec_deserialize(start.skip((A::spec_deserialize(start.skip((0nat) as int)).unwrap().1 + B::spec_deserialize(start.skip((A::spec_deserialize(start.skip((0nat) as int)).unwrap().1) as int)).unwrap().1) as int)).unwrap().1 + D::spec_deserialize(start.skip((A::spec_deserialize(start.skip((0nat) as int)).unwrap().1 + B::spec_deserialize(start.skip((A::spec_deserialize(start.skip((0nat) as int)).unwrap().1) as int)).unwrap().1 + C::spec_deserialize(start.skip((A::spec_deserialize(start.skip((0nat) as int)).unwrap().1 + B::spec_deserialize(start.skip((A::spec_deserialize(start.skip((0nat) as int)).unwrap().1) as int)).unwrap().1) as int)).unwrap().1) as int)).unwrap().1) as int)).unwrap().1 + F::spec_deserialize(start.skip((A::spec_deserialize(start.skip((0nat) as int)).unwrap().1 + B::spec_deserialize(start.skip((A::spec_deserialize(start.skip((0nat) as int)).unwrap().1) as int)).unwrap().1 + C::spec_deserialize(start.skip((A::spec_deserialize(start.skip((0nat) as int)).unwrap().1 + B::spec_deserialize(start.skip((A::spec_deserialize(start.skip((0nat) as int)).unwrap().1) as int)).unwrap().1) as int)).unwrap().1 + D::spec_deserialize(start.skip((A::spec_deserialize(start.skip((0nat) as int)).unwrap().1 + B::spec_deserialize(start.skip((A::spec_deserialize(start.skip((0nat) as int)).unwrap().1) as int)).unwrap().1 + C::spec_deserialize(start.skip((A::spec_deserialize(start.skip((0nat) as int)).unwrap().1 + B::spec_deserialize(start.skip((A::spec_deserialize(start.skip((0nat) as int)).unwrap().1) as int)).unwrap().1) as int)).unwrap().1) as int)).unwrap().1 + E::spec_deserialize(start.skip((A::spec_deserialize(start.skip((0nat) as int)).unwrap().1 + B::spec_deserialize(start.skip((A::spec_deserialize(start.skip((0nat) as int)).unwrap().1) as int)).unwrap().1 + C::spec_deserialize(start.skip((A::spec_deserialize(start.skip((0nat) as int)).unwrap().1 + B::spec_deserialize(start.skip((A::spec_deserialize(start.skip((0nat) as int)).unwrap().1) as int)).unwrap().1) as int)).unwrap().1 + D::spec_deserialize(start.skip((A::spec_deserialize(start.skip((0nat) as int)).unwrap().1 + B::spec_deserialize(start.skip((A::spec_deserialize(start.skip((0nat) as int)).unwrap().1) as int)).unwrap().1 + C::spec_deserialize(start.skip((A::spec_deserialize(start.skip((0nat) as int)).unwrap().1 + B::spec_deserialize(start.skip((A::spec_deserialize(start.skip((0nat) as int)).unwrap().1) as int)).unwrap().1) as int)).unwrap().1) as int)).unwrap().1) as int)).unwrap().1) as int)).unwrap().1) as int)).unwrap().1) as int)).unwrap().1) as int)).unwrap().1))?;
        let x10 = deserialize_next::<K>(buffer, Ghost(start), Ghost(A::spec_deserialize(start.skip((0nat) as int)).unwrap().1 + B::spec_deserialize(start.skip((A::spec_deserialize(start.skip((0nat) as int)).unwrap().1) as int)).unwrap().1 + C::spec_deserialize(start.skip((A::spec_deserialize(start.skip((0nat) as int)).unwrap().1 + B::spec_deserialize(start.skip((A::spec_deserialize(start.skip((0nat) as int)).unwrap().1) as int)).unwrap().1) as int)).unwrap().1 + D::spec_deserialize(start.skip((A::spec_deserialize(start.skip((0nat) as int)).unwrap().1 + B::spec_deserialize(start.skip((A::spec_deserialize(start.skip((0nat) as int)).unwrap().1) as int)).unwrap().1 + C::spec_deserialize(start.skip((A::spec_deserialize(start.skip((0nat) as int)).unwrap().1 + B::spec_deserialize(start.skip((A::spec_deserialize(start.skip((0nat) as int)).unwrap().1) as int)).unwrap().1) as int)).unwrap().1) as int)).unwrap().1 + E::spec_deserialize(start.skip((A::spec_deserialize(start.skip((0nat) as int)).unwrap().1 + B::spec_deserialize(start.skip((A::spec_deserialize(start.skip((0nat) as int)).unwrap().1) as int)).unwrap().1 + C::spec_deserialize(start.skip((A::spec_deserialize(start.skip((0nat) as int)).unwrap().1 + B::spec_deserialize(start.skip((A::spec_deserialize(start.skip((0nat) as int)).unwrap().1) as int)).unwrap().1) as int)).unwrap().1 + D::spec_deserialize(start.skip((A::spec_deserialize(start.skip((0nat) as int)).unwrap().1 + B::spec_deserialize(start.skip((A::spec_deserialize(start.skip((0nat) as int)).unwrap().1) as int)).unwrap().1 + C::spec_deserialize(start.skip((A::spec_deserialize(start.skip((0nat) as int)).unwrap().1 + B::spec_deserialize(start.skip((A::spec_deserialize(start.skip((0nat) as int)).unwrap().1) as int)).unwrap().1) as int)).unwrap().1) as int)).unwrap().1) as int)).unwrap().1 + F::spec_deserialize(start.skip((A::spec_deserialize(start.skip((0nat) as int)).unwrap().1 + B::spec_deserialize(start.skip((A::spec_deserialize(start.skip((0nat) as int)).unwrap().1) as int)).unwrap().1 + C::spec_deserialize(start.skip((A::spec_deserialize(start.skip((0nat) as int)).unwrap().1 + B::spec_deserialize(start.skip((A::spec_deserialize(start.skip((0nat) as int)).unwrap().1) as int)).unwrap().1) as int)).unwrap().1 + D::spec_deserialize(start.skip((A::spec_deserialize(start.skip((0nat) as int)).unwrap().1 + B::spec_deserialize(start.skip((A::spec_deserialize(start.skip((0nat) as int)).unwrap().1) as int)).unwrap().1 + C::spec_deserialize(start.skip((A::spec_deserialize(start.skip((0nat) as int)).unwrap().1 + B::spec_deserialize(start.skip((A::spec_deserialize(start.skip((0nat) as int)).unwrap().1) as int)).unwrap().1) as int)).unwrap().1) as int)).unwrap().1 + E::spec_deserialize(start.skip((A::spec_deserialize(start.skip((0nat) as int)).unwrap().1 + B::spec_deserialize(start.skip((A::spec_deserialize(start.skip((0nat) as int)).unwrap().1) as int)).unwrap().1 + C::spec_deserialize(start.skip((A::spec_deserialize(start.skip((0nat) as int)).unwrap().1 + B::spec_deserialize(start.skip((A::spec_deserialize(start.skip((0nat) as int)).unwrap().1) as int)).unwrap().1) as int)).unwrap().1 + D::spec_deserialize(start.skip((A::spec_deserialize(start.skip((0nat) as int)).unwrap().1 + B::spec_deserialize(start.skip((A::spec_deserialize(start.skip((0nat) as int)).unwrap().1) as int)).unwrap().1 + C::spec_deserialize(start.skip((A::spec_deserialize(start.skip((0nat) as int)).unwrap().1 + B::spec_deserialize(start.skip((A::spec_deserialize(start.skip((0nat) as int)).unwrap().1) as int)).unwrap().1) as int)).unwrap().1) as int)).unwrap().1) as int)).unwrap().1) as int)).unwrap().1 + G::spec_deserialize(start.skip((A::spec_deserialize(start.skip((0nat) as int)).unwrap().1 + B::spec_deserialize(start.skip((A::spec_deserialize(start.skip((0nat) as int)).unwrap().1) as int)).unwrap().1 + C::spec_deserialize(start.skip((A::spec_deserialize(start.skip((0nat) as int)).unwrap().1 + B::spec_deserialize(start.skip((A::spec_deserialize(start.skip((0nat) as int)).unwrap().1) as int)).unwrap().1) as int)).unwrap().1 + D::spec_deserialize(start.skip((A::spec_deserialize(start.skip((0nat) as int)).unwrap().1 + B::spec_deserialize(start.skip((A::spec_deserialize(start.skip((0nat) as int)).unwrap().1) as int)).unwrap().1 + C::spec_deserialize(start.skip((A::spec_deserialize(start.skip((0nat) as int)).unwrap().1 + B::spec_deserialize(start.skip((A::spec_deserialize(start.skip((0nat) as int)).unwrap().1) as int)).unwrap().1) as int)).unwrap().1) as int)).unwrap().1 + E::spec_deserialize(start.skip((A::spec_deserialize(start.skip((0nat) as int)).unwrap().1 + B::spec_deserialize(start.skip((A::spec_deserialize(start.skip((0nat) as int)).unwrap().1) as int)).unwrap().1 + C::spec_deserialize(start.skip((A::spec_deserialize(start.skip((0nat) as int)).unwrap().1 + B::spec_deserialize(start.skip((A::spec_deserialize(start.skip((0nat) as int)).unwrap().1) as int)).unwrap().1) as int)).unwrap().1 + D::spec_deserialize(start.skip((A::spec_deserialize(start.skip((0nat) as int)).unwrap().1 + B::spec_deserialize(start.skip((A::spec_deserialize(start.skip((0nat) as int)).unwrap().1) as int)).unwrap().1 + C::spec_deserialize(start.skip((A::spec_deserialize(start.skip((0nat) as int)).unwrap().1 + B::spec_deserialize(start.skip((A::spec_deserialize(start.skip((0nat) as int)).unwrap().1) as int)).unwrap().1) as int)).unwrap().1) as int)).unwrap().1) as int)).unwrap().1 + F::spec_deserialize(start.skip((A::spec_deserialize(start.skip((0nat) as int)).unwrap().1 + B::spec_deserialize(start.skip((A::spec_deserialize(start.skip((0nat) as int)).unwrap().1) as int)).unwrap().1 + C::spec_deserialize(start.skip((A::spec_deserialize(start.skip((0nat) as int)).unwrap().1 + B::spec_deserialize(start.skip((A::spec_deserialize(start.skip((0nat) as int)).unwrap().1) as int)).unwrap().1) as int)).unwrap().1 + D::spec_deserialize(start.skip((A::spec_deserialize(start.skip((0nat) as int)).unwrap().1 + B::spec_deserialize(start.skip((A::spec_deserialize(start.skip((0nat) as int)).unwrap().1) as int)).unwrap().1 + C::spec_deserialize(start.skip((A::spec_deserialize(start.skip((0nat) as int)).unwrap().1 + B::spec_deserialize(start.skip((A::spec_deserialize(start.skip((0nat) as int)).unwrap().1) as int)).unwrap().1) as int)).unwrap().1) as int)).unwrap().1 + E::spec_deserialize(start.skip((A::spec_deserialize(start.skip((0nat) as int)).unwrap().1 + B::spec_deserialize(start.skip((A::spec_deserialize(start.skip((0nat) as int)).unwrap().1) as int)).unwrap().1 + C::spec_deserialize(start.skip((A::spec_deserialize(start.skip((0nat) as int)).unwrap().1 + B::spec_deserialize(start.skip((A::spec_deserialize(start.skip((0nat) as int)).unwrap().1) as int)).unwrap().1) as int)).unwrap().1 + D::spec_deserialize(start.skip((A::spec_deserialize(start.skip((0nat) as int)).unwrap().1 + B::spec_deserialize(start.skip((A::spec_deserialize(start.skip((0nat) as int)).unwrap().1) as int)).unwrap().1 + C::spec_deserialize(start.skip((A::spec_deserialize(start.skip((0nat) as int)).unwrap().1 + B::spec_deserialize(start.skip((A::spec_deserialize(start.skip((0nat) as int)).unwrap().1) as int)).unwrap().1) as int)).unwrap().1) as int)).unwrap().1) as int)).unwrap().1) as int)).unwrap().1) as int)).unwrap().1 + H::spec_deserialize(start.skip((A::spec_deserialize(start.skip((0nat) as int)).unwrap().1 + B::spec_deserialize(start.skip((A::spec_deserialize(start.skip((0nat) as int)).unwrap().1) as int)).unwrap().1 + C::spec_deserialize(start.skip((A::spec_deserialize(start.skip((0nat) as int)).unwrap().1 + B::spec_deserialize(start.skip((A::spec_deserialize(start.skip((0nat) as int)).unwrap().1) as int)).unwrap().1) as int)).unwrap().1 + D::spec_deserialize(start.skip((A::spec_deserialize(start.skip((0nat) as int)).unwrap().1 + B::spec_deserialize(start.skip((A::spec_deserialize(start.skip((0nat) as int)).unwrap().1) as int)).unwrap().1 + C::spec_deserialize(start.skip((A::spec_deserialize(start.skip((0nat) as int)).unwrap().1 + B::spec_deserialize(start.skip((A::spec_deserialize(start.skip((0nat) as int)).unwrap().1) as int)).unwrap().1) as int)).unwrap().1) as int)).unwrap().1 + E::spec_deserialize(start.skip((A::spec_deserialize(start.skip((0nat) as int)).unwrap().1 + B::spec_deserialize(start.skip((A::spec_deserialize(start.skip((0nat) as int)).unwrap().1) as int)).unwrap().1 + C::spec_deserialize(start.skip((A::spec_deserialize(start.skip((0nat) as int)).unwrap().1 + B::spec_deserialize(start.skip((A::spec_deserialize(start.skip((0nat) as int)).unwrap().1) as int)).unwrap().1) as int)).unwrap().1 + D::spec_deserialize(start.skip((A::spec_deserialize(start.skip((0nat) as int)).unwrap().1 + B::spec_deserialize(start.skip((A::spec_deserialize(start.skip((0nat) as int)).unwrap().1) as int)).unwrap().1 + C::spec_deserialize(start.skip((A::spec_deserialize(start.skip((0nat) as int)).unwrap().1 + B::spec_deserialize(start.skip((A::spec_deserialize(start.skip((0nat) as int)).unwrap().1) as int)).unwrap().1) as int)).unwrap().1) as int)).unwrap().1) as int)).unwrap().1 + F::spec_deserialize(start.skip((A::spec_deserialize(start.skip((0nat) as int)).unwrap().1 + B::spec_deserialize(start.skip((A::spec_deserialize(start.skip((0nat) as int)).unwrap().1) as int)).unwrap().1 + C::spec_deserialize(start.skip((A::spec_deserialize(start.skip((0nat) as int)).unwrap().1 + B::spec_deserialize(start.skip((A::spec_deserialize(start.skip((0nat) as int)).unwrap().1) as int)).unwrap().1) as int)).unwrap().1 + D::spec_deserialize(start.skip((A::spec_deserialize(start.skip((0nat) as int)).unwrap().1 + B::spec_deserialize(start.skip((A::spec_deserialize(start.skip((0nat) as int)).unwrap().1) as int)).unwrap().1 + C::spec_deserialize(start.skip((A::spec_deserialize(start.skip((0nat) as int)).unwrap().1 + B::spec_deserialize(start.skip((A::spec_deserialize(start.skip((0nat) as int)).unwrap().1) as int)).unwrap().1) as int)).unwrap().1) as int)).unwrap().1 + E::spec_deserialize(start.skip((A::spec_deserialize(start.skip((0nat) as int)).unwrap().1 + B::spec_deserialize(start.skip((A::spec_deserialize(start.skip((0nat) as int)).unwrap().1) as int)).unwrap().1 + C::spec_deserialize(start.skip((A::spec_deserialize(start.skip((0nat) as int)).unwrap().1 + B::spec_deserialize(start.skip((A::spec_deserialize(start.skip((0nat) as int)).unwrap().1) as int)).unwrap().1) as int)).unwrap().1 + D::spec_deserialize(start.skip((A::spec_deserialize(start.skip((0nat) as int)).unwrap().1 + B::spec_deserialize(start.skip((A::spec_deserialize(start.skip((0nat) as int)).unwrap().1) as int)).unwrap().1 + C::spec_deserialize(start.skip((A::spec_deserialize(start.skip((0nat) as int)).unwrap().1 + B::spec_deserialize(start.skip((A::spec_deserialize(start.skip((0nat) as int)).unwrap().1) as int)).unwrap().1) as int)).unwrap().1) as int)).unwrap().1) as int)).unwrap().1) as int)).unwrap().1 + G::spec_deserialize(start.skip((A::spec_deserialize(start.skip((0nat) as int)).unwrap().1 + B::spec_deserialize(start.skip((A::spec_deserialize(start.skip((0nat) as int)).unwrap().1) as int)).unwrap().1 + C::spec_deserialize(start.skip((A::spec_deserialize(start.skip((0nat) as int)).unwrap().1 + B::spec_deserialize(start.skip((A::spec_deserialize(start.skip((0nat) as int)).unwrap().1) as int)).unwrap().1) as int)).unwrap().1 + D::spec_deserialize(start.skip((A::spec_deserialize(start.skip((0nat) as int)).unwrap().1 + B::spec_deserialize(start.skip((A::spec_deserialize(start.skip((0nat) as int)).unwrap().1) as int)).unwrap().1 + C::spec_deserialize(start.skip((A::spec_deserialize(start.skip((0nat) as int)).unwrap().1 + B::spec_deserialize(start.skip((A::spec_deserialize(start.skip((0nat) as int)).unwrap().1) as int)).unwrap().1) as int)).unwrap().1) as int)).unwrap().1 + E::spec_deserialize(start.skip((A::spec_deserialize(start.skip((0nat) as int)).unwrap().1 + B::spec_deserialize(start.skip((A::spec_deserialize(start.skip((0nat) as int)).unwrap().1) as int)).unwrap().1 + C::spec_deserialize(start.skip((A::spec_deserialize(start.skip((0nat) as int)).unwrap().1 + B::spec_deserialize(start.skip((A::spec_deserialize(start.skip((0nat) as int)).unwrap().1) as int)).unwrap().1) as int)).unwrap().1 + D::spec_deserialize(start.skip((A::spec_deserialize(start.skip((0nat) as int)).unwrap().1 + B::spec_deserialize(start.skip((A::spec_deserialize(start.skip((0nat) as int)).unwrap().1) as int)).unwrap().1 + C::spec_deserialize(start.skip((A::spec_deserialize(start.skip((0nat) as int)).unwrap().1 + B::spec_deserialize(start.skip((A::spec_deserialize(start.skip((0nat) as int)).unwrap().1) as int)).unwrap().1) as int)).unwrap().1) as int)).unwrap().1) as int)).unwrap().1 + F::spec_deserialize(start.skip((A::spec_deserialize(start.skip((0nat) as int)).unwrap().1 + B::spec_deserialize(start.skip((A::spec_deserialize(start.skip((0nat) as int)).unwrap().1) as int)).unwrap().1 + C::spec_deserialize(start.skip((A::spec_deserialize(start.skip((0nat) as int)).unwrap().1 + B::spec_deserialize(start.skip((A::spec_deserialize(start.skip((0nat) as int)).unwrap().1) as int)).unwrap().1) as int)).unwrap().1 + D::spec_deserialize(start.skip((A::spec_deserialize(start.skip((0nat) as int)).unwrap().1 + B::spec_deserialize(start.skip((A::spec_deserialize(start.skip((0nat) as int)).unwrap().1) as int)).unwrap().1 + C::spec_deserialize(start.skip((A::spec_deserialize(start.skip((0nat) as int)).unwrap().1 + B::spec_deserialize(start.skip((A::spec_deserialize(start.skip((0nat) as int)).unwrap().1) as int)).unwrap().1) as int)).unwrap().1) as int)).unwrap().1 + E::spec_deserialize(start.skip((A::spec_deserialize(start.skip((0nat) as int)).unwrap().1 + B::spec_deserialize(start.skip((A::spec_deserialize(start.skip((0nat) as int)).unwrap().1) as int)).unwrap().1 + C::spec_deserialize(start.skip((A::spec_deserialize(start.skip((0nat) as int)).unwrap().1 + B::spec_deserialize(start.skip((A::spec_deserialize(start.skip((0nat) as int)).unwrap().1) as int)).unwrap().1) as int)).unwrap().1 + D::spec_deserialize(start.skip((A::spec_deserialize(start.skip((0nat) as int)).unwrap().1 + B::spec_deserialize(start.skip((A::spec_deserialize(start.skip((0nat) as int)).unwrap().1) as int)).unwrap().1 + C::spec_deserialize(start.skip((A::spec_deserialize(start.skip((0nat) as int)).unwrap().1 + B::spec_deserialize(start.skip((A::spec_deserialize(start.skip((0nat) as int)).unwrap().1) as int)).unwrap().1) as int)).unwrap().1) as int)).unwrap().1) as int)).unwrap().1) as int)).unwrap().1) as int)).unwrap().1) as int)).unwrap().1 + I::spec_deserialize(start.skip((A::spec_deserialize(start.skip((0nat) as int)).unwrap().1 + B::spec_deserialize(start.skip((A::spec_deserialize(start.skip((0nat) as int)).unwrap().1) as int)).unwrap().1 + C::spec_deserialize(start.skip((A::spec_deserialize(start.skip((0nat) as int)).unwrap().1 + B::spec_deserialize(start.skip((A::spec_deserialize(start.skip((0nat) as int)).unwrap().1) as int)).unwrap().1) as int)).unwrap().1 + D::spec_deserialize(start.skip((A::spec_deserialize(start.skip((0nat) as int)).unwrap().1 + B::spec_deserialize(start.skip((A::spec_deserialize(start.skip((0nat) as int)).unwrap().1) as int)).unwrap().1 + C::spec_deserialize(start.skip((A::spec_deserialize(start.skip((0nat) as int)).unwrap().1 + B::spec_deserialize(start.skip((A::spec_deserialize(start.skip((0nat) as int)).unwrap().1) as int)).unwrap().1) as int)).unwrap().1) as int)).unwrap().1 + E::spec_deserialize(start.skip((A::spec_deserialize(start.skip((0nat) as int)).unwrap().1 + B::spec_deserialize(start.skip((A::spec_deserialize(start.skip((0nat) as int)).unwrap().1) as int)).unwrap().1 + C::spec_deserialize(start.skip((A::spec_deserialize(start.skip((0nat) as int)).unwrap().1 + B::spec_deserialize(start.skip((A::spec_deserialize(start.skip((0nat) as int)).unwrap().1) as int)).unwrap().1) as int)).unwrap().1 + D::spec_deserialize(start.skip((A::spec_deserialize(start.skip((0nat) as int)).unwrap().1 + B::spec_deserialize(start.skip((A::spec_deserialize(start.skip((0nat) as int)).unwrap().1) as int)).unwrap().1 + C::spec_deserialize(start.skip((A::spec_deserialize(start.skip((0nat) as int)).unwrap().1 + B::spec_deserialize(start.skip((A::spec_deserialize(start.skip((0nat) as int)).unwrap().1) as int)).unwrap().1) as int)).unwrap().1) as int)).unwrap().1) as int)).unwrap().1 + F::spec_deserialize(start.skip((A::spec_deserialize(start.skip((0nat) as int)).unwrap().1 + B::spec_deserialize(start.skip((A::spec_deserialize(start.skip((0nat) as int)).unwrap().1) as int)).unwrap().1 + C::spec_deserialize(start.skip((A::spec_deserialize(start.skip((0nat) as int)).unwrap().1 + B::spec_deserialize(start.skip((A::spec_deserialize(start.skip((0nat) as int)).unwrap().1) as int)).unwrap().1) as int)).unwrap().1 + D::spec_deserialize(start.skip((A::spec_deserialize(start.skip((0nat) as int)).unwrap().1 + B::spec_deserialize(start.skip((A::spec_deserialize(start.skip((0nat) as int)).unwrap().1) as int)).unwrap().1 + C::spec_deserialize(start.skip((A::spec_deserialize(start.skip((0nat) as int)).unwrap().1 + B::spec_deserialize(start.skip((A::spec_deserialize(start.skip((0nat) as int)).unwrap().1) as int)).unwrap().1) as int)).unwrap().1) as int)).unwrap().1 + E::spec_deserialize(start.skip((A::spec_deserialize(start.skip((0nat) as int)).unwrap().1 + B::spec_deserialize(start.skip((A::spec_deserialize(start.skip((0nat) as int)).unwrap().1) as int)).unwrap().1 + C::spec_deserialize(start.skip((A::spec_deserialize(start.skip((0nat) as int)).unwrap().1 + B::spec_deserialize(start.skip((A::spec_deserialize(start.skip((0nat) as int)).unwrap().1) as int)).unwrap().1) as int)).unwrap().1 + D::spec_deserialize(start.skip((A::spec_deserialize(start.skip((0nat) as int)).unwrap().1 + B::spec_deserialize(start.skip((A::spec_deserialize(start.skip((0nat) as int)).unwrap().1) as int)).unwrap().1 + C::spec_deserialize(start.skip((A::spec_deserialize(start.skip((0nat) as int)).unwrap().1 + B::spec_deserialize(start.skip((A::spec_deserialize(start.skip((0nat) as int)).unwrap().1) as int)).unwrap().1) as int)).unwrap().1) as int)).unwrap().1) as int)).unwrap().1) as int)).unwrap().1 + G::spec_deserialize(start.skip((A::spec_deserialize(start.skip((0nat) as int)).unwrap().1 + B::spec_deserialize(start.skip((A::spec_deserialize(start.skip((0nat) as int)).unwrap().1) as int)).unwrap().1 + C::spec_deserialize(start.skip((A::spec_deserialize(start.skip((0nat) as int)).unwrap().1 + B::spec_deserialize(start.skip((A::spec_deserialize(start.skip((0nat) as int)).unwrap().1) as int)).unwrap().1) as int)).unwrap().1 + D::spec_deserialize(start.skip((A::spec_deserialize(start.skip((0nat) as int)).unwrap().1 + B::spec_deserialize(start.skip((A::spec_deserialize(start.skip((0nat) as int)).unwrap().1) as int)).unwrap().1 + C::spec_deserialize(start.skip((A::spec_deserialize(start.skip((0nat) as int)).unwrap().1 + B::spec_deserialize(start.skip((A::spec_deserialize(start.skip((0nat) as int)).unwrap().1) as int)).unwrap().1) as int)).unwrap().1) as int)).unwrap().1 + E::spec_deserialize(start.skip((A::spec_deserialize(start.skip((0nat) as int)).unwrap().1 + B::spec_deserialize(start.skip((A::spec_deserialize(start.skip((0nat) as int)).unwrap().1) as int)).unwrap().1 + C::spec_deserialize(start.skip((A::spec_deserialize(start.skip((0nat) as int)).unwrap().1 + B::spec_deserialize(start.skip((A::spec_deserialize(start.skip((0nat) as int)).unwrap().1) as int)).unwrap().1) as int)).unwrap().1 + D::spec_deserialize(start.skip((A::spec_deserialize(start.skip((0nat) as int)).unwrap().1 + B::spec_deserialize(start.skip((A::spec_deserialize(start.skip((0nat) as int)).unwrap().1) as int)).unwrap().1 + C::spec_deserialize(start.skip((A::spec_deserialize(start.skip((0nat) as int)).unwrap().1 + B::spec_deserialize(start.skip((A::spec_deserialize(start.skip((0nat) as int)).unwrap().1) as int)).unwrap().1) as int)).unwrap().1) as int)).unwrap().1) as int)).unwrap().1 + F::spec_deserialize(start.skip((A::spec_deserialize(start.skip((0nat) as int)).unwrap().1 + B::spec_deserialize(start.skip((A::spec_deserialize(start.skip((0nat) as int)).unwrap().1) as int)).unwrap().1 + C::spec_deserialize(start.skip((A::spec_deserialize(start.skip((0nat) as int)).unwrap().1 + B::spec_deserialize(start.skip((A::spec_deserialize(start.skip((0nat) as int)).unwrap().1) as int)).unwrap().1) as int)).unwrap().1 + D::spec_deserialize(start.skip((A::spec_deserialize(start.skip((0nat) as int)).unwrap().1 + B::spec_deserialize(start.skip((A::spec_deserialize(start.skip((0nat) as int)).unwrap().1) as int)).unwrap().1 + C::spec_deserialize(start.skip((A::spec_deserialize(start.skip((0nat) as int)).unwrap().1 + B::spec_deserialize(start.skip((A::spec_deserialize(start.skip((0nat) as int)).unwrap().1) as int)).unwrap().1) as int)).unwrap().1) as int)).unwrap().1 + E::spec_deserialize(start.skip((A::spec_deserialize(start.skip((0nat) as int)).unwrap().1 + B::spec_deserialize(start.skip((A::spec_deserialize(start.skip((0nat) as int)).unwrap().1) as int)).unwrap().1 + C::spec_deserialize(start.skip((A::spec_deserialize(start.skip((0nat) as int)).unwrap().1 + B::spec_deserialize(start.skip((A::spec_deserialize(start.skip((0nat) as int)).unwrap().1) as int)).unwrap().1) as int)).unwrap().1 + D::spec_deserialize(start.skip((A::spec_deserialize(start.skip((0nat) as int)).unwrap().1 + B::spec_deserialize(start.skip((A::spec_deserialize(start.skip((0nat) as int)).unwrap().1) as int)).unwrap().1 + C::spec_deserialize(start.skip((A::spec_deserialize(start.skip((0nat) as int)).unwrap().1 + B::spec_deserialize(start.skip((A::spec_deserialize(start.skip((0nat) as int)).unwrap().1) as int)).unwrap().1) as int)).unwrap().1) as int)).unwrap().1) as int)).unwrap().1) as int)).unwrap().1) as int)).unwrap().1 + H::spec_deserialize(start.skip((A::spec_deserialize(start.skip((0nat) as int)).unwrap().1 + B::spec_deserialize(start.skip((A::spec_deserialize(start.skip((0nat) as int)).unwrap().1) as int)).unwrap().1 + C::spec_deserialize(start.skip((A::spec_deserialize(start.skip((0nat) as int)).unwrap().1 + B::spec_deserialize(start.skip((A::spec_deserialize(start.skip((0nat) as int)).unwrap().1) as int)).unwrap().1) as int)).unwrap().1 + D::spec_deserialize(start.skip((A::spec_deserialize(start.skip((0nat) as int)).unwrap().1 + B::spec_deserialize(start.skip((A::spec_deserialize(start.skip((0nat) as int)).unwrap().1) as int)).unwrap().1 + C::spec_deserialize(start.skip((A::spec_deserialize(start.skip((0nat) as int)).unwrap().1 + B::spec_deserialize(start.skip((A::spec_deserialize(start.skip((0nat) as int)).unwrap().1) as int)).unwrap().1) as int)).unwrap().1) as int)).unwrap().1 + E::spec_deserialize(start.skip((A::spec_deserialize(start.skip((0nat) as int)).unwrap().1 + B::spec_deserialize(start.skip((A::spec_deserialize(start.skip((0nat) as int)).unwrap().1) as int)).unwrap().1 + C::spec_deserialize(start.skip((A::spec_deserialize(start.skip((0nat) as int)).unwrap().1 + B::spec_deserialize(start.skip((A::spec_deserialize(start.skip((0nat) as int)).unwrap().1) as int)).unwrap().1) as int)).unwrap().1 + D::spec_deserialize(start.skip((A::spec_deserialize(start.skip((0nat) as int)).unwrap().1 + B::spec_deserialize(start.skip((A::spec_deserialize(start.skip((0nat) as int)).unwrap().1) as int)).unwrap().1 + C::spec_deserialize(start.skip((A::spec_deserialize(start.skip((0nat) as int)).unwrap().1 + B::spec_deserialize(start.skip((A::spec_deserialize(start.skip((0nat) as int)).unwrap().1) as int)).unwrap().1) as int)).unwrap().1) as int)).unwrap().1) as int)).unwrap().1 + F::spec_deserialize(start.skip((A::spec_deserialize(start.skip((0nat) as int)).unwrap().1 + B::spec_deserialize(start.skip((A::spec_deserialize(start.skip((0nat) as int)).unwrap().1) as int)).unwrap().1 + C::spec_deserialize(start.skip((A::spec_deserialize(start.skip((0nat) as int)).unwrap().1 + B::spec_deserialize(start.skip((A::spec_deserialize(start.skip((0nat) as int)).unwrap().1) as int)).unwrap().1) as int)).unwrap().1 + D::spec_deserialize(start.skip((A::spec_deserialize(start.skip((0nat) as int)).unwrap().1 + B::spec_deserialize(start.skip((A::spec_deserialize(start.skip((0nat) as int)).unwrap().1) as int)).unwrap().1 + C::spec_deserialize(start.skip((A::spec_deserialize(start.skip((0nat) as int)).unwrap().1 + B::spec_deserialize(start.skip((A::spec_deserialize(start.skip((0nat) as int)).unwrap().1) as int)).unwrap().1) as int)).unwrap().1) as int)).unwrap().1 + E::spec_deserialize(start.skip((A::spec_deserialize(start.skip((0nat) as int)).unwrap().1 + B::spec_deserialize(start.skip((A::spec_deserialize(start.skip((0nat) as int)).unwrap().1) as int)).unwrap().1 + C::spec_deserialize(start.skip((A::spec_deserialize(start.skip((0nat) as int)).unwrap().1 + B::spec_deserialize(start.skip((A::spec_deserialize(start.skip((0nat) as int)).unwrap().1) as int)).unwrap().1) as int)).unwrap().1 + D::spec_deserialize(start.skip((A::spec_deserialize(start.skip((0nat) as int)).unwrap().1 + B::spec_deserialize(start.skip((A::spec_deserialize(start.skip((0nat) as int)).unwrap().1) as int)).unwrap().1 + C::spec_deserialize(start.skip((A::spec_deserialize(start.skip((0nat) as int)).unwrap().1 + B::spec_deserialize(start.skip((A::spec_deserialize(start.skip((0nat) as int)).unwrap().1) as int)).unwrap().1) as int)).unwrap().1) as int)).unwrap().1) as int)).unwrap().1) as int)).unwrap().1 + G::spec_deserialize(start.skip((A::spec_deserialize(start.skip((0nat) as int)).unwrap().1 + B::spec_deserialize(start.skip((A::spec_deserialize(start.skip((0nat) as int)).unwrap().1) as int)).unwrap().1 + C::spec_deserialize(start.skip((A::spec_deserialize(start.skip((0nat) as int)).unwrap().1 + B::spec_deserialize(start.skip((A::spec_deserialize(start.skip((0nat) as int)).unwrap().1) as int)).unwrap().1) as int)).unwrap().1 + D::spec_deserialize(start.skip((A::spec_deserialize(start.skip((0nat) as int)).unwrap().1 + B::spec_deserialize(start.skip((A::spec_deserialize(start.skip((0nat) as int)).unwrap().1) as int)).unwrap().1 + C::spec_deserialize(start.skip((A::spec_deserialize(start.skip((0nat) as int)).unwrap().1 + B::spec_deserialize(start.skip((A::spec_deserialize(start.skip((0nat) as int)).unwrap().1) as int)).unwrap().1) as int)).unwrap().1) as int)).unwrap().1 + E::spec_deserialize(start.skip((A::spec_deserialize(start.skip((0nat) as int)).unwrap().1 + B::spec_deserialize(start.skip((A::spec_deserialize(start.skip((0nat) as int)).unwrap().1) as int)).unwrap().1 + C::spec_deserialize(start.skip((A::spec_deserialize(start.skip((0nat) as int)).unwrap().1 + B::spec_deserialize(start.skip((A::spec_deserialize(start.skip((0nat) as int)).unwrap().1) as int)).unwrap().1) as int)).unwrap().1 + D::spec_deserialize(start.skip((A::spec_deserialize(start.skip((0nat) as int)).unwrap().1 + B::spec_deserialize(start.skip((A::spec_deserialize(start.skip((0nat) as int)).unwrap().1) as int)).unwrap().1 + C::spec_deserialize(start.skip((A::spec_deserialize(start.skip((0nat) as int)).unwrap().1 + B::spec_deserialize(start.skip((A::spec_deserialize(start.skip((0nat) as int)).unwrap().1) as int)).unwrap().1) as int)).unwrap().1) as int)).unwrap().1) as int)).unwrap().1 + F::spec_deserialize(start.skip((A::spec_deserialize(start.skip((0nat) as int)).unwrap().1 + B::spec_deserialize(start.skip((A::spec_deserialize(start.skip((0nat) as int)).unwrap().1) as int)).unwrap().1 + C::spec_deserialize(start.skip((A::spec_deserialize(start.skip((0nat) as int)).unwrap().1 + B::spec_deserialize(start.skip((A::spec_deserialize(start.skip((0nat) as int)).unwrap().1) as int)).unwrap().1) as int)).unwrap().1 + D::spec_deserialize(start.skip((A::spec_deserialize(start.skip((0nat) as int)).unwrap().1 + B::spec_deserialize(start.skip((A::spec_deserialize(start.skip((0nat) as int)).unwrap().1) as int)).unwrap().1 + C::spec_deserialize(start.skip((A::spec_deserialize(start.skip((0nat) as int)).unwrap().1 + B::spec_deserialize(start.skip((A::spec_deserialize(start.skip((0nat) as int)).unwrap().1) as int)).unwrap().1) as int)).unwrap().1) as int)).unwrap().1 + E::spec_deserialize(start.skip((A::spec_deserialize(start.skip((0nat) as int)).unwrap().1 + B::spec_deserialize(start.skip((A::spec_deserialize(start.skip((0nat) as int)).unwrap().1) as int)).unwrap().1 + C::spec_deserialize(start.skip((A::spec_deserialize(start.skip((0nat) as int)).unwrap().1 + B::spec_deserialize(start.skip((A::spec_deserialize(start.skip((0nat) as int)).unwrap().1) as int)).unwrap().1) as int)).unwrap().1 + D::spec_deserialize(start.skip((A::spec_deserialize(start.skip((0nat) as int)).unwrap().1 + B::spec_deserialize(start.skip((A::spec_deserialize(start.skip((0nat) as int)).unwrap().1) as int)).unwrap().1 + C::spec_deserialize(start.skip((A::spec_deserialize(start.skip((0nat) as int)).unwrap().1 + B::spec_deserialize(start.skip((A::spec_deserialize(start.skip((0nat) as int)).unwrap().1) as int)).unwrap().1) as int)).unwrap().1) as int)).unwrap().1) as int)).unwrap().1) as int)).unwrap().1) as int)).unwrap().1) as int)).unwrap().1) as int)).unwrap().1 + J::spec_deserialize(start.skip((A::spec_deserialize(start.skip((0nat) as int)).unwrap().1 + B::spec_deserialize(start.skip((A::spec_deserialize(start.skip((0nat) as int)).unwrap().1) as int)).unwrap().1 + C::spec_deserialize(start.skip((A::spec_deserialize(start.skip((0nat) as int)).unwrap().1 + B::spec_deserialize(start.skip((A::spec_deserialize(start.skip((0nat) as int)).unwrap().1) as int)).unwrap().1) as int)).unwrap().1 + D::spec_deserialize(start.skip((A::spec_deserialize(start.skip((0nat) as int)).unwrap().1 + B::spec_deserialize(start.skip((A::spec_deserialize(start.skip((0nat) as int)).unwrap().1) as int)).unwrap().1 + C::spec_deserialize(start.skip((A::spec_deserialize(start.skip((0nat) as int)).unwrap().1 + B::spec_deserialize(start.skip((A::spec_deserialize(start.skip((0nat) as int)).unwrap().1) as int)).unwrap().1) as int)).unwrap().1) as int)).unwrap().1 + E::spec_deserialize(start.skip((A::spec_deserialize(start.skip((0nat) as int)).unwrap().1 + B::spec_deserialize(start.skip((A::spec_deserialize(start.skip((0nat) as int)).unwrap().1) as int)).unwrap().1 + C::spec_deserialize(start.skip((A::spec_deserialize(start.skip((0nat) as int)).unwrap().1 + B::spec_deserialize(start.skip((A::spec_deserialize(start.skip((0nat) as int)).unwrap().1) as int)).unwrap().1) as int)).unwrap().1 + D::spec_deserialize(start.skip((A::spec_deserialize(start.skip((0nat) as int)).unwrap().1 + B::spec_deserialize(start.skip((A::spec_deserialize(start.skip((0nat) as int)).unwrap().1) as int)).unwrap().1 + C::spec_deserialize(start.skip((A::spec_deserialize(start.skip((0nat) as int)).unwrap().1 + B::spec_deserialize(start.skip((A::spec_deserialize(start.skip((0nat) as int)).unwrap().1) as int)).unwrap().1) as int)).unwrap().1) as int)).unwrap().1) as int)).unwrap().1 + F::spec_deserialize(start.skip((A::spec_deserialize(start.skip((0nat) as int)).unwrap().1 + B::spec_deserialize(start.skip((A::spec_deserialize(start.skip((0nat) as int)).unwrap().1) as int)).unwrap().1 + C::spec_deserialize(start.skip((A::spec_deserialize(start.skip((0nat) as int)).unwrap().1 + B::spec_deserialize(start.skip((A::spec_deserialize(start.skip((0nat) as int)).unwrap().1) as int)).unwrap().1) as int)).unwrap().1 + D::spec_deserialize(start.skip((A::spec_deserialize(start.skip((0nat) as int)).unwrap().1 + B::spec_deserialize(start.skip((A::spec_deserialize(start.skip((0nat) as int)).unwrap().1) as int)).unwrap().1 + C::spec_deserialize(start.skip((A::spec_deserialize(start.skip((0nat) as int)).unwrap().1 + B::spec_deserialize(start.skip((A::spec_deserialize(start.skip((0nat) as int)).unwrap().1) as int)).unwrap().1) as int)).unwrap().1) as int)).unwrap().1 + E::spec_deserialize(start.skip((A::spec_deserialize(start.skip((0nat) as int)).unwrap().1 + B::spec_deserialize(start.skip((A::spec_deserialize(start.skip((0nat) as int)).unwrap().1) as int)).unwrap().1 + C::spec_deserialize(start.skip((A::spec_deserialize(start.skip((0nat) as int)).unwrap().1 + B::spec_deserialize(start.skip((A::spec_deserialize(start.skip((0nat) as int)).unwrap().1) as int)).unwrap().1) as int)).unwrap().1 + D::spec_deserialize(start.skip((A::spec_deserialize(start.skip((0nat) as int)).unwrap().1 + B::spec_deserialize(start.skip((A::spec_deserialize(start.skip((0nat) as int)).unwrap().1) as int)).unwrap().1 + C::spec_deserialize(start.skip((A::spec_deserialize(start.skip((0nat) as int)).unwrap().1 + B::spec_deserialize(start.skip((A::spec_deserialize(start.skip((0nat) as int)).unwrap().1) as int)).unwrap().1) as int)).unwrap().1) as int)).unwrap().1) as int)).unwrap().1) as int)).unwrap().1 + G::spec_deserialize(start.skip((A::spec_deserialize(start.skip((0nat) as int)).unwrap().1 + B::spec_deserialize(start.skip((A::spec_deserialize(start.skip((0nat) as int)).unwrap().1) as int)).unwrap().1 + C::spec_deserialize(start.skip((A::spec_deserialize(start.skip((0nat) as int)).unwrap().1 + B::spec_deserialize(start.skip((A::spec_deserialize(start.skip((0nat) as int)).unwrap().1) as int)).unwrap().1) as int)).unwrap().1 + D::spec_deserialize(start.skip((A::spec_deserialize(start.skip((0nat) as int)).unwrap().1 + B::spec_deserialize(start.skip((A::spec_deserialize(start.skip((0nat) as int)).unwrap().1) as int)).unwrap().1 + C::spec_deserialize(start.skip((A::spec_deserialize(start.skip((0nat) as int)).unwrap().1 + B::spec_deserialize(start.skip((A::spec_deserialize(start.skip((0nat) as int)).unwrap().1) as int)).unwrap().1) as int)).unwrap().1) as int)).unwrap().1 + E::spec_deserialize(start.skip((A::spec_deserialize(start.skip((0nat) as int)).unwrap().1 + B::spec_deserialize(start.skip((A::spec_deserialize(start.skip((0nat) as int)).unwrap().1) as int)).unwrap().1 + C::spec_deserialize(start.skip((A::spec_deserialize(start.skip((0nat) as int)).unwrap().1 + B::spec_deserialize(start.skip((A::spec_deserialize(start.skip((0nat) as int)).unwrap().1) as int)).unwrap().1) as int)).unwrap().1 + D::spec_deserialize(start.skip((A::spec_deserialize(start.skip((0nat) as int)).unwrap().1 + B::spec_deserialize(start.skip((A::spec_deserialize(start.skip((0nat) as int)).unwrap().1) as int)).unwrap().1 + C::spec_deserialize(start.skip((A::spec_deserialize(start.skip((0nat) as int)).unwrap().1 + B::spec_deserialize(start.skip((A::spec_deserialize(start.skip((0nat) as int)).unwrap().1) as int)).unwrap().1) as int)).unwrap().1) as int)).unwrap().1) as int)).unwrap().1 + F::spec_deserialize(start.skip((A::spec_deserialize(start.skip((0nat) as int)).unwrap().1 + B::spec_deserialize(start.skip((A::spec_deserialize(start.skip((0nat) as int)).unwrap().1) as int)).unwrap().1 + C::spec_deserialize(start.skip((A::spec_deserialize(start.skip((0nat) as int)).unwrap().1 + B::spec_deserialize(start.skip((A::spec_deserialize(start.skip((0nat) as int)).unwrap().1) as int)).unwrap().1) as int)).unwrap().1 + D::spec_deserialize(start.skip((A::spec_deserialize(start.skip((0nat) as int)).unwrap().1 + B::spec_deserialize(start.skip((A::spec_deserialize(start.skip((0nat) as int)).unwrap().1) as int)).unwrap().1 + C::spec_deserialize(start.skip((A::spec_deserialize(start.skip((0nat) as int)).unwrap().1 + B::spec_deserialize(start.skip((A::spec_deserialize(start.skip((0nat) as int)).unwrap().1) as int)).unwrap().1) as int)).unwrap().1) as int)).unwrap().1 + E::spec_deserialize(start.skip((A::spec_deserialize(start.skip((0nat) as int)).unwrap().1 + B::spec_deserialize(start.skip((A::spec_deserialize(start.skip((0nat) as int)).unwrap().1) as int)).unwrap().1 + C::spec_deserialize(start.skip((A::spec_deserialize(start.skip((0nat) as int)).unwrap().1 + B::spec_deserialize(start.skip((A::spec_deserialize(start.skip((0nat) as int)).unwrap().1) as int)).unwrap().1) as int)).unwrap().1 + D::spec_deserialize(start.skip((A::spec_deserialize(start.skip((0nat) as int)).unwrap().1 + B::spec_deserialize(start.skip((A::spec_deserialize(start.skip((0nat) as int)).unwrap().1) as int)).unwrap().1 + C::spec_deserialize(start.skip((A::spec_deserialize(start.skip((0nat) as int)).unwrap().1 + B::spec_deserialize(start.skip((A::spec_deserialize(start.skip((0nat) as int)).unwrap().1) as int)).unwrap().1) as int)).unwrap().1) as int)).unwrap().1) as int)).unwrap().1) as int)).unwrap().1) as int)).unwrap().1 + H::spec_deserialize(start.skip((A::spec_deserialize(start.skip((0nat) as int)).unwrap().1 + B::spec_deserialize(start.skip((A::spec_deserialize(start.skip((0nat) as int)).unwrap().1) as int)).unwrap().1 + C::spec_deserialize(start.skip((A::spec_deserialize(start.skip((0nat) as int)).unwrap().1 + B::spec_deserialize(start.skip((A::spec_deserialize(start.skip((0nat) as int)).unwrap().1) as int)).unwrap().1) as int)).unwrap().1 + D::spec_deserialize(start.skip((A::spec_deserialize(start.skip((0nat) as int)).unwrap().1 + B::spec_deserialize(start.skip((A::spec_deserialize(start.skip((0nat) as int)).unwrap().1) as int)).unwrap().1 + C::spec_deserialize(start.skip((A::spec_deserialize(start.skip((0nat) as int)).unwrap().1 + B::spec_deserialize(start.skip((A::spec_deserialize(start.skip((0nat) as int)).unwrap().1) as int)).unwrap().1) as int)).unwrap().1) as int)).unwrap().1 + E::spec_deserialize(start.skip((A::spec_deserialize(start.skip((0nat) as int)).unwrap().1 + B::spec_deserialize(start.skip((A::spec_deserialize(start.skip((0nat) as int)).unwrap().1) as int)).unwrap().1 + C::spec_deserialize(start.skip((A::spec_deserialize(start.skip((0nat) as int)).unwrap().1 + B::spec_deserialize(start.skip((A::spec_deserialize(start.skip((0nat) as int)).unwrap().1) as int)).unwrap().1) as int)).unwrap().1 + D::spec_deserialize(start.skip((A::spec_deserialize(start.skip((0nat) as int)).unwrap().1 + B::spec_deserialize(start.skip((A::spec_deserialize(start.skip((0nat) as int)).unwrap().1) as int)).unwrap().1 + C::spec_deserialize(start.skip((A::spec_deserialize(start.skip((0nat) as int)).unwrap().1 + B::spec_deserialize(start.skip((A::spec_deserialize(start.skip((0nat) as int)).unwrap().1) as int)).unwrap().1) as int)).unwrap().1) as int)).unwrap().1) as int)).unwrap().1 + F::spec_deserialize(start.skip((A::spec_deserialize(start.skip((0nat) as int)).unwrap().1 + B::spec_deserialize(start.skip((A::spec_deserialize(start.skip((0nat) as int)).unwrap().1) as int)).unwrap().1 + C::spec_deserialize(start.skip((A::spec_deserialize(start.skip((0nat) as int)).unwrap().1 + B::spec_deserialize(start.skip((A::spec_deserialize(start.skip((0nat) as int)).unwrap().1) as int)).unwrap().1) as int)).unwrap().1 + D::spec_deserialize(start.skip((A::spec_deserialize(start.skip((0nat) as int)).unwrap().1 + B::spec_deserialize(start.skip((A::spec_deserialize(start.skip((0nat) as int)).unwrap().1) as int)).unwrap().1 + C::spec_deserialize(start.skip((A::spec_deserialize(start.skip((0nat) as int)).unwrap().1 + B::spec_deserialize(start.skip((A::spec_deserialize(start.skip((0nat) as int)).unwrap().1) as int)).unwrap().1) as int)).unwrap().1) as int)).unwrap().1 + E::spec_deserialize(start.skip((A::spec_deserialize(start.skip((0nat) as int)).unwrap().1 + B::spec_deserialize(start.skip((A::spec_deserialize(start.skip((0nat) as int)).unwrap().1) as int)).unwrap().1 + C::spec_deserialize(start.skip((A::spec_deserialize(start.skip((0nat) as int)).unwrap().1 + B::spec_deserialize(start.skip((A::spec_deserialize(start.skip((0nat) as int)).unwrap().1) as int)).unwrap().1) as int)).unwrap().1 + D::spec_deserialize(start.skip((A::spec_deserialize(start.skip((0nat) as int)).unwrap().1 + B::spec_deserialize(start.skip((A::spec_deserialize(start.skip((0nat) as int)).unwrap().1) as int)).unwrap().1 + C::spec_deserialize(start.skip((A::spec_deserialize(start.skip((0nat) as int)).unwrap().1 + B::spec_deserialize(start.skip((A::spec_deserialize(start.skip((0nat) as int)).unwrap().1) as int)).unwrap().1) as int)).unwrap().1) as int)).unwrap().1) as int)).unwrap().1) as int)).unwrap().1 + G::spec_deserialize(start.skip((A::spec_deserialize(start.skip((0nat) as int)).unwrap().1 + B::spec_deserialize(start.skip((A::spec_deserialize(start.skip((0nat) as int)).unwrap().1) as int)).unwrap().1 + C::spec_deserialize(start.skip((A::spec_deserialize(start.skip((0nat) as int)).unwrap().1 + B::spec_deserialize(start.skip((A::spec_deserialize(start.skip((0nat) as int)).unwrap().1) as int)).unwrap().1) as int)).unwrap().1 + D::spec_deserialize(start.skip((A::spec_deserialize(start.skip((0nat) as int)).unwrap().1 + B::spec_deserialize(start.skip((A::spec_deserialize(start.skip((0nat) as int)).unwrap().1) as int)).unwrap().1 + C::spec_deserialize(start.skip((A::spec_deserialize(start.skip((0nat) as int)).unwrap().1 + B::spec_deserialize(start.skip((A::spec_deserialize(start.skip((0nat) as int)).unwrap().1) as int)).unwrap().1) as int)).unwrap().1) as int)).unwrap().1 + E::spec_deserialize(start.skip((A::spec_deserialize(start.skip((0nat) as int)).unwrap().1 + B::spec_deserialize(start.skip((A::spec_deserialize(start.skip((0nat) as int)).unwrap().1) as int)).unwrap().1 + C::spec_deserialize(start.skip((A::spec_deserialize(start.skip((0nat) as int)).unwrap().1 + B::spec_deserialize(start.skip((A::spec_deserialize(start.skip((0nat) as int)).unwrap().1) as int)).unwrap().1) as int)).unwrap().1 + D::spec_deserialize(start.skip((A::spec_deserialize(start.skip((0nat) as int)).unwrap().1 + B::spec_deserialize(start.skip((A::spec_deserialize(start.skip((0nat) as int)).unwrap().1) as int)).unwrap().1 + C::spec_deserialize(start.skip((A::spec_deserialize(start.skip((0nat) as int)).unwrap().1 + B::spec_deserialize(start.skip((A::spec_deserialize(start.skip((0nat) as int)).unwrap().1) as int)).unwrap().1) as int)).unwrap().1) as int)).unwrap().1) as int)).unwrap().1 + F::spec_deserialize(start.skip((A::spec_deserialize(start.skip((0nat) as int)).unwrap().1 + B::spec_deserialize(start.skip((A::spec_deserialize(start.skip((0nat) as int)).unwrap().1) as int)).unwrap().1 + C::spec_deserialize(start.skip((A::spec_deserialize(start.skip((0nat) as int)).unwrap().1 + B::spec_deserialize(start.skip((A::spec_deserialize(start.skip((0nat) as int)).unwrap().1) as int)).unwrap().1) as int)).unwrap().1 + D::spec_deserialize(start.skip((A::spec_deserialize(start.skip((0nat) as int)).unwrap().1 + B::spec_deserialize(start.skip((A::spec_deserialize(start.skip((0nat) as int)).unwrap().1) as int)).unwrap().1 + C::spec_deserialize(start.skip((A::spec_deserialize(start.skip((0nat) as int)).unwrap().1 + B::spec_deserialize(start.skip((A::spec_deserialize(start.skip((0nat) as int)).unwrap().1) as int)).unwrap().1) as int)).unwrap().1) as int)).unwrap().1 + E::spec_deserialize(start.skip((A::spec_deserialize(start.skip((0nat) as int)).unwrap().1 + B::spec_deserialize(start.skip((A::spec_deserialize(start.skip((0nat) as int)).unwrap().1) as int)).unwrap().1 + C::spec_deserialize(start.skip((A::spec_deserialize(start.skip((0nat) as int)).unwrap().1 + B::spec_deserialize(start.skip((A::spec_deserialize(start.skip((0nat) as int)).unwrap().1) as int)).unwrap().1) as int)).unwrap().1 + D::spec_deserialize(start.skip((A::spec_deserialize(start.skip((0nat) as int)).unwrap().1 + B::spec_deserialize(start.skip((A::spec_deserialize(start.skip((0nat) as int)).unwrap().1) as int)).unwrap().1 + C::spec_deserialize(start.skip((A::spec_deserialize(start.skip((0nat) as int)).unwrap().1 + B::spec_deserialize(start.skip((A::spec_deserialize(start.skip((0nat) as int)).unwrap().1) as int)).unwrap().1) as int)).unwrap().1) as int)).unwrap().1) as int)).unwrap().1) as int)).unwrap().1) as int)).unwrap().1) as int)).unwrap().1 + I::spec_deserialize(start.skip((A::spec_deserialize(start.skip((0nat) as int)).unwrap().1 + B::spec_deserialize(start.skip((A::spec_deserialize(start.skip((0nat) as int)).unwrap().1) as int)).unwrap().1 + C::spec_deserialize(start.skip((A::spec_deserialize(start.skip((0nat) as int)).unwrap().1 + B::spec_deserialize(start.skip((A::spec_deserialize(start.skip((0nat) as int)).unwrap().1) as int)).unwrap().1) as int)).unwrap().1 + D::spec_deserialize(start.skip((A::spec_deserialize(start.skip((0nat) as int)).unwrap().1 + B::spec_deserialize(start.skip((A::spec_deserialize(start.skip((0nat) as int)).unwrap().1) as int)).unwrap().1 + C::spec_deserialize(start.skip((A::spec_deserialize(start.skip((0nat) as int)).unwrap().1 + B::spec_deserialize(start.skip((A::spec_deserialize(start.skip((0nat) as int)).unwrap().1) as int)).unwrap().1) as int)).unwrap().1) as int)).unwrap().1 + E::spec_deserialize(start.skip((A::spec_deserialize(start.skip((0nat) as int)).unwrap().1 + B::spec_deserialize(start.skip((A::spec_deserialize(start.skip((0nat) as int)).unwrap().1) as int)).unwrap().1 + C::spec_deserialize(start.skip((A::spec_deserialize(start.skip((0nat) as int)).unwrap().1 + B::spec_deserialize(start.skip((A::spec_deserialize(start.skip((0nat) as int)).unwrap().1) as int)).unwrap().1) as int)).unwrap().1 + D::spec_deserialize(start.skip((A::spec_deserialize(start.skip((0nat) as int)).unwrap().1 + B::spec_deserialize(start.skip((A::spec_deserialize(start.skip((0nat) as int)).unwrap().1) as int)).unwrap().1 + C::spec_deserialize(start.skip((A::spec_deserialize(start.skip((0nat) as int)).unwrap().1 + B::spec_deserialize(start.skip((A::spec_deserialize(start.skip((0nat) as int)).unwrap().1) as int)).unwrap().1) as int)).unwrap().1) as int)).unwrap().1) as int)).unwrap().1 + F::spec_deserialize(start.skip((A::spec_deserialize(start.skip((0nat) as int)).unwrap().1 + B::spec_deserialize(start.skip((A::spec_deserialize(start.skip((0nat) as int)).unwrap().1) as int)).unwrap().1 + C::spec_deserialize(start.skip((A::spec_deserialize(start.skip((0nat) as int)).unwrap().1 + B::spec_deserialize(start.skip((A::spec_deserialize(start.skip((0nat) as int)).unwrap().1) as int)).unwrap().1) as int)).unwrap().1 + D::spec_deserialize(start.skip((A::spec_deserialize(start.skip((0nat) as int)).unwrap().1 + B::spec_deserialize(start.skip((A::spec_deserialize(start.skip((0nat) as int)).unwrap().1) as int)).unwrap().1 + C::spec_deserialize(start.skip((A::spec_deserialize(start.skip((0nat) as int)).unwrap().1 + B::spec_deserialize(start.skip((A::spec_deserialize(start.skip((0nat) as int)).unwrap().1) as int)).unwrap().1) as int)).unwrap().1) as int)).unwrap().1 + E::spec_deserialize(start.skip((A::spec_deserialize(start.skip((0nat) as int)).unwrap().1 + B::spec_deserialize(start.skip((A::spec_deserialize(start.skip((0nat) as int)).unwrap().1) as int)).unwrap().1 + C::spec_deserialize(start.skip((A::spec_deserialize(start.skip((0nat) as int)).unwrap().1 + B::spec_deserialize(start.skip((A::spec_deserialize(start.skip((0nat) as int)).unwrap().1) as int)).unwrap().1) as int)).unwrap().1 + D::spec_deserialize(start.skip((A::spec_deserialize(start.skip((0nat) as int)).unwrap().1 + B::spec_deserialize(start.skip((A::spec_deserialize(start.skip((0nat) as int)).unwrap().1) as int)).unwrap().1 + C::spec_deserialize(start.skip((A::spec_deserialize(start.skip((0nat) as int)).unwrap().1 + B::spec_deserialize(start.skip((A::spec_deserialize(start.skip((0nat) as int)).unwrap().1) as int)).unwrap().1) as int)).unwrap().1) as int)).unwrap().1) as int)).unwrap().1) as int)).unwrap().1 + G::spec_deserialize(start.skip((A::spec_deserialize(start.skip((0nat) as int)).unwrap().1 + B::spec_deserialize(start.skip((A::spec_deserialize(start.skip((0nat) as int)).unwrap().1) as int)).unwrap().1 + C::spec_deserialize(start.skip((A::spec_deserialize(start.skip((0nat) as int)).unwrap().1 + B::spec_deserialize(start.skip((A::spec_deserialize(start.skip((0nat) as int)).unwrap().1) as int)).unwrap().1) as int)).unwrap().1 + D::spec_deserialize(start.skip((A::spec_deserialize(start.skip((0nat) as int)).unwrap().1 + B::spec_deserialize(start.skip((A::spec_deserialize(start.skip((0nat) as int)).unwrap().1) as int)).unwrap().1 + C::spec_deserialize(start.skip((A::spec_deserialize(start.skip((0nat) as int)).unwrap().1 + B::spec_deserialize(start.skip((A::spec_deserialize(start.skip((0nat) as int)).unwrap().1) as int)).unwrap().1) as int)).unwrap().1) as int)).unwrap().1 + E::spec_deserialize(start.skip((A::spec_deserialize(start.skip((0nat) as int)).unwrap().1 + B::spec_deserialize(start.skip((A::spec_deserialize(start.skip((0nat) as int)).unwrap().1) as int)).unwrap().1 + C::spec_deserialize(start.skip((A::spec_deserialize(start.skip((0nat) as int)).unwrap().1 + B::spec_deserialize(start.skip((A::spec_deserialize(start.skip((0nat) as int)).unwrap().1) as int)).unwrap().1) as int)).unwrap().1 + D::spec_deserialize(start.skip((A::spec_deserialize(start.skip((0nat) as int)).unwrap().1 + B::spec_deserialize(start.skip((A::spec_deserialize(start.skip((0nat) as int)).unwrap().1) as int)).unwrap().1 + C::spec_deserialize(start.skip((A::spec_deserialize(start.skip((0nat) as int)).unwrap().1 + B::spec_deserialize(start.skip((A::spec_deserialize(start.skip((0nat) as int)).unwrap().1) as int)).unwrap().1) as int)).unwrap().1) as int)).unwrap().1) as int)).unwrap().1 + F::spec_deserialize(start.skip((A::spec_deserialize(start.skip((0nat) as int)).unwrap().1 + B::spec_deserialize(start.skip((A::spec_deserialize(start.skip((0nat) as int)).unwrap().1) as int)).unwrap().1 + C::spec_deserialize(start.skip((A::spec_deserialize(start.skip((0nat) as int)).unwrap().1 + B::spec_deserialize(start.skip((A::spec_deserialize(start.skip((0nat) as int)).unwrap().1) as int)).unwrap().1) as int)).unwrap().1 + D::spec_deserialize(start.skip((A::spec_deserialize(start.skip((0nat) as int)).unwrap().1 + B::spec_deserialize(start.skip((A::spec_deserialize(start.skip((0nat) as int)).unwrap().1) as int)).unwrap().1 + C::spec_deserialize(start.skip((A::spec_deserialize(start.skip((0nat) as int)).unwrap().1 + B::spec_deserialize(start.skip((A::spec_deserialize(start.skip((0nat) as int)).unwrap().1) as int)).unwrap().1) as int)).unwrap().1) as int)).unwrap().1 + E::spec_deserialize(start.skip((A::spec_deserialize(start.skip((0nat) as int)).unwrap().1 + B::spec_deserialize(start.skip((A::spec_deserialize(start.skip((0nat) as int)).unwrap().1) as int)).unwrap().1 + C::spec_deserialize(start.skip((A::spec_deserialize(start.skip((0nat) as int)).unwrap().1 + B::spec_deserialize(start.skip((A::spec_deserialize(start.skip((0nat) as int)).unwrap().1) as int)).unwrap().1) as int)).unwrap().1 + D::spec_deserialize(start.skip((A::spec_deserialize(start.skip((0nat) as int)).unwrap().1 + B::spec_deserialize(start.skip((A::spec_deserialize(start.skip((0nat) as int)).unwrap().1) as int)).unwrap().1 + C::spec_deserialize(start.skip((A::spec_deserialize(start.skip((0nat) as int)).unwrap().1 + B::spec_deserialize(start.skip((A::spec_deserialize(start.skip((0nat) as int)).unwrap().1) as int)).unwrap().1) as int)).unwrap().1) as int)).unwrap().1) as int)).unwrap().1) as int)).unwrap().1) as int)).unwrap().1 + H::spec_deserialize(start.skip((A::spec_deserialize(start.skip((0nat) as int)).unwrap().1 + B::spec_deserialize(start.skip((A::spec_deserialize(start.skip((0nat) as int)).unwrap().1) as int)).unwrap().1 + C::spec_deserialize(start.skip((A::spec_deserialize(start.skip((0nat) as int)).unwrap().1 + B::spec_deserialize(start.skip((A::spec_deserialize(start.skip((0nat) as int)).unwrap().1) as int)).unwrap().1) as int)).unwrap().1 + D::spec_deserialize(start.skip((A::spec_deserialize(start.skip((0nat) as int)).unwrap().1 + B::spec_deserialize(start.skip((A::spec_deserialize(start.skip((0nat) as int)).unwrap().1) as int)).unwrap().1 + C::spec_deserialize(start.skip((A::spec_deserialize(start.skip((0nat) as int)).unwrap().1 + B::spec_deserialize(start.skip((A::spec_deserialize(start.skip((0nat) as int)).unwrap().1) as int)).unwrap().1) as int)).unwrap().1) as int)).unwrap().1 + E::spec_deserialize(start.skip((A::spec_deserialize(start.skip((0nat) as int)).unwrap().1 + B::spec_deserialize(start.skip((A::spec_deserialize(start.skip((0nat) as int)).unwrap().1) as int)).unwrap().1 + C::spec_deserialize(start.skip((A::spec_deserialize(start.skip((0nat) as int)).unwrap().1 + B::spec_deserialize(start.skip((A::spec_deserialize(start.skip((0nat) as int)).unwrap().1) as int)).unwrap().1) as int)).unwrap().1 + D::spec_deserialize(start.skip((A::spec_deserialize(start.skip((0nat) as int)).unwrap().1 + B::spec_deserialize(start.skip((A::spec_deserialize(start.skip((0nat) as int)).unwrap().1) as int)).unwrap().1 + C::spec_deserialize(start.skip((A::spec_deserialize(start.skip((0nat) as int)).unwrap().1 + B::spec_deserialize(start.skip((A::spec_deserialize(start.skip((0nat) as int)).unwrap().1) as int)).unwrap().1) as int)).unwrap().1) as int)).unwrap().1) as int)).unwrap().1 + F::spec_deserialize(start.skip((A::spec_deserialize(start.skip((0nat) as int)).unwrap().1 + B::spec_deserialize(start.skip((A::spec_deserialize(start.skip((0nat) as int)).unwrap().1) as int)).unwrap().1 + C::spec_deserialize(start.skip((A::spec_deserialize(start.skip((0nat) as int)).unwrap().1 + B::spec_deserialize(start.skip((A::spec_deserialize(start.skip((0nat) as int)).unwrap().1) as int)).unwrap().1) as int)).unwrap().1 + D::spec_deserialize(start.skip((A::spec_deserialize(start.skip((0nat) as int)).unwrap().1 + B::spec_deserialize(start.skip((A::spec_deserialize(start.skip((0nat) as int)).unwrap().1) as int)).unwrap().1 + C::spec_deserialize(start.skip((A::spec_deserialize(start.skip((0nat) as int)).unwrap().1 + B::spec_deserialize(start.skip((A::spec_deserialize(start.skip((0nat) as int)).unwrap().1) as int)).unwrap().1) as int)).unwrap().1) as int)).unwrap().1 + E::spec_deserialize(start.skip((A::spec_deserialize(start.skip((0nat) as int)).unwrap().1 + B::spec_deserialize(start.skip((A::spec_deserialize(start.skip((0nat) as int)).unwrap().1) as int)).unwrap().1 + C::spec_deserialize(start.skip((A::spec_deserialize(start.skip((0nat) as int)).unwrap().1 + B::spec_deserialize(start.skip((A::spec_deserialize(start.skip((0nat) as int)).unwrap().1) as int)).unwrap().1) as int)).unwrap().1 + D::spec_deserialize(start.skip((A::spec_deserialize(start.skip((0nat) as int)).unwrap().1 + B::spec_deserialize(start.skip((A::spec_deserialize(start.skip((0nat) as int)).unwrap().1) as int)).unwrap().1 + C::spec_deserialize(start.skip((A::spec_deserialize(start.skip((0nat) as int)).unwrap().1 + B::spec_deserialize(start.skip((A::spec_deserialize(start.skip((0nat) as int)).unwrap().1) as int)).unwrap().1) as int)).unwrap().1) as int)).unwrap().1) as int)).unwrap().1) as int)).unwrap().1 + G::spec_deserialize(start.skip((A::spec_deserialize(start.skip((0nat) as int)).unwrap().1 + B::spec_deserialize(start.skip((A::spec_deserialize(start.skip((0nat) as int)).unwrap().1) as int)).unwrap().1 + C::spec_deserialize(start.skip((A::spec_deserialize(start.skip((0nat) as int)).unwrap().1 + B::spec_deserialize(start.skip((A::spec_deserialize(start.skip((0nat) as int)).unwrap().1) as int)).unwrap().1) as int)).unwrap().1 + D::spec_deserialize(start.skip((A::spec_deserialize(start.skip((0nat) as int)).unwrap().1 + B::spec_deserialize(start.skip((A::spec_deserialize(start.skip((0nat) as int)).unwrap().1) as int)).unwrap().1 + C::spec_deserialize(start.skip((A::spec_deserialize(start.skip((0nat) as int)).unwrap().1 + B::spec_deserialize(start.skip((A::spec_deserialize(start.skip((0nat) as int)).unwrap().1) as int)).unwrap().1) as int)).unwrap().1) as int)).unwrap().1 + E::spec_deserialize(start.skip((A::spec_deserialize(start.skip((0nat) as int)).unwrap().1 + B::spec_deserialize(start.skip((A::spec_deserialize(start.skip((0nat) as int)).unwrap().1) as int)).unwrap().1 + C::spec_deserialize(start.skip((A::spec_deserialize(start.skip((0nat) as int)).unwrap().1 + B::spec_deserialize(start.skip((A::spec_deserialize(start.skip((0nat) as int)).unwrap().1) as int)).unwrap().1) as int)).unwrap().1 + D::spec_deserialize(start.skip((A::spec_deserialize(start.skip((0nat) as int)).unwrap().1 + B::spec_deserialize(start.skip((A::spec_deserialize(start.skip((0nat) as int)).unwrap().1) as int)).unwrap().1 + C::spec_deserialize(start.skip((A::spec_deserialize(start.skip((0nat) as int)).unwrap().1 + B::spec_deserialize(start.skip((A::spec_deserialize(start.skip((0nat) as int)).unwrap().1) as int)).unwrap().1) as int)).unwrap().1) as int)).unwrap().1) as int)).unwrap().1 + F::spec_deserialize(start.skip((A::spec_deserialize(start.skip((0nat) as int)).unwrap().1 + B::spec_deserialize(start.skip((A::spec_deserialize(start.skip((0nat) as int)).unwrap().1) as int)).unwrap().1 + C::spec_deserialize(start.skip((A::spec_deserialize(start.skip((0nat) as int)).unwrap().1 + B::spec_deserialize(start.skip((A::spec_deserialize(start.skip((0nat) as int)).unwrap().1) as int)).unwrap().1) as int)).unwrap().1 + D::spec_deserialize(start.skip((A::spec_deserialize(start.skip((0nat) as int)).unwrap().1 + B::spec_deserialize(start.skip((A::spec_deserialize(start.skip((0nat) as int)).unwrap().1) as int)).unwrap().1 + C::spec_deserialize(start.skip((A::spec_deserialize(start.skip((0nat) as int)).unwrap().1 + B::spec_deserialize(start.skip((A::spec_deserialize(start.skip((0nat) as int)).unwrap().1) as int)).unwrap().1) as int)).unwrap().1) as int)).unwrap().1 + E::spec_deserialize(start.skip((A::spec_deserialize(start.skip((0nat) as int)).unwrap().1 + B::spec_deserialize(start.skip((A::spec_deserialize(start.skip((0nat) as int)).unwrap().1) as int)).unwrap().1 + C::spec_deserialize(start.skip((A::spec_deserialize(start.skip((0nat) as int)).unwrap().1 + B::spec_deserialize(start.skip((A::spec_deserialize(start.skip((0nat) as int)).unwrap().1) as int)).unwrap().1) as int)).unwrap().1 + D::spec_deserialize(start.skip((A::spec_deserialize(start.skip((0nat) as int)).unwrap().1 + B::spec_deserialize(start.skip((A::spec_deserialize(start.skip((0nat) as int)).unwrap().1) as int)).unwrap().1 + C::spec_deserialize(start.skip((A::spec_deserialize(start.skip((0nat) as int)).unwrap().1 + B::spec_deserialize(start.skip((A::spec_deserialize(start.skip((0nat) as int)).unwrap().1) as int)).unwrap().1) as int)).unwrap().1) as int)).unwrap().1) as int)).unwrap().1) as int)).unwrap().1) as int)).unwrap().1) as int)).unwrap().1) as int)).unwrap().1) as int)).unwrap().1))?;
        Ok((x0, x1, x2, x3, x4, x5, x6, x7, x8, x9, x10))
    }

    fn size_hint() -> (result: Option<usize>) {
        let h0 = match A::size_hint() { Some(h) => h, None => return None };
        let h0 = match 0usize.checked_add(h0) { Some(h) => h, None => return None };
        let h1 = match B::size_hint() { Some(h) => h, None => return None };
        let h1 = match h0.checked_add(h1) { Some(h) => h, None => return None };
        let h2 = match C::size_hint() { Some(h) => h, None => return None };
        let h2 = match h1.checked_add(h2) { Some(h) => h, None => return None };
        let h3 = match D::size_hint() { Some(h) => h, None => return None };
        let h3 = match h2.checked_add(h3) { Some(h) => h, None => return None };
        let h4 = match E::size_hint() { Some(h) => h, None => return None };
        let h4 = match h3.checked_add(h4) { Some(h) => h, None => return None };
        let h5 = match F::size_hint() { Some(h) => h, None => return None };
        let h5 = match h4.checked_add(h5) { Some(h) => h, None => return None };
        let h6 = match G::size_hint() { Some(h) => h, None => return None };
        let h6 = match h5.checked_add(h6) { Some(h) => h, None => return None };
        let h7 = match H::size_hint() { Some(h) => h, None => return None };
        let h7 = match h6.checked_add(h7) { Some(h) => h, None => return None };
        let h8 = match I::size_hint() { Some(h) => h, None => return None };
        let h8 = match h7.checked_add(h8) { Some(h) => h, None => return None };
        let h9 = match J::size_hint() { Some(h) => h, None => return None };
        let h9 = match h8.checked_add(h9) { Some(h) => h, None => return None };
        let h10 = match K::size_hint() { Some(h) => h, None => return None };
        let h10 = match h9.checked_add(h10) { Some(h) => h, None => return None };
        Some(h10)
    }
}

impl<A: Deserialize<Output = A> + DeepView, B: Deserialize<Output = B> + DeepView, C: Deserialize<Output = C> + DeepView, D: Deserialize<Output = D> + DeepView, E: Deserialize<Output = E> + DeepView, F: Deserialize<Output = F> + DeepView, G: Deserialize<Output = G> + DeepView, H: Deserialize<Output = H> + DeepView, I: Deserialize<Output = I> + DeepView, J: Deserialize<Output = J> + DeepView, K: Deserialize<Output = K> + DeepView, L: Deserialize<Output = L> + DeepView> Deserialize for (A, B, C, D, E, F, G, H, I, J, K, L) {
    type Output = Self;

    open spec fn spec_deserialize(input: Seq<u8>) -> Result<(<Self as DeepView>::V, nat), DeserializeError> {
        match A::spec_deserialize(input) {
            Err(e) => Err(e),
            Ok((v0, n0)) => match B::spec_deserialize(input.skip((n0) as int)) {
            Err(e) => Err(e),
            Ok((v1, n1)) => match C::spec_deserialize(input.skip((n0 + n1) as int)) {
            Err(e) => Err(e),
            Ok((v2, n2)) => match D::spec_deserialize(input.skip((n0 + n1 + n2) as int)) {
            Err(e) => Err(e),
            Ok((v3, n3)) => match E::spec_deserialize(input.skip((n0 + n1 + n2 + n3) as int)) {
            Err(e) => Err(e),
            Ok((v4, n4)) => match F::spec_deserialize(input.skip((n0 + n1 + n2 + n3 + n4) as int)) {
            Err(e) => Err(e),
            Ok((v5, n5)) => match G::spec_deserialize(input.skip((n0 + n1 + n2 + n3 + n4 + n5) as int)) {
            Err(e) => Err(e),
            Ok((v6, n6)) => match H::spec_deserialize(input.skip((n0 + n1 + n2 + n3 + n4 + n5 + n6) as int)) {
            Err(e) => Err(e),
            Ok((v7, n7)) => match I::spec_deserialize(input.skip((n0 + n1 + n2 + n3 + n4 + n5 + n6 + n7) as int)) {
            Err(e) => Err(e),
            Ok((v8, n8)) => match J::spec_deserialize(input.skip((n0 + n1 + n2 + n3 + n4 + n5 + n6 + n7 + n8) as int)) {
            Err(e) => Err(e),
            Ok((v9, n9)) => match K::spec_deserialize(input.skip((n0 + n1 + n2 + n3 + n4 + n5 + n6 + n7 + n8 + n9) as int)) {
            Err(e) => Err(e),
            Ok((v10, n10)) => match L::spec_deserialize(input.skip((n0 + n1 + n2 + n3 + n4 + n5 + n6 + n7 + n8 + n9 + n10) as int)) {
            Err(e) => Err(e),
            Ok((v11, n11)) => Ok(((v0, v1, v2, v3, v4, v5, v6, v7, v8, v9, v10, v11), n0 + n1 + n2 + n3 + n4 + n5 + n6 + n7 + n8 + n9 + n10 + n11)),
        },
        },
        },
        },
        },
        },
        },
        },
        },
        },
        },
        }
    }

    open spec fn spec_size_hint() -> Option<usize> {
        add_sizes(add_sizes(add_sizes(add_sizes(add_sizes(add_sizes(add_sizes(add_sizes(add_sizes(add_sizes(add_sizes(add_sizes(Some(0usize), A::spec_size_hint()), B::spec_size_hint()), C::spec_size_hint()), D::spec_size_hint()), E::spec_size_hint()), F::spec_size_hint()), G::spec_size_hint()), H::spec_size_hint()), I::spec_size_hint()), J::spec_size_hint()), K::spec_size_hint()), L::spec_size_hint())
    }

    fn deserialize(buffer: &mut Reader) -> (result: Result<Self::Output, DeserializeError>) {
        let ghost start = buffer@;
        assert(start.skip(0) =~= start);
        let x0 = deserialize_next::<A>(buffer, Ghost(start), Ghost(0nat))?;
        let x1 = deserialize_next::<B>(buffer, Ghost(start), Ghost(A::spec_deserialize(start.skip((0nat) as int)).unwrap().1))?;
        let x2 = deserialize_next::<C>(buffer, Ghost(start), Ghost(A::spec_deserialize(start.skip((0nat) as int)).unwrap().1 + B::spec_deserialize(start.skip((A::spec_deserialize(start.skip((0nat) as int)).unwrap().1) as int)).unwrap().1))?;
        let x3 = deserialize_next::<D>(buffer, Ghost(start), Ghost(A::spec_deserialize(start.skip((0nat) as int)).unwrap().1 + B::spec_deserialize(start.skip((A::spec_deserialize(start.skip((0nat) as int)).unwrap().1) as int)).unwrap().1 + C::spec_deserialize(start.skip((A::spec_deserialize(start.skip((0nat) as int)).unwrap().1 + B::spec_deserialize(start.skip((A::spec_deserialize(start.skip((0nat) as int)).unwrap().1) as int)).unwrap().1) as int)).unwrap().1))?;
        let x4 = deserialize_next::<E>(buffer, Ghost(start), Ghost(A::spec_deserialize(start.skip((0nat) as int)).unwrap().1 + B::spec_deserialize(start.skip((A::spec_deserialize(start.skip((0nat) as int)).unwrap().1) as int)).unwrap().1 + C::spec_deserialize(start.skip((A::spec_deserialize(start.skip((0nat) as int)).unwrap().1 + B::spec_deserialize(start.skip((A::spec_deserialize(start.skip((0nat) as int)).unwrap().1) as int)).unwrap().1) as int)).unwrap().1 + D::spec_deserialize(start.skip((A::spec_deserialize(start.skip((0nat) as int)).unwrap().1 + B::spec_deserialize(start.skip((A::spec_deserialize(start.skip((0nat) as int)).unwrap().1) as int)).unwrap().1 + C::spec_deserialize(start.skip((A::spec_deserialize(start.skip((0nat) as int)).unwrap().1 + B::spec_deserialize(start.skip((A::spec_deserialize(start.skip((0nat) as int)).unwrap().1) as int)).unwrap().1) as int)).unwrap().1) as int)).unwrap().1))?;
        let x5 = deserialize_next::<F>(buffer, Ghost(start), Ghost(A::spec_deserialize(start.skip((0nat) as int)).unwrap().1 + B::spec_deserialize(start.skip((A::spec_deserialize(start.skip((0nat) as int)).unwrap().1) as int)).unwrap().1 + C::spec_deserialize(start.skip((A::spec_deserialize(start.skip((0nat) as int)).unwrap().1 + B::spec_deserialize(start.skip((A::spec_deserialize(start.skip((0nat) as int)).unwrap().1) as int)).unwrap().1) as int)).unwrap().1 + D::spec_deserialize(start.skip((A::spec_deserialize(start.skip((0nat) as int)).unwrap().1 + B::spec_deserialize(start.skip((A::spec_deserialize(start.skip((0nat) as int)).unwrap().1) as int)).unwrap().1 + C::spec_deserialize(start.skip((A::spec_deserialize(start.skip((0nat) as int)).unwrap().1 + B::spec_deserialize(start.skip((A::spec_deserialize(start.skip((0nat) as int)).unwrap().1) as int)).unwrap().1) as int)).unwrap().1) as int)).unwrap().1 + E::spec_deserialize(start.skip((A::spec_deserialize(start.skip((0nat) as int)).unwrap().1 + B::spec_deserialize(start.skip((A::spec_deserialize(start.skip((0nat) as int)).unwrap().1) as int)).unwrap().1 + C::spec_deserialize(start.skip((A::spec_deserialize(start.skip((0nat) as int)).unwrap().1 + B::spec_deserialize(start.skip((A::spec_deserialize(start.skip((0nat) as int)).unwrap().1) as int)).unwrap().1) as int)).unwrap().1 + D::spec_deserialize(start.skip((A::spec_deserialize(start.skip((0nat) as int)).unwrap().1 + B::spec_deserialize(start.skip((A::spec_deserialize(start.skip((0nat) as int)).unwrap().1) as int)).unwrap().1 + C::spec_deserialize(start.skip((A::spec_deserialize(start.skip((0nat) as int)).unwrap().1 + B::spec_deserialize(start.skip((A::spec_deserialize(start.skip((0nat) as int)).unwrap().1) as int)).unwrap().1) as int)).unwrap().1) as int)).unwrap().1) as int)).unwrap().1))?;
        let x6 = deserialize_next::<G>(buffer, Ghost(start), Ghost(A::spec_deserialize(start.skip((0nat) as int)).unwrap().1 + B::spec_deserialize(start.skip((A::spec_deserialize(start.skip((0nat) as int)).unwrap().1) as int)).unwrap().1 + C::spec_deserialize(start.skip((A::spec_deserialize(start.skip((0nat) as int)).unwrap().1 + B::spec_deserialize(start.skip((A::spec_deserialize(start.skip((0nat) as int)).unwrap().1) as int)).unwrap().1) as int)).unwrap().1 + D::spec_deserialize(start.skip((A::spec_deserialize(start.skip((0nat) as int)).unwrap().1 + B::spec_deserialize(start.skip((A::spec_deserialize(start.skip((0nat) as int)).unwrap().1) as int)).unwrap().1 + C::spec_deserialize(start.skip((A::spec_deserialize(start.skip((0nat) as int)).unwrap().1 + B::spec_deserialize(start.skip((A::spec_deserialize(start.skip((0nat) as int)).unwrap().1) as int)).unwrap().1) as int)).unwrap().1) as int)).unwrap().1 + E::spec_deserialize(start.skip((A::spec_deserialize(start.skip((0nat) as int)).unwrap().1 + B::spec_deserialize(start.skip((A::spec_deserialize(start.skip((0nat) as int)).unwrap().1) as int)).unwrap().1 + C::spec_deserialize(start.skip((A::spec_deserialize(start.skip((0nat) as int)).unwrap().1 + B::spec_deserialize(start.skip((A::spec_deserialize(start.skip((0nat) as int)).unwrap().1) as int)).unwrap().1) as int)).unwrap().1 + D::spec_deserialize(start.skip((A::spec_deserialize(start.skip((0nat) as int)).unwrap().1 + B::spec_deserialize(start.skip((A::spec_deserialize(start.skip((0nat) as int)).unwrap().1) as int)).unwrap().1 + C::spec_deserialize(start.skip((A::spec_deserialize(start.skip((0nat) as int)).unwrap().1 + B::spec_deserialize(start.skip((A::spec_deserialize(start.skip((0nat) as int)).unwrap().1) as int)).unwrap().1) as int)).unwrap().1) as int)).unwrap().1) as int)).unwrap().1 + F::spec_deserialize(start.skip((A::spec_deserialize(start.skip((0nat) as int)).unwrap().1 + B::spec_deserialize(start.skip((A::spec_deserialize(start.skip((0nat) as int)).unwrap().1) as int)).unwrap().1 + C::spec_deserialize(start.skip((A::spec_deserialize(start.skip((0nat) as int)).unwrap().1 + B::spec_deserialize(start.skip((A::spec_deserialize(start.skip((0nat) as int)).unwrap().1) as int)).unwrap().1) as int)).unwrap().1 + D::spec_deserialize(start.skip((A::spec_deserialize(start.skip((0nat) as int)).unwrap().1 + B::spec_deserialize(start.skip((A::spec_deserialize(start.skip((0nat) as int)).unwrap().1) as int)).unwrap().1 + C::spec_deserialize(start.skip((A::spec_deserialize(start.skip((0nat) as int)).unwrap().1 + B::spec_deserialize(start.skip((A::spec_deserialize(start.skip((0nat) as int)).unwrap().1) as int)).unwrap().1) as int)).unwrap().1) as int)).unwrap().1 + E::spec_deserialize(start.skip((A::spec_deserialize(start.skip((0nat) as int)).unwrap().1 + B::spec_deserialize(start.skip((A::spec_deserialize(start.skip((0nat) as int)).unwrap().1) as int)).unwrap().1 + C::spec_deserialize(start.skip((A::spec_deserialize(start.skip((0nat) as int)).unwrap().1 + B::spec_deserialize(start.skip((A::spec_deserialize(start.skip((0nat) as int)).unwrap().1) as int)).unwrap().1) as int)).unwrap().1 + D::spec_deserialize(start.skip((A::spec_deserialize(start.skip((0nat) as int)).unwrap().1 + B::spec_deserialize(start.skip((A::spec_deserialize(start.skip((0nat) as int)).unwrap().1) as int)).unwrap().1 + C::spec_deserialize(start.skip((A::spec_deserialize(start.skip((0nat) as int)).unwrap().1 + B::spec_deserialize(start.skip((A::spec_deserialize(start.skip((0nat) as int)).unwrap().1) as int)).unwrap().1) as int)).unwrap().1) as int)).unwrap().1) as int)).unwrap().1) as int)).unwrap().1))?;
        let x7 = deserialize_next::<H>(buffer, Ghost(start), Ghost(A::spec_deserialize(start.skip((0nat) as int)).unwrap().1 + B::spec_deserialize(start.skip((A::spec_deserialize(start.skip((0nat) as int)).unwrap().1) as int)).unwrap().1 + C::spec_deserialize(start.skip((A::spec_deserialize(start.skip((0nat) as int)).unwrap().1 + B::spec_deserialize(start.skip((A::spec_deserialize(start.skip((0nat) as int)).unwrap().1) as int)).unwrap().1) as int)).unwrap().1 + D::spec_deserialize(start.skip((A::spec_deserialize(start.skip((0nat) as int)).unwrap().1 + B::spec_deserialize(start.skip((A::spec_deserialize(start.skip((0nat) as int)).unwrap().1) as int)).unwrap().1 + C::spec_deserialize(start.skip((A::spec_deserialize(start.skip((0nat) as int)).unwrap().1 + B::spec_deserialize(start.skip((A::spec_deserialize(start.skip((0nat) as int)).unwrap().1) as int)).unwrap().1) as int)).unwrap().1) as int)).unwrap().1 + E::spec_deserialize(start.skip((A::spec_deserialize(start.skip((0nat) as int)).unwrap().1 + B::spec_deserialize(start.skip((A::spec_deserialize(start.skip((0nat) as int)).unwrap().1) as int)).unwrap().1 + C::spec_deserialize(start.skip((A::spec_deserialize(start.skip((0nat) as int)).unwrap().1 + B::spec_deserialize(start.skip((A::spec_deserialize(start.skip((0nat) as int)).unwrap().1) as int)).unwrap().1) as int)).unwrap().1 + D::spec_deserialize(start.skip((A::spec_deserialize(start.skip((0nat) as int)).unwrap().1 + B::spec_deserialize(start.skip((A::spec_deserialize(start.skip((0nat) as int)).unwrap().1) as int)).unwrap().1 + C::spec_deserialize(start.skip((A::spec_deserialize(start.skip((0nat) as int)).unwrap().1 + B::spec_deserialize(start.skip((A::spec_deserialize(start.skip((0nat) as int)).unwrap().1) as int)).unwrap().1) as int)).unwrap().1) as int)).unwrap().1) as int)).unwrap().1 + F::spec_deserialize(start.skip((A::spec_deserialize(start.skip((0nat) as int)).unwrap().1 + B::spec_deserialize(start.skip((A::spec_deserialize(start.skip((0nat) as int)).unwrap().1) as int)).unwrap().1 + C::spec_deserialize(start.skip((A::spec_deserialize(start.skip((0nat) as int)).unwrap().1 + B::spec_deserialize(start.skip((A::spec_deserialize(start.skip((0nat) as int)).unwrap().1) as int)).unwrap().1) as int)).unwrap().1 + D::spec_deserialize(start.skip((A::spec_deserialize(start.skip((0nat) as int)).unwrap().1 + B::spec_deserialize(start.skip((A::spec_deserialize(start.skip((0nat) as int)).unwrap().1) as int)).unwrap().1 + C::spec_deserialize(start.skip((A::spec_deserialize(start.skip((0nat) as int)).unwrap().1 + B::spec_deserialize(start.skip((A::spec_deserialize(start.skip((0nat) as int)).unwrap().1) as int)).unwrap().1) as int)).unwrap().1) as int)).unwrap().1 + E::spec_deserialize(start.skip((A::spec_deserialize(start.skip((0nat) as int)).unwrap().1 + B::spec_deserialize(start.skip((A::spec_deserialize(start.skip((0nat) as int)).unwrap().1) as int)).unwrap().1 + C::spec_deserialize(start.skip((A::spec_deserialize(start.skip((0nat) as int)).unwrap().1 + B::spec_deserialize(start.skip((A::spec_deserialize(start.skip((0nat) as int)).unwrap().1) as int)).unwrap().1) as int)).unwrap().1 + D::spec_deserialize(start.skip((A::spec_deserialize(start.skip((0nat) as int)).unwrap().1 + B::spec_deserialize(start.skip((A::spec_deserialize(start.skip((0nat) as int)).unwrap().1) as int)).unwrap().1 + C::spec_deserialize(start.skip((A::spec_deserialize(start.skip((0nat) as int)).unwrap().1 + B::spec_deserialize(start.skip((A::spec_deserialize(start.skip((0nat) as int)).unwrap().1) as int)).unwrap().1) as int)).unwrap().1) as int)).unwrap().1) as int)).unwrap().1) as int)).unwrap().1 + G::spec_deserialize(start.skip((A::spec_deserialize(start.skip((0nat) as int)).unwrap().1 + B::spec_deserialize(start.skip((A::spec_deserialize(start.skip((0nat) as int)).unwrap().1) as int)).unwrap().1 + C::spec_deserialize(start.skip((A::spec_deserialize(start.skip((0nat) as int)).unwrap().1 + B::spec_deserialize(start.skip((A::spec_deserialize(start.skip((0nat) as int)).unwrap().1) as int)).unwrap().1) as int)).unwrap().1 + D::spec_deserialize(start.skip((A::spec_deserialize(start.skip((0nat) as int)).unwrap().1 + B::spec_deserialize(start.skip((A::spec_deserialize(start.skip((0nat) as int)).unwrap().1) as int)).unwrap().1 + C::spec_deserialize(start.skip((A::spec_deserialize(start.skip((0nat) as int)).unwrap().1 + B::spec_deserialize(start.skip((A::spec_deserialize(start.skip((0nat) as int)).unwrap().1) as int)).unwrap().1) as int)).unwrap().1) as int)).unwrap().1 + E::spec_deserialize(start.skip((A::spec_deserialize(start.skip((0nat) as int)).unwrap().1 + B::spec_deserialize(start.skip((A::spec_deserialize(start.skip((0nat) as int)).unwrap().1) as int)).unwrap().1 + C::spec_deserialize(start.skip((A::spec_deserialize(start.skip((0nat) as int)).unwrap().1 + B::spec_deserialize(start.skip((A::spec_deserialize(start.skip((0nat) as int)).unwrap().1) as int)).unwrap().1) as int)).unwrap().1 + D::spec_deserialize(start.skip((A::spec_deserialize(start.skip((0nat) as int)).unwrap().1 + B::spec_deserialize(start.skip((A::spec_deserialize(start.skip((0nat) as int)).unwrap().1) as int)).unwrap().1 + C::spec_deserialize(start.skip((A::spec_deserialize(start.skip((0nat) as int)).unwrap().1 + B::spec_deserialize(start.skip((A::spec_deserialize(start.skip((0nat) as int)).unwrap().1) as int)).unwrap().1) as int)).unwrap().1) as int)).unwrap().1) as int)).unwrap().1 + F::spec_deserialize(start.skip((A::spec_deserialize(start.skip((0nat) as int)).unwrap().1 + B::spec_deserialize(start.skip((A::spec_deserialize(start.skip((0nat) as int)).unwrap().1) as int)).unwrap().1 + C::spec_deserialize(start.skip((A::spec_deserialize(start.skip((0nat) as int)).unwrap().1 + B::spec_deserialize(start.skip((A::spec_deserialize(start.skip((0nat) as int)).unwrap().1) as int)).unwrap().1) as int)).unwrap().1 + D::spec_deserialize(start.skip((A::spec_deserialize(start.skip((0nat) as int)).unwrap().1 + B::spec_deserialize(start.skip((A::spec_deserialize(start.skip((0nat) as int)).unwrap().1) as int)).unwrap().1 + C::spec_deserialize(start.skip((A::spec_deserialize(start.skip((0nat) as int)).unwrap().1 + B::spec_deserialize(start.skip((A::spec_deserialize(start.skip((0nat) as int)).unwrap().1) as int)).unwrap().1) as int)).unwrap().1) as int)).unwrap().1 + E::spec_deserialize(start.skip((A::spec_deserialize(start.skip((0nat) as int)).unwrap().1 + B::spec_deserialize(start.skip((A::spec_deserialize(start.skip((0nat) as int)).unwrap().1) as int)).unwrap().1 + C::spec_deserialize(start.skip((A::spec_deserialize(start.skip((0nat) as int)).unwrap().1 + B::spec_deserialize(start.skip((A::spec_deserialize(start.skip((0nat) as int)).unwrap().1) as int)).unwrap().1) as int)).unwrap().1 + D::spec_deserialize(start.skip((A::spec_deserialize(start.skip((0nat) as int)).unwrap().1 + B::spec_deserialize(start.skip((A::spec_deserialize(start.skip((0nat) as int)).unwrap().1) as int)).unwrap().1 + C::spec_deserialize(start.skip((A::spec_deserialize(start.skip((0nat) as int)).unwrap().1 + B::spec_deserialize(start.skip((A::spec_deserialize(start.skip((0nat) as int)).unwrap().1) as int)).unwrap().1) as int)).unwrap().1) as int)).unwrap().1) as int)).unwrap().1) as int)).unwrap().1) as int)).unwrap().1))?;
        let x8 = deserialize_next::<I>(buffer, Ghost(start), Ghost(A::spec_deserialize(start.skip((0nat) as int)).unwrap().1 + B::spec_deserialize(start.skip((A::spec_deserialize(start.skip((0nat) as int)).unwrap().1) as int)).unwrap().1 + C::spec_deserialize(start.skip((A::spec_deserialize(start.skip((0nat) as int)).unwrap().1 + B::spec_deserialize(start.skip((A::spec_deserialize(start.skip((0nat) as int)).unwrap().1) as int)).unwrap().1) as int)).unwrap().1 + D::spec_deserialize(start.skip((A::spec_deserialize(start.skip((0nat) as int)).unwrap().1 + B::spec_deserialize(start.skip((A::spec_deserialize(start.skip((0nat) as int)).unwrap().1) as int)).unwrap().1 + C::spec_deserialize(start.skip((A::spec_deserialize(start.skip((0nat) as int)).unwrap().1 + B::spec_deserialize(start.skip((A::spec_deserialize(start.skip((0nat) as int)).unwrap().1) as int)).unwrap().1) as int)).unwrap().1) as int)).unwrap().1 + E::spec_deserialize(start.skip((A::spec_deserialize(start.skip((0nat) as int)).unwrap().1 + B::spec_deserialize(start.skip((A::spec_deserialize(start.skip((0nat) as int)).unwrap().1) as int)).unwrap().1 + C::spec_deserialize(start.skip((A::spec_deserialize(start.skip((0nat) as int)).unwrap().1 + B::spec_deserialize(start.skip((A::spec_deserialize(start.skip((0nat) as int)).unwrap().1) as int)).unwrap().1) as int)).unwrap().1 + D::spec_deserialize(start.skip((A::spec_deserialize(start.skip((0nat) as int)).unwrap().1 + B::spec_deserialize(start.skip((A::spec_deserialize(start.skip((0nat) as int)).unwrap().1) as int)).unwrap().1 + C::spec_deserialize(start.skip((A::spec_deserialize(start.skip((0nat) as int)).unwrap().1 + B::spec_deserialize(start.skip((A::spec_deserialize(start.skip((0nat) as int)).unwrap().1) as int)).unwrap().1) as int)).unwrap().1) as int)).unwrap().1) as int)).unwrap().1 + F::spec_deserialize(start.skip((A::spec_deserialize(start.skip((0nat) as int)).unwrap().1 + B::spec_deserialize(start.skip((A::spec_deserialize(start.skip((0nat) as int)).unwrap().1) as int)).unwrap().1 + C::spec_deserialize(start.skip((A::spec_deserialize(start.skip((0nat) as int)).unwrap().1 + B::spec_deserialize(start.skip((A::spec_deserialize(start.skip((0nat) as int)).unwrap().1) as int)).unwrap().1) as int)).unwrap().1 + D::spec_deserialize(start.skip((A::spec_deserialize(start.skip((0nat) as int)).unwrap().1 + B::spec_deserialize(start.skip((A::spec_deserialize(start.skip((0nat) as int)).unwrap().1) as int)).unwrap().1 + C::spec_deserialize(start.skip((A::spec_deserialize(start.skip((0nat) as int)).unwrap().1 + B::spec_deserialize(start.skip((A::spec_deserialize(start.skip((0nat) as int)).unwrap().1) as int)).unwrap().1) as int)).unwrap().1) as int)).unwrap().1 + E::spec_deserialize(start.skip((A::spec_deserialize(start.skip((0nat) as int)).unwrap().1 + B::spec_deserialize(start.skip((A::spec_deserialize(start.skip((0nat) as int)).unwrap().1) as int)).unwrap().1 + C::spec_deserialize(start.skip((A::spec_deserialize(start.skip((0nat) as int)).unwrap().1 + B::spec_deserialize(start.skip((A::spec_deserialize(start.skip((0nat) as int)).unwrap().1) as int)).unwrap().1) as int)).unwrap().1 + D::spec_deserialize(start.skip((A::spec_deserialize(start.skip((0nat) as int)).unwrap().1 + B::spec_deserialize(start.skip((A::spec_deserialize(start.skip((0nat) as int)).unwrap().1) as int)).unwrap().1 + C::spec_deserialize(start.skip((A::spec_deserialize(start.skip((0nat) as int)).unwrap().1 + B::spec_deserialize(start.skip((A::spec_deserialize(start.skip((0nat) as int)).unwrap().1) as int)).unwrap().1) as int)).unwrap().1) as int)).unwrap().1) as int)).unwrap().1) as int)).unwrap().1 + G::spec_deserialize(start.skip((A::spec_deserialize(start.skip((0nat) as int)).unwrap().1 + B::spec_deserialize(start.skip((A::spec_deserialize(start.skip((0nat) as int)).unwrap().1) as int)).unwrap().1 + C::spec_deserialize(start.skip((A::spec_deserialize(start.skip((0nat) as int)).unwrap().1 + B::spec_deserialize(start.skip((A::spec_deserialize(start.skip((0nat) as int)).unwrap().1) as int)).unwrap().1) as int)).unwrap().1 + D::spec_deserialize(start.skip((A::spec_deserialize(start.skip((0nat) as int)).unwrap().1 + B::spec_deserialize(start.skip((A::spec_deserialize(start.skip((0nat) as int)).unwrap().1) as int)).unwrap().1 + C::spec_deserialize(start.skip((A::spec_deserialize(start.skip((0nat) as int)).unwrap().1 + B::spec_deserialize(start.skip((A::spec_deserialize(start.skip((0nat) as int)).unwrap().1) as int)).unwrap().1) as int)).unwrap().1) as int)).unwrap().1 + E::spec_deserialize(start.skip((A::spec_deserialize(start.skip((0nat) as int)).unwrap().1 + B::spec_deserialize(start.skip((A::spec_deserialize(start.skip((0nat) as int)).unwrap().1) as int)).unwrap().1 + C::spec_deserialize(start.skip((A::spec_deserialize(start.skip((0nat) as int)).unwrap().1 + B::spec_deserialize(start.skip((A::spec_deserialize(start.skip((0nat) as int)).unwrap().1) as int)).unwrap().1) as int)).unwrap().1 + D::spec_deserialize(start.skip((A::spec_deserialize(start.skip((0nat) as int)).unwrap().1 + B::spec_deserialize(start.skip((A::spec_deserialize(start.skip((0nat) as int)).unwrap().1) as int)).unwrap().1 + C::spec_deserialize(start.skip((A::spec_deserialize(start.skip((0nat) as int)).unwrap().1 + B::spec_deserialize(start.skip((A::spec_deserialize(start.skip((0nat) as int)).unwrap().1) as int)).unwrap().1) as int)).unwrap().1) as int)).unwrap().1) as int)).unwrap().1 + F::spec_deserialize(start.skip((A::spec_deserialize(start.skip((0nat) as int)).unwrap().1 + B::spec_deserialize(start.skip((A::spec_deserialize(start.skip((0nat) as int)).unwrap().1) as int)).unwrap().1 + C::spec_deserialize(start.skip((A::spec_deserialize(start.skip((0nat) as int)).unwrap().1 + B::spec_deserialize(start.skip((A::spec_deserialize(start.skip((0nat) as int)).unwrap().1) as int)).unwrap().1) as int)).unwrap().1 + D::spec_deserialize(start.skip((A::spec_deserialize(start.skip((0nat) as int)).unwrap().1 + B::spec_deserialize(start.skip((A::spec_deserialize(start.skip((0nat) as int)).unwrap().1) as int)).unwrap().1 + C::spec_deserialize(start.skip((A::spec_deserialize(start.skip((0nat) as int)).unwrap().1 + B::spec_deserialize(start.skip((A::spec_deserialize(start.skip((0nat) as int)).unwrap().1) as int)).unwrap().1) as int)).unwrap().1) as int)).unwrap().1 + E::spec_deserialize(start.skip((A::spec_deserialize(start.skip((0nat) as int)).unwrap().1 + B::spec_deserialize(start.skip((A::spec_deserialize(start.skip((0nat) as int)).unwrap().1) as int)).unwrap().1 + C::spec_deserialize(start.skip((A::spec_deserialize(start.skip((0nat) as int)).unwrap().1 + B::spec_deserialize(start.skip((A::spec_deserialize(start.skip((0nat) as int)).unwrap().1) as int)).unwrap().1) as int)).unwrap().1 + D::spec_deserialize(start.skip((A::spec_deserialize(start.skip((0nat) as int)).unwrap().1 + B::spec_deserialize(start.skip((A::spec_deserialize(start.skip((0nat) as int)).unwrap().1) as int)).unwrap().1 + C::spec_deserialize(start.skip((A::spec_deserialize(start.skip((0nat) as int)).unwrap().1 + B::spec_deserialize(start.skip((A::spec_deserialize(start.skip((0nat) as int)).unwrap().1) as int)).unwrap().1) as int)).unwrap().1) as int)).unwrap().1) as int)).unwrap().1) as int)).unwrap().1) as int)).unwrap().1 + H::spec_deserialize(start.skip((A::spec_deserialize(start.skip((0nat) as int)).unwrap().1 + B::spec_deserialize(start.skip((A::spec_deserialize(start.skip((0nat) as int)).unwrap().1) as int)).unwrap().1 + C::spec_deserialize(start.skip((A::spec_deserialize(start.skip((0nat) as int)).unwrap().1 + B::spec_deserialize(start.skip((A::spec_deserialize(start.skip((0nat) as int)).unwrap().1) as int)).unwrap().1) as int)).unwrap().1 + D::spec_deserialize(start.skip((A::spec_deserialize(start.skip((0nat) as int)).unwrap().1 + B::spec_deserialize(start.skip((A::spec_deserialize(start.skip((0nat) as int)).unwrap().1) as int)).unwrap().1 + C::spec_deserialize(start.skip((A::spec_deserialize(start.skip((0nat) as int)).unwrap().1 + B::spec_deserialize(start.skip((A::spec_deserialize(start.skip((0nat) as int)).unwrap().1) as int)).unwrap().1) as int)).unwrap().1) as int)).unwrap().1 + E::spec_deserialize(start.skip((A::spec_deserialize(start.skip((0nat) as int)).unwrap().1 + B::spec_deserialize(start.skip((A::spec_deserialize(start.skip((0nat) as int)).unwrap().1) as int)).unwrap().1 + C::spec_deserialize(start.skip((A::spec_deserialize(start.skip((0nat) as int)).unwrap().1 + B::spec_deserialize(start.skip((A::spec_deserialize(start.skip((0nat) as int)).unwrap().1) as int)).unwrap().1) as int)).unwrap().1 + D::spec_deserialize(start.skip((A::spec_deserialize(start.skip((0nat) as int)).unwrap().1 + B::spec_deserialize(start.skip((A::spec_deserialize(start.skip((0nat) as int)).unwrap().1) as int)).unwrap().1 + C::spec_deserialize(start.skip((A::spec_deserialize(start.skip((0nat) as int)).unwrap().1 + B::spec_deserialize(start.skip((A::spec_deserialize(start.skip((0nat) as int)).unwrap().1) as int)).unwrap().1) as int)).unwrap().1) as int)).unwrap().1) as int)).unwrap().1 + F::spec_deserialize(start.skip((A::spec_deserialize(start.skip((0nat) as int)).unwrap().1 + B::spec_deserialize(start.skip((A::spec_deserialize(start.skip((0nat) as int)).unwrap().1) as int)).unwrap().1 + C::spec_deserialize(start.skip((A::spec_deserialize(start.skip((0nat) as int)).unwrap().1 + B::spec_deserialize(start.skip((A::spec_deserialize(start.skip((0nat) as int)).unwrap().1) as int)).unwrap().1) as int)).unwrap().1 + D::spec_deserialize(start.skip((A::spec_deserialize(start.skip((0nat) as int)).unwrap().1 + B::spec_deserialize(start.skip((A::spec_deserialize(start.skip((0nat) as int)).unwrap().1) as int)).unwrap().1 + C::spec_deserialize(start.skip((A::spec_deserialize(start.skip((0nat) as int)).unwrap().1 + B::spec_deserialize(start.skip((A::spec_deserialize(start.skip((0nat) as int)).unwrap().1) as int)).unwrap().1) as int)).unwrap().1) as int)).unwrap().1 + E::spec_deserialize(start.skip((A::spec_deserialize(start.skip((0nat) as int)).unwrap().1 + B::spec_deserialize(start.skip((A::spec_deserialize(start.skip((0nat) as int)).unwrap().1) as int)).unwrap().1 + C::spec_deserialize(start.skip((A::spec_deserialize(start.skip((0nat) as int)).unwrap().1 + B::spec_deserialize(start.skip((A::spec_deserialize(start.skip((0nat) as int)).unwrap().1) as int)).unwrap().1) as int)).unwrap().1 + D::spec_deserialize(start.skip((A::spec_deserialize(start.skip((0nat) as int)).unwrap().1 + B::spec_deserialize(start.skip((A::spec_deserialize(start.skip((0nat) as int)).unwrap().1) as int)).unwrap().1 + C::spec_deserialize(start.skip((A::spec_deserialize(start.skip((0nat) as int)).unwrap().1 + B::spec_deserialize(start.skip((A::spec_deserialize(start.skip((0nat) as int)).unwrap().1) as int)).unwrap().1) as int)).unwrap().1) as int)).unwrap().1) as int)).unwrap().1) as int)).unwrap().1 + G::spec_deserialize(start.skip((A::spec_deserialize(start.skip((0nat) as int)).unwrap().1 + B::spec_deserialize(start.skip((A::spec_deserialize(start.skip((0nat) as int)).unwrap().1) as int)).unwrap().1 + C::spec_deserialize(start.skip((A::spec_deserialize(start.skip((0nat) as int)).unwrap().1 + B::spec_deserialize(start.skip((A::spec_deserialize(start.skip((0nat) as int)).unwrap().1) as int)).unwrap().1) as int)).unwrap().1 + D::spec_deserialize(start.skip((A::spec_deserialize(start.skip((0nat) as int)).unwrap().1 + B::spec_deserialize(start.skip((A::spec_deserialize(start.skip((0nat) as int)).unwrap().1) as int)).unwrap().1 + C::spec_deserialize(start.skip((A::spec_deserialize(start.skip((0nat) as int)).unwrap().1 + B::spec_deserialize(start.skip((A::spec_deserialize(start.skip((0nat) as int)).unwrap().1) as int)).unwrap().1) as int)).unwrap().1) as int)).unwrap().1 + E::spec_deserialize(start.skip((A::spec_deserialize(start.skip((0nat) as int)).unwrap().1 + B::spec_deserialize(start.skip((A::spec_deserialize(start.skip((0nat) as int)).unwrap().1) as int)).unwrap().1 + C::spec_deserialize(start.skip((A::spec_deserialize(start.skip((0nat) as int)).unwrap().1 + B::spec_deserialize(start.skip((A::spec_deserialize(start.skip((0nat) as int)).unwrap().1) as int)).unwrap().1) as int)).unwrap().1 + D::spec_deserialize(start.skip((A::spec_deserialize(start.skip((0nat) as int)).unwrap().1 + B::spec_deserialize(start.skip((A::spec_deserialize(start.skip((0nat) as int)).unwrap().1) as int)).unwrap().1 + C::spec_deserialize(start.skip((A::spec_deserialize(start.skip((0nat) as int)).unwrap().1 + B::spec_deserialize(start.skip((A::spec_deserialize(start.skip((0nat) as int)).unwrap().1) as int)).unwrap().1) as int)).unwrap().1) as int)).unwrap().1) as int)).unwrap().1 + F::spec_deserialize(start.skip((A::spec_deserialize(start.skip((0nat) as int)).unwrap().1 + B::spec_deserialize(start.skip((A::spec_deserialize(start.skip((0nat) as int)).unwrap().1) as int)).unwrap().1 + C::spec_deserialize(start.skip((A::spec_deserialize(start.skip((0nat) as int)).unwrap().1 + B::spec_deserialize(start.skip((A::spec_deserialize(start.skip((0nat) as int)).unwrap().1) as int)).unwrap().1) as int)).unwrap().1 + D::spec_deserialize(start.skip((A::spec_deserialize(start.skip((0nat) as int)).unwrap().1 + B::spec_deserialize(start.skip((A::spec_deserialize(start.skip((0nat) as int)).unwrap().1) as int)).unwrap().1 + C::spec_deserialize(start.skip((A::spec_deserialize(start.skip((0nat) as int)).unwrap().1 + B::spec_deserialize(start.skip((A::spec_deserialize(start.skip((0nat) as int)).unwrap().1) as int)).unwrap().1) as int)).unwrap().1) as int)).unwrap().1 + E::spec_deserialize(start.skip((A::spec_deserialize(start.skip((0nat) as int)).unwrap().1 + B::spec_deserialize(start.skip((A::spec_deserialize(start.skip((0nat) as int)).unwrap().1) as int)).unwrap().1 + C::spec_deserialize(start.skip((A::spec_deserialize(start.skip((0nat) as int)).unwrap().1 + B::spec_deserialize(start.skip((A::spec_deserialize(start.skip((0nat) as int)).unwrap().1) as int)).unwrap().1) as int)).unwrap().1 + D::spec_deserialize(start.skip((A::spec_deserialize(start.skip((0nat) as int)).unwrap().1 + B::spec_deserialize(start.skip((A::spec_deserialize(start.skip((0nat) as int)).unwrap().1) as int)).unwrap().1 + C::spec_deserialize(start.skip((A::spec_deserialize(start.skip((0nat) as int)).unwrap().1 + B::spec_deserialize(start.skip((A::spec_deserialize(start.skip((0nat) as int)).unwrap().1) as int)).unwrap().1) as int)).unwrap().1) as int)).unwrap().1) as int)).unwrap().1) as int)).unwrap().1) as int)).unwrap().1) as int)).unwrap().1))?;
        let x9 = deserialize_next::<J>(buffer, Ghost(start), Ghost(A::spec_deserialize(start.skip((0nat) as int)).unwrap().1 + B::spec_deserialize(start.skip((A::spec_deserialize(start.skip((0nat) as int)).unwrap().1) as int)).unwrap().1 + C::spec_deserialize(start.skip((A::spec_deserialize(start.skip((0nat) as int)).unwrap().1 + B::spec_deserialize(start.skip((A::spec_deserialize(start.skip((0nat) as int)).unwrap().1) as int)).unwrap().1) as int)).unwrap().1 + D::spec_deserialize(start.skip((A::spec_deserialize(start.skip((0nat) as int)).unwrap().1 + B::spec_deserialize(start.skip((A::spec_deserialize(start.skip((0nat) as int)).unwrap().1) as int)).unwrap().1 + C::spec_deserialize(start.skip((A::spec_deserialize(start.skip((0nat) as int)).unwrap().1 + B::spec_deserialize(start.skip((A::spec_deserialize(start.skip((0nat) as int)).unwrap().1) as int)).unwrap().1) as int)).unwrap().1) as int)).unwrap().1 + E::spec_deserialize(start.skip((A::spec_deserialize(start.skip((0nat) as int)).unwrap().1 + B::spec_deserialize(start.skip((A::spec_deserialize(start.skip((0nat) as int)).unwrap().1) as int)).unwrap().1 + C::spec_deserialize(start.skip((A::spec_deserialize(start.skip((0nat) as int)).unwrap().1 + B::spec_deserialize(start.skip((A::spec_deserialize(start.skip((0nat) as int)).unwrap().1) as int)).unwrap().1) as int)).unwrap().1 + D::spec_deserialize(start.skip((A::spec_deserialize(start.skip((0nat) as int)).unwrap().1 + B::spec_deserialize(start.skip((A::spec_deserialize(start.skip((0nat) as int)).unwrap().1) as int)).unwrap().1 + C::spec_deserialize(start.skip((A::spec_deserialize(start.skip((0nat) as int)).unwrap().1 + B::spec_deserialize(start.skip((A::spec_deserialize(start.skip((0nat) as int)).unwrap().1) as int)).unwrap().1) as int)).unwrap().1) as int)).unwrap().1) as int)).unwrap().1 + F::spec_deserialize(start.skip((A::spec_deserialize(start.skip((0nat) as int)).unwrap().1 + B::spec_deserialize(start.skip((A::spec_deserialize(start.skip((0nat) as int)).unwrap().1) as int)).unwrap().1 + C::spec_deserialize(start.skip((A::spec_deserialize(start.skip((0nat) as int)).unwrap().1 + B::spec_deserialize(start.skip((A::spec_deserialize(start.skip((0nat) as int)).unwrap().1) as int)).unwrap().1) as int)).unwrap().1 + D::spec_deserialize(start.skip((A::spec_deserialize(start.skip((0nat) as int)).unwrap().1 + B::spec_deserialize(start.skip((A::spec_deserialize(start.skip((0nat) as int)).unwrap().1) as int)).unwrap().1 + C::spec_deserialize(start.skip((A::spec_deserialize(start.skip((0nat) as int)).unwrap().1 + B::spec_deserialize(start.skip((A::spec_deserialize(start.skip((0nat) as int)).unwrap().1) as int)).unwrap().1) as int)).unwrap().1) as int)).unwrap().1 + E::spec_deserialize(start.skip((A::spec_deserialize(start.skip((0nat) as int)).unwrap().1 + B::spec_deserialize(start.skip((A::spec_deserialize(start.skip((0nat) as int)).unwrap().1) as int)).unwrap().1 + C::spec_deserialize(start.skip((A::spec_deserialize(start.skip((0nat) as int)).unwrap().1 + B::spec_deserialize(start.skip((A::spec_deserialize(start.skip((0nat) as int)).unwrap().1) as int)).unwrap().1) as int)).unwrap().1 + D::spec_deserialize(start.skip((A::spec_deserialize(start.skip((0nat) as int)).unwrap().1 + B::spec_deserialize(start.skip((A::spec_deserialize(start.skip((0nat) as int)).unwrap().1) as int)).unwrap().1 + C::spec_deserialize(start.skip((A::spec_deserialize(start.skip((0nat) as int)).unwrap().1 + B::spec_deserialize(start.skip((A::spec_deserialize(start.skip((0nat) as int)).unwrap().1) as int)).unwrap().1) as int)).unwrap().1) as int)).unwrap().1) as int)).unwrap().1) as int)).unwrap().1 + G::spec_deserialize(start.skip((A::spec_deserialize(start.skip((0nat) as int)).unwrap().1 + B::spec_deserialize(start.skip((A::spec_deserialize(start.skip((0nat) as int)).unwrap().1) as int)).unwrap().1 + C::spec_deserialize(start.skip((A::spec_deserialize(start.skip((0nat) as int)).unwrap().1 + B::spec_deserialize(start.skip((A::spec_deserialize(start.skip((0nat) as int)).unwrap().1) as int)).unwrap().1) as int)).unwrap().1 + D::spec_deserialize(start.skip((A::spec_deserialize(start.skip((0nat) as int)).unwrap().1 + B::spec_deserialize(start.skip((A::spec_deserialize(start.skip((0nat) as int)).unwrap().1) as int)).unwrap().1 + C::spec_deserialize(start.skip((A::spec_deserialize(start.skip((0nat) as int)).unwrap().1 + B::spec_deserialize(start.skip((A::spec_deserialize(start.skip((0nat) as int)).unwrap().1) as int)).unwrap().1) as int)).unwrap().1) as int)).unwrap().1 + E::spec_deserialize(start.skip((A::spec_deserialize(start.skip((0nat) as int)).unwrap().1 + B::spec_deserialize(start.skip((A::spec_deserialize(start.skip((0nat) as int)).unwrap().1) as int)).unwrap().1 + C::spec_deserialize(start.skip((A::spec_deserialize(start.skip((0nat) as int)).unwrap().1 + B::spec_deserialize(start.skip((A::spec_deserialize(start.skip((0nat) as int)).unwrap().1) as int)).unwrap().1) as int)).unwrap().1 + D::spec_deserialize(start.skip((A::spec_deserialize(start.skip((0nat) as int)).unwrap().1 + B::spec_deserialize(start.skip((A::spec_deserialize(start.skip((0nat) as int)).unwrap().1) as int)).unwrap().1 + C::spec_deserialize(start.skip((A::spec_deserialize(start.skip((0nat) as int)).unwrap().1 + B::spec_deserialize(start.skip((A::spec_deserialize(start.skip((0nat) as int)).unwrap().1) as int)).unwrap().1) as int)).unwrap().1) as int)).unwrap().1) as int)).unwrap().1 + F::spec_deserialize(start.skip((A::spec_deserialize(start.skip((0nat) as int)).unwrap().1 + B::spec_deserialize(start.skip((A::spec_deserialize(start.skip((0nat) as int)).unwrap().1) as int)).unwrap().1 + C::spec_deserialize(start.skip((A::spec_deserialize(start.skip((0nat) as int)).unwrap().1 + B::spec_deserialize(start.skip((A::spec_deserialize(start.skip((0nat) as int)).unwrap().1) as int)).unwrap().1) as int)).unwrap().1 + D::spec_deserialize(start.skip((A::spec_deserialize(start.skip((0nat) as int)).unwrap().1 + B::spec_deserialize(start.skip((A::spec_deserialize(start.skip((0nat) as int)).unwrap().1) as int)).unwrap().1 + C::spec_deserialize(start.skip((A::spec_deserialize(start.skip((0nat) as int)).unwrap().1 + B::spec_deserialize(start.skip((A::spec_deserialize(start.skip((0nat) as int)).unwrap().1) as int)).unwrap().1) as int)).unwrap().1) as int)).unwrap().1 + E::spec_deserialize(start.skip((A::spec_deserialize(start.skip((0nat) as int)).unwrap().1 + B::spec_deserialize(start.skip((A::spec_deserialize(start.skip((0nat) as int)).unwrap().1) as int)).unwrap().1 + C::spec_deserialize(start.skip((A::spec_deserialize(start.skip((0nat) as int)).unwrap().1 + B::spec_deserialize(start.skip((A::spec_deserialize(start.skip((0nat) as int)).unwrap().1) as int)).unwrap().1) as int)).unwrap().1 + D::spec_deserialize(start.skip((A::spec_deserialize(start.skip((0nat) as int)).unwrap().1 + B::spec_deserialize(start.skip((A::spec_deserialize(start.skip((0nat) as int)).unwrap().1) as int)).unwrap().1 + C::spec_deserialize(start.skip((A::spec_deserialize(start.skip((0nat) as int)).unwrap().1 + B::spec_deserialize(start.skip((A::spec_deserialize(start.skip((0nat) as int)).unwrap().1) as int)).unwrap().1) as int)).unwrap().1) as int)).unwrap().1) as int)).unwrap().1) as int)).unwrap().1) as int)).unwrap().1 + H::spec_deserialize(start.skip((A::spec_deserialize(start.skip((0nat) as int)).unwrap().1 + B::spec_deserialize(start.skip((A::spec_deserialize(start.skip((0nat) as int)).unwrap().1) as int)).unwrap().1 + C::spec_deserialize(start.skip((A::spec_deserialize(start.skip((0nat) as int)).unwrap().1 + B::spec_deserialize(start.skip((A::spec_deserialize(start.skip((0nat) as int)).unwrap().1) as int)).unwrap().1) as int)).unwrap().1 + D::spec_deserialize(start.skip((A::spec_deserialize(start.skip((0nat) as int)).unwrap().1 + B::spec_deserialize(start.skip((A::spec_deserialize(start.skip((0nat) as int)).unwrap().1) as int)).unwrap().1 + C::spec_deserialize(start.skip((A::spec_deserialize(start.skip((0nat) as int)).unwrap().1 + B::spec_deserialize(start.skip((A::spec_deserialize(start.skip((0nat) as int)).unwrap().1) as int)).unwrap().1) as int)).unwrap().1) as int)).unwrap().1 + E::spec_deserialize(start.skip((A::spec_deserialize(start.skip((0nat) as int)).unwrap().1 + B::spec_deserialize(start.skip((A::spec_deserialize(start.skip((0nat) as int)).unwrap().1) as int)).unwrap().1 + C::spec_deserialize(start.skip((A::spec_deserialize(start.skip((0nat) as int)).unwrap().1 + B::spec_deserialize(start.skip((A::spec_deserialize(start.skip((0nat) as int)).unwrap().1) as int)).unwrap().1) as int)).unwrap().1 + D::spec_deserialize(start.skip((A::spec_deserialize(start.skip((0nat) as int)).unwrap().1 + B::spec_deserialize(start.skip((A::spec_deserialize(start.skip((0nat) as int)).unwrap().1) as int)).unwrap().1 + C::spec_deserialize(start.skip((A::spec_deserialize(start.skip((0nat) as int)).unwrap().1 + B::spec_deserialize(start.skip((A::spec_deserialize(start.skip((0nat) as int)).unwrap().1) as int)).unwrap().1) as int)).unwrap().1) as int)).unwrap().1) as int)).unwrap().1 + F::spec_deserialize(start.skip((A::spec_deserialize(start.skip((0nat) as int)).unwrap().1 + B::spec_deserialize(start.skip((A::spec_deserialize(start.skip((0nat) as int)).unwrap().1) as int)).unwrap().1 + C::spec_deserialize(start.skip((A::spec_deserialize(start.skip((0nat) as int)).unwrap().1 + B::spec_deserialize(start.skip((A::spec_deserialize(start.skip((0nat) as int)).unwrap().1) as int)).unwrap().1) as int)).unwrap().1 + D::spec_deserialize(start.skip((A::spec_deserialize(start.skip((0nat) as int)).unwrap().1 + B::spec_deserialize(start.skip((A::spec_deserialize(start.skip((0nat) as int)).unwrap().1) as int)).unwrap().1 + C::spec_deserialize(start.skip((A::spec_deserialize(start.skip((0nat) as int)).unwrap().1 + B::spec_deserialize(start.skip((A::spec_deserialize(start.skip((0nat) as int)).unwrap().1) as int)).unwrap().1) as int)).unwrap().1) as int)).unwrap().1 + E::spec_deserialize(start.skip((A::spec_deserialize(start.skip((0nat) as int)).unwrap().1 + B::spec_deserialize(start.skip((A::spec_deserialize(start.skip((0nat) as int)).unwrap().1) as int)).unwrap().1 + C::spec_deserialize(start.skip((A::spec_deserialize(start.skip((0nat) as int)).unwrap().1 + B::spec_deserialize(start.skip((A::spec_deserialize(start.skip((0nat) as int)).unwrap().1) as int)).unwrap().1) as int)).unwrap().1 + D::spec_deserialize(start.skip((A::spec_deserialize(start.skip((0nat) as int)).unwrap().1 + B::spec_deserialize(start.skip((A::spec_deserialize(start.skip((0nat) as int)).unwrap().1) as int)).unwrap().1 + C::spec_deserialize(start.skip((A::spec_deserialize(start.skip((0nat) as int)).unwrap().1 + B::spec_deserialize(start.skip((A::spec_deserialize(start.skip((0nat) as int)).unwrap().1) as int)).unwrap().1) as int)).unwrap().1) as int)).unwrap().1) as int)).unwrap().1) as int)).unwrap().1 + G::spec_deserialize(start.skip((A::spec_deserialize(start.skip((0nat) as int)).unwrap().1 + B::spec_deserialize(start.skip((A::spec_deserialize(start.skip((0nat) as int)).unwrap().1) as int)).unwrap().1 + C::spec_deserialize(start.skip((A::spec_deserialize(start.skip((0nat) as int)).unwrap().1 + B::spec_deserialize(start.skip((A::spec_deserialize(start.skip((0nat) as int)).unwrap().1) as int)).unwrap().1) as int)).unwrap().1 + D::spec_deserialize(start.skip((A::spec_deserialize(start.skip((0nat) as int)).unwrap().1 + B::spec_deserialize(start.skip((A::spec_deserialize(start.skip((0nat) as int)).unwrap().1) as int)).unwrap().1 + C::spec_deserialize(start.skip((A::spec_deserialize(start.skip((0nat) as int)).unwrap().1 + B::spec_deserialize(start.skip((A::spec_deserialize(start.skip((0nat) as int)).unwrap().1) as int)).unwrap().1) as int)).unwrap().1) as int)).unwrap().1 + E::spec_deserialize(start.skip((A::spec_deserialize(start.skip((0nat) as int)).unwrap().1 + B::spec_deserialize(start.skip((A::spec_deserialize(start.skip((0nat) as int)).unwrap().1) as int)).unwrap().1 + C::spec_deserialize(start.skip((A::spec_deserialize(start.skip((0nat) as int)).unwrap().1 + B::spec_deserialize(start.skip((A::spec_deserialize(start.skip((0nat) as int)).unwrap().1) as int)).unwrap().1) as int)).unwrap().1 + D::spec_deserialize(start.skip((A::spec_deserialize(start.skip((0nat) as int)).unwrap().1 + B::spec_deserialize(start.skip((A::spec_deserialize(start.skip((0nat) as int)).unwrap().1) as int)).unwrap().1 + C::spec_deserialize(start.skip((A::spec_deserialize(start.skip((0nat) as int)).unwrap().1 + B::spec_deserialize(start.skip((A::spec_deserialize(start.skip((0nat) as int)).unwrap().1) as int)).unwrap().1) as int)).unwrap().1) as int)).unwrap().1) as int)).unwrap().1 + F::spec_deserialize(start.skip((A::spec_deserialize(start.skip((0nat) as int)).unwrap().1 + B::spec_deserialize(start.skip((A::spec_deserialize(start.skip((0nat) as int)).unwrap().1) as int)).unwrap().1 + C::spec_deserialize(start.skip((A::spec_deserialize(start.skip((0nat) as int)).unwrap().1 + B::spec_deserialize(start.skip((A::spec_deserialize(start.skip((0nat) as int)).unwrap().1) as int)).unwrap().1) as int)).unwrap().1 + D::spec_deserialize(start.skip((A::spec_deserialize(start.skip((0nat) as int)).unwrap().1 + B::spec_deserialize(start.skip((A::spec_deserialize(start.skip((0nat) as int)).unwrap().1) as int)).unwrap().1 + C::spec_deserialize(start.skip((A::spec_deserialize(start.skip((0nat) as int)).unwrap().1 + B::spec_deserialize(start.skip((A::spec_deserialize(start.skip((0nat) as int)).unwrap().1) as int)).unwrap().1) as int)).unwrap().1) as int)).unwrap().1 + E::spec_deserialize(start.skip((A::spec_deserialize(start.skip((0nat) as int)).unwrap().1 + B::spec_deserialize(start.skip((A::spec_deserialize(start.skip((0nat) as int)).unwrap().1) as int)).unwrap().1 + C::spec_deserialize(start.skip((A::spec_deserialize(start.skip((0nat) as int)).unwrap().1 + B::spec_deserialize(start.skip((A::spec_deserialize(start.skip((0nat) as int)).unwrap().1) as int)).unwrap().1) as int)).unwrap().1 + D::spec_deserialize(start.skip((A::spec_deserialize(start.skip((0nat) as int)).unwrap().1 + B::spec_deserialize(start.skip((A::spec_deserialize(start.skip((0nat) as int)).unwrap().1) as int)).unwrap().1 + C::spec_deserialize(start.skip((A::spec_deserialize(start.skip((0nat) as int)).unwrap().1 + B::spec_deserialize(start.skip((A::spec_deserialize(start.skip((0nat) as int)).unwrap().1) as int)).unwrap().1) as int)).unwrap().1) as int)).unwrap().1) as int)).unwrap().1) as int)).unwrap().1) as int)).unwrap().1) as int)).unwrap().1 + I::spec_deserialize(start.skip((A::spec_deserialize(start.skip((0nat) as int)).unwrap().1 + B::spec_deserialize(start.skip((A::spec_deserialize(start.skip((0nat) as int)).unwrap().1) as int)).unwrap().1 + C::spec_deserialize(start.skip((A::spec_deserialize(start.skip((0nat) as int)).unwrap().1 + B::spec_deserialize(start.skip((A::spec_deserialize(start.skip((0nat) as int)).unwrap().1) as int)).unwrap().1) as int)).unwrap().1 + D::spec_deserialize(start.skip((A::spec_deserialize(start.skip((0nat) as int)).unwrap().1 + B::spec_deserialize(start.skip((A::spec_deserialize(start.skip((0nat) as int)).unwrap().1) as int)).unwrap().1 + C::spec_deserialize(start.skip((A::spec_deserialize(start.skip((0nat) as int)).unwrap().1 + B::spec_deserialize(start.skip((A::spec_deserialize(start.skip((0nat) as int)).unwrap().1) as int)).unwrap().1) as int)).unwrap().1) as int)).unwrap().1 + E::spec_deserialize(start.skip((A::spec_deserialize(start.skip((0nat) as int)).unwrap().1 + B::spec_deserialize(start.skip((A::spec_deserialize(start.skip((0nat) as int)).unwrap().1) as int)).unwrap().1 + C::spec_deserialize(start.skip((A::spec_deserialize(start.skip((0nat) as int)).unwrap().1 + B::spec_deserialize(start.skip((A::spec_deserialize(start.skip((0nat) as int)).unwrap().1) as int)).unwrap().1) as int)).unwrap().1 + D::spec_deserialize(start.skip((A::spec_deserialize(start.skip((0nat) as int)).unwrap().1 + B::spec_deserialize(start.skip((A::spec_deserialize(start.skip((0nat) as int)).unwrap().1) as int)).unwrap().1 + C::spec_deserialize(start.skip((A::spec_deserialize(start.skip((0nat) as int)).unwrap().1 + B::spec_deserialize(start.skip((A::spec_deserialize(start.skip((0nat) as int)).unwrap().1) as int)).unwrap().1) as int)).unwrap().1) as int)).unwrap().1) as int)).unwrap().1 + F::spec_deserialize(start.skip((A::spec_deserialize(start.skip((0nat) as int)).unwrap().1 + B::spec_deserialize(start.skip((A::spec_deserialize(start.skip((0nat) as int)).unwrap().1) as int)).unwrap().1 + C::spec_deserialize(start.skip((A::spec_deserialize(start.skip((0nat) as int)).unwrap().1 + B::spec_deserialize(start.skip((A::spec_deserialize(start.skip((0nat) as int)).unwrap().1) as int)).unwrap().1) as int)).unwrap().1 + D::spec_deserialize(start.skip((A::spec_deserialize(start.skip((0nat) as int)).unwrap().1 + B::spec_deserialize(start.skip((A::spec_deserialize(start.skip((0nat) as int)).unwrap().1) as int)).unwrap().1 + C::spec_deserialize(start.skip((A::spec_deserialize(start.skip((0nat) as int)).unwrap().1 + B::spec_deserialize(start.skip((A::spec_deserialize(start.skip((0nat) as int)).unwrap().1) as int)).unwrap().1) as int)).unwrap().1) as int)).unwrap().1 + E::spec_deserialize(start.skip((A::spec_deserialize(start.skip((0nat) as int)).unwrap().1 + B::spec_deserialize(start.skip((A::spec_deserialize(start.skip((0nat) as int)).unwrap().1) as int)).unwrap().1 + C::spec_deserialize(start.skip((A::spec_deserialize(start.skip((0nat) as int)).unwrap().1 + B::spec_deserialize(start.skip((A::spec_deserialize(start.skip((0nat) as int)).unwrap().1) as int)).unwrap().1) as int)).unwrap().1 + D::spec_deserialize(start.skip((A::spec_deserialize(start.skip((0nat) as int)).unwrap().1 + B::spec_deserialize(start.skip((A::spec_deserialize(start.skip((0nat) as int)).unwrap().1) as int)).unwrap().1 + C::spec_deserialize(start.skip((A::spec_deserialize(start.skip((0nat) as int)).unwrap().1 + B::spec_deserialize(start.skip((A::spec_deserialize(start.skip((0nat) as int)).unwrap().1) as int)).unwrap().1) as int)).unwrap().1) as int)).unwrap().1) as int)).unwrap().1) as int)).unwrap().1 + G::spec_deserialize(start.skip((A::spec_deserialize(start.skip((0nat) as int)).unwrap().1 + B::spec_deserialize(start.skip((A::spec_deserialize(start.skip((0nat) as int)).unwrap().1) as int)).unwrap().1 + C::spec_deserialize(start.skip((A::spec_deserialize(start.skip((0nat) as int)).unwrap().1 + B::spec_deserialize(start.skip((A::spec_deserialize(start.skip((0nat) as int)).unwrap().1) as int)).unwrap().1) as int)).unwrap().1 + D::spec_deserialize(start.skip((A::spec_deserialize(start.skip((0nat) as int)).unwrap().1 + B::spec_deserialize(start.skip((A::spec_deserialize(start.skip((0nat) as int)).unwrap().1) as int)).unwrap().1 + C::spec_deserialize(start.skip((A::spec_deserialize(start.skip((0nat) as int)).unwrap().1 + B::spec_deserialize(start.skip((A::spec_deserialize(start.skip((0nat) as int)).unwrap().1) as int)).unwrap().1) as int)).unwrap().1) as int)).unwrap().1 + E::spec_deserialize(start.skip((A::spec_deserialize(start.skip((0nat) as int)).unwrap().1 + B::spec_deserialize(start.skip((A::spec_deserialize(start.skip((0nat) as int)).unwrap().1) as int)).unwrap().1 + C::spec_deserialize(start.skip((A::spec_deserialize(start.skip((0nat) as int)).unwrap().1 + B::spec_deserialize(start.skip((A::spec_deserialize(start.skip((0nat) as int)).unwrap().1) as int)).unwrap().1) as int)).unwrap().1 + D::spec_deserialize(start.skip((A::spec_deserialize(start.skip((0nat) as int)).unwrap().1 + B::spec_deserialize(start.skip((A::spec_deserialize(start.skip((0nat) as int)).unwrap().1) as int)).unwrap().1 + C::spec_deserialize(start.skip((A::spec_deserialize(start.skip((0nat) as int)).unwrap().1 + B::spec_deserialize(start.skip((A::spec_deserialize(start.skip((0nat) as int)).unwrap().1) as int)).unwrap().1) as int)).unwrap().1) as int)).unwrap().1) as int)).unwrap().1 + F::spec_deserialize(start.skip((A::spec_deserialize(start.skip((0nat) as int)).unwrap().1 + B::spec_deserialize(start.skip((A::spec_deserialize(start.skip((0nat) as int)).unwrap().1) as int)).unwrap().1 + C::spec_deserialize(start.skip((A::spec_deserialize(start.skip((0nat) as int)).unwrap().1 + B::spec_deserialize(start.skip((A::spec_deserialize(start.skip((0nat) as int)).unwrap().1) as int)).unwrap().1) as int)).unwrap().1 + D::spec_deserialize(start.skip((A::spec_deserialize(start.skip((0nat) as int)).unwrap().1 + B::spec_deserialize(start.skip((A::spec_deserialize(start.skip((0nat) as int)).unwrap().1) as int)).unwrap().1 + C::spec_deserialize(start.skip((A::spec_deserialize(start.skip((0nat) as int)).unwrap().1 + B::spec_deserialize(start.skip((A::spec_deserialize(start.skip((0nat) as int)).unwrap().1) as int)).unwrap().1) as int)).unwrap().1) as int)).unwrap().1 + E::spec_deserialize(start.skip((A::spec_deserialize(start.skip((0nat) as int)).unwrap().1 + B::spec_deserialize(start.skip((A::spec_deserialize(start.skip((0nat) as int)).unwrap().1) as int)).unwrap().1 + C::spec_deserialize(start.skip((A::spec_deserialize(start.skip((0nat) as int)).unwrap().1 + B::spec_deserialize(start.skip((A::spec_deserialize(start.skip((0nat) as int)).unwrap().1) as int)).unwrap().1) as int)).unwrap().1 + D::spec_deserialize(start.skip((A::spec_deserialize(start.skip((0nat) as int)).unwrap().1 + B::spec_deserialize(start.skip((A::spec_deserialize(start.skip((0nat) as int)).unwrap().1) as int)).unwrap().1 + C::spec_deserialize(start.skip((A::spec_deserialize(start.skip((0nat) as int)).unwrap().1 + B::spec_deserialize(start.skip((A::spec_deserialize(start.skip((0nat) as int)).unwrap().1) as int)).unwrap().1) as int)).unwrap().1) as int)).unwrap().1) as int)).unwrap().1) as int)).unwrap().1) as int)).unwrap().1 + H::spec_deserialize(start.skip((A::spec_deserialize(start.skip((0nat) as int)).unwrap().1 + B::spec_deserialize(start.skip((A::spec_deserialize(start.skip((0nat) as int)).unwrap().1) as int)).unwrap().1 + C::spec_deserialize(start.skip((A::spec_deserialize(start.skip((0nat) as int)).unwrap().1 + B::spec_deserialize(start.skip((A::spec_deserialize(start.skip((0nat) as int)).unwrap().1) as int)).unwrap().1) as int)).unwrap().1 + D::spec_deserialize(start.skip((A::spec_deserialize(start.skip((0nat) as int)).unwrap().1 + B::spec_deserialize(start.skip((A::spec_deserialize(start.skip((0nat) as int)).unwrap().1) as int)).unwrap().1 + C::spec_deserialize(start.skip((A::spec_deserialize(start.skip((0nat) as int)).unwrap().1 + B::spec_deserialize(start.skip((A::spec_deserialize(start.skip((0nat) as int)).unwrap().1) as int)).unwrap().1) as int)).unwrap().1) as int)).unwrap().1 + E::spec_deserialize(start.skip((A::spec_deserialize(start.skip((0nat) as int)).unwrap().1 + B::spec_deserialize(start.skip((A::spec_deserialize(start.skip((0nat) as int)).unwrap().1) as int)).unwrap().1 + C::spec_deserialize(start.skip((A::spec_deserialize(start.skip((0nat) as int)).unwrap().1 + B::spec_deserialize(start.skip((A::spec_deserialize(start.skip((0nat) as int)).unwrap().1) as int)).unwrap().1) as int)).unwrap().1 + D::spec_deserialize(start.skip((A::spec_deserialize(start.skip((0nat) as int)).unwrap().1 + B::spec_deserialize(start.skip((A::spec_deserialize(start.skip((0nat) as int)).unwrap().1) as int)).unwrap().1 + C::spec_deserialize(start.skip((A::spec_deserialize(start.skip((0nat) as int)).unwrap().1 + B::spec_deserialize(start.skip((A::spec_deserialize(start.skip((0nat) as int)).unwrap().1) as int)).unwrap().1) as int)).unwrap().1) as int)).unwrap().1) as int)).unwrap().1 + F::spec_deserialize(start.skip((A::spec_deserialize(start.skip((0nat) as int)).unwrap().1 + B::spec_deserialize(start.skip((A::spec_deserialize(start.skip((0nat) as int)).unwrap().1) as int)).unwrap().1 + C::spec_deserialize(start.skip((A::spec_deserialize(start.skip((0nat) as int)).unwrap().1 + B::spec_deserialize(start.skip((A::spec_deserialize(start.skip((0nat) as int)).unwrap().1) as int)).unwrap().1) as int)).unwrap().1 + D::spec_deserialize(start.skip((A::spec_deserialize(start.skip((0nat) as int)).unwrap().1 + B::spec_deserialize(start.skip((A::spec_deserialize(start.skip((0nat) as int)).unwrap().1) as int)).unwrap().1 + C::spec_deserialize(start.skip((A::spec_deserialize(start.skip((0nat) as int)).unwrap().1 + B::spec_deserialize(start.skip((A::spec_deserialize(start.skip((0nat) as int)).unwrap().1) as int)).unwrap().1) as int)).unwrap().1) as int)).unwrap().1 + E::spec_deserialize(start.skip((A::spec_deserialize(start.skip((0nat) as int)).unwrap().1 + B::spec_deserialize(start.skip((A::spec_deserialize(start.skip((0nat) as int)).unwrap().1) as int)).unwrap().1 + C::spec_deserialize(start.skip((A::spec_deserialize(start.skip((0nat) as int)).unwrap().1 + B::spec_deserialize(start.skip((A::spec_deserialize(start.skip((0nat) as int)).unwrap().1) as int)).unwrap().1) as int)).unwrap().1 + D::spec_deserialize(start.skip((A::spec_deserialize(start.skip((0nat) as int)).unwrap().1 + B::spec_deserialize(start.skip((A::spec_deserialize(start.skip((0nat) as int)).unwrap().1) as int)).unwrap().1 + C::spec_deserialize(start.skip((A::spec_deserialize(start.skip((0nat) as int)).unwrap().1 + B::spec_deserialize(start.skip((A::spec_deserialize(start.skip((0nat) as int)).unwrap().1) as int)).unwrap().1) as int)).unwrap().1) as int)).unwrap().1) as int)).unwrap().1) as int)).unwrap().1 + G::spec_deserialize(start.skip((A::spec_deserialize(start.skip((0nat) as int)).unwrap().1 + B::spec_deserialize(start.skip((A::spec_deserialize(start.skip((0nat) as int)).unwrap().1) as int)).unwrap().1 + C::spec_deserialize(start.skip((A::spec_deserialize(start.skip((0nat) as int)).unwrap().1 + B::spec_deserialize(start.skip((A::spec_deserialize(start.skip((0nat) as int)).unwrap().1) as int)).unwrap().1) as int)).unwrap().1 + D::spec_deserialize(start.skip((A::spec_deserialize(start.skip((0nat) as int)).unwrap().1 + B::spec_deserialize(start.skip((A::spec_deserialize(start.skip((0nat) as int)).unwrap().1) as int)).unwrap().1 + C::spec_deserialize(start.skip((A::spec_deserialize(start.skip((0nat) as int)).unwrap().1 + B::spec_deserialize(start.skip((A::spec_deserialize(start.skip((0nat) as int)).unwrap().1) as int)).unwrap().1) as int)).unwrap().1) as int)).unwrap().1 + E::spec_deserialize(start.skip((A::spec_deserialize(start.skip((0nat) as int)).unwrap().1 + B::spec_deserialize(start.skip((A::spec_deserialize(start.skip((0nat) as int)).unwrap().1) as int)).unwrap().1 + C::spec_deserialize(start.skip((A::spec_deserialize(start.skip((0nat) as int)).unwrap().1 + B::spec_deserialize(start.skip((A::spec_deserialize(start.skip((0nat) as int)).unwrap().1) as int)).unwrap().1) as int)).unwrap().1 + D::spec_deserialize(start.skip((A::spec_deserialize(start.skip((0nat) as int)).unwrap().1 + B::spec_deserialize(start.skip((A::spec_deserialize(start.skip((0nat) as int)).unwrap().1) as int)).unwrap().1 + C::spec_deserialize(start.skip((A::spec_deserialize(start.skip((0nat) as int)).unwrap().1 + B::spec_deserialize(start.skip((A::spec_deserialize(start.skip((0nat) as int)).unwrap().1) as int)).unwrap().1) as int)).unwrap().1) as int)).unwrap().1) as int)).unwrap().1 + F::spec_deserialize(start.skip((A::spec_deserialize(start.skip((0nat) as int)).unwrap().1 + B::spec_deserialize(start.skip((A::spec_deserialize(start.skip((0nat) as int)).unwrap().1) as int)).unwrap().1 + C::spec_deserialize(start.skip((A::spec_deserialize(start.skip((0nat) as int)).unwrap().1 + B::spec_deserialize(start.skip((A::spec_deserialize(start.skip((0nat) as int)).unwrap().1) as int)).unwrap().1) as int)).unwrap().1 + D::spec_deserialize(start.skip((A::spec_deserialize(start.skip((0nat) as int)).unwrap().1 + B::spec_deserialize(start.skip((A::spec_deserialize(start.skip((0nat) as int)).unwrap().1) as int)).unwrap().1 + C::spec_deserialize(start.skip((A::spec_deserialize(start.skip((0nat) as int)).unwrap().1 + B::spec_deserialize(start.skip((A::spec_deserialize(start.skip((0nat) as int)).unwrap().1) as int)).unwrap().1) as int)).unwrap().1) as int)).unwrap().1 + E::spec_deserialize(start.skip((A::spec_deserialize(start.skip((0nat) as int)).unwrap().1 + B::spec_deserialize(start.skip((A::spec_deserialize(start.skip((0nat) as int)).unwrap().1) as int)).unwrap().1 + C::spec_deserialize(start.skip((A::spec_deserialize(start.skip((0nat) as int)).unwrap().1 + B::spec_deserialize(start.skip((A::spec_deserialize(start.skip((0nat) as int)).unwrap().1) as int)).unwrap().1) as int)).unwrap().1 + D::spec_deserialize(start.skip((A::spec_deserialize(start.skip((0nat) as int)).unwrap().1 + B::spec_deserialize(start.skip((A::spec_deserialize(start.skip((0nat) as int)).unwrap().1) as int)).unwrap().1 + C::spec_deserialize(start.skip((A::spec_deserialize(start.skip((0nat) as int)).unwrap().1 + B::spec_deserialize(start.skip((A::spec_deserialize(start.skip((0nat) as int)).unwrap().1) as int)).unwrap().1) as int)).unwrap().1) as int)).unwrap().1) as int)).unwrap().1) as int)).unwrap().1) as int)).unwrap().1) as int)).unwrap().1) as int)).unwrap().1))?;
        let x10 = deserialize_next::<K>(buffer, Ghost(start), Ghost(A::spec_deserialize(start.skip((0nat) as int)).unwrap().1 + B::spec_deserialize(start.skip((A::spec_deserialize(start.skip((0nat) as int)).unwrap().1) as int)).unwrap().1 + C::spec_deserialize(start.skip((A::spec_deserialize(start.skip((0nat) as int)).unwrap().1 + B::spec_deserialize(start.skip((A::spec_deserialize(start.skip((0nat) as int)).unwrap().1) as int)).unwrap().1) as int)).unwrap().1 + D::spec_deserialize(start.skip((A::spec_deserialize(start.skip((0nat) as int)).unwrap().1 + B::spec_deserialize(start.skip((A::spec_deserialize(start.skip((0nat) as int)).unwrap().1) as int)).unwrap().1 + C::spec_deserialize(start.skip((A::spec_deserialize(start.skip((0nat) as int)).unwrap().1 + B::spec_deserialize(start.skip((A::spec_deserialize(start.skip((0nat) as int)).unwrap().1) as int)).unwrap().1) as int)).unwrap().1) as int)).unwrap().1 + E::spec_deserialize(start.skip((A::spec_deserialize(start.skip((0nat) as int)).unwrap().1 + B::spec_deserialize(start.skip((A::spec_deserialize(start.skip((0nat) as int)).unwrap().1) as int)).unwrap().1 + C::spec_deserialize(start.skip((A::spec_deserialize(start.skip((0nat) as int)).unwrap().1 + B::spec_deserialize(start.skip((A::spec_deserialize(start.skip((0nat) as int)).unwrap().1) as int)).unwrap().1) as int)).unwrap().1 + D::spec_deserialize(start.skip((A::spec_deserialize(start.skip((0nat) as int)).unwrap().1 + B::spec_deserialize(start.skip((A::spec_deserialize(start.skip((0nat) as int)).unwrap().1) as int)).unwrap().1 + C::spec_deserialize(start.skip((A::spec_deserialize(start.skip((0nat) as int)).unwrap().1 + B::spec_deserialize(start.skip((A::spec_deserialize(start.skip((0nat) as int)).unwrap().1) as int)).unwrap().1) as int)).unwrap().1) as int)).unwrap().1) as int)).unwrap().1 + F::spec_deserialize(start.skip((A::spec_deserialize(start.skip((0nat) as int)).unwrap().1 + B::spec_deserialize(start.skip((A::spec_deserialize(start.skip((0nat) as int)).unwrap().1) as int)).unwrap().1 + C::spec_deserialize(start.skip((A::spec_deserialize(start.skip((0nat) as int)).unwrap().1 + B::spec_deserialize(start.skip((A::spec_deserialize(start.skip((0nat) as int)).unwrap().1) as int)).unwrap().1) as int)).unwrap().1 + D::spec_deserialize(start.skip((A::spec_deserialize(start.skip((0nat) as int)).unwrap().1 + B::spec_deserialize(start.skip((A::spec_deserialize(start.skip((0nat) as int)).unwrap().1) as int)).unwrap().1 + C::spec_deserialize(start.skip((A::spec_deserialize(start.skip((0nat) as int)).unwrap().1 + B::spec_deserialize(start.skip((A::spec_deserialize(start.skip((0nat) as int)).unwrap().1) as int)).unwrap().1) as int)).unwrap().1) as int)).unwrap().1 + E::spec_deserialize(start.skip((A::spec_deserialize(start.skip((0nat) as int)).unwrap().1 + B::spec_deserialize(start.skip((A::spec_deserialize(start.skip((0nat) as int)).unwrap().1) as int)).unwrap().1 + C::spec_deserialize(start.skip((A::spec_deserialize(start.skip((0nat) as int)).unwrap().1 + B::spec_deserialize(start.skip((A::spec_deserialize(start.skip((0nat) as int)).unwrap().1) as int)).unwrap().1) as int)).unwrap().1 + D::spec_deserialize(start.skip((A::spec_deserialize(start.skip((0nat) as int)).unwrap().1 + B::spec_deserialize(start.skip((A::spec_deserialize(start.skip((0nat) as int)).unwrap().1) as int)).unwrap().1 + C::spec_deserialize(start.skip((A::spec_deserialize(start.skip((0nat) as int)).unwrap().1 + B::spec_deserialize(start.skip((A::spec_deserialize(start.skip((0nat) as int)).unwrap().1) as int)).unwrap().1) as int)).unwrap().1) as int)).unwrap().1) as int)).unwrap().1) as int)).unwrap().1 + G::spec_deserialize(start.skip((A::spec_deserialize(start.skip((0nat) as int)).unwrap().1 + B::spec_deserialize(start.skip((A::spec_deserialize(start.skip((0nat) as int)).unwrap().1) as int)).unwrap().1 + C::spec_deserialize(start.skip((A::spec_deserialize(start.skip((0nat) as int)).unwrap().1 + B::spec_deserialize(start.skip((A::spec_deserialize(start.skip((0nat) as int)).unwrap().1) as int)).unwrap().1) as int)).unwrap().1 + D::spec_deserialize(start.skip((A::spec_deserialize(start.skip((0nat) as int)).unwrap().1 + B::spec_deserialize(start.skip((A::spec_deserialize(start.skip((0nat) as int)).unwrap().1) as int)).unwrap().1 + C::spec_deserialize(start.skip((A::spec_deserialize(start.skip((0nat) as int)).unwrap().1 + B::spec_deserialize(start.skip((A::spec_deserialize(start.skip((0nat) as int)).unwrap().1) as int)).unwrap().1) as int)).unwrap().1) as int)).unwrap().1 + E::spec_deserialize(start.skip((A::spec_deserialize(start.skip((0nat) as int)).unwrap().1 + B::spec_deserialize(start.skip((A::spec_deserialize(start.skip((0nat) as int)).unwrap().1) as int)).unwrap().1 + C::spec_deserialize(start.skip((A::spec_deserialize(start.skip((0nat) as int)).unwrap().1 + B::spec_deserialize(start.skip((A::spec_deserialize(start.skip((0nat) as int)).unwrap().1) as int)).unwrap().1) as int)).unwrap().1 + D::spec_deserialize(start.skip((A::spec_deserialize(start.skip((0nat) as int)).unwrap().1 + B::spec_deserialize(start.skip((A::spec_deserialize(start.skip((0nat) as int)).unwrap().1) as int)).unwrap().1 + C::spec_deserialize(start.skip((A::spec_deserialize(start.skip((0nat) as int)).unwrap().1 + B::spec_deserialize(start.skip((A::spec_deserialize(start.skip((0nat) as int)).unwrap().1) as int)).unwrap().1) as int)).unwrap().1) as int)).unwrap().1) as int)).unwrap().1 + F::spec_deserialize(start.skip((A::spec_deserialize(start.skip((0nat) as int)).unwrap().1 + B::spec_deserialize(start.skip((A::spec_deserialize(start.skip((0nat) as int)).unwrap().1) as int)).unwrap().1 + C::spec_deserialize(start.skip((A::spec_deserialize(start.skip((0nat) as int)).unwrap().1 + B::spec_deserialize(start.skip((A::spec_deserialize(start.skip((0nat) as int)).unwrap().1) as int)).unwrap().1) as int)).unwrap().1 + D::spec_deserialize(start.skip((A::spec_deserialize(start.skip((0nat) as int)).unwrap().1 + B::spec_deserialize(start.skip((A::spec_deserialize(start.skip((0nat) as int)).unwrap().1) as int)).unwrap().1 + C::spec_deserialize(start.skip((A::spec_deserialize(start.skip((0nat) as int)).unwrap().1 + B::spec_deserialize(start.skip((A::spec_deserialize(start.skip((0nat) as int)).unwrap().1) as int)).unwrap().1) as int)).unwrap().1) as int)).unwrap().1 + E::spec_deserialize(start.skip((A::spec_deserialize(start.skip((0nat) as int)).unwrap().1 + B::spec_deserialize(start.skip((A::spec_deserialize(start.skip((0nat) as int)).unwrap().1) as int)).unwrap().1 + C::spec_deserialize(start.skip((A::spec_deserialize(start.skip((0nat) as int)).unwrap().1 + B::spec_deserialize(start.skip((A::spec_deserialize(start.skip((0nat) as int)).unwrap().1) as int)).unwrap().1) as int)).unwrap().1 + D::spec_deserialize(start.skip((A::spec_deserialize(start.skip((0nat) as int)).unwrap().1 + B::spec_deserialize(start.skip((A::spec_deserialize(start.skip((0nat) as int)).unwrap().1) as int)).unwrap().1 + C::spec_deserialize(start.skip((A::spec_deserialize(start.skip((0nat) as int)).unwrap().1 + B::spec_deserialize(start.skip((A::spec_deserialize(start.skip((0nat) as int)).unwrap().1) as int)).unwrap().1) as int)).unwrap().1) as int)).unwrap().1) as int)).unwrap().1) as int)).unwrap().1) as int)).unwrap().1 + H::spec_deserialize(start.skip((A::spec_deserialize(start.skip((0nat) as int)).unwrap().1 + B::spec_deserialize(start.skip((A::spec_deserialize(start.skip((0nat) as int)).unwrap().1) as int)).unwrap().1 + C::spec_deserialize(start.skip((A::spec_deserialize(start.skip((0nat) as int)).unwrap().1 + B::spec_deserialize(start.skip((A::spec_deserialize(start.skip((0nat) as int)).unwrap().1) as int)).unwrap().1) as int)).unwrap().1 + D::spec_deserialize(start.skip((A::spec_deserialize(start.skip((0nat) as int)).unwrap().1 + B::spec_deserialize(start.skip((A::spec_deserialize(start.skip((0nat) as int)).unwrap().1) as int)).unwrap().1 + C::spec_deserialize(start.skip((A::spec_deserialize(start.skip((0nat) as int)).unwrap().1 + B::spec_deserialize(start.skip((A::spec_deserialize(start.skip((0nat) as int)).unwrap().1) as int)).unwrap().1) as int)).unwrap().1) as int)).unwrap().1 + E::spec_deserialize(start.skip((A::spec_deserialize(start.skip((0nat) as int)).unwrap().1 + B::spec_deserialize(start.skip((A::spec_deserialize(start.skip((0nat) as int)).unwrap().1) as int)).unwrap().1 + C::spec_deserialize(start.skip((A::spec_deserialize(start.skip((0nat) as int)).unwrap().1 + B::spec_deserialize(start.skip((A::spec_deserialize(start.skip((0nat) as int)).unwrap().1) as int)).unwrap().1) as int)).unwrap().1 + D::spec_deserialize(start.skip((A::spec_deserialize(start.skip((0nat) as int)).unwrap().1 + B::spec_deserialize(start.skip((A::spec_deserialize(start.skip((0nat) as int)).unwrap().1) as int)).unwrap().1 + C::spec_deserialize(start.skip((A::spec_deserialize(start.skip((0nat) as int)).unwrap().1 + B::spec_deserialize(start.skip((A::spec_deserialize(start.skip((0nat) as int)).unwrap().1) as int)).unwrap().1) as int)).unwrap().1) as int)).unwrap().1) as int)).unwrap().1 + F::spec_deserialize(start.skip((A::spec_deserialize(start.skip((0nat) as int)).unwrap().1 + B::spec_deserialize(start.skip((A::spec_deserialize(start.skip((0nat) as int)).unwrap().1) as int)).unwrap().1 + C::spec_deserialize(start.skip((A::spec_deserialize(start.skip((0nat) as int)).unwrap().1 + B::spec_deserialize(start.skip((A::spec_deserialize(start.skip((0nat) as int)).unwrap().1) as int)).unwrap().1) as int)).unwrap().1 + D::spec_deserialize(start.skip((A::spec_deserialize(start.skip((0nat) as int)).unwrap().1 + B::spec_deserialize(start.skip((A::spec_deserialize(start.skip((0nat) as int)).unwrap().1) as int)).unwrap().1 + C::spec_deserialize(start.skip((A::spec_deserialize(start.skip((0nat) as int)).unwrap().1 + B::spec_deserialize(start.skip((A::spec_deserialize(start.skip((0nat) as int)).unwrap().1) as int)).unwrap().1) as int)).unwrap().1) as int)).unwrap().1 + E::spec_deserialize(start.skip((A::spec_deserialize(start.skip((0nat) as int)).unwrap().1 + B::spec_deserialize(start.skip((A::spec_deserialize(start.skip((0nat) as int)).unwrap().1) as int)).unwrap().1 + C::spec_deserialize(start.skip((A::spec_deserialize(start.skip((0nat) as int)).unwrap().1 + B::spec_deserialize(start.skip((A::spec_deserialize(start.skip((0nat) as int)).unwrap().1) as int)).unwrap().1) as int)).unwrap().1 + D::spec_deserialize(start.skip((A::spec_deserialize(start.skip((0nat) as int)).unwrap().1 + B::spec_deserialize(start.skip((A::spec_deserialize(start.skip((0nat) as int)).unwrap().1) as int)).unwrap().1 + C::spec_deserialize(start.skip((A::spec_deserialize(start.skip((0nat) as int)).unwrap().1 + B::spec_deserialize(start.skip((A::spec_deserialize(start.skip((0nat) as int)).unwrap().1) as int)).unwrap().1) as int)).unwrap().1) as int)).unwrap().1) as int)).unwrap().1) as int)).unwrap().1 + G::spec_deserialize(start.skip((A::spec_deserialize(start.skip((0nat) as int)).unwrap().1 + B::spec_deserialize(start.skip((A::spec_deserialize(start.skip((0nat) as int)).unwrap().1) as int)).unwrap().1 + C::spec_deserialize(start.skip((A::spec_deserialize(start.skip((0nat) as int)).unwrap().1 + B::spec_deserialize(start.skip((A::spec_deserialize(start.skip((0nat) as int)).unwrap().1) as int)).unwrap().1) as int)).unwrap().1 + D::spec_deserialize(start.skip((A::spec_deserialize(start.skip((0nat) as int)).unwrap().1 + B::spec_deserialize(start.skip((A::spec_deserialize(start.skip((0nat) as int)).unwrap().1) as int)).unwrap().1 + C::spec_deserialize(start.skip((A::spec_deserialize(start.skip((0nat) as int)).unwrap().1 + B::spec_deserialize(start.skip((A::spec_deserialize(start.skip((0nat) as int)).unwrap().1) as int)).unwrap().1) as int)).unwrap().1) as int)).unwrap().1 + E::spec_deserialize(start.skip((A::spec_deserialize(start.skip((0nat) as int)).unwrap().1 + B::spec_deserialize(start.skip((A::spec_deserialize(start.skip((0nat) as int)).unwrap().1) as int)).unwrap().1 + C::spec_deserialize(start.skip((A::spec_deserialize(start.skip((0nat) as int)).unwrap().1 + B::spec_deserialize(start.skip((A::spec_deserialize(start.skip((0nat) as int)).unwrap().1) as int)).unwrap().1) as int)).unwrap().1 + D::spec_deserialize(start.skip((A::spec_deserialize(start.skip((0nat) as int)).unwrap().1 + B::spec_deserialize(start.skip((A::spec_deserialize(start.skip((0nat) as int)).unwrap().1) as int)).unwrap().1 + C::spec_deserialize(start.skip((A::spec_deserialize(start.skip((0nat) as int)).unwrap().1 + B::spec_deserialize(start.skip((A::spec_deserialize(start.skip((0nat) as int)).unwrap().1) as int)).unwrap().1) as int)).unwrap().1) as int)).unwrap().1) as int)).unwrap().1 + F::spec_deserialize(start.skip((A::spec_deserialize(start.skip((0nat) as int)).unwrap().1 + B::spec_deserialize(start.skip((A::spec_deserialize(start.skip((0nat) as int)).unwrap().1) as int)).unwrap().1 + C::spec_deserialize(start.skip((A::spec_deserialize(start.skip((0nat) as int)).unwrap().1 + B::spec_deserialize(start.skip((A::spec_deserialize(start.skip((0nat) as int)).unwrap().1) as int)).unwrap().1) as int)).unwrap().1 + D::spec_deserialize(start.skip((A::spec_deserialize(start.skip((0nat) as int)).unwrap().1 + B::spec_deserialize(start.skip((A::spec_deserialize(start.skip((0nat) as int)).unwrap().1) as int)).unwrap().1 + C::spec_deserialize(start.skip((A::spec_deserialize(start.skip((0nat) as int)).unwrap().1 + B::spec_deserialize(start.skip((A::spec_deserialize(start.skip((0nat) as int)).unwrap().1) as int)).unwrap().1) as int)).unwrap().1) as int)).unwrap().1 + E::spec_deserialize(start.skip((A::spec_deserialize(start.skip((0nat) as int)).unwrap().1 + B::spec_deserialize(start.skip((A::spec_deserialize(start.skip((0nat) as int)).unwrap().1) as int)).unwrap().1 + C::spec_deserialize(start.skip((A::spec_deserialize(start.skip((0nat) as int)).unwrap().1 + B::spec_deserialize(start.skip((A::spec_deserialize(start.skip((0nat) as int)).unwrap().1) as int)).unwrap().1) as int)).unwrap().1 + D::spec_deserialize(start.skip((A::spec_deserialize(start.skip((0nat) as int)).unwrap().1 + B::spec_deserialize(start.skip((A::spec_deserialize(start.skip((0nat) as int)).unwrap().1) as int)).unwrap().1 + C::spec_deserialize(start.skip((A::spec_deserialize(start.skip((0nat) as int)).unwrap().1 + B::spec_deserialize(start.skip((A::spec_deserialize(start.skip((0nat) as int)).unwrap().1) as int)).unwrap().1) as int)).unwrap().1) as int)).unwrap().1) as int)).unwrap().1) as int)).unwrap().1) as int)).unwrap().1) as int)).unwrap().1 + I::spec_deserialize(start.skip((A::spec_deserialize(start.skip((0nat) as int)).unwrap().1 + B::spec_deserialize(start.skip((A::spec_deserialize(start.skip((0nat) as int)).unwrap().1) as int)).unwrap().1 + C::spec_deserialize(start.skip((A::spec_deserialize(start.skip((0nat) as int)).unwrap().1 + B::spec_deserialize(start.skip((A::spec_deserialize(start.skip((0nat) as int)).unwrap().1) as int)).unwrap().1) as int)).unwrap().1 + D::spec_deserialize(start.skip((A::spec_deserialize(start.skip((0nat) as int)).unwrap().1 + B::spec_deserialize(start.skip((A::spec_deserialize(start.skip((0nat) as int)).unwrap().1) as int)).unwrap().1 + C::spec_deserialize(start.skip((A::spec_deserialize(start.skip((0nat) as int)).unwrap().1 + B::spec_deserialize(start.skip((A::spec_deserialize(start.skip((0nat) as int)).unwrap().1) as int)).unwrap().1) as int)).unwrap().1) as int)).unwrap().1 + E::spec_deserialize(start.skip((A::spec_deserialize(start.skip((0nat) as int)).unwrap().1 + B::spec_deserialize(start.skip((A::spec_deserialize(start.skip((0nat) as int)).unwrap().1) as int)).unwrap().1 + C::spec_deserialize(start.skip((A::spec_deserialize(start.skip((0nat) as int)).unwrap().1 + B::spec_deserialize(start.skip((A::spec_deserialize(start.skip((0nat) as int)).unwrap().1) as int)).unwrap().1) as int)).unwrap().1 + D::spec_deserialize(start.skip((A::spec_deserialize(start.skip((0nat) as int)).unwrap().1 + B::spec_deserialize(start.skip((A::spec_deserialize(start.skip((0nat) as int)).unwrap().1) as int)).unwrap().1 + C::spec_deserialize(start.skip((A::spec_deserialize(start.skip((0nat) as int)).unwrap().1 + B::spec_deserialize(start.skip((A::spec_deserialize(start.skip((0nat) as int)).unwrap().1) as int)).unwrap().1) as int)).unwrap().1) as int)).unwrap().1) as int)).unwrap().1 + F::spec_deserialize(start.skip((A::spec_deserialize(start.skip((0nat) as int)).unwrap().1 + B::spec_deserialize(start.skip((A::spec_deserialize(start.skip((0nat) as int)).unwrap().1) as int)).unwrap().1 + C::spec_deserialize(start.skip((A::spec_deserialize(start.skip((0nat) as int)).unwrap().1 + B::spec_deserialize(start.skip((A::spec_deserialize(start.skip((0nat) as int)).unwrap().1) as int)).unwrap().1) as int)).unwrap().1 + D::spec_deserialize(start.skip((A::spec_deserialize(start.skip((0nat) as int)).unwrap().1 + B::spec_deserialize(start.skip((A::spec_deserialize(start.skip((0nat) as int)).unwrap().1) as int)).unwrap().1 + C::spec_deserialize(start.skip((A::spec_deserialize(start.skip((0nat) as int)).unwrap().1 + B::spec_deserialize(start.skip((A::spec_deserialize(start.skip((0nat) as int)).unwrap().1) as int)).unwrap().1) as int)).unwrap().1) as int)).unwrap().1 + E::spec_deserialize(start.skip((A::spec_deserialize(start.skip((0nat) as int)).unwrap().1 + B::spec_deserialize(start.skip((A::spec_deserialize(start.skip((0nat) as int)).unwrap().1) as int)).unwrap().1 + C::spec_deserialize(start.skip((A::spec_deserialize(start.skip((0nat) as int)).unwrap().1 + B::spec_deserialize(start.skip((A::spec_deserialize(start.skip((0nat) as int)).unwrap().1) as int)).unwrap().1) as int)).unwrap().1 + D::spec_deserialize(start.skip((A::spec_deserialize(start.skip((0nat) as int)).unwrap().1 + B::spec_deserialize(start.skip((A::spec_deserialize(start.skip((0nat) as int)).unwrap().1) as int)).unwrap().1 + C::spec_deserialize(start.skip((A::spec_deserialize(start.skip((0nat) as int)).unwrap().1 + B::spec_deserialize(start.skip((A::spec_deserialize(start.skip((0nat) as int)).unwrap().1) as int)).unwrap().1) as int)).unwrap().1) as int)).unwrap().1) as int)).unwrap().1) as int)).unwrap().1 + G::spec_deserialize(start.skip((A::spec_deserialize(start.skip((0nat) as int)).unwrap().1 + B::spec_deserialize(start.skip((A::spec_deserialize(start.skip((0nat) as int)).unwrap().1) as int)).unwrap().1 + C::spec_deserialize(start.skip((A::spec_deserialize(start.skip((0nat) as int)).unwrap().1 + B::spec_deserialize(start.skip((A::spec_deserialize(start.skip((0nat) as int)).unwrap().1) as int)).unwrap().1) as int)).unwrap().1 + D::spec_deserialize(start.skip((A::spec_deserialize(start.skip((0nat) as int)).unwrap().1 + B::spec_deserialize(start.skip((A::spec_deserialize(start.skip((0nat) as int)).unwrap().1) as int)).unwrap().1 + C::spec_deserialize(start.skip((A::spec_deserialize(start.skip((0nat) as int)).unwrap().1 + B::spec_deserialize(start.skip((A::spec_deserialize(start.skip((0nat) as int)).unwrap().1) as int)).unwrap().1) as int)).unwrap().1) as int)).unwrap().1 + E::spec_deserialize(start.skip((A::spec_deserialize(start.skip((0nat) as int)).unwrap().1 + B::spec_deserialize(start.skip((A::spec_deserialize(start.skip((0nat) as int)).unwrap().1) as int)).unwrap().1 + C::spec_deserialize(start.skip((A::spec_deserialize(start.skip((0nat) as int)).unwrap().1 + B::spec_deserialize(start.skip((A::spec_deserialize(start.skip((0nat) as int)).unwrap().1) as int)).unwrap().1) as int)).unwrap().1 + D::spec_deserialize(start.skip((A::spec_deserialize(start.skip((0nat) as int)).unwrap().1 + B::spec_deserialize(start.skip((A::spec_deserialize(start.skip((0nat) as int)).unwrap().1) as int)).unwrap().1 + C::spec_deserialize(start.skip((A::spec_deserialize(start.skip((0nat) as int)).unwrap().1 + B::spec_deserialize(start.skip((A::spec_deserialize(start.skip((0nat) as int)).unwrap().1) as int)).unwrap().1) as int)).unwrap().1) as int)).unwrap().1) as int)).unwrap().1 + F::spec_deserialize(start.skip((A::spec_deserialize(start.skip((0nat) as int)).unwrap().1 + B::spec_deserialize(start.skip((A::spec_deserialize(start.skip((0nat) as int)).unwrap().1) as int)).unwrap().1 + C::spec_deserialize(start.skip((A::spec_deserialize(start.skip((0nat) as int)).unwrap().1 + B::spec_deserialize(start.skip((A::spec_deserialize(start.skip((0nat) as int)).unwrap().1) as int)).unwrap().1) as int)).unwrap().1 + D::spec_deserialize(start.skip((A::spec_deserialize(start.skip((0nat) as int)).unwrap().1 + B::spec_deserialize(start.skip((A::spec_deserialize(start.skip((0nat) as int)).unwrap().1) as int)).unwrap().1 + C::spec_deserialize(start.skip((A::spec_deserialize(start.skip((0nat) as int)).unwrap().1 + B::spec_deserialize(start.skip((A::spec_deserialize(start.skip((0nat) as int)).unwrap().1) as int)).unwrap().1) as int)).unwrap().1) as int)).unwrap().1 + E::spec_deserialize(start.skip((A::spec_deserialize(start.skip((0nat) as int)).unwrap().1 + B::spec_deserialize(start.skip((A::spec_deserialize(start.skip((0nat) as int)).unwrap().1) as int)).unwrap().1 + C::spec_deserialize(start.skip((A::spec_deserialize(start.skip((0nat) as int)).unwrap().1 + B::spec_deserialize(start.skip((A::spec_deserialize(start.skip((0nat) as int)).unwrap().1) as int)).unwrap().1) as int)).unwrap().1 + D::spec_deserialize(start.skip((A::spec_deserialize(start.skip((0nat) as int)).unwrap().1 + B::spec_deserialize(start.skip((A::spec_deserialize(start.skip((0nat) as int)).unwrap().1) as int)).unwrap().1 + C::spec_deserialize(start.skip((A::spec_deserialize(start.skip((0nat) as int)).unwrap().1 + B::spec_deserialize(start.skip((A::spec_deserialize(start.skip((0nat) as int)).unwrap().1) as int)).unwrap().1) as int)).unwrap().1) as int)).unwrap().1) as int)).unwrap().1) as int)).unwrap().1) as int)).unwrap().1 + H::spec_deserialize(start.skip((A::spec_deserialize(start.skip((0nat) as int)).unwrap().1 + B::spec_deserialize(start.skip((A::spec_deserialize(start.skip((0nat) as int)).unwrap().1) as int)).unwrap().1 + C::spec_deserialize(start.skip((A::spec_deserialize(start.skip((0nat) as int)).unwrap().1 + B::spec_deserialize(start.skip((A::spec_deserialize(start.skip((0nat) as int)).unwrap().1) as int)).unwrap().1) as int)).unwrap().1 + D::spec_deserialize(start.skip((A::spec_deserialize(start.skip((0nat) as int)).unwrap().1 + B::spec_deserialize(start.skip((A::spec_deserialize(start.skip((0nat) as int)).unwrap().1) as int)).unwrap().1 + C::spec_deserialize(start.skip((A::spec_deserialize(start.skip((0nat) as int)).unwrap().1 + B::spec_deserialize(start.skip((A::spec_deserialize(start.skip((0nat) as int)).unwrap().1) as int)).unwrap().1) as int)).unwrap().1) as int)).unwrap().1 + E::spec_deserialize(start.skip((A::spec_deserialize(start.skip((0nat) as int)).unwrap().1 + B::spec_deserialize(start.skip((A::spec_deserialize(start.skip((0nat) as int)).unwrap().1) as int)).unwrap().1 + C::spec_deserialize(start.skip((A::spec_deserialize(start.skip((0nat) as int)).unwrap().1 + B::spec_deserialize(start.skip((A::spec_deserialize(start.skip((0nat) as int)).unwrap().1) as int)).unwrap().1) as int)).unwrap().1 + D::spec_deserialize(start.skip((A::spec_deserialize(start.skip((0nat) as int)).unwrap().1 + B::spec_deserialize(start.skip((A::spec_deserialize(start.skip((0nat) as int)).unwrap().1) as int)).unwrap().1 + C::spec_deserialize(start.skip((A::spec_deserialize(start.skip((0nat) as int)).unwrap().1 + B::spec_deserialize(start.skip((A::spec_deserialize(start.skip((0nat) as int)).unwrap().1) as int)).unwrap().1) as int)).unwrap().1) as int)).unwrap().1) as int)).unwrap().1 + F::spec_deserialize(start.skip((A::spec_deserialize(start.skip((0nat) as int)).unwrap().1 + B::spec_deserialize(start.skip((A::spec_deserialize(start.skip((0nat) as int)).unwrap().1) as int)).unwrap().1 + C::spec_deserialize(start.skip((A::spec_deserialize(start.skip((0nat) as int)).unwrap().1 + B::spec_deserialize(start.skip((A::spec_deserialize(start.skip((0nat) as int)).unwrap().1) as int)).unwrap().1) as int)).unwrap().1 + D::spec_deserialize(start.skip((A::spec_deserialize(start.skip((0nat) as int)).unwrap().1 + B::spec_deserialize(start.skip((A::spec_deserialize(start.skip((0nat) as int)).unwrap().1) as int)).unwrap().1 + C::spec_deserialize(start.skip((A::spec_deserialize(start.skip((0nat) as int)).unwrap().1 + B::spec_deserialize(start.skip((A::spec_deserialize(start.skip((0nat) as int)).unwrap().1) as int)).unwrap().1) as int)).unwrap().1) as int)).unwrap().1 + E::spec_deserialize(start.skip((A::spec_deserialize(start.skip((0nat) as int)).unwrap().1 + B::spec_deserialize(start.skip((A::spec_deserialize(start.skip((0nat) as int)).unwrap().1) as int)).unwrap().1 + C::spec_deserialize(start.skip((A::spec_deserialize(start.skip((0nat) as int)).unwrap().1 + B::spec_deserialize(start.skip((A::spec_deserialize(start.skip((0nat) as int)).unwrap().1) as int)).unwrap().1) as int)).unwrap().1 + D::spec_deserialize(start.skip((A::spec_deserialize(start.skip((0nat) as int)).unwrap().1 + B::spec_deserialize(start.skip((A::spec_deserialize(start.skip((0nat) as int)).unwrap().1) as int)).unwrap().1 + C::spec_deserialize(start.skip((A::spec_deserialize(start.skip((0nat) as int)).unwrap().1 + B::spec_deserialize(start.skip((A::spec_deserialize(start.skip((0nat) as int)).unwrap().1) as int)).unwrap().1) as int)).unwrap().1) as int)).unwrap().1) as int)).unwrap().1) as int)).unwrap().1 + G::spec_deserialize(start.skip((A::spec_deserialize(start.skip((0nat) as int)).unwrap().1 + B::spec_deserialize(start.skip((A::spec_deserialize(start.skip((0nat) as int)).unwrap().1) as int)).unwrap().1 + C::spec_deserialize(start.skip((A::spec_deserialize(start.skip((0nat) as int)).unwrap().1 + B::spec_deserialize(start.skip((A::spec_deserialize(start.skip((0nat) as int)).unwrap().1) as int)).unwrap().1) as int)).unwrap().1 + D::spec_deserialize(start.skip((A::spec_deserialize(start.skip((0nat) as int)).unwrap().1 + B::spec_deserialize(start.skip((A::spec_deserialize(start.skip((0nat) as int)).unwrap().1) as int)).unwrap().1 + C::spec_deserialize(start.skip((A::spec_deserialize(start.skip((0nat) as int)).unwrap().1 + B::spec_deserialize(start.skip((A::spec_deserialize(start.skip((0nat) as int)).unwrap().1) as int)).unwrap().1) as int)).unwrap().1) as int)).unwrap().1 + E::spec_deserialize(start.skip((A::spec_deserialize(start.skip((0nat) as int)).unwrap().1 + B::spec_deserialize(start.skip((A::spec_deserialize(start.skip((0nat) as int)).unwrap().1) as int)).unwrap().1 + C::spec_deserialize(start.skip((A::spec_deserialize(start.skip((0nat) as int)).unwrap().1 + B::spec_deserialize(start.skip((A::spec_deserialize(start.skip((0nat) as int)).unwrap().1) as int)).unwrap().1) as int)).unwrap().1 + D::spec_deserialize(start.skip((A::spec_deserialize(start.skip((0nat) as int)).unwrap().1 + B::spec_deserialize(start.skip((A::spec_deserialize(start.skip((0nat) as int)).unwrap().1) as int)).unwrap().1 + C::spec_deserialize(start.skip((A::spec_deserialize(start.skip((0nat) as int)).unwrap().1 + B::spec_deserialize(start.skip((A::spec_deserialize(start.skip((0nat) as int)).unwrap().1) as int)).unwrap().1) as int)).unwrap().1) as int)).unwrap().1) as int)).unwrap().1 + F::spec_deserialize(start.skip((A::spec_deserialize(start.skip((0nat) as int)).unwrap().1 + B::spec_deserialize(start.skip((A::spec_deserialize(start.skip((0nat) as int)).unwrap().1) as int)).unwrap().1 + C::spec_deserialize(start.skip((A::spec_deserialize(start.skip((0nat) as int)).unwrap().1 + B::spec_deserialize(start.skip((A::spec_deserialize(start.skip((0nat) as int)).unwrap().1) as int)).unwrap().1) as int)).unwrap().1 + D::spec_deserialize(start.skip((A::spec_deserialize(start.skip((0nat) as int)).unwrap().1 + B::spec_deserialize(start.skip((A::spec_deserialize(start.skip((0nat) as int)).unwrap().1) as int)).unwrap().1 + C::spec_deserialize(start.skip((A::spec_deserialize(start.skip((0nat) as int)).unwrap().1 + B::spec_deserialize(start.skip((A::spec_deserialize(start.skip((0nat) as int)).unwrap().1) as int)).unwrap().1) as int)).unwrap().1) as int)).unwrap().1 + E::spec_deserialize(start.skip((A::spec_deserialize(start.skip((0nat) as int)).unwrap().1 + B::spec_deserialize(start.skip((A::spec_deserialize(start.skip((0nat) as int)).unwrap().1) as int)).unwrap().1 + C::spec_deserialize(start.skip((A::spec_deserialize(start.skip((0nat) as int)).unwrap().1 + B::spec_deserialize(start.skip((A::spec_deserialize(start.skip((0nat) as int)).unwrap().1) as int)).unwrap().1) as int)).unwrap().1 + D::spec_deserialize(start.skip((A::spec_deserialize(start.skip((0nat) as int)).unwrap().1 + B::spec_deserialize(start.skip((A::spec_deserialize(start.skip((0nat) as int)).unwrap().1) as int)).unwrap().1 + C::spec_deserialize(start.skip((A::spec_deserialize(start.skip((0nat) as int)).unwrap().1 + B::spec_deserialize(start.skip((A::spec_deserialize(start.skip((0nat) as int)).unwrap().1) as int)).unwrap().1) as int)).unwrap().1) as int)).unwrap().1) as int)).unwrap().1) as int)).unwrap().1) as int)).unwrap().1) as int)).unwrap().1) as int)).unwrap().1 + J::spec_deserialize(start.skip((A::spec_deserialize(start.skip((0nat) as int)).unwrap().1 + B::spec_deserialize(start.skip((A::spec_deserialize(start.skip((0nat) as int)).unwrap().1) as int)).unwrap().1 + C::spec_deserialize(start.skip((A::spec_deserialize(start.skip((0nat) as int)).unwrap().1 + B::spec_deserialize(start.skip((A::spec_deserialize(start.skip((0nat) as int)).unwrap().1) as int)).unwrap().1) as int)).unwrap().1 + D::spec_deserialize(start.skip((A::spec_deserialize(start.skip((0nat) as int)).unwrap().1 + B::spec_deserialize(start.skip((A::spec_deserialize(start.skip((0nat) as int)).unwrap().1) as int)).unwrap().1 + C::spec_deserialize(start.skip((A::spec_deserialize(start.skip((0nat) as int)).unwrap().1 + B::spec_deserialize(start.skip((A::spec_deserialize(start.skip((0nat) as int)).unwrap().1) as int)).unwrap().1) as int)).unwrap().1) as int)).unwrap().1 + E::spec_deserialize(start.skip((A::spec_deserialize(start.skip((0nat) as int)).unwrap().1 + B::spec_deserialize(start.skip((A::spec_deserialize(start.skip((0nat) as int)).unwrap().1) as int)).unwrap().1 + C::spec_deserialize(start.skip((A::spec_deserialize(start.skip((0nat) as int)).unwrap().1 + B::spec_deserialize(start.skip((A::spec_deserialize(start.skip((0nat) as int)).unwrap().1) as int)).unwrap().1) as int)).unwrap().1 + D::spec_deserialize(start.skip((A::spec_deserialize(start.skip((0nat) as int)).unwrap().1 + B::spec_deserialize(start.skip((A::spec_deserialize(start.skip((0nat) as int)).unwrap().1) as int)).unwrap().1 + C::spec_deserialize(start.skip((A::spec_deserialize(start.skip((0nat) as int)).unwrap().1 + B::spec_deserialize(start.skip((A::spec_deserialize(start.skip((0nat) as int)).unwrap().1) as int)).unwrap().1) as int)).unwrap().1) as int)).unwrap().1) as int)).unwrap().1 + F::spec_deserialize(start.skip((A::spec_deserialize(start.skip((0nat) as int)).unwrap().1 + B::spec_deserialize(start.skip((A::spec_deserialize(start.skip((0nat) as int)).unwrap().1) as int)).unwrap().1 + C::spec_deserialize(start.skip((A::spec_deserialize(start.skip((0nat) as int)).unwrap().1 + B::spec_deserialize(start.skip((A::spec_deserialize(start.skip((0nat) as int)).unwrap().1) as int)).unwrap().1) as int)).unwrap().1 + D::spec_deserialize(start.skip((A::spec_deserialize(start.skip((0nat) as int)).unwrap().1 + B::spec_deserialize(start.skip((A::spec_deserialize(start.skip((0nat) as int)).unwrap().1) as int)).unwrap().1 + C::spec_deserialize(start.skip((A::spec_deserialize(start.skip((0nat) as int)).unwrap().1 + B::spec_deserialize(start.skip((A::spec_deserialize(start.skip((0nat) as int)).unwrap().1) as int)).unwrap().1) as int)).unwrap().1) as int)).unwrap().1 + E::spec_deserialize(start.skip((A::spec_deserialize(start.skip((0nat) as int)).unwrap().1 + B::spec_deserialize(start.skip((A::spec_deserialize(start.skip((0nat) as int)).unwrap().1) as int)).unwrap().1 + C::spec_deserialize(start.skip((A::spec_deserialize(start.skip((0nat) as int)).unwrap().1 + B::spec_deserialize(start.skip((A::spec_deserialize(start.skip((0nat) as int)).unwrap().1) as int)).unwrap().1) as int)).unwrap().1 + D::spec_deserialize(start.skip((A::spec_deserialize(start.skip((0nat) as int)).unwrap().1 + B::spec_deserialize(start.skip((A::spec_deserialize(start.skip((0nat) as int)).unwrap().1) as int)).unwrap().1 + C::spec_deserialize(start.skip((A::spec_deserialize(start.skip((0nat) as int)).unwrap().1 + B::spec_deserialize(start.skip((A::spec_deserialize(start.skip((0nat) as int)).unwrap().1) as int)).unwrap().1) as int)).unwrap().1) as int)).unwrap().1) as int)).unwrap().1) as int)).unwrap().1 + G::spec_deserialize(start.skip((A::spec_deserialize(start.skip((0nat) as int)).unwrap().1 + B::spec_deserialize(start.skip((A::spec_deserialize(start.skip((0nat) as int)).unwrap().1) as int)).unwrap().1 + C::spec_deserialize(start.skip((A::spec_deserialize(start.skip((0nat) as int)).unwrap().1 + B::spec_deserialize(start.skip((A::spec_deserialize(start.skip((0nat) as int)).unwrap().1) as int)).unwrap().1) as int)).unwrap().1 + D::spec_deserialize(start.skip((A::spec_deserialize(start.skip((0nat) as int)).unwrap().1 + B::spec_deserialize(start.skip((A::spec_deserialize(start.skip((0nat) as int)).unwrap().1) as int)).unwrap().1 + C::spec_deserialize(start.skip((A::spec_deserialize(start.skip((0nat) as int)).unwrap().1 + B::spec_deserialize(start.skip((A::spec_deserialize(start.skip((0nat) as int)).unwrap().1) as int)).unwrap().1) as int)).unwrap().1) as int)).unwrap().1 + E::spec_deserialize(start.skip((A::spec_deserialize(start.skip((0nat) as int)).unwrap().1 + B::spec_deserialize(start.skip((A::spec_deserialize(start.skip((0nat) as int)).unwrap().1) as int)).unwrap().1 + C::spec_deserialize(start.skip((A::spec_deserialize(start.skip((0nat) as int)).unwrap().1 + B::spec_deserialize(start.skip((A::spec_deserialize(start.skip((0nat) as int)).unwrap().1) as int)).unwrap().1) as int)).unwrap().1 + D::spec_deserialize(start.skip((A::spec_deserialize(start.skip((0nat) as int)).unwrap().1 + B::spec_deserialize(start.skip((A::spec_deserialize(start.skip((0nat) as int)).unwrap().1) as int)).unwrap().1 + C::spec_deserialize(start.skip((A::spec_deserialize(start.skip((0nat) as int)).unwrap().1 + B::spec_deserialize(start.skip((A::spec_deserialize(start.skip((0nat) as int)).unwrap().1) as int)).unwrap().1) as int)).unwrap().1) as int)).unwrap().1) as int)).unwrap().1 + F::spec_deserialize(start.skip((A::spec_deserialize(start.skip((0nat) as int)).unwrap().1 + B::spec_deserialize(start.skip((A::spec_deserialize(start.skip((0nat) as int)).unwrap().1) as int)).unwrap().1 + C::spec_deserialize(start.skip((A::spec_deserialize(start.skip((0nat) as int)).unwrap().1 + B::spec_deserialize(start.skip((A::spec_deserialize(start.skip((0nat) as int)).unwrap().1) as int)).unwrap().1) as int)).unwrap().1 + D::spec_deserialize(start.skip((A::spec_deserialize(start.skip((0nat) as int)).unwrap().1 + B::spec_deserialize(start.skip((A::spec_deserialize(start.skip((0nat) as int)).unwrap().1) as int)).unwrap().1 + C::spec_deserialize(start.skip((A::spec_deserialize(start.skip((0nat) as int)).unwrap().1 + B::spec_deserialize(start.skip((A::spec_deserialize(start.skip((0nat) as int)).unwrap().1) as int)).unwrap().1) as int)).unwrap().1) as int)).unwrap().1 + E::spec_deserialize(start.skip((A::spec_deserialize(start.skip((0nat) as int)).unwrap().1 + B::spec_deserialize(start.skip((A::spec_deserialize(start.skip((0nat) as int)).unwrap().1) as int)).unwrap().1 + C::spec_deserialize(start.skip((A::spec_deserialize(start.skip((0nat) as int)).unwrap().1 + B::spec_deserialize(start.skip((A::spec_deserialize(start.skip((0nat) as int)).unwrap().1) as int)).unwrap().1) as int)).unwrap().1 + D::spec_deserialize(start.skip((A::spec_deserialize(start.skip((0nat) as int)).unwrap().1 + B::spec_deserialize(start.skip((A::spec_deserialize(start.skip((0nat) as int)).unwrap().1) as int)).unwrap().1 + C::spec_deserialize(start.skip((A::spec_deserialize(start.skip((0nat) as int)).unwrap().1 + B::spec_deserialize(start.skip((A::spec_deserialize(start.skip((0nat) as int)).unwrap().1) as int)).unwrap().1) as int)).unwrap().1) as int)).unwrap().1) as int)).unwrap().1) as int)).unwrap().1) as int)).unwrap().1 + H::spec_deserialize(start.skip((A::spec_deserialize(start.skip((0nat) as int)).unwrap().1 + B::spec_deserialize(start.skip((A::spec_deserialize(start.skip((0nat) as int)).unwrap().1) as int)).unwrap().1 + C::spec_deserialize(start.skip((A::spec_deserialize(start.skip((0nat) as int)).unwrap().1 + B::spec_deserialize(start.skip((A::spec_deserialize(start.skip((0nat) as int)).unwrap().1) as int)).unwrap().1) as int)).unwrap().1 + D::spec_deserialize(start.skip((A::spec_deserialize(start.skip((0nat) as int)).unwrap().1 + B::spec_deserialize(start.skip((A::spec_deserialize(start.skip((0nat) as int)).unwrap().1) as int)).unwrap().1 + C::spec_deserialize(start.skip((A::spec_deserialize(start.skip((0nat) as int)).unwrap().1 + B::spec_deserialize(start.skip((A::spec_deserialize(start.skip((0nat) as int)).unwrap().1) as int)).unwrap().1) as int)).unwrap().1) as int)).unwrap().1 + E::spec_deserialize(start.skip((A::spec_deserialize(start.skip((0nat) as int)).unwrap().1 + B::spec_deserialize(start.skip((A::spec_deserialize(start.skip((0nat) as int)).unwrap().1) as int)).unwrap().1 + C::spec_deserialize(start.skip((A::spec_deserialize(start.skip((0nat) as int)).unwrap().1 + B::spec_deserialize(start.skip((A::spec_deserialize(start.skip((0nat) as int)).unwrap().1) as int)).unwrap().1) as int)).unwrap().1 + D::spec_deserialize(start.skip((A::spec_deserialize(start.skip((0nat) as int)).unwrap().1 + B::spec_deserialize(start.skip((A::spec_deserialize(start.skip((0nat) as int)).unwrap().1) as int)).unwrap().1 + C::spec_deserialize(start.skip((A::spec_deserialize(start.skip((0nat) as int)).unwrap().1 + B::spec_deserialize(start.skip((A::spec_deserialize(start.skip((0nat) as int)).unwrap().1) as int)).unwrap().1) as int)).unwrap().1) as int)).unwrap().1) as int)).unwrap().1 + F::spec_deserialize(start.skip((A::spec_deserialize(start.skip((0nat) as int)).unwrap().1 + B::spec_deserialize(start.skip((A::spec_deserialize(start.skip((0nat) as int)).unwrap().1) as int)).unwrap().1 + C::spec_deserialize(start.skip((A::spec_deserialize(start.skip((0nat) as int)).unwrap().1 + B::spec_deserialize(start.skip((A::spec_deserialize(start.skip((0nat) as int)).unwrap().1) as int)).unwrap().1) as int)).unwrap().1 + D::spec_deserialize(start.skip((A::spec_deserialize(start.skip((0nat) as int)).unwrap().1 + B::spec_deserialize(start.skip((A::spec_deserialize(start.skip((0nat) as int)).unwrap().1) as int)).unwrap().1 + C::spec_deserialize(start.skip((A::spec_deserialize(start.skip((0nat) as int)).unwrap().1 + B::spec_deserialize(start.skip((A::spec_deserialize(start.skip((0nat) as int)).unwrap().1) as int)).unwrap().1) as int)).unwrap().1) as int)).unwrap().1 + E::spec_deserialize(start.skip((A::spec_deserialize(start.skip((0nat) as int)).unwrap().1 + B::spec_deserialize(start.skip((A::spec_deserialize(start.skip((0nat) as int)).unwrap().1) as int)).unwrap().1 + C::spec_deserialize(start.skip((A::spec_deserialize(start.skip((0nat) as int)).unwrap().1 + B::spec_deserialize(start.skip((A::spec_deserialize(start.skip((0nat) as int)).unwrap().1) as int)).unwrap().1) as int)).unwrap().1 + D::spec_deserialize(start.skip((A::spec_deserialize(start.skip((0nat) as int)).unwrap().1 + B::spec_deserialize(start.skip((A::spec_deserialize(start.skip((0nat) as int)).unwrap().1) as int)).unwrap().1 + C::spec_deserialize(start.skip((A::spec_deserialize(start.skip((0nat) as int)).unwrap().1 + B::spec_deserialize(start.skip((A::spec_deserialize(start.skip((0nat) as int)).unwrap().1) as int)).unwrap().1) as int)).unwrap().1) as int)).unwrap().1) as int)).unwrap().1) as int)).unwrap().1 + G::spec_deserialize(start.skip((A::spec_deserialize(start.skip((0nat) as int)).unwrap().1 + B::spec_deserialize(start.skip((A::spec_deserialize(start.skip((0nat) as int)).unwrap().1) as int)).unwrap().1 + C::spec_deserialize(start.skip((A::spec_deserialize(start.skip((0nat) as int)).unwrap().1 + B::spec_deserialize(start.skip((A::spec_deserialize(start.skip((0nat) as int)).unwrap().1) as int)).unwrap().1) as int)).unwrap().1 + D::spec_deserialize(start.skip((A::spec_deserialize(start.skip((0nat) as int)).unwrap().1 + B::spec_deserialize(start.skip((A::spec_deserialize(start.skip((0nat) as int)).unwrap().1) as int)).unwrap().1 + C::spec_deserialize(start.skip((A::spec_deserialize(start.skip((0nat) as int)).unwrap().1 + B::spec_deserialize(start.skip((A::spec_deserialize(start.skip((0nat) as int)).unwrap().1) as int)).unwrap().1) as int)).unwrap().1) as int)).unwrap().1 + E::spec_deserialize(start.skip((A::spec_deserialize(start.skip((0nat) as int)).unwrap().1 + B::spec_deserialize(start.skip((A::spec_deserialize(start.skip((0nat) as int)).unwrap().1) as int)).unwrap().1 + C::spec_deserialize(start.skip((A::spec_deserialize(start.skip((0nat) as int)).unwrap().1 + B::spec_deserialize(start.skip((A::spec_deserialize(start.skip((0nat) as int)).unwrap().1) as int)).unwrap().1) as int)).unwrap().1 + D::spec_deserialize(start.skip((A::spec_deserialize(start.skip((0nat) as int)).unwrap().1 + B::spec_deserialize(start.skip((A::spec_deserialize(start.skip((0nat) as int)).unwrap().1) as int)).unwrap().1 + C::spec_deserialize(start.skip((A::spec_deserialize(start.skip((0nat) as int)).unwrap().1 + B::spec_deserialize(start.skip((A::spec_deserialize(start.skip((0nat) as int)).unwrap().1) as int)).unwrap().1) as int)).unwrap().1) as int)).unwrap().1) as int)).unwrap().1 + F::spec_deserialize(start.skip((A::spec_deserialize(start.skip((0nat) as int)).unwrap().1 + B::spec_deserialize(start.skip((A::spec_deserialize(start.skip((0nat) as int)).unwrap().1) as int)).unwrap().1 + C::spec_deserialize(start.skip((A::spec_deserialize(start.skip((0nat) as int)).unwrap().1 + B::spec_deserialize(start.skip((A::spec_deserialize(start.skip((0nat) as int)).unwrap().1) as int)).unwrap().1) as int)).unwrap().1 + D::spec_deserialize(start.skip((A::spec_deserialize(start.skip((0nat) as int)).unwrap().1 + B::spec_deserialize(start.skip((A::spec_deserialize(start.skip((0nat) as int)).unwrap().1) as int)).unwrap().1 + C::spec_deserialize(start.skip((A::spec_deserialize(start.skip((0nat) as int)).unwrap().1 + B::spec_deserialize(start.skip((A::spec_deserialize(start.skip((0nat) as int)).unwrap().1) as int)).unwrap().1) as int)).unwrap().1) as int)).unwrap().1 + E::spec_deserialize(start.skip((A::spec_deserialize(start.skip((0nat) as int)).unwrap().1 + B::spec_deserialize(start.skip((A::spec_deserialize(start.skip((0nat) as int)).unwrap().1) as int)).unwrap().1 + C::spec_deserialize(start.skip((A::spec_deserialize(start.skip((0nat) as int)).unwrap().1 + B::spec_deserialize(start.skip((A::spec_deserialize(start.skip((0nat) as int)).unwrap().1) as int)).unwrap().1) as int)).unwrap().1 + D::spec_deserialize(start.skip((A::spec_deserialize(start.skip((0nat) as int)).unwrap().1 + B::spec_deserialize(start.skip((A::spec_deserialize(start.skip((0nat) as int)).unwrap().1) as int)).unwrap().1 + C::spec_deserialize(start.skip((A::spec_deserialize(start.skip((0nat) as int)).unwrap().1 + B::spec_deserialize(start.skip((A::spec_deserialize(start.skip((0nat) as int)).unwrap().1) as int)).unwrap().1) as int)).unwrap().1) as int)).unwrap().1) as int)).unwrap().1) as int)).unwrap().1) as int)).unwrap().1) as int)).unwrap().1 + I::spec_deserialize(start.skip((A::spec_deserialize(start.skip((0nat) as int)).unwrap().1 + B::spec_deserialize(start.skip((A::spec_deserialize(start.skip((0nat) as int)).unwrap().1) as int)).unwrap().1 + C::spec_deserialize(start.skip((A::spec_deserialize(start.skip((0nat) as int)).unwrap().1 + B::spec_deserialize(start.skip((A::spec_deserialize(start.skip((0nat) as int)).unwrap().1) as int)).unwrap().1) as int)).unwrap().1 + D::spec_deserialize(start.skip((A::spec_deserialize(start.skip((0nat) as int)).unwrap().1 + B::spec_deserialize(start.skip((A::spec_deserialize(start.skip((0nat) as int)).unwrap().1) as int)).unwrap().1 + C::spec_deserialize(start.skip((A::spec_deserialize(start.skip((0nat) as int)).unwrap().1 + B::spec_deserialize(start.skip((A::spec_deserialize(start.skip((0nat) as int)).unwrap().1) as int)).unwrap().1) as int)).unwrap().1) as int)).unwrap().1 + E::spec_deserialize(start.skip((A::spec_deserialize(start.skip((0nat) as int)).unwrap().1 + B::spec_deserialize(start.skip((A::spec_deserialize(start.skip((0nat) as int)).unwrap().1) as int)).unwrap().1 + C::spec_deserialize(start.skip((A::spec_deserialize(start.skip((0nat) as int)).unwrap().1 + B::spec_deserialize(start.skip((A::spec_deserialize(start.skip((0nat) as int)).unwrap().1) as int)).unwrap().1) as int)).unwrap().1 + D::spec_deserialize(start.skip((A::spec_deserialize(start.skip((0nat) as int)).unwrap().1 + B::spec_deserialize(start.skip((A::spec_deserialize(start.skip((0nat) as int)).unwrap().1) as int)).unwrap().1 + C::spec_deserialize(start.skip((A::spec_deserialize(start.skip((0nat) as int)).unwrap().1 + B::spec_deserialize(start.skip((A::spec_deserialize(start.skip((0nat) as int)).unwrap().1) as int)).unwrap().1) as int)).unwrap().1) as int)).unwrap().1) as int)).unwrap().1 + F::spec_deserialize(start.skip((A::spec_deserialize(start.skip((0nat) as int)).unwrap().1 + B::spec_deserialize(start.skip((A::spec_deserialize(start.skip((0nat) as int)).unwrap().1) as int)).unwrap().1 + C::spec_deserialize(start.skip((A::spec_deserialize(start.skip((0nat) as int)).unwrap().1 + B::spec_deserialize(start.skip((A::spec_deserialize(start.skip((0nat) as int)).unwrap().1) as int)).unwrap().1) as int)).unwrap().1 + D::spec_deserialize(start.skip((A::spec_deserialize(start.skip((0nat) as int)).unwrap().1 + B::spec_deserialize(start.skip((A::spec_deserialize(start.skip((0nat) as int)).unwrap().1) as int)).unwrap().1 + C::spec_deserialize(start.skip((A::spec_deserialize(start.skip((0nat) as int)).unwrap().1 + B::spec_deserialize(start.skip((A::spec_deserialize(start.skip((0nat) as int)).unwrap().1) as int)).unwrap().1) as int)).unwrap().1) as int)).unwrap().1 + E::spec_deserialize(start.skip((A::spec_deserialize(start.skip((0nat) as int)).unwrap().1 + B::spec_deserialize(start.skip((A::spec_deserialize(start.skip((0nat) as int)).unwrap().1) as int)).unwrap().1 + C::spec_deserialize(start.skip((A::spec_deserialize(start.skip((0nat) as int)).unwrap().1 + B::spec_deserialize(start.skip((A::spec_deserialize(start.skip((0nat) as int)).unwrap().1) as int)).unwrap().1) as int)).unwrap().1 + D::spec_deserialize(start.skip((A::spec_deserialize(start.skip((0nat) as int)).unwrap().1 + B::spec_deserialize(start.skip((A::spec_deserialize(start.skip((0nat) as int)).unwrap().1) as int)).unwrap().1 + C::spec_deserialize(start.skip((A::spec_deserialize(start.skip((0nat) as int)).unwrap().1 + B::spec_deserialize(start.skip((A::spec_deserialize(start.skip((0nat) as int)).unwrap().1) as int)).unwrap().1) as int)).unwrap().1) as int)).unwrap().1) as int)).unwrap().1) as int)).unwrap().1 + G::spec_deserialize(start.skip((A::spec_deserialize(start.skip((0nat) as int)).unwrap().1 + B::spec_deserialize(start.skip((A::spec_deserialize(start.skip((0nat) as int)).unwrap().1) as int)).unwrap().1 + C::spec_deserialize(start.skip((A::spec_deserialize(start.skip((0nat) as int)).unwrap().1 + B::spec_deserialize(start.skip((A::spec_deserialize(start.skip((0nat) as int)).unwrap().1) as int)).unwrap().1) as int)).unwrap().1 + D::spec_deserialize(start.skip((A::spec_deserialize(start.skip((0nat) as int)).unwrap().1 + B::spec_deserialize(start.skip((A::spec_deserialize(start.skip((0nat) as int)).unwrap().1) as int)).unwrap().1 + C::spec_deserialize(start.skip((A::spec_deserialize(start.skip((0nat) as int)).unwrap().1 + B::spec_deserialize(start.skip((A::spec_deserialize(start.skip((0nat) as int)).unwrap().1) as int)).unwrap().1) as int)).unwrap().1) as int)).unwrap().1 + E::spec_deserialize(start.skip((A::spec_deserialize(start.skip((0nat) as int)).unwrap().1 + B::spec_deserialize(start.skip((A::spec_deserialize(start.skip((0nat) as int)).unwrap().1) as int)).unwrap().1 + C::spec_deserialize(start.skip((A::spec_deserialize(start.skip((0nat) as int)).unwrap().1 + B::spec_deserialize(start.skip((A::spec_deserialize(start.skip((0nat) as int)).unwrap().1) as int)).unwrap().1) as int)).unwrap().1 + D::spec_deserialize(start.skip((A::spec_deserialize(start.skip((0nat) as int)).unwrap().1 + B::spec_deserialize(start.skip((A::spec_deserialize(start.skip((0nat) as int)).unwrap().1) as int)).unwrap().1 + C::spec_deserialize(start.skip((A::spec_deserialize(start.skip((0nat) as int)).unwrap().1 + B::spec_deserialize(start.skip((A::spec_deserialize(start.skip((0nat) as int)).unwrap().1) as int)).unwrap().1) as int)).unwrap().1) as int)).unwrap().1) as int)).unwrap().1 + F::spec_deserialize(start.skip((A::spec_deserialize(start.skip((0nat) as int)).unwrap().1 + B::spec_deserialize(start.skip((A::spec_deserialize(start.skip((0nat) as int)).unwrap().1) as int)).unwrap().1 + C::spec_deserialize(start.skip((A::spec_deserialize(start.skip((0nat) as int)).unwrap().1 + B::spec_deserialize(start.skip((A::spec_deserialize(start.skip((0nat) as int)).unwrap().1) as int)).unwrap().1) as int)).unwrap().1 + D::spec_deserialize(start.skip((A::spec_deserialize(start.skip((0nat) as int)).unwrap().1 + B::spec_deserialize(start.skip((A::spec_deserialize(start.skip((0nat) as int)).unwrap().1) as int)).unwrap().1 + C::spec_deserialize(start.skip((A::spec_deserialize(start.skip((0nat) as int)).unwrap().1 + B::spec_deserialize(start.skip((A::spec_deserialize(start.skip((0nat) as int)).unwrap().1) as int)).unwrap().1) as int)).unwrap().1) as int)).unwrap().1 + E::spec_deserialize(start.skip((A::spec_deserialize(start.skip((0nat) as int)).unwrap().1 + B::spec_deserialize(start.skip((A::spec_deserialize(start.skip((0nat) as int)).unwrap().1) as int)).unwrap().1 + C::spec_deserialize(start.skip((A::spec_deserialize(start.skip((0nat) as int)).unwrap().1 + B::spec_deserialize(start.skip((A::spec_deserialize(start.skip((0nat) as int)).unwrap().1) as int)).unwrap().1) as int)).unwrap().1 + D::spec_deserialize(start.skip((A::spec_deserialize(start.skip((0nat) as int)).unwrap().1 + B::spec_deserialize(start.skip((A::spec_deserialize(start.skip((0nat) as int)).unwrap().1) as int)).unwrap().1 + C::spec_deserialize(start.skip((A::spec_deserialize(start.skip((0nat) as int)).unwrap().1 + B::spec_deserialize(start.skip((A::spec_deserialize(start.skip((0nat) as int)).unwrap().1) as int)).unwrap().1) as int)).unwrap().1) as int)).unwrap().1) as int)).unwrap().1) as int)).unwrap().1) as int)).unwrap().1 + H::spec_deserialize(start.skip((A::spec_deserialize(start.skip((0nat) as int)).unwrap().1 + B::spec_deserialize(start.skip((A::spec_deserialize(start.skip((0nat) as int)).unwrap().1) as int)).unwrap().1 + C::spec_deserialize(start.skip((A::spec_deserialize(start.skip((0nat) as int)).unwrap().1 + B::spec_deserialize(start.skip((A::spec_deserialize(start.skip((0nat) as int)).unwrap().1) as int)).unwrap().1) as int)).unwrap().1 + D::spec_deserialize(start.skip((A::spec_deserialize(start.skip((0nat) as int)).unwrap().1 + B::spec_deserialize(start.skip((A::spec_deserialize(start.skip((0nat) as int)).unwrap().1) as int)).unwrap().1 + C::spec_deserialize(start.skip((A::spec_deserialize(start.skip((0nat) as int)).unwrap().1 + B::spec_deserialize(start.skip((A::spec_deserialize(start.skip((0nat) as int)).unwrap().1) as int)).unwrap().1) as int)).unwrap().1) as int)).unwrap().1 + E::spec_deserialize(start.skip((A::spec_deserialize(start.skip((0nat) as int)).unwrap().1 + B::spec_deserialize(start.skip((A::spec_deserialize(start.skip((0nat) as int)).unwrap().1) as int)).unwrap().1 + C::spec_deserialize(start.skip((A::spec_deserialize(start.skip((0nat) as int)).unwrap().1 + B::spec_deserialize(start.skip((A::spec_deserialize(start.skip((0nat) as int)).unwrap().1) as int)).unwrap().1) as int)).unwrap().1 + D::spec_deserialize(start.skip((A::spec_deserialize(start.skip((0nat) as int)).unwrap().1 + B::spec_deserialize(start.skip((A::spec_deserialize(start.skip((0nat) as int)).unwrap().1) as int)).unwrap().1 + C::spec_deserialize(start.skip((A::spec_deserialize(start.skip((0nat) as int)).unwrap().1 + B::spec_deserialize(start.skip((A::spec_deserialize(start.skip((0nat) as int)).unwrap().1) as int)).unwrap().1) as int)).unwrap().1) as int)).unwrap().1) as int)).unwrap().1 + F::spec_deserialize(start.skip((A::spec_deserialize(start.skip((0nat) as int)).unwrap().1 + B::spec_deserialize(start.skip((A::spec_deserialize(start.skip((0nat) as int)).unwrap().1) as int)).unwrap().1 + C::spec_deserialize(start.skip((A::spec_deserialize(start.skip((0nat) as int)).unwrap().1 + B::spec_deserialize(start.skip((A::spec_deserialize(start.skip((0nat) as int)).unwrap().1) as int)).unwrap().1) as int)).unwrap().1 + D::spec_deserialize(start.skip((A::spec_deserialize(start.skip((0nat) as int)).unwrap().1 + B::spec_deserialize(start.skip((A::spec_deserialize(start.skip((0nat) as int)).unwrap().1) as int)).unwrap().1 + C::spec_deserialize(start.skip((A::spec_deserialize(start.skip((0nat) as int)).unwrap().1 + B::spec_deserialize(start.skip((A::spec_deserialize(start.skip((0nat) as int)).unwrap().1) as int)).unwrap().1) as int)).unwrap().1) as int)).unwrap().1 + E::spec_deserialize(start.skip((A::spec_deserialize(start.skip((0nat) as int)).unwrap().1 + B::spec_deserialize(start.skip((A::spec_deserialize(start.skip((0nat) as int)).unwrap().1) as int)).unwrap().1 + C::spec_deserialize(start.skip((A::spec_deserialize(start.skip((0nat) as int)).unwrap().1 + B::spec_deserialize(start.skip((A::spec_deserialize(start.skip((0nat) as int)).unwrap().1) as int)).unwrap().1) as int)).unwrap().1 + D::spec_deserialize(start.skip((A::spec_deserialize(start.skip((0nat) as int)).unwrap().1 + B::spec_deserialize(start.skip((A::spec_deserialize(start.skip((0nat) as int)).unwrap().1) as int)).unwrap().1 + C::spec_deserialize(start.skip((A::spec_deserialize(start.skip((0nat) as int)).unwrap().1 + B::spec_deserialize(start.skip((A::spec_deserialize(start.skip((0nat) as int)).unwrap().1) as int)).unwrap().1) as int)).unwrap().1) as int)).unwrap().1) as int)).unwrap().1) as int)).unwrap().1 + G::spec_deserialize(start.skip((A::spec_deserialize(start.skip((0nat) as int)).unwrap().1 + B::spec_deserialize(start.skip((A::spec_deserialize(start.skip((0nat) as int)).unwrap().1) as int)).unwrap().1 + C::spec_deserialize(start.skip((A::spec_deserialize(start.skip((0nat) as int)).unwrap().1 + B::spec_deserialize(start.skip((A::spec_deserialize(start.skip((0nat) as int)).unwrap().1) as int)).unwrap().1) as int)).unwrap().1 + D::spec_deserialize(start.skip((A::spec_deserialize(start.skip((0nat) as int)).unwrap().1 + B::spec_deserialize(start.skip((A::spec_deserialize(start.skip((0nat) as int)).unwrap().1) as int)).unwrap().1 + C::spec_deserialize(start.skip((A::spec_deserialize(start.skip((0nat) as int)).unwrap().1 + B::spec_deserialize(start.skip((A::spec_deserialize(start.skip((0nat) as int)).unwrap().1) as int)).unwrap().1) as int)).unwrap().1) as int)).unwrap().1 + E::spec_deserialize(start.skip((A::spec_deserialize(start.skip((0nat) as int)).unwrap().1 + B::spec_deserialize(start.skip((A::spec_deserialize(start.skip((0nat) as int)).unwrap().1) as int)).unwrap().1 + C::spec_deserialize(start.skip((A::spec_deserialize(start.skip((0nat) as int)).unwrap().1 + B::spec_deserialize(start.skip((A::spec_deserialize(start.skip((0nat) as int)).unwrap().1) as int)).unwrap().1) as int)).unwrap().1 + D::spec_deserialize(start.skip((A::spec_deserialize(start.skip((0nat) as int)).unwrap().1 + B::spec_deserialize(start.skip((A::spec_deserialize(start.skip((0nat) as int)).unwrap().1) as int)).unwrap().1 + C::spec_deserialize(start.skip((A::spec_deserialize(start.skip((0nat) as int)).unwrap().1 + B::spec_deserialize(start.skip((A::spec_deserialize(start.skip((0nat) as int)).unwrap().1) as int)).unwrap().1) as int)).unwrap().1) as int)).unwrap().1) as int)).unwrap().1 + F::spec_deserialize(start.skip((A::spec_deserialize(start.skip((0nat) as int)).unwrap().1 + B::spec_deserialize(start.skip((A::spec_deserialize(start.skip((0nat) as int)).unwrap().1) as int)).unwrap().1 + C::spec_deserialize(start.skip((A::spec_deserialize(start.skip((0nat) as int)).unwrap().1 + B::spec_deserialize(start.skip((A::spec_deserialize(start.skip((0nat) as int)).unwrap().1) as int)).unwrap().1) as int)).unwrap().1 + D::spec_deserialize(start.skip((A::spec_deserialize(start.skip((0nat) as int)).unwrap().1 + B::spec_deserialize(start.skip((A::spec_deserialize(start.skip((0nat) as int)).unwrap().1) as int)).unwrap().1 + C::spec_deserialize(start.skip((A::spec_deserialize(start.skip((0nat) as int)).unwrap().1 + B::spec_deserialize(start.skip((A::spec_deserialize(start.skip((0nat) as int)).unwrap().1) as int)).unwrap().1) as int)).unwrap().1) as int)).unwrap().1 + E::spec_deserialize(start.skip((A::spec_deserialize(start.skip((0nat) as int)).unwrap().1 + B::spec_deserialize(start.skip((A::spec_deserialize(start.skip((0nat) as int)).unwrap().1) as int)).unwrap().1 + C::spec_deserialize(start.skip((A::spec_deserialize(start.skip((0nat) as int)).unwrap().1 + B::spec_deserialize(start.skip((A::spec_deserialize(start.skip((0nat) as int)).unwrap().1) as int)).unwrap().1) as int)).unwrap().1 + D::spec_deserialize(start.skip((A::spec_deserialize(start.skip((0nat) as int)).unwrap().1 + B::spec_deserialize(start.skip((A::spec_deserialize(start.skip((0nat) as int)).unwrap().1) as int)).unwrap().1 + C::spec_deserialize(start.skip((A::spec_deserialize(start.skip((0nat) as int)).unwrap().1 + B::spec_deserialize(start.skip((A::spec_deserialize(start.skip((0nat) as int)).unwrap().1) as int)).unwrap().1) as int)).unwrap().1) as int)).unwrap().1) as int)).unwrap().1) as int)).unwrap().1) as int)).unwrap().1) as int)).unwrap().1) as int)).unwrap().1) as int)).unwrap().1))?;
        let x11 = deserialize_next::<L>(buffer, Ghost(start), Ghost(A::spec_deserialize(start.skip((0nat) as int)).unwrap().1 + B::spec_deserialize(start.skip((A::spec_deserialize(start.skip((0nat) as int)).unwrap().1) as int)).unwrap().1 + C::spec_deserialize(start.skip((A::spec_deserialize(start.skip((0nat) as int)).unwrap().1 + B::spec_deserialize(start.skip((A::spec_deserialize(start.skip((0nat) as int)).unwrap().1) as int)).unwrap().1) as int)).unwrap().1 + D::spec_deserialize(start.skip((A::spec_deserialize(start.skip((0nat) as int)).unwrap().1 + B::spec_deserialize(start.skip((A::spec_deserialize(start.skip((0nat) as int)).unwrap().1) as int)).unwrap().1 + C::spec_deserialize(start.skip((A::spec_deserialize(start.skip((0nat) as int)).unwrap().1 + B::spec_deserialize(start.skip((A::spec_deserialize(start.skip((0nat) as int)).unwrap().1) as int)).unwrap().1) as int)).unwrap().1) as int)).unwrap().1 + E::spec_deserialize(start.skip((A::spec_deserialize(start.skip((0nat) as int)).unwrap().1 + B::spec_deserialize(start.skip((A::spec_deserialize(start.skip((0nat) as int)).unwrap().1) as int)).unwrap().1 + C::spec_deserialize(start.skip((A::spec_deserialize(start.skip((0nat) as int)).unwrap().1 + B::spec_deserialize(start.skip((A::spec_deserialize(start.skip((0nat) as int)).unwrap().1) as int)).unwrap().1) as int)).unwrap().1 + D::spec_deserialize(start.skip((A::spec_deserialize(start.skip((0nat) as int)).unwrap().1 + B::spec_deserialize(start.skip((A::spec_deserialize(start.skip((0nat) as int)).unwrap().1) as int)).unwrap().1 + C::spec_deserialize(start.skip((A::spec_deserialize(start.skip((0nat) as int)).unwrap().1 + B::spec_deserialize(start.skip((A::spec_deserialize(start.skip((0nat) as int)).unwrap().1) as int)).unwrap().1) as int)).unwrap().1) as int)).unwrap().1) as int)).unwrap().1 + F::spec_deserialize(start.skip((A::spec_deserialize(start.skip((0nat) as int)).unwrap().1 + B::spec_deserialize(start.skip((A::spec_deserialize(start.skip((0nat) as int)).unwrap().1) as int)).unwrap().1 + C::spec_deserialize(start.skip((A::spec_deserialize(start.skip((0nat) as int)).unwrap().1 + B::spec_deserialize(start.skip((A::spec_deserialize(start.skip((0nat) as int)).unwrap().1) as int)).unwrap().1) as int)).unwrap().1 + D::spec_deserialize(start.skip((A::spec_deserialize(start.skip((0nat) as int)).unwrap().1 + B::spec_deserialize(start.skip((A::spec_deserialize(start.skip((0nat) as int)).unwrap().1) as int)).unwrap().1 + C::spec_deserialize(start.skip((A::spec_deserialize(start.skip((0nat) as int)).unwrap().1 + B::spec_deserialize(start.skip((A::spec_deserialize(start.skip((0nat) as int)).unwrap().1) as int)).unwrap().1) as int)).unwrap().1) as int)).unwrap().1 + E::spec_deserialize(start.skip((A::spec_deserialize(start.skip((0nat) as int)).unwrap().1 + B::spec_deserialize(start.skip((A::spec_deserialize(start.skip((0nat) as int)).unwrap().1) as int)).unwrap().1 + C::spec_deserialize(start.skip((A::spec_deserialize(start.skip((0nat) as int)).unwrap().1 + B::spec_deserialize(start.skip((A::spec_deserialize(start.skip((0nat) as int)).unwrap().1) as int)).unwrap().1) as int)).unwrap().1 + D::spec_deserialize(start.skip((A::spec_deserialize(start.skip((0nat) as int)).unwrap().1 + B::spec_deserialize(start.skip((A::spec_deserialize(start.skip((0nat) as int)).unwrap().1) as int)).unwrap().1 + C::spec_deserialize(start.skip((A::spec_deserialize(start.skip((0nat) as int)).unwrap().1 + B::spec_deserialize(start.skip((A::spec_deserialize(start.skip((0nat) as int)).unwrap().1) as int)).unwrap().1) as int)).unwrap().1) as int)).unwrap().1) as int)).unwrap().1) as int)).unwrap().1 + G::spec_deserialize(start.skip((A::spec_deserialize(start.skip((0nat) as int)).unwrap().1 + B::spec_deserialize(start.skip((A::spec_deserialize(start.skip((0nat) as int)).unwrap().1) as int)).unwrap().1 + C::spec_deserialize(start.skip((A::spec_deserialize(start.skip((0nat) as int)).unwrap().1 + B::spec_deserialize(start.skip((A::spec_deserialize(start.skip((0nat) as int)).unwrap().1) as int)).unwrap().1) as int)).unwrap().1 + D::spec_deserialize(start.skip((A::spec_deserialize(start.skip((0nat) as int)).unwrap().1 + B::spec_deserialize(start.skip((A::spec_deserialize(start.skip((0nat) as int)).unwrap().1) as int)).unwrap().1 + C::spec_deserialize(start.skip((A::spec_deserialize(start.skip((0nat) as int)).unwrap().1 + B::spec_deserialize(start.skip((A::spec_deserialize(start.skip((0nat) as int)).unwrap().1) as int)).unwrap().1) as int)).unwrap().1) as int)).unwrap().1 + E::spec_deserialize(start.skip((A::spec_deserialize(start.skip((0nat) as int)).unwrap().1 + B::spec_deserialize(start.skip((A::spec_deserialize(start.skip((0nat) as int)).unwrap().1) as int)).unwrap().1 + C::spec_deserialize(start.skip((A::spec_deserialize(start.skip((0nat) as int)).unwrap().1 + B::spec_deserialize(start.skip((A::spec_deserialize(start.skip((0nat) as int)).unwrap().1) as int)).unwrap().1) as int)).unwrap().1 + D::spec_deserialize(start.skip((A::spec_deserialize(start.skip((0nat) as int)).unwrap().1 + B::spec_deserialize(start.skip((A::spec_deserialize(start.skip((0nat) as int)).unwrap().1) as int)).unwrap().1 + C::spec_deserialize(start.skip((A::spec_deserialize(start.skip((0nat) as int)).unwrap().1 + B::spec_deserialize(start.skip((A::spec_deserialize(start.skip((0nat) as int)).unwrap().1) as int)).unwrap().1) as int)).unwrap().1) as int)).unwrap().1) as int)).unwrap().1 + F::spec_deserialize(start.skip((A::spec_deserialize(start.skip((0nat) as int)).unwrap().1 + B::spec_deserialize(start.skip((A::spec_deserialize(start.skip((0nat) as int)).unwrap().1) as int)).unwrap().1 + C::spec_deserialize(start.skip((A::spec_deserialize(start.skip((0nat) as int)).unwrap().1 + B::spec_deserialize(start.skip((A::spec_deserialize(start.skip((0nat) as int)).unwrap().1) as int)).unwrap().1) as int)).unwrap().1 + D::spec_deserialize(start.skip((A::spec_deserialize(start.skip((0nat) as int)).unwrap().1 + B::spec_deserialize(start.skip((A::spec_deserialize(start.skip((0nat) as int)).unwrap().1) as int)).unwrap().1 + C::spec_deserialize(start.skip((A::spec_deserialize(start.skip((0nat) as int)).unwrap().1 + B::spec_deserialize(start.skip((A::spec_deserialize(start.skip((0nat) as int)).unwrap().1) as int)).unwrap().1) as int)).unwrap().1) as int)).unwrap().1 + E::spec_deserialize(start.skip((A::spec_deserialize(start.skip((0nat) as int)).unwrap().1 + B::spec_deserialize(start.skip((A::spec_deserialize(start.skip((0nat) as int)).unwrap().1) as int)).unwrap().1 + C::spec_deserialize(start.skip((A::spec_deserialize(start.skip((0nat) as int)).unwrap().1 + B::spec_deserialize(start.skip((A::spec_deserialize(start.skip((0nat) as int)).unwrap().1) as int)).unwrap().1) as int)).unwrap().1 + D::spec_deserialize(start.skip((A::spec_deserialize(start.skip((0nat) as int)).unwrap().1 + B::spec_deserialize(start.skip((A::spec_deserialize(start.skip((0nat) as int)).unwrap().1) as int)).unwrap().1 + C::spec_deserialize(start.skip((A::spec_deserialize(start.skip((0nat) as int)).unwrap().1 + B::spec_deserialize(start.skip((A::spec_deserialize(start.skip((0nat) as int)).unwrap().1) as int)).unwrap().1) as int)).unwrap().1) as int)).unwrap().1) as int)).unwrap().1) as int)).unwrap().1) as int)).unwrap().1 + H::spec_deserialize(start.skip((A::spec_deserialize(start.skip((0nat) as int)).unwrap().1 + B::spec_deserialize(start.skip((A::spec_deserialize(start.skip((0nat) as int)).unwrap().1) as int)).unwrap().1 + C::spec_deserialize(start.skip((A::spec_deserialize(start.skip((0nat) as int)).unwrap().1 + B::spec_deserialize(start.skip((A::spec_deserialize(start.skip((0nat) as int)).unwrap().1) as int)).unwrap().1) as int)).unwrap().1 + D::spec_deserialize(start.skip((A::spec_deserialize(start.skip((0nat) as int)).unwrap().1 + B::spec_deserialize(start.skip((A::spec_deserialize(start.skip((0nat) as int)).unwrap().1) as int)).unwrap().1 + C::spec_deserialize(start.skip((A::spec_deserialize(start.skip((0nat) as int)).unwrap().1 + B::spec_deserialize(start.skip((A::spec_deserialize(start.skip((0nat) as int)).unwrap().1) as int)).unwrap().1) as int)).unwrap().1) as int)).unwrap().1 + E::spec_deserialize(start.skip((A::spec_deserialize(start.skip((0nat) as int)).unwrap().1 + B::spec_deserialize(start.skip((A::spec_deserialize(start.skip((0nat) as int)).unwrap().1) as int)).unwrap().1 + C::spec_deserialize(start.skip((A::spec_deserialize(start.skip((0nat) as int)).unwrap().1 + B::spec_deserialize(start.skip((A::spec_deserialize(start.skip((0nat) as int)).unwrap().1) as int)).unwrap().1) as int)).unwrap().1 + D::spec_deserialize(start.skip((A::spec_deserialize(start.skip((0nat) as int)).unwrap().1 + B::spec_deserialize(start.skip((A::spec_deserialize(start.skip((0nat) as int)).unwrap().1) as int)).unwrap().1 + C::spec_deserialize(start.skip((A::spec_deserialize(start.skip((0nat) as int)).unwrap().1 + B::spec_deserialize(start.skip((A::spec_deserialize(start.skip((0nat) as int)).unwrap().1) as int)).unwrap().1) as int)).unwrap().1) as int)).unwrap().1) as int)).unwrap().1 + F::spec_deserialize(start.skip((A::spec_deserialize(start.skip((0nat) as int)).unwrap().1 + B::spec_deserialize(start.skip((A::spec_deserialize(start.skip((0nat) as int)).unwrap().1) as int)).unwrap().1 + C::spec_deserialize(start.skip((A::spec_deserialize(start.skip((0nat) as int)).unwrap().1 + B::spec_deserialize(start.skip((A::spec_deserialize(start.skip((0nat) as int)).unwrap().1) as int)).unwrap().1) as int)).unwrap().1 + D::spec_deserialize(start.skip((A::spec_deserialize(start.skip((0nat) as int)).unwrap().1 + B::spec_deserialize(start.skip((A::spec_deserialize(start.skip((0nat) as int)).unwrap().1) as int)).unwrap().1 + C::spec_deserialize(start.skip((A::spec_deserialize(start.skip((0nat) as int)).unwrap().1 + B::spec_deserialize(start.skip((A::spec_deserialize(start.skip((0nat) as int)).unwrap().1) as int)).unwrap().1) as int)).unwrap().1) as int)).unwrap().1 + E::spec_deserialize(start.skip((A::spec_deserialize(start.skip((0nat) as int)).unwrap().1 + B::spec_deserialize(start.skip((A::spec_deserialize(start.skip((0nat) as int)).unwrap().1) as int)).unwrap().1 + C::spec_deserialize(start.skip((A::spec_deserialize(start.skip((0nat) as int)).unwrap().1 + B::spec_deserialize(start.skip((A::spec_deserialize(start.skip((0nat) as int)).unwrap().1) as int)).unwrap().1) as int)).unwrap().1 + D::spec_deserialize(start.skip((A::spec_deserialize(start.skip((0nat) as int)).unwrap().1 + B::spec_deserialize(start.skip((A::spec_deserialize(start.skip((0nat) as int)).unwrap().1) as int)).unwrap().1 + C::spec_deserialize(start.skip((A::spec_deserialize(start.skip((0nat) as int)).unwrap().1 + B::spec_deserialize(start.skip((A::spec_deserialize(start.skip((0nat) as int)).unwrap().1) as int)).unwrap().1) as int)).unwrap().1) as int)).unwrap().1) as int)).unwrap().1) as int)).unwrap().1 + G::spec_deserialize(start.skip((A::spec_deserialize(start.skip((0nat) as int)).unwrap().1 + B::spec_deserialize(start.skip((A::spec_deserialize(start.skip((0nat) as int)).unwrap().1) as int)).unwrap().1 + C::spec_deserialize(start.skip((A::spec_deserialize(start.skip((0nat) as int)).unwrap().1 + B::spec_deserialize(start.skip((A::spec_deserialize(start.skip((0nat) as int)).unwrap().1) as int)).unwrap().1) as int)).unwrap().1 + D::spec_deserialize(start.skip((A::spec_deserialize(start.skip((0nat) as int)).unwrap().1 + B::spec_deserialize(start.skip((A::spec_deserialize(start.skip((0nat) as int)).unwrap().1) as int)).unwrap().1 + C::spec_deserialize(start.skip((A::spec_deserialize(start.skip((0nat) as int)).unwrap().1 + B::spec_deserialize(start.skip((A::spec_deserialize(start.skip((0nat) as int)).unwrap().1) as int)).unwrap().1) as int)).unwrap().1) as int)).unwrap().1 + E::spec_deserialize(start.skip((A::spec_deserialize(start.skip((0nat) as int)).unwrap().1 + B::spec_deserialize(start.skip((A::spec_deserialize(start.skip((0nat) as int)).unwrap().1) as int)).unwrap().1 + C::spec_deserialize(start.skip((A::spec_deserialize(start.skip((0nat) as int)).unwrap().1 + B::spec_deserialize(start.skip((A::spec_deserialize(start.skip((0nat) as int)).unwrap().1) as int)).unwrap().1) as int)).unwrap().1 + D::spec_deserialize(start.skip((A::spec_deserialize(start.skip((0nat) as int)).unwrap().1 + B::spec_deserialize(start.skip((A::spec_deserialize(start.skip((0nat) as int)).unwrap().1) as int)).unwrap().1 + C::spec_deserialize(start.skip((A::spec_deserialize(start.skip((0nat) as int)).unwrap().1 + B::spec_deserialize(start.skip((A::spec_deserialize(start.skip((0nat) as int)).unwrap().1) as int)).unwrap().1) as int)).unwrap().1) as int)).unwrap().1) as int)).unwrap().1 + F::spec_deserialize(start.skip((A::spec_deserialize(start.skip((0nat) as int)).unwrap().1 + B::spec_deserialize(start.skip((A::spec_deserialize(start.skip((0nat) as int)).unwrap().1) as int)).unwrap().1 + C::spec_deserialize(start.skip((A::spec_deserialize(start.skip((0nat) as int)).unwrap().1 + B::spec_deserialize(start.skip((A::spec_deserialize(start.skip((0nat) as int)).unwrap().1) as int)).unwrap().1) as int)).unwrap().1 + D::spec_deserialize(start.skip((A::spec_deserialize(start.skip((0nat) as int)).unwrap().1 + B::spec_deserialize(start.skip((A::spec_deserialize(start.skip((0nat) as int)).unwrap().1) as int)).unwrap().1 + C::spec_deserialize(start.skip((A::spec_deserialize(start.skip((0nat) as int)).unwrap().1 + B::spec_deserialize(start.skip((A::spec_deserialize(start.skip((0nat) as int)).unwrap().1) as int)).unwrap().1) as int)).unwrap().1) as int)).unwrap().1 + E::spec_deserialize(start.skip((A::spec_deserialize(start.skip((0nat) as int)).unwrap().1 + B::spec_deserialize(start.skip((A::spec_deserialize(start.skip((0nat) as int)).unwrap().1) as int)).unwrap().1 + C::spec_deserialize(start.skip((A::spec_deserialize(start.skip((0nat) as int)).unwrap().1 + B::spec_deserialize(start.skip((A::spec_deserialize(start.skip((0nat) as int)).unwrap().1) as int)).unwrap().1) as int)).unwrap().1 + D::spec_deserialize(start.skip((A::spec_deserialize(start.skip((0nat) as int)).unwrap().1 + B::spec_deserialize(start.skip((A::spec_deserialize(start.skip((0nat) as int)).unwrap().1) as int)).unwrap().1 + C::spec_deserialize(start.skip((A::spec_deserialize(start.skip((0nat) as int)).unwrap().1 + B::spec_deserialize(start.skip((A::spec_deserialize(start.skip((0nat) as int)).unwrap().1) as int)).unwrap().1) as int)).unwrap().1) as int)).unwrap().1) as int)).unwrap().1) as int)).unwrap().1) as int)).unwrap().1) as int)).unwrap().1 + I::spec_deserialize(start.skip((A::spec_deserialize(start.skip((0nat) as int)).unwrap().1 + B::spec_deserialize(start.skip((A::spec_deserialize(start.skip((0nat) as int)).unwrap().1) as int)).unwrap().1 + C::spec_deserialize(start.skip((A::spec_deserialize(start.skip((0nat) as int)).unwrap().1 + B::spec_deserialize(start.skip((A::spec_deserialize(start.skip((0nat) as int)).unwrap().1) as int)).unwrap().1) as int)).unwrap().1 + D::spec_deserialize(start.skip((A::spec_deserialize(start.skip((0nat) as int)).unwrap().1 + B::spec_deserialize(start.skip((A::spec_deserialize(start.skip((0nat) as int)).unwrap().1) as int)).unwrap().1 + C::spec_deserialize(start.skip((A::spec_deserialize(start.skip((0nat) as int)).unwrap().1 + B::spec_deserialize(start.skip((A::spec_deserialize(start.skip((0nat) as int)).unwrap().1) as int)).unwrap().1) as int)).unwrap().1) as int)).unwrap().1 + E::spec_deserialize(start.skip((A::spec_deserialize(start.skip((0nat) as int)).unwrap().1 + B::spec_deserialize(start.skip((A::spec_deserialize(start.skip((0nat) as int)).unwrap().1) as int)).unwrap().1 + C::spec_deserialize(start.skip((A::spec_deserialize(start.skip((0nat) as int)).unwrap().1 + B::spec_deserialize(start.skip((A::spec_deserialize(start.skip((0nat) as int)).unwrap().1) as int)).unwrap().1) as int)).unwrap().1 + D::spec_deserialize(start.skip((A::spec_deserialize(start.skip((0nat) as int)).unwrap().1 + B::spec_deserialize(start.skip((A::spec_deserialize(start.skip((0nat) as int)).unwrap().1) as int)).unwrap().1 + C::spec_deserialize(start.skip((A::spec_deserialize(start.skip((0nat) as int)).unwrap().1 + B::spec_deserialize(start.skip((A::spec_deserialize(start.skip((0nat) as int)).unwrap().1) as int)).unwrap().1) as int)).unwrap().1) as int)).unwrap().1) as int)).unwrap().1 + F::spec_deserialize(start.skip((A::spec_deserialize(start.skip((0nat) as int)).unwrap().1 + B::spec_deserialize(start.skip((A::spec_deserialize(start.skip((0nat) as int)).unwrap().1) as int)).unwrap().1 + C::spec_deserialize(start.skip((A::spec_deserialize(start.skip((0nat) as int)).unwrap().1 + B::spec_deserialize(start.skip((A::spec_deserialize(start.skip((0nat) as int)).unwrap().1) as int)).unwrap().1) as int)).unwrap().1 + D::spec_deserialize(start.skip((A::spec_deserialize(start.skip((0nat) as int)).unwrap().1 + B::spec_deserialize(start.skip((A::spec_deserialize(start.skip((0nat) as int)).unwrap().1) as int)).unwrap().1 + C::spec_deserialize(start.skip((A::spec_deserialize(start.skip((0nat) as int)).unwrap().1 + B::spec_deserialize(start.skip((A::spec_deserialize(start.skip((0nat) as int)).unwrap().1) as int)).unwrap().1) as int)).unwrap().1) as int)).unwrap().1 + E::spec_deserialize(start.skip((A::spec_deserialize(start.skip((0nat) as int)).unwrap().1 + B::spec_deserialize(start.skip((A::spec_deserialize(start.skip((0nat) as int)).unwrap().1) as int)).unwrap().1 + C::spec_deserialize(start.skip((A::spec_deserialize(start.skip((0nat) as int)).unwrap().1 + B::spec_deserialize(start.skip((A::spec_deserialize(start.skip((0nat) as int)).unwrap().1) as int)).unwrap().1) as int)).unwrap().1 + D::spec_deserialize(start.skip((A::spec_deserialize(start.skip((0nat) as int)).unwrap().1 + B::spec_deserialize(start.skip((A::spec_deserialize(start.skip((0nat) as int)).unwrap().1) as int)).unwrap().1 + C::spec_deserialize(start.skip((A::spec_deserialize(start.skip((0nat) as int)).unwrap().1 + B::spec_deserialize(start.skip((A::spec_deserialize(start.skip((0nat) as int)).unwrap().1) as int)).unwrap().1) as int)).unwrap().1) as int)).unwrap().1) as int)).unwrap().1) as int)).unwrap().1 + G::spec_deserialize(start.skip((A::spec_deserialize(start.skip((0nat) as int)).unwrap().1 + B::spec_deserialize(start.skip((A::spec_deserialize(start.skip((0nat) as int)).unwrap().1) as int)).unwrap().1 + C::spec_deserialize(start.skip((A::spec_deserialize(start.skip((0nat) as int)).unwrap().1 + B::spec_deserialize(start.skip((A::spec_deserialize(start.skip((0nat) as int)).unwrap().1) as int)).unwrap().1) as int)).unwrap().1 + D::spec_deserialize(start.skip((A::spec_deserialize(start.skip((0nat) as int)).unwrap().1 + B::spec_deserialize(start.skip((A::spec_deserialize(start.skip((0nat) as int)).unwrap().1) as int)).unwrap().1 + C::spec_deserialize(start.skip((A::spec_deserialize(start.skip((0nat) as int)).unwrap().1 + B::spec_deserialize(start.skip((A::spec_deserialize(start.skip((0nat) as int)).unwrap().1) as int)).unwrap().1) as int)).unwrap().1) as int)).unwrap().1 + E::spec_deserialize(start.skip((A::spec_deserialize(start.skip((0nat) as int)).unwrap().1 + B::spec_deserialize(start.skip((A::spec_deserialize(start.skip((0nat) as int)).unwrap().1) as int)).unwrap().1 + C::spec_deserialize(start.skip((A::spec_deserialize(start.skip((0nat) as int)).unwrap().1 + B::spec_deserialize(start.skip((A::spec_deserialize(start.skip((0nat) as int)).unwrap().1) as int)).unwrap().1) as int)).unwrap().1 + D::spec_deserialize(start.skip((A::spec_deserialize(start.skip((0nat) as int)).unwrap().1 + B::spec_deserialize(start.skip((A::spec_deserialize(start.skip((0nat) as int)).unwrap().1) as int)).unwrap().1 + C::spec_deserialize(start.skip((A::spec_deserialize(start.skip((0nat) as int)).unwrap().1 + B::spec_deserialize(start.skip((A::spec_deserialize(start.skip((0nat) as int)).unwrap().1) as int)).unwrap().1) as int)).unwrap().1) as int)).unwrap().1) as int)).unwrap().1 + F::spec_deserialize(start.skip((A::spec_deserialize(start.skip((0nat) as int)).unwrap().1 + B::spec_deserialize(start.skip((A::spec_deserialize(start.skip((0nat) as int)).unwrap().1) as int)).unwrap().1 + C::spec_deserialize(start.skip((A::spec_deserialize(start.skip((0nat) as int)).unwrap().1 + B::spec_deserialize(start.skip((A::spec_deserialize(start.skip((0nat) as int)).unwrap().1) as int)).unwrap().1) as int)).unwrap().1 + D::spec_deserialize(start.skip((A::spec_deserialize(start.skip((0nat) as int)).unwrap().1 + B::spec_deserialize(start.skip((A::spec_deserialize(start.skip((0nat) as int)).unwrap().1) as int)).unwrap().1 + C::spec_deserialize(start.skip((A::spec_deserialize(start.skip((0nat) as int)).unwrap().1 + B::spec_deserialize(start.skip((A::spec_deserialize(start.skip((0nat) as int)).unwrap().1) as int)).unwrap().1) as int)).unwrap().1) as int)).unwrap().1 + E::spec_deserialize(start.skip((A::spec_deserialize(start.skip((0nat) as int)).unwrap().1 + B::spec_deserialize(start.skip((A::spec_deserialize(start.skip((0nat) as int)).unwrap().1) as int)).unwrap().1 + C::spec_deserialize(start.skip((A::spec_deserialize(start.skip((0nat) as int)).unwrap().1 + B::spec_deserialize(start.skip((A::spec_deserialize(start.skip((0nat) as int)).unwrap().1) as int)).unwrap().1) as int)).unwrap().1 + D::spec_deserialize(start.skip((A::spec_deserialize(start.skip((0nat) as int)).unwrap().1 + B::spec_deserialize(start.skip((A::spec_deserialize(start.skip((0nat) as int)).unwrap().1) as int)).unwrap().1 + C::spec_deserialize(start.skip((A::spec_deserialize(start.skip((0nat) as int)).unwrap().1 + B::spec_deserialize(start.skip((A::spec_deserialize(start.skip((0nat) as int)).unwrap().1) as int)).unwrap().1) as int)).unwrap().1) as int)).unwrap().1) as int)).unwrap().1) as int)).unwrap().1) as int)).unwrap().1 + H::spec_deserialize(start.skip((A::spec_deserialize(start.skip((0nat) as int)).unwrap().1 + B::spec_deserialize(start.skip((A::spec_deserialize(start.skip((0nat) as int)).unwrap().1) as int)).unwrap().1 + C::spec_deserialize(start.skip((A::spec_deserialize(start.skip((0nat) as int)).unwrap().1 + B::spec_deserialize(start.skip((A::spec_deserialize(start.skip((0nat) as int)).unwrap().1) as int)).unwrap().1) as int)).unwrap().1 + D::spec_deserialize(start.skip((A::spec_deserialize(start.skip((0nat) as int)).unwrap().1 + B::spec_deserialize(start.skip((A::spec_deserialize(start.skip((0nat) as int)).unwrap().1) as int)).unwrap().1 + C::spec_deserialize(start.skip((A::spec_deserialize(start.skip((0nat) as int)).unwrap().1 + B::spec_deserialize(start.skip((A::spec_deserialize(start.skip((0nat) as int)).unwrap().1) as int)).unwrap().1) as int)).unwrap().1) as int)).unwrap().1 + E::spec_deserialize(start.skip((A::spec_deserialize(start.skip((0nat) as int)).unwrap().1 + B::spec_deserialize(start.skip((A::spec_deserialize(start.skip((0nat) as int)).unwrap().1) as int)).unwrap().1 + C::spec_deserialize(start.skip((A::spec_deserialize(start.skip((0nat) as int)).unwrap().1 + B::spec_deserialize(start.skip((A::spec_deserialize(start.skip((0nat) as int)).unwrap().1) as int)).unwrap().1) as int)).unwrap().1 + D::spec_deserialize(start.skip((A::spec_deserialize(start.skip((0nat) as int)).unwrap().1 + B::spec_deserialize(start.skip((A::spec_deserialize(start.skip((0nat) as int)).unwrap().1) as int)).unwrap().1 + C::spec_deserialize(start.skip((A::spec_deserialize(start.skip((0nat) as int)).unwrap().1 + B::spec_deserialize(start.skip((A::spec_deserialize(start.skip((0nat) as int)).unwrap().1) as int)).unwrap().1) as int)).unwrap().1) as int)).unwrap().1) as int)).unwrap().1 + F::spec_deserialize(start.skip((A::spec_deserialize(start.skip((0nat) as int)).unwrap().1 + B::spec_deserialize(start.skip((A::spec_deserialize(start.skip((0nat) as int)).unwrap().1) as int)).unwrap().1 + C::spec_deserialize(start.skip((A::spec_deserialize(start.skip((0nat) as int)).unwrap().1 + B::spec_deserialize(start.skip((A::spec_deserialize(start.skip((0nat) as int)).unwrap().1) as int)).unwrap().1) as int)).unwrap().1 + D::spec_deserialize(start.skip((A::spec_deserialize(start.skip((0nat) as int)).unwrap().1 + B::spec_deserialize(start.skip((A::spec_deserialize(start.skip((0nat) as int)).unwrap().1) as int)).unwrap().1 + C::spec_deserialize(start.skip((A::spec_deserialize(start.skip((0nat) as int)).unwrap().1 + B::spec_deserialize(start.skip((A::spec_deserialize(start.skip((0nat) as int)).unwrap().1) as int)).unwrap().1) as int)).unwrap().1) as int)).unwrap().1 + E::spec_deserialize(start.skip((A::spec_deserialize(start.skip((0nat) as int)).unwrap().1 + B::spec_deserialize(start.skip((A::spec_deserialize(start.skip((0nat) as int)).unwrap().1) as int)).unwrap().1 + C::spec_deserialize(start.skip((A::spec_deserialize(start.skip((0nat) as int)).unwrap().1 + B::spec_deserialize(start.skip((A::spec_deserialize(start.skip((0nat) as int)).unwrap().1) as int)).unwrap().1) as int)).unwrap().1 + D::spec_deserialize(start.skip((A::spec_deserialize(start.skip((0nat) as int)).unwrap().1 + B::spec_deserialize(start.skip((A::spec_deserialize(start.skip((0nat) as int)).unwrap().1) as int)).unwrap().1 + C::spec_deserialize(start.skip((A::spec_deserialize(start.skip((0nat) as int)).unwrap().1 + B::spec_deserialize(start.skip((A::spec_deserialize(start.skip((0nat) as int)).unwrap().1) as int)).unwrap().1) as int)).unwrap().1) as int)).unwrap().1) as int)).unwrap().1) as int)).unwrap().1 + G::spec_deserialize(start.skip((A::spec_deserialize(start.skip((0nat) as int)).unwrap().1 + B::spec_deserialize(start.skip((A::spec_deserialize(start.skip((0nat) as int)).unwrap().1) as int)).unwrap().1 + C::spec_deserialize(start.skip((A::spec_deserialize(start.skip((0nat) as int)).unwrap().1 + B::spec_deserialize(start.skip((A::spec_deserialize(start.skip((0nat) as int)).unwrap().1) as int)).unwrap().1) as int)).unwrap().1 + D::spec_deserialize(start.skip((A::spec_deserialize(start.skip((0nat) as int)).unwrap().1 + B::spec_deserialize(start.skip((A::spec_deserialize(start.skip((0nat) as int)).unwrap().1) as int)).unwrap().1 + C::spec_deserialize(start.skip((A::spec_deserialize(start.skip((0nat) as int)).unwrap().1 + B::spec_deserialize(start.skip((A::spec_deserialize(start.skip((0nat) as int)).unwrap().1) as int)).unwrap().1) as int)).unwrap().1) as int)).unwrap().1 + E::spec_deserialize(start.skip((A::spec_deserialize(start.skip((0nat) as int)).unwrap().1 + B::spec_deserialize(start.skip((A::spec_deserialize(start.skip((0nat) as int)).unwrap().1) as int)).unwrap().1 + C::spec_deserialize(start.skip((A::spec_deserialize(start.skip((0nat) as int)).unwrap().1 + B::spec_deserialize(start.skip((A::spec_deserialize(start.skip((0nat) as int)).unwrap().1) as int)).unwrap().1) as int)).unwrap().1 + D::spec_deserialize(start.skip((A::spec_deserialize(start.skip((0nat) as int)).unwrap().1 + B::spec_deserialize(start.skip((A::spec_deserialize(start.skip((0nat) as int)).unwrap().1) as int)).unwrap().1 + C::spec_deserialize(start.skip((A::spec_deserialize(start.skip((0nat) as int)).unwrap().1 + B::spec_deserialize(start.skip((A::spec_deserialize(start.skip((0nat) as int)).unwrap().1) as int)).unwrap().1) as int)).unwrap().1) as int)).unwrap().1) as int)).unwrap().1 + F::spec_deserialize(start.skip((A::spec_deserialize(start.skip((0nat) as int)).unwrap().1 + B::spec_deserialize(start.skip((A::spec_deserialize(start.skip((0nat) as int)).unwrap().1) as int)).unwrap().1 + C::spec_deserialize(start.skip((A::spec_deserialize(start.skip((0nat) as int)).unwrap().1 + B::spec_deserialize(start.skip((A::spec_deserialize(start.skip((0nat) as int)).unwrap().1) as int)).unwrap().1) as int)).unwrap().1 + D::spec_deserialize(start.skip((A::spec_deserialize(start.skip((0nat) as int)).unwrap().1 + B::spec_deserialize(start.skip((A::spec_deserialize(start.skip((0nat) as int)).unwrap().1) as int)).unwrap().1 + C::spec_deserialize(start.skip((A::spec_deserialize(start.skip((0nat) as int)).unwrap().1 + B::spec_deserialize(start.skip((A::spec_deserialize(start.skip((0nat) as int)).unwrap().1) as int)).unwrap().1) as int)).unwrap().1) as int)).unwrap().1 + E::spec_deserialize(start.skip((A::spec_deserialize(start.skip((0nat) as int)).unwrap().1 + B::spec_deserialize(start.skip((A::spec_deserialize(start.skip((0nat) as int)).unwrap().1) as int)).unwrap().1 + C::spec_deserialize(start.skip((A::spec_deserialize(start.skip((0nat) as int)).unwrap().1 + B::spec_deserialize(start.skip((A::spec_deserialize(start.skip((0nat) as int)).unwrap().1) as int)).unwrap().1) as int)).unwrap().1 + D::spec_deserialize(start.skip((A::spec_deserialize(start.skip((0nat) as int)).unwrap().1 + B::spec_deserialize(start.skip((A::spec_deserialize(start.skip((0nat) as int)).unwrap().1) as int)).unwrap().1 + C::spec_deserialize(start.skip((A::spec_deserialize(start.skip((0nat) as int)).unwrap().1 + B::spec_deserialize(start.skip((A::spec_deserialize(start.skip((0nat) as int)).unwrap().1) as int)).unwrap().1) as int)).unwrap().1) as int)).unwrap().1) as int)).unwrap().1) as int)).unwrap().1) as int)).unwrap().1) as int)).unwrap().1) as int)).unwrap().1 + J::spec_deserialize(start.skip((A::spec_deserialize(start.skip((0nat) as int)).unwrap().1 + B::spec_deserialize(start.skip((A::spec_deserialize(start.skip((0nat) as int)).unwrap().1) as int)).unwrap().1 + C::spec_deserialize(start.skip((A::spec_deserialize(start.skip((0nat) as int)).unwrap().1 + B::spec_deserialize(start.skip((A::spec_deserialize(start.skip((0nat) as int)).unwrap().1) as int)).unwrap().1) as int)).unwrap().1 + D::spec_deserialize(start.skip((A::spec_deserialize(start.skip((0nat) as int)).unwrap().1 + B::spec_deserialize(start.skip((A::spec_deserialize(start.skip((0nat) as int)).unwrap().1) as int)).unwrap().1 + C::spec_deserialize(start.skip((A::spec_deserialize(start.skip((0nat) as int)).unwrap().1 + B::spec_deserialize(start.skip((A::spec_deserialize(start.skip((0nat) as int)).unwrap().1) as int)).unwrap().1) as int)).unwrap().1) as int)).unwrap().1 + E::spec_deserialize(start.skip((A::spec_deserialize(start.skip((0nat) as int)).unwrap().1 + B::spec_deserialize(start.skip((A::spec_deserialize(start.skip((0nat) as int)).unwrap().1) as int)).unwrap().1 + C::spec_deserialize(start.skip((A::spec_deserialize(start.skip((0nat) as int)).unwrap().1 + B::spec_deserialize(start.skip((A::spec_deserialize(start.skip((0nat) as int)).unwrap().1) as int)).unwrap().1) as int)).unwrap().1 + D::spec_deserialize(start.skip((A::spec_deserialize(start.skip((0nat) as int)).unwrap().1 + B::spec_deserialize(start.skip((A::spec_deserialize(start.skip((0nat) as int)).unwrap().1) as int)).unwrap().1 + C::spec_deserialize(start.skip((A::spec_deserialize(start.skip((0nat) as int)).unwrap().1 + B::spec_deserialize(start.skip((A::spec_deserialize(start.skip((0nat) as int)).unwrap().1) as int)).unwrap().1) as int)).unwrap().1) as int)).unwrap().1) as int)).unwrap().1 + F::spec_deserialize(start.skip((A::spec_deserialize(start.skip((0nat) as int)).unwrap().1 + B::spec_deserialize(start.skip((A::spec_deserialize(start.skip((0nat) as int)).unwrap().1) as int)).unwrap().1 + C::spec_deserialize(start.skip((A::spec_deserialize(start.skip((0nat) as int)).unwrap().1 + B::spec_deserialize(start.skip((A::spec_deserialize(start.skip((0nat) as int)).unwrap().1) as int)).unwrap().1) as int)).unwrap().1 + D::spec_deserialize(start.skip((A::spec_deserialize(start.skip((0nat) as int)).unwrap().1 + B::spec_deserialize(start.skip((A::spec_deserialize(start.skip((0nat) as int)).unwrap().1) as int)).unwrap().1 + C::spec_deserialize(start.skip((A::spec_deserialize(start.skip((0nat) as int)).unwrap().1 + B::spec_deserialize(start.skip((A::spec_deserialize(start.skip((0nat) as int)).unwrap().1) as int)).unwrap().1) as int)).unwrap().1) as int)).unwrap().1 + E::spec_deserialize(start.skip((A::spec_deserialize(start.skip((0nat) as int)).unwrap().1 + B::spec_deserialize(start.skip((A::spec_deserialize(start.skip((0nat) as int)).unwrap().1) as int)).unwrap().1 + C::spec_deserialize(start.skip((A::spec_deserialize(start.skip((0nat) as int)).unwrap().1 + B::spec_deserialize(start.skip((A::spec_deserialize(start.skip((0nat) as int)).unwrap().1) as int)).unwrap().1) as int)).unwrap().1 + D::spec_deserialize(start.skip((A::spec_deserialize(start.skip((0nat) as int)).unwrap().1 + B::spec_deserialize(start.skip((A::spec_deserialize(start.skip((0nat) as int)).unwrap().1) as int)).unwrap().1 + C::spec_deserialize(start.skip((A::spec_deserialize(start.skip((0nat) as int)).unwrap().1 + B::spec_deserialize(start.skip((A::spec_deserialize(start.skip((0nat) as int)).unwrap().1) as int)).unwrap().1) as int)).unwrap().1) as int)).unwrap().1) as int)).unwrap().1) as int)).unwrap().1 + G::spec_deserialize(start.skip((A::spec_deserialize(start.skip((0nat) as int)).unwrap().1 + B::spec_deserialize(start.skip((A::spec_deserialize(start.skip((0nat) as int)).unwrap().1) as int)).unwrap().1 + C::spec_deserialize(start.skip((A::spec_deserialize(start.skip((0nat) as int)).unwrap().1 + B::spec_deserialize(start.skip((A::spec_deserialize(start.skip((0nat) as int)).unwrap().1) as int)).unwrap().1) as int)).unwrap().1 + D::spec_deserialize(start.skip((A::spec_deserialize(start.skip((0nat) as int)).unwrap().1 + B::spec_deserialize(start.skip((A::spec_deserialize(start.skip((0nat) as int)).unwrap().1) as int)).unwrap().1 + C::spec_deserialize(start.skip((A::spec_deserialize(start.skip((0nat) as int)).unwrap().1 + B::spec_deserialize(start.skip((A::spec_deserialize(start.skip((0nat) as int)).unwrap().1) as int)).unwrap().1) as int)).unwrap().1) as int)).unwrap().1 + E::spec_deserialize(start.skip((A::spec_deserialize(start.skip((0nat) as int)).unwrap().1 + B::spec_deserialize(start.skip((A::spec_deserialize(start.skip((0nat) as int)).unwrap().1) as int)).unwrap().1 + C::spec_deserialize(start.skip((A::spec_deserialize(start.skip((0nat) as int)).unwrap().1 + B::spec_deserialize(start.skip((A::spec_deserialize(start.skip((0nat) as int)).unwrap().1) as int)).unwrap().1) as int)).unwrap().1 + D::spec_deserialize(start.skip((A::spec_deserialize(start.skip((0nat) as int)).unwrap().1 + B::spec_deserialize(start.skip((A::spec_deserialize(start.skip((0nat) as int)).unwrap().1) as int)).unwrap().1 + C::spec_deserialize(start.skip((A::spec_deserialize(start.skip((0nat) as int)).unwrap().1 + B::spec_deserialize(start.skip((A::spec_deserialize(start.skip((0nat) as int)).unwrap().1) as int)).unwrap().1) as int)).unwrap().1) as int)).unwrap().1) as int)).unwrap().1 + F::spec_deserialize(start.skip((A::spec_deserialize(start.skip((0nat) as int)).unwrap().1 + B::spec_deserialize(start.skip((A::spec_deserialize(start.skip((0nat) as int)).unwrap().1) as int)).unwrap().1 + C::spec_deserialize(start.skip((A::spec_deserialize(start.skip((0nat) as int)).unwrap().1 + B::spec_deserialize(start.skip((A::spec_deserialize(start.skip((0nat) as int)).unwrap().1) as int)).unwrap().1) as int)).unwrap().1 + D::spec_deserialize(start.skip((A::spec_deserialize(start.skip((0nat) as int)).unwrap().1 + B::spec_deserialize(start.skip((A::spec_deserialize(start.skip((0nat) as int)).unwrap().1) as int)).unwrap().1 + C::spec_deserialize(start.skip((A::spec_deserialize(start.skip((0nat) as int)).unwrap().1 + B::spec_deserialize(start.skip((A::spec_deserialize(start.skip((0nat) as int)).unwrap().1) as int)).unwrap().1) as int)).unwrap().1) as int)).unwrap().1 + E::spec_deserialize(start.skip((A::spec_deserialize(start.skip((0nat) as int)).unwrap().1 + B::spec_deserialize(start.skip((A::spec_deserialize(start.skip((0nat) as int)).unwrap().1) as int)).unwrap().1 + C::spec_deserialize(start.skip((A::spec_deserialize(start.skip((0nat) as int)).unwrap().1 + B::spec_deserialize(start.skip((A::spec_deserialize(start.skip((0nat) as int)).unwrap().1) as int)).unwrap().1) as int)).unwrap().1 + D::spec_deserialize(start.skip((A::spec_deserialize(start.skip((0nat) as int)).unwrap().1 + B::spec_deserialize(start.skip((A::spec_deserialize(start.skip((0nat) as int)).unwrap().1) as int)).unwrap().1 + C::spec_deserialize(start.skip((A::spec_deserialize(start.skip((0nat) as int)).unwrap().1 + B::spec_deserialize(start.skip((A::spec_deserialize(start.skip((0nat) as int)).unwrap().1) as int)).unwrap().1) as int)).unwrap().1) as int)).unwrap().1) as int)).unwrap().1) as int)).unwrap().1) as int)).unwrap().1 + H::spec_deserialize(start.skip((A::spec_deserialize(start.skip((0nat) as int)).unwrap().1 + B::spec_deserialize(start.skip((A::spec_deserialize(start.skip((0nat) as int)).unwrap().1) as int)).unwrap().1 + C::spec_deserialize(start.skip((A::spec_deserialize(start.skip((0nat) as int)).unwrap().1 + B::spec_deserialize(start.skip((A::spec_deserialize(start.skip((0nat) as int)).unwrap().1) as int)).unwrap().1) as int)).unwrap().1 + D::spec_deserialize(start.skip((A::spec_deserialize(start.skip((0nat) as int)).unwrap().1 + B::spec_deserialize(start.skip((A::spec_deserialize(start.skip((0nat) as int)).unwrap().1) as int)).unwrap().1 + C::spec_deserialize(start.skip((A::spec_deserialize(start.skip((0nat) as int)).unwrap().1 + B::spec_deserialize(start.skip((A::spec_deserialize(start.skip((0nat) as int)).unwrap().1) as int)).unwrap().1) as int)).unwrap().1) as int)).unwrap().1 + E::spec_deserialize(start.skip((A::spec_deserialize(start.skip((0nat) as int)).unwrap().1 + B::spec_deserialize(start.skip((A::spec_deserialize(start.skip((0nat) as int)).unwrap().1) as int)).unwrap().1 + C::spec_deserialize(start.skip((A::spec_deserialize(start.skip((0nat) as int)).unwrap().1 + B::spec_deserialize(start.skip((A::spec_deserialize(start.skip((0nat) as int)).unwrap().1) as int)).unwrap().1) as int)).unwrap().1 + D::spec_deserialize(start.skip((A::spec_deserialize(start.skip((0nat) as int)).unwrap().1 + B::spec_deserialize(start.skip((A::spec_deserialize(start.skip((0nat) as int)).unwrap().1) as int)).unwrap().1 + C::spec_deserialize(start.skip((A::spec_deserialize(start.skip((0nat) as int)).unwrap().1 + B::spec_deserialize(start.skip((A::spec_deserialize(start.skip((0nat) as int)).unwrap().1) as int)).unwrap().1) as int)).unwrap().1) as int)).unwrap().1) as int)).unwrap().1 + F::spec_deserialize(start.skip((A::spec_deserialize(start.skip((0nat) as int)).unwrap().1 + B::spec_deserialize(start.skip((A::spec_deserialize(start.skip((0nat) as int)).unwrap().1) as int)).unwrap().1 + C::spec_deserialize(start.skip((A::spec_deserialize(start.skip((0nat) as int)).unwrap().1 + B::spec_deserialize(start.skip((A::spec_deserialize(start.skip((0nat) as int)).unwrap().1) as int)).unwrap().1) as int)).unwrap().1 + D::spec_deserialize(start.skip((A::spec_deserialize(start.skip((0nat) as int)).unwrap().1 + B::spec_deserialize(start.skip((A::spec_deserialize(start.skip((0nat) as int)).unwrap().1) as int)).unwrap().1 + C::spec_deserialize(start.skip((A::spec_deserialize(start.skip((0nat) as int)).unwrap().1 + B::spec_deserialize(start.skip((A::spec_deserialize(start.skip((0nat) as int)).unwrap().1) as int)).unwrap().1) as int)).unwrap().1) as int)).unwrap().1 + E::spec_deserialize(start.skip((A::spec_deserialize(start.skip((0nat) as int)).unwrap().1 + B::spec_deserialize(start.skip((A::spec_deserialize(start.skip((0nat) as int)).unwrap().1) as int)).unwrap().1 + C::spec_deserialize(start.skip((A::spec_deserialize(start.skip((0nat) as int)).unwrap().1 + B::spec_deserialize(start.skip((A::spec_deserialize(start.skip((0nat) as int)).unwrap().1) as int)).unwrap().1) as int)).unwrap().1 + D::spec_deserialize(start.skip((A::spec_deserialize(start.skip((0nat) as int)).unwrap().1 + B::spec_deserialize(start.skip((A::spec_deserialize(start.skip((0nat) as int)).unwrap().1) as int)).unwrap().1 + C::spec_deserialize(start.skip((A::spec_deserialize(start.skip((0nat) as int)).unwrap().1 + B::spec_deserialize(start.skip((A::spec_deserialize(start.skip((0nat) as int)).unwrap().1) as int)).unwrap().1) as int)).unwrap().1) as int)).unwrap().1) as int)).unwrap().1) as int)).unwrap().1 + G::spec_deserialize(start.skip((A::spec_deserialize(start.skip((0nat) as int)).unwrap().1 + B::spec_deserialize(start.skip((A::spec_deserialize(start.skip((0nat) as int)).unwrap().1) as int)).unwrap().1 + C::spec_deserialize(start.skip((A::spec_deserialize(start.skip((0nat) as int)).unwrap().1 + B::spec_deserialize(start.skip((A::spec_deserialize(start.skip((0nat) as int)).unwrap().1) as int)).unwrap().1) as int)).unwrap().1 + D::spec_deserialize(start.skip((A::spec_deserialize(start.skip((0nat) as int)).unwrap().1 + B::spec_deserialize(start.skip((A::spec_deserialize(start.skip((0nat) as int)).unwrap().1) as int)).unwrap().1 + C::spec_deserialize(start.skip((A::spec_deserialize(start.skip((0nat) as int)).unwrap().1 + B::spec_deserialize(start.skip((A::spec_deserialize(start.skip((0nat) as int)).unwrap().1) as int)).unwrap().1) as int)).unwrap().1) as int)).unwrap().1 + E::spec_deserialize(start.skip((A::spec_deserialize(start.skip((0nat) as int)).unwrap().1 + B::spec_deserialize(start.skip((A::spec_deserialize(start.skip((0nat) as int)).unwrap().1) as int)).unwrap().1 + C::spec_deserialize(start.skip((A::spec_deserialize(start.skip((0nat) as int)).unwrap().1 + B::spec_deserialize(start.skip((A::spec_deserialize(start.skip((0nat) as int)).unwrap().1) as int)).unwrap().1) as int)).unwrap().1 + D::spec_deserialize(start.skip((A::spec_deserialize(start.skip((0nat) as int)).unwrap().1 + B::spec_deserialize(start.skip((A::spec_deserialize(start.skip((0nat) as int)).unwrap().1) as int)).unwrap().1 + C::spec_deserialize(start.skip((A::spec_deserialize(start.skip((0nat) as int)).unwrap().1 + B::spec_deserialize(start.skip((A::spec_deserialize(start.skip((0nat) as int)).unwrap().1) as int)).unwrap().1) as int)).unwrap().1) as int)).unwrap().1) as int)).unwrap().1 + F::spec_deserialize(start.skip((A::spec_deserialize(start.skip((0nat) as int)).unwrap().1 + B::spec_deserialize(start.skip((A::spec_deserialize(start.skip((0nat) as int)).unwrap().1) as int)).unwrap().1 + C::spec_deserialize(start.skip((A::spec_deserialize(start.skip((0nat) as int)).unwrap().1 + B::spec_deserialize(start.skip((A::spec_deserialize(start.skip((0nat) as int)).unwrap().1) as int)).unwrap().1) as int)).unwrap().1 + D::spec_deserialize(start.skip((A::spec_deserialize(start.skip((0nat) as int)).unwrap().1 + B::spec_deserialize(start.skip((A::spec_deserialize(start.skip((0nat) as int)).unwrap().1) as int)).unwrap().1 + C::spec_deserialize(start.skip((A::spec_deserialize(start.skip((0nat) as int)).unwrap().1 + B::spec_deserialize(start.skip((A::spec_deserialize(start.skip((0nat) as int)).unwrap().1) as int)).unwrap().1) as int)).unwrap().1) as int)).unwrap().1 + E::spec_deserialize(start.skip((A::spec_deserialize(start.skip((0nat) as int)).unwrap().1 + B::spec_deserialize(start.skip((A::spec_deserialize(start.skip((0nat) as int)).unwrap().1) as int)).unwrap().1 + C::spec_deserialize(start.skip((A::spec_deserialize(start.skip((0nat) as int)).unwrap().1 + B::spec_deserialize(start.skip((A::spec_deserialize(start.skip((0nat) as int)).unwrap().1) as int)).unwrap().1) as int)).unwrap().1 + D::spec_deserialize(start.skip((A::spec_deserialize(start.skip((0nat) as int)).unwrap().1 + B::spec_deserialize(start.skip((A::spec_deserialize(start.skip((0nat) as int)).unwrap().1) as int)).unwrap().1 + C::spec_deserialize(start.skip((A::spec_deserialize(start.skip((0nat) as int)).unwrap().1 + B::spec_deserialize(start.skip((A::spec_deserialize(start.skip((0nat) as int)).unwrap().1) as int)).unwrap().1) as int)).unwrap().1) as int)).unwrap().1) as int)).unwrap().1) as int)).unwrap().1) as int)).unwrap().1) as int)).unwrap().1 + I::spec_deserialize(start.skip((A::spec_deserialize(start.skip((0nat) as int)).unwrap().1 + B::spec_deserialize(start.skip((A::spec_deserialize(start.skip((0nat) as int)).unwrap().1) as int)).unwrap().1 + C::spec_deserialize(start.skip((A::spec_deserialize(start.skip((0nat) as int)).unwrap().1 + B::spec_deserialize(start.skip((A::spec_deserialize(start.skip((0nat) as int)).unwrap().1) as int)).unwrap().1) as int)).unwrap().1 + D::spec_deserialize(start.skip((A::spec_deserialize(start.skip((0nat) as int)).unwrap().1 + B::spec_deserialize(start.skip((A::spec_deserialize(start.skip((0nat) as int)).unwrap().1) as int)).unwrap().1 + C::spec_deserialize(start.skip((A::spec_deserialize(start.skip((0nat) as int)).unwrap().1 + B::spec_deserialize(start.skip((A::spec_deserialize(start.skip((0nat) as int)).unwrap().1) as int)).unwrap().1) as int)).unwrap().1) as int)).unwrap().1 + E::spec_deserialize(start.skip((A::spec_deserialize(start.skip((0nat) as int)).unwrap().1 + B::spec_deserialize(start.skip((A::spec_deserialize(start.skip((0nat) as int)).unwrap().1) as int)).unwrap().1 + C::spec_deserialize(start.skip((A::spec_deserialize(start.skip((0nat) as int)).unwrap().1 + B::spec_deserialize(start.skip((A::spec_deserialize(start.skip((0nat) as int)).unwrap().1) as int)).unwrap().1) as int)).unwrap().1 + D::spec_deserialize(start.skip((A::spec_deserialize(start.skip((0nat) as int)).unwrap().1 + B::spec_deserialize(start.skip((A::spec_deserialize(start.skip((0nat) as int)).unwrap().1) as int)).unwrap().1 + C::spec_deserialize(start.skip((A::spec_deserialize(start.skip((0nat) as int)).unwrap().1 + B::spec_deserialize(start.skip((A::spec_deserialize(start.skip((0nat) as int)).unwrap().1) as int)).unwrap().1) as int)).unwrap().1) as int)).unwrap().1) as int)).unwrap().1 + F::spec_deserialize(start.skip((A::spec_deserialize(start.skip((0nat) as int)).unwrap().1 + B::spec_deserialize(start.skip((A::spec_deserialize(start.skip((0nat) as int)).unwrap().1) as int)).unwrap().1 + C::spec_deserialize(start.skip((A::spec_deserialize(start.skip((0nat) as int)).unwrap().1 + B::spec_deserialize(start.skip((A::spec_deserialize(start.skip((0nat) as int)).unwrap().1) as int)).unwrap().1) as int)).unwrap().1 + D::spec_deserialize(start.skip((A::spec_deserialize(start.skip((0nat) as int)).unwrap().1 + B::spec_deserialize(start.skip((A::spec_deserialize(start.skip((0nat) as int)).unwrap().1) as int)).unwrap().1 + C::spec_deserialize(start.skip((A::spec_deserialize(start.skip((0nat) as int)).unwrap().1 + B::spec_deserialize(start.skip((A::spec_deserialize(start.skip((0nat) as int)).unwrap().1) as int)).unwrap().1) as int)).unwrap().1) as int)).unwrap().1 + E::spec_deserialize(start.skip((A::spec_deserialize(start.skip((0nat) as int)).unwrap().1 + B::spec_deserialize(start.skip((A::spec_deserialize(start.skip((0nat) as int)).unwrap().1) as int)).unwrap().1 + C::spec_deserialize(start.skip((A::spec_deserialize(start.skip((0nat) as int)).unwrap().1 + B::spec_deserialize(start.skip((A::spec_deserialize(start.skip((0nat) as int)).unwrap().1) as int)).unwrap().1) as int)).unwrap().1 + D::spec_deserialize(start.skip((A::spec_deserialize(start.skip((0nat) as int)).unwrap().1 + B::spec_deserialize(start.skip((A::spec_deserialize(start.skip((0nat) as int)).unwrap().1) as int)).unwrap().1 + C::spec_deserialize(start.skip((A::spec_deserialize(start.skip((0nat) as int)).unwrap().1 + B::spec_deserialize(start.skip((A::spec_deserialize(start.skip((0nat) as int)).unwrap().1) as int)).unwrap().1) as int)).unwrap().1) as int)).unwrap().1) as int)).unwrap().1) as int)).unwrap().1 + G::spec_deserialize(start.skip((A::spec_deserialize(start.skip((0nat) as int)).unwrap().1 + B::spec_deserialize(start.skip((A::spec_deserialize(start.skip((0nat) as int)).unwrap().1) as int)).unwrap().1 + C::spec_deserialize(start.skip((A::spec_deserialize(start.skip((0nat) as int)).unwrap().1 + B::spec_deserialize(start.skip((A::spec_deserialize(start.skip((0nat) as int)).unwrap().1) as int)).unwrap().1) as int)).unwrap().1 + D::spec_deserialize(start.skip((A::spec_deserialize(start.skip((0nat) as int)).unwrap().1 + B::spec_deserialize(start.skip((A::spec_deserialize(start.skip((0nat) as int)).unwrap().1) as int)).unwrap().1 + C::spec_deserialize(start.skip((A::spec_deserialize(start.skip((0nat) as int)).unwrap().1 + B::spec_deserialize(start.skip((A::spec_deserialize(start.skip((0nat) as int)).unwrap().1) as int)).unwrap().1) as int)).unwrap().1) as int)).unwrap().1 + E::spec_deserialize(start.skip((A::spec_deserialize(start.skip((0nat) as int)).unwrap().1 + B::spec_deserialize(start.skip((A::spec_deserialize(start.skip((0nat) as int)).unwrap().1) as int)).unwrap().1 + C::spec_deserialize(start.skip((A::spec_deserialize(start.skip((0nat) as int)).unwrap().1 + B::spec_deserialize(start.skip((A::spec_deserialize(start.skip((0nat) as int)).unwrap().1) as int)).unwrap().1) as int)).unwrap().1 + D::spec_deserialize(start.skip((A::spec_deserialize(start.skip((0nat) as int)).unwrap().1 + B::spec_deserialize(start.skip((A::spec_deserialize(start.skip((0nat) as int)).unwrap().1) as int)).unwrap().1 + C::spec_deserialize(start.skip((A::spec_deserialize(start.skip((0nat) as int)).unwrap().1 + B::spec_deserialize(start.skip((A::spec_deserialize(start.skip((0nat) as int)).unwrap().1) as int)).unwrap().1) as int)).unwrap().1) as int)).unwrap().1) as int)).unwrap().1 + F::spec_deserialize(start.skip((A::spec_deserialize(start.skip((0nat) as int)).unwrap().1 + B::spec_deserialize(start.skip((A::spec_deserialize(start.skip((0nat) as int)).unwrap().1) as int)).unwrap().1 + C::spec_deserialize(start.skip((A::spec_deserialize(start.skip((0nat) as int)).unwrap().1 + B::spec_deserialize(start.skip((A::spec_deserialize(start.skip((0nat) as int)).unwrap().1) as int)).unwrap().1) as int)).unwrap().1 + D::spec_deserialize(start.skip((A::spec_deserialize(start.skip((0nat) as int)).unwrap().1 + B::spec_deserialize(start.skip((A::spec_deserialize(start.skip((0nat) as int)).unwrap().1) as int)).unwrap().1 + C::spec_deserialize(start.skip((A::spec_deserialize(start.skip((0nat) as int)).unwrap().1 + B::spec_deserialize(start.skip((A::spec_deserialize(start.skip((0nat) as int)).unwrap().1) as int)).unwrap().1) as int)).unwrap().1) as int)).unwrap().1 + E::spec_deserialize(start.skip((A::spec_deserialize(start.skip((0nat) as int)).unwrap().1 + B::spec_deserialize(start.skip((A::spec_deserialize(start.skip((0nat) as int)).unwrap().1) as int)).unwrap().1 + C::spec_deserialize(start.skip((A::spec_deserialize(start.skip((0nat) as int)).unwrap().1 + B::spec_deserialize(start.skip((A::spec_deserialize(start.skip((0nat) as int)).unwrap().1) as int)).unwrap().1) as int)).unwrap().1 + D::spec_deserialize(start.skip((A::spec_deserialize(start.skip((0nat) as int)).unwrap().1 + B::spec_deserialize(start.skip((A::spec_deserialize(start.skip((0nat) as int)).unwrap().1) as int)).unwrap().1 + C::spec_deserialize(start.skip((A::spec_deserialize(start.skip((0nat) as int)).unwrap().1 + B::spec_deserialize(start.skip((A::spec_deserialize(start.skip((0nat) as int)).unwrap().1) as int)).unwrap().1) as int)).unwrap().1) as int)).unwrap().1) as int)).unwrap().1) as int)).unwrap().1) as int)).unwrap().1 + H::spec_deserialize(start.skip((A::spec_deserialize(start.skip((0nat) as int)).unwrap().1 + B::spec_deserialize(start.skip((A::spec_deserialize(start.skip((0nat) as int)).unwrap().1) as int)).unwrap().1 + C::spec_deserialize(start.skip((A::spec_deserialize(start.skip((0nat) as int)).unwrap().1 + B::spec_deserialize(start.skip((A::spec_deserialize(start.skip((0nat) as int)).unwrap().1) as int)).unwrap().1) as int)).unwrap().1 + D::spec_deserialize(start.skip((A::spec_deserialize(start.skip((0nat) as int)).unwrap().1 + B::spec_deserialize(start.skip((A::spec_deserialize(start.skip((0nat) as int)).unwrap().1) as int)).unwrap().1 + C::spec_deserialize(start.skip((A::spec_deserialize(start.skip((0nat) as int)).unwrap().1 + B::spec_deserialize(start.skip((A::spec_deserialize(start.skip((0nat) as int)).unwrap().1) as int)).unwrap().1) as int)).unwrap().1) as int)).unwrap().1 + E::spec_deserialize(start.skip((A::spec_deserialize(start.skip((0nat) as int)).unwrap().1 + B::spec_deserialize(start.skip((A::spec_deserialize(start.skip((0nat) as int)).unwrap().1) as int)).unwrap().1 + C::spec_deserialize(start.skip((A::spec_deserialize(start.skip((0nat) as int)).unwrap().1 + B::spec_deserialize(start.skip((A::spec_deserialize(start.skip((0nat) as int)).unwrap().1) as int)).unwrap().1) as int)).unwrap().1 + D::spec_deserialize(start.skip((A::spec_deserialize(start.skip((0nat) as int)).unwrap().1 + B::spec_deserialize(start.skip((A::spec_deserialize(start.skip((0nat) as int)).unwrap().1) as int)).unwrap().1 + C::spec_deserialize(start.skip((A::spec_deserialize(start.skip((0nat) as int)).unwrap().1 + B::spec_deserialize(start.skip((A::spec_deserialize(start.skip((0nat) as int)).unwrap().1) as int)).unwrap().1) as int)).unwrap().1) as int)).unwrap().1) as int)).unwrap().1 + F::spec_deserialize(start.skip((A::spec_deserialize(start.skip((0nat) as int)).unwrap().1 + B::spec_deserialize(start.skip((A::spec_deserialize(start.skip((0nat) as int)).unwrap().1) as int)).unwrap().1 + C::spec_deserialize(start.skip((A::spec_deserialize(start.skip((0nat) as int)).unwrap().1 + B::spec_deserialize(start.skip((A::spec_deserialize(start.skip((0nat) as int)).unwrap().1) as int)).unwrap().1) as int)).unwrap().1 + D::spec_deserialize(start.skip((A::spec_deserialize(start.skip((0nat) as int)).unwrap().1 + B::spec_deserialize(start.skip((A::spec_deserialize(start.skip((0nat) as int)).unwrap().1) as int)).unwrap().1 + C::spec_deserialize(start.skip((A::spec_deserialize(start.skip((0nat) as int)).unwrap().1 + B::spec_deserialize(start.skip((A::spec_deserialize(start.skip((0nat) as int)).unwrap().1) as int)).unwrap().1) as int)).unwrap().1) as int)).unwrap().1 + E::spec_deserialize(start.skip((A::spec_deserialize(start.skip((0nat) as int)).unwrap().1 + B::spec_deserialize(start.skip((A::spec_deserialize(start.skip((0nat) as int)).unwrap().1) as int)).unwrap().1 + C::spec_deserialize(start.skip((A::spec_deserialize(start.skip((0nat) as int)).unwrap().1 + B::spec_deserialize(start.skip((A::spec_deserialize(start.skip((0nat) as int)).unwrap().1) as int)).unwrap().1) as int)).unwrap().1 + D::spec_deserialize(start.skip((A::spec_deserialize(start.skip((0nat) as int)).unwrap().1 + B::spec_deserialize(start.skip((A::spec_deserialize(start.skip((0nat) as int)).unwrap().1) as int)).unwrap().1 + C::spec_deserialize(start.skip((A::spec_deserialize(start.skip((0nat) as int)).unwrap().1 + B::spec_deserialize(start.skip((A::spec_deserialize(start.skip((0nat) as int)).unwrap().1) as int)).unwrap().1) as int)).unwrap().1) as int)).unwrap().1) as int)).unwrap().1) as int)).unwrap().1 + G::spec_deserialize(start.skip((A::spec_deserialize(start.skip((0nat) as int)).unwrap().1 + B::spec_deserialize(start.skip((A::spec_deserialize(start.skip((0nat) as int)).unwrap().1) as int)).unwrap().1 + C::spec_deserialize(start.skip((A::spec_deserialize(start.skip((0nat) as int)).unwrap().1 + B::spec_deserialize(start.skip((A::spec_deserialize(start.skip((0nat) as int)).unwrap().1) as int)).unwrap().1) as int)).unwrap().1 + D::spec_deserialize(start.skip((A::spec_deserialize(start.skip((0nat) as int)).unwrap().1 + B::spec_deserialize(start.skip((A::spec_deserialize(start.skip((0nat) as int)).unwrap().1) as int)).unwrap().1 + C::spec_deserialize(start.skip((A::spec_deserialize(start.skip((0nat) as int)).unwrap().1 + B::spec_deserialize(start.skip((A::spec_deserialize(start.skip((0nat) as int)).unwrap().1) as int)).unwrap().1) as int)).unwrap().1) as int)).unwrap().1 + E::spec_deserialize(start.skip((A::spec_deserialize(start.skip((0nat) as int)).unwrap().1 + B::spec_deserialize(start.skip((A::spec_deserialize(start.skip((0nat) as int)).unwrap().1) as int)).unwrap().1 + C::spec_deserialize(start.skip((A::spec_deserialize(start.skip((0nat) as int)).unwrap().1 + B::spec_deserialize(start.skip((A::spec_deserialize(start.skip((0nat) as int)).unwrap().1) as int)).unwrap().1) as int)).unwrap().1 + D::spec_deserialize(start.skip((A::spec_deserialize(start.skip((0nat) as int)).unwrap().1 + B::spec_deserialize(start.skip((A::spec_deserialize(start.skip((0nat) as int)).unwrap().1) as int)).unwrap().1 + C::spec_deserialize(start.skip((A::spec_deserialize(start.skip((0nat) as int)).unwrap().1 + B::spec_deserialize(start.skip((A::spec_deserialize(start.skip((0nat) as int)).unwrap().1) as int)).unwrap().1) as int)).unwrap().1) as int)).unwrap().1) as int)).unwrap().1 + F::spec_deserialize(start.skip((A::spec_deserialize(start.skip((0nat) as int)).unwrap().1 + B::spec_deserialize(start.skip((A::spec_deserialize(start.skip((0nat) as int)).unwrap().1) as int)).unwrap().1 + C::spec_deserialize(start.skip((A::spec_deserialize(start.skip((0nat) as int)).unwrap().1 + B::spec_deserialize(start.skip((A::spec_deserialize(start.skip((0nat) as int)).unwrap().1) as int)).unwrap().1) as int)).unwrap().1 + D::spec_deserialize(start.skip((A::spec_deserialize(start.skip((0nat) as int)).unwrap().1 + B::spec_deserialize(start.skip((A::spec_deserialize(start.skip((0nat) as int)).unwrap().1) as int)).unwrap().1 + C::spec_deserialize(start.skip((A::spec_deserialize(start.skip((0nat) as int)).unwrap().1 + B::spec_deserialize(start.skip((A::spec_deserialize(start.skip((0nat) as int)).unwrap().1) as int)).unwrap().1) as int)).unwrap().1) as int)).unwrap().1 + E::spec_deserialize(start.skip((A::spec_deserialize(start.skip((0nat) as int)).unwrap().1 + B::spec_deserialize(start.skip((A::spec_deserialize(start.skip((0nat) as int)).unwrap().1) as int)).unwrap().1 + C::spec_deserialize(start.skip((A::spec_deserialize(start.skip((0nat) as int)).unwrap().1 + B::spec_deserialize(start.skip((A::spec_deserialize(start.skip((0nat) as int)).unwrap().1) as int)).unwrap().1) as int)).unwrap().1 + D::spec_deserialize(start.skip((A::spec_deserialize(start.skip((0nat) as int)).unwrap().1 + B::spec_deserialize(start.skip((A::spec_deserialize(start.skip((0nat) as int)).unwrap().1) as int)).unwrap().1 + C::spec_deserialize(start.skip((A::spec_deserialize(start.skip((0nat) as int)).unwrap().1 + B::spec_deserialize(start.skip((A::spec_deserialize(start.skip((0nat) as int)).unwrap().1) as int)).unwrap().1) as int)).unwrap().1) as int)).unwrap().1) as int)).unwrap().1) as int)).unwrap().1) as int)).unwrap().1) as int)).unwrap().1) as int)).unwrap().1) as int)).unwrap().1 + K::spec_deserialize(start.skip((A::spec_deserialize(start.skip((0nat) as int)).unwrap().1 + B::spec_deserialize(start.skip((A::spec_deserialize(start.skip((0nat) as int)).unwrap().1) as int)).unwrap().1 + C::spec_deserialize(start.skip((A::spec_deserialize(start.skip((0nat) as int)).unwrap().1 + B::spec_deserialize(start.skip((A::spec_deserialize(start.skip((0nat) as int)).unwrap().1) as int)).unwrap().1) as int)).unwrap().1 + D::spec_deserialize(start.skip((A::spec_deserialize(start.skip((0nat) as int)).unwrap().1 + B::spec_deserialize(start.skip((A::spec_deserialize(start.skip((0nat) as int)).unwrap().1) as int)).unwrap().1 + C::spec_deserialize(start.skip((A::spec_deserialize(start.skip((0nat) as int)).unwrap().1 + B::spec_deserialize(start.skip((A::spec_deserialize(start.skip((0nat) as int)).unwrap().1) as int)).unwrap().1) as int)).unwrap().1) as int)).unwrap().1 + E::spec_deserialize(start.skip((A::spec_deserialize(start.skip((0nat) as int)).unwrap().1 + B::spec_deserialize(start.skip((A::spec_deserialize(start.skip((0nat) as int)).unwrap().1) as int)).unwrap().1 + C::spec_deserialize(start.skip((A::spec_deserialize(start.skip((0nat) as int)).unwrap().1 + B::spec_deserialize(start.skip((A::spec_deserialize(start.skip((0nat) as int)).unwrap().1) as int)).unwrap().1) as int)).unwrap().1 + D::spec_deserialize(start.skip((A::spec_deserialize(start.skip((0nat) as int)).unwrap().1 + B::spec_deserialize(start.skip((A::spec_deserialize(start.skip((0nat) as int)).unwrap().1) as int)).unwrap().1 + C::spec_deserialize(start.skip((A::spec_deserialize(start.skip((0nat) as int)).unwrap().1 + B::spec_deserialize(start.skip((A::spec_deserialize(start.skip((0nat) as int)).unwrap().1) as int)).unwrap().1) as int)).unwrap().1) as int)).unwrap().1) as int)).unwrap().1 + F::spec_deserialize(start.skip((A::spec_deserialize(start.skip((0nat) as int)).unwrap().1 + B::spec_deserialize(start.skip((A::spec_deserialize(start.skip((0nat) as int)).unwrap().1) as int)).unwrap().1 + C::spec_deserialize(start.skip((A::spec_deserialize(start.skip((0nat) as int)).unwrap().1 + B::spec_deserialize(start.skip((A::spec_deserialize(start.skip((0nat) as int)).unwrap().1) as int)).unwrap().1) as int)).unwrap().1 + D::spec_deserialize(start.skip((A::spec_deserialize(start.skip((0nat) as int)).unwrap().1 + B::spec_deserialize(start.skip((A::spec_deserialize(start.skip((0nat) as int)).unwrap().1) as int)).unwrap().1 + C::spec_deserialize(start.skip((A::spec_deserialize(start.skip((0nat) as int)).unwrap().1 + B::spec_deserialize(start.skip((A::spec_deserialize(start.skip((0nat) as int)).unwrap().1) as int)).unwrap().1) as int)).unwrap().1) as int)).unwrap().1 + E::spec_deserialize(start.skip((A::spec_deserialize(start.skip((0nat) as int)).unwrap().1 + B::spec_deserialize(start.skip((A::spec_deserialize(start.skip((0nat) as int)).unwrap().1) as int)).unwrap().1 + C::spec_deserialize(start.skip((A::spec_deserialize(start.skip((0nat) as int)).unwrap().1 + B::spec_deserialize(start.skip((A::spec_deserialize(start.skip((0nat) as int)).unwrap().1) as int)).unwrap().1) as int)).unwrap().1 + D::spec_deserialize(start.skip((A::spec_deserialize(start.skip((0nat) as int)).unwrap().1 + B::spec_deserialize(start.skip((A::spec_deserialize(start.skip((0nat) as int)).unwrap().1) as int)).unwrap().1 + C::spec_deserialize(start.skip((A::spec_deserialize(start.skip((0nat) as int)).unwrap().1 + B::spec_deserialize(start.skip((A::spec_deserialize(start.skip((0nat) as int)).unwrap().1) as int)).unwrap().1) as int)).unwrap().1) as int)).unwrap().1) as int)).unwrap().1) as int)).unwrap().1 + G::spec_deserialize(start.skip((A::spec_deserialize(start.skip((0nat) as int)).unwrap().1 + B::spec_deserialize(start.skip((A::spec_deserialize(start.skip((0nat) as int)).unwrap().1) as int)).unwrap().1 + C::spec_deserialize(start.skip((A::spec_deserialize(start.skip((0nat) as int)).unwrap().1 + B::spec_deserialize(start.skip((A::spec_deserialize(start.skip((0nat) as int)).unwrap().1) as int)).unwrap().1) as int)).unwrap().1 + D::spec_deserialize(start.skip((A::spec_deserialize(start.skip((0nat) as int)).unwrap().1 + B::spec_deserialize(start.skip((A::spec_deserialize(start.skip((0nat) as int)).unwrap().1) as int)).unwrap().1 + C::spec_deserialize(start.skip((A::spec_deserialize(start.skip((0nat) as int)).unwrap().1 + B::spec_deserialize(start.skip((A::spec_deserialize(start.skip((0nat) as int)).unwrap().1) as int)).unwrap().1) as int)).unwrap().1) as int)).unwrap().1 + E::spec_deserialize(start.skip((A::spec_deserialize(start.skip((0nat) as int)).unwrap().1 + B::spec_deserialize(start.skip((A::spec_deserialize(start.skip((0nat) as int)).unwrap().1) as int)).unwrap().1 + C::spec_deserialize(start.skip((A::spec_deserialize(start.skip((0nat) as int)).unwrap().1 + B::spec_deserialize(start.skip((A::spec_deserialize(start.skip((0nat) as int)).unwrap().1) as int)).unwrap().1) as int)).unwrap().1 + D::spec_deserialize(start.skip((A::spec_deserialize(start.skip((0nat) as int)).unwrap().1 + B::spec_deserialize(start.skip((A::spec_deserialize(start.skip((0nat) as int)).unwrap().1) as int)).unwrap().1 + C::spec_deserialize(start.skip((A::spec_deserialize(start.skip((0nat) as int)).unwrap().1 + B::spec_deserialize(start.skip((A::spec_deserialize(start.skip((0nat) as int)).unwrap().1) as int)).unwrap().1) as int)).unwrap().1) as int)).unwrap().1) as int)).unwrap().1 + F::spec_deserialize(start.skip((A::spec_deserialize(start.skip((0nat) as int)).unwrap().1 + B::spec_deserialize(start.skip((A::spec_deserialize(start.skip((0nat) as int)).unwrap().1) as int)).unwrap().1 + C::spec_deserialize(start.skip((A::spec_deserialize(start.skip((0nat) as int)).unwrap().1 + B::spec_deserialize(start.skip((A::spec_deserialize(start.skip((0nat) as int)).unwrap().1) as int)).unwrap().1) as int)).unwrap().1 + D::spec_deserialize(start.skip((A::spec_deserialize(start.skip((0nat) as int)).unwrap().1 + B::spec_deserialize(start.skip((A::spec_deserialize(start.skip((0nat) as int)).unwrap().1) as int)).unwrap().1 + C::spec_deserialize(start.skip((A::spec_deserialize(start.skip((0nat) as int)).unwrap().1 + B::spec_deserialize(start.skip((A::spec_deserialize(start.skip((0nat) as int)).unwrap().1) as int)).unwrap().1) as int)).unwrap().1) as int)).unwrap().1 + E::spec_deserialize(start.skip((A::spec_deserialize(start.skip((0nat) as int)).unwrap().1 + B::spec_deserialize(start.skip((A::spec_deserialize(start.skip((0nat) as int)).unwrap().1) as int)).unwrap().1 + C::spec_deserialize(start.skip((A::spec_deserialize(start.skip((0nat) as int)).unwrap().1 + B::spec_deserialize(start.skip((A::spec_deserialize(start.skip((0nat) as int)).unwrap().1) as int)).unwrap().1) as int)).unwrap().1 + D::spec_deserialize(start.skip((A::spec_deserialize(start.skip((0nat) as int)).unwrap().1 + B::spec_deserialize(start.skip((A::spec_deserialize(start.skip((0nat) as int)).unwrap().1) as int)).unwrap().1 + C::spec_deserialize(start.skip((A::spec_deserialize(start.skip((0nat) as int)).unwrap().1 + B::spec_deserialize(start.skip((A::spec_deserialize(start.skip((0nat) as int)).unwrap().1) as int)).unwrap().1) as int)).unwrap().1) as int)).unwrap().1) as int)).unwrap().1) as int)).unwrap().1) as int)).unwrap().1 + H::spec_deserialize(start.skip((A::spec_deserialize(start.skip((0nat) as int)).unwrap().1 + B::spec_deserialize(start.skip((A::spec_deserialize(start.skip((0nat) as int)).unwrap().1) as int)).unwrap().1 + C::spec_deserialize(start.skip((A::spec_deserialize(start.skip((0nat) as int)).unwrap().1 + B::spec_deserialize(start.skip((A::spec_deserialize(start.skip((0nat) as int)).unwrap().1) as int)).unwrap().1) as int)).unwrap().1 + D::spec_deserialize(start.skip((A::spec_deserialize(start.skip((0nat) as int)).unwrap().1 + B::spec_deserialize(start.skip((A::spec_deserialize(start.skip((0nat) as int)).unwrap().1) as int)).unwrap().1 + C::spec_deserialize(start.skip((A::spec_deserialize(start.skip((0nat) as int)).unwrap().1 + B::spec_deserialize(start.skip((A::spec_deserialize(start.skip((0nat) as int)).unwrap().1) as int)).unwrap().1) as int)).unwrap().1) as int)).unwrap().1 + E::spec_deserialize(start.skip((A::spec_deserialize(start.skip((0nat) as int)).unwrap().1 + B::spec_deserialize(start.skip((A::spec_deserialize(start.skip((0nat) as int)).unwrap().1) as int)).unwrap().1 + C::spec_deserialize(start.skip((A::spec_deserialize(start.skip((0nat) as int)).unwrap().1 + B::spec_deserialize(start.skip((A::spec_deserialize(start.skip((0nat) as int)).unwrap().1) as int)).unwrap().1) as int)).unwrap().1 + D::spec_deserialize(start.skip((A::spec_deserialize(start.skip((0nat) as int)).unwrap().1 + B::spec_deserialize(start.skip((A::spec_deserialize(start.skip((0nat) as int)).unwrap().1) as int)).unwrap().1 + C::spec_deserialize(start.skip((A::spec_deserialize(start.skip((0nat) as int)).unwrap().1 + B::spec_deserialize(start.skip((A::spec_deserialize(start.skip((0nat) as int)).unwrap().1) as int)).unwrap().1) as int)).unwrap().1) as int)).unwrap().1) as int)).unwrap().1 + F::spec_deserialize(start.skip((A::spec_deserialize(start.skip((0nat) as int)).unwrap().1 + B::spec_deserialize(start.skip((A::spec_deserialize(start.skip((0nat) as int)).unwrap().1) as int)).unwrap().1 + C::spec_deserialize(start.skip((A::spec_deserialize(start.skip((0nat) as int)).unwrap().1 + B::spec_deserialize(start.skip((A::spec_deserialize(start.skip((0nat) as int)).unwrap().1) as int)).unwrap().1) as int)).unwrap().1 + D::spec_deserialize(start.skip((A::spec_deserialize(start.skip((0nat) as int)).unwrap().1 + B::spec_deserialize(start.skip((A::spec_deserialize(start.skip((0nat) as int)).unwrap().1) as int)).unwrap().1 + C::spec_deserialize(start.skip((A::spec_deserialize(start.skip((0nat) as int)).unwrap().1 + B::spec_deserialize(start.skip((A::spec_deserialize(start.skip((0nat) as int)).unwrap().1) as int)).unwrap().1) as int)).unwrap().1) as int)).unwrap().1 + E::spec_deserialize(start.skip((A::spec_deserialize(start.skip((0nat) as int)).unwrap().1 + B::spec_deserialize(start.skip((A::spec_deserialize(start.skip((0nat) as int)).unwrap().1) as int)).unwrap().1 + C::spec_deserialize(start.skip((A::spec_deserialize(start.skip((0nat) as int)).unwrap().1 + B::spec_deserialize(start.skip((A::spec_deserialize(start.skip((0nat) as int)).unwrap().1) as int)).unwrap().1) as int)).unwrap().1 + D::spec_deserialize(start.skip((A::spec_deserialize(start.skip((0nat) as int)).unwrap().1 + B::spec_deserialize(start.skip((A::spec_deserialize(start.skip((0nat) as int)).unwrap().1) as int)).unwrap().1 + C::spec_deserialize(start.skip((A::spec_deserialize(start.skip((0nat) as int)).unwrap().1 + B::spec_deserialize(start.skip((A::spec_deserialize(start.skip((0nat) as int)).unwrap().1) as int)).unwrap().1) as int)).unwrap().1) as int)).unwrap().1) as int)).unwrap().1) as int)).unwrap().1 + G::spec_deserialize(start.skip((A::spec_deserialize(start.skip((0nat) as int)).unwrap().1 + B::spec_deserialize(start.skip((A::spec_deserialize(start.skip((0nat) as int)).unwrap().1) as int)).unwrap().1 + C::spec_deserialize(start.skip((A::spec_deserialize(start.skip((0nat) as int)).unwrap().1 + B::spec_deserialize(start.skip((A::spec_deserialize(start.skip((0nat) as int)).unwrap().1) as int)).unwrap().1) as int)).unwrap().1 + D::spec_deserialize(start.skip((A::spec_deserialize(start.skip((0nat) as int)).unwrap().1 + B::spec_deserialize(start.skip((A::spec_deserialize(start.skip((0nat) as int)).unwrap().1) as int)).unwrap().1 + C::spec_deserialize(start.skip((A::spec_deserialize(start.skip((0nat) as int)).unwrap().1 + B::spec_deserialize(start.skip((A::spec_deserialize(start.skip((0nat) as int)).unwrap().1) as int)).unwrap().1) as int)).unwrap().1) as int)).unwrap().1 + E::spec_deserialize(start.skip((A::spec_deserialize(start.skip((0nat) as int)).unwrap().1 + B::spec_deserialize(start.skip((A::spec_deserialize(start.skip((0nat) as int)).unwrap().1) as int)).unwrap().1 + C::spec_deserialize(start.skip((A::spec_deserialize(start.skip((0nat) as int)).unwrap().1 + B::spec_deserialize(start.skip((A::spec_deserialize(start.skip((0nat) as int)).unwrap().1) as int)).unwrap().1) as int)).unwrap().1 + D::spec_deserialize(start.skip((A::spec_deserialize(start.skip((0nat) as int)).unwrap().1 + B::spec_deserialize(start.skip((A::spec_deserialize(start.skip((0nat) as int)).unwrap().1) as int)).unwrap().1 + C::spec_deserialize(start.skip((A::spec_deserialize(start.skip((0nat) as int)).unwrap().1 + B::spec_deserialize(start.skip((A::spec_deserialize(start.skip((0nat) as int)).unwrap().1) as int)).unwrap().1) as int)).unwrap().1) as int)).unwrap().1) as int)).unwrap().1 + F::spec_deserialize(start.skip((A::spec_deserialize(start.skip((0nat) as int)).unwrap().1 + B::spec_deserialize(start.skip((A::spec_deserialize(start.skip((0nat) as int)).unwrap().1) as int)).unwrap().1 + C::spec_deserialize(start.skip((A::spec_deserialize(start.skip((0nat) as int)).unwrap().1 + B::spec_deserialize(start.skip((A::spec_deserialize(start.skip((0nat) as int)).unwrap().1) as int)).unwrap().1) as int)).unwrap().1 + D::spec_deserialize(start.skip((A::spec_deserialize(start.skip((0nat) as int)).unwrap().1 + B::spec_deserialize(start.skip((A::spec_deserialize(start.skip((0nat) as int)).unwrap().1) as int)).unwrap().1 + C::spec_deserialize(start.skip((A::spec_deserialize(start.skip((0nat) as int)).unwrap().1 + B::spec_deserialize(start.skip((A::spec_deserialize(start.skip((0nat) as int)).unwrap().1) as int)).unwrap().1) as int)).unwrap().1) as int)).unwrap().1 + E::spec_deserialize(start.skip((A::spec_deserialize(start.skip((0nat) as int)).unwrap().1 + B::spec_deserialize(start.skip((A::spec_deserialize(start.skip((0nat) as int)).unwrap().1) as int)).unwrap().1 + C::spec_deserialize(start.skip((A::spec_deserialize(start.skip((0nat) as int)).unwrap().1 + B::spec_deserialize(start.skip((A::spec_deserialize(start.skip((0nat) as int)).unwrap().1) as int)).unwrap().1) as int)).unwrap().1 + D::spec_deserialize(start.skip((A::spec_deserialize(start.skip((0nat) as int)).unwrap().1 + B::spec_deserialize(start.skip((A::spec_deserialize(start.skip((0nat) as int)).unwrap().1) as int)).unwrap().1 + C::spec_deserialize(start.skip((A::spec_deserialize(start.skip((0nat) as int)).unwrap().1 + B::spec_deserialize(start.skip((A::spec_deserialize(start.skip((0nat) as int)).unwrap().1) as int)).unwrap().1) as int)).unwrap().1) as int)).unwrap().1) as int)).unwrap().1) as int)).unwrap().1) as int)).unwrap().1) as int)).unwrap().1 + I::spec_deserialize(start.skip((A::spec_deserialize(start.skip((0nat) as int)).unwrap().1 + B::spec_deserialize(start.skip((A::spec_deserialize(start.skip((0nat) as int)).unwrap().1) as int)).unwrap().1 + C::spec_deserialize(start.skip((A::spec_deserialize(start.skip((0nat) as int)).unwrap().1 + B::spec_deserialize(start.skip((A::spec_deserialize(start.skip((0nat) as int)).unwrap().1) as int)).unwrap().1) as int)).unwrap().1 + D::spec_deserialize(start.skip((A::spec_deserialize(start.skip((0nat) as int)).unwrap().1 + B::spec_deserialize(start.skip((A::spec_deserialize(start.skip((0nat) as int)).unwrap().1) as int)).unwrap().1 + C::spec_deserialize(start.skip((A::spec_deserialize(start.skip((0nat) as int)).unwrap().1 + B::spec_deserialize(start.skip((A::spec_deserialize(start.skip((0nat) as int)).unwrap().1) as int)).unwrap().1) as int)).unwrap().1) as int)).unwrap().1 + E::spec_deserialize(start.skip((A::spec_deserialize(start.skip((0nat) as int)).unwrap().1 + B::spec_deserialize(start.skip((A::spec_deserialize(start.skip((0nat) as int)).unwrap().1) as int)).unwrap().1 + C::spec_deserialize(start.skip((A::spec_deserialize(start.skip((0nat) as int)).unwrap().1 + B::spec_deserialize(start.skip((A::spec_deserialize(start.skip((0nat) as int)).unwrap().1) as int)).unwrap().1) as int)).unwrap().1 + D::spec_deserialize(start.skip((A::spec_deserialize(start.skip((0nat) as int)).unwrap().1 + B::spec_deserialize(start.skip((A::spec_deserialize(start.skip((0nat) as int)).unwrap().1) as int)).unwrap().1 + C::spec_deserialize(start.skip((A::spec_deserialize(start.skip((0nat) as int)).unwrap().1 + B::spec_deserialize(start.skip((A::spec_deserialize(start.skip((0nat) as int)).unwrap().1) as int)).unwrap().1) as int)).unwrap().1) as int)).unwrap().1) as int)).unwrap().1 + F::spec_deserialize(start.skip((A::spec_deserialize(start.skip((0nat) as int)).unwrap().1 + B::spec_deserialize(start.skip((A::spec_deserialize(start.skip((0nat) as int)).unwrap().1) as int)).unwrap().1 + C::spec_deserialize(start.skip((A::spec_deserialize(start.skip((0nat) as int)).unwrap().1 + B::spec_deserialize(start.skip((A::spec_deserialize(start.skip((0nat) as int)).unwrap().1) as int)).unwrap().1) as int)).unwrap().1 + D::spec_deserialize(start.skip((A::spec_deserialize(start.skip((0nat) as int)).unwrap().1 + B::spec_deserialize(start.skip((A::spec_deserialize(start.skip((0nat) as int)).unwrap().1) as int)).unwrap().1 + C::spec_deserialize(start.skip((A::spec_deserialize(start.skip((0nat) as int)).unwrap().1 + B::spec_deserialize(start.skip((A::spec_deserialize(start.skip((0nat) as int)).unwrap().1) as int)).unwrap().1) as int)).unwrap().1) as int)).unwrap().1 + E::spec_deserialize(start.skip((A::spec_deserialize(start.skip((0nat) as int)).unwrap().1 + B::spec_deserialize(start.skip((A::spec_deserialize(start.skip((0nat) as int)).unwrap().1) as int)).unwrap().1 + C::spec_deserialize(start.skip((A::spec_deserialize(start.skip((0nat) as int)).unwrap().1 + B::spec_deserialize(start.skip((A::spec_deserialize(start.skip((0nat) as int)).unwrap().1) as int)).unwrap().1) as int)).unwrap().1 + D::spec_deserialize(start.skip((A::spec_deserialize(start.skip((0nat) as int)).unwrap().1 + B::spec_deserialize(start.skip((A::spec_deserialize(start.skip((0nat) as int)).unwrap().1) as int)).unwrap().1 + C::spec_deserialize(start.skip((A::spec_deserialize(start.skip((0nat) as int)).unwrap().1 + B::spec_deserialize(start.skip((A::spec_deserialize(start.skip((0nat) as int)).unwrap().1) as int)).unwrap().1) as int)).unwrap().1) as int)).unwrap().1) as int)).unwrap().1) as int)).unwrap().1 + G::spec_deserialize(start.skip((A::spec_deserialize(start.skip((0nat) as int)).unwrap().1 + B::spec_deserialize(start.skip((A::spec_deserialize(start.skip((0nat) as int)).unwrap().1) as int)).unwrap().1 + C::spec_deserialize(start.skip((A::spec_deserialize(start.skip((0nat) as int)).unwrap().1 + B::spec_deserialize(start.skip((A::spec_deserialize(start.skip((0nat) as int)).unwrap().1) as int)).unwrap().1) as int)).unwrap().1 + D::spec_deserialize(start.skip((A::spec_deserialize(start.skip((0nat) as int)).unwrap().1 + B::spec_deserialize(start.skip((A::spec_deserialize(start.skip((0nat) as int)).unwrap().1) as int)).unwrap().1 + C::spec_deserialize(start.skip((A::spec_deserialize(start.skip((0nat) as int)).unwrap().1 + B::spec_deserialize(start.skip((A::spec_deserialize(start.skip((0nat) as int)).unwrap().1) as int)).unwrap().1) as int)).unwrap().1) as int)).unwrap().1 + E::spec_deserialize(start.skip((A::spec_deserialize(start.skip((0nat) as int)).unwrap().1 + B::spec_deserialize(start.skip((A::spec_deserialize(start.skip((0nat) as int)).unwrap().1) as int)).unwrap().1 + C::spec_deserialize(start.skip((A::spec_deserialize(start.skip((0nat) as int)).unwrap().1 + B::spec_deserialize(start.skip((A::spec_deserialize(start.skip((0nat) as int)).unwrap().1) as int)).unwrap().1) as int)).unwrap().1 + D::spec_deserialize(start.skip((A::spec_deserialize(start.skip((0nat) as int)).unwrap().1 + B::spec_deserialize(start.skip((A::spec_deserialize(start.skip((0nat) as int)).unwrap().1) as int)).unwrap().1 + C::spec_deserialize(start.skip((A::spec_deserialize(start.skip((0nat) as int)).unwrap().1 + B::spec_deserialize(start.skip((A::spec_deserialize(start.skip((0nat) as int)).unwrap().1) as int)).unwrap().1) as int)).unwrap().1) as int)).unwrap().1) as int)).unwrap().1 + F::spec_deserialize(start.skip((A::spec_deserialize(start.skip((0nat) as int)).unwrap().1 + B::spec_deserialize(start.skip((A::spec_deserialize(start.skip((0nat) as int)).unwrap().1) as int)).unwrap().1 + C::spec_deserialize(start.skip((A::spec_deserialize(start.skip((0nat) as int)).unwrap().1 + B::spec_deserialize(start.skip((A::spec_deserialize(start.skip((0nat) as int)).unwrap().1) as int)).unwrap().1) as int)).unwrap().1 + D::spec_deserialize(start.skip((A::spec_deserialize(start.skip((0nat) as int)).unwrap().1 + B::spec_deserialize(start.skip((A::spec_deserialize(start.skip((0nat) as int)).unwrap().1) as int)).unwrap().1 + C::spec_deserialize(start.skip((A::spec_deserialize(start.skip((0nat) as int)).unwrap().1 + B::spec_deserialize(start.skip((A::spec_deserialize(start.skip((0nat) as int)).unwrap().1) as int)).unwrap().1) as int)).unwrap().1) as int)).unwrap().1 + E::spec_deserialize(start.skip((A::spec_deserialize(start.skip((0nat) as int)).unwrap().1 + B::spec_deserialize(start.skip((A::spec_deserialize(start.skip((0nat) as int)).unwrap().1) as int)).unwrap().1 + C::spec_deserialize(start.skip((A::spec_deserialize(start.skip((0nat) as int)).unwrap().1 + B::spec_deserialize(start.skip((A::spec_deserialize(start.skip((0nat) as int)).unwrap().1) as int)).unwrap().1) as int)).unwrap().1 + D::spec_deserialize(start.skip((A::spec_deserialize(start.skip((0nat) as int)).unwrap().1 + B::spec_deserialize(start.skip((A::spec_deserialize(start.skip((0nat) as int)).unwrap().1) as int)).unwrap().1 + C::spec_deserialize(start.skip((A::spec_deserialize(start.skip((0nat) as int)).unwrap().1 + B::spec_deserialize(start.skip((A::spec_deserialize(start.skip((0nat) as int)).unwrap().1) as int)).unwrap().1) as int)).unwrap().1) as int)).unwrap().1) as int)).unwrap().1) as int)).unwrap().1) as int)).unwrap().1 + H::spec_deserialize(start.skip((A::spec_deserialize(start.skip((0nat) as int)).unwrap().1 + B::spec_deserialize(start.skip((A::spec_deserialize(start.skip((0nat) as int)).unwrap().1) as int)).unwrap().1 + C::spec_deserialize(start.skip((A::spec_deserialize(start.skip((0nat) as int)).unwrap().1 + B::spec_deserialize(start.skip((A::spec_deserialize(start.skip((0nat) as int)).unwrap().1) as int)).unwrap().1) as int)).unwrap().1 + D::spec_deserialize(start.skip((A::spec_deserialize(start.skip((0nat) as int)).unwrap().1 + B::spec_deserialize(start.skip((A::spec_deserialize(start.skip((0nat) as int)).unwrap().1) as int)).unwrap().1 + C::spec_deserialize(start.skip((A::spec_deserialize(start.skip((0nat) as int)).unwrap().1 + B::spec_deserialize(start.skip((A::spec_deserialize(start.skip((0nat) as int)).unwrap().1) as int)).unwrap().1) as int)).unwrap().1) as int)).unwrap().1 + E::spec_deserialize(start.skip((A::spec_deserialize(start.skip((0nat) as int)).unwrap().1 + B::spec_deserialize(start.skip((A::spec_deserialize(start.skip((0nat) as int)).unwrap().1) as int)).unwrap().1 + C::spec_deserialize(start.skip((A::spec_deserialize(start.skip((0nat) as int)).unwrap().1 + B::spec_deserialize(start.skip((A::spec_deserialize(start.skip((0nat) as int)).unwrap().1) as int)).unwrap().1) as int)).unwrap().1 + D::spec_deserialize(start.skip((A::spec_deserialize(start.skip((0nat) as int)).unwrap().1 + B::spec_deserialize(start.skip((A::spec_deserialize(start.skip((0nat) as int)).unwrap().1) as int)).unwrap().1 + C::spec_deserialize(start.skip((A::spec_deserialize(start.skip((0nat) as int)).unwrap().1 + B::spec_deserialize(start.skip((A::spec_deserialize(start.skip((0nat) as int)).unwrap().1) as int)).unwrap().1) as int)).unwrap().1) as int)).unwrap().1) as int)).unwrap().1 + F::spec_deserialize(start.skip((A::spec_deserialize(start.skip((0nat) as int)).unwrap().1 + B::spec_deserialize(start.skip((A::spec_deserialize(start.skip((0nat) as int)).unwrap().1) as int)).unwrap().1 + C::spec_deserialize(start.skip((A::spec_deserialize(start.skip((0nat) as int)).unwrap().1 + B::spec_deserialize(start.skip((A::spec_deserialize(start.skip((0nat) as int)).unwrap().1) as int)).unwrap().1) as int)).unwrap().1 + D::spec_deserialize(start.skip((A::spec_deserialize(start.skip((0nat) as int)).unwrap().1 + B::spec_deserialize(start.skip((A::spec_deserialize(start.skip((0nat) as int)).unwrap().1) as int)).unwrap().1 + C::spec_deserialize(start.skip((A::spec_deserialize(start.skip((0nat) as int)).unwrap().1 + B::spec_deserialize(start.skip((A::spec_deserialize(start.skip((0nat) as int)).unwrap().1) as int)).unwrap().1) as int)).unwrap().1) as int)).unwrap().1 + E::spec_deserialize(start.skip((A::spec_deserialize(start.skip((0nat) as int)).unwrap().1 + B::spec_deserialize(start.skip((A::spec_deserialize(start.skip((0nat) as int)).unwrap().1) as int)).unwrap().1 + C::spec_deserialize(start.skip((A::spec_deserialize(start.skip((0nat) as int)).unwrap().1 + B::spec_deserialize(start.skip((A::spec_deserialize(start.skip((0nat) as int)).unwrap().1) as int)).unwrap().1) as int)).unwrap().1 + D::spec_deserialize(start.skip((A::spec_deserialize(start.skip((0nat) as int)).unwrap().1 + B::spec_deserialize(start.skip((A::spec_deserialize(start.skip((0nat) as int)).unwrap().1) as int)).unwrap().1 + C::spec_deserialize(start.skip((A::spec_deserialize(start.skip((0nat) as int)).unwrap().1 + B::spec_deserialize(start.skip((A::spec_deserialize(start.skip((0nat) as int)).unwrap().1) as int)).unwrap().1) as int)).unwrap().1) as int)).unwrap().1) as int)).unwrap().1) as int)).unwrap().1 + G::spec_deserialize(start.skip((A::spec_deserialize(start.skip((0nat) as int)).unwrap().1 + B::spec_deserialize(start.skip((A::spec_deserialize(start.skip((0nat) as int)).unwrap().1) as int)).unwrap().1 + C::spec_deserialize(start.skip((A::spec_deserialize(start.skip((0nat) as int)).unwrap().1 + B::spec_deserialize(start.skip((A::spec_deserialize(start.skip((0nat) as int)).unwrap().1) as int)).unwrap().1) as int)).unwrap().1 + D::spec_deserialize(start.skip((A::spec_deserialize(start.skip((0nat) as int)).unwrap().1 + B::spec_deserialize(start.skip((A::spec_deserialize(start.skip((0nat) as int)).unwrap().1) as int)).unwrap().1 + C::spec_deserialize(start.skip((A::spec_deserialize(start.skip((0nat) as int)).unwrap().1 + B::spec_deserialize(start.skip((A::spec_deserialize(start.skip((0nat) as int)).unwrap().1) as int)).unwrap().1) as int)).unwrap().1) as int)).unwrap().1 + E::spec_deserialize(start.skip((A::spec_deserialize(start.skip((0nat) as int)).unwrap().1 + B::spec_deserialize(start.skip((A::spec_deserialize(start.skip((0nat) as int)).unwrap().1) as int)).unwrap().1 + C::spec_deserialize(start.skip((A::spec_deserialize(start.skip((0nat) as int)).unwrap().1 + B::spec_deserialize(start.skip((A::spec_deserialize(start.skip((0nat) as int)).unwrap().1) as int)).unwrap().1) as int)).unwrap().1 + D::spec_deserialize(start.skip((A::spec_deserialize(start.skip((0nat) as int)).unwrap().1 + B::spec_deserialize(start.skip((A::spec_deserialize(start.skip((0nat) as int)).unwrap().1) as int)).unwrap().1 + C::spec_deserialize(start.skip((A::spec_deserialize(start.skip((0nat) as int)).unwrap().1 + B::spec_deserialize(start.skip((A::spec_deserialize(start.skip((0nat) as int)).unwrap().1) as int)).unwrap().1) as int)).unwrap().1) as int)).unwrap().1) as int)).unwrap().1 + F::spec_deserialize(start.skip((A::spec_deserialize(start.skip((0nat) as int)).unwrap().1 + B::spec_deserialize(start.skip((A::spec_deserialize(start.skip((0nat) as int)).unwrap().1) as int)).unwrap().1 + C::spec_deserialize(start.skip((A::spec_deserialize(start.skip((0nat) as int)).unwrap().1 + B::spec_deserialize(start.skip((A::spec_deserialize(start.skip((0nat) as int)).unwrap().1) as int)).unwrap().1) as int)).unwrap().1 + D::spec_deserialize(start.skip((A::spec_deserialize(start.skip((0nat) as int)).unwrap().1 + B::spec_deserialize(start.skip((A::spec_deserialize(start.skip((0nat) as int)).unwrap().1) as int)).unwrap().1 + C::spec_deserialize(start.skip((A::spec_deserialize(start.skip((0nat) as int)).unwrap().1 + B::spec_deserialize(start.skip((A::spec_deserialize(start.skip((0nat) as int)).unwrap().1) as int)).unwrap().1) as int)).unwrap().1) as int)).unwrap().1 + E::spec_deserialize(start.skip((A::spec_deserialize(start.skip((0nat) as int)).unwrap().1 + B::spec_deserialize(start.skip((A::spec_deserialize(start.skip((0nat) as int)).unwrap().1) as int)).unwrap().1 + C::spec_deserialize(start.skip((A::spec_deserialize(start.skip((0nat) as int)).unwrap().1 + B::spec_deserialize(start.skip((A::spec_deserialize(start.skip((0nat) as int)).unwrap().1) as int)).unwrap().1) as int)).unwrap().1 + D::spec_deserialize(start.skip((A::spec_deserialize(start.skip((0nat) as int)).unwrap().1 + B::spec_deserialize(start.skip((A::spec_deserialize(start.skip((0nat) as int)).unwrap().1) as int)).unwrap().1 + C::spec_deserialize(start.skip((A::spec_deserialize(start.skip((0nat) as int)).unwrap().1 + B::spec_deserialize(start.skip((A::spec_deserialize(start.skip((0nat) as int)).unwrap().1) as int)).unwrap().1) as int)).unwrap().1) as int)).unwrap().1) as int)).unwrap().1) as int)).unwrap().1) as int)).unwrap().1) as int)).unwrap().1) as int)).unwrap().1 + J::spec_deserialize(start.skip((A::spec_deserialize(start.skip((0nat) as int)).unwrap().1 + B::spec_deserialize(start.skip((A::spec_deserialize(start.skip((0nat) as int)).unwrap().1) as int)).unwrap().1 + C::spec_deserialize(start.skip((A::spec_deserialize(start.skip((0nat) as int)).unwrap().1 + B::spec_deserialize(start.skip((A::spec_deserialize(start.skip((0nat) as int)).unwrap().1) as int)).unwrap().1) as int)).unwrap().1 + D::spec_deserialize(start.skip((A::spec_deserialize(start.skip((0nat) as int)).unwrap().1 + B::spec_deserialize(start.skip((A::spec_deserialize(start.skip((0nat) as int)).unwrap().1) as int)).unwrap().1 + C::spec_deserialize(start.skip((A::spec_deserialize(start.skip((0nat) as int)).unwrap().1 + B::spec_deserialize(start.skip((A::spec_deserialize(start.skip((0nat) as int)).unwrap().1) as int)).unwrap().1) as int)).unwrap().1) as int)).unwrap().1 + E::spec_deserialize(start.skip((A::spec_deserialize(start.skip((0nat) as int)).unwrap().1 + B::spec_deserialize(start.skip((A::spec_deserialize(start.skip((0nat) as int)).unwrap().1) as int)).unwrap().1 + C::spec_deserialize(start.skip((A::spec_deserialize(start.skip((0nat) as int)).unwrap().1 + B::spec_deserialize(start.skip((A::spec_deserialize(start.skip((0nat) as int)).unwrap().1) as int)).unwrap().1) as int)).unwrap().1 + D::spec_deserialize(start.skip((A::spec_deserialize(start.skip((0nat) as int)).unwrap().1 + B::spec_deserialize(start.skip((A::spec_deserialize(start.skip((0nat) as int)).unwrap().1) as int)).unwrap().1 + C::spec_deserialize(start.skip((A::spec_deserialize(start.skip((0nat) as int)).unwrap().1 + B::spec_deserialize(start.skip((A::spec_deserialize(start.skip((0nat) as int)).unwrap().1) as int)).unwrap().1) as int)).unwrap().1) as int)).unwrap().1) as int)).unwrap().1 + F::spec_deserialize(start.skip((A::spec_deserialize(start.skip((0nat) as int)).unwrap().1 + B::spec_deserialize(start.skip((A::spec_deserialize(start.skip((0nat) as int)).unwrap().1) as int)).unwrap().1 + C::spec_deserialize(start.skip((A::spec_deserialize(start.skip((0nat) as int)).unwrap().1 + B::spec_deserialize(start.skip((A::spec_deserialize(start.skip((0nat) as int)).unwrap().1) as int)).unwrap().1) as int)).unwrap().1 + D::spec_deserialize(start.skip((A::spec_deserialize(start.skip((0nat) as int)).unwrap().1 + B::spec_deserialize(start.skip((A::spec_deserialize(start.skip((0nat) as int)).unwrap().1) as int)).unwrap().1 + C::spec_deserialize(start.skip((A::spec_deserialize(start.skip((0nat) as int)).unwrap().1 + B::spec_deserialize(start.skip((A::spec_deserialize(start.skip((0nat) as int)).unwrap().1) as int)).unwrap().1) as int)).unwrap().1) as int)).unwrap().1 + E::spec_deserialize(start.skip((A::spec_deserialize(start.skip((0nat) as int)).unwrap().1 + B::spec_deserialize(start.skip((A::spec_deserialize(start.skip((0nat) as int)).unwrap().1) as int)).unwrap().1 + C::spec_deserialize(start.skip((A::spec_deserialize(start.skip((0nat) as int)).unwrap().1 + B::spec_deserialize(start.skip((A::spec_deserialize(start.skip((0nat) as int)).unwrap().1) as int)).unwrap().1) as int)).unwrap().1 + D::spec_deserialize(start.skip((A::spec_deserialize(start.skip((0nat) as int)).unwrap().1 + B::spec_deserialize(start.skip((A::spec_deserialize(start.skip((0nat) as int)).unwrap().1) as int)).unwrap().1 + C::spec_deserialize(start.skip((A::spec_deserialize(start.skip((0nat) as int)).unwrap().1 + B::spec_deserialize(start.skip((A::spec_deserialize(start.skip((0nat) as int)).unwrap().1) as int)).unwrap().1) as int)).unwrap().1) as int)).unwrap().1) as int)).unwrap().1) as int)).unwrap().1 + G::spec_deserialize(start.skip((A::spec_deserialize(start.skip((0nat) as int)).unwrap().1 + B::spec_deserialize(start.skip((A::spec_deserialize(start.skip((0nat) as int)).unwrap().1) as int)).unwrap().1 + C::spec_deserialize(start.skip((A::spec_deserialize(start.skip((0nat) as int)).unwrap().1 + B::spec_deserialize(start.skip((A::spec_deserialize(start.skip((0nat) as int)).unwrap().1) as int)).unwrap().1) as int)).unwrap().1 + D::spec_deserialize(start.skip((A::spec_deserialize(start.skip((0nat) as int)).unwrap().1 + B::spec_deserialize(start.skip((A::spec_deserialize(start.skip((0nat) as int)).unwrap().1) as int)).unwrap().1 + C::spec_deserialize(start.skip((A::spec_deserialize(start.skip((0nat) as int)).unwrap().1 + B::spec_deserialize(start.skip((A::spec_deserialize(start.skip((0nat) as int)).unwrap().1) as int)).unwrap().1) as int)).unwrap().1) as int)).unwrap().1 + E::spec_deserialize(start.skip((A::spec_deserialize(start.skip((0nat) as int)).unwrap().1 + B::spec_deserialize(start.skip((A::spec_deserialize(start.skip((0nat) as int)).unwrap().1) as int)).unwrap().1 + C::spec_deserialize(start.skip((A::spec_deserialize(start.skip((0nat) as int)).unwrap().1 + B::spec_deserialize(start.skip((A::spec_deserialize(start.skip((0nat) as int)).unwrap().1) as int)).unwrap().1) as int)).unwrap().1 + D::spec_deserialize(start.skip((A::spec_deserialize(start.skip((0nat) as int)).unwrap().1 + B::spec_deserialize(start.skip((A::spec_deserialize(start.skip((0nat) as int)).unwrap().1) as int)).unwrap().1 + C::spec_deserialize(start.skip((A::spec_deserialize(start.skip((0nat) as int)).unwrap().1 + B::spec_deserialize(start.skip((A::spec_deserialize(start.skip((0nat) as int)).unwrap().1) as int)).unwrap().1) as int)).unwrap().1) as int)).unwrap().1) as int)).unwrap().1 + F::spec_deserialize(start.skip((A::spec_deserialize(start.skip((0nat) as int)).unwrap().1 + B::spec_deserialize(start.skip((A::spec_deserialize(start.skip((0nat) as int)).unwrap().1) as int)).unwrap().1 + C::spec_deserialize(start.skip((A::spec_deserialize(start.skip((0nat) as int)).unwrap().1 + B::spec_deserialize(start.skip((A::spec_deserialize(start.skip((0nat) as int)).unwrap().1) as int)).unwrap().1) as int)).unwrap().1 + D::spec_deserialize(start.skip((A::spec_deserialize(start.skip((0nat) as int)).unwrap().1 + B::spec_deserialize(start.skip((A::spec_deserialize(start.skip((0nat) as int)).unwrap().1) as int)).unwrap().1 + C::spec_deserialize(start.skip((A::spec_deserialize(start.skip((0nat) as int)).unwrap().1 + B::spec_deserialize(start.skip((A::spec_deserialize(start.skip((0nat) as int)).unwrap().1) as int)).unwrap().1) as int)).unwrap().1) as int)).unwrap().1 + E::spec_deserialize(start.skip((A::spec_deserialize(start.skip((0nat) as int)).unwrap().1 + B::spec_deserialize(start.skip((A::spec_deserialize(start.skip((0nat) as int)).unwrap().1) as int)).unwrap().1 + C::spec_deserialize(start.skip((A::spec_deserialize(start.skip((0nat) as int)).unwrap().1 + B::spec_deserialize(start.skip((A::spec_deserialize(start.skip((0nat) as int)).unwrap().1) as int)).unwrap().1) as int)).unwrap().1 + D::spec_deserialize(start.skip((A::spec_deserialize(start.skip((0nat) as int)).unwrap().1 + B::spec_deserialize(start.skip((A::spec_deserialize(start.skip((0nat) as int)).unwrap().1) as int)).unwrap().1 + C::spec_deserialize(start.skip((A::spec_deserialize(start.skip((0nat) as int)).unwrap().1 + B::spec_deserialize(start.skip((A::spec_deserialize(start.skip((0nat) as int)).unwrap().1) as int)).unwrap().1) as int)).unwrap().1) as int)).unwrap().1) as int)).unwrap().1) as int)).unwrap().1) as int)).unwrap().1 + H::spec_deserialize(start.skip((A::spec_deserialize(start.skip((0nat) as int)).unwrap().1 + B::spec_deserialize(start.skip((A::spec_deserialize(start.skip((0nat) as int)).unwrap().1) as int)).unwrap().1 + C::spec_deserialize(start.skip((A::spec_deserialize(start.skip((0nat) as int)).unwrap().1 + B::spec_deserialize(start.skip((A::spec_deserialize(start.skip((0nat) as int)).unwrap().1) as int)).unwrap().1) as int)).unwrap().1 + D::spec_deserialize(start.skip((A::spec_deserialize(start.skip((0nat) as int)).unwrap().1 + B::spec_deserialize(start.skip((A::spec_deserialize(start.skip((0nat) as int)).unwrap().1) as int)).unwrap().1 + C::spec_deserialize(start.skip((A::spec_deserialize(start.skip((0nat) as int)).unwrap().1 + B::spec_deserialize(start.skip((A::spec_deserialize(start.skip((0nat) as int)).unwrap().1) as int)).unwrap().1) as int)).unwrap().1) as int)).unwrap().1 + E::spec_deserialize(start.skip((A::spec_deserialize(start.skip((0nat) as int)).unwrap().1 + B::spec_deserialize(start.skip((A::spec_deserialize(start.skip((0nat) as int)).unwrap().1) as int)).unwrap().1 + C::spec_deserialize(start.skip((A::spec_deserialize(start.skip((0nat) as int)).unwrap().1 + B::spec_deserialize(start.skip((A::spec_deserialize(start.skip((0nat) as int)).unwrap().1) as int)).unwrap().1) as int)).unwrap().1 + D::spec_deserialize(start.skip((A::spec_deserialize(start.skip((0nat) as int)).unwrap().1 + B::spec_deserialize(start.skip((A::spec_deserialize(start.skip((0nat) as int)).unwrap().1) as int)).unwrap().1 + C::spec_deserialize(start.skip((A::spec_deserialize(start.skip((0nat) as int)).unwrap().1 + B::spec_deserialize(start.skip((A::spec_deserialize(start.skip((0nat) as int)).unwrap().1) as int)).unwrap().1) as int)).unwrap().1) as int)).unwrap().1) as int)).unwrap().1 + F::spec_deserialize(start.skip((A::spec_deserialize(start.skip((0nat) as int)).unwrap().1 + B::spec_deserialize(start.skip((A::spec_deserialize(start.skip((0nat) as int)).unwrap().1) as int)).unwrap().1 + C::spec_deserialize(start.skip((A::spec_deserialize(start.skip((0nat) as int)).unwrap().1 + B::spec_deserialize(start.skip((A::spec_deserialize(start.skip((0nat) as int)).unwrap().1) as int)).unwrap().1) as int)).unwrap().1 + D::spec_deserialize(start.skip((A::spec_deserialize(start.skip((0nat) as int)).unwrap().1 + B::spec_deserialize(start.skip((A::spec_deserialize(start.skip((0nat) as int)).unwrap().1) as int)).unwrap().1 + C::spec_deserialize(start.skip((A::spec_deserialize(start.skip((0nat) as int)).unwrap().1 + B::spec_deserialize(start.skip((A::spec_deserialize(start.skip((0nat) as int)).unwrap().1) as int)).unwrap().1) as int)).unwrap().1) as int)).unwrap().1 + E::spec_deserialize(start.skip((A::spec_deserialize(start.skip((0nat) as int)).unwrap().1 + B::spec_deserialize(start.skip((A::spec_deserialize(start.skip((0nat) as int)).unwrap().1) as int)).unwrap().1 + C::spec_deserialize(start.skip((A::spec_deserialize(start.skip((0nat) as int)).unwrap().1 + B::spec_deserialize(start.skip((A::spec_deserialize(start.skip((0nat) as int)).unwrap().1) as int)).unwrap().1) as int)).unwrap().1 + D::spec_deserialize(start.skip((A::spec_deserialize(start.skip((0nat) as int)).unwrap().1 + B::spec_deserialize(start.skip((A::spec_deserialize(start.skip((0nat) as int)).unwrap().1) as int)).unwrap().1 + C::spec_deserialize(start.skip((A::spec_deserialize(start.skip((0nat) as int)).unwrap().1 + B::spec_deserialize(start.skip((A::spec_deserialize(start.skip((0nat) as int)).unwrap().1) as int)).unwrap().1) as int)).unwrap().1) as int)).unwrap().1) as int)).unwrap().1) as int)).unwrap().1 + G::spec_deserialize(start.skip((A::spec_deserialize(start.skip((0nat) as int)).unwrap().1 + B::spec_deserialize(start.skip((A::spec_deserialize(start.skip((0nat) as int)).unwrap().1) as int)).unwrap().1 + C::spec_deserialize(start.skip((A::spec_deserialize(start.skip((0nat) as int)).unwrap().1 + B::spec_deserialize(start.skip((A::spec_deserialize(start.skip((0nat) as int)).unwrap().1) as int)).unwrap().1) as int)).unwrap().1 + D::spec_deserialize(start.skip((A::spec_deserialize(start.skip((0nat) as int)).unwrap().1 + B::spec_deserialize(start.skip((A::spec_deserialize(start.skip((0nat) as int)).unwrap().1) as int)).unwrap().1 + C::spec_deserialize(start.skip((A::spec_deserialize(start.skip((0nat) as int)).unwrap().1 + B::spec_deserialize(start.skip((A::spec_deserialize(start.skip((0nat) as int)).unwrap().1) as int)).unwrap().1) as int)).unwrap().1) as int)).unwrap().1 + E::spec_deserialize(start.skip((A::spec_deserialize(start.skip((0nat) as int)).unwrap().1 + B::spec_deserialize(start.skip((A::spec_deserialize(start.skip((0nat) as int)).unwrap().1) as int)).unwrap().1 + C::spec_deserialize(start.skip((A::spec_deserialize(start.skip((0nat) as int)).unwrap().1 + B::spec_deserialize(start.skip((A::spec_deserialize(start.skip((0nat) as int)).unwrap().1) as int)).unwrap().1) as int)).unwrap().1 + D::spec_deserialize(start.skip((A::spec_deserialize(start.skip((0nat) as int)).unwrap().1 + B::spec_deserialize(start.skip((A::spec_deserialize(start.skip((0nat) as int)).unwrap().1) as int)).unwrap().1 + C::spec_deserialize(start.skip((A::spec_deserialize(start.skip((0nat) as int)).unwrap().1 + B::spec_deserialize(start.skip((A::spec_deserialize(start.skip((0nat) as int)).unwrap().1) as int)).unwrap().1) as int)).unwrap().1) as int)).unwrap().1) as int)).unwrap().1 + F::spec_deserialize(start.skip((A::spec_deserialize(start.skip((0nat) as int)).unwrap().1 + B::spec_deserialize(start.skip((A::spec_deserialize(start.skip((0nat) as int)).unwrap().1) as int)).unwrap().1 + C::spec_deserialize(start.skip((A::spec_deserialize(start.skip((0nat) as int)).unwrap().1 + B::spec_deserialize(start.skip((A::spec_deserialize(start.skip((0nat) as int)).unwrap().1) as int)).unwrap().1) as int)).unwrap().1 + D::spec_deserialize(start.skip((A::spec_deserialize(start.skip((0nat) as int)).unwrap().1 + B::spec_deserialize(start.skip((A::spec_deserialize(start.skip((0nat) as int)).unwrap().1) as int)).unwrap().1 + C::spec_deserialize(start.skip((A::spec_deserialize(start.skip((0nat) as int)).unwrap().1 + B::spec_deserialize(start.skip((A::spec_deserialize(start.skip((0nat) as int)).unwrap().1) as int)).unwrap().1) as int)).unwrap().1) as int)).unwrap().1 + E::spec_deserialize(start.skip((A::spec_deserialize(start.skip((0nat) as int)).unwrap().1 + B::spec_deserialize(start.skip((A::spec_deserialize(start.skip((0nat) as int)).unwrap().1) as int)).unwrap().1 + C::spec_deserialize(start.skip((A::spec_deserialize(start.skip((0nat) as int)).unwrap().1 + B::spec_deserialize(start.skip((A::spec_deserialize(start.skip((0nat) as int)).unwrap().1) as int)).unwrap().1) as int)).unwrap().1 + D::spec_deserialize(start.skip((A::spec_deserialize(start.skip((0nat) as int)).unwrap().1 + B::spec_deserialize(start.skip((A::spec_deserialize(start.skip((0nat) as int)).unwrap().1) as int)).unwrap().1 + C::spec_deserialize(start.skip((A::spec_deserialize(start.skip((0nat) as int)).unwrap().1 + B::spec_deserialize(start.skip((A::spec_deserialize(start.skip((0nat) as int)).unwrap().1) as int)).unwrap().1) as int)).unwrap().1) as int)).unwrap().1) as int)).unwrap().1) as int)).unwrap().1) as int)).unwrap().1) as int)).unwrap().1 + I::spec_deserialize(start.skip((A::spec_deserialize(start.skip((0nat) as int)).unwrap().1 + B::spec_deserialize(start.skip((A::spec_deserialize(start.skip((0nat) as int)).unwrap().1) as int)).unwrap().1 + C::spec_deserialize(start.skip((A::spec_deserialize(start.skip((0nat) as int)).unwrap().1 + B::spec_deserialize(start.skip((A::spec_deserialize(start.skip((0nat) as int)).unwrap().1) as int)).unwrap().1) as int)).unwrap().1 + D::spec_deserialize(start.skip((A::spec_deserialize(start.skip((0nat) as int)).unwrap().1 + B::spec_deserialize(start.skip((A::spec_deserialize(start.skip((0nat) as int)).unwrap().1) as int)).unwrap().1 + C::spec_deserialize(start.skip((A::spec_deserialize(start.skip((0nat) as int)).unwrap().1 + B::spec_deserialize(start.skip((A::spec_deserialize(start.skip((0nat) as int)).unwrap().1) as int)).unwrap().1) as int)).unwrap().1) as int)).unwrap().1 + E::spec_deserialize(start.skip((A::spec_deserialize(start.skip((0nat) as int)).unwrap().1 + B::spec_deserialize(start.skip((A::spec_deserialize(start.skip((0nat) as int)).unwrap().1) as int)).unwrap().1 + C::spec_deserialize(start.skip((A::spec_deserialize(start.skip((0nat) as int)).unwrap().1 + B::spec_deserialize(start.skip((A::spec_deserialize(start.skip((0nat) as int)).unwrap().1) as int)).unwrap().1) as int)).unwrap().1 + D::spec_deserialize(start.skip((A::spec_deserialize(start.skip((0nat) as int)).unwrap().1 + B::spec_deserialize(start.skip((A::spec_deserialize(start.skip((0nat) as int)).unwrap().1) as int)).unwrap().1 + C::spec_deserialize(start.skip((A::spec_deserialize(start.skip((0nat) as int)).unwrap().1 + B::spec_deserialize(start.skip((A::spec_deserialize(start.skip((0nat) as int)).unwrap().1) as int)).unwrap().1) as int)).unwrap().1) as int)).unwrap().1) as int)).unwrap().1 + F::spec_deserialize(start.skip((A::spec_deserialize(start.skip((0nat) as int)).unwrap().1 + B::spec_deserialize(start.skip((A::spec_deserialize(start.skip((0nat) as int)).unwrap().1) as int)).unwrap().1 + C::spec_deserialize(start.skip((A::spec_deserialize(start.skip((0nat) as int)).unwrap().1 + B::spec_deserialize(start.skip((A::spec_deserialize(start.skip((0nat) as int)).unwrap().1) as int)).unwrap().1) as int)).unwrap().1 + D::spec_deserialize(start.skip((A::spec_deserialize(start.skip((0nat) as int)).unwrap().1 + B::spec_deserialize(start.skip((A::spec_deserialize(start.skip((0nat) as int)).unwrap().1) as int)).unwrap().1 + C::spec_deserialize(start.skip((A::spec_deserialize(start.skip((0nat) as int)).unwrap().1 + B::spec_deserialize(start.skip((A::spec_deserialize(start.skip((0nat) as int)).unwrap().1) as int)).unwrap().1) as int)).unwrap().1) as int)).unwrap().1 + E::spec_deserialize(start.skip((A::spec_deserialize(start.skip((0nat) as int)).unwrap().1 + B::spec_deserialize(start.skip((A::spec_deserialize(start.skip((0nat) as int)).unwrap().1) as int)).unwrap().1 + C::spec_deserialize(start.skip((A::spec_deserialize(start.skip((0nat) as int)).unwrap().1 + B::spec_deserialize(start.skip((A::spec_deserialize(start.skip((0nat) as int)).unwrap().1) as int)).unwrap().1) as int)).unwrap().1 + D::spec_deserialize(start.skip((A::spec_deserialize(start.skip((0nat) as int)).unwrap().1 + B::spec_deserialize(start.skip((A::spec_deserialize(start.skip((0nat) as int)).unwrap().1) as int)).unwrap().1 + C::spec_deserialize(start.skip((A::spec_deserialize(start.skip((0nat) as int)).unwrap().1 + B::spec_deserialize(start.skip((A::spec_deserialize(start.skip((0nat) as int)).unwrap().1) as int)).unwrap().1) as int)).unwrap().1) as int)).unwrap().1) as int)).unwrap().1) as int)).unwrap().1 + G::spec_deserialize(start.skip((A::spec_deserialize(start.skip((0nat) as int)).unwrap().1 + B::spec_deserialize(start.skip((A::spec_deserialize(start.skip((0nat) as int)).unwrap().1) as int)).unwrap().1 + C::spec_deserialize(start.skip((A::spec_deserialize(start.skip((0nat) as int)).unwrap().1 + B::spec_deserialize(start.skip((A::spec_deserialize(start.skip((0nat) as int)).unwrap().1) as int)).unwrap().1) as int)).unwrap().1 + D::spec_deserialize(start.skip((A::spec_deserialize(start.skip((0nat) as int)).unwrap().1 + B::spec_deserialize(start.skip((A::spec_deserialize(start.skip((0nat) as int)).unwrap().1) as int)).unwrap().1 + C::spec_deserialize(start.skip((A::spec_deserialize(start.skip((0nat) as int)).unwrap().1 + B::spec_deserialize(start.skip((A::spec_deserialize(start.skip((0nat) as int)).unwrap().1) as int)).unwrap().1) as int)).unwrap().1) as int)).unwrap().1 + E::spec_deserialize(start.skip((A::spec_deserialize(start.skip((0nat) as int)).unwrap().1 + B::spec_deserialize(start.skip((A::spec_deserialize(start.skip((0nat) as int)).unwrap().1) as int)).unwrap().1 + C::spec_deserialize(start.skip((A::spec_deserialize(start.skip((0nat) as int)).unwrap().1 + B::spec_deserialize(start.skip((A::spec_deserialize(start.skip((0nat) as int)).unwrap().1) as int)).unwrap().1) as int)).unwrap().1 + D::spec_deserialize(start.skip((A::spec_deserialize(start.skip((0nat) as int)).unwrap().1 + B::spec_deserialize(start.skip((A::spec_deserialize(start.skip((0nat) as int)).unwrap().1) as int)).unwrap().1 + C::spec_deserialize(start.skip((A::spec_deserialize(start.skip((0nat) as int)).unwrap().1 + B::spec_deserialize(start.skip((A::spec_deserialize(start.skip((0nat) as int)).unwrap().1) as int)).unwrap().1) as int)).unwrap().1) as int)).unwrap().1) as int)).unwrap().1 + F::spec_deserialize(start.skip((A::spec_deserialize(start.skip((0nat) as int)).unwrap().1 + B::spec_deserialize(start.skip((A::spec_deserialize(start.skip((0nat) as int)).unwrap().1) as int)).unwrap().1 + C::spec_deserialize(start.skip((A::spec_deserialize(start.skip((0nat) as int)).unwrap().1 + B::spec_deserialize(start.skip((A::spec_deserialize(start.skip((0nat) as int)).unwrap().1) as int)).unwrap().1) as int)).unwrap().1 + D::spec_deserialize(start.skip((A::spec_deserialize(start.skip((0nat) as int)).unwrap().1 + B::spec_deserialize(start.skip((A::spec_deserialize(start.skip((0nat) as int)).unwrap().1) as int)).unwrap().1 + C::spec_deserialize(start.skip((A::spec_deserialize(start.skip((0nat) as int)).unwrap().1 + B::spec_deserialize(start.skip((A::spec_deserialize(start.skip((0nat) as int)).unwrap().1) as int)).unwrap().1) as int)).unwrap().1) as int)).unwrap().1 + E::spec_deserialize(start.skip((A::spec_deserialize(start.skip((0nat) as int)).unwrap().1 + B::spec_deserialize(start.skip((A::spec_deserialize(start.skip((0nat) as int)).unwrap().1) as int)).unwrap().1 + C::spec_deserialize(start.skip((A::spec_deserialize(start.skip((0nat) as int)).unwrap().1 + B::spec_deserialize(start.skip((A::spec_deserialize(start.skip((0nat) as int)).unwrap().1) as int)).unwrap().1) as int)).unwrap().1 + D::spec_deserialize(start.skip((A::spec_deserialize(start.skip((0nat) as int)).unwrap().1 + B::spec_deserialize(start.skip((A::spec_deserialize(start.skip((0nat) as int)).unwrap().1) as int)).unwrap().1 + C::spec_deserialize(start.skip((A::spec_deserialize(start.skip((0nat) as int)).unwrap().1 + B::spec_deserialize(start.skip((A::spec_deserialize(start.skip((0nat) as int)).unwrap().1) as int)).unwrap().1) as int)).unwrap().1) as int)).unwrap().1) as int)).unwrap().1) as int)).unwrap().1) as int)).unwrap().1 + H::spec_deserialize(start.skip((A::spec_deserialize(start.skip((0nat) as int)).unwrap().1 + B::spec_deserialize(start.skip((A::spec_deserialize(start.skip((0nat) as int)).unwrap().1) as int)).unwrap().1 + C::spec_deserialize(start.skip((A::spec_deserialize(start.skip((0nat) as int)).unwrap().1 + B::spec_deserialize(start.skip((A::spec_deserialize(start.skip((0nat) as int)).unwrap().1) as int)).unwrap().1) as int)).unwrap().1 + D::spec_deserialize(start.skip((A::spec_deserialize(start.skip((0nat) as int)).unwrap().1 + B::spec_deserialize(start.skip((A::spec_deserialize(start.skip((0nat) as int)).unwrap().1) as int)).unwrap().1 + C::spec_deserialize(start.skip((A::spec_deserialize(start.skip((0nat) as int)).unwrap().1 + B::spec_deserialize(start.skip((A::spec_deserialize(start.skip((0nat) as int)).unwrap().1) as int)).unwrap().1) as int)).unwrap().1) as int)).unwrap().1 + E::spec_deserialize(start.skip((A::spec_deserialize(start.skip((0nat) as int)).unwrap().1 + B::spec_deserialize(start.skip((A::spec_deserialize(start.skip((0nat) as int)).unwrap().1) as int)).unwrap().1 + C::spec_deserialize(start.skip((A::spec_deserialize(start.skip((0nat) as int)).unwrap().1 + B::spec_deserialize(start.skip((A::spec_deserialize(start.skip((0nat) as int)).unwrap().1) as int)).unwrap().1) as int)).unwrap().1 + D::spec_deserialize(start.skip((A::spec_deserialize(start.skip((0nat) as int)).unwrap().1 + B::spec_deserialize(start.skip((A::spec_deserialize(start.skip((0nat) as int)).unwrap().1) as int)).unwrap().1 + C::spec_deserialize(start.skip((A::spec_deserialize(start.skip((0nat) as int)).unwrap().1 + B::spec_deserialize(start.skip((A::spec_deserialize(start.skip((0nat) as int)).unwrap().1) as int)).unwrap().1) as int)).unwrap().1) as int)).unwrap().1) as int)).unwrap().1 + F::spec_deserialize(start.skip((A::spec_deserialize(start.skip((0nat) as int)).unwrap().1 + B::spec_deserialize(start.skip((A::spec_deserialize(start.skip((0nat) as int)).unwrap().1) as int)).unwrap().1 + C::spec_deserialize(start.skip((A::spec_deserialize(start.skip((0nat) as int)).unwrap().1 + B::spec_deserialize(start.skip((A::spec_deserialize(start.skip((0nat) as int)).unwrap().1) as int)).unwrap().1) as int)).unwrap().1 + D::spec_deserialize(start.skip((A::spec_deserialize(start.skip((0nat) as int)).unwrap().1 + B::spec_deserialize(start.skip((A::spec_deserialize(start.skip((0nat) as int)).unwrap().1) as int)).unwrap().1 + C::spec_deserialize(start.skip((A::spec_deserialize(start.skip((0nat) as int)).unwrap().1 + B::spec_deserialize(start.skip((A::spec_deserialize(start.skip((0nat) as int)).unwrap().1) as int)).unwrap().1) as int)).unwrap().1) as int)).unwrap().1 + E::spec_deserialize(start.skip((A::spec_deserialize(start.skip((0nat) as int)).unwrap().1 + B::spec_deserialize(start.skip((A::spec_deserialize(start.skip((0nat) as int)).unwrap().1) as int)).unwrap().1 + C::spec_deserialize(start.skip((A::spec_deserialize(start.skip((0nat) as int)).unwrap().1 + B::spec_deserialize(start.skip((A::spec_deserialize(start.skip((0nat) as int)).unwrap().1) as int)).unwrap().1) as int)).unwrap().1 + D::spec_deserialize(start.skip((A::spec_deserialize(start.skip((0nat) as int)).unwrap().1 + B::spec_deserialize(start.skip((A::spec_deserialize(start.skip((0nat) as int)).unwrap().1) as int)).unwrap().1 + C::spec_deserialize(start.skip((A::spec_deserialize(start.skip((0nat) as int)).unwrap().1 + B::spec_deserialize(start.skip((A::spec_deserialize(start.skip((0nat) as int)).unwrap().1) as int)).unwrap().1) as int)).unwrap().1) as int)).unwrap().1) as int)).unwrap().1) as int)).unwrap().1 + G::spec_deserialize(start.skip((A::spec_deserialize(start.skip((0nat) as int)).unwrap().1 + B::spec_deserialize(start.skip((A::spec_deserialize(start.skip((0nat) as int)).unwrap().1) as int)).unwrap().1 + C::spec_deserialize(start.skip((A::spec_deserialize(start.skip((0nat) as int)).unwrap().1 + B::spec_deserialize(start.skip((A::spec_deserialize(start.skip((0nat) as int)).unwrap().1) as int)).unwrap().1) as int)).unwrap().1 + D::spec_deserialize(start.skip((A::spec_deserialize(start.skip((0nat) as int)).unwrap().1 + B::spec_deserialize(start.skip((A::spec_deserialize(start.skip((0nat) as int)).unwrap().1) as int)).unwrap().1 + C::spec_deserialize(start.skip((A::spec_deserialize(start.skip((0nat) as int)).unwrap().1 + B::spec_deserialize(start.skip((A::spec_deserialize(start.skip((0nat) as int)).unwrap().1) as int)).unwrap().1) as int)).unwrap().1) as int)).unwrap().1 + E::spec_deserialize(start.skip((A::spec_deserialize(start.skip((0nat) as int)).unwrap().1 + B::spec_deserialize(start.skip((A::spec_deserialize(start.skip((0nat) as int)).unwrap().1) as int)).unwrap().1 + C::spec_deserialize(start.skip((A::spec_deserialize(start.skip((0nat) as int)).unwrap().1 + B::spec_deserialize(start.skip((A::spec_deserialize(start.skip((0nat) as int)).unwrap().1) as int)).unwrap().1) as int)).unwrap().1 + D::spec_deserialize(start.skip((A::spec_deserialize(start.skip((0nat) as int)).unwrap().1 + B::spec_deserialize(start.skip((A::spec_deserialize(start.skip((0nat) as int)).unwrap().1) as int)).unwrap().1 + C::spec_deserialize(start.skip((A::spec_deserialize(start.skip((0nat) as int)).unwrap().1 + B::spec_deserialize(start.skip((A::spec_deserialize(start.skip((0nat) as int)).unwrap().1) as int)).unwrap().1) as int)).unwrap().1) as int)).unwrap().1) as int)).unwrap().1 + F::spec_deserialize(start.skip((A::spec_deserialize(start.skip((0nat) as int)).unwrap().1 + B::spec_deserialize(start.skip((A::spec_deserialize(start.skip((0nat) as int)).unwrap().1) as int)).unwrap().1 + C::spec_deserialize(start.skip((A::spec_deserialize(start.skip((0nat) as int)).unwrap().1 + B::spec_deserialize(start.skip((A::spec_deserialize(start.skip((0nat) as int)).unwrap().1) as int)).unwrap().1) as int)).unwrap().1 + D::spec_deserialize(start.skip((A::spec_deserialize(start.skip((0nat) as int)).unwrap().1 + B::spec_deserialize(start.skip((A::spec_deserialize(start.skip((0nat) as int)).unwrap().1) as int)).unwrap().1 + C::spec_deserialize(start.skip((A::spec_deserialize(start.skip((0nat) as int)).unwrap().1 + B::spec_deserialize(start.skip((A::spec_deserialize(start.skip((0nat) as int)).unwrap().1) as int)).unwrap().1) as int)).unwrap().1) as int)).unwrap().1 + E::spec_deserialize(start.skip((A::spec_deserialize(start.skip((0nat) as int)).unwrap().1 + B::spec_deserialize(start.skip((A::spec_deserialize(start.skip((0nat) as int)).unwrap().1) as int)).unwrap().1 + C::spec_deserialize(start.skip((A::spec_deserialize(start.skip((0nat) as int)).unwrap().1 + B::spec_deserialize(start.skip((A::spec_deserialize(start.skip((0nat) as int)).unwrap().1) as int)).unwrap().1) as int)).unwrap().1 + D::spec_deserialize(start.skip((A::spec_deserialize(start.skip((0nat) as int)).unwrap().1 + B::spec_deserialize(start.skip((A::spec_deserialize(start.skip((0nat) as int)).unwrap().1) as int)).unwrap().1 + C::spec_deserialize(start.skip((A::spec_deserialize(start.skip((0nat) as int)).unwrap().1 + B::spec_deserialize(start.skip((A::spec_deserialize(start.skip((0nat) as int)).unwrap().1) as int)).unwrap().1) as int)).unwrap().1) as int)).unwrap().1) as int)).unwrap().1) as int)).unwrap().1) as int)).unwrap().1) as int)).unwrap().1) as int)).unwrap().1) as int)).unwrap().1) as int)).unwrap().1))?;
        Ok((x0, x1, x2, x3, x4, x5, x6, x7, x8, x9, x10, x11))
    }

    fn size_hint() -> (result: Option<usize>) {
        let h0 = match A::size_hint() { Some(h) => h, None => return None };
        let h0 = match 0usize.checked_add(h0) { Some(h) => h, None => return None };
        let h1 = match B::size_hint() { Some(h) => h, None => return None };
        let h1 = match h0.checked_add(h1) { Some(h) => h, None => return None };
        let h2 = match C::size_hint() { Some(h) => h, None => return None };
        let h2 = match h1.checked_add(h2) { Some(h) => h, None => return None };
        let h3 = match D::size_hint() { Some(h) => h, None => return None };
        let h3 = match h2.checked_add(h3) { Some(h) => h, None => return None };
        let h4 = match E::size_hint() { Some(h) => h, None => return None };
        let h4 = match h3.checked_add(h4) { Some(h) => h, None => return None };
        let h5 = match F::size_hint() { Some(h) => h, None => return None };
        let h5 = match h4.checked_add(h5) { Some(h) => h, None => return None };
        let h6 = match G::size_hint() { Some(h) => h, None => return None };
        let h6 = match h5.checked_add(h6) { Some(h) => h, None => return None };
        let h7 = match H::size_hint() { Some(h) => h, None => return None };
        let h7 = match h6.checked_add(h7) { Some(h) => h, None => return None };
        let h8 = match I::size_hint() { Some(h) => h, None => return None };
        let h8 = match h7.checked_add(h8) { Some(h) => h, None => return None };
        let h9 = match J::size_hint() { Some(h) => h, None => return None };
        let h9 = match h8.checked_add(h9) { Some(h) => h, None => return None };
        let h10 = match K::size_hint() { Some(h) => h, None => return None };
        let h10 = match h9.checked_add(h10) { Some(h) => h, None => return None };
        let h11 = match L::size_hint() { Some(h) => h, None => return None };
        let h11 = match h10.checked_add(h11) { Some(h) => h, None => return None };
        Some(h11)
    }
}

} // verus!
