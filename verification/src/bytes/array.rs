//! Dynamic arrays.
//!
//! A [`DynamicArray`] serializes the items of a collection one after the other, preceded by a
//! length field that holds their total size in bytes.

use super::de::{deserialized, is_rest_of, Deserialize, DeserializeError};
use super::length::Length;
use super::ser::{add_sizes, lemma_all_agree, serialize_all, size_all, Serialize, SerializeError};
use super::wire::Reader;
use core::marker::PhantomData;
use vstd::prelude::*;

verus! {

/// Dynamically sized array.
///
/// Used to serialize and deserialize collections using specific length fields: the length field
/// holds the size of the serialized items in bytes.
#[derive(Debug, PartialEq, Eq, PartialOrd, Ord, Hash)]
pub struct DynamicArray<L, Collection> {
    /// Collection to serialize.
    inner: Collection,
    /// Length to include before the value.
    _length: PhantomData<L>,
}

impl<L, Collection> DynamicArray<L, Collection> {
    /// The wrapped collection.
    pub closed spec fn spec_inner(&self) -> Collection {
        self.inner
    }
}

impl<L: Length, Collection> From<Collection> for DynamicArray<L, Collection> {
    fn from(collection: Collection) -> (array: Self)
        ensures
            array.spec_inner() == collection,
    {
        Self { inner: collection, _length: PhantomData }
    }
}

impl<L: Length, Collection> vstd::std_specs::convert::FromSpecImpl<Collection> for DynamicArray<L, Collection> {
    open spec fn obeys_from_spec() -> bool {
        true
    }

    closed spec fn from_spec(collection: Collection) -> Self {
        DynamicArray { inner: collection, _length: PhantomData }
    }
}

/// The items of a collection, written one after the other.
struct Items<'a, T> {
    items: &'a Vec<T>,
}

impl<'a, T: Serialize> Serialize for Items<'a, T> {
    closed spec fn spec_serialize(&self) -> Result<Seq<u8>, SerializeError> {
        serialize_all(self.items@)
    }

    closed spec fn spec_size(&self) -> Option<usize> {
        size_all(self.items@)
    }

    proof fn lemma_size_agrees(&self) {
        lemma_all_agree(self.items@);
    }

    fn serialize(&self, buffer: &mut Vec<u8>) -> (result: Result<usize, SerializeError>) {
        serialize_items(self.items, buffer)
    }

    fn size(&self) -> (result: Option<usize>) {
        size_items(self.items)
    }
}

/// Serializes each item in order, adding up the sizes.
fn serialize_items<T: Serialize>(items: &Vec<T>, buffer: &mut Vec<u8>) -> (result: Result<
    usize,
    SerializeError,
>)
    ensures
        super::ser::serialized(serialize_all(items@), old(buffer)@, final(buffer)@, result),
{
    let ghost start = buffer@;
    let mut total: usize = 0;
    let mut i: usize = 0;
    assert(items@.take(0) =~= Seq::<T>::empty());
    while i < items.len()
        invariant
            i <= items.len(),
            start == old(buffer)@,
            serialize_all(items@.take(i as int)) matches Ok(b) && buffer@ == start + b && total
                == b.len(),
        decreases items.len() - i,
    {
        let ghost acc = serialize_all(items@.take(i as int));
        let item = &items[i];
        assert(items@.take(i + 1).drop_last() =~= items@.take(i as int));
        total = match super::ser::serialize_next(item, buffer, total, Ghost(start), Ghost(acc)) {
            Ok(t) => t,
            Err(e) => {
                proof {
                    super::ser::lemma_serialize_all_err(items@, i + 1);
                }
                return Err(e);
            },
        };
        i = i + 1;
    }
    assert(items@.take(items.len() as int) =~= items@);
    Ok(total)
}

/// Adds up the sizes of the items.
fn size_items<T: Serialize>(items: &Vec<T>) -> (result: Option<usize>)
    ensures
        result == size_all(items@),
{
    let mut total: usize = 0;
    let mut i: usize = 0;
    assert(items@.take(0) =~= Seq::<T>::empty());
    while i < items.len()
        invariant
            i <= items.len(),
            size_all(items@.take(i as int)) == Some(total),
        decreases items.len() - i,
    {
        let item = &items[i];
        assert(items@.take(i + 1).drop_last() =~= items@.take(i as int));
        let s = match item.size() {
            Some(s) => s,
            None => {
                proof {
                    super::ser::lemma_size_all_none(items@, i + 1);
                }
                return None;
            },
        };
        total = match total.checked_add(s) {
            Some(t) => t,
            None => {
                proof {
                    super::ser::lemma_size_all_none(items@, i + 1);
                }
                return None;
            },
        };
        i = i + 1;
    }
    assert(items@.take(items.len() as int) =~= items@);
    Some(total)
}

impl<'a, L: Length, T: Serialize> Serialize for DynamicArray<L, &'a Vec<T>> {
    open spec fn spec_serialize(&self) -> Result<Seq<u8>, SerializeError> {
        L::spec_serialize_value(serialize_all(self.spec_inner()@), size_all(self.spec_inner()@))
    }

    open spec fn spec_size(&self) -> Option<usize> {
        add_sizes(size_all(self.spec_inner()@), Some(L::spec_width() as usize))
    }

    proof fn lemma_size_agrees(&self) {
        lemma_all_agree(self.spec_inner()@);
        L::lemma_field_agrees(serialize_all(self.spec_inner()@), size_all(self.spec_inner()@));
    }

    fn serialize(&self, buffer: &mut Vec<u8>) -> (result: Result<usize, SerializeError>) {
        let items = Items { items: self.inner };
        L::serialize(&items, buffer)
    }

    fn size(&self) -> (result: Option<usize>) {
        proof {
            lemma_all_agree(self.spec_inner()@);
            L::lemma_field_agrees(serialize_all(self.spec_inner()@), size_all(self.spec_inner()@));
        }
        // Add up the size of each element in the array plus the size of the length field.
        match size_items(self.inner) {
            Some(size) => size.checked_add(L::size()),
            None => None,
        }
    }
}

/// The items that all of `input` holds, read one after the other, with the number of bytes read.
///
/// An item that reads no data fails the whole read.
pub open spec fn read_all<T: Deserialize>(input: Seq<u8>) -> Result<
    (Seq<<T::Output as DeepView>::V>, nat),
    DeserializeError,
>
    decreases input.len(),
{
    if input.len() == 0 {
        Ok((Seq::empty(), 0))
    } else {
        match T::spec_deserialize(input) {
            Err(e) => Err(e),
            Ok((v, n)) => if 0 < n <= input.len() {
                match read_all::<T>(input.skip(n as int)) {
                    Err(e) => Err(e),
                    Ok((vs, m)) => Ok((seq![v] + vs, n + m)),
                }
            } else {
                Err(DeserializeError::InvariantFailed("item read no data"))
            },
        }
    }
}

/// The items of a collection, read until no bytes are left.
struct Elements<T> {
    _item: PhantomData<T>,
}

impl<T: Deserialize> Deserialize for Elements<T> {
    type Output = Vec<T::Output>;

    closed spec fn spec_deserialize(input: Seq<u8>) -> Result<
        (Seq<<T::Output as DeepView>::V>, nat),
        DeserializeError,
    > {
        read_all::<T>(input)
    }

    closed spec fn spec_size_hint() -> Option<usize> {
        Some(0)
    }

    fn deserialize(buffer: &mut Reader) -> (result: Result<Vec<T::Output>, DeserializeError>) {
        deserialize_items::<T>(buffer)
    }

    fn size_hint() -> (result: Option<usize>) {
        Some(0)
    }
}

/// Reads items until no bytes are left, stopping at the first error.
pub(crate) fn deserialize_items<T: Deserialize>(buffer: &mut Reader) -> (result: Result<
    Vec<T::Output>,
    DeserializeError,
>)
    ensures
        deserialized(read_all::<T>(old(buffer)@), old(buffer)@, final(buffer)@, result),
    decreases old(buffer)@.len(),
{
    let ghost input = buffer@;
    if !buffer.has_remaining() {
        assert(input.skip(0) =~= input);
        let empty: Vec<T::Output> = Vec::new();
        assert(empty.deep_view() =~= Seq::<<T::Output as DeepView>::V>::empty());
        return Ok(empty);
    }
    let before = buffer.remaining();
    let item = T::deserialize(buffer)?;
    let after = buffer.remaining();
    if after >= before {
        return Err(DeserializeError::invariant_failed("item read no data"));
    }
    let ghost n = T::spec_deserialize(input).unwrap().1;
    assert(buffer@ == input.skip(n as int));
    let ghost rest = buffer@;
    match deserialize_items::<T>(buffer) {
        Ok(items) => {
            let ghost tail = items.deep_view();
            let ghost tail_items = items@;
            let mut all: Vec<T::Output> = Vec::new();
            all.push(item);
            let mut items = items;
            all.append(&mut items);
            let ghost m = read_all::<T>(rest).unwrap().1;
            assert(all@ =~= seq![item] + tail_items);
            assert(all.deep_view() =~= seq![item.deep_view()] + tail) by {
                assert forall|i: int| 0 <= i < all@.len() implies #[trigger] all.deep_view()[i]
                    == (seq![item.deep_view()] + tail)[i] by {
                    if i > 0 {
                        assert(all@[i] == tail_items[i - 1]);
                    }
                }
            }
            assert(buffer@ =~= input.skip((n + m) as int));
            Ok(all)
        },
        Err(e) => {
            proof {
                super::de::lemma_rest_of_trans(input, rest, buffer@);
            }
            Err(e)
        },
    }
}

impl<L: Length, T: Deserialize> Deserialize for DynamicArray<L, Vec<T>> {
    type Output = Vec<T::Output>;

    open spec fn spec_deserialize(input: Seq<u8>) -> Result<
        (Seq<<T::Output as DeepView>::V>, nat),
        DeserializeError,
    > {
        match L::spec_read_field(input) {
            None => Err(DeserializeError::InsufficientData),
            Some(length) => if length > input.len() - L::spec_width() {
                Err(DeserializeError::InsufficientData)
            } else {
                match read_all::<T>(input.skip(L::spec_width() as int).take(length as int)) {
                    Err(e) => Err(e),
                    Ok((v, n)) => Ok((v, L::spec_width() + n)),
                }
            },
        }
    }

    open spec fn spec_size_hint() -> Option<usize> {
        Some(L::spec_width() as usize)
    }

    fn deserialize(buffer: &mut Reader) -> (result: Result<Vec<T::Output>, DeserializeError>) {
        L::deserialize::<Elements<T>>(buffer)
    }

    fn size_hint() -> (result: Option<usize>) {
        // Only the size of the length field is known at compile time.
        Some(L::size())
    }
}

} // verus!
