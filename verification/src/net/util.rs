//! Shared byte buffers.

use std::ops::Range;
use std::sync::Arc;
use vstd::prelude::*;
use vstd::slice::slice_subrange;

verus! {

/// Calls `Arc::get_mut`, which hands out the value only when no other `Arc` shares it.
///
/// Whether it does depends on the other references alive at the time of the call, which nothing
/// here can see, so the contract only says what holds either way: no value comes out and the
/// `Arc` is unchanged, or the value comes out and what is written through it is what the `Arc`
/// holds afterwards.
#[verifier::external_body]
fn arc_get_mut(arc: &mut Arc<Vec<u8>>) -> (res: Option<&mut Vec<u8>>)
    ensures
        res is None ==> final(arc)@ == old(arc)@,
        res is Some ==> res.unwrap()@ == old(arc)@ && final(arc)@ == final(res.unwrap())@,
{
    Arc::get_mut(arc)
}

/// The middle part of three joined sequences is the middle sequence.
proof fn lemma_middle(head: Seq<u8>, middle: Seq<u8>, rest: Seq<u8>)
    ensures
        (head + middle + rest).subrange(head.len() as int, (head.len() + middle.len()) as int) == middle,
        (head + middle + rest).len() == head.len() + middle.len() + rest.len(),
{
    assert((head + middle + rest).subrange(head.len() as int, (head.len() + middle.len()) as int) =~= middle);
}

/// A scoped reference into a shared byte buffer.
#[derive(Debug, Clone)]
pub struct Buffer {
    inner: Arc<Vec<u8>>,
    start: usize,
    end: usize,
}

impl View for Buffer {
    type V = Seq<u8>;

    /// The bytes in the buffer's range.
    closed spec fn view(&self) -> Seq<u8> {
        self.inner@.subrange(self.start as int, self.end as int)
    }
}

impl Buffer {
    /// The range lies inside the shared allocation.
    pub closed spec fn wf(&self) -> bool {
        self.start <= self.end <= self.inner@.len()
    }

    /// The whole shared allocation, of which the buffer is a part.
    pub closed spec fn allocation(&self) -> Seq<u8> {
        self.inner@
    }

    /// Where the buffer's range starts in the shared allocation.
    pub closed spec fn start(&self) -> int {
        self.start as int
    }

    /// Where the buffer's range ends in the shared allocation.
    pub closed spec fn end(&self) -> int {
        self.end as int
    }

    /// The buffer is the part of its allocation between its start and its end.
    pub proof fn lemma_view(&self)
        requires
            self.wf(),
        ensures
            0 <= self.start() <= self.end() <= self.allocation().len(),
            self@ == self.allocation().subrange(self.start(), self.end()),
            self@.len() == self.end() - self.start(),
    {
    }

    /// Creates a new [`Buffer`] over the given range of a shared allocation.
    ///
    /// Any range is taken. One that does not lie inside the allocation gives a buffer that is not
    /// well-formed: its length is that of the range, or `0` if the range is reversed.
    pub fn new(inner: Arc<Vec<u8>>, range: Range<usize>) -> (buffer: Self)
        ensures
            buffer.wf() <==> range.start <= range.end <= inner@.len(),
            buffer.allocation() == inner@,
            buffer.start() == range.start,
            buffer.end() == range.end,
            buffer.wf() ==> buffer@ == inner@.subrange(range.start as int, range.end as int),
    {
        Self { inner, start: range.start, end: range.end }
    }

    /// The number of bytes in the buffer's range: `0` for a reversed range.
    pub open spec fn spec_len(&self) -> int {
        if self.start() <= self.end() {
            self.end() - self.start()
        } else {
            0
        }
    }

    /// Splits the [`Buffer`] into two halves, returning the first half as a new [`Buffer`], and
    /// keeping the second half in the current [`Buffer`].
    ///
    /// Returns [`None`] if the given length is greater than or equal to the length of the
    /// [`Buffer`].
    pub fn split(&mut self, length: usize) -> (first: Option<Self>)
        ensures
            final(self).allocation() == old(self).allocation(),
            length >= old(self).spec_len() <==> first is None,
            first is None ==> *final(self) == *old(self),
            first matches Some(first) ==> {
                &&& first.allocation() == old(self).allocation()
                &&& first.start() == old(self).start()
                &&& first.end() == old(self).start() + length
                &&& final(self).start() == first.end()
                &&& final(self).end() == old(self).end()
                &&& old(self).wf() ==> {
                    &&& first.wf()
                    &&& final(self).wf()
                    &&& first@ == old(self)@.subrange(0, length as int)
                    &&& final(self)@ == old(self)@.subrange(length as int, old(self)@.len() as int)
                    &&& first@ + final(self)@ == old(self)@
                }
            },
            old(self).wf() ==> final(self).wf(),
    {
        if length >= self.len() {
            return None;
        }
        let start = self.start;
        let buffer = Self::new(self.inner.clone(), start..start + length);
        self.start = start + length;
        proof {
            if old(self).wf() {
                assert(buffer@ =~= old(self)@.subrange(0, length as int));
                assert(self@ =~= old(self)@.subrange(length as int, old(self)@.len() as int));
                assert(buffer@ + self@ =~= old(self)@);
            }
        }
        Some(buffer)
    }

    /// Shrinks the buffer to the specified length.
    ///
    /// Using a length greater than the current length won't have any effect.
    pub fn shrink_to(&mut self, length: usize)
        ensures
            final(self).allocation() == old(self).allocation(),
            final(self).start() == old(self).start(),
            length >= old(self).spec_len() ==> *final(self) == *old(self),
            length < old(self).spec_len() ==> final(self).end() == old(self).start() + length,
            old(self).wf() ==> final(self).wf(),
            old(self).wf() && length < old(self)@.len() ==> final(self)@ == old(self)@.subrange(
                0,
                length as int,
            ),
    {
        if length < self.len() {
            self.end = self.start + length;
            proof {
                if old(self).wf() {
                    assert(self@ =~= old(self)@.subrange(0, length as int));
                }
            }
        }
    }

    /// Returns the length of the [`Buffer`] in bytes.
    #[allow(clippy::len_without_is_empty)]
    pub fn len(&self) -> (length: usize)
        ensures
            self.wf() ==> length == self@.len(),
            length == self.spec_len(),
    {
        if self.start <= self.end {
            self.end - self.start
        } else {
            0
        }
    }

    /// Returns a shared reference into the given [`Buffer`].
    pub fn get(&self) -> (bytes: &[u8])
        ensures
            self.wf() ==> bytes@ == self@,
    {
        let whole = self.inner.as_slice();
        if self.start <= self.end && self.end <= whole.len() {
            slice_subrange(whole, self.start, self.end)
        } else {
            slice_subrange(whole, 0, 0)
        }
    }

    /// Returns the whole shared allocation of which this [`Buffer`] is a part.
    pub fn allocation_bytes(&self) -> (bytes: &[u8])
        ensures
            bytes@ == self.allocation(),
    {
        self.inner.as_slice()
    }

    /// Returns a mutable reference into the given [`Buffer`], if there are no other [`Buffer`]s
    /// with the same underlying allocation.
    ///
    /// Returns [`None`] otherwise, because it is not safe to mutate a shared value.
    ///
    /// What is written through the returned slice lands in the buffer's range of the shared
    /// allocation, and nowhere else.
    pub fn get_mut(&mut self) -> (bytes: Option<&mut [u8]>)
        requires
            old(self).wf(),
        ensures
            final(self).start() == old(self).start(),
            final(self).end() == old(self).end(),
            bytes is None ==> final(self).wf() && final(self).allocation() == old(self).allocation(),
            bytes matches Some(b) ==> {
                &&& b@ == old(self)@
                &&& final(self).allocation() == old(self).allocation().subrange(0, old(self).start())
                    + final(b)@ + old(self).allocation().subrange(
                    old(self).end(),
                    old(self).allocation().len() as int,
                )
                &&& final(b)@.len() == b@.len() ==> final(self).wf() && final(self)@ == final(b)@
            },
    {
        let start = self.start;
        let end = self.end;
        match arc_get_mut(&mut self.inner) {
            None => None,
            Some(vec) => {
                let whole = vec.as_mut_slice();
                let (head, tail) = whole.split_at_mut(start);
                let (middle, rest) = tail.split_at_mut(end - start);
                proof {
                    lemma_middle(final(head)@, final(middle)@, final(rest)@);
                }
                Some(middle)
            },
        }
    }
}

impl std::ops::Deref for Buffer {
    type Target = [u8];

    fn deref(&self) -> (bytes: &[u8])
        ensures
            self.wf() ==> bytes@ == self@,
    {
        self.get()
    }
}

impl<const N: usize> From<[u8; N]> for Buffer {
    /// Creates a [`Buffer`] over a new allocation that holds the given bytes.
    fn from(value: [u8; N]) -> (buffer: Self)
        ensures
            buffer.wf(),
            buffer.start() == 0,
            buffer.allocation() == value@,
            buffer@ == value@,
    {
        let mut bytes: Vec<u8> = Vec::new();
        let mut i: usize = 0;
        while i < N
            invariant
                i <= N,
                N == value@.len(),
                bytes@ == value@.subrange(0, i as int),
            decreases N - i,
        {
            bytes.push(value[i]);
            i += 1;
            assert(bytes@ =~= value@.subrange(0, i as int));
        }
        assert(bytes@ =~= value@);
        Self::new(Arc::new(bytes), 0..N)
    }
}

impl<const N: usize> vstd::std_specs::convert::FromSpecImpl<[u8; N]> for Buffer {
    open spec fn obeys_from_spec() -> bool {
        false
    }

    open spec fn from_spec(value: [u8; N]) -> Self {
        arbitrary()
    }
}

impl From<Arc<Vec<u8>>> for Buffer {
    /// Creates a [`Buffer`] over the whole of the given allocation.
    fn from(value: Arc<Vec<u8>>) -> (buffer: Self)
        ensures
            buffer.wf(),
            buffer.start() == 0,
            buffer.allocation() == value@,
            buffer@ == value@,
    {
        let length = value.len();
        proof {
            assert(value@.subrange(0, length as int) =~= value@);
        }
        Self::new(value, 0..length)
    }
}

impl vstd::std_specs::convert::FromSpecImpl<Arc<Vec<u8>>> for Buffer {
    open spec fn obeys_from_spec() -> bool {
        false
    }

    open spec fn from_spec(value: Arc<Vec<u8>>) -> Self {
        arbitrary()
    }
}

/// A pool of byte buffers that uses reference counting to keep track of available buffers.
///
/// Buffers can be added to the pool with `push()` and retrieved with `try_pull()`.
///
/// A buffer can only be pulled from the pool if it's not referenced anywhere else. This ensures
/// that the buffer can be safely modified. Then, you just add it back to the pool (usually
/// cloning it first) and it will become available once it's no longer being used outside of the
/// pool.
#[derive(Debug)]
pub struct BufferPool {
    buffers: Vec<Arc<Vec<u8>>>,
}

impl View for BufferPool {
    type V = Seq<Seq<u8>>;

    /// The contents of the buffers in the pool, in the pool's order.
    closed spec fn view(&self) -> Seq<Seq<u8>> {
        self.buffers@.map_values(|buffer: Arc<Vec<u8>>| buffer@)
    }
}

/// `after` is `before` with the item at `index` taken out and the last item put in its place.
pub open spec fn swap_removed<T>(before: Seq<T>, index: int, after: Seq<T>) -> bool {
    &&& 0 <= index < before.len()
    &&& after == before.update(index, before.last()).drop_last()
}

/// `index` is the first position whose flag is set.
pub open spec fn is_first_available(available: Seq<bool>, index: int) -> bool {
    &&& 0 <= index < available.len()
    &&& available[index]
    &&& forall|j: int| 0 <= j < index ==> !available[j]
}

/// Pulling from a pool that held `before`, whose buffers were found available as `available`
/// says, left `after` in it and returned `buffer`: nothing when no buffer was available, and
/// otherwise the first available one, in whose place the last buffer was put.
pub open spec fn pulled(
    available: Seq<bool>,
    before: Seq<Seq<u8>>,
    after: Seq<Seq<u8>>,
    buffer: Option<Arc<Vec<u8>>>,
) -> bool {
    &&& available.len() == before.len()
    &&& match buffer {
        None => (forall|i: int| 0 <= i < available.len() ==> !available[i]) && after == before,
        Some(b) => exists|index: int|
            #[trigger] is_first_available(available, index) && swap_removed(before, index, after)
                && b@ == before[index],
    }
}

/// Like [`pulled`], except that where no buffer was available, the buffer is one that `make`
/// can give.
pub open spec fn pulled_or_made<F: FnOnce() -> Arc<Vec<u8>>>(
    available: Seq<bool>,
    before: Seq<Seq<u8>>,
    after: Seq<Seq<u8>>,
    buffer: Arc<Vec<u8>>,
    make: F,
) -> bool {
    &&& available.len() == before.len()
    &&& if forall|i: int| 0 <= i < available.len() ==> !available[i] {
        after == before && make.ensures((), buffer)
    } else {
        exists|index: int|
            #[trigger] is_first_available(available, index) && swap_removed(before, index, after)
                && buffer@ == before[index]
    }
}

/// Returns the position of the first set flag, or [`None`] if no flag is set.
pub fn first_available(available: &Vec<bool>) -> (index: Option<usize>)
    ensures
        index is None <==> forall|i: int| 0 <= i < available@.len() ==> !available@[i],
        index matches Some(i) ==> is_first_available(available@, i as int),
{
    let mut i: usize = 0;
    while i < available.len()
        invariant
            i <= available@.len(),
            forall|j: int| 0 <= j < i ==> !available@[j],
        decreases available@.len() - i,
    {
        if available[i] {
            return Some(i);
        }
        i += 1;
    }
    None
}

impl BufferPool {
    /// Creates a new, empty [`BufferPool`].
    pub fn new() -> (pool: Self)
        ensures
            pool@ == Seq::<Seq<u8>>::empty(),
    {
        let pool = Self { buffers: Vec::new() };
        assert(pool@ =~= Seq::<Seq<u8>>::empty());
        pool
    }

    /// Returns the number of buffers in the pool.
    pub fn len(&self) -> (count: usize)
        ensures
            count == self@.len(),
    {
        self.buffers.len()
    }

    /// Returns an available buffer, if it exists.
    ///
    /// A buffer is considered available if there are no external references to it. Each buffer
    /// is probed for outside references; the first one found available leaves the pool, and the
    /// last buffer of the pool takes its place. Which buffers are available depends on the
    /// references held outside the pool, which nothing here can see: the contract states the
    /// outcome for the availability that was found.
    pub fn try_pull(&mut self) -> (buffer: Option<Arc<Vec<u8>>>)
        ensures
            exists|available: Seq<bool>|
                #[trigger] pulled(available, old(self)@, final(self)@, buffer),
            buffer is None ==> final(self)@ == old(self)@,
            buffer matches Some(b) ==> exists|index: int|
                #![trigger old(self)@[index]]
                swap_removed(old(self)@, index, final(self)@) && b@ == old(self)@[index],
    {
        let mut available: Vec<bool> = Vec::new();
        let mut index: usize = 0;
        while index < self.buffers.len()
            invariant
                index <= self.buffers.len(),
                available@.len() == index,
                self@ == old(self)@,
            decreases self.buffers.len() - index,
        {
            let ghost before = self.buffers@;
            let probed = arc_get_mut(&mut self.buffers[index]).is_some();
            proof {
                assert(self.buffers@[index as int]@ == before[index as int]@);
                assert(self@ =~= old(self)@);
            }
            available.push(probed);
            index += 1;
        }
        match first_available(&available) {
            None => {
                assert(pulled(available@, old(self)@, self@, None));
                None
            },
            Some(index) => {
                let ghost pool = self@;
                let buffer = self.buffers.swap_remove(index);
                proof {
                    assert(self@ =~= pool.update(index as int, pool.last()).drop_last());
                    assert(buffer@ == old(self)@[index as int]);
                    assert(pulled(available@, old(self)@, self@, Some(buffer)));
                }
                Some(buffer)
            },
        }
    }

    /// Returns an available buffer, or creates a new one with the provided closure.
    ///
    /// The closure is only called if there are no available buffers in the pool.
    pub fn pull_or_else<F>(&mut self, f: F) -> (buffer: Arc<Vec<u8>>)
        where
            F: FnOnce() -> Arc<Vec<u8>>,
        requires
            f.requires(()),
        ensures
            exists|available: Seq<bool>|
                #[trigger] pulled_or_made(available, old(self)@, final(self)@, buffer, f),
            (final(self)@ == old(self)@ && f.ensures((), buffer)) || exists|index: int|
                #![trigger old(self)@[index]]
                swap_removed(old(self)@, index, final(self)@) && buffer@ == old(self)@[index],
    {
        match self.try_pull() {
            Some(buffer) => {
                let ghost available = choose|available: Seq<bool>|
                    #[trigger] pulled(available, old(self)@, self@, Some(buffer));
                assert(pulled_or_made(available, old(self)@, self@, buffer, f));
                buffer
            },
            None => {
                let ghost available = choose|available: Seq<bool>|
                    #[trigger] pulled(available, old(self)@, self@, None::<Arc<Vec<u8>>>);
                let buffer = f();
                assert(pulled_or_made(available, old(self)@, self@, buffer, f));
                buffer
            },
        }
    }

    /// Adds the `buffer` to the pool.
    pub fn push(&mut self, buffer: Arc<Vec<u8>>)
        ensures
            final(self)@ == old(self)@.push(buffer@),
    {
        self.buffers.push(buffer);
        assert(self@ =~= old(self)@.push(buffer@));
    }
}

impl Default for BufferPool {
    fn default() -> (pool: Self)
        ensures
            pool@ == Seq::<Seq<u8>>::empty(),
    {
        Self::new()
    }
}

} // verus!
