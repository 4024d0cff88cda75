//! Big-endian encodings of the basic integer types, and a reader over a byte slice.

use super::de::DeserializeError;
use vstd::prelude::*;

verus! {

/// Big-endian bytes of a `u16`.
pub open spec fn be_u16(v: u16) -> Seq<u8> {
    seq![(v >> 8u16) as u8, v as u8]
}

/// Big-endian bytes of a `u32`.
pub open spec fn be_u32(v: u32) -> Seq<u8> {
    seq![(v >> 24u32) as u8, (v >> 16u32) as u8, (v >> 8u32) as u8, v as u8]
}

/// Big-endian bytes of a `u64`.
pub open spec fn be_u64(v: u64) -> Seq<u8> {
    be_u32((v >> 32u64) as u32) + be_u32(v as u32)
}

/// The `u16` whose big-endian bytes are the first two of `b`.
pub open spec fn u16_from_be(b: Seq<u8>) -> u16 {
    ((b[0] as u16) << 8u16) | (b[1] as u16)
}

/// The `u32` whose big-endian bytes are the first four of `b`.
pub open spec fn u32_from_be(b: Seq<u8>) -> u32 {
    ((b[0] as u32) << 24u32) | ((b[1] as u32) << 16u32) | ((b[2] as u32) << 8u32) | (b[3] as u32)
}

/// The `u64` whose big-endian bytes are the first eight of `b`.
pub open spec fn u64_from_be(b: Seq<u8>) -> u64 {
    ((u32_from_be(b) as u64) << 32u64) | (u32_from_be(b.skip(4)) as u64)
}

/// Decoding the big-endian bytes of a `u16` gives the value back.
pub proof fn lemma_u16_roundtrip(v: u16, rest: Seq<u8>)
    ensures
        u16_from_be(be_u16(v) + rest) == v,
{
    let b = be_u16(v) + rest;
    assert(b[0] == (v >> 8u16) as u8 && b[1] == v as u8);
    assert((((v >> 8u16) as u8) as u16) << 8u16 | ((v as u8) as u16) == v) by (bit_vector);
}

/// Decoding the big-endian bytes of a `u32` gives the value back.
pub proof fn lemma_u32_roundtrip(v: u32, rest: Seq<u8>)
    ensures
        u32_from_be(be_u32(v) + rest) == v,
{
    let b = be_u32(v) + rest;
    assert(b[0] == (v >> 24u32) as u8 && b[1] == (v >> 16u32) as u8 && b[2] == (v >> 8u32) as u8
        && b[3] == v as u8);
    assert(((((v >> 24u32) as u8) as u32) << 24u32) | ((((v >> 16u32) as u8) as u32) << 16u32)
        | ((((v >> 8u32) as u8) as u32) << 8u32) | ((v as u8) as u32) == v) by (bit_vector);
}

/// Decoding the big-endian bytes of a `u64` gives the value back.
pub proof fn lemma_u64_roundtrip(v: u64, rest: Seq<u8>)
    ensures
        u64_from_be(be_u64(v) + rest) == v,
{
    let hi = (v >> 32u64) as u32;
    let lo = v as u32;
    let b = be_u64(v) + rest;
    assert(b == be_u32(hi) + (be_u32(lo) + rest));
    lemma_u32_roundtrip(hi, be_u32(lo) + rest);
    assert(b.skip(4) == be_u32(lo) + rest);
    lemma_u32_roundtrip(lo, rest);
    assert((((((v >> 32u64) as u32) as u64) << 32u64) | ((v as u32) as u64)) == v) by (bit_vector);
}

/// Encoding the value decoded from two bytes gives those bytes back.
pub proof fn lemma_u16_encode_decoded(b: Seq<u8>)
    requires
        b.len() >= 2,
    ensures
        be_u16(u16_from_be(b)) == b.take(2),
{
    let (b0, b1) = (b[0], b[1]);
    assert((((((b0 as u16) << 8u16) | (b1 as u16)) >> 8u16) as u8) == b0) by (bit_vector);
    assert(((((b0 as u16) << 8u16) | (b1 as u16)) as u8) == b1) by (bit_vector);
    assert(be_u16(u16_from_be(b)) =~= b.take(2));
}

/// Encoding the value decoded from four bytes gives those bytes back.
pub proof fn lemma_u32_encode_decoded(b: Seq<u8>)
    requires
        b.len() >= 4,
    ensures
        be_u32(u32_from_be(b)) == b.take(4),
{
    let (b0, b1, b2, b3) = (b[0], b[1], b[2], b[3]);
    let v = ((b0 as u32) << 24u32) | ((b1 as u32) << 16u32) | ((b2 as u32) << 8u32) | (b3 as u32);
    assert(((((b0 as u32) << 24u32) | ((b1 as u32) << 16u32) | ((b2 as u32) << 8u32) | (b3 as u32))
        >> 24u32) as u8 == b0) by (bit_vector);
    assert(((((b0 as u32) << 24u32) | ((b1 as u32) << 16u32) | ((b2 as u32) << 8u32) | (b3 as u32))
        >> 16u32) as u8 == b1) by (bit_vector);
    assert(((((b0 as u32) << 24u32) | ((b1 as u32) << 16u32) | ((b2 as u32) << 8u32) | (b3 as u32))
        >> 8u32) as u8 == b2) by (bit_vector);
    assert((((b0 as u32) << 24u32) | ((b1 as u32) << 16u32) | ((b2 as u32) << 8u32) | (b3 as u32))
        as u8 == b3) by (bit_vector);
    assert(be_u32(u32_from_be(b)) =~= b.take(4));
}

/// Appends the big-endian bytes of `v`.
pub fn put_u16(buffer: &mut Vec<u8>, v: u16)
    ensures
        final(buffer)@ == old(buffer)@ + be_u16(v),
{
    buffer.push((v >> 8u16) as u8);
    buffer.push(v as u8);
    assert(buffer@ =~= old(buffer)@ + be_u16(v));
}

/// Appends the big-endian bytes of `v`.
pub fn put_u32(buffer: &mut Vec<u8>, v: u32)
    ensures
        final(buffer)@ == old(buffer)@ + be_u32(v),
{
    buffer.push((v >> 24u32) as u8);
    buffer.push((v >> 16u32) as u8);
    buffer.push((v >> 8u32) as u8);
    buffer.push(v as u8);
    assert(buffer@ =~= old(buffer)@ + be_u32(v));
}

/// Appends the big-endian bytes of `v`.
pub fn put_u64(buffer: &mut Vec<u8>, v: u64)
    ensures
        final(buffer)@ == old(buffer)@ + be_u64(v),
{
    put_u32(buffer, (v >> 32u64) as u32);
    put_u32(buffer, v as u32);
    assert(buffer@ =~= old(buffer)@ + be_u64(v));
}

/// Appends all of `bytes`.
pub fn put_slice(buffer: &mut Vec<u8>, bytes: &[u8])
    ensures
        final(buffer)@ == old(buffer)@ + bytes@,
{
    let mut i: usize = 0;
    while i < bytes.len()
        invariant
            i <= bytes@.len(),
            buffer@ == old(buffer)@ + bytes@.take(i as int),
        decreases bytes@.len() - i,
    {
        buffer.push(bytes[i]);
        i = i + 1;
        assert(buffer@ =~= old(buffer)@ + bytes@.take(i as int));
    }
    assert(bytes@.take(i as int) =~= bytes@);
}

/// Appends `count` copies of `value`.
pub fn put_bytes(buffer: &mut Vec<u8>, value: u8, count: usize)
    ensures
        final(buffer)@ == old(buffer)@ + Seq::new(count as nat, |_i: int| value),
{
    let mut i: usize = 0;
    while i < count
        invariant
            i <= count,
            buffer@ == old(buffer)@ + Seq::new(i as nat, |_i: int| value),
        decreases count - i,
    {
        buffer.push(value);
        i = i + 1;
        assert(buffer@ =~= old(buffer)@ + Seq::new(i as nat, |_i: int| value));
    }
}

/// Reads bytes in order from a byte slice.
///
/// Its view is the sequence of bytes that are left to read.
pub struct Reader<'a> {
    data: &'a [u8],
    pos: usize,
    end: usize,
}

impl<'a> View for Reader<'a> {
    type V = Seq<u8>;

    closed spec fn view(&self) -> Seq<u8> {
        self.data@.subrange(self.pos as int, self.end as int)
    }
}

impl<'a> Reader<'a> {
    #[verifier::type_invariant]
    spec fn inv(self) -> bool {
        self.pos <= self.end <= self.data@.len()
    }

    /// Creates a reader over all of `data`.
    pub fn new(data: &'a [u8]) -> (reader: Self)
        ensures
            reader@ == data@,
    {
        let reader = Reader { data, pos: 0, end: data.len() };
        assert(reader@ =~= data@);
        reader
    }

    /// Number of bytes left to read.
    pub fn remaining(&self) -> (n: usize)
        ensures
            n == self@.len(),
    {
        proof {
            use_type_invariant(self);
        }
        self.end - self.pos
    }

    /// Whether any bytes are left to read.
    pub fn has_remaining(&self) -> (b: bool)
        ensures
            b == (self@.len() > 0),
    {
        proof {
            use_type_invariant(self);
        }
        self.pos < self.end
    }

    /// Skips `n` bytes, which must be available.
    pub fn advance(&mut self, n: usize)
        requires
            n <= old(self)@.len(),
        ensures
            final(self)@ == old(self)@.skip(n as int),
    {
        proof {
            use_type_invariant(&*self);
        }
        self.pos = self.pos + n;
        assert(self@ =~= old(self)@.skip(n as int));
    }

    /// A reader over the next `n` bytes, which must be available; `self` is left as it is.
    pub fn sub(&self, n: usize) -> (reader: Reader<'a>)
        requires
            n <= self@.len(),
        ensures
            reader@ == self@.take(n as int),
    {
        proof {
            use_type_invariant(self);
        }
        let reader = Reader { data: self.data, pos: self.pos, end: self.pos + n };
        assert(reader@ =~= self@.take(n as int));
        reader
    }

    /// Reads one byte.
    pub fn try_get_u8(&mut self) -> (r: Result<u8, DeserializeError>)
        ensures
            old(self)@.len() >= 1 ==> r == Ok::<u8, DeserializeError>(old(self)@[0])
                && final(self)@ == old(self)@.skip(1),
            old(self)@.len() < 1 ==> r == Err::<u8, DeserializeError>(
                DeserializeError::InsufficientData,
            ) && final(self)@ == old(self)@,
    {
        proof {
            use_type_invariant(&*self);
        }
        if self.pos < self.end {
            let b = self.data[self.pos];
            self.advance(1);
            Ok(b)
        } else {
            Err(DeserializeError::InsufficientData)
        }
    }

    /// Reads a big-endian `u16`.
    pub fn try_get_u16(&mut self) -> (r: Result<u16, DeserializeError>)
        ensures
            old(self)@.len() >= 2 ==> r == Ok::<u16, DeserializeError>(u16_from_be(old(self)@))
                && final(self)@ == old(self)@.skip(2),
            old(self)@.len() < 2 ==> r == Err::<u16, DeserializeError>(
                DeserializeError::InsufficientData,
            ) && final(self)@ == old(self)@,
    {
        proof {
            use_type_invariant(&*self);
        }
        if self.end - self.pos >= 2 {
            let b0 = self.data[self.pos];
            let b1 = self.data[self.pos + 1];
            self.advance(2);
            Ok(((b0 as u16) << 8u16) | (b1 as u16))
        } else {
            Err(DeserializeError::InsufficientData)
        }
    }

    /// Reads a little-endian `u16`.
    pub fn try_get_u16_le(&mut self) -> (r: Result<u16, DeserializeError>)
        ensures
            old(self)@.len() >= 2 ==> r == Ok::<u16, DeserializeError>(
                u16_from_be(seq![old(self)@[1], old(self)@[0]]),
            ) && final(self)@ == old(self)@.skip(2),
            old(self)@.len() < 2 ==> r == Err::<u16, DeserializeError>(
                DeserializeError::InsufficientData,
            ) && final(self)@ == old(self)@,
    {
        proof {
            use_type_invariant(&*self);
        }
        if self.end - self.pos >= 2 {
            let b0 = self.data[self.pos];
            let b1 = self.data[self.pos + 1];
            self.advance(2);
            Ok(((b1 as u16) << 8u16) | (b0 as u16))
        } else {
            Err(DeserializeError::InsufficientData)
        }
    }

    /// Reads a big-endian `u32`.
    pub fn try_get_u32(&mut self) -> (r: Result<u32, DeserializeError>)
        ensures
            old(self)@.len() >= 4 ==> r == Ok::<u32, DeserializeError>(u32_from_be(old(self)@))
                && final(self)@ == old(self)@.skip(4),
            old(self)@.len() < 4 ==> r == Err::<u32, DeserializeError>(
                DeserializeError::InsufficientData,
            ) && final(self)@ == old(self)@,
    {
        proof {
            use_type_invariant(&*self);
        }
        if self.end - self.pos >= 4 {
            let p = self.pos;
            let v = ((self.data[p] as u32) << 24u32) | ((self.data[p + 1] as u32) << 16u32) | ((
            self.data[p + 2] as u32) << 8u32) | (self.data[p + 3] as u32);
            self.advance(4);
            Ok(v)
        } else {
            Err(DeserializeError::InsufficientData)
        }
    }

    /// Reads a big-endian `u64`.
    pub fn try_get_u64(&mut self) -> (r: Result<u64, DeserializeError>)
        ensures
            old(self)@.len() >= 8 ==> r == Ok::<u64, DeserializeError>(u64_from_be(old(self)@))
                && final(self)@ == old(self)@.skip(8),
            old(self)@.len() < 8 ==> r == Err::<u64, DeserializeError>(
                DeserializeError::InsufficientData,
            ) && final(self)@ == old(self)@,
    {
        if self.remaining() >= 8 {
            let ghost start = self@;
            let hi = self.try_get_u32();
            let lo = self.try_get_u32();
            match (hi, lo) {
                (Ok(hi), Ok(lo)) => {
                    assert(self@ =~= start.skip(8));
                    Ok(((hi as u64) << 32u64) | (lo as u64))
                },
                _ => {
                    assert(false);
                    Err(DeserializeError::InsufficientData)
                },
            }
        } else {
            Err(DeserializeError::InsufficientData)
        }
    }

    /// Reads the next `n` bytes, which must be available.
    pub fn copy_to_vec(&mut self, n: usize) -> (bytes: Vec<u8>)
        requires
            n <= old(self)@.len(),
        ensures
            bytes@ == old(self)@.take(n as int),
            final(self)@ == old(self)@.skip(n as int),
    {
        proof {
            use_type_invariant(&*self);
        }
        let mut bytes: Vec<u8> = Vec::new();
        let mut i: usize = 0;
        while i < n
            invariant
                i <= n,
                self.pos + n <= self.end <= self.data@.len(),
                bytes@ == self.data@.subrange(self.pos as int, self.pos + i),
            decreases n - i,
        {
            bytes.push(self.data[self.pos + i]);
            i = i + 1;
            assert(bytes@ =~= self.data@.subrange(self.pos as int, self.pos + i));
        }
        assert(bytes@ =~= old(self)@.take(n as int));
        self.advance(n);
        bytes
    }
}

} // verus!
