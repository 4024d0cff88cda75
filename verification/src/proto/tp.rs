//! SOME/IP Transport Protocol.
//!
//! The Transport Protocol is an extension of the SOME/IP protocol to segment large messages. Each
//! segment carries its offset from the start of the original message, in units of 16 bytes, and
//! whether more segments follow.

use super::message::{Header, Message};
use crate::bytes::de::{Deserialize, DeserializeError};
use crate::bytes::ser::{Serialize, SerializeError};
use crate::bytes::wire::{be_u32, put_slice, put_u32, u32_from_be, Reader};
use vstd::prelude::*;

verus! {

/// SOME/IP-TP header.
///
/// Used to identify a segment of a larger SOME/IP message.
#[derive(Debug, Clone, PartialEq, Eq)]
pub struct TpHeader {
    /// Offset from the start of the original message in multiples of 16-bytes.
    pub offset: usize,
    /// Whether more segments are expected after this one.
    pub more_segments: bool,
    /// The contents of this segment.
    pub body: Vec<u8>,
}

impl DeepView for TpHeader {
    type V = (usize, bool, Seq<u8>);

    open spec fn deep_view(&self) -> Self::V {
        (self.offset, self.more_segments, self.body@)
    }
}

/// The 32-bit field that holds the offset and the more-segments flag.
///
/// The offset is shifted into the upper 28 bits; an offset that doesn't fit there is written as
/// the largest one that does.
pub open spec fn tp_field(offset: usize, more_segments: bool) -> u32 {
    let shifted = (offset as int) * 16;
    let offset_bits: u32 = if shifted > u32::MAX {
        0xffff_fff0u32
    } else {
        shifted as u32
    };
    offset_bits | (if more_segments {
        1u32
    } else {
        0u32
    })
}

/// The segment and the rest that splitting a header with the given view at `limit` gives, or
/// `None` if it gives no segment.
pub open spec fn split_view(header: (usize, bool, Seq<u8>), limit: usize) -> Option<
    ((usize, bool, Seq<u8>), (usize, bool, Seq<u8>)),
> {
    let unit = limit / 16 * 16;
    if limit < 16 || header.2.len() <= unit {
        None
    } else {
        Some(
            (
                (header.0, true, header.2.take(unit as int)),
                ((header.0 + limit / 16) as usize, header.1, header.2.skip(unit as int)),
            ),
        )
    }
}

/// The header that joining `other` to `header` gives, by their views, or `None` if the join is
/// refused: when `header` expects no more segments, or `other` is not at the offset that the
/// length of `header`'s body gives, in units of 16 bytes.
pub open spec fn join_view(header: (usize, bool, Seq<u8>), other: (usize, bool, Seq<u8>)) -> Option<
    (usize, bool, Seq<u8>),
> {
    if !header.1 || other.0 != header.2.len() / 16 {
        None
    } else {
        Some((header.0, other.1, header.2 + other.2))
    }
}

impl TpHeader {
    /// Size of the serialized [`TpHeader`] in bytes.
    pub const HEADER_SIZE: usize = 4;

    /// The offset is measured in units of 16 bytes.
    pub const OFFSET_UNIT: usize = 16;

    /// The largest offset that can be serialized.
    pub const MAX_OFFSET: usize = 0xffff_fff0;

    /// Creates a new [`TpHeader`] with the given `body`, at offset `0` and with no more segments.
    pub fn new(body: Vec<u8>) -> (header: Self)
        ensures
            header.offset == 0,
            !header.more_segments,
            header.body == body,
    {
        Self { offset: 0, more_segments: false, body }
    }

    /// Splits this header into two at the given limit.
    ///
    /// Returns a header with the body from `[0..limit]` while `self` remains with `[limit..len]`.
    ///
    /// Returns [`None`] if the limit is below 16, or, clearing the more-segments flag, if the body is
    /// already within the limit.
    ///
    /// The `limit` must be a multiple of 16. If not, it's rounded down to the nearest multiple.
    pub fn split(&mut self, limit: usize) -> (segment: Option<Self>)
        requires
            limit >= 16 && old(self).body.len() > limit / 16 * 16 ==> old(self).offset + limit / 16
                <= usize::MAX,
        ensures
            ({
                let unit = limit / 16 * 16;
                if limit < 16 {
                    segment is None && *final(self) == *old(self)
                } else if old(self).body.len() <= unit {
                    &&& segment is None
                    &&& final(self).offset == old(self).offset
                    &&& !final(self).more_segments
                    &&& final(self).body@ == old(self).body@
                } else {
                    &&& segment matches Some(s) && s.offset == old(self).offset && s.more_segments
                        && s.body@ == old(self).body@.take(unit as int)
                    &&& final(self).offset == old(self).offset + limit / 16
                    &&& final(self).more_segments == old(self).more_segments
                    &&& final(self).body@ == old(self).body@.skip(unit as int)
                }
            }),
            match split_view(old(self).deep_view(), limit) {
                None => segment is None,
                Some((first, rest)) => segment matches Some(s) && s.deep_view() == first
                    && final(self).deep_view() == rest,
            },
    {
        // Limit must be greater than the offset unit size.
        if limit < Self::OFFSET_UNIT {
            return None;
        }
        // Round the limit to the nearest multiple of 16.
        let limit = limit / Self::OFFSET_UNIT * Self::OFFSET_UNIT;
        // Check if we are already below the limit.
        if self.body.len() <= limit {
            self.more_segments = false;
            return None;
        }
        // Split the header at the limit.
        let rest = self.body.split_off(limit);
        let mut body = rest;
        core::mem::swap(&mut self.body, &mut body);
        let header = Self { offset: self.offset, more_segments: true, body };
        // Update our offset.
        self.offset = self.offset + limit / Self::OFFSET_UNIT;
        Some(header)
    }

    /// Joins the bodies of `self` and `other`.
    ///
    /// The expected offset of `other` is the length of the body of `self`, in units of 16 bytes.
    ///
    /// # Errors
    ///
    /// - [`TpError::UnexpectedSegment`] if `self` is not expecting any more segments.
    /// - [`TpError::WrongOffset`] if the `offset` of `other` does not match the expected offset of
    ///   `self`.
    pub fn join(&mut self, other: Self) -> (result: Result<(), TpError>)
        ensures
            if !old(self).more_segments {
                &&& result == Err::<(), TpError>(TpError::UnexpectedSegment(other))
                &&& *final(self) == *old(self)
            } else if other.offset != old(self).body.len() / 16 {
                &&& result == Err::<(), TpError>(
                    TpError::WrongOffset { expected: (old(self).body.len() / 16) as usize, other },
                )
                &&& *final(self) == *old(self)
            } else {
                &&& result == Ok::<(), TpError>(())
                &&& final(self).offset == old(self).offset
                &&& final(self).more_segments == other.more_segments
                &&& final(self).body@ == old(self).body@ + other.body@
            },
            match join_view(old(self).deep_view(), other.deep_view()) {
                None => result is Err,
                Some(joined) => result is Ok && final(self).deep_view() == joined,
            },
    {
        // Check if we are expecting other segments.
        if !self.more_segments {
            return Err(TpError::UnexpectedSegment(other));
        }
        // Get our current offset.
        let current_offset = self.body.len() / Self::OFFSET_UNIT;
        // Check if the other header's offset is correct.
        if current_offset != other.offset {
            return Err(TpError::WrongOffset { expected: current_offset, other });
        }
        // Join both headers.
        let TpHeader { offset: _, more_segments, body } = other;
        let mut body = body;
        self.body.append(&mut body);
        self.more_segments = more_segments;
        Ok(())
    }
}

impl Default for TpHeader {
    fn default() -> (header: Self)
        ensures
            header.offset == 0,
            !header.more_segments,
            header.body@ == Seq::<u8>::empty(),
    {
        Self::new(Vec::new())
    }
}

impl Serialize for TpHeader {
    open spec fn spec_serialize(&self) -> Result<Seq<u8>, SerializeError> {
        if self.offset > 0xffff_fff0 {
            Err(SerializeError::InvariantFailed("offset exceeds max value"))
        } else if self.body.len() + 4 > usize::MAX {
            Err(SerializeError::SizeOverflow)
        } else {
            Ok(be_u32(tp_field(self.offset, self.more_segments)) + self.body@)
        }
    }

    open spec fn spec_size(&self) -> Option<usize> {
        if self.body.len() + 4 > usize::MAX {
            None
        } else {
            Some((self.body.len() + 4) as usize)
        }
    }

    proof fn lemma_size_agrees(&self) {
    }

    fn serialize(&self, buffer: &mut Vec<u8>) -> (result: Result<usize, SerializeError>) {
        if self.offset > Self::MAX_OFFSET {
            return Err(SerializeError::invariant_failed("offset exceeds max value"));
        }
        let size = match self.body.len().checked_add(Self::HEADER_SIZE) {
            Some(size) => size,
            None => return Err(SerializeError::SizeOverflow),
        };
        let shifted = (self.offset as u64) * 16;
        let offset_bits: u32 = if shifted > 0xffff_ffffu64 {
            0xffff_fff0u32
        } else {
            shifted as u32
        };
        let field = offset_bits | (if self.more_segments {
            1u32
        } else {
            0u32
        });
        let ghost start = buffer@;
        put_u32(buffer, field);
        put_slice(buffer, self.body.as_slice());
        assert(buffer@ =~= start + (be_u32(tp_field(self.offset, self.more_segments)) + self.body@));
        Ok(size)
    }

    fn size(&self) -> (result: Option<usize>) {
        self.body.len().checked_add(Self::HEADER_SIZE)
    }
}

impl Deserialize for TpHeader {
    type Output = Self;

    open spec fn spec_deserialize(input: Seq<u8>) -> Result<((usize, bool, Seq<u8>), nat), DeserializeError> {
        if input.len() < 4 {
            Err(DeserializeError::InsufficientData)
        } else {
            let field = u32_from_be(input);
            Ok(
                (
                    (
                        ((field & 0xffff_fff0u32) >> 4u32) as usize,
                        field & 1u32 == 1u32,
                        input.skip(4),
                    ),
                    input.len(),
                ),
            )
        }
    }

    open spec fn spec_size_hint() -> Option<usize> {
        Some(4)
    }

    fn deserialize(buffer: &mut Reader) -> (result: Result<Self, DeserializeError>) {
        let ghost start = buffer@;
        let field = buffer.try_get_u32()?;
        let offset = ((field & 0xffff_fff0u32) >> 4u32) as usize;
        let more_segments = field & 1u32 == 1u32;
        let n = buffer.remaining();
        let body = buffer.copy_to_vec(n);
        assert(body@ =~= start.skip(4));
        assert(buffer@ =~= start.skip(start.len() as int));
        Ok(Self { offset, more_segments, body })
    }

    fn size_hint() -> (result: Option<usize>) {
        Some(4)
    }
}

/// Represents an error during SOME/IP-TP operations.
#[derive(Debug, PartialEq, Eq)]
pub enum TpError {
    /// Tried to deserialize an invalid TP segment.
    InvalidData(DeserializeError),
    /// Tried to join a segment while the [`TpHeader::more_segments`] was set to `false`.
    UnexpectedSegment(TpHeader),
    /// Tried to join a header with the wrong offset.
    WrongOffset {
        /// The offset that the segment should have had.
        expected: usize,
        /// The segment itself.
        other: TpHeader,
    },
}

impl Message<Header, Vec<u8>> {
    /// Converts a [`Message<Header, Vec<u8>>`] into a [`Message<Header, TpHeader>`] by deserializing
    /// the body into a [`TpHeader`].
    ///
    /// # Errors
    ///
    /// Returns a [`DeserializeError`] if the segment could not be deserialized.
    pub fn into_segment(self) -> (result: Result<Message<Header, TpHeader>, DeserializeError>)
        ensures
            match TpHeader::spec_deserialize(self.body@) {
                Err(e) => result == Err::<Message<Header, TpHeader>, DeserializeError>(e),
                Ok((v, _)) => result matches Ok(m) && m.service == self.service && m.method
                    == self.method && m.header == self.header && m.body.deep_view() == v,
            },
    {
        let Message { service, method, header, body } = self;
        let mut reader = Reader::new(body.as_slice());
        let segment = TpHeader::deserialize(&mut reader)?;
        Ok(Message { service, method, header, body: segment })
    }

    /// Converts a [`Message<Header, Vec<u8>>`] into a [`Message<Header, TpHeader>`] by wrapping the
    /// body in a [`TpHeader`].
    pub fn wrap_segment(self) -> (message: Message<Header, TpHeader>)
        ensures
            message.service == self.service,
            message.method == self.method,
            message.header == self.header,
            message.body.offset == 0,
            !message.body.more_segments,
            message.body.body == self.body,
    {
        let Message { service, method, header, body } = self;
        Message { service, method, header, body: TpHeader::new(body) }
    }
}

impl Message<Header, TpHeader> {
    /// Unwraps a [`Message<Header, TpHeader>`] into a [`Message<Header, Vec<u8>>`].
    pub fn unwrap_segment(self) -> (message: Message<Header, Vec<u8>>)
        ensures
            message.service == self.service,
            message.method == self.method,
            message.header == self.header,
            message.body == self.body.body,
    {
        let Message { service, method, header, body } = self;
        Message { service, method, header, body: body.body }
    }
}

} // verus!
