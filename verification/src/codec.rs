//! Data serialization according to the SOME/IP protocol, over plain byte buffers.
//!
//! - [`Deserialize`] extracts data structures from a [`Deserializer`], which reads a byte slice in
//!   order and can be limited to a window of it.
//! - [`Serialize`] writes data structures into a byte buffer, optionally preceded by a length
//!   field.
//! - [`SerializeString`] writes strings using UTF-8, UTF-16-BE and UTF-16-LE encodings.

use vstd::prelude::*;

pub mod de;
pub use de::{Deserialize, Deserializer};

pub mod ser;
pub use ser::{Serialize, SerializeError, SerializeString};

pub mod laws;

verus! {

/// Size of the length field.
///
/// The size of a dynamic payload is encoded in a preceding length field which can be 1, 2, or 4
/// bytes long.
#[derive(Debug, Clone, Copy, PartialEq, Eq, Structural)]
pub enum LengthField {
    /// 8-bit length field.
    U8,
    /// 16-bit length field.
    U16,
    /// 32-bit length field.
    U32,
}

impl LengthField {
    /// The size of the length field in bytes.
    pub open spec fn spec_width(self) -> nat {
        match self {
            LengthField::U8 => 1,
            LengthField::U16 => 2,
            LengthField::U32 => 4,
        }
    }

    /// The largest length that the field can hold.
    pub open spec fn spec_max(self) -> nat {
        match self {
            LengthField::U8 => 0xff,
            LengthField::U16 => 0xffff,
            LengthField::U32 => 0xffff_ffff,
        }
    }
}

/// Error when reading data.
#[derive(Debug, PartialEq, Eq)]
pub enum Error {
    /// A failure with a message.
    Message(String),
    /// The operation failed unexpectedly.
    Failure,
    /// Reading exceeds the end of the buffer.
    BufferOverflow,
    /// Length exceeds maximum value.
    LengthOverflow,
    /// Reading exceeds the limit that was set.
    ExceedsLimit,
}

/// Result of reading data.
pub type Result<T> = core::result::Result<T, Error>;

} // verus!
