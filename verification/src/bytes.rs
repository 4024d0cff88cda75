//! Serialization according to the SOME/IP on-wire format.

pub mod wire;
pub use wire::Reader;

pub mod de;
pub use de::DeserializeError;

pub mod ser;
pub use ser::{Serialize, SerializeError, SerializeWithFn};

pub mod length;
pub use length::{
    DeserializeWithLength, Length, LengthU16, LengthU32, LengthU8, LengthZero, SerializeWithLength,
};

pub mod string;
pub use string::{DynamicString, Encoding, StaticString, Utf16BE, Utf16LE, Utf8};

pub mod array;
pub use array::DynamicArray;

pub mod laws;
