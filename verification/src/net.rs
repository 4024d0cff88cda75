//! Buffers and errors for network communication.

pub mod util;

pub mod error;
pub use error::Error;
