//! SOME/IP on-wire encoding, message model and endpoint rules.

pub mod bytes;

pub mod proto;

pub mod codec;

pub mod net;

pub mod runtime;

pub mod socket;

pub mod endpoint;

pub(crate) mod text;
