//! Sans-IO implementation of the SOME/IP protocol.

pub mod primitives;
pub use primitives::{
    ClientId, InterfaceVersion, MessageId, MessageType, MessageTypeField, MethodId,
    ProtocolVersion, RequestId, ReturnCode, ServiceId, SessionId,
};

pub mod message;
pub use message::{Header, Message};

pub mod interface;
pub use interface::{Direction, Interface, InterfaceType, MethodType};

pub mod endpoint;
pub use endpoint::{Endpoint, EndpointError};

pub mod tp;
pub use tp::{TpError, TpHeader};

pub mod laws;
