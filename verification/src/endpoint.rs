//! Identifiers that route SOME/IP messages to service interfaces.

use crate::bytes::array::{deserialize_items, read_all};
use crate::bytes::wire::Reader;
use crate::proto::message::{Header, Message};
use crate::socket::RecvError;
use crate::proto::primitives::{InterfaceVersion, ServiceId};
use crate::text::{hex_digits, push_hex, text_of};
use vstd::prelude::*;
use vstd::string::StringExecFns;

verus! {

/// Unique identifier of a SOME/IP service interface.
///
/// This is used when routing incoming messages to the correct handler.
#[derive(Debug, Clone, Copy, PartialEq, Eq, Hash)]
pub struct InterfaceId {
    /// Unique ID of the service.
    pub service: ServiceId,
    /// Major version of the interface.
    pub version: InterfaceVersion,
}

impl InterfaceId {
    /// Creates a new [`InterfaceId`].
    pub fn new(service: ServiceId, version: InterfaceVersion) -> (id: Self)
        ensures
            id.service == service,
            id.version == version,
    {
        Self { service, version }
    }

    /// Describes the identifier in words: `I.`, the service in four lowercase hexadecimal
    /// digits, `.`, and the version in two.
    pub fn to_string(&self) -> (text: String)
        ensures
            text@ == interface_id_text(self.service@, self.version@),
    {
        proof {
            reveal_strlit("I.");
            reveal_strlit(".");
        }
        let mut text = text_of("I.");
        push_hex(&mut text, self.service.as_u16() as u32, 4);
        text.append(".");
        push_hex(&mut text, self.version.as_u8() as u32, 2);
        text
    }
}

/// The text that describes the interface of the given service and version.
pub open spec fn interface_id_text(service: u16, version: u8) -> Seq<char> {
    seq!['I', '.'] + hex_digits(service as nat, 4) + seq!['.'] + hex_digits(version as nat, 2)
}

impl<'a, B> From<&'a Message<Header, B>> for InterfaceId {
    /// The interface that a message is addressed to: its service and its interface version.
    fn from(message: &'a Message<Header, B>) -> (id: Self) {
        Self { service: message.service, version: message.header.interface }
    }
}

impl<'a, B> vstd::std_specs::convert::FromSpecImpl<&'a Message<Header, B>> for InterfaceId {
    open spec fn obeys_from_spec() -> bool {
        true
    }

    open spec fn from_spec(message: &'a Message<Header, B>) -> Self {
        Self { service: message.service, version: message.header.interface }
    }
}


/// What a connection's receiver does with what its socket handed it.
#[derive(Debug, PartialEq, Eq)]
pub enum ReceiveAction {
    /// Route these messages, in order, to the service interfaces they are addressed to.
    Route(Vec<Message<Header, Vec<u8>>>),
    /// Drop what was received and wait for more: the data was malformed, or packets were lost.
    Skip,
    /// Stop receiving: the socket is closed.
    Stop,
}

/// Decides what a connection's receiver does with one result of its socket.
///
/// The received data holds SOME/IP messages one after the other. If all of it reads as messages,
/// they are routed; malformed data is dropped. Lost packets are skipped, and a closed socket ends
/// the reception.
pub fn receive_step(received: Result<Vec<u8>, RecvError>) -> (action: ReceiveAction)
    ensures
        match received {
            Err(RecvError::Closed) => action is Stop,
            Err(RecvError::Lagged(_)) => action is Skip,
            Ok(data) => match read_all::<Message<Header, Vec<u8>>>(data@) {
                Ok((messages, _)) => action matches ReceiveAction::Route(routed)
                    && routed.deep_view() == messages,
                Err(_) => action is Skip,
            },
        },
{
    match received {
        Err(RecvError::Closed) => ReceiveAction::Stop,
        Err(RecvError::Lagged(_)) => ReceiveAction::Skip,
        Ok(data) => {
            let mut reader = Reader::new(data.as_slice());
            match deserialize_items::<Message<Header, Vec<u8>>>(&mut reader) {
                Ok(messages) => ReceiveAction::Route(messages),
                Err(_) => ReceiveAction::Skip,
            }
        },
    }
}
} // verus!
