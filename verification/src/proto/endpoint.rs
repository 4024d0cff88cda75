//! SOME/IP endpoint.
//!
//! An endpoint is a collection of service interfaces, keyed by the value of their [`ServiceId`].
//! It checks the messages that it reads from, or writes into, a buffer against those interfaces.

use super::interface::{check_outcome, map_get_mut, Direction, Interface, MessageError};
use super::message::{Header, Message};
use super::primitives::{MessageType, ReturnCode, ServiceId};
use crate::bytes::de::{is_rest_of, Deserialize, DeserializeError};
use crate::bytes::ser::{Serialize, SerializeError};
use crate::bytes::wire::Reader;
use std::collections::HashMap;
use vstd::prelude::*;

verus! {

broadcast use vstd::std_specs::hash::group_hash_axioms;

/// Collection of SOME/IP service interfaces.
///
/// This is used to process SOME/IP messages to and from serialized data.
#[derive(Debug, Clone)]
pub struct Endpoint {
    interfaces: HashMap<u16, Interface>,
}

/// Represents an error during [`Endpoint`] operations.
#[derive(Debug, PartialEq, Eq)]
pub enum EndpointError<T> {
    /// The message could not be deserialized.
    InvalidData(DeserializeError),
    /// The message could not be serialized.
    InvalidInput(SerializeError),
    /// The message is invalid and an error response should be sent back to the source.
    InvalidMessage {
        /// The message itself.
        message: Message<Header, T>,
        /// The reason why the message is invalid.
        return_code: ReturnCode,
    },
    /// The message is invalid and should be dropped.
    MessageDropped {
        /// The message itself.
        message: Message<Header, T>,
        /// The reason why the message is invalid.
        return_code: ReturnCode,
    },
    /// Any other error.
    Custom(String),
}

/// The error for a message: a request is answered with an error response, any other message is
/// dropped.
pub open spec fn spec_invalid_or_dropped<T>(
    message: Message<Header, T>,
    return_code: ReturnCode,
) -> EndpointError<T> {
    if message.header.spec_message_type() == MessageType::Request {
        EndpointError::InvalidMessage { message, return_code }
    } else {
        EndpointError::MessageDropped { message, return_code }
    }
}

/// The error that the interface check of `message` in `direction` gives, if any.
pub open spec fn interface_rejection<T>(
    interface: Interface,
    message: Message<Header, T>,
    direction: Direction,
) -> Option<EndpointError<T>> {
    match check_outcome(
        interface.version@,
        interface.flavor,
        interface.spec_methods(),
        message.header.interface@,
        message.method@,
        message.header.spec_message_type(),
        direction,
    ) {
        Ok(()) => None,
        Err(MessageError::Invalid(return_code)) => Some(
            EndpointError::InvalidMessage { message, return_code },
        ),
        Err(MessageError::Dropped(return_code)) => Some(
            EndpointError::MessageDropped { message, return_code },
        ),
    }
}

/// The error that an incoming `message` is rejected with by the given interfaces, if any.
pub open spec fn incoming_rejection<T>(
    interfaces: Map<u16, Interface>,
    message: Message<Header, T>,
) -> Option<EndpointError<T>> {
    if message.header.protocol@ != 1 {
        Some(spec_invalid_or_dropped(message, ReturnCode::WrongProtocolVersion))
    } else if !interfaces.contains_key(message.service@) {
        Some(spec_invalid_or_dropped(message, ReturnCode::UnknownService))
    } else {
        interface_rejection(interfaces[message.service@], message, Direction::Incoming)
    }
}

/// The error that an outgoing `message` is rejected with by the given interfaces, if any.
pub open spec fn outgoing_rejection<T>(
    interfaces: Map<u16, Interface>,
    message: Message<Header, T>,
) -> Option<EndpointError<T>> {
    if message.header.protocol@ != 1 {
        Some(EndpointError::InvalidMessage { message, return_code: ReturnCode::WrongProtocolVersion })
    } else if !interfaces.contains_key(message.service@) {
        Some(EndpointError::InvalidMessage { message, return_code: ReturnCode::UnknownService })
    } else {
        interface_rejection(interfaces[message.service@], message, Direction::Outgoing)
    }
}

impl<T> EndpointError<T> {
    /// Creates a new [`EndpointError::InvalidMessage`] for a request, or a
    /// [`EndpointError::MessageDropped`] for any other message.
    fn invalid_or_dropped(message: Message<Header, T>, return_code: ReturnCode) -> (error: Self)
        ensures
            error == spec_invalid_or_dropped(message, return_code),
    {
        if message.message_type().is(MessageType::Request) {
            Self::InvalidMessage { message, return_code }
        } else {
            Self::MessageDropped { message, return_code }
        }
    }
}

impl Endpoint {
    /// The interfaces of the endpoint, by the value of their service id.
    pub closed spec fn spec_interfaces(&self) -> Map<u16, Interface> {
        self.interfaces@
    }

    /// Creates a new [`Endpoint`] without any interfaces.
    pub fn new() -> (endpoint: Self)
        ensures
            endpoint.spec_interfaces() == Map::<u16, Interface>::empty(),
    {
        Self { interfaces: HashMap::new() }
    }

    /// Returns `self` with the given service interface.
    pub fn with_interface(self, id: ServiceId, interface: Interface) -> (endpoint: Self)
        ensures
            endpoint.spec_interfaces() == self.spec_interfaces().insert(id@, interface),
    {
        let mut endpoint = self;
        let _ = endpoint.insert(id, interface);
        endpoint
    }

    /// Inserts the `interface` with the given `id`.
    ///
    /// Returns the previous interface, if it exists.
    pub fn insert(&mut self, id: ServiceId, interface: Interface) -> (previous: Option<Interface>)
        ensures
            final(self).spec_interfaces() == old(self).spec_interfaces().insert(id@, interface),
            previous == (if old(self).spec_interfaces().contains_key(id@) {
                Some(old(self).spec_interfaces()[id@])
            } else {
                None
            }),
    {
        self.interfaces.insert(id.as_u16(), interface)
    }

    /// Removes the interface with the given `id`.
    ///
    /// Returns the interface, if it exists.
    pub fn remove(&mut self, id: ServiceId) -> (previous: Option<Interface>)
        ensures
            final(self).spec_interfaces() == old(self).spec_interfaces().remove(id@),
            previous == (if old(self).spec_interfaces().contains_key(id@) {
                Some(old(self).spec_interfaces()[id@])
            } else {
                None
            }),
    {
        let key = id.as_u16();
        self.interfaces.remove(&key)
    }

    /// Returns a reference to the interface with the given `id`.
    pub fn get(&self, id: ServiceId) -> (interface: Option<&Interface>)
        ensures
            match interface {
                Some(i) => self.spec_interfaces().contains_key(id@) && *i == self.spec_interfaces()[id@],
                None => !self.spec_interfaces().contains_key(id@),
            },
    {
        let key = id.as_u16();
        self.interfaces.get(&key)
    }

    /// Returns a mutable reference to the interface with the given `id`.
    pub fn get_mut(&mut self, id: ServiceId) -> (interface: Option<&mut Interface>)
        ensures
            match interface {
                Some(i) => {
                    &&& old(self).spec_interfaces().contains_key(id@)
                    &&& *i == old(self).spec_interfaces()[id@]
                    &&& final(self).spec_interfaces() == old(self).spec_interfaces().insert(
                        id@,
                        *final(i),
                    )
                },
                None => {
                    &&& !old(self).spec_interfaces().contains_key(id@)
                    &&& final(self).spec_interfaces() == old(self).spec_interfaces()
                },
            },
    {
        map_get_mut(&mut self.interfaces, id.as_u16())
    }

    /// Checks `message` against the interface it's addressed to.
    fn route<T>(&self, message: Message<Header, T>, direction: Direction) -> (result: Result<
        Message<Header, T>,
        EndpointError<T>,
    >)
        requires
            self.spec_interfaces().contains_key(message.service@),
        ensures
            match interface_rejection(self.spec_interfaces()[message.service@], message, direction) {
                Some(error) => result == Err::<Message<Header, T>, EndpointError<T>>(error),
                None => result == Ok::<Message<Header, T>, EndpointError<T>>(message),
            },
    {
        let key = message.service.as_u16();
        let interface = self.interfaces.get(&key).unwrap();
        match interface.check(&message, direction) {
            Ok(()) => Ok(message),
            Err(MessageError::Invalid(return_code)) => Err(
                EndpointError::InvalidMessage { message, return_code },
            ),
            Err(MessageError::Dropped(return_code)) => Err(
                EndpointError::MessageDropped { message, return_code },
            ),
        }
    }

    /// Polls the `buffer` for a [`Message`].
    ///
    /// Checks if the message is valid for the interface it's addressed to.
    ///
    /// # Errors
    ///
    /// - [`EndpointError::InvalidData`]: If the [`Message`] failed to be deserialized from the
    ///   `buffer`.
    /// - [`EndpointError::InvalidMessage`]: If the [`Message`] was invalid and an error response
    ///   should be sent back to the source.
    /// - [`EndpointError::MessageDropped`]: If the [`Message`] was invalid and should be dropped.
    pub fn poll<T: Deserialize<Output = T> + DeepView>(&self, buffer: &mut Reader) -> (result:
        Result<Message<Header, T>, EndpointError<T>>)
        ensures
            match Message::<Header, T>::spec_deserialize(old(buffer)@) {
                Err(e) => {
                    &&& result == Err::<Message<Header, T>, EndpointError<T>>(
                        EndpointError::InvalidData(e),
                    )
                    &&& is_rest_of(final(buffer)@, old(buffer)@)
                },
                Ok((v, n)) => {
                    &&& final(buffer)@ == old(buffer)@.skip(n as int)
                    &&& exists|message: Message<Header, T>|
                        {
                            &&& message.deep_view() == v
                            &&& match incoming_rejection(self.spec_interfaces(), message) {
                                Some(error) => result == Err::<Message<Header, T>, EndpointError<T>>(
                                    error,
                                ),
                                None => result == Ok::<Message<Header, T>, EndpointError<T>>(
                                    message,
                                ),
                            }
                        }
                },
            },
    {
        // Try to extract a message from the buffer.
        let message = match Message::<Header, T>::deserialize(buffer) {
            Ok(message) => message,
            Err(e) => return Err(EndpointError::InvalidData(e)),
        };
        let ghost m = message;
        // Check if the protocol version is correct.
        if message.protocol().as_u8() != 1 {
            let error = EndpointError::invalid_or_dropped(message, ReturnCode::WrongProtocolVersion);
            assert(incoming_rejection(self.spec_interfaces(), m) == Some(error));
            return Err(error);
        }
        // Find the interface to which the message is addressed.
        if self.get(message.service).is_none() {
            let error = EndpointError::invalid_or_dropped(message, ReturnCode::UnknownService);
            assert(incoming_rejection(self.spec_interfaces(), m) == Some(error));
            return Err(error);
        }
        // Check if the message is valid for the given interface.
        self.route(message, Direction::Incoming)
    }

    /// Processes the `message` into the `buffer`.
    ///
    /// Checks if the message is valid for the interface it's addressed to, and serializes it.
    ///
    /// Returns the size of the serialized message.
    ///
    /// # Errors
    ///
    /// - [`EndpointError::InvalidInput`]: If the [`Message`] failed to be serialized into the
    ///   `buffer`.
    /// - [`EndpointError::InvalidMessage`]: If the [`Message`] was invalid and an error response
    ///   should be sent back to the source.
    /// - [`EndpointError::MessageDropped`]: If the [`Message`] was invalid and should be dropped.
    pub fn process<T: Serialize>(&self, message: Message<Header, T>, buffer: &mut Vec<u8>) -> (result:
        Result<usize, EndpointError<T>>)
        ensures
            match outgoing_rejection(self.spec_interfaces(), message) {
                Some(error) => {
                    &&& result == Err::<usize, EndpointError<T>>(error)
                    &&& final(buffer)@ == old(buffer)@
                },
                None => match message.spec_serialize() {
                    Ok(bytes) => {
                        &&& result == Ok::<usize, EndpointError<T>>(bytes.len() as usize)
                        &&& final(buffer)@ == old(buffer)@ + bytes
                    },
                    Err(e) => {
                        &&& result == Err::<usize, EndpointError<T>>(EndpointError::InvalidInput(e))
                        &&& old(buffer)@.is_prefix_of(final(buffer)@)
                    },
                },
            },
    {
        // Check if the protocol version is correct.
        if message.protocol().as_u8() != 1 {
            return Err(
                EndpointError::InvalidMessage { message, return_code: ReturnCode::WrongProtocolVersion },
            );
        }
        // Find the interface to which the message is addressed.
        if self.get(message.service).is_none() {
            return Err(
                EndpointError::InvalidMessage { message, return_code: ReturnCode::UnknownService },
            );
        }
        // Check if the message is valid for the given interface.
        let message = self.route(message, Direction::Outgoing)?;
        // Serialize the message into the buffer.
        match message.serialize(buffer) {
            Ok(size) => Ok(size),
            Err(e) => Err(EndpointError::InvalidInput(e)),
        }
    }
}

impl Default for Endpoint {
    fn default() -> (endpoint: Self)
        ensures
            endpoint.spec_interfaces() == Map::<u16, Interface>::empty(),
    {
        Self::new()
    }
}

} // verus!
