//! SOME/IP service interface.
//!
//! An interface defines a series of methods which determine the types of messages that it can send
//! or receive. An interface behaves either as a stub, which serves its methods, or as a proxy,
//! which calls them: this decides which message types are valid for each kind of method.

use super::message::{Header, Message};
use super::primitives::{InterfaceVersion, MessageType, MethodId, ReturnCode};
use std::collections::HashMap;
use vstd::prelude::*;

verus! {

broadcast use vstd::std_specs::hash::group_hash_axioms;

/// SOME/IP service interface.
///
/// Manages the state of a service interface: its version, whether it behaves as a stub or as a
/// proxy, and its methods, keyed by the value of their [`MethodId`].
#[derive(Debug, Clone, PartialEq, Eq)]
pub struct Interface {
    /// Major version of the service interface.
    pub version: InterfaceVersion,
    /// Whether the interface should behave as a stub or proxy.
    pub flavor: InterfaceType,
    /// Methods registered with the interface.
    pub methods: HashMap<u16, MethodType>,
}

/// The outcome of checking a message against an interface.
///
/// `version`, `flavor` and `methods` describe the interface; `interface`, `method` and
/// `message_type` the message.
pub open spec fn check_outcome(
    version: u8,
    flavor: InterfaceType,
    methods: Map<u16, MethodType>,
    interface: u8,
    method: u16,
    message_type: MessageType,
    direction: Direction,
) -> Result<(), MessageError> {
    if interface != version {
        Err(spec_invalid_or_dropped(message_type, ReturnCode::WrongInterfaceVersion))
    } else if !methods.contains_key(method) {
        Err(spec_invalid_or_dropped(message_type, ReturnCode::UnknownMethod))
    } else if accepts(flavor, methods[method], message_type, direction) {
        Ok(())
    } else {
        match direction {
            Direction::Incoming => match (flavor, methods[method]) {
                (InterfaceType::Stub, MethodType::Method) => Err(
                    MessageError::Invalid(ReturnCode::WrongMessageType),
                ),
                _ => Err(MessageError::Dropped(ReturnCode::WrongMessageType)),
            },
            Direction::Outgoing => Err(MessageError::Invalid(ReturnCode::WrongMessageType)),
        }
    }
}

/// Whether a method of the given type, on an interface of the given flavor, accepts a message of
/// the given type in the given direction.
pub open spec fn accepts(
    flavor: InterfaceType,
    method: MethodType,
    message_type: MessageType,
    direction: Direction,
) -> bool {
    match direction {
        Direction::Incoming => match (flavor, method) {
            (InterfaceType::Stub, MethodType::Procedure) => message_type == MessageType::RequestNoReturn,
            (InterfaceType::Stub, MethodType::Method) => message_type == MessageType::Request,
            (InterfaceType::Proxy, MethodType::Method) => message_type == MessageType::Response
                || message_type == MessageType::Error,
            (InterfaceType::Proxy, MethodType::Event) => message_type == MessageType::Notification,
            _ => false,
        },
        Direction::Outgoing => match (flavor, method) {
            (InterfaceType::Stub, MethodType::Method) => message_type == MessageType::Response
                || message_type == MessageType::Error,
            (InterfaceType::Stub, MethodType::Event) => message_type == MessageType::Notification,
            (InterfaceType::Proxy, MethodType::Procedure) => message_type
                == MessageType::RequestNoReturn,
            (InterfaceType::Proxy, MethodType::Method) => message_type == MessageType::Request,
            _ => false,
        },
    }
}

/// The error for a message of the given type: a request is answered with an error response, every
/// other message is dropped.
pub open spec fn spec_invalid_or_dropped(
    message_type: MessageType,
    return_code: ReturnCode,
) -> MessageError {
    if message_type == MessageType::Request {
        MessageError::Invalid(return_code)
    } else {
        MessageError::Dropped(return_code)
    }
}

impl Interface {
    /// The methods of the interface, by the value of their id.
    pub open spec fn spec_methods(&self) -> Map<u16, MethodType> {
        self.methods@
    }

    /// Returns `self` as a [`InterfaceType::Stub`].
    pub fn into_stub(self) -> (interface: Self)
        ensures
            interface == (Self { flavor: InterfaceType::Stub, ..self }),
    {
        Self { flavor: InterfaceType::Stub, ..self }
    }

    /// Returns `self` as a [`InterfaceType::Proxy`].
    pub fn into_proxy(self) -> (interface: Self)
        ensures
            interface == (Self { flavor: InterfaceType::Proxy, ..self }),
    {
        Self { flavor: InterfaceType::Proxy, ..self }
    }

    /// Returns `self` with the given [`InterfaceVersion`].
    pub fn with_version(self, version: InterfaceVersion) -> (interface: Self)
        ensures
            interface == (Self { version, ..self }),
    {
        Self { version, ..self }
    }

    /// Returns `self` with the given method, of type [`MethodType::Method`].
    pub fn with_method(self, id: MethodId) -> (interface: Self)
        ensures
            interface.version == self.version,
            interface.flavor == self.flavor,
            interface.spec_methods() == self.spec_methods().insert(id@, MethodType::Method),
    {
        let mut interface = self;
        let _ = interface.insert(id, MethodType::Method);
        interface
    }

    /// Returns `self` with the given procedure, of type [`MethodType::Procedure`].
    pub fn with_procedure(self, id: MethodId) -> (interface: Self)
        ensures
            interface.version == self.version,
            interface.flavor == self.flavor,
            interface.spec_methods() == self.spec_methods().insert(id@, MethodType::Procedure),
    {
        let mut interface = self;
        let _ = interface.insert(id, MethodType::Procedure);
        interface
    }

    /// Returns `self` with the given event, of type [`MethodType::Event`].
    pub fn with_event(self, id: MethodId) -> (interface: Self)
        ensures
            interface.version == self.version,
            interface.flavor == self.flavor,
            interface.spec_methods() == self.spec_methods().insert(id@, MethodType::Event),
    {
        let mut interface = self;
        let _ = interface.insert(id, MethodType::Event);
        interface
    }

    /// Inserts a method with the given `id` and `flavor`.
    ///
    /// Returns the previous flavor.
    pub fn insert(&mut self, id: MethodId, flavor: MethodType) -> (previous: Option<MethodType>)
        ensures
            final(self).version == old(self).version,
            final(self).flavor == old(self).flavor,
            final(self).spec_methods() == old(self).spec_methods().insert(id@, flavor),
            previous == (if old(self).spec_methods().contains_key(id@) {
                Some(old(self).spec_methods()[id@])
            } else {
                None
            }),
    {
        self.methods.insert(id.as_u16(), flavor)
    }

    /// Removes the method with the given `id`.
    ///
    /// Returns its flavor, if it was registered.
    pub fn remove(&mut self, id: MethodId) -> (previous: Option<MethodType>)
        ensures
            final(self).version == old(self).version,
            final(self).flavor == old(self).flavor,
            final(self).spec_methods() == old(self).spec_methods().remove(id@),
            previous == (if old(self).spec_methods().contains_key(id@) {
                Some(old(self).spec_methods()[id@])
            } else {
                None
            }),
    {
        let key = id.as_u16();
        self.methods.remove(&key)
    }

    /// Returns the flavor of the method with the given `id`.
    pub fn get(&self, id: MethodId) -> (flavor: Option<MethodType>)
        ensures
            flavor == (if self.spec_methods().contains_key(id@) {
                Some(self.spec_methods()[id@])
            } else {
                None
            }),
    {
        let key = id.as_u16();
        match self.methods.get(&key) {
            Some(flavor) => Some(*flavor),
            None => None,
        }
    }

    /// Returns a mutable reference to the method with the given `id`.
    pub fn get_mut(&mut self, id: MethodId) -> (flavor: Option<&mut MethodType>)
        ensures
            final(self).version == old(self).version,
            final(self).flavor == old(self).flavor,
            match flavor {
                Some(f) => {
                    &&& old(self).spec_methods().contains_key(id@)
                    &&& *f == old(self).spec_methods()[id@]
                    &&& final(self).spec_methods() == old(self).spec_methods().insert(id@, *final(f))
                },
                None => {
                    &&& !old(self).spec_methods().contains_key(id@)
                    &&& final(self).spec_methods() == old(self).spec_methods()
                },
            },
    {
        map_get_mut(&mut self.methods, id.as_u16())
    }

    /// Checks if the `message` is valid in the given `direction`.
    ///
    /// This confirms that the message parameters are correctly configured for this interface when
    /// sending ([`Direction::Outgoing`]) or receiving it ([`Direction::Incoming`]).
    ///
    /// # Errors
    ///
    /// Returns a [`MessageError`] if the message is invalid: one to be answered if it's a request
    /// to the wrong interface version or an unknown method, or an incoming request to a method of
    /// a stub, or any outgoing message of the wrong type; one to be dropped otherwise.
    pub fn check<T>(&self, message: &Message<Header, T>, direction: Direction) -> (result: Result<
        (),
        MessageError,
    >)
        ensures
            result == check_outcome(
                self.version@,
                self.flavor,
                self.spec_methods(),
                message.header.interface@,
                message.method@,
                message.header.spec_message_type(),
                direction,
            ),
    {
        let message_type = message.message_type();
        // Check if interface version is correct.
        if message.interface().as_u8() != self.version.as_u8() {
            return Err(MessageError::invalid_or_dropped(message_type, ReturnCode::WrongInterfaceVersion));
        }
        // Check if the method is registered.
        let method = match self.get(message.method) {
            Some(method) => method,
            None => return Err(MessageError::invalid_or_dropped(message_type, ReturnCode::UnknownMethod)),
        };
        // Check if the message type is correct.
        match direction {
            Direction::Incoming => match (self.flavor, method) {
                (InterfaceType::Stub, MethodType::Procedure) => {
                    if !message_type.is(MessageType::RequestNoReturn) {
                        return Err(MessageError::Dropped(ReturnCode::WrongMessageType));
                    }
                },
                (InterfaceType::Stub, MethodType::Method) => {
                    if !message_type.is(MessageType::Request) {
                        return Err(MessageError::Invalid(ReturnCode::WrongMessageType));
                    }
                },
                (InterfaceType::Proxy, MethodType::Method) => {
                    if !(message_type.is(MessageType::Response) || message_type.is(MessageType::Error)) {
                        return Err(MessageError::Dropped(ReturnCode::WrongMessageType));
                    }
                },
                (InterfaceType::Proxy, MethodType::Event) => {
                    if !message_type.is(MessageType::Notification) {
                        return Err(MessageError::Dropped(ReturnCode::WrongMessageType));
                    }
                },
                _ => return Err(MessageError::Dropped(ReturnCode::WrongMessageType)),
            },
            Direction::Outgoing => match (self.flavor, method) {
                (InterfaceType::Stub, MethodType::Method) => {
                    if !(message_type.is(MessageType::Response) || message_type.is(MessageType::Error)) {
                        return Err(MessageError::Invalid(ReturnCode::WrongMessageType));
                    }
                },
                (InterfaceType::Stub, MethodType::Event) => {
                    if !message_type.is(MessageType::Notification) {
                        return Err(MessageError::Invalid(ReturnCode::WrongMessageType));
                    }
                },
                (InterfaceType::Proxy, MethodType::Procedure) => {
                    if !message_type.is(MessageType::RequestNoReturn) {
                        return Err(MessageError::Invalid(ReturnCode::WrongMessageType));
                    }
                },
                (InterfaceType::Proxy, MethodType::Method) => {
                    if !message_type.is(MessageType::Request) {
                        return Err(MessageError::Invalid(ReturnCode::WrongMessageType));
                    }
                },
                _ => return Err(MessageError::Invalid(ReturnCode::WrongMessageType)),
            },
        }
        Ok(())
    }
}

/// Looks up the value under `key` for modification.
///
/// Calls `HashMap::get_mut`, which per its documentation returns a mutable reference to the value
/// under the key if there is one, and `None` otherwise; what is written through the reference is
/// what the map holds under the key afterwards.
#[verifier::external_body]
pub(crate) fn map_get_mut<V>(map: &mut HashMap<u16, V>, key: u16) -> (value: Option<&mut V>)
    ensures
        match value {
            Some(v) => {
                &&& old(map)@.contains_key(key)
                &&& *v == old(map)@[key]
                &&& final(map)@ == old(map)@.insert(key, *final(v))
            },
            None => {
                &&& !old(map)@.contains_key(key)
                &&& final(map)@ == old(map)@
            },
        },
{
    map.get_mut(&key)
}

impl Default for Interface {
    fn default() -> (interface: Self)
        ensures
            interface.version@ == 0,
            interface.flavor == InterfaceType::Stub,
            interface.spec_methods() == Map::<u16, MethodType>::empty(),
    {
        Self { version: InterfaceVersion::new(0), flavor: InterfaceType::Stub, methods: HashMap::new() }
    }
}

/// The type of a SOME/IP service interface.
///
/// This defines how it should process SOME/IP messages.
#[derive(Debug, Clone, Copy, PartialEq, Eq, Structural)]
pub enum InterfaceType {
    /// A service interface being served on a local endpoint.
    Stub,
    /// A service interface being served on a remote endpoint.
    Proxy,
}

impl Default for InterfaceType {
    fn default() -> (flavor: Self)
        ensures
            flavor == InterfaceType::Stub,
    {
        InterfaceType::Stub
    }
}

/// The type of a SOME/IP method.
///
/// This defines how it should process SOME/IP messages.
#[derive(Debug, Clone, Copy, PartialEq, Eq, Structural)]
pub enum MethodType {
    /// A callable function on a service interface that does not return a value.
    Procedure,
    /// A callable function on a service interface that returns a value.
    Method,
    /// A non-callable event on the service interface.
    Event,
}

/// The direction a message is taking through the endpoint.
#[derive(Debug, Clone, Copy, PartialEq, Eq, Structural)]
pub enum Direction {
    /// The message is coming from a remote endpoint.
    Incoming,
    /// The message is going to a remote endpoint.
    Outgoing,
}

/// A message processing error.
///
/// If the error is [`MessageError::Invalid`], then an error response should be sent with the
/// contained [`ReturnCode`]. Otherwise, the message should be dropped.
#[derive(Debug, Clone, Copy, PartialEq, Eq)]
pub enum MessageError {
    /// The message is invalid: an error response should be sent back.
    Invalid(ReturnCode),
    /// The message should be dropped.
    Dropped(ReturnCode),
}

impl MessageError {
    /// Creates a new [`MessageError::Invalid`] for a request, or a [`MessageError::Dropped`] for
    /// any other [`MessageType`].
    pub fn invalid_or_dropped(message_type: MessageType, return_code: ReturnCode) -> (error: Self)
        ensures
            error == spec_invalid_or_dropped(message_type, return_code),
    {
        if message_type.is(MessageType::Request) {
            Self::Invalid(return_code)
        } else {
            Self::Dropped(return_code)
        }
    }
}

} // verus!
