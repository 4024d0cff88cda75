//! SOME/IP message.
//!
//! A message is addressed to a method of a service interface and carries a header and a body. On
//! the wire, the [`MessageId`] is followed by a 32-bit length field and then by the header and
//! the body.

use super::primitives::{
    ClientId, InterfaceVersion, MessageId, MessageType, MessageTypeField, MethodId,
    ProtocolVersion, RequestId, ReturnCode, ServiceId, SessionId,
};
use crate::bytes::de::{Deserialize, DeserializeError};
use crate::bytes::length::{after_length_field, Length, LengthU32};
use crate::bytes::ser::{add_sizes, concat_serialized, lemma_concat_agrees, Serialize, SerializeError};
use crate::bytes::wire::{be_u16, put_u16, u16_from_be, Reader};
use vstd::prelude::*;

verus! {

/// Message addressed to a service instance.
#[derive(Debug, Clone, PartialEq, Eq)]
pub struct Message<H, B> {
    /// Identifier of the service interface.
    pub service: ServiceId,
    /// Identifier of the method or event.
    pub method: MethodId,
    /// Additional information about the message.
    pub header: H,
    /// Contents of the message.
    pub body: B,
}

impl<H: DeepView, B: DeepView> DeepView for Message<H, B> {
    type V = (u16, u16, H::V, B::V);

    open spec fn deep_view(&self) -> Self::V {
        (self.service@, self.method@, self.header.deep_view(), self.body.deep_view())
    }
}

// Constructor and accessors.
impl<H, B> Message<H, B> {
    /// Creates a new [`Message`] addressed to service `0` and method `0`.
    pub fn new(header: H, body: B) -> (message: Self)
        ensures
            message.service@ == 0,
            message.method@ == 0,
            message.header == header,
            message.body == body,
    {
        Self { service: ServiceId::new(0), method: MethodId::new(0), header, body }
    }

    /// Returns the [`MessageId`] portion of this message.
    pub fn id(&self) -> (id: MessageId)
        ensures
            id.service == self.service,
            id.method == self.method,
    {
        MessageId::new(self.service, self.method)
    }

    /// Returns `self` with the given [`MessageId`].
    pub fn with_id(self, id: MessageId) -> (message: Self)
        ensures
            message == (Self { service: id.service, method: id.method, ..self }),
    {
        Self { service: id.service, method: id.method, ..self }
    }

    /// Returns `self` with the given [`ServiceId`].
    pub fn with_service(self, service: ServiceId) -> (message: Self)
        ensures
            message == (Self { service, ..self }),
    {
        Self { service, ..self }
    }

    /// Returns `self` with the given [`MethodId`].
    pub fn with_method(self, method: MethodId) -> (message: Self)
        ensures
            message == (Self { method, ..self }),
    {
        Self { method, ..self }
    }

    /// Maps a [`Message<H, B>`] to a [`Message<T, B>`] by replacing the header of the message with
    /// the given value.
    pub fn with_header<T>(self, header: T) -> (message: Message<T, B>)
        ensures
            message == (Message { service: self.service, method: self.method, header, body: self.body }),
    {
        Message { service: self.service, method: self.method, header, body: self.body }
    }

    /// Maps a [`Message<H, B>`] to a [`Message<H, T>`] by replacing the body of the message with the
    /// given value.
    pub fn with_body<T>(self, body: T) -> (message: Message<H, T>)
        ensures
            message == (Message { service: self.service, method: self.method, header: self.header, body }),
    {
        Message { service: self.service, method: self.method, header: self.header, body }
    }

    /// Maps a [`Message<H, B>`] to a [`Message<T, U>`] by applying a function to the header and body
    /// of the message.
    pub fn map<T, U, F>(self, f: F) -> (message: Message<T, U>) where F: FnOnce(H, B) -> (T, U)
        requires
            f.requires((self.header, self.body)),
        ensures
            message.service == self.service,
            message.method == self.method,
            f.ensures((self.header, self.body), (message.header, message.body)),
    {
        let Message { service, method, header, body } = self;
        let (header, body) = f(header, body);
        Message { service, method, header, body }
    }

    /// Maps a [`Message<H, B>`] to a [`Message<T, B>`] by applying a function to the header of the
    /// message.
    pub fn map_header<T, F>(self, f: F) -> (message: Message<T, B>) where F: FnOnce(H) -> T
        requires
            f.requires((self.header,)),
        ensures
            message.service == self.service,
            message.method == self.method,
            message.body == self.body,
            f.ensures((self.header,), message.header),
    {
        let Message { service, method, header, body } = self;
        Message { service, method, header: f(header), body }
    }

    /// Maps a [`Message<H, B>`] to a [`Message<H, T>`] by applying a function to the body of the
    /// message.
    pub fn map_body<T, F>(self, f: F) -> (message: Message<H, T>) where F: FnOnce(B) -> T
        requires
            f.requires((self.body,)),
        ensures
            message.service == self.service,
            message.method == self.method,
            message.header == self.header,
            f.ensures((self.body,), message.body),
    {
        let Message { service, method, header, body } = self;
        Message { service, method, header, body: f(body) }
    }

    /// Replaces the header of the message with the given `value`.
    ///
    /// Returns the old value.
    pub fn replace_header(&mut self, value: H) -> (previous: H)
        ensures
            previous == old(self).header,
            *final(self) == (Message { header: value, ..*old(self) }),
    {
        let mut previous = value;
        core::mem::swap(&mut self.header, &mut previous);
        previous
    }

    /// Replaces the body of the message with the given `value`.
    ///
    /// Returns the old value.
    pub fn replace_body(&mut self, value: B) -> (previous: B)
        ensures
            previous == old(self).body,
            *final(self) == (Message { body: value, ..*old(self) }),
    {
        let mut previous = value;
        core::mem::swap(&mut self.body, &mut previous);
        previous
    }
}

/// Specialization for the [`Header`] type.
impl<B> Message<Header, B> {
    /// Returns `self` as a response message with the given `return_code`.
    pub fn into_response(self, return_code: ReturnCode) -> (message: Self)
        ensures
            message.header.message_type@ == MessageType::Response.spec_as_u8(),
            message == (Message {
                header: Header { message_type: message.header.message_type, return_code, ..self.header },
                ..self
            }),
    {
        let header = self.header.with_message_type(MessageType::Response).with_return_code(
            return_code,
        );
        Self { header, ..self }
    }

    /// Returns `self` as an error message with the given `return_code`.
    pub fn into_error(self, return_code: ReturnCode) -> (message: Self)
        ensures
            message.header.message_type@ == MessageType::Error.spec_as_u8(),
            message == (Message {
                header: Header { message_type: message.header.message_type, return_code, ..self.header },
                ..self
            }),
    {
        let header = self.header.with_message_type(MessageType::Error).with_return_code(
            return_code,
        );
        Self { header, ..self }
    }

    /// Returns the [`ClientId`] portion of the [`Header`].
    pub fn client(&self) -> (client: ClientId)
        ensures
            client == self.header.client,
    {
        self.header.client
    }

    /// Returns `self` with the given [`ClientId`].
    pub fn with_client(self, client: ClientId) -> (message: Self)
        ensures
            message == (Message { header: Header { client, ..self.header }, ..self }),
    {
        Self { header: self.header.with_client(client), ..self }
    }

    /// Returns the [`SessionId`] portion of the [`Header`].
    pub fn session(&self) -> (session: SessionId)
        ensures
            session == self.header.session,
    {
        self.header.session
    }

    /// Returns `self` with the given [`SessionId`].
    pub fn with_session(self, session: SessionId) -> (message: Self)
        ensures
            message == (Message { header: Header { session, ..self.header }, ..self }),
    {
        Self { header: self.header.with_session(session), ..self }
    }

    /// Returns the [`ProtocolVersion`] portion of the [`Header`].
    pub fn protocol(&self) -> (protocol: ProtocolVersion)
        ensures
            protocol == self.header.protocol,
    {
        self.header.protocol
    }

    /// Returns `self` with the given [`ProtocolVersion`].
    pub fn with_protocol(self, protocol: ProtocolVersion) -> (message: Self)
        ensures
            message == (Message { header: Header { protocol, ..self.header }, ..self }),
    {
        Self { header: self.header.with_protocol(protocol), ..self }
    }

    /// Returns the [`InterfaceVersion`] portion of the [`Header`].
    pub fn interface(&self) -> (interface: InterfaceVersion)
        ensures
            interface == self.header.interface,
    {
        self.header.interface
    }

    /// Returns `self` with the given [`InterfaceVersion`].
    pub fn with_interface(self, interface: InterfaceVersion) -> (message: Self)
        ensures
            message == (Message { header: Header { interface, ..self.header }, ..self }),
    {
        Self { header: self.header.with_interface(interface), ..self }
    }

    /// Returns the [`MessageType`] of this message, ignoring the flags.
    pub fn message_type(&self) -> (message_type: MessageType)
        ensures
            message_type == self.header.spec_message_type(),
    {
        self.header.message_type.as_type()
    }

    /// Returns `self` with the given [`MessageType`].
    pub fn with_message_type(self, message_type: MessageType) -> (message: Self)
        ensures
            message.header.message_type@ == message_type.spec_as_u8(),
            message_type.is_canonical() ==> message.header.spec_message_type() == message_type,
            message == (Message {
                header: Header { message_type: message.header.message_type, ..self.header },
                ..self
            }),
    {
        Self { header: self.header.with_message_type(message_type), ..self }
    }

    /// Returns the [`ReturnCode`] portion of the [`Header`].
    pub fn return_code(&self) -> (return_code: ReturnCode)
        ensures
            return_code == self.header.return_code,
    {
        self.header.return_code
    }

    /// Returns `self` with the given [`ReturnCode`].
    pub fn with_return_code(self, return_code: ReturnCode) -> (message: Self)
        ensures
            message == (Message { header: Header { return_code, ..self.header }, ..self }),
    {
        Self { header: self.header.with_return_code(return_code), ..self }
    }
}

/// The bytes of a message: the [`MessageId`], then a 32-bit length field followed by the header
/// and the body.
pub open spec fn message_bytes(
    service: u16,
    method: u16,
    payload: Result<Seq<u8>, SerializeError>,
    payload_size: Option<usize>,
) -> Result<Seq<u8>, SerializeError> {
    concat_serialized(
        Ok(be_u16(service) + be_u16(method)),
        LengthU32::spec_serialize_value(payload, payload_size),
    )
}

impl<H: Serialize, B: Serialize> Serialize for Message<H, B> {
    open spec fn spec_serialize(&self) -> Result<Seq<u8>, SerializeError> {
        message_bytes(
            self.service@,
            self.method@,
            (&self.header, &self.body).spec_serialize(),
            (&self.header, &self.body).spec_size(),
        )
    }

    open spec fn spec_size(&self) -> Option<usize> {
        add_sizes(Some(4), add_sizes((&self.header, &self.body).spec_size(), Some(4)))
    }

    proof fn lemma_size_agrees(&self) {
        let payload = (&self.header, &self.body);
        payload.lemma_size_agrees();
        LengthU32::lemma_field_agrees(payload.spec_serialize(), payload.spec_size());
        lemma_concat_agrees(
            Ok(be_u16(self.service@) + be_u16(self.method@)),
            Some(4),
            LengthU32::spec_serialize_value(payload.spec_serialize(), payload.spec_size()),
            add_sizes(payload.spec_size(), Some(4)),
        );
    }

    fn serialize(&self, buffer: &mut Vec<u8>) -> (result: Result<usize, SerializeError>) {
        let ghost start = buffer@;
        put_u16(buffer, self.service.as_u16());
        put_u16(buffer, self.method.as_u16());
        let ghost ids = be_u16(self.service@) + be_u16(self.method@);
        assert(buffer@ =~= start + ids);
        let payload = (&self.header, &self.body);
        let ghost before = buffer@;
        match LengthU32::serialize(&payload, buffer) {
            Ok(n) => {
                let ghost bytes = LengthU32::spec_serialize_value(
                    payload.spec_serialize(),
                    payload.spec_size(),
                ).unwrap();
                assert(buffer@ =~= start + (ids + bytes));
                match n.checked_add(4) {
                    Some(total) => Ok(total),
                    None => Err(SerializeError::SizeOverflow),
                }
            },
            Err(e) => {
                assert(start.is_prefix_of(buffer@)) by {
                    assert forall|i: int| 0 <= i < start.len() implies start[i] == buffer@[i] by {
                        assert(before[i] == buffer@[i]);
                    }
                }
                Err(e)
            },
        }
    }

    fn size(&self) -> (result: Option<usize>) {
        let payload = (&self.header, &self.body);
        match payload.size() {
            None => None,
            Some(s) => match s.checked_add(4) {
                None => None,
                Some(s) => s.checked_add(4),
            },
        }
    }
}

/// The message that the leading bytes of `input` stand for, given what the header and the body
/// read from the bytes that the length field covers.
pub open spec fn message_read<V>(
    input: Seq<u8>,
    payload: Result<(V, nat), DeserializeError>,
) -> Result<((u16, u16, V), nat), DeserializeError> {
    if input.len() < 4 {
        Err(DeserializeError::InsufficientData)
    } else {
        match payload {
            Err(e) => Err(e),
            Ok((v, n)) => Ok(((u16_from_be(input), u16_from_be(input.skip(2)), v), 4 + n)),
        }
    }
}

/// What a 32-bit length field and the values after it read from `input`.
pub open spec fn length_u32_read<Value: Deserialize>(input: Seq<u8>) -> Result<
    (<Value::Output as DeepView>::V, nat),
    DeserializeError,
> {
    match LengthU32::spec_read_field(input) {
        None => Err(DeserializeError::InsufficientData),
        Some(length) => after_length_field::<Value>(input, LengthU32::spec_width(), length),
    }
}

impl<
    H: Deserialize<Output = H> + DeepView,
    B: Deserialize<Output = B> + DeepView,
> Deserialize for Message<H, B> {
    type Output = Self;

    open spec fn spec_deserialize(input: Seq<u8>) -> Result<
        ((u16, u16, H::V, B::V), nat),
        DeserializeError,
    > {
        match message_read(input, length_u32_read::<(H, B)>(input.skip(4))) {
            Err(e) => Err(e),
            Ok(((service, method, (header, body)), n)) => Ok(((service, method, header, body), n)),
        }
    }

    open spec fn spec_size_hint() -> Option<usize> {
        Some(8)
    }

    fn deserialize(buffer: &mut Reader) -> (result: Result<Self, DeserializeError>) {
        let ghost start = buffer@;
        let service = ServiceId::deserialize(buffer)?;
        let method = MethodId::deserialize(buffer)?;
        assert(buffer@ =~= start.skip(4));
        let (header, body) = LengthU32::deserialize::<(H, B)>(buffer)?;
        assert(buffer@ =~= start.skip(
            (4 + length_u32_read::<(H, B)>(start.skip(4)).unwrap().1) as int,
        ));
        Ok(Message { service, method, header, body })
    }

    fn size_hint() -> (result: Option<usize>) {
        Some(8)
    }
}

impl<H: Default, B: Default> Default for Message<H, B> {
    fn default() -> (message: Self)
        ensures
            message.service@ == 0,
            message.method@ == 0,
            call_ensures(H::default, (), message.header),
            call_ensures(B::default, (), message.body),
    {
        Self { service: ServiceId::new(0), method: MethodId::new(0), header: H::default(), body: B::default() }
    }
}

/// A message processing error.
///
/// A SOME/IP endpoint may occasionally try to send or receive messages which are incorrectly
/// configured for the service interface that processes them.
///
/// If the error is [`MessageError::Invalid`], then an error response should be sent with the
/// contained [`ReturnCode`]. Otherwise, the message should be dropped.
#[derive(Debug, Clone, Copy, PartialEq, Eq)]
pub enum MessageError {
    /// The message is invalid: an error response should be sent back.
    Invalid(ReturnCode),
    /// The message should be dropped.
    Dropped(ReturnCode),
}

/// Header of a SOME/IP message.
///
/// Contains additional information about the message itself.
#[derive(Debug, Clone, Copy, PartialEq, Eq)]
pub struct Header {
    /// Client that sent the message.
    pub client: ClientId,
    /// Order of the message in a sequence.
    pub session: SessionId,
    /// Major version of the SOME/IP protocol.
    pub protocol: ProtocolVersion,
    /// Major version of the service interface.
    pub interface: InterfaceVersion,
    /// Message type and associated flags.
    pub message_type: MessageTypeField,
    /// Result of processing the message.
    pub return_code: ReturnCode,
}

impl DeepView for Header {
    type V = (u16, u16, u8, u8, u8, ReturnCode);

    open spec fn deep_view(&self) -> Self::V {
        (
            self.client@,
            self.session@,
            self.protocol@,
            self.interface@,
            self.message_type@,
            self.return_code,
        )
    }
}

impl Header {
    /// The [`MessageType`] that the message type field stands for, ignoring the flags.
    pub open spec fn spec_message_type(self) -> MessageType {
        crate::proto::primitives::spec_message_type(self.message_type@)
    }

    /// Creates a new [`Header`]: client `0`, session handling disabled, protocol version `1`,
    /// interface version `0`, message type [`MessageType::Request`] and return code
    /// [`ReturnCode::NoError`].
    pub fn new() -> (header: Self)
        ensures
            header.client@ == 0,
            header.session@ == 0,
            header.protocol@ == 1,
            header.interface@ == 0,
            header.message_type@ == 0,
            header.spec_message_type() == MessageType::Request,
            header.return_code == ReturnCode::NoError,
    {
        proof {
            crate::proto::laws::lemma_message_type_roundtrip(MessageType::Request, 0);
        }
        Self {
            client: ClientId::new(0),
            session: SessionId::disabled(),
            protocol: ProtocolVersion::new(1),
            interface: InterfaceVersion::new(0),
            message_type: MessageTypeField::new(0),
            return_code: ReturnCode::NoError,
        }
    }

    /// Returns the [`RequestId`] portion of `self`.
    pub fn id(&self) -> (id: RequestId)
        ensures
            id.client == self.client,
            id.session == self.session,
    {
        RequestId::new(self.client, self.session)
    }

    /// Returns `self` with the given [`RequestId`].
    pub fn with_id(self, id: RequestId) -> (header: Self)
        ensures
            header == (Self { client: id.client, session: id.session, ..self }),
    {
        Self { client: id.client, session: id.session, ..self }
    }

    /// Returns `self` with the given [`ClientId`].
    pub fn with_client(self, client: ClientId) -> (header: Self)
        ensures
            header == (Self { client, ..self }),
    {
        Self { client, ..self }
    }

    /// Returns `self` with the given [`SessionId`].
    pub fn with_session(self, session: SessionId) -> (header: Self)
        ensures
            header == (Self { session, ..self }),
    {
        Self { session, ..self }
    }

    /// Returns `self` with the given [`ProtocolVersion`].
    pub fn with_protocol(self, protocol: ProtocolVersion) -> (header: Self)
        ensures
            header == (Self { protocol, ..self }),
    {
        Self { protocol, ..self }
    }

    /// Returns `self` with the given [`InterfaceVersion`].
    pub fn with_interface(self, interface: InterfaceVersion) -> (header: Self)
        ensures
            header == (Self { interface, ..self }),
    {
        Self { interface, ..self }
    }

    /// Returns `self` with the given [`MessageType`], and all flags cleared.
    pub fn with_message_type(self, message_type: MessageType) -> (header: Self)
        ensures
            header.message_type@ == message_type.spec_as_u8(),
            message_type.is_canonical() ==> header.spec_message_type() == message_type,
            header == (Self { message_type: header.message_type, ..self }),
    {
        proof {
            crate::proto::laws::lemma_message_type_roundtrip(message_type, 0);
        }
        Self { message_type: MessageTypeField::from_type(message_type), ..self }
    }

    /// Returns `self` with the given [`ReturnCode`].
    pub fn with_return_code(self, return_code: ReturnCode) -> (header: Self)
        ensures
            header == (Self { return_code, ..self }),
    {
        Self { return_code, ..self }
    }
}

impl Default for Header {
    fn default() -> (header: Self)
        ensures
            header.client@ == 0,
            header.session@ == 0,
            header.protocol@ == 1,
            header.interface@ == 0,
            header.message_type@ == 0,
            header.spec_message_type() == MessageType::Request,
            header.return_code == ReturnCode::NoError,
    {
        Self::new()
    }
}

/// The eight bytes of a header with the given fields.
pub open spec fn header_bytes(h: (u16, u16, u8, u8, u8, ReturnCode)) -> Seq<u8> {
    be_u16(h.0) + be_u16(h.1) + seq![h.2, h.3, h.4, h.5.spec_as_u8()]
}

/// The header fields that eight bytes stand for.
pub open spec fn header_fields(b: Seq<u8>) -> (u16, u16, u8, u8, u8, ReturnCode) {
    (
        u16_from_be(b),
        u16_from_be(b.skip(2)),
        b[4],
        b[5],
        b[6],
        crate::proto::primitives::spec_return_code(b[7]),
    )
}

impl Serialize for Header {
    open spec fn spec_serialize(&self) -> Result<Seq<u8>, SerializeError> {
        Ok(header_bytes(self.deep_view()))
    }

    open spec fn spec_size(&self) -> Option<usize> {
        Some(8)
    }

    proof fn lemma_size_agrees(&self) {
    }

    fn serialize(&self, buffer: &mut Vec<u8>) -> (result: Result<usize, SerializeError>) {
        let ghost start = buffer@;
        put_u16(buffer, self.client.as_u16());
        put_u16(buffer, self.session.as_u16());
        buffer.push(self.protocol.as_u8());
        buffer.push(self.interface.as_u8());
        buffer.push(self.message_type.as_u8());
        buffer.push(crate::proto::primitives::return_code_to_u8(self.return_code));
        assert(buffer@ =~= start + header_bytes(self.deep_view()));
        Ok(8)
    }

    fn size(&self) -> (result: Option<usize>) {
        Some(8)
    }
}

impl Deserialize for Header {
    type Output = Self;

    open spec fn spec_deserialize(input: Seq<u8>) -> Result<
        ((u16, u16, u8, u8, u8, ReturnCode), nat),
        DeserializeError,
    > {
        if input.len() < 8 {
            Err(DeserializeError::InsufficientData)
        } else {
            Ok((header_fields(input), 8))
        }
    }

    open spec fn spec_size_hint() -> Option<usize> {
        Some(8)
    }

    fn deserialize(buffer: &mut Reader) -> (result: Result<Self, DeserializeError>) {
        let ghost start = buffer@;
        if buffer.remaining() < 8 {
            return Err(DeserializeError::InsufficientData);
        }
        let client = ClientId::deserialize(buffer)?;
        let session = SessionId::deserialize(buffer)?;
        let protocol = ProtocolVersion::deserialize(buffer)?;
        let interface = InterfaceVersion::deserialize(buffer)?;
        let message_type = MessageTypeField::deserialize(buffer)?;
        let return_code = ReturnCode::deserialize(buffer)?;
        assert(start.skip(2) =~= start.skip(2));
        assert(start.skip(4)[0] == start[4]);
        assert(buffer@ =~= start.skip(8));
        Ok(Header { client, session, protocol, interface, message_type, return_code })
    }

    fn size_hint() -> (result: Option<usize>) {
        Some(8)
    }
}


} // verus!
