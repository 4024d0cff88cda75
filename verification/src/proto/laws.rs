//! What the SOME/IP primitives and messages promise as a whole.

use super::endpoint::{incoming_rejection, outgoing_rejection, Endpoint, EndpointError};
use super::interface::{
    accepts, check_outcome, Direction, Interface, InterfaceType, MessageError, MethodType,
};
use super::message::{Header, Message};
use super::tp::{join_view, split_view, tp_field, TpHeader};
use super::primitives::{spec_message_type, spec_return_code, MessageType, ReturnCode, SessionId};
use crate::bytes::de::{Deserialize, DeserializeError};
use crate::bytes::laws::reads_back;
use crate::bytes::length::{Length, LengthU32};
use crate::bytes::ser::Serialize;
use crate::bytes::wire::{be_u16, be_u32, lemma_u16_roundtrip, lemma_u32_roundtrip, u32_from_be};
use vstd::prelude::*;

verus! {

/// A message type reads back from its byte whenever it is what its byte stands for, and the
/// byte of the type that a byte stands for is that byte with the flags cleared.
pub proof fn lemma_message_type_roundtrip(message_type: MessageType, byte: u8)
    ensures
        message_type.is_canonical() ==> spec_message_type(message_type.spec_as_u8())
            == message_type,
        spec_message_type(byte).spec_as_u8() == byte & 0xdfu8,
        spec_message_type(byte).is_canonical(),
{
    let b = message_type.spec_as_u8();
    assert(0x00u8 & 0xdfu8 == 0x00u8 && 0x01u8 & 0xdfu8 == 0x01u8 && 0x02u8 & 0xdfu8 == 0x02u8
        && 0x80u8 & 0xdfu8 == 0x80u8 && 0x81u8 & 0xdfu8 == 0x81u8) by (bit_vector);
    assert((b & 0x20u8 == 0u8) ==> (b & 0xdfu8 == b)) by (bit_vector);
    assert((byte & 0xdfu8) & 0x20u8 == 0u8) by (bit_vector);
}

/// A return code reads back from its byte whenever it is what its byte stands for, and the byte
/// of the code that a byte stands for is that byte.
pub proof fn lemma_return_code_roundtrip(code: ReturnCode, byte: u8)
    ensures
        code.is_canonical() ==> spec_return_code(code.spec_as_u8()) == code,
        spec_return_code(byte).spec_as_u8() == byte,
        spec_return_code(byte).is_canonical(),
{
}

/// Incrementing a session id never gives `0`: after `0xffff` it wraps around to `1`, so session
/// handling stays enabled.
pub proof fn lemma_session_increment_enabled(value: u16)
    ensures
        SessionId::spec_next(value) > 0,
        value < 0xffff ==> SessionId::spec_next(value) == value + 1,
        value == 0xffff ==> SessionId::spec_next(value) == 1,
{
}

/// A header reads back from its eight bytes whenever its return code is what its byte stands
/// for.
pub proof fn lemma_header_reads_back(header: Header)
    requires
        header.return_code.is_canonical(),
    ensures
        reads_back(&header),
{
    let h = header.deep_view();
    lemma_return_code_roundtrip(header.return_code, 0);
    assert forall|rest: Seq<u8>| #[trigger]
        Header::spec_deserialize(header.spec_serialize().unwrap() + rest) == Ok::<
            ((u16, u16, u8, u8, u8, ReturnCode), nat),
            DeserializeError,
        >((h, 8)) by {
        let input = be_u16(h.0) + be_u16(h.1) + seq![h.2, h.3, h.4, h.5.spec_as_u8()] + rest;
        lemma_u16_roundtrip(h.0, input.skip(2));
        assert(input =~= be_u16(h.0) + input.skip(2));
        lemma_u16_roundtrip(h.1, input.skip(4));
        assert(input.skip(2) =~= be_u16(h.1) + input.skip(4));
        assert(input[4] == h.2 && input[5] == h.3 && input[6] == h.4 && input[7]
            == h.5.spec_as_u8());
    }
}

/// A message reads back from its bytes, whatever bytes follow them, whenever its header's return
/// code is what its byte stands for and its body fits in the 32-bit length field.
pub proof fn lemma_message_reads_back(message: Message<Header, Vec<u8>>)
    requires
        message.header.return_code.is_canonical(),
        message.body@.len() + 8 <= u32::MAX,
        message.body@.len() + 16 <= usize::MAX,
    ensures
        reads_back(&message),
{
    let header = message.header;
    let body = message.body@;
    let hv = header.deep_view();
    let hb = header.spec_serialize().unwrap();
    lemma_header_reads_back(header);
    let payload = hb + body;
    let length = (8 + body.len()) as usize;
    assert(Seq::<u8>::empty() + hb =~= hb);
    assert((&message.header, &message.body).spec_serialize() == Ok::<Seq<u8>, crate::bytes::ser::SerializeError>(payload));
    assert((&message.header, &message.body).spec_size() == Some(length));
    let ids = be_u16(message.service@) + be_u16(message.method@);
    let bytes = message.spec_serialize().unwrap();
    assert forall|rest: Seq<u8>| #[trigger]
        Message::<Header, Vec<u8>>::spec_deserialize(message.spec_serialize().unwrap() + rest) == Ok::<
            ((u16, u16, (u16, u16, u8, u8, u8, ReturnCode), Seq<u8>), nat),
            DeserializeError,
        >((message.deep_view(), message.spec_serialize().unwrap().len())) by {
        LengthU32::lemma_field_reads_back(length, payload, rest);
        let field = LengthU32::spec_field(length);
        assert(bytes == ids + (field + payload));
        let input = bytes + rest;
        lemma_u16_roundtrip(message.service@, input.skip(2));
        assert(input =~= be_u16(message.service@) + input.skip(2));
        lemma_u16_roundtrip(message.method@, input.skip(4));
        assert(input.skip(2) =~= be_u16(message.method@) + input.skip(4));
        let after_ids = input.skip(4);
        assert(after_ids =~= field + payload + rest);
        let covered = after_ids.skip(4).take(length as int);
        assert(covered =~= payload);
        assert(payload =~= hb + body);
        assert(Header::spec_deserialize(hb + body) == Ok::<
            ((u16, u16, u8, u8, u8, ReturnCode), nat),
            DeserializeError,
        >((hv, 8)));
        assert(payload.skip(8) =~= body);
        assert(<(Header, Vec<u8>)>::spec_deserialize(payload) == Ok::<
            (((u16, u16, u8, u8, u8, ReturnCode), Seq<u8>), nat),
            DeserializeError,
        >(((hv, body), length as nat)));
        assert(LengthU32::spec_read_field(after_ids) == Some(length as nat));
        assert(crate::bytes::length::after_length_field::<(Header, Vec<u8>)>(after_ids, 4, length as nat)
            == Ok::<(((u16, u16, u8, u8, u8, ReturnCode), Seq<u8>), nat), DeserializeError>(
            ((hv, body), (4 + length) as nat),
        ));
        assert(super::message::length_u32_read::<(Header, Vec<u8>)>(after_ids) == Ok::<
            (((u16, u16, u8, u8, u8, ReturnCode), Seq<u8>), nat),
            DeserializeError,
        >(((hv, body), (4 + length) as nat)));
        assert(bytes.len() == 8 + length);
        assert(message.body.deep_view() =~= body);
        assert(message.deep_view() == (message.service@, message.method@, hv, body));
    }
}

/// Joining the two parts that splitting a segment at offset `0` gives restores the segment.
///
/// The join expects the second part at the offset of the first part's length, which is where the
/// split puts it only when the segment starts at offset `0`.
pub proof fn lemma_split_then_join(header: (usize, bool, Seq<u8>), limit: usize)
    requires
        header.0 == 0,
        split_view(header, limit) is Some,
    ensures
        ({
            let (first, rest) = split_view(header, limit).unwrap();
            join_view(first, rest) == Some(header)
        }),
{
    let unit = limit / 16 * 16;
    let (first, rest) = split_view(header, limit).unwrap();
    assert(first.2.len() == unit);
    assert(unit / 16 == limit / 16) by (nonlinear_arith)
        requires
            unit == limit / 16 * 16,
    ;
    assert(header.2.take(unit as int) + header.2.skip(unit as int) =~= header.2);
}

/// A segment reads back from its bytes whenever its offset fits in the 28 bits that the field
/// gives it: the offset, the more-segments flag and the body all come back, and the body is what
/// follows the field.
pub proof fn lemma_segment_reads_back(header: TpHeader)
    requires
        header.offset <= 0x0fff_ffff,
        header.body@.len() + 4 <= usize::MAX,
    ensures
        header.spec_serialize() matches Ok(bytes) && TpHeader::spec_deserialize(bytes) == Ok::<
            ((usize, bool, Seq<u8>), nat),
            DeserializeError,
        >((header.deep_view(), bytes.len())),
{
    let field = tp_field(header.offset, header.more_segments);
    let bytes = be_u32(field) + header.body@;
    lemma_u32_roundtrip(field, header.body@);
    let offset = header.offset;
    let shifted = (offset as int) * 16;
    assert(shifted <= u32::MAX);
    let bits: u32 = shifted as u32;
    assert(bits & 0xfu32 == 0u32 && (bits & 0xffff_fff0u32) >> 4u32 == offset) by (bit_vector)
        requires
            bits == offset * 16,
            offset <= 0x0fff_ffff,
    ;
    let flag: u32 = if header.more_segments { 1u32 } else { 0u32 };
    assert(((bits | flag) & 0xffff_fff0u32) >> 4u32 == (bits & 0xffff_fff0u32) >> 4u32
        && ((bits | flag) & 1u32 == 1u32) == (flag == 1u32)) by (bit_vector)
        requires
            bits & 0xfu32 == 0u32,
            flag <= 1,
    ;
    assert(bytes.skip(4) =~= header.body@);
}

/// What one flavor of interface sends, the other flavor receives: a method accepts a message type
/// going out of a proxy exactly when it accepts it coming into a stub, and going out of a stub
/// exactly when it accepts it coming into a proxy.
pub proof fn lemma_flavors_mirror(method: MethodType, message_type: MessageType)
    ensures
        accepts(InterfaceType::Proxy, method, message_type, Direction::Outgoing) == accepts(
            InterfaceType::Stub,
            method,
            message_type,
            Direction::Incoming,
        ),
        accepts(InterfaceType::Stub, method, message_type, Direction::Outgoing) == accepts(
            InterfaceType::Proxy,
            method,
            message_type,
            Direction::Incoming,
        ),
{
}

/// The other flavor of interface.
pub open spec fn opposite(flavor: InterfaceType) -> InterfaceType {
    match flavor {
        InterfaceType::Stub => InterfaceType::Proxy,
        InterfaceType::Proxy => InterfaceType::Stub,
    }
}

/// A message that an interface lets out is let in by an interface of the same version and
/// methods and the other flavor.
pub proof fn lemma_sent_is_received(
    version: u8,
    flavor: InterfaceType,
    methods: Map<u16, MethodType>,
    interface: u8,
    method: u16,
    message_type: MessageType,
)
    ensures
        check_outcome(version, flavor, methods, interface, method, message_type, Direction::Outgoing)
            is Ok ==> check_outcome(
            version,
            opposite(flavor),
            methods,
            interface,
            method,
            message_type,
            Direction::Incoming,
        ) is Ok,
{
    if methods.contains_key(method) {
        lemma_flavors_mirror(methods[method], message_type);
    }
}

/// Two sets of interfaces serve the same services, each with the same version and methods on
/// both sides but the other flavor.
pub open spec fn mirrors(local: Map<u16, Interface>, remote: Map<u16, Interface>) -> bool {
    &&& local.dom() == remote.dom()
    &&& forall|service: u16|
        #[trigger] local.contains_key(service) ==> {
            &&& local[service].version == remote[service].version
            &&& local[service].spec_methods() == remote[service].spec_methods()
            &&& remote[service].flavor == opposite(local[service].flavor)
        }
}

/// A message that an endpoint lets out is let in by an endpoint whose interfaces mirror its own.
pub proof fn lemma_endpoint_sent_is_received<T>(
    local: Endpoint,
    remote: Endpoint,
    message: Message<Header, T>,
)
    requires
        mirrors(local.spec_interfaces(), remote.spec_interfaces()),
    ensures
        outgoing_rejection(local.spec_interfaces(), message) is None ==> incoming_rejection(
            remote.spec_interfaces(),
            message,
        ) is None,
{
    let service = message.service@;
    if local.spec_interfaces().contains_key(service) {
        let interface = local.spec_interfaces()[service];
        lemma_sent_is_received(
            interface.version@,
            interface.flavor,
            interface.spec_methods(),
            message.header.interface@,
            message.method@,
            message.header.spec_message_type(),
        );
    }
}


/// The return code that an interface check's error carries.
pub open spec fn error_code(error: MessageError) -> ReturnCode {
    match error {
        MessageError::Invalid(code) => code,
        MessageError::Dropped(code) => code,
    }
}

/// An interface check accepts a message only when the message's interface version is the
/// interface's own, its method is registered and the method takes its type in that direction.
/// A message with any other interface version, older or newer, is refused with
/// `WrongInterfaceVersion`, and one to an unregistered method with `UnknownMethod`: a request is
/// answered with an error, any other message is dropped. A message with the right version to a
/// registered method that does not take its type is refused with `WrongMessageType`.
pub proof fn lemma_check_accepts_only_matching(
    version: u8,
    flavor: InterfaceType,
    methods: Map<u16, MethodType>,
    interface: u8,
    method: u16,
    message_type: MessageType,
    direction: Direction,
)
    ensures
        check_outcome(version, flavor, methods, interface, method, message_type, direction) is Ok
            <==> interface == version && methods.contains_key(method) && accepts(
            flavor,
            methods[method],
            message_type,
            direction,
        ),
        interface != version ==> check_outcome(
            version,
            flavor,
            methods,
            interface,
            method,
            message_type,
            direction,
        ) == Err::<(), MessageError>(
            if message_type == MessageType::Request {
                MessageError::Invalid(ReturnCode::WrongInterfaceVersion)
            } else {
                MessageError::Dropped(ReturnCode::WrongInterfaceVersion)
            },
        ),
        interface == version && !methods.contains_key(method) ==> check_outcome(
            version,
            flavor,
            methods,
            interface,
            method,
            message_type,
            direction,
        ) == Err::<(), MessageError>(
            if message_type == MessageType::Request {
                MessageError::Invalid(ReturnCode::UnknownMethod)
            } else {
                MessageError::Dropped(ReturnCode::UnknownMethod)
            },
        ),
        interface == version && methods.contains_key(method) ==> match check_outcome(
            version,
            flavor,
            methods,
            interface,
            method,
            message_type,
            direction,
        ) {
            Ok(()) => true,
            Err(error) => error_code(error) == ReturnCode::WrongMessageType,
        },
{
}

/// An endpoint lets an incoming message of protocol version 1, addressed to one of its services,
/// in exactly when that service's interface accepts it coming in, and otherwise refuses it with
/// the interface's return code, answered or dropped as the interface says. A message of another
/// protocol version, or to an unknown service, is refused with `WrongProtocolVersion` or
/// `UnknownService`.
pub proof fn lemma_incoming_follows_interface<T>(
    interfaces: Map<u16, Interface>,
    message: Message<Header, T>,
)
    ensures
        message.header.protocol@ != 1 ==> incoming_rejection(interfaces, message) == Some(
            refusal(message, ReturnCode::WrongProtocolVersion),
        ),
        message.header.protocol@ == 1 && !interfaces.contains_key(message.service@)
            ==> incoming_rejection(interfaces, message) == Some(
            refusal(message, ReturnCode::UnknownService),
        ),
        message.header.protocol@ == 1 && interfaces.contains_key(message.service@) ==> {
            let interface = interfaces[message.service@];
            let outcome = check_outcome(
                interface.version@,
                interface.flavor,
                interface.spec_methods(),
                message.header.interface@,
                message.method@,
                message.header.spec_message_type(),
                Direction::Incoming,
            );
            &&& incoming_rejection(interfaces, message) is None <==> outcome is Ok
            &&& outcome matches Err(MessageError::Invalid(code)) ==> incoming_rejection(
                interfaces,
                message,
            ) == Some(EndpointError::InvalidMessage { message, return_code: code })
            &&& outcome matches Err(MessageError::Dropped(code)) ==> incoming_rejection(
                interfaces,
                message,
            ) == Some(EndpointError::MessageDropped { message, return_code: code })
        },
{
}

/// An endpoint lets an outgoing message of protocol version 1, addressed to one of its services,
/// out exactly when that service's interface accepts it going out, and otherwise refuses it with
/// the interface's return code. A message of another protocol version, or to an unknown service,
/// is refused with `WrongProtocolVersion` or `UnknownService`, always as invalid.
pub proof fn lemma_outgoing_follows_interface<T>(
    interfaces: Map<u16, Interface>,
    message: Message<Header, T>,
)
    ensures
        message.header.protocol@ != 1 ==> outgoing_rejection(interfaces, message) == Some(
            EndpointError::InvalidMessage { message, return_code: ReturnCode::WrongProtocolVersion },
        ),
        message.header.protocol@ == 1 && !interfaces.contains_key(message.service@)
            ==> outgoing_rejection(interfaces, message) == Some(
            EndpointError::InvalidMessage { message, return_code: ReturnCode::UnknownService },
        ),
        message.header.protocol@ == 1 && interfaces.contains_key(message.service@) ==> {
            let interface = interfaces[message.service@];
            let outcome = check_outcome(
                interface.version@,
                interface.flavor,
                interface.spec_methods(),
                message.header.interface@,
                message.method@,
                message.header.spec_message_type(),
                Direction::Outgoing,
            );
            &&& outgoing_rejection(interfaces, message) is None <==> outcome is Ok
            &&& outcome matches Err(MessageError::Invalid(code)) ==> outgoing_rejection(
                interfaces,
                message,
            ) == Some(EndpointError::InvalidMessage { message, return_code: code })
            &&& outcome matches Err(MessageError::Dropped(code)) ==> outgoing_rejection(
                interfaces,
                message,
            ) == Some(EndpointError::MessageDropped { message, return_code: code })
        },
{
}

/// Whether an endpoint lets a message in or out does not depend on the return code in its
/// header: two messages that differ only there are both accepted or both refused.
pub proof fn lemma_rejection_ignores_return_code<T>(
    interfaces: Map<u16, Interface>,
    message: Message<Header, T>,
    return_code: ReturnCode,
)
    ensures
        ({
            let other = Message { header: Header { return_code, ..message.header }, ..message };
            &&& (incoming_rejection(interfaces, message) is None <==> incoming_rejection(
                interfaces,
                other,
            ) is None)
            &&& (outgoing_rejection(interfaces, message) is None <==> outgoing_rejection(
                interfaces,
                other,
            ) is None)
        }),
{
    let other = Message { header: Header { return_code, ..message.header }, ..message };
    lemma_incoming_follows_interface(interfaces, message);
    lemma_incoming_follows_interface(interfaces, other);
    lemma_outgoing_follows_interface(interfaces, message);
    lemma_outgoing_follows_interface(interfaces, other);
}

/// The refusal of an incoming message with the given return code: a request is answered with an
/// error response, any other message is dropped.
pub open spec fn refusal<T>(message: Message<Header, T>, return_code: ReturnCode) -> EndpointError<T> {
    if message.header.spec_message_type() == MessageType::Request {
        EndpointError::InvalidMessage { message, return_code }
    } else {
        EndpointError::MessageDropped { message, return_code }
    }
}
} // verus!
