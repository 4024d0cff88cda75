use rsomeip::bytes::de::Deserialize;
use rsomeip::bytes::ser::Serialize;
use rsomeip::bytes::wire::Reader;
use rsomeip::proto::endpoint::{Endpoint, EndpointError};
use rsomeip::proto::interface::{Direction, Interface, MessageError};
use rsomeip::proto::message::{Header, Message};
use rsomeip::proto::primitives::{
    ClientId, InterfaceVersion, MessageId, MessageType, MessageTypeField, MethodId, ProtocolVersion,
    RequestId, ReturnCode, ServiceId, SessionId,
};
use rsomeip::proto::tp::{TpError, TpHeader};

/// A SOME/IP message with a raw body.
type RawMessage = Message<Header, Vec<u8>>;

#[test]
fn message_id_converts_from_u32() {
    let message_id = MessageId::from(0x1234_5678_u32);
    assert_eq!(message_id.service.as_u16(), 0x1234);
    assert_eq!(message_id.method.as_u16(), 0x5678);
}

#[test]
fn message_id_converts_to_u32() {
    let service = ServiceId::new(0x1234);
    let method = MethodId::new(0x5678);
    assert_eq!(u32::from(MessageId::new(service, method)), 0x1234_5678_u32);
}

#[test]
fn request_id_converts_from_u32() {
    let request_id = RequestId::from(0x1234_5678_u32);
    assert_eq!(request_id.client.as_u16(), 0x1234);
    assert_eq!(request_id.session.as_u16(), 0x5678);
}

#[test]
fn request_id_converts_to_u32() {
    let client = ClientId::new(0x1234);
    let session = SessionId::new(0x5678);
    assert_eq!(u32::from(RequestId::new(client, session)), 0x1234_5678_u32);
}

#[test]
fn is_session_handling_enabled() {
    assert!(!SessionId::disabled().is_enabled());
    assert!(SessionId::enabled().is_enabled());
}

#[test]
fn session_id_wraps_to_1() {
    let mut session = SessionId::new(0xffff);
    assert_eq!(session.increment().as_u16(), 0xffff);
    assert_eq!(session.as_u16(), 1);
}

#[test]
fn message_type_converts_from_u8() {
    assert_eq!(MessageType::from(0x00), MessageType::Request);
    assert_eq!(MessageType::from(0x01), MessageType::RequestNoReturn);
    assert_eq!(MessageType::from(0x02), MessageType::Notification);
    assert_eq!(MessageType::from(0x80), MessageType::Response);
    assert_eq!(MessageType::from(0x81), MessageType::Error);
    assert_eq!(MessageType::from(0x20), MessageType::Request);
    assert_eq!(MessageType::from(0x21), MessageType::RequestNoReturn);
    assert_eq!(MessageType::from(0x22), MessageType::Notification);
    assert_eq!(MessageType::from(0xa0), MessageType::Response);
    assert_eq!(MessageType::from(0xa1), MessageType::Error);
    (u8::MIN..=u8::MAX)
        .filter(|x| ![0x00, 0x01, 0x02, 0x80, 0x81, 0x20, 0x21, 0x22, 0xa0, 0xa1].contains(x))
        .for_each(|x| {
            assert_eq!(MessageType::Unknown(x & !MessageTypeField::ALL_FLAGS), MessageType::from(x));
        });
}

#[test]
fn message_type_converts_to_u8() {
    assert_eq!(0x00, u8::from(MessageType::Request));
    assert_eq!(0x01, u8::from(MessageType::RequestNoReturn));
    assert_eq!(0x02, u8::from(MessageType::Notification));
    assert_eq!(0x80, u8::from(MessageType::Response));
    assert_eq!(0x81, u8::from(MessageType::Error));
    (u8::MIN..=u8::MAX)
        .filter(|x| ![0x00, 0x01, 0x02, 0x80, 0x81, 0x20, 0x21, 0x22, 0xa0, 0xa1].contains(x))
        .for_each(|x| {
            assert_eq!(u8::from(MessageType::Unknown(x)), x);
        });
}

#[test]
fn return_code_converts_from_u8() {
    assert_eq!(ReturnCode::from(0x00), ReturnCode::NoError);
    assert_eq!(ReturnCode::from(0x01), ReturnCode::NotOk);
    assert_eq!(ReturnCode::from(0x02), ReturnCode::UnknownService);
    assert_eq!(ReturnCode::from(0x03), ReturnCode::UnknownMethod);
    assert_eq!(ReturnCode::from(0x04), ReturnCode::NotReady);
    assert_eq!(ReturnCode::from(0x05), ReturnCode::NotReachable);
    assert_eq!(ReturnCode::from(0x06), ReturnCode::Timeout);
    assert_eq!(ReturnCode::from(0x07), ReturnCode::WrongProtocolVersion);
    assert_eq!(ReturnCode::from(0x08), ReturnCode::WrongInterfaceVersion);
    assert_eq!(ReturnCode::from(0x09), ReturnCode::MalformedMessage);
    assert_eq!(ReturnCode::from(0x0a), ReturnCode::WrongMessageType);
    assert_eq!(ReturnCode::from(0x0b), ReturnCode::E2eRepeated);
    assert_eq!(ReturnCode::from(0x0c), ReturnCode::E2eWrongSequence);
    assert_eq!(ReturnCode::from(0x0d), ReturnCode::E2e);
    assert_eq!(ReturnCode::from(0x0e), ReturnCode::E2eNotAvailable);
    assert_eq!(ReturnCode::from(0x0f), ReturnCode::E2eNoNewData);
    (0x10..=0x5e).for_each(|x| assert_eq!(ReturnCode::Reserved(x), ReturnCode::from(x)));
    (0x5f..=u8::MAX).for_each(|x| assert_eq!(ReturnCode::Other(x), ReturnCode::from(x)));
}

#[test]
fn return_code_converts_to_u8() {
    assert_eq!(0x00, u8::from(ReturnCode::NoError));
    assert_eq!(0x01, u8::from(ReturnCode::NotOk));
    assert_eq!(0x02, u8::from(ReturnCode::UnknownService));
    assert_eq!(0x03, u8::from(ReturnCode::UnknownMethod));
    assert_eq!(0x04, u8::from(ReturnCode::NotReady));
    assert_eq!(0x05, u8::from(ReturnCode::NotReachable));
    assert_eq!(0x06, u8::from(ReturnCode::Timeout));
    assert_eq!(0x07, u8::from(ReturnCode::WrongProtocolVersion));
    assert_eq!(0x08, u8::from(ReturnCode::WrongInterfaceVersion));
    assert_eq!(0x09, u8::from(ReturnCode::MalformedMessage));
    assert_eq!(0x0a, u8::from(ReturnCode::WrongMessageType));
    assert_eq!(0x0b, u8::from(ReturnCode::E2eRepeated));
    assert_eq!(0x0c, u8::from(ReturnCode::E2eWrongSequence));
    assert_eq!(0x0d, u8::from(ReturnCode::E2e));
    assert_eq!(0x0e, u8::from(ReturnCode::E2eNotAvailable));
    assert_eq!(0x0f, u8::from(ReturnCode::E2eNoNewData));
    (0x10..=0x5e).for_each(|x| assert_eq!(u8::from(ReturnCode::Reserved(x)), x));
    (0x5f..=u8::MAX).for_each(|x| assert_eq!(u8::from(ReturnCode::Other(x)), x));
}

fn deserialized_message() -> Message<u8, u8> {
    Message::new(1u8, 2u8)
        .with_service(ServiceId::new(0x1234_u16))
        .with_method(MethodId::new(0x5678_u16))
}

const SERIALIZED_MESSAGE: [u8; 10] = [
    0x12, 0x34, // ServiceId
    0x56, 0x78, // MethodId
    0x00, 0x00, 0x00, 0x02, // Length
    0x01, // Header
    0x02, // Body
];

#[test]
fn message_is_serializable() {
    let mut buffer = Vec::new();
    assert_eq!(deserialized_message().size(), Some(SERIALIZED_MESSAGE.len()));
    assert_eq!(deserialized_message().serialize(&mut buffer), Ok(SERIALIZED_MESSAGE.len()));
    assert_eq!(buffer[..], SERIALIZED_MESSAGE[..]);
}

#[test]
fn message_is_deserializable() {
    let mut buffer = Reader::new(&SERIALIZED_MESSAGE[..]);
    let message = Message::<u8, u8>::deserialize(&mut buffer).expect("should deserialize the message");
    assert_eq!(message, deserialized_message());
}

fn deserialized_header() -> Header {
    Header::new()
        .with_client(ClientId::new(0x1234))
        .with_session(SessionId::new(0x5678))
        .with_protocol(ProtocolVersion::new(0x9a))
        .with_interface(InterfaceVersion::new(0xbc))
        .with_message_type(MessageType::Error)
        .with_return_code(ReturnCode::E2e)
}

const SERIALIZED_HEADER: [u8; 8] = [
    0x12, 0x34, // ClientId
    0x56, 0x78, // SessionId
    0x9a, // ProtocolVersion
    0xbc, // InterfaceVersion
    0x81, // MessageType
    0x0d, // ReturnCode
];

#[test]
fn message_header_is_serializable() {
    let mut buffer = Vec::new();
    assert_eq!(deserialized_header().size(), Some(SERIALIZED_HEADER.len()));
    assert_eq!(deserialized_header().serialize(&mut buffer), Ok(SERIALIZED_HEADER.len()));
    assert_eq!(buffer[..], SERIALIZED_HEADER[..]);
}

#[test]
fn message_header_is_deserializable() {
    let mut buffer = Reader::new(&SERIALIZED_HEADER[..]);
    let header = Header::deserialize(&mut buffer).expect("should deserialize the HEADER");
    assert_eq!(header, deserialized_header());
}

#[test]
fn tp_header_is_split() {
    let buffer = {
        let mut buffer = Vec::with_capacity(48);
        buffer.extend_from_slice(&[0u8; 16]);
        buffer.extend_from_slice(&[1u8; 16]);
        buffer.extend_from_slice(&[2u8; 16]);
        buffer
    };
    let mut header = TpHeader::new(buffer);
    assert_eq!(
        header.split(16),
        Some(TpHeader { offset: 0, more_segments: true, body: [0u8; 16].to_vec() })
    );
    assert_eq!(
        header.split(16),
        Some(TpHeader { offset: 1, more_segments: true, body: [1u8; 16].to_vec() })
    );
    assert_eq!(header.split(16), None);
    assert_eq!(header, TpHeader { offset: 2, more_segments: false, body: [2u8; 16].to_vec() });
}

#[test]
fn limit_is_multiple_of_16() {
    let mut header = TpHeader::new([0u8; 32].to_vec());
    assert_eq!(
        header.split(15), // Must be greater than 15.
        None
    );
    assert_eq!(
        header.split(31), // Should round down.
        Some(TpHeader { offset: 0, more_segments: true, body: [0u8; 16].to_vec() })
    );
    assert_eq!(header, TpHeader { offset: 1, more_segments: false, body: [0u8; 16].to_vec() });
}

#[test]
fn tp_header_is_joined() {
    let mut header = TpHeader { offset: 0, more_segments: true, body: [0u8; 16].to_vec() };
    assert_eq!(
        header.join(TpHeader { offset: 1, more_segments: false, body: [0u8; 16].to_vec() }),
        Ok(())
    );
    assert_eq!(header, TpHeader { offset: 0, more_segments: false, body: [0u8; 32].to_vec() });
}

#[test]
fn extra_segments_are_not_joined() {
    let mut header = TpHeader::new([0u8; 16].to_vec());
    let other = TpHeader { offset: 1, more_segments: false, body: [0u8; 16].to_vec() };
    assert_eq!(header.join(other.clone()), Err(TpError::UnexpectedSegment(other)));
}

#[test]
fn offset_is_checked() {
    let mut header = TpHeader { offset: 0, more_segments: true, body: [0u8; 16].to_vec() };
    let other = TpHeader { offset: 2, more_segments: false, body: [0u8; 16].to_vec() };
    assert_eq!(header.join(other.clone()), Err(TpError::WrongOffset { expected: 1, other }));
}

// offset=1 more_segments=true body=1
const SERIALIZED_TP_HEADER: [u8; 5] = [0u8, 0, 0, 0b0001_0001, 1];

#[test]
fn tp_header_is_serializable() {
    let header = TpHeader { offset: 1, more_segments: true, body: vec![1u8] };
    let mut buffer = Vec::with_capacity(5);
    assert_eq!(header.size(), Some(5));
    assert_eq!(header.serialize(&mut buffer), Ok(5));
    assert_eq!(&buffer[..], &SERIALIZED_TP_HEADER);
}

#[test]
fn tp_header_is_deserializable() {
    let mut buffer = Reader::new(&SERIALIZED_TP_HEADER);
    assert_eq!(
        TpHeader::deserialize(&mut buffer),
        Ok(TpHeader { offset: 1, more_segments: true, body: vec![1u8] })
    );
}

#[test]
fn max_offset_is_checked() {
    let header = TpHeader { offset: 0xffff_ffff, more_segments: true, body: vec![1u8] };
    let mut buffer = Vec::with_capacity(5);
    assert!(header.serialize(&mut buffer).is_err());
}

fn invalid(reason: ReturnCode) -> Result<(), MessageError> {
    Err(MessageError::Invalid(reason))
}

fn dropped(reason: ReturnCode) -> Result<(), MessageError> {
    Err(MessageError::Dropped(reason))
}

#[test]
fn interface_version_is_checked() {
    let interface = Interface::default().with_version(InterfaceVersion::new(1));
    for value in [
        MessageType::Request,
        MessageType::Response,
        MessageType::RequestNoReturn,
        MessageType::Error,
        MessageType::Notification,
        MessageType::Unknown(0xff),
    ] {
        if value == MessageType::Request {
            assert_eq!(
                interface.check(&RawMessage::default().with_message_type(value), Direction::Incoming),
                invalid(ReturnCode::WrongInterfaceVersion)
            );
            assert_eq!(
                interface.check(&RawMessage::default().with_message_type(value), Direction::Outgoing),
                invalid(ReturnCode::WrongInterfaceVersion)
            );
        } else {
            assert_eq!(
                interface.check(&RawMessage::default().with_message_type(value), Direction::Incoming),
                dropped(ReturnCode::WrongInterfaceVersion)
            );
            assert_eq!(
                interface.check(&RawMessage::default().with_message_type(value), Direction::Outgoing),
                dropped(ReturnCode::WrongInterfaceVersion)
            );
        }
    }
}

#[test]
fn method_id_is_checked() {
    let interface = Interface::default();
    for value in [
        MessageType::Request,
        MessageType::Response,
        MessageType::RequestNoReturn,
        MessageType::Error,
        MessageType::Notification,
        MessageType::Unknown(0xff),
    ] {
        if value == MessageType::Request {
            assert_eq!(
                interface.check(&RawMessage::default().with_message_type(value), Direction::Incoming),
                invalid(ReturnCode::UnknownMethod)
            );
            assert_eq!(
                interface.check(&RawMessage::default().with_message_type(value), Direction::Outgoing),
                invalid(ReturnCode::UnknownMethod)
            );
        } else {
            assert_eq!(
                interface.check(&RawMessage::default().with_message_type(value), Direction::Incoming),
                dropped(ReturnCode::UnknownMethod)
            );
            assert_eq!(
                interface.check(&RawMessage::default().with_message_type(value), Direction::Outgoing),
                dropped(ReturnCode::UnknownMethod)
            );
        }
    }
}

#[test]
fn stub_method_valid_message_types() {
    let interface = Interface::default().with_method(MethodId::default());
    assert_eq!(interface.check(&RawMessage::default(), Direction::Incoming), Ok(()));
    for value in [MessageType::Response, MessageType::Error] {
        assert_eq!(
            interface.check(&RawMessage::default().with_message_type(value), Direction::Outgoing),
            Ok(())
        );
    }
}

#[test]
fn stub_method_invalid_message_types() {
    let interface = Interface::default().with_method(MethodId::default());
    for value in [
        MessageType::Error,
        MessageType::Notification,
        MessageType::RequestNoReturn,
        MessageType::Response,
        MessageType::Unknown(0xff),
    ] {
        assert_eq!(
            interface.check(&RawMessage::default().with_message_type(value), Direction::Incoming),
            invalid(ReturnCode::WrongMessageType)
        );
    }
    for value in [
        MessageType::Request,
        MessageType::Notification,
        MessageType::RequestNoReturn,
        MessageType::Unknown(0xff),
    ] {
        assert_eq!(
            interface.check(&RawMessage::default().with_message_type(value), Direction::Outgoing),
            invalid(ReturnCode::WrongMessageType)
        );
    }
}

#[test]
fn stub_procedure_valid_message_types() {
    let interface = Interface::default().with_procedure(MethodId::default());
    assert_eq!(
        interface.check(
            &RawMessage::default().with_message_type(MessageType::RequestNoReturn),
            Direction::Incoming
        ),
        Ok(())
    );
}

#[test]
fn stub_procedure_invalid_message_types() {
    let interface = Interface::default().with_procedure(MethodId::default());
    for value in [
        MessageType::Error,
        MessageType::Notification,
        MessageType::Request,
        MessageType::Response,
        MessageType::Unknown(0xff),
    ] {
        assert_eq!(
            interface.check(&RawMessage::default().with_message_type(value), Direction::Incoming),
            dropped(ReturnCode::WrongMessageType)
        );
    }
    for value in [
        MessageType::Error,
        MessageType::Notification,
        MessageType::Request,
        MessageType::RequestNoReturn,
        MessageType::Response,
        MessageType::Unknown(0xff),
    ] {
        assert_eq!(
            interface.check(&RawMessage::default().with_message_type(value), Direction::Outgoing),
            invalid(ReturnCode::WrongMessageType)
        );
    }
}

#[test]
fn stub_event_valid_message_types() {
    let interface = Interface::default().with_event(MethodId::default());
    assert_eq!(
        interface.check(
            &RawMessage::default().with_message_type(MessageType::Notification),
            Direction::Outgoing
        ),
        Ok(())
    );
}

#[test]
fn stub_event_only_handles_notifications() {
    let interface = Interface::default().with_event(MethodId::default());
    for value in [
        MessageType::Error,
        MessageType::Notification,
        MessageType::Request,
        MessageType::RequestNoReturn,
        MessageType::Response,
        MessageType::Unknown(0xff),
    ] {
        assert_eq!(
            interface.check(&RawMessage::default().with_message_type(value), Direction::Incoming),
            dropped(ReturnCode::WrongMessageType)
        );
    }
    for value in [
        MessageType::Error,
        MessageType::Request,
        MessageType::RequestNoReturn,
        MessageType::Response,
        MessageType::Unknown(0xff),
    ] {
        assert_eq!(
            interface.check(&RawMessage::default().with_message_type(value), Direction::Outgoing),
            invalid(ReturnCode::WrongMessageType)
        );
    }
}

#[test]
fn proxy_method_valid_message_types() {
    let interface = Interface::default().with_method(MethodId::default()).into_proxy();
    for value in [MessageType::Response, MessageType::Error] {
        assert_eq!(
            interface.check(&RawMessage::default().with_message_type(value), Direction::Incoming),
            Ok(())
        );
    }
    assert_eq!(
        interface.check(
            &RawMessage::default().with_message_type(MessageType::Request),
            Direction::Outgoing
        ),
        Ok(())
    );
}

#[test]
fn proxy_method_invalid_message_types() {
    let interface = Interface::default().with_method(MethodId::default()).into_proxy();
    for value in [
        MessageType::Request,
        MessageType::Notification,
        MessageType::RequestNoReturn,
        MessageType::Unknown(0xff),
    ] {
        assert_eq!(
            interface.check(&RawMessage::default().with_message_type(value), Direction::Incoming),
            dropped(ReturnCode::WrongMessageType)
        );
    }
    for value in [
        MessageType::Response,
        MessageType::Error,
        MessageType::Notification,
        MessageType::RequestNoReturn,
        MessageType::Unknown(0xff),
    ] {
        assert_eq!(
            interface.check(&RawMessage::default().with_message_type(value), Direction::Outgoing),
            invalid(ReturnCode::WrongMessageType)
        );
    }
}

#[test]
fn proxy_procedure_valid_message_types() {
    let interface = Interface::default().with_procedure(MethodId::default()).into_proxy();
    assert_eq!(
        interface.check(
            &RawMessage::default().with_message_type(MessageType::RequestNoReturn),
            Direction::Outgoing
        ),
        Ok(())
    );
}

#[test]
fn proxy_procedure_invalid_message_types() {
    let interface = Interface::default().with_procedure(MethodId::default()).into_proxy();
    for value in [
        MessageType::Error,
        MessageType::Notification,
        MessageType::Request,
        MessageType::RequestNoReturn,
        MessageType::Response,
        MessageType::Unknown(0xff),
    ] {
        assert_eq!(
            interface.check(&RawMessage::default().with_message_type(value), Direction::Incoming),
            dropped(ReturnCode::WrongMessageType)
        );
    }
    for value in [
        MessageType::Error,
        MessageType::Notification,
        MessageType::Request,
        MessageType::Response,
        MessageType::Unknown(0xff),
    ] {
        assert_eq!(
            interface.check(&RawMessage::default().with_message_type(value), Direction::Outgoing),
            invalid(ReturnCode::WrongMessageType)
        );
    }
}

#[test]
fn proxy_event_valid_message_types() {
    let interface = Interface::default().with_event(MethodId::default()).into_proxy();
    assert_eq!(
        interface.check(
            &RawMessage::default().with_message_type(MessageType::Notification),
            Direction::Incoming
        ),
        Ok(())
    );
}

#[test]
fn proxy_event_invalid_message_types() {
    let interface = Interface::default().with_event(MethodId::default()).into_proxy();
    for value in [
        MessageType::Error,
        MessageType::Request,
        MessageType::RequestNoReturn,
        MessageType::Response,
        MessageType::Unknown(0xff),
    ] {
        assert_eq!(
            interface.check(&RawMessage::default().with_message_type(value), Direction::Incoming),
            dropped(ReturnCode::WrongMessageType)
        );
    }
    for value in [
        MessageType::Error,
        MessageType::Request,
        MessageType::RequestNoReturn,
        MessageType::Notification,
        MessageType::Response,
        MessageType::Unknown(0xff),
    ] {
        assert_eq!(
            interface.check(&RawMessage::default().with_message_type(value), Direction::Outgoing),
            invalid(ReturnCode::WrongMessageType)
        );
    }
}

fn poll(endpoint: &Endpoint, bytes: &[u8]) -> Result<RawMessage, EndpointError<Vec<u8>>> {
    endpoint.poll::<Vec<u8>>(&mut Reader::new(bytes))
}

#[test]
fn protocol_version_is_checked() {
    let endpoint = Endpoint::new();
    let message: RawMessage = Message::default().with_protocol(ProtocolVersion::new(0xff));
    for value in [
        MessageType::Request,
        MessageType::Response,
        MessageType::RequestNoReturn,
        MessageType::Error,
        MessageType::Notification,
        MessageType::Unknown(0xff),
    ] {
        let result = poll(
            &endpoint,
            &message.clone().with_message_type(value).to_bytes().expect("should serialize"),
        );
        if value == MessageType::Request {
            assert_eq!(
                result,
                Err(EndpointError::InvalidMessage {
                    message: message.clone().with_message_type(value),
                    return_code: ReturnCode::WrongProtocolVersion
                })
            );
        } else {
            assert_eq!(
                result,
                Err(EndpointError::MessageDropped {
                    message: message.clone().with_message_type(value),
                    return_code: ReturnCode::WrongProtocolVersion
                })
            );
        }
    }
    for value in [
        MessageType::Request,
        MessageType::Response,
        MessageType::RequestNoReturn,
        MessageType::Error,
        MessageType::Notification,
        MessageType::Unknown(0xff),
    ] {
        assert_eq!(
            endpoint.process(message.clone().with_message_type(value), &mut Vec::new()),
            Err(EndpointError::InvalidMessage {
                message: message.clone().with_message_type(value),
                return_code: ReturnCode::WrongProtocolVersion
            })
        );
    }
}

#[test]
fn service_id_is_checked() {
    let endpoint = Endpoint::new();
    let message: RawMessage = Message::default();
    for value in [
        MessageType::Request,
        MessageType::Response,
        MessageType::RequestNoReturn,
        MessageType::Error,
        MessageType::Notification,
        MessageType::Unknown(0xff),
    ] {
        let result = poll(
            &endpoint,
            &message.clone().with_message_type(value).to_bytes().expect("should serialize"),
        );
        if value == MessageType::Request {
            assert_eq!(
                result,
                Err(EndpointError::InvalidMessage {
                    message: message.clone().with_message_type(value),
                    return_code: ReturnCode::UnknownService
                })
            );
        } else {
            assert_eq!(
                result,
                Err(EndpointError::MessageDropped {
                    message: message.clone().with_message_type(value),
                    return_code: ReturnCode::UnknownService
                })
            );
        }
    }
    for value in [
        MessageType::Request,
        MessageType::Response,
        MessageType::RequestNoReturn,
        MessageType::Error,
        MessageType::Notification,
        MessageType::Unknown(0xff),
    ] {
        assert_eq!(
            endpoint.process(message.clone().with_message_type(value), &mut Vec::new()),
            Err(EndpointError::InvalidMessage {
                message: message.clone().with_message_type(value),
                return_code: ReturnCode::UnknownService
            })
        );
    }
}

#[test]
fn interface_errors_are_propagated() {
    let endpoint = Endpoint::new().with_interface(ServiceId::default(), Interface::default());
    let message: RawMessage = Message::default();
    assert_eq!(
        endpoint.process(message.clone(), &mut Vec::with_capacity(16)),
        Err(EndpointError::InvalidMessage {
            message: message.clone(),
            return_code: ReturnCode::UnknownMethod
        })
    );
    assert_eq!(
        endpoint.process(
            message.clone().with_message_type(MessageType::RequestNoReturn),
            &mut Vec::with_capacity(16)
        ),
        Err(EndpointError::MessageDropped {
            message: message.clone().with_message_type(MessageType::RequestNoReturn),
            return_code: ReturnCode::UnknownMethod
        })
    );
    assert_eq!(
        poll(&endpoint, &message.clone().to_bytes().expect("should serialize")),
        Err(EndpointError::InvalidMessage {
            message: message.clone(),
            return_code: ReturnCode::UnknownMethod
        })
    );
    assert_eq!(
        poll(
            &endpoint,
            &message
                .clone()
                .with_message_type(MessageType::RequestNoReturn)
                .to_bytes()
                .expect("should serialize")
        ),
        Err(EndpointError::MessageDropped {
            message: message.with_message_type(MessageType::RequestNoReturn),
            return_code: ReturnCode::UnknownMethod
        })
    );
}

#[test]
fn message_becomes_response_with_return_code() {
    let request = RawMessage::default()
        .with_message_type(MessageType::Request)
        .with_body(vec![1_u8, 2]);
    let response = request.clone().into_response(ReturnCode::NotOk);
    assert_eq!(response.message_type(), MessageType::Response);
    assert_eq!(response.return_code(), ReturnCode::NotOk);
    assert_eq!(response.body, request.body);
    assert_eq!(response.header.client, request.header.client);
}

#[test]
fn message_becomes_error_with_return_code() {
    let request = RawMessage::default().with_message_type(MessageType::Request);
    let error = request.into_error(ReturnCode::UnknownMethod);
    assert_eq!(error.message_type(), MessageType::Error);
    assert_eq!(error.return_code(), ReturnCode::UnknownMethod);
}

#[test]
fn message_header_and_body_are_replaced() {
    let mut message = RawMessage::default().with_body(vec![1_u8]);
    let previous = message.replace_body(vec![2_u8, 3]);
    assert_eq!(previous, vec![1_u8]);
    assert_eq!(message.body, vec![2_u8, 3]);
    let header = Header::default().with_return_code(ReturnCode::NotReady);
    let previous = message.replace_header(header);
    assert_eq!(previous, Header::default());
    assert_eq!(message.header, header);
}

#[test]
fn message_takes_a_new_header_type() {
    let message = Message::new((), vec![1_u8])
        .with_service(ServiceId::new(0x1234))
        .with_method(MethodId::new(0x5678));
    let message = message.with_header(7_u8);
    assert_eq!(message.header, 7_u8);
    assert_eq!(message.service, ServiceId::new(0x1234));
    assert_eq!(message.method, MethodId::new(0x5678));
    assert_eq!(message.body, vec![1_u8]);
}

#[test]
fn message_type_field_sets_and_clears_flags() {
    let field = MessageTypeField::new(0x02);
    assert!(!field.is_tp());
    let field = field.with_flags(MessageTypeField::TP_FLAG, true);
    assert!(field.is_tp());
    assert_eq!(field.as_u8(), 0x22);
    let field = field.with_flags(MessageTypeField::TP_FLAG, false);
    assert!(!field.is_tp());
    assert_eq!(field.as_u8(), 0x02);
}

#[test]
fn client_id_takes_prefix() {
    let client = ClientId::new(0x0012).with_prefix(0xab);
    assert_eq!(client.as_u16(), 0xab12);
    assert_eq!(client.prefix(), 0xab);
}

#[test]
fn client_id_prefix_replaces_high_byte() {
    let client = ClientId::new(0x0134).with_prefix(0x12);
    assert_eq!(client.as_u16(), 0x1234);
    assert_eq!(client.prefix(), 0x12);
    let client = ClientId::new(0x0034).with_prefix(0x12);
    assert_eq!(client.as_u16(), 0x1234);
    assert_eq!(client.prefix(), 0x12);
}
