use rsomeip::bytes::de::{Deserialize, DeserializeError};
use rsomeip::bytes::length::{Length, LengthU16, LengthU32, LengthU8};
use rsomeip::bytes::ser::Serialize;
use rsomeip::bytes::string::{DynamicString, Encoding, StaticString, Utf16BE, Utf16LE, Utf8};
use rsomeip::bytes::wire::Reader;
use rsomeip::bytes::DynamicArray;
use rsomeip::proto::endpoint::Endpoint;
use rsomeip::proto::interface::{Direction, Interface};
use rsomeip::proto::message::{Header, Message};
use rsomeip::proto::primitives::{
    ClientId, InterfaceVersion, MessageType, MethodId, ProtocolVersion, ReturnCode, ServiceId,
    SessionId,
};
use rsomeip::proto::tp::TpHeader;

#[test]
fn basic_values_read_back_before_trailing_bytes() {
    let mut buffer = Vec::new();
    Serialize::serialize(&0x0102_u16, &mut buffer).expect("should serialize");
    Serialize::serialize(&-2_i32, &mut buffer).expect("should serialize");
    Serialize::serialize(&0x0102_0304_0506_0708_u64, &mut buffer).expect("should serialize");
    Serialize::serialize(&-3_i8, &mut buffer).expect("should serialize");
    Serialize::serialize(&true, &mut buffer).expect("should serialize");
    buffer.push(0xaa);
    let mut reader = Reader::new(&buffer);
    assert_eq!(u16::deserialize(&mut reader), Ok(0x0102));
    assert_eq!(i32::deserialize(&mut reader), Ok(-2));
    assert_eq!(u64::deserialize(&mut reader), Ok(0x0102_0304_0506_0708));
    assert_eq!(i8::deserialize(&mut reader), Ok(-3));
    assert_eq!(bool::deserialize(&mut reader), Ok(true));
    assert_eq!(reader.remaining(), 1);
}

#[test]
fn tuple_reads_back() {
    let value = (0x01_u8, 0x0203_u16, 0x0405_0607_u32);
    let bytes = Serialize::to_bytes(&value).expect("should serialize");
    assert_eq!(bytes, [0x01_u8, 0x02, 0x03, 0x04, 0x05, 0x06, 0x07]);
    assert_eq!(<(u8, u16, u32)>::deserialize(&mut Reader::new(&bytes)), Ok(value));
}

#[test]
fn static_array_reads_back() {
    let value = [1_u8, 2, 3, 4];
    let bytes = Serialize::to_bytes(&value).expect("should serialize");
    assert_eq!(bytes, [0x01_u8, 0x02, 0x03, 0x04]);
    assert_eq!(<[u8; 4]>::deserialize(&mut Reader::new(&bytes)), Ok(value));
}

#[test]
fn value_reads_back_after_length_field() {
    let mut buffer = Vec::new();
    assert_eq!(LengthU8::serialize(&0x0a0b_u16, &mut buffer), Ok(3));
    assert_eq!(LengthU16::serialize(&0x0c_u8, &mut buffer), Ok(3));
    assert_eq!(buffer, [2_u8, 0x0a, 0x0b, 0, 1, 0x0c]);
    let mut reader = Reader::new(&buffer);
    assert_eq!(LengthU8::deserialize::<u16>(&mut reader), Ok(0x0a0b));
    assert_eq!(LengthU16::deserialize::<u8>(&mut reader), Ok(0x0c));
    assert_eq!(reader.remaining(), 0);
}

#[test]
fn dynamic_array_reads_back() {
    let value = vec![1_u8, 2, 3];
    let array = DynamicArray::<LengthU32, _>::from(&value);
    let bytes = Serialize::to_bytes(&array).expect("should serialize");
    assert_eq!(bytes, [0x00_u8, 0x00, 0x00, 0x03, 0x01, 0x02, 0x03]);
    assert_eq!(DynamicArray::<LengthU32, Vec<u8>>::deserialize(&mut Reader::new(&bytes)), Ok(value));
}

#[test]
fn dynamic_string_reads_back() {
    let value = String::from("rsomeip");
    let string = DynamicString::<LengthU32, Utf8, _>::from(&value);
    let bytes = Serialize::to_bytes(&string).expect("should serialize");
    assert_eq!(
        bytes,
        [
            0x00_u8, 0x00, 0x00, 0x0b, // Length
            0xef, 0xbb, 0xbf, // UTF-8 BOM
            0x72, 0x73, 0x6f, 0x6d, 0x65, 0x69, 0x70, // "rsomeip"
            0x00, // Delimiter
        ]
    );
    let mut with_rest = bytes.clone();
    with_rest.push(0xff);
    let mut reader = Reader::new(&with_rest);
    assert_eq!(DynamicString::<LengthU32, Utf8, String>::deserialize(&mut reader), Ok(value));
    assert_eq!(reader.remaining(), 1);
}

#[test]
fn static_string_reads_back() {
    let value = String::from("rsomeip");
    let string = StaticString::<15, Utf8, _>::from(&value);
    let bytes = Serialize::to_bytes(&string).expect("should serialize");
    assert_eq!(
        bytes,
        [
            0xef_u8, 0xbb, 0xbf, // UTF-8 BOM
            0x72, 0x73, 0x6f, 0x6d, 0x65, 0x69, 0x70, // "rsomeip"
            0x00, // Delimiter
            0x00, 0x00, 0x00, 0x00, // Padding
        ]
    );
    assert_eq!(StaticString::<15, Utf8, String>::deserialize(&mut Reader::new(&bytes)), Ok(value));
}

#[test]
fn utf8_text_with_nul_does_not_read_back() {
    let mut buffer = Vec::new();
    Utf8::serialize("a\0b", &mut buffer).expect("should serialize");
    assert_eq!(
        Utf8::deserialize(&mut Reader::new(&buffer)),
        Err(DeserializeError::invariant_failed("null byte before end of string"))
    );
}

#[test]
fn header_and_message_read_back() {
    let header = Header::new()
        .with_client(ClientId::new(0x0102))
        .with_session(SessionId::new(0x0304))
        .with_protocol(ProtocolVersion::new(1))
        .with_interface(InterfaceVersion::new(2))
        .with_message_type(MessageType::Notification)
        .with_return_code(ReturnCode::Reserved(0x20));
    let message = Message::new(header, vec![9_u8, 8, 7])
        .with_service(ServiceId::new(0xabcd))
        .with_method(MethodId::new(0x8001));
    let mut bytes = Serialize::to_bytes(&message).expect("should serialize");
    assert_eq!(bytes.len(), 19);
    bytes.extend_from_slice(&[0xee, 0xee]);
    let mut reader = Reader::new(&bytes);
    assert_eq!(Message::<Header, Vec<u8>>::deserialize(&mut reader), Ok(message));
    assert_eq!(reader.remaining(), 2);
}

#[test]
fn split_then_join_restores_segment() {
    let body: Vec<u8> = (0..40).collect();
    let mut rest = TpHeader::new(body.clone());
    let mut first = rest.split(16).expect("should split");
    assert_eq!(first.join(rest), Ok(()));
    assert_eq!(first, TpHeader::new(body));
}

#[test]
fn split_then_join_refused_away_from_offset_zero() {
    let mut rest = TpHeader { offset: 1, more_segments: false, body: vec![0_u8; 40] };
    let mut first = rest.split(16).expect("should split");
    assert!(first.join(rest).is_err());
}

#[test]
fn segment_reads_back() {
    let header = TpHeader { offset: 0x0fff_ffff, more_segments: true, body: vec![1, 2, 3] };
    let bytes = Serialize::to_bytes(&header).expect("should serialize");
    assert_eq!(TpHeader::deserialize(&mut Reader::new(&bytes)), Ok(header));
    let header = TpHeader { offset: 0x1000_0000, more_segments: false, body: vec![] };
    let bytes = Serialize::to_bytes(&header).expect("should serialize");
    assert_ne!(TpHeader::deserialize(&mut Reader::new(&bytes)), Ok(header));
}

#[test]
fn what_a_proxy_sends_a_stub_receives() {
    let builds: [fn(Interface, MethodId) -> Interface; 3] =
        [Interface::with_method, Interface::with_procedure, Interface::with_event];
    for build in builds {
        let stub = build(Interface::default(), MethodId::new(3));
        let proxy = stub.clone().into_proxy();
        for value in [
            MessageType::Request,
            MessageType::RequestNoReturn,
            MessageType::Notification,
            MessageType::Response,
            MessageType::Error,
            MessageType::Unknown(0x42),
        ] {
            let message: Message<Header, Vec<u8>> =
                Message::default().with_method(MethodId::new(3)).with_message_type(value);
            if proxy.check(&message, Direction::Outgoing).is_ok() {
                assert_eq!(stub.check(&message, Direction::Incoming), Ok(()));
            }
            if stub.check(&message, Direction::Outgoing).is_ok() {
                assert_eq!(proxy.check(&message, Direction::Incoming), Ok(()));
            }
        }
    }
}

#[test]
fn message_sent_by_client_is_received_by_server() {
    let stub = Interface::default().with_method(MethodId::new(1));
    let server = Endpoint::new().with_interface(ServiceId::new(7), stub.clone());
    let client = Endpoint::new().with_interface(ServiceId::new(7), stub.into_proxy());
    let request: Message<Header, Vec<u8>> = Message::new(
        Header::new().with_protocol(ProtocolVersion::new(1)),
        vec![1_u8, 2],
    )
    .with_service(ServiceId::new(7))
    .with_method(MethodId::new(1));
    let mut wire = Vec::new();
    assert_eq!(client.process(request.clone(), &mut wire), Ok(18));
    assert_eq!(server.poll::<Vec<u8>>(&mut Reader::new(&wire)), Ok(request));
}

#[test]
fn session_never_returns_to_zero() {
    let mut session = SessionId::new(0xfffe);
    session.increment();
    assert_eq!(session.as_u16(), 0xffff);
    session.increment();
    assert_eq!(session.as_u16(), 1);
    let mut disabled = SessionId::disabled();
    disabled.increment();
    assert!(disabled.is_enabled());
}

#[test]
fn static_utf16be_string_reads_back_with_odd_padding() {
    let value = String::from("ab");
    let string = StaticString::<15, Utf16BE, _>::from(&value);
    let bytes = Serialize::to_bytes(&string).expect("should serialize");
    assert_eq!(
        bytes,
        [
            0xfe_u8, 0xff, // UTF-16BE BOM
            0x00, 0x61, 0x00, 0x62, // "ab"
            0x00, 0x00, // Delimiter
            0x00, 0x00, 0x00, 0x00, 0x00, 0x00, 0x00, // Padding
        ]
    );
    assert_eq!(StaticString::<15, Utf16BE, String>::deserialize(&mut Reader::new(&bytes)), Ok(value));
}

#[test]
fn static_utf16le_string_reads_back() {
    let value = String::from("ab");
    let string = StaticString::<12, Utf16LE, _>::from(&value);
    let bytes = Serialize::to_bytes(&string).expect("should serialize");
    assert_eq!(
        bytes,
        [
            0xff_u8, 0xfe, // UTF-16LE BOM
            0x61, 0x00, 0x62, 0x00, // "ab"
            0x00, 0x00, // Delimiter
            0x00, 0x00, 0x00, 0x00, // Padding
        ]
    );
    assert_eq!(StaticString::<12, Utf16LE, String>::deserialize(&mut Reader::new(&bytes)), Ok(value));
}
