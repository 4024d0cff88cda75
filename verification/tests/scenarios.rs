use rsomeip::bytes::de::Deserialize;
use rsomeip::bytes::length::{
    DeserializeWithLength, Length, LengthU16, LengthU32, LengthU8, LengthZero, SerializeWithLength,
};
use rsomeip::bytes::ser::{Serialize, SerializeWithFn};
use rsomeip::bytes::string::{
    deserialize_raw_utf16, remove_delimiters, DynamicString, Encoding, StaticString, Utf16BE, Utf16LE,
    Utf8,
};
use rsomeip::bytes::wire::Reader;
use rsomeip::bytes::DynamicArray;
use rsomeip::proto::endpoint::Endpoint;
use rsomeip::proto::interface::{Interface, InterfaceType, MethodType};
use rsomeip::proto::message::{Header, Message};
use rsomeip::proto::primitives::{InterfaceVersion, MessageType, MethodId, ServiceId};
use rsomeip::proto::tp::TpHeader;

struct Foo {
    bar: u8,
    baz: u16,
}

#[test]
fn length_field_comes_before_value() {
    let mut buffer = Vec::with_capacity(6);
    assert_eq!(LengthU32::serialize(&0x0102_u16, &mut buffer), Ok(6));
    assert_eq!(buffer, [0_u8, 0, 0, 2, 1, 2]);
    assert_eq!(LengthU32::deserialize::<u16>(&mut Reader::new(&buffer)), Ok(0x0102_u16));
}

#[test]
fn length_field_with_functions() {
    let mut buffer = Vec::with_capacity(7);
    let size = LengthU32::serialize_with(
        |value: &Foo, buffer: &mut Vec<u8>| {
            Ok(Serialize::serialize(&value.bar, buffer)? + Serialize::serialize(&value.baz, buffer)?)
        },
        |value: &Foo| Some(Serialize::size(&value.bar)? + Serialize::size(&value.baz)?),
        Foo { bar: 1_u8, baz: 0x0203_u16 },
        &mut buffer,
    );
    assert_eq!(size, Ok(7));
    assert_eq!(buffer, [0_u8, 0, 0, 3, 1, 2, 3]);

    let data = [0_u8, 0, 0, 3, 1, 2, 3, 9];
    let mut reader = Reader::new(&data);
    let value = LengthU32::deserialize_with(
        |buffer: &mut Reader| Ok((u8::deserialize(buffer)?, u16::deserialize(buffer)?)),
        &mut reader,
    );
    assert_eq!(value, Ok((1_u8, 0x0203_u16)));
    assert_eq!(reader.remaining(), 1);
}

#[test]
fn length_field_covers_only_its_bytes() {
    let data = [1_u8, 7, 8];
    let mut reader = Reader::new(&data);
    let value = LengthU8::deserialize_with(
        |buffer: &mut Reader| Ok((u8::deserialize(buffer)?, buffer.remaining())),
        &mut reader,
    );
    assert_eq!(value, Ok((7_u8, 0)));
    assert_eq!(reader.remaining(), 1);
}

#[test]
fn length_field_sizes_and_capacities() {
    assert_eq!(LengthZero::size(), 0);
    assert_eq!(LengthU8::size(), 1);
    assert_eq!(LengthU16::size(), 2);
    assert_eq!(LengthU32::size(), 4);
    assert_eq!(LengthZero::capacity(), Some(usize::MAX));
    assert_eq!(LengthU8::capacity(), Some(0xff));
    assert_eq!(LengthU16::capacity(), Some(0xffff));
    assert_eq!(LengthU32::capacity(), Some(0xffff_ffff));
}

#[test]
fn serialize_with_length_wrapper() {
    let wrapper = SerializeWithLength::<LengthU32, _>::from(&1_u16);
    assert_eq!(Some(6), wrapper.size());
    let bytes = wrapper.to_bytes().expect("should serialize");
    assert_eq!(bytes, [0_u8, 0, 0, 2, 0, 1]);
}

#[test]
fn deserialize_with_length_wrapper() {
    assert_eq!(Some(4), DeserializeWithLength::<LengthU32, u16>::size_hint());
    let buffer = [0_u8, 0, 0, 2, 0, 1];
    let value = DeserializeWithLength::<LengthU32, u16>::deserialize(&mut Reader::new(&buffer));
    assert_eq!(value, Ok(1_u16));
}

#[test]
fn serialize_with_functions_wrapper() {
    let foo = Foo { bar: 1_u8, baz: 2_u16 };
    let wrapper = SerializeWithFn::new(
        &foo,
        |value: &Foo, buffer: &mut Vec<u8>| Serialize::serialize(&(&value.bar, &value.baz), buffer),
        |value: &Foo| Serialize::size(&(&value.bar, &value.baz)),
    );
    assert_eq!(wrapper.size(), Some(3));
    let bytes = wrapper.to_bytes().expect("should serialize");
    assert_eq!(bytes, [1_u8, 0, 2]);
    let failing = SerializeWithFn::new(&foo, |_: &Foo, _: &mut Vec<u8>| Ok(0), |_: &Foo| None);
    assert!(failing.to_bytes().is_err());
}

#[test]
fn basic_serialization() {
    let mut buffer = Vec::new();
    assert_eq!(Serialize::serialize(&0x1234_5678_u32, &mut buffer), Ok(4));
    assert_eq!(buffer, [0x12_u8, 0x34, 0x56, 0x78]);
    assert_eq!(Serialize::size(&1_u8), Some(1));
    assert_eq!(Serialize::size(&1_u16), Some(2));
    assert_eq!(Serialize::size(&1_u32), Some(4));
    assert_eq!(Serialize::to_bytes(&0x1234_5678_u32), Ok(vec![0x12_u8, 0x34, 0x56, 0x78]));
    assert_eq!(u16::deserialize(&mut Reader::new(&[0x12_u8, 0x34])), Ok(0x1234));
}

#[test]
fn encodings() {
    let mut buffer = Vec::new();
    assert_eq!(Utf8::serialize("rsomeip", &mut buffer), Ok(11));
    assert_eq!(
        buffer,
        [0xef_u8, 0xbb, 0xbf, 0x72, 0x73, 0x6f, 0x6d, 0x65, 0x69, 0x70, 0x00]
    );
    assert_eq!(Utf8::size("rsomeip"), Some(11));
    assert_eq!(Utf16BE::size("rsomeip"), Some(18));
    assert_eq!(Utf16LE::size("rsomeip"), Some(18));
    assert_eq!(Utf8::deserialize(&mut Reader::new(&buffer)), Ok(String::from("rsomeip")));
}

#[test]
fn static_strings() {
    let value = String::from("rsomeip");
    let string = StaticString::<11, Utf8, _>::from(&value);
    let mut buffer = Vec::new();
    assert_eq!(Ok(11), string.serialize(&mut buffer));
    assert_eq!(buffer, [0xef_u8, 0xbb, 0xbf, 0x72, 0x73, 0x6f, 0x6d, 0x65, 0x69, 0x70, 0x00]);
    assert_eq!(StaticString::<11, Utf8, String>::deserialize(&mut Reader::new(&buffer)), Ok(value.clone()));

    let string = StaticString::<18, Utf16LE, _>::from(&value);
    let mut buffer = Vec::new();
    assert_eq!(Ok(18), string.serialize(&mut buffer));
    assert_eq!(
        buffer,
        [
            0xff, 0xfe, 0x72, 0, 0x73, 0, 0x6f, 0, 0x6d, 0, 0x65, 0, 0x69, 0, 0x70, 0, 0x00, 0x00
        ]
    );
    assert_eq!(StaticString::<18, Utf16LE, String>::deserialize(&mut Reader::new(&buffer)), Ok(value.clone()));

    let string = StaticString::<18, Utf16BE, _>::from(&value);
    let mut buffer = Vec::new();
    assert_eq!(Ok(18), string.serialize(&mut buffer));
    assert_eq!(
        buffer,
        [
            0xfe, 0xff, 0, 0x72, 0, 0x73, 0, 0x6f, 0, 0x6d, 0, 0x65, 0, 0x69, 0, 0x70, 0x00, 0x00
        ]
    );
    assert_eq!(StaticString::<18, Utf16BE, String>::deserialize(&mut Reader::new(&buffer)), Ok(value.clone()));

    let string = StaticString::<15, Utf8, _>::from(&value);
    assert_eq!(Some(15), string.size());
    assert_eq!(Some(15), StaticString::<15, Utf8, String>::size_hint());
}

#[test]
fn dynamic_strings() {
    let value = String::from("rsomeip");
    let string = DynamicString::<LengthU32, Utf8, _>::from(&value);
    assert_eq!(Some(15), string.size());
    assert_eq!(Some(4), DynamicString::<LengthU32, Utf8, String>::size_hint());
    let string = DynamicString::<LengthU16, Utf16BE, _>::from(&value);
    let bytes = string.to_bytes().expect("should serialize");
    assert_eq!(bytes.len(), 20);
    assert_eq!(&bytes[0..4], &[0, 18, 0xfe, 0xff]);
    assert_eq!(DynamicString::<LengthU16, Utf16BE, String>::deserialize(&mut Reader::new(&bytes)), Ok(value));
}

#[test]
fn delimiters_and_raw_units() {
    assert_eq!(remove_delimiters(vec![1_u16, 2, 0, 0], 0), Ok(vec![1_u16, 2]));
    assert!(remove_delimiters(vec![1_u16, 0, 2, 0], 0).is_err());
    assert!(remove_delimiters(vec![1_u16, 2], 0).is_err());
    let data = [0x00_u8, 0x72, 0x00, 0x00];
    assert_eq!(deserialize_raw_utf16(&mut Reader::new(&data), true), Ok(vec![0x0072_u16, 0x0000]));
    assert_eq!(deserialize_raw_utf16(&mut Reader::new(&data), false), Ok(vec![0x7200_u16, 0x0000]));
}

#[test]
fn dynamic_array_of_integers() {
    let value = vec![1, 2, 3, 4, 5];
    let array = DynamicArray::<LengthU32, _>::from(&value);
    let bytes = array.to_bytes().expect("should serialize");
    let output = DynamicArray::<LengthU32, Vec<i32>>::deserialize(&mut Reader::new(&bytes));
    assert_eq!(output, Ok(value));
}

#[test]
fn interface_builders() {
    assert_eq!(Interface::default().into_stub().flavor, InterfaceType::Stub);
    assert_eq!(Interface::default().into_proxy().flavor, InterfaceType::Proxy);
    assert_eq!(
        Interface::default().with_version(InterfaceVersion::new(1)).version,
        InterfaceVersion::new(1)
    );
    assert_eq!(Interface::default().with_method(MethodId::new(1)).get(MethodId::new(1)), Some(MethodType::Method));
    assert_eq!(
        Interface::default().with_procedure(MethodId::new(1)).get(MethodId::new(1)),
        Some(MethodType::Procedure)
    );
    assert_eq!(Interface::default().with_event(MethodId::new(1)).get(MethodId::new(1)), Some(MethodType::Event));
}

#[test]
fn interface_methods_change() {
    let mut interface = Interface::default();
    assert_eq!(interface.insert(MethodId::new(1), MethodType::Method), None);
    assert_eq!(interface.insert(MethodId::new(1), MethodType::Procedure), Some(MethodType::Method));
    assert_eq!(interface.remove(MethodId::new(1)), Some(MethodType::Procedure));
    assert_eq!(interface.remove(MethodId::new(1)), None);

    let mut interface = Interface::default().with_method(MethodId::new(1));
    assert_eq!(interface.get_mut(MethodId::new(1)), Some(&mut MethodType::Method));
    if let Some(method) = interface.get_mut(MethodId::new(1)) {
        *method = MethodType::Event;
    }
    assert_eq!(interface.get(MethodId::new(1)), Some(MethodType::Event));
    assert_eq!(interface.get_mut(MethodId::new(2)), None);
}

#[test]
fn endpoint_interfaces_change() {
    let mut endpoint = Endpoint::new();
    assert_eq!(endpoint.insert(ServiceId::new(0), Interface::default()), None);
    assert_eq!(endpoint.insert(ServiceId::new(0), Interface::default()), Some(Interface::default()));
    assert_eq!(endpoint.get(ServiceId::new(0)), Some(&Interface::default()));
    assert_eq!(endpoint.get_mut(ServiceId::new(0)), Some(&mut Interface::default()));
    if let Some(interface) = endpoint.get_mut(ServiceId::new(0)) {
        interface.version = InterfaceVersion::new(3);
    }
    assert_eq!(endpoint.get(ServiceId::new(0)).map(|i| i.version), Some(InterfaceVersion::new(3)));
    assert!(endpoint.remove(ServiceId::new(0)).is_some());
    assert_eq!(endpoint.remove(ServiceId::new(0)), None);
}

#[test]
fn endpoint_lets_valid_messages_through() {
    let endpoint = Endpoint::new()
        .with_interface(ServiceId::default(), Interface::default().with_method(MethodId::default()));
    let message: Message<Header, Vec<u8>> = Message::default();
    let bytes = message.to_bytes().expect("should serialize");
    assert_eq!(endpoint.poll::<Vec<u8>>(&mut Reader::new(&bytes)), Ok(message));

    let endpoint = Endpoint::new()
        .with_interface(ServiceId::default(), Interface::default().with_event(MethodId::default()));
    let message: Message<Header, Vec<u8>> = Message::default().with_message_type(MessageType::Notification);
    let mut buffer = Vec::new();
    assert_eq!(
        endpoint.process(message.clone(), &mut buffer),
        Ok(message.size().expect("should have a size"))
    );
    assert_eq!(buffer, message.to_bytes().expect("should serialize"));
}

#[test]
fn segments_wrap_and_unwrap() {
    let message = Message::new(Header::default(), vec![1_u8; 5]);
    assert!(message.into_segment().is_ok());
    let message = Message::new(Header::default(), vec![1_u8; 3]);
    assert!(message.into_segment().is_err());
    let message = Message::new(Header::default(), vec![1_u8]);
    assert_eq!(message.wrap_segment().body.body[0], 1_u8);
    let header = TpHeader { offset: 0, more_segments: true, body: vec![1_u8] };
    let message = Message::new(Header::default(), header);
    assert_eq!(message.unwrap_segment().body, vec![1_u8]);
}

#[test]
fn message_maps() {
    let message = Message::new(1_u8, 2_u16).with_service(ServiceId::new(5));
    let mapped = message.map(|h, b| (u16::from(h) + 1, u32::from(b) * 2));
    assert_eq!(mapped.header, 2_u16);
    assert_eq!(mapped.body, 4_u32);
    assert_eq!(mapped.service, ServiceId::new(5));
    let message = Message::new(1_u8, 2_u16).map_header(|h| h == 1).map_body(|b| b + 1);
    assert!(message.header);
    assert_eq!(message.body, 3_u16);
}
