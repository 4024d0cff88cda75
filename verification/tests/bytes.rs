use rsomeip::bytes::de::{Deserialize, DeserializeError};
use rsomeip::bytes::length::{Length, LengthU16, LengthU32, LengthU8, LengthZero};
use rsomeip::bytes::ser::{Serialize, SerializeError};
use rsomeip::bytes::string::{Encoding, StaticString, Utf16BE, Utf16LE, Utf8};
use rsomeip::bytes::wire::Reader;
use rsomeip::bytes::DynamicArray;
use rsomeip::codec::ser::Serialize as CodecSerialize;

#[test]
fn de_deserialize_bool() {
    assert_eq!(bool::size_hint(), Some(std::mem::size_of::<u8>()));
    let data = [0_u8, 1_u8];
    let mut buffer = Reader::new(&data);
    assert_eq!(bool::deserialize(&mut buffer), Ok(false));
    assert_eq!(bool::deserialize(&mut buffer), Ok(true));
    assert_eq!(bool::deserialize(&mut buffer), Err(DeserializeError::InsufficientData));
}

#[test]
fn de_deserialize_array() {
    assert_eq!(<[u8; 2]>::size_hint(), Some(std::mem::size_of::<u16>()));
    let data = [1_u8, 2_u8];
    let mut buffer = Reader::new(&data);
    assert_eq!(<[u8; 2]>::deserialize(&mut buffer), Ok([1_u8, 2_u8]));
    assert_eq!(<[u8; 2]>::deserialize(&mut buffer), Err(DeserializeError::InsufficientData));
}

#[test]
fn deserialize_tuple() {
    assert_eq!(<(u8, u8)>::size_hint(), Some(std::mem::size_of::<u16>()));
    let data = [1_u8, 2_u8];
    let mut buffer = Reader::new(&data);
    assert_eq!(<(u8, u8)>::deserialize(&mut buffer), Ok((1_u8, 2_u8)));
    assert_eq!(<(u8, u8)>::deserialize(&mut buffer), Err(DeserializeError::InsufficientData));
}

#[test]
fn deserialize_bytes() {
    assert_eq!(Vec::<u8>::size_hint(), Some(0));
    let data = [1_u8, 2];
    let mut buffer = Reader::new(&data);
    let output = Vec::<u8>::deserialize(&mut buffer).expect("should deserialize the bytes");
    assert_eq!(output, [1_u8, 2].as_slice());
}

#[test]
fn deserialize_box() {
    assert_eq!(Box::<u16>::size_hint(), u16::size_hint());
    let data = [1_u8, 2];
    let mut buffer = Reader::new(&data);
    let output = Box::<u16>::deserialize(&mut buffer).expect("should deserialize the Box");
    assert_eq!(*output, 0x0102_u16);
}

#[test]
fn ser_serialize_bool() {
    // Serialization with a size.
    let mut buffer = Vec::with_capacity(2);
    for value in [true, false] {
        let size = Serialize::serialize(&value, &mut buffer).expect("should serialize the bool");
        assert_eq!(size, 1);
        assert_eq!(Serialize::size(&value), Some(1));
    }
    assert_eq!(buffer, [1_u8, 0_u8].as_slice());

    // Serialization with the codec.
    let mut buffer = Vec::with_capacity(1);
    assert_eq!(CodecSerialize::serialize(&true, &mut buffer), Ok(1));
    assert_eq!(&buffer[..], &[1u8]);
}

#[test]
fn ser_serialize_array() {
    let mut buffer = Vec::with_capacity(2);
    let array = [1_u8, 2_u8];
    let size = Serialize::serialize(&array, &mut buffer).expect("should serialize the array");
    assert_eq!(size, 2);
    assert_eq!(Some(size), Serialize::size(&array));
    assert_eq!(buffer, [1_u8, 2_u8].as_slice());

    let mut buffer = Vec::with_capacity(2);
    let array = [1u8, 2u8];
    let size = CodecSerialize::serialize(&array, &mut buffer).expect("should serialize the array");
    assert_eq!(size, 2);
    assert_eq!(&buffer[..], &[1u8, 2u8][..]);
}

#[test]
fn ser_serialize_tuple() {
    let mut buffer = Vec::with_capacity(2);
    let tuple = (1_u8, 2_u8);
    let size = Serialize::serialize(&tuple, &mut buffer).expect("should serialize the tuple");
    assert_eq!(size, 2);
    assert_eq!(Some(size), Serialize::size(&tuple));
    assert_eq!(buffer, [1_u8, 2_u8].as_slice());

    let mut buffer = Vec::with_capacity(2);
    let tuple = (1u8, 2u8);
    let size = CodecSerialize::serialize(&tuple, &mut buffer).expect("should serialize the tuple");
    assert_eq!(size, 2);
    assert_eq!(&buffer[..], &[1u8, 2u8][..]);
}

#[test]
fn ser_serialize_bytes() {
    let mut buffer = Vec::with_capacity(2);
    let bytes = vec![1_u8, 2_u8];
    let size = Serialize::serialize(&bytes, &mut buffer).expect("should serialize the buffer");
    assert_eq!(size, 2);
    assert_eq!(Some(size), Serialize::size(&bytes));
    assert_eq!(buffer, [1_u8, 2].as_slice());

    let mut buffer = Vec::with_capacity(2);
    let bytes = vec![1u8, 2u8];
    assert_eq!(CodecSerialize::serialize(&bytes, &mut buffer), Ok(2));
    assert_eq!(&buffer[..], &[1u8, 2u8][..]);
}

#[test]
fn serialize_box() {
    let mut buffer = Vec::with_capacity(2);
    let value = Box::new(0x0102_u16);
    let size = Serialize::serialize(&value, &mut buffer).expect("should serialize the buffer");
    assert_eq!(size, 2);
    assert_eq!(Some(size), Serialize::size(&value));
    assert_eq!(buffer, [1_u8, 2].as_slice());
}

#[test]
fn serialize_length_overflow() {
    let mut buffer = Vec::new();
    let value = vec![0_u8; 0x1_0000_0000_usize];
    assert_eq!(LengthU8::serialize(&value, &mut buffer), Err(SerializeError::LengthOverflow));
    assert_eq!(LengthU16::serialize(&value, &mut buffer), Err(SerializeError::LengthOverflow));
    assert_eq!(LengthU32::serialize(&value, &mut buffer), Err(SerializeError::LengthOverflow));
    assert_eq!(
        LengthU8::serialize_with(
            |value: &&Vec<u8>, buffer: &mut Vec<u8>| Serialize::serialize(*value, buffer),
            |value: &&Vec<u8>| Serialize::size(*value),
            &value,
            &mut buffer
        ),
        Err(SerializeError::LengthOverflow)
    );
    assert_eq!(
        LengthU16::serialize_with(
            |value: &&Vec<u8>, buffer: &mut Vec<u8>| Serialize::serialize(*value, buffer),
            |value: &&Vec<u8>| Serialize::size(*value),
            &value,
            &mut buffer
        ),
        Err(SerializeError::LengthOverflow)
    );
    assert_eq!(
        LengthU32::serialize_with(
            |value: &&Vec<u8>, buffer: &mut Vec<u8>| Serialize::serialize(*value, buffer),
            |value: &&Vec<u8>| Serialize::size(*value),
            &value,
            &mut buffer
        ),
        Err(SerializeError::LengthOverflow)
    );
    assert!(buffer.is_empty());
}

#[test]
fn serialize_size_mismatch() {
    let mut buffer = Vec::new();
    assert_eq!(
        LengthU8::serialize_with(|_value: &u8, _buffer: &mut Vec<u8>| Ok(2), |_value: &u8| Some(1), 0_u8, &mut buffer),
        Err(SerializeError::SizeMismatch)
    );
    assert_eq!(
        LengthU16::serialize_with(|_value: &u8, _buffer: &mut Vec<u8>| Ok(2), |_value: &u8| Some(1), 0_u8, &mut buffer),
        Err(SerializeError::SizeMismatch)
    );
    assert_eq!(
        LengthU32::serialize_with(|_value: &u8, _buffer: &mut Vec<u8>| Ok(2), |_value: &u8| Some(1), 0_u8, &mut buffer),
        Err(SerializeError::SizeMismatch)
    );
}

#[test]
fn deserialize_insufficient_data() {
    let data = [0xff_u8, 0xff, 0xff, 0xff, 1];
    assert_eq!(
        LengthU8::deserialize::<u8>(&mut Reader::new(&data)),
        Err(DeserializeError::InsufficientData)
    );
    assert_eq!(
        LengthU16::deserialize::<u8>(&mut Reader::new(&data)),
        Err(DeserializeError::InsufficientData)
    );
    assert_eq!(
        LengthU32::deserialize::<u8>(&mut Reader::new(&data)),
        Err(DeserializeError::InsufficientData)
    );
    assert_eq!(
        LengthU8::deserialize_with(|buffer: &mut Reader| u8::deserialize(buffer), &mut Reader::new(&data)),
        Err(DeserializeError::InsufficientData)
    );
    assert_eq!(
        LengthU16::deserialize_with(|buffer: &mut Reader| u8::deserialize(buffer), &mut Reader::new(&data)),
        Err(DeserializeError::InsufficientData)
    );
    assert_eq!(
        LengthU32::deserialize_with(|buffer: &mut Reader| u8::deserialize(buffer), &mut Reader::new(&data)),
        Err(DeserializeError::InsufficientData)
    );
}

#[test]
fn serialize_length_zero() {
    let mut buffer = Vec::with_capacity(2);
    assert_eq!(Ok(1), LengthZero::serialize(&1_u8, &mut buffer));
    assert_eq!(
        Ok(1),
        LengthZero::serialize_with(
            |value: &u8, buffer: &mut Vec<u8>| Serialize::serialize(value, buffer),
            |value: &u8| Serialize::size(value),
            2_u8,
            &mut buffer
        )
    );
    assert_eq!(buffer, [1_u8, 2_u8].as_slice());
}

#[test]
fn deserialize_length_zero() {
    let data = [1_u8, 2];
    let mut buffer = Reader::new(&data);
    assert_eq!(Ok(1_u8), LengthZero::deserialize::<u8>(&mut buffer));
    assert_eq!(
        Ok(2_u8),
        LengthZero::deserialize_with(|buffer: &mut Reader| u8::deserialize(buffer), &mut buffer)
    );
}

#[test]
fn utf8_delimiter_checks() {
    let buffer = [
        0xef_u8, 0xbb, 0xbf, // UTF-8 BOM
        0x72, 0x73, 0x6f, 0x6d, 0x65, 0x69, 0x70, // "rsomeip"
        0x00, // Delimiter
        0x62, 0x79, 0x74, 0x65, 0x73, // "bytes"
        0x00, // Delimiter
    ];
    assert_eq!(
        Utf8::deserialize(&mut Reader::new(&buffer[0..10])),
        Err(DeserializeError::invariant_failed("not null terminated"))
    );
    assert_eq!(
        Utf8::deserialize(&mut Reader::new(&buffer)),
        Err(DeserializeError::invariant_failed("null byte before end of string"))
    );
}

#[test]
fn utf16be_delimiter_checks() {
    let buffer = [
        0xfe_u8, 0xff, // UTF-16 BE BOM
        0, 0x72, 0, 0x73, 0, 0x6f, 0, 0x6d, 0, 0x65, 0, 0x69, 0, 0x70, // "rsomeip"
        0x00, 0x00, // Delimiter
        0, 0x62, 0, 0x79, 0, 0x74, 0, 0x65, 0, 0x73, // "bytes"
        0x00, 0x00, // Delimiter
    ];
    assert_eq!(
        Utf16BE::deserialize(&mut Reader::new(&buffer[0..16])),
        Err(DeserializeError::invariant_failed("not null terminated"))
    );
    assert_eq!(
        Utf16BE::deserialize(&mut Reader::new(&buffer)),
        Err(DeserializeError::invariant_failed("null byte before end of string"))
    );
}

#[test]
fn utf16le_delimiter_checks() {
    let buffer = [
        0xff_u8, 0xfe, // UTF-16LE BOM
        0x72, 0, 0x73, 0, 0x6f, 0, 0x6d, 0, 0x65, 0, 0x69, 0, 0x70, 0, // "rsomeip"
        0x00, 0x00, // Delimiter
        0x62, 0, 0x79, 0, 0x74, 0, 0x65, 0, 0x73, 0, // "bytes"
        0x00, 0x00, // Delimiter
    ];
    assert_eq!(
        Utf16LE::deserialize(&mut Reader::new(&buffer[0..16])),
        Err(DeserializeError::invariant_failed("not null terminated"))
    );
    assert_eq!(
        Utf16LE::deserialize(&mut Reader::new(&buffer)),
        Err(DeserializeError::invariant_failed("null byte before end of string"))
    );
}

#[test]
fn utf16be_odd_padding() {
    let buffer = [
        0xfe_u8, 0xff, // UTF-16 BE BOM
        0, 0x72, 0, 0x73, 0, 0x6f, 0, 0x6d, 0, 0x65, 0, 0x69, 0, 0x70, // "rsomeip"
        0x00, 0x00, // Delimiter
        0x00, // Padding
    ];
    assert_eq!(Utf16BE::deserialize(&mut Reader::new(&buffer)), Ok(String::from("rsomeip")));
}

#[test]
fn utf16le_odd_padding() {
    let buffer = [
        0xff_u8, 0xfe, // UTF-16LE BOM
        0x72, 0, 0x73, 0, 0x6f, 0, 0x6d, 0, 0x65, 0, 0x69, 0, 0x70, 0, // "rsomeip"
        0x00, 0x00, // Delimiter
        0x00, // Padding
    ];
    assert_eq!(Utf16LE::deserialize(&mut Reader::new(&buffer)), Ok(String::from("rsomeip")));
}

#[test]
fn utf16be_invalid_padding() {
    let buffer = [
        0xfe_u8, 0xff, // UTF-16 BE BOM
        0, 0x72, 0, 0x73, 0, 0x6f, 0, 0x6d, 0, 0x65, 0, 0x69, 0, 0x70, // "rsomeip"
        0x00, 0x00, // Delimiter
        0x01, // Padding
    ];
    assert_eq!(
        Utf16BE::deserialize(&mut Reader::new(&buffer)),
        Err(DeserializeError::invariant_failed("not null terminated"))
    );
}

#[test]
fn utf16le_invalid_padding() {
    let buffer = [
        0xff_u8, 0xfe, // UTF-16LE BOM
        0x72, 0, 0x73, 0, 0x6f, 0, 0x6d, 0, 0x65, 0, 0x69, 0, 0x70, 0, // "rsomeip"
        0x00, 0x00, // Delimiter
        0x01, // Padding
    ];
    assert_eq!(
        Utf16LE::deserialize(&mut Reader::new(&buffer)),
        Err(DeserializeError::invariant_failed("not null terminated"))
    );
}

#[test]
fn utf8_bom_check() {
    let buffer = [
        0xef_u8, 0x00, 0xbf, // Invalid BOM
        0x00, // Delimiter
    ];
    assert_eq!(
        Utf8::deserialize(&mut Reader::new(&buffer)),
        Err(DeserializeError::invariant_failed("invalid UTF-8 Byte Order Mark"))
    );
}

#[test]
fn utf16be_bom_check() {
    let buffer = [
        0xff_u8, 0x00, // Invalid BOM
        0x00, 0x00, // Delimiter
    ];
    assert_eq!(
        Utf16BE::deserialize(&mut Reader::new(&buffer)),
        Err(DeserializeError::invariant_failed("invalid UTF-16BE Byte Order Mark"))
    );
}

#[test]
fn utf16le_bom_check() {
    let buffer = [
        0xfe_u8, 0x00, // Invalid BOM
        0x00, 0x00, // Delimiter
    ];
    assert_eq!(
        Utf16LE::deserialize(&mut Reader::new(&buffer)),
        Err(DeserializeError::invariant_failed("invalid UTF-16LE Byte Order Mark"))
    );
}

#[test]
fn utf8_empty_string() {
    let buffer = [
        0xef_u8, 0xbb, 0xbf, // UTF-8 BOM
        0x00, // Delimiter
    ];
    assert_eq!(Utf8::deserialize(&mut Reader::new(&buffer)), Ok(String::new()));
}

#[test]
fn utf16be_empty_string() {
    let buffer = [
        0xfe_u8, 0xff, // UTF-16 BE BOM
        0x00, 0x00, // Delimiter
    ];
    assert_eq!(Utf16BE::deserialize(&mut Reader::new(&buffer)), Ok(String::new()));
}

#[test]
fn utf16le_empty_string() {
    let buffer = [
        0xff_u8, 0xfe, // UTF-16LE BOM
        0x00, 0x00, // Delimiter
    ];
    assert_eq!(Utf16LE::deserialize(&mut Reader::new(&buffer)), Ok(String::new()));
}

#[test]
fn static_string_exceeds_capacity() {
    assert_eq!(
        Serialize::serialize(&StaticString::<4, Utf8, _>::from("rsomeip"), &mut Vec::with_capacity(11)),
        Err(SerializeError::invariant_failed("string exceeds static array capacity"))
    );
}

#[test]
fn serialize() {
    let value = vec![1_u16, 2, 3, 4];
    let array = <DynamicArray<LengthU32, _>>::from(&value);
    let bytes = Serialize::to_bytes(&<DynamicArray<LengthU32, _>>::from(&value))
        .expect("should serialize the Vec");
    assert_eq!(Some(bytes.len()), Serialize::size(&array));
    assert_eq!(bytes, [0_u8, 0, 0, 8, 0, 1, 0, 2, 0, 3, 0, 4].as_slice());
}

#[test]
fn serialize_empty() {
    let value: Vec<u16> = vec![];
    let array = <DynamicArray<LengthU32, _>>::from(&value);
    let bytes = Serialize::to_bytes(&<DynamicArray<LengthU32, _>>::from(&value))
        .expect("should serialize the Vec");
    assert_eq!(Some(bytes.len()), Serialize::size(&array));
    assert_eq!(bytes, [0_u8, 0, 0, 0].as_slice());
}

#[test]
fn deserialize() {
    let buffer = [0_u8, 0, 0, 8, 0, 1, 0, 2, 0, 3, 0, 4, 0, 5];
    let output = DynamicArray::<LengthU32, Vec<u16>>::deserialize(&mut Reader::new(&buffer))
        .expect("should deserialize the Vec");
    assert_eq!(output, vec![1_u16, 2, 3, 4]);
    assert_eq!(DynamicArray::<LengthU32, Vec<u16>>::size_hint(), Some(4));
}

#[test]
fn deserialize_empty() {
    let buffer = [0_u8, 0, 0, 0, 0, 1];
    let output = DynamicArray::<LengthU32, Vec<u16>>::deserialize(&mut Reader::new(&buffer))
        .expect("should deserialize the Vec");
    assert_eq!(output, Vec::<u16>::new());
    assert_eq!(DynamicArray::<LengthU32, Vec<u16>>::size_hint(), Some(4));
}

#[test]
fn deserialize_error() {
    let buffer = [0_u8, 0, 0, 3, 0, 1, 0];
    let error = DynamicArray::<LengthU32, Vec<u16>>::deserialize(&mut Reader::new(&buffer))
        .expect_err("shouldn't deserialize the Vec");
    assert_eq!(error, DeserializeError::InsufficientData);
}

#[test]
fn dynamic_vec() {
    let value = vec![1_u16, 2, 3, 4];
    let bytes = Serialize::to_bytes(&DynamicArray::<LengthU32, _>::from(&value))
        .expect("should serialize the Vec");
    let output = DynamicArray::<LengthU32, Vec<u16>>::deserialize(&mut Reader::new(&bytes))
        .expect("should deserialize the Vec");
    assert_eq!(value, output);
}

#[test]
fn serialize_macro() {
    let [a, b, c, d] = [1u8, 2, 3, 4];
    let mut buffer = Vec::new();
    let mut size = 0;
    size += Serialize::serialize(&(&a, b), &mut buffer).expect("should serialize");
    size += LengthU8::serialize(&(&c, d), &mut buffer).expect("should serialize");
    assert_eq!(size, 5);
    assert_eq!(buffer[..], [1u8, 2, 2, 3, 4]);
}

#[test]
fn deserialize_macro() {
    let data = [1u8, 2, 2, 3, 4];
    let mut buffer = Reader::new(&data);
    let (a, b) = <(u8, u8)>::deserialize(&mut buffer).expect("should deserialize");
    let (c, d) = LengthU8::deserialize::<(u8, u8)>(&mut buffer).expect("should deserialize");
    assert_eq!([a, b, c, d], [1u8, 2, 3, 4]);
}

#[test]
fn static_string_over_capacity_writes_nothing() {
    let mut buffer = vec![0xaa_u8];
    assert_eq!(
        Serialize::serialize(&StaticString::<4, Utf8, _>::from("rsomeip"), &mut buffer),
        Err(SerializeError::invariant_failed("string exceeds static array capacity"))
    );
    assert_eq!(buffer, vec![0xaa_u8]);
}
