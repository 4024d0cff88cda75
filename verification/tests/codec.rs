use rsomeip::codec::de::{Deserialize, Deserializer};
use rsomeip::codec::ser::{Serialize, SerializeString};
use rsomeip::codec::{Error, LengthField};

#[test]
fn read() {
    let buf = [1u8, 0, 0, 0, 2];
    let mut de = Deserializer::new(&buf);
    assert_eq!(de.read::<1>().map(u8::from_be_bytes), Ok(1u8));
    assert_eq!(de.cursor(), 1);
    assert_eq!(de.read::<4>().map(u32::from_be_bytes), Ok(2u32));
    assert_eq!(de.cursor(), 5);
    assert_eq!(de.read::<1>().map(u8::from_be_bytes), Err(Error::BufferOverflow));
    assert_eq!(de.cursor(), 5);
}

#[test]
fn limit() {
    let buf = [0u8, 1, 0, 2, 0, 3];
    let mut de = Deserializer::new(&buf);
    assert_eq!(de.push_limit(buf.len() + 1), Err(Error::BufferOverflow));
    assert_eq!(de.push_limit(std::mem::size_of::<u32>()), Ok(()));
    assert_eq!(de.push_limit(std::mem::size_of::<u64>()), Err(Error::ExceedsLimit));
    assert_eq!(de.push_limit(std::mem::size_of::<u16>()), Ok(()));

    assert_eq!(de.read::<2>().map(u16::from_be_bytes), Ok(1u16));
    assert_eq!(de.read::<2>().map(u16::from_be_bytes), Err(Error::ExceedsLimit));

    assert_eq!(de.pop_limit(), Ok(()));
    assert_eq!(de.read::<2>().map(u16::from_be_bytes), Ok(2u16));
}

#[test]
fn tests_deserialize_bool() {
    let buf = [0u8, 1];
    let mut de = Deserializer::new(&buf);
    assert_eq!(bool::deserialize(&mut de), Ok(false));
    assert_eq!(bool::deserialize(&mut de), Ok(true));
    assert_eq!(bool::deserialize(&mut de), Err(Error::BufferOverflow));
}

#[test]
fn tests_deserialize_array() {
    let buf = [0u8, 1, 2, 3];
    let mut de = Deserializer::new(&buf);
    assert_eq!(<[u8; 4]>::deserialize(&mut de), Ok([0u8, 1, 2, 3]));
}

#[test]
fn deserialize_vec() {
    let buf = [0u8, 4, 0, 1, 2, 3];
    let mut de = Deserializer::new(&buf);
    assert_eq!(Vec::<u8>::deserialize_len(&mut de, LengthField::U16), Ok(vec![0u8, 1, 2, 3]));
}

#[test]
fn deserialize_utf8() {
    let buf = [0xef_u8, 0xbb, 0xbf, 0x72, 0x75, 0x73, 0x74, 0x00];
    let mut de = Deserializer::new(&buf);
    assert_eq!(String::deserialize(&mut de), Ok(String::from("rust")));
}

#[test]
fn deserialize_utf16_be() {
    let buf = [0xfe_u8, 0xff, 0x95, 0x08, 0x00, 0x00];
    let mut de = Deserializer::new(&buf);
    assert_eq!(String::deserialize(&mut de), Ok(String::from("锈")));
}

#[test]
fn deserialize_utf16_le() {
    let buf = [0xff_u8, 0xfe, 0x08, 0x95, 0x00, 0x00];
    let mut de = Deserializer::new(&buf);
    assert_eq!(String::deserialize(&mut de), Ok(String::from("锈")));
}

#[test]
fn serialize_len() {
    let mut buffer = Vec::with_capacity(3);
    let vec = vec![0u8, 1u8];
    assert_eq!(vec.serialize_len(LengthField::U8, &mut buffer), Ok(3));
    assert_eq!(&buffer[..], &[2u8, 0u8, 1u8][..]);
}

#[test]
fn ser_serialize_vec() {
    let mut buffer = Vec::with_capacity(2);
    let vec = vec![1u8, 2u8];
    let size = vec.serialize(&mut buffer).expect("should serialize the vec");
    assert_eq!(size, 2);
    assert_eq!(&buffer[..], &[1u8, 2u8][..]);
}

#[test]
fn ser_serialize_fn() {
    let mut buffer = Vec::with_capacity(2);
    let fun = |buffer: &mut Vec<u8>| {
        1u8.serialize(buffer)?;
        2u8.serialize(buffer)?;
        Ok(2usize)
    };
    let size = fun.serialize(&mut buffer).expect("should serialize the function");
    assert_eq!(size, 2);
    assert_eq!(&buffer[..], &[1u8, 2u8][..]);
}

#[test]
fn ser_serialize_utf8() {
    let mut buffer = Vec::with_capacity(10);
    let size = "Hello!".serialize_utf8(&mut buffer, None).expect("should serialize the string");
    assert_eq!(size, 10);
    assert_eq!(
        &buffer[..],
        [
            0xef_u8, 0xbb, 0xbf, // UTF-8 Byte Order Mark
            0x48, 0x65, 0x6c, 0x6c, 0x6f, 0x21, // Hello!
            0x00, // Delimiter
        ]
    );
}

#[test]
fn ser_serialize_utf16_be() {
    let mut buffer = Vec::with_capacity(12);
    let size = "语言处理".serialize_utf16_be(&mut buffer, None).expect("should serialize the string");
    assert_eq!(size, 12);
    assert_eq!(
        &buffer[..],
        [
            0xfe_u8, 0xff, // UTF-16 Big Endian Byte Order Mark
            0x8b, 0xed, 0x8a, 0x00, 0x59, 0x04, 0x74, 0x06, // 语言处理
            0x00, 0x00, // Delimiter
        ]
    );
}

#[test]
fn ser_serialize_utf16_le() {
    let mut buffer = Vec::with_capacity(12);
    let size = "语言处理".serialize_utf16_le(&mut buffer, None).expect("should serialize the string");
    assert_eq!(size, 12);
    assert_eq!(
        &buffer[..],
        [
            0xff_u8, 0xfe, // UTF-16 Little Endian Byte Order Mark
            0xed, 0x8b, 0x00, 0x8a, 0x04, 0x59, 0x06, 0x74, // 语言处理
            0x00, 0x00, // Delimiter
        ]
    );
}

#[test]
fn tests_serialize_bool() {
    let mut buf = Vec::with_capacity(std::mem::size_of::<bool>());
    let res = true.serialize(&mut buf);
    assert_eq!(res, Ok(1));
    assert_eq!(buf, [1u8]);
}

#[test]
fn tests_serialize_vec() {
    let mut buf = Vec::with_capacity(10);
    let value = vec![0u8, 1, 2, 3, 4, 5, 6, 7, 8, 9];
    let res = value.serialize(&mut buf);
    assert_eq!(res, Ok(10));
    assert_eq!(&buf[..], &value[..]);
}

#[test]
fn tests_serialize_array() {
    let mut buf = Vec::with_capacity(10);
    let value = [0u8, 1, 2, 3, 4, 5, 6, 7, 8, 9];
    let res = value.serialize(&mut buf);
    assert_eq!(res, Ok(10));
    assert_eq!(&buf[..], &value[..]);
}

#[test]
fn tests_serialize_fn() {
    let mut buf = Vec::with_capacity(4);
    let value = |ser: &mut Vec<u8>| {
        1u8.serialize(ser)?;
        2u8.serialize(ser)?;
        3u8.serialize(ser)?;
        4u8.serialize(ser)
    };
    let res = value.serialize(&mut buf);
    assert_eq!(res, Ok(1));
    assert_eq!(buf, [1u8, 2, 3, 4]);
}

#[test]
fn tests_serialize_utf8() {
    let mut buf = Vec::with_capacity(10);
    let value = "Hello!";
    let res = value.serialize_utf8(&mut buf, None);
    assert_eq!(res, Ok(10));
    assert_eq!(
        buf,
        [
            0xef_u8, 0xbb, 0xbf, // UTF-8 Byte Order Mark
            0x48, 0x65, 0x6c, 0x6c, 0x6f, 0x21, // Hello!
            0x00, // Delimiter
        ]
    );
}

#[test]
fn tests_serialize_utf16_be() {
    let mut buf = Vec::with_capacity(12);
    let value = "语言处理";
    let res = value.serialize_utf16_be(&mut buf, None);
    assert_eq!(res, Ok(12));
    assert_eq!(
        buf,
        [
            0xfe_u8, 0xff, // UTF-16 Big Endian Byte Order Mark
            0x8b, 0xed, 0x8a, 0x00, 0x59, 0x04, 0x74, 0x06, // 语言处理
            0x00, 0x00, // Delimiter
        ]
    );
}

#[test]
fn tests_serialize_utf16_le() {
    let mut buf = Vec::with_capacity(12);
    let value = "语言处理";
    let res = value.serialize_utf16_le(&mut buf, None);
    assert_eq!(res, Ok(12));
    assert_eq!(
        buf,
        [
            0xff_u8, 0xfe, // UTF-16 Little Endian Byte Order Mark
            0xed, 0x8b, 0x00, 0x8a, 0x04, 0x59, 0x06, 0x74, // 语言处理
            0x00, 0x00, // Delimiter
        ]
    );
}

#[test]
fn codec_values_read_back() {
    let mut buffer = Vec::new();
    0x1234_u16.serialize(&mut buffer).expect("should serialize");
    (-5_i64).serialize(&mut buffer).expect("should serialize");
    false.serialize(&mut buffer).expect("should serialize");
    let mut de = Deserializer::new(&buffer);
    assert_eq!(u16::deserialize(&mut de), Ok(0x1234));
    assert_eq!(i64::deserialize(&mut de), Ok(-5));
    assert_eq!(bool::deserialize(&mut de), Ok(false));
    assert_eq!(de.cursor(), 11);
}

#[test]
fn codec_pop_restores_limit() {
    let buf = [0_u8; 4];
    let mut de = Deserializer::new(&buf);
    assert_eq!(de.push_limit(1), Ok(()));
    assert_eq!(de.read::<2>(), Err(Error::ExceedsLimit));
    assert_eq!(de.pop_limit(), Ok(()));
    assert_eq!(de.read::<2>(), Ok([0, 0]));
    assert_eq!(de.pop_limit(), Err(Error::Failure));
}
