use cotton::cursor::ByteCursor;
use cotton::error::ProtocolError;
use cotton::readable::Readable;
use cotton::varint::VarInt;

#[test]
fn cursor_reads_bytes_and_slices() {
    let bytes = [1u8, 2, 3, 4, 5];
    let mut cursor = ByteCursor::new(&bytes);
    assert_eq!(cursor.position(), 0);
    assert_eq!(cursor.remaining_len(), 5);
    assert!(!cursor.is_exhausted());
    assert_eq!(cursor.read_u8(), Ok(1));
    assert_eq!(cursor.read_exact(3), Ok(&bytes[1..4]));
    assert_eq!(cursor.position(), 4);
    assert_eq!(cursor.read_exact(2), Err(ProtocolError::UnexpectedEof));
    assert_eq!(cursor.position(), 4);
    assert_eq!(cursor.read_exact(0), Ok(&bytes[4..4]));
    assert_eq!(cursor.read_u8(), Ok(5));
    assert!(cursor.is_exhausted());
    assert_eq!(cursor.read_u8(), Err(ProtocolError::UnexpectedEof));
    assert_eq!(cursor.remaining_len(), 0);
}

#[test]
fn unsigned_integers_are_big_endian() {
    let bytes = [
        0x12, 0x34, 0xde, 0xad, 0xbe, 0xef, 0x01, 0x23, 0x45, 0x67, 0x89, 0xab, 0xcd, 0xef,
    ];
    let mut cursor = ByteCursor::new(&bytes);
    assert_eq!(u16::read(&mut cursor), Ok(0x1234));
    assert_eq!(cursor.position(), 2);
    assert_eq!(u32::read(&mut cursor), Ok(0xdead_beef));
    assert_eq!(cursor.position(), 6);
    assert_eq!(u64::read(&mut cursor), Ok(0x0123_4567_89ab_cdef));
    assert_eq!(cursor.position(), 14);
}

#[test]
fn signed_integers_are_twos_complement() {
    let bytes = [
        0xff, 0xfe, 0x80, 0x00, 0x00, 0x00, 0xff, 0xff, 0xff, 0xff, 0xff, 0xff, 0xff, 0xfd, 0x7f,
        0xff,
    ];
    let mut cursor = ByteCursor::new(&bytes);
    assert_eq!(i16::read(&mut cursor), Ok(-2));
    assert_eq!(i32::read(&mut cursor), Ok(i32::MIN));
    assert_eq!(i64::read(&mut cursor), Ok(-3));
    assert_eq!(i16::read(&mut cursor), Ok(i16::MAX));
    assert!(cursor.is_exhausted());
}

#[test]
fn port_25565_reads_as_u16() {
    let bytes = [0x63, 0xdd];
    let mut cursor = ByteCursor::new(&bytes);
    assert_eq!(u16::read(&mut cursor), Ok(25565));
}

#[test]
fn short_input_is_unexpected_eof_and_moves_nothing() {
    let bytes = [0x01, 0x02, 0x03];
    let mut cursor = ByteCursor::new(&bytes);
    assert_eq!(u32::read(&mut cursor), Err(ProtocolError::UnexpectedEof));
    assert_eq!(i32::read(&mut cursor), Err(ProtocolError::UnexpectedEof));
    assert_eq!(u64::read(&mut cursor), Err(ProtocolError::UnexpectedEof));
    assert_eq!(i64::read(&mut cursor), Err(ProtocolError::UnexpectedEof));
    assert_eq!(cursor.position(), 0);
    assert_eq!(u16::read(&mut cursor), Ok(0x0102));
    assert_eq!(u16::read(&mut cursor), Err(ProtocolError::UnexpectedEof));
    assert_eq!(i16::read(&mut cursor), Err(ProtocolError::UnexpectedEof));
    assert_eq!(cursor.position(), 2);
}

#[test]
fn float_bits_come_through_the_integer_readers() {
    let bytes = [0x3f, 0x80, 0x00, 0x00, 0xc0, 0x04, 0x00, 0x00, 0x00, 0x00, 0x00, 0x00];
    let mut cursor = ByteCursor::new(&bytes);
    let single = u32::read(&mut cursor).unwrap();
    let double = u64::read(&mut cursor).unwrap();
    assert_eq!(f32::from_bits(single), 1.0f32);
    assert_eq!(f64::from_bits(double), -2.5f64);
}

#[test]
fn varint_through_the_trait() {
    let bytes = [0xac, 0x02];
    let mut cursor = ByteCursor::new(&bytes);
    assert_eq!(<VarInt as Readable>::read(&mut cursor), Ok(VarInt(300)));
    assert_eq!(cursor.position(), 2);
}

#[test]
fn string_hello() {
    let bytes = [0x05, b'h', b'e', b'l', b'l', b'o'];
    let mut cursor = ByteCursor::new(&bytes);
    assert_eq!(String::read(&mut cursor), Ok(String::from("hello")));
    assert_eq!(cursor.position(), 6);
}

#[test]
fn string_shorter_than_declared_is_unexpected_eof() {
    let bytes = [0x05, b'h', b'e', b'l'];
    let mut cursor = ByteCursor::new(&bytes);
    assert_eq!(String::read(&mut cursor), Err(ProtocolError::UnexpectedEof));
    assert_eq!(cursor.position(), 0);
    let only_length = [0x03];
    let mut cursor = ByteCursor::new(&only_length);
    assert_eq!(String::read(&mut cursor), Err(ProtocolError::UnexpectedEof));
}

#[test]
fn string_empty_and_trailing() {
    let bytes = [0x00, 0x41];
    let mut cursor = ByteCursor::new(&bytes);
    assert_eq!(String::read(&mut cursor), Ok(String::new()));
    assert_eq!(cursor.position(), 1);
}

#[test]
fn string_length_counts_bytes_not_characters() {
    // "héllo": the second character takes two bytes.
    let bytes = [0x06, b'h', 0xc3, 0xa9, b'l', b'l', b'o', 0x7f];
    let mut cursor = ByteCursor::new(&bytes);
    assert_eq!(String::read(&mut cursor), Ok(String::from("h\u{e9}llo")));
    assert_eq!(cursor.position(), 7);
}

#[test]
fn string_invalid_utf8_is_invalid_encoding() {
    let bytes = [0x02, 0xc3, 0x28];
    let mut cursor = ByteCursor::new(&bytes);
    assert_eq!(String::read(&mut cursor), Err(ProtocolError::InvalidEncoding));
    assert_eq!(cursor.position(), 0);
    let cut = [0x01, 0xc3, 0xa9];
    let mut cursor = ByteCursor::new(&cut);
    assert_eq!(String::read(&mut cursor), Err(ProtocolError::InvalidEncoding));
}

#[test]
fn string_without_length_fails_as_the_varint_does() {
    let mut cursor = ByteCursor::new(&[]);
    assert_eq!(String::read(&mut cursor), Err(ProtocolError::UnexpectedEof));
    let overlong = [0x80, 0x80, 0x80, 0x80, 0x80, 0x80, 0x00];
    let mut cursor = ByteCursor::new(&overlong);
    assert_eq!(String::read(&mut cursor), Err(ProtocolError::MalformedVarInt));
}

#[test]
fn string_negative_length_is_invalid_length() {
    let bytes = [0xff, 0xff, 0xff, 0xff, 0x0f, b'a'];
    let mut cursor = ByteCursor::new(&bytes);
    assert_eq!(
        String::read(&mut cursor),
        Err(ProtocolError::InvalidLength { declared: -1 })
    );
    assert_eq!(cursor.position(), 0);
}

#[test]
fn string_length_above_the_maximum_is_invalid_length() {
    let mut bytes = VarInt(32768).encode();
    bytes.resize(bytes.len() + 32768, b'a');
    let mut cursor = ByteCursor::new(&bytes);
    assert_eq!(
        String::read(&mut cursor),
        Err(ProtocolError::InvalidLength { declared: 32768 })
    );
}

#[test]
fn string_of_the_maximum_length_is_read() {
    let mut bytes = VarInt(32767).encode();
    let prefix = bytes.len();
    bytes.resize(prefix + 32767, b'z');
    let mut cursor = ByteCursor::new(&bytes);
    let text = String::read(&mut cursor).unwrap();
    assert_eq!(text.len(), 32767);
    assert!(text.bytes().all(|b| b == b'z'));
    assert_eq!(cursor.position(), prefix + 32767);
}
