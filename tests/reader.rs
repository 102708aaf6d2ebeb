use woff2_convert::error::Woff2Error;
use woff2_convert::reader::{read_255ushort, read_u16, read_u32, read_u8, read_uint_base128};

#[test]
fn fixed_width_reads() {
    let data = vec![0x12, 0x34, 0x56, 0x78, 0x9A];
    assert_eq!(read_u8(&data, 4), Ok((0x9A, 5)));
    assert_eq!(read_u8(&data, 5), Err(Woff2Error::TruncatedInput));
    assert_eq!(read_u16(&data, 1), Ok((0x3456, 3)));
    assert_eq!(read_u16(&data, 4), Err(Woff2Error::TruncatedInput));
    assert_eq!(read_u32(&data, 0), Ok((0x12345678, 4)));
    assert_eq!(read_u32(&data, 1), Ok((0x3456789A, 5)));
    assert_eq!(read_u32(&data, 2), Err(Woff2Error::TruncatedInput));
}

#[test]
fn base128_values() {
    assert_eq!(read_uint_base128(&vec![0x00], 0), Ok((0, 1)));
    assert_eq!(read_uint_base128(&vec![0x7F], 0), Ok((127, 1)));
    assert_eq!(read_uint_base128(&vec![0x81, 0x00], 0), Ok((128, 2)));
    assert_eq!(read_uint_base128(&vec![0x3F, 0x8F, 0xFF, 0xFF, 0xFF, 0x7F], 1), Ok((0xFFFF_FFFF, 6)));
}

#[test]
fn base128_errors() {
    // Leading zero byte.
    assert_eq!(read_uint_base128(&vec![0x80, 0x01], 0), Err(Woff2Error::MalformedDirectory));
    // Above 32 bits.
    assert_eq!(read_uint_base128(&vec![0x90, 0x80, 0x80, 0x80, 0x00], 0), Err(Woff2Error::MalformedDirectory));
    // More than five bytes.
    assert_eq!(read_uint_base128(&vec![0x81, 0x81, 0x81, 0x81, 0x81, 0x01], 0), Err(Woff2Error::MalformedDirectory));
    // Runs off the end.
    assert_eq!(read_uint_base128(&vec![0x81], 0), Err(Woff2Error::TruncatedInput));
    assert_eq!(read_uint_base128(&vec![], 0), Err(Woff2Error::TruncatedInput));
}

#[test]
fn ushort255_values() {
    assert_eq!(read_255ushort(&vec![252], 0), Ok((252, 1)));
    assert_eq!(read_255ushort(&vec![255, 0], 0), Ok((253, 2)));
    assert_eq!(read_255ushort(&vec![255, 2], 0), Ok((255, 2)));
    assert_eq!(read_255ushort(&vec![254, 0], 0), Ok((506, 2)));
    assert_eq!(read_255ushort(&vec![253, 0x12, 0x34], 0), Ok((0x1234, 3)));
}

#[test]
fn ushort255_truncated() {
    assert_eq!(read_255ushort(&vec![], 0), Err(Woff2Error::TruncatedInput));
    assert_eq!(read_255ushort(&vec![253, 0x12], 0), Err(Woff2Error::TruncatedInput));
    assert_eq!(read_255ushort(&vec![255], 0), Err(Woff2Error::TruncatedInput));
    assert_eq!(read_255ushort(&vec![254], 0), Err(Woff2Error::TruncatedInput));
}

#[test]
fn error_messages() {
    assert_eq!(Woff2Error::EmptyInput.message(), "empty WOFF2 data");
    assert_eq!(Woff2Error::DecompressionError.message(), "WOFF2 decode failed");
}
