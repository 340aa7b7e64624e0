use xcrust::format::{DecodingError, FormatType, decode_type};
use xcrust::hi;

#[test]
fn it_works() {
    assert_eq!(hi(3), 4);
}

#[test]
fn decode_type_int() {
    assert_eq!(decode_type(3), Ok(FormatType::IntT));
    assert_eq!(decode_type(-2), Err(DecodingError::UnknownFormatType { code: -2 }));
    assert_eq!(decode_type(1), Ok(FormatType::CharT));
    assert_eq!(decode_type(9), Err(DecodingError::UnknownFormatType { code: 9 }));
}

#[test]
fn decode_type_covers_every_code() {
    for code in -1..=8 {
        let f = decode_type(code).unwrap();
        assert_eq!(f.code(), code);
    }
    assert_eq!(decode_type(-1), Ok(FormatType::UnknownT));
    assert_eq!(decode_type(0), Ok(FormatType::InvalidT));
    assert_eq!(decode_type(8), Ok(FormatType::ULongT));
    assert_eq!(decode_type(i32::MIN), Err(DecodingError::UnknownFormatType { code: i32::MIN }));
}
