use barcode_gen::field::{parse_byte_field, parse_byte_text, FieldError};

#[test]
fn byte_field_values() {
    assert_eq!(parse_byte_field("42"), Ok(42));
    assert_eq!(parse_byte_field("  7 \t"), Ok(7));
    assert_eq!(parse_byte_field("+255"), Ok(255));
    assert_eq!(parse_byte_field("0"), Ok(0));
    assert_eq!(parse_byte_field("007"), Ok(7));
}

#[test]
fn byte_field_out_of_range() {
    assert_eq!(parse_byte_field("256"), Err(FieldError::OutOfRange));
    assert_eq!(parse_byte_field("4294967295"), Err(FieldError::OutOfRange));
}

#[test]
fn byte_field_malformed() {
    assert_eq!(parse_byte_field(""), Err(FieldError::Malformed));
    assert_eq!(parse_byte_field("   "), Err(FieldError::Malformed));
    assert_eq!(parse_byte_field("+"), Err(FieldError::Malformed));
    assert_eq!(parse_byte_field("-1"), Err(FieldError::Malformed));
    assert_eq!(parse_byte_field("12a"), Err(FieldError::Malformed));
    assert_eq!(parse_byte_field("4294967296"), Err(FieldError::Malformed));
    assert_eq!(parse_byte_field("99999999999x"), Err(FieldError::Malformed));
}

#[test]
fn byte_text_does_not_trim() {
    assert_eq!(parse_byte_text(" 7"), Err(FieldError::Malformed));
    assert_eq!(parse_byte_text("7"), Ok(7));
}

#[test]
fn byte_field_trims_unicode_whitespace() {
    assert_eq!(parse_byte_field(" 12 "), Ok(12));
    assert_eq!(parse_byte_field("\u{3000}12\u{a0}\n"), Ok(12));
    assert_eq!(parse_byte_field("1 2"), Err(FieldError::Malformed));
}
