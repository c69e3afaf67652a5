use barcode_gen::expiry::encode_expiry;

#[test]
fn expiry_day_month_year() {
    assert_eq!(encode_expiry("2024-06-07", "DDMMYYYY"), "07062024");
}

#[test]
fn expiry_zero_padded() {
    assert_eq!(encode_expiry("2024-06-07", "00DDMMYYYY"), "0007062024");
}

#[test]
fn expiry_unknown_mode_is_plain() {
    assert_eq!(encode_expiry("2024-06-07", "YYYYMMDD"), "07062024");
    assert_eq!(encode_expiry("2024-06-07", ""), "07062024");
}

#[test]
fn expiry_malformed_kept() {
    assert_eq!(encode_expiry("2024-06", "DDMMYYYY"), "2024-06");
    assert_eq!(encode_expiry("2024-06-07-01", "DDMMYYYY"), "2024-06-07-01");
    assert_eq!(encode_expiry("", "00DDMMYYYY"), "");
}

#[test]
fn expiry_three_parts_without_validation() {
    assert_eq!(encode_expiry("not-a-date", "DDMMYYYY"), "dateanot");
    assert_eq!(encode_expiry("2024-13-45", "DDMMYYYY"), "45132024");
    assert_eq!(encode_expiry("--", "00DDMMYYYY"), "00");
}
