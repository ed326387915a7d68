use pixiv_exporter::decimal::{bool_to_string, signed_to_string, unsigned_to_string};

#[test]
fn unsigned_decimal_matches_to_string() {
    for n in [0u128, 7, 9, 10, 11, 99, 100, 12345678, u64::MAX as u128, u128::MAX] {
        assert_eq!(unsigned_to_string(n), n.to_string());
    }
}

#[test]
fn signed_decimal_matches_to_string() {
    for n in [0i128, 1, -1, -10, 42, -987654321, i64::MIN as i128, i64::MAX as i128, i128::MIN + 1, i128::MIN] {
        assert_eq!(signed_to_string(n), n.to_string());
    }
}

#[test]
fn bool_text_matches_to_string() {
    assert_eq!(bool_to_string(true), "true");
    assert_eq!(bool_to_string(false), "false");
}
