use token_info::errors::AppError;
use token_info::metadata::{parse_symbol, parse_uri};

fn account(len: usize, symbol: &[u8; 10], uri_at: usize, uri: &str) -> Vec<u8> {
    let mut data = vec![0u8; len];
    data[96..106].copy_from_slice(symbol);
    data[uri_at..uri_at + uri.len()].copy_from_slice(uri.as_bytes());
    data
}

#[test]
fn short_account_is_a_parse_error() {
    for len in [0usize, 1, 95, 96, 105, 106, 200, 305] {
        let data = vec![b'a'; len];
        assert!(matches!(parse_uri(&data), Err(AppError::ParseError(_))));
        assert!(matches!(parse_symbol(&data), Err(AppError::ParseError(_))));
    }
}

#[test]
fn uri_is_read_behind_a_full_symbol() {
    let data = account(306, b"ABCDEFGHIJ", 106, "https://example.com/meta.json");
    assert_eq!(parse_uri(&data).unwrap(), "https://example.com/meta.json");
    assert_eq!(parse_symbol(&data).unwrap(), "ABCDEFGHIJ");
}

#[test]
fn null_in_symbol_moves_the_uri_by_one() {
    let mut data = account(320, b"ABCDEFGHIJ", 106, "https://example.com/meta.json");
    data[100] = 0;
    assert_eq!(parse_uri(&data).unwrap(), "ttps://example.com/meta.json");
    let mut shifted = account(320, b"ABCDEFGHIJ", 107, "https://example.com/meta.json");
    shifted[100] = 0;
    assert_eq!(parse_uri(&shifted).unwrap(), "https://example.com/meta.json");
}

#[test]
fn padded_symbol_moves_the_uri_by_its_nulls() {
    let data = account(400, b"SOL\0\0\0\0\0\0\0", 113, "https://example.com/sol.json");
    assert_eq!(parse_uri(&data).unwrap(), "https://example.com/sol.json");
    assert_eq!(parse_symbol(&data).unwrap(), "SOL");
}

#[test]
fn account_too_short_for_the_moved_uri_is_a_parse_error() {
    let mut data = account(306, b"ABCDEFGHIJ", 106, "https://example.com/meta.json");
    data[100] = 0;
    assert!(matches!(parse_uri(&data), Err(AppError::ParseError(_))));
    data.push(0);
    assert_eq!(parse_uri(&data).unwrap(), "ttps://example.com/meta.json");
}

#[test]
fn parse_error_reads_as_such() {
    let error = parse_uri(&[]).unwrap_err();
    assert_eq!(error.message(), "Parse error - metadata account is too short");
}

#[test]
fn invalid_utf8_is_replaced() {
    let mut data = account(306, b"ABCDEFGHIJ", 106, "ab");
    data[108] = 0xff;
    data[109] = b'c';
    assert_eq!(parse_uri(&data).unwrap(), "ab\u{fffd}c");
}

#[test]
fn only_trailing_nulls_are_trimmed() {
    let mut data = account(306, b"ABCDEFGHIJ", 106, "ab");
    data[110] = b'c';
    assert_eq!(parse_uri(&data).unwrap(), "ab\0\0c");
    let empty = account(306, b"ABCDEFGHIJ", 106, "");
    assert_eq!(parse_uri(&empty).unwrap(), "");
}
