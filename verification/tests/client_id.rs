use rpc_gui::client_id::{is_valid_client_id, parse_u64};

#[test]
fn accepts_the_built_in_id() {
    assert!(is_valid_client_id("731140044970262590"));
}

#[test]
fn rejects_ids_of_other_lengths() {
    assert!(!is_valid_client_id("73114004497026259"));
    assert!(!is_valid_client_id("7311400449702625901"));
    assert!(!is_valid_client_id(""));
}

#[test]
fn accepts_a_leading_plus_sign() {
    assert!(is_valid_client_id("+31140044970262590"));
    assert!(!is_valid_client_id("-31140044970262590"));
}

#[test]
fn rejects_non_digits() {
    assert!(!is_valid_client_id("73114004497026259a"));
    assert!(!is_valid_client_id(" 31140044970262590"));
    // 18 bytes, but not 18 digits
    assert!(!is_valid_client_id("é3114004497026259"));
}

#[test]
fn parses_like_the_standard_library() {
    for text in [
        "0", "007", "+12", "+", "", "-1", "1 ", "18446744073709551615", "18446744073709551616",
        "99999999999999999999", "12a", "+0",
    ] {
        assert_eq!(parse_u64(text.as_bytes()), text.parse::<u64>().ok(), "{}", text);
    }
}

#[test]
fn parse_values() {
    assert_eq!(parse_u64(b"42"), Some(42));
    assert_eq!(parse_u64(b"+42"), Some(42));
    assert_eq!(parse_u64(b"18446744073709551615"), Some(u64::MAX));
    assert_eq!(parse_u64(b"18446744073709551616"), None);
    assert_eq!(parse_u64(b"++1"), None);
}
