use foster_server::ids::{
    foster_command_id, login_command_id, new_record_no, random_thread_token, random_token,
    sha256_hex, FOSTER_COMMAND_NAMESPACE, LOGIN_COMMAND_NAMESPACE,
};
use foster_server::number::{parse_i64, parse_u64};
use foster_server::text::{
    chars_eq_str, contains_str, has_text, is_whitespace, lower_key_of, str_eq, strip_prefix,
    string_of_chars, to_ascii_lower, to_ascii_upper, trim, upper_key_of,
};
use foster_server::time::{
    add_ms, decimal_i64, decimal_u64, format_hh_mm, shanghai_day_window, MAX_INSTANT_MS, MS_PER_HOUR,
};

#[test]
fn trims_unicode_whitespace() {
    assert_eq!(trim("  a b \t\n"), "a b");
    assert_eq!(trim("\u{3000}x\u{A0}"), "x");
    assert_eq!(trim("   "), "");
    assert!(has_text(" x "));
    assert!(!has_text(" \t "));
    assert!(is_whitespace('\u{2028}'));
    assert!(!is_whitespace('x'));
}

#[test]
fn trimming_twice_is_trimming_once() {
    for s in ["  a ", "a", "", " \n ", "\u{3000}b c\u{3000}"] {
        assert_eq!(trim(trim(s)), trim(s));
    }
}

#[test]
fn keys_ignore_case_and_padding() {
    let upper = string_of_chars(&upper_key_of("  Taiko_Jade "));
    assert_eq!(upper, "TAIKO_JADE");
    let lower = string_of_chars(&lower_key_of(" APPLE "));
    assert_eq!(lower, "apple");
    assert_eq!(string_of_chars(&to_ascii_upper("aé1z")), "Aé1Z");
    assert_eq!(string_of_chars(&to_ascii_lower("AÉ1Z")), "aÉ1z");
    assert_eq!(upper_key_of("fish"), upper_key_of("  FISH"));
    assert!(chars_eq_str(&upper_key_of(" ok "), "OK"));
}

#[test]
fn string_helpers() {
    assert!(str_eq("abc", "abc"));
    assert!(!str_eq("abc", "abd"));
    assert!(contains_str("duplicate entry for key", "entry"));
    assert!(!contains_str("abc", "abd"));
    assert_eq!(strip_prefix("Bearer tok", "Bearer "), Some("tok"));
    assert_eq!(strip_prefix("Basic tok", "Bearer "), None);
}

#[test]
fn parses_signed_and_unsigned_decimals() {
    assert_eq!(parse_i64("42"), Some(42));
    assert_eq!(parse_i64("+7"), Some(7));
    assert_eq!(parse_i64("-0"), Some(0));
    assert_eq!(parse_i64("-9223372036854775808"), Some(i64::MIN));
    assert_eq!(parse_i64("9223372036854775807"), Some(i64::MAX));
    assert_eq!(parse_i64("9223372036854775808"), None);
    assert_eq!(parse_i64(""), None);
    assert_eq!(parse_i64("-"), None);
    assert_eq!(parse_i64(" 1"), None);
    assert_eq!(parse_i64("1a"), None);
    assert_eq!(parse_u64("18446744073709551615"), Some(u64::MAX));
    assert_eq!(parse_u64("18446744073709551616"), None);
    assert_eq!(parse_u64("-1"), None);
    assert_eq!(parse_u64("+15"), Some(15));
}

#[test]
fn decimal_forms_parse_back() {
    for n in [0i64, 7, -7, 10, 1234567890, i64::MIN, i64::MAX] {
        assert_eq!(decimal_i64(n), n.to_string());
        assert_eq!(parse_i64(&decimal_i64(n)), Some(n));
    }
    for n in [0u64, 9, 10, u64::MAX] {
        assert_eq!(decimal_u64(n), n.to_string());
        assert_eq!(parse_u64(&decimal_u64(n)), Some(n));
    }
}

#[test]
fn formats_times_of_day() {
    assert_eq!(format_hh_mm(0), "00:00");
    assert_eq!(format_hh_mm(3661), "01:01");
    assert_eq!(format_hh_mm(86_399), "23:59");
}

#[test]
fn adds_milliseconds() {
    assert_eq!(add_ms(1_000, -250), 750);
}

#[test]
fn shanghai_day_of_the_epoch() {
    // 1970-01-01T00:00Z is 08:00 in Shanghai.
    assert_eq!(shanghai_day_window(0), Some((-28_800_000, 57_600_000)));
    // 2024-03-01T15:59:59.999Z is the last millisecond of 2024-03-01 there.
    assert_eq!(
        shanghai_day_window(1_709_308_799_999),
        Some((1_709_222_400_000, 1_709_308_800_000))
    );
}

#[test]
fn sha256_hex_of_known_values() {
    assert_eq!(
        sha256_hex("abc"),
        "ba7816bf8f01cfea414140de5dae2223b00361a396177a9cb410ff61f20015ad"
    );
    assert_eq!(
        sha256_hex(""),
        "e3b0c44298fc1c149afbf4c8996fb92427ae41e4649b934ca495991b7852b855"
    );
}

#[test]
fn random_tokens_are_url_safe_and_fresh() {
    let a = random_token();
    let b = random_token();
    assert_eq!(a.len(), 43);
    assert_ne!(a, b);
    assert!(a.chars().all(|c| c.is_ascii_alphanumeric() || c == '-' || c == '_'));
    let c = random_thread_token();
    assert_eq!(c.len(), 43);
    assert_ne!(c, random_thread_token());
}

#[test]
fn command_ids_are_name_based() {
    let expected = uuid::Uuid::new_v5(&uuid::Uuid::from_u128(FOSTER_COMMAND_NAMESPACE), b"foster:42:1");
    assert_eq!(foster_command_id(42, 1), expected.as_u128());
    assert_eq!(foster_command_id(42, 1), foster_command_id(42, 1));
    assert_ne!(foster_command_id(42, 1), foster_command_id(42, 2));
    assert_ne!(foster_command_id(4, 21), foster_command_id(42, 1));
    let negative = uuid::Uuid::new_v5(&uuid::Uuid::from_u128(FOSTER_COMMAND_NAMESPACE), b"foster:-3:0");
    assert_eq!(foster_command_id(-3, 0), negative.as_u128());
    let login = uuid::Uuid::new_v5(&uuid::Uuid::from_u128(LOGIN_COMMAND_NAMESPACE), b"login:LOGIN-7");
    assert_eq!(login_command_id("LOGIN-7"), login.as_u128());
    assert_eq!(uuid::Uuid::from_u128(login_command_id("x")).get_version_num(), 5);
}

#[test]
fn record_numbers_carry_a_random_uuid() {
    let a = new_record_no("JOB");
    let b = new_record_no("JOB");
    assert_ne!(a, b);
    assert!(a.starts_with("JOB-"));
    assert_eq!(a.len(), 4 + 36);
    let id = uuid::Uuid::parse_str(&a[4..]).unwrap();
    assert_eq!(id.get_version_num(), 4);
}

#[test]
fn shanghai_day_at_the_end_of_the_range() {
    // Eight hours before the last instant is the last local millisecond of
    // the last date: the next midnight does not exist.
    assert_eq!(shanghai_day_window(MAX_INSTANT_MS - 8 * MS_PER_HOUR), None);
}
