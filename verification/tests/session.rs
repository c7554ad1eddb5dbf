use mae::session::Session;
use mae::text::{i32_to_decimal, parse_i32, u64_to_decimal};

fn entries(pairs: &[(&str, &str)]) -> Vec<(String, String)> {
    pairs.iter().map(|(k, v)| (k.to_string(), v.to_string())).collect()
}

#[test]
fn session_renders_its_user_id() {
    assert_eq!(Session { user_id: 42 }.to_string(), "42");
    assert_eq!(Session { user_id: -7 }.to_string(), "-7");
    assert_eq!(Session { user_id: i32::MIN }.to_string(), "-2147483648");
    assert_eq!(*Session { user_id: 5 }.deref(), 5);
}

#[test]
fn no_entries_no_session() {
    assert_eq!(Session::from_entries(&vec![]), None);
}

#[test]
fn user_id_entry_gives_session() {
    let e = entries(&[("other", "x"), ("user_id", "17")]);
    assert_eq!(Session::from_entries(&e), Some(Session { user_id: 17 }));
}

#[test]
fn missing_or_malformed_user_id() {
    assert_eq!(Session::from_entries(&entries(&[("other", "17")])), None);
    assert_eq!(Session::from_entries(&entries(&[("user_id", "{\"user_id\":1}")])), None);
    assert_eq!(Session::from_entries(&entries(&[("user_id", "99999999999")])), None);
}

#[test]
fn session_roundtrip_through_store() {
    for id in [0, 1, -1, 123456, i32::MAX, i32::MIN] {
        let s = Session { user_id: id };
        let e = vec![("user_id".to_string(), s.to_string())];
        assert_eq!(Session::from_entries(&e), Some(s));
    }
}

#[test]
fn parse_i32_cases() {
    assert_eq!(parse_i32("0"), Some(0));
    assert_eq!(parse_i32("+15"), Some(15));
    assert_eq!(parse_i32("-15"), Some(-15));
    assert_eq!(parse_i32("007"), Some(7));
    assert_eq!(parse_i32("2147483647"), Some(i32::MAX));
    assert_eq!(parse_i32("-2147483648"), Some(i32::MIN));
    assert_eq!(parse_i32("2147483648"), None);
    assert_eq!(parse_i32("-2147483649"), None);
    assert_eq!(parse_i32(""), None);
    assert_eq!(parse_i32("-"), None);
    assert_eq!(parse_i32("+"), None);
    assert_eq!(parse_i32("1a"), None);
    assert_eq!(parse_i32(" 1"), None);
    assert_eq!(parse_i32("١٢"), None);
    for s in ["12", "-0", "+7", "x", "99999999999", "-2147483648"] {
        assert_eq!(parse_i32(s), s.parse::<i32>().ok());
    }
}

#[test]
fn decimal_rendering() {
    assert_eq!(u64_to_decimal(0), "0");
    assert_eq!(u64_to_decimal(10), "10");
    assert_eq!(u64_to_decimal(u64::MAX), u64::MAX.to_string());
    assert_eq!(i32_to_decimal(-305), "-305");
    assert_eq!(i32_to_decimal(i32::MAX), "2147483647");
}
