use supahost::ids::new_tenant_id;
use supahost::json::json_string;
use supahost::numbers::{i64_to_decimal, parse_i64};
use supahost::text::{
    contains_str, ends_with, replace_str, starts_with, str_eq, to_ascii_uppercase, to_chars,
    trim_end_str, trim_start_str,
};

fn parse(s: &str) -> Option<i64> {
    let v = to_chars(s);
    parse_i64(&v, 0, v.len())
}

#[test]
fn decimal_formatting() {
    assert_eq!(i64_to_decimal(0), "0");
    assert_eq!(i64_to_decimal(1_700_000_000), "1700000000");
    assert_eq!(i64_to_decimal(-42), "-42");
    assert_eq!(i64_to_decimal(i64::MIN), i64::MIN.to_string());
    assert_eq!(i64_to_decimal(i64::MAX), i64::MAX.to_string());
}

#[test]
fn decimal_parsing_matches_std() {
    for s in ["0", "+7", "-7", "123abc", "", "-", "+", "9223372036854775807", "9223372036854775808",
              "-9223372036854775808", "-9223372036854775809", "007", " 1", "1 "] {
        assert_eq!(parse(s), s.parse::<i64>().ok(), "input {:?}", s);
    }
    let v = to_chars("t=1700000000");
    assert_eq!(parse_i64(&v, 2, v.len()), Some(1_700_000_000));
}

#[test]
fn decimal_round_trip() {
    for n in [0i64, 1, -1, 42, 1_700_000_000, i64::MIN, i64::MAX] {
        assert_eq!(parse(&i64_to_decimal(n)), Some(n));
    }
}

#[test]
fn json_strings_escape_like_serde() {
    for s in ["anon", "service_role", "a\"b", "back\\slash", "line\nbreak", "tab\t", "\u{1}", "é", "\u{7f}"] {
        assert_eq!(json_string(s), serde_json::to_string(s).unwrap(), "input {:?}", s);
    }
}

#[test]
fn string_helpers() {
    assert!(starts_with("/v1/tenants/abc", "/v1/tenants/"));
    assert!(!starts_with("/v1", "/v1/tenants/"));
    assert!(ends_with("/x/reconcile", "/reconcile"));
    assert!(str_eq("a", "a"));
    assert!(!str_eq("a", "b"));
    assert_eq!(trim_start_str("ababc", "ab"), "c");
    assert_eq!(trim_end_str("abcbc", "bc"), "a");
    assert_eq!(trim_end_str("abc", ""), "abc");
    assert_eq!(replace_str("a:zb:z", ":z", ""), "ab");
    assert_eq!(replace_str("aaa", "aa", "b"), "ba");
    assert!(contains_str("hello realtime-dev", "realtime-dev"));
    assert!(!contains_str("hello", "realtime-dev"));
    assert_eq!(to_ascii_uppercase("starter-é"), "STARTER-é");
}

#[test]
fn fresh_tenant_ids_are_uuid_v4() {
    let id = new_tenant_id();
    assert_eq!(id.len(), 36);
    let parsed = uuid::Uuid::parse_str(&id).unwrap();
    assert_eq!(parsed.get_version_num(), 4);
    assert_eq!(id, id.to_lowercase());
    assert_ne!(new_tenant_id(), id);
}
