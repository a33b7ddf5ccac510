use auth_service::claims::{subject_user_id, user_subject};
use auth_service::decimal::{i64_to_decimal, parse_i64};

#[test]
fn subjects_name_users() {
    assert_eq!(user_subject(42), "user-42");
    assert_eq!(user_subject(-7), "user--7");
    assert_eq!(user_subject(0), "user-0");
    for id in [0, 1, -1, 42, i64::MAX, i64::MIN, 1_000_000_007] {
        assert_eq!(subject_user_id(&user_subject(id)), Some(id));
    }
}

#[test]
fn subject_parsing_follows_str_parse() {
    assert_eq!(subject_user_id("user-+5"), Some(5));
    assert_eq!(subject_user_id("user-007"), Some(7));
    assert_eq!(subject_user_id("user-"), None);
    assert_eq!(subject_user_id("user-1a"), None);
    assert_eq!(subject_user_id("User-1"), None);
    assert_eq!(subject_user_id("user- 1"), None);
}

#[test]
fn decimal_matches_std() {
    for n in [0i64, 9, 10, -10, 123_456_789, i64::MAX, i64::MIN] {
        assert_eq!(i64_to_decimal(n), n.to_string());
        assert_eq!(parse_i64(&n.to_string()), Some(n));
    }
    assert_eq!(parse_i64("9223372036854775808"), None);
    assert_eq!(parse_i64("-9223372036854775809"), None);
    assert_eq!(parse_i64("-"), None);
    assert_eq!(parse_i64("+"), None);
    assert_eq!(parse_i64(""), None);
    assert_eq!(parse_i64("-0"), Some(0));
}
