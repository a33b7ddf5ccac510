use auth_service::recovery::{
    find_recovery_code_match, format_recovery_code, generate_recovery_codes, hash_recovery_code,
    verify_recovery_code,
};
use std::collections::HashSet;

#[test]
fn generates_ten_unique_codes() {
    let codes = generate_recovery_codes();
    assert_eq!(codes.len(), 10);
    let uniq: HashSet<_> = codes.iter().collect();
    assert_eq!(uniq.len(), 10);
    assert!(codes.iter().all(|c| c.len() == 11 && c.contains('-')));
}

#[test]
fn hash_then_verify() {
    let code = "abcde-fghij".to_string();
    let hash = hash_recovery_code(&code).unwrap();
    assert_eq!(hash.len(), 60);
    assert!(verify_recovery_code(&hash, &code));
    assert!(!verify_recovery_code(&hash, "wrong-code0"));
}

#[test]
fn generated_codes_are_lowercase_base32_in_two_groups() {
    for code in generate_recovery_codes() {
        let chars: Vec<char> = code.chars().collect();
        assert_eq!(chars[5], '-');
        for (i, c) in chars.iter().enumerate() {
            if i != 5 {
                assert!(c.is_ascii_lowercase() || ('2'..='7').contains(c), "{code}");
            }
        }
    }
}

#[test]
fn format_lowercases_and_splits_the_first_ten_characters() {
    assert_eq!(format_recovery_code("ABCDE234567QRSTUVWXYZ"), "abcde-23456");
}

#[test]
fn match_finds_the_first_hash_of_the_code() {
    let a = hash_recovery_code("aaaaa-bbbbb").unwrap();
    let b = hash_recovery_code("ccccc-ddddd").unwrap();
    let hashes = vec![a, b];
    assert_eq!(find_recovery_code_match(&hashes, "ccccc-ddddd", 0), Some(1));
    assert_eq!(find_recovery_code_match(&hashes, "aaaaa-bbbbb", 0), Some(0));
    assert_eq!(find_recovery_code_match(&hashes, "aaaaa-bbbbb", 1), None);
    assert_eq!(find_recovery_code_match(&hashes, "zzzzz-zzzzz", 0), None);
}

#[test]
fn garbage_hash_never_verifies() {
    assert!(!verify_recovery_code("not-a-bcrypt-hash", "abcde-fghij"));
}
