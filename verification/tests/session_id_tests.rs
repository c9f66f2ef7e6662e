use ppslib::session_id::{
    is_valid_session_id, lower_hex, new_session_id_candidate, random_alphanumeric,
    session_id_from,
};

#[test]
fn lower_hex_renders_two_digits_per_byte() {
    assert_eq!(lower_hex(&[10, 20, 30]), "0a141e");
    assert_eq!(lower_hex(&[0x00, 0xff, 0xbe, 0xef]), "00ffbeef");
    assert_eq!(lower_hex(&[]), "");
}

#[test]
fn session_id_of_empty_input_is_sha256_of_nothing() {
    assert_eq!(
        session_id_from("", ""),
        "e3b0c44298fc1c149afbf4c8996fb92427ae41e4649b934ca495991b7852b855"
    );
}

#[test]
fn session_id_hashes_user_agent_then_random() {
    assert_eq!(
        session_id_from("Mozilla/5.0", "abc123"),
        "07714c67cf02269caf91e2e65b7d7ad10d3b21610d68498b627f161def8f7e86"
    );
    assert_eq!(
        session_id_from("Mozilla/5.0abc", "123"),
        "07714c67cf02269caf91e2e65b7d7ad10d3b21610d68498b627f161def8f7e86"
    );
}

#[test]
fn valid_session_ids() {
    let lower = "e3b0c44298fc1c149afbf4c8996fb92427ae41e4649b934ca495991b7852b855";
    assert!(is_valid_session_id(lower));
}

#[test]
fn upper_case_session_ids_are_refused() {
    let lower = "e3b0c44298fc1c149afbf4c8996fb92427ae41e4649b934ca495991b7852b855";
    assert!(!is_valid_session_id(&lower.to_uppercase()));
    let mut one_upper = "a".repeat(63);
    one_upper.push('F');
    assert!(!is_valid_session_id(&one_upper));
}

#[test]
fn invalid_session_ids() {
    assert!(!is_valid_session_id(""));
    assert!(!is_valid_session_id(&"a".repeat(63)));
    assert!(!is_valid_session_id(&"a".repeat(65)));
    let mut with_g = "a".repeat(63);
    with_g.push('g');
    assert!(!is_valid_session_id(&with_g));
    // 64 bytes, but 32 characters that are not ASCII
    assert!(!is_valid_session_id(&"é".repeat(32)));
}

#[test]
fn random_strings_are_alphanumeric() {
    let r = random_alphanumeric(256);
    assert_eq!(r.chars().count(), 256);
    assert!(r.chars().all(|c| c.is_ascii_alphanumeric()));
    assert_eq!(random_alphanumeric(0), "");
}

#[test]
fn generated_candidates_pass_the_check() {
    let a = new_session_id_candidate("Mozilla/5.0");
    let b = new_session_id_candidate("Mozilla/5.0");
    assert!(is_valid_session_id(&a));
    assert!(is_valid_session_id(&b));
    assert_eq!(a.len(), 64);
    assert_ne!(a, b);
}
