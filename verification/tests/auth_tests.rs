use argon2::password_hash::rand_core::OsRng;
use argon2::password_hash::{PasswordHash, SaltString};
use argon2::{Argon2, PasswordHasher, PasswordVerifier};
use mir2::auth::{
    check_login, direction_from_i32, hash_password, may_create_character, valid_character_name, valid_new_account,
    verify_password, LoginCheck, LOGIN_WRONG_PASSWORD,
};
use mir2::enums::MirDirection;
use mir2::models::Account;

fn create_test_hash(password: &str) -> String {
    let salt = SaltString::generate(&mut OsRng);
    Argon2::default().hash_password(password.as_bytes(), &salt).unwrap().to_string()
}

#[test]
fn test_hash_password_produces_valid_hash() {
    let hash = hash_password("test_password123");
    assert!(hash.is_some(), "hash_password should return Some");
    let hash = hash.unwrap();
    assert!(!hash.is_empty(), "Hash should not be empty");
    assert!(hash.starts_with("$argon2"), "Hash should start with $argon2");
}

#[test]
fn test_hash_password_empty_string() {
    let hash = hash_password("");
    assert!(hash.is_some(), "Empty password should still hash");
}

#[test]
fn test_hash_password_long_string() {
    let long_pwd = "a".repeat(64);
    let hash = hash_password(&long_pwd);
    assert!(hash.is_some(), "64-char password should hash");
}

#[test]
fn test_argon2_verify_correct_password() {
    let hash = create_test_hash("my_password");
    let parsed = PasswordHash::new(&hash).unwrap();
    let result = Argon2::default().verify_password("my_password".as_bytes(), &parsed);
    assert!(result.is_ok(), "Correct password should verify");
    assert!(verify_password(&hash, "my_password"));
}

#[test]
fn test_argon2_verify_wrong_password() {
    let hash = create_test_hash("correct_password");
    let parsed = PasswordHash::new(&hash).unwrap();
    let result = Argon2::default().verify_password("wrong_password".as_bytes(), &parsed);
    assert!(result.is_err(), "Wrong password should not verify");
    assert!(!verify_password(&hash, "wrong_password"));
}

#[test]
fn test_argon2_different_salts_produce_different_hashes() {
    let hash1 = create_test_hash("same_password");
    let hash2 = create_test_hash("same_password");
    assert_ne!(hash1, hash2, "Same password should produce different hashes due to salt");
}

#[test]
fn test_hash_password_very_long() {
    let very_long = "x".repeat(128);
    let hash = hash_password(&very_long);
    assert!(hash.is_some(), "128-char password should still hash");
}

#[test]
fn test_argon2_verify_different_hash_formats() {
    let pwd = "verify_me_123!";
    let hash = hash_password(pwd).unwrap();
    let parsed = PasswordHash::new(&hash).unwrap();
    let result = Argon2::default().verify_password(pwd.as_bytes(), &parsed);
    assert!(result.is_ok(), "hash_password output should be verifiable");
}

#[test]
fn malformed_hash_never_verifies() {
    assert!(!verify_password("not a hash", "anything"));
}

fn account(password_hash: String, banned: i32) -> Account {
    Account {
        id: 42,
        username: "tester".to_string(),
        password: password_hash,
        email: String::new(),
        banned,
        ban_reason: String::new(),
        created_at: String::new(),
        updated_at: String::new(),
    }
}

#[test]
fn login_checks_ban_then_password() {
    let hash = hash_password("secret").unwrap();
    assert_eq!(check_login(&account(hash.clone(), 0), "secret"), LoginCheck::Success(42));
    assert_eq!(check_login(&account(hash.clone(), 0), "Secret"), LoginCheck::WrongPassword(LOGIN_WRONG_PASSWORD));
    assert_eq!(check_login(&account(hash, 1), "secret"), LoginCheck::Banned);
}

#[test]
fn new_account_length_limits() {
    assert!(valid_new_account("abc", "xyz"));
    assert!(!valid_new_account("ab", "xyz"));
    assert!(!valid_new_account("abc", "xy"));
    assert!(valid_new_account(&"u".repeat(20), &"p".repeat(64)));
    assert!(!valid_new_account(&"u".repeat(21), "pass"));
    assert!(!valid_new_account("user", &"p".repeat(65)));
}

#[test]
fn character_names() {
    assert!(valid_character_name("Hero1"));
    assert!(valid_character_name("战士"), "two CJK characters are six bytes");
    assert!(!valid_character_name("ab"), "too short");
    assert!(!valid_character_name("abcdefghijklmno"), "fifteen bytes is too long");
    assert!(!valid_character_name("bad name"), "no spaces");
    assert!(!valid_character_name("名字ー"), "U+30FC is outside the allowed range");
}

#[test]
fn at_most_four_characters() {
    assert!(may_create_character(3));
    assert!(!may_create_character(4));
}

#[test]
fn stored_directions() {
    assert_eq!(direction_from_i32(0), MirDirection::Up);
    assert_eq!(direction_from_i32(7), MirDirection::UpLeft);
    assert_eq!(direction_from_i32(8), MirDirection::Down);
    assert_eq!(direction_from_i32(-1), MirDirection::Down);
}
