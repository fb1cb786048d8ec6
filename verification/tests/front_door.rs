use argon2::password_hash::{Output, PasswordHash, PasswordVerifier, Salt};
use argon2::Argon2;
use argonia::error::VerifyError;
use argonia::{hash, verify};

#[test]
fn hash_and_verify() {
    let password = "argonia";
    let hashed = hash(password).expect("Failed to hash password");
    let is_valid = verify(&hashed, password).expect("Unable to verify password");
    assert!(is_valid);
}

#[test]
fn round_trip_of_an_empty_password() {
    let hashed = hash("").expect("Failed to hash password");
    assert_eq!(verify(&hashed, ""), Ok(true));
    assert_eq!(verify(&hashed, " "), Ok(false));
}

#[test]
fn round_trip_of_a_multi_byte_password() {
    let password = "pä$$wörd \u{1F512} 密码";
    let hashed = hash(password).expect("Failed to hash password");
    assert_eq!(verify(&hashed, password), Ok(true));
    assert_eq!(verify(&hashed, "pa$$word \u{1F512} 密码"), Ok(false));
}

#[test]
fn another_password_does_not_match() {
    let hashed = hash("argonia").expect("Failed to hash password");
    assert_eq!(verify(&hashed, "argonib"), Ok(false));
    assert_eq!(verify(&hashed, "Argonia"), Ok(false));
    assert_eq!(verify(&hashed, "argonia "), Ok(false));
}

#[test]
fn two_hashes_of_one_password_differ_and_both_verify() {
    let first = hash("argonia").expect("Failed to hash password");
    let second = hash("argonia").expect("Failed to hash password");
    assert_ne!(first, second);
    assert_eq!(verify(&first, "argonia"), Ok(true));
    assert_eq!(verify(&second, "argonia"), Ok(true));
    assert_eq!(verify(&first, "argonia"), Ok(true));
}

#[test]
fn a_string_that_is_no_hash_is_an_error() {
    assert_eq!(
        verify("not-a-valid-hash", "anything"),
        Err(VerifyError::MalformedHash)
    );
    assert_eq!(verify("", "anything"), Err(VerifyError::MalformedHash));
}

#[test]
fn hash_has_the_documented_fields() {
    let hashed = hash("argonia").expect("Failed to hash password");
    let fields: Vec<&str> = hashed.split('$').collect();
    assert_eq!(fields.len(), 6);
    assert_eq!(fields[0], "");
    assert_eq!(fields[1], "argon2id");
    assert_eq!(fields[2], "v=19");
    assert_eq!(fields[3], "m=19456,t=2,p=1");
    assert_eq!(fields[4].len(), 22);
    assert_eq!(fields[5].len(), 43);
    let alphabet = |c: char| c.is_ascii_alphanumeric() || c == '+' || c == '/';
    assert!(fields[4].chars().all(alphabet));
    assert!(fields[5].chars().all(alphabet));
}

#[test]
fn derived_key_of_a_hash_is_32_bytes() {
    let hashed = hash("argonia").expect("Failed to hash password");
    let key = hashed.rsplit('$').next().unwrap();
    let decoded = Output::b64_decode(key).unwrap();
    assert_eq!(decoded.len(), 32);
}

#[test]
fn salt_of_a_hash_is_16_bytes() {
    let hashed = hash("argonia").expect("Failed to hash password");
    let fields: Vec<&str> = hashed.split('$').collect();
    let mut buffer = [0u8; 64];
    let salt = Salt::from_b64(fields[4])
        .unwrap()
        .decode_b64(&mut buffer)
        .unwrap();
    assert_eq!(salt.len(), 16);
}

#[test]
fn hash_is_accepted_by_the_argon2_crate() {
    let hashed = hash("argonia").expect("Failed to hash password");
    let parsed = PasswordHash::new(&hashed).unwrap();
    assert!(Argon2::default()
        .verify_password(b"argonia", &parsed)
        .is_ok());
    assert!(Argon2::default()
        .verify_password(b"argonib", &parsed)
        .is_err());
}
