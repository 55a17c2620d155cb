use colophon::infra::password::{hash_password, verify_password, PasswordError};

#[test]
fn security_fix_h4_argon2_uses_stronger_params() {
    let hash = hash_password("test_password").unwrap();
    assert!(hash.contains("m=19456"), "hash should contain m=19456, got: {}", hash);
}

#[test]
fn hash_is_an_argon2id_phc_string() {
    let hash = hash_password("test_password").unwrap();
    assert!(hash.starts_with("$argon2id$v=19$m=19456,t=2,p=1$"));
}

#[test]
fn password_verifies_against_its_hash() {
    let hash = hash_password("correct horse").unwrap();
    assert_eq!(verify_password("correct horse", &hash), Ok(true));
    assert_eq!(verify_password("wrong horse", &hash), Ok(false));
}

#[test]
fn same_password_hashes_differently() {
    let a = hash_password("pw123456").unwrap();
    let b = hash_password("pw123456").unwrap();
    assert_ne!(a, b);
}

#[test]
fn invalid_stored_hash_is_an_error() {
    assert_eq!(verify_password("pw", "not a hash"), Err(PasswordError::InvalidHash));
}

#[test]
fn hashing_an_empty_or_long_password_succeeds() {
    assert!(hash_password("").is_ok());
    let long = "x".repeat(4096);
    let hash = hash_password(&long).unwrap();
    assert_eq!(verify_password(&long, &hash), Ok(true));
}

#[test]
fn hash_with_uncheckable_parallelism_is_invalid() {
    let hash = hash_password("pw123456").unwrap();
    let overflowing = hash.replacen("p=1$", "p=536870912$", 1);
    assert_eq!(verify_password("pw123456", &overflowing), Err(PasswordError::InvalidHash));
    let too_many = hash.replacen("p=1$", "p=16777216$", 1);
    assert_eq!(verify_password("pw123456", &too_many), Ok(false));
    let huge = hash.replacen("p=1$", "p=4294967296$", 1);
    assert_eq!(verify_password("pw123456", &huge), Ok(false));
}
