use colophon::infra::token::{claims_for, generate_refresh_token, hash_token, hex_encode, issue_claims, Role};

#[test]
fn generate_refresh_token_is_64_hex_chars() {
    let token = generate_refresh_token();
    assert_eq!(token.len(), 64);
    assert!(token.chars().all(|c| c.is_ascii_hexdigit()));
}

#[test]
fn generate_refresh_token_is_unique() {
    let t1 = generate_refresh_token();
    let t2 = generate_refresh_token();
    assert_ne!(t1, t2);
}

#[test]
fn hash_token_is_deterministic() {
    let h1 = hash_token("my_token");
    let h2 = hash_token("my_token");
    assert_eq!(h1, h2);
}

#[test]
fn hash_token_produces_64_hex_chars() {
    let h = hash_token("some_token");
    assert_eq!(h.len(), 64);
    assert!(h.chars().all(|c| c.is_ascii_hexdigit()));
}

#[test]
fn hash_token_different_inputs_differ() {
    let h1 = hash_token("token_a");
    let h2 = hash_token("token_b");
    assert_ne!(h1, h2);
}

#[test]
fn hash_token_is_sha256_hex_of_known_inputs() {
    assert_eq!(hash_token(""), "e3b0c44298fc1c149afbf4c8996fb92427ae41e4649b934ca495991b7852b855");
    assert_eq!(hash_token("abc"), "ba7816bf8f01cfea414140de5dae2223b00361a396177a9cb410ff61f20015ad");
}

#[test]
fn hex_encode_is_lower_case_high_nibble_first() {
    assert_eq!(hex_encode(&[0x00, 0x0f, 0xa5, 0xff]), "000fa5ff");
    assert_eq!(hex_encode(&[]), "");
}

#[test]
fn claims_carry_issuer_and_expiry() {
    let c = claims_for(1_000, 3_600, "user-1".to_string(), "alice".to_string(), Role::Admin, 1);
    assert_eq!(c.exp, 4_600);
    assert_eq!(c.iss.as_deref(), Some("colophon"));
    assert_eq!(c.sub, "user-1");
    assert_eq!(c.username, "alice");
    assert_eq!(c.role, Role::Admin);
    assert_eq!(c.token_version, 1);
}

#[test]
fn issued_claims_expire_after_lifetime() {
    let c = issue_claims(7_200, "u1".to_string(), "bob".to_string(), Role::Member, 3).unwrap();
    assert!(c.exp > 7_200);
    assert_eq!(c.role, Role::Member);
    assert!(issue_claims(u64::MAX, "u".to_string(), "n".to_string(), Role::Member, 0).is_none());
}

#[test]
fn role_text_round_trips() {
    assert_eq!(Role::parse("admin"), Some(Role::Admin));
    assert_eq!(Role::parse("member"), Some(Role::Member));
    assert_eq!(Role::parse("Admin"), None);
    assert_eq!(Role::Member.as_str(), "member");
}
