use colophon::modules::api_key::{
    api_key_from_bytes, default_permissions, generate_api_key_and_hash, hash_api_key, validate_create_api_key,
    validate_rename_api_key, ApiKey, ApiKeyError, ApiKeyListItem, CreateApiKeyRequest, UpdateApiKeyRequest,
};

#[test]
fn generated_key_starts_with_ink_prefix() {
    let (raw, _, _) = generate_api_key_and_hash();
    assert!(raw.starts_with("ink_"));
}

#[test]
fn generated_key_has_expected_length() {
    let (raw, _, _) = generate_api_key_and_hash();
    assert_eq!(raw.len(), 68);
}

#[test]
fn prefix_is_first_twelve_chars() {
    let (raw, prefix, _) = generate_api_key_and_hash();
    assert_eq!(prefix, &raw[..12]);
}

#[test]
fn hash_is_sha256_hex() {
    let (_, _, hash) = generate_api_key_and_hash();
    assert_eq!(hash.len(), 64);
    assert!(hash.chars().all(|c| c.is_ascii_hexdigit()));
}

#[test]
fn hash_matches_manual_computation() {
    let (raw, _, hash) = generate_api_key_and_hash();
    assert_eq!(hash, hash_api_key(&raw));
}

#[test]
fn hash_api_key_deterministic() {
    let h1 = hash_api_key("test_key");
    let h2 = hash_api_key("test_key");
    assert_eq!(h1, h2);
}

#[test]
fn different_keys_produce_different_hashes() {
    let h1 = hash_api_key("key_a");
    let h2 = hash_api_key("key_b");
    assert_ne!(h1, h2);
}

#[test]
fn two_generated_keys_are_unique() {
    let (raw1, _, _) = generate_api_key_and_hash();
    let (raw2, _, _) = generate_api_key_and_hash();
    assert_ne!(raw1, raw2);
}

#[test]
fn key_from_known_bytes() {
    let bytes = [0xabu8; 32];
    let (raw, prefix, hash) = api_key_from_bytes(&bytes);
    assert_eq!(raw, format!("ink_{}", "ab".repeat(32)));
    assert_eq!(prefix, "ink_abababab");
    assert_eq!(hash, hash_api_key(&raw));
    assert_eq!(hash_api_key("abc"), "ba7816bf8f01cfea414140de5dae2223b00361a396177a9cb410ff61f20015ad");
}

#[test]
fn create_request_is_trimmed_and_defaulted() {
    let req = CreateApiKeyRequest {
        name: "  ci bot ".to_string(),
        permissions: "   ".to_string(),
        expires_at: Some("  ".to_string()),
    };
    let f = validate_create_api_key(&req).unwrap();
    assert_eq!(f.name, "ci bot");
    assert_eq!(f.permissions, "read_only");
    assert_eq!(f.expires_at, None);
    assert_eq!(default_permissions(), "read_only");

    let req = CreateApiKeyRequest {
        name: "deploy".to_string(),
        permissions: " read_write ".to_string(),
        expires_at: Some("2026-12-31T23:59:59Z".to_string()),
    };
    let f = validate_create_api_key(&req).unwrap();
    assert_eq!(f.permissions, "read_write");
    assert_eq!(f.expires_at.as_deref(), Some("2026-12-31T23:59:59Z"));
}

#[test]
fn create_request_without_name_is_refused() {
    let req = CreateApiKeyRequest { name: " \t".to_string(), permissions: String::new(), expires_at: None };
    let e = validate_create_api_key(&req).err().unwrap();
    assert_eq!(e, ApiKeyError::NameRequired);
    assert_eq!(e.to_string(), "api key name is required");
}

#[test]
fn rename_checks_the_name() {
    assert_eq!(validate_rename_api_key(&UpdateApiKeyRequest { name: None }), Ok(None));
    assert_eq!(
        validate_rename_api_key(&UpdateApiKeyRequest { name: Some(" new ".to_string()) }),
        Ok(Some("new".to_string()))
    );
    let e = validate_rename_api_key(&UpdateApiKeyRequest { name: Some("  ".to_string()) }).err().unwrap();
    assert_eq!(e, ApiKeyError::NameEmpty);
    assert_eq!(e.to_string(), "api key name cannot be empty");
}

#[test]
fn listing_copies_the_shown_fields() {
    let k = ApiKey {
        id: "k1".to_string(),
        user_id: "u1".to_string(),
        name: "bot".to_string(),
        key_prefix: "ink_12345678".to_string(),
        key_hash: "h".to_string(),
        permissions: "read_only".to_string(),
        last_used_at: None,
        expires_at: Some("2030-01-01T00:00:00Z".to_string()),
        created_at: "2025-01-01T00:00:00Z".to_string(),
        updated_at: "2025-01-02T00:00:00Z".to_string(),
    };
    let item = ApiKeyListItem::from_key(&k);
    assert_eq!(item.id, "k1");
    assert_eq!(item.key_prefix, "ink_12345678");
    assert_eq!(item.expires_at.as_deref(), Some("2030-01-01T00:00:00Z"));
    assert_eq!(item.created_at, "2025-01-01T00:00:00Z");
}
