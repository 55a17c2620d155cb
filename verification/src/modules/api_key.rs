//! API keys: their records, the request and response shapes, key generation and the
//! checks on the fields that a client sends.
//!
//! A key is `ink_` followed by the hex of 32 random bytes; only its first twelve
//! characters (the prefix shown in the UI) and its SHA-256 hex digest are stored.

use vstd::prelude::*;

use crate::infra::token::{
    hex_encode, hex_spec, is_lower_hex, lemma_hex_shape, random_32_bytes, sha256, sha256_digest,
};
use crate::text::{chars_of, opt_string_view, push_str, string_of, sub_chars, trim_spec, trim_str};

verus! {

/// A stored API key: its hash, never the key itself.
#[derive(Debug, Clone)]
pub struct ApiKey {
    pub id: String,
    pub user_id: String,
    pub name: String,
    pub key_prefix: String,
    pub key_hash: String,
    pub permissions: String,
    pub last_used_at: Option<String>,
    pub expires_at: Option<String>,
    pub created_at: String,
    pub updated_at: String,
}

/// An API key joined with the basic facts of its user, from which a request's user is
/// built when it authenticates with the key.
#[derive(Debug, Clone)]
pub struct ApiKeyWithUser {
    pub api_key_id: String,
    pub user_id: String,
    pub username: String,
    pub role: String,
    pub permissions: String,
    pub api_key_expires_at: Option<String>,
}

/// The request that creates a key.
#[derive(Debug)]
pub struct CreateApiKeyRequest {
    pub name: String,
    /// `read_only` or `read_write`; `read_only` when the client sends none.
    pub permissions: String,
    /// When the key expires (ISO 8601); `None` for never.
    pub expires_at: Option<String>,
}

/// The permissions of a key whose request names none.
pub open spec fn default_permissions_spec() -> Seq<char> {
    "read_only"@
}

/// The permissions of a key whose request names none: `read_only`.
pub fn default_permissions() -> (r: String)
    ensures
        r@ == default_permissions_spec(),
{
    "read_only".to_owned()
}

/// The request that renames a key.
#[derive(Debug)]
pub struct UpdateApiKeyRequest {
    pub name: Option<String>,
}

/// The answer to a creation: the only time the full key is shown.
#[derive(Debug)]
pub struct CreateApiKeyResponse {
    pub id: String,
    pub name: String,
    pub key_prefix: String,
    pub full_key: String,
    pub permissions: String,
    pub expires_at: Option<String>,
    pub created_at: String,
}

/// A key as listed to its owner.
#[derive(Debug)]
pub struct ApiKeyListItem {
    pub id: String,
    pub name: String,
    pub key_prefix: String,
    pub permissions: String,
    pub last_used_at: Option<String>,
    pub expires_at: Option<String>,
    pub created_at: String,
}

/// A copy of an optional string.
fn clone_opt(o: &Option<String>) -> (r: Option<String>)
    ensures
        opt_string_view(r) == opt_string_view(*o),
{
    match o {
        Some(s) => Some(s.clone()),
        None => None,
    }
}

impl ApiKeyListItem {
    /// The listing of a stored key: every shown field copied, the hash left out.
    pub fn from_key(k: &ApiKey) -> (r: Self)
        ensures
            r.id@ == k.id@,
            r.name@ == k.name@,
            r.key_prefix@ == k.key_prefix@,
            r.permissions@ == k.permissions@,
            opt_string_view(r.last_used_at) == opt_string_view(k.last_used_at),
            opt_string_view(r.expires_at) == opt_string_view(k.expires_at),
            r.created_at@ == k.created_at@,
    {
        ApiKeyListItem {
            id: k.id.clone(),
            name: k.name.clone(),
            key_prefix: k.key_prefix.clone(),
            permissions: k.permissions.clone(),
            last_used_at: clone_opt(&k.last_used_at),
            expires_at: clone_opt(&k.expires_at),
            created_at: k.created_at.clone(),
        }
    }
}

/// The full text of a key made from its random bytes.
pub open spec fn api_key_text(bytes: Seq<u8>) -> Seq<char> {
    "ink_"@ + hex_spec(bytes)
}

/// The stored hash of a key: the hex of the SHA-256 digest of its bytes.
pub open spec fn api_key_hash_spec(key: Seq<char>) -> Seq<char> {
    hex_spec(sha256_digest(vstd::utf8::encode_utf8(key)))
}

/// Hashes a key for storage and lookup.
pub fn hash_api_key(plaintext: &str) -> (r: String)
    ensures
        r@ == api_key_hash_spec(plaintext@),
        r@.len() == 64,
        is_lower_hex(r@),
{
    let digest = sha256(plaintext.as_bytes());
    proof {
        lemma_hex_shape(digest@);
    }
    hex_encode(&digest)
}

/// The key, its displayed prefix and its hash, made from given random bytes.
pub fn api_key_from_bytes(bytes: &[u8]) -> (r: (String, String, String))
    ensures
        r.0@ == api_key_text(bytes@),
        r.1@ == r.0@.take(if r.0@.len() < 12 { r.0@.len() as int } else { 12 }),
        r.2@ == api_key_hash_spec(r.0@),
{
    let mut raw = "ink_".to_owned();
    let hex = hex_encode(bytes);
    push_str(&mut raw, hex.as_str());
    let chars = chars_of(raw.as_str());
    let end = if chars.len() < 12 { chars.len() } else { 12 };
    let prefix = string_of(&sub_chars(&chars, 0, end));
    let hash = hash_api_key(raw.as_str());
    (raw, prefix, hash)
}

/// A new key from 32 random bytes: `ink_` and 64 hex digits (68 characters), its first
/// twelve characters, and its hash.
pub fn generate_api_key_and_hash() -> (r: (String, String, String))
    ensures
        exists|b: Seq<u8>| b.len() == 32 && #[trigger] api_key_text(b) == r.0@,
        r.0@.len() == 68,
        r.1@ == r.0@.take(12),
        r.2@ == api_key_hash_spec(r.0@),
{
    let bytes = random_32_bytes();
    proof {
        lemma_hex_shape(bytes@);
        reveal_strlit("ink_");
    }
    api_key_from_bytes(&bytes)
}

/// Why a key request was refused.
#[derive(Debug, Clone, Copy, PartialEq, Eq, Structural)]
pub enum ApiKeyError {
    /// The name is empty (after trimming) on creation.
    NameRequired,
    /// A rename names an empty name.
    NameEmpty,
}

impl ApiKeyError {
    /// The message sent with the refusal.
    pub fn to_string(&self) -> (r: String)
        ensures
            r@ == (match self {
                ApiKeyError::NameRequired => "api key name is required"@,
                ApiKeyError::NameEmpty => "api key name cannot be empty"@,
            }),
    {
        match self {
            ApiKeyError::NameRequired => "api key name is required".to_owned(),
            ApiKeyError::NameEmpty => "api key name cannot be empty".to_owned(),
        }
    }
}

/// The fields of a key to create: trimmed name, trimmed permissions (the default when
/// blank), and the expiry unless blank.
pub struct NewApiKeyFields {
    pub name: String,
    pub permissions: String,
    pub expires_at: Option<String>,
}

/// The expiry that a creation request keeps: none when it is blank.
pub open spec fn kept_expiry(e: Option<Seq<char>>) -> Option<Seq<char>> {
    match e {
        Some(s) => if trim_spec(s).len() == 0 { None } else { Some(s) },
        None => None,
    }
}

/// Checks a creation request: the trimmed name must not be empty; blank permissions
/// become `read_only`; a blank expiry becomes none.
pub fn validate_create_api_key(req: &CreateApiKeyRequest) -> (r: Result<NewApiKeyFields, ApiKeyError>)
    ensures
        (trim_spec(req.name@).len() == 0) <==> (r is Err),
        match r {
            Ok(f) => {
                &&& f.name@ == trim_spec(req.name@)
                &&& f.permissions@ == (if trim_spec(req.permissions@).len() == 0 {
                    default_permissions_spec()
                } else {
                    trim_spec(req.permissions@)
                })
                &&& opt_string_view(f.expires_at) == kept_expiry(opt_string_view(req.expires_at))
            },
            Err(e) => e == ApiKeyError::NameRequired,
        },
{
    let name = trim_str(req.name.as_str());
    if name.len() == 0 {
        return Err(ApiKeyError::NameRequired);
    }
    let perms = trim_str(req.permissions.as_str());
    let permissions = if perms.len() == 0 {
        default_permissions()
    } else {
        string_of(&perms)
    };
    let expires_at = match &req.expires_at {
        Some(e) => {
            if trim_str(e.as_str()).len() == 0 {
                None
            } else {
                Some(e.clone())
            }
        },
        None => None,
    };
    Ok(NewApiKeyFields { name: string_of(&name), permissions, expires_at })
}

/// Checks a rename: no name leaves the key as it is (`Ok(None)`); a name is trimmed and
/// must not be empty.
pub fn validate_rename_api_key(req: &UpdateApiKeyRequest) -> (r: Result<Option<String>, ApiKeyError>)
    ensures
        match req.name {
            None => r matches Ok(None),
            Some(n) => if trim_spec(n@).len() == 0 {
                r matches Err(ApiKeyError::NameEmpty)
            } else {
                r matches Ok(Some(t)) && t@ == trim_spec(n@)
            },
        },
{
    match &req.name {
        None => Ok(None),
        Some(n) => {
            let t = trim_str(n.as_str());
            if t.len() == 0 {
                Err(ApiKeyError::NameEmpty)
            } else {
                Ok(Some(string_of(&t)))
            }
        },
    }
}

} // verus!
