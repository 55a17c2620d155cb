//! Tokens: the claims that an access token carries, refresh tokens, and the SHA-256
//! digests under which tokens and keys are stored.
//!
//! Digests and random bytes come from `sha2` and `rand`; hex encoding (lower case, two
//! digits per byte, high nibble first) is written and proved here.

use vstd::prelude::*;

use sha2::{Digest, Sha256};

use crate::clock::{latest_timestamp, now_unix_seconds};
use crate::text::string_push;

verus! {

/// Names the SHA-256 digest (FIPS 180-4) of a byte sequence.
pub uninterp spec fn sha256_digest(data: Seq<u8>) -> Seq<u8>;

/// Calls `<Sha256 as Digest>::digest` on `data`. The contract states that the result
/// is the SHA-256 digest of `data`, named, and that it has 32 bytes (`Sha256`'s
/// output size).
#[verifier::external_body]
pub(crate) fn sha256(data: &[u8]) -> (r: Vec<u8>)
    ensures
        r@ == sha256_digest(data@),
        r@.len() == 32,
{
    Sha256::digest(data).to_vec()
}

/// Calls `rand::random::<[u8; 32]>()`, thirty-two bytes from the thread-local
/// generator. Only the length is stated: the bytes are random.
#[verifier::external_body]
pub(crate) fn random_32_bytes() -> (r: Vec<u8>)
    ensures
        r@.len() == 32,
{
    let b: [u8; 32] = rand::random();
    b.to_vec()
}

/// The lower-case hex digit of a nibble.
pub open spec fn hex_digit_spec(d: int) -> char {
    if d < 10 {
        (48 + d) as char
    } else {
        (87 + d) as char
    }
}

/// The lower-case hex encoding of bytes: two digits per byte, high nibble first.
pub open spec fn hex_spec(bytes: Seq<u8>) -> Seq<char>
    decreases bytes.len(),
{
    if bytes.len() == 0 {
        Seq::empty()
    } else {
        let b = bytes.last();
        hex_spec(bytes.drop_last()) + seq![hex_digit_spec((b / 16) as int), hex_digit_spec((b % 16) as int)]
    }
}

/// A lower-case hex digit.
pub open spec fn is_lower_hex_digit(c: char) -> bool {
    ('0' <= c && c <= '9') || ('a' <= c && c <= 'f')
}

/// Every character is a lower-case hex digit.
pub open spec fn is_lower_hex(s: Seq<char>) -> bool {
    forall|i: int| 0 <= i < s.len() ==> #[trigger] is_lower_hex_digit(s[i])
}

/// The hex encoding has two digits per byte, all of them lower-case hex digits.
pub proof fn lemma_hex_shape(bytes: Seq<u8>)
    ensures
        hex_spec(bytes).len() == 2 * bytes.len(),
        is_lower_hex(hex_spec(bytes)),
    decreases bytes.len(),
{
    if bytes.len() > 0 {
        lemma_hex_shape(bytes.drop_last());
        let b = bytes.last();
        let h = hex_spec(bytes);
        let prev = hex_spec(bytes.drop_last());
        assert forall|i: int| 0 <= i < h.len() implies #[trigger] is_lower_hex_digit(h[i]) by {
            if i < prev.len() {
                assert(h[i] == prev[i]);
            } else {
                let d = if i == prev.len() { b / 16 } else { b % 16 };
                assert(0 <= d < 16);
            }
        }
    }
}

/// The hex digit of a nibble, computed.
fn hex_digit(d: u8) -> (c: char)
    requires
        d < 16,
    ensures
        c == hex_digit_spec(d as int),
{
    if d < 10 {
        (48 + d) as char
    } else {
        (87 + d) as char
    }
}

/// The lower-case hex encoding of bytes, as `hex::encode` writes it.
pub fn hex_encode(bytes: &[u8]) -> (r: String)
    ensures
        r@ == hex_spec(bytes@),
{
    let mut out = String::new();
    let n = bytes.len();
    let mut i: usize = 0;
    while i < n
        invariant
            n == bytes@.len(),
            i <= n,
            out@ == hex_spec(bytes@.take(i as int)),
        decreases n - i,
    {
        let b = bytes[i];
        assert(bytes@.take(i + 1).drop_last() =~= bytes@.take(i as int));
        string_push(&mut out, hex_digit(b / 16));
        string_push(&mut out, hex_digit(b % 16));
        i = i + 1;
    }
    assert(bytes@.take(n as int) =~= bytes@);
    out
}

/// The stored form of a token: the hex of the SHA-256 digest of its UTF-8 bytes.
pub open spec fn token_hash_spec(token: Seq<char>) -> Seq<char> {
    hex_spec(sha256_digest(vstd::utf8::encode_utf8(token)))
}

/// Hashes a token for storage: SHA-256 of its bytes, hex-encoded (64 characters).
pub fn hash_token(token: &str) -> (r: String)
    ensures
        r@ == token_hash_spec(token@),
        r@.len() == 64,
        is_lower_hex(r@),
{
    let digest = sha256(token.as_bytes());
    proof {
        lemma_hex_shape(digest@);
    }
    hex_encode(&digest)
}

/// A fresh refresh token: 32 random bytes, hex-encoded (64 characters).
pub fn generate_refresh_token() -> (r: String)
    ensures
        exists|b: Seq<u8>| b.len() == 32 && #[trigger] hex_spec(b) == r@,
        r@.len() == 64,
        is_lower_hex(r@),
{
    let bytes = random_32_bytes();
    proof {
        lemma_hex_shape(bytes@);
    }
    hex_encode(&bytes)
}

/// The role of a user.
#[derive(Debug, Clone, Copy, PartialEq, Eq, Structural)]
pub enum Role {
    Admin,
    Member,
}

/// The text of a role as stored in the `users.role` column.
pub open spec fn role_text(role: Role) -> Seq<char> {
    match role {
        Role::Admin => "admin"@,
        Role::Member => "member"@,
    }
}

impl Role {
    /// The stored text of the role.
    pub fn as_str(&self) -> (r: &'static str)
        ensures
            r@ == role_text(*self),
    {
        match self {
            Role::Admin => "admin",
            Role::Member => "member",
        }
    }

    /// The role that a stored text names, if any.
    pub fn parse(s: &str) -> (r: Option<Role>)
        ensures
            match r {
                Some(role) => role_text(role) == s@,
                None => s@ != "admin"@ && s@ != "member"@,
            },
    {
        if crate::text::str_eq(s, "admin") {
            Some(Role::Admin)
        } else if crate::text::str_eq(s, "member") {
            Some(Role::Member)
        } else {
            None
        }
    }
}

/// The claims of an access token.
#[derive(Debug, Clone)]
pub struct Claims {
    pub sub: String,
    pub username: String,
    pub role: Role,
    pub exp: i64,
    pub token_version: i32,
    /// The issuer; tokens of this service carry `colophon`.
    pub iss: Option<String>,
}

/// The issuer that every token of this service names, and that decoding insists on.
pub open spec fn issuer_spec() -> Seq<char> {
    "colophon"@
}

/// The claims for a user's token issued at `now` (Unix seconds), expiring
/// `lifetime_seconds` later, with the service as issuer.
pub fn claims_for(
    now: i64,
    lifetime_seconds: u64,
    user_id: String,
    username: String,
    role: Role,
    token_version: i32,
) -> (c: Claims)
    requires
        lifetime_seconds <= i64::MAX,
        now + lifetime_seconds <= i64::MAX,
    ensures
        c.sub@ == user_id@,
        c.username@ == username@,
        c.role == role,
        c.exp == now + lifetime_seconds,
        c.token_version == token_version,
        (c.iss matches Some(i) && i@ == issuer_spec()),
{
    let exp = now + lifetime_seconds as i64;
    Claims {
        sub: user_id,
        username,
        role,
        exp,
        token_version,
        iss: Some("colophon".to_owned()),
    }
}

/// The claims for a token issued now, expiring `lifetime_seconds` later. The clock
/// reads between the epoch and `chrono`'s last second, so the claims are made whenever
/// the lifetime leaves room for that reading in an `i64`; `None` when the expiry would
/// not fit (always so for a lifetime beyond `i64::MAX`).
pub fn issue_claims(
    lifetime_seconds: u64,
    user_id: String,
    username: String,
    role: Role,
    token_version: i32,
) -> (r: Option<Claims>)
    ensures
        lifetime_seconds > i64::MAX ==> r is None,
        lifetime_seconds <= i64::MAX - latest_timestamp() ==> r is Some,
        match r {
            Some(c) => {
                &&& c.sub@ == user_id@
                &&& c.username@ == username@
                &&& c.role == role
                &&& c.token_version == token_version
                &&& lifetime_seconds <= c.exp <= lifetime_seconds + latest_timestamp()
                &&& (c.iss matches Some(i) && i@ == issuer_spec())
            },
            None => true,
        },
{
    let now = now_unix_seconds();
    if lifetime_seconds > i64::MAX as u64 || now > i64::MAX - lifetime_seconds as i64 {
        return None;
    }
    Some(claims_for(now, lifetime_seconds, user_id, username, role, token_version))
}

} // verus!
