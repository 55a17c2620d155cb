//! Password hashing with Argon2id (memory 19 MiB, two passes, one lane), stored as PHC
//! strings, and the check of a password against a stored hash.

use vstd::prelude::*;

use argon2::password_hash::rand_core::OsRng;
use argon2::password_hash::{PasswordHash, PasswordHasher, PasswordVerifier, SaltString};
use argon2::{Algorithm, Argon2, Params, Version};

use crate::text::{chars_of, decimal_spec, digits_value, is_digit, starts_with_spec};

verus! {

/// The Argon2 memory cost, in KiB.
pub const ARGON2_M_COST: u32 = 19456;

/// The Argon2 number of passes.
pub const ARGON2_T_COST: u32 = 2;

/// The Argon2 degree of parallelism.
pub const ARGON2_P_COST: u32 = 1;

/// The start of an Argon2id (version 19) PHC string with these parameters, up to the
/// salt.
pub open spec fn phc_prefix(m_cost: u32, t_cost: u32, p_cost: u32) -> Seq<char> {
    "$argon2id$v=19$m="@ + decimal_spec(m_cost as nat) + ",t="@ + decimal_spec(t_cost as nat) + ",p="@
        + decimal_spec(p_cost as nat) + "$"@
}

/// Whether a text has a `p=` at position `i` whose digits (all that follow it) spell a
/// number from 2^29 to 2^32 - 1.
pub open spec fn p_overflows_at(s: Seq<char>, i: int) -> bool {
    exists|j: int|
        #![trigger s.subrange(i + 2, j)]
        {
            &&& 0 <= i
            &&& i + 2 <= j <= s.len()
            &&& s[i] == 'p'
            &&& s[i + 1] == '='
            &&& forall|k: int| i + 2 <= k < j ==> is_digit(#[trigger] s[k])
            &&& (j == s.len() || !is_digit(s[j]))
            &&& 0x2000_0000 <= digits_value(s.subrange(i + 2, j)) <= 0xFFFF_FFFF
        }
}

/// Whether a stored hash names a degree of parallelism `p` that `argon2` cannot check:
/// its `Params::new` computes `8 * p` in 32 bits before it checks the range of `p`, and
/// that product overflows (a panic) for `p` from 2^29 to 2^32 - 1. Every `p=` of the text
/// is looked at, so that the one the PHC parser takes is among them.
pub open spec fn phc_parallelism_overflows(phc: Seq<char>) -> bool {
    exists|i: int| 0 <= i < phc.len() && #[trigger] p_overflows_at(phc, i)
}

/// Whether `p_overflows_at(v, i)`.
fn p_overflows_at_exec(v: &Vec<char>, i: usize) -> (r: bool)
    requires
        i < v@.len(),
    ensures
        r == p_overflows_at(v@, i as int),
{
    let n = v.len();
    if !(i + 1 < n && v[i] == 'p' && v[i + 1] == '=') {
        return false;
    }
    let ghost s = v@;
    let start = i + 2;
    let mut k = start;
    let mut acc: u64 = 0;
    let mut big = false;
    while k < n && is_digit_char(v[k])
        invariant
            n == s.len(),
            s == v@,
            start == i + 2,
            start <= k <= n,
            forall|m: int| start <= m < k ==> is_digit(#[trigger] s[m]),
            !big ==> acc == digits_value(s.subrange(start as int, k as int)),
            !big ==> acc <= 0xFFFF_FFFF,
            big ==> digits_value(s.subrange(start as int, k as int)) > 0xFFFF_FFFF,
        decreases n - k,
    {
        let d = (v[k] as u32 - 48) as u64;
        assert(s.subrange(start as int, k + 1).drop_last() =~= s.subrange(start as int, k as int));
        assert(s.subrange(start as int, k + 1).last() == s[k as int]);
        if !big {
            let next = acc * 10 + d;
            if next > 0xFFFF_FFFF {
                big = true;
            } else {
                acc = next;
            }
        }
        k = k + 1;
    }
    let j = k;
    let r = !big && 0x2000_0000 <= acc;
    proof {
        let sub = s.subrange(start as int, j as int);
        if r {
            assert(p_overflows_at(s, i as int));
        } else if p_overflows_at(s, i as int) {
            let j2 = choose|j2: int|
                #![trigger s.subrange(i + 2, j2)]
                {
                    &&& 0 <= i
                    &&& i + 2 <= j2 <= s.len()
                    &&& s[i as int] == 'p'
                    &&& s[i + 1] == '='
                    &&& forall|m: int| i + 2 <= m < j2 ==> is_digit(#[trigger] s[m])
                    &&& (j2 == s.len() || !is_digit(s[j2]))
                    &&& 0x2000_0000 <= digits_value(s.subrange(i + 2, j2)) <= 0xFFFF_FFFF
                };
            if j2 < j {
                assert(is_digit(s[j2]));
            } else if j2 > j {
                assert(is_digit(s[j as int]));
            }
            assert(j2 == j);
        }
    }
    r
}

/// Whether a character is an ASCII digit.
fn is_digit_char(c: char) -> (r: bool)
    ensures
        r == is_digit(c),
{
    let u = c as u32;
    48 <= u && u <= 57
}

/// Whether `phc_parallelism_overflows(phc)`.
fn parallelism_overflows(phc: &str) -> (r: bool)
    ensures
        r == phc_parallelism_overflows(phc@),
{
    let v = chars_of(phc);
    let n = v.len();
    let mut i: usize = 0;
    while i < n
        invariant
            n == v@.len(),
            v@ == phc@,
            i <= n,
            forall|m: int| 0 <= m < i ==> !#[trigger] p_overflows_at(v@, m),
        decreases n - i,
    {
        if p_overflows_at_exec(&v, i) {
            return true;
        }
        i = i + 1;
    }
    false
}

/// Names what `argon2` answers when a password is checked against a PHC string: `None`
/// when the string does not parse as a password hash, else whether the password
/// matches.
pub uninterp spec fn spec_argon2_verify(password: Seq<u8>, phc: Seq<char>) -> Option<bool>;

/// Calls `Params::new(m_cost, t_cost, p_cost, None)` and `Argon2::new(Argon2id, V0x13,
/// ..)`, then `hash_password` with a salt from `SaltString::generate(&mut OsRng)`, and
/// writes the hash as a PHC string. The salt is random, so only what holds of every
/// outcome is stated: the string starts with the algorithm, version and parameters (as
/// `PasswordHash`'s `Display` writes them), and checking the same password against it
/// succeeds (the `argon2` source re-derives the hash from the string's own salt and
/// parameters and compares). `None` when the parameters or the hashing are refused;
/// the `argon2` source refuses nothing else than parameters outside the ranges that
/// `Params::new` checks (memory at least 8 KiB and 8 per lane, at least one pass, one
/// to 2^24 - 1 lanes) and a password longer than `MAX_PWD_LEN` (2^32 - 1 bytes): the
/// generated salt (16 bytes), the default output length (32 bytes) and the PHC
/// parameter string are always accepted.
///
/// `Params::new` computes `8 * p_cost` in 32 bits before it checks the range of
/// `p_cost`, so a `p_cost` of 2^29 or more is left out. The string that comes back is
/// the prefix, the salt and the hash in unpadded B64, which holds no `=`: its only `p=`
/// is the one of `p_cost`. The memory used is `m_cost` KiB, which the allocator must
/// grant (the library asks for 19 MiB).
#[verifier::external_body]
fn argon2id_hash(password: &[u8], m_cost: u32, t_cost: u32, p_cost: u32) -> (r: Option<String>)
    requires
        p_cost < 0x2000_0000,
    ensures
        r matches Some(h) ==> !phc_parallelism_overflows(h@),
        password@.len() <= 0xFFFF_FFFF && 8 <= m_cost && 8 * p_cost <= m_cost && 1 <= t_cost && 1 <= p_cost
            <= 0xFF_FFFF ==> r is Some,
        r matches Some(h) ==> starts_with_spec(h@, phc_prefix(m_cost, t_cost, p_cost)),
        r matches Some(h) ==> spec_argon2_verify(password@, h@) == Some(true),
{
    let params = Params::new(m_cost, t_cost, p_cost, None).ok()?;
    let salt = SaltString::generate(&mut OsRng);
    let argon2 = Argon2::new(Algorithm::Argon2id, Version::V0x13, params);
    argon2.hash_password(password, &salt).ok().map(|h| h.to_string())
}

/// Calls `PasswordHash::new(phc)` and, when it parses, `verify_password` of an Argon2id
/// instance with the default parameters (which the `argon2` source replaces with those
/// of the string). The result is named. The `argon2` source panics on a `p` parameter
/// from 2^29 to 2^32 - 1 (an overflow in `Params::new`), which the `requires` leaves
/// out; the time and memory the check takes grow with the string's own `t` and `m`
/// parameters, and a memory size that the allocator cannot grant is not stated here.
#[verifier::external_body]
fn argon2_verify(password: &[u8], phc: &str) -> (r: Option<bool>)
    requires
        !phc_parallelism_overflows(phc@),
    ensures
        r == spec_argon2_verify(password@, phc@),
{
    let parsed = PasswordHash::new(phc).ok()?;
    Some(Argon2::default().verify_password(password, &parsed).is_ok())
}

/// Why a password operation failed.
#[derive(Debug, Clone, Copy, PartialEq, Eq, Structural)]
pub enum PasswordError {
    /// Hashing was refused.
    HashFailed,
    /// The stored hash is not a PHC string.
    InvalidHash,
}

/// Hashes a password for storage, with a fresh random salt. It succeeds for every
/// password of at most 2^32 - 1 bytes.
pub fn hash_password(password: &str) -> (r: Result<String, PasswordError>)
    ensures
        vstd::utf8::encode_utf8(password@).len() <= 0xFFFF_FFFF ==> r is Ok,
        r matches Ok(h) ==> starts_with_spec(h@, phc_prefix(ARGON2_M_COST, ARGON2_T_COST, ARGON2_P_COST)),
        r matches Ok(h) ==> spec_argon2_verify(vstd::utf8::encode_utf8(password@), h@) == Some(true),
        r matches Ok(h) ==> verify_outcome(vstd::utf8::encode_utf8(password@), h@) == Ok::<bool, PasswordError>(true),
        r matches Err(e) ==> e == PasswordError::HashFailed,
{
    match argon2id_hash(password.as_bytes(), ARGON2_M_COST, ARGON2_T_COST, ARGON2_P_COST) {
        Some(h) => Ok(h),
        None => Err(PasswordError::HashFailed),
    }
}

/// What checking a password (as bytes) against a stored hash answers: a hash whose
/// parallelism `argon2` cannot check is refused as invalid.
pub open spec fn verify_outcome(password: Seq<u8>, phc: Seq<char>) -> Result<bool, PasswordError> {
    if phc_parallelism_overflows(phc) {
        Err(PasswordError::InvalidHash)
    } else {
        match spec_argon2_verify(password, phc) {
            None => Err(PasswordError::InvalidHash),
            Some(b) => Ok(b),
        }
    }
}

/// Checks a password against a stored hash: `Ok(true)` when it matches, an error when
/// the stored hash does not parse or names a parallelism that cannot be checked.
pub fn verify_password(password: &str, password_hash: &str) -> (r: Result<bool, PasswordError>)
    ensures
        r == verify_outcome(vstd::utf8::encode_utf8(password@), password_hash@),
{
    if parallelism_overflows(password_hash) {
        return Err(PasswordError::InvalidHash);
    }
    match argon2_verify(password.as_bytes(), password_hash) {
        Some(b) => Ok(b),
        None => Err(PasswordError::InvalidHash),
    }
}

/// A password checks against its own hash: for a hash that [`hash_password`] made of
/// a password, [`verify_password`] of the same password answers `Ok(true)`.
pub proof fn law_password_verifies_against_its_hash(password: Seq<u8>, phc: Seq<char>)
    requires
        spec_argon2_verify(password, phc) == Some(true),
        !phc_parallelism_overflows(phc),
    ensures
        verify_outcome(password, phc) == Ok::<bool, PasswordError>(true),
{
}

} // verus!
