//! The credential hasher: turns a plaintext password into a storable,
//! self-describing credential (a fresh random salt per call, a memory-hard
//! digest, and the parameters embedded in the encoded string), and verifies
//! a plaintext against a stored credential.
use vstd::prelude::*;

use argon2::password_hash::PasswordHasher;
use argon2::password_hash::PasswordVerifier;
use rand_core::OsRng;

use crate::errors::AuthError;

verus! {

/// What the memory-hard hash produces for one password and one salt: with
/// the default algorithm, version and cost parameters fixed, the encoded
/// credential is a function of the two alone. Its value is never spelled
/// out here; the verification contract speaks of it.
pub uninterp spec fn argon2_hash_of(password: Seq<char>, salt: Seq<char>) -> Seq<char>;

/// `credential` is the hash of `password` under some salt.
pub open spec fn is_hash_of(password: Seq<char>, credential: Seq<char>) -> bool {
    exists|salt: Seq<char>| credential == #[trigger] argon2_hash_of(password, salt)
}

/// Whether `Salt::from_b64` accepts `salt` as an encoded salt: a function
/// of the string alone.
pub uninterp spec fn salt_b64_ok(salt: Seq<char>) -> bool;

/// Whether `PasswordHash::new` accepts `credential` as a self-describing
/// encoded hash: a function of the string alone.
pub uninterp spec fn phc_parses(credential: Seq<char>) -> bool;

/// What `verify_password` answers for one password against one parseable
/// credential: `Some(true)` is a match, `Some(false)` a digest mismatch,
/// `None` an internal fault (say, parameters the hasher does not support).
/// The credential embeds salt and parameters, so the answer is a function
/// of the two strings alone.
pub uninterp spec fn argon2_verify_of(password: Seq<char>, credential: Seq<char>) -> Option<bool>;

/// The password is short enough to hash: UTF-8 spends at most four bytes
/// per character, and the hasher caps the password at `u32::MAX` bytes.
pub open spec fn password_len_ok(password: Seq<char>) -> bool {
    password.len() <= 0x3FFFFFFF
}

/// Relies on `argon2::password_hash::SaltString::generate` over the
/// operating system's random source: a fresh salt of the recommended
/// 16-byte length, base64-encoded to 22 characters, which `Salt::from_b64`
/// accepts back. The bytes are random, so nothing more is promised.
#[verifier::external_body]
fn generate_salt() -> (salt: String)
    ensures
        salt@.len() == 22,
        salt_b64_ok(salt@),
{
    argon2::password_hash::SaltString::generate(&mut OsRng).as_str().to_owned()
}

/// Relies on `Argon2::default().hash_password`: deterministic in the
/// password and the salt (the default algorithm, version and cost are fixed
/// by the crate), returning the self-describing encoded credential. It
/// fails only on a salt it cannot parse: a parseable 22-character salt
/// decodes to 16 bytes, within the hasher's salt bounds, and a password
/// within the length cap is then always hashed.
#[verifier::external_body]
fn argon2_hash(password: &str, salt: &str) -> (r: Result<String, AuthError>)
    ensures
        r matches Ok(h) ==> h@ == argon2_hash_of(password@, salt@),
        salt_b64_ok(salt@) && salt@.len() == 22 && password_len_ok(password@) ==> r is Ok,
        r is Err ==> r->Err_0 == AuthError::Hashing,
{
    let parsed = match argon2::password_hash::Salt::from_b64(salt) {
        Ok(s) => s,
        Err(_) => {
            return Err(AuthError::Hashing);
        },
    };
    match argon2::Argon2::default().hash_password(password.as_bytes(), parsed) {
        Ok(h) => Ok(h.to_string()),
        Err(_) => Err(AuthError::Hashing),
    }
}

/// Relies on `argon2::password_hash::PasswordHash::new` and
/// `Argon2::default().verify_password`: the credential embeds algorithm,
/// parameters and salt, the digest is re-derived from them and compared in
/// constant time. A credential hashed from the same password under any
/// salt verifies as true; otherwise the result is exactly the named
/// verification answer: a digest mismatch is `Ok(false)`, and a credential
/// that does not parse, or parses to parameters the hasher cannot rerun,
/// is the `Hashing` error.
#[verifier::external_body]
fn argon2_verify(password: &str, credential: &str) -> (r: Result<bool, AuthError>)
    ensures
        is_hash_of(password@, credential@) ==> r matches Ok(true),
        r matches Ok(b) ==> argon2_verify_of(password@, credential@) == Some(b),
        phc_parses(credential@) && argon2_verify_of(password@, credential@) is Some ==> r is Ok,
        !phc_parses(credential@) ==> r matches Err(AuthError::Hashing),
        phc_parses(credential@) && argon2_verify_of(password@, credential@) is None ==> r matches Err(
            AuthError::Hashing,
        ),
        r is Err ==> r->Err_0 == AuthError::Hashing,
{
    let parsed = match argon2::password_hash::PasswordHash::new(credential) {
        Ok(p) => p,
        Err(_) => {
            return Err(AuthError::Hashing);
        },
    };
    match argon2::Argon2::default().verify_password(password.as_bytes(), &parsed) {
        Ok(()) => Ok(true),
        Err(argon2::password_hash::Error::Password) => Ok(false),
        Err(_) => Err(AuthError::Hashing),
    }
}

/// Hash a plaintext password under a fresh random salt. The empty password
/// is rejected; every other password within the machine length cap is
/// hashed, and the credential verifies the same password as true (see
/// [`check_password`]).
pub fn hash_password(password: &str) -> (r: Result<String, AuthError>)
    ensures
        password@.len() == 0 ==> r == Err::<String, AuthError>(AuthError::Hashing),
        password@.len() > 0 && password_len_ok(password@) ==> r is Ok,
        r matches Ok(h) ==> password@.len() > 0 && is_hash_of(password@, h@),
        r is Err ==> r->Err_0 == AuthError::Hashing,
{
    if password.is_empty() {
        return Err(AuthError::Hashing);
    }
    let salt = generate_salt();
    argon2_hash(password, salt.as_str())
}

/// Check a plaintext against a stored credential. The result is pinned:
/// `Ok(true)` on every credential hashed from this same password, whatever
/// salt was drawn; otherwise exactly the named verification answer, so a
/// wrong password is `Ok(false)` and never `Ok(true)` unless the digests
/// match; and a credential that does not parse as a supported encoded hash
/// is the `Hashing` error, never a quiet `false`.
pub fn check_password(password: &str, credential: &str) -> (r: Result<bool, AuthError>)
    ensures
        is_hash_of(password@, credential@) ==> r == Ok::<bool, AuthError>(true),
        r matches Ok(b) ==> argon2_verify_of(password@, credential@) == Some(b),
        phc_parses(credential@) && argon2_verify_of(password@, credential@) is Some ==> r is Ok,
        !phc_parses(credential@) ==> r == Err::<bool, AuthError>(AuthError::Hashing),
        phc_parses(credential@) && argon2_verify_of(password@, credential@) is None ==> r == Err::<
            bool,
            AuthError,
        >(AuthError::Hashing),
        r is Err ==> r->Err_0 == AuthError::Hashing,
{
    argon2_verify(password, credential)
}

} // verus!
