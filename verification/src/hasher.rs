//! The credential hasher: a password and the process-wide salt give an
//! encoded Argon2 digest.
use vstd::prelude::*;

verus! {

/// The error of the `argon2` crate, carried through unread.
#[verifier::external_type_specification]
#[verifier::external_body]
pub struct ExArgon2Error(argon2::Error);

/// The encoded digest that `argon2::hash_encoded` computes for a password
/// and a salt under the crate's default configuration, or `None` where it
/// refuses them. The digest is a function of the two texts alone.
pub uninterp spec fn argon2_encoded(password: Seq<char>, salt: Seq<char>) -> Option<Seq<char>>;

/// The text of an optional string.
pub open spec fn text_view(text: Option<String>) -> Option<Seq<char>> {
    match text {
        Some(t) => Some(t@),
        None => None,
    }
}

/// Calls `argon2::hash_encoded` on the UTF-8 bytes of the password and of the
/// salt with `argon2::Config::default()`. Nothing is proved of the call: the
/// contract only gives its result the name `argon2_encoded`.
#[verifier::external_body]
fn hash_encoded(password: &String, salt: &String) -> (r: Result<String, argon2::Error>)
    ensures
        match r {
            Ok(digest) => argon2_encoded(password@, salt@) == Some(digest@),
            Err(_) => argon2_encoded(password@, salt@) is None,
        },
{
    argon2::hash_encoded(password.as_bytes(), salt.as_bytes(), &argon2::Config::default())
}

/// The digest of the password under the salt. Where hashing fails there is
/// no digest, and the caller treats the credential as invalid.
pub fn encode(password: &String, salt: &String) -> (r: Option<String>)
    ensures
        text_view(r) == argon2_encoded(password@, salt@),
{
    match hash_encoded(password, salt) {
        Ok(digest) => Some(digest),
        Err(_) => None,
    }
}

/// Whether the password hashes to the stored digest under the salt.
pub fn verify(password: &String, salt: &String, digest: &String) -> (r: bool)
    ensures
        r == (argon2_encoded(password@, salt@) == Some(digest@)),
{
    match encode(password, salt) {
        Some(computed) => computed.eq(digest),
        None => false,
    }
}

} // verus!
