//! Confirmation tokens: 128 random bits written as 32 hexadecimal digits.
use vstd::prelude::*;

verus! {

/// A digit or one of the letters `a` to `f`.
pub open spec fn is_hex_digit(c: char) -> bool {
    ('0' <= c && c <= '9') || ('a' <= c && c <= 'f')
}

/// The shape of a token: 32 lower-case hexadecimal digits.
pub open spec fn is_token(text: Seq<char>) -> bool {
    &&& text.len() == 32
    &&& forall|i: int| 0 <= i < 32 ==> is_hex_digit(#[trigger] text[i])
}

/// Calls `uuid::Uuid::new_v4` and writes the result in the crate's simple
/// form. The value is random, so the contract states only its shape, which
/// holds of every outcome: 32 lower-case hexadecimal digits. That two calls
/// give different tokens is not claimed. The call panics where the system
/// has no random bytes to give.
#[verifier::external_body]
pub(crate) fn fresh_token() -> (token: String)
    ensures
        is_token(token@),
{
    uuid::Uuid::new_v4().simple().to_string()
}

} // verus!
