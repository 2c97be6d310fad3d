//! Confirmation-token generation.
//!
//! A subscription token is an opaque credential: a random alphanumeric
//! string of fixed length, long enough that guessing one within its
//! lifetime is impractical. Randomness comes from the thread-local
//! generator; everything proved here holds whatever values it yields.

use vstd::prelude::*;
use rand::Rng;

verus! {

/// Length of every subscription token, in characters.
pub const TOKEN_LENGTH: usize = 25;

/// The token alphabet: ASCII digits and letters (0-9, A-Z, a-z).
pub open spec fn is_token_char(c: char) -> bool {
    ||| 48 <= c as u32 <= 57
    ||| 65 <= c as u32 <= 90
    ||| 97 <= c as u32 <= 122
}

/// A well-formed token: exactly `TOKEN_LENGTH` characters, all drawn
/// from the token alphabet.
pub open spec fn token_wf(s: Seq<char>) -> bool {
    &&& s.len() == TOKEN_LENGTH
    &&& forall|i: int| 0 <= i < s.len() ==> is_token_char(#[trigger] s[i])
}

#[verifier::external_type_specification]
#[verifier::external_body]
pub struct ExThreadRng(rand::rngs::ThreadRng);

/// Relies on rand::thread_rng: a handle to the thread-local random
/// number generator. Nothing is assumed of the values it will yield.
#[verifier::external_body]
fn new_thread_rng() -> rand::rngs::ThreadRng {
    rand::thread_rng()
}

/// Relies on rand's Alphanumeric distribution: every sample is one of
/// the 62 bytes a-z, A-Z, 0-9, converted here to the character it
/// denotes. Which one comes back is random, so no more is stated.
#[verifier::external_body]
fn sample_alphanumeric(rng: &mut rand::rngs::ThreadRng) -> (c: char)
    ensures
        is_token_char(c),
{
    char::from(rng.sample(rand::distributions::Alphanumeric))
}

/// Relies on String::push: appends the character to the end of the
/// string.
#[verifier::external_body]
fn push_char(s: &mut String, c: char)
    ensures
        final(s)@ == old(s)@.push(c),
{
    s.push(c);
}

/// Draws a fresh token from the thread-local generator: a uniform
/// alphanumeric string of `TOKEN_LENGTH` characters.
pub fn generate_random_subscription_token() -> (t: String)
    ensures
        token_wf(t@),
{
    let mut rng = new_thread_rng();
    let mut t = String::new();
    let mut i: usize = 0;
    while i < TOKEN_LENGTH
        invariant
            i <= TOKEN_LENGTH,
            t@.len() == i,
            forall|k: int| 0 <= k < i ==> is_token_char(#[trigger] t@[k]),
        decreases TOKEN_LENGTH - i,
    {
        let c = sample_alphanumeric(&mut rng);
        push_char(&mut t, c);
        i += 1;
    }
    t
}

} // verus!
