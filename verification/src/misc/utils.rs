//! Random alphanumeric tokens, drawn through the `rand` crate.

use vstd::prelude::*;
use crate::text::push_char;

verus! {

/// `c` is one of `0-9`, `A-Z`, `a-z`.
pub open spec fn is_alnum_char(c: char) -> bool {
    ('0' <= c && c <= '9') || ('A' <= c && c <= 'Z') || ('a' <= c && c <= 'z')
}

/// Every character of `s` is alphanumeric.
pub open spec fn all_alnum(s: Seq<char>) -> bool {
    forall|i: int| 0 <= i < s.len() ==> is_alnum_char(#[trigger] s[i])
}

/// The thread-local generator of the `rand` crate, opaque to the verifier.
#[verifier::external_type_specification]
#[verifier::external_body]
pub struct ExThreadRng(rand::rngs::ThreadRng);

/// Relies on `rand::thread_rng`: a handle to the thread-local generator.
/// Nothing is promised of it.
#[verifier::external_body]
fn fresh_rng() -> rand::rngs::ThreadRng {
    rand::thread_rng()
}

/// Relies on `rand`'s `Alphanumeric` distribution: a sample is one byte of
/// the set `A-Z`, `a-z`, `0-9`, whichever the generator picks.
#[verifier::external_body]
fn sample_alphanumeric(rng: &mut rand::rngs::ThreadRng) -> (b: u8)
    ensures
        is_alnum_char(b as char),
{
    rand::Rng::sample(rng, rand::distributions::Alphanumeric)
}

/// A fresh random token of `length` alphanumeric characters.
pub fn generate_token(length: usize) -> (r: String)
    ensures
        r@.len() == length,
        all_alnum(r@),
{
    let mut rng = fresh_rng();
    let mut s = String::new();
    let mut k: usize = 0;
    while k < length
        invariant
            k <= length,
            s@.len() == k,
            all_alnum(s@),
        decreases length - k,
    {
        let b = sample_alphanumeric(&mut rng);
        push_char(&mut s, b as char);
        k += 1;
    }
    s
}

} // verus!
