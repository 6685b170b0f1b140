//! Entropy for the bot: fresh ChaCha generators, confirmation-token
//! characters, and uniform index draws for random sticker selection.

use vstd::prelude::*;

verus! {

/// A character allowed in a confirmation token: an ASCII letter or digit.
pub open spec fn is_token_char(c: char) -> bool {
    ||| 'a' as int <= c as int && c as int <= 'z' as int
    ||| 'A' as int <= c as int && c as int <= 'Z' as int
    ||| '0' as int <= c as int && c as int <= '9' as int
}

/// A well-formed confirmation token: exactly 32 alphanumeric characters.
pub open spec fn is_token(s: Seq<char>) -> bool {
    &&& s.len() == 32
    &&& forall|i: int| 0 <= i < s.len() ==> is_token_char(#[trigger] s[i])
}

/// Declares rand_chacha's ChaCha8Rng, the cryptographically seeded
/// generator threaded through the samplers below.
#[verifier::external_type_specification]
#[verifier::external_body]
pub struct ExChaCha8Rng(rand_chacha::ChaCha8Rng);

/// Relies on rand_core's SeedableRng::from_entropy: a ChaCha8 generator
/// freshly seeded from system entropy; nothing is promised of its output.
#[verifier::external_body]
pub(crate) fn fresh_rng() -> rand_chacha::ChaCha8Rng {
    <rand_chacha::ChaCha8Rng as rand::SeedableRng>::from_entropy()
}

/// Relies on rand's Alphanumeric distribution: every sampled byte is an
/// ASCII letter or digit, so the cast yields an alphanumeric character.
#[verifier::external_body]
pub(crate) fn sample_token_char(rng: &mut rand_chacha::ChaCha8Rng) -> (c: char)
    ensures
        is_token_char(c),
{
    rand::Rng::sample::<u8, _>(rng, rand::distributions::Alphanumeric) as char
}

/// Relies on rand's Rng::gen_range over `0..n`: the range is non-empty, so
/// the call returns a value below `n`.
#[verifier::external_body]
pub(crate) fn sample_below(rng: &mut rand_chacha::ChaCha8Rng, n: usize) -> (r: usize)
    requires
        n >= 1,
    ensures
        r < n,
{
    rand::Rng::gen_range(rng, 0..n)
}

/// Relies on std's String::push: appends exactly the given character.
#[verifier::external_body]
fn push_char(s: &mut String, c: char)
    ensures
        final(s)@ == old(s)@.push(c),
{
    s.push(c);
}

/// Builds a fresh 32-character alphanumeric confirmation token.
pub(crate) fn generate_token(rng: &mut rand_chacha::ChaCha8Rng) -> (t: String)
    ensures
        is_token(t@),
{
    let mut t = String::new();
    let mut i: usize = 0;
    while i < 32
        invariant
            i <= 32,
            t@.len() == i,
            forall|j: int| 0 <= j < t@.len() ==> is_token_char(#[trigger] t@[j]),
        decreases 32 - i,
    {
        let c = sample_token_char(rng);
        push_char(&mut t, c);
        i = i + 1;
    }
    t
}

} // verus!
