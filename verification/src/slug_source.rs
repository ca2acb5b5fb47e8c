//! The source of random slugs for links created without a slug of the
//! caller's choice.

use vstd::prelude::*;
use rand::distributions::{Alphanumeric, DistString};
use crate::model::Slug;

verus! {

/// The number of characters of a generated slug.
pub const GENERATED_SLUG_LEN: usize = 6;

/// How many random candidates a creation without a slug tries before it
/// gives up.
pub const MAX_SLUG_ATTEMPTS: usize = 8;

/// Whether `c` is an ASCII letter or digit.
pub open spec fn is_alphanumeric(c: char) -> bool {
    ('a' <= c && c <= 'z') || ('A' <= c && c <= 'Z') || ('0' <= c && c <= '9')
}

/// Whether `text` consists of ASCII letters and digits only.
pub open spec fn all_alphanumeric(text: Seq<char>) -> bool {
    forall|i: int| 0 <= i < text.len() ==> is_alphanumeric(#[trigger] text[i])
}

/// The shape of every generated slug: six ASCII letters or digits.
pub open spec fn is_generated_slug(slug: Seq<char>) -> bool {
    slug.len() == GENERATED_SLUG_LEN && all_alphanumeric(slug)
}

/// Draws `len` characters from the thread's random number generator.
///
/// Trusted: the body calls `DistString::sample_string` of the `rand` crate
/// on its `Alphanumeric` distribution with the generator that `thread_rng`
/// returns. That distribution yields bytes out of `A-Z`, `a-z` and `0-9`
/// only, and the string is made of `len` of them. Which characters come is
/// left open: two calls may differ. The bound on `len` keeps the buffer
/// within what a `String` can hold. The generator is seeded by the operating
/// system on its first use in a thread and panics if that fails.
#[verifier::external_body]
fn sample_alphanumeric(len: usize) -> (text: String)
    requires
        len <= 0x7fff_ffff,
    ensures
        text@.len() == len,
        all_alphanumeric(text@),
{
    Alphanumeric.sample_string(&mut rand::thread_rng(), len)
}

/// A fresh random candidate for a slug.
pub fn random_slug() -> (slug: Slug)
    ensures
        is_generated_slug(slug@),
{
    Slug(sample_alphanumeric(GENERATED_SLUG_LEN))
}

/// `count` fresh random candidates.
pub fn random_candidates(count: usize) -> (candidates: Vec<Slug>)
    ensures
        candidates@.len() == count,
        forall|i: int| 0 <= i < count ==> is_generated_slug(#[trigger] candidates@[i]@),
{
    let mut candidates: Vec<Slug> = Vec::new();
    while candidates.len() < count
        invariant
            candidates@.len() <= count,
            forall|i: int|
                0 <= i < candidates@.len() ==> is_generated_slug(#[trigger] candidates@[i]@),
        decreases count - candidates@.len(),
    {
        let slug = random_slug();
        candidates.push(slug);
    }
    candidates
}

} // verus!
