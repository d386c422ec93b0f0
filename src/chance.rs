//! Random draws, taken from the thread-local generator of `rand`.

use rand::seq::SliceRandom;
use rand::Rng;
use vstd::prelude::*;

verus! {

/// Relies on `rand::Rng::gen_range` over `rand::thread_rng()`: it returns a
/// value of the half-open range `lo..hi`, and panics only when that range is
/// empty.
#[verifier::external_body]
pub(crate) fn random_below(lo: usize, hi: usize) -> (r: usize)
    requires
        lo < hi,
    ensures
        lo <= r < hi,
{
    rand::thread_rng().gen_range(lo..hi)
}

/// Relies on `rand::seq::SliceRandom::choose` over `rand::thread_rng()`: it
/// returns `None` for an empty slice and otherwise one of the slice's items.
#[verifier::external_body]
pub(crate) fn choose_from(items: &[char]) -> (r: Option<char>)
    ensures
        r is None <==> items@.len() == 0,
        r matches Some(c) ==> items@.contains(c),
{
    items.choose(&mut rand::thread_rng()).copied()
}

} // verus!
