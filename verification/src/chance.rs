//! Random draws, taken from the generator of the current thread.

use vstd::prelude::*;
use rand::seq::IteratorRandom;
use rand::Rng;

verus! {

/// `IteratorRandom::choose` of the rand crate, on the range `0..len` with the
/// thread's generator. Claimed: the result is `None` exactly for the empty
/// range, and otherwise a number below `len`. Which number is left open.
#[verifier::external_body]
pub(crate) fn choose_index(len: usize) -> (index: Option<usize>)
    ensures
        index is None <==> len == 0,
        index matches Some(i) ==> i < len,
{
    (0..len).choose(&mut rand::thread_rng())
}

/// `Rng::gen_range` of the rand crate, on the range `0..=high` with the
/// thread's generator. Claimed: the result is at most `high`. Which number
/// is left open.
#[verifier::external_body]
pub(crate) fn draw_up_to(high: usize) -> (drawn: usize)
    ensures
        drawn <= high,
{
    rand::thread_rng().gen_range(0..=high)
}

} // verus!
