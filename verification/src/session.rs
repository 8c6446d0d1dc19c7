//! Choosing the next question: an even coin picks the common pool (the
//! first entries of the word list) or the remainder, and the index is
//! drawn uniformly from the chosen pool.

use vstd::prelude::*;
use rand::Rng;

verus! {

/// How many words of the list make up the common pool.
pub const COMMON_POOL: usize = 100;

/// The half-open index range a question is drawn from: the common pool,
/// or everything after it.
pub open spec fn pool_bounds_spec(common: bool, len: int) -> (int, int) {
    if common {
        (0, COMMON_POOL as int)
    } else {
        (COMMON_POOL as int, len)
    }
}

/// The bounds of the chosen pool within a list of `len` words.
pub fn pool_bounds(common: bool, len: usize) -> (r: (usize, usize))
    requires
        COMMON_POOL < len,
    ensures
        r.0 as int == pool_bounds_spec(common, len as int).0,
        r.1 as int == pool_bounds_spec(common, len as int).1,
        r.0 < r.1 <= len,
{
    if common {
        (0, COMMON_POOL)
    } else {
        (COMMON_POOL, len)
    }
}

/// Relies on rand::random::<bool>: a fresh even coin flip from the
/// thread-local generator; nothing is promised of the outcome.
#[verifier::external_body]
fn coin_flip() -> bool {
    rand::random::<bool>()
}

/// Relies on rand::Rng::gen_range on `lo..hi`: the result lies in the
/// given range, and the call panics only on an empty range, which the
/// precondition rules out.
#[verifier::external_body]
fn random_in_range(lo: usize, hi: usize) -> (r: usize)
    requires
        lo < hi,
    ensures
        lo <= r < hi,
{
    rand::thread_rng().gen_range(lo..hi)
}

/// The index of the next question in a list of `len` words: an even coin
/// chooses the common pool or the remainder, and the index is drawn from
/// the chosen pool. Whatever the draws give, the index is in bounds.
pub fn pick_question_index(len: usize) -> (i: usize)
    requires
        COMMON_POOL < len,
    ensures
        i < len,
{
    let common = coin_flip();
    let (lo, hi) = pool_bounds(common, len);
    random_in_range(lo, hi)
}

} // verus!
