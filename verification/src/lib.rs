//! Building blocks for game plugins: a save/load pipeline that resolves where
//! a scene snapshot is written, and a guard that reports entities carrying two
//! tags that must never coexist.

pub mod mutual_exclusivity_guard;
pub mod save_load;

use vstd::prelude::*;

verus! {

/// Sum of two counts.
///
/// ```
/// use game_library::add;
///
/// let a = 5usize;
/// let b = 10usize;
///
/// assert_eq!(add(a, b), 15)
/// ```
pub fn add(left: usize, right: usize) -> (sum: usize)
    requires
        left + right <= usize::MAX,
    ensures
        sum == left + right,
{
    left + right
}

} // verus!
