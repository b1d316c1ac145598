//! Which of the addresses that a name resolves to is probed.

use vstd::prelude::*;

verus! {

/// Of the candidates that a lookup gave, the one to probe: the first, and
/// none where the lookup gave none.
pub fn first_candidate<T>(candidates: Vec<T>) -> (chosen: Option<T>)
    ensures
        candidates@.len() == 0 ==> chosen is None,
        candidates@.len() > 0 ==> chosen == Some(candidates@[0]),
{
    let mut rest = candidates;
    if rest.len() == 0 {
        None
    } else {
        Some(rest.swap_remove(0))
    }
}

} // verus!
