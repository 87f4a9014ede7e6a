//! Small helpers on vectors.

use vstd::prelude::*;

verus! {

/// Turns the order of `items` round.
pub(crate) fn reverse<T>(items: &mut Vec<T>)
    ensures
        final(items)@.len() == old(items)@.len(),
        forall|i: int|
            0 <= i < old(items)@.len() ==> (#[trigger] final(items)@[i]) == old(items)@[old(
                items,
            )@.len() - 1 - i],
{
    let mut turned: Vec<T> = Vec::new();
    let ghost all = items@;
    while items.len() > 0
        invariant
            items@.len() <= all.len(),
            items@ == all.take(items@.len() as int),
            turned@.len() + items@.len() == all.len(),
            forall|i: int|
                0 <= i < turned@.len() ==> (#[trigger] turned@[i]) == all[all.len() - 1 - i],
        decreases items.len(),
    {
        let item = items.pop().unwrap();
        turned.push(item);
    }
    *items = turned;
}

} // verus!
