use vstd::prelude::*;
use std::collections::VecDeque;

verus! {

/// Removes the first `num_elems` elements of `vec` and returns them in order.
pub fn take_front<T>(vec: &mut VecDeque<T>, num_elems: usize) -> (r: Vec<T>)
    requires
        num_elems <= old(vec)@.len(),
    ensures
        r@ == old(vec)@.take(num_elems as int),
        final(vec)@ == old(vec)@.skip(num_elems as int),
{
    let mut out: Vec<T> = Vec::with_capacity(num_elems);
    let mut i: usize = 0;
    while i < num_elems
        invariant
            i <= num_elems,
            num_elems <= old(vec)@.len(),
            out@ == old(vec)@.take(i as int),
            vec@ == old(vec)@.skip(i as int),
        decreases num_elems - i,
    {
        let x = vec.pop_front();
        match x {
            Some(v) => {
                out.push(v);
            },
            None => {},
        }
        i = i + 1;
        assert(out@ =~= old(vec)@.take(i as int));
        assert(vec@ =~= old(vec)@.skip(i as int));
    }
    out
}

} // verus!
