//! Moving the elements out of a vector in order.
use vstd::prelude::*;

verus! {

/// `v` in reverse order. Popping from the result hands out the elements of
/// `v` front to back.
pub fn reversed<T>(v: Vec<T>) -> (res: Vec<T>)
    ensures
        res@.len() == v@.len(),
        forall|j: int| 0 <= j < v@.len() ==> #[trigger] res@[j] == v@[v@.len() - 1 - j],
{
    let ghost orig = v@;
    let mut v = v;
    let mut res: Vec<T> = Vec::new();
    while v.len() > 0
        invariant
            v@ == orig.take(v@.len() as int),
            res@.len() + v@.len() == orig.len(),
            forall|j: int| 0 <= j < res@.len() ==> #[trigger] res@[j] == orig[orig.len() - 1 - j],
        decreases v@.len(),
    {
        let x = v.pop().unwrap();
        res.push(x);
        assert(orig.take(v@.len() as int) =~= v@);
    }
    res
}

} // verus!
