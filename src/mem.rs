//! Bulk removal from the front of a vector.
//!
//! Each function removes a prefix of the vector and moves the remaining elements to index 0,
//! keeping their order. The vector keeps its allocation: only its length changes.
use vstd::prelude::*;

verus! {

/// Drops the first `n` elements of `src`.
pub fn drop_n<T>(src: &mut Vec<T>, n: usize)
    requires
        n <= old(src)@.len(),
    ensures
        final(src)@ == old(src)@.skip(n as int),
{
    let mut rest = src.split_off(n);
    src.clear();
    src.append(&mut rest);
    proof {
        assert(final(src)@ =~= old(src)@.skip(n as int));
    }
}

/// Moves the first `n` elements of `src` into a new vector, in order.
pub fn drain_n<T>(src: &mut Vec<T>, n: usize) -> (front: Vec<T>)
    requires
        n <= old(src)@.len(),
    ensures
        front@ == old(src)@.take(n as int),
        final(src)@ == old(src)@.skip(n as int),
{
    let mut rest = src.split_off(n);
    let mut front: Vec<T> = Vec::with_capacity(n);
    front.append(src);
    src.append(&mut rest);
    proof {
        assert(front@ =~= old(src)@.take(n as int));
        assert(src@ =~= old(src)@.skip(n as int));
    }
    front
}

/// Moves the first `dst.len()` elements of `src` into `dst`, in order; the previous occupants
/// of `dst` are dropped.
pub fn drain_into<T>(src: &mut Vec<T>, dst: &mut [T])
    requires
        old(dst)@.len() <= old(src)@.len(),
    ensures
        final(dst)@ == old(src)@.take(old(dst)@.len() as int),
        final(src)@ == old(src)@.skip(old(dst)@.len() as int),
{
    let k = dst.len();
    let mut front = drain_n(src, k);
    let mut i: usize = k;
    while i > 0
        invariant
            i <= k,
            k == dst@.len(),
            k <= old(src)@.len(),
            front@ == old(src)@.take(i as int),
            forall|j: int| i <= j < k ==> dst@[j] == #[trigger] old(src)@[j],
        decreases i,
    {
        let last = front.pop();
        match last {
            Some(e) => {
                i = i - 1;
                dst[i] = e;
            },
            None => {
                // `front` holds `i > 0` elements, so this arm is never taken.
                i = 0;
            },
        }
        proof {
            assert(front@ =~= old(src)@.take(i as int));
        }
    }
    proof {
        assert(dst@ =~= old(src)@.take(k as int));
    }
}

} // verus!
