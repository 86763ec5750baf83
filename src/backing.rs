//! The few allocation queries and requests on `Vec` that the queue needs beyond what vstd
//! specifies. What the allocator hands out differs between runs, so nothing here names a
//! capacity: each caller takes the value it got as it comes.
use vstd::prelude::*;

verus! {

/// Relies on `Vec::capacity`: a vector always has room for at least its own elements.
#[verifier::external_body]
pub(crate) fn capacity_of<T>(v: &Vec<T>) -> (cap: usize)
    ensures
        cap >= v@.len(),
{
    v.capacity()
}

/// Relies on `Vec::shrink_to_fit`: the allocation may change, the elements do not.
#[verifier::external_body]
pub(crate) fn release_excess<T>(v: &mut Vec<T>)
    ensures
        final(v)@ == old(v)@,
{
    v.shrink_to_fit()
}

/// Relies on `Vec::reserve_exact`: the allocation may grow, the elements do not change. It
/// panics when the new capacity would exceed `isize::MAX` bytes, which `requires` rules out.
#[verifier::external_body]
pub(crate) fn reserve_exactly<T>(v: &mut Vec<T>, additional: usize)
    requires
        old(v)@.len() + additional <= isize::MAX,
        (old(v)@.len() + additional) * vstd::layout::size_of::<T>() <= isize::MAX,
    ensures
        final(v)@ == old(v)@,
{
    v.reserve_exact(additional)
}

} // verus!
