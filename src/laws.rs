//! Laws that hold across several of the queue's operations, stated over the functions in
//! which the operations' contracts are written.
use crate::queue::{room_under, shrink_wanted, SHRINK_FLOOR};
use crate::traits::granted;
use vstd::prelude::*;

verus! {

/// Round trip: when an empty queue under `limit` takes `s` with `push_n` and the limit admits
/// all of `s`, everything is taken, and a `pop_n` of `s.len()` elements then returns exactly
/// `s`, in order, and leaves the queue empty.
pub proof fn lemma_round_trip<T>(s: Seq<T>, limit: nat)
    requires
        s.len() <= limit,
    ensures
        ({
            let taken = granted(room_under(0, limit), s.len());
            let stored = Seq::<T>::empty() + s.take(taken as int);
            &&& taken == s.len()
            &&& stored == s
            &&& s.len() <= stored.len() && stored.take(s.len() as int) == s
            &&& stored.skip(granted(stored.len(), s.len()) as int) == Seq::<T>::empty()
        }),
{
    let stored = Seq::<T>::empty() + s.take(s.len() as int);
    assert(stored =~= s);
    assert(s.take(s.len() as int) =~= s);
    assert(s.skip(s.len() as int) =~= Seq::<T>::empty());
}

/// Order under partial consumption: after the first `k` of `s` are removed, with `k` below
/// the length, what remains is the suffix of `s` from `k` on, starting at index 0.
pub proof fn lemma_partial_consumption<T>(s: Seq<T>, k: nat)
    requires
        k < s.len(),
    ensures
        s.skip(granted(s.len(), k) as int).len() == s.len() - k,
        forall|i: int|
            0 <= i < s.len() - k ==> #[trigger] s.skip(granted(s.len(), k) as int)[i] == s[k + i],
{
}

/// The limit holds: an append to a queue whose length is within its limit leaves the length
/// within the limit; and appending `m` elements when only `r < m` more are admitted takes
/// exactly `r` of them and hands back the other `m - r`.
pub proof fn lemma_limit_holds(len: nat, limit: nat, m: nat)
    ensures
        len <= limit ==> len + granted(room_under(len, limit), m) <= limit,
        room_under(len, limit) < m ==> granted(room_under(len, limit), m) == room_under(
            len,
            limit,
        ) && m - granted(room_under(len, limit), m) == m - room_under(len, limit),
        m <= room_under(len, limit) ==> granted(room_under(len, limit), m) == m,
{
}

/// Shrink trigger: under the opportunistic policy a queue of more than `SHRINK_FLOOR`
/// elements that uses at most half of its capacity releases memory, and a queue of at most
/// `SHRINK_FLOOR` elements never does, whatever its capacity and limit.
pub proof fn lemma_shrink_trigger(len: nat, capacity: nat, limit: nat)
    ensures
        len > SHRINK_FLOOR && len <= capacity / 2 ==> shrink_wanted(len, capacity, limit),
        len <= SHRINK_FLOOR ==> !shrink_wanted(len, capacity, limit),
{
}

} // verus!
