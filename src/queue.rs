//! The queue itself: storage, limit and shrink policy.
use crate::backing::{capacity_of, release_excess, reserve_exactly};
use crate::mem;
use crate::range::RangeSelector;
use crate::traits::{granted, ReadableSliceQueue, WriteableSliceQueue};
use core::ops::{Index, Range};
use vstd::prelude::*;

verus! {

/// The opportunistic policy leaves a queue of at most this many elements alone, whatever its
/// capacity, so that small queues are not reallocated over and over.
pub const SHRINK_FLOOR: usize = 4;

/// What a queue does with its memory after elements were consumed.
#[derive(Copy, Clone, Debug, PartialEq, Eq, Structural, PartialOrd, Ord)]
pub enum AutoShrinkMode {
    /// Releases memory once at most half of the capacity is used, or when the capacity exceeds
    /// the limit (see `shrink_wanted`). This is the default.
    Opportunistic,
    /// Releases all unused memory after every removal.
    Aggressive,
    /// Never releases memory on its own; `shrink_opportunistic` and `shrink_to_fit` still do.
    Disabled,
}

impl Default for AutoShrinkMode {
    /// `Opportunistic`.
    fn default() -> (mode: Self)
        ensures
            mode == AutoShrinkMode::Opportunistic,
    {
        AutoShrinkMode::Opportunistic
    }
}

/// How many more elements a queue of `len` elements accepts under `limit`; none once the
/// limit was lowered below the length.
pub open spec fn room_under(len: nat, limit: nat) -> nat {
    if len <= limit {
        (limit - len) as nat
    } else {
        0
    }
}

/// The opportunistic shrink policy: release memory when the queue holds more than
/// `SHRINK_FLOOR` elements and either uses at most half of `capacity` or has a capacity above
/// its limit.
pub open spec fn shrink_wanted(len: nat, capacity: nat, limit: nat) -> bool {
    len > SHRINK_FLOOR && (len <= capacity / 2 || capacity > limit)
}

/// Decides the opportunistic shrink policy for a queue of `len` elements with the given
/// `capacity` and `limit`.
pub fn should_shrink(len: usize, capacity: usize, limit: usize) -> (b: bool)
    ensures
        b == shrink_wanted(len as nat, capacity as nat, limit as nat),
{
    len > SHRINK_FLOOR && (len <= capacity / 2 || capacity > limit)
}

/// How many slots `reserve_n(n)` asks for when the queue's allocation holds `capacity`: as
/// many as wanted, but never so many that the capacity would pass the limit.
pub open spec fn reservation(limit: nat, capacity: nat, n: nat) -> nat {
    granted(room_under(capacity, limit), n)
}

/// Computes `reservation(limit, capacity, n)`.
pub fn reservation_for(limit: usize, capacity: usize, n: usize) -> (k: usize)
    ensures
        k == reservation(limit as nat, capacity as nat, n as nat),
{
    let headroom = if capacity <= limit {
        limit - capacity
    } else {
        0
    };
    if n <= headroom {
        n
    } else {
        headroom
    }
}

/// A queue that takes elements at the back and gives them out from the front, in bulk.
///
/// The stored elements always start at index 0 of one vector. Appending stops at `limit`
/// elements; the limit may be lowered below the current length, which only stops further
/// appends. After each removal the queue may release memory, as its `AutoShrinkMode` says.
#[derive(Debug)]
pub struct SliceQueue<T> {
    backing: Vec<T>,
    limit: usize,
    auto_shrink_mode: AutoShrinkMode,
}

impl<T> View for SliceQueue<T> {
    type V = Seq<T>;

    /// The stored elements, front first.
    closed spec fn view(&self) -> Seq<T> {
        self.backing@
    }
}

impl<T> SliceQueue<T> {
    /// The most elements that appends may bring the queue to.
    pub closed spec fn limit_spec(&self) -> usize {
        self.limit
    }

    /// The shrink mode in force.
    pub closed spec fn mode_spec(&self) -> AutoShrinkMode {
        self.auto_shrink_mode
    }

    /// `self` and `other` have the same limit and shrink mode.
    pub open spec fn same_settings(&self, other: &Self) -> bool {
        self.limit_spec() == other.limit_spec() && self.mode_spec() == other.mode_spec()
    }

    /// The length is within the limit.
    pub open spec fn within_limit(&self) -> bool {
        self@.len() <= self.limit_spec()
    }

    /// Creates an empty queue without a limit (the limit is `usize::MAX`).
    pub fn new() -> (q: Self)
        ensures
            q@ == Seq::<T>::empty(),
            q.limit_spec() == usize::MAX,
            q.mode_spec() == AutoShrinkMode::Opportunistic,
    {
        SliceQueue { backing: Vec::new(), limit: usize::MAX, auto_shrink_mode: AutoShrinkMode::default() }
    }

    /// Creates an empty queue without a limit, with memory for `n` elements allocated.
    pub fn with_capacity(n: usize) -> (q: Self)
        ensures
            q@ == Seq::<T>::empty(),
            q.limit_spec() == usize::MAX,
            q.mode_spec() == AutoShrinkMode::Opportunistic,
    {
        SliceQueue {
            backing: Vec::with_capacity(n),
            limit: usize::MAX,
            auto_shrink_mode: AutoShrinkMode::default(),
        }
    }

    /// Creates an empty queue that holds at most `limit` elements.
    pub fn with_limit(limit: usize) -> (q: Self)
        requires
            limit > 0,
        ensures
            q@ == Seq::<T>::empty(),
            q.limit_spec() == limit,
            q.mode_spec() == AutoShrinkMode::Opportunistic,
    {
        SliceQueue { backing: Vec::new(), limit, auto_shrink_mode: AutoShrinkMode::default() }
    }

    /// Sets what the queue does with its memory after later removals.
    pub fn set_auto_shrink_mode(&mut self, mode: AutoShrinkMode)
        ensures
            final(self)@ == old(self)@,
            final(self).limit_spec() == old(self).limit_spec(),
            final(self).mode_spec() == mode,
    {
        self.auto_shrink_mode = mode;
    }

    /// The shrink mode in force.
    pub fn auto_shrink_mode(&self) -> (mode: AutoShrinkMode)
        ensures
            mode == self.mode_spec(),
    {
        self.auto_shrink_mode
    }

    /// Sets a new limit. A limit below the current length drops nothing: it only stops
    /// appends until enough elements were consumed.
    pub fn set_limit(&mut self, limit: usize)
        requires
            limit > 0,
        ensures
            final(self)@ == old(self)@,
            final(self).limit_spec() == limit,
            final(self).mode_spec() == old(self).mode_spec(),
    {
        self.limit = limit;
    }

    /// The limit in force.
    pub fn limit(&self) -> (limit: usize)
        ensures
            limit == self.limit_spec(),
    {
        self.limit
    }

    /// Releases unused memory when `shrink_wanted` holds of the length, the capacity and the
    /// limit; the elements stay as they are.
    pub fn shrink_opportunistic(&mut self)
        ensures
            final(self)@ == old(self)@,
            final(self).same_settings(old(self)),
    {
        let capacity = capacity_of(&self.backing);
        if should_shrink(self.backing.len(), capacity, self.limit) {
            release_excess(&mut self.backing);
        }
    }

    /// Releases as much unused memory as the allocator allows; the elements stay as they are.
    pub fn shrink_to_fit(&mut self)
        ensures
            final(self)@ == old(self)@,
            final(self).same_settings(old(self)),
    {
        release_excess(&mut self.backing);
    }

    /// Does what the shrink mode says: `shrink_opportunistic`, `shrink_to_fit`, or nothing.
    pub fn auto_shrink(&mut self)
        ensures
            final(self)@ == old(self)@,
            final(self).same_settings(old(self)),
    {
        match self.auto_shrink_mode {
            AutoShrinkMode::Opportunistic => self.shrink_opportunistic(),
            AutoShrinkMode::Aggressive => self.shrink_to_fit(),
            AutoShrinkMode::Disabled => {},
        }
    }

    /// The front element, if any, left in place.
    pub fn peek(&self) -> (r: Option<&T>)
        ensures
            self@.len() == 0 ==> r is None,
            self@.len() > 0 ==> r == Some(&self@[0]),
    {
        if self.backing.len() == 0 {
            None
        } else {
            Some(&self.backing[0])
        }
    }

    /// The first `n` elements, left in place: `Ok` when there are `n`, otherwise `Err` with all
    /// there are.
    pub fn peek_n(&self, n: usize) -> (r: Result<&[T], &[T]>)
        ensures
            n <= self@.len() ==> r is Ok && r->Ok_0@ == self@.take(n as int),
            n > self@.len() ==> r is Err && r->Err_0@ == self@,
    {
        let all = self.backing.as_slice();
        if n <= all.len() {
            let (head, _) = all.split_at(n);
            Ok(head)
        } else {
            Err(all)
        }
    }

    /// The half-open range of indices that `bounds` selects out of the stored elements.
    pub fn range_from_bounds<R: RangeSelector>(&self, bounds: R) -> (r: Range<usize>)
        requires
            bounds.fits(self@.len()),
        ensures
            r.start == bounds.lower(self@.len()),
            r.end == bounds.upper(self@.len()),
            r.start <= r.end <= self@.len(),
    {
        bounds.resolve(self.backing.len())
    }
}


impl<T> ReadableSliceQueue<T> for SliceQueue<T> {
    open spec fn queued(&self) -> Seq<T> {
        self@
    }

    fn len(&self) -> (n: usize) {
        self.backing.len()
    }

    fn is_empty(&self) -> (b: bool) {
        self.backing.is_empty()
    }

    fn pop(&mut self) -> (r: Result<T, ()>)
        ensures
            final(self).same_settings(old(self)),
            old(self).within_limit() ==> final(self).within_limit(),
    {
        if self.backing.is_empty() {
            Err(())
        } else {
            let element = self.backing.remove(0);
            self.auto_shrink();
            proof {
                assert(self@ =~= old(self)@.skip(1));
            }
            Ok(element)
        }
    }

    fn pop_n(&mut self, n: usize) -> (r: Result<Vec<T>, Vec<T>>)
        ensures
            final(self).same_settings(old(self)),
            old(self).within_limit() ==> final(self).within_limit(),
    {
        let available = self.backing.len();
        let to_consume = if n <= available {
            n
        } else {
            available
        };
        let elements = mem::drain_n(&mut self.backing, to_consume);
        self.auto_shrink();
        proof {
            assert(to_consume == available ==> elements@ =~= old(self)@);
        }
        if to_consume == n {
            Ok(elements)
        } else {
            Err(elements)
        }
    }

    fn pop_into(&mut self, dst: &mut [T]) -> (r: Result<(), usize>)
        ensures
            final(self).same_settings(old(self)),
            old(self).within_limit() ==> final(self).within_limit(),
    {
        let available = self.backing.len();
        let wanted = dst.len();
        let to_move = if wanted <= available {
            wanted
        } else {
            available
        };
        let (head, _) = dst.split_at_mut(to_move);
        mem::drain_into(&mut self.backing, head);
        self.auto_shrink();
        proof {
            assert(dst@ =~= old(self)@.take(to_move as int) + old(dst)@.skip(to_move as int));
        }
        if to_move == wanted {
            Ok(())
        } else {
            Err(to_move)
        }
    }

    fn drop_n(&mut self, n: usize) -> (r: Result<(), usize>)
        ensures
            final(self).same_settings(old(self)),
            old(self).within_limit() ==> final(self).within_limit(),
    {
        let available = self.backing.len();
        let to_drop = if n <= available {
            n
        } else {
            available
        };
        mem::drop_n(&mut self.backing, to_drop);
        self.auto_shrink();
        if to_drop == n {
            Ok(())
        } else {
            Err(to_drop)
        }
    }
}


impl<T> WriteableSliceQueue<T> for SliceQueue<T> {
    open spec fn stored(&self) -> Seq<T> {
        self@
    }

    open spec fn room(&self) -> nat {
        room_under(self@.len(), self.limit_spec() as nat)
    }

    fn remaining(&self) -> (r: usize) {
        let len = self.backing.len();
        if len <= self.limit {
            self.limit - len
        } else {
            0
        }
    }

    fn reserve_n(&mut self, n: usize) -> (r: Result<(), usize>)
        ensures
            final(self).same_settings(old(self)),
            exists|capacity: nat|
                #![trigger reservation(old(self).limit_spec() as nat, capacity, n as nat)]
                capacity >= old(self)@.len() && r == if reservation(
                    old(self).limit_spec() as nat,
                    capacity,
                    n as nat,
                ) == n {
                    Ok::<(), usize>(())
                } else {
                    Err::<(), usize>(
                        reservation(old(self).limit_spec() as nat, capacity, n as nat) as usize,
                    )
                },
    {
        let capacity = capacity_of(&self.backing);
        let to_reserve = reservation_for(self.limit, capacity, n);
        proof {
            let len = self.backing@.len();
            let size = vstd::layout::size_of::<T>();
            assert((len + to_reserve) * size <= (len + n) * size) by (nonlinear_arith)
                requires
                    to_reserve <= n,
            ;
        }
        reserve_exactly(&mut self.backing, to_reserve);
        proof {
            assert(reservation(old(self).limit_spec() as nat, capacity as nat, n as nat)
                == to_reserve);
        }
        if to_reserve == n {
            Ok(())
        } else {
            Err(to_reserve)
        }
    }

    fn reserved(&self) -> (r: usize) {
        capacity_of(&self.backing) - self.backing.len()
    }

    fn push(&mut self, element: T) -> (r: Result<(), T>)
        ensures
            final(self).same_settings(old(self)),
            old(self).within_limit() ==> final(self).within_limit(),
    {
        if self.remaining() >= 1 {
            self.backing.push(element);
            Ok(())
        } else {
            Err(element)
        }
    }

    fn push_n(&mut self, n: Vec<T>) -> (r: Result<(), Vec<T>>)
        ensures
            final(self).same_settings(old(self)),
            old(self).within_limit() ==> final(self).within_limit(),
    {
        let ghost input = n@;
        let mut n = n;
        let room = self.remaining();
        if room >= n.len() {
            self.backing.append(&mut n);
            proof {
                assert(input.take(input.len() as int) =~= input);
            }
            Ok(())
        } else {
            let rest = n.split_off(room);
            self.backing.append(&mut n);
            Err(rest)
        }
    }

    fn push_from(&mut self, src: &[T]) -> (r: Result<(), usize>) where T: Clone
        ensures
            final(self).same_settings(old(self)),
            old(self).within_limit() ==> final(self).within_limit(),
    {
        let room = self.remaining();
        let to_append = if src.len() <= room {
            src.len()
        } else {
            room
        };
        let (head, _) = src.split_at(to_append);
        self.backing.extend_from_slice(head);
        proof {
            assert(self@.take(old(self)@.len() as int) =~= old(self)@);
        }
        if to_append == src.len() {
            Ok(())
        } else {
            Err(to_append)
        }
    }

    fn push_in_place<E, F: FnMut(&mut [T]) -> Result<usize, E>>(
        &mut self,
        n: usize,
        push_fn: F,
    ) -> (r: Result<usize, E>) where T: Default
        ensures
            final(self).same_settings(old(self)),
            old(self).within_limit() ==> final(self).within_limit(),
    {
        let mut push_fn = push_fn;
        let old_len = self.backing.len();
        self.backing.reserve(n);
        let mut i: usize = 0;
        while i < n
            invariant
                i <= n,
                old_len == old(self)@.len(),
                self.limit == old(self).limit,
                self.auto_shrink_mode == old(self).auto_shrink_mode,
                self.backing@.len() == old_len + i,
                self.backing@.take(old_len as int) == old(self)@,
                forall|j: int|
                    old_len <= j < self.backing@.len() ==> call_ensures(
                        T::default,
                        (),
                        #[trigger] self.backing@[j],
                    ),
            decreases n - i,
        {
            self.backing.push(T::default());
            i = i + 1;
            proof {
                assert(self.backing@.take(old_len as int) =~= old(self)@);
            }
        }
        let ghost filled = self.backing@;
        let (_, fresh) = self.backing.as_mut_slice().split_at_mut(old_len);
        let ghost handed = fresh;
        proof {
            assert(fresh@.len() == n);
            assert forall|j: int| 0 <= j < n implies call_ensures(
                T::default,
                (),
                #[trigger] fresh@[j],
            ) by {
                assert(fresh@[j] == filled[old_len + j]);
            }
        }
        let pushed = push_fn(fresh);
        proof {
            let witness = handed;
            assert(exists|s: &mut [T]|
                call_ensures(push_fn, (s,), pushed) && s@ == witness@ && final(s)@ == final(witness)@);
        }
        let keep = match &pushed {
            Ok(k) => *k,
            Err(_) => 0,
        };
        self.backing.truncate(old_len + keep);
        self.shrink_opportunistic();
        proof {
            assert(self@.take(old_len as int) =~= old(self)@);
            assert(pushed is Err ==> self@ =~= old(self)@);
        }
        pushed
    }
}


impl<T> Default for SliceQueue<T> {
    /// An empty queue without a limit, as `new` makes.
    fn default() -> (q: Self)
        ensures
            q@ == Seq::<T>::empty(),
            q.limit_spec() == usize::MAX,
            q.mode_spec() == AutoShrinkMode::Opportunistic,
    {
        SliceQueue::new()
    }
}

impl<T> From<Vec<T>> for SliceQueue<T> {
    /// A queue without a limit that holds the elements of `vec`, in order.
    fn from(vec: Vec<T>) -> (q: Self)
        ensures
            q@ == vec@,
            q.limit_spec() == usize::MAX,
            q.mode_spec() == AutoShrinkMode::Opportunistic,
    {
        SliceQueue { backing: vec, limit: usize::MAX, auto_shrink_mode: AutoShrinkMode::default() }
    }
}

impl<T> vstd::std_specs::convert::FromSpecImpl<Vec<T>> for SliceQueue<T> {
    open spec fn obeys_from_spec() -> bool {
        false
    }

    open spec fn from_spec(vec: Vec<T>) -> Self {
        arbitrary()
    }
}

impl<'a, T: Clone> From<&'a [T]> for SliceQueue<T> {
    /// A queue without a limit that holds clones of the elements of `slice`, in order.
    fn from(slice: &'a [T]) -> (q: Self)
        ensures
            q@.len() == slice@.len(),
            forall|i: int| 0 <= i < slice@.len() ==> cloned(slice@[i], #[trigger] q@[i]),
            q.limit_spec() == usize::MAX,
            q.mode_spec() == AutoShrinkMode::Opportunistic,
    {
        let mut backing: Vec<T> = Vec::new();
        backing.extend_from_slice(slice);
        SliceQueue { backing, limit: usize::MAX, auto_shrink_mode: AutoShrinkMode::default() }
    }
}

impl<'a, T: Clone> vstd::std_specs::convert::FromSpecImpl<&'a [T]> for SliceQueue<T> {
    open spec fn obeys_from_spec() -> bool {
        false
    }

    open spec fn from_spec(slice: &'a [T]) -> Self {
        arbitrary()
    }
}


impl<T> Index<usize> for SliceQueue<T> {
    type Output = T;

    /// The element at index `i`, counted from the front.
    fn index(&self, i: usize) -> (r: &T)
        ensures
            *r == self@[i as int],
    {
        &self.backing[i]
    }
}

impl<T> vstd::std_specs::core::IndexSpecImpl<usize> for SliceQueue<T> {
    open spec fn index_req(&self, i: &usize) -> bool {
        *i < self@.len()
    }
}

impl<T, R: RangeSelector> Index<R> for SliceQueue<T> {
    type Output = [T];

    /// The run of elements that `bounds` selects.
    fn index(&self, bounds: R) -> (r: &[T])
        ensures
            r@ == self@.subrange(bounds.lower(self@.len()), bounds.upper(self@.len())),
    {
        let range = bounds.resolve(self.backing.len());
        let all = self.backing.as_slice();
        let (_, from_start) = all.split_at(range.start);
        let (run, _) = from_start.split_at(range.end - range.start);
        proof {
            assert(run@ =~= self@.subrange(range.start as int, range.end as int));
        }
        run
    }
}

impl<T, R: RangeSelector> vstd::std_specs::core::IndexSpecImpl<R> for SliceQueue<T> {
    open spec fn index_req(&self, bounds: &R) -> bool {
        bounds.fits(self@.len())
    }
}

impl<T: Clone> Clone for SliceQueue<T> {
    /// A queue with clones of the elements and the same limit; the shrink mode of the copy is
    /// the default one.
    fn clone(&self) -> (q: Self)
        ensures
            q@.len() == self@.len(),
            forall|i: int| 0 <= i < self@.len() ==> cloned(self@[i], #[trigger] q@[i]),
            q.limit_spec() == self.limit_spec(),
            q.mode_spec() == AutoShrinkMode::Opportunistic,
    {
        let mut backing: Vec<T> = Vec::new();
        backing.extend_from_slice(self.backing.as_slice());
        SliceQueue { backing, limit: self.limit, auto_shrink_mode: AutoShrinkMode::default() }
    }
}


impl<T> From<SliceQueue<T>> for Vec<T> {
    fn from(queue: SliceQueue<T>) -> (v: Vec<T>)
        ensures
            v@ == queue@,
    {
        queue.backing
    }
}

impl<T> vstd::std_specs::convert::FromSpecImpl<SliceQueue<T>> for Vec<T> {
    open spec fn obeys_from_spec() -> bool {
        false
    }

    open spec fn from_spec(queue: SliceQueue<T>) -> Self {
        arbitrary()
    }
}

} // verus!
