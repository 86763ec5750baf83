//! The reading and writing sides of a slice queue.
use vstd::prelude::*;

verus! {

/// How many elements an operation that asks for `n` of `available` gets: all it asks for when
/// there are enough, otherwise all there are.
pub open spec fn granted(available: nat, n: nat) -> nat {
    if n <= available {
        n
    } else {
        available
    }
}

/// A queue whose elements are consumed from the front.
pub trait ReadableSliceQueue<T> {
    /// The stored elements, front first.
    spec fn queued(&self) -> Seq<T>;

    /// The number of stored elements.
    fn len(&self) -> (n: usize)
        ensures
            n == self.queued().len(),
    ;

    /// Whether no element is stored.
    fn is_empty(&self) -> (b: bool)
        ensures
            b == (self.queued().len() == 0),
    ;

    /// Removes the front element and returns it, or `Err(())` when there is none.
    fn pop(&mut self) -> (r: Result<T, ()>)
        ensures
            old(self).queued().len() == 0 ==> r == Err::<T, ()>(()) && final(self).queued()
                == old(self).queued(),
            old(self).queued().len() > 0 ==> r == Ok::<T, ()>(old(self).queued()[0])
                && final(self).queued() == old(self).queued().skip(1),
    ;

    /// Removes the first `n` elements and returns them in order: `Ok` when there were `n`,
    /// otherwise `Err` with all there were.
    fn pop_n(&mut self, n: usize) -> (r: Result<Vec<T>, Vec<T>>)
        ensures
            final(self).queued() == old(self).queued().skip(
                granted(old(self).queued().len(), n as nat) as int,
            ),
            n <= old(self).queued().len() ==> r is Ok && r->Ok_0@ == old(self).queued().take(
                n as int,
            ),
            n > old(self).queued().len() ==> r is Err && r->Err_0@ == old(self).queued(),
    ;

    /// Moves the first elements into `dst`, from `dst[0]` on, as many as `dst` holds or as
    /// there are; the previous occupants of the filled part are dropped. Returns `Ok` when
    /// `dst` was filled, otherwise `Err` with the number of elements moved.
    fn pop_into(&mut self, dst: &mut [T]) -> (r: Result<(), usize>)
        ensures
            ({
                let k = granted(old(self).queued().len(), old(dst)@.len());
                &&& final(dst)@ == old(self).queued().take(k as int) + old(dst)@.skip(k as int)
                &&& final(self).queued() == old(self).queued().skip(k as int)
                &&& r == if k == old(dst)@.len() {
                    Ok::<(), usize>(())
                } else {
                    Err::<(), usize>(k as usize)
                }
            }),
    ;

    /// Drops the first `n` elements: `Ok` when there were `n`, otherwise `Err` with the number
    /// dropped, which is all there were.
    fn drop_n(&mut self, n: usize) -> (r: Result<(), usize>)
        ensures
            final(self).queued() == old(self).queued().skip(
                granted(old(self).queued().len(), n as nat) as int,
            ),
            r == if n <= old(self).queued().len() {
                Ok::<(), usize>(())
            } else {
                Err::<(), usize>(old(self).queued().len() as usize)
            },
    ;
}

/// A queue that takes elements at the back, up to a limit.
pub trait WriteableSliceQueue<T> {
    /// The stored elements, front first.
    spec fn stored(&self) -> Seq<T>;

    /// How many more elements the queue accepts.
    spec fn room(&self) -> nat;

    /// How many more elements the queue accepts.
    fn remaining(&self) -> (r: usize)
        ensures
            r == self.room(),
    ;

    /// Asks for memory to append `n` more elements without reallocating, as far as the limit
    /// allows: `Ok` when all of it was asked for, otherwise `Err` with the part that was.
    fn reserve_n(&mut self, n: usize) -> (r: Result<(), usize>)
        requires
            old(self).stored().len() + n <= isize::MAX,
            (old(self).stored().len() + n) * vstd::layout::size_of::<T>() <= isize::MAX,
        ensures
            final(self).stored() == old(self).stored(),
            final(self).room() == old(self).room(),
            match r {
                Ok(()) => true,
                Err(k) => k < n,
            },
    ;

    /// How many elements can be appended without reallocating.
    fn reserved(&self) -> usize;

    /// Appends `element` when there is room, or hands it back in `Err`.
    fn push(&mut self, element: T) -> (r: Result<(), T>)
        ensures
            old(self).room() >= 1 ==> r == Ok::<(), T>(()) && final(self).stored() == old(
                self,
            ).stored().push(element) && final(self).room() == old(self).room() - 1,
            old(self).room() == 0 ==> r == Err::<(), T>(element) && final(self).stored() == old(
                self,
            ).stored() && final(self).room() == 0,
    ;

    /// Appends the leading elements of `n`, in order, as many as there is room for: `Ok` when
    /// all were taken, otherwise `Err` with those that were not.
    fn push_n(&mut self, n: Vec<T>) -> (r: Result<(), Vec<T>>)
        ensures
            ({
                let k = granted(old(self).room(), n@.len());
                &&& final(self).stored() == old(self).stored() + n@.take(k as int)
                &&& final(self).room() == old(self).room() - k
                &&& n@.len() <= old(self).room() ==> r is Ok
                &&& n@.len() > old(self).room() ==> r is Err && r->Err_0@ == n@.skip(k as int)
            }),
    ;

    /// Appends clones of the leading elements of `src`, in order, as many as there is room
    /// for: `Ok` when all were taken, otherwise `Err` with the number that were.
    fn push_from(&mut self, src: &[T]) -> (r: Result<(), usize>) where T: Clone
        ensures
            ({
                let k = granted(old(self).room(), src@.len());
                let n0 = old(self).stored().len();
                &&& final(self).stored().len() == n0 + k
                &&& final(self).stored().take(n0 as int) == old(self).stored()
                &&& forall|i: int|
                    0 <= i < k ==> cloned(src@[i], #[trigger] final(self).stored()[n0 + i])
                &&& final(self).room() == old(self).room() - k
                &&& r == if k == src@.len() {
                    Ok::<(), usize>(())
                } else {
                    Err::<(), usize>(k as usize)
                }
            }),
    ;

    /// Appends `n` default elements, lets `push_fn` fill them, and keeps as many of them as it
    /// reports: all up to `k` on `Ok(k)`, none on `Err`. Returns what `push_fn` returned.
    fn push_in_place<E, F: FnMut(&mut [T]) -> Result<usize, E>>(
        &mut self,
        n: usize,
        push_fn: F,
    ) -> (r: Result<usize, E>) where T: Default
        requires
            n <= old(self).room(),
            forall|s: &mut [T]| call_requires(push_fn, (s,)),
            forall|s: &mut [T], out: Result<usize, E>|
                call_ensures(push_fn, (s,), out) ==> final(s)@.len() == s@.len() && (
                out matches Ok(k) ==> k <= s@.len()),
        ensures
            match r {
                Ok(k) => {
                    &&& k <= n
                    &&& final(self).stored().len() == old(self).stored().len() + k
                    &&& final(self).stored().take(old(self).stored().len() as int) == old(
                        self,
                    ).stored()
                    &&& final(self).room() == old(self).room() - k
                },
                Err(_) => final(self).stored() == old(self).stored() && final(self).room() == old(
                    self,
                ).room(),
            },
            exists|s: &mut [T]|
                {
                    &&& #[trigger] call_ensures(push_fn, (s,), r)
                    &&& s@.len() == n
                    &&& forall|i: int|
                        0 <= i < n ==> call_ensures(T::default, (), #[trigger] s@[i])
                    &&& r matches Ok(k) ==> final(self).stored().skip(
                        old(self).stored().len() as int,
                    ) == final(s)@.take(k as int)
                },
    ;
}

} // verus!
