//! `SliceQueue`: a bounded queue for appending many elements at the back and consuming many
//! from the front, with an enforced size limit and a tunable shrink policy.
//!
//! - `mem`: moving a prefix out of a vector and shifting the rest to the front.
//! - `traits`: the reading and writing sides of a queue, with their contracts.
//! - `queue`: the queue, its limit and its shrink policy.
//! - `range`: selecting a run of elements with range syntax.
//! - `stream`: the byte queue as `std::io::Read` and `std::io::Write`.
//! - `laws`: properties that span several operations.
//! - `backing`: the allocation requests on `Vec` that vstd does not specify.

mod backing;
mod laws;
mod mem;
mod queue;
mod range;
mod stream;
mod traits;

pub use laws::{lemma_limit_holds, lemma_partial_consumption, lemma_round_trip, lemma_shrink_trigger};
pub use mem::{drain_into, drain_n, drop_n};
pub use queue::{
    reservation, reservation_for, room_under, should_shrink, shrink_wanted, AutoShrinkMode,
    SliceQueue, SHRINK_FLOOR,
};
pub use range::RangeSelector;
pub use traits::{granted, ReadableSliceQueue, WriteableSliceQueue};
