//! The byte queue as a pull source and a push sink.
use crate::queue::SliceQueue;
use crate::traits::{granted, ReadableSliceQueue, WriteableSliceQueue};
use vstd::prelude::*;

verus! {

/// Declares `std::io::Error`, which only passes through as the error type of `Read` and
/// `Write`; no error is ever made here.
#[verifier::external_type_specification]
#[verifier::external_body]
pub struct ExIoError(std::io::Error);

impl SliceQueue<u8> {
    /// Moves bytes from the front into `buf`, as many as fit or as there are, and returns how
    /// many were moved. Never fails: 0 means that the queue or `buf` is empty.
    pub fn read_bytes(&mut self, buf: &mut [u8]) -> (count: usize)
        ensures
            count == granted(old(self)@.len(), old(buf)@.len()),
            final(buf)@ == old(self)@.take(count as int) + old(buf)@.skip(count as int),
            final(self)@ == old(self)@.skip(count as int),
            final(self).same_settings(old(self)),
    {
        let wanted = buf.len();
        match self.pop_into(buf) {
            Ok(()) => wanted,
            Err(moved) => moved,
        }
    }

    /// Appends the leading bytes of `buf`, as many as the limit admits, and returns how many
    /// were taken. Never fails: 0 means that the limit is reached or `buf` is empty.
    pub fn write_bytes(&mut self, buf: &[u8]) -> (count: usize)
        ensures
            count == granted(old(self).room(), buf@.len()),
            final(self)@ == old(self)@ + buf@.take(count as int),
            final(self).same_settings(old(self)),
    {
        let offered = buf.len();
        let r = self.push_from(buf);
        proof {
            let n0 = old(self)@.len();
            let k = self@.len() - n0;
            assert forall|i: int| 0 <= i < k implies self@[n0 + i] == buf@[i] by {
                assert(cloned(buf@[i], self@[n0 + i]));
            }
            assert(self@ =~= old(self)@ + buf@.take(k));
        }
        match r {
            Ok(()) => offered,
            Err(taken) => taken,
        }
    }

}


impl std::io::Read for SliceQueue<u8> {
    /// Reads as `read_bytes` does. Never fails.
    fn read(&mut self, buf: &mut [u8]) -> (r: std::io::Result<usize>)
        ensures
            r is Ok,
            r->Ok_0 == granted(old(self)@.len(), old(buf)@.len()),
            final(buf)@ == old(self)@.take(r->Ok_0 as int) + old(buf)@.skip(r->Ok_0 as int),
            final(self)@ == old(self)@.skip(r->Ok_0 as int),
            final(self).same_settings(old(self)),
    {
        Ok(self.read_bytes(buf))
    }
}

impl std::io::Write for SliceQueue<u8> {
    /// Writes as `write_bytes` does. Never fails.
    fn write(&mut self, buf: &[u8]) -> (r: std::io::Result<usize>)
        ensures
            r is Ok,
            r->Ok_0 == granted(old(self).room(), buf@.len()),
            final(self)@ == old(self)@ + buf@.take(r->Ok_0 as int),
            final(self).same_settings(old(self)),
    {
        Ok(self.write_bytes(buf))
    }

    /// Nothing is buffered beyond the queue itself, so there is nothing to flush.
    fn flush(&mut self) -> (r: std::io::Result<()>)
        ensures
            r is Ok,
            *final(self) == *old(self),
    {
        Ok(())
    }
}

} // verus!
