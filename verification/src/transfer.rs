//! The Transfer Executor's bookkeeping: what one download attempt writes to
//! the destination, chunk by chunk.
//!
//! An attempt always starts from a truncated file, so bytes from an earlier,
//! failed attempt never accumulate: after any sequence of chunk writes the
//! destination holds exactly the chunks of this attempt, in order. The
//! owning task's progress indicator advances by each chunk's byte length
//! immediately after the chunk is written, and no other task's indicator is
//! touched.

use vstd::prelude::*;

use crate::progress::{advanced, Indicator, ProgressAggregator};

verus! {

/// One download attempt's view of the destination file.
pub struct Transfer {
    written: Vec<u8>,
}

impl Transfer {
    /// The bytes the attempt has written so far, from the start of the file.
    pub closed spec fn spec_written(&self) -> Seq<u8> {
        self.written@
    }

    /// Begin an attempt: the destination is created or truncated, so the
    /// file holds nothing of any earlier attempt.
    pub fn begin() -> (t: Self)
        ensures
            t.spec_written().len() == 0,
    {
        Transfer { written: Vec::new() }
    }

    /// Append one received chunk and advance the owning task's indicator by
    /// the chunk's byte length. Every other indicator is left untouched.
    pub fn chunk(&mut self, data: &[u8], mp: &mut ProgressAggregator, h: usize)
        requires
            old(mp).wf_handle(h),
        ensures
            final(self).spec_written() == old(self).spec_written() + data@,
            final(mp).spec_bars().len() == old(mp).spec_bars().len(),
            final(mp).spec_bars()[h as int] == (Indicator {
                position: advanced(old(mp).spec_bars()[h as int].position, data@.len() as u64),
                ..old(mp).spec_bars()[h as int]
            }),
            forall|j: int|
                0 <= j < old(mp).spec_bars().len() && j != h ==> final(mp).spec_bars()[j] == old(
                    mp,
                ).spec_bars()[j],
    {
        let mut k: usize = 0;
        let ghost before = self.written@;
        while k < data.len()
            invariant
                k <= data@.len(),
                self.written@ == before + data@.subrange(0, k as int),
            decreases data@.len() - k,
        {
            self.written.push(data[k]);
            proof {
                assert(before + data@.subrange(0, (k + 1) as int) =~= (before + data@.subrange(
                    0,
                    k as int,
                )).push(data@[k as int]));
            }
            k = k + 1;
        }
        proof {
            assert(data@.subrange(0, data@.len() as int) =~= data@);
        }
        mp.inc(h, data.len() as u64);
    }

    /// The destination's content after the writes so far.
    pub fn written(&self) -> (bytes: &Vec<u8>)
        ensures
            bytes@ == self.spec_written(),
    {
        &self.written
    }

    /// Finish the attempt and hand the destination's final content over —
    /// exactly the chunks of this attempt, in order, nothing more.
    pub fn into_written(self) -> (bytes: Vec<u8>)
        ensures
            bytes@ == self.spec_written(),
    {
        self.written
    }
}

} // verus!
