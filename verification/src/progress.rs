//! Live progress reporting: one indicator per running task, gathered on a
//! shared display surface.
//!
//! An indicator shows bytes transferred against the entry's expected size.
//! The aggregator owns every attached indicator and is the single
//! serialization point for display writes: a task reaches its own indicator
//! through the handle `attach` returned, and no operation here ever touches
//! another task's indicator.

use vstd::prelude::*;

verus! {

/// A per-task progress indicator: bytes done against the expected total.
#[derive(Clone, Copy, Debug, PartialEq, Eq, Structural)]
pub struct Indicator {
    /// The expected total, in bytes: the entry's declared size.
    pub length: u64,
    /// Bytes reported so far, saturating at the largest representable count.
    pub position: u64,
    /// Whether the owning task has reached its terminal state.
    pub finished: bool,
}

impl Indicator {
    /// A fresh indicator over `length` expected bytes, nothing done yet.
    pub fn new(length: u64) -> (p: Self)
        ensures
            p == (Indicator { length, position: 0, finished: false }),
    {
        Indicator { length, position: 0, finished: false }
    }
}

/// The position after reporting `delta` more bytes: a saturating sum, so a
/// report can never wrap the counter around.
pub open spec fn advanced(position: u64, delta: u64) -> u64 {
    if position + delta <= u64::MAX {
        (position + delta) as u64
    } else {
        u64::MAX
    }
}

/// The shared display surface: owns the attached indicators.
pub struct ProgressAggregator {
    bars: Vec<Indicator>,
}

impl ProgressAggregator {
    /// The attached indicators, in attachment order.
    pub closed spec fn spec_bars(&self) -> Seq<Indicator> {
        self.bars@
    }

    /// An empty surface with no indicator attached.
    pub fn new() -> (mp: Self)
        ensures
            mp.spec_bars().len() == 0,
    {
        ProgressAggregator { bars: Vec::new() }
    }

    /// How many indicators are attached.
    pub fn len(&self) -> (n: usize)
        ensures
            n == self.spec_bars().len(),
    {
        self.bars.len()
    }

    /// Attach a new indicator and hand back the handle through which its
    /// owning task, and nobody else, will update it.
    pub fn attach(&mut self, bar: Indicator) -> (h: usize)
        ensures
            final(self).spec_bars() == old(self).spec_bars().push(bar),
            h == old(self).spec_bars().len(),
    {
        let h = self.bars.len();
        self.bars.push(bar);
        h
    }

    /// Read the indicator behind a handle.
    pub fn bar_at(&self, h: usize) -> (bar: Indicator)
        requires
            h < self.spec_bars().len(),
        ensures
            bar == self.spec_bars()[h as int],
    {
        self.bars[h]
    }

    /// Report `delta` more bytes on the indicator behind `h`. Every other
    /// indicator is left untouched.
    pub fn inc(&mut self, h: usize, delta: u64)
        requires
            old(self).wf_handle(h),
        ensures
            final(self).spec_bars().len() == old(self).spec_bars().len(),
            final(self).spec_bars()[h as int] == (Indicator {
                position: advanced(old(self).spec_bars()[h as int].position, delta),
                ..old(self).spec_bars()[h as int]
            }),
            forall|j: int|
                0 <= j < old(self).spec_bars().len() && j != h ==> final(self).spec_bars()[j]
                    == old(self).spec_bars()[j],
    {
        let bar = self.bars[h];
        let position = if u64::MAX - bar.position >= delta {
            bar.position + delta
        } else {
            u64::MAX
        };
        self.bars[h] = Indicator { position, ..bar };
    }

    /// Set the indicator behind `h` to an absolute byte count — the
    /// verifier uses this to advance a bar to the full expected size while
    /// it hashes. Every other indicator is left untouched.
    pub fn set_position(&mut self, h: usize, position: u64)
        requires
            old(self).wf_handle(h),
        ensures
            final(self).spec_bars().len() == old(self).spec_bars().len(),
            final(self).spec_bars()[h as int] == (Indicator {
                position,
                ..old(self).spec_bars()[h as int]
            }),
            forall|j: int|
                0 <= j < old(self).spec_bars().len() && j != h ==> final(self).spec_bars()[j]
                    == old(self).spec_bars()[j],
    {
        let bar = self.bars[h];
        self.bars[h] = Indicator { position, ..bar };
    }

    /// Reset the indicator behind `h` to zero bytes — a task does this when
    /// it starts a (re)download. Every other indicator is left untouched.
    pub fn reset(&mut self, h: usize)
        requires
            old(self).wf_handle(h),
        ensures
            final(self).spec_bars().len() == old(self).spec_bars().len(),
            final(self).spec_bars()[h as int] == (Indicator {
                position: 0,
                ..old(self).spec_bars()[h as int]
            }),
            forall|j: int|
                0 <= j < old(self).spec_bars().len() && j != h ==> final(self).spec_bars()[j]
                    == old(self).spec_bars()[j],
    {
        self.set_position(h, 0);
    }

    /// Mark the indicator behind `h` finished, at its full length — done
    /// exactly once, when its task reaches `Satisfied`. Every other
    /// indicator is left untouched.
    pub fn finish(&mut self, h: usize)
        requires
            old(self).wf_handle(h),
        ensures
            final(self).spec_bars().len() == old(self).spec_bars().len(),
            final(self).spec_bars()[h as int] == (Indicator {
                length: old(self).spec_bars()[h as int].length,
                position: old(self).spec_bars()[h as int].length,
                finished: true,
            }),
            forall|j: int|
                0 <= j < old(self).spec_bars().len() && j != h ==> final(self).spec_bars()[j]
                    == old(self).spec_bars()[j],
    {
        let bar = self.bars[h];
        self.bars[h] = Indicator { length: bar.length, position: bar.length, finished: true };
    }

    /// Whether `h` is the handle of an attached indicator.
    pub open spec fn wf_handle(&self, h: usize) -> bool {
        h < self.spec_bars().len()
    }
}

} // verus!
