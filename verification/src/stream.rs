//! The bookkeeping of a capture: how much of the stream has been written,
//! and when the read is to be cancelled.
use crate::options::INFINITE_SAMPLES;
use vstd::prelude::*;

verus! {

/// The progress of a capture that writes a stream out, up to an optional
/// bound on the number of bytes.
#[derive(Clone, Copy, Debug, PartialEq, Eq, Structural)]
pub struct Capture {
    bound: usize,
    written: usize,
    stopped: bool,
}

/// What a [`Capture`] stands for.
pub ghost struct Progress {
    /// The number of bytes after which the capture ends;
    /// [`INFINITE_SAMPLES`] for none.
    pub bound: nat,
    /// The number of bytes written so far, as far as a `usize` counts.
    pub written: nat,
    /// Whether the capture has asked for the read to be cancelled.
    pub stopped: bool,
}

impl Progress {
    /// The count of bytes written once `written` more are added: the sum,
    /// held at the largest `usize`.
    pub open spec fn total(self, written: usize) -> nat {
        if self.written + written > usize::MAX {
            usize::MAX as nat
        } else {
            (self.written + written) as nat
        }
    }

    /// Whether the read is to be cancelled after a block of `delivered`
    /// bytes of which `written` were written: on a short write, and once
    /// the bytes written have reached the bound.
    pub open spec fn cancels(self, delivered: usize, written: usize) -> bool {
        written != delivered || (self.bound != INFINITE_SAMPLES && self.total(written) >= self.bound)
    }

    /// The capture after such a block.
    pub open spec fn record(self, delivered: usize, written: usize) -> Progress {
        Progress {
            bound: self.bound,
            written: self.total(written),
            stopped: self.stopped || self.cancels(delivered, written),
        }
    }

    /// The capture after `blocks` blocks of `size` bytes, each written in
    /// full.
    pub open spec fn record_full(self, size: usize, blocks: nat) -> Progress
        decreases blocks,
    {
        if blocks == 0 {
            self
        } else {
            self.record_full(size, (blocks - 1) as nat).record(size, size)
        }
    }
}

impl View for Capture {
    type V = Progress;

    closed spec fn view(&self) -> Progress {
        Progress { bound: self.bound as nat, written: self.written as nat, stopped: self.stopped }
    }
}

impl Capture {
    /// Starts a capture of `samples` bytes; [`INFINITE_SAMPLES`] asks for a
    /// capture without end.
    pub fn new(samples: usize) -> (capture: Self)
        ensures
            capture@ == (Progress { bound: samples as nat, written: 0, stopped: false }),
    {
        Capture { bound: samples, written: 0, stopped: false }
    }

    /// The number of bytes written so far.
    pub fn total_written(&self) -> (total: usize)
        ensures
            total == self@.written,
    {
        self.written
    }

    /// Whether the capture still takes blocks: it does until it has asked
    /// for the read to be cancelled.
    pub fn accepts(&self) -> (open: bool)
        ensures
            open == !self@.stopped,
    {
        !self.stopped
    }

    /// Accounts for a block of `delivered` bytes of which `written` were
    /// written, and says whether the read is to be cancelled now.
    pub fn record(&mut self, delivered: usize, written: usize) -> (cancel: bool)
        ensures
            final(self)@ == old(self)@.record(delivered, written),
            cancel == old(self)@.cancels(delivered, written),
    {
        self.written = self.written.saturating_add(written);
        let cancel: bool = written != delivered || (self.bound != INFINITE_SAMPLES
            && self.written >= self.bound);
        if cancel {
            self.stopped = true;
        }
        cancel
    }
}

/// A capture with a bound, fed blocks of one size that are written in full,
/// does not stop before the bytes written reach the bound, and has stopped
/// once they do.
pub proof fn lemma_stops_at_bound(start: Progress, size: usize, blocks: nat)
    requires
        start.written == 0,
        !start.stopped,
        start.bound != INFINITE_SAMPLES,
        blocks * size <= usize::MAX,
    ensures
        start.record_full(size, blocks).written == blocks * size,
        start.record_full(size, blocks).bound == start.bound,
        start.record_full(size, blocks).stopped <==> blocks >= 1 && blocks * size >= start.bound,
    decreases blocks,
{
    if blocks == 0 {
        assert(blocks * size == 0) by (nonlinear_arith)
            requires
                blocks == 0,
        ;
    } else {
        let earlier = (blocks - 1) as nat;
        assert(earlier * size + size == blocks * size) by (nonlinear_arith)
            requires
                earlier + 1 == blocks,
        ;
        lemma_stops_at_bound(start, size, earlier);
        let before = start.record_full(size, earlier);
        assert(start.record_full(size, blocks) == before.record(size, size));
        assert(before.total(size) == blocks * size);
    }
}

} // verus!
