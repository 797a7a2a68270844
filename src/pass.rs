//! A render pass driven one write at a time. Writes are best effort: the
//! outcome of each is counted and the pass moves on to the next write either
//! way, so one failed write never stops the rest of the pass.

use vstd::prelude::*;

use crate::display::{render_ops, render_plan, DisplayOp, Reading};

verus! {

/// The writes of one render pass and how far it has got.
pub struct RenderPass {
    ops: Vec<DisplayOp>,
    next: usize,
    failures: usize,
}

impl RenderPass {
    /// The writes of the pass, in order.
    pub closed spec fn planned(&self) -> Seq<DisplayOp> {
        self.ops@
    }

    /// How many writes have been attempted.
    pub closed spec fn position(&self) -> nat {
        self.next as nat
    }

    /// How many attempted writes reported failure.
    pub closed spec fn failed(&self) -> nat {
        self.failures as nat
    }

    pub closed spec fn wf(&self) -> bool {
        self.next <= self.ops@.len() && self.failures <= self.next
    }

    /// A pass over every write that renders `reading`, with none attempted.
    pub fn new(reading: Reading) -> (p: RenderPass)
        ensures
            p.wf(),
            p.planned() == render_ops(reading),
            p.position() == 0,
            p.failed() == 0,
    {
        RenderPass { ops: render_plan(reading), next: 0, failures: 0 }
    }

    /// The write to attempt next, or `None` once every write was attempted.
    pub fn current(&self) -> (r: Option<DisplayOp>)
        requires
            self.wf(),
        ensures
            r == (if self.position() < self.planned().len() {
                Some(self.planned()[self.position() as int])
            } else {
                None
            }),
    {
        if self.next < self.ops.len() {
            Some(self.ops[self.next])
        } else {
            None
        }
    }

    /// Records the outcome of the current write and moves on to the next one,
    /// whether it succeeded or not. Once the pass is complete nothing changes.
    pub fn record(&mut self, succeeded: bool)
        requires
            old(self).wf(),
        ensures
            final(self).wf(),
            final(self).planned() == old(self).planned(),
            old(self).position() < old(self).planned().len() ==> final(self).position()
                == old(self).position() + 1 && final(self).failed() == old(self).failed() + (
            if succeeded {
                0int
            } else {
                1int
            }),
            old(self).position() >= old(self).planned().len() ==> final(self).position()
                == old(self).position() && final(self).failed() == old(self).failed(),
    {
        if self.next < self.ops.len() {
            if !succeeded {
                self.failures = self.failures + 1;
            }
            self.next = self.next + 1;
        }
    }

    /// Whether every write of the pass was attempted.
    pub fn is_done(&self) -> (r: bool)
        requires
            self.wf(),
        ensures
            r == (self.position() == self.planned().len()),
    {
        self.next == self.ops.len()
    }

    /// How many writes have been attempted.
    pub fn attempted(&self) -> (r: usize)
        ensures
            r == self.position(),
    {
        self.next
    }

    /// How many attempted writes reported failure.
    pub fn failures(&self) -> (r: usize)
        ensures
            r == self.failed(),
    {
        self.failures
    }
}

} // verus!
