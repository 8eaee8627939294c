use vstd::prelude::*;

verus! {

/// Progress reported by a task.
///
/// It indicates how much work the task has completed so far (`done`)
/// out of how much it expects in total (`total`).
///
/// When `done` reaches `total`, the task is considered "ready". When
/// every task tracked for a phase is ready, the phase may transition.
///
/// `done` is expected to stay at or below `total`, but the aggregator
/// does not trust that: each contribution is clamped when recorded.
#[derive(Debug, Clone, Copy, PartialEq, Eq, Structural)]
pub struct Progress {
    /// Units of work completed so far
    pub done: u32,
    /// Total units of work expected
    pub total: u32,
}

impl Progress {
    /// Whether this progress is complete: `done >= total`.
    ///
    /// A zero-total progress counts as ready (`0 >= 0`), so an empty
    /// phase completes immediately.
    pub fn is_ready(self) -> (r: bool)
        ensures
            r == (self.done >= self.total),
    {
        self.done >= self.total
    }

    /// Componentwise sum of two progress values.
    pub fn add(self, rhs: Progress) -> (r: Progress)
        requires
            self.done + rhs.done <= u32::MAX,
            self.total + rhs.total <= u32::MAX,
        ensures
            r.done == self.done + rhs.done,
            r.total == self.total + rhs.total,
    {
        Progress { done: self.done + rhs.done, total: self.total + rhs.total }
    }

    /// Componentwise sum, in place.
    pub fn add_assign(&mut self, rhs: Progress)
        requires
            old(self).done + rhs.done <= u32::MAX,
            old(self).total + rhs.total <= u32::MAX,
        ensures
            final(self).done == old(self).done + rhs.done,
            final(self).total == old(self).total + rhs.total,
    {
        self.done = self.done + rhs.done;
        self.total = self.total + rhs.total;
    }
}

impl Default for Progress {
    /// The empty progress: nothing done, nothing expected.
    fn default() -> (r: Self)
        ensures
            r.done == 0,
            r.total == 0,
    {
        Progress { done: 0, total: 0 }
    }
}

impl From<bool> for Progress {
    /// `true` becomes the ready value `{done: 1, total: 1}`;
    /// `false` becomes the pending value `{done: 0, total: 1}`.
    fn from(b: bool) -> (r: Progress) {
        Progress { done: if b { 1 } else { 0 }, total: 1 }
    }
}

impl vstd::std_specs::convert::FromSpecImpl<bool> for Progress {
    open spec fn obeys_from_spec() -> bool {
        true
    }

    open spec fn from_spec(b: bool) -> Progress {
        Progress { done: if b { 1 } else { 0 }, total: 1 }
    }
}

/// "Hidden" progress reported by a task.
///
/// Works just like the regular [`Progress`], but is accumulated in a
/// separate bucket: it counts toward the true completion total (the
/// one that gates the phase transition) but not toward the visible
/// total meant for progress bars and other user-facing indicators.
#[derive(Debug, Clone, Copy, PartialEq, Eq, Structural)]
pub struct HiddenProgress(pub Progress);

impl Default for HiddenProgress {
    /// The empty hidden progress: nothing done, nothing expected.
    fn default() -> (r: Self)
        ensures
            r.0.done == 0,
            r.0.total == 0,
    {
        HiddenProgress(Progress { done: 0, total: 0 })
    }
}

} // verus!
