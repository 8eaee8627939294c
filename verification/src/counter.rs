use vstd::prelude::*;

use crate::progress::HiddenProgress;
use crate::progress::Progress;

verus! {

/// The amount a single contribution adds to the "done" side of its
/// bucket: `done` clamped to `total`, so a contribution can never push
/// the aggregate's done count beyond its own total.
pub open spec fn clamped_done(p: Progress) -> int {
    if p.done <= p.total {
        p.done as int
    } else {
        p.total as int
    }
}

/// Mathematical state of a [`ProgressCounter`]: the four running
/// counters for the current cycle, and the persisted baseline that
/// every cycle restarts from.
pub ghost struct CounterView {
    /// Visible units done this cycle
    pub done: int,
    /// Visible units expected this cycle
    pub total: int,
    /// Hidden units done this cycle
    pub done_hidden: int,
    /// Hidden units expected this cycle
    pub total_hidden: int,
    /// Visible baseline restored on every cycle reset
    pub persisted_done: int,
    /// Visible baseline total restored on every cycle reset
    pub persisted_total: int,
    /// Hidden baseline restored on every cycle reset
    pub persisted_hidden_done: int,
    /// Hidden baseline total restored on every cycle reset
    pub persisted_hidden_total: int,
}

impl CounterView {
    /// The state of a freshly created counter: everything zero.
    pub open spec fn empty() -> CounterView {
        CounterView {
            done: 0,
            total: 0,
            done_hidden: 0,
            total_hidden: 0,
            persisted_done: 0,
            persisted_total: 0,
            persisted_hidden_done: 0,
            persisted_hidden_total: 0,
        }
    }

    /// The state after one visible contribution `p` is recorded:
    /// `p.total` is added to the running total and the clamped done
    /// amount to the running done count. Nothing else changes.
    pub open spec fn recorded(self, p: Progress) -> CounterView {
        CounterView {
            done: self.done + clamped_done(p),
            total: self.total + p.total,
            done_hidden: self.done_hidden,
            total_hidden: self.total_hidden,
            persisted_done: self.persisted_done,
            persisted_total: self.persisted_total,
            persisted_hidden_done: self.persisted_hidden_done,
            persisted_hidden_total: self.persisted_hidden_total,
        }
    }

    /// The state after one hidden contribution `p` is recorded: the
    /// same clamp-and-add as [`CounterView::recorded`], against the
    /// hidden running counters.
    pub open spec fn recorded_hidden(self, p: Progress) -> CounterView {
        CounterView {
            done: self.done,
            total: self.total,
            done_hidden: self.done_hidden + clamped_done(p),
            total_hidden: self.total_hidden + p.total,
            persisted_done: self.persisted_done,
            persisted_total: self.persisted_total,
            persisted_hidden_done: self.persisted_hidden_done,
            persisted_hidden_total: self.persisted_hidden_total,
        }
    }

    /// The state after `p` is persisted: it is recorded into the
    /// running counters for the current cycle, and folded (unclamped)
    /// into the visible baseline so every future cycle starts with it.
    pub open spec fn persisted_with(self, p: Progress) -> CounterView {
        CounterView {
            persisted_done: self.persisted_done + p.done,
            persisted_total: self.persisted_total + p.total,
            ..self.recorded(p)
        }
    }

    /// The state after a hidden `p` is persisted, against the hidden
    /// running counters and the hidden baseline.
    pub open spec fn persisted_hidden_with(self, p: Progress) -> CounterView {
        CounterView {
            persisted_hidden_done: self.persisted_hidden_done + p.done,
            persisted_hidden_total: self.persisted_hidden_total + p.total,
            ..self.recorded_hidden(p)
        }
    }

    /// The state after a cycle reset: all four running counters are
    /// set back to the persisted baseline (not to zero), so persisted
    /// progress counts again without being re-reported.
    pub open spec fn at_cycle_start(self) -> CounterView {
        CounterView {
            done: self.persisted_done,
            total: self.persisted_total,
            done_hidden: self.persisted_hidden_done,
            total_hidden: self.persisted_hidden_total,
            persisted_done: self.persisted_done,
            persisted_total: self.persisted_total,
            persisted_hidden_done: self.persisted_hidden_done,
            persisted_hidden_total: self.persisted_hidden_total,
        }
    }

    /// The authoritative done count: visible plus hidden.
    pub open spec fn complete_done(self) -> int {
        self.done + self.done_hidden
    }

    /// The authoritative total: visible plus hidden.
    pub open spec fn complete_total(self) -> int {
        self.total + self.total_hidden
    }

    /// Whether the aggregate gates the phase transition open:
    /// everything reported done, hidden work included.
    pub open spec fn is_complete(self) -> bool {
        self.complete_done() >= self.complete_total()
    }

    /// Recording `p` stays within the counters' machine range.
    pub open spec fn can_record(self, p: Progress) -> bool {
        &&& self.done + clamped_done(p) <= u32::MAX
        &&& self.total + p.total <= u32::MAX
    }

    /// Recording a hidden `p` stays within the counters' machine range.
    pub open spec fn can_record_hidden(self, p: Progress) -> bool {
        &&& self.done_hidden + clamped_done(p) <= u32::MAX
        &&& self.total_hidden + p.total <= u32::MAX
    }

    /// Persisting `p` stays within the counters' machine range.
    pub open spec fn can_persist(self, p: Progress) -> bool {
        &&& self.can_record(p)
        &&& self.persisted_done + p.done <= u32::MAX
        &&& self.persisted_total + p.total <= u32::MAX
    }

    /// Persisting a hidden `p` stays within the counters' machine range.
    pub open spec fn can_persist_hidden(self, p: Progress) -> bool {
        &&& self.can_record_hidden(p)
        &&& self.persisted_hidden_done + p.done <= u32::MAX
        &&& self.persisted_hidden_total + p.total <= u32::MAX
    }

    /// The visible-plus-hidden sums stay within machine range.
    pub open spec fn can_read_complete(self) -> bool {
        &&& self.complete_done() <= u32::MAX
        &&& self.complete_total() <= u32::MAX
    }
}

/// The shared aggregator for one active tracked phase.
///
/// Every task that runs during a cycle records its contribution here;
/// once all tasks for the cycle have reported, the combined state can
/// be read to drive progress bars ([`ProgressCounter::progress`]) or
/// the phase-transition decision
/// ([`ProgressCounter::progress_complete`]).
///
/// Each contribution's `done` is clamped to its `total` when recorded,
/// so a misbehaving task cannot inflate the done side of the aggregate
/// beyond its own total. The persisted fields hold the baseline that
/// [`ProgressCounter::next_frame`] restores at the start of every
/// cycle.
pub struct ProgressCounter {
    done: u32,
    total: u32,
    done_hidden: u32,
    total_hidden: u32,
    persisted: Progress,
    persisted_hidden: Progress,
}

impl View for ProgressCounter {
    type V = CounterView;

    closed spec fn view(&self) -> CounterView {
        CounterView {
            done: self.done as int,
            total: self.total as int,
            done_hidden: self.done_hidden as int,
            total_hidden: self.total_hidden as int,
            persisted_done: self.persisted.done as int,
            persisted_total: self.persisted.total as int,
            persisted_hidden_done: self.persisted_hidden.done as int,
            persisted_hidden_total: self.persisted_hidden.total as int,
        }
    }
}

impl Default for ProgressCounter {
    /// A fresh counter with all running and baseline fields zero.
    fn default() -> (r: Self)
        ensures
            r@ == CounterView::empty(),
    {
        ProgressCounter {
            done: 0,
            total: 0,
            done_hidden: 0,
            total_hidden: 0,
            persisted: Progress { done: 0, total: 0 },
            persisted_hidden: Progress { done: 0, total: 0 },
        }
    }
}

impl ProgressCounter {
    /// The latest visible progress: the point-in-time sum of all
    /// visible contributions recorded since the last cycle reset.
    ///
    /// Hidden progress is excluded; use this for progress bars and
    /// other user-facing indicators. Call it only after every tracked
    /// task for the cycle has reported, so the snapshot reflects the
    /// whole cycle.
    pub fn progress(&self) -> (r: Progress)
        ensures
            r.done == self@.done,
            r.total == self@.total,
    {
        Progress { done: self.done, total: self.total }
    }

    /// The latest overall progress, hidden contributions included:
    /// the componentwise sum of the visible and hidden snapshots.
    ///
    /// This is the authoritative value for the phase-transition
    /// decision, since it accounts for work that is hidden from the
    /// user but still gates completion.
    pub fn progress_complete(&self) -> (r: Progress)
        requires
            self@.can_read_complete(),
        ensures
            r.done == self@.complete_done(),
            r.total == self@.complete_total(),
    {
        Progress {
            done: self.done + self.done_hidden,
            total: self.total + self.total_hidden,
        }
    }

    /// Add a visible contribution to the running totals for the
    /// current cycle.
    ///
    /// `progress.total` is added to the running total, and
    /// `min(progress.done, progress.total)` to the running done count:
    /// the clamp keeps a contribution that claims `done > total` from
    /// inflating the aggregate.
    pub fn manually_track(&mut self, progress: Progress)
        requires
            old(self)@.can_record(progress),
        ensures
            final(self)@ == old(self)@.recorded(progress),
    {
        self.total = self.total + progress.total;
        let clamped: u32 = if progress.done <= progress.total {
            progress.done
        } else {
            progress.total
        };
        self.done = self.done + clamped;
    }

    /// Add a hidden contribution to the running totals for the
    /// current cycle: the same clamp-and-add as
    /// [`ProgressCounter::manually_track`], against the hidden
    /// counters.
    pub fn manually_track_hidden(&mut self, progress: HiddenProgress)
        requires
            old(self)@.can_record_hidden(progress.0),
        ensures
            final(self)@ == old(self)@.recorded_hidden(progress.0),
    {
        self.total_hidden = self.total_hidden + progress.0.total;
        let clamped: u32 = if progress.0.done <= progress.0.total {
            progress.0.done
        } else {
            progress.0.total
        };
        self.done_hidden = self.done_hidden + clamped;
    }

    /// Persist a visible contribution for the rest of the phase.
    ///
    /// The contribution is recorded into the current cycle's running
    /// counters and also folded, unclamped, into the visible baseline,
    /// so every future cycle reset starts from it without the caller
    /// re-reporting. Requires exclusive access: call it outside the
    /// concurrent task-execution window.
    pub fn persist_progress(&mut self, progress: Progress)
        requires
            old(self)@.can_persist(progress),
        ensures
            final(self)@ == old(self)@.persisted_with(progress),
    {
        self.manually_track(progress);
        let p = self.persisted.add(progress);
        self.persisted = p;
    }

    /// Persist a hidden contribution for the rest of the phase, into
    /// the hidden counters and the hidden baseline.
    pub fn persist_progress_hidden(&mut self, progress: HiddenProgress)
        requires
            old(self)@.can_persist_hidden(progress.0),
        ensures
            final(self)@ == old(self)@.persisted_hidden_with(progress.0),
    {
        self.manually_track_hidden(progress);
        let p = self.persisted_hidden.add(progress.0);
        self.persisted_hidden = p;
    }

    /// Reset the four running counters back to the persisted baseline
    /// (not to zero), at the start of a new cycle and before any
    /// tracked task for that cycle runs.
    pub fn next_frame(&mut self)
        ensures
            final(self)@ == old(self)@.at_cycle_start(),
    {
        self.done = self.persisted.done;
        self.total = self.persisted.total;
        self.done_hidden = self.persisted_hidden.done;
        self.total_hidden = self.persisted_hidden.total;
    }

    /// Whether recording `progress` would stay within the counters'
    /// machine range.
    pub fn can_track(&self, progress: Progress) -> (r: bool)
        ensures
            r == self@.can_record(progress),
    {
        let clamped: u32 = if progress.done <= progress.total {
            progress.done
        } else {
            progress.total
        };
        (self.done as u64 + clamped as u64 <= u32::MAX as u64) && (self.total as u64
            + progress.total as u64 <= u32::MAX as u64)
    }

    /// Whether recording a hidden `progress` would stay within the
    /// counters' machine range.
    pub fn can_track_hidden(&self, progress: HiddenProgress) -> (r: bool)
        ensures
            r == self@.can_record_hidden(progress.0),
    {
        let clamped: u32 = if progress.0.done <= progress.0.total {
            progress.0.done
        } else {
            progress.0.total
        };
        (self.done_hidden as u64 + clamped as u64 <= u32::MAX as u64) && (self.total_hidden as u64
            + progress.0.total as u64 <= u32::MAX as u64)
    }

    /// Whether persisting `progress` would stay within the counters'
    /// machine range.
    pub fn can_persist(&self, progress: Progress) -> (r: bool)
        ensures
            r == self@.can_persist(progress),
    {
        self.can_track(progress) && (self.persisted.done as u64 + progress.done as u64
            <= u32::MAX as u64) && (self.persisted.total as u64 + progress.total as u64
            <= u32::MAX as u64)
    }

    /// Whether persisting a hidden `progress` would stay within the
    /// counters' machine range.
    pub fn can_persist_hidden(&self, progress: HiddenProgress) -> (r: bool)
        ensures
            r == self@.can_persist_hidden(progress.0),
    {
        self.can_track_hidden(progress) && (self.persisted_hidden.done as u64 + progress.0.done as u64
            <= u32::MAX as u64) && (self.persisted_hidden.total as u64 + progress.0.total as u64
            <= u32::MAX as u64)
    }

    /// Whether the visible-plus-hidden sums stay within machine range,
    /// so [`ProgressCounter::progress_complete`] can be read.
    pub fn can_read_complete(&self) -> (r: bool)
        ensures
            r == self@.can_read_complete(),
    {
        (self.done as u64 + self.done_hidden as u64 <= u32::MAX as u64) && (self.total as u64
            + self.total_hidden as u64 <= u32::MAX as u64)
    }
}

/// The amounts one reportable value adds to the four running counters,
/// already clamped.
pub ghost struct Contribution {
    /// Amount added to the visible done count
    pub done: int,
    /// Amount added to the visible total
    pub total: int,
    /// Amount added to the hidden done count
    pub done_hidden: int,
    /// Amount added to the hidden total
    pub total_hidden: int,
}

impl Contribution {
    /// All four amounts are nonnegative.
    pub open spec fn nonneg(self) -> bool {
        &&& self.done >= 0
        &&& self.total >= 0
        &&& self.done_hidden >= 0
        &&& self.total_hidden >= 0
    }

    /// Componentwise sum of two contributions.
    pub open spec fn plus(self, other: Contribution) -> Contribution {
        Contribution {
            done: self.done + other.done,
            total: self.total + other.total,
            done_hidden: self.done_hidden + other.done_hidden,
            total_hidden: self.total_hidden + other.total_hidden,
        }
    }
}

impl CounterView {
    /// The state after a contribution's amounts are added to the four
    /// running counters. The baseline is untouched.
    pub open spec fn accepted(self, c: Contribution) -> CounterView {
        CounterView {
            done: self.done + c.done,
            total: self.total + c.total,
            done_hidden: self.done_hidden + c.done_hidden,
            total_hidden: self.total_hidden + c.total_hidden,
            persisted_done: self.persisted_done,
            persisted_total: self.persisted_total,
            persisted_hidden_done: self.persisted_hidden_done,
            persisted_hidden_total: self.persisted_hidden_total,
        }
    }

    /// Accepting the contribution stays within machine range.
    pub open spec fn can_accept(self, c: Contribution) -> bool {
        &&& c.nonneg()
        &&& self.done + c.done <= u32::MAX
        &&& self.total + c.total <= u32::MAX
        &&& self.done_hidden + c.done_hidden <= u32::MAX
        &&& self.total_hidden + c.total_hidden <= u32::MAX
    }
}

/// Trait for all types that a task can return to report progress: a
/// visible value, a hidden value, or a pair of reportable values.
pub trait ApplyProgress: Sized {
    /// The clamped amounts this value adds to the four running
    /// counters when applied.
    spec fn contribution(self) -> Contribution;

    /// A reportable value never subtracts from the counters.
    proof fn contribution_nonneg(self)
        ensures
            self.contribution().nonneg(),
    ;

    /// Account the value into the total progress for this cycle.
    fn apply_progress(self, total: &mut ProgressCounter)
        requires
            old(total)@.can_accept(self.contribution()),
        ensures
            final(total)@ == old(total)@.accepted(self.contribution()),
    ;
}

impl ApplyProgress for Progress {
    open spec fn contribution(self) -> Contribution {
        Contribution {
            done: clamped_done(self),
            total: self.total as int,
            done_hidden: 0,
            total_hidden: 0,
        }
    }

    proof fn contribution_nonneg(self) {
    }

    fn apply_progress(self, total: &mut ProgressCounter) {
        total.manually_track(self);
    }
}

impl ApplyProgress for HiddenProgress {
    open spec fn contribution(self) -> Contribution {
        Contribution {
            done: 0,
            total: 0,
            done_hidden: clamped_done(self.0),
            total_hidden: self.0.total as int,
        }
    }

    proof fn contribution_nonneg(self) {
    }

    fn apply_progress(self, total: &mut ProgressCounter) {
        total.manually_track_hidden(self);
    }
}

impl<T: ApplyProgress> ApplyProgress for (T, T) {
    open spec fn contribution(self) -> Contribution {
        self.0.contribution().plus(self.1.contribution())
    }

    proof fn contribution_nonneg(self) {
        self.0.contribution_nonneg();
        self.1.contribution_nonneg();
    }

    fn apply_progress(self, total: &mut ProgressCounter) {
        proof {
            self.0.contribution_nonneg();
            self.1.contribution_nonneg();
        }
        let (a, b) = self;
        a.apply_progress(total);
        b.apply_progress(total);
    }
}

} // verus!
