use vstd::prelude::*;

use crate::counter::CounterView;
use crate::counter::ProgressCounter;
use crate::progress::HiddenProgress;
use crate::progress::Progress;

verus! {

/// Configuration for tracking progress during one phase.
///
/// `state` names the phase during which progress is tracked. If
/// `next_state` is set, the tracker requests a transition to it as
/// soon as all tracked progress completes; if it is absent, readiness
/// is observable but no automatic transition occurs.
pub struct ProgressPlugin<S> {
    /// The phase during which progress is tracked
    pub state: S,
    /// The phase to transition to when all progress completes
    pub next_state: Option<S>,
    /// Whether to enable the optional asset-tracking integration
    pub track_assets: bool,
}

impl<S> ProgressPlugin<S> {
    /// Configuration that tracks progress during `state`, with no
    /// automatic transition and no optional integrations.
    pub fn new(state: S) -> (r: Self)
        ensures
            r.state == state,
            r.next_state is None,
            !r.track_assets,
    {
        ProgressPlugin { state, next_state: None, track_assets: false }
    }

    /// Request a transition to `next_state` as soon as all progress
    /// in the tracked phase is complete.
    pub fn continue_to(self, next_state: S) -> (r: Self)
        ensures
            r.state == self.state,
            r.next_state == Some(next_state),
            r.track_assets == self.track_assets,
    {
        ProgressPlugin {
            state: self.state,
            next_state: Some(next_state),
            track_assets: self.track_assets,
        }
    }

    /// Enable the optional asset-tracking integration.
    pub fn track_assets(self) -> (r: Self)
        ensures
            r.state == self.state,
            r.next_state == self.next_state,
            r.track_assets,
    {
        ProgressPlugin { state: self.state, next_state: self.next_state, track_assets: true }
    }
}

/// Label to control task execution order within a cycle.
///
/// All tasks that report progress must run after `Preparation` (the
/// cycle reset) and before `CheckProgress` (the transition decision);
/// anything that reads the aggregate runs after `Tracking`.
#[derive(Debug, Clone, Copy, PartialEq, Eq, Hash)]
pub enum ProgressSystemLabel {
    /// All tasks tracking progress run after this point
    Preparation,
    /// Anything reading progress runs after this point
    Tracking,
    /// All tasks tracking progress run before this point
    CheckProgress,
}

/// Failure of an aggregator operation.
#[derive(Debug, Clone, Copy, PartialEq, Eq, Structural)]
pub enum ProgressError {
    /// The aggregator was used outside an active phase: the phase was
    /// never entered, or was already exited. This is a configuration
    /// error — a task was scheduled into the wrong execution window —
    /// and is surfaced rather than silently ignored.
    NotActive,
}

/// The cycle lifecycle controller for one tracked phase.
///
/// It owns the phase's [`ProgressCounter`]: the counter is created
/// when the phase is entered, reset to the persisted baseline at the
/// start of every cycle, and destroyed when the phase is exited.
/// While the phase is inactive every recording or reading operation
/// fails with [`ProgressError::NotActive`].
///
/// Once per cycle, after all tasks have reported,
/// [`ProgressTracker::check_progress`] reads the authoritative
/// aggregate and, if it is complete and a next phase was configured,
/// hands out the transition target and exits the phase — so the
/// transition is requested exactly once.
pub struct ProgressTracker<S> {
    state: S,
    next_state: Option<S>,
    track_assets: bool,
    counter: Option<ProgressCounter>,
}

impl<S> ProgressTracker<S> {
    /// Whether the tracked phase is currently active, i.e. the
    /// aggregator exists.
    pub closed spec fn spec_active(self) -> bool {
        self.counter is Some
    }

    /// The state of the owned aggregator while the phase is active.
    pub closed spec fn counter_state(self) -> CounterView {
        match self.counter {
            Some(c) => c@,
            None => CounterView::empty(),
        }
    }

    /// The phase this tracker is configured for.
    pub closed spec fn spec_state(self) -> S {
        self.state
    }

    /// The configured transition target, if any.
    pub closed spec fn spec_next_state(self) -> Option<S> {
        self.next_state
    }

    /// Whether the optional asset-tracking integration is enabled.
    pub closed spec fn spec_track_assets(self) -> bool {
        self.track_assets
    }

    /// Everything but the aggregator is as in `old`: the configuration
    /// carries over unchanged.
    pub open spec fn same_config(self, old: ProgressTracker<S>) -> bool {
        &&& self.spec_state() == old.spec_state()
        &&& self.spec_next_state() == old.spec_next_state()
        &&& self.spec_track_assets() == old.spec_track_assets()
    }

    /// A controller for the phase described by `config`, initially
    /// inactive: no aggregator exists until the phase is entered.
    pub fn new(config: ProgressPlugin<S>) -> (r: Self)
        ensures
            !r.spec_active(),
            r.spec_state() == config.state,
            r.spec_next_state() == config.next_state,
            r.spec_track_assets() == config.track_assets,
    {
        ProgressTracker {
            state: config.state,
            next_state: config.next_state,
            track_assets: config.track_assets,
            counter: None,
        }
    }

    /// Whether the tracked phase is currently active.
    pub fn is_active(&self) -> (r: bool)
        ensures
            r == self.spec_active(),
    {
        self.counter.is_some()
    }

    /// Enter the tracked phase: create the aggregator with all running
    /// and baseline fields zero.
    pub fn enter(&mut self)
        ensures
            final(self).spec_active(),
            final(self).counter_state() == CounterView::empty(),
            final(self).same_config(*old(self)),
    {
        self.counter = Some(ProgressCounter::default());
    }

    /// Exit the tracked phase: destroy the aggregator. No further
    /// recording or reading is valid until the phase is entered again.
    pub fn exit(&mut self)
        ensures
            !final(self).spec_active(),
            final(self).same_config(*old(self)),
    {
        self.counter = None;
    }

    /// Start a new cycle: reset the running counters back to the
    /// persisted baseline. Call once per cycle, before any tracked
    /// task for that cycle runs.
    pub fn next_frame(&mut self) -> (r: Result<(), ProgressError>)
        ensures
            old(self).spec_active() ==> {
                &&& r is Ok
                &&& final(self).spec_active()
                &&& final(self).counter_state() == old(self).counter_state().at_cycle_start()
                &&& final(self).same_config(*old(self))
            },
            !old(self).spec_active() ==> r == Err::<(), ProgressError>(ProgressError::NotActive)
                && *final(self) == *old(self),
    {
        match &mut self.counter {
            Some(c) => {
                c.next_frame();
                Ok(())
            },
            None => Err(ProgressError::NotActive),
        }
    }

    /// Record a visible contribution into the current cycle's running
    /// counters, clamped as by [`ProgressCounter::manually_track`].
    pub fn record(&mut self, progress: Progress) -> (r: Result<(), ProgressError>)
        requires
            old(self).spec_active() ==> old(self).counter_state().can_record(progress),
        ensures
            old(self).spec_active() ==> {
                &&& r is Ok
                &&& final(self).spec_active()
                &&& final(self).counter_state() == old(self).counter_state().recorded(progress)
                &&& final(self).same_config(*old(self))
            },
            !old(self).spec_active() ==> r == Err::<(), ProgressError>(ProgressError::NotActive)
                && *final(self) == *old(self),
    {
        match &mut self.counter {
            Some(c) => {
                c.manually_track(progress);
                Ok(())
            },
            None => Err(ProgressError::NotActive),
        }
    }

    /// Record a hidden contribution into the current cycle's hidden
    /// running counters.
    pub fn record_hidden(&mut self, progress: HiddenProgress) -> (r: Result<(), ProgressError>)
        requires
            old(self).spec_active() ==> old(self).counter_state().can_record_hidden(progress.0),
        ensures
            old(self).spec_active() ==> {
                &&& r is Ok
                &&& final(self).spec_active()
                &&& final(self).counter_state() == old(self).counter_state().recorded_hidden(
                    progress.0,
                )
                &&& final(self).same_config(*old(self))
            },
            !old(self).spec_active() ==> r == Err::<(), ProgressError>(ProgressError::NotActive)
                && *final(self) == *old(self),
    {
        match &mut self.counter {
            Some(c) => {
                c.manually_track_hidden(progress);
                Ok(())
            },
            None => Err(ProgressError::NotActive),
        }
    }

    /// Persist a visible contribution: record it this cycle and fold
    /// it into the baseline every future cycle starts from. Requires
    /// exclusive access — call it outside the concurrent
    /// task-execution window.
    pub fn persist(&mut self, progress: Progress) -> (r: Result<(), ProgressError>)
        requires
            old(self).spec_active() ==> old(self).counter_state().can_persist(progress),
        ensures
            old(self).spec_active() ==> {
                &&& r is Ok
                &&& final(self).spec_active()
                &&& final(self).counter_state() == old(self).counter_state().persisted_with(
                    progress,
                )
                &&& final(self).same_config(*old(self))
            },
            !old(self).spec_active() ==> r == Err::<(), ProgressError>(ProgressError::NotActive)
                && *final(self) == *old(self),
    {
        match &mut self.counter {
            Some(c) => {
                c.persist_progress(progress);
                Ok(())
            },
            None => Err(ProgressError::NotActive),
        }
    }

    /// Persist a hidden contribution, into the hidden counters and
    /// the hidden baseline.
    pub fn persist_hidden(&mut self, progress: HiddenProgress) -> (r: Result<(), ProgressError>)
        requires
            old(self).spec_active() ==> old(self).counter_state().can_persist_hidden(progress.0),
        ensures
            old(self).spec_active() ==> {
                &&& r is Ok
                &&& final(self).spec_active()
                &&& final(self).counter_state() == old(self).counter_state().persisted_hidden_with(
                    progress.0,
                )
                &&& final(self).same_config(*old(self))
            },
            !old(self).spec_active() ==> r == Err::<(), ProgressError>(ProgressError::NotActive)
                && *final(self) == *old(self),
    {
        match &mut self.counter {
            Some(c) => {
                c.persist_progress_hidden(progress);
                Ok(())
            },
            None => Err(ProgressError::NotActive),
        }
    }

    /// The visible snapshot for progress bars: hidden work excluded.
    pub fn read_visible(&self) -> (r: Result<Progress, ProgressError>)
        ensures
            self.spec_active() ==> (r matches Ok(p) && p.done == self.counter_state().done
                && p.total == self.counter_state().total),
            !self.spec_active() ==> r == Err::<Progress, ProgressError>(ProgressError::NotActive),
    {
        match &self.counter {
            Some(c) => Ok(c.progress()),
            None => Err(ProgressError::NotActive),
        }
    }

    /// The authoritative snapshot for the transition decision:
    /// visible plus hidden work.
    pub fn read_complete(&self) -> (r: Result<Progress, ProgressError>)
        requires
            self.spec_active() ==> self.counter_state().can_read_complete(),
        ensures
            self.spec_active() ==> (r matches Ok(p) && p.done
                == self.counter_state().complete_done() && p.total
                == self.counter_state().complete_total()),
            !self.spec_active() ==> r == Err::<Progress, ProgressError>(ProgressError::NotActive),
    {
        match &self.counter {
            Some(c) => Ok(c.progress_complete()),
            None => Err(ProgressError::NotActive),
        }
    }

    /// The transition decision, run once per cycle after every task's
    /// contribution has been recorded.
    ///
    /// Reads the authoritative aggregate. If it is complete and a
    /// next phase was configured, returns that phase and exits the
    /// tracked phase — the exit is what keeps a repeated ready reading
    /// from re-triggering the transition. Otherwise nothing changes:
    /// the result carries no phase, and the tracker is untouched.
    pub fn check_progress(&mut self) -> (r: Result<Option<S>, ProgressError>)
        requires
            old(self).spec_active() ==> old(self).counter_state().can_read_complete(),
        ensures
            !old(self).spec_active() ==> r == Err::<Option<S>, ProgressError>(
                ProgressError::NotActive,
            ) && *final(self) == *old(self),
            old(self).spec_active() && old(self).counter_state().is_complete() && old(
                self,
            ).spec_next_state() is Some ==> {
                &&& r == Ok::<Option<S>, ProgressError>(old(self).spec_next_state())
                &&& !final(self).spec_active()
                &&& final(self).spec_next_state() is None
                &&& final(self).spec_state() == old(self).spec_state()
                &&& final(self).spec_track_assets() == old(self).spec_track_assets()
            },
            old(self).spec_active() && !(old(self).counter_state().is_complete() && old(
                self,
            ).spec_next_state() is Some) ==> r == Ok::<Option<S>, ProgressError>(None)
                && *final(self) == *old(self),
    {
        let ready: bool;
        match &self.counter {
            Some(c) => {
                ready = c.progress_complete().is_ready();
            },
            None => {
                return Err(ProgressError::NotActive);
            },
        }
        if ready && self.next_state.is_some() {
            let next = self.next_state.take();
            self.counter = None;
            Ok(next)
        } else {
            Ok(None)
        }
    }
}

} // verus!
