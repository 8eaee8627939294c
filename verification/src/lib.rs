//! Progress tracking for phased workloads.
//!
//! Many independently-scheduled tasks report fractional completion
//! ("I have done D of T units") into a shared counter for the current
//! execution cycle. The combined result tells a controller when all
//! tracked work is finished, so it can trigger a one-time transition
//! to a new phase.
//!
//! Tasks report [`Progress`] (user-visible) or [`HiddenProgress`]
//! (counted only toward true completion). Contributions accumulate in a
//! `ProgressCounter`, which clamps each contribution's `done` to its
//! `total` so a misbehaving task cannot inflate the aggregate.

mod counter;
mod helpers;
mod laws;
mod progress;
mod tracker;

pub use counter::ApplyProgress;
pub use counter::Contribution;
pub use counter::CounterView;
pub use counter::ProgressCounter;
pub use counter::clamped_done;
pub use helpers::dummy_system_wait_frames;
pub use laws::lemma_record_commutes;
pub use laws::lemma_record_order_independent;
pub use laws::lemma_record_sequence;
pub use laws::lemma_reset_to_baseline;
pub use laws::recorded_all;
pub use laws::sum_clamped_done;
pub use laws::sum_total;
pub use progress::HiddenProgress;
pub use progress::Progress;
pub use tracker::ProgressError;
pub use tracker::ProgressPlugin;
pub use tracker::ProgressSystemLabel;
pub use tracker::ProgressTracker;
