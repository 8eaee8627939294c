use iyes_progress::HiddenProgress;
use iyes_progress::Progress;
use iyes_progress::ProgressError;
use iyes_progress::ProgressPlugin;
use iyes_progress::ProgressSystemLabel;
use iyes_progress::ProgressTracker;

#[derive(Debug, Clone, Copy, PartialEq, Eq)]
enum AppState {
    Loading,
    InGame,
}

#[test]
fn plugin_configuration() {
    let plugin = ProgressPlugin::new(AppState::Loading);
    assert_eq!(plugin.state, AppState::Loading);
    assert_eq!(plugin.next_state, None);
    assert!(!plugin.track_assets);

    let plugin = ProgressPlugin::new(AppState::Loading).continue_to(AppState::InGame);
    assert_eq!(plugin.state, AppState::Loading);
    assert_eq!(plugin.next_state, Some(AppState::InGame));
    assert!(!plugin.track_assets);

    let plugin = plugin.track_assets();
    assert_eq!(plugin.next_state, Some(AppState::InGame));
    assert!(plugin.track_assets);
}

#[test]
fn lifecycle_misuse_fails() {
    let plugin = ProgressPlugin::new(AppState::Loading).continue_to(AppState::InGame);
    let mut tracker = ProgressTracker::new(plugin);

    // Before the phase is entered, every operation fails loudly.
    assert!(!tracker.is_active());
    assert_eq!(tracker.read_visible(), Err(ProgressError::NotActive));
    assert_eq!(tracker.read_complete(), Err(ProgressError::NotActive));
    assert_eq!(tracker.record(Progress { done: 1, total: 1 }), Err(ProgressError::NotActive));
    assert_eq!(
        tracker.record_hidden(HiddenProgress(Progress { done: 1, total: 1 })),
        Err(ProgressError::NotActive)
    );
    assert_eq!(tracker.persist(Progress { done: 1, total: 1 }), Err(ProgressError::NotActive));
    assert_eq!(
        tracker.persist_hidden(HiddenProgress(Progress { done: 1, total: 1 })),
        Err(ProgressError::NotActive)
    );
    assert_eq!(tracker.next_frame(), Err(ProgressError::NotActive));
    assert_eq!(tracker.check_progress(), Err(ProgressError::NotActive));

    // After the phase is exited, the same misuse error comes back.
    tracker.enter();
    assert!(tracker.is_active());
    assert_eq!(tracker.read_visible(), Ok(Progress { done: 0, total: 0 }));
    tracker.exit();
    assert!(!tracker.is_active());
    assert_eq!(tracker.read_visible(), Err(ProgressError::NotActive));
}

#[test]
fn end_to_end_transition() {
    let plugin = ProgressPlugin::new(AppState::Loading).continue_to(AppState::InGame);
    let mut tracker = ProgressTracker::new(plugin);
    tracker.enter();

    // Cycle 1: two tasks report partial progress.
    assert_eq!(tracker.next_frame(), Ok(()));
    assert_eq!(tracker.record(Progress { done: 1, total: 2 }), Ok(()));
    assert_eq!(tracker.record(Progress { done: 0, total: 1 }), Ok(()));
    assert_eq!(tracker.read_complete(), Ok(Progress { done: 1, total: 3 }));
    // Not ready: no transition is requested.
    assert_eq!(tracker.check_progress(), Ok(None));
    assert!(tracker.is_active());

    // Cycle 2: nothing was persisted, so the reset goes back to zero.
    assert_eq!(tracker.next_frame(), Ok(()));
    assert_eq!(tracker.read_visible(), Ok(Progress { done: 0, total: 0 }));
    assert_eq!(tracker.record(Progress { done: 2, total: 2 }), Ok(()));
    assert_eq!(tracker.record(Progress { done: 1, total: 1 }), Ok(()));
    assert_eq!(tracker.read_complete(), Ok(Progress { done: 3, total: 3 }));

    // Ready: the transition to the configured phase is requested
    // exactly once; the phase exit prevents any repeat.
    assert_eq!(tracker.check_progress(), Ok(Some(AppState::InGame)));
    assert!(!tracker.is_active());
    assert_eq!(tracker.check_progress(), Err(ProgressError::NotActive));
}

#[test]
fn ready_without_next_state_stays_active() {
    let mut tracker = ProgressTracker::new(ProgressPlugin::new(AppState::Loading));
    tracker.enter();
    assert_eq!(tracker.record(Progress { done: 1, total: 1 }), Ok(()));
    // Readiness is observable, but with no configured next phase no
    // transition occurs and the phase stays active.
    assert_eq!(tracker.check_progress(), Ok(None));
    assert!(tracker.is_active());
}

#[test]
fn empty_phase_is_immediately_ready() {
    let plugin = ProgressPlugin::new(AppState::Loading).continue_to(AppState::InGame);
    let mut tracker = ProgressTracker::new(plugin);
    tracker.enter();
    assert_eq!(tracker.next_frame(), Ok(()));
    // No tracked tasks: total stays zero, and 0 >= 0 counts as ready.
    assert_eq!(tracker.check_progress(), Ok(Some(AppState::InGame)));
}

#[test]
fn persist_counts_in_every_cycle() {
    let plugin = ProgressPlugin::new(AppState::Loading).continue_to(AppState::InGame);
    let mut tracker = ProgressTracker::new(plugin);
    tracker.enter();

    assert_eq!(tracker.persist(Progress { done: 1, total: 1 }), Ok(()));
    assert_eq!(tracker.persist_hidden(HiddenProgress(Progress { done: 1, total: 2 })), Ok(()));
    assert_eq!(tracker.read_visible(), Ok(Progress { done: 1, total: 1 }));
    assert_eq!(tracker.read_complete(), Ok(Progress { done: 2, total: 3 }));

    // The persisted contributions survive the next cycle's reset.
    assert_eq!(tracker.next_frame(), Ok(()));
    assert_eq!(tracker.read_visible(), Ok(Progress { done: 1, total: 1 }));
    assert_eq!(tracker.read_complete(), Ok(Progress { done: 2, total: 3 }));
}

#[test]
fn system_labels_are_distinct() {
    assert_eq!(ProgressSystemLabel::Preparation, ProgressSystemLabel::Preparation);
    assert_ne!(ProgressSystemLabel::Preparation, ProgressSystemLabel::Tracking);
    assert_ne!(ProgressSystemLabel::Tracking, ProgressSystemLabel::CheckProgress);
}
