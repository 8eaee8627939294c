use iyes_progress::HiddenProgress;
use iyes_progress::Progress;

#[test]
fn readiness() {
    assert!(Progress { done: 3, total: 3 }.is_ready());
    assert!(!Progress { done: 2, total: 3 }.is_ready());
    // The empty-phase edge case: nothing expected counts as ready.
    assert!(Progress { done: 0, total: 0 }.is_ready());
    assert!(Progress { done: 5, total: 2 }.is_ready());
}

#[test]
fn boolean_conversion() {
    assert_eq!(Progress::from(true), Progress { done: 1, total: 1 });
    assert_eq!(Progress::from(false), Progress { done: 0, total: 1 });
    assert!(Progress::from(true).is_ready());
    assert!(!Progress::from(false).is_ready());
}

#[test]
fn componentwise_add() {
    let sum = Progress { done: 1, total: 2 }.add(Progress { done: 3, total: 4 });
    assert_eq!(sum, Progress { done: 4, total: 6 });

    let mut p = Progress { done: 0, total: 1 };
    p.add_assign(Progress { done: 2, total: 2 });
    assert_eq!(p, Progress { done: 2, total: 3 });
}

#[test]
fn default_values() {
    assert_eq!(Progress::default(), Progress { done: 0, total: 0 });
    assert_eq!(HiddenProgress::default().0, Progress { done: 0, total: 0 });
}
