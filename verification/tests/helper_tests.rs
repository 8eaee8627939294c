use iyes_progress::dummy_system_wait_frames;

#[test]
fn wait_frames_counts_up_to_ready() {
    let mut count: u32 = 0;

    // First call: nothing done yet out of 2 expected.
    let p = dummy_system_wait_frames(2, &mut count);
    assert_eq!((p.0.done, p.0.total), (0, 2));
    assert!(!p.0.is_ready());

    let p = dummy_system_wait_frames(2, &mut count);
    assert_eq!((p.0.done, p.0.total), (1, 2));
    assert!(!p.0.is_ready());

    // Third call: the wait is over.
    let p = dummy_system_wait_frames(2, &mut count);
    assert_eq!((p.0.done, p.0.total), (2, 2));
    assert!(p.0.is_ready());

    // Further calls stay ready and stop counting.
    let p = dummy_system_wait_frames(2, &mut count);
    assert_eq!((p.0.done, p.0.total), (2, 2));
    assert_eq!(count, 3);
}

#[test]
fn wait_zero_frames_is_ready_at_once() {
    let mut count: u32 = 0;
    let p = dummy_system_wait_frames(0, &mut count);
    assert_eq!((p.0.done, p.0.total), (0, 0));
    assert!(p.0.is_ready());
}
