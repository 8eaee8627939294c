use vstd::prelude::*;

use crate::progress::HiddenProgress;
use crate::progress::Progress;

verus! {

/// Helper task that stays pending for `frames` cycles.
///
/// `count` is the task-local call counter, starting at zero; the host
/// carries it between cycles and passes it back on every call. The
/// returned hidden progress reaches `frames` of `frames` — ready —
/// once the task has been called more than `frames` times.
///
/// May be useful for testing, debugging, or working around ordering
/// issues.
pub fn dummy_system_wait_frames(frames: u32, count: &mut u32) -> (r: HiddenProgress)
    requires
        !(frames == u32::MAX && *old(count) == u32::MAX),
    ensures
        *final(count) == if *old(count) <= frames {
            *old(count) + 1
        } else {
            *old(count) as int
        },
        r.0.done == *final(count) - 1,
        r.0.total == frames,
{
    if *count <= frames {
        *count = *count + 1;
    }
    HiddenProgress(Progress { done: *count - 1, total: frames })
}

} // verus!
