//! Tick scheduling: a fixed simulation step and a frame limiter, driven by
//! elapsed real time.
//!
//! The host measures real time and reports it in nanoseconds; the decisions
//! — whether to draw a frame, and how many fixed simulation steps to run to
//! catch up — are made and specified here. The update phase runs exactly as
//! often as whole simulation steps of unsimulated time have accumulated,
//! never more, so catch-up cannot run away.

use vstd::prelude::*;

verus! {

/// The scheduling state: the fixed simulation step, the minimum interval
/// between frames, the simulated time so far, and the real time that has
/// passed but not been simulated yet. All durations are in nanoseconds.
#[derive(Clone, Copy, Debug, PartialEq, Eq, Structural)]
pub struct TimeResource {
    pub update_dt: u64,
    pub frame_dt: u64,
    pub ingame_time: u64,
    pub unsimulated_time: u64,
}

impl TimeResource {
    /// Fresh scheduling state: nothing simulated, nothing pending.
    pub fn new(update_dt: u64, frame_dt: u64) -> (r: Self)
        ensures
            r == (TimeResource { update_dt, frame_dt, ingame_time: 0, unsimulated_time: 0 }),
    {
        Self { update_dt, frame_dt, ingame_time: 0, unsimulated_time: 0 }
    }
}

/// Decide whether to draw, given the real time elapsed since the last frame.
///
/// Acts as a frame limiter: a frame is due exactly when at least the frame
/// interval has passed. When it is, the elapsed time is registered as
/// unsimulated so that the update phase can catch up, and the host must
/// reset its frame clock; when it is not, nothing changes.
pub fn frame_criteria(time: &mut TimeResource, elapsed: u64) -> (run: bool)
    requires
        old(time).unsimulated_time + elapsed <= u64::MAX,
    ensures
        run == (elapsed >= old(time).frame_dt),
        run ==> *final(time) == (TimeResource {
            unsimulated_time: (old(time).unsimulated_time + elapsed) as u64,
            ..*old(time)
        }),
        !run ==> *final(time) == *old(time),
{
    if elapsed >= time.frame_dt {
        time.unsimulated_time = time.unsimulated_time + elapsed;
        true
    } else {
        false
    }
}

/// Decide whether to run one more fixed simulation step.
///
/// Runs exactly while a whole step of unsimulated time remains: each run
/// moves one step from unsimulated to simulated time, so the update phase
/// catches up and then stops.
pub fn update_criteria(time: &mut TimeResource) -> (run: bool)
    requires
        old(time).ingame_time + old(time).update_dt <= u64::MAX,
    ensures
        run == (old(time).unsimulated_time >= old(time).update_dt),
        run ==> *final(time) == (TimeResource {
            unsimulated_time: (old(time).unsimulated_time - old(time).update_dt) as u64,
            ingame_time: (old(time).ingame_time + old(time).update_dt) as u64,
            ..*old(time)
        }),
        !run ==> *final(time) == *old(time),
{
    if time.unsimulated_time >= time.update_dt {
        time.unsimulated_time = time.unsimulated_time - time.update_dt;
        time.ingame_time = time.ingame_time + time.update_dt;
        true
    } else {
        false
    }
}

} // verus!
