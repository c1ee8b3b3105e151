//! The frame clock.

use vstd::prelude::*;

verus! {

/// Nanoseconds in a second.
pub const BILLIE: u64 = 1_000_000_000;

/// Frames drawn in a second, at most.
pub const FPS_LIMIT: u64 = 60;

/// The time a frame has, in nanoseconds.
pub const RENDER_DEADLINE: u64 = BILLIE / FPS_LIMIT;

/// The time a round of input has, in nanoseconds: half a frame.
pub const CONTROL_DEADLINE: u64 = BILLIE / (FPS_LIMIT * 2);

/// The time still to wait in a tick of `tick_rate` of which `elapsed` has
/// passed: what is left of it, and nothing once it is over.
pub fn timeout(tick_rate: u64, elapsed: u64) -> (wait: u64)
    ensures
        wait == if elapsed >= tick_rate { 0 } else { tick_rate - elapsed },
{
    tick_rate.saturating_sub(elapsed)
}

/// The view keeps nothing between two frames: each frame is drawn from
/// the tree alone.
pub fn view() {
}

} // verus!
