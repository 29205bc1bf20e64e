//! The shutdown indicator: while the application is shutting down, an
//! overlay is drawn, but only once the frame counter has passed a fixed
//! delay, so the normal screen lingers for a bounded number of frames first.

use vstd::prelude::*;

verus! {

/// Number of render frames that pass before the shutdown indicator appears.
pub const DELAY: usize = 120;

/// Whether the shutdown indicator is drawn on the frame with this count.
pub open spec fn shutdown_spec(frame_count: usize) -> bool {
    frame_count > DELAY
}

/// Decide whether the frame with the given count shows the shutdown
/// indicator: it appears only once the frame count has passed the delay.
pub fn shutdown(frame_count: usize) -> (visible: bool)
    ensures
        visible == shutdown_spec(frame_count),
{
    frame_count > DELAY
}

} // verus!
