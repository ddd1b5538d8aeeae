//! The render/input loop's decisions, parted from the outside work they
//! steer. The loop itself lives outside this crate, where it talks to
//! the display surface, the channel and the clock; each iteration it
//! reports what it saw, and [`loop_step`] decides whether the loop goes
//! on, mutates the window, and says what must happen next: redraw, and
//! whether the current frame is to be exported.

use vstd::prelude::*;
use crate::window::{pushed, Sample, SlidingWindow};

verus! {

/// The loop's two states.
#[derive(Clone, Copy, PartialEq, Eq, Structural, Debug)]
pub enum Phase {
    /// Keep iterating.
    Running,
    /// Leave the loop; the process then ends.
    Terminated,
}

/// What one iteration decided.
#[derive(Clone, Copy, PartialEq, Eq, Structural, Debug)]
pub struct StepOutcome {
    /// Whether the loop goes on.
    pub phase: Phase,
    /// Whether the frame is to be redrawn and presented.
    pub redraw: bool,
    /// Whether the current chart frame is to be written out.
    pub export: bool,
}

/// The sole exit rule: the loop ends exactly when the display surface
/// is gone or the exit key is held down.
pub fn next_phase(surface_open: bool, exit_key_down: bool) -> (p: Phase)
    ensures
        (p == Phase::Terminated) <==> (!surface_open || exit_key_down),
{
    if surface_open && !exit_key_down {
        Phase::Running
    } else {
        Phase::Terminated
    }
}

/// One iteration of the render/input loop.
///
/// While running: a sample that arrived goes into the window, the frame
/// is redrawn either way, and the export request is honoured. Once
/// terminated nothing is touched any more.
pub fn loop_step(
    w: &mut SlidingWindow,
    surface_open: bool,
    exit_key_down: bool,
    arrived: Option<Sample>,
    export_key_pressed: bool,
) -> (out: StepOutcome)
    requires
        old(w).wf(),
        arrived matches Some(x) ==> old(w).admits(x),
    ensures
        final(w).wf(),
        final(w).cap() == old(w).cap(),
        (out.phase == Phase::Terminated) <==> (!surface_open || exit_key_down),
        out.phase == Phase::Terminated ==> final(w).contents() == old(w).contents() && !out.redraw
            && !out.export,
        out.phase == Phase::Running ==> {
            &&& match arrived {
                Some(x) => final(w).contents() == pushed(old(w).contents(), old(w).cap(), x),
                None => final(w).contents() == old(w).contents(),
            }
            &&& out.redraw
            &&& out.export == export_key_pressed
        },
{
    let phase = next_phase(surface_open, exit_key_down);
    if phase == Phase::Terminated {
        return StepOutcome { phase, redraw: false, export: false };
    }
    match arrived {
        Some(x) => w.push(x),
        None => (),
    }
    StepOutcome { phase, redraw: true, export: export_key_pressed }
}

} // verus!
