//! One turn of the display loop.
//!
//! The window, the keyboard and the screen are the caller's. Each turn the
//! caller says whether the window is still open, which keys are down and
//! where the camera should look; [`run`] moves the camera and says whether
//! the loop goes on. The caller then has the frame computed and shows it.

use crate::compute::Tracer;
use crate::fixed::translated;
use vstd::prelude::*;

verus! {

/// How far the camera moves in one turn for one key: a tenth of a unit.
pub const SPEED: i64 = 100;

/// The keys that the loop listens to, `true` while held down.
#[derive(Clone, Copy, Debug, PartialEq, Eq, Structural)]
pub struct KeyState {
    /// Ends the loop.
    pub escape: bool,
    /// Towards negative z.
    pub w: bool,
    /// Towards positive z.
    pub s: bool,
    /// Towards negative x.
    pub a: bool,
    /// Towards positive x.
    pub d: bool,
    /// Towards positive y.
    pub left_shift: bool,
    /// Towards negative y.
    pub space: bool,
}

/// What the display reports at the start of a turn.
#[derive(Clone, Copy, Debug, PartialEq, Eq)]
pub struct FrameInput {
    pub window_open: bool,
    pub keys: KeyState,
    /// The unit vector along which the camera is to look.
    pub facing: [i64; 3],
}

/// The position `p` after one turn with `keys` held down. The keys take
/// effect one after the other, in the order W, S, A, D, left shift, space.
pub open spec fn walked(p: [i64; 3], keys: KeyState) -> [i64; 3] {
    let p = if keys.w { translated(p, 0, 0, (-SPEED) as i64) } else { p };
    let p = if keys.s { translated(p, 0, 0, SPEED) } else { p };
    let p = if keys.a { translated(p, (-SPEED) as i64, 0, 0) } else { p };
    let p = if keys.d { translated(p, SPEED, 0, 0) } else { p };
    let p = if keys.left_shift { translated(p, 0, SPEED, 0) } else { p };
    let p = if keys.space { translated(p, 0, (-SPEED) as i64, 0) } else { p };
    p
}

/// Whether the loop goes on: the window is open and escape is not held.
pub open spec fn goes_on(input: FrameInput) -> bool {
    input.window_open && !input.keys.escape
}

/// Takes one turn of the display loop.
///
/// If the loop goes on, the camera has moved as the keys say and looks along
/// `input.facing`, and the caller is to compute and show a frame. If not,
/// the tracer is as it was.
pub fn run(tracer: &mut Tracer, input: &FrameInput) -> (go_on: bool)
    ensures
        go_on == goes_on(*input),
        final(tracer)@ == if go_on {
            old(tracer)@.with_position(
                walked(old(tracer)@.camera.position, input.keys),
            ).with_direction(input.facing)
        } else {
            old(tracer)@
        },
        final(tracer)@.wf(),
{
    if !input.window_open || input.keys.escape {
        proof {
            use_type_invariant(&*tracer);
        }
        return false;
    }
    if input.keys.w {
        tracer.change_camera_pos(0, 0, -SPEED);
    }
    if input.keys.s {
        tracer.change_camera_pos(0, 0, SPEED);
    }
    if input.keys.a {
        tracer.change_camera_pos(-SPEED, 0, 0);
    }
    if input.keys.d {
        tracer.change_camera_pos(SPEED, 0, 0);
    }
    if input.keys.left_shift {
        tracer.change_camera_pos(0, SPEED, 0);
    }
    if input.keys.space {
        tracer.change_camera_pos(0, -SPEED, 0);
    }
    tracer.set_camera_direction(input.facing[0], input.facing[1], input.facing[2]);
    assert([input.facing[0], input.facing[1], input.facing[2]] == input.facing);
    true
}

} // verus!
