use vstd::arithmetic::div_mod::{lemma_fundamental_div_mod, lemma_mod_multiples_vanish};
use vstd::prelude::*;

verus! {

/// How far the model turns per millisecond, in thousandths of a degree.
pub const ROTATION_SPEED: u32 = 32;

/// One full turn, in thousandths of a degree.
pub const FULL_TURN: u32 = 360000;

/// The time one full turn takes, in milliseconds: `FULL_TURN / ROTATION_SPEED`.
pub const TURN_MILLIS: u64 = 11250;

/// How far one key press moves the camera and its target along an axis.
pub const CAMERA_STEP: i32 = 5;

/// Platform key codes of the keys that move the camera.
pub const KEY_A: u32 = 0x61;
pub const KEY_D: u32 = 0x64;
pub const KEY_E: u32 = 0x65;
pub const KEY_Q: u32 = 0x71;
pub const KEY_S: u32 = 0x73;
pub const KEY_W: u32 = 0x77;

/// An input event, as far as the frame state cares.
#[derive(Clone, Copy, Debug, PartialEq, Eq, Structural)]
pub enum InputEvent {
    /// The user asked to close the program.
    Quit,
    /// A key with the given key code was released.
    KeyUp(u32),
    /// Anything else.
    Other,
}

/// The camera translation that releasing `key` requests: Q and A move along
/// +x and -x, W and S along +y and -y, E and D along +z and -z.
pub open spec fn key_translation(key: u32) -> Option<(int, int, int)> {
    if key == KEY_Q {
        Some((CAMERA_STEP as int, 0, 0))
    } else if key == KEY_A {
        Some((-CAMERA_STEP as int, 0, 0))
    } else if key == KEY_W {
        Some((0, CAMERA_STEP as int, 0))
    } else if key == KEY_S {
        Some((0, -CAMERA_STEP as int, 0))
    } else if key == KEY_E {
        Some((0, 0, CAMERA_STEP as int))
    } else if key == KEY_D {
        Some((0, 0, -CAMERA_STEP as int))
    } else {
        None
    }
}

/// The rotation, in thousandths of a degree, after turning from `angle` for
/// `elapsed_ms` milliseconds.
pub open spec fn rotation_after(angle: int, elapsed_ms: int) -> int {
    (angle + ROTATION_SPEED * elapsed_ms) % (FULL_TURN as int)
}

/// The rotation after turning from `angle` for each of `steps` in turn.
pub open spec fn rotation_after_steps(angle: int, steps: Seq<u64>) -> int
    decreases steps.len(),
{
    if steps.len() == 0 {
        angle
    } else {
        rotation_after_steps(rotation_after(angle, steps[0] as int), steps.drop_first())
    }
}

/// The sum of `steps`.
pub open spec fn total_millis(steps: Seq<u64>) -> int
    decreases steps.len(),
{
    if steps.len() == 0 {
        0
    } else {
        steps[0] + total_millis(steps.drop_first())
    }
}

/// Adds `delta` to each coordinate of `p`.
pub open spec fn translated(p: [i32; 3], delta: (int, int, int)) -> (int, int, int) {
    (p[0] + delta.0, p[1] + delta.1, p[2] + delta.2)
}

/// Whether every coordinate of `p` is an `i32`.
pub open spec fn fits_i32(p: (int, int, int)) -> bool {
    &&& i32::MIN <= p.0 <= i32::MAX
    &&& i32::MIN <= p.1 <= i32::MAX
    &&& i32::MIN <= p.2 <= i32::MAX
}

/// The coordinates of `p` as integers.
pub open spec fn as_triple(p: [i32; 3]) -> (int, int, int) {
    (p[0] as int, p[1] as int, p[2] as int)
}

/// The state the frame loop carries from one frame to the next.
#[derive(Clone, Copy, Debug, PartialEq, Eq)]
pub struct FrameState {
    /// Where the camera is.
    pub camera_position: [i32; 3],
    /// The point the camera looks at.
    pub camera_target: [i32; 3],
    /// The model's rotation about the y axis, in thousandths of a degree,
    /// below `FULL_TURN`.
    pub rotation: u32,
    /// Whether the user asked to quit.
    pub quit: bool,
}

impl FrameState {
    /// The rotation is below one full turn.
    pub open spec fn wf(&self) -> bool {
        self.rotation < FULL_TURN
    }

    /// The state before the first frame: the camera at (0, 50, -50) looking
    /// at the origin, no rotation, no quit request.
    pub fn new() -> (r: FrameState)
        ensures
            r.wf(),
            as_triple(r.camera_position) == (0int, 50int, -50int),
            as_triple(r.camera_target) == (0int, 0int, 0int),
            r.rotation == 0,
            !r.quit,
    {
        FrameState { camera_position: [0, 50, -50], camera_target: [0, 0, 0], rotation: 0, quit: false }
    }

    /// Applies one input event. A quit event sets the quit flag. Releasing a
    /// camera key moves the camera and its target together by the key's
    /// translation, unless a coordinate would leave the `i32` range, in which
    /// case nothing moves. Other events change nothing.
    pub fn handle_event(&mut self, event: InputEvent)
        ensures
            final(self).rotation == old(self).rotation,
            final(self).quit == (old(self).quit || event == InputEvent::Quit),
            ({
                let moved = match event {
                    InputEvent::KeyUp(key) => match key_translation(key) {
                        Some(delta) => fits_i32(translated(old(self).camera_position, delta))
                            && fits_i32(translated(old(self).camera_target, delta)),
                        None => false,
                    },
                    _ => false,
                };
                let delta = match event {
                    InputEvent::KeyUp(key) => key_translation(key)->Some_0,
                    _ => (0int, 0int, 0int),
                };
                if moved {
                    as_triple(final(self).camera_position) == translated(old(self).camera_position, delta)
                        && as_triple(final(self).camera_target) == translated(old(self).camera_target, delta)
                } else {
                    final(self).camera_position == old(self).camera_position
                        && final(self).camera_target == old(self).camera_target
                }
            }),
    {
        match event {
            InputEvent::Quit => {
                self.quit = true;
            },
            InputEvent::KeyUp(key) => {
                let delta: [i32; 3] = if key == KEY_Q {
                    [CAMERA_STEP, 0, 0]
                } else if key == KEY_A {
                    [-CAMERA_STEP, 0, 0]
                } else if key == KEY_W {
                    [0, CAMERA_STEP, 0]
                } else if key == KEY_S {
                    [0, -CAMERA_STEP, 0]
                } else if key == KEY_E {
                    [0, 0, CAMERA_STEP]
                } else if key == KEY_D {
                    [0, 0, -CAMERA_STEP]
                } else {
                    return;
                };
                let p = self.camera_position;
                let t = self.camera_target;
                match (
                    p[0].checked_add(delta[0]),
                    p[1].checked_add(delta[1]),
                    p[2].checked_add(delta[2]),
                    t[0].checked_add(delta[0]),
                    t[1].checked_add(delta[1]),
                    t[2].checked_add(delta[2]),
                ) {
                    (Some(px), Some(py), Some(pz), Some(tx), Some(ty), Some(tz)) => {
                        self.camera_position = [px, py, pz];
                        self.camera_target = [tx, ty, tz];
                    },
                    _ => {},
                }
            },
            InputEvent::Other => {},
        }
    }

    /// Turns the model for `elapsed_ms` milliseconds, wrapping into one full
    /// turn.
    pub fn advance(&mut self, elapsed_ms: u64)
        requires
            old(self).wf(),
        ensures
            final(self).wf(),
            final(self).rotation == rotation_after(old(self).rotation as int, elapsed_ms as int),
            final(self).camera_position == old(self).camera_position,
            final(self).camera_target == old(self).camera_target,
            final(self).quit == old(self).quit,
    {
        self.rotation = advance_rotation(self.rotation, elapsed_ms);
    }
}

/// The rotation after turning from `angle` for `elapsed_ms` milliseconds,
/// in thousandths of a degree.
pub fn advance_rotation(angle: u32, elapsed_ms: u64) -> (r: u32)
    requires
        angle < FULL_TURN,
    ensures
        r == rotation_after(angle as int, elapsed_ms as int),
        r < FULL_TURN,
{
    let partial = (elapsed_ms % TURN_MILLIS) as u32;
    proof {
        let q = elapsed_ms as int / TURN_MILLIS as int;
        lemma_fundamental_div_mod(elapsed_ms as int, TURN_MILLIS as int);
        assert(angle + ROTATION_SPEED * elapsed_ms == FULL_TURN * q + (angle + ROTATION_SPEED * partial))
            by (nonlinear_arith)
            requires
                elapsed_ms == TURN_MILLIS * q + partial,
        ;
        lemma_mod_multiples_vanish(q, angle + ROTATION_SPEED * partial, FULL_TURN as int);
    }
    (angle + ROTATION_SPEED * partial) % FULL_TURN
}

/// Whatever the elapsed times, the rotation stays within one full turn, and
/// turning in several steps ends where turning once for their total time
/// does. In particular, steps that add up to `TURN_MILLIS` milliseconds bring
/// the rotation back to where it started.
pub proof fn lemma_rotation_wraps(angle: int, steps: Seq<u64>)
    requires
        0 <= angle < FULL_TURN,
    ensures
        0 <= rotation_after_steps(angle, steps) < FULL_TURN,
        rotation_after_steps(angle, steps) == rotation_after(angle, total_millis(steps)),
        total_millis(steps) == TURN_MILLIS ==> rotation_after_steps(angle, steps) == angle,
    decreases steps.len(),
{
    let m = FULL_TURN as int;
    if steps.len() == 0 {
        assert(angle % m == angle) by (nonlinear_arith)
            requires
                0 <= angle < m,
        ;
    } else {
        let e = steps[0] as int;
        let next = rotation_after(angle, e);
        let rest = total_millis(steps.drop_first());
        lemma_fundamental_div_mod(angle + ROTATION_SPEED * e, m);
        let q = (angle + ROTATION_SPEED * e) / m;
        assert(0 <= next < m);
        lemma_rotation_wraps(next, steps.drop_first());
        assert(next + ROTATION_SPEED * rest + m * q == angle + ROTATION_SPEED * (e + rest)) by (nonlinear_arith)
            requires
                angle + ROTATION_SPEED * e == m * q + next,
        ;
        lemma_mod_multiples_vanish(q, next + ROTATION_SPEED * rest, m);
    }
    if total_millis(steps) == TURN_MILLIS {
        assert(angle + ROTATION_SPEED * total_millis(steps) == m + angle);
        lemma_mod_multiples_vanish(1, angle, m);
        assert(angle % m == angle) by (nonlinear_arith)
            requires
                0 <= angle < m,
        ;
    }
}

} // verus!
