//! The first-person camera motion model.
//!
//! Per-frame integration of camera velocity and orientation from an input
//! snapshot, in exact fixed-point arithmetic: times, speeds, angles and
//! fractions are integers in micro-units (`MICRO` to one). The velocity is
//! kept as a movement direction (each component -1, 0 or 1) together with
//! its magnitude, so speed selection and friction decay are exact; the
//! host turns the pair into a world-space vector (normalizing the
//! direction and applying camera-relative axes) when it integrates the
//! position. Key bindings live in the host: the input snapshot already
//! says which logical direction keys are held.

use vstd::arithmetic::div_mod::{
    lemma_div_is_ordered, lemma_div_multiples_vanish, lemma_fundamental_div_mod_converse_div,
};
use vstd::math::abs;
use vstd::prelude::*;

verus! {

/// One whole unit in fixed-point micro-units.
pub const MICRO: u64 = 1_000_000;

/// The pitch clamp: 0.99 of a quarter turn (0.99 * pi/2) in microradians,
/// keeping the camera short of straight up or straight down.
pub const PITCH_LIMIT: i64 = 1_555_088;

/// Speeds below this (in micro-units per second) snap to zero during
/// friction decay: it is the magnitude whose square is one millionth of a
/// squared unit.
pub const SNAP_SPEED: u64 = 1_000;

/// Largest supported speed: a million units per second, in micro-units.
pub const SPEED_MAX: u64 = 1_000_000_000_000;

/// Largest supported look sensitivity: 10.0, in micro-units.
pub const SENSITIVITY_MAX: u64 = 10_000_000;

/// Largest supported per-frame pointer delta magnitude: ten thousand
/// pixels, in micro-pixels.
pub const MOUSE_MAX: i64 = 10_000_000_000;

/// Largest supported frame time: ten seconds, in microseconds.
pub const DT_MAX: u64 = 10_000_000;

/// Largest yaw magnitude (in microradians) that an update accepts; far
/// beyond any pose a session can reach, it keeps the unbounded yaw free of
/// wrap-around.
pub const YAW_LIMIT: i64 = 4_000_000_000_000_000_000;

/// The camera controller: configuration and per-frame motion state. The
/// velocity vector is `normalize((dir_x, dir_y, dir_z)) * speed`, taken in
/// camera-relative axes (x strafe, y world-up, z forward); `speed` is its
/// magnitude.
pub struct CameraController {
    /// Updates are no-ops while disabled.
    pub enabled: bool,
    /// Look sensitivity in micro-units (radians per pixel-second).
    pub sensitivity: u64,
    /// Walking speed in micro-units per second.
    pub walk_speed: u64,
    /// Running speed in micro-units per second.
    pub run_speed: u64,
    /// Per-frame velocity decay fraction in micro-units; values outside
    /// [0, MICRO] act as the nearest bound.
    pub friction: i64,
    /// Pitch in microradians, always within [-PITCH_LIMIT, PITCH_LIMIT].
    pub pitch: i64,
    /// Yaw in microradians, unbounded.
    pub yaw: i64,
    /// Movement direction, each component -1, 0 or 1.
    pub dir_x: i8,
    pub dir_y: i8,
    pub dir_z: i8,
    /// Velocity magnitude in micro-units per second.
    pub speed: u64,
}

/// One frame of host input: which logical direction keys are held, the
/// accumulated pointer delta in micro-pixels, and the elapsed frame time
/// in microseconds.
pub struct CameraInput {
    pub forward: bool,
    pub back: bool,
    pub left: bool,
    pub right: bool,
    pub up: bool,
    pub down: bool,
    pub run: bool,
    pub mouse_dx: i64,
    pub mouse_dy: i64,
    pub dt: u64,
}

impl CameraController {
    pub open spec fn wf(self) -> bool {
        &&& self.sensitivity <= SENSITIVITY_MAX
        &&& self.walk_speed <= SPEED_MAX
        &&& self.run_speed <= SPEED_MAX
        &&& -1 <= self.dir_x <= 1
        &&& -1 <= self.dir_y <= 1
        &&& -1 <= self.dir_z <= 1
        &&& self.speed <= SPEED_MAX
        &&& -PITCH_LIMIT <= self.pitch <= PITCH_LIMIT
    }
}

impl CameraInput {
    pub open spec fn wf(self) -> bool {
        &&& -MOUSE_MAX <= self.mouse_dx <= MOUSE_MAX
        &&& -MOUSE_MAX <= self.mouse_dy <= MOUSE_MAX
        &&& self.dt <= DT_MAX
    }
}

/// Strafe component of the held-key axis vector.
pub open spec fn axis_x(inp: CameraInput) -> int {
    (if inp.right {
        1int
    } else {
        0int
    }) - (if inp.left {
        1int
    } else {
        0int
    })
}

/// Vertical component of the held-key axis vector.
pub open spec fn axis_y(inp: CameraInput) -> int {
    (if inp.up {
        1int
    } else {
        0int
    }) - (if inp.down {
        1int
    } else {
        0int
    })
}

/// Forward component of the held-key axis vector.
pub open spec fn axis_z(inp: CameraInput) -> int {
    (if inp.forward {
        1int
    } else {
        0int
    }) - (if inp.back {
        1int
    } else {
        0int
    })
}

/// Some direction key is held.
pub open spec fn any_axis(inp: CameraInput) -> bool {
    axis_x(inp) != 0 || axis_y(inp) != 0 || axis_z(inp) != 0
}

/// The pointer moved this frame.
pub open spec fn mouse_moved(inp: CameraInput) -> bool {
    inp.mouse_dx != 0 || inp.mouse_dy != 0
}

/// The speed the held keys select: run speed with the run key, else walk
/// speed.
pub open spec fn target_speed(st: CameraController, inp: CameraInput) -> int {
    if inp.run {
        st.run_speed as int
    } else {
        st.walk_speed as int
    }
}

/// The friction fraction, clamped to [0, MICRO].
pub open spec fn clamped_friction(f: int) -> int {
    if f < 0 {
        0
    } else if f > MICRO {
        MICRO as int
    } else {
        f
    }
}

/// One frame of friction decay: the speed scaled by the remaining
/// fraction, rounded down.
pub open spec fn decayed_speed(speed: int, f: int) -> int {
    speed * (MICRO - clamped_friction(f)) / (MICRO as int)
}

/// Speeds below the snap threshold become exactly zero.
pub open spec fn snapped_speed(s: int) -> int {
    if s < SNAP_SPEED {
        0
    } else {
        s
    }
}

/// Magnitude of one frame's orientation change from a pointer delta:
/// |delta| * sensitivity * dt, with each micro-unit product rounded down.
pub open spec fn look_step(delta: int, sensitivity: int, dt: int) -> int {
    (abs(delta) * sensitivity / (MICRO as int)) * dt / (MICRO as int)
}

/// The step, signed so that a non-negative pointer delta subtracts it.
pub open spec fn signed_toward(delta: int, mag: int) -> int {
    if delta >= 0 {
        mag
    } else {
        -mag
    }
}

/// Pitch change magnitude: half of the look step, as the vertical look is
/// half-rate.
pub open spec fn pitch_step(st: CameraController, inp: CameraInput) -> int {
    look_step(inp.mouse_dy as int, st.sensitivity as int, inp.dt as int) / 2
}

/// Yaw change magnitude.
pub open spec fn yaw_step(st: CameraController, inp: CameraInput) -> int {
    look_step(inp.mouse_dx as int, st.sensitivity as int, inp.dt as int)
}

/// A pitch, clamped to [-PITCH_LIMIT, PITCH_LIMIT].
pub open spec fn clamped_pitch(p: int) -> int {
    if p < -PITCH_LIMIT {
        -PITCH_LIMIT as int
    } else if p > PITCH_LIMIT {
        PITCH_LIMIT as int
    } else {
        p
    }
}

/// The movement direction after one frame: the held-key axis vector while
/// any direction key is held, else unchanged (the decaying velocity keeps
/// its direction).
pub open spec fn next_dir_x(st: CameraController, inp: CameraInput) -> int {
    if st.enabled && any_axis(inp) {
        axis_x(inp)
    } else {
        st.dir_x as int
    }
}

pub open spec fn next_dir_y(st: CameraController, inp: CameraInput) -> int {
    if st.enabled && any_axis(inp) {
        axis_y(inp)
    } else {
        st.dir_y as int
    }
}

pub open spec fn next_dir_z(st: CameraController, inp: CameraInput) -> int {
    if st.enabled && any_axis(inp) {
        axis_z(inp)
    } else {
        st.dir_z as int
    }
}

/// The speed after one frame: the selected speed while a direction key is
/// held; else one step of friction decay, snapped to zero below the
/// threshold.
pub open spec fn next_speed(st: CameraController, inp: CameraInput) -> int {
    if !st.enabled {
        st.speed as int
    } else if any_axis(inp) {
        target_speed(st, inp)
    } else {
        snapped_speed(decayed_speed(st.speed as int, st.friction as int))
    }
}

/// The pitch after one frame: moved against the vertical pointer delta and
/// clamped, when the pointer moved; else unchanged.
pub open spec fn next_pitch(st: CameraController, inp: CameraInput) -> int {
    if st.enabled && mouse_moved(inp) {
        clamped_pitch(st.pitch - signed_toward(inp.mouse_dy as int, pitch_step(st, inp)))
    } else {
        st.pitch as int
    }
}

/// The yaw after one frame: moved against the horizontal pointer delta,
/// unclamped, when the pointer moved; else unchanged.
pub open spec fn next_yaw(st: CameraController, inp: CameraInput) -> int {
    if st.enabled && mouse_moved(inp) {
        st.yaw - signed_toward(inp.mouse_dx as int, yaw_step(st, inp))
    } else {
        st.yaw as int
    }
}

/// Friction decay never speeds the camera up and never produces a negative
/// speed, whatever the friction setting.
pub proof fn lemma_friction_decay_bounds(speed: int, f: int)
    requires
        0 <= speed,
    ensures
        0 <= decayed_speed(speed, f) <= speed,
{
    let fc = clamped_friction(f);
    assert(0 <= speed * (MICRO - fc) <= speed * (MICRO as int)) by (nonlinear_arith)
        requires
            0 <= speed,
            0 <= fc <= MICRO,
    ;
    lemma_div_is_ordered(0, speed * (MICRO - fc), MICRO as int);
    lemma_div_is_ordered(speed * (MICRO - fc), speed * (MICRO as int), MICRO as int);
    assert(speed * (MICRO as int) == (MICRO as int) * speed) by (nonlinear_arith);
    lemma_div_multiples_vanish(speed, MICRO as int);
}

/// Any positive friction strictly shrinks a positive speed, so repeated
/// coasting frames drive the speed below the snap threshold and, from
/// there, to exactly zero.
pub proof fn lemma_positive_friction_strictly_decays(speed: int, f: int)
    requires
        1 <= speed,
        1 <= clamped_friction(f),
    ensures
        decayed_speed(speed, f) < speed,
{
    let fc = clamped_friction(f);
    assert(speed * (MICRO - fc) <= speed * (MICRO as int) - speed) by (nonlinear_arith)
        requires
            1 <= speed,
            1 <= fc,
    ;
    lemma_div_is_ordered(speed * (MICRO - fc), speed * (MICRO as int) - 1, MICRO as int);
    assert(speed * (MICRO as int) - 1 == (speed - 1) * (MICRO as int) + (MICRO - 1))
        by (nonlinear_arith);
    lemma_fundamental_div_mod_converse_div(
        speed * (MICRO as int) - 1,
        MICRO as int,
        speed - 1,
        MICRO as int - 1,
    );
}

/// Once the decayed speed falls below the snap threshold, the camera stops
/// exactly; in particular a stopped camera stays stopped while no
/// direction key is held.
pub proof fn lemma_snap_to_zero(st: CameraController, inp: CameraInput)
    requires
        st.enabled,
        !any_axis(inp),
    ensures
        decayed_speed(st.speed as int, st.friction as int) < SNAP_SPEED ==> next_speed(st, inp)
            == 0,
        st.speed == 0 ==> next_speed(st, inp) == 0,
{
    if st.speed == 0 {
        assert(0 * (MICRO - clamped_friction(st.friction as int)) == 0) by (nonlinear_arith);
        assert(decayed_speed(0, st.friction as int) == 0int / (MICRO as int));
    }
}

/// Holding any direction key sets the velocity magnitude to exactly the
/// run speed when the run key is held, and exactly the walk speed
/// otherwise.
pub proof fn lemma_speed_selection(st: CameraController, inp: CameraInput)
    requires
        st.enabled,
        any_axis(inp),
    ensures
        inp.run ==> next_speed(st, inp) == st.run_speed,
        !inp.run ==> next_speed(st, inp) == st.walk_speed,
{
}

/// However large the pointer delta, one frame's look update leaves the
/// pitch within the clamp; a well-formed controller therefore never
/// pitches past the poles, no matter how many frames run.
pub proof fn lemma_pitch_stays_clamped(st: CameraController, inp: CameraInput)
    requires
        st.wf(),
    ensures
        -PITCH_LIMIT <= next_pitch(st, inp) <= PITCH_LIMIT,
{
}

proof fn lemma_mul_le(a: int, amax: int, b: int, bmax: int)
    requires
        0 <= a <= amax,
        0 <= b <= bmax,
    ensures
        0 <= a * b <= amax * bmax,
{
    assert(0 <= a * b <= amax * bmax) by (nonlinear_arith)
        requires
            0 <= a <= amax,
            0 <= b <= bmax,
    ;
}

/// Absolute value of a bounded pointer delta.
fn delta_abs(delta: i64) -> (r: u64)
    requires
        -MOUSE_MAX <= delta <= MOUSE_MAX,
    ensures
        r == abs(delta as int),
        r <= MOUSE_MAX,
{
    if delta >= 0 {
        delta as u64
    } else {
        (-delta) as u64
    }
}

/// One frame's look-step magnitude, in micro-units.
fn look_step_mag(delta: i64, sensitivity: u64, dt: u64) -> (r: u64)
    requires
        -MOUSE_MAX <= delta <= MOUSE_MAX,
        sensitivity <= SENSITIVITY_MAX,
        dt <= DT_MAX,
    ensures
        r == look_step(delta as int, sensitivity as int, dt as int),
        r <= 1_000_000_000_000,
{
    let da: u64 = delta_abs(delta);
    proof {
        lemma_mul_le(da as int, MOUSE_MAX as int, sensitivity as int, SENSITIVITY_MAX as int);
    }
    let scaled: u64 = da * sensitivity / MICRO;
    proof {
        lemma_div_is_ordered(
            (da * sensitivity) as int,
            100_000_000_000_000_000int,
            MICRO as int,
        );
        lemma_mul_le(scaled as int, 100_000_000_000int, dt as int, DT_MAX as int);
    }
    let swept: u64 = scaled * dt;
    proof {
        lemma_div_is_ordered(swept as int, 1_000_000_000_000_000_000int, MICRO as int);
    }
    swept / MICRO
}

/// One frame of the camera motion model. While enabled: held direction
/// keys select the movement direction and set the speed to the walk or
/// run speed; with no direction key held the speed decays by the friction
/// fraction and snaps to zero below the snap threshold; pointer movement
/// turns the camera, with the pitch clamped short of the poles and the
/// yaw unbounded. Disabled controllers do not change.
pub fn camera_update(st: &mut CameraController, inp: &CameraInput)
    requires
        old(st).wf(),
        inp.wf(),
        -YAW_LIMIT <= old(st).yaw <= YAW_LIMIT,
    ensures
        final(st).wf(),
        final(st).enabled == old(st).enabled,
        final(st).sensitivity == old(st).sensitivity,
        final(st).walk_speed == old(st).walk_speed,
        final(st).run_speed == old(st).run_speed,
        final(st).friction == old(st).friction,
        final(st).dir_x == next_dir_x(*old(st), *inp),
        final(st).dir_y == next_dir_y(*old(st), *inp),
        final(st).dir_z == next_dir_z(*old(st), *inp),
        final(st).speed == next_speed(*old(st), *inp),
        final(st).pitch == next_pitch(*old(st), *inp),
        final(st).yaw == next_yaw(*old(st), *inp),
{
    if !st.enabled {
        return ;
    }
    let ax: i64 = (if inp.right {
        1
    } else {
        0
    }) - (if inp.left {
        1
    } else {
        0
    });
    let ay: i64 = (if inp.up {
        1
    } else {
        0
    }) - (if inp.down {
        1
    } else {
        0
    });
    let az: i64 = (if inp.forward {
        1
    } else {
        0
    }) - (if inp.back {
        1
    } else {
        0
    });
    if ax != 0 || ay != 0 || az != 0 {
        st.dir_x = ax as i8;
        st.dir_y = ay as i8;
        st.dir_z = az as i8;
        st.speed = if inp.run {
            st.run_speed
        } else {
            st.walk_speed
        };
    } else {
        let fc: u64 = if st.friction < 0 {
            0
        } else if st.friction > MICRO as i64 {
            MICRO
        } else {
            st.friction as u64
        };
        proof {
            lemma_mul_le(st.speed as int, SPEED_MAX as int, (MICRO - fc) as int, MICRO as int);
            lemma_friction_decay_bounds(st.speed as int, st.friction as int);
        }
        let dec: u64 = st.speed * (MICRO - fc) / MICRO;
        st.speed = if dec < SNAP_SPEED {
            0
        } else {
            dec
        };
    }
    if inp.mouse_dx != 0 || inp.mouse_dy != 0 {
        let pm: u64 = look_step_mag(inp.mouse_dy, st.sensitivity, inp.dt) / 2;
        let p1: i64 = if inp.mouse_dy >= 0 {
            st.pitch - (pm as i64)
        } else {
            st.pitch + (pm as i64)
        };
        st.pitch = if p1 < -PITCH_LIMIT {
            -PITCH_LIMIT
        } else if p1 > PITCH_LIMIT {
            PITCH_LIMIT
        } else {
            p1
        };
        let ym: u64 = look_step_mag(inp.mouse_dx, st.sensitivity, inp.dt);
        st.yaw = if inp.mouse_dx >= 0 {
            st.yaw - (ym as i64)
        } else {
            st.yaw + (ym as i64)
        };
    }
}

impl Default for CameraController {
    /// The controller as a scene starts it: enabled, half sensitivity,
    /// walking at 10 and running at 30 units per second, half friction,
    /// level and at rest.
    fn default() -> (c: Self)
        ensures
            c.wf(),
            c.enabled,
            c.sensitivity == 500_000,
            c.walk_speed == 10_000_000,
            c.run_speed == 30_000_000,
            c.friction == 500_000,
            c.pitch == 0,
            c.yaw == 0,
            c.dir_x == 0 && c.dir_y == 0 && c.dir_z == 0,
            c.speed == 0,
    {
        CameraController {
            enabled: true,
            sensitivity: 500_000,
            walk_speed: 10_000_000,
            run_speed: 30_000_000,
            friction: 500_000,
            pitch: 0,
            yaw: 0,
            dir_x: 0,
            dir_y: 0,
            dir_z: 0,
            speed: 0,
        }
    }
}

} // verus!
