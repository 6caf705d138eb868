use terrain_mesh::camera::{camera_update, CameraController, CameraInput, PITCH_LIMIT};

fn idle_input() -> CameraInput {
    CameraInput {
        forward: false,
        back: false,
        left: false,
        right: false,
        up: false,
        down: false,
        run: false,
        mouse_dx: 0,
        mouse_dy: 0,
        dt: 16_667, // one 60 Hz frame in microseconds
    }
}

#[test]
fn default_controller_matches_scene_setup() {
    let c = CameraController::default();
    assert!(c.enabled);
    assert_eq!(c.sensitivity, 500_000);
    assert_eq!(c.walk_speed, 10_000_000);
    assert_eq!(c.run_speed, 30_000_000);
    assert_eq!(c.friction, 500_000);
    assert_eq!(c.pitch, 0);
    assert_eq!(c.yaw, 0);
    assert_eq!((c.dir_x, c.dir_y, c.dir_z), (0, 0, 0));
    assert_eq!(c.speed, 0);
}

#[test]
fn forward_walks_and_run_key_runs() {
    let mut c = CameraController::default();
    let mut inp = idle_input();
    inp.forward = true;
    camera_update(&mut c, &inp);
    assert_eq!((c.dir_x, c.dir_y, c.dir_z), (0, 0, 1));
    assert_eq!(c.speed, c.walk_speed);
    inp.run = true;
    camera_update(&mut c, &inp);
    assert_eq!(c.speed, c.run_speed);
}

#[test]
fn opposite_keys_cancel_and_leave_decay() {
    let mut c = CameraController::default();
    let mut inp = idle_input();
    inp.forward = true;
    camera_update(&mut c, &inp);
    assert_eq!(c.speed, 10_000_000);
    // Forward and back together are no axis input: friction applies.
    inp.back = true;
    camera_update(&mut c, &inp);
    assert_eq!(c.speed, 5_000_000);
    assert_eq!((c.dir_x, c.dir_y, c.dir_z), (0, 0, 1));
}

#[test]
fn diagonal_input_keeps_direction_and_magnitude() {
    let mut c = CameraController::default();
    let mut inp = idle_input();
    inp.forward = true;
    inp.right = true;
    inp.up = true;
    inp.run = true;
    camera_update(&mut c, &inp);
    assert_eq!((c.dir_x, c.dir_y, c.dir_z), (1, 1, 1));
    assert_eq!(c.speed, 30_000_000);
    inp.right = false;
    inp.left = true;
    inp.down = true;
    inp.run = false;
    camera_update(&mut c, &inp);
    assert_eq!((c.dir_x, c.dir_y, c.dir_z), (-1, 0, 1));
    assert_eq!(c.speed, 10_000_000);
}

#[test]
fn half_friction_halves_the_speed_each_frame() {
    let mut c = CameraController::default();
    c.dir_x = 1;
    c.speed = 10_000_000; // velocity (10, 0, 0)
    let inp = idle_input();
    camera_update(&mut c, &inp);
    assert_eq!(c.speed, 5_000_000);
    assert_eq!((c.dir_x, c.dir_y, c.dir_z), (1, 0, 0));
    camera_update(&mut c, &inp);
    assert_eq!(c.speed, 2_500_000);
}

#[test]
fn decay_converges_to_exact_zero_and_stays() {
    let mut c = CameraController::default();
    c.dir_x = 1;
    c.speed = 10_000_000;
    let inp = idle_input();
    let mut frames = 0;
    while c.speed != 0 {
        let before = c.speed;
        camera_update(&mut c, &inp);
        assert!(c.speed < before);
        frames += 1;
        assert!(frames < 64, "friction decay did not reach zero");
    }
    // Once below the snap threshold the speed is exactly zero, for good.
    camera_update(&mut c, &inp);
    assert_eq!(c.speed, 0);
    camera_update(&mut c, &inp);
    assert_eq!(c.speed, 0);
}

#[test]
fn snap_threshold_is_one_thousandth_of_a_unit() {
    let mut c = CameraController::default();
    let inp = idle_input();
    // Decays to 999 micro-units/s: squared magnitude below 1e-6, snaps.
    c.dir_z = 1;
    c.speed = 1_999;
    camera_update(&mut c, &inp);
    assert_eq!(c.speed, 0);
    // Decays to exactly 1000: still at the threshold's edge, kept.
    c.speed = 2_001;
    camera_update(&mut c, &inp);
    assert_eq!(c.speed, 1_000);
}

#[test]
fn full_friction_stops_immediately_and_zero_friction_coasts() {
    let mut c = CameraController::default();
    c.friction = 1_000_000;
    c.dir_z = 1;
    c.speed = 30_000_000;
    let inp = idle_input();
    camera_update(&mut c, &inp);
    assert_eq!(c.speed, 0);
    // Friction beyond 1.0 clamps to 1.0.
    c.friction = 7_000_000;
    c.speed = 30_000_000;
    camera_update(&mut c, &inp);
    assert_eq!(c.speed, 0);
    // Negative friction clamps to 0.0: no decay at all.
    c.friction = -3;
    c.speed = 30_000_000;
    camera_update(&mut c, &inp);
    assert_eq!(c.speed, 30_000_000);
}

#[test]
fn yaw_turns_against_pointer_and_is_exact() {
    let mut c = CameraController::default();
    let mut inp = idle_input();
    // 2 pixels right over a 1-second frame at sensitivity 0.5:
    // 2 * 0.5 * 1 = 1 radian of yaw, to the left (negative).
    inp.mouse_dx = 2_000_000;
    inp.dt = 1_000_000;
    camera_update(&mut c, &inp);
    assert_eq!(c.yaw, -1_000_000);
    assert_eq!(c.pitch, 0);
    inp.mouse_dx = -2_000_000;
    camera_update(&mut c, &inp);
    assert_eq!(c.yaw, 0);
}

#[test]
fn pitch_moves_at_half_rate_and_clamps() {
    let mut c = CameraController::default();
    let mut inp = idle_input();
    // 2 pixels down over a 1-second frame: 2 * 0.5 * 0.5 * 1 = 0.5 radian
    // of pitch, downward.
    inp.mouse_dy = 2_000_000;
    inp.dt = 1_000_000;
    camera_update(&mut c, &inp);
    assert_eq!(c.pitch, -500_000);
    assert_eq!(c.yaw, 0);
}

#[test]
fn pitch_never_leaves_the_clamp() {
    let mut c = CameraController::default();
    let mut inp = idle_input();
    inp.mouse_dy = -10_000_000_000;
    inp.dt = 10_000_000;
    for _ in 0..16 {
        camera_update(&mut c, &inp);
        assert!(-PITCH_LIMIT <= c.pitch && c.pitch <= PITCH_LIMIT);
    }
    assert_eq!(c.pitch, PITCH_LIMIT);
    inp.mouse_dy = 10_000_000_000;
    for _ in 0..16 {
        camera_update(&mut c, &inp);
        assert!(-PITCH_LIMIT <= c.pitch && c.pitch <= PITCH_LIMIT);
    }
    assert_eq!(c.pitch, -PITCH_LIMIT);
}

#[test]
fn disabled_controller_ignores_input() {
    let mut c = CameraController::default();
    c.enabled = false;
    let mut inp = idle_input();
    inp.forward = true;
    inp.run = true;
    inp.mouse_dx = 1_000_000;
    inp.mouse_dy = 1_000_000;
    camera_update(&mut c, &inp);
    assert_eq!(c.speed, 0);
    assert_eq!(c.pitch, 0);
    assert_eq!(c.yaw, 0);
    assert_eq!((c.dir_x, c.dir_y, c.dir_z), (0, 0, 0));
}

#[test]
fn still_pointer_leaves_orientation_alone() {
    let mut c = CameraController::default();
    c.pitch = 123;
    c.yaw = -456;
    let mut inp = idle_input();
    inp.forward = true;
    camera_update(&mut c, &inp);
    assert_eq!(c.pitch, 123);
    assert_eq!(c.yaw, -456);
}
