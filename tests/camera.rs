use raw_miniquad::camera::{camera_target, nudge, start_position, step_camera, KeyInput, Point3};

fn keys(x: bool, y: bool, z: bool, shift: bool) -> KeyInput {
    KeyInput { x_pressed: x, y_pressed: y, z_pressed: z, shift_down: shift }
}

#[test]
fn camera_starts_at_fixed_position() {
    assert_eq!(start_position(), Point3 { x: 10, y: 4, z: 50 });
    assert_eq!(camera_target(), Point3 { x: 0, y: 0, z: 0 });
}

#[test]
fn y_key_raises_y_by_one_unit() {
    let p = step_camera(start_position(), keys(false, true, false, false));
    assert_eq!(p, Point3 { x: 10, y: 14, z: 50 });
}

#[test]
fn shift_y_key_lowers_y_by_one_unit() {
    let p = step_camera(start_position(), keys(false, true, false, true));
    assert_eq!(p, Point3 { x: 10, y: -6, z: 50 });
}

#[test]
fn x_and_z_keys_move_their_axes() {
    let p = step_camera(start_position(), keys(true, false, false, false));
    assert_eq!(p, Point3 { x: 20, y: 4, z: 50 });
    let p = step_camera(start_position(), keys(false, false, true, true));
    assert_eq!(p, Point3 { x: 10, y: 4, z: 40 });
}

#[test]
fn all_keys_in_one_frame_move_every_axis() {
    let p = step_camera(start_position(), keys(true, true, true, false));
    assert_eq!(p, Point3 { x: 20, y: 14, z: 60 });
    let p = step_camera(p, keys(true, true, true, true));
    assert_eq!(p, start_position());
}

#[test]
fn no_key_keeps_position() {
    assert_eq!(step_camera(start_position(), keys(false, false, false, true)), start_position());
    assert_eq!(step_camera(start_position(), keys(false, false, false, false)), start_position());
}

#[test]
fn repeated_presses_accumulate() {
    let mut p = start_position();
    for _ in 0..5 {
        p = step_camera(p, keys(false, false, true, false));
    }
    assert_eq!(p.z, 100);
}

#[test]
fn nudge_stays_at_the_ends_of_the_range() {
    assert_eq!(nudge(i64::MAX - 3, true, false), i64::MAX);
    assert_eq!(nudge(i64::MIN + 3, true, true), i64::MIN);
    assert_eq!(nudge(i64::MAX - 10, true, false), i64::MAX);
    assert_eq!(nudge(7, false, true), 7);
}
