use vstd::prelude::*;

verus! {

/// A point of the scene in fixed point: each coordinate counts tenths of a
/// world unit, so `x == 10` stands for `1.0`.
#[derive(Clone, Copy, Debug, PartialEq, Eq, Structural)]
pub struct Point3 {
    pub x: i64,
    pub y: i64,
    pub z: i64,
}

/// Tenths in one world unit.
pub const UNIT: i64 = 10;

/// One of the three coordinate axes.
#[derive(Clone, Copy, Debug, PartialEq, Eq, Structural)]
pub enum Axis {
    X,
    Y,
    Z,
}

/// The keyboard as one frame sees it: which axis keys went down this frame,
/// and whether the modifier that reverses the direction is held.
#[derive(Clone, Copy, Debug, PartialEq, Eq, Structural)]
pub struct KeyInput {
    pub x_pressed: bool,
    pub y_pressed: bool,
    pub z_pressed: bool,
    pub shift_down: bool,
}

/// The signed move, in tenths, that one press makes.
pub open spec fn step_of(shift_down: bool) -> int {
    if shift_down {
        -(UNIT as int)
    } else {
        UNIT as int
    }
}

/// `v` clamped into the range of `i64`.
pub open spec fn clamp_i64(v: int) -> int {
    if v < i64::MIN {
        i64::MIN as int
    } else if v > i64::MAX {
        i64::MAX as int
    } else {
        v
    }
}

/// One coordinate after a frame: moved by one unit when its key was pressed.
pub open spec fn nudged(c: i64, pressed: bool, shift_down: bool) -> int {
    if pressed {
        clamp_i64(c + step_of(shift_down))
    } else {
        c as int
    }
}

/// The camera position after a frame with the given keys.
pub open spec fn stepped(pos: Point3, input: KeyInput) -> Point3 {
    Point3 {
        x: nudged(pos.x, input.x_pressed, input.shift_down) as i64,
        y: nudged(pos.y, input.y_pressed, input.shift_down) as i64,
        z: nudged(pos.z, input.z_pressed, input.shift_down) as i64,
    }
}

/// The coordinate of `p` along `axis`.
pub open spec fn coord(p: Point3, axis: Axis) -> int {
    match axis {
        Axis::X => p.x as int,
        Axis::Y => p.y as int,
        Axis::Z => p.z as int,
    }
}

/// The input of a frame in which only the key of `axis` went down.
pub open spec fn press(axis: Axis, shift_down: bool) -> KeyInput {
    KeyInput {
        x_pressed: axis == Axis::X,
        y_pressed: axis == Axis::Y,
        z_pressed: axis == Axis::Z,
        shift_down,
    }
}

/// Where the camera starts: `(1.0, 0.4, 5.0)`.
pub fn start_position() -> (r: Point3)
    ensures
        r == (Point3 { x: 10, y: 4, z: 50 }),
{
    Point3 { x: 10, y: 4, z: 50 }
}

/// The point the camera looks at: the origin.
pub fn camera_target() -> (r: Point3)
    ensures
        r == (Point3 { x: 0, y: 0, z: 0 }),
{
    Point3 { x: 0, y: 0, z: 0 }
}

/// Moves one coordinate by one unit when its key was pressed, up without the
/// modifier and down with it. At the ends of `i64` the coordinate stays there.
pub fn nudge(c: i64, pressed: bool, shift_down: bool) -> (r: i64)
    ensures
        r == nudged(c, pressed, shift_down),
{
    if !pressed {
        c
    } else if !shift_down {
        if c <= i64::MAX - UNIT {
            c + UNIT
        } else {
            i64::MAX
        }
    } else {
        if c >= i64::MIN + UNIT {
            c - UNIT
        } else {
            i64::MIN
        }
    }
}

/// The camera position after one frame: each axis whose key went down moves
/// by one unit, in the direction that the modifier picks.
pub fn step_camera(pos: Point3, input: KeyInput) -> (r: Point3)
    ensures
        r == stepped(pos, input),
{
    let y = nudge(pos.y, input.y_pressed, input.shift_down);
    let z = nudge(pos.z, input.z_pressed, input.shift_down);
    let x = nudge(pos.x, input.x_pressed, input.shift_down);
    Point3 { x, y, z }
}

/// A press of an axis key moves the camera along that axis by exactly one
/// unit, forward without the modifier and backward with it, and leaves the
/// other two coordinates as they were; as long as the result stays inside
/// the range of `i64`.
pub proof fn lemma_press_moves_one_unit(pos: Point3, axis: Axis, shift_down: bool)
    requires
        i64::MIN <= coord(pos, axis) + step_of(shift_down) <= i64::MAX,
    ensures
        coord(stepped(pos, press(axis, shift_down)), axis) == coord(pos, axis) + step_of(
            shift_down,
        ),
        forall|other: Axis|
            other != axis ==> #[trigger] coord(stepped(pos, press(axis, shift_down)), other)
                == coord(pos, other),
{
}

/// A frame in which no axis key went down leaves the camera where it was,
/// whatever the modifier.
pub proof fn lemma_no_press_keeps_position(pos: Point3, shift_down: bool)
    ensures
        stepped(
            pos,
            KeyInput { x_pressed: false, y_pressed: false, z_pressed: false, shift_down },
        ) == pos,
{
}

} // verus!
