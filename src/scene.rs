use vstd::prelude::*;

use crate::camera::Point3;

verus! {

/// A color in fixed point: each channel counts tenths, so `10` is full
/// intensity.
#[derive(Clone, Copy, Debug, PartialEq, Eq, Structural)]
pub struct Rgb {
    pub r: i64,
    pub g: i64,
    pub b: i64,
}

/// The type of one entry of the shader's uniform block.
#[derive(Clone, Copy, Debug, PartialEq, Eq, Structural)]
pub enum UniformKind {
    /// A four by four matrix of 32-bit floats.
    Mat4,
    /// Three 32-bit floats.
    Float3,
}

/// One entry of the shader's uniform block, in the order the block lays
/// them out.
#[derive(Clone, Copy, Debug)]
pub struct UniformSlot {
    pub name: &'static str,
    pub kind: UniformKind,
    pub array_count: usize,
}

/// Bytes in one 32-bit float component.
pub const COMPONENT_BYTES: i32 = 4;

/// Float components in one vertex: its position.
pub const VERTEX_COMPONENTS: i32 = 3;

/// Vertices drawn for the triangle, one instance of it.
pub const TRIANGLE_VERTEX_COUNT: i32 = 3;

/// The positions of the triangle, in tenths of a unit.
pub open spec fn triangle_spec() -> Seq<Point3> {
    seq![
        Point3 { x: -5i64, y: -5i64, z: 0 },
        Point3 { x: 5, y: 5, z: 0 },
        Point3 { x: 5, y: -5i64, z: 0 },
    ]
}

/// A vertex at the given position.
pub fn myvertex(x: i64, y: i64, z: i64) -> (r: Point3)
    ensures
        r == (Point3 { x, y, z }),
{
    Point3 { x, y, z }
}

/// The three corners of the triangle, in the order the index buffer names
/// them: `(-0.5, -0.5, 0)`, `(0.5, 0.5, 0)`, `(0.5, -0.5, 0)`.
pub fn triangle_vertices() -> (r: Vec<Point3>)
    ensures
        r@ == triangle_spec(),
{
    let r = vec![myvertex(-5, -5, 0), myvertex(5, 5, 0), myvertex(5, -5, 0)];
    assert(r@ =~= triangle_spec());
    r
}

/// The index buffer: one triangle over the three vertices in order.
pub fn triangle_indices() -> (r: Vec<u32>)
    ensures
        r@ == seq![0u32, 1u32, 2u32],
{
    let r = vec![0u32, 1u32, 2u32];
    assert(r@ =~= seq![0u32, 1u32, 2u32]);
    r
}

/// The color the fragment stage fills the triangle with: `(1.0, 0.3, 0.5)`.
pub fn triangle_color() -> (r: Rgb)
    ensures
        r == (Rgb { r: 10, g: 3, b: 5 }),
{
    Rgb { r: 10, g: 3, b: 5 }
}

/// Bytes from one vertex to the next in the vertex buffer: three floats.
pub fn vertex_stride() -> (r: i32)
    ensures
        r == 12,
        r == COMPONENT_BYTES * VERTEX_COMPONENTS,
{
    COMPONENT_BYTES * VERTEX_COMPONENTS
}

/// The name under which the vertex shader reads a vertex's position.
pub fn position_attribute() -> (r: &'static str)
    ensures
        r@ == "in_pos"@,
{
    "in_pos"
}

/// The uniform block that the shaders declare: the camera's projection
/// matrix, then the triangle's color, one of each.
pub fn uniform_layout() -> (r: Vec<UniformSlot>)
    ensures
        r@.len() == 2,
        r@[0].name@ == "camera_projection"@,
        r@[0].kind == UniformKind::Mat4,
        r@[0].array_count == 1,
        r@[1].name@ == "triangle_color"@,
        r@[1].kind == UniformKind::Float3,
        r@[1].array_count == 1,
{
    vec![
        UniformSlot { name: "camera_projection", kind: UniformKind::Mat4, array_count: 1 },
        UniformSlot { name: "triangle_color", kind: UniformKind::Float3, array_count: 1 },
    ]
}

} // verus!
