use vstd::prelude::*;

verus! {

/// The vertex stage: places each position through the camera's projection.
pub const VERTEX: &'static str = r#"
#version 330 core

layout (location = 0) in vec3 in_pos;

uniform mat4 camera_projection;

void main()
{
    gl_Position = vec4(in_pos, 1.0) * camera_projection;
}
"#;

/// The fragment stage: fills every fragment with the triangle's color.
pub const FRAGMENT: &'static str = r#"
#version 330 core

uniform vec3 triangle_color;

out vec4 FragColor;

void main() 
{
    FragColor = vec4(triangle_color, 1.0f);
}
"#;

} // verus!
