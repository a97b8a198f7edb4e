//! The two GLSL ES 1.0 programs the sprite is drawn with.
//!
//! The host hands every uniform over as an integer; the shaders turn them
//! into the floating-point values they compute with. The clip-space transform
//! arrives as the numerators and denominators of its two scale factors and its
//! translation.

use vstd::prelude::*;

verus! {

/// Places the unit quad with the clip-space transform and passes the quad
/// coordinate on as the texture coordinate.
pub const VERTEX_SOURCE: &'static str = "attribute vec2 a_position;
uniform ivec4 u_scale;
uniform ivec2 u_translate;
varying vec2 v_texcoord;

void main() {
    mat3 clip = mat3(
        float(u_scale.x) / float(u_scale.y), 0.0, 0.0,
        0.0, float(u_scale.z) / float(u_scale.w), 0.0,
        float(u_translate.x), float(u_translate.y), 1.0);
    gl_Position = vec4((clip * vec3(a_position, 1.0)).xy, 0.0, 1.0);
    v_texcoord = a_position;
}
";

/// Samples the sprite; in mode 1 darkens it with moving scanlines and a
/// vignette.
pub const FRAGMENT_SOURCE: &'static str = "precision mediump float;

uniform sampler2D u_image;
uniform int u_now_ms;
uniform ivec2 u_resolution;
uniform int u_mode;
varying vec2 v_texcoord;

void main() {
    vec4 color = texture2D(u_image, v_texcoord);
    if (u_mode == 1) {
        vec2 uv = gl_FragCoord.xy / vec2(u_resolution);
        float t = float(u_now_ms) / 1000.0;
        float scanline = 0.8 + 0.2 * sin((gl_FragCoord.y + t * 40.0) * 1.5);
        vec2 centered = uv - 0.5;
        float vignette = clamp(1.0 - dot(centered, centered) * 1.2, 0.0, 1.0);
        color.rgb = color.rgb * scanline * vignette;
    }
    gl_FragColor = color;
}
";

} // verus!
