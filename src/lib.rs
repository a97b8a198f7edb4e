//! Draws one embedded sprite onto an HTML canvas through WebGL, either plainly
//! or through a CRT-style effect chosen by a render mode.

mod canvas;
mod error;
mod gl;
mod graphics;
mod host;
mod mode;
mod shaders;
mod sprite;

pub use canvas::{
    draw_before_init_fails, draw_outcome, init_post, init_then_draw_succeeds,
    init_when_ready_keeps_pipeline, RustCanvas,
};
pub use error::WebError;
pub use graphics::{
    attribute_index, canvas_from_lookup, check_status, clip_transform, compile_diagnostic,
    compile_failure, compile_failure_text_is_nonempty, compile_fallback, compile_webgl_shader,
    created, frame_matches, get_canvas, host_extent, is_setup_error, link_diagnostic,
    link_failure, link_fallback, link_webgl_program, millis_into_second, required_uniform,
    spec_clip_transform, transform_parts, webgl_context, webgl_from_context, ClipTransform, Frame,
    Graphics, QUAD_VERTICES,
};
pub use mode::{successor_is_involution, RenderMode};
pub use sprite::{png_rgb8_of, valid_raster, Sprite, MAX_SIDE};
