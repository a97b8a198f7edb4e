//! The WebGL 1 calls that the pipeline makes, each as a thin wrapper, and the
//! enumeration values it passes to them.

use vstd::prelude::*;
use wasm_bindgen::JsValue;
use web_sys::{
    WebGlBuffer, WebGlProgram, WebGlRenderingContext, WebGlShader, WebGlTexture,
    WebGlUniformLocation,
};

verus! {

pub const TRIANGLES: u32 = 0x0004;
pub const UNPACK_ALIGNMENT: u32 = 0x0CF5;
pub const TEXTURE_2D: u32 = 0x0DE1;
pub const UNSIGNED_BYTE: u32 = 0x1401;
pub const RGB: u32 = 0x1907;
pub const LINEAR: u32 = 0x2601;
pub const TEXTURE_MAG_FILTER: u32 = 0x2800;
pub const TEXTURE_MIN_FILTER: u32 = 0x2801;
pub const TEXTURE_WRAP_S: u32 = 0x2802;
pub const TEXTURE_WRAP_T: u32 = 0x2803;
pub const TEXTURE0: u32 = 0x84C0;
pub const CLAMP_TO_EDGE: u32 = 0x812F;
pub const ARRAY_BUFFER: u32 = 0x8892;
pub const STATIC_DRAW: u32 = 0x88E4;
pub const FRAGMENT_SHADER: u32 = 0x8B30;
pub const VERTEX_SHADER: u32 = 0x8B31;
pub const COMPILE_STATUS: u32 = 0x8B81;
pub const LINK_STATUS: u32 = 0x8B82;

#[verifier::external_type_specification]
#[verifier::external_body]
pub struct ExWebGlShader(WebGlShader);

#[verifier::external_type_specification]
#[verifier::external_body]
pub struct ExWebGlProgram(WebGlProgram);

#[verifier::external_type_specification]
#[verifier::external_body]
pub struct ExWebGlBuffer(WebGlBuffer);

#[verifier::external_type_specification]
#[verifier::external_body]
pub struct ExWebGlTexture(WebGlTexture);

#[verifier::external_type_specification]
#[verifier::external_body]
pub struct ExWebGlUniformLocation(WebGlUniformLocation);

/// Relies on `WebGlRenderingContext::create_shader`: a new shader object of the
/// given kind, none when the host refuses one.
#[verifier::external_body]
pub(crate) fn create_shader(gl: &WebGlRenderingContext, kind: u32) -> (r: Option<WebGlShader>) {
    gl.create_shader(kind)
}

/// Relies on `WebGlRenderingContext::shader_source`: sets a shader's source text.
#[verifier::external_body]
pub(crate) fn shader_source(gl: &WebGlRenderingContext, shader: &WebGlShader, source: &str) {
    gl.shader_source(shader, source)
}

/// Relies on `WebGlRenderingContext::compile_shader`: compiles a shader.
#[verifier::external_body]
pub(crate) fn compile_shader(gl: &WebGlRenderingContext, shader: &WebGlShader) {
    gl.compile_shader(shader)
}

/// Relies on `WebGlRenderingContext::get_shader_parameter`: the value of a
/// shader's parameter.
#[verifier::external_body]
pub(crate) fn shader_parameter(gl: &WebGlRenderingContext, shader: &WebGlShader, pname: u32) -> (r:
    JsValue) {
    gl.get_shader_parameter(shader, pname)
}

/// Relies on `WebGlRenderingContext::get_shader_info_log`: the compiler's
/// diagnostic text for a shader, if the host gives one.
#[verifier::external_body]
pub(crate) fn shader_info_log(gl: &WebGlRenderingContext, shader: &WebGlShader) -> (r: Option<
    String,
>) {
    gl.get_shader_info_log(shader)
}

/// Relies on `WebGlRenderingContext::create_program`: a new program object,
/// none when the host refuses one.
#[verifier::external_body]
pub(crate) fn create_program(gl: &WebGlRenderingContext) -> (r: Option<WebGlProgram>) {
    gl.create_program()
}

/// Relies on `WebGlRenderingContext::attach_shader`: attaches a shader to a
/// program.
#[verifier::external_body]
pub(crate) fn attach_shader(gl: &WebGlRenderingContext, program: &WebGlProgram, shader: &WebGlShader) {
    gl.attach_shader(program, shader)
}

/// Relies on `WebGlRenderingContext::link_program`: links a program.
#[verifier::external_body]
pub(crate) fn link_program(gl: &WebGlRenderingContext, program: &WebGlProgram) {
    gl.link_program(program)
}

/// Relies on `WebGlRenderingContext::get_program_parameter`: the value of a
/// program's parameter.
#[verifier::external_body]
pub(crate) fn program_parameter(gl: &WebGlRenderingContext, program: &WebGlProgram, pname: u32) -> (r:
    JsValue) {
    gl.get_program_parameter(program, pname)
}

/// Relies on `WebGlRenderingContext::get_program_info_log`: the linker's
/// diagnostic text for a program, if the host gives one.
#[verifier::external_body]
pub(crate) fn program_info_log(gl: &WebGlRenderingContext, program: &WebGlProgram) -> (r: Option<
    String,
>) {
    gl.get_program_info_log(program)
}

/// Relies on `WebGlRenderingContext::get_attrib_location`: the index of a
/// vertex attribute, negative when the program has none of that name.
#[verifier::external_body]
pub(crate) fn attrib_location(gl: &WebGlRenderingContext, program: &WebGlProgram, name: &str) -> (r:
    i32) {
    gl.get_attrib_location(program, name)
}

/// Relies on `WebGlRenderingContext::get_uniform_location`: the location of a
/// uniform, none when the program has no active uniform of that name.
#[verifier::external_body]
pub(crate) fn uniform_location(gl: &WebGlRenderingContext, program: &WebGlProgram, name: &str) -> (r:
    Option<WebGlUniformLocation>) {
    gl.get_uniform_location(program, name)
}

/// Relies on `WebGlRenderingContext::create_buffer`: a new buffer object, none
/// when the host refuses one.
#[verifier::external_body]
pub(crate) fn create_buffer(gl: &WebGlRenderingContext) -> (r: Option<WebGlBuffer>) {
    gl.create_buffer()
}

/// Relies on `WebGlRenderingContext::bind_buffer`: binds a buffer to a target.
#[verifier::external_body]
pub(crate) fn bind_buffer(gl: &WebGlRenderingContext, target: u32, buffer: &WebGlBuffer) {
    gl.bind_buffer(target, Some(buffer))
}

/// Relies on `WebGlRenderingContext::buffer_data_with_u8_array`: fills the
/// buffer bound to a target with bytes.
#[verifier::external_body]
pub(crate) fn buffer_bytes(gl: &WebGlRenderingContext, target: u32, data: &[u8], usage: u32) {
    gl.buffer_data_with_u8_array(target, data, usage)
}

/// Relies on `WebGlRenderingContext::vertex_attrib_pointer_with_i32`: describes
/// where a vertex attribute reads from the bound buffer.
#[verifier::external_body]
pub(crate) fn vertex_attrib_pointer(
    gl: &WebGlRenderingContext,
    index: u32,
    size: i32,
    kind: u32,
    normalized: bool,
    stride: i32,
    offset: i32,
) {
    gl.vertex_attrib_pointer_with_i32(index, size, kind, normalized, stride, offset)
}

/// Relies on `WebGlRenderingContext::enable_vertex_attrib_array`.
#[verifier::external_body]
pub(crate) fn enable_vertex_attrib_array(gl: &WebGlRenderingContext, index: u32) {
    gl.enable_vertex_attrib_array(index)
}

/// Relies on `WebGlRenderingContext::disable_vertex_attrib_array`.
#[verifier::external_body]
pub(crate) fn disable_vertex_attrib_array(gl: &WebGlRenderingContext, index: u32) {
    gl.disable_vertex_attrib_array(index)
}

/// Relies on `WebGlRenderingContext::pixel_storei`: sets a pixel storage mode.
#[verifier::external_body]
pub(crate) fn pixel_storei(gl: &WebGlRenderingContext, pname: u32, param: i32) {
    gl.pixel_storei(pname, param)
}

/// Relies on `WebGlRenderingContext::create_texture`: a new texture object,
/// none when the host refuses one.
#[verifier::external_body]
pub(crate) fn create_texture(gl: &WebGlRenderingContext) -> (r: Option<WebGlTexture>) {
    gl.create_texture()
}

/// Relies on `WebGlRenderingContext::active_texture`: selects a texture unit.
#[verifier::external_body]
pub(crate) fn active_texture(gl: &WebGlRenderingContext, unit: u32) {
    gl.active_texture(unit)
}

/// Relies on `WebGlRenderingContext::bind_texture`: binds a texture to a target
/// of the active unit.
#[verifier::external_body]
pub(crate) fn bind_texture(gl: &WebGlRenderingContext, target: u32, texture: &WebGlTexture) {
    gl.bind_texture(target, Some(texture))
}

/// Relies on `WebGlRenderingContext::tex_image_2d_with_i32_and_i32_and_i32_and_format_and_type_and_opt_u8_array`:
/// uploads pixel bytes to the bound texture, or the exception the host raised.
#[verifier::external_body]
pub(crate) fn tex_image_2d(
    gl: &WebGlRenderingContext,
    target: u32,
    level: i32,
    internal_format: i32,
    width: i32,
    height: i32,
    border: i32,
    format: u32,
    kind: u32,
    pixels: &[u8],
) -> (r: Result<(), JsValue>) {
    gl.tex_image_2d_with_i32_and_i32_and_i32_and_format_and_type_and_opt_u8_array(
        target,
        level,
        internal_format,
        width,
        height,
        border,
        format,
        kind,
        Some(pixels),
    )
}

/// Relies on `WebGlRenderingContext::tex_parameteri`: sets a parameter of the
/// bound texture.
#[verifier::external_body]
pub(crate) fn tex_parameteri(gl: &WebGlRenderingContext, target: u32, pname: u32, param: i32) {
    gl.tex_parameteri(target, pname, param)
}

/// Relies on `WebGlRenderingContext::use_program`: makes a program current.
#[verifier::external_body]
pub(crate) fn use_program(gl: &WebGlRenderingContext, program: &WebGlProgram) {
    gl.use_program(Some(program))
}

/// Relies on `WebGlRenderingContext::viewport`: sets the viewport rectangle.
#[verifier::external_body]
pub(crate) fn viewport(gl: &WebGlRenderingContext, x: i32, y: i32, width: i32, height: i32) {
    gl.viewport(x, y, width, height)
}

/// Relies on `WebGlRenderingContext::drawing_buffer_width`.
#[verifier::external_body]
pub(crate) fn drawing_buffer_width(gl: &WebGlRenderingContext) -> (r: i32) {
    gl.drawing_buffer_width()
}

/// Relies on `WebGlRenderingContext::drawing_buffer_height`.
#[verifier::external_body]
pub(crate) fn drawing_buffer_height(gl: &WebGlRenderingContext) -> (r: i32) {
    gl.drawing_buffer_height()
}

/// Relies on `WebGlRenderingContext::uniform1i`: sets an `int` or sampler
/// uniform.
#[verifier::external_body]
pub(crate) fn uniform1i(gl: &WebGlRenderingContext, location: &WebGlUniformLocation, x: i32) {
    gl.uniform1i(Some(location), x)
}

/// Relies on `WebGlRenderingContext::uniform2i`: sets an `ivec2` uniform.
#[verifier::external_body]
pub(crate) fn uniform2i(gl: &WebGlRenderingContext, location: &WebGlUniformLocation, x: i32, y: i32) {
    gl.uniform2i(Some(location), x, y)
}

/// Relies on `WebGlRenderingContext::uniform4i`: sets an `ivec4` uniform.
#[verifier::external_body]
pub(crate) fn uniform4i(
    gl: &WebGlRenderingContext,
    location: &WebGlUniformLocation,
    x: i32,
    y: i32,
    z: i32,
    w: i32,
) {
    gl.uniform4i(Some(location), x, y, z, w)
}

/// Relies on `WebGlRenderingContext::draw_arrays`: draws primitives from the
/// enabled vertex arrays.
#[verifier::external_body]
pub(crate) fn draw_arrays(gl: &WebGlRenderingContext, mode: u32, first: i32, count: i32) {
    gl.draw_arrays(mode, first, count)
}

} // verus!
