//! The WebGL pipeline: acquiring the context, compiling and linking the two
//! shaders, uploading the quad and the sprite once, and drawing a frame.

use vstd::prelude::*;
use wasm_bindgen::JsValue;
use web_sys::{
    Document, Element, HtmlCanvasElement, WebGlBuffer, WebGlProgram, WebGlRenderingContext,
    WebGlShader, WebGlTexture, WebGlUniformLocation,
};

use crate::error::WebError;
use crate::gl::{
    active_texture, attach_shader, attrib_location, bind_buffer, bind_texture, buffer_bytes,
    compile_shader, create_buffer, create_program, create_shader, create_texture,
    disable_vertex_attrib_array, draw_arrays, drawing_buffer_height, drawing_buffer_width,
    enable_vertex_attrib_array, link_program, pixel_storei, program_info_log, program_parameter,
    shader_info_log, shader_parameter, shader_source, tex_image_2d, tex_parameteri, uniform1i,
    uniform2i, uniform4i, uniform_location, use_program, vertex_attrib_pointer, viewport,
    ARRAY_BUFFER, CLAMP_TO_EDGE, COMPILE_STATUS, FRAGMENT_SHADER, LINEAR, LINK_STATUS, RGB,
    STATIC_DRAW, TEXTURE0, TEXTURE_2D, TEXTURE_MAG_FILTER, TEXTURE_MIN_FILTER, TEXTURE_WRAP_S,
    TEXTURE_WRAP_T, TRIANGLES, UNPACK_ALIGNMENT, UNSIGNED_BYTE, VERTEX_SHADER,
};
use crate::host::{
    canvas_context, canvas_height, canvas_width, element_as_canvas, element_by_id, js_bool,
    now_millis, object_as_webgl,
};
use crate::mode::RenderMode;
use crate::shaders::{FRAGMENT_SOURCE, VERTEX_SOURCE};
use crate::sprite::{Sprite, MAX_SIDE};

verus! {

/// The text a compile failure carries when the host gives no diagnostic.
pub open spec fn compile_fallback() -> Seq<char> {
    "Unknown error creating shader"@
}

/// The text a link failure carries when the host gives no diagnostic.
pub open spec fn link_fallback() -> Seq<char> {
    "Unknown error creating program"@
}

/// The text a compile failure carries: the host's diagnostic, or the fallback
/// when it gave none or gave the empty text.
pub open spec fn compile_diagnostic(log: Option<String>) -> Seq<char> {
    match log {
        Some(text) => if text@.len() > 0 {
            text@
        } else {
            compile_fallback()
        },
        None => compile_fallback(),
    }
}

/// The text a link failure carries: the host's diagnostic as it is, or the
/// fallback when it gave none.
pub open spec fn link_diagnostic(log: Option<String>) -> Seq<char> {
    match log {
        Some(text) => text@,
        None => link_fallback(),
    }
}

/// The error for a shader that did not compile, from the log the host gave.
pub fn compile_failure(log: Option<String>) -> (e: WebError)
    ensures
        e matches WebError::CreateShader(text) && text@ == compile_diagnostic(log),
        e matches WebError::CreateShader(text) && text@.len() > 0,
{
    proof {
        compile_failure_text_is_nonempty(log);
    }
    match log {
        Some(text) if !text.as_str().is_empty() => WebError::CreateShader(text),
        _ => WebError::CreateShader("Unknown error creating shader".to_owned()),
    }
}

/// The error for a program that did not link, from the log the host gave.
pub fn link_failure(log: Option<String>) -> (e: WebError)
    ensures
        e matches WebError::CreateProgram(text) && text@ == link_diagnostic(log),
{
    match log {
        Some(text) => WebError::CreateProgram(text),
        None => WebError::CreateProgram("Unknown error creating program".to_owned()),
    }
}

/// A shader that fails to compile is reported with diagnostic text that is
/// never empty, whatever diagnostic the host gave.
pub proof fn compile_failure_text_is_nonempty(log: Option<String>)
    ensures
        compile_diagnostic(log).len() > 0,
{
    reveal_strlit("Unknown error creating shader");
}

/// A handle the host was asked to create, or `refusal` when it created none.
pub fn created<T>(found: Option<T>, refusal: WebError) -> (r: Result<T, WebError>)
    ensures
        found matches Some(h) ==> r == Ok::<T, WebError>(h),
        found is None ==> r == Err::<T, WebError>(refusal),
{
    match found {
        Some(handle) => Ok(handle),
        None => Err(refusal),
    }
}

/// A compiled shader or linked program if the status the host reported is
/// `true`; otherwise the handle comes back as the error, for its diagnostic
/// to be read.
pub fn check_status<T>(handle: T, status: Option<bool>) -> (r: Result<T, T>)
    ensures
        status == Some(true) ==> r == Ok::<T, T>(handle),
        status != Some(true) ==> r == Err::<T, T>(handle),
{
    match status {
        Some(true) => Ok(handle),
        _ => Err(handle),
    }
}

/// The canvas, from what the document lookup for `element_id` found.
pub fn canvas_from_lookup(found: Option<Element>, element_id: &str) -> (r: Result<
    HtmlCanvasElement,
    WebError,
>)
    ensures
        found is None ==> (r matches Err(WebError::MissingCanvasElement(id)) && id@ == element_id@),
        found matches Some(element) ==> (r is Ok || r == Err::<HtmlCanvasElement, WebError>(
            WebError::GetCanvasHandle(element),
        )),
{
    match found {
        None => Err(WebError::MissingCanvasElement(element_id.to_owned())),
        Some(element) => match element_as_canvas(element) {
            Ok(canvas) => Ok(canvas),
            Err(element) => Err(WebError::GetCanvasHandle(element)),
        },
    }
}

/// Locates the canvas with the given id in the document.
pub fn get_canvas(document: &Document, element_id: &str) -> (r: Result<HtmlCanvasElement, WebError>)
    ensures
        r matches Err(e) ==> (e matches WebError::MissingCanvasElement(id) && id@ == element_id@)
            || e is GetCanvasHandle,
{
    canvas_from_lookup(element_by_id(document, element_id), element_id)
}

/// The WebGL context, from what the canvas answered when asked for one.
pub fn webgl_from_context(found: Result<Option<js_sys::Object>, JsValue>) -> (r: Result<
    WebGlRenderingContext,
    WebError,
>)
    ensures
        !(found matches Ok(Some(_))) ==> r matches Err(WebError::GetCanvasWebglContext),
        found matches Ok(Some(object)) ==> (r is Ok || r == Err::<WebGlRenderingContext, WebError>(
            WebError::GetCanvasWebglHandle(object),
        )),
{
    match found {
        Ok(Some(object)) => match object_as_webgl(object) {
            Ok(gl) => Ok(gl),
            Err(object) => Err(WebError::GetCanvasWebglHandle(object)),
        },
        _ => Err(WebError::GetCanvasWebglContext),
    }
}

/// Obtains the canvas's WebGL context.
pub fn webgl_context(canvas: &HtmlCanvasElement) -> (r: Result<WebGlRenderingContext, WebError>)
    ensures
        r matches Err(e) ==> e is GetCanvasWebglContext || e is GetCanvasWebglHandle,
{
    webgl_from_context(canvas_context(canvas, "webgl"))
}

/// Creates a shader of the given kind from source text and compiles it.
pub fn compile_webgl_shader(gl: &WebGlRenderingContext, shader_type: u32, source: &str) -> (r:
    Result<WebGlShader, WebError>)
    ensures
        r matches Err(e) ==> e is UnableCreateShader || e is CreateShader,
        r matches Err(WebError::CreateShader(text)) ==> text@.len() > 0,
{
    let shader = created(create_shader(gl, shader_type), WebError::UnableCreateShader)?;
    shader_source(gl, &shader, source);
    compile_shader(gl, &shader);
    let status = shader_parameter(gl, &shader, COMPILE_STATUS);
    match check_status(shader, js_bool(&status)) {
        Ok(shader) => Ok(shader),
        Err(shader) => Err(compile_failure(shader_info_log(gl, &shader))),
    }
}

/// Links a vertex and a fragment shader into a program.
pub fn link_webgl_program(
    gl: &WebGlRenderingContext,
    vert_shader: &WebGlShader,
    frag_shader: &WebGlShader,
) -> (r: Result<WebGlProgram, WebError>)
    ensures
        r matches Err(e) ==> e is UnableCreateProgram || e is CreateProgram,
{
    let program = created(create_program(gl), WebError::UnableCreateProgram)?;
    attach_shader(gl, &program, vert_shader);
    attach_shader(gl, &program, frag_shader);
    link_program(gl, &program);
    let status = program_parameter(gl, &program, LINK_STATUS);
    match check_status(program, js_bool(&status)) {
        Ok(program) => Ok(program),
        Err(program) => Err(link_failure(program_info_log(gl, &program))),
    }
}

/// The index of a vertex attribute, from the location the host reported.
pub fn attribute_index(location: i32, name: &str) -> (r: Result<u32, WebError>)
    ensures
        location >= 0 ==> r == Ok::<u32, WebError>(location as u32),
        location < 0 ==> (r matches Err(WebError::MissingShaderVariable(n)) && n@ == name@),
{
    if location >= 0 {
        Ok(location as u32)
    } else {
        Err(WebError::MissingShaderVariable(name.to_owned()))
    }
}

/// A uniform's location, from what the host's lookup found.
pub fn required_uniform(found: Option<WebGlUniformLocation>, name: &str) -> (r: Result<
    WebGlUniformLocation,
    WebError,
>)
    ensures
        found matches Some(l) ==> r == Ok::<WebGlUniformLocation, WebError>(l),
        found is None ==> (r matches Err(WebError::MissingShaderVariable(n)) && n@ == name@),
{
    match found {
        Some(location) => Ok(location),
        None => Err(WebError::MissingShaderVariable(name.to_owned())),
    }
}

/// Looks up a uniform of the program that the shaders must declare.
fn uniform(gl: &WebGlRenderingContext, program: &WebGlProgram, name: &str) -> (r: Result<
    WebGlUniformLocation,
    WebError,
>)
    ensures
        r matches Err(e) ==> (e matches WebError::MissingShaderVariable(n) && n@ == name@),
{
    required_uniform(uniform_location(gl, program, name), name)
}

/// The vertices of the quad: two triangles over the unit square, two
/// coordinates each.
pub const QUAD_VERTICES: i32 = 6;

/// The transform from quad coordinates to clip space: a scale on each axis,
/// each a fraction `num / den`, then a translation.
#[derive(Clone, Copy, Debug, PartialEq, Eq, Structural)]
pub struct ClipTransform {
    pub scale_x_num: i32,
    pub scale_x_den: i32,
    pub scale_y_num: i32,
    pub scale_y_den: i32,
    pub translate_x: i32,
    pub translate_y: i32,
}

/// The transform that scales the sprite to canvas pixels and flips the y axis,
/// so that the sprite's first row is at the top of the canvas: each axis is
/// scaled by twice the ratio of image size to canvas size, the y axis
/// negated, and the unit square's corner moved to (-1, 1).
pub open spec fn spec_clip_transform(
    image_width: int,
    image_height: int,
    canvas_width: int,
    canvas_height: int,
) -> (int, int, int, int, int, int) {
    (2 * image_width, canvas_width, -2 * image_height, canvas_height, -1, 1)
}

/// The clip-space transform for a sprite of the given size on a canvas of the
/// given size.
pub fn clip_transform(image_width: u32, image_height: u32, canvas_width: u32, canvas_height: u32) -> (r:
    ClipTransform)
    requires
        image_width <= MAX_SIDE,
        image_height <= MAX_SIDE,
        canvas_width <= i32::MAX,
        canvas_height <= i32::MAX,
    ensures
        (
        r.scale_x_num as int,
        r.scale_x_den as int,
        r.scale_y_num as int,
        r.scale_y_den as int,
        r.translate_x as int,
        r.translate_y as int,
        ) == spec_clip_transform(
            image_width as int,
            image_height as int,
            canvas_width as int,
            canvas_height as int,
        ),
{
    ClipTransform {
        scale_x_num: 2 * image_width as i32,
        scale_x_den: canvas_width as i32,
        scale_y_num: -2 * image_height as i32,
        scale_y_den: canvas_height as i32,
        translate_x: -1,
        translate_y: 1,
    }
}

/// The transform as its six integers, in the order of `spec_clip_transform`.
pub open spec fn transform_parts(t: ClipTransform) -> (int, int, int, int, int, int) {
    (
        t.scale_x_num as int,
        t.scale_x_den as int,
        t.scale_y_num as int,
        t.scale_y_den as int,
        t.translate_x as int,
        t.translate_y as int,
    )
}

/// The values one frame hands the host.
#[derive(Clone, Copy, Debug, PartialEq, Eq, Structural)]
pub struct Frame {
    /// The viewport's size: the canvas's size in pixels.
    pub viewport_width: i32,
    pub viewport_height: i32,
    /// The clip-space transform.
    pub transform: ClipTransform,
    /// The milliseconds into the current second.
    pub now_ms: i32,
    /// The drawing buffer's size.
    pub resolution_width: i32,
    pub resolution_height: i32,
    /// The render mode's integer.
    pub mode_tag: i32,
    /// The texture unit the sprite is sampled from.
    pub texture_unit: i32,
    /// The number of vertices drawn.
    pub vertex_count: i32,
}

/// Whether a frame is the one drawn in `mode` for a sprite of the given size:
/// the transform fits the sprite to the viewport, the mode and the time are
/// passed on, and the whole quad is drawn from texture unit 0.
pub open spec fn frame_matches(f: Frame, mode: RenderMode, image_width: u32, image_height: u32) -> bool {
    &&& f.viewport_width >= 0
    &&& f.viewport_height >= 0
    &&& transform_parts(f.transform) == spec_clip_transform(
        image_width as int,
        image_height as int,
        f.viewport_width as int,
        f.viewport_height as int,
    )
    &&& 0 <= f.now_ms < 1000
    &&& f.mode_tag == mode.spec_tag()
    &&& f.texture_unit == 0
    &&& f.vertex_count == QUAD_VERTICES
}

/// A host size in pixels as the signed integer WebGL takes, saturated at the
/// largest one.
pub fn host_extent(pixels: u32) -> (r: i32)
    ensures
        r == if pixels <= i32::MAX {
            pixels as int
        } else {
            i32::MAX as int
        },
{
    if pixels <= i32::MAX as u32 {
        pixels as i32
    } else {
        i32::MAX
    }
}

/// The milliseconds into the current second of a time given in milliseconds.
pub fn millis_into_second(now_millis: u64) -> (r: i32)
    ensures
        r == now_millis % 1000,
        0 <= r < 1000,
{
    (now_millis % 1000) as i32
}

/// The locations of the uniforms the shaders declare.
struct Uniforms {
    scale: WebGlUniformLocation,
    translate: WebGlUniformLocation,
    now_ms: WebGlUniformLocation,
    resolution: WebGlUniformLocation,
    mode: WebGlUniformLocation,
    image: WebGlUniformLocation,
}

/// Looks up every uniform the shaders declare.
fn lookup_uniforms(gl: &WebGlRenderingContext, program: &WebGlProgram) -> (r: Result<
    Uniforms,
    WebError,
>)
    ensures
        r matches Err(e) ==> e is MissingShaderVariable,
{
    Ok(
        Uniforms {
            scale: uniform(gl, program, "u_scale")?,
            translate: uniform(gl, program, "u_translate")?,
            now_ms: uniform(gl, program, "u_now_ms")?,
            resolution: uniform(gl, program, "u_resolution")?,
            mode: uniform(gl, program, "u_mode")?,
            image: uniform(gl, program, "u_image")?,
        },
    )
}

/// Creates the quad's vertex buffer, fills it, and finds the attribute that
/// reads it.
fn box_vertex_position(gl: &WebGlRenderingContext, program: &WebGlProgram) -> (r: Result<
    (WebGlBuffer, u32),
    WebError,
>)
    ensures
        r matches Err(e) ==> e is CreateBuffer || e is MissingShaderVariable,
{
    let buffer = created(create_buffer(gl), WebError::CreateBuffer)?;
    bind_buffer(gl, ARRAY_BUFFER, &buffer);
    let positions: [u8; 12] = [0, 0, 1, 0, 0, 1, 0, 1, 1, 0, 1, 1];
    buffer_bytes(gl, ARRAY_BUFFER, positions.as_slice(), STATIC_DRAW);
    let a_position = attribute_index(attrib_location(gl, program, "a_position"), "a_position")?;
    Ok((buffer, a_position))
}

/// Creates the sprite's texture and uploads its pixels, sampled linearly and
/// clamped at the edges.
fn sprite_texture(gl: &WebGlRenderingContext, sprite: &Sprite) -> (r: Result<WebGlTexture, WebError>)
    ensures
        r matches Err(e) ==> e is CreateTexture || e is LoadTexture,
{
    pixel_storei(gl, UNPACK_ALIGNMENT, 1);
    let texture = created(create_texture(gl), WebError::CreateTexture)?;
    active_texture(gl, TEXTURE0);
    bind_texture(gl, TEXTURE_2D, &texture);
    let width = sprite.width();
    let height = sprite.height();
    let uploaded = tex_image_2d(
        gl,
        TEXTURE_2D,
        0,
        RGB as i32,
        width as i32,
        height as i32,
        0,
        RGB,
        UNSIGNED_BYTE,
        sprite.pixels(),
    );
    if let Err(raised) = uploaded {
        return Err(WebError::LoadTexture(raised));
    }
    tex_parameteri(gl, TEXTURE_2D, TEXTURE_MIN_FILTER, LINEAR as i32);
    tex_parameteri(gl, TEXTURE_2D, TEXTURE_MAG_FILTER, LINEAR as i32);
    tex_parameteri(gl, TEXTURE_2D, TEXTURE_WRAP_S, CLAMP_TO_EDGE as i32);
    tex_parameteri(gl, TEXTURE_2D, TEXTURE_WRAP_T, CLAMP_TO_EDGE as i32);
    Ok(texture)
}

/// Whether an error is one that setting up the pipeline can end in.
pub open spec fn is_setup_error(e: WebError) -> bool {
    !(e is GraphicsNotInitialized || e is DecodeImage || e is InvalidImage)
}

/// A canvas with a linked program, the quad's buffer and the sprite's texture,
/// ready to draw.
pub struct Graphics {
    gl: WebGlRenderingContext,
    canvas: HtmlCanvasElement,
    program: WebGlProgram,
    quad: WebGlBuffer,
    a_position: u32,
    texture: WebGlTexture,
    uniforms: Uniforms,
    image_width: u32,
    image_height: u32,
}

impl Graphics {
    #[verifier::type_invariant]
    spec fn well_formed(self) -> bool {
        self.image_width <= MAX_SIDE && self.image_height <= MAX_SIDE
    }

    /// The width of the sprite that is drawn.
    pub closed spec fn spec_image_width(self) -> u32 {
        self.image_width
    }

    /// The height of the sprite that is drawn.
    pub closed spec fn spec_image_height(self) -> u32 {
        self.image_height
    }

    /// Sets up the pipeline on the canvas with the given id: its WebGL context,
    /// the linked program, the quad and the sprite's texture.
    pub fn new(document: &Document, element_id: &str, sprite: &Sprite) -> (r: Result<Graphics, WebError>)
        ensures
            r matches Ok(g) ==> g.spec_image_width() == sprite.spec_width()
                && g.spec_image_height() == sprite.spec_height(),
            r matches Err(e) ==> is_setup_error(e),
            r matches Err(WebError::MissingCanvasElement(id)) ==> id@ == element_id@,
            r matches Err(WebError::CreateShader(text)) ==> text@.len() > 0,
    {
        let canvas = get_canvas(document, element_id)?;
        let gl = webgl_context(&canvas)?;
        let vert_shader = compile_webgl_shader(&gl, VERTEX_SHADER, VERTEX_SOURCE)?;
        let frag_shader = compile_webgl_shader(&gl, FRAGMENT_SHADER, FRAGMENT_SOURCE)?;
        let program = link_webgl_program(&gl, &vert_shader, &frag_shader)?;
        let uniforms = lookup_uniforms(&gl, &program)?;
        let (quad, a_position) = box_vertex_position(&gl, &program)?;
        let texture = sprite_texture(&gl, sprite)?;
        Ok(
            Graphics {
                gl,
                canvas,
                program,
                quad,
                a_position,
                texture,
                uniforms,
                image_width: sprite.width(),
                image_height: sprite.height(),
            },
        )
    }

    /// Draws one frame in the given mode and returns what it handed the host.
    pub fn draw(&self, mode: RenderMode) -> (r: Result<Frame, WebError>)
        ensures
            r matches Ok(f) && frame_matches(f, mode, self.spec_image_width(), self.spec_image_height()),
    {
        proof {
            use_type_invariant(self);
        }
        let gl = &self.gl;
        use_program(gl, &self.program);
        let canvas_w = host_extent(canvas_width(&self.canvas));
        let canvas_h = host_extent(canvas_height(&self.canvas));
        viewport(gl, 0, 0, canvas_w, canvas_h);

        bind_buffer(gl, ARRAY_BUFFER, &self.quad);
        vertex_attrib_pointer(gl, self.a_position, 2, UNSIGNED_BYTE, false, 0, 0);
        enable_vertex_attrib_array(gl, self.a_position);

        let frame = Frame {
            viewport_width: canvas_w,
            viewport_height: canvas_h,
            transform: clip_transform(
                self.image_width,
                self.image_height,
                canvas_w as u32,
                canvas_h as u32,
            ),
            now_ms: millis_into_second(now_millis()),
            resolution_width: drawing_buffer_width(gl),
            resolution_height: drawing_buffer_height(gl),
            mode_tag: mode.tag(),
            texture_unit: 0,
            vertex_count: QUAD_VERTICES,
        };
        let u = &self.uniforms;
        let clip = &frame.transform;
        uniform4i(
            gl,
            &u.scale,
            clip.scale_x_num,
            clip.scale_x_den,
            clip.scale_y_num,
            clip.scale_y_den,
        );
        uniform2i(gl, &u.translate, clip.translate_x, clip.translate_y);
        uniform1i(gl, &u.now_ms, frame.now_ms);
        uniform2i(gl, &u.resolution, frame.resolution_width, frame.resolution_height);
        uniform1i(gl, &u.mode, frame.mode_tag);

        active_texture(gl, TEXTURE0 + frame.texture_unit as u32);
        bind_texture(gl, TEXTURE_2D, &self.texture);
        uniform1i(gl, &u.image, frame.texture_unit);

        draw_arrays(gl, TRIANGLES, 0, frame.vertex_count);
        disable_vertex_attrib_array(gl, self.a_position);
        Ok(frame)
    }
}

} // verus!
