use vstd::prelude::*;
use wasm_bindgen::JsValue;
use web_sys::Element;

verus! {

/// Every way in which setting up or drawing can fail.
#[derive(Debug)]
pub enum WebError {
    /// The document holds no element with this id.
    MissingCanvasElement(String),
    /// The element with the id is not a canvas.
    GetCanvasHandle(Element),
    /// The canvas handed out a context that is not a WebGL context.
    GetCanvasWebglHandle(js_sys::Object),
    /// A shader did not compile; carries the compiler's diagnostic text.
    CreateShader(String),
    /// The host cannot provide a WebGL context for the canvas.
    GetCanvasWebglContext,
    /// The host refused to create a shader object.
    UnableCreateShader,
    /// The program did not link; carries the linker's diagnostic text.
    CreateProgram(String),
    /// The host refused to create a program object.
    UnableCreateProgram,
    /// A draw was asked for before the graphics were set up.
    GraphicsNotInitialized,
    /// The host refused to create a buffer object.
    CreateBuffer,
    /// The host refused to create a texture object.
    CreateTexture,
    /// The host rejected the pixel upload; carries what it raised.
    LoadTexture(JsValue),
    /// The linked program has no active attribute or uniform of this name.
    MissingShaderVariable(String),
    /// The sprite's bytes could not be decoded as an image.
    DecodeImage(image::ImageError),
    /// The decoded sprite is larger than the host can take, or its pixel
    /// buffer does not match its size.
    InvalidImage,
}

} // verus!
