//! The host's objects as this library sees them: opaque handles that the
//! browser hands out, and the few calls that obtain or inspect them.

use vstd::prelude::*;
use wasm_bindgen::JsCast;
use wasm_bindgen::JsValue;
use web_sys::{Document, Element, HtmlCanvasElement, WebGlRenderingContext};

verus! {

#[verifier::external_type_specification]
#[verifier::external_body]
pub struct ExJsValue(JsValue);

#[verifier::external_type_specification]
#[verifier::external_body]
#[verifier::reject_recursive_types(T)]
pub struct ExObject<T>(js_sys::Object<T>);

#[verifier::external_type_specification]
#[verifier::external_body]
pub struct ExDocument(Document);

#[verifier::external_type_specification]
#[verifier::external_body]
pub struct ExElement(Element);

#[verifier::external_type_specification]
#[verifier::external_body]
pub struct ExHtmlCanvasElement(HtmlCanvasElement);

#[verifier::external_type_specification]
#[verifier::external_body]
pub struct ExWebGlRenderingContext(WebGlRenderingContext);

/// Relies on `Document::get_element_by_id`: the element with that id, if the
/// document holds one.
#[verifier::external_body]
pub(crate) fn element_by_id(document: &Document, element_id: &str) -> (r: Option<Element>) {
    document.get_element_by_id(element_id)
}

/// Relies on `JsCast::dyn_into`: the element as a canvas, or the element itself
/// handed back when it is no canvas.
#[verifier::external_body]
pub(crate) fn element_as_canvas(element: Element) -> (r: Result<HtmlCanvasElement, Element>)
    ensures
        r matches Err(e) ==> e == element,
{
    element.dyn_into::<HtmlCanvasElement>()
}

/// Relies on `HtmlCanvasElement::get_context`: the context object of the given
/// kind, none when the host cannot provide one, or the exception it raised.
#[verifier::external_body]
pub(crate) fn canvas_context(canvas: &HtmlCanvasElement, kind: &str) -> (r: Result<
    Option<js_sys::Object>,
    JsValue,
>) {
    canvas.get_context(kind)
}

/// Relies on `JsCast::dyn_into`: the object as a WebGL context, or the object
/// itself handed back when it is of another kind.
#[verifier::external_body]
pub(crate) fn object_as_webgl(object: js_sys::Object) -> (r: Result<WebGlRenderingContext, js_sys::Object>)
    ensures
        r matches Err(o) ==> o == object,
{
    object.dyn_into::<WebGlRenderingContext>()
}

/// Relies on `HtmlCanvasElement::width`: the canvas's width in pixels.
#[verifier::external_body]
pub(crate) fn canvas_width(canvas: &HtmlCanvasElement) -> (r: u32) {
    canvas.width()
}

/// Relies on `HtmlCanvasElement::height`: the canvas's height in pixels.
#[verifier::external_body]
pub(crate) fn canvas_height(canvas: &HtmlCanvasElement) -> (r: u32) {
    canvas.height()
}

/// Relies on `js_sys::Date::now`: the milliseconds since the Unix epoch, as a
/// whole number.
#[verifier::external_body]
pub(crate) fn now_millis() -> (r: u64) {
    js_sys::Date::now() as u64
}

/// Relies on `JsValue::as_bool`: the boolean that the value holds, none when it
/// holds no boolean.
#[verifier::external_body]
pub(crate) fn js_bool(value: &JsValue) -> (r: Option<bool>) {
    value.as_bool()
}

} // verus!
