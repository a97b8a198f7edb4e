use rust_canvas::{
    attribute_index, canvas_from_lookup, check_status, clip_transform, compile_failure, created,
    host_extent,
    link_failure, millis_into_second, required_uniform, webgl_from_context, RenderMode,
    RustCanvas, WebError, QUAD_VERTICES,
};
use wasm_bindgen::JsValue;

#[test]
fn render_mode_next_cycles() {
    assert_eq!(RenderMode::Plain.next(), RenderMode::Crt);
    assert_eq!(RenderMode::Crt.next(), RenderMode::Plain);
}

#[test]
fn render_mode_next_twice_is_identity() {
    for m in [RenderMode::Plain, RenderMode::Crt] {
        assert_eq!(m.next().next(), m);
    }
}

#[test]
fn render_mode_tags_and_default() {
    assert_eq!(RenderMode::Plain.tag(), 0);
    assert_eq!(RenderMode::Crt.tag(), 1);
    assert_eq!(RenderMode::default(), RenderMode::Plain);
}

#[test]
fn toggle_mode_twice_restores_mode() {
    let mut c = RustCanvas::create();
    assert_eq!(c.mode(), RenderMode::Plain);
    c.toggle_mode();
    assert_eq!(c.mode(), RenderMode::Crt);
    c.toggle_mode();
    assert_eq!(c.mode(), RenderMode::Plain);
}

#[test]
fn created_canvas_is_not_initialized() {
    let c = RustCanvas::create();
    assert!(!c.is_initialized());
    let d = RustCanvas::default();
    assert!(!d.is_initialized());
    assert_eq!(d.mode(), RenderMode::Plain);
}

// Any host call would panic off the browser, so this also shows that none is made.
#[test]
fn draw_before_init_is_not_initialized() {
    let mut c = RustCanvas::create();
    assert!(matches!(c.draw(), Err(WebError::GraphicsNotInitialized)));
    c.toggle_mode();
    assert!(matches!(c.draw(), Err(WebError::GraphicsNotInitialized)));
    assert!(matches!(c.draw(), Err(WebError::GraphicsNotInitialized)));
    assert!(!c.is_initialized());
}

#[test]
fn clip_transform_scales_image_to_canvas() {
    let t = clip_transform(100, 50, 200, 100);
    let scale_x = t.scale_x_num as f64 / t.scale_x_den as f64;
    let scale_y = t.scale_y_num as f64 / t.scale_y_den as f64;
    assert_eq!(scale_x, 1.0);
    assert_eq!(scale_y, -1.0);
    assert_eq!((t.translate_x, t.translate_y), (-1, 1));
}

#[test]
fn clip_transform_exact_fractions() {
    let t = clip_transform(64, 48, 640, 480);
    assert_eq!((t.scale_x_num, t.scale_x_den), (128, 640));
    assert_eq!((t.scale_y_num, t.scale_y_den), (-96, 480));
    let s = clip_transform(300, 200, 150, 100);
    assert_eq!(s.scale_x_num as f64 / s.scale_x_den as f64, 4.0);
    assert_eq!(s.scale_y_num as f64 / s.scale_y_den as f64, -4.0);
}

#[test]
fn host_extent_saturates() {
    assert_eq!(host_extent(0), 0);
    assert_eq!(host_extent(800), 800);
    assert_eq!(host_extent(i32::MAX as u32), i32::MAX);
    assert_eq!(host_extent(u32::MAX), i32::MAX);
}

#[test]
fn millis_into_second_takes_fraction() {
    assert_eq!(millis_into_second(1_700_000_123_456), 456);
    assert_eq!(millis_into_second(999), 999);
    assert_eq!(millis_into_second(1000), 0);
}

#[test]
fn quad_has_six_vertices() {
    assert_eq!(QUAD_VERTICES, 6);
}

#[test]
fn missing_canvas_is_not_found() {
    let r = canvas_from_lookup(None, "no-such-canvas");
    match r {
        Err(WebError::MissingCanvasElement(id)) => assert_eq!(id, "no-such-canvas"),
        other => panic!("unexpected {:?}", other),
    }
}

#[test]
fn absent_context_is_unsupported() {
    assert!(matches!(webgl_from_context(Ok(None)), Err(WebError::GetCanvasWebglContext)));
    assert!(matches!(
        webgl_from_context(Err(JsValue::NULL)),
        Err(WebError::GetCanvasWebglContext)
    ));
}

#[test]
fn compile_failure_carries_host_log() {
    let log = "ERROR: 0:3: 'vec5' : syntax error".to_string();
    match compile_failure(Some(log.clone())) {
        WebError::CreateShader(text) => assert_eq!(text, log),
        other => panic!("unexpected {:?}", other),
    }
}

#[test]
fn compile_failure_without_log_has_text() {
    match compile_failure(None) {
        WebError::CreateShader(text) => {
            assert!(!text.is_empty());
            assert_eq!(text, "Unknown error creating shader");
        }
        other => panic!("unexpected {:?}", other),
    }
}

#[test]
fn link_failure_carries_log_or_fallback() {
    match link_failure(Some("missing main".to_string())) {
        WebError::CreateProgram(text) => assert_eq!(text, "missing main"),
        other => panic!("unexpected {:?}", other),
    }
    match link_failure(None) {
        WebError::CreateProgram(text) => assert_eq!(text, "Unknown error creating program"),
        other => panic!("unexpected {:?}", other),
    }
}

#[test]
fn attribute_index_rejects_negative() {
    assert_eq!(attribute_index(3, "a_position").unwrap(), 3);
    assert_eq!(attribute_index(0, "a_position").unwrap(), 0);
    match attribute_index(-1, "a_position") {
        Err(WebError::MissingShaderVariable(name)) => assert_eq!(name, "a_position"),
        other => panic!("unexpected {:?}", other),
    }
}

#[test]
fn missing_uniform_is_reported() {
    match required_uniform(None, "u_mode") {
        Err(WebError::MissingShaderVariable(name)) => assert_eq!(name, "u_mode"),
        other => panic!("unexpected {:?}", other),
    }
}

#[test]
fn empty_compile_log_falls_back() {
    match compile_failure(Some(String::new())) {
        WebError::CreateShader(text) => assert_eq!(text, "Unknown error creating shader"),
        other => panic!("unexpected {:?}", other),
    }
}

#[test]
fn empty_link_log_is_kept() {
    match link_failure(Some(String::new())) {
        WebError::CreateProgram(text) => assert_eq!(text, ""),
        other => panic!("unexpected {:?}", other),
    }
}

#[test]
fn created_maps_refusal() {
    assert_eq!(created(Some(7u32), WebError::CreateBuffer).unwrap(), 7);
    assert!(matches!(
        created::<u32>(None, WebError::CreateTexture),
        Err(WebError::CreateTexture)
    ));
    assert!(matches!(
        created::<u32>(None, WebError::UnableCreateShader),
        Err(WebError::UnableCreateShader)
    ));
}

#[test]
fn check_status_accepts_only_true() {
    assert_eq!(check_status(5u32, Some(true)), Ok(5));
    assert_eq!(check_status(5u32, Some(false)), Err(5));
    assert_eq!(check_status(5u32, None), Err(5));
}
