//! The handle a page holds: either nothing set up yet, or a ready pipeline,
//! together with the render mode the next frame is drawn in.

use vstd::prelude::*;
use web_sys::Document;

use crate::error::WebError;
use crate::graphics::{frame_matches, is_setup_error, Frame, Graphics};
use crate::mode::RenderMode;
use crate::sprite::Sprite;

verus! {

/// Either uninitialized or holding a ready pipeline; never in between.
pub struct RustCanvas {
    graphics: Option<Graphics>,
    mode: RenderMode,
}

/// What `draw` returns on a canvas: success once set up, else the report that
/// it is not.
pub open spec fn draw_outcome(ready: bool) -> Result<(), WebError> {
    if ready {
        Ok(())
    } else {
        Err(WebError::GraphicsNotInitialized)
    }
}

/// How `init` relates the canvas before, its result, and the canvas after.
pub open spec fn init_post(
    before: RustCanvas,
    element_id: Seq<char>,
    sprite: Sprite,
    r: Result<(), WebError>,
    after: RustCanvas,
) -> bool {
    &&& after.render_mode() == before.render_mode()
    &&& before.is_ready() ==> r is Ok && after == before
    &&& !before.is_ready() ==> {
        &&& r is Ok <==> after.is_ready()
        &&& r is Ok ==> after.image_width() == sprite.spec_width() && after.image_height()
            == sprite.spec_height()
        &&& r matches Err(e) ==> is_setup_error(e) && after == before
        &&& r matches Err(WebError::MissingCanvasElement(id)) ==> id@ == element_id
        &&& r matches Err(WebError::CreateShader(text)) ==> text@.len() > 0
    }
}

impl RustCanvas {
    /// Whether the pipeline is set up.
    pub open spec fn is_ready(self) -> bool {
        self.pipeline() is Some
    }

    /// The pipeline, once it is set up.
    pub closed spec fn pipeline(self) -> Option<Graphics> {
        self.graphics
    }

    /// The mode the next frame is drawn in.
    pub closed spec fn render_mode(self) -> RenderMode {
        self.mode
    }

    /// The width of the sprite the pipeline draws, once it is set up.
    pub closed spec fn image_width(self) -> u32 {
        self.graphics->0.spec_image_width()
    }

    /// The height of the sprite the pipeline draws, once it is set up.
    pub closed spec fn image_height(self) -> u32 {
        self.graphics->0.spec_image_height()
    }

    /// A canvas handle with nothing set up, in the plain mode.
    pub fn create() -> (r: RustCanvas)
        ensures
            !r.is_ready(),
            r.render_mode() == RenderMode::Plain,
    {
        RustCanvas { graphics: None, mode: RenderMode::Plain }
    }

    /// Sets up the pipeline on the canvas with the given id, unless it is set
    /// up already, in which case nothing changes.
    pub fn init(&mut self, document: &Document, element_id: &str, sprite: &Sprite) -> (r: Result<
        (),
        WebError,
    >)
        ensures
            init_post(*old(self), element_id@, *sprite, r, *final(self)),
    {
        if self.graphics.is_none() {
            let built = Graphics::new(document, element_id, sprite);
            self.install(built)
        } else {
            Ok(())
        }
    }

    /// Takes the outcome of building the pipeline into a canvas that has none
    /// yet: a built pipeline is kept, an error is handed on with the canvas
    /// left as it was.
    pub fn install(&mut self, built: Result<Graphics, WebError>) -> (r: Result<(), WebError>)
        requires
            !old(self).is_ready(),
        ensures
            built matches Ok(g) ==> r is Ok && final(self).pipeline() == Some(g)
                && final(self).render_mode() == old(self).render_mode(),
            built matches Err(e) ==> r == Err::<(), WebError>(e) && *final(self) == *old(self),
    {
        match built {
            Ok(graphics) => {
                self.graphics = Some(graphics);
                Ok(())
            },
            Err(e) => Err(e),
        }
    }

    /// Moves to the next render mode.
    pub fn toggle_mode(&mut self)
        ensures
            final(self).render_mode() == old(self).render_mode().successor(),
            final(self).is_ready() == old(self).is_ready(),
            final(self).pipeline() == old(self).pipeline(),
    {
        self.mode = self.mode.next();
    }

    /// Draws one frame in the current mode and returns what it handed the host.
    pub fn draw(&mut self) -> (r: Result<Frame, WebError>)
        ensures
            r is Ok <==> draw_outcome(old(self).is_ready()) is Ok,
            r matches Err(e) ==> draw_outcome(old(self).is_ready()) == Err::<(), WebError>(e),
            r matches Ok(f) ==> frame_matches(
                f,
                old(self).render_mode(),
                old(self).image_width(),
                old(self).image_height(),
            ),
            *final(self) == *old(self),
    {
        match &self.graphics {
            Some(graphics) => graphics.draw(self.mode),
            None => Err(WebError::GraphicsNotInitialized),
        }
    }

    /// Whether the pipeline is set up.
    pub fn is_initialized(&self) -> (r: bool)
        ensures
            r == self.is_ready(),
    {
        self.graphics.is_some()
    }

    /// The mode the next frame is drawn in.
    pub fn mode(&self) -> (r: RenderMode)
        ensures
            r == self.render_mode(),
    {
        self.mode
    }
}

impl Default for RustCanvas {
    fn default() -> (r: RustCanvas)
        ensures
            !r.is_ready(),
            r.render_mode() == RenderMode::Plain,
    {
        RustCanvas::create()
    }
}

/// Once `init` has succeeded, every `draw` that follows succeeds, whatever the
/// mode is toggled to in between.
pub proof fn init_then_draw_succeeds(
    before: RustCanvas,
    element_id: Seq<char>,
    sprite: Sprite,
    r: Result<(), WebError>,
    after: RustCanvas,
)
    requires
        init_post(before, element_id, sprite, r, after),
        r is Ok,
    ensures
        draw_outcome(after.is_ready()) is Ok,
{
}

/// A second `init` on a canvas that is set up succeeds and leaves it as it
/// was: the same program, buffer and texture.
pub proof fn init_when_ready_keeps_pipeline(
    before: RustCanvas,
    element_id: Seq<char>,
    sprite: Sprite,
    r: Result<(), WebError>,
    after: RustCanvas,
)
    requires
        init_post(before, element_id, sprite, r, after),
        before.is_ready(),
    ensures
        r is Ok,
        after == before,
{
}

/// Before any successful `init`, `draw` reports that nothing is set up.
pub proof fn draw_before_init_fails(c: RustCanvas)
    requires
        !c.is_ready(),
    ensures
        draw_outcome(c.is_ready()) == Err::<(), WebError>(WebError::GraphicsNotInitialized),
{
}

} // verus!
