//! The graphics backend boundary. The core never rasterizes or draws by
//! itself: it is handed a `Backend`, whose observable behaviour is the
//! sequence of calls issued to it. Contracts over that sequence are what pin
//! down draw order, cache behaviour, and fail-fast abortion.

use vstd::prelude::*;

use crate::geometry::{Bounds, Color, FontSettings};

verus! {

/// An opaque handle to a rasterized bitmap owned by the backend. The core
/// never interprets it, only its identity.
pub type Texture = i32;

/// The fingerprint of a rendered text artifact: the model of a cache key.
/// Two keys are equal iff all three fields are equal value-wise.
pub struct TextKey {
    pub bounds: Bounds,
    pub font_settings: FontSettings,
    pub content: Seq<char>,
}

/// One call issued to the graphics backend, as contracts see it.
pub enum BackendCall {
    DrawRectangle { bounds: Bounds, fill: Color, stroke: Color, stroke_width: i32 },
    RasterizeText { key: TextKey },
    DrawTexture { texture: Texture, bounds: Bounds },
}

/// The backend cannot produce a texture for the given text and style.
#[derive(Clone, Copy, Debug, PartialEq, Eq, Structural)]
pub enum RasterizationError {
    InvalidFont,
    ResourceExhausted,
}

/// The backend cannot issue a primitive draw.
#[derive(Clone, Copy, Debug, PartialEq, Eq, Structural)]
pub enum DrawError {
    ContextLost,
}

/// Everything that can abort a render pass, surfaced unchanged to the caller.
#[derive(Clone, Copy, Debug, PartialEq, Eq, Structural)]
pub enum RenderError {
    Rasterization(RasterizationError),
    Draw(DrawError),
}

/// The three capabilities the core must be supplied with. A backend may fail
/// any call; a failed call issues nothing, a successful call issues exactly
/// one entry at the end of the call sequence. Nothing is promised about the
/// texture handle a rasterization returns.
pub trait Backend: Sized {
    /// The calls issued to this backend so far, oldest first.
    spec fn calls(&self) -> Seq<BackendCall>;

    /// Issue an immediate filled and stroked rectangle draw.
    fn draw_rectangle(&mut self, bounds: &Bounds, fill: Color, stroke: Color, stroke_width: i32) -> (r: Result<(), DrawError>)
        ensures
            r is Ok ==> final(self).calls() == old(self).calls().push(
                (BackendCall::DrawRectangle { bounds: *bounds, fill, stroke, stroke_width }),
            ),
            r is Err ==> final(self).calls() == old(self).calls(),
    ;

    /// Produce a new opaque texture handle from text and style.
    fn rasterize_text(&mut self, content: &String, bounds: &Bounds, font_settings: &FontSettings) -> (r: Result<Texture, RasterizationError>)
        ensures
            r is Ok ==> final(self).calls() == old(self).calls().push(
                (BackendCall::RasterizeText {
                    key: TextKey {
                        bounds: *bounds,
                        font_settings: *font_settings,
                        content: content@,
                    },
                }),
            ),
            r is Err ==> final(self).calls() == old(self).calls(),
    ;

    /// Blit a previously produced texture at the given bounds.
    fn draw_texture(&mut self, texture: Texture, bounds: &Bounds) -> (r: Result<(), DrawError>)
        ensures
            r is Ok ==> final(self).calls() == old(self).calls().push(
                (BackendCall::DrawTexture { texture, bounds: *bounds }),
            ),
            r is Err ==> final(self).calls() == old(self).calls(),
    ;
}

/// One call as a recording backend stores it.
#[derive(Debug, PartialEq)]
pub enum RecordedCall {
    DrawRectangle { bounds: Bounds, fill: Color, stroke: Color, stroke_width: i32 },
    RasterizeText { content: String, bounds: Bounds, font_settings: FontSettings },
    DrawTexture { texture: Texture, bounds: Bounds },
}

impl View for RecordedCall {
    type V = BackendCall;

    open spec fn view(&self) -> BackendCall {
        match self {
            RecordedCall::DrawRectangle { bounds, fill, stroke, stroke_width } => {
                BackendCall::DrawRectangle {
                    bounds: *bounds,
                    fill: *fill,
                    stroke: *stroke,
                    stroke_width: *stroke_width,
                }
            },
            RecordedCall::RasterizeText { content, bounds, font_settings } => {
                BackendCall::RasterizeText {
                    key: TextKey {
                        bounds: *bounds,
                        font_settings: *font_settings,
                        content: content@,
                    },
                }
            },
            RecordedCall::DrawTexture { texture, bounds } => {
                BackendCall::DrawTexture { texture: *texture, bounds: *bounds }
            },
        }
    }
}

/// A backend that performs no real graphics work: it records every call and
/// hands out texture handles counting up from one. Failures can be injected:
/// rasterization fails for one poisoned content string, and draws fail
/// wholesale when `fail_draws` is set.
pub struct RecordingBackend {
    pub log: Vec<RecordedCall>,
    pub next_texture: Texture,
    pub fail_content: Option<String>,
    pub fail_draws: bool,
}

impl RecordingBackend {
    /// A fresh backend that accepts every call.
    pub fn new() -> (r: RecordingBackend)
        ensures
            r.calls() == Seq::<BackendCall>::empty(),
    {
        let r = RecordingBackend {
            log: Vec::new(),
            next_texture: 1,
            fail_content: None,
            fail_draws: false,
        };
        proof {
            assert(r.calls() =~= Seq::<BackendCall>::empty());
        }
        r
    }

    /// A fresh backend whose rasterizer rejects exactly the given content.
    pub fn with_failing_rasterize(content: String) -> (r: RecordingBackend)
        ensures
            r.calls() == Seq::<BackendCall>::empty(),
    {
        let r = RecordingBackend {
            log: Vec::new(),
            next_texture: 1,
            fail_content: Some(content),
            fail_draws: false,
        };
        proof {
            assert(r.calls() =~= Seq::<BackendCall>::empty());
        }
        r
    }

    /// A fresh backend that refuses every primitive draw.
    pub fn with_failing_draws() -> (r: RecordingBackend)
        ensures
            r.calls() == Seq::<BackendCall>::empty(),
    {
        let r = RecordingBackend {
            log: Vec::new(),
            next_texture: 1,
            fail_content: None,
            fail_draws: true,
        };
        proof {
            assert(r.calls() =~= Seq::<BackendCall>::empty());
        }
        r
    }

    /// How many calls have been issued so far.
    pub fn call_count(&self) -> (n: usize)
        ensures
            n == self.calls().len(),
    {
        self.log.len()
    }
}

impl Backend for RecordingBackend {
    open spec fn calls(&self) -> Seq<BackendCall> {
        self.log@.map_values(|c: RecordedCall| c@)
    }

    fn draw_rectangle(&mut self, bounds: &Bounds, fill: Color, stroke: Color, stroke_width: i32) -> (r: Result<(), DrawError>) {
        if self.fail_draws {
            return Err(DrawError::ContextLost);
        }
        self.log.push(RecordedCall::DrawRectangle { bounds: *bounds, fill, stroke, stroke_width });
        proof {
            assert(self.calls() =~= old(self).calls().push(
                (BackendCall::DrawRectangle { bounds: *bounds, fill, stroke, stroke_width }),
            ));
        }
        Ok(())
    }

    fn rasterize_text(&mut self, content: &String, bounds: &Bounds, font_settings: &FontSettings) -> (r: Result<Texture, RasterizationError>) {
        let poisoned = match &self.fail_content {
            Some(c) => c == content,
            None => false,
        };
        if poisoned {
            return Err(RasterizationError::InvalidFont);
        }
        let texture = self.next_texture;
        if self.next_texture < i32::MAX {
            self.next_texture = self.next_texture + 1;
        }
        self.log.push(RecordedCall::RasterizeText {
            content: content.clone(),
            bounds: *bounds,
            font_settings: *font_settings,
        });
        proof {
            assert(self.calls() =~= old(self).calls().push(
                (BackendCall::RasterizeText {
                    key: TextKey { bounds: *bounds, font_settings: *font_settings, content: content@ },
                }),
            ));
        }
        Ok(texture)
    }

    fn draw_texture(&mut self, texture: Texture, bounds: &Bounds) -> (r: Result<(), DrawError>) {
        if self.fail_draws {
            return Err(DrawError::ContextLost);
        }
        self.log.push(RecordedCall::DrawTexture { texture, bounds: *bounds });
        proof {
            assert(self.calls() =~= old(self).calls().push(
                (BackendCall::DrawTexture { texture, bounds: *bounds }),
            ));
        }
        Ok(())
    }
}

} // verus!
