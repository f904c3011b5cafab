//! Geometry and font styling value types: the leaf dependency of the
//! visual tree, the widgets, and the texture cache key.

use vstd::prelude::*;

verus! {

/// An integer-packed RGB color value.
pub type Color = i32;

/// A plain rectangle in screen space, compared structurally.
#[derive(Clone, Copy, Debug, PartialEq, Eq, Structural)]
pub struct Bounds {
    pub x: i32,
    pub y: i32,
    pub width: i32,
    pub height: i32,
}

/// Weight of a rendered font.
#[derive(Clone, Copy, Debug, PartialEq, Eq, Structural)]
pub enum FontWeight {
    Light,
    Normal,
    Bold,
}

/// Family of a rendered font.
#[derive(Clone, Copy, Debug, PartialEq, Eq, Structural)]
pub enum FontFamily {
    Arial,
}

/// Immutable font styling, compared structurally.
#[derive(Clone, Copy, Debug, PartialEq, Eq, Structural)]
pub struct FontSettings {
    pub font_size: i32,
    pub font_weight: FontWeight,
    pub font_family: FontFamily,
}

} // verus!
