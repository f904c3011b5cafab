//! A minimal retained-mode UI rendering core.
//!
//! Widgets project themselves into an immutable visual tree; a renderer walks
//! that tree depth-first and issues draw calls against a graphics backend,
//! consulting a texture cache so that each distinct piece of styled text is
//! rasterized at most once.

pub mod backend;
pub mod cache;
pub mod geometry;
pub mod renderer;
pub mod visual;
pub mod widgets;
