//! Verified core of a small 2D instanced-sprite renderer.
//!
//! The heart of the crate is [`buffer::Buffer`], a growable set of parallel
//! per-instance attribute channels that accumulates primitive descriptions
//! for one frame and hands them to a single instanced draw call.  The crate
//! also carries the bitmap-font glyph index ([`font::Font`]) and the integer
//! screen-space geometry helpers ([`geometry`]).
//!
//! Everything that talks to the windowing toolkit or the graphics driver
//! lives outside this crate; the types here hold plain values only.

pub mod buffer;
pub mod font;
pub mod geometry;
