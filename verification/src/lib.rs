//! Bridges an in-memory font byte buffer to a host font-shaping engine that
//! natively only understands file-identified resources, and extracts per-glyph
//! vector outlines and metrics from the resulting shaped face.
//!
//! The library holds the verified core: the reference-counted plugin-object
//! runtime, the four-object loader chain that presents a memory buffer as a
//! file-backed font, the geometry sink that normalizes outline-tessellation
//! callbacks into a replayable path-event sequence, and the font context that
//! owns the catalog of loaded faces. The host engine itself (factory creation,
//! tessellation, metrics computation) is an external collaborator: a thin
//! unverified shell performs those calls and feeds their outcomes to the
//! functions here as plain values.

use vstd::prelude::*;

pub mod context;
pub mod enumerator;
pub mod family;
pub mod geometry;
pub mod loader;
pub mod metrics;
pub mod object;
pub mod registration;
pub mod sink;
pub mod stream;

verus! {

/// Externally supplied identifier for one loaded font. Opaque to this
/// subsystem; only equality matters.
#[derive(Clone, Copy, Debug, Hash, PartialEq, Eq, Structural)]
pub struct FontKey(pub u64);

/// A length in app units, the fixed-point unit of requested font sizes:
/// `AU_PER_PX` app units make one pixel.
#[derive(Clone, Copy, Debug, Hash, PartialEq, Eq, Structural)]
pub struct Au(pub i32);

/// App units per pixel.
pub const AU_PER_PX: i32 = 60;

/// Identifies one shaping configuration for metric and outline queries:
/// a loaded font plus the requested pixel size.
#[derive(Clone, Copy, Debug, PartialEq, Eq, Structural)]
pub struct FontInstance {
    pub font_key: FontKey,
    /// Requested size, in app units per em.
    pub size: Au,
}

impl FontInstance {
    pub fn new(font_key: FontKey, size: Au) -> (r: FontInstance)
        ensures
            r.font_key == font_key,
            r.size == size,
    {
        FontInstance { font_key, size }
    }
}

/// Identifies one glyph within a face by its engine-assigned glyph index
/// (not a Unicode code point).
#[derive(Clone, Copy, Debug, PartialEq, Eq, Structural)]
pub struct GlyphKey {
    pub glyph_index: u32,
}

impl GlyphKey {
    pub fn new(glyph_index: u32) -> (r: GlyphKey)
        ensures
            r.glyph_index == glyph_index,
    {
        GlyphKey { glyph_index }
    }
}

/// Failure categories at the public boundary of the font context.
///
/// Most host-engine failures collapse to `LoadFailure`: callers cannot
/// distinguish why a load failed beyond "it failed".
#[derive(Clone, Copy, Debug, PartialEq, Eq, Structural)]
pub enum FontError {
    /// The engine factory was unavailable.
    InitializationFailure,
    /// A font key or family name was absent.
    NotFound,
    /// A multi-step load or an engine query failed; no finer cause is exposed.
    LoadFailure,
    /// The native rasterization path is deliberately unimplemented.
    Unimplemented,
}

/// Failure categories of the plugin protocol itself. The host engine inspects
/// these, so each must be returned with its exact category.
#[derive(Clone, Copy, Debug, PartialEq, Eq, Structural)]
pub enum ComError {
    /// Enumerator or stream protocol misuse, or an out-of-range byte read.
    OutOfBounds,
    /// A loader callback received a reference key that does not match the
    /// reserved tag.
    InvalidArgument,
    /// A capability query asked for an interface the object does not implement.
    NoInterface,
}

} // verus!
