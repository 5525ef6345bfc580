//! Glyph dimensions: design-unit metrics scaled to a requested pixel size.
//!
//! The engine reports metrics in design units, the font's internal integer
//! space of `units_per_em` units per em. A measurement in device space is
//! `design_units * pixel_size / units_per_em`, and the pixel size itself is
//! given in app units ([`crate::AU_PER_PX`] per pixel), so every scaled metric
//! is the exact rational `design_units * size_in_app_units` over
//! `AU_PER_PX * units_per_em`. The scaling is kept in that exact form; a
//! consumer that wants floating point divides at the boundary.

use vstd::prelude::*;

use crate::{AU_PER_PX, Au};

verus! {

/// What the engine reports for one glyph of one face, all in design units:
/// the face-wide unit count per em plus the glyph's advances and side
/// bearings.
#[derive(Clone, Copy, Debug, PartialEq, Eq, Structural)]
pub struct GlyphMetricsData {
    /// Design units per em of the face; at least one in any real font.
    pub units_per_em: u16,
    /// Horizontal advance.
    pub advance_width: u32,
    /// Vertical advance.
    pub advance_height: u32,
    pub left_side_bearing: i32,
    pub right_side_bearing: i32,
    pub top_side_bearing: i32,
    pub bottom_side_bearing: i32,
}

/// One device-space measurement as an exact rational: `num / den`.
#[derive(Clone, Copy, Debug, PartialEq, Eq, Structural)]
pub struct ScaledMetric {
    pub num: i128,
    pub den: u64,
}

/// The dimensions of one glyph at one pixel size: advance, origin and extent,
/// each an exact rational number of pixels.
#[derive(Clone, Copy, Debug, PartialEq, Eq, Structural)]
pub struct GlyphDimensions {
    /// Horizontal advance.
    pub advance: ScaledMetric,
    /// Left side bearing.
    pub origin_x: ScaledMetric,
    /// Bottom side bearing.
    pub origin_y: ScaledMetric,
    /// Advance minus both horizontal side bearings.
    pub width: ScaledMetric,
    /// Vertical advance minus both vertical side bearings.
    pub height: ScaledMetric,
}

/// The common denominator of every scaled metric: app units per pixel times
/// design units per em.
pub open spec fn scale_den(m: GlyphMetricsData) -> int {
    AU_PER_PX * m.units_per_em
}

/// The dimensions owed for metrics `m` at `size` app units per em, stated
/// field by field as exact rationals over [`scale_den`].
pub open spec fn dimensions_of(m: GlyphMetricsData, size: Au) -> GlyphDimensions {
    GlyphDimensions {
        advance: ScaledMetric {
            num: (m.advance_width * size.0) as i128,
            den: scale_den(m) as u64,
        },
        origin_x: ScaledMetric {
            num: (m.left_side_bearing * size.0) as i128,
            den: scale_den(m) as u64,
        },
        origin_y: ScaledMetric {
            num: (m.bottom_side_bearing * size.0) as i128,
            den: scale_den(m) as u64,
        },
        width: ScaledMetric {
            num: ((m.advance_width - m.right_side_bearing - m.left_side_bearing) * size.0) as i128,
            den: scale_den(m) as u64,
        },
        height: ScaledMetric {
            num: ((m.advance_height - m.bottom_side_bearing - m.top_side_bearing)
                * size.0) as i128,
            den: scale_den(m) as u64,
        },
    }
}

/// Scales one design-unit measurement, exactly.
fn scale_metric(design_units: i64, size: Au, den: u64) -> (r: ScaledMetric)
    requires
        -0x2_0000_0000 <= design_units <= 0x2_0000_0000,
        den >= 1,
    ensures
        r.num == design_units * size.0,
        r.den == den,
{
    let a: i128 = design_units as i128;
    let b: i128 = size.0 as i128;
    assert(-0x1_0000_0000_0000_0000i128 <= a * b <= 0x1_0000_0000_0000_0000i128)
        by (nonlinear_arith)
        requires
            -0x2_0000_0000 <= a <= 0x2_0000_0000,
            -0x8000_0000 <= b <= 0x8000_0000,
    ;
    let num: i128 = a * b;
    ScaledMetric { num, den }
}

/// Computes the dimensions of one glyph from its design metrics and the
/// requested size: each field exactly as [`dimensions_of`] states it.
pub fn glyph_dimensions_from_metrics(m: &GlyphMetricsData, size: Au) -> (r: GlyphDimensions)
    requires
        m.units_per_em >= 1,
    ensures
        r == dimensions_of(*m, size),
{
    let den: u64 = (AU_PER_PX as u64) * (m.units_per_em as u64);
    assert(den == AU_PER_PX * m.units_per_em && den >= 1) by (nonlinear_arith)
        requires
            den == (AU_PER_PX as u64) * (m.units_per_em as u64),
            m.units_per_em >= 1,
    ;
    let advance = scale_metric(m.advance_width as i64, size, den);
    let origin_x = scale_metric(m.left_side_bearing as i64, size, den);
    let origin_y = scale_metric(m.bottom_side_bearing as i64, size, den);
    let width = scale_metric(
        m.advance_width as i64 - m.right_side_bearing as i64 - m.left_side_bearing as i64,
        size,
        den,
    );
    let height = scale_metric(
        m.advance_height as i64 - m.bottom_side_bearing as i64 - m.top_side_bearing as i64,
        size,
        den,
    );
    GlyphDimensions { advance, origin_x, origin_y, width, height }
}

} // verus!
