//! Plain-value shapes shared by the compute and render paths: dispatch grid
//! sizes, drawable surface sizes, colors, and the triangle's vertex records.

use vstd::prelude::*;

verus! {

/// A three-dimensional dispatch extent. Both demo programs only ever use the
/// width; height and depth stay 1.
#[derive(Clone, Copy, Debug, PartialEq, Eq, Structural)]
pub struct GridSize {
    pub width: u64,
    pub height: u64,
    pub depth: u64,
}

/// The pixel size of the drawable surface a frame targets.
#[derive(Clone, Copy, Debug, PartialEq, Eq, Structural)]
pub struct SurfaceSize {
    pub width: u64,
    pub height: u64,
}

/// An RGBA color with each channel given in thousandths of full intensity
/// (0 is black/transparent, 1000 is full). The driver divides by 1000 when it
/// hands a color to the graphics API.
#[derive(Clone, Copy, Debug, PartialEq, Eq, Structural)]
pub struct Rgba {
    pub r: u16,
    pub g: u16,
    pub b: u16,
    pub a: u16,
}

/// Every channel stays within the per-mille scale.
pub open spec fn rgba_wf(c: Rgba) -> bool {
    c.r <= 1000 && c.g <= 1000 && c.b <= 1000 && c.a <= 1000
}

/// One vertex record: a 2D position in pixels around the surface center, and
/// an RGBA color. The triangle's coordinates are whole pixels, so integer
/// fields carry them exactly.
#[derive(Clone, Copy, Debug, PartialEq, Eq, Structural)]
pub struct Vertex {
    pub x: i32,
    pub y: i32,
    pub color: Rgba,
}

pub open spec fn vertex_wf(v: Vertex) -> bool {
    rgba_wf(v.color)
}

/// A one-dimensional grid: `n` lanes wide, one row, one slice.
pub fn grid_1d(n: u64) -> (g: GridSize)
    ensures
        g == (GridSize { width: n, height: 1, depth: 1 }),
{
    GridSize { width: n, height: 1, depth: 1 }
}

} // verus!
