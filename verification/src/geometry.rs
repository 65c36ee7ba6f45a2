//! Conversion of axis-aligned pixel rectangles into normalized device
//! coordinates (NDC), the `[-1, 1]` range the rasterizer expects.
//!
//! A pixel column `px` of a target that is `width` pixels wide maps to the
//! NDC x coordinate `px / (width/2) - 1`, that is `(2*px - width) / width`.
//! A pixel row `py` maps to `(height - 2*py) / height`: the y axis is
//! flipped (screen space grows downwards, NDC grows upwards) and rebased
//! around the window center. Both coordinates are held exactly as integer
//! numerators over the fixed denominators `width` and `height`, so the
//! transform and its inverse are exact; the caller divides once when it
//! hands the vertices to the rasterizer.

use vstd::prelude::*;

verus! {

/// One quad corner in NDC, held exactly: the NDC x coordinate is
/// `x_num / width`, the NDC y coordinate is `y_num / height`, where
/// `(width, height)` is the pixel size of the render target the quad
/// was built for.
#[derive(Clone, Copy, PartialEq, Eq, Structural, Debug)]
pub struct Vertex {
    pub x_num: i64,
    pub y_num: i64,
}

/// Numerator (over `width`) of the NDC x coordinate of pixel column `px`.
pub open spec fn ndc_x_num(px: int, width: int) -> int {
    2 * px - width
}

/// Numerator (over `height`) of the NDC y coordinate of pixel row `py`;
/// the y axis is flipped.
pub open spec fn ndc_y_num(py: int, height: int) -> int {
    height - 2 * py
}

/// Inverse transform: the pixel column whose NDC x numerator is `x_num`.
pub open spec fn px_of_ndc(x_num: int, width: int) -> int {
    (x_num + width) / 2
}

/// Inverse transform: the pixel row whose NDC y numerator is `y_num`.
pub open spec fn py_of_ndc(y_num: int, height: int) -> int {
    (height - y_num) / 2
}

/// A numerator lies in the NDC range `[-1, 1]` exactly when it is bounded
/// by the (positive) denominator on both sides.
pub open spec fn in_ndc_range(num: int, denom: int) -> bool {
    -denom <= num <= denom
}

/// An axis-aligned rectangle in pixel space, together with the six NDC
/// vertices of the two-triangle quad that covers it. The vertex set is
/// rebuilt for every draw; the GPU-resident copy of it lives with the
/// collaborator that records the draw call.
pub struct Rectangle {
    pub x: u32,
    pub y: u32,
    pub w: u32,
    pub h: u32,
    pub vertices: [Vertex; 6],
}

impl Rectangle {
    /// The six vertices hold the quad of the pixel rectangle for a
    /// `width` by `height` target: two triangles in a triangle list,
    /// winding counter-clockwise in NDC, with the shared diagonal pair
    /// deliberately duplicated.
    pub open spec fn quad_for(self, width: int, height: int) -> bool {
        let left = ndc_x_num(self.x as int, width);
        let right = ndc_x_num(self.x + self.w, width);
        let top = ndc_y_num(self.y as int, height);
        let bottom = ndc_y_num(self.y + self.h, height);
        &&& self.vertices@[0] == (Vertex { x_num: left as i64, y_num: top as i64 })
        &&& self.vertices@[1] == (Vertex { x_num: left as i64, y_num: bottom as i64 })
        &&& self.vertices@[2] == (Vertex { x_num: right as i64, y_num: bottom as i64 })
        &&& self.vertices@[3] == (Vertex { x_num: right as i64, y_num: bottom as i64 })
        &&& self.vertices@[4] == (Vertex { x_num: right as i64, y_num: top as i64 })
        &&& self.vertices@[5] == (Vertex { x_num: left as i64, y_num: top as i64 })
    }

    /// Builds the quad for the pixel rectangle `(x, y, w, h)` on a target
    /// of `width` by `height` pixels. A rectangle fully or partially
    /// outside the target produces out-of-range NDC coordinates, which the
    /// rasterizer clips; no bounds are required here.
    pub fn new(x: u32, y: u32, w: u32, h: u32, width: u32, height: u32) -> (r: Rectangle)
        ensures
            r.x == x,
            r.y == y,
            r.w == w,
            r.h == h,
            r.quad_for(width as int, height as int),
    {
        let left: i64 = 2 * (x as i64) - (width as i64);
        let right: i64 = 2 * ((x as i64) + (w as i64)) - (width as i64);
        let top: i64 = (height as i64) - 2 * (y as i64);
        let bottom: i64 = (height as i64) - 2 * ((y as i64) + (h as i64));
        let vertices: [Vertex; 6] = [
            Vertex { x_num: left, y_num: top },
            Vertex { x_num: left, y_num: bottom },
            Vertex { x_num: right, y_num: bottom },
            Vertex { x_num: right, y_num: bottom },
            Vertex { x_num: right, y_num: top },
            Vertex { x_num: left, y_num: top },
        ];
        Rectangle { x, y, w, h, vertices }
    }
}

/// The translation offset a paint pass binds as its uniform, held exactly:
/// the NDC x offset is `x_num / width`, the NDC y offset is
/// `y_num / height`, for the same target the quad was built for.
#[derive(Clone, Copy, PartialEq, Eq, Structural, Debug)]
pub struct NdcOffset {
    pub x_num: i64,
    pub y_num: i64,
}

/// Converts a pixel-space offset into the NDC offset uniform:
/// `2*ox / width` to the right and `2*oy / height` downwards — the y
/// numerator is negated because NDC grows upwards while pixel rows grow
/// downwards.
pub fn ndc_offset_from_pixels(ox: i32, oy: i32) -> (r: NdcOffset)
    ensures
        r.x_num == 2 * (ox as int),
        r.y_num == -2 * (oy as int),
{
    NdcOffset { x_num: 2 * (ox as i64), y_num: -(2 * (oy as i64)) }
}

/// Translating a vertex by the NDC offset of `(ox, oy)` lands exactly on
/// the vertex of the pixel position translated by `(ox, oy)`: the offset
/// uniform and pixel-space translation agree.
pub proof fn lemma_offset_is_pixel_translation(
    px: int,
    py: int,
    ox: int,
    oy: int,
    width: int,
    height: int,
)
    ensures
        ndc_x_num(px, width) + 2 * ox == ndc_x_num(px + ox, width),
        ndc_y_num(py, height) + (-2) * oy == ndc_y_num(py + oy, height),
{
}

/// For every pixel rectangle that lies within the target, the six quad
/// vertices lie within `[-1, 1] x [-1, 1]` NDC, and the inverse transform
/// reconstructs the four pixel corners exactly (round-trip law).
pub proof fn lemma_quad_in_ndc_and_round_trip(r: Rectangle, width: int, height: int)
    requires
        0 < width <= u32::MAX,
        0 < height <= u32::MAX,
        r.quad_for(width, height),
        r.x + r.w <= width,
        r.y + r.h <= height,
    ensures
        forall|i: int|
            0 <= i < 6 ==> in_ndc_range(#[trigger] r.vertices@[i].x_num as int, width),
        forall|i: int|
            0 <= i < 6 ==> in_ndc_range(#[trigger] r.vertices@[i].y_num as int, height),
        px_of_ndc(r.vertices@[0].x_num as int, width) == r.x,
        py_of_ndc(r.vertices@[0].y_num as int, height) == r.y,
        px_of_ndc(r.vertices@[1].x_num as int, width) == r.x,
        py_of_ndc(r.vertices@[1].y_num as int, height) == r.y + r.h,
        px_of_ndc(r.vertices@[2].x_num as int, width) == r.x + r.w,
        py_of_ndc(r.vertices@[2].y_num as int, height) == r.y + r.h,
        px_of_ndc(r.vertices@[4].x_num as int, width) == r.x + r.w,
        py_of_ndc(r.vertices@[4].y_num as int, height) == r.y,
{
}

} // verus!
