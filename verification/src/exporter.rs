//! The frame exporter: reading the persistent canvas buffer back into a
//! CPU-side pixel buffer.
//!
//! A texture-to-buffer copy must use a row stride aligned to a hardware
//! constraint, so the readback is `stride` texels wide with padding columns
//! on the right of every row. The exporter computes that stride, lays the
//! canvas out at it, and crops the padding back off, so the caller sees a
//! tight `width * height` RGBA buffer with no padding artifacts.

use vstd::arithmetic::div_mod::lemma_fundamental_div_mod;
use vstd::prelude::*;

use crate::canvas::Canvas;
use crate::canvas::Color;

verus! {

/// Channel `k` of a color, in the buffer's RGBA byte order.
pub open spec fn channel(c: Color, k: int) -> u8 {
    if k == 0 {
        c.r
    } else if k == 1 {
        c.g
    } else if k == 2 {
        c.b
    } else {
        c.a
    }
}

/// The flat RGBA bytes of a pixel buffer: four bytes per pixel, row-major.
pub open spec fn bytes_of(s: Seq<Color>) -> Seq<u8> {
    Seq::new(4 * s.len(), |i: int| channel(s[i / 4], i % 4))
}

/// The color stored at pixel `j` of a tight RGBA byte buffer.
pub open spec fn pixel_of_bytes(b: Seq<u8>, j: int) -> Color {
    Color { r: b[4 * j], g: b[4 * j + 1], b: b[4 * j + 2], a: b[4 * j + 3] }
}

/// Flat index of channel `k` of pixel `(x, y)` in an RGBA buffer whose rows
/// are `stride` texels wide.
pub open spec fn rgba_index(stride: int, x: int, y: int, k: int) -> int {
    4 * (y * stride + x) + k
}

/// Byte `j` of row `y` in a buffer whose rows are `stride` texels wide.
pub open spec fn row_byte_index(stride: int, y: int, j: int) -> int {
    4 * (y * stride) + j
}

/// Byte `j` of row `y` of the canvas laid out at a row stride of `width`
/// texels or more: canvas bytes first, zero padding after them.
pub open spec fn padded_byte(s: Seq<Color>, width: int, y: int, j: int) -> u8 {
    if j < 4 * width {
        channel(s[y * width + j / 4], j % 4)
    } else {
        0
    }
}

/// The smallest multiple of 256 that is at least `width`: the texel width
/// the texture-to-buffer copy pads each row to, so that the byte stride
/// meets the copy-alignment constraint.
pub fn get_necessary_buffer_width(width: u32) -> (r: u32)
    requires
        width <= u32::MAX - 255,
    ensures
        r % 256 == 0,
        width <= r,
        r < width + 256,
{
    let ghost r0 = (width as int) % 256;
    let ghost t = if r0 == 0 {
        width as int
    } else {
        width as int + 256 - r0
    };
    proof {
        if r0 != 0 {
            lemma_fundamental_div_mod(width as int, 256);
            assert(t == 256 * ((width as int) / 256 + 1));
            assert(t % 256 == 0) by (nonlinear_arith)
                requires
                    t == 256 * ((width as int) / 256 + 1),
            ;
        }
    }
    let mut necessary_width: u32 = width;
    while necessary_width % 256 != 0
        invariant
            width <= necessary_width,
            necessary_width <= t,
            t % 256 == 0,
            t < width + 256,
            width <= u32::MAX - 255,
        decreases t - necessary_width,
    {
        necessary_width = necessary_width + 1;
    }
    necessary_width
}

/// Crops a row-padded readback buffer back to the true canvas extents.
/// Rows of `data` are `padded_width` texels wide; the result keeps the
/// first `width` texels of each of the `height` rows and discards the
/// padding columns, which are never exposed to callers.
pub fn crop_padded(data: &Vec<u8>, padded_width: u32, width: u32, height: u32) -> (r: Vec<u8>)
    requires
        1 <= width <= padded_width,
        1 <= height,
        data@.len() == 4 * ((padded_width as int) * (height as int)),
    ensures
        r@.len() == 4 * ((width as int) * (height as int)),
        forall|x: int, y: int, k: int|
            0 <= x < width && 0 <= y < height && 0 <= k < 4 ==> r@[#[trigger] rgba_index(
                width as int,
                x,
                y,
                k,
            )] == data@[rgba_index(padded_width as int, x, y, k)],
{
    let ghost gw = width as int;
    let ghost gpw = padded_width as int;
    let ghost gh = height as int;
    let n: usize = data.len();
    proof {
        assert(4 * gw <= 4 * (gpw * gh)) by (nonlinear_arith)
            requires
                1 <= gw <= gpw,
                1 <= gh,
        ;
    }
    let w4: usize = 4 * (width as usize);
    let mut r: Vec<u8> = Vec::new();
    let mut y: usize = 0;
    while y < height as usize
        invariant
            gw == width as int,
            gpw == padded_width as int,
            gh == height as int,
            1 <= gw <= gpw,
            data@.len() == 4 * (gpw * gh),
            w4 == 4 * gw,
            y <= gh,
            n == data@.len(),
            r@.len() == 4 * ((y as int) * gw),
            forall|yp: int, j: int|
                0 <= yp < y && 0 <= j < 4 * gw ==> r@[#[trigger] row_byte_index(gw, yp, j)]
                    == data@[row_byte_index(gpw, yp, j)],
        decreases gh - y,
    {
        proof {
            assert(4 * gpw <= 4 * (gpw * gh)) by (nonlinear_arith)
                requires
                    1 <= gpw,
                    1 <= gh,
            ;
            assert(4 * ((y as int) * gpw) + 4 * gw <= 4 * (gpw * gh)) by (nonlinear_arith)
                requires
                    0 <= y as int && (y as int) < gh,
                    1 <= gw <= gpw,
            ;
            assert(4 * ((y as int) * gw) + 4 * gw <= 4 * (gpw * gh)) by (nonlinear_arith)
                requires
                    0 <= y as int && (y as int) < gh,
                    1 <= gw <= gpw,
            ;
            assert((y as int) * (4 * gpw) == 4 * ((y as int) * gpw)) by (nonlinear_arith);
        }
        let row_start: usize = y * (4 * (padded_width as usize));
        let mut j: usize = 0;
        while j < w4
            invariant
                gw == width as int,
                gpw == padded_width as int,
                gh == height as int,
                1 <= gw <= gpw,
                data@.len() == 4 * (gpw * gh),
                w4 == 4 * gw,
                y < gh,
                j <= w4,
                n == data@.len(),
                row_start == 4 * ((y as int) * gpw),
                4 * ((y as int) * gpw) + 4 * gw <= 4 * (gpw * gh),
                r@.len() == 4 * ((y as int) * gw) + j,
                forall|yp: int, jp: int|
                    0 <= yp < y && 0 <= jp < 4 * gw ==> r@[#[trigger] row_byte_index(gw, yp, jp)]
                        == data@[row_byte_index(gpw, yp, jp)],
                forall|jp: int|
                    0 <= jp < j ==> r@[#[trigger] row_byte_index(gw, y as int, jp)]
                        == data@[row_byte_index(gpw, y as int, jp)],
            decreases w4 - j,
        {
            let b = data[row_start + j];
            r.push(b);
            proof {
                assert forall|yp: int, jp: int|
                    0 <= yp < y && 0 <= jp < 4 * gw implies r@[#[trigger] row_byte_index(
                    gw,
                    yp,
                    jp,
                )] == data@[row_byte_index(gpw, yp, jp)] by {
                    assert(row_byte_index(gw, yp, jp) < 4 * ((y as int) * gw)) by (nonlinear_arith)
                        requires
                            0 <= yp < y as int,
                            0 <= jp < 4 * gw,
                            1 <= gw,
                    ;
                }
            }
            j = j + 1;
        }
        y = y + 1;
        proof {
            assert(4 * ((y as int) * gw) == 4 * (((y as int) - 1) * gw) + 4 * gw)
                by (nonlinear_arith);
            assert forall|yp: int, jp: int|
                0 <= yp < y && 0 <= jp < 4 * gw implies r@[#[trigger] row_byte_index(gw, yp, jp)]
                == data@[row_byte_index(gpw, yp, jp)] by {
                assert(row_byte_index(gw, yp, jp) < 4 * ((y as int) * gw)) by (nonlinear_arith)
                    requires
                        0 <= yp < y as int,
                        0 <= jp < 4 * gw,
                        1 <= gw,
                ;
            }
        }
    }
    proof {
        assert(4 * (gh * gw) == 4 * (gw * gh)) by (nonlinear_arith);
        assert forall|x: int, yq: int, k: int|
            0 <= x < gw && 0 <= yq < gh && 0 <= k < 4 implies r@[#[trigger] rgba_index(
            gw,
            x,
            yq,
            k,
        )] == data@[rgba_index(gpw, x, yq, k)] by {
            assert(rgba_index(gw, x, yq, k) == row_byte_index(gw, yq, 4 * x + k));
            assert(rgba_index(gpw, x, yq, k) == row_byte_index(gpw, yq, 4 * x + k));
        }
    }
    r
}

impl Canvas {
    /// The readback of the persistent canvas buffer. The canvas is laid out
    /// at the 256-aligned copy stride — canvas bytes first in every row,
    /// padding after them — and the padding columns are then cropped back
    /// off. The result is the tight RGBA byte buffer of the canvas, pixel
    /// `(x, y)` at bytes `4*(y*width + x)` onward, exactly `width * height`
    /// pixels.
    pub fn extract_framebuffer(&self) -> (r: Vec<u8>)
        requires
            self.wf(),
        ensures
            r@.len() == 4 * ((self.width as int) * (self.height as int)),
            r@ == bytes_of(self.data@),
    {
        let ghost gw = self.width as int;
        let ghost gh = self.height as int;
        let pw32: u32 = get_necessary_buffer_width(self.width);
        let pw: usize = pw32 as usize;
        let ghost gpw = pw as int;
        let w: usize = self.width as usize;
        let h: usize = self.height as usize;
        proof {
            assert(4 * (gpw * gh) <= 4 * ((gw + 256) * gh)) by (nonlinear_arith)
                requires
                    gpw < gw + 256,
                    1 <= gh,
                    0 <= gw,
            ;
            assert(4 * gpw <= 4 * (gpw * gh)) by (nonlinear_arith)
                requires
                    1 <= gpw,
                    1 <= gh,
            ;
            assert(gw * gh <= gpw * gh) by (nonlinear_arith)
                requires
                    gw <= gpw,
                    1 <= gh,
            ;
        }
        let pw4: usize = 4 * pw;
        let w4: usize = 4 * w;
        let mut padded: Vec<u8> = Vec::new();
        let mut y: usize = 0;
        while y < h
            invariant
                self.wf(),
                gw == self.width as int,
                gh == self.height as int,
                gpw == pw as int,
                w == self.width,
                h == self.height,
                1 <= gw <= gpw,
                gpw < gw + 256,
                4 * (gpw * gh) <= usize::MAX,
                gw * gh <= gpw * gh,
                pw4 == 4 * gpw,
                w4 == 4 * gw,
                y <= h,
                padded@.len() == 4 * ((y as int) * gpw),
                forall|yp: int, j: int|
                    0 <= yp < y && 0 <= j < 4 * gpw ==> padded@[#[trigger] row_byte_index(
                        gpw,
                        yp,
                        j,
                    )] == padded_byte(self.data@, gw, yp, j),
            decreases h - y,
        {
            proof {
                assert(4 * ((y as int) * gpw) + 4 * gpw <= 4 * (gpw * gh)) by (nonlinear_arith)
                    requires
                        0 <= y as int && (y as int) < gh,
                        1 <= gpw,
                ;
            }
            let mut j: usize = 0;
            while j < pw4
                invariant
                    self.wf(),
                    gw == self.width as int,
                    gh == self.height as int,
                    gpw == pw as int,
                    w == self.width,
                    h == self.height,
                    1 <= gw <= gpw,
                    4 * (gpw * gh) <= usize::MAX,
                    gw * gh <= gpw * gh,
                    pw4 == 4 * gpw,
                    w4 == 4 * gw,
                    y < h,
                    j <= pw4,
                    4 * ((y as int) * gpw) + 4 * gpw <= 4 * (gpw * gh),
                    padded@.len() == 4 * ((y as int) * gpw) + j,
                    forall|yp: int, jp: int|
                        0 <= yp < y && 0 <= jp < 4 * gpw ==> padded@[#[trigger] row_byte_index(
                            gpw,
                            yp,
                            jp,
                        )] == padded_byte(self.data@, gw, yp, jp),
                    forall|jp: int|
                        0 <= jp < j ==> padded@[#[trigger] row_byte_index(gpw, y as int, jp)]
                            == padded_byte(self.data@, gw, y as int, jp),
                decreases pw4 - j,
            {
                let b: u8;
                if j < w4 {
                    let x: usize = j / 4;
                    let k: usize = j % 4;
                    proof {
                        assert((y as int) * gw + (x as int) < gw * gh) by (nonlinear_arith)
                            requires
                                0 <= (x as int) && (x as int) < gw,
                                0 <= (y as int) && (y as int) < gh,
                        ;
                    }
                    let c = self.data[y * w + x];
                    b = if k == 0 {
                        c.r
                    } else if k == 1 {
                        c.g
                    } else if k == 2 {
                        c.b
                    } else {
                        c.a
                    };
                    proof {
                        assert(b == padded_byte(self.data@, gw, y as int, j as int));
                    }
                } else {
                    b = 0;
                    proof {
                        assert(b == padded_byte(self.data@, gw, y as int, j as int));
                    }
                }
                padded.push(b);
                proof {
                    assert forall|yp: int, jp: int|
                        0 <= yp < y && 0 <= jp < 4 * gpw implies padded@[#[trigger] row_byte_index(
                        gpw,
                        yp,
                        jp,
                    )] == padded_byte(self.data@, gw, yp, jp) by {
                        assert(row_byte_index(gpw, yp, jp) < 4 * ((y as int) * gpw))
                            by (nonlinear_arith)
                            requires
                                0 <= yp < y as int,
                                0 <= jp < 4 * gpw,
                                1 <= gpw,
                        ;
                    }
                }
                j = j + 1;
            }
            y = y + 1;
            proof {
                assert(4 * ((y as int) * gpw) == 4 * (((y as int) - 1) * gpw) + 4 * gpw)
                    by (nonlinear_arith);
            }
        }
        proof {
            assert(4 * (gh * gpw) == 4 * (gpw * gh)) by (nonlinear_arith);
        }
        let r = crop_padded(&padded, pw32, self.width, self.height);
        proof {
            assert(bytes_of(self.data@).len() == 4 * (gw * gh));
            assert forall|i: int| 0 <= i < r@.len() implies r@[i] == bytes_of(self.data@)[i] by {
                let k = i % 4;
                let p = i / 4;
                lemma_fundamental_div_mod(p, gw);
                let x = p % gw;
                let yy = p / gw;
                assert(0 <= x < gw) by (nonlinear_arith)
                    requires
                        1 <= gw,
                        0 <= p,
                        x == p % gw,
                ;
                assert(yy < gh) by (nonlinear_arith)
                    requires
                        p == gw * yy + x,
                        0 <= x,
                        p < gw * gh,
                        1 <= gw,
                        0 <= yy,
                ;
                assert(0 <= yy) by (nonlinear_arith)
                    requires
                        1 <= gw,
                        0 <= p,
                        yy == p / gw,
                ;
                assert(yy * gw == gw * yy) by (nonlinear_arith);
                assert(i == rgba_index(gw, x, yy, k));
                assert(rgba_index(gpw, x, yy, k) == row_byte_index(gpw, yy, 4 * x + k));
                assert(4 * x + k < 4 * gw);
                assert(r@[rgba_index(gw, x, yy, k)] == padded@[rgba_index(gpw, x, yy, k)]);
                assert(padded@[row_byte_index(gpw, yy, 4 * x + k)] == padded_byte(
                    self.data@,
                    gw,
                    yy,
                    4 * x + k,
                ));
            }
            assert(r@ =~= bytes_of(self.data@));
        }
        r
    }
}

/// Export faithfulness: the tight byte buffer decodes back to the canvas
/// pixels — the four bytes of pixel `j` are exactly the channels of the
/// canvas's pixel `j`, for every pixel.
pub proof fn lemma_export_faithful(s: Seq<Color>, j: int)
    requires
        0 <= j < s.len(),
    ensures
        pixel_of_bytes(bytes_of(s), j) == s[j],
{
    let b = bytes_of(s);
    assert(b[4 * j] == channel(s[(4 * j) / 4], (4 * j) % 4));
    assert(b[4 * j + 1] == channel(s[(4 * j + 1) / 4], (4 * j + 1) % 4));
    assert(b[4 * j + 2] == channel(s[(4 * j + 2) / 4], (4 * j + 2) % 4));
    assert(b[4 * j + 3] == channel(s[(4 * j + 3) / 4], (4 * j + 3) % 4));
}

/// Export correctness for a cleared canvas: the exported buffer of a canvas
/// cleared to color `c` holds exactly one four-byte group per pixel, each
/// decoding to `c` — the stride padding never leaks into the result.
pub proof fn lemma_export_of_cleared(s: Seq<Color>, c: Color)
    ensures
        crate::canvas::clear_spec(s, c).len() == s.len(),
        bytes_of(crate::canvas::clear_spec(s, c)).len() == 4 * s.len(),
        forall|j: int|
            0 <= j < s.len() ==> #[trigger] pixel_of_bytes(
                bytes_of(crate::canvas::clear_spec(s, c)),
                j,
            ) == c,
{
    let cleared = crate::canvas::clear_spec(s, c);
    assert forall|j: int|
        0 <= j < s.len() implies #[trigger] pixel_of_bytes(bytes_of(cleared), j) == c by {
        lemma_export_faithful(cleared, j);
    }
}

} // verus!
