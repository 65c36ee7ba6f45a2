//! The persistent canvas buffer: an off-screen color buffer of fixed extents
//! that accumulates every painted quad until it is explicitly cleared.
//!
//! Painting is non-destructive compositing onto persistent state: a paint
//! pass loads the prior contents and overwrites exactly the pixels the
//! translated rectangle covers with the paint color; a clear pass replaces
//! every pixel with the clear color. The buffer is row-major RGBA with
//! 8-bit channels and is the single source of truth for what has been
//! drawn; the presentable surface is redrawn from it every frame.

use vstd::arithmetic::div_mod::lemma_fundamental_div_mod;
use vstd::arithmetic::div_mod::lemma_fundamental_div_mod_converse;
use vstd::prelude::*;

verus! {

/// An RGBA color with 8-bit channels, in the canvas buffer's byte order.
#[derive(Clone, Copy, PartialEq, Eq, Structural, Debug)]
pub struct Color {
    pub r: u8,
    pub g: u8,
    pub b: u8,
    pub a: u8,
}

/// Whether the canvas pixel `(px, py)` is covered by the rectangle
/// `(x, y, w, h)` translated by the offset `(ox, oy)`, both in pixel space
/// with the y axis growing downwards.
pub open spec fn covers(x: int, y: int, w: int, h: int, ox: int, oy: int, px: int, py: int) -> bool {
    &&& x + ox <= px < x + ox + w
    &&& y + oy <= py < y + oy + h
}

/// Whether flat index `i` of a row-major buffer that is `width` pixels wide
/// lies in the translated rectangle.
pub open spec fn covers_index(
    width: int,
    x: int,
    y: int,
    w: int,
    h: int,
    ox: int,
    oy: int,
    i: int,
) -> bool {
    covers(x, y, w, h, ox, oy, i % width, i / width)
}

/// The buffer after a clear: every pixel holds the clear color.
pub open spec fn clear_spec(s: Seq<Color>, c: Color) -> Seq<Color> {
    Seq::new(s.len(), |i: int| c)
}

/// The buffer after painting the translated rectangle with color `c`:
/// covered pixels take `c`, all others keep their prior color.
pub open spec fn paint_spec(
    s: Seq<Color>,
    width: int,
    x: int,
    y: int,
    w: int,
    h: int,
    ox: int,
    oy: int,
    c: Color,
) -> Seq<Color> {
    Seq::new(s.len(), |i: int| if covers_index(width, x, y, w, h, ox, oy, i) { c } else { s[i] })
}

/// The number of pixels of the buffer that hold color `c`: the covered-pixel
/// count an export makes visible.
pub open spec fn count_color(s: Seq<Color>, c: Color) -> int
    decreases s.len(),
{
    if s.len() == 0 {
        0
    } else {
        count_color(s.drop_last(), c) + if s.last() == c { 1int } else { 0int }
    }
}

/// The persistent canvas buffer, with the fixed paint color its paint
/// pipeline's fragment stage writes. Extents are fixed at creation: a
/// window resize never touches the canvas.
pub struct Canvas {
    pub width: u32,
    pub height: u32,
    pub paint_color: Color,
    pub data: Vec<Color>,
}

impl Canvas {
    /// The buffer holds exactly `width * height` pixels, the extents are
    /// positive, and even a row-padded readback of the buffer fits in
    /// memory.
    pub open spec fn wf(self) -> bool {
        &&& 1 <= self.width <= u32::MAX - 255
        &&& 1 <= self.height
        &&& self.data@.len() == self.width * self.height
        &&& 4 * ((self.width + 256) * self.height) <= usize::MAX
    }

    /// The color of the canvas pixel `(px, py)`.
    pub open spec fn pixel_at(self, px: int, py: int) -> Color {
        self.data@[py * self.width + px]
    }

    /// Creates the canvas with all pixels zeroed (fully transparent black);
    /// the caller clears it to the background color before first use.
    pub fn new(width: u32, height: u32, paint_color: Color) -> (r: Canvas)
        requires
            1 <= width <= u32::MAX - 255,
            1 <= height,
            4 * ((width + 256) * (height as int)) <= usize::MAX,
        ensures
            r.wf(),
            r.width == width,
            r.height == height,
            r.paint_color == paint_color,
            forall|i: int|
                0 <= i < r.data@.len() ==> r.data@[i] == (Color { r: 0, g: 0, b: 0, a: 0 }),
    {
        proof {
            assert((width * height) <= 4 * (((width + 256) as int) * height)) by (nonlinear_arith)
                requires
                    1 <= width,
                    1 <= height,
            ;
        }
        let n: usize = (width as usize) * (height as usize);
        let zero = Color { r: 0, g: 0, b: 0, a: 0 };
        let mut data: Vec<Color> = Vec::new();
        while data.len() < n
            invariant
                data@.len() <= n,
                forall|i: int| 0 <= i < data@.len() ==> data@[i] == zero,
            decreases n - data@.len(),
        {
            data.push(zero);
        }
        Canvas { width, height, paint_color, data }
    }

    /// Clear pass: begins with a clear/store load operation and issues no
    /// draws, leaving every pixel equal to the clear color.
    pub fn clear(&mut self, c: Color)
        requires
            old(self).wf(),
        ensures
            final(self).wf(),
            final(self).width == old(self).width,
            final(self).height == old(self).height,
            final(self).paint_color == old(self).paint_color,
            final(self).data@ == clear_spec(old(self).data@, c),
    {
        let n: usize = self.data.len();
        let mut data: Vec<Color> = Vec::new();
        while data.len() < n
            invariant
                data@.len() <= n,
                forall|i: int| 0 <= i < data@.len() ==> data@[i] == c,
            decreases n - data@.len(),
        {
            data.push(c);
        }
        self.data = data;
        proof {
            assert(self.data@ =~= clear_spec(old(self).data@, c));
        }
    }

    /// Paint pass: loads the prior contents and overwrites with the paint
    /// color exactly the pixels covered by the rectangle `(x, y, w, h)`
    /// translated by `(ox, oy)`; anything outside the canvas is clipped.
    pub fn paint_rect(&mut self, x: u32, y: u32, w: u32, h: u32, ox: i32, oy: i32)
        requires
            old(self).wf(),
        ensures
            final(self).wf(),
            final(self).width == old(self).width,
            final(self).height == old(self).height,
            final(self).paint_color == old(self).paint_color,
            final(self).data@ == paint_spec(
                old(self).data@,
                old(self).width as int,
                x as int,
                y as int,
                w as int,
                h as int,
                ox as int,
                oy as int,
                old(self).paint_color,
            ),
    {
        let width_i: i64 = self.width as i64;
        let height_i: i64 = self.height as i64;
        let rx0: i64 = x as i64 + ox as i64;
        let ry0: i64 = y as i64 + oy as i64;
        let rx1: i64 = rx0 + w as i64;
        let ry1: i64 = ry0 + h as i64;
        let x0: i64 = if rx0 < 0 { 0 } else { rx0 };
        let y0: i64 = if ry0 < 0 { 0 } else { ry0 };
        let x1: i64 = if rx1 > width_i { width_i } else { rx1 };
        let y1: i64 = if ry1 > height_i { height_i } else { ry1 };
        let ghost gw = self.width as int;
        let ghost gh = self.height as int;
        let ghost painted = paint_spec(
            self.data@,
            gw,
            x as int,
            y as int,
            w as int,
            h as int,
            ox as int,
            oy as int,
            self.paint_color,
        );
        if x0 < x1 && y0 < y1 {
            let c = self.paint_color;
            let x0u: usize = x0 as usize;
            let x1u: usize = x1 as usize;
            let y1u: usize = y1 as usize;
            let wdt: usize = self.width as usize;
            let mut py: usize = y0 as usize;
            while py < y1u
                invariant
                    old(self).wf(),
                    self.width == old(self).width,
                    self.height == old(self).height,
                    self.paint_color == old(self).paint_color,
                    self.data@.len() == old(self).data@.len(),
                    c == old(self).paint_color,
                    wdt == old(self).width,
                    gw == old(self).width as int,
                    gh == old(self).height as int,
                    x0u == if x + ox < 0 { 0int } else { x + ox },
                    x1u == if x + ox + w > gw { gw } else { x + ox + w },
                    y1u as int == if y + oy + h > gh { gh } else { y + oy + h },
                    x0u < x1u <= old(self).width,
                    (if y + oy < 0 { 0int } else { y + oy }) <= py as int,
                    py <= y1u <= old(self).height,
                    painted == paint_spec(
                        old(self).data@,
                        gw,
                        x as int,
                        y as int,
                        w as int,
                        h as int,
                        ox as int,
                        oy as int,
                        old(self).paint_color,
                    ),
                    forall|i: int|
                        0 <= i < self.data@.len() ==> self.data@[i] == (if covers_index(
                            gw,
                            x as int,
                            y as int,
                            w as int,
                            h as int,
                            ox as int,
                            oy as int,
                            i,
                        ) && i / gw < py as int {
                            old(self).paint_color
                        } else {
                            old(self).data@[i]
                        }),
                decreases y1u - py,
            {
                let mut px: usize = x0u;
                while px < x1u
                    invariant
                        old(self).wf(),
                        self.width == old(self).width,
                        self.height == old(self).height,
                        self.paint_color == old(self).paint_color,
                        self.data@.len() == old(self).data@.len(),
                        c == old(self).paint_color,
                        wdt == old(self).width,
                        gw == old(self).width as int,
                        gh == old(self).height as int,
                        x0u == if x + ox < 0 { 0int } else { x + ox },
                        x1u == if x + ox + w > gw { gw } else { x + ox + w },
                        y1u as int == if y + oy + h > gh { gh } else { y + oy + h },
                        x0u <= px <= x1u <= old(self).width,
                        (if y + oy < 0 { 0int } else { y + oy }) <= py as int,
                        py < y1u <= old(self).height,
                        forall|i: int|
                            0 <= i < self.data@.len() ==> self.data@[i] == (if covers_index(
                                gw,
                                x as int,
                                y as int,
                                w as int,
                                h as int,
                                ox as int,
                                oy as int,
                                i,
                            ) && (i / gw < py as int || (i / gw == py as int && i % gw
                                < px as int)) {
                                old(self).paint_color
                            } else {
                                old(self).data@[i]
                            }),
                    decreases x1u - px,
                {
                    proof {
                        assert((py as int) * gw + (px as int) < gh * gw) by (nonlinear_arith)
                            requires
                                0 <= (px as int) && (px as int) < gw,
                                0 <= (py as int) && (py as int) < gh,
                        ;
                        assert(gh * gw == gw * gh) by (nonlinear_arith);
                        assert(self.data@.len() == gw * gh);
                        assert(gw * gh <= 4 * ((gw + 256) * gh)) by (nonlinear_arith)
                            requires
                                0 < gw,
                                0 < gh,
                        ;
                        lemma_fundamental_div_mod_converse(
                            (py as int) * gw + (px as int),
                            gw,
                            py as int,
                            px as int,
                        );
                    }
                    let i: usize = py * wdt + px;
                    self.data[i] = c;
                    proof {
                        assert forall|j: int| 0 <= j < self.data@.len() implies #[trigger] self.data@[j]
                            == (if covers_index(
                                gw,
                                x as int,
                                y as int,
                                w as int,
                                h as int,
                                ox as int,
                                oy as int,
                                j,
                            ) && (j / gw < py as int || (j / gw == py as int && j % gw < px as int
                                + 1)) {
                                old(self).paint_color
                            } else {
                                old(self).data@[j]
                            }) by {
                            if j != i as int && j / gw == py as int && j % gw == px as int {
                                lemma_fundamental_div_mod(j, gw);
                                assert(gw * (py as int) == (py as int) * gw) by (nonlinear_arith);
                                assert(j == i as int);
                            }
                        }
                    }
                    px = px + 1;
                }
                py = py + 1;
            }
            proof {
                assert forall|i: int| 0 <= i < self.data@.len() implies self.data@[i]
                    == painted[i] by {
                    if covers_index(gw, x as int, y as int, w as int, h as int, ox as int, oy as int, i) {
                        assert(self.data@.len() == gw * gh);
                        assert(0 <= i % gw < gw) by (nonlinear_arith)
                            requires 0 < gw, 0 <= i,
                        ;
                        assert(i / gw < gh) by (nonlinear_arith)
                            requires
                                0 < gw,
                                0 < gh,
                                0 <= i,
                                i < gw * gh,
                        ;
                        assert(i / gw < y1u as int);
                    }
                }
                assert(self.data@ =~= painted);
            }
        } else {
            proof {
                assert forall|i: int| 0 <= i < self.data@.len() implies self.data@[i]
                    == painted[i] by {
                    if covers_index(gw, x as int, y as int, w as int, h as int, ox as int, oy as int, i) {
                        assert(self.data@.len() == gw * gh);
                        assert(0 <= i % gw < gw) by (nonlinear_arith)
                            requires 0 < gw, 0 <= i,
                        ;
                        assert(i / gw < gh) by (nonlinear_arith)
                            requires
                                0 < gw,
                                0 < gh,
                                0 <= i,
                                i < gw * gh,
                        ;
                    }
                }
                assert(self.data@ =~= painted);
            }
        }
    }
}

/// Clearing is idempotent: clearing an already-cleared buffer changes
/// nothing, and after two clears in succession every pixel still equals the
/// clear color — painting never leaks through sequential clears.
pub proof fn lemma_clear_idempotent(s: Seq<Color>, c: Color)
    ensures
        clear_spec(clear_spec(s, c), c) == clear_spec(s, c),
        forall|i: int| 0 <= i < s.len() ==> clear_spec(clear_spec(s, c), c)[i] == c,
{
    assert(clear_spec(clear_spec(s, c), c) =~= clear_spec(s, c));
}

proof fn lemma_count_color_pointwise_le(s1: Seq<Color>, s2: Seq<Color>, c: Color)
    requires
        s1.len() == s2.len(),
        forall|i: int| 0 <= i < s1.len() ==> (s1[i] == c ==> s2[i] == c),
    ensures
        count_color(s1, c) <= count_color(s2, c),
    decreases s1.len(),
{
    if s1.len() > 0 {
        lemma_count_color_pointwise_le(s1.drop_last(), s2.drop_last(), c);
    }
}

proof fn lemma_count_color_pointwise_lt(s1: Seq<Color>, s2: Seq<Color>, c: Color, j: int)
    requires
        s1.len() == s2.len(),
        forall|i: int| 0 <= i < s1.len() ==> (s1[i] == c ==> s2[i] == c),
        0 <= j < s1.len(),
        s1[j] != c,
        s2[j] == c,
    ensures
        count_color(s1, c) < count_color(s2, c),
    decreases s1.len(),
{
    if j == s1.len() - 1 {
        lemma_count_color_pointwise_le(s1.drop_last(), s2.drop_last(), c);
    } else {
        lemma_count_color_pointwise_lt(s1.drop_last(), s2.drop_last(), c, j);
    }
}

/// Painting never erases: every pixel that already holds the paint color
/// keeps it, so the covered-pixel count never decreases under a paint pass.
pub proof fn lemma_paint_count_monotone(
    s: Seq<Color>,
    width: int,
    x: int,
    y: int,
    w: int,
    h: int,
    ox: int,
    oy: int,
    c: Color,
)
    ensures
        count_color(s, c) <= count_color(paint_spec(s, width, x, y, w, h, ox, oy, c), c),
{
    lemma_count_color_pointwise_le(s, paint_spec(s, width, x, y, w, h, ox, oy, c), c);
}

/// Painting a translated rectangle that covers at least one canvas pixel
/// not already holding the paint color strictly increases the
/// covered-pixel count: re-exporting after each such paint shows strictly
/// more painted pixels. `(px, py)` names such a pixel.
pub proof fn lemma_paint_count_strict(
    s: Seq<Color>,
    width: int,
    x: int,
    y: int,
    w: int,
    h: int,
    ox: int,
    oy: int,
    c: Color,
    px: int,
    py: int,
)
    requires
        0 < width,
        0 <= px < width,
        0 <= py,
        py * width + px < s.len(),
        covers(x, y, w, h, ox, oy, px, py),
        s[py * width + px] != c,
    ensures
        count_color(s, c) < count_color(paint_spec(s, width, x, y, w, h, ox, oy, c), c),
{
    let i = py * width + px;
    lemma_fundamental_div_mod_converse(i, width, py, px);
    assert(covers_index(width, x, y, w, h, ox, oy, i));
    lemma_count_color_pointwise_lt(s, paint_spec(s, width, x, y, w, h, ox, oy, c), c, i);
}

/// Accumulation: painting rectangle A and then rectangle B preserves both —
/// every pixel of A and every pixel of B holds the paint color afterwards,
/// and pixels covered by neither keep their prior color. With the single
/// fixed paint color this holds whether or not the rectangles overlap;
/// non-overlap matters only to the strict growth of the covered-pixel
/// count, which `lemma_paint_count_strict` states.
pub proof fn lemma_paint_accumulates(
    s: Seq<Color>,
    width: int,
    ax: int,
    ay: int,
    aw: int,
    ah: int,
    a_ox: int,
    a_oy: int,
    bx: int,
    by: int,
    bw: int,
    bh: int,
    b_ox: int,
    b_oy: int,
    c: Color,
)
    ensures
        forall|i: int|
            0 <= i < s.len() && #[trigger] covers_index(width, ax, ay, aw, ah, a_ox, a_oy, i)
                ==> paint_spec(
                paint_spec(s, width, ax, ay, aw, ah, a_ox, a_oy, c),
                width,
                bx,
                by,
                bw,
                bh,
                b_ox,
                b_oy,
                c,
            )[i] == c,
        forall|i: int|
            0 <= i < s.len() && #[trigger] covers_index(width, bx, by, bw, bh, b_ox, b_oy, i)
                ==> paint_spec(
                paint_spec(s, width, ax, ay, aw, ah, a_ox, a_oy, c),
                width,
                bx,
                by,
                bw,
                bh,
                b_ox,
                b_oy,
                c,
            )[i] == c,
        forall|i: int|
            0 <= i < s.len() && !covers_index(width, ax, ay, aw, ah, a_ox, a_oy, i)
                && !covers_index(width, bx, by, bw, bh, b_ox, b_oy, i) ==> #[trigger] paint_spec(
                paint_spec(s, width, ax, ay, aw, ah, a_ox, a_oy, c),
                width,
                bx,
                by,
                bw,
                bh,
                b_ox,
                b_oy,
                c,
            )[i] == s[i],
{
}

} // verus!
