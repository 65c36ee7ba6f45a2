//! The render state: the owner of the persistent canvas buffer and the
//! surface configuration, and the recording and submission of render
//! passes.
//!
//! A frame is recorded as a command list — clear passes and paint passes —
//! and submitted as a whole: submission applies the recorded passes to the
//! persistent canvas in order. The GPU device, queue and pipelines that
//! carry this out on a real texture belong to the collaborator driving
//! this state; what they compute is what these contracts state.

use vstd::prelude::*;

use crate::canvas::Canvas;
use crate::canvas::Color;
use crate::canvas::clear_spec;
use crate::canvas::paint_spec;
use crate::geometry::Rectangle;
use crate::surface::SurfaceConfiguration;
use crate::surface::SurfaceFormat;
use crate::surface::choose_surface_format;
use crate::surface::preferred_format;

verus! {

/// One recorded render pass against the canvas.
#[derive(Clone, Copy, PartialEq, Eq, Structural, Debug)]
pub enum CanvasOp {
    /// A pass with a clear/store load operation and no draws: every pixel
    /// takes the clear color.
    Clear(Color),
    /// A pass with a load/store operation drawing the quad of the pixel
    /// rectangle `(x, y, w, h)` translated by the offset uniform, which
    /// here is `(ox, oy)` in pixel space.
    PaintQuad { x: u32, y: u32, w: u32, h: u32, ox: i32, oy: i32 },
}

/// A command list under recording: the passes of one frame, in order.
pub struct RenderCommands {
    pub ops: Vec<CanvasOp>,
}

/// The canvas buffer after one recorded pass.
pub open spec fn apply_op(s: Seq<Color>, width: int, paint: Color, op: CanvasOp) -> Seq<Color> {
    match op {
        CanvasOp::Clear(c) => clear_spec(s, c),
        CanvasOp::PaintQuad { x, y, w, h, ox, oy } => paint_spec(
            s,
            width,
            x as int,
            y as int,
            w as int,
            h as int,
            ox as int,
            oy as int,
            paint,
        ),
    }
}

/// The canvas buffer after a command list is submitted: the recorded
/// passes applied in order.
pub open spec fn apply_ops(s: Seq<Color>, width: int, paint: Color, ops: Seq<CanvasOp>) -> Seq<
    Color,
>
    decreases ops.len(),
{
    if ops.len() == 0 {
        s
    } else {
        apply_ops(apply_op(s, width, paint, ops[0]), width, paint, ops.skip(1))
    }
}

proof fn lemma_apply_ops_snoc(s: Seq<Color>, width: int, paint: Color, ops: Seq<CanvasOp>, op: CanvasOp)
    ensures
        apply_ops(s, width, paint, ops.push(op)) == apply_op(
            apply_ops(s, width, paint, ops),
            width,
            paint,
            op,
        ),
    decreases ops.len(),
{
    if ops.len() == 0 {
        let s1 = apply_op(s, width, paint, op);
        assert(ops.push(op)[0] == op);
        assert(ops.push(op).skip(1) =~= Seq::<CanvasOp>::empty());
        assert(apply_ops(s1, width, paint, Seq::<CanvasOp>::empty()) == s1);
        assert(apply_ops(s, width, paint, ops) == s);
    } else {
        assert(ops.push(op)[0] == ops[0]);
        assert(ops.push(op).skip(1) =~= ops.skip(1).push(op));
        lemma_apply_ops_snoc(apply_op(s, width, paint, ops[0]), width, paint, ops.skip(1), op);
    }
}

/// The render state: the persistent canvas, the surface configuration,
/// and the fixed clear color its clear pass uses.
pub struct State {
    pub canvas: Canvas,
    pub config: SurfaceConfiguration,
    pub clear_color: Color,
}

impl State {
    pub open spec fn wf(self) -> bool {
        self.canvas.wf()
    }

    /// Sets up the render state at the fixed target resolution: the
    /// persistent canvas buffer at `width` by `height` with all pixels
    /// zeroed, and the surface configured at the same extents with the
    /// format negotiated from the advertised list.
    pub fn new(
        width: u32,
        height: u32,
        formats: &Vec<SurfaceFormat>,
        paint_color: Color,
        clear_color: Color,
    ) -> (r: State)
        requires
            1 <= width <= u32::MAX - 255,
            1 <= height,
            4 * ((width + 256) * (height as int)) <= usize::MAX,
            formats@.len() > 0,
        ensures
            r.wf(),
            r.canvas.width == width,
            r.canvas.height == height,
            r.canvas.paint_color == paint_color,
            forall|i: int|
                0 <= i < r.canvas.data@.len() ==> r.canvas.data@[i] == (Color {
                    r: 0,
                    g: 0,
                    b: 0,
                    a: 0,
                }),
            r.clear_color == clear_color,
            r.config.width == width,
            r.config.height == height,
            r.config.format == preferred_format(formats@),
    {
        let canvas = Canvas::new(width, height, paint_color);
        let format = choose_surface_format(formats);
        let config = SurfaceConfiguration { width, height, format };
        State { canvas, config, clear_color }
    }

    /// Opens a fresh command list for one frame.
    pub fn begin_render(&mut self) -> (r: RenderCommands)
        ensures
            *final(self) == *old(self),
            r.ops@ == Seq::<CanvasOp>::empty(),
    {
        RenderCommands { ops: Vec::new() }
    }

    /// Records a clear pass: clear/store load operation, no geometry —
    /// on submission every canvas pixel takes the clear color.
    pub fn clear_screen(&mut self, commands: &mut RenderCommands)
        ensures
            *final(self) == *old(self),
            final(commands).ops@ == old(commands).ops@.push(
                CanvasOp::Clear(old(self).clear_color),
            ),
    {
        let c = self.clear_color;
        commands.ops.push(CanvasOp::Clear(c));
    }

    /// Records a paint pass drawing the rectangle's six-vertex quad with
    /// the offset uniform set to `(ox, oy)` pixels.
    pub fn draw_buffer(&mut self, commands: &mut RenderCommands, rect: &Rectangle, ox: i32, oy: i32)
        ensures
            *final(self) == *old(self),
            final(commands).ops@ == old(commands).ops@.push(
                (CanvasOp::PaintQuad { x: rect.x, y: rect.y, w: rect.w, h: rect.h, ox, oy }),
            ),
    {
        commands.ops.push(CanvasOp::PaintQuad { x: rect.x, y: rect.y, w: rect.w, h: rect.h, ox, oy });
    }

    /// Submits a command list: the recorded passes are applied to the
    /// persistent canvas in order. Nothing else changes — the canvas
    /// accumulates until the next explicit clear.
    pub fn end_render(&mut self, commands: RenderCommands)
        requires
            old(self).wf(),
        ensures
            final(self).wf(),
            final(self).canvas.width == old(self).canvas.width,
            final(self).canvas.height == old(self).canvas.height,
            final(self).canvas.paint_color == old(self).canvas.paint_color,
            final(self).config == old(self).config,
            final(self).clear_color == old(self).clear_color,
            final(self).canvas.data@ == apply_ops(
                old(self).canvas.data@,
                old(self).canvas.width as int,
                old(self).canvas.paint_color,
                commands.ops@,
            ),
    {
        let ghost gw = self.canvas.width as int;
        let ghost paint = self.canvas.paint_color;
        let n: usize = commands.ops.len();
        let mut idx: usize = 0;
        proof {
            assert(commands.ops@.take(0) =~= Seq::<CanvasOp>::empty());
        }
        while idx < n
            invariant
                self.wf(),
                self.canvas.width == old(self).canvas.width,
                self.canvas.height == old(self).canvas.height,
                self.canvas.paint_color == old(self).canvas.paint_color,
                self.config == old(self).config,
                self.clear_color == old(self).clear_color,
                gw == old(self).canvas.width as int,
                paint == old(self).canvas.paint_color,
                idx <= n,
                n == commands.ops@.len(),
                self.canvas.data@ == apply_ops(
                    old(self).canvas.data@,
                    gw,
                    paint,
                    commands.ops@.take(idx as int),
                ),
            decreases n - idx,
        {
            let op = commands.ops[idx];
            match op {
                CanvasOp::Clear(c) => {
                    self.canvas.clear(c);
                },
                CanvasOp::PaintQuad { x, y, w, h, ox, oy } => {
                    self.canvas.paint_rect(x, y, w, h, ox, oy);
                },
            }
            proof {
                assert(commands.ops@.take(idx as int + 1) =~= commands.ops@.take(idx as int).push(
                    op,
                ));
                lemma_apply_ops_snoc(
                    old(self).canvas.data@,
                    gw,
                    paint,
                    commands.ops@.take(idx as int),
                    op,
                );
            }
            idx = idx + 1;
        }
        proof {
            assert(commands.ops@.take(n as int) =~= commands.ops@);
        }
    }

    /// The readback of the persistent canvas buffer as a tight RGBA byte
    /// buffer; see `Canvas::extract_framebuffer` for the stride-padded
    /// copy and crop it performs.
    pub fn extract_framebuffer(&self) -> (r: Vec<u8>)
        requires
            self.wf(),
        ensures
            r@.len() == 4 * ((self.canvas.width as int) * (self.canvas.height as int)),
            r@ == crate::exporter::bytes_of(self.canvas.data@),
    {
        self.canvas.extract_framebuffer()
    }

    /// Applies a window resize to the surface configuration; a zero-area
    /// size is ignored. The canvas is deliberately untouched: its logical
    /// resolution is fixed regardless of the window size.
    pub fn resize(&mut self, new_width: u32, new_height: u32)
        ensures
            final(self).canvas == old(self).canvas,
            final(self).clear_color == old(self).clear_color,
            (new_width == 0 || new_height == 0) ==> final(self).config == old(self).config,
            (new_width > 0 && new_height > 0) ==> final(self).config == (SurfaceConfiguration {
                width: new_width,
                height: new_height,
                format: old(self).config.format,
            }),
    {
        self.config.resize(new_width, new_height);
    }
}

impl Rectangle {
    /// Prepares the rectangle for drawing and registers the paint pass on
    /// the command list, with the offset uniform set from the pixel-space
    /// offset (see `geometry::ndc_offset_from_pixels`).
    pub fn draw_to(&self, render_state: &mut State, commands: &mut RenderCommands, ox: i32, oy: i32)
        ensures
            *final(render_state) == *old(render_state),
            final(commands).ops@ == old(commands).ops@.push(
                (CanvasOp::PaintQuad { x: self.x, y: self.y, w: self.w, h: self.h, ox, oy }),
            ),
    {
        render_state.draw_buffer(commands, self, ox, oy);
    }
}

} // verus!
