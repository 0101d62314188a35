//! The frame controller: accepts draw calls, batches them by kind, flushes
//! batches into single GPU draw submissions, and owns the per-frame
//! lifecycle (clear, draw, flush, present, input reset).
//!
//! The engine is a pure command encoder.  Everything it wants from the GPU
//! is appended to [`Engine::commands`]; an unverified driver drains the queue
//! with [`Engine::take_commands`] and executes it.  Within one open batch,
//! draw order is preserved as buffer order, so overlapping translucent
//! shapes composite in submission order.

use vstd::prelude::*;

use crate::batch::{flush_on, is_draw, CmdView, DrawKind, FillVertex, GpuCommand, TexVertex,
    TextRun, TextRunView, TextVertex};
use crate::geom::{clip_x, clip_x_frac, clip_y, clip_y_frac, rect_corners, rotation_wf, sub_x,
    sub_y, Frac, Rotation, FP_ONE};
use crate::input::{after_event, frame_reset, initial_input, InputEvent, InputState};
use crate::text::{TextCache, TextEntry};
use crate::types::{point_in_bounds, rect_in_bounds, Color, Point, Rect, COORD_LIMIT};
use vstd::string::{StringExecFns, StringSliceAdditionalSpecFns};

verus! {

broadcast use vstd::std_specs::hash::group_hash_axioms;

/// Upper bound on the engine's font metrics (subpixel units).
pub const FONT_METRIC_LIMIT: i64 = 4294967296;

/// Per-kind vertex accumulators plus the currently open kind.
pub struct BatchState {
    /// The kind the next flush will submit, or `Any` if no batch is open.
    pub open_kind: DrawKind,
    /// Vertices of the open filled-triangle batch.
    pub fill: Vec<FillVertex>,
    /// Vertex count of the previous filled-triangle submission, used to
    /// choose between in-place buffer update and reallocation.
    pub last_fill_len: usize,
    /// Vertices of the open textured-quad batch.
    pub textured: Vec<TexVertex>,
    /// Runs of the open text batch.
    pub text_runs: Vec<TextRun>,
}

/// Mathematical model of a [`BatchState`].
#[verifier::ext_equal]
pub struct BatchView {
    pub open_kind: DrawKind,
    pub fill: Seq<FillVertex>,
    pub last_fill_len: nat,
    pub textured: Seq<TexVertex>,
    pub text_runs: Seq<TextRunView>,
}

impl View for BatchState {
    type V = BatchView;

    open spec fn view(&self) -> BatchView {
        BatchView {
            open_kind: self.open_kind,
            fill: self.fill@,
            last_fill_len: self.last_fill_len as nat,
            textured: self.textured@,
            text_runs: self.text_runs.deep_view(),
        }
    }
}

/// Only the open kind's accumulator holds data, and an open batch is never
/// empty: a kind becomes open only when a draw call appends to it, and every
/// switch flushes first.
pub open spec fn batch_wf(b: BatchView) -> bool {
    match b.open_kind {
        DrawKind::Any => b.fill.len() == 0 && b.textured.len() == 0 && b.text_runs.len() == 0,
        DrawKind::Fill => b.fill.len() > 0 && b.textured.len() == 0 && b.text_runs.len() == 0,
        DrawKind::Textured(_) => b.textured.len() > 0 && b.fill.len() == 0 && b.text_runs.len()
            == 0,
        DrawKind::Text => b.text_runs.len() > 0 && b.fill.len() == 0 && b.textured.len() == 0,
    }
}

/// The batch state a fresh engine starts in.
pub open spec fn empty_batch() -> BatchView {
    BatchView {
        open_kind: DrawKind::Any,
        fill: Seq::empty(),
        last_fill_len: 0,
        textured: Seq::empty(),
        text_runs: Seq::empty(),
    }
}

/// The commands one flush of batch `b` submits: nothing if no batch is open,
/// otherwise exactly one draw submission covering the open accumulator.  A
/// filled-triangle submission asks for an in-place buffer update when its
/// vertex count equals the previous filled-triangle submission's count.
pub open spec fn flush_emits(b: BatchView) -> Seq<CmdView> {
    match b.open_kind {
        DrawKind::Any => Seq::empty(),
        DrawKind::Fill => seq![
            (CmdView::DrawFill {
                vertices: b.fill,
                reuse_buffer: b.fill.len() == b.last_fill_len,
            }),
        ],
        DrawKind::Textured(t) => seq![(CmdView::DrawTextured { texture: t, vertices: b.textured })],
        DrawKind::Text => seq![(CmdView::DrawText { runs: b.text_runs })],
    }
}

/// The batch state after a flush: everything drained, no kind open, and the
/// filled-triangle count recorded if that is what was flushed.
pub open spec fn after_flush(b: BatchView) -> BatchView {
    BatchView {
        open_kind: DrawKind::Any,
        fill: Seq::empty(),
        last_fill_len: if b.open_kind == DrawKind::Fill {
            b.fill.len()
        } else {
            b.last_fill_len
        },
        textured: Seq::empty(),
        text_runs: Seq::empty(),
    }
}

/// What opening a batch of kind `target` does: the commands it submits and
/// the batch state it leaves.  A batch of a different kind is flushed first;
/// `target` then becomes the open kind.
pub open spec fn process_result(b: BatchView, target: DrawKind) -> (Seq<CmdView>, BatchView) {
    if b.open_kind == target || b.open_kind == DrawKind::Any {
        (Seq::empty(), BatchView { open_kind: target, ..b })
    } else {
        (flush_emits(b), BatchView { open_kind: target, ..after_flush(b) })
    }
}

/// One corner of a filled quad: the rectangle corner at offset `(ox, oy)`,
/// transformed and mapped to clip space on a `vw` by `vh` viewport.
pub open spec fn fill_vertex(
    rect: Rect,
    origin: Point,
    rot: Rotation,
    ox: int,
    oy: int,
    vw: int,
    vh: int,
    color: Color,
) -> FillVertex {
    FillVertex {
        x: clip_x_frac(sub_x(rect, origin, rot, ox, oy), vw),
        y: clip_y_frac(sub_y(rect, origin, rot, ox, oy), vh),
        color,
    }
}

/// The six vertices (two triangles) of one filled rectangle, in the order
/// they enter the batch.
pub open spec fn fill_quad(
    rect: Rect,
    origin: Point,
    rot: Rotation,
    vw: int,
    vh: int,
    color: Color,
) -> Seq<FillVertex> {
    let w = rect.width as int;
    let h = rect.height as int;
    seq![
        fill_vertex(rect, origin, rot, 0, 0, vw, vh, color),
        fill_vertex(rect, origin, rot, w, 0, vw, vh, color),
        fill_vertex(rect, origin, rot, w, h, vw, vh, color),
        fill_vertex(rect, origin, rot, 0, 0, vw, vh, color),
        fill_vertex(rect, origin, rot, w, h, vw, vh, color),
        fill_vertex(rect, origin, rot, 0, h, vw, vh, color),
    ]
}

/// What one filled-rectangle draw call does to a batch on a `vw` by `vh`
/// viewport: the commands it submits (a flush of a differently-kinded open
/// batch, or nothing) and the batch it leaves, with the rectangle's six
/// vertices appended at the end of the filled-triangle accumulator.
pub open spec fn spec_draw_fill(
    b: BatchView,
    rect: Rect,
    origin: Point,
    rot: Rotation,
    vw: int,
    vh: int,
    color: Color,
) -> (Seq<CmdView>, BatchView) {
    let (emitted, b1) = process_result(b, DrawKind::Fill);
    (emitted, BatchView { fill: b1.fill + fill_quad(rect, origin, rot, vw, vh, color), ..b1 })
}

/// A GPU-resident image: its pixel dimensions, the raw RGBA bytes it was
/// created from, and the handle the driver assigned when it uploaded them.
pub struct Texture {
    /// Width in pixels.
    pub width: i64,
    /// Height in pixels.
    pub height: i64,
    /// The RGBA pixel data, four bytes per pixel, row-major.
    pub data: Vec<u8>,
    /// The GPU handle of the uploaded image.
    pub texture_id: u32,
}

/// A texture usable as a quad source: positive, bounded dimensions.
pub open spec fn texture_wf(t: Texture) -> bool {
    &&& 0 < t.width <= COORD_LIMIT
    &&& 0 < t.height <= COORD_LIMIT
}

impl Texture {
    /// Record an image of the given size whose pixels the driver has
    /// uploaded under `texture_id`.
    pub fn new(width: usize, height: usize, data: Vec<u8>, texture_id: u32) -> (t: Texture)
        requires
            0 < width as int <= COORD_LIMIT as int,
            0 < height as int <= COORD_LIMIT as int,
        ensures
            t.width == width as int,
            t.height == height as int,
            t.data@ == data@,
            t.texture_id == texture_id,
            texture_wf(t),
    {
        Texture { width: width as i64, height: height as i64, data, texture_id }
    }
}

/// One corner of a textured quad: the destination-rectangle corner at offset
/// `(ox, oy)`, transformed and mapped to clip space, with the given texture
/// coordinate.
pub open spec fn tex_vertex(
    dest: Rect,
    origin: Point,
    rot: Rotation,
    ox: int,
    oy: int,
    vw: int,
    vh: int,
    u: Frac,
    v: Frac,
) -> TexVertex {
    TexVertex {
        x: clip_x_frac(sub_x(dest, origin, rot, ox, oy), vw),
        y: clip_y_frac(sub_y(dest, origin, rot, ox, oy), vh),
        u,
        v,
    }
}

/// The six vertices of one textured quad, in the order they enter the batch.
/// Texture coordinates are the source sub-rectangle divided by the texture
/// dimensions, exactly, with v pointing down the source image.
pub open spec fn tex_quad(
    src: Rect,
    tex_w: int,
    tex_h: int,
    dest: Rect,
    origin: Point,
    rot: Rotation,
    vw: int,
    vh: int,
) -> Seq<TexVertex> {
    let w = dest.width as int;
    let h = dest.height as int;
    let u0 = Frac { num: src.x, den: tex_w as i64 };
    let u1 = Frac { num: (src.x + src.width) as i64, den: tex_w as i64 };
    let v0 = Frac { num: (src.y + src.height) as i64, den: tex_h as i64 };
    let v1 = Frac { num: src.y, den: tex_h as i64 };
    seq![
        tex_vertex(dest, origin, rot, 0, 0, vw, vh, u0, v1),
        tex_vertex(dest, origin, rot, w, 0, vw, vh, u1, v1),
        tex_vertex(dest, origin, rot, w, h, vw, vh, u1, v0),
        tex_vertex(dest, origin, rot, 0, 0, vw, vh, u0, v1),
        tex_vertex(dest, origin, rot, w, h, vw, vh, u1, v0),
        tex_vertex(dest, origin, rot, 0, h, vw, vh, u0, v0),
    ]
}

/// What one textured-quad draw call does to a batch: flush unless a batch of
/// exactly this kind — same texture included — is open, then append the six
/// quad vertices.
pub open spec fn spec_draw_textured(
    b: BatchView,
    texture: u32,
    src: Rect,
    tex_w: int,
    tex_h: int,
    dest: Rect,
    origin: Point,
    rot: Rotation,
    vw: int,
    vh: int,
) -> (Seq<CmdView>, BatchView) {
    let (emitted, b1) = process_result(b, DrawKind::Textured(texture));
    (
        emitted,
        BatchView { textured: b1.textured + tex_quad(src, tex_w, tex_h, dest, origin, rot, vw, vh), ..b1 },
    )
}

/// One corner of a text quad at pixel position `(px, py)`, with the unit
/// texture coordinate `(u, v)` into the string's glyph texture.
pub open spec fn text_vertex(
    px: int,
    py: int,
    vw: int,
    vh: int,
    u: int,
    v: int,
    color: Color,
) -> TextVertex {
    TextVertex {
        x: clip_x_frac(px * FP_ONE, vw),
        y: clip_y_frac(py * FP_ONE, vh),
        u: Frac { num: u as i64, den: 1 },
        v: Frac { num: v as i64, den: 1 },
        color,
    }
}

/// The six vertices of one string's quad: the glyph texture stretched over
/// the `w` by `h` pixel rectangle at `(x, y)`, in the order they enter the
/// batch.
pub open spec fn text_quad(
    x: int,
    y: int,
    w: int,
    h: int,
    vw: int,
    vh: int,
    color: Color,
) -> Seq<TextVertex> {
    seq![
        text_vertex(x, y + h, vw, vh, 0, 1, color),
        text_vertex(x + w, y + h, vw, vh, 1, 1, color),
        text_vertex(x + w, y, vw, vh, 1, 0, color),
        text_vertex(x, y + h, vw, vh, 0, 1, color),
        text_vertex(x + w, y, vw, vh, 1, 0, color),
        text_vertex(x, y, vw, vh, 0, 0, color),
    ]
}

/// What one text draw call does to a batch when the string's glyph texture
/// `e` is cached: nothing at all if the texture is degenerate (an empty
/// string rasterizes to zero size and the draw is skipped); otherwise flush
/// unless a text batch is open, then append one run.
pub open spec fn spec_draw_text(
    b: BatchView,
    e: TextEntry,
    x: int,
    y: int,
    vw: int,
    vh: int,
    color: Color,
) -> (Seq<CmdView>, BatchView) {
    if e.width == 0 || e.height == 0 {
        (Seq::empty(), b)
    } else {
        let (emitted, b1) = process_result(b, DrawKind::Text);
        (
            emitted,
            BatchView {
                text_runs: b1.text_runs.push(
                    TextRunView {
                        texture: e.texture,
                        vertices: text_quad(x, y, e.width as int, e.height as int, vw, vh, color),
                    },
                ),
                ..b1
            },
        )
    }
}

/// The batched 2D rendering engine: viewport, batch accumulators, the GPU
/// command queue, the glyph-texture cache and the per-frame input snapshot.
pub struct Engine {
    /// Viewport width in pixels.
    pub viewport_width: u32,
    /// Viewport height in pixels.
    pub viewport_height: u32,
    /// Whether a resize happened since the last frame boundary.
    pub window_size_changed: bool,
    /// The batch accumulators.
    pub batch: BatchState,
    /// The pending GPU command queue, drained by the driver.
    pub commands: Vec<GpuCommand>,
    /// The glyph-texture cache.
    pub text_cache: TextCache,
    /// The per-frame input snapshot.
    pub input: InputState,
    /// Subpixel advance width of a reference glyph at the engine's font
    /// size, used for quick text measurement.
    pub char_width: i64,
    /// Font size in subpixel units.
    pub font_size: i64,
    /// Whether the application asked to quit.
    pub quit_requested: bool,
    /// Whether the UI overlay should run at the end of this frame.
    pub ui_requested: bool,
}

/// Everything outside the batch accumulators and the command queue is the
/// same in `pre` and `post`.
pub open spec fn core_unchanged(pre: &Engine, post: &Engine) -> bool {
    &&& post.viewport_width == pre.viewport_width
    &&& post.viewport_height == pre.viewport_height
    &&& post.window_size_changed == pre.window_size_changed
    &&& post.text_cache == pre.text_cache
    &&& post.input == pre.input
    &&& post.char_width == pre.char_width
    &&& post.font_size == pre.font_size
    &&& post.quit_requested == pre.quit_requested
    &&& post.ui_requested == pre.ui_requested
}

impl Engine {
    /// The queued GPU commands, as their mathematical model.
    pub open spec fn cmds(&self) -> Seq<CmdView> {
        self.commands.deep_view()
    }

    /// The engine's invariant: a positive, bounded viewport, a well-formed
    /// batch, a well-formed cache and bounded font metrics.
    pub open spec fn wf(&self) -> bool {
        &&& 0 < self.viewport_width as int <= COORD_LIMIT as int
        &&& 0 < self.viewport_height as int <= COORD_LIMIT as int
        &&& batch_wf(self.batch@)
        &&& self.text_cache.wf()
        &&& 0 <= self.char_width <= FONT_METRIC_LIMIT
        &&& 0 < self.font_size <= FONT_METRIC_LIMIT
    }

    /// A fresh engine: 800 by 600 viewport, empty queue, empty cache, no
    /// open batch, initial input snapshot.
    pub fn new(font_size: i64, char_width: i64) -> (e: Engine)
        requires
            0 < font_size <= FONT_METRIC_LIMIT,
            0 <= char_width <= FONT_METRIC_LIMIT,
        ensures
            e.wf(),
            e.viewport_width == 800,
            e.viewport_height == 600,
            !e.window_size_changed,
            e.batch@ == empty_batch(),
            e.cmds() == Seq::<CmdView>::empty(),
            e.text_cache@ == Map::<Seq<char>, TextEntry>::empty(),
            e.input@ == initial_input(),
            e.char_width == char_width,
            e.font_size == font_size,
            !e.quit_requested,
            !e.ui_requested,
    {
        let e = Engine {
            viewport_width: 800,
            viewport_height: 600,
            window_size_changed: false,
            batch: BatchState {
                open_kind: DrawKind::Any,
                fill: Vec::new(),
                last_fill_len: 0,
                textured: Vec::new(),
                text_runs: Vec::new(),
            },
            commands: Vec::new(),
            text_cache: TextCache::new(),
            input: InputState::new(),
            char_width,
            font_size,
            quit_requested: false,
            ui_requested: false,
        };
        proof {
            assert(e.batch@ =~= empty_batch());
            assert(e.cmds() =~= Seq::<CmdView>::empty());
        }
        e
    }

    /// Hand the queued commands to the driver, leaving the queue empty.
    pub fn take_commands(&mut self) -> (cmds: Vec<GpuCommand>)
        ensures
            cmds.deep_view() == old(self).cmds(),
            final(self).cmds() == Seq::<CmdView>::empty(),
            final(self).batch@ == old(self).batch@,
            core_unchanged(old(self), final(self)),
            final(self).wf() == old(self).wf(),
    {
        let mut cmds: Vec<GpuCommand> = Vec::new();
        core::mem::swap(&mut cmds, &mut self.commands);
        proof {
            assert(self.cmds() =~= Seq::<CmdView>::empty());
        }
        cmds
    }

    /// Queue a clear of the color and depth buffers.
    pub fn clear(&mut self, color: Color)
        requires
            old(self).wf(),
        ensures
            final(self).wf(),
            core_unchanged(old(self), final(self)),
            final(self).batch@ == old(self).batch@,
            final(self).cmds() == old(self).cmds().push(CmdView::Clear { color }),
    {
        self.commands.push(GpuCommand::Clear { color });
        proof {
            assert(self.cmds() =~= old(self).cmds().push(CmdView::Clear { color }));
        }
    }

    /// Flush the open batch, if any, into exactly one draw submission, and
    /// leave no batch open.
    pub fn flush(&mut self)
        requires
            old(self).wf(),
        ensures
            final(self).wf(),
            core_unchanged(old(self), final(self)),
            final(self).batch@ == after_flush(old(self).batch@),
            final(self).cmds() == old(self).cmds() + flush_emits(old(self).batch@),
    {
        match self.batch.open_kind {
            DrawKind::Any => {},
            DrawKind::Fill => {
                let mut vertices: Vec<FillVertex> = Vec::new();
                core::mem::swap(&mut vertices, &mut self.batch.fill);
                let reuse_buffer = vertices.len() == self.batch.last_fill_len;
                self.batch.last_fill_len = vertices.len();
                self.commands.push(GpuCommand::DrawFill { vertices, reuse_buffer });
                self.batch.open_kind = DrawKind::Any;
            },
            DrawKind::Textured(texture) => {
                let mut vertices: Vec<TexVertex> = Vec::new();
                core::mem::swap(&mut vertices, &mut self.batch.textured);
                self.commands.push(GpuCommand::DrawTextured { texture, vertices });
                self.batch.open_kind = DrawKind::Any;
            },
            DrawKind::Text => {
                let mut runs: Vec<TextRun> = Vec::new();
                core::mem::swap(&mut runs, &mut self.batch.text_runs);
                self.commands.push(GpuCommand::DrawText { runs });
                self.batch.open_kind = DrawKind::Any;
            },
        }
        proof {
            assert(self.batch@ =~= after_flush(old(self).batch@));
            assert(self.cmds() =~= old(self).cmds() + flush_emits(old(self).batch@));
        }
    }

    /// Make `target` the open kind, flushing a differently-kinded open batch
    /// first.  The caller appends vertices right after, restoring the
    /// invariant that an open batch is nonempty.
    fn process_batch(&mut self, target: DrawKind)
        requires
            old(self).wf(),
            target != DrawKind::Any,
        ensures
            core_unchanged(old(self), final(self)),
            final(self).batch@ == process_result(old(self).batch@, target).1,
            final(self).cmds() == old(self).cmds() + process_result(old(self).batch@, target).0,
            final(self).viewport_width == old(self).viewport_width,
    {
        if self.batch.open_kind != target && self.batch.open_kind != DrawKind::Any {
            self.flush();
        }
        self.batch.open_kind = target;
        proof {
            assert(self.batch@ =~= process_result(old(self).batch@, target).1);
            assert(self.cmds() =~= old(self).cmds() + process_result(old(self).batch@, target).0);
        }
    }

    /// Append a rectangle, rotated about `origin` by the given rotation, to
    /// the filled-triangle batch, flushing first if a batch of another kind
    /// is open.  The six appended vertices keep the call's position in the
    /// buffer, so draws composite in submission order.
    pub fn draw_rotated_rect(&mut self, rect: Rect, color: Color, origin: Point, rotation: Rotation)
        requires
            old(self).wf(),
            rect_in_bounds(rect),
            point_in_bounds(origin),
            rotation_wf(rotation),
        ensures
            final(self).wf(),
            core_unchanged(old(self), final(self)),
            ({
                let (emitted, b1) = spec_draw_fill(
                    old(self).batch@,
                    rect,
                    origin,
                    rotation,
                    old(self).viewport_width as int,
                    old(self).viewport_height as int,
                    color,
                );
                &&& final(self).cmds() == old(self).cmds() + emitted
                &&& final(self).batch@ == b1
            }),
    {
        self.process_batch(DrawKind::Fill);
        let c = rect_corners(rect, origin, rotation);
        let vw = self.viewport_width;
        let vh = self.viewport_height;
        self.batch.fill.push(FillVertex { x: clip_x(c.x1, vw), y: clip_y(c.y1, vh), color });
        self.batch.fill.push(FillVertex { x: clip_x(c.x2, vw), y: clip_y(c.y2, vh), color });
        self.batch.fill.push(FillVertex { x: clip_x(c.x4, vw), y: clip_y(c.y4, vh), color });
        self.batch.fill.push(FillVertex { x: clip_x(c.x1, vw), y: clip_y(c.y1, vh), color });
        self.batch.fill.push(FillVertex { x: clip_x(c.x4, vw), y: clip_y(c.y4, vh), color });
        self.batch.fill.push(FillVertex { x: clip_x(c.x3, vw), y: clip_y(c.y3, vh), color });
        proof {
            let (emitted, b1) = process_result(old(self).batch@, DrawKind::Fill);
            assert(self.batch@.fill =~= b1.fill + fill_quad(
                rect,
                origin,
                rotation,
                old(self).viewport_width as int,
                old(self).viewport_height as int,
                color,
            ));
            assert(self.batch@ =~= (BatchView {
                fill: b1.fill + fill_quad(
                    rect,
                    origin,
                    rotation,
                    old(self).viewport_width as int,
                    old(self).viewport_height as int,
                    color,
                ),
                ..b1
            }));
        }
    }

    /// Append a textured quad, rotated about `origin`, to the textured-quad
    /// batch.  The batch's kind carries the texture identity, so drawing
    /// from a different texture than the open batch flushes first.
    pub fn draw_rotated_texture(
        &mut self,
        texture: &Texture,
        src_rect: Rect,
        dest_rect: Rect,
        origin: Point,
        rotation: Rotation,
    )
        requires
            old(self).wf(),
            texture_wf(*texture),
            rect_in_bounds(src_rect),
            rect_in_bounds(dest_rect),
            point_in_bounds(origin),
            rotation_wf(rotation),
        ensures
            final(self).wf(),
            core_unchanged(old(self), final(self)),
            ({
                let (emitted, b1) = spec_draw_textured(
                    old(self).batch@,
                    texture.texture_id,
                    src_rect,
                    texture.width as int,
                    texture.height as int,
                    dest_rect,
                    origin,
                    rotation,
                    old(self).viewport_width as int,
                    old(self).viewport_height as int,
                );
                &&& final(self).cmds() == old(self).cmds() + emitted
                &&& final(self).batch@ == b1
            }),
    {
        self.process_batch(DrawKind::Textured(texture.texture_id));
        let c = rect_corners(dest_rect, origin, rotation);
        let vw = self.viewport_width;
        let vh = self.viewport_height;
        let u0 = Frac { num: src_rect.x, den: texture.width };
        let u1 = Frac { num: src_rect.x + src_rect.width, den: texture.width };
        let v0 = Frac { num: src_rect.y + src_rect.height, den: texture.height };
        let v1 = Frac { num: src_rect.y, den: texture.height };
        self.batch.textured.push(
            TexVertex { x: clip_x(c.x1, vw), y: clip_y(c.y1, vh), u: u0, v: v1 },
        );
        self.batch.textured.push(
            TexVertex { x: clip_x(c.x2, vw), y: clip_y(c.y2, vh), u: u1, v: v1 },
        );
        self.batch.textured.push(
            TexVertex { x: clip_x(c.x4, vw), y: clip_y(c.y4, vh), u: u1, v: v0 },
        );
        self.batch.textured.push(
            TexVertex { x: clip_x(c.x1, vw), y: clip_y(c.y1, vh), u: u0, v: v1 },
        );
        self.batch.textured.push(
            TexVertex { x: clip_x(c.x4, vw), y: clip_y(c.y4, vh), u: u1, v: v0 },
        );
        self.batch.textured.push(
            TexVertex { x: clip_x(c.x3, vw), y: clip_y(c.y3, vh), u: u0, v: v0 },
        );
        proof {
            let (emitted, b1) = spec_draw_textured(
                old(self).batch@,
                texture.texture_id,
                src_rect,
                texture.width as int,
                texture.height as int,
                dest_rect,
                origin,
                rotation,
                old(self).viewport_width as int,
                old(self).viewport_height as int,
            );
            assert(self.batch@.textured =~= b1.textured);
            assert(self.batch@ =~= b1);
        }
    }

    /// Append an axis-aligned textured quad to the textured-quad batch.
    pub fn draw_texture(&mut self, texture: &Texture, src_rect: Rect, dest_rect: Rect)
        requires
            old(self).wf(),
            texture_wf(*texture),
            rect_in_bounds(src_rect),
            rect_in_bounds(dest_rect),
        ensures
            final(self).wf(),
            core_unchanged(old(self), final(self)),
            ({
                let (emitted, b1) = spec_draw_textured(
                    old(self).batch@,
                    texture.texture_id,
                    src_rect,
                    texture.width as int,
                    texture.height as int,
                    dest_rect,
                    Point { x: 0, y: 0 },
                    Rotation::Zero,
                    old(self).viewport_width as int,
                    old(self).viewport_height as int,
                );
                &&& final(self).cmds() == old(self).cmds() + emitted
                &&& final(self).batch@ == b1
            }),
    {
        self.draw_rotated_texture(texture, src_rect, dest_rect, Point { x: 0, y: 0 },
            Rotation::Zero);
    }

    /// Append an axis-aligned rectangle to the filled-triangle batch.
    pub fn draw_rect(&mut self, rect: Rect, color: Color)
        requires
            old(self).wf(),
            rect_in_bounds(rect),
        ensures
            final(self).wf(),
            core_unchanged(old(self), final(self)),
            ({
                let (emitted, b1) = spec_draw_fill(
                    old(self).batch@,
                    rect,
                    Point { x: 0, y: 0 },
                    Rotation::Zero,
                    old(self).viewport_width as int,
                    old(self).viewport_height as int,
                    color,
                );
                &&& final(self).cmds() == old(self).cmds() + emitted
                &&& final(self).batch@ == b1
            }),
    {
        self.draw_rotated_rect(rect, color, Point { x: 0, y: 0 }, Rotation::Zero);
    }

    /// The cached glyph texture for `text`, if it has been rasterized.  On a
    /// miss the driver rasterizes the string, uploads the coverage bitmap,
    /// and records the result with [`Engine::insert_text_texture`].
    pub fn text_texture(&self, text: &str) -> (r: Option<TextEntry>)
        requires
            self.wf(),
        ensures
            match r {
                Some(e) => self.text_cache@.contains_key(text@) && self.text_cache@[text@] == e,
                None => !self.text_cache@.contains_key(text@),
            },
    {
        self.text_cache.lookup(text)
    }

    /// Record the glyph texture the driver rasterized and uploaded for
    /// `text`.  Called once per distinct string; entries are never evicted.
    pub fn insert_text_texture(&mut self, text: &str, texture: u32, width: i64, height: i64)
        requires
            old(self).wf(),
            !old(self).text_cache@.contains_key(text@),
            0 <= width <= COORD_LIMIT,
            0 <= height <= COORD_LIMIT,
        ensures
            final(self).wf(),
            final(self).text_cache@ == old(self).text_cache@.insert(
                text@,
                (TextEntry { texture, width, height }),
            ),
            final(self).batch@ == old(self).batch@,
            final(self).cmds() == old(self).cmds(),
            final(self).input == old(self).input,
            final(self).viewport_width == old(self).viewport_width,
            final(self).viewport_height == old(self).viewport_height,
            final(self).window_size_changed == old(self).window_size_changed,
            final(self).char_width == old(self).char_width,
            final(self).font_size == old(self).font_size,
            final(self).quit_requested == old(self).quit_requested,
            final(self).ui_requested == old(self).ui_requested,
    {
        self.text_cache.insert(text, TextEntry { texture, width, height });
    }

    /// Append one string's quad to the text batch and return the pixel
    /// rectangle it occupies, whose size is exactly the cached texture's
    /// size.  Requires the string's glyph texture to be cached; position and
    /// color are free per call even for identical cached text.  A
    /// zero-sized texture (an empty string) draws nothing.
    pub fn draw_text(&mut self, text: &str, x: i64, y: i64, color: Color) -> (r: Rect)
        requires
            old(self).wf(),
            -COORD_LIMIT <= x <= COORD_LIMIT,
            -COORD_LIMIT <= y <= COORD_LIMIT,
            old(self).text_cache@.contains_key(text@),
        ensures
            final(self).wf(),
            core_unchanged(old(self), final(self)),
            ({
                let e = old(self).text_cache@[text@];
                let (emitted, b1) = spec_draw_text(
                    old(self).batch@,
                    e,
                    x as int,
                    y as int,
                    old(self).viewport_width as int,
                    old(self).viewport_height as int,
                    color,
                );
                &&& r == (Rect { x, y, width: e.width, height: e.height })
                &&& final(self).cmds() == old(self).cmds() + emitted
                &&& final(self).batch@ == b1
            }),
    {
        let entry = match self.text_cache.lookup(text) {
            Some(e) => e,
            None => {
                proof {
                    assert(false);
                }
                TextEntry { texture: 0, width: 0, height: 0 }
            },
        };
        if entry.width == 0 || entry.height == 0 {
            proof {
                assert(self.cmds() =~= old(self).cmds() + Seq::<CmdView>::empty());
            }
            return Rect { x, y, width: entry.width, height: entry.height };
        }
        self.process_batch(DrawKind::Text);
        let vw = self.viewport_width;
        let vh = self.viewport_height;
        let mut vertices: Vec<TextVertex> = Vec::new();
        let u0 = Frac { num: 0, den: 1 };
        let u1 = Frac { num: 1, den: 1 };
        vertices.push(
            TextVertex {
                x: clip_x(x * FP_ONE, vw),
                y: clip_y((y + entry.height) * FP_ONE, vh),
                u: u0,
                v: u1,
                color,
            },
        );
        vertices.push(
            TextVertex {
                x: clip_x((x + entry.width) * FP_ONE, vw),
                y: clip_y((y + entry.height) * FP_ONE, vh),
                u: u1,
                v: u1,
                color,
            },
        );
        vertices.push(
            TextVertex {
                x: clip_x((x + entry.width) * FP_ONE, vw),
                y: clip_y(y * FP_ONE, vh),
                u: u1,
                v: u0,
                color,
            },
        );
        vertices.push(
            TextVertex {
                x: clip_x(x * FP_ONE, vw),
                y: clip_y((y + entry.height) * FP_ONE, vh),
                u: u0,
                v: u1,
                color,
            },
        );
        vertices.push(
            TextVertex {
                x: clip_x((x + entry.width) * FP_ONE, vw),
                y: clip_y(y * FP_ONE, vh),
                u: u1,
                v: u0,
                color,
            },
        );
        vertices.push(
            TextVertex { x: clip_x(x * FP_ONE, vw), y: clip_y(y * FP_ONE, vh), u: u0, v: u0, color },
        );
        self.batch.text_runs.push(TextRun { texture: entry.texture, vertices });
        proof {
            let e = old(self).text_cache@[text@];
            let (emitted, b1) = spec_draw_text(
                old(self).batch@,
                e,
                x as int,
                y as int,
                old(self).viewport_width as int,
                old(self).viewport_height as int,
                color,
            );
            assert(self.batch@.text_runs.last().vertices =~= text_quad(
                x as int,
                y as int,
                e.width as int,
                e.height as int,
                old(self).viewport_width as int,
                old(self).viewport_height as int,
                color,
            ));
            assert(self.batch@.text_runs =~= b1.text_runs);
            assert(self.batch@ =~= b1);
        }
        Rect { x, y, width: entry.width, height: entry.height }
    }

    /// Change the viewport.  Any open batch — whose vertices were baked in
    /// clip space against the old viewport — is flushed first, at the old
    /// size, so a resize never rescales in-flight geometry; then the
    /// driver's viewport transform is updated.
    pub fn resize(&mut self, width: u32, height: u32)
        requires
            old(self).wf(),
            0 < width as int <= COORD_LIMIT as int,
            0 < height as int <= COORD_LIMIT as int,
        ensures
            final(self).wf(),
            final(self).cmds() == old(self).cmds() + flush_emits(old(self).batch@) + seq![
                (CmdView::SetViewport { width, height }),
            ],
            final(self).batch@ == after_flush(old(self).batch@),
            final(self).viewport_width == width,
            final(self).viewport_height == height,
            final(self).window_size_changed,
            final(self).text_cache == old(self).text_cache,
            final(self).input == old(self).input,
            final(self).char_width == old(self).char_width,
            final(self).font_size == old(self).font_size,
            final(self).quit_requested == old(self).quit_requested,
            final(self).ui_requested == old(self).ui_requested,
    {
        self.flush();
        self.commands.push(GpuCommand::SetViewport { width, height });
        self.viewport_width = width;
        self.viewport_height = height;
        self.window_size_changed = true;
        proof {
            assert(self.cmds() =~= old(self).cmds() + flush_emits(old(self).batch@) + seq![
                (CmdView::SetViewport { width, height }),
            ]);
        }
    }

    /// End the frame: flush whatever batch is still open (no vertex is left
    /// undrawn), yield to the UI overlay if one was requested, queue the
    /// buffer swap, and clear the one-shot input state — the only place it
    /// is cleared, so a press is observed for at most one frame.
    pub fn present(&mut self)
        requires
            old(self).wf(),
        ensures
            final(self).wf(),
            final(self).cmds() == old(self).cmds() + flush_emits(old(self).batch@) + (if old(
                self,
            ).ui_requested {
                seq![CmdView::UiOverlay]
            } else {
                Seq::empty()
            }) + seq![CmdView::PresentFrame],
            final(self).batch@ == after_flush(old(self).batch@),
            final(self).input@ == frame_reset(old(self).input@),
            !final(self).window_size_changed,
            !final(self).ui_requested,
            final(self).viewport_width == old(self).viewport_width,
            final(self).viewport_height == old(self).viewport_height,
            final(self).text_cache == old(self).text_cache,
            final(self).char_width == old(self).char_width,
            final(self).font_size == old(self).font_size,
            final(self).quit_requested == old(self).quit_requested,
    {
        self.flush();
        if self.ui_requested {
            self.commands.push(GpuCommand::UiOverlay);
            self.ui_requested = false;
        }
        self.commands.push(GpuCommand::PresentFrame);
        self.window_size_changed = false;
        self.input.begin_frame();
        proof {
            assert(self.cmds() =~= old(self).cmds() + flush_emits(old(self).batch@) + (if old(
                self,
            ).ui_requested {
                seq![CmdView::UiOverlay]
            } else {
                Seq::empty()
            }) + seq![CmdView::PresentFrame]);
        }
    }

    /// Fold one window-system event into the engine: a resize flushes and
    /// updates the viewport, a quit request latches, and everything else
    /// updates the input snapshot.
    pub fn handle_event(&mut self, ev: InputEvent)
        requires
            old(self).wf(),
            (ev matches InputEvent::WindowResized { width, height } ==> 0 < width as int
                <= COORD_LIMIT as int && 0 < height as int <= COORD_LIMIT as int),
        ensures
            final(self).wf(),
            final(self).input@ == after_event(old(self).input@, ev),
            final(self).text_cache == old(self).text_cache,
            final(self).char_width == old(self).char_width,
            final(self).font_size == old(self).font_size,
            final(self).ui_requested == old(self).ui_requested,
            final(self).quit_requested == (old(self).quit_requested || ev == InputEvent::Quit),
            (match ev {
                InputEvent::WindowResized { width, height } => {
                    &&& final(self).cmds() == old(self).cmds() + flush_emits(old(self).batch@)
                        + seq![(CmdView::SetViewport { width, height })]
                    &&& final(self).batch@ == after_flush(old(self).batch@)
                    &&& final(self).viewport_width == width
                    &&& final(self).viewport_height == height
                    &&& final(self).window_size_changed
                },
                _ => {
                    &&& final(self).cmds() == old(self).cmds()
                    &&& final(self).batch@ == old(self).batch@
                    &&& final(self).viewport_width == old(self).viewport_width
                    &&& final(self).viewport_height == old(self).viewport_height
                    &&& final(self).window_size_changed == old(self).window_size_changed
                },
            }),
    {
        let resize_to: Option<(u32, u32)> = match &ev {
            InputEvent::WindowResized { width, height } => Some((*width, *height)),
            _ => None,
        };
        match &ev {
            InputEvent::Quit => {
                self.quit_requested = true;
            },
            _ => {},
        }
        self.input.handle(ev);
        if let Some((width, height)) = resize_to {
            self.resize(width, height);
        }
    }

    /// Ask the frame loop to stop after this frame.
    pub fn quit(&mut self)
        ensures
            final(self).quit_requested,
            final(self).viewport_width == old(self).viewport_width,
            final(self).viewport_height == old(self).viewport_height,
            final(self).window_size_changed == old(self).window_size_changed,
            final(self).batch@ == old(self).batch@,
            final(self).cmds() == old(self).cmds(),
            final(self).text_cache == old(self).text_cache,
            final(self).input == old(self).input,
            final(self).char_width == old(self).char_width,
            final(self).font_size == old(self).font_size,
            final(self).ui_requested == old(self).ui_requested,
            final(self).wf() == old(self).wf(),
    {
        self.quit_requested = true;
    }

    /// Whether the application or the window system asked to quit.
    pub fn should_quit(&self) -> (q: bool)
        ensures
            q == self.quit_requested,
    {
        self.quit_requested
    }

    /// Request the UI overlay for this frame.  The overlay renders after
    /// every queued draw has been flushed, right before the buffer swap.
    pub fn ui(&mut self)
        ensures
            final(self).ui_requested,
            final(self).viewport_width == old(self).viewport_width,
            final(self).viewport_height == old(self).viewport_height,
            final(self).window_size_changed == old(self).window_size_changed,
            final(self).batch@ == old(self).batch@,
            final(self).cmds() == old(self).cmds(),
            final(self).text_cache == old(self).text_cache,
            final(self).input == old(self).input,
            final(self).char_width == old(self).char_width,
            final(self).font_size == old(self).font_size,
            final(self).quit_requested == old(self).quit_requested,
            final(self).wf() == old(self).wf(),
    {
        self.ui_requested = true;
    }

    /// Whether the key with the given key code is held down.
    pub fn is_key_down(&self, key: i32) -> (b: bool)
        ensures
            b == self.input@.keys_down.contains(key),
    {
        self.input.keys_down.contains(&key)
    }

    /// Whether the key with the given key code went down this frame.
    pub fn is_key_pressed(&self, key: i32) -> (b: bool)
        ensures
            b == self.input@.keys_pressed.contains(key),
    {
        self.input.keys_pressed.contains(&key)
    }

    /// Whether the key at the given physical scan code is held down.
    pub fn is_physical_key_down(&self, scancode: i32) -> (b: bool)
        ensures
            b == self.input@.physical_keys_down.contains(scancode),
    {
        self.input.physical_keys_down.contains(&scancode)
    }

    /// Whether the key at the given physical scan code went down this frame.
    pub fn is_physical_key_pressed(&self, scancode: i32) -> (b: bool)
        ensures
            b == self.input@.physical_keys_pressed.contains(scancode),
    {
        self.input.physical_keys_pressed.contains(&scancode)
    }

    /// The chord name for a key: the held modifiers as `c-`, `a-`, `s-`
    /// prefixes, in that order, followed by the key's own (lower-case) name.
    pub fn get_key_string(&self, key_name: &str) -> (s: String)
        ensures
            s@ == key_prefix(self.input@.ctrl_down, self.input@.alt_down, self.input@.shift_down)
                + key_name@,
    {
        let mut s = String::new();
        if self.input.ctrl_down {
            s.append("c-");
        }
        if self.input.alt_down {
            s.append("a-");
        }
        if self.input.shift_down {
            s.append("s-");
        }
        s.append(key_name);
        proof {
            assert(s@ =~= key_prefix(
                self.input@.ctrl_down,
                self.input@.alt_down,
                self.input@.shift_down,
            ) + key_name@);
        }
        s
    }

    /// Quick text measurement: the byte length of the string times the
    /// engine's reference glyph advance, in subpixel units.  An estimate
    /// that is exact for monospace ASCII text.
    pub fn text_length(&self, text: &str) -> (r: i64)
        requires
            self.wf(),
            text.spec_bytes().len() <= COORD_LIMIT as int,
        ensures
            r == text.spec_bytes().len() * self.char_width,
    {
        let n = text.len();
        proof {
            assert((n as int) * self.char_width <= COORD_LIMIT as int * FONT_METRIC_LIMIT as int
                && 0 <= (n as int) * self.char_width) by (nonlinear_arith)
                requires
                    0 <= n as int <= COORD_LIMIT as int,
                    0 <= self.char_width <= FONT_METRIC_LIMIT as int,
            ;
        }
        (n as i64) * self.char_width
    }

    /// Adopt the metrics of a newly loaded font: its size and the subpixel
    /// advance of the reference glyph, both measured by the driver.
    pub fn set_font_metrics(&mut self, font_size: i64, char_width: i64)
        requires
            old(self).wf(),
            0 < font_size <= FONT_METRIC_LIMIT,
            0 <= char_width <= FONT_METRIC_LIMIT,
        ensures
            final(self).wf(),
            final(self).font_size == font_size,
            final(self).char_width == char_width,
            final(self).viewport_width == old(self).viewport_width,
            final(self).viewport_height == old(self).viewport_height,
            final(self).window_size_changed == old(self).window_size_changed,
            final(self).batch@ == old(self).batch@,
            final(self).cmds() == old(self).cmds(),
            final(self).text_cache == old(self).text_cache,
            final(self).input == old(self).input,
            final(self).quit_requested == old(self).quit_requested,
            final(self).ui_requested == old(self).ui_requested,
    {
        self.font_size = font_size;
        self.char_width = char_width;
    }
}

/// The modifier prefix of a key chord name.
pub open spec fn key_prefix(ctrl: bool, alt: bool, shift: bool) -> Seq<char> {
    (if ctrl {
        "c-"@
    } else {
        Seq::empty()
    }) + (if alt {
        "a-"@
    } else {
        Seq::empty()
    }) + (if shift {
        "s-"@
    } else {
        Seq::empty()
    })
}

/// Bridge from the engine's draw operations to the batching law: opening a
/// batch of kind `target` emits only draw submissions, exactly as many as
/// [`flush_on`] counts for the transition, and leaves `target` open; a
/// flush emits one draw submission exactly when a batch is open.  Chained
/// over a frame's draw calls, the emitted submissions replay
/// [`crate::batch::flushes_during`], and the end-of-frame flush adds the one
/// submission of the still-open batch, so by
/// [`crate::batch::lemma_submissions_are_runs`] a frame's draw submissions
/// number exactly its maximal same-kind runs.
pub proof fn lemma_draw_step_matches_replay(b: BatchView, target: DrawKind)
    requires
        batch_wf(b),
        target != DrawKind::Any,
    ensures
        process_result(b, target).0.len() == flush_on(b.open_kind, target),
        forall|i: int|
            0 <= i < process_result(b, target).0.len() ==> is_draw(
                #[trigger] process_result(b, target).0[i],
            ),
        process_result(b, target).1.open_kind == target,
        flush_emits(b).len() == (if b.open_kind == DrawKind::Any {
            0int
        } else {
            1int
        }),
        forall|i: int| 0 <= i < flush_emits(b).len() ==> is_draw(#[trigger] flush_emits(b)[i]),
{
}

/// Order preservation: two rectangles drawn in order A then B while the
/// filled-triangle batch is open (or no batch is) trigger no draw
/// submission, and leave the vertex buffer holding A's six vertices before
/// B's six vertices.  The batch is submitted as one draw call in buffer
/// order, so with over-operator alpha blending the overlap of two
/// semi-transparent rectangles composites as "B over A", never "A over B".
pub proof fn lemma_fill_draw_order(
    b: BatchView,
    rect_a: Rect,
    color_a: Color,
    rect_b: Rect,
    color_b: Color,
    origin: Point,
    rot: Rotation,
    vw: int,
    vh: int,
)
    requires
        batch_wf(b),
        b.open_kind == DrawKind::Fill || b.open_kind == DrawKind::Any,
    ensures
        ({
            let (e1, b1) = spec_draw_fill(b, rect_a, origin, rot, vw, vh, color_a);
            let (e2, b2) = spec_draw_fill(b1, rect_b, origin, rot, vw, vh, color_b);
            &&& e1 == Seq::<CmdView>::empty()
            &&& e2 == Seq::<CmdView>::empty()
            &&& b2.fill == b.fill + fill_quad(rect_a, origin, rot, vw, vh, color_a) + fill_quad(
                rect_b,
                origin,
                rot,
                vw,
                vh,
                color_b,
            )
        }),
{
    let (e1, b1) = spec_draw_fill(b, rect_a, origin, rot, vw, vh, color_a);
    let (e2, b2) = spec_draw_fill(b1, rect_b, origin, rot, vw, vh, color_b);
    assert(b2.fill =~= b.fill + fill_quad(rect_a, origin, rot, vw, vh, color_a) + fill_quad(
        rect_b,
        origin,
        rot,
        vw,
        vh,
        color_b,
    ));
}

} // verus!
