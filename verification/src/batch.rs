//! Draw kinds, vertex formats and the GPU command queue.
//!
//! The engine never talks to the GPU directly: every effect it wants is
//! appended to a queue of [`GpuCommand`]s that an unverified driver drains
//! once per frame.  This module also carries the batching law: over a frame,
//! the number of draw submissions equals the number of maximal contiguous
//! same-kind runs of draw calls (see [`lemma_submissions_are_runs`]).

use vstd::prelude::*;

use crate::geom::Frac;
use crate::types::Color;

verus! {

/// The pipeline state a draw call needs.  Exactly one kind is "open" at a
/// time; issuing a draw of a different kind first flushes the open batch.
/// `Textured` carries the bound texture, because switching textures requires
/// a new GPU texture bind and therefore a flush, even though the topology is
/// unchanged.
#[derive(Clone, Copy, Debug, PartialEq, Eq, Structural)]
pub enum DrawKind {
    /// No batch is open.
    Any,
    /// Solid-color filled triangles.
    Fill,
    /// Textured quads sampling the given texture.
    Textured(u32),
    /// Text quads.
    Text,
}

/// A vertex of a solid-color triangle: clip-space position plus color.
#[derive(Clone, Copy, Debug, PartialEq, Eq, Structural)]
pub struct FillVertex {
    pub x: Frac,
    pub y: Frac,
    pub color: Color,
}

/// A vertex of a textured quad: clip-space position plus texture coordinate.
#[derive(Clone, Copy, Debug, PartialEq, Eq, Structural)]
pub struct TexVertex {
    pub x: Frac,
    pub y: Frac,
    pub u: Frac,
    pub v: Frac,
}

/// A vertex of a text quad: position, texture coordinate and color.  Color is
/// per-vertex rather than a uniform so one flush can draw differently colored
/// strings in a single shader pass.
#[derive(Clone, Copy, Debug, PartialEq, Eq, Structural)]
pub struct TextVertex {
    pub x: Frac,
    pub y: Frac,
    pub u: Frac,
    pub v: Frac,
    pub color: Color,
}

/// One string's quad within a text batch: the glyph texture to bind and the
/// six vertices of the quad.
#[derive(Debug, PartialEq)]
pub struct TextRun {
    pub texture: u32,
    pub vertices: Vec<TextVertex>,
}

/// Mathematical model of a [`TextRun`].
pub struct TextRunView {
    pub texture: u32,
    pub vertices: Seq<TextVertex>,
}

impl View for TextRun {
    type V = TextRunView;

    open spec fn view(&self) -> TextRunView {
        TextRunView { texture: self.texture, vertices: self.vertices@ }
    }
}

impl DeepView for TextRun {
    type V = TextRunView;

    open spec fn deep_view(&self) -> TextRunView {
        self.view()
    }
}

/// One instruction for the unverified GPU driver.
#[derive(Debug, PartialEq)]
#[allow(inconsistent_fields)]
pub enum GpuCommand {
    /// Clear the color and depth buffers to the given color.
    Clear { color: Color },
    /// Update the GPU viewport transform after a window resize.
    SetViewport { width: u32, height: u32 },
    /// Submit the filled-triangle batch in one draw call.  `reuse_buffer`
    /// asks for an in-place buffer update, legal because the vertex count
    /// equals the count of this kind's previous submission.
    DrawFill { vertices: Vec<FillVertex>, reuse_buffer: bool },
    /// Submit the textured-quad batch in one draw call with `texture` bound.
    DrawTextured { texture: u32, vertices: Vec<TexVertex> },
    /// Submit the text batch: one buffer update and draw per run, all within
    /// a single text shader pass.
    DrawText { runs: Vec<TextRun> },
    /// Yield to the immediate-mode UI overlay, after all queued draws.
    UiOverlay,
    /// Swap buffers, presenting the finished frame.
    PresentFrame,
}

/// Mathematical model of a [`GpuCommand`].
#[allow(inconsistent_fields)]
pub enum CmdView {
    Clear { color: Color },
    SetViewport { width: u32, height: u32 },
    DrawFill { vertices: Seq<FillVertex>, reuse_buffer: bool },
    DrawTextured { texture: u32, vertices: Seq<TexVertex> },
    DrawText { runs: Seq<TextRunView> },
    UiOverlay,
    PresentFrame,
}

impl View for GpuCommand {
    type V = CmdView;

    open spec fn view(&self) -> CmdView {
        match self {
            GpuCommand::Clear { color } => CmdView::Clear { color: *color },
            GpuCommand::SetViewport { width, height } => (CmdView::SetViewport {
                width: *width,
                height: *height,
            }),
            GpuCommand::DrawFill { vertices, reuse_buffer } => (CmdView::DrawFill {
                vertices: vertices@,
                reuse_buffer: *reuse_buffer,
            }),
            GpuCommand::DrawTextured { texture, vertices } => (CmdView::DrawTextured {
                texture: *texture,
                vertices: vertices@,
            }),
            GpuCommand::DrawText { runs } => CmdView::DrawText { runs: runs.deep_view() },
            GpuCommand::UiOverlay => CmdView::UiOverlay,
            GpuCommand::PresentFrame => CmdView::PresentFrame,
        }
    }
}

impl DeepView for GpuCommand {
    type V = CmdView;

    open spec fn deep_view(&self) -> CmdView {
        self.view()
    }
}

/// Whether a command is a GPU draw submission (as opposed to a clear,
/// viewport update, overlay yield or buffer swap).
pub open spec fn is_draw(c: CmdView) -> bool {
    match c {
        CmdView::DrawFill { .. } => true,
        CmdView::DrawTextured { .. } => true,
        CmdView::DrawText { .. } => true,
        _ => false,
    }
}

/// Number of draw submissions in a command sequence.
pub open spec fn draw_count(cmds: Seq<CmdView>) -> nat
    decreases cmds.len(),
{
    if cmds.len() == 0 {
        0
    } else {
        draw_count(cmds.drop_last()) + (if is_draw(cmds.last()) {
            1nat
        } else {
            0nat
        })
    }
}

/// Number of maximal contiguous runs of equal draw kinds.  Two adjacent
/// `Textured` draws with different texture handles belong to different runs,
/// because kind equality includes the texture identity.
pub open spec fn run_count(ks: Seq<DrawKind>) -> nat
    decreases ks.len(),
{
    if ks.len() == 0 {
        0
    } else if ks.len() == 1 {
        1
    } else {
        run_count(ks.drop_last()) + (if ks[ks.len() - 2] == ks.last() {
            0nat
        } else {
            1nat
        })
    }
}

/// The kind left open after issuing the draws `ks` in order, starting from
/// no open batch.
pub open spec fn open_after(ks: Seq<DrawKind>) -> DrawKind {
    if ks.len() == 0 {
        DrawKind::Any
    } else {
        ks.last()
    }
}

/// Submissions a single draw of kind `k` triggers when the open kind is `o`:
/// one (a flush of the open batch) exactly when a batch is open and its kind
/// differs.
pub open spec fn flush_on(o: DrawKind, k: DrawKind) -> nat {
    if o != DrawKind::Any && o != k {
        1
    } else {
        0
    }
}

/// Submissions triggered while issuing the draws `ks` in order, starting
/// from no open batch and not counting the final end-of-frame flush.
pub open spec fn flushes_during(ks: Seq<DrawKind>) -> nat
    decreases ks.len(),
{
    if ks.len() == 0 {
        0
    } else {
        flushes_during(ks.drop_last()) + flush_on(open_after(ks.drop_last()), ks.last())
    }
}

/// The batching law: for any sequence of draw calls issued within one frame
/// (draw calls always have a concrete kind, never `Any`), the number of GPU
/// draw submissions — the flushes triggered while drawing plus the final
/// end-of-frame flush of the still-open batch — equals the number of maximal
/// contiguous same-kind runs, not the number of draw calls.
pub proof fn lemma_submissions_are_runs(ks: Seq<DrawKind>)
    requires
        forall|i: int| 0 <= i < ks.len() ==> ks[i] != DrawKind::Any,
    ensures
        flushes_during(ks) + (if open_after(ks) == DrawKind::Any {
            0nat
        } else {
            1nat
        }) == run_count(ks),
    decreases ks.len(),
{
    if ks.len() == 0 {
    } else {
        let prefix = ks.drop_last();
        assert(forall|i: int| 0 <= i < prefix.len() ==> prefix[i] == ks[i]);
        lemma_submissions_are_runs(prefix);
        if ks.len() == 1 {
        } else {
            assert(open_after(prefix) == ks[ks.len() - 2]);
            assert(open_after(prefix) != DrawKind::Any);
        }
    }
}

} // verus!
