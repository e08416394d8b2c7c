//! The commands the controller hands to a 2D canvas context, and a model of
//! what they do to the drawing surface.
use vstd::prelude::*;

verus! {

/// One call on the canvas element or its 2D rendering context.
#[derive(Clone, Debug, PartialEq, Eq)]
pub enum DrawCommand {
    /// Assign the backing store's width (this discards what is drawn).
    SetCanvasWidth(u32),
    /// Assign the backing store's height (this discards what is drawn).
    SetCanvasHeight(u32),
    SetStrokeStyle(String),
    SetLineWidth(u32),
    SetLineCapRound,
    /// Extend the current path to a point in surface-local pixels.
    LineTo(i64, i64),
    /// Render the current path with the current style.
    Stroke,
    /// Start a new, empty path.
    BeginPath,
    /// Clear the rectangle from the origin with this width and height.
    ClearRect(u32, u32),
}

/// A draw command with its values as mathematical ones.
pub enum DrawOp {
    SetCanvasWidth(int),
    SetCanvasHeight(int),
    SetStrokeStyle(Seq<char>),
    SetLineWidth(int),
    SetLineCapRound,
    LineTo(int, int),
    Stroke,
    BeginPath,
    ClearRect(int, int),
}

impl View for DrawCommand {
    type V = DrawOp;

    open spec fn view(&self) -> DrawOp {
        match self {
            DrawCommand::SetCanvasWidth(w) => DrawOp::SetCanvasWidth(*w as int),
            DrawCommand::SetCanvasHeight(h) => DrawOp::SetCanvasHeight(*h as int),
            DrawCommand::SetStrokeStyle(c) => DrawOp::SetStrokeStyle(c@),
            DrawCommand::SetLineWidth(w) => DrawOp::SetLineWidth(*w as int),
            DrawCommand::SetLineCapRound => DrawOp::SetLineCapRound,
            DrawCommand::LineTo(x, y) => DrawOp::LineTo(*x as int, *y as int),
            DrawCommand::Stroke => DrawOp::Stroke,
            DrawCommand::BeginPath => DrawOp::BeginPath,
            DrawCommand::ClearRect(w, h) => DrawOp::ClearRect(*w as int, *h as int),
        }
    }
}

pub open spec fn ops_of(cmds: Seq<DrawCommand>) -> Seq<DrawOp> {
    cmds.map_values(|c: DrawCommand| c@)
}

/// Something left on the surface's pixels: a rendered path, or a cleared
/// rectangle that did not cover the whole surface.
pub enum Mark {
    Ink { path: Seq<(int, int)>, color: Seq<char>, width: int, round_cap: bool },
    Erase { width: int, height: int },
}

/// The drawing surface as the commands see it: the backing store's size,
/// what has been drawn on it since it was last blank, the current path and
/// the context's pen settings.
pub struct SurfaceModel {
    pub width: int,
    pub height: int,
    pub marks: Seq<Mark>,
    pub path: Seq<(int, int)>,
    pub color: Seq<char>,
    pub line_width: int,
    pub round_cap: bool,
}

/// Assigning a dimension of the backing store, even its current value,
/// discards its pixels and resets the context: no path, default pen.
pub open spec fn reset_surface(m: SurfaceModel, width: int, height: int) -> SurfaceModel {
    SurfaceModel {
        width,
        height,
        marks: Seq::empty(),
        path: Seq::empty(),
        color: "#000000"@,
        line_width: 1,
        round_cap: false,
    }
}

/// What one command does to the surface. A path of fewer than two points
/// renders nothing: a `LineTo` on an empty path only places its start.
pub open spec fn apply_op(m: SurfaceModel, op: DrawOp) -> SurfaceModel {
    match op {
        DrawOp::SetCanvasWidth(w) => reset_surface(m, w, m.height),
        DrawOp::SetCanvasHeight(h) => reset_surface(m, m.width, h),
        DrawOp::SetStrokeStyle(c) => SurfaceModel { color: c, ..m },
        DrawOp::SetLineWidth(w) => SurfaceModel { line_width: w, ..m },
        DrawOp::SetLineCapRound => SurfaceModel { round_cap: true, ..m },
        DrawOp::LineTo(x, y) => SurfaceModel { path: m.path.push((x, y)), ..m },
        DrawOp::Stroke => if m.path.len() >= 2 {
            SurfaceModel {
                marks: m.marks.push(
                    Mark::Ink {
                        path: m.path,
                        color: m.color,
                        width: m.line_width,
                        round_cap: m.round_cap,
                    },
                ),
                ..m
            }
        } else {
            m
        },
        DrawOp::BeginPath => SurfaceModel { path: Seq::empty(), ..m },
        DrawOp::ClearRect(w, h) => if w >= m.width && h >= m.height {
            SurfaceModel { marks: Seq::empty(), ..m }
        } else {
            SurfaceModel { marks: m.marks.push(Mark::Erase { width: w, height: h }), ..m }
        },
    }
}

/// What a run of commands does to the surface, first command first.
pub open spec fn apply_ops(m: SurfaceModel, ops: Seq<DrawOp>) -> SurfaceModel
    decreases ops.len(),
{
    if ops.len() == 0 {
        m
    } else {
        apply_op(apply_ops(m, ops.drop_last()), ops.last())
    }
}

} // verus!
