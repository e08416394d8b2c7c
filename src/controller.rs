//! The canvas controller: stroke session, pen and surface size, and the
//! handlers that turn input events into draw commands.
use vstd::prelude::*;
use crate::style::{StrokeStyle, StyleView, width_from_input, width_of_input, MIN_WIDTH, MAX_WIDTH};
use crate::surface::{DrawCommand, DrawOp, ops_of};

verus! {

/// Where the surface element sits and how large the viewport is, in CSS
/// pixels, as read when an event arrives.
#[derive(Clone, Copy, Debug)]
pub struct Layout {
    pub viewport_width: u32,
    pub viewport_height: u32,
    pub offset_left: i32,
    pub offset_top: i32,
    pub offset_width: i32,
    pub offset_height: i32,
}

/// One pointer-down-to-pointer-up interaction.
#[derive(Clone, Copy, Debug)]
pub struct StrokeSession {
    pub is_painting: bool,
    pub origin_x: i64,
    pub origin_y: i64,
}

/// The controller's state as mathematical values.
pub struct CanvasView {
    pub painting: bool,
    pub origin_x: int,
    pub origin_y: int,
    pub style: StyleView,
    pub width: int,
    pub height: int,
}

/// An event the controller handles, with what the handler is given.
pub enum Input {
    Resize(Layout),
    StrokeStart { page_x: i32, page_y: i32, layout: Layout },
    StrokeMove { page_x: i32, page_y: i32, offset_left: i32, offset_top: i32 },
    StrokeEnd,
    ColorChange(Seq<char>),
    WidthChange(Seq<char>),
    Clear,
}

/// The space left for the surface along one axis: the viewport's extent less
/// the surface's offset, kept within what a backing store dimension can hold.
pub open spec fn available(viewport: int, offset: int) -> int {
    if viewport - offset < 0 {
        0
    } else if viewport - offset > u32::MAX {
        u32::MAX as int
    } else {
        viewport - offset
    }
}

pub open spec fn target_width(l: Layout) -> int {
    available(l.viewport_width as int, l.offset_left as int)
}

pub open spec fn target_height(l: Layout) -> int {
    available(l.viewport_height as int, l.offset_top as int)
}

/// Each dimension is assigned only where it differs from the current one,
/// since any assignment discards what is drawn.
pub open spec fn resize_ops(v: CanvasView, l: Layout) -> Seq<DrawOp> {
    let w = target_width(l);
    let h = target_height(l);
    (if w != v.width {
        seq![DrawOp::SetCanvasWidth(w)]
    } else {
        Seq::empty()
    }) + (if h != v.height {
        seq![DrawOp::SetCanvasHeight(h)]
    } else {
        Seq::empty()
    })
}

pub open spec fn resized(v: CanvasView, l: Layout) -> CanvasView {
    CanvasView { width: target_width(l), height: target_height(l), ..v }
}

/// A move while painting: set the pen, extend the path, render it.
pub open spec fn move_ops(style: StyleView, x: int, y: int) -> Seq<DrawOp> {
    seq![
        DrawOp::SetStrokeStyle(style.color),
        DrawOp::SetLineWidth(style.width),
        DrawOp::SetLineCapRound,
        DrawOp::LineTo(x, y),
        DrawOp::Stroke,
    ]
}

/// The next state and the commands issued for one event.
pub open spec fn step(v: CanvasView, e: Input) -> (CanvasView, Seq<DrawOp>) {
    match e {
        Input::Resize(l) => (resized(v, l), resize_ops(v, l)),
        Input::StrokeStart { page_x, page_y, layout } => (
            CanvasView {
                painting: true,
                origin_x: page_x - layout.offset_width,
                origin_y: page_y - layout.offset_height,
                ..resized(v, layout)
            },
            resize_ops(v, layout),
        ),
        Input::StrokeMove { page_x, page_y, offset_left, offset_top } => if v.painting {
            (v, move_ops(v.style, page_x - offset_left, page_y - offset_top))
        } else {
            (v, Seq::empty())
        },
        Input::StrokeEnd => (
            CanvasView { painting: false, ..v },
            seq![DrawOp::Stroke, DrawOp::BeginPath],
        ),
        Input::ColorChange(c) => (
            CanvasView { style: StyleView { color: c, ..v.style }, ..v },
            Seq::empty(),
        ),
        Input::WidthChange(s) => (
            CanvasView {
                style: StyleView {
                    width: match width_of_input(s) {
                        Some(w) => w,
                        None => v.style.width,
                    },
                    ..v.style
                },
                ..v
            },
            Seq::empty(),
        ),
        Input::Clear => (v, seq![DrawOp::ClearRect(v.width, v.height)]),
    }
}

/// Fitting the surface only assigns its dimensions.
pub proof fn lemma_resize_draws_nothing(v: CanvasView, l: Layout)
    ensures
        forall|i: int|
            0 <= i < resize_ops(v, l).len() ==> (#[trigger] resize_ops(v, l)[i] is SetCanvasWidth
                || resize_ops(v, l)[i] is SetCanvasHeight),
{
    let w = target_width(l);
    let h = target_height(l);
    let a: Seq<DrawOp> = if w != v.width {
        seq![DrawOp::SetCanvasWidth(w)]
    } else {
        Seq::empty()
    };
    let b: Seq<DrawOp> = if h != v.height {
        seq![DrawOp::SetCanvasHeight(h)]
    } else {
        Seq::empty()
    };
    assert(resize_ops(v, l) == a + b);
    assert forall|i: int| 0 <= i < (a + b).len() implies (#[trigger] (a + b)[i] is SetCanvasWidth
        || (a + b)[i] is SetCanvasHeight) by {
        if i < a.len() {
            assert((a + b)[i] == a[i]);
        } else {
            assert((a + b)[i] == b[i - a.len()]);
        }
    }
}

fn available_extent(viewport: u32, offset: i32) -> (r: u32)
    ensures
        r == available(viewport as int, offset as int),
{
    let d: i64 = viewport as i64 - offset as i64;
    if d < 0 {
        0
    } else if d > u32::MAX as i64 {
        u32::MAX
    } else {
        d as u32
    }
}

/// Owns the stroke session, the pen and the surface size of one drawing board.
pub struct CanvasController {
    session: StrokeSession,
    style: StrokeStyle,
    width: u32,
    height: u32,
}

impl View for CanvasController {
    type V = CanvasView;

    closed spec fn view(&self) -> CanvasView {
        CanvasView {
            painting: self.session.is_painting,
            origin_x: self.session.origin_x as int,
            origin_y: self.session.origin_y as int,
            style: self.style@,
            width: self.width as int,
            height: self.height as int,
        }
    }
}

impl CanvasController {
    #[verifier::type_invariant]
    spec fn pen_in_range(&self) -> bool {
        MIN_WIDTH <= self.style@.width <= MAX_WIDTH
    }

    /// A controller for a surface first sized to the whole viewport, with a
    /// black one-pixel pen and no stroke in progress.
    pub fn new(viewport_width: u32, viewport_height: u32) -> (r: Self)
        ensures
            r@ == (CanvasView {
                painting: false,
                origin_x: 0,
                origin_y: 0,
                style: StyleView { color: "#000000"@, width: 1 },
                width: viewport_width as int,
                height: viewport_height as int,
            }),
    {
        CanvasController {
            session: StrokeSession { is_painting: false, origin_x: 0, origin_y: 0 },
            style: StrokeStyle::new(),
            width: viewport_width,
            height: viewport_height,
        }
    }

    pub fn session(&self) -> (r: StrokeSession)
        ensures
            r.is_painting == self@.painting,
            r.origin_x == self@.origin_x,
            r.origin_y == self@.origin_y,
    {
        self.session
    }

    pub fn style(&self) -> (r: &StrokeStyle)
        ensures
            r@ == self@.style,
            MIN_WIDTH <= r@.width <= MAX_WIDTH,
    {
        proof {
            use_type_invariant(self);
        }
        &self.style
    }

    /// The backing store's width and height.
    pub fn surface_size(&self) -> (r: (u32, u32))
        ensures
            r.0 == self@.width,
            r.1 == self@.height,
    {
        (self.width, self.height)
    }

    /// Fits the backing store to the space the viewport leaves, assigning
    /// each dimension only where it changes.
    pub fn on_viewport_resize(&mut self, layout: &Layout) -> (r: Vec<DrawCommand>)
        ensures
            (final(self)@, ops_of(r@)) == step(old(self)@, Input::Resize(*layout)),
            MIN_WIDTH <= final(self)@.style.width <= MAX_WIDTH,
    {
        proof {
            use_type_invariant(&*self);
        }
        let ghost v0 = self@;
        let w = available_extent(layout.viewport_width, layout.offset_left);
        let h = available_extent(layout.viewport_height, layout.offset_top);
        let mut cmds: Vec<DrawCommand> = Vec::new();
        if self.width != w {
            self.width = w;
            cmds.push(DrawCommand::SetCanvasWidth(w));
        }
        let ghost after_width = ops_of(cmds@);
        if self.height != h {
            self.height = h;
            cmds.push(DrawCommand::SetCanvasHeight(h));
        }
        proof {
            let wops: Seq<DrawOp> = if w != v0.width {
                seq![DrawOp::SetCanvasWidth(w as int)]
            } else {
                Seq::empty()
            };
            assert(after_width =~= wops);
            assert(ops_of(cmds@) =~= resize_ops(v0, *layout));
            assert(self@ == resized(v0, *layout));
        }
        cmds
    }

    /// Begins a stroke: fits the surface first, then records the anchor as
    /// the pointer position less the surface's own size. Draws nothing.
    pub fn on_stroke_start(&mut self, page_x: i32, page_y: i32, layout: &Layout) -> (r: Vec<
        DrawCommand,
    >)
        ensures
            (final(self)@, ops_of(r@)) == step(
                old(self)@,
                Input::StrokeStart { page_x, page_y, layout: *layout },
            ),
            forall|i: int| 0 <= i < r@.len() ==> !(#[trigger] r@[i] is Stroke),
            MIN_WIDTH <= final(self)@.style.width <= MAX_WIDTH,
    {
        let cmds = self.on_viewport_resize(layout);
        proof {
            use_type_invariant(&*self);
        }
        self.session = StrokeSession {
            is_painting: true,
            origin_x: page_x as i64 - layout.offset_width as i64,
            origin_y: page_y as i64 - layout.offset_height as i64,
        };
        proof {
            lemma_resize_draws_nothing(old(self)@, *layout);
            assert forall|i: int| 0 <= i < cmds@.len() implies !(#[trigger] cmds@[i] is Stroke) by {
                assert(ops_of(cmds@)[i] == cmds@[i]@);
            }
        }
        cmds
    }

    /// Extends the path to the pointer, in surface-local pixels, and renders
    /// it with the current pen; does nothing unless a stroke is in progress.
    pub fn on_stroke_move(&mut self, page_x: i32, page_y: i32, offset_left: i32, offset_top: i32) -> (r:
        Vec<DrawCommand>)
        ensures
            (final(self)@, ops_of(r@)) == step(
                old(self)@,
                Input::StrokeMove { page_x, page_y, offset_left, offset_top },
            ),
            !old(self)@.painting ==> r@.len() == 0 && final(self)@ == old(self)@,
            MIN_WIDTH <= final(self)@.style.width <= MAX_WIDTH,
    {
        proof {
            use_type_invariant(&*self);
        }
        if !self.session.is_painting {
            let cmds: Vec<DrawCommand> = Vec::new();
            proof {
                assert(ops_of(cmds@) =~= Seq::<DrawOp>::empty());
            }
            return cmds;
        }
        let x: i64 = page_x as i64 - offset_left as i64;
        let y: i64 = page_y as i64 - offset_top as i64;
        let cmds = vec![
            DrawCommand::SetStrokeStyle(self.style.color().clone()),
            DrawCommand::SetLineWidth(self.style.width_px()),
            DrawCommand::SetLineCapRound,
            DrawCommand::LineTo(x, y),
            DrawCommand::Stroke,
        ];
        proof {
            assert(ops_of(cmds@) =~= move_ops(self@.style, x as int, y as int));
        }
        cmds
    }

    /// Ends the stroke: renders the path once more and starts a new one.
    pub fn on_stroke_end(&mut self) -> (r: Vec<DrawCommand>)
        ensures
            (final(self)@, ops_of(r@)) == step(old(self)@, Input::StrokeEnd),
            MIN_WIDTH <= final(self)@.style.width <= MAX_WIDTH,
    {
        proof {
            use_type_invariant(&*self);
        }
        self.session.is_painting = false;
        let cmds = vec![DrawCommand::Stroke, DrawCommand::BeginPath];
        proof {
            assert(ops_of(cmds@) =~= seq![DrawOp::Stroke, DrawOp::BeginPath]);
        }
        cmds
    }

    /// Takes the colour the colour input reports.
    pub fn on_color_change(&mut self, color: String)
        ensures
            final(self)@ == step(old(self)@, Input::ColorChange(color@)).0,
            MIN_WIDTH <= final(self)@.style.width <= MAX_WIDTH,
    {
        proof {
            use_type_invariant(&*self);
        }
        self.style.set_color(color);
    }

    /// Takes the width the width input reports, clamped to the pen's range;
    /// text that is no number leaves the width as it was.
    pub fn on_width_change(&mut self, input: &str)
        ensures
            final(self)@ == step(old(self)@, Input::WidthChange(input@)).0,
            MIN_WIDTH <= final(self)@.style.width <= MAX_WIDTH,
    {
        proof {
            use_type_invariant(&*self);
        }
        if let Some(w) = width_from_input(input) {
            self.style.set_width_px(w);
        }
    }

    /// Clears the whole backing store; pen and session are left as they are.
    pub fn on_clear(&self) -> (r: Vec<DrawCommand>)
        ensures
            ops_of(r@) == step(self@, Input::Clear).1,
    {
        let cmds = vec![DrawCommand::ClearRect(self.width, self.height)];
        proof {
            assert(ops_of(cmds@) =~= seq![DrawOp::ClearRect(self@.width, self@.height)]);
        }
        cmds
    }
}

} // verus!
