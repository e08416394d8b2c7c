//! Properties of the controller that hold over every state and input,
//! stated over `step` and the surface model.
use vstd::prelude::*;
use crate::controller::{
    CanvasView,
    Input,
    Layout,
    step,
    resize_ops,
    move_ops,
    target_width,
    target_height,
    lemma_resize_draws_nothing,
};
use crate::style::{width_of_input, MIN_WIDTH, MAX_WIDTH};
use crate::surface::{DrawOp, SurfaceModel, apply_ops};

verus! {

/// The surface agrees with the controller: it has the controller's size, and
/// outside a stroke no path is pending on it.
pub open spec fn in_sync(v: CanvasView, m: SurfaceModel) -> bool {
    &&& m.width == v.width
    &&& m.height == v.height
    &&& !v.painting ==> m.path.len() == 0
}

/// The surface gained no ink: its marks are as before, or it was blanked.
pub open spec fn no_new_ink(before: SurfaceModel, after: SurfaceModel) -> bool {
    after.marks == before.marks || after.marks.len() == 0
}

/// What fitting the surface does to it: it takes the target size, and is
/// blanked (pixels and path) exactly when some dimension was assigned.
proof fn lemma_apply_resize(v: CanvasView, m: SurfaceModel, l: Layout)
    requires
        m.width == v.width,
        m.height == v.height,
    ensures
        apply_ops(m, resize_ops(v, l)).width == target_width(l),
        apply_ops(m, resize_ops(v, l)).height == target_height(l),
        resize_ops(v, l).len() == 0 ==> apply_ops(m, resize_ops(v, l)) == m,
        resize_ops(v, l).len() > 0 ==> apply_ops(m, resize_ops(v, l)).marks.len() == 0
            && apply_ops(m, resize_ops(v, l)).path.len() == 0,
{
    reveal_with_fuel(apply_ops, 3);
    let w = target_width(l);
    let h = target_height(l);
    let ops = resize_ops(v, l);
    if w != v.width && h != v.height {
        assert(ops =~= seq![DrawOp::SetCanvasWidth(w), DrawOp::SetCanvasHeight(h)]);
        assert(ops.drop_last() =~= seq![DrawOp::SetCanvasWidth(w)]);
        assert(ops.drop_last().drop_last() =~= Seq::<DrawOp>::empty());
    } else if w != v.width {
        assert(ops =~= seq![DrawOp::SetCanvasWidth(w)]);
        assert(ops.drop_last() =~= Seq::<DrawOp>::empty());
    } else if h != v.height {
        assert(ops =~= seq![DrawOp::SetCanvasHeight(h)]);
        assert(ops.drop_last() =~= Seq::<DrawOp>::empty());
    } else {
        assert(ops =~= Seq::<DrawOp>::empty());
    }
}

/// Starting a stroke puts no ink on the surface, and a stroke that ends
/// before any move has rendered nothing either.
pub proof fn lemma_no_ink_before_first_move(
    v: CanvasView,
    m: SurfaceModel,
    page_x: i32,
    page_y: i32,
    layout: Layout,
)
    requires
        in_sync(v, m),
        !v.painting,
    ensures
        ({
            let (v1, ops1) = step(v, Input::StrokeStart { page_x, page_y, layout });
            let m1 = apply_ops(m, ops1);
            let (v2, ops2) = step(v1, Input::StrokeEnd);
            let m2 = apply_ops(m1, ops2);
            &&& forall|i: int| 0 <= i < ops1.len() ==> !(#[trigger] ops1[i] is Stroke)
            &&& no_new_ink(m, m1)
            &&& no_new_ink(m, m2)
        }),
{
    reveal_with_fuel(apply_ops, 3);
    lemma_resize_draws_nothing(v, layout);
    lemma_apply_resize(v, m, layout);
    let (v1, ops1) = step(v, Input::StrokeStart { page_x, page_y, layout });
    let m1 = apply_ops(m, ops1);
    let ops2 = seq![DrawOp::Stroke, DrawOp::BeginPath];
    assert(ops2.drop_last() =~= seq![DrawOp::Stroke]);
    assert(ops2.drop_last().drop_last() =~= Seq::<DrawOp>::empty());
    assert(m1.path.len() == 0);
    assert(apply_ops(m1, ops2).marks == m1.marks);
}

/// Once a stroke has ended, a move renders nothing and changes nothing until
/// a new stroke starts.
pub proof fn lemma_move_after_end_is_inert(
    v: CanvasView,
    page_x: i32,
    page_y: i32,
    offset_left: i32,
    offset_top: i32,
)
    ensures
        ({
            let v1 = step(v, Input::StrokeEnd).0;
            step(v1, Input::StrokeMove { page_x, page_y, offset_left, offset_top }) == (
                v1,
                Seq::<DrawOp>::empty(),
            )
        }),
{
}

/// Whatever the input text, the width it sets lies in the pen's range.
pub proof fn lemma_width_input_in_range(s: Seq<char>)
    ensures
        width_of_input(s) matches Some(w) ==> MIN_WIDTH <= w <= MAX_WIDTH,
{
}

/// Every event keeps the pen's width in range, and every line width handed to
/// the context lies in that range.
pub proof fn lemma_rendered_width_in_range(v: CanvasView, e: Input)
    requires
        MIN_WIDTH <= v.style.width <= MAX_WIDTH,
    ensures
        MIN_WIDTH <= step(v, e).0.style.width <= MAX_WIDTH,
        forall|i: int|
            0 <= i < step(v, e).1.len() ==> (#[trigger] step(v, e).1[i] matches DrawOp::SetLineWidth(
                w,
            ) ==> MIN_WIDTH <= w <= MAX_WIDTH),
{
    match e {
        Input::Resize(l) => lemma_resize_draws_nothing(v, l),
        Input::StrokeStart { layout, .. } => lemma_resize_draws_nothing(v, layout),
        _ => {},
    }
}

/// Fitting the surface assigns only dimensions that change, so fitting it
/// again to the same layout issues nothing and leaves its pixels as they are.
pub proof fn lemma_resize_settles(v: CanvasView, m: SurfaceModel, l: Layout)
    ensures
        forall|i: int|
            0 <= i < resize_ops(v, l).len() ==> (#[trigger] resize_ops(v, l)[i] matches DrawOp::SetCanvasWidth(
                w,
            ) ==> w != v.width),
        forall|i: int|
            0 <= i < resize_ops(v, l).len() ==> (#[trigger] resize_ops(v, l)[i] matches DrawOp::SetCanvasHeight(
                h,
            ) ==> h != v.height),
        ({
            let (v1, ops1) = step(v, Input::Resize(l));
            let (v2, ops2) = step(v1, Input::Resize(l));
            &&& v2 == v1
            &&& ops2.len() == 0
            &&& apply_ops(apply_ops(m, ops1), ops2) == apply_ops(m, ops1)
        }),
{
    let w = target_width(l);
    let h = target_height(l);
    let a: Seq<DrawOp> = if w != v.width {
        seq![DrawOp::SetCanvasWidth(w)]
    } else {
        Seq::empty()
    };
    let b: Seq<DrawOp> = if h != v.height {
        seq![DrawOp::SetCanvasHeight(h)]
    } else {
        Seq::empty()
    };
    assert(resize_ops(v, l) == a + b);
    assert forall|i: int| 0 <= i < (a + b).len() implies {
        &&& (#[trigger] (a + b)[i] matches DrawOp::SetCanvasWidth(x) ==> x != v.width)
        &&& ((a + b)[i] matches DrawOp::SetCanvasHeight(y) ==> y != v.height)
    } by {
        if i < a.len() {
            assert((a + b)[i] == a[i]);
        } else {
            assert((a + b)[i] == b[i - a.len()]);
        }
    }
    let v1 = step(v, Input::Resize(l)).0;
    assert(resize_ops(v1, l) =~= Seq::<DrawOp>::empty());
}

/// Clearing after any drawing leaves the surface blank, whatever pen drew on it.
pub proof fn lemma_clear_blanks_surface(v: CanvasView, m: SurfaceModel)
    requires
        in_sync(v, m),
    ensures
        step(v, Input::Clear).0 == v,
        apply_ops(m, step(v, Input::Clear).1).marks.len() == 0,
{
    reveal_with_fuel(apply_ops, 2);
    let ops = seq![DrawOp::ClearRect(v.width, v.height)];
    assert(ops.drop_last() =~= Seq::<DrawOp>::empty());
}

/// Every event keeps the surface in agreement with the controller: its size
/// is the last one computed, and no path lingers outside a stroke.
pub proof fn lemma_step_keeps_sync(v: CanvasView, m: SurfaceModel, e: Input)
    requires
        in_sync(v, m),
    ensures
        in_sync(step(v, e).0, apply_ops(m, step(v, e).1)),
{
    reveal_with_fuel(apply_ops, 6);
    match e {
        Input::Resize(l) => lemma_apply_resize(v, m, l),
        Input::StrokeStart { layout, .. } => lemma_apply_resize(v, m, layout),
        Input::StrokeMove { page_x, page_y, offset_left, offset_top } => {
            if v.painting {
                let ops = move_ops(v.style, page_x - offset_left, page_y - offset_top);
                assert(ops.drop_last().drop_last().drop_last().drop_last().drop_last()
                    =~= Seq::<DrawOp>::empty());
            } else {
                assert(apply_ops(m, Seq::<DrawOp>::empty()) == m);
            }
        },
        Input::StrokeEnd => {
            let ops = seq![DrawOp::Stroke, DrawOp::BeginPath];
            assert(ops.drop_last() =~= seq![DrawOp::Stroke]);
            assert(ops.drop_last().drop_last() =~= Seq::<DrawOp>::empty());
        },
        Input::Clear => {
            let ops = seq![DrawOp::ClearRect(v.width, v.height)];
            assert(ops.drop_last() =~= Seq::<DrawOp>::empty());
        },
        _ => {},
    }
}

} // verus!
