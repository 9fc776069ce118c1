//! What holds of the passes on every flow.

use vstd::prelude::*;
use crate::float_context::{FloatContextView, PlacementInfo};
use crate::float_flow::{
    FloatFlowView, lemma_heights_keep_size, lemma_stacked_height_same, stacked_height, widest_min,
    widest_pref,
};
use crate::flow::{FlowDataView, FlowView};
use crate::geometry::{Au, Rect, Size2D, au, fits};
use crate::model::{LengthOrPercentageOrAuto, scaled};

verus! {

/// `x` held between `low` and `high`; the lower bound wins where the two
/// cross.
pub open spec fn clamped(x: int, low: int, high: int) -> int {
    if x < low {
        low
    } else if x > high {
        high
    } else {
        x
    }
}

/// Among flows whose minimum width is at most their preferred width, the
/// widest minimum is at most the widest preferred width, and neither is
/// negative.
pub proof fn lemma_widest_ordered(children: Seq<FlowView>, n: int)
    requires
        0 <= n <= children.len(),
        forall|i: int|
            0 <= i < children.len() ==> (#[trigger] children[i]).base().min_width@
                <= children[i].base().pref_width@,
    ensures
        0 <= widest_min(children, n) <= widest_pref(children, n),
    decreases n,
{
    if n > 0 {
        lemma_widest_ordered(children, n - 1);
    }
}

/// After the bubbling pass the minimum width of a flow is at most its
/// preferred width, and not negative, where that holds of the flow's box and
/// of each child.
pub proof fn lemma_bubbled_widths_ordered(v: FloatFlowView)
    requires
        v.bubbles_fit(),
        forall|i: int|
            0 <= i < v.children.len() ==> (#[trigger] v.children[i]).base().min_width@
                <= v.children[i].base().pref_width@,
        match v.render_box {
            Some(b) => b.wf(),
            None => true,
        },
    ensures
        v.bubbled().common.wf(),
{
    lemma_widest_ordered(v.children, v.children.len() as int);
}

/// A share of a width that is not negative is not negative.
pub proof fn lemma_scaled_not_negative(base: int, percent: int)
    requires
        0 <= base,
        0 <= percent,
    ensures
        0 <= scaled(base, percent),
{
    assert(0 <= base * percent) by (nonlinear_arith)
        requires
            0 <= base,
            0 <= percent,
    ;
}

/// After the width pass the width of a flow is not negative, where the width
/// it was given and the width its box declares are not; and a flow whose box
/// declares no width has the given width held between its minimum and its
/// preferred width.
pub proof fn lemma_assigned_width(v: FloatFlowView)
    requires
        v.widths_fit(),
        v.common.wf(),
        0 <= v.given_width(),
        match v.render_box {
            Some(b) => match b.style.width {
                LengthOrPercentageOrAuto::Length(l) => 0 <= l@,
                _ => true,
            },
            None => true,
        },
    ensures
        0 <= v.widths_assigned().common.position.size.width@,
        forall|i: int|
            0 <= i < v.children.len() ==> 0 <= (#[trigger] v.widths_assigned().children[i]).base().position.size.width@,
        match v.render_box {
            Some(b) => b.style.width == LengthOrPercentageOrAuto::Auto
                ==> v.widths_assigned().common.position.size.width@ == clamped(
                v.given_width(),
                v.common.min_width@,
                v.common.pref_width@,
            ),
            None => v.widths_assigned().common.position.size.width@ == v.given_width(),
        },
{
    match v.render_box {
        Some(b) => match b.style.width {
            LengthOrPercentageOrAuto::Percentage(p) => {
                lemma_scaled_not_negative(v.given_width(), p as int);
            },
            _ => {},
        },
        None => {},
    }
}

/// The width pass gives a floated box a zero margin on every edge where its
/// style leaves the margin to the layout, whatever the width of the
/// containing block.
pub proof fn lemma_auto_margins_are_zero(v: FloatFlowView)
    requires
        v.render_box is Some,
    ensures
        ({
            let before = v.render_box->0;
            let after = v.widths_assigned().render_box->0;
            &&& before.style.margin.top == LengthOrPercentageOrAuto::Auto ==> after.model.margin.top
                == Au(0)
            &&& before.style.margin.right == LengthOrPercentageOrAuto::Auto
                ==> after.model.margin.right == Au(0)
            &&& before.style.margin.bottom == LengthOrPercentageOrAuto::Auto
                ==> after.model.margin.bottom == Au(0)
            &&& before.style.margin.left == LengthOrPercentageOrAuto::Auto
                ==> after.model.margin.left == Au(0)
        }),
{
}

/// Of two flows with the same box, the one whose children are taller
/// together is at least as tall after the height pass.
pub proof fn lemma_height_monotone(a: FloatFlowView, b: FloatFlowView)
    requires
        a.render_box == b.render_box,
        a.content_height() <= b.content_height(),
        fits(a.final_height()),
        fits(b.final_height()),
    ensures
        a.final_height() <= b.final_height(),
        a.heights_assigned().common.floats_out.placed.last().height@
            <= b.heights_assigned().common.floats_out.placed.last().height@,
        match a.render_box {
            Some(_) => a.heights_assigned().render_box->0.position.size.height@
                <= b.heights_assigned().render_box->0.position.size.height@,
            None => true,
        },
{
}

/// The height pass puts each child directly under the one before it: the
/// first at the top offset, the next lower by the height of the one above.
pub proof fn lemma_children_stack(v: FloatFlowView, i: int)
    requires
        v.heights_fit(),
        0 <= i < v.children.len(),
    ensures
        v.heights_assigned().children[i].base().position.origin.y@ == v.child_y(i),
        v.child_y(0) == v.top_offset(),
        v.child_y(i + 1) == v.child_y(i) + v.children[i].base().position.size.height@,
        v.heights_assigned().children[i].base().position.size
            == v.children[i].base().position.size,
{
    assert(stacked_height(v.children, i + 1) == stacked_height(v.children, i)
        + v.children[i].base().position.size.height@);
    assert(fits(v.child_y(i)));
    lemma_heights_keep_size(v.children[i]);
}

/// Registering a footprint gives a state that holds what the prior state
/// held and the footprint after it, and nothing else: two equal prior states
/// give equal states for the same footprint, and a registration made with one
/// of them is not in what the other gives.
pub proof fn lemma_registration_is_by_value(
    a: FloatContextView,
    b: FloatContextView,
    request: PlacementInfo,
    other: PlacementInfo,
)
    requires
        a == b,
    ensures
        a.with_float(request) == b.with_float(request),
        a.with_float(request).placed.len() == a.placed.len() + 1,
        a.with_float(request).placed.subrange(0, a.placed.len() as int) == a.placed,
        a.with_float(request).placed.last() == request,
        b.with_float(other).with_float(request).placed.len() == a.with_float(request).placed.len()
            + 1,
{
    assert(a.with_float(request).placed.subrange(0, a.placed.len() as int) =~= a.placed);
}

/// The height pass leaves the incoming placement state of a flow as it was;
/// the outgoing state is the incoming one with the flow's footprint
/// registered.
pub proof fn lemma_height_pass_keeps_incoming_state(v: FloatFlowView)
    ensures
        v.heights_assigned().common.floats_in == v.common.floats_in,
        v.heights_assigned().common.floats_out == v.common.floats_in.with_float(
            v.placement_request(),
        ),
{
}

/// The height pass changes nothing of a flow's shared state but the outgoing
/// placement state.
pub proof fn lemma_heights_keep_base(v: FlowView)
    ensures
        v.heights_assigned().base() == (FlowDataView {
            floats_out: v.heights_assigned().base().floats_out,
            ..v.base()
        }),
{
}

/// The height pass reads nothing of a flow's vertical offset: to move the
/// flow before the pass is to move it after the pass.
pub proof fn lemma_heights_commute_with_origin_y(v: FlowView, y: Au)
    ensures
        v.with_origin_y(y).heights_assigned() == v.heights_assigned().with_origin_y(y),
{
    match v {
        FlowView::Float(f) => {
            let moved = v.with_origin_y(y)->Float_0;
            assert(moved.heights_assigned().children =~= f.heights_assigned().children);
        },
        FlowView::Other(_) => {},
    }
}

/// A second height pass on a flow changes nothing.
pub proof fn lemma_heights_idempotent(v: FlowView)
    ensures
        v.heights_assigned().heights_assigned() == v.heights_assigned(),
    decreases v, 1int,
{
    match v {
        FlowView::Float(f) => {
            lemma_float_heights_idempotent(f);
        },
        FlowView::Other(_) => {},
    }
}

/// A second height pass on a float flow changes nothing.
pub proof fn lemma_float_heights_idempotent(f: FloatFlowView)
    ensures
        f.heights_assigned().heights_assigned() == f.heights_assigned(),
    decreases f, 0int,
{
    let h = f.heights_assigned();
    let n = f.children.len() as int;
    assert forall|i: int| 0 <= i < n implies (#[trigger] h.children[i]).base().position.size.height
        == f.children[i].base().position.size.height by {
        lemma_heights_keep_base(f.children[i]);
    }
    assert forall|k: int| 0 <= k <= n implies #[trigger] stacked_height(h.children, k)
        == stacked_height(f.children, k) by {
        lemma_stacked_height_same(h.children, f.children, k);
    }
    assert(h.content_height() == f.content_height());
    assert(h.final_height() == f.final_height());
    assert forall|i: int| 0 <= i < n implies #[trigger] h.heights_assigned().children[i]
        == h.children[i] by {
        let c = f.children[i];
        let y = au(f.child_y(i));
        lemma_heights_idempotent(c);
        lemma_heights_commute_with_origin_y(c.heights_assigned(), y);
        assert(h.child_y(i) == f.child_y(i));
        assert(h.children[i] == c.heights_assigned().with_origin_y(y));
    }
    assert(h.heights_assigned().children =~= h.children);
}

/// The flow with the width that its parent hands it for a layout cycle.
pub open spec fn with_given_width(v: FloatFlowView, given: Au) -> FloatFlowView {
    FloatFlowView {
        common: FlowDataView {
            position: Rect {
                origin: v.common.position.origin,
                size: Size2D { width: given, height: v.common.position.size.height },
            },
            ..v.common
        },
        ..v
    }
}

/// The flow after one layout cycle: bubbling, the width pass on the width
/// that the parent gives, and the height pass.
pub open spec fn laid_out(v: FloatFlowView, given: Au) -> FloatFlowView {
    with_given_width(v.bubbled(), given).widths_assigned().heights_assigned()
}

/// The widest minimum and preferred widths depend on the intrinsic widths of
/// the flows alone.
pub proof fn lemma_widest_same(a: Seq<FlowView>, b: Seq<FlowView>, n: int)
    requires
        0 <= n <= a.len(),
        n <= b.len(),
        forall|i: int|
            0 <= i < n ==> (#[trigger] a[i]).base().min_width == b[i].base().min_width
                && a[i].base().pref_width == b[i].base().pref_width,
    ensures
        widest_min(a, n) == widest_min(b, n),
        widest_pref(a, n) == widest_pref(b, n),
    decreases n,
{
    if n > 0 {
        lemma_widest_same(a, b, n - 1);
    }
}

/// A second layout cycle on a flow, with the same width given by the parent
/// and nothing else changed, leaves every position, size and placement state
/// as the first cycle made it.
pub proof fn lemma_layout_cycle_idempotent(v: FloatFlowView, given: Au)
    ensures
        laid_out(laid_out(v, given), given) == laid_out(v, given),
{
    let n = v.children.len() as int;
    let b1 = v.bubbled();
    let g1 = with_given_width(b1, given);
    let w1 = g1.widths_assigned();
    let t1 = w1.heights_assigned();
    let b2 = t1.bubbled();
    let g2 = with_given_width(b2, given);
    let w2 = g2.widths_assigned();
    let t2 = w2.heights_assigned();
    let x = au(g1.x_offset());
    let w = au(g1.resolved_width());

    assert forall|i: int| 0 <= i < n implies (#[trigger] t1.children[i]).base().min_width
        == v.children[i].base().min_width && t1.children[i].base().pref_width
        == v.children[i].base().pref_width by {
        lemma_heights_keep_base(w1.children[i]);
    }
    lemma_widest_same(t1.children, v.children, n);
    assert(t1.bubbled_min() == v.bubbled_min());
    assert(t1.bubbled_pref() == v.bubbled_pref());
    assert(b2.common == t1.common);
    assert(b2.render_box == t1.render_box);
    assert(g2.x_offset() == g1.x_offset());
    assert(g2.resolved_width() == g1.resolved_width());

    assert forall|i: int| 0 <= i < n implies #[trigger] w2.children[i] == t1.children[i] by {
        lemma_heights_keep_base(w1.children[i]);
    }
    assert(w2.children =~= t1.children);
    assert(w2.common == (FlowDataView { floats_out: t1.common.floats_out, ..w1.common }));
    assert(w2.containing_width == w1.containing_width);

    assert forall|i: int| 0 <= i < n implies (#[trigger] w2.children[i]).base().position.size.height
        == w1.children[i].base().position.size.height by {
        lemma_heights_keep_base(w1.children[i]);
    }
    assert forall|k: int| 0 <= k <= n implies #[trigger] stacked_height(w2.children, k)
        == stacked_height(w1.children, k) by {
        lemma_stacked_height_same(w2.children, w1.children, k);
    }
    assert(w2.content_height() == w1.content_height());
    assert(w2.top_offset() == w1.top_offset());
    assert(w2.final_height() == w1.final_height());
    assert(t2.render_box == t1.render_box);
    assert(t2.common == t1.common);

    assert forall|i: int| 0 <= i < n implies #[trigger] t2.children[i] == t1.children[i] by {
        let d = w1.children[i];
        let y = au(w1.child_y(i));
        lemma_heights_idempotent(d);
        lemma_heights_commute_with_origin_y(d.heights_assigned(), y);
        assert(w2.child_y(i) == w1.child_y(i));
        assert(t1.children[i] == d.heights_assigned().with_origin_y(y));
        assert(w2.children[i] == t1.children[i]);
    }
    assert(t2.children =~= t1.children);
}

} // verus!
