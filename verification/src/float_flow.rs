//! The float flow: a floated box with the flows it contains, and the passes
//! that lay it out.

use vstd::prelude::*;
use crate::display_list::{DisplayItem, DisplayList};
use crate::float_context::{FloatType, PlacementInfo};
use crate::flow::{Flow, FlowData, FlowDataView, FlowView};
use crate::geometry::{Au, Point2D, Rect, Size2D, au, fits, max, max_int, min, min_int};
use crate::model::{BoxModel, MaybeAuto};
use crate::render_box::RenderBox;

verus! {

/// A float flow.
#[derive(Debug)]
pub struct FloatFlowData {
    /// The state shared with all kinds of flow.
    pub common: FlowData,
    /// The flow's own box; an anonymous float has none.
    pub render_box: Option<RenderBox>,
    /// The width of the containing block, kept by the width pass.
    pub containing_width: Au,
    /// The float's place among the boxes of a line, where it stands in one.
    pub index: Option<usize>,
    /// The flows inside the float, in document order.
    pub children: Vec<Flow>,
}

/// The value of a `FloatFlowData`.
pub struct FloatFlowView {
    pub common: FlowDataView,
    pub render_box: Option<RenderBox>,
    pub containing_width: Au,
    pub index: Option<usize>,
    pub children: Seq<FlowView>,
}

/// The heights of the first `n` flows of `children`, added up.
pub open spec fn stacked_height(children: Seq<FlowView>, n: int) -> int
    decreases n,
{
    if n <= 0 {
        0
    } else {
        stacked_height(children, n - 1) + children[n - 1].base().position.size.height@
    }
}

impl FlowView {
    /// Whether every length that the height pass computes in the flow's
    /// subtree can be held.
    pub open spec fn heights_fit(self) -> bool
        decreases self,
    {
        match self {
            FlowView::Float(f) => f.heights_fit(),
            FlowView::Other(_) => true,
        }
    }

    /// The flow after the height pass. A flow of another kind is left as it
    /// is: its own layout gives it its height.
    pub open spec fn heights_assigned(self) -> FlowView
        decreases self,
    {
        match self {
            FlowView::Float(f) => FlowView::Float(f.heights_assigned()),
            FlowView::Other(_) => self,
        }
    }
}

impl FloatFlowView {
    /// The distance from the top of the flow to its first child: the top
    /// margin, border and padding of the flow's box, zero without a box.
    pub open spec fn top_offset(self) -> int {
        match self.render_box {
            Some(b) => b.model.top_offset(),
            None => 0,
        }
    }

    /// The height of the children, stacked one under the other.
    pub open spec fn content_height(self) -> int {
        stacked_height(self.children, self.children.len() as int)
    }

    /// The vertical offset of the `i`-th child.
    pub open spec fn child_y(self, i: int) -> int {
        self.top_offset() + stacked_height(self.children, i)
    }

    /// The height of the flow's footprint. With a box it is the content
    /// height, or the declared height where that is larger (an undeclared
    /// height counts as zero), with padding, border and margin, top and
    /// bottom, added. Without a box it is the content height.
    pub open spec fn final_height(self) -> int {
        match self.render_box {
            Some(b) => max_int(self.content_height(), b.style.height.resolved_or(0, 0))
                + b.model.vertical_extent() + b.model.vertical_margin(),
            None => self.content_height(),
        }
    }

    /// The footprint that the height pass registers: the flow's width and
    /// final height, no ceiling, the containing width as the room there is,
    /// on the left side.
    pub open spec fn placement_request(self) -> PlacementInfo {
        PlacementInfo {
            width: self.common.position.size.width,
            height: au(self.final_height()),
            ceiling: Au(0),
            max_width: self.containing_width,
            f_type: FloatType::FloatLeft,
        }
    }

    /// Whether every length that the height pass computes, in this flow and
    /// below it, can be held: each child's vertical offset, the content
    /// height and the final height.
    pub open spec fn heights_fit(self) -> bool
        decreases self,
    {
        &&& forall|i: int|
            0 <= i < self.children.len() ==> (#[trigger] self.children[i]).heights_fit()
        &&& forall|i: int| 0 <= i <= self.children.len() ==> fits(#[trigger] self.child_y(i))
        &&& fits(self.top_offset())
        &&& fits(self.content_height())
        &&& fits(self.final_height())
    }

    /// The flow's box after the height pass: its border box starts at the top
    /// margin and has the final height.
    pub open spec fn box_with_height(self) -> Option<RenderBox> {
        match self.render_box {
            Some(b) => Some(
                RenderBox {
                    position: Rect {
                        origin: Point2D { x: b.position.origin.x, y: b.model.margin.top },
                        size: Size2D {
                            width: b.position.size.width,
                            height: au(self.final_height()),
                        },
                    },
                    ..b
                },
            ),
            None => None,
        }
    }

    /// The flow after the height pass. Every child has had its own height
    /// pass and stands under the one before it, the first at the top offset.
    /// The flow's box has its vertical place and height. The outgoing
    /// placement state is the incoming one with the flow's footprint
    /// registered. Nothing else changes.
    pub open spec fn heights_assigned(self) -> FloatFlowView
        decreases self,
    {
        FloatFlowView {
            common: FlowDataView {
                floats_out: self.common.floats_in.with_float(self.placement_request()),
                ..self.common
            },
            render_box: self.box_with_height(),
            containing_width: self.containing_width,
            index: self.index,
            children: Seq::new(
                self.children.len(),
                |i: int|
                    if 0 <= i < self.children.len() {
                        self.children[i].heights_assigned().with_origin_y(au(self.child_y(i)))
                    } else {
                        arbitrary()
                    },
            ),
        }
    }
}

/// The largest minimum width among the first `n` flows of `children`, zero
/// where that is larger.
pub open spec fn widest_min(children: Seq<FlowView>, n: int) -> int
    decreases n,
{
    if n <= 0 {
        0
    } else {
        max_int(widest_min(children, n - 1), children[n - 1].base().min_width@)
    }
}

/// The largest preferred width among the first `n` flows of `children`, zero
/// where that is larger.
pub open spec fn widest_pref(children: Seq<FlowView>, n: int) -> int
    decreases n,
{
    if n <= 0 {
        0
    } else {
        max_int(widest_pref(children, n - 1), children[n - 1].base().pref_width@)
    }
}

impl FloatFlowView {
    /// The minimum width of the flow: the widest minimum among the children,
    /// and the minimum width of the flow's box added to it.
    pub open spec fn bubbled_min(self) -> int {
        widest_min(self.children, self.children.len() as int) + match self.render_box {
            Some(b) => b.min_width@,
            None => 0,
        }
    }

    /// The preferred width of the flow: the widest preferred width among the
    /// children, and the preferred width of the flow's box added to it.
    pub open spec fn bubbled_pref(self) -> int {
        widest_pref(self.children, self.children.len() as int) + match self.render_box {
            Some(b) => b.pref_width@,
            None => 0,
        }
    }

    /// Whether the two intrinsic widths of the flow can be held.
    pub open spec fn bubbles_fit(self) -> bool {
        fits(self.bubbled_min()) && fits(self.bubbled_pref())
    }

    /// The flow's box with its border widths taken from its style.
    pub open spec fn box_with_borders(self) -> Option<RenderBox> {
        match self.render_box {
            Some(b) => Some(
                RenderBox { model: BoxModel { border: b.style.border, ..b.model }, ..b },
            ),
            None => None,
        }
    }

    /// The flow after the bubbling pass. It counts as one float. Its
    /// intrinsic widths are the bubbled ones. Every child has a placement
    /// state of its own with nothing registered. The flow's box has its
    /// border widths. Nothing else changes.
    pub open spec fn bubbled(self) -> FloatFlowView {
        FloatFlowView {
            common: FlowDataView {
                num_floats: 1,
                min_width: au(self.bubbled_min()),
                pref_width: au(self.bubbled_pref()),
                ..self.common
            },
            render_box: self.box_with_borders(),
            containing_width: self.containing_width,
            index: self.index,
            children: Seq::new(
                self.children.len(),
                |i: int| self.children[i].with_fresh_floats_in(),
            ),
        }
    }

    /// The width that the parent gave the flow: the width of its containing
    /// block.
    pub open spec fn given_width(self) -> int {
        self.common.position.size.width@
    }

    /// The preferred width, but no less than the minimum width where the
    /// containing block is narrower, and no more than the containing block
    /// where that lies between the two.
    pub open spec fn shrink_to_fit(self) -> int {
        min_int(
            self.common.pref_width@,
            max_int(self.common.min_width@, self.given_width()),
        )
    }

    /// The width of the flow's content: the declared width of its box, the
    /// shrink-to-fit width where none is declared, and the given width where
    /// the flow has no box.
    pub open spec fn resolved_width(self) -> int {
        match self.render_box {
            Some(b) => b.style.width.resolved_or(self.given_width(), self.shrink_to_fit()),
            None => self.given_width(),
        }
    }

    /// The box model of the flow's box after the width pass: padding
    /// resolved against the given width, margins too, with zero for "auto".
    pub open spec fn resolved_model(self, b: RenderBox) -> BoxModel {
        BoxModel {
            margin: b.style.margin.resolved_for_float(self.given_width()),
            border: b.model.border,
            padding: b.style.padding.resolved(self.given_width()),
        }
    }

    /// The horizontal offset of the children: left margin, border and
    /// padding of the flow's box, zero without a box.
    pub open spec fn x_offset(self) -> int {
        match self.render_box {
            Some(b) => self.resolved_model(b).left_offset(),
            None => 0,
        }
    }

    /// The width of the border box of the flow's box.
    pub open spec fn box_width(self, b: RenderBox) -> int {
        self.resolved_width() + self.resolved_model(b).horizontal_extent()
    }

    /// Whether every length that the width pass computes can be held.
    pub open spec fn widths_fit(self) -> bool {
        match self.render_box {
            Some(b) => {
                &&& b.style.padding.resolvable(self.given_width())
                &&& b.style.margin.resolvable(self.given_width())
                &&& b.style.width.resolvable(self.given_width())
                &&& fits(self.x_offset())
                &&& fits(self.box_width(b))
            },
            None => true,
        }
    }

    /// The flow's box after the width pass: its model resolved, its border
    /// box starting at the left margin, content width, padding and border
    /// wide.
    pub open spec fn box_with_width(self) -> Option<RenderBox> {
        match self.render_box {
            Some(b) => Some(
                RenderBox {
                    model: self.resolved_model(b),
                    position: Rect {
                        origin: Point2D {
                            x: self.resolved_model(b).margin.left,
                            y: b.position.origin.y,
                        },
                        size: Size2D {
                            width: au(self.box_width(b)),
                            height: b.position.size.height,
                        },
                    },
                    ..b
                },
            ),
            None => None,
        }
    }

    /// The flow after the width pass. It keeps the given width as the
    /// containing width and has the resolved width. Every child stands at
    /// the same horizontal offset and has the same width, the resolved one.
    /// Nothing else changes.
    pub open spec fn widths_assigned(self) -> FloatFlowView {
        FloatFlowView {
            common: FlowDataView {
                position: Rect {
                    origin: self.common.position.origin,
                    size: Size2D {
                        width: au(self.resolved_width()),
                        height: self.common.position.size.height,
                    },
                },
                ..self.common
            },
            render_box: self.box_with_width(),
            containing_width: self.common.position.size.width,
            index: self.index,
            children: Seq::new(
                self.children.len(),
                |i: int|
                    self.children[i].with_horizontal(
                        au(self.x_offset()),
                        au(self.resolved_width()),
                    ),
            ),
        }
    }
}

/// What the first `n` flows of `children` paint, one after the other.
pub open spec fn children_paint_items(
    children: Seq<FlowView>,
    n: int,
    dirty: Rect,
    offset: Point2D,
) -> Seq<DisplayItem>
    decreases children, n,
{
    if 0 < n <= children.len() {
        children_paint_items(children, n - 1, dirty, offset) + children[n - 1].paint_items_as_child(
            dirty,
            offset,
        )
    } else {
        Seq::empty()
    }
}

impl FlowView {
    /// The offset at which the flow's own content stands, where its parent
    /// stands at `offset`.
    pub open spec fn offset_within(self, offset: Point2D) -> Point2D {
        self.base().position.moved_by(offset).origin
    }

    /// What the flow paints as a child of a flow that stands at `offset`:
    /// nothing where its rectangle misses the dirty rectangle, and nothing of
    /// its own where it is no float flow.
    pub open spec fn paint_items_as_child(self, dirty: Rect, offset: Point2D) -> Seq<DisplayItem>
        decreases self, 0int,
    {
        match self {
            FlowView::Float(f) => if self.base().position.moved_by(offset).overlaps(dirty) {
                f.paint_items(dirty, self.offset_within(offset))
            } else {
                Seq::empty()
            },
            FlowView::Other(_) => Seq::empty(),
        }
    }

    /// Whether every rectangle that painting moves, in the flow and below
    /// it, stays within the range of lengths.
    pub open spec fn can_paint_as_child(self, dirty: Rect, offset: Point2D) -> bool
        decreases self,
    {
        &&& self.base().position.can_translate(offset)
        &&& match self {
            FlowView::Float(f) => self.base().position.moved_by(offset).overlaps(dirty)
                ==> f.can_paint(dirty, self.offset_within(offset)),
            FlowView::Other(_) => true,
        }
    }
}

impl FloatFlowView {
    /// What the flow paints where it stands at `offset`: the items of its
    /// own box, then those of its children in their order.
    pub open spec fn paint_items(self, dirty: Rect, offset: Point2D) -> Seq<DisplayItem>
        decreases self, 0int,
    {
        (match self.render_box {
            Some(b) => b.paint_items(dirty, offset),
            None => Seq::empty(),
        }) + children_paint_items(self.children, self.children.len() as int, dirty, offset)
    }

    /// Whether every rectangle that painting moves, in the flow and below
    /// it, stays within the range of lengths.
    pub open spec fn can_paint(self, dirty: Rect, offset: Point2D) -> bool
        decreases self,
    {
        &&& match self.render_box {
            Some(b) => b.position.can_translate(offset),
            None => true,
        }
        &&& forall|i: int|
            0 <= i < self.children.len() ==> (#[trigger] self.children[i]).can_paint_as_child(
                dirty,
                offset,
            )
    }
}

/// The height pass leaves the extent of a flow's own rectangle as it was.
pub proof fn lemma_heights_keep_size(v: FlowView)
    ensures
        v.heights_assigned().base().position == v.base().position,
{
}

/// Stacked heights depend on the heights of the flows alone.
pub proof fn lemma_stacked_height_same(a: Seq<FlowView>, b: Seq<FlowView>, n: int)
    requires
        0 <= n <= a.len(),
        n <= b.len(),
        forall|i: int|
            0 <= i < n ==> (#[trigger] a[i]).base().position.size.height
                == b[i].base().position.size.height,
    ensures
        stacked_height(a, n) == stacked_height(b, n),
    decreases n,
{
    if n > 0 {
        lemma_stacked_height_same(a, b, n - 1);
    }
}

impl Flow {
    /// The height pass on a flow of any kind. A flow of another kind than a
    /// float is laid out by its own rules and left as it is.
    pub fn assign_height(&mut self)
        requires
            old(self)@.heights_fit(),
        ensures
            final(self)@ == old(self)@.heights_assigned(),
        decreases *old(self),
    {
        match self {
            Flow::Float(f) => {
                f.assign_height_float();
            },
            Flow::Other(_) => {},
        }
    }

    /// Whether `assign_height` can be called on the flow.
    pub fn can_assign_height(&self) -> (r: bool)
        ensures
            r == self@.heights_fit(),
        decreases self,
    {
        match self {
            Flow::Float(f) => f.can_assign_height(),
            Flow::Other(_) => true,
        }
    }

    /// Whether `build_display_list_for_child` can be called on the flow with
    /// this dirty rectangle and offset.
    pub fn can_build_display_list_for_child(&self, dirty: &Rect, offset: &Point2D) -> (r: bool)
        ensures
            r == self@.can_paint_as_child(*dirty, *offset),
        decreases self,
    {
        match self {
            Flow::Float(f) => {
                if !f.common.position.translates(offset) {
                    return false;
                }
                let bounds = f.common.position.translate(offset);
                if bounds.intersects(dirty) {
                    f.can_build_display_list(dirty, &bounds.origin)
                } else {
                    true
                }
            },
            Flow::Other(d) => d.position.translates(offset),
        }
    }

    /// Paints a child of a flow that stands at `offset`: where the child's
    /// rectangle meets the dirty rectangle, the child paints at its own
    /// place within the parent.
    pub fn build_display_list_for_child(
        &self,
        dirty: &Rect,
        offset: &Point2D,
        list: &mut DisplayList,
    )
        requires
            self@.can_paint_as_child(*dirty, *offset),
        ensures
            final(list)@ == old(list)@ + self@.paint_items_as_child(*dirty, *offset),
        decreases self,
    {
        match self {
            Flow::Float(f) => {
                let bounds = f.common.position.translate(offset);
                if bounds.intersects(dirty) {
                    f.build_display_list_float(dirty, &bounds.origin, list);
                } else {
                    assert(list@ =~= old(list)@ + self@.paint_items_as_child(*dirty, *offset));
                }
            },
            Flow::Other(_) => {
                assert(list@ =~= old(list)@ + self@.paint_items_as_child(*dirty, *offset));
            },
        }
    }
}

impl FloatFlowData {
    pub open spec fn view(self) -> FloatFlowView
        decreases self,
    {
        FloatFlowView {
            common: self.common@,
            render_box: self.render_box,
            containing_width: self.containing_width,
            index: self.index,
            children: Seq::new(
                self.children@.len(),
                |i: int|
                    if 0 <= i < self.children@.len() {
                        self.children@[i].view()
                    } else {
                        arbitrary()
                    },
            ),
        }
    }

    /// A float flow with no box, no children and no place in a line.
    pub fn new(common: FlowData) -> (r: FloatFlowData)
        ensures
            r@ == (FloatFlowView {
                common: common@,
                render_box: None,
                containing_width: Au(0),
                index: None,
                children: Seq::empty(),
            }),
            r.children@.len() == 0,
    {
        let r = FloatFlowData {
            common,
            render_box: None,
            containing_width: Au(0),
            index: None,
            children: Vec::new(),
        };
        assert(r@.children =~= Seq::empty());
        r
    }

    /// The bubbling pass: counts the flow as one float, computes its
    /// intrinsic widths from its children and its box, gives every child a
    /// placement state of its own, and takes the border widths of the flow's
    /// box from its style. The children have been bubbled before.
    pub fn bubble_widths_float(&mut self)
        requires
            old(self)@.bubbles_fit(),
        ensures
            final(self)@ == old(self)@.bubbled(),
            final(self).children@.len() == old(self).children@.len(),
    {
        let ghost pre = self@;
        let mut min_width: Au = Au(0);
        let mut pref_width: Au = Au(0);
        self.common.num_floats = 1;

        let n: usize = self.children.len();
        let mut i: usize = 0;
        while i < n
            invariant
                n == self.children@.len(),
                n == pre.children.len(),
                i <= n,
                pre == old(self)@,
                pre.bubbles_fit(),
                self.common@ == (FlowDataView { num_floats: 1, ..pre.common }),
                self.render_box == pre.render_box,
                self.containing_width == pre.containing_width,
                self.index == pre.index,
                min_width@ == widest_min(pre.children, i as int),
                pref_width@ == widest_pref(pre.children, i as int),
                forall|j: int|
                    0 <= j < i ==> (#[trigger] self.children@[j]).view()
                        == pre.children[j].with_fresh_floats_in(),
                forall|j: int|
                    i <= j < n ==> (#[trigger] self.children@[j]).view() == pre.children[j],
            decreases n - i,
        {
            let child_min: Au = self.children[i].base().min_width;
            let child_pref: Au = self.children[i].base().pref_width;
            min_width = max(min_width, child_min);
            pref_width = max(pref_width, child_pref);
            self.children[i].reset_floats_in();
            i = i + 1;
        }

        match self.render_box {
            Some(b) => {
                let mut own = b;
                own.model.compute_borders(&b.style);
                self.render_box = Some(own);
                min_width = min_width.plus(b.get_min_width());
                pref_width = pref_width.plus(b.get_pref_width());
            },
            None => {},
        }

        self.common.min_width = min_width;
        self.common.pref_width = pref_width;
        assert(self@.children =~= pre.bubbled().children);
    }

    /// The width pass: takes the width that the parent gave as the width of
    /// the containing block, resolves the box model and the width of the
    /// flow's box against it, and hands the resolved width and the
    /// horizontal offset of the content to every child.
    pub fn assign_widths_float(&mut self)
        requires
            old(self)@.widths_fit(),
        ensures
            final(self)@ == old(self)@.widths_assigned(),
            final(self).children@.len() == old(self).children@.len(),
    {
        let ghost pre = self@;
        let mut remaining_width: Au = self.common.position.size.width;
        self.containing_width = remaining_width;
        let mut x_offset: Au = Au(0);

        match self.render_box {
            Some(b) => {
                let mut own = b;
                own.model.compute_padding(&b.style, remaining_width);

                let margin_top = MaybeAuto::from_style(
                    b.style.margin.top,
                    remaining_width,
                ).spec_or_default(Au(0));
                let margin_bottom = MaybeAuto::from_style(
                    b.style.margin.bottom,
                    remaining_width,
                ).spec_or_default(Au(0));
                let margin_left = MaybeAuto::from_style(
                    b.style.margin.left,
                    remaining_width,
                ).spec_or_default(Au(0));
                let margin_right = MaybeAuto::from_style(
                    b.style.margin.right,
                    remaining_width,
                ).spec_or_default(Au(0));

                let shrink_to_fit = min(
                    self.common.pref_width,
                    max(self.common.min_width, remaining_width),
                );
                let width = MaybeAuto::from_style(b.style.width, remaining_width).spec_or_default(
                    shrink_to_fit,
                );

                own.model.margin.top = margin_top;
                own.model.margin.right = margin_right;
                own.model.margin.bottom = margin_bottom;
                own.model.margin.left = margin_left;
                assert(own.model == pre.resolved_model(b));

                x_offset = own.model.offset();
                remaining_width = width;

                own.position.origin.x = own.model.margin.left;
                let border_box: i64 = remaining_width.0 as i64 + own.model.padding.left.0 as i64
                    + own.model.padding.right.0 as i64 + own.model.border.left.0 as i64
                    + own.model.border.right.0 as i64;
                own.position.size.width = Au(border_box as i32);
                self.render_box = Some(own);
            },
            None => {},
        }

        self.common.position.size.width = remaining_width;

        let n: usize = self.children.len();
        let mut i: usize = 0;
        while i < n
            invariant
                n == self.children@.len(),
                n == pre.children.len(),
                i <= n,
                pre == old(self)@,
                x_offset == au(pre.x_offset()),
                remaining_width == au(pre.resolved_width()),
                self.common@ == pre.widths_assigned().common,
                self.render_box == pre.widths_assigned().render_box,
                self.containing_width == pre.widths_assigned().containing_width,
                self.index == pre.index,
                forall|j: int|
                    0 <= j < i ==> (#[trigger] self.children@[j]).view()
                        == pre.children[j].with_horizontal(x_offset, remaining_width),
                forall|j: int|
                    i <= j < n ==> (#[trigger] self.children@[j]).view() == pre.children[j],
            decreases n - i,
        {
            self.children[i].set_horizontal(x_offset, remaining_width);
            i = i + 1;
        }
        assert(self@.children =~= pre.widths_assigned().children);
    }

    /// The height pass: lays out the children's heights, stacks the children
    /// under the top offset, gives the flow's box its vertical place and
    /// final height, and registers the flow's footprint with the incoming
    /// placement state.
    pub fn assign_height_float(&mut self)
        requires
            old(self)@.heights_fit(),
        ensures
            final(self)@ == old(self)@.heights_assigned(),
            final(self).children@.len() == old(self).children@.len(),
        decreases *old(self),
    {
        let ghost pre = self@;
        let n: usize = self.children.len();
        let mut i: usize = 0;
        while i < n
            invariant
                n == self.children@.len(),
                n == old(self).children@.len(),
                i <= n,
                pre == old(self)@,
                pre.heights_fit(),
                self.common == old(self).common,
                self.render_box == old(self).render_box,
                self.containing_width == old(self).containing_width,
                self.index == old(self).index,
                forall|j: int|
                    0 <= j < i ==> (#[trigger] self.children@[j]).view()
                        == pre.children[j].heights_assigned(),
                forall|j: int| i <= j < n ==> self.children@[j] == old(self).children@[j],
            decreases n - i,
        {
            assert(pre.children[i as int].heights_fit());
            self.children[i].assign_height();
            i = i + 1;
        }

        let mut top_offset: Au = Au(0);
        match self.render_box {
            Some(b) => {
                let t: i64 = b.model.margin.top.0 as i64 + b.model.border.top.0 as i64
                    + b.model.padding.top.0 as i64;
                top_offset = Au(t as i32);
            },
            None => {},
        }
        let mut cur_y: Au = top_offset;
        assert(pre.child_y(0) == pre.top_offset());

        let mut k: usize = 0;
        while k < n
            invariant
                n == self.children@.len(),
                n == pre.children.len(),
                k <= n,
                pre == old(self)@,
                pre.heights_fit(),
                self.common == old(self).common,
                self.render_box == old(self).render_box,
                self.containing_width == old(self).containing_width,
                self.index == old(self).index,
                top_offset@ == pre.top_offset(),
                cur_y@ == pre.child_y(k as int),
                forall|j: int|
                    0 <= j < k ==> (#[trigger] self.children@[j]).view()
                        == pre.children[j].heights_assigned().with_origin_y(au(pre.child_y(j))),
                forall|j: int|
                    k <= j < n ==> (#[trigger] self.children@[j]).view()
                        == pre.children[j].heights_assigned(),
            decreases n - k,
        {
            proof {
                lemma_heights_keep_size(pre.children[k as int]);
                assert(fits(pre.child_y(k as int + 1)));
                assert(stacked_height(pre.children, k as int + 1) == stacked_height(
                    pre.children,
                    k as int,
                ) + pre.children[k as int].base().position.size.height@);
            }
            self.children[k].set_origin_y(cur_y);
            let h: Au = self.children[k].base().position.size.height;
            cur_y = cur_y.plus(h);
            k = k + 1;
        }

        let mut height: Au = cur_y.minus(top_offset);
        match self.render_box {
            Some(b) => {
                let declared: Au = MaybeAuto::from_style(b.style.height, Au(0)).spec_or_default(
                    Au(0),
                );
                let noncontent: i64 = b.model.padding.top.0 as i64 + b.model.padding.bottom.0 as i64
                    + b.model.border.top.0 as i64 + b.model.border.bottom.0 as i64
                    + b.model.margin.top.0 as i64 + b.model.margin.bottom.0 as i64;
                let total: i64 = max(height, declared).0 as i64 + noncontent;
                height = Au(total as i32);
                let mut laid = b;
                laid.position.origin.y = b.model.margin.top;
                laid.position.size.height = height;
                self.render_box = Some(laid);
            },
            None => {},
        }

        let info = PlacementInfo {
            width: self.common.position.size.width,
            height,
            ceiling: Au(0),
            max_width: self.containing_width,
            f_type: FloatType::FloatLeft,
        };
        self.common.floats_out = self.common.floats_in.add_float(&info);
        assert(self@.children =~= pre.heights_assigned().children);
    }

    /// Appends the paint items of the flow's box to `list`, then those of the
    /// children, in their order, each culled against the dirty rectangle.
    pub fn build_display_list_float(&self, dirty: &Rect, offset: &Point2D, list: &mut DisplayList)
        requires
            self@.can_paint(*dirty, *offset),
        ensures
            final(list)@ == old(list)@ + self@.paint_items(*dirty, *offset),
        decreases self,
    {
        let ghost own = match self.render_box {
            Some(b) => b.paint_items(*dirty, *offset),
            None => Seq::empty(),
        };
        match &self.render_box {
            Some(b) => {
                b.build_display_list(dirty, offset, list);
            },
            None => {
                assert(list@ =~= old(list)@ + own);
            },
        }

        let n: usize = self.children.len();
        let mut i: usize = 0;
        while i < n
            invariant
                n == self.children@.len(),
                n == self@.children.len(),
                i <= n,
                self@.can_paint(*dirty, *offset),
                list@ == old(list)@ + own + children_paint_items(
                    self@.children,
                    i as int,
                    *dirty,
                    *offset,
                ),
            decreases n - i,
        {
            assert(self@.children[i as int] == self.children@[i as int].view());
            assert(self@.children[i as int].can_paint_as_child(*dirty, *offset));
            self.children[i].build_display_list_for_child(dirty, offset, list);
            i = i + 1;
            assert(list@ =~= old(list)@ + own + children_paint_items(
                self@.children,
                i as int,
                *dirty,
                *offset,
            ));
        }
        assert(list@ =~= old(list)@ + self@.paint_items(*dirty, *offset));
    }

    /// Lets go of what the flow owns: its children, its box and its place in
    /// a line.
    pub fn teardown(&mut self)
        ensures
            final(self)@ == (FloatFlowView {
                render_box: None,
                index: None,
                children: Seq::empty(),
                ..old(self)@
            }),
    {
        self.children = Vec::new();
        self.render_box = None;
        self.index = None;
        assert(self@.children =~= Seq::empty());
    }

    /// Whether `bubble_widths_float` can be called on the flow.
    pub fn can_bubble_widths(&self) -> (r: bool)
        ensures
            r == self@.bubbles_fit(),
    {
        let mut min_width: Au = Au(0);
        let mut pref_width: Au = Au(0);
        let n: usize = self.children.len();
        let mut i: usize = 0;
        while i < n
            invariant
                n == self.children@.len(),
                n == self@.children.len(),
                i <= n,
                min_width@ == widest_min(self@.children, i as int),
                pref_width@ == widest_pref(self@.children, i as int),
            decreases n - i,
        {
            assert(self@.children[i as int] == self.children@[i as int].view());
            min_width = max(min_width, self.children[i].base().min_width);
            pref_width = max(pref_width, self.children[i].base().pref_width);
            i = i + 1;
        }
        match self.render_box {
            Some(b) => Au::can_hold(min_width.0 as i64 + b.min_width.0 as i64) && Au::can_hold(
                pref_width.0 as i64 + b.pref_width.0 as i64,
            ),
            None => true,
        }
    }

    /// Whether `assign_widths_float` can be called on the flow.
    pub fn can_assign_widths(&self) -> (r: bool)
        ensures
            r == self@.widths_fit(),
    {
        match self.render_box {
            Some(b) => {
                let given: Au = self.common.position.size.width;
                if !b.style.padding.can_resolve(given) || !b.style.margin.can_resolve(given)
                    || !b.style.width.can_resolve(given) {
                    return false;
                }
                let padding_left: Au = b.style.padding.left.resolve(given);
                let padding_right: Au = b.style.padding.right.resolve(given);
                let margin_left: Au = MaybeAuto::from_style(
                    b.style.margin.left,
                    given,
                ).spec_or_default(Au(0));
                let shrink_to_fit = min(
                    self.common.pref_width,
                    max(self.common.min_width, given),
                );
                let width = MaybeAuto::from_style(b.style.width, given).spec_or_default(
                    shrink_to_fit,
                );
                let x_offset: i64 = margin_left.0 as i64 + b.model.border.left.0 as i64
                    + padding_left.0 as i64;
                let border_box: i64 = width.0 as i64 + padding_left.0 as i64
                    + padding_right.0 as i64 + b.model.border.left.0 as i64
                    + b.model.border.right.0 as i64;
                Au::can_hold(x_offset) && Au::can_hold(border_box)
            },
            None => true,
        }
    }

    /// Whether `assign_height_float` can be called on the flow.
    pub fn can_assign_height(&self) -> (r: bool)
        ensures
            r == self@.heights_fit(),
        decreases self,
    {
        let n: usize = self.children.len();
        let mut i: usize = 0;
        while i < n
            invariant
                n == self.children@.len(),
                n == self@.children.len(),
                i <= n,
                forall|j: int| 0 <= j < i ==> (#[trigger] self@.children[j]).heights_fit(),
            decreases n - i,
        {
            assert(self@.children[i as int] == self.children@[i as int].view());
            if !self.children[i].can_assign_height() {
                return false;
            }
            i = i + 1;
        }

        let top: i64 = match self.render_box {
            Some(b) => b.model.margin.top.0 as i64 + b.model.border.top.0 as i64
                + b.model.padding.top.0 as i64,
            None => 0,
        };
        if !Au::can_hold(top) {
            return false;
        }
        let mut cur_y: i64 = top;
        assert(self@.child_y(0) == self@.top_offset());
        let mut k: usize = 0;
        while k < n
            invariant
                n == self.children@.len(),
                n == self@.children.len(),
                k <= n,
                top == self@.top_offset(),
                cur_y == self@.child_y(k as int),
                forall|j: int| 0 <= j <= k ==> fits(#[trigger] self@.child_y(j)),
            decreases n - k,
        {
            assert(self@.children[k as int] == self.children@[k as int].view());
            assert(stacked_height(self@.children, k as int + 1) == stacked_height(
                self@.children,
                k as int,
            ) + self@.children[k as int].base().position.size.height@);
            cur_y = cur_y + self.children[k].base().position.size.height.0 as i64;
            if !Au::can_hold(cur_y) {
                assert(!fits(self@.child_y(k as int + 1)));
                return false;
            }
            k = k + 1;
        }

        let content: i64 = cur_y - top;
        if !Au::can_hold(content) {
            return false;
        }
        match self.render_box {
            Some(b) => {
                let declared: Au = MaybeAuto::from_style(b.style.height, Au(0)).spec_or_default(
                    Au(0),
                );
                let noncontent: i64 = b.model.padding.top.0 as i64 + b.model.padding.bottom.0 as i64
                    + b.model.border.top.0 as i64 + b.model.border.bottom.0 as i64
                    + b.model.margin.top.0 as i64 + b.model.margin.bottom.0 as i64;
                let taller: i64 = if content >= declared.0 as i64 {
                    content
                } else {
                    declared.0 as i64
                };
                Au::can_hold(taller + noncontent)
            },
            None => true,
        }
    }

    /// Whether `build_display_list_float` can be called on the flow with this
    /// dirty rectangle and offset.
    pub fn can_build_display_list(&self, dirty: &Rect, offset: &Point2D) -> (r: bool)
        ensures
            r == self@.can_paint(*dirty, *offset),
        decreases self,
    {
        match &self.render_box {
            Some(b) => {
                if !b.position.translates(offset) {
                    return false;
                }
            },
            None => {},
        }
        let n: usize = self.children.len();
        let mut i: usize = 0;
        while i < n
            invariant
                n == self.children@.len(),
                n == self@.children.len(),
                i <= n,
                forall|j: int|
                    0 <= j < i ==> (#[trigger] self@.children[j]).can_paint_as_child(
                        *dirty,
                        *offset,
                    ),
            decreases n - i,
        {
            assert(self@.children[i as int] == self.children@[i as int].view());
            if !self.children[i].can_build_display_list_for_child(dirty, offset) {
                return false;
            }
            i = i + 1;
        }
        true
    }
}

} // verus!
