//! Flows: the nodes of the layout tree, the state that all kinds of flow
//! share, and the tree's value as contracts speak of it.

use vstd::prelude::*;
use crate::float_context::{FloatContext, FloatContextView};
use crate::float_flow::{FloatFlowData, FloatFlowView};
use crate::geometry::{Au, Point2D, Rect, Size2D};

verus! {

/// The state that every kind of flow carries.
#[derive(Debug)]
pub struct FlowData {
    pub id: i32,
    /// The flow's rectangle, relative to its parent.
    pub position: Rect,
    pub min_width: Au,
    pub pref_width: Au,
    /// How many floats the subtree hands to its parent.
    pub num_floats: usize,
    /// The placement state received from the parent.
    pub floats_in: FloatContext,
    /// The placement state after the flow's own registrations.
    pub floats_out: FloatContext,
}

/// The value of a `FlowData`.
pub struct FlowDataView {
    pub id: i32,
    pub position: Rect,
    pub min_width: Au,
    pub pref_width: Au,
    pub num_floats: nat,
    pub floats_in: FloatContextView,
    pub floats_out: FloatContextView,
}

impl View for FlowData {
    type V = FlowDataView;

    open spec fn view(&self) -> FlowDataView {
        FlowDataView {
            id: self.id,
            position: self.position,
            min_width: self.min_width,
            pref_width: self.pref_width,
            num_floats: self.num_floats as nat,
            floats_in: self.floats_in@,
            floats_out: self.floats_out@,
        }
    }
}

impl FlowDataView {
    /// The state of a flow that has not been laid out.
    pub open spec fn initial(id: i32) -> FlowDataView {
        FlowDataView {
            id,
            position: Rect::zero_rect(),
            min_width: Au(0),
            pref_width: Au(0),
            num_floats: 0,
            floats_in: FloatContextView::fresh(0),
            floats_out: FloatContextView::fresh(0),
        }
    }

    /// The intrinsic widths are ordered and not negative.
    pub open spec fn wf(self) -> bool {
        0 <= self.min_width@ <= self.pref_width@
    }
}

impl FlowData {
    pub fn new(id: i32) -> (r: FlowData)
        ensures
            r@ == FlowDataView::initial(id),
    {
        FlowData {
            id,
            position: Rect::zero(),
            min_width: Au(0),
            pref_width: Au(0),
            num_floats: 0,
            floats_in: FloatContext::new(0),
            floats_out: FloatContext::new(0),
        }
    }
}

/// A node of the layout tree: a float flow, laid out here, or a flow of
/// another kind, of which only the shared state is read and set.
#[derive(Debug)]
pub enum Flow {
    Float(FloatFlowData),
    Other(FlowData),
}

/// The value of a `Flow`.
pub enum FlowView {
    Float(FloatFlowView),
    Other(FlowDataView),
}

impl FlowView {
    /// The shared state of the flow.
    pub open spec fn base(self) -> FlowDataView {
        match self {
            FlowView::Float(f) => f.common,
            FlowView::Other(d) => d,
        }
    }

    /// The flow with its shared state replaced.
    pub open spec fn with_base(self, base: FlowDataView) -> FlowView {
        match self {
            FlowView::Float(f) => FlowView::Float(FloatFlowView { common: base, ..f }),
            FlowView::Other(_) => FlowView::Other(base),
        }
    }

    /// The flow with a placement state for its own floats and nothing
    /// registered in it.
    pub open spec fn with_fresh_floats_in(self) -> FlowView {
        self.with_base(
            FlowDataView {
                floats_in: FloatContextView::fresh(self.base().num_floats),
                ..self.base()
            },
        )
    }

    /// The flow at the horizontal offset and with the width that its parent
    /// gives it.
    pub open spec fn with_horizontal(self, x: Au, width: Au) -> FlowView {
        let b = self.base();
        self.with_base(
            FlowDataView {
                position: Rect {
                    origin: Point2D { x, y: b.position.origin.y },
                    size: Size2D { width, height: b.position.size.height },
                },
                ..b
            },
        )
    }

    /// The flow at the vertical offset that its parent gives it.
    pub open spec fn with_origin_y(self, y: Au) -> FlowView {
        let b = self.base();
        self.with_base(
            FlowDataView {
                position: Rect { origin: Point2D { x: b.position.origin.x, y }, size: b.position.size },
                ..b
            },
        )
    }
}

impl Flow {
    pub open spec fn view(self) -> FlowView
        decreases self,
    {
        match self {
            Flow::Float(f) => FlowView::Float(f.view()),
            Flow::Other(d) => FlowView::Other(d@),
        }
    }

    /// The shared state of the flow.
    pub fn base(&self) -> (r: &FlowData)
        ensures
            r@ == self@.base(),
    {
        match self {
            Flow::Float(f) => &f.common,
            Flow::Other(d) => d,
        }
    }

    /// Gives the flow a placement state for its own floats, with nothing
    /// registered.
    pub fn reset_floats_in(&mut self)
        ensures
            final(self)@ == old(self)@.with_fresh_floats_in(),
    {
        match self {
            Flow::Float(f) => {
                f.common.floats_in = FloatContext::new(f.common.num_floats);
            },
            Flow::Other(d) => {
                d.floats_in = FloatContext::new(d.num_floats);
            },
        }
    }

    /// Sets the horizontal offset and the width of the flow.
    pub fn set_horizontal(&mut self, x: Au, width: Au)
        ensures
            final(self)@ == old(self)@.with_horizontal(x, width),
    {
        match self {
            Flow::Float(f) => {
                f.common.position.origin.x = x;
                f.common.position.size.width = width;
            },
            Flow::Other(d) => {
                d.position.origin.x = x;
                d.position.size.width = width;
            },
        }
    }

    /// Sets the vertical offset of the flow.
    pub fn set_origin_y(&mut self, y: Au)
        ensures
            final(self)@ == old(self)@.with_origin_y(y),
    {
        match self {
            Flow::Float(f) => {
                f.common.position.origin.y = y;
            },
            Flow::Other(d) => {
                d.position.origin.y = y;
            },
        }
    }
}

} // verus!
