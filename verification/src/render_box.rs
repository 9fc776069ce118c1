//! A render box: one leaf content box with its declarations, its intrinsic
//! widths, its box model and the rectangle of its border box.

use vstd::prelude::*;
use crate::display_list::{DisplayItem, DisplayList};
use crate::geometry::{Au, Point2D, Rect};
use crate::model::{BoxModel, Style};

verus! {

#[derive(Clone, Copy, Debug, PartialEq, Eq, Structural)]
pub struct RenderBox {
    /// The declarations of the box.
    pub style: Style,
    /// The narrowest width at which the content does not overflow.
    pub min_width: Au,
    /// The width the content takes where nothing constrains it.
    pub pref_width: Au,
    pub model: BoxModel,
    /// The border box, relative to the flow that owns the box.
    pub position: Rect,
}

impl RenderBox {
    /// A box with the given declarations and intrinsic widths, not laid out.
    pub fn new(style: Style, min_width: Au, pref_width: Au) -> (r: RenderBox)
        ensures
            r == (RenderBox {
                style,
                min_width,
                pref_width,
                model: BoxModel::zero_model(),
                position: Rect::zero_rect(),
            }),
    {
        RenderBox { style, min_width, pref_width, model: BoxModel::zero(), position: Rect::zero() }
    }

    /// The intrinsic widths are ordered and not negative.
    pub open spec fn wf(self) -> bool {
        0 <= self.min_width@ <= self.pref_width@
    }

    pub fn get_min_width(&self) -> (r: Au)
        ensures
            r == self.min_width,
    {
        self.min_width
    }

    pub fn get_pref_width(&self) -> (r: Au)
        ensures
            r == self.pref_width,
    {
        self.pref_width
    }

    /// What the box paints where its flow stands at `offset`: nothing where
    /// its border box misses the dirty rectangle; else background, content
    /// and border, in that order, each over the border box.
    pub open spec fn paint_items(self, dirty: Rect, offset: Point2D) -> Seq<DisplayItem> {
        let bounds = self.position.moved_by(offset);
        if bounds.overlaps(dirty) {
            seq![
                DisplayItem::Background(bounds),
                DisplayItem::Content(bounds),
                DisplayItem::Border(bounds, self.model.border),
            ]
        } else {
            Seq::empty()
        }
    }

    /// Appends the box's paint items to `list`.
    pub fn build_display_list(&self, dirty: &Rect, offset: &Point2D, list: &mut DisplayList)
        requires
            self.position.can_translate(*offset),
        ensures
            final(list)@ == old(list)@ + self.paint_items(*dirty, *offset),
    {
        let bounds = self.position.translate(offset);
        if bounds.intersects(dirty) {
            list.append_item(DisplayItem::Background(bounds));
            list.append_item(DisplayItem::Content(bounds));
            list.append_item(DisplayItem::Border(bounds, self.model.border));
            assert(list@ =~= old(list)@ + self.paint_items(*dirty, *offset));
        } else {
            assert(list@ =~= old(list)@ + self.paint_items(*dirty, *offset));
        }
    }
}

} // verus!
