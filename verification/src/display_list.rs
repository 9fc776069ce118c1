//! Paint items and the list they are gathered in.

use vstd::prelude::*;
use crate::geometry::Rect;
use crate::model::SideOffsets;

verus! {

/// One drawing instruction, with the rectangle it covers in the coordinates
/// of the whole list.
#[derive(Clone, Copy, Debug, PartialEq, Eq, Structural)]
pub enum DisplayItem {
    Background(Rect),
    Content(Rect),
    Border(Rect, SideOffsets),
}

/// Paint items in the order in which they are drawn.
#[derive(Debug)]
pub struct DisplayList {
    pub items: Vec<DisplayItem>,
}

impl View for DisplayList {
    type V = Seq<DisplayItem>;

    open spec fn view(&self) -> Seq<DisplayItem> {
        self.items@
    }
}

impl DisplayList {
    pub fn new() -> (r: DisplayList)
        ensures
            r@ == Seq::<DisplayItem>::empty(),
    {
        DisplayList { items: Vec::new() }
    }

    /// Puts `item` at the end of the list.
    pub fn append_item(&mut self, item: DisplayItem)
        ensures
            final(self)@ == old(self)@.push(item),
    {
        self.items.push(item);
    }
}

} // verus!
