//! The placement state threaded through the floats of one containing block:
//! the footprints registered so far, in the order of registration.

use vstd::prelude::*;
use crate::geometry::Au;

verus! {

/// The side of the containing block that a float is placed against.
#[derive(Clone, Copy, Debug, PartialEq, Eq, Structural)]
pub enum FloatType {
    FloatLeft,
    FloatRight,
}

/// A request to place one footprint.
#[derive(Clone, Copy, Debug, PartialEq, Eq, Structural)]
pub struct PlacementInfo {
    pub width: Au,
    pub height: Au,
    /// No placement may start above this line.
    pub ceiling: Au,
    pub max_width: Au,
    pub f_type: FloatType,
}

/// What a placement state holds, as a value.
pub struct FloatContextView {
    /// How many floats the state was made for.
    pub float_count: nat,
    /// The footprints registered, oldest first.
    pub placed: Seq<PlacementInfo>,
}

impl FloatContextView {
    /// The state before any registration.
    pub open spec fn fresh(float_count: nat) -> FloatContextView {
        FloatContextView { float_count, placed: Seq::empty() }
    }

    /// The state after one more registration.
    pub open spec fn with_float(self, info: PlacementInfo) -> FloatContextView {
        FloatContextView { float_count: self.float_count, placed: self.placed.push(info) }
    }
}

/// A placement state. It is a value: registering a footprint leaves the state
/// it was registered with as it was and gives a new one.
#[derive(Debug)]
pub struct FloatContext {
    float_count: usize,
    placed: Vec<PlacementInfo>,
}

impl View for FloatContext {
    type V = FloatContextView;

    closed spec fn view(&self) -> FloatContextView {
        FloatContextView { float_count: self.float_count as nat, placed: self.placed@ }
    }
}

impl FloatContext {
    /// A state for `float_count` floats, with nothing registered.
    pub fn new(float_count: usize) -> (r: FloatContext)
        ensures
            r@ == FloatContextView::fresh(float_count as nat),
    {
        FloatContext { float_count, placed: Vec::new() }
    }

    /// The state that follows `self` once `info` is registered.
    pub fn add_float(&self, info: &PlacementInfo) -> (r: FloatContext)
        ensures
            r@ == self@.with_float(*info),
    {
        let mut placed: Vec<PlacementInfo> = Vec::new();
        let n: usize = self.placed.len();
        let mut i: usize = 0;
        while i < n
            invariant
                n == self.placed@.len(),
                i <= n,
                placed@ == self.placed@.subrange(0, i as int),
            decreases n - i,
        {
            placed.push(self.placed[i]);
            i = i + 1;
            assert(placed@ =~= self.placed@.subrange(0, i as int));
        }
        assert(self.placed@.subrange(0, n as int) =~= self.placed@);
        placed.push(*info);
        FloatContext { float_count: self.float_count, placed }
    }

    /// How many floats the state was made for.
    pub fn float_count(&self) -> (r: usize)
        ensures
            r == self@.float_count,
    {
        self.float_count
    }

    /// How many footprints are registered.
    pub fn len(&self) -> (r: usize)
        ensures
            r == self@.placed.len(),
    {
        self.placed.len()
    }

    /// The `i`-th footprint registered.
    pub fn get(&self, i: usize) -> (r: Option<PlacementInfo>)
        ensures
            r == if i < self@.placed.len() {
                Some(self@.placed[i as int])
            } else {
                None
            },
    {
        if i < self.placed.len() {
            Some(self.placed[i])
        } else {
            None
        }
    }
}

} // verus!
