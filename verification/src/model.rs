//! The box model: margin, border and padding round a box's content, and the
//! declared values they are resolved from.

use vstd::prelude::*;
use crate::geometry::{Au, au, fits};

verus! {

/// A declared value that is a length or a share of the containing width, in
/// whole percent.
#[derive(Clone, Copy, Debug, PartialEq, Eq, Structural)]
pub enum LengthOrPercentage {
    Length(Au),
    Percentage(u16),
}

/// A declared value that may be left to the layout.
#[derive(Clone, Copy, Debug, PartialEq, Eq, Structural)]
pub enum LengthOrPercentageOrAuto {
    Auto,
    Length(Au),
    Percentage(u16),
}

/// A resolved declaration: a length, or left to the layout.
#[derive(Clone, Copy, Debug, PartialEq, Eq, Structural)]
pub enum MaybeAuto {
    Auto,
    Specified(Au),
}

/// `percent` hundredths of `base`, rounded towards zero.
pub open spec fn scaled(base: int, percent: int) -> int {
    if base >= 0 {
        (base * percent) / 100
    } else {
        -(((-base) * percent) / 100)
    }
}

proof fn lemma_product_bounds(a: int, p: int)
    requires
        0 <= a <= 0x8000_0000,
        0 <= p <= 0xffff,
    ensures
        0 <= a * p <= 0x8000_0000 * 0xffff,
        0 <= (a * p) / 100 <= a * p,
{
    assert(0 <= a * p <= 0x8000_0000 * 0xffff) by (nonlinear_arith)
        requires
            0 <= a <= 0x8000_0000,
            0 <= p <= 0xffff,
    ;
}

/// `percent` hundredths of `base`, rounded towards zero, in units.
fn scaled_units(base: Au, percent: u16) -> (r: i64)
    ensures
        r == scaled(base@, percent as int),
{
    let b: i64 = base.0 as i64;
    let p: i64 = percent as i64;
    if b >= 0 {
        proof {
            lemma_product_bounds(b as int, p as int);
        }
        (b * p) / 100
    } else {
        proof {
            lemma_product_bounds(-(b as int), p as int);
        }
        -(((-b) * p) / 100)
    }
}

/// `percent` hundredths of `base`, where that is a length.
fn scale(base: Au, percent: u16) -> (r: Au)
    requires
        fits(scaled(base@, percent as int)),
    ensures
        r == au(scaled(base@, percent as int)),
{
    Au(scaled_units(base, percent) as i32)
}

impl LengthOrPercentage {
    /// The length that the declaration stands for in a containing block of the
    /// given width.
    pub open spec fn resolved(self, containing: int) -> int {
        match self {
            LengthOrPercentage::Length(l) => l@,
            LengthOrPercentage::Percentage(p) => scaled(containing, p as int),
        }
    }

    /// Whether `resolve` can be called with `containing`.
    pub fn can_resolve(self, containing: Au) -> (r: bool)
        ensures
            r == fits(self.resolved(containing@)),
    {
        match self {
            LengthOrPercentage::Length(_) => true,
            LengthOrPercentage::Percentage(p) => Au::can_hold(scaled_units(containing, p)),
        }
    }

    pub fn resolve(self, containing: Au) -> (r: Au)
        requires
            fits(self.resolved(containing@)),
        ensures
            r == au(self.resolved(containing@)),
    {
        match self {
            LengthOrPercentage::Length(l) => l,
            LengthOrPercentage::Percentage(p) => scale(containing, p),
        }
    }
}

impl LengthOrPercentageOrAuto {
    /// The length that the declaration stands for in a containing block of the
    /// given width, `None` where it is left to the layout.
    pub open spec fn resolved(self, containing: int) -> Option<int> {
        match self {
            LengthOrPercentageOrAuto::Auto => None,
            LengthOrPercentageOrAuto::Length(l) => Some(l@),
            LengthOrPercentageOrAuto::Percentage(p) => Some(scaled(containing, p as int)),
        }
    }

    /// The resolved length, with `default` in place of "auto".
    pub open spec fn resolved_or(self, containing: int, default: int) -> int {
        match self.resolved(containing) {
            Some(l) => l,
            None => default,
        }
    }

    /// Whether the declaration resolves to a length, or is left to the layout.
    pub open spec fn resolvable(self, containing: int) -> bool {
        fits(self.resolved_or(containing, 0))
    }
}

impl LengthOrPercentageOrAuto {
    /// Whether the declaration can be resolved against `containing`.
    pub fn can_resolve(self, containing: Au) -> (r: bool)
        ensures
            r == self.resolvable(containing@),
    {
        match self {
            LengthOrPercentageOrAuto::Auto => true,
            LengthOrPercentageOrAuto::Length(_) => true,
            LengthOrPercentageOrAuto::Percentage(p) => Au::can_hold(scaled_units(containing, p)),
        }
    }
}

impl MaybeAuto {
    /// What a declaration resolves to against a containing width.
    pub open spec fn of(value: LengthOrPercentageOrAuto, containing: int) -> MaybeAuto {
        match value.resolved(containing) {
            Some(l) => MaybeAuto::Specified(au(l)),
            None => MaybeAuto::Auto,
        }
    }

    /// Resolves a declaration against the width of the containing block.
    pub fn from_style(value: LengthOrPercentageOrAuto, containing: Au) -> (r: MaybeAuto)
        requires
            value.resolvable(containing@),
        ensures
            r == MaybeAuto::of(value, containing@),
    {
        match value {
            LengthOrPercentageOrAuto::Auto => MaybeAuto::Auto,
            LengthOrPercentageOrAuto::Length(l) => MaybeAuto::Specified(l),
            LengthOrPercentageOrAuto::Percentage(p) => MaybeAuto::Specified(scale(containing, p)),
        }
    }

    /// The specified length, or `default` where the value is "auto".
    pub fn spec_or_default(self, default: Au) -> (r: Au)
        ensures
            r == match self {
                MaybeAuto::Auto => default,
                MaybeAuto::Specified(l) => l,
            },
    {
        match self {
            MaybeAuto::Auto => default,
            MaybeAuto::Specified(l) => l,
        }
    }
}

/// Four resolved lengths, one for each edge of a box.
#[derive(Clone, Copy, Debug, PartialEq, Eq, Structural)]
pub struct SideOffsets {
    pub top: Au,
    pub right: Au,
    pub bottom: Au,
    pub left: Au,
}

impl SideOffsets {
    pub open spec fn zero_offsets() -> SideOffsets {
        SideOffsets { top: Au(0), right: Au(0), bottom: Au(0), left: Au(0) }
    }

    pub fn zero() -> (r: SideOffsets)
        ensures
            r == SideOffsets::zero_offsets(),
    {
        SideOffsets { top: Au(0), right: Au(0), bottom: Au(0), left: Au(0) }
    }
}

/// The declared margins of a box.
#[derive(Clone, Copy, Debug, PartialEq, Eq, Structural)]
pub struct DeclaredMargin {
    pub top: LengthOrPercentageOrAuto,
    pub right: LengthOrPercentageOrAuto,
    pub bottom: LengthOrPercentageOrAuto,
    pub left: LengthOrPercentageOrAuto,
}

/// The declared padding of a box.
#[derive(Clone, Copy, Debug, PartialEq, Eq, Structural)]
pub struct DeclaredPadding {
    pub top: LengthOrPercentage,
    pub right: LengthOrPercentage,
    pub bottom: LengthOrPercentage,
    pub left: LengthOrPercentage,
}

/// The declarations of one box that the layout reads.
#[derive(Clone, Copy, Debug, PartialEq, Eq, Structural)]
pub struct Style {
    pub margin: DeclaredMargin,
    pub border: SideOffsets,
    pub padding: DeclaredPadding,
    pub width: LengthOrPercentageOrAuto,
    pub height: LengthOrPercentageOrAuto,
}

impl DeclaredMargin {
    /// Whether all four margins resolve against the containing width.
    pub open spec fn resolvable(self, containing: int) -> bool {
        &&& self.top.resolvable(containing)
        &&& self.right.resolvable(containing)
        &&& self.bottom.resolvable(containing)
        &&& self.left.resolvable(containing)
    }

    /// The margins of a floated box: "auto" is zero on every edge.
    pub open spec fn resolved_for_float(self, containing: int) -> SideOffsets {
        SideOffsets {
            top: au(self.top.resolved_or(containing, 0)),
            right: au(self.right.resolved_or(containing, 0)),
            bottom: au(self.bottom.resolved_or(containing, 0)),
            left: au(self.left.resolved_or(containing, 0)),
        }
    }
}

impl DeclaredMargin {
    /// Whether all four margins can be resolved against `containing`.
    pub fn can_resolve(&self, containing: Au) -> (r: bool)
        ensures
            r == self.resolvable(containing@),
    {
        self.top.can_resolve(containing) && self.right.can_resolve(containing)
            && self.bottom.can_resolve(containing) && self.left.can_resolve(containing)
    }
}

impl DeclaredPadding {
    /// Whether all four paddings can be resolved against `containing`.
    pub fn can_resolve(&self, containing: Au) -> (r: bool)
        ensures
            r == self.resolvable(containing@),
    {
        self.top.can_resolve(containing) && self.right.can_resolve(containing)
            && self.bottom.can_resolve(containing) && self.left.can_resolve(containing)
    }
}

impl DeclaredPadding {
    /// Whether all four paddings resolve against the containing width.
    pub open spec fn resolvable(self, containing: int) -> bool {
        &&& fits(self.top.resolved(containing))
        &&& fits(self.right.resolved(containing))
        &&& fits(self.bottom.resolved(containing))
        &&& fits(self.left.resolved(containing))
    }

    pub open spec fn resolved(self, containing: int) -> SideOffsets {
        SideOffsets {
            top: au(self.top.resolved(containing)),
            right: au(self.right.resolved(containing)),
            bottom: au(self.bottom.resolved(containing)),
            left: au(self.left.resolved(containing)),
        }
    }
}

impl Style {
    /// The style that declares nothing: no margin, border or padding, width
    /// and height left to the layout.
    pub open spec fn initial_style() -> Style {
        Style {
            margin: DeclaredMargin {
                top: LengthOrPercentageOrAuto::Length(Au(0)),
                right: LengthOrPercentageOrAuto::Length(Au(0)),
                bottom: LengthOrPercentageOrAuto::Length(Au(0)),
                left: LengthOrPercentageOrAuto::Length(Au(0)),
            },
            border: SideOffsets::zero_offsets(),
            padding: DeclaredPadding {
                top: LengthOrPercentage::Length(Au(0)),
                right: LengthOrPercentage::Length(Au(0)),
                bottom: LengthOrPercentage::Length(Au(0)),
                left: LengthOrPercentage::Length(Au(0)),
            },
            width: LengthOrPercentageOrAuto::Auto,
            height: LengthOrPercentageOrAuto::Auto,
        }
    }

    pub fn initial() -> (r: Style)
        ensures
            r == Style::initial_style(),
    {
        Style {
            margin: DeclaredMargin {
                top: LengthOrPercentageOrAuto::Length(Au(0)),
                right: LengthOrPercentageOrAuto::Length(Au(0)),
                bottom: LengthOrPercentageOrAuto::Length(Au(0)),
                left: LengthOrPercentageOrAuto::Length(Au(0)),
            },
            border: SideOffsets::zero(),
            padding: DeclaredPadding {
                top: LengthOrPercentage::Length(Au(0)),
                right: LengthOrPercentage::Length(Au(0)),
                bottom: LengthOrPercentage::Length(Au(0)),
                left: LengthOrPercentage::Length(Au(0)),
            },
            width: LengthOrPercentageOrAuto::Auto,
            height: LengthOrPercentageOrAuto::Auto,
        }
    }
}

/// The resolved margin, border and padding of one box.
#[derive(Clone, Copy, Debug, PartialEq, Eq, Structural)]
pub struct BoxModel {
    pub margin: SideOffsets,
    pub border: SideOffsets,
    pub padding: SideOffsets,
}

impl BoxModel {
    /// The model with no margin, border or padding.
    pub open spec fn zero_model() -> BoxModel {
        BoxModel {
            margin: SideOffsets::zero_offsets(),
            border: SideOffsets::zero_offsets(),
            padding: SideOffsets::zero_offsets(),
        }
    }

    pub fn zero() -> (r: BoxModel)
        ensures
            r == BoxModel::zero_model(),
    {
        BoxModel { margin: SideOffsets::zero(), border: SideOffsets::zero(), padding: SideOffsets::zero() }
    }

    /// Takes the border widths from the style. They do not depend on the
    /// containing block.
    pub fn compute_borders(&mut self, style: &Style)
        ensures
            *final(self) == (BoxModel { border: style.border, ..*old(self) }),
    {
        self.border = style.border;
    }

    /// Resolves the padding against the width of the containing block.
    pub fn compute_padding(&mut self, style: &Style, containing: Au)
        requires
            style.padding.resolvable(containing@),
        ensures
            *final(self) == (BoxModel { padding: style.padding.resolved(containing@), ..*old(self) }),
    {
        self.padding = SideOffsets {
            top: style.padding.top.resolve(containing),
            right: style.padding.right.resolve(containing),
            bottom: style.padding.bottom.resolve(containing),
            left: style.padding.left.resolve(containing),
        };
    }

    /// The distance from the left margin edge to the content: left margin,
    /// border and padding.
    pub open spec fn left_offset(self) -> int {
        self.margin.left@ + self.border.left@ + self.padding.left@
    }

    /// The distance from the top margin edge to the content.
    pub open spec fn top_offset(self) -> int {
        self.margin.top@ + self.border.top@ + self.padding.top@
    }

    /// Left and right padding and border together.
    pub open spec fn horizontal_extent(self) -> int {
        self.padding.left@ + self.padding.right@ + self.border.left@ + self.border.right@
    }

    /// Top and bottom padding and border together.
    pub open spec fn vertical_extent(self) -> int {
        self.padding.top@ + self.padding.bottom@ + self.border.top@ + self.border.bottom@
    }

    /// Top and bottom margin together.
    pub open spec fn vertical_margin(self) -> int {
        self.margin.top@ + self.margin.bottom@
    }

    pub fn offset(&self) -> (r: Au)
        requires
            fits(self.left_offset()),
        ensures
            r == au(self.left_offset()),
    {
        let s: i64 = self.margin.left.0 as i64 + self.border.left.0 as i64 + self.padding.left.0 as i64;
        Au(s as i32)
    }
}

} // verus!
