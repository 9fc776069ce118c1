use float_layout::display_list::{DisplayItem, DisplayList};
use float_layout::float_context::{FloatContext, FloatType, PlacementInfo};
use float_layout::float_flow::FloatFlowData;
use float_layout::flow::{Flow, FlowData};
use float_layout::geometry::{max, min, Au, Point2D, Rect};
use float_layout::model::{
    BoxModel, LengthOrPercentage, LengthOrPercentageOrAuto, MaybeAuto, SideOffsets, Style,
};
use float_layout::render_box::RenderBox;

fn float_with_box(style: Style, box_min: i32, box_pref: i32) -> FloatFlowData {
    let mut flow = FloatFlowData::new(FlowData::new(1));
    flow.render_box = Some(RenderBox::new(style, Au(box_min), Au(box_pref)));
    flow
}

fn peer(id: i32, min_width: i32, pref_width: i32, height: i32) -> Flow {
    let mut data = FlowData::new(id);
    data.min_width = Au(min_width);
    data.pref_width = Au(pref_width);
    data.position.size.height = Au(height);
    Flow::Other(data)
}

fn sized(mut flow: FloatFlowData, min_width: i32, pref_width: i32, given: i32) -> FloatFlowData {
    flow.common.min_width = Au(min_width);
    flow.common.pref_width = Au(pref_width);
    flow.common.position.size.width = Au(given);
    flow
}

#[test]
fn scenario_width_clamps_to_preferred() {
    let mut flow = sized(float_with_box(Style::initial(), 0, 0), 100, 250, 300);
    flow.assign_widths_float();
    assert_eq!(flow.common.position.size.width, Au(250));
    assert_eq!(flow.containing_width, Au(300));
    assert_eq!(flow.render_box.unwrap().position.size.width, Au(250));
}

#[test]
fn scenario_width_clamps_to_minimum() {
    let mut flow = sized(float_with_box(Style::initial(), 0, 0), 100, 250, 80);
    flow.assign_widths_float();
    assert_eq!(flow.common.position.size.width, Au(100));
    assert_eq!(flow.containing_width, Au(80));
}

#[test]
fn width_between_minimum_and_preferred_is_the_given_width() {
    let mut flow = sized(float_with_box(Style::initial(), 0, 0), 100, 250, 180);
    flow.assign_widths_float();
    assert_eq!(flow.common.position.size.width, Au(180));
}

#[test]
fn scenario_declared_width_wins() {
    for given in [0, 80, 300, 1000] {
        let mut style = Style::initial();
        style.width = LengthOrPercentageOrAuto::Length(Au(150));
        let mut flow = sized(float_with_box(style, 0, 0), 100, 250, given);
        flow.assign_widths_float();
        assert_eq!(flow.common.position.size.width, Au(150));
    }
}

#[test]
fn declared_percentage_width_is_a_share_of_the_given_width() {
    let mut style = Style::initial();
    style.width = LengthOrPercentageOrAuto::Percentage(50);
    let mut flow = sized(float_with_box(style, 0, 0), 100, 250, 301);
    flow.assign_widths_float();
    assert_eq!(flow.common.position.size.width, Au(150));
}

#[test]
fn width_pass_resolves_the_box_model() {
    let mut style = Style::initial();
    style.margin.left = LengthOrPercentageOrAuto::Length(Au(7));
    style.margin.right = LengthOrPercentageOrAuto::Auto;
    style.margin.top = LengthOrPercentageOrAuto::Percentage(10);
    style.margin.bottom = LengthOrPercentageOrAuto::Auto;
    style.border = SideOffsets { top: Au(1), right: Au(2), bottom: Au(3), left: Au(4) };
    style.padding.left = LengthOrPercentage::Percentage(10);
    style.padding.right = LengthOrPercentage::Length(Au(5));
    let mut flow = sized(float_with_box(style, 20, 40), 100, 250, 300);
    flow.children.push(peer(2, 0, 0, 0));
    flow.children.push(Flow::Float(FloatFlowData::new(FlowData::new(3))));
    flow.bubble_widths_float();
    flow.common.position.size.width = Au(300);
    flow.assign_widths_float();

    let own = flow.render_box.unwrap();
    assert_eq!(own.model.margin, SideOffsets { top: Au(30), right: Au(0), bottom: Au(0), left: Au(7) });
    assert_eq!(own.model.border, style.border);
    assert_eq!(own.model.padding, SideOffsets { top: Au(0), right: Au(5), bottom: Au(0), left: Au(30) });
    // Bubbled widths are 20 and 40: the given width is held to 40.
    assert_eq!(flow.common.position.size.width, Au(40));
    assert_eq!(own.position.origin.x, Au(7));
    assert_eq!(own.position.size.width, Au(40 + 30 + 5 + 4 + 2));
    for child in flow.children.iter() {
        assert_eq!(child.base().position.origin.x, Au(7 + 4 + 30));
        assert_eq!(child.base().position.size.width, Au(40));
    }
}

#[test]
fn auto_margins_of_a_float_are_zero_for_any_width() {
    for given in [-40, 0, 1, 80, 300, 100_000] {
        let mut style = Style::initial();
        style.margin.top = LengthOrPercentageOrAuto::Auto;
        style.margin.right = LengthOrPercentageOrAuto::Auto;
        style.margin.bottom = LengthOrPercentageOrAuto::Auto;
        style.margin.left = LengthOrPercentageOrAuto::Auto;
        let mut flow = sized(float_with_box(style, 0, 0), 10, 20, given);
        flow.assign_widths_float();
        let own = flow.render_box.unwrap();
        assert_eq!(own.model.margin, SideOffsets::zero());
        assert_eq!(own.position.origin.x, Au(0));
    }
}

#[test]
fn scenario_children_stack_under_the_top_offset() {
    let mut flow = float_with_box(Style::initial(), 0, 0);
    let mut own = flow.render_box.unwrap();
    own.model = BoxModel {
        margin: SideOffsets { top: Au(4), right: Au(0), bottom: Au(0), left: Au(0) },
        border: SideOffsets { top: Au(3), right: Au(0), bottom: Au(0), left: Au(0) },
        padding: SideOffsets { top: Au(3), right: Au(0), bottom: Au(0), left: Au(0) },
    };
    flow.render_box = Some(own);
    flow.common.position.size.width = Au(120);
    flow.containing_width = Au(300);
    flow.common.floats_in = FloatContext::new(1);
    flow.children.push(peer(2, 0, 0, 40));
    flow.children.push(peer(3, 0, 0, 60));
    flow.assign_height_float();

    assert_eq!(flow.children[0].base().position.origin.y, Au(10));
    assert_eq!(flow.children[1].base().position.origin.y, Au(50));
    assert_eq!(flow.children[0].base().position.size.height, Au(40));
    assert_eq!(flow.children[1].base().position.size.height, Au(60));
    let own = flow.render_box.unwrap();
    assert_eq!(own.position.origin.y, Au(4));
    assert_eq!(own.position.size.height, Au(100 + 3 + 3 + 4));

    assert_eq!(flow.common.floats_in.len(), 0);
    assert_eq!(flow.common.floats_out.len(), 1);
    assert_eq!(flow.common.floats_out.float_count(), 1);
    assert_eq!(
        flow.common.floats_out.get(0),
        Some(PlacementInfo {
            width: Au(120),
            height: Au(110),
            ceiling: Au(0),
            max_width: Au(300),
            f_type: FloatType::FloatLeft,
        })
    );
}

#[test]
fn height_counts_all_edges_and_the_declared_height() {
    let mut style = Style::initial();
    style.height = LengthOrPercentageOrAuto::Length(Au(500));
    let mut flow = float_with_box(style, 0, 0);
    let mut own = flow.render_box.unwrap();
    own.model = BoxModel {
        margin: SideOffsets { top: Au(1), right: Au(0), bottom: Au(2), left: Au(0) },
        border: SideOffsets { top: Au(10), right: Au(0), bottom: Au(20), left: Au(0) },
        padding: SideOffsets { top: Au(100), right: Au(0), bottom: Au(200), left: Au(0) },
    };
    flow.render_box = Some(own);
    flow.children.push(peer(2, 0, 0, 40));
    flow.assign_height_float();
    assert_eq!(flow.children[0].base().position.origin.y, Au(111));
    assert_eq!(flow.render_box.unwrap().position.size.height, Au(500 + 333));
    assert_eq!(flow.common.floats_out.get(0).unwrap().height, Au(833));
}

#[test]
fn declared_percentage_height_counts_as_zero() {
    let mut style = Style::initial();
    style.height = LengthOrPercentageOrAuto::Percentage(80);
    let mut flow = float_with_box(style, 0, 0);
    flow.children.push(peer(2, 0, 0, 40));
    flow.assign_height_float();
    assert_eq!(flow.render_box.unwrap().position.size.height, Au(40));
}

#[test]
fn scenario_float_without_a_box_passes_widths_through() {
    let mut flow = sized(FloatFlowData::new(FlowData::new(1)), 100, 250, 300);
    flow.children.push(peer(2, 0, 0, 40));
    flow.children.push(peer(3, 0, 0, 60));
    flow.assign_widths_float();
    assert_eq!(flow.common.position.size.width, Au(300));
    assert_eq!(flow.containing_width, Au(300));
    for child in flow.children.iter() {
        assert_eq!(child.base().position.origin.x, Au(0));
        assert_eq!(child.base().position.size.width, Au(300));
    }
    flow.assign_height_float();
    assert_eq!(flow.children[0].base().position.origin.y, Au(0));
    assert_eq!(flow.children[1].base().position.origin.y, Au(40));
    assert!(flow.render_box.is_none());
    let request = flow.common.floats_out.get(0).unwrap();
    assert_eq!(request.width, Au(300));
    assert_eq!(request.height, Au(100));
    assert_eq!(request.max_width, Au(300));
}

#[test]
fn bubbling_takes_the_widest_child_and_adds_the_box() {
    let mut style = Style::initial();
    style.border = SideOffsets { top: Au(1), right: Au(2), bottom: Au(3), left: Au(4) };
    let mut flow = float_with_box(style, 10, 20);
    flow.children.push(peer(2, 30, 80, 0));
    flow.children.push(peer(3, 50, 60, 0));
    match &mut flow.children[1] {
        Flow::Other(data) => {
            data.num_floats = 3;
            data.floats_in = FloatContext::new(9).add_float(&PlacementInfo {
                width: Au(1),
                height: Au(1),
                ceiling: Au(0),
                max_width: Au(1),
                f_type: FloatType::FloatRight,
            });
        }
        Flow::Float(_) => unreachable!(),
    }
    flow.bubble_widths_float();
    assert_eq!(flow.common.num_floats, 1);
    assert_eq!(flow.common.min_width, Au(60));
    assert_eq!(flow.common.pref_width, Au(100));
    assert!(flow.common.min_width.0 <= flow.common.pref_width.0);
    assert_eq!(flow.render_box.unwrap().model.border, style.border);
    assert_eq!(flow.children[0].base().floats_in.float_count(), 0);
    assert_eq!(flow.children[1].base().floats_in.float_count(), 3);
    assert_eq!(flow.children[1].base().floats_in.len(), 0);
}

#[test]
fn bubbling_an_empty_float_gives_zero_widths() {
    let mut flow = FloatFlowData::new(FlowData::new(1));
    flow.bubble_widths_float();
    assert_eq!(flow.common.num_floats, 1);
    assert_eq!(flow.common.min_width, Au(0));
    assert_eq!(flow.common.pref_width, Au(0));
}

#[test]
fn bubbling_ignores_negative_child_widths() {
    let mut flow = FloatFlowData::new(FlowData::new(1));
    flow.children.push(peer(2, -5, -1, 0));
    flow.bubble_widths_float();
    assert_eq!(flow.common.min_width, Au(0));
    assert_eq!(flow.common.pref_width, Au(0));
}

#[test]
fn height_pass_reaches_nested_floats() {
    let mut inner = FloatFlowData::new(FlowData::new(2));
    inner.common.position.size.height = Au(25);
    inner.common.floats_in = FloatContext::new(1);
    inner.children.push(peer(3, 0, 0, 7));
    inner.children.push(peer(4, 0, 0, 8));
    let mut outer = FloatFlowData::new(FlowData::new(1));
    outer.children.push(peer(5, 0, 0, 10));
    outer.children.push(Flow::Float(inner));
    outer.assign_height_float();

    assert_eq!(outer.children[1].base().position.origin.y, Au(10));
    // The parent stacks by the rectangle the child has, which the child's own
    // pass leaves as it was.
    assert_eq!(outer.children[1].base().position.size.height, Au(25));
    assert_eq!(outer.common.floats_out.get(0).unwrap().height, Au(35));
    match &outer.children[1] {
        Flow::Float(inner) => {
            assert_eq!(inner.children[0].base().position.origin.y, Au(0));
            assert_eq!(inner.children[1].base().position.origin.y, Au(7));
            assert_eq!(inner.common.floats_out.len(), 1);
            assert_eq!(inner.common.floats_out.get(0).unwrap().height, Au(15));
        }
        Flow::Other(_) => unreachable!(),
    }
}

#[test]
fn taller_children_never_give_a_lower_float() {
    let mut last = i32::MIN;
    for child_height in [0, 10, 99, 100, 101, 400] {
        let mut style = Style::initial();
        style.height = LengthOrPercentageOrAuto::Length(Au(100));
        let mut flow = float_with_box(style, 0, 0);
        flow.children.push(peer(2, 0, 0, child_height));
        flow.children.push(peer(3, 0, 0, child_height));
        flow.assign_height_float();
        let height = flow.render_box.unwrap().position.size.height.0;
        assert!(last <= height);
        assert_eq!(height, std::cmp::max(2 * child_height, 100));
        last = height;
    }
}

#[test]
fn registration_leaves_the_prior_state_alone() {
    let first = PlacementInfo {
        width: Au(10),
        height: Au(20),
        ceiling: Au(0),
        max_width: Au(100),
        f_type: FloatType::FloatLeft,
    };
    let second = PlacementInfo { width: Au(30), ..first };
    let prior = FloatContext::new(2).add_float(&first);
    let one = prior.add_float(&second);
    let other = prior.add_float(&second);
    assert_eq!(prior.len(), 1);
    assert_eq!(one.len(), 2);
    assert_eq!(other.len(), 2);
    assert_eq!(one.get(0), Some(first));
    assert_eq!(one.get(1), Some(second));
    assert_eq!(other.get(1), Some(second));
    assert_eq!(one.get(2), None);
    assert_eq!(one.float_count(), 2);
    let third = one.add_float(&first);
    assert_eq!(third.len(), 3);
    assert_eq!(other.len(), 2);
}

fn laid_out_twice(given: i32) -> (FloatFlowData, FloatFlowData) {
    let build = || {
        let mut style = Style::initial();
        style.margin.left = LengthOrPercentageOrAuto::Percentage(10);
        style.padding.top = LengthOrPercentage::Length(Au(6));
        style.border = SideOffsets { top: Au(1), right: Au(1), bottom: Au(1), left: Au(1) };
        let mut flow = float_with_box(style, 15, 25);
        flow.common.floats_in = FloatContext::new(1);
        flow.children.push(peer(2, 100, 200, 40));
        let mut inner = FloatFlowData::new(FlowData::new(3));
        inner.common.min_width = Au(50);
        inner.common.pref_width = Au(300);
        inner.common.position.size.height = Au(60);
        flow.children.push(Flow::Float(inner));
        flow
    };
    let cycle = |flow: &mut FloatFlowData| {
        flow.bubble_widths_float();
        flow.common.position.size.width = Au(given);
        flow.assign_widths_float();
        flow.assign_height_float();
    };
    let mut once = build();
    cycle(&mut once);
    let mut twice = build();
    cycle(&mut twice);
    cycle(&mut twice);
    (once, twice)
}

#[test]
fn a_second_layout_cycle_changes_nothing() {
    for given in [0, 80, 300, 1000] {
        let (once, twice) = laid_out_twice(given);
        assert_eq!(once.common.position, twice.common.position);
        assert_eq!(once.common.min_width, twice.common.min_width);
        assert_eq!(once.common.pref_width, twice.common.pref_width);
        assert_eq!(once.containing_width, twice.containing_width);
        assert_eq!(once.render_box, twice.render_box);
        assert_eq!(once.common.floats_out.len(), twice.common.floats_out.len());
        assert_eq!(once.common.floats_out.get(0), twice.common.floats_out.get(0));
        for (a, b) in once.children.iter().zip(twice.children.iter()) {
            assert_eq!(a.base().position, b.base().position);
            assert_eq!(a.base().floats_out.len(), b.base().floats_out.len());
        }
    }
}

#[test]
fn layout_cycle_gives_the_expected_rectangles() {
    let (once, _) = laid_out_twice(300);
    // Bubbled: min 100 + 15, pref 300 + 25; given 300 lies between.
    assert_eq!(once.common.min_width, Au(115));
    assert_eq!(once.common.pref_width, Au(325));
    assert_eq!(once.common.position.size.width, Au(300));
    let own = once.render_box.unwrap();
    assert_eq!(own.position, Rect::new(Au(30), Au(0), Au(302), Au(108)));
    assert_eq!(once.children[0].base().position, Rect::new(Au(31), Au(7), Au(300), Au(40)));
    assert_eq!(once.children[1].base().position, Rect::new(Au(31), Au(47), Au(300), Au(60)));
}

#[test]
fn box_paints_background_content_and_border() {
    let mut style = Style::initial();
    style.border = SideOffsets { top: Au(1), right: Au(2), bottom: Au(3), left: Au(4) };
    let mut flow = float_with_box(style, 0, 0);
    flow.bubble_widths_float();
    let mut own = flow.render_box.unwrap();
    own.position = Rect::new(Au(5), Au(6), Au(50), Au(60));
    flow.render_box = Some(own);
    let mut list = DisplayList::new();
    let dirty = Rect::new(Au(0), Au(0), Au(1000), Au(1000));
    flow.build_display_list_float(&dirty, &Point2D::new(Au(100), Au(200)), &mut list);
    let bounds = Rect::new(Au(105), Au(206), Au(50), Au(60));
    assert_eq!(
        list.items,
        vec![
            DisplayItem::Background(bounds),
            DisplayItem::Content(bounds),
            DisplayItem::Border(bounds, style.border),
        ]
    );
}

#[test]
fn box_outside_the_dirty_rectangle_paints_nothing() {
    let mut flow = float_with_box(Style::initial(), 0, 0);
    let mut own = flow.render_box.unwrap();
    own.position = Rect::new(Au(0), Au(0), Au(50), Au(60));
    flow.render_box = Some(own);
    let mut list = DisplayList::new();
    // The dirty rectangle begins where the box ends.
    let dirty = Rect::new(Au(50), Au(0), Au(10), Au(10));
    flow.build_display_list_float(&dirty, &Point2D::new(Au(0), Au(0)), &mut list);
    assert!(list.items.is_empty());
    let dirty = Rect::new(Au(49), Au(59), Au(10), Au(10));
    flow.build_display_list_float(&dirty, &Point2D::new(Au(0), Au(0)), &mut list);
    assert_eq!(list.items.len(), 3);
}

#[test]
fn children_paint_after_the_box_at_their_own_offset() {
    let boxed = |id: i32, position: Rect, at: Rect| {
        let mut flow = float_with_box(Style::initial(), 0, 0);
        flow.common.id = id;
        flow.common.position = at;
        let mut own = flow.render_box.unwrap();
        own.position = position;
        flow.render_box = Some(own);
        flow
    };
    let mut outer = boxed(1, Rect::new(Au(0), Au(0), Au(100), Au(100)), Rect::zero());
    let near = boxed(
        2,
        Rect::new(Au(1), Au(2), Au(10), Au(10)),
        Rect::new(Au(20), Au(30), Au(10), Au(10)),
    );
    let far = boxed(
        3,
        Rect::new(Au(0), Au(0), Au(10), Au(10)),
        Rect::new(Au(5000), Au(30), Au(10), Au(10)),
    );
    outer.children.push(Flow::Float(far));
    outer.children.push(peer(4, 0, 0, 10));
    outer.children.push(Flow::Float(near));
    let mut list = DisplayList::new();
    let dirty = Rect::new(Au(0), Au(0), Au(1000), Au(1000));
    outer.build_display_list_float(&dirty, &Point2D::new(Au(100), Au(200)), &mut list);
    let own = Rect::new(Au(100), Au(200), Au(100), Au(100));
    let child = Rect::new(Au(121), Au(232), Au(10), Au(10));
    assert_eq!(
        list.items,
        vec![
            DisplayItem::Background(own),
            DisplayItem::Content(own),
            DisplayItem::Border(own, SideOffsets::zero()),
            DisplayItem::Background(child),
            DisplayItem::Content(child),
            DisplayItem::Border(child, SideOffsets::zero()),
        ]
    );
}

#[test]
fn teardown_lets_go_of_box_children_and_index() {
    let mut flow = float_with_box(Style::initial(), 1, 2);
    flow.index = Some(4);
    flow.containing_width = Au(9);
    flow.common.min_width = Au(3);
    flow.children.push(peer(2, 0, 0, 0));
    flow.teardown();
    assert!(flow.render_box.is_none());
    assert!(flow.index.is_none());
    assert!(flow.children.is_empty());
    assert_eq!(flow.containing_width, Au(9));
    assert_eq!(flow.common.min_width, Au(3));
    assert_eq!(flow.common.id, 1);
}

#[test]
fn new_float_has_no_box_and_no_children() {
    let flow = FloatFlowData::new(FlowData::new(7));
    assert_eq!(flow.common.id, 7);
    assert!(flow.render_box.is_none());
    assert!(flow.index.is_none());
    assert!(flow.children.is_empty());
    assert_eq!(flow.containing_width, Au(0));
    assert_eq!(flow.common.position, Rect::zero());
    assert_eq!(flow.common.num_floats, 0);
}

#[test]
fn lengths_add_subtract_and_compare() {
    assert_eq!(Au(3).plus(Au(4)), Au(7));
    assert_eq!(Au(3).minus(Au(4)), Au(-1));
    assert_eq!(max(Au(3), Au(4)), Au(4));
    assert_eq!(min(Au(3), Au(4)), Au(3));
    assert_eq!(max(Au(-3), Au(-4)), Au(-3));
    assert_eq!(Au::zero(), Au(0));
}

#[test]
fn percentages_round_towards_zero() {
    let resolve = |percent: u16, containing: i32| {
        LengthOrPercentage::Percentage(percent).resolve(Au(containing))
    };
    assert_eq!(resolve(10, 300), Au(30));
    assert_eq!(resolve(10, 305), Au(30));
    assert_eq!(resolve(10, -305), Au(-30));
    assert_eq!(resolve(250, 10), Au(25));
    assert_eq!(resolve(0, 10), Au(0));
    assert_eq!(LengthOrPercentage::Length(Au(12)).resolve(Au(300)), Au(12));
}

#[test]
fn declarations_resolve_to_lengths_or_auto() {
    assert_eq!(MaybeAuto::from_style(LengthOrPercentageOrAuto::Auto, Au(300)), MaybeAuto::Auto);
    assert_eq!(
        MaybeAuto::from_style(LengthOrPercentageOrAuto::Length(Au(12)), Au(300)),
        MaybeAuto::Specified(Au(12))
    );
    assert_eq!(
        MaybeAuto::from_style(LengthOrPercentageOrAuto::Percentage(25), Au(300)),
        MaybeAuto::Specified(Au(75))
    );
    assert_eq!(MaybeAuto::Auto.spec_or_default(Au(5)), Au(5));
    assert_eq!(MaybeAuto::Specified(Au(9)).spec_or_default(Au(5)), Au(9));
}

#[test]
fn rectangles_translate_and_intersect() {
    let a = Rect::new(Au(0), Au(0), Au(10), Au(10));
    assert_eq!(a.translate(&Point2D::new(Au(3), Au(-4))), Rect::new(Au(3), Au(-4), Au(10), Au(10)));
    assert!(a.intersects(&Rect::new(Au(9), Au(9), Au(5), Au(5))));
    assert!(!a.intersects(&Rect::new(Au(10), Au(0), Au(5), Au(5))));
    assert!(!a.intersects(&Rect::new(Au(0), Au(10), Au(5), Au(5))));
    // A rectangle without width still lies within the other.
    assert!(a.intersects(&Rect::new(Au(3), Au(3), Au(0), Au(5))));
    assert!(!a.intersects(&Rect::new(Au(0), Au(3), Au(0), Au(5))));
    let wide = Rect::new(Au(i32::MAX), Au(0), Au(i32::MAX), Au(1));
    assert!(wide.intersects(&Rect::new(Au(i32::MAX), Au(0), Au(1), Au(1))));
}

#[test]
fn box_offset_adds_margin_border_and_padding() {
    let model = BoxModel {
        margin: SideOffsets { top: Au(0), right: Au(0), bottom: Au(0), left: Au(1) },
        border: SideOffsets { top: Au(0), right: Au(0), bottom: Au(0), left: Au(20) },
        padding: SideOffsets { top: Au(0), right: Au(0), bottom: Au(0), left: Au(300) },
    };
    assert_eq!(model.offset(), Au(321));
}

#[test]
fn assigned_width_is_never_negative() {
    let declarations = [
        LengthOrPercentageOrAuto::Auto,
        LengthOrPercentageOrAuto::Length(Au(0)),
        LengthOrPercentageOrAuto::Length(Au(17)),
        LengthOrPercentageOrAuto::Percentage(0),
        LengthOrPercentageOrAuto::Percentage(33),
    ];
    for declared in declarations {
        for given in [0, 1, 99, 100, 101, 249, 250, 251, 10_000] {
            let mut style = Style::initial();
            style.width = declared;
            let mut flow = sized(float_with_box(style, 0, 0), 100, 250, given);
            flow.children.push(peer(2, 0, 0, 0));
            flow.assign_widths_float();
            assert!(flow.common.position.size.width.0 >= 0);
            assert!(flow.children[0].base().position.size.width.0 >= 0);
            if declared == LengthOrPercentageOrAuto::Auto {
                assert_eq!(flow.common.position.size.width, Au(given.clamp(100, 250)));
            }
        }
    }
}

#[test]
fn flows_of_both_kinds_take_what_the_parent_sets() {
    let mut flows = vec![
        Flow::Float(FloatFlowData::new(FlowData::new(1))),
        Flow::Other(FlowData::new(2)),
    ];
    for flow in flows.iter_mut() {
        flow.set_horizontal(Au(3), Au(4));
        flow.set_origin_y(Au(5));
        assert_eq!(flow.base().position, Rect::new(Au(3), Au(5), Au(4), Au(0)));
        assert!(flow.can_assign_height());
        flow.assign_height();
        assert_eq!(flow.base().position, Rect::new(Au(3), Au(5), Au(4), Au(0)));
    }
    // Only the float registers a footprint of its own.
    assert_eq!(flows[0].base().floats_out.len(), 1);
    assert_eq!(flows[0].base().floats_out.get(0).unwrap().width, Au(4));
    assert_eq!(flows[1].base().floats_out.len(), 0);

    let mut data = FlowData::new(3);
    data.num_floats = 2;
    data.floats_in = FloatContext::new(5);
    let mut flow = Flow::Other(data);
    flow.reset_floats_in();
    assert_eq!(flow.base().floats_in.float_count(), 2);
    let mut inner = FloatFlowData::new(FlowData::new(4));
    inner.common.num_floats = 1;
    let mut flow = Flow::Float(inner);
    flow.reset_floats_in();
    assert_eq!(flow.base().floats_in.float_count(), 1);
    assert_eq!(flow.base().floats_in.len(), 0);
}

#[test]
fn culled_child_is_painted_by_its_own_call_only_where_it_is_met() {
    let mut child = float_with_box(Style::initial(), 0, 0);
    child.common.position = Rect::new(Au(10), Au(10), Au(5), Au(5));
    let mut own = child.render_box.unwrap();
    own.position = Rect::new(Au(0), Au(0), Au(5), Au(5));
    child.render_box = Some(own);
    let child = Flow::Float(child);
    let dirty = Rect::new(Au(0), Au(0), Au(12), Au(12));
    let mut list = DisplayList::new();
    child.build_display_list_for_child(&dirty, &Point2D::new(Au(5), Au(5)), &mut list);
    assert!(list.items.is_empty());
    child.build_display_list_for_child(&dirty, &Point2D::new(Au(1), Au(1)), &mut list);
    assert_eq!(list.items.len(), 3);
    assert_eq!(list.items[0], DisplayItem::Background(Rect::new(Au(11), Au(11), Au(5), Au(5))));
    list.append_item(DisplayItem::Content(dirty));
    assert_eq!(list.items[3], DisplayItem::Content(dirty));
    let peer = peer(9, 0, 0, 5);
    peer.build_display_list_for_child(&dirty, &Point2D::new(Au(0), Au(0)), &mut list);
    assert_eq!(list.items.len(), 4);
}
