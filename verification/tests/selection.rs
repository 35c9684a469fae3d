use canvas_strokes::geometry::{Aabb, Vector2};
use canvas_strokes::selection::{
    document_offset, Corner, DragEvent, GeometryCommand, Handle, Interaction, SelectionModifier,
    RESIZE_NODE_SIZE, SELECTION_MIN,
};
use canvas_strokes::units::UNIT;

fn to_fixed(v: f64) -> i64 {
    (v * 1000.0).round() as i64
}

fn vector(x: f64, y: f64) -> Vector2 {
    Vector2::new(to_fixed(x), to_fixed(y))
}

fn aabb(min_x: f64, min_y: f64, max_x: f64, max_y: f64) -> Aabb {
    Aabb::new(vector(min_x, min_y), vector(max_x, max_y))
}

fn selection() -> Aabb {
    aabb(10.0, 10.0, 110.0, 110.0)
}

fn drag(handle: Handle, delta: Vector2, bounds: Option<Aabb>, scale: f64) -> Option<GeometryCommand> {
    let mut engine = SelectionModifier::new();
    assert_eq!(engine.dispatch(DragEvent::Begin(handle), bounds, to_fixed(scale)), None);
    engine.dispatch(DragEvent::Update(delta), bounds, to_fixed(scale))
}

#[test]
fn selection_min_is_three_units_and_no_larger_than_a_handle() {
    assert_eq!(SELECTION_MIN, 3 * UNIT);
    assert!(SELECTION_MIN > 0);
    assert_eq!(RESIZE_NODE_SIZE, 22);
    assert!(SELECTION_MIN <= i64::from(RESIZE_NODE_SIZE) * UNIT);
}

#[test]
fn document_offset_converts_both_components() {
    assert_eq!(document_offset(vector(55.0, 33.0), to_fixed(2.0)), Some(vector(27.5, 16.5)));
    assert_eq!(document_offset(vector(20.0, 0.0), to_fixed(1.0)), Some(vector(20.0, 0.0)));
    assert_eq!(document_offset(vector(54.6, -32.5), to_fixed(2.0)), Some(vector(27.5, -16.5)));
}

#[test]
fn document_offset_is_none_for_a_scale_factor_that_is_not_positive() {
    assert_eq!(document_offset(vector(55.0, 33.0), 0), None);
    assert_eq!(document_offset(vector(55.0, 33.0), -2_000), None);
}

#[test]
fn document_offset_is_none_where_one_component_does_not_fit() {
    assert_eq!(document_offset(Vector2::new(i64::MAX, 0), 1), None);
    assert_eq!(document_offset(Vector2::new(0, i64::MIN), 1), None);
}

#[test]
fn drag_bottom_right_handle_at_scale_two() {
    let command = drag(
        Handle::Resize(Corner::BottomRight),
        vector(55.0, 33.0),
        Some(selection()),
        2.0,
    );
    assert_eq!(
        command,
        Some(GeometryCommand::ResizeSelection(aabb(10.0, 10.0, 137.5, 126.5)))
    );
}

#[test]
fn drag_bottom_right_handle_past_the_opposite_corner() {
    let command = drag(
        Handle::Resize(Corner::BottomRight),
        vector(-195.0, -10.0),
        Some(selection()),
        1.0,
    );
    let expected = aabb(10.0, 10.0, 13.0, 100.0);
    assert_eq!(command, Some(GeometryCommand::ResizeSelection(expected)));
    assert_eq!(expected.maxs.x, selection().mins.x + SELECTION_MIN);
}

#[test]
fn translate_selection_shifts_by_the_document_offset() {
    let command = drag(Handle::Translate, vector(20.0, 0.0), Some(selection()), 1.0);
    assert_eq!(command, Some(GeometryCommand::TranslateSelection(vector(20.0, 0.0))));
    let strokes = [aabb(10.0, 10.0, 60.0, 40.0), aabb(70.0, 20.0, 110.0, 110.0)];
    let offset = match command {
        Some(GeometryCommand::TranslateSelection(offset)) => offset,
        _ => unreachable!(),
    };
    for bounds in strokes {
        let moved = bounds.translate(offset);
        assert_eq!(moved.mins.x, bounds.mins.x + 20_000);
        assert_eq!(moved.mins.y, bounds.mins.y);
        assert_eq!(moved.maxs.x - moved.mins.x, bounds.maxs.x - bounds.mins.x);
        assert_eq!(moved.maxs.y - moved.mins.y, bounds.maxs.y - bounds.mins.y);
    }
}

#[test]
fn translate_needs_no_selection_bounds() {
    let command = drag(Handle::Translate, vector(-4.0, 9.0), None, 2.0);
    assert_eq!(command, Some(GeometryCommand::TranslateSelection(vector(-2.0, 4.5))));
}

#[test]
fn resize_top_left_moves_mins_and_keeps_maxs() {
    let r = SelectionModifier::resize_tl(selection(), vector(5.0, -7.0), 1_000).unwrap();
    assert_eq!(r, aabb(15.0, 3.0, 110.0, 110.0));
    assert_eq!(r.maxs, selection().maxs);
}

#[test]
fn resize_top_right_moves_top_and_right_edges() {
    let r = SelectionModifier::resize_tr(selection(), vector(5.0, -7.0), 1_000).unwrap();
    assert_eq!(r, aabb(10.0, 3.0, 115.0, 110.0));
    assert_eq!(r.mins.x, selection().mins.x);
    assert_eq!(r.maxs.y, selection().maxs.y);
}

#[test]
fn resize_bottom_left_moves_left_and_bottom_edges() {
    let r = SelectionModifier::resize_bl(selection(), vector(5.0, -7.0), 1_000).unwrap();
    assert_eq!(r, aabb(15.0, 10.0, 110.0, 103.0));
    assert_eq!(r.maxs.x, selection().maxs.x);
    assert_eq!(r.mins.y, selection().mins.y);
}

#[test]
fn resize_bottom_right_moves_maxs_and_keeps_mins() {
    let r = SelectionModifier::resize_br(selection(), vector(5.0, -7.0), 1_000).unwrap();
    assert_eq!(r, aabb(10.0, 10.0, 115.0, 103.0));
    assert_eq!(r.mins, selection().mins);
}

#[test]
fn the_handles_divide_the_delta_by_the_scale_factor() {
    let delta = vector(55.0, 33.0);
    assert_eq!(
        SelectionModifier::resize_tl(selection(), delta, 2_000),
        Some(aabb(37.5, 26.5, 110.0, 110.0))
    );
    assert_eq!(
        SelectionModifier::resize_tr(selection(), delta, 2_000),
        Some(aabb(10.0, 26.5, 137.5, 110.0))
    );
    assert_eq!(
        SelectionModifier::resize_bl(selection(), delta, 2_000),
        Some(aabb(37.5, 10.0, 110.0, 126.5))
    );
    assert_eq!(
        SelectionModifier::resize_br(selection(), delta, 2_000),
        Some(aabb(10.0, 10.0, 137.5, 126.5))
    );
    assert_eq!(SelectionModifier::translate_node(delta, 2_000), Some(vector(27.5, 16.5)));
    assert_eq!(SelectionModifier::translate_node(delta, 500), Some(vector(110.0, 66.0)));
}

#[test]
fn the_handles_drop_a_delta_that_has_no_outcome() {
    let delta = vector(55.0, 33.0);
    assert_eq!(SelectionModifier::resize_tl(selection(), delta, 0), None);
    assert_eq!(SelectionModifier::resize_tr(selection(), delta, -1), None);
    assert_eq!(SelectionModifier::resize_bl(selection(), Vector2::new(i64::MAX, 0), 1), None);
    assert_eq!(SelectionModifier::translate_node(delta, 0), None);
    assert_eq!(SelectionModifier::translate_node(Vector2::new(0, i64::MIN), 1), None);
    let wide = Aabb::new(Vector2::new(0, 0), Vector2::new(i64::MAX - 5, 100_000));
    assert_eq!(SelectionModifier::resize_br(wide, vector(1.0, 0.0), 1_000), None);
    assert_eq!(
        SelectionModifier::resize_br(wide, vector(-1.0, 0.0), 1_000),
        Some(Aabb::new(Vector2::new(0, 0), Vector2::new(i64::MAX - 1_005, 100_000)))
    );
}

#[test]
fn each_corner_stops_at_the_minimum_extent_from_its_opposite_corner() {
    let far = vector(1000.0, 1000.0);
    let back = vector(-1000.0, -1000.0);
    assert_eq!(
        SelectionModifier::resize(Corner::TopLeft, selection(), far),
        Some(aabb(107.0, 107.0, 110.0, 110.0))
    );
    assert_eq!(
        SelectionModifier::resize(Corner::TopRight, selection(), Vector2::new(back.x, far.y)),
        Some(aabb(10.0, 107.0, 13.0, 110.0))
    );
    assert_eq!(
        SelectionModifier::resize(Corner::BottomLeft, selection(), Vector2::new(far.x, back.y)),
        Some(aabb(107.0, 10.0, 110.0, 13.0))
    );
    assert_eq!(
        SelectionModifier::resize(Corner::BottomRight, selection(), back),
        Some(aabb(10.0, 10.0, 13.0, 13.0))
    );
}

#[test]
fn a_resize_to_exactly_the_minimum_extent_is_not_clamped() {
    let r = SelectionModifier::resize(Corner::BottomRight, selection(), vector(-97.0, -97.0));
    assert_eq!(r, Some(aabb(10.0, 10.0, 13.0, 13.0)));
    let r = SelectionModifier::resize(Corner::BottomRight, selection(), Vector2::new(-96_999, -97_001));
    assert_eq!(r.unwrap().maxs, Vector2::new(13_001, 13_000));
    let r = SelectionModifier::resize(Corner::TopLeft, selection(), Vector2::new(96_999, 97_001));
    assert_eq!(r.unwrap().mins, Vector2::new(106_999, 107_000));
}

#[test]
fn each_axis_is_clamped_on_its_own() {
    let r = SelectionModifier::resize(Corner::TopLeft, selection(), vector(200.0, 10.0));
    assert_eq!(r, Some(aabb(107.0, 20.0, 110.0, 110.0)));
    let r = SelectionModifier::resize(Corner::TopRight, selection(), vector(10.0, 200.0));
    assert_eq!(r, Some(aabb(10.0, 107.0, 120.0, 110.0)));
}

#[test]
fn resize_is_none_where_the_new_bounds_do_not_fit() {
    let wide = Aabb::new(Vector2::new(0, 0), Vector2::new(i64::MAX - 5, 100_000));
    assert_eq!(
        SelectionModifier::resize(Corner::BottomRight, wide, Vector2::new(5, 0)),
        Some(Aabb::new(Vector2::new(0, 0), Vector2::new(i64::MAX, 100_000)))
    );
    assert_eq!(SelectionModifier::resize(Corner::BottomRight, wide, Vector2::new(6, 0)), None);
    let low = Aabb::new(Vector2::new(i64::MIN + 5, 0), Vector2::new(0, 100_000));
    assert_eq!(SelectionModifier::resize(Corner::TopLeft, low, Vector2::new(-6, 0)), None);
    // the minimum square at the anchor has to fit as well
    let edge = Aabb::new(Vector2::new(i64::MAX - 10, 0), Vector2::new(i64::MAX - 5, 100_000));
    assert_eq!(SelectionModifier::resize(Corner::BottomRight, edge, Vector2::new(0, 0)), None);
    assert_eq!(
        SelectionModifier::resize(Corner::TopLeft, edge, Vector2::new(0, 0)),
        Some(Aabb::new(
            Vector2::new(i64::MAX - 5 - SELECTION_MIN, 0),
            Vector2::new(i64::MAX - 5, 100_000)
        ))
    );
}

#[test]
fn the_handles_agree_with_the_rule_of_their_corner() {
    let delta = vector(-25.0, 62.0);
    let offset = document_offset(delta, 2_000).unwrap();
    assert_eq!(offset, vector(-12.5, 31.0));
    assert_eq!(
        SelectionModifier::resize_tl(selection(), delta, 2_000),
        SelectionModifier::resize(Corner::TopLeft, selection(), offset)
    );
    assert_eq!(
        SelectionModifier::resize_tr(selection(), delta, 2_000),
        SelectionModifier::resize(Corner::TopRight, selection(), offset)
    );
    assert_eq!(
        SelectionModifier::resize_bl(selection(), delta, 2_000),
        SelectionModifier::resize(Corner::BottomLeft, selection(), offset)
    );
    assert_eq!(
        SelectionModifier::resize_br(selection(), delta, 2_000),
        SelectionModifier::resize(Corner::BottomRight, selection(), offset)
    );
}

#[test]
fn a_new_engine_is_idle() {
    assert_eq!(SelectionModifier::new().interaction(), Interaction::Idle);
}

#[test]
fn a_drag_enters_and_leaves_the_interaction_of_its_handle() {
    let mut engine = SelectionModifier::new();
    let scale = to_fixed(1.0);
    engine.dispatch(DragEvent::Begin(Handle::Resize(Corner::TopRight)), Some(selection()), scale);
    assert_eq!(engine.interaction(), Interaction::ResizingFromCorner(Corner::TopRight));
    engine.dispatch(DragEvent::Update(vector(1.0, 1.0)), Some(selection()), scale);
    assert_eq!(engine.interaction(), Interaction::ResizingFromCorner(Corner::TopRight));
    assert_eq!(engine.dispatch(DragEvent::End, Some(selection()), scale), None);
    assert_eq!(engine.interaction(), Interaction::Idle);
    engine.dispatch(DragEvent::Begin(Handle::Translate), None, scale);
    assert_eq!(engine.interaction(), Interaction::Translating);
    engine.dispatch(DragEvent::End, None, scale);
    assert_eq!(engine.interaction(), Interaction::Idle);
}

#[test]
fn an_abandoned_drag_asks_for_nothing() {
    let mut engine = SelectionModifier::new();
    let scale = to_fixed(1.0);
    assert_eq!(
        engine.dispatch(DragEvent::Begin(Handle::Resize(Corner::BottomRight)), Some(selection()), scale),
        None
    );
    assert_eq!(engine.dispatch(DragEvent::End, Some(selection()), scale), None);
    assert_eq!(engine.interaction(), Interaction::Idle);
}

#[test]
fn a_delta_outside_a_drag_asks_for_nothing() {
    let mut engine = SelectionModifier::new();
    assert_eq!(
        engine.dispatch(DragEvent::Update(vector(5.0, 5.0)), Some(selection()), to_fixed(1.0)),
        None
    );
    assert_eq!(engine.interaction(), Interaction::Idle);
}

#[test]
fn a_resize_without_a_selection_asks_for_nothing() {
    assert_eq!(drag(Handle::Resize(Corner::TopLeft), vector(5.0, 5.0), None, 1.0), None);
}

#[test]
fn a_delta_is_dropped_where_the_scale_factor_is_not_positive() {
    assert_eq!(
        drag(Handle::Resize(Corner::TopLeft), vector(5.0, 5.0), Some(selection()), 0.0),
        None
    );
    assert_eq!(drag(Handle::Translate, vector(5.0, 5.0), Some(selection()), -1.0), None);
}

#[test]
fn a_delta_is_dropped_where_the_result_does_not_fit() {
    let mut engine = SelectionModifier::new();
    engine.dispatch(DragEvent::Begin(Handle::Translate), None, 1);
    assert_eq!(engine.dispatch(DragEvent::Update(Vector2::new(i64::MAX, 0)), None, 1), None);
    let wide = Aabb::new(Vector2::new(0, 0), Vector2::new(i64::MAX - 5, 100_000));
    assert_eq!(
        drag(Handle::Resize(Corner::BottomRight), vector(1.0, 0.0), Some(wide), 1.0),
        None
    );
}

#[test]
fn every_delta_of_a_drag_acts_on_the_bounds_it_is_given() {
    let mut engine = SelectionModifier::new();
    let scale = to_fixed(1.0);
    engine.dispatch(DragEvent::Begin(Handle::Resize(Corner::TopLeft)), Some(selection()), scale);
    let first = engine.dispatch(DragEvent::Update(vector(10.0, 10.0)), Some(selection()), scale);
    assert_eq!(first, Some(GeometryCommand::ResizeSelection(aabb(20.0, 20.0, 110.0, 110.0))));
    let second = engine.dispatch(
        DragEvent::Update(vector(10.0, 10.0)),
        Some(aabb(20.0, 20.0, 110.0, 110.0)),
        scale,
    );
    assert_eq!(second, Some(GeometryCommand::ResizeSelection(aabb(30.0, 30.0, 110.0, 110.0))));
}

#[test]
fn the_default_engine_is_idle() {
    assert_eq!(SelectionModifier::default().interaction(), Interaction::Idle);
}
