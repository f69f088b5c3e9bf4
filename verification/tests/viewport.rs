use star_editor::editor::{KeySteps, StarEditor, ZOOM_MAX, ZOOM_MIN};
use star_editor::object::Vec2;
use star_editor::pointer::Segment;

fn at(x: f32, y: f32) -> Vec2 {
    Vec2 { x: x.to_bits(), y: y.to_bits() }
}

/// What the program around the library does with the scroll of a frame.
fn scroll(editor: &mut StarEditor, delta: f32) {
    let zoom = f32::from_bits(editor.zoom()) + delta * 0.01;
    editor.set_zoom(zoom.to_bits());
}

#[test]
fn the_bounds_of_the_zoom_are_a_tenth_and_five() {
    assert_eq!(f32::from_bits(ZOOM_MIN), 0.1);
    assert_eq!(f32::from_bits(ZOOM_MAX), 5.0);
}

#[test]
fn a_zoom_in_range_is_taken_as_it_is() {
    let mut editor = StarEditor::new();
    for zoom in [0.1f32, 0.10000001, 0.5, 1.0, 2.25, 4.9999995, 5.0] {
        editor.set_zoom(zoom.to_bits());
        assert_eq!(f32::from_bits(editor.zoom()), zoom);
    }
}

#[test]
fn a_zoom_out_of_range_is_brought_to_the_nearest_bound() {
    let mut editor = StarEditor::new();
    for zoom in [5.0000005f32, 6.0, 1000.0, f32::MAX, f32::INFINITY] {
        editor.set_zoom(zoom.to_bits());
        assert_eq!(f32::from_bits(editor.zoom()), 5.0);
    }
    for zoom in [0.099999994f32, 0.0, -0.0, f32::MIN_POSITIVE, 1.0e-40, -1.0, -5.0, f32::NEG_INFINITY] {
        editor.set_zoom(zoom.to_bits());
        assert_eq!(f32::from_bits(editor.zoom()), 0.1);
    }
}

#[test]
fn the_zoom_agrees_with_the_clamp_of_the_numbers() {
    let mut editor = StarEditor::new();
    let mut value = -8.0f32;
    while value < 8.0 {
        editor.set_zoom(value.to_bits());
        assert_eq!(f32::from_bits(editor.zoom()), value.clamp(0.1, 5.0));
        value += 0.0137;
    }
}

#[test]
fn what_is_not_a_number_is_brought_to_the_smallest_zoom() {
    let mut editor = StarEditor::new();
    editor.set_zoom(f32::NAN.to_bits());
    assert_eq!(f32::from_bits(editor.zoom()), 0.1);
    editor.set_zoom(2.0f32.to_bits());
    editor.set_zoom((-f32::NAN).to_bits());
    assert_eq!(f32::from_bits(editor.zoom()), 0.1);
}

#[test]
fn scrolling_never_leaves_the_zoom_range() {
    let mut editor = StarEditor::new();
    let deltas = [
        50.0f32,
        120.0,
        300.0,
        1.0e9,
        -40.0,
        -900.0,
        -1.0e12,
        3.0,
        0.5,
        7000.0,
        f32::INFINITY,
        f32::NEG_INFINITY,
        f32::NAN,
        -7000.0,
    ];
    for delta in deltas {
        scroll(&mut editor, delta);
        let zoom = f32::from_bits(editor.zoom());
        assert!((0.1..=5.0).contains(&zoom));
    }
}

#[test]
fn scrolling_adds_a_hundredth_of_the_delta() {
    let mut editor = StarEditor::new();
    scroll(&mut editor, 50.0);
    assert_eq!(f32::from_bits(editor.zoom()), 1.0 + 50.0 * 0.01);
    scroll(&mut editor, -100.0);
    assert_eq!(f32::from_bits(editor.zoom()), (1.0f32 + 50.0 * 0.01) + -100.0 * 0.01);
    scroll(&mut editor, -100.0);
    assert_eq!(f32::from_bits(editor.zoom()), 0.1);
    scroll(&mut editor, 1000.0);
    assert_eq!(f32::from_bits(editor.zoom()), 5.0);
}

#[test]
fn setting_the_zoom_leaves_the_rest() {
    let mut editor = StarEditor::new();
    editor.add_object();
    editor.select(0);
    editor.set_view_offset(at(3.0, 4.0));
    editor.set_zoom(2.0f32.to_bits());
    assert_eq!(editor.len(), 1);
    assert_eq!(editor.selected(), Some(0));
    assert_eq!(editor.view_offset(), at(3.0, 4.0));
}

#[test]
fn the_view_offset_is_stored_as_given() {
    let mut editor = StarEditor::new();
    editor.set_view_offset(at(-12.5, 640.0));
    assert_eq!(editor.view_offset(), at(-12.5, 640.0));
    assert_eq!(f32::from_bits(editor.zoom()), 1.0);
}

#[test]
fn the_first_frame_of_a_pan_only_sets_the_anchor() {
    let mut editor = StarEditor::new();
    assert_eq!(editor.pan(true, Some(at(10.0, 10.0))), None);
    assert_eq!(editor.pan_anchor(), Some(at(10.0, 10.0)));
}

#[test]
fn the_view_follows_the_pointer_frame_by_frame() {
    let mut editor = StarEditor::new();
    let a = at(10.0, 10.0);
    let b = at(14.0, 7.0);
    let c = at(20.0, 7.0);
    editor.pan(true, Some(a));
    assert_eq!(editor.pan(true, Some(b)), Some(Segment { from: a, to: b }));
    assert_eq!(editor.pan(true, Some(c)), Some(Segment { from: b, to: c }));
    assert_eq!(editor.pan_anchor(), Some(c));
}

#[test]
fn a_pan_without_a_pointer_position_waits() {
    let mut editor = StarEditor::new();
    let a = at(1.0, 2.0);
    editor.pan(true, Some(a));
    assert_eq!(editor.pan(true, None), None);
    assert_eq!(editor.pan_anchor(), Some(a));
    assert_eq!(editor.pan(true, None), None);
}

#[test]
fn releasing_the_secondary_button_forgets_the_anchor() {
    let mut editor = StarEditor::new();
    editor.pan(true, Some(at(1.0, 2.0)));
    assert_eq!(editor.pan(false, Some(at(9.0, 9.0))), None);
    assert_eq!(editor.pan_anchor(), None);
    assert_eq!(editor.pan(true, Some(at(30.0, 30.0))), None);
    assert_eq!(editor.pan_anchor(), Some(at(30.0, 30.0)));
}

#[test]
fn panning_leaves_the_selection_and_the_drag() {
    let mut editor = StarEditor::new();
    editor.add_object();
    editor.select(0);
    editor.pan(true, Some(at(1.0, 1.0)));
    editor.pan(true, Some(at(2.0, 2.0)));
    assert_eq!(editor.selected(), Some(0));
    assert_eq!(editor.dragging(), None);
    assert_eq!(editor.view_offset(), at(0.0, 0.0));
}

#[test]
fn direction_keys_pan_only_a_scene_with_objects() {
    let mut editor = StarEditor::new();
    assert_eq!(editor.key_steps(true, false, true, false), KeySteps { x: 0, y: 0 });
    assert_eq!(editor.key_steps(true, true, true, true), KeySteps { x: 0, y: 0 });
    editor.add_object();
    assert_eq!(editor.key_steps(true, false, true, false), KeySteps { x: 1, y: 1 });
    editor.replace_objects(Vec::new());
    assert_eq!(editor.key_steps(false, true, false, true), KeySteps { x: 0, y: 0 });
}

#[test]
fn each_direction_key_moves_the_view_its_way() {
    let mut editor = StarEditor::new();
    editor.add_object();
    assert_eq!(editor.key_steps(false, false, false, false), KeySteps { x: 0, y: 0 });
    assert_eq!(editor.key_steps(true, false, false, false), KeySteps { x: 0, y: 1 });
    assert_eq!(editor.key_steps(false, true, false, false), KeySteps { x: 0, y: -1 });
    assert_eq!(editor.key_steps(false, false, true, false), KeySteps { x: 1, y: 0 });
    assert_eq!(editor.key_steps(false, false, false, true), KeySteps { x: -1, y: 0 });
    assert_eq!(editor.key_steps(true, false, false, true), KeySteps { x: -1, y: 1 });
    assert_eq!(editor.key_steps(false, true, true, false), KeySteps { x: 1, y: -1 });
}

#[test]
fn opposite_direction_keys_hold_the_view() {
    let mut editor = StarEditor::new();
    editor.add_object();
    editor.add_object();
    assert_eq!(editor.key_steps(true, true, false, false), KeySteps { x: 0, y: 0 });
    assert_eq!(editor.key_steps(false, false, true, true), KeySteps { x: 0, y: 0 });
    assert_eq!(editor.key_steps(true, true, true, false), KeySteps { x: 1, y: 0 });
    assert_eq!(editor.key_steps(true, true, true, true), KeySteps { x: 0, y: 0 });
}

#[test]
fn the_steps_do_not_grow_with_the_scene() {
    let mut editor = StarEditor::new();
    for _ in 0..5 {
        editor.add_object();
    }
    assert_eq!(editor.key_steps(true, false, false, true), KeySteps { x: -1, y: 1 });
}
