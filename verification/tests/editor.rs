use puppet_editor::editor::{Editor, EditorEvent};
use puppet_editor::geometry::{Point, Rect};
use puppet_editor::puppet::ComponentKind;
use puppet_editor::typedefs::DragState;

/// An editor over an 800x800 viewport at the origin: the workspace covers it
/// exactly and its center — the puppet-space origin — is (400, 400).
fn editor() -> Editor {
    Editor::new(Rect::new(0, 0, 800, 800))
}

/// Move every component but the one under test away from the puppet origin,
/// so a pointer over the origin hits only that one.
fn isolate(ed: &mut Editor, kind: ComponentKind) {
    for c in ed.puppet.components.iter_mut() {
        if c.kind != kind {
            c.default_state.position = (100_000, 100_000);
        }
    }
}

#[test]
fn new_editor_defaults() {
    let ed = editor();
    assert_eq!(ed.active_puppet_component, ComponentKind::Hat);
    assert!(ed.active_puppet_dragstate.is_none());
    assert_eq!(ed.audio_level, 0);
    assert_eq!(ed.workspace_rect, Rect { x: 0, y: 0, w: 800, h: 800 });
    assert_eq!(ed.layer_button_area.len(), 4);
    for (i, b) in ed.layer_button_area.iter().enumerate() {
        assert_eq!(b.kind, ed.puppet.components[i].kind);
        assert_eq!(b.rect, Rect { x: 20, y: 20 + 50 * i as i32, w: 80, h: 40 });
        assert!(!b.hovered);
    }
    assert!(ed.audio_level_set_timer.is_active);
    assert!(ed.audio_level_set_timer.is_loop);
}

#[test]
fn drag_gesture_moves_the_hat() {
    let mut ed = editor();
    isolate(&mut ed, ComponentKind::Hat);

    // pointer-down on the workspace center selects the hat (at puppet-space
    // (0, 0)) and starts a drag there
    ed.handle_events(EditorEvent::PointerDown { x: 400, y: 400 });
    assert_eq!(ed.active_puppet_component, ComponentKind::Hat);
    assert_eq!(
        ed.active_puppet_dragstate,
        Some(DragState { initial_x: 400, initial_y: 400 })
    );

    // moving to (410, 405) moves the hat by the step and resets the origin
    ed.handle_events(EditorEvent::PointerMove { x: 410, y: 405 });
    let hat = ed.puppet.component_of(ComponentKind::Hat);
    assert_eq!(hat.get_state().position, (10, 5));
    assert_eq!(
        ed.active_puppet_dragstate,
        Some(DragState { initial_x: 410, initial_y: 405 })
    );

    // pointer-up ends the gesture; a later move no longer drags
    ed.handle_events(EditorEvent::PointerUp);
    assert!(ed.active_puppet_dragstate.is_none());
    ed.handle_events(EditorEvent::PointerMove { x: 500, y: 500 });
    let hat = ed.puppet.component_of(ComponentKind::Hat);
    assert_eq!(hat.get_state().position, (10, 5));
}

#[test]
fn drag_steps_do_not_compound() {
    let mut ed = editor();
    isolate(&mut ed, ComponentKind::Hat);
    ed.handle_events(EditorEvent::PointerDown { x: 400, y: 400 });
    ed.handle_events(EditorEvent::PointerMove { x: 410, y: 400 });
    ed.handle_events(EditorEvent::PointerMove { x: 420, y: 400 });
    ed.handle_events(EditorEvent::PointerMove { x: 415, y: 400 });
    let hat = ed.puppet.component_of(ComponentKind::Hat);
    assert_eq!(hat.get_state().position, (15, 0));
}

#[test]
fn overlapping_hover_regions_mark_only_the_first() {
    let mut ed = editor();
    // make the first two layer buttons overlap completely
    ed.layer_button_area[0].rect = Rect::new(0, 0, 100, 100);
    ed.layer_button_area[1].rect = Rect::new(0, 0, 100, 100);

    ed.handle_events(EditorEvent::PointerMove { x: 50, y: 50 });
    assert!(ed.layer_button_area[0].hovered);
    assert!(!ed.layer_button_area[1].hovered);
    assert!(!ed.layer_button_area[2].hovered);
    assert!(!ed.layer_button_area[3].hovered);

    // moving away unmarks everything
    ed.handle_events(EditorEvent::PointerMove { x: 700, y: 700 });
    assert!(ed.layer_button_area.iter().all(|b| !b.hovered));
}

#[test]
fn overlapping_components_select_the_first_in_order() {
    let mut ed = editor();
    // all four components sit at the puppet origin; the first one wins
    ed.handle_events(EditorEvent::PointerDown { x: 400, y: 400 });
    assert_eq!(ed.active_puppet_component, ComponentKind::Head);
    assert!(ed.active_puppet_dragstate.is_some());
}

#[test]
fn layer_button_click_selects_its_kind() {
    let mut ed = editor();
    // the third button (Eyes) sits at y in 120..160
    ed.handle_events(EditorEvent::PointerDown { x: 30, y: 130 });
    assert_eq!(ed.active_puppet_component, ComponentKind::Eyes);
    // a button click starts no drag
    assert!(ed.active_puppet_dragstate.is_none());
}

#[test]
fn pointer_down_on_nothing_keeps_the_selection() {
    let mut ed = editor();
    ed.handle_events(EditorEvent::PointerDown { x: 30, y: 130 });
    assert_eq!(ed.active_puppet_component, ComponentKind::Eyes);
    ed.handle_events(EditorEvent::PointerDown { x: 799, y: 5 });
    assert_eq!(ed.active_puppet_component, ComponentKind::Eyes);
}

#[test]
fn process_gates_audio_sampling_by_the_timer() {
    let mut ed = editor();
    assert!(!ed.audio_sample_due());
    ed.process(120);
    assert!(!ed.audio_sample_due());
    ed.process(80);
    // 200 ms elapsed: a sample is due until the next process consumes it
    assert!(ed.audio_sample_due());
    ed.set_audio_level(42);
    assert_eq!(ed.audio_level, 42);
    ed.process(16);
    assert!(!ed.audio_sample_due());
    // the timer loops, so it keeps gating
    ed.process(200);
    assert!(ed.audio_sample_due());
}

#[test]
fn canvas_coordinates_are_offset_by_the_workspace_center() {
    let ed = editor();
    let r = ed.use_canvas_coord_for_rect(Rect::new(-5, -5, 10, 10));
    assert_eq!(r, Rect { x: 395, y: 395, w: 10, h: 10 });
    let p = ed.use_canvas_coord_for_point(Point::new(0, 0));
    assert_eq!(p, Point { x: 400, y: 400 });
}

#[test]
fn active_component_accessor_follows_the_selection() {
    let mut ed = editor();
    assert_eq!(ed.get_active_component().unwrap().kind, ComponentKind::Hat);
    ed.handle_events(EditorEvent::PointerDown { x: 30, y: 20 });
    assert_eq!(ed.get_active_component().unwrap().kind, ComponentKind::Head);
}

#[test]
fn can_pointer_move_accepts_ordinary_moves() {
    let mut ed = editor();
    assert!(ed.can_pointer_move(123, 456));
    ed.handle_events(EditorEvent::PointerDown { x: 400, y: 400 });
    assert!(ed.can_pointer_move(410, 405));
}
