use puppet_editor::geometry::{Point, Rect};
use puppet_editor::typedefs::DragState;

#[test]
fn contains_point_is_half_open() {
    let r = Rect::new(0, 0, 10, 10);
    assert!(r.contains_point(Point::new(0, 0)));
    assert!(r.contains_point(Point::new(9, 9)));
    assert!(!r.contains_point(Point::new(10, 10)));
    assert!(!r.contains_point(Point::new(-1, 0)));
    assert!(!r.contains_point(Point::new(0, 10)));
}

#[test]
fn center_and_centered_on_agree() {
    let r = Rect::new(0, 0, 800, 800);
    assert_eq!(r.center(), Point { x: 400, y: 400 });

    let c = Rect::new(0, 0, 10, 10).centered_on(Point::new(400, 400));
    assert_eq!(c, Rect { x: 395, y: 395, w: 10, h: 10 });
    assert_eq!(c.center(), Point { x: 400, y: 400 });
}

#[test]
fn translated_moves_the_corner() {
    let r = Rect::new(-5, -5, 10, 10).translated(400, 400);
    assert_eq!(r, Rect { x: 395, y: 395, w: 10, h: 10 });
}

#[test]
fn drag_state_measures_per_step_deltas() {
    let mut ds = DragState::start(400, 400);
    assert_eq!(ds.dxdy(410, 405), (10, 5));
    ds.reset(410, 405);
    assert_eq!(ds.dxdy(415, 405), (5, 0));
    assert_eq!(ds.dxdy(400, 400), (-10, -5));
}
