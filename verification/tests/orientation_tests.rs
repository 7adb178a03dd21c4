use wiresphere::orientation::{DragStep, Orientation, OrientationController};

/// Dragging without moving applies the identity rotation and leaves the
/// orientation word unchanged.
#[test]
fn identity_drag_is_noop() {
    let mut c = OrientationController::new();
    c.on_drag_start(10, 20);
    let step = c.on_mouse_move(10, 20);
    assert_eq!(step, Some(DragStep { dx: 0, dy: 0 }));
    assert!(c.current().steps.is_empty());
}

/// Press at the origin, move a hundred pixels right, release: the resulting
/// orientation is the identity composed with exactly one yaw-only step of a
/// hundred pixels.
#[test]
fn press_move_release_yields_one_yaw_step() {
    let mut c = OrientationController::new();
    c.on_drag_start(0, 0);
    let step = c.on_mouse_move(100, 0);
    assert_eq!(step, Some(DragStep { dx: 100, dy: 0 }));
    c.on_drag_end();
    assert_eq!(c.current().steps, vec![DragStep { dx: 100, dy: 0 }]);
    assert!(!c.drag);
}

/// A motion with no drag updates the remembered position and nothing else.
#[test]
fn move_without_drag_updates_position_only() {
    let mut c = OrientationController::new();
    let step = c.on_mouse_move(42, -7);
    assert_eq!(step, None);
    assert_eq!(c.last_x, 42);
    assert_eq!(c.last_y, -7);
    assert!(c.current().steps.is_empty());
}

/// A drag resumed after free motion measures its first delta from the
/// freshly updated position, not from a stale one.
#[test]
fn drag_resumption_uses_updated_position() {
    let mut c = OrientationController::new();
    assert_eq!(c.on_mouse_move(100, 50), None);
    c.on_drag_start(100, 50);
    let step = c.on_mouse_move(110, 55);
    assert_eq!(step, Some(DragStep { dx: 10, dy: 5 }));
    assert_eq!(c.current().steps, vec![DragStep { dx: 10, dy: 5 }]);
}

/// Steps compose in application order, and identity steps drop out of the
/// word wherever they occur.
#[test]
fn steps_compose_in_order() {
    let mut o = Orientation::identity();
    o.apply(DragStep { dx: 3, dy: 0 });
    o.apply(DragStep { dx: 0, dy: 0 });
    o.apply(DragStep { dx: 0, dy: -4 });
    assert_eq!(o.steps, vec![DragStep { dx: 3, dy: 0 }, DragStep { dx: 0, dy: -4 }]);
}

/// Two drags in opposite orders record different words: the composition is
/// order-sensitive.
#[test]
fn composition_records_order() {
    let a = DragStep { dx: 5, dy: 0 };
    let b = DragStep { dx: 0, dy: 5 };
    let mut o1 = Orientation::identity();
    o1.apply(a);
    o1.apply(b);
    let mut o2 = Orientation::identity();
    o2.apply(b);
    o2.apply(a);
    assert_ne!(o1.steps, o2.steps);
}
