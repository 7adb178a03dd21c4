use wiresphere::orientation::DragStep;
use wiresphere::render::{App, InputEvent, RunState};
use wiresphere::view::ViewProjection;

/// A close request moves the loop to its terminal state.
#[test]
fn close_event_stops_the_loop() {
    let mut app = App::new(1024, 786);
    assert!(app.is_running());
    assert_eq!(app.handle_event(InputEvent::Closed), None);
    assert!(!app.is_running());
    assert_eq!(app.run, RunState::Closing);
}

/// A resize recomputes the projection inputs; two different window sizes
/// yield two different projections, each recording its own dimensions.
#[test]
fn resize_recomputes_projection() {
    let first = ViewProjection::compute(800, 600);
    assert_eq!(first, ViewProjection { width: 800, height: 600 });
    let mut app = App::new(800, 600);
    assert_eq!(app.view, first);
    app.handle_event(InputEvent::Resized(1024, 786));
    assert_eq!(app.view, ViewProjection { width: 1024, height: 786 });
    assert_ne!(app.view, first);
}

/// The animation clock advances one tick per frame outside a drag, holds
/// still during one, and restarts on release.
#[test]
fn clock_counts_only_outside_drag_and_resets_on_release() {
    let mut app = App::new(640, 480);
    app.frame_tick();
    app.frame_tick();
    assert_eq!(app.time_ticks, 2);
    app.handle_event(InputEvent::LeftPressed);
    app.frame_tick();
    assert_eq!(app.time_ticks, 2);
    app.handle_event(InputEvent::LeftReleased);
    assert_eq!(app.time_ticks, 0);
    app.frame_tick();
    assert_eq!(app.time_ticks, 1);
}

/// A drag motion restarts the clock; free motion leaves it alone.
#[test]
fn drag_motion_resets_clock() {
    let mut app = App::new(640, 480);
    app.frame_tick();
    app.frame_tick();
    app.frame_tick();
    assert_eq!(app.handle_event(InputEvent::MouseMoved(5, 5)), None);
    assert_eq!(app.time_ticks, 3);
    app.handle_event(InputEvent::LeftPressed);
    let step = app.handle_event(InputEvent::MouseMoved(6, 5));
    assert_eq!(step, Some(DragStep { dx: 1, dy: 0 }));
    assert_eq!(app.time_ticks, 0);
}

/// Events the dispatch does not know are an explicit no-op.
#[test]
fn other_events_change_nothing() {
    let mut app = App::new(640, 480);
    app.frame_tick();
    app.handle_event(InputEvent::MouseMoved(9, 9));
    let before_ticks: u32 = app.time_ticks;
    let before_view = app.view;
    assert_eq!(app.handle_event(InputEvent::Other), None);
    assert_eq!(app.time_ticks, before_ticks);
    assert_eq!(app.view, before_view);
    assert_eq!(app.controller.last_x, 9);
    assert_eq!(app.controller.last_y, 9);
    assert!(app.is_running());
}

/// The full drag scenario through the loop: press at the origin, move a
/// hundred pixels right, release. The orientation is the identity followed
/// by one yaw-only step; the pitch component of the step is zero.
#[test]
fn drag_sequence_through_the_loop() {
    let mut app = App::new(1024, 786);
    app.handle_event(InputEvent::MouseMoved(0, 0));
    app.handle_event(InputEvent::LeftPressed);
    let step = app.handle_event(InputEvent::MouseMoved(100, 0));
    assert_eq!(step, Some(DragStep { dx: 100, dy: 0 }));
    app.handle_event(InputEvent::LeftReleased);
    assert_eq!(app.controller.orientation.steps, vec![DragStep { dx: 100, dy: 0 }]);
    assert!(!app.controller.drag);
}
