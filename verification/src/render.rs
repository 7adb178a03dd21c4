//! The render loop's state machine.
//!
//! Each frame the backend draws the mesh with uniforms read from this state,
//! then drains its pending events in arrival order and hands each one to
//! [`App::handle_event`] as a plain record; once the queue is empty it calls
//! [`App::frame_tick`] to advance the animation clock. The loop runs while
//! the state is `Running` and stops for good when a close event moves it to
//! `Closing`.

use vstd::prelude::*;

use crate::orientation::{compose_step, DragStep, OrientationController};
use crate::view::ViewProjection;

verus! {

/// One event delivered by the backend, reduced to what the loop reads of it.
/// Every event the dispatch does not act on arrives as `Other`, which is
/// deliberately a no-op.
#[derive(Clone, Copy, Debug, PartialEq, Eq, Structural)]
pub enum InputEvent {
    /// The window was asked to close.
    Closed,
    /// The left mouse button went down.
    LeftPressed,
    /// The left mouse button was released.
    LeftReleased,
    /// The mouse moved to this window position.
    MouseMoved(i32, i32),
    /// The window was resized to this width and height.
    Resized(u32, u32),
    /// Any other event: ignored on purpose.
    Other,
}

/// Whether the loop keeps running. `Closing` is terminal: no event dispatch
/// happens after it is reached.
#[derive(Clone, Copy, Debug, PartialEq, Eq, Structural)]
pub enum RunState {
    Running,
    Closing,
}

/// A motion event's deltas against the position the controller remembers fit
/// in the pixel coordinate type; every other event asks nothing. The event
/// loop feeding the dispatch checks this before calling in.
pub open spec fn move_delta_fits(c: OrientationController, ev: InputEvent) -> bool {
    match ev {
        InputEvent::MouseMoved(x, y) => c.drag ==> i32::MIN <= x - c.last_x <= i32::MAX
            && i32::MIN <= y - c.last_y <= i32::MAX,
        _ => true,
    }
}

/// Everything the render loop mutates between frames: drag state and
/// orientation, projection inputs, the animation clock, and whether the loop
/// is still running.
///
/// The clock counts frames spent outside a drag, in tenths of the backend's
/// time unit; it restarts from zero whenever a drag moves the mesh or the
/// button is released.
#[derive(Debug)]
pub struct App {
    /// Drag state and accumulated rotation.
    pub controller: OrientationController,
    /// Varying inputs of the perspective projection.
    pub view: ViewProjection,
    /// Animation clock, in ticks of one frame each.
    pub time_ticks: u32,
    /// Whether the loop keeps running.
    pub run: RunState,
}

impl App {
    /// The state at startup, for a window of the given size: running, not
    /// dragging, identity orientation, clock at zero.
    pub fn new(width: u32, height: u32) -> (a: App)
        ensures
            a.run is Running,
            !a.controller.drag,
            a.controller.last_x == 0,
            a.controller.last_y == 0,
            a.controller.orientation.word() == Seq::<DragStep>::empty(),
            a.view == (ViewProjection { width, height }),
            a.time_ticks == 0,
    {
        App {
            controller: OrientationController::new(),
            view: ViewProjection::compute(width, height),
            time_ticks: 0,
            run: RunState::Running,
        }
    }

    /// Whether the loop should draw another frame.
    pub fn is_running(&self) -> (r: bool)
        ensures
            r == (self.run is Running),
    {
        matches!(self.run, RunState::Running)
    }

    /// Dispatch one backend event.
    ///
    /// A close request moves the loop to its terminal state; button events
    /// begin and end drags (a release also restarts the animation clock);
    /// motion is forwarded to the orientation controller, restarting the
    /// clock while a drag is on; a resize recomputes the projection inputs;
    /// anything else changes nothing. The returned step, if any, is the
    /// rotation this event applied, for the backend's quaternion.
    pub fn handle_event(&mut self, ev: InputEvent) -> (step: Option<DragStep>)
        requires
            move_delta_fits(old(self).controller, ev),
        ensures
            match ev {
                InputEvent::Closed => {
                    &&& step is None
                    &&& final(self).run is Closing
                    &&& final(self).controller == old(self).controller
                    &&& final(self).view == old(self).view
                    &&& final(self).time_ticks == old(self).time_ticks
                },
                InputEvent::LeftPressed => {
                    &&& step is None
                    &&& final(self).controller.drag
                    &&& final(self).controller.last_x == old(self).controller.last_x
                    &&& final(self).controller.last_y == old(self).controller.last_y
                    &&& final(self).controller.orientation == old(self).controller.orientation
                    &&& final(self).view == old(self).view
                    &&& final(self).time_ticks == old(self).time_ticks
                    &&& final(self).run == old(self).run
                },
                InputEvent::LeftReleased => {
                    &&& step is None
                    &&& !final(self).controller.drag
                    &&& final(self).controller.last_x == old(self).controller.last_x
                    &&& final(self).controller.last_y == old(self).controller.last_y
                    &&& final(self).controller.orientation == old(self).controller.orientation
                    &&& final(self).view == old(self).view
                    &&& final(self).time_ticks == 0
                    &&& final(self).run == old(self).run
                },
                InputEvent::MouseMoved(x, y) => {
                    &&& final(self).controller.drag == old(self).controller.drag
                    &&& final(self).controller.last_x == x
                    &&& final(self).controller.last_y == y
                    &&& (!old(self).controller.drag ==> {
                        &&& step is None
                        &&& final(self).controller.orientation == old(self).controller.orientation
                        &&& final(self).time_ticks == old(self).time_ticks
                    })
                    &&& (old(self).controller.drag ==> ({
                        let s = DragStep {
                            dx: (x - old(self).controller.last_x) as i32,
                            dy: (y - old(self).controller.last_y) as i32,
                        };
                        &&& step == Some(s)
                        &&& final(self).controller.orientation.word() == compose_step(
                            old(self).controller.orientation.word(),
                            s,
                        )
                        &&& final(self).time_ticks == 0
                    }))
                    &&& final(self).view == old(self).view
                    &&& final(self).run == old(self).run
                },
                InputEvent::Resized(w, h) => {
                    &&& step is None
                    &&& final(self).view == (ViewProjection { width: w, height: h })
                    &&& final(self).controller == old(self).controller
                    &&& final(self).time_ticks == old(self).time_ticks
                    &&& final(self).run == old(self).run
                },
                InputEvent::Other => step is None && *final(self) == *old(self),
            },
    {
        match ev {
            InputEvent::Closed => {
                self.run = RunState::Closing;
                None
            }
            InputEvent::LeftPressed => {
                let x: i32 = self.controller.last_x;
                let y: i32 = self.controller.last_y;
                self.controller.on_drag_start(x, y);
                None
            }
            InputEvent::LeftReleased => {
                self.controller.on_drag_end();
                self.time_ticks = 0;
                None
            }
            InputEvent::MouseMoved(x, y) => {
                if self.controller.drag {
                    self.time_ticks = 0;
                }
                self.controller.on_mouse_move(x, y)
            }
            InputEvent::Resized(w, h) => {
                self.view = ViewProjection::compute(w, h);
                None
            }
            InputEvent::Other => None,
        }
    }

    /// Advance the animation clock by one frame: it counts only while no
    /// drag is on, and holds at its maximum rather than wrap.
    pub fn frame_tick(&mut self)
        ensures
            final(self).controller == old(self).controller,
            final(self).view == old(self).view,
            final(self).run == old(self).run,
            final(self).time_ticks == if old(self).controller.drag {
                old(self).time_ticks as int
            } else if old(self).time_ticks < u32::MAX {
                old(self).time_ticks + 1
            } else {
                u32::MAX as int
            },
    {
        if !self.controller.drag {
            if self.time_ticks < u32::MAX {
                self.time_ticks = self.time_ticks + 1;
            }
        }
    }
}

} // verus!
