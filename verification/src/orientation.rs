//! Free-form orientation driven by mouse drags.
//!
//! While the left button is held, every mouse motion contributes one step: a
//! yaw about the Y axis proportional to the horizontal delta, followed by a
//! pitch about the X axis proportional to the vertical delta (a thousandth of
//! a radian per pixel), post-multiplied onto the current rotation so that
//! drags compose in the mesh's own frame. The library keeps the rotation as
//! the word of steps applied so far, in application order; the backend
//! realises the word as a product of unit quaternions, one yaw-pitch pair per
//! step, without renormalisation.

use vstd::prelude::*;

verus! {

/// One drag update: the mouse delta in pixels since the previous motion
/// event. It stands for the rotation yaw(dx) followed by pitch(dy).
#[derive(Clone, Copy, Debug, PartialEq, Eq, Structural)]
pub struct DragStep {
    pub dx: i32,
    pub dy: i32,
}

impl DragStep {
    /// A step with no motion denotes the identity rotation: both its yaw and
    /// its pitch are rotations by a zero angle.
    pub open spec fn is_identity(self) -> bool {
        self.dx == 0 && self.dy == 0
    }
}

/// The word after one more step is applied to it. An identity step composes
/// to nothing and is not recorded; any other step is appended.
pub open spec fn compose_step(w: Seq<DragStep>, step: DragStep) -> Seq<DragStep> {
    if step.is_identity() {
        w
    } else {
        w.push(step)
    }
}

/// Composition of two rotations given as words: the steps of the first
/// followed by the steps of the second, in application order.
pub open spec fn compose(a: Seq<DragStep>, b: Seq<DragStep>) -> Seq<DragStep> {
    a + b
}

/// Composition of rotations is associative in application order.
pub proof fn lemma_compose_associative(a: Seq<DragStep>, b: Seq<DragStep>, c: Seq<DragStep>)
    ensures
        compose(compose(a, b), c) == compose(a, compose(b, c)),
{
    assert(compose(compose(a, b), c) =~= compose(a, compose(b, c)));
}

/// The empty word — the identity rotation — is neutral on either side of a
/// composition.
pub proof fn lemma_compose_identity(a: Seq<DragStep>)
    ensures
        compose(a, Seq::<DragStep>::empty()) == a,
        compose(Seq::<DragStep>::empty(), a) == a,
{
    assert(compose(a, Seq::<DragStep>::empty()) =~= a);
    assert(compose(Seq::<DragStep>::empty(), a) =~= a);
}

/// A drag event with no motion is a no-op: applying an identity step leaves
/// the orientation word unchanged.
pub proof fn lemma_identity_step_is_noop(w: Seq<DragStep>, step: DragStep)
    requires
        step.is_identity(),
    ensures
        compose_step(w, step) == w,
{
}

/// A rotation accumulated from drag steps, kept as the word of non-identity
/// steps in application order. The identity rotation is the empty word.
///
/// The quaternion the backend keeps alongside is the product of one
/// yaw-pitch quaternion pair per step, in word order, starting from the
/// identity quaternion.
#[derive(Debug, PartialEq)]
pub struct Orientation {
    pub steps: Vec<DragStep>,
}

impl Orientation {
    /// The word of steps this rotation is composed of.
    pub open spec fn word(self) -> Seq<DragStep> {
        self.steps@
    }

    /// The identity rotation: no steps applied yet.
    pub fn identity() -> (o: Orientation)
        ensures
            o.word() == Seq::<DragStep>::empty(),
    {
        Orientation { steps: Vec::new() }
    }

    /// Post-multiply this rotation by one drag step.
    pub fn apply(&mut self, step: DragStep)
        ensures
            final(self).word() == compose_step(old(self).word(), step),
    {
        if step.dx != 0 || step.dy != 0 {
            self.steps.push(step);
        }
    }
}

/// Drag state and the running orientation.
///
/// The last seen mouse position is updated on every motion event, dragging or
/// not, so that a drag resumed after free motion measures its first delta
/// from the position where the button went down, never from a stale one.
#[derive(Debug)]
pub struct OrientationController {
    /// Whether the left button is currently held.
    pub drag: bool,
    /// Horizontal position of the most recent motion event.
    pub last_x: i32,
    /// Vertical position of the most recent motion event.
    pub last_y: i32,
    /// The rotation accumulated from all drags so far.
    pub orientation: Orientation,
}

impl OrientationController {
    /// A controller before any input: not dragging, mouse at the origin,
    /// orientation the identity.
    pub fn new() -> (c: OrientationController)
        ensures
            !c.drag,
            c.last_x == 0,
            c.last_y == 0,
            c.orientation.word() == Seq::<DragStep>::empty(),
    {
        OrientationController { drag: false, last_x: 0, last_y: 0, orientation: Orientation::identity() }
    }

    /// The left button went down at the given position: begin a drag there.
    /// The orientation is untouched.
    pub fn on_drag_start(&mut self, x: i32, y: i32)
        ensures
            final(self).drag,
            final(self).last_x == x,
            final(self).last_y == y,
            final(self).orientation == old(self).orientation,
    {
        self.drag = true;
        self.last_x = x;
        self.last_y = y;
    }

    /// The left button was released: end the drag. Position and orientation
    /// are untouched.
    pub fn on_drag_end(&mut self)
        ensures
            !final(self).drag,
            final(self).last_x == old(self).last_x,
            final(self).last_y == old(self).last_y,
            final(self).orientation == old(self).orientation,
    {
        self.drag = false;
    }

    /// The mouse moved to `(x, y)`.
    ///
    /// The remembered position is updated unconditionally. While dragging,
    /// the delta from the previous position becomes one drag step, the
    /// orientation is post-multiplied by it, and the step is returned so the
    /// backend can apply the same rotation to its quaternion; outside a drag
    /// the orientation is untouched and nothing is returned.
    pub fn on_mouse_move(&mut self, x: i32, y: i32) -> (step: Option<DragStep>)
        requires
            old(self).drag ==> i32::MIN <= x - old(self).last_x <= i32::MAX,
            old(self).drag ==> i32::MIN <= y - old(self).last_y <= i32::MAX,
        ensures
            final(self).drag == old(self).drag,
            final(self).last_x == x,
            final(self).last_y == y,
            !old(self).drag ==> step is None && final(self).orientation == old(self).orientation,
            old(self).drag ==> ({
                let s = DragStep {
                    dx: (x - old(self).last_x) as i32,
                    dy: (y - old(self).last_y) as i32,
                };
                step == Some(s) && final(self).orientation.word() == compose_step(
                    old(self).orientation.word(),
                    s,
                )
            }),
    {
        let step: Option<DragStep> = if self.drag {
            let s = DragStep { dx: x - self.last_x, dy: y - self.last_y };
            self.orientation.apply(s);
            Some(s)
        } else {
            None
        };
        self.last_x = x;
        self.last_y = y;
        step
    }

    /// The rotation accumulated so far.
    pub fn current(&self) -> (o: &Orientation)
        ensures
            o == &self.orientation,
    {
        &self.orientation
    }
}

} // verus!
