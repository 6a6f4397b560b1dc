//! The bouncing-disk animation state machine of the debug view.  The view's
//! rendering, timer thread, and random backdrop live with the host; the
//! state update and the event-to-action decision are proved here.

use vstd::prelude::*;
use crate::geom::{Point, Rectangle};

verus! {

/// The animation state: the disk's position and its velocity.
#[derive(Clone, Copy, PartialEq, Eq, Structural, Debug)]
pub struct AlgoState {
    pub pos: Point,
    pub vel: Point,
}

impl AlgoState {
    /// The initial state: at the origin, moving down-right one step per tick.
    pub fn new() -> (s: AlgoState)
        ensures
            s == (AlgoState { pos: Point { x: 0, y: 0 }, vel: Point { x: 16, y: 16 } }),
    {
        AlgoState { pos: Point { x: 0, y: 0 }, vel: Point { x: 16, y: 16 } }
    }

    /// The state invariant against a frame of the given width and height:
    /// the disk stays inside the frame and the velocity is one step in each
    /// axis, in either direction.
    pub open spec fn inv(&self, width: int, height: int) -> bool {
        &&& 0 <= self.pos.x <= width
        &&& 0 <= self.pos.y <= height
        &&& (self.vel.x == 16 || self.vel.x == -16)
        &&& (self.vel.y == 16 || self.vel.y == -16)
    }

    /// Advance the animation one tick inside a `width` by `height` frame:
    /// each axis moves by its velocity, and an axis whose next position
    /// would leave the frame keeps its position and reverses its velocity.
    /// Returns the dirty rectangle around the disk before the move.
    pub fn step(&mut self, width: i32, height: i32) -> (dirty: Rectangle)
        requires
            0 <= width <= 1000000,
            0 <= height <= 1000000,
            old(self).inv(width as int, height as int),
        ensures
            final(self).inv(width as int, height as int),
            final(self).pos.x as int == (if old(self).pos.x + old(self).vel.x > width
                || old(self).pos.x + old(self).vel.x < 0 {
                old(self).pos.x as int
            } else {
                old(self).pos.x + old(self).vel.x
            }),
            final(self).pos.y as int == (if old(self).pos.y + old(self).vel.y > height
                || old(self).pos.y + old(self).vel.y < 0 {
                old(self).pos.y as int
            } else {
                old(self).pos.y + old(self).vel.y
            }),
            final(self).vel.x as int == (if old(self).pos.x + old(self).vel.x > width
                || old(self).pos.x + old(self).vel.x < 0 {
                -(old(self).vel.x as int)
            } else {
                old(self).vel.x as int
            }),
            final(self).vel.y as int == (if old(self).pos.y + old(self).vel.y > height
                || old(self).pos.y + old(self).vel.y < 0 {
                -(old(self).vel.y as int)
            } else {
                old(self).vel.y as int
            }),
            dirty.min.x as int == old(self).pos.x - 16,
            dirty.min.y as int == old(self).pos.y - 16,
            dirty.max.x as int == old(self).pos.x + 16,
            dirty.max.y as int == old(self).pos.y + 16,
    {
        let dirty = Rectangle {
            min: Point { x: self.pos.x - 16, y: self.pos.y - 16 },
            max: Point { x: self.pos.x + 16, y: self.pos.y + 16 },
        };
        let nx = self.pos.x + self.vel.x;
        let ny = self.pos.y + self.vel.y;
        if nx > width || nx < 0 {
            self.vel.x = -self.vel.x;
        } else {
            self.pos.x = nx;
        }
        if ny > height || ny < 0 {
            self.vel.y = -self.vel.y;
        } else {
            self.pos.y = ny;
        }
        dirty
    }
}

/// The events the debug view reacts to.
#[derive(Clone, Copy, PartialEq, Eq, Structural, Debug)]
pub enum AnimEvent {
    FingerDown,
    FingerUp,
    RenderTick,
    Other,
}

/// What the view does with an event.
#[derive(Clone, Copy, PartialEq, Eq, Structural, Debug)]
pub enum AnimAction {
    /// Advance the animation and reset the render timer.
    StepAndNotify,
    /// Leave the view.
    Back,
    /// Advance the animation.
    Step,
    /// The event is not handled.
    Ignore,
}

/// The event-to-action decision of the debug view: a finger press advances
/// the animation and resets the timer, a finger lift leaves the view, a
/// render tick advances the animation, everything else is unhandled.
pub fn handle_event(evt: &AnimEvent) -> (a: AnimAction)
    ensures
        a == (match evt {
            AnimEvent::FingerDown => AnimAction::StepAndNotify,
            AnimEvent::FingerUp => AnimAction::Back,
            AnimEvent::RenderTick => AnimAction::Step,
            AnimEvent::Other => AnimAction::Ignore,
        }),
{
    match evt {
        AnimEvent::FingerDown => AnimAction::StepAndNotify,
        AnimEvent::FingerUp => AnimAction::Back,
        AnimEvent::RenderTick => AnimAction::Step,
        AnimEvent::Other => AnimAction::Ignore,
    }
}

} // verus!
