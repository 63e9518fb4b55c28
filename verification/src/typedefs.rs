//! Small shared value types: the drag-gesture accumulator and an axis tag.

use vstd::prelude::*;

verus! {

/// Which way a bar-shaped widget extends.
#[derive(Clone, Copy, PartialEq, Eq, Structural, Debug)]
pub enum Orientation {
    Horizontal,
    Vertical,
}

/// The accumulator of an active drag gesture: the last pointer position the
/// gesture was measured against. Each motion event yields the step since that
/// origin and then moves the origin to the event's position, so steps never
/// compound across frames.
#[derive(Clone, Copy, PartialEq, Eq, Structural, Debug)]
pub struct DragState {
    pub initial_x: i32,
    pub initial_y: i32,
}

impl DragState {
    /// Begin a gesture at the pointer position `(x, y)`.
    pub fn start(x: i32, y: i32) -> (r: Self)
        ensures
            r == (DragState { initial_x: x, initial_y: y }),
    {
        DragState { initial_x: x, initial_y: y }
    }

    /// Move the origin to `(x, y)`, consuming the step measured so far.
    pub fn reset(&mut self, x: i32, y: i32)
        ensures
            *final(self) == (DragState { initial_x: x, initial_y: y }),
    {
        self.initial_x = x;
        self.initial_y = y;
    }

    /// The step from the origin to `(x, y)`, when it fits in 32 bits.
    pub fn dxdy(&self, x: i32, y: i32) -> (r: (i32, i32))
        requires
            i32::MIN <= x - self.initial_x <= i32::MAX,
            i32::MIN <= y - self.initial_y <= i32::MAX,
        ensures
            r.0 == x - self.initial_x,
            r.1 == y - self.initial_y,
    {
        (
            (x as i64 - self.initial_x as i64) as i32,
            (y as i64 - self.initial_y as i64) as i32,
        )
    }
}

} // verus!
