//! Position deltas: composable translate-and-resize transforms on rectangles.
use vstd::prelude::*;

verus! {

/// Represents a change of position: a translation of the top-left corner by
/// `(x, y)` together with a resize of the width and height by `(w, h)`.
///
/// Chaining two changes adds them componentwise, so changes compose
/// associatively.
#[derive(Clone, Debug, PartialEq, Eq, Structural)]
pub struct PositionChange {
    pub x: i32,
    pub y: i32,
    pub w: i32,
    pub h: i32,
}

impl PositionChange {
    /// The identity change: moves nothing and resizes nothing.
    pub fn new() -> (r: PositionChange)
        ensures
            r == (PositionChange { x: 0, y: 0, w: 0, h: 0 }),
    {
        PositionChange { x: 0, y: 0, w: 0, h: 0 }
    }

    /// Moves the change further left by `amount`.
    pub fn left(&self, amount: i32) -> (r: PositionChange)
        requires
            i32::MIN <= self.x - amount <= i32::MAX,
        ensures
            r == (PositionChange { x: (self.x - amount) as i32, ..*self }),
    {
        PositionChange { x: self.x - amount, ..*self }
    }

    /// Moves the change further right by `amount`.
    pub fn right(&self, amount: i32) -> (r: PositionChange)
        requires
            i32::MIN <= self.x + amount <= i32::MAX,
        ensures
            r == (PositionChange { x: (self.x + amount) as i32, ..*self }),
    {
        PositionChange { x: self.x + amount, ..*self }
    }

    /// Moves the change further up by `amount`.
    pub fn up(&self, amount: i32) -> (r: PositionChange)
        requires
            i32::MIN <= self.y - amount <= i32::MAX,
        ensures
            r == (PositionChange { y: (self.y - amount) as i32, ..*self }),
    {
        PositionChange { y: self.y - amount, ..*self }
    }

    /// Moves the change further down by `amount`.
    pub fn down(&self, amount: i32) -> (r: PositionChange)
        requires
            i32::MIN <= self.y + amount <= i32::MAX,
        ensures
            r == (PositionChange { y: (self.y + amount) as i32, ..*self }),
    {
        PositionChange { y: self.y + amount, ..*self }
    }

    /// Shrinks the height by `amount`, keeping the bottom edge in place.
    pub fn shrink_height_top(&self, amount: i32) -> (r: PositionChange)
        requires
            i32::MIN <= self.y + amount <= i32::MAX,
            i32::MIN <= self.h - amount <= i32::MAX,
        ensures
            r == (PositionChange {
                y: (self.y + amount) as i32,
                h: (self.h - amount) as i32,
                ..*self
            }),
    {
        PositionChange { y: self.y + amount, h: self.h - amount, ..*self }
    }

    /// Grows the height by `amount`, keeping the bottom edge in place.
    pub fn grow_height_top(&self, amount: i32) -> (r: PositionChange)
        requires
            i32::MIN <= self.y - amount <= i32::MAX,
            i32::MIN <= self.h + amount <= i32::MAX,
        ensures
            r == (PositionChange {
                y: (self.y - amount) as i32,
                h: (self.h + amount) as i32,
                ..*self
            }),
    {
        PositionChange { y: self.y - amount, h: self.h + amount, ..*self }
    }

    /// Shrinks the height by `amount`, keeping the top edge in place.
    pub fn shrink_height_bot(&self, amount: i32) -> (r: PositionChange)
        requires
            i32::MIN <= self.h - amount <= i32::MAX,
        ensures
            r == (PositionChange { h: (self.h - amount) as i32, ..*self }),
    {
        PositionChange { h: self.h - amount, ..*self }
    }

    /// Grows the height by `amount`, keeping the top edge in place.
    pub fn grow_height_bot(&self, amount: i32) -> (r: PositionChange)
        requires
            i32::MIN <= self.h + amount <= i32::MAX,
        ensures
            r == (PositionChange { h: (self.h + amount) as i32, ..*self }),
    {
        PositionChange { h: self.h + amount, ..*self }
    }

    /// Shrinks the width by `amount`, keeping the right edge in place.
    pub fn shrink_width_left(&self, amount: i32) -> (r: PositionChange)
        requires
            i32::MIN <= self.x - amount <= i32::MAX,
            i32::MIN <= self.w - amount <= i32::MAX,
        ensures
            r == (PositionChange {
                x: (self.x - amount) as i32,
                w: (self.w - amount) as i32,
                ..*self
            }),
    {
        PositionChange { x: self.x - amount, w: self.w - amount, ..*self }
    }

    /// Grows the width by `amount`, keeping the right edge in place.
    pub fn grow_width_left(&self, amount: i32) -> (r: PositionChange)
        requires
            i32::MIN <= self.x + amount <= i32::MAX,
            i32::MIN <= self.w + amount <= i32::MAX,
        ensures
            r == (PositionChange {
                x: (self.x + amount) as i32,
                w: (self.w + amount) as i32,
                ..*self
            }),
    {
        PositionChange { x: self.x + amount, w: self.w + amount, ..*self }
    }

    /// Shrinks the width by `amount`, keeping the left edge in place.
    pub fn shrink_width_right(&self, amount: i32) -> (r: PositionChange)
        requires
            i32::MIN <= self.w - amount <= i32::MAX,
        ensures
            r == (PositionChange { w: (self.w - amount) as i32, ..*self }),
    {
        PositionChange { w: self.w - amount, ..*self }
    }

    /// Grows the width by `amount`, keeping the left edge in place.
    pub fn grow_width_right(&self, amount: i32) -> (r: PositionChange)
        requires
            i32::MIN <= self.w + amount <= i32::MAX,
        ensures
            r == (PositionChange { w: (self.w + amount) as i32, ..*self }),
    {
        PositionChange { w: self.w + amount, ..*self }
    }

    /// Adds two changes componentwise.
    pub fn chain(&self, change: &PositionChange) -> (r: PositionChange)
        requires
            i32::MIN <= self.x + change.x <= i32::MAX,
            i32::MIN <= self.y + change.y <= i32::MAX,
            i32::MIN <= self.w + change.w <= i32::MAX,
            i32::MIN <= self.h + change.h <= i32::MAX,
        ensures
            r == (PositionChange {
                x: (self.x + change.x) as i32,
                y: (self.y + change.y) as i32,
                w: (self.w + change.w) as i32,
                h: (self.h + change.h) as i32,
            }),
    {
        PositionChange {
            x: self.x + change.x,
            y: self.y + change.y,
            w: self.w + change.w,
            h: self.h + change.h,
        }
    }
}

} // verus!
