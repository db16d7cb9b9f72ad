//! Sprite-side data: mutable sprite rectangles and spritesheet descriptions.
use vstd::prelude::*;
use crate::collision::Rect;
use crate::vector::PositionChange;

verus! {

/// The direction that a sprite is facing.
#[derive(Clone, Copy, PartialEq, Eq, Structural, Debug, Hash)]
pub enum Direction {
    Left,
    Right,
}

/// A mutable rectangle for a sprite so it can be moved around.
#[derive(Clone, Copy, PartialEq, Eq, Structural, Debug)]
pub struct SpriteRectangle {
    pub x: i32,
    pub y: i32,
    pub w: u32,
    pub h: u32,
}

impl SpriteRectangle {
    /// The plain rectangle with the same position and size.
    pub open spec fn spec_rect(self) -> Rect {
        Rect { x: self.x, y: self.y, w: self.w, h: self.h }
    }

    pub fn new(x: i32, y: i32, w: u32, h: u32) -> (r: SpriteRectangle)
        ensures
            r == (SpriteRectangle { x, y, w, h }),
    {
        SpriteRectangle { x, y, w, h }
    }

    /// Creates a sprite rectangle from a plain rectangle.
    pub fn from_rect(rect: Rect) -> (r: SpriteRectangle)
        ensures
            r.spec_rect() == rect,
    {
        SpriteRectangle { x: rect.x, y: rect.y, w: rect.w, h: rect.h }
    }

    /// Returns the plain rectangle with the same position and size; used
    /// wherever a snapshot or a renderer wants an immutable rectangle.
    pub fn to_rect(&self) -> (r: Rect)
        ensures
            r == self.spec_rect(),
    {
        Rect { x: self.x, y: self.y, w: self.w, h: self.h }
    }

    /// Mutates the sprite rectangle based on the position change given:
    /// the corner moves by `(x, y)` and the size changes by `(w, h)`.
    pub fn apply_change(&mut self, change: &PositionChange)
        requires
            i32::MIN <= old(self).x + change.x <= i32::MAX,
            i32::MIN <= old(self).y + change.y <= i32::MAX,
            0 <= old(self).w + change.w <= u32::MAX,
            0 <= old(self).h + change.h <= u32::MAX,
        ensures
            final(self).x == old(self).x + change.x,
            final(self).y == old(self).y + change.y,
            final(self).w == old(self).w + change.w,
            final(self).h == old(self).h + change.h,
    {
        self.x = self.x + change.x;
        self.y = self.y + change.y;
        self.w = ((self.w as i64) + (change.w as i64)) as u32;
        self.h = ((self.h as i64) + (change.h as i64)) as u32;
    }
}

/// Contains configuration fields for parsing a spritesheet.
pub struct SpritesheetConfig {
    /// The width of each animation frame.
    pub width: u32,
    /// The height of each animation frame.
    pub height: u32,
    /// The number of frames in each row of the spritesheet.
    pub sprites_in_row: i32,
    /// The path to the spritesheet file.
    pub path: &'static str,
}

/// Describes one animation strip inside a sprite sheet.
pub struct AnimationData {
    /// The width of each animation frame.
    pub width: u32,
    /// The height of each animation frame.
    pub height: u32,
    /// The number of frames in each row of the spritesheet.
    pub sprites_in_row: i32,
    /// The path to the spritesheet file.
    pub path: &'static str,
}

} // verus!
