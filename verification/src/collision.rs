//! Axis-aligned rectangles, the overlap classifier, and collision sides.
//!
//! The classifier decides whether two rectangles overlap and, if so, on
//! which side the second rectangle struck the first.  All geometry is done
//! in exact integer arithmetic on doubled coordinates, so that half-integer
//! centre points and midlines never lose precision.
use vstd::prelude::*;
use crate::sprite::SpriteRectangle;
use crate::vector::PositionChange;

verus! {

/// An axis-aligned rectangle: top-left corner `(x, y)`, size `(w, h)`.
#[derive(Clone, Copy, PartialEq, Eq, Structural, Debug)]
pub struct Rect {
    pub x: i32,
    pub y: i32,
    pub w: u32,
    pub h: u32,
}

impl Rect {
    pub fn new(x: i32, y: i32, w: u32, h: u32) -> (r: Rect)
        ensures
            r == (Rect { x, y, w, h }),
    {
        Rect { x, y, w, h }
    }
}

/// Twice the x coordinate of the centre of `r` (doubling keeps half-integer
/// centres exact).
pub open spec fn cx2(r: Rect) -> int {
    2 * r.x + r.w
}

/// Twice the y coordinate of the centre of `r`.
pub open spec fn cy2(r: Rect) -> int {
    2 * r.y + r.h
}

/// Whether two rectangles overlap: their centres are no further apart than
/// the sum of their half-extents on both axes (touching counts as overlap).
pub open spec fn rects_overlap(a: Rect, b: Rect) -> bool {
    &&& -(a.w + b.w) <= cx2(a) - cx2(b) <= a.w + b.w
    &&& -(a.h + b.h) <= cy2(a) - cy2(b) <= a.h + b.h
}

/// The side classifier: maps the overlap vector of two overlapping
/// rectangles into one of four triangular sectors around the centre of the
/// first rectangle.  The comparison boundaries are deliberately asymmetric
/// (strict against `hx`, non-strict in the remaining cases): which side an
/// actor is pushed out of depends on them exactly.
pub open spec fn spec_collides(a: Rect, b: Rect) -> Option<CollisionSide> {
    if rects_overlap(a, b) {
        let wy = (a.w + b.w) * (cy2(a) - cy2(b));
        let hx = (a.h + b.h) * (cx2(a) - cx2(b));
        if wy > hx && wy > -hx {
            Some(CollisionSide::Top)
        } else if wy > hx {
            Some(CollisionSide::Right)
        } else if wy > -hx {
            Some(CollisionSide::Left)
        } else {
            Some(CollisionSide::Bottom)
        }
    } else {
        None
    }
}

/// Checks if a rectangle fully contains another rectangle.
pub open spec fn spec_rect_contains_rect(parent: Rect, child: Rect) -> bool {
    &&& parent.x <= child.x <= parent.x + parent.w
    &&& parent.x <= child.x + child.w <= parent.x + parent.w
    &&& parent.y <= child.y <= parent.y + parent.h
    &&& parent.y <= child.y + child.h <= parent.y + parent.h
}

/// Checks if a rectangle contains another rectangle.
pub fn rect_contains_rect(parent: Rect, child: Rect) -> (r: bool)
    ensures
        r == spec_rect_contains_rect(parent, child),
{
    let px: i64 = parent.x as i64;
    let py: i64 = parent.y as i64;
    let x_min: i64 = child.x as i64;
    let x_max: i64 = x_min + child.w as i64;
    let y_min: i64 = child.y as i64;
    let y_max: i64 = y_min + child.h as i64;

    let check_xmin = x_min >= px && x_min <= px + parent.w as i64;
    let check_xmax = x_max >= px && x_max <= px + parent.w as i64;
    let check_ymin = y_min >= py && y_min <= py + parent.h as i64;
    let check_ymax = y_max >= py && y_max <= py + parent.h as i64;

    check_xmin && check_xmax && check_ymin && check_ymax
}

/// One directional collision flag.  As a bit mask Left is `0b1000`,
/// Right `0b0100`, Top `0b0010` and Bottom `0b0001`, so a rectangle's
/// permeable sides fit in a 4-bit byte.
#[derive(Clone, Copy, Debug, PartialEq, Eq, Structural)]
pub enum CollisionSide {
    Left,
    Right,
    Top,
    Bottom,
}

/// The bit mask of one collision side.
pub open spec fn side_mask(side: CollisionSide) -> u8 {
    match side {
        CollisionSide::Left => 0b1000,
        CollisionSide::Right => 0b0100,
        CollisionSide::Top => 0b0010,
        CollisionSide::Bottom => 0b0001,
    }
}

/// The opposite side: Left and Right swap, Top and Bottom swap.
pub open spec fn flip_side(side: CollisionSide) -> CollisionSide {
    match side {
        CollisionSide::Left => CollisionSide::Right,
        CollisionSide::Right => CollisionSide::Left,
        CollisionSide::Top => CollisionSide::Bottom,
        CollisionSide::Bottom => CollisionSide::Top,
    }
}

/// Reverses a side byte for the other participant's point of view:
/// Top and Bottom swap only if a vertical bit is present, Left and Right
/// swap only if a horizontal bit is present; an axis whose bits read
/// "both" or "neither" carries no direction and is left untouched.
pub open spec fn spec_reverse_side(side: u8) -> u8 {
    let vert = if side & 0b0011 != 0b0011 && side & 0b0011 != 0b0000 {
        side ^ 0b0011
    } else {
        side
    };
    if vert & 0b1100 != 0b1100 && vert & 0b1100 != 0b0000 {
        vert ^ 0b1100
    } else {
        vert
    }
}

impl CollisionSide {
    /// The bit mask of this side.
    pub fn as_u8(self) -> (r: u8)
        ensures
            r == side_mask(self),
    {
        match self {
            CollisionSide::Left => 0b1000,
            CollisionSide::Right => 0b0100,
            CollisionSide::Top => 0b0010,
            CollisionSide::Bottom => 0b0001,
        }
    }

    /// The side whose bit mask is `side`; only single-side masks are
    /// meaningful, anything else is an internal invariant violation.
    pub fn from_u8(side: u8) -> (r: CollisionSide)
        requires
            side == 0b1000 || side == 0b0100 || side == 0b0010 || side == 0b0001,
        ensures
            side_mask(r) == side,
    {
        if side == 0b1000 {
            CollisionSide::Left
        } else if side == 0b0100 {
            CollisionSide::Right
        } else if side == 0b0010 {
            CollisionSide::Top
        } else {
            CollisionSide::Bottom
        }
    }

    /// Reverses a collision side.
    pub fn reverse(side: CollisionSide) -> (r: u8)
        ensures
            r == spec_reverse_side(side_mask(side)),
            r == side_mask(flip_side(side)),
    {
        proof {
            lemma_reverse_flip(side);
        }
        CollisionSide::reverse_u8(side.as_u8())
    }

    /// Reverses a collision side byte.
    pub fn reverse_u8(side: u8) -> (r: u8)
        ensures
            r == spec_reverse_side(side),
    {
        let mut side = side;

        if side & 0b0011 != 0b0011 && side & 0b0011 != 0b0000 {
            side = side ^ 0b0011;
        }

        if side & 0b1100 != 0b1100 && side & 0b1100 != 0b0000 {
            side = side ^ 0b1100;
        }

        side
    }
}

/// Reversing a single side's mask flips it to the opposite side's mask.
pub proof fn lemma_reverse_flip(side: CollisionSide)
    ensures
        spec_reverse_side(side_mask(side)) == side_mask(flip_side(side)),
{
    assert(spec_reverse_side(0b1000u8) == 0b0100u8) by (bit_vector);
    assert(spec_reverse_side(0b0100u8) == 0b1000u8) by (bit_vector);
    assert(spec_reverse_side(0b0010u8) == 0b0001u8) by (bit_vector);
    assert(spec_reverse_side(0b0001u8) == 0b0010u8) by (bit_vector);
}

/// Reversal is an involution on every side byte, and it never invents a
/// direction on an axis whose bits were zero.
pub proof fn lemma_reverse_involution(side: u8)
    ensures
        spec_reverse_side(spec_reverse_side(side)) == side,
        side & 0b1100 == 0 ==> spec_reverse_side(side) & 0b1100 == 0,
        side & 0b0011 == 0 ==> spec_reverse_side(side) & 0b0011 == 0,
{
    assert(spec_reverse_side(spec_reverse_side(side)) == side) by (bit_vector);
    assert(side & 0b1100 == 0 ==> spec_reverse_side(side) & 0b1100 == 0) by (bit_vector);
    assert(side & 0b0011 == 0 ==> spec_reverse_side(side) & 0b0011 == 0) by (bit_vector);
}

/// Checks collisions for different objects.
pub trait Collision<T> {
    fn collides_with(&self, other: &T) -> Option<CollisionSide>;
}

impl Collision<Rect> for Rect {
    /// The separating-axis overlap test with the diagonal tie-break.
    fn collides_with(&self, other: &Rect) -> (r: Option<CollisionSide>)
        ensures
            r == spec_collides(*self, *other),
    {
        let cx_a: i64 = 2 * (self.x as i64) + (self.w as i64);
        let cy_a: i64 = 2 * (self.y as i64) + (self.h as i64);
        let cx_b: i64 = 2 * (other.x as i64) + (other.w as i64);
        let cy_b: i64 = 2 * (other.y as i64) + (other.h as i64);
        let dx: i64 = cx_a - cx_b;
        let dy: i64 = cy_a - cy_b;
        let w2: i64 = (self.w as i64) + (other.w as i64);
        let h2: i64 = (self.h as i64) + (other.h as i64);

        if -w2 <= dx && dx <= w2 && -h2 <= dy && dy <= h2 {
            proof {
                assert(-0x10_0000_0000i128 * 0x10_0000_0000i128 <= (w2 as i128) * (dy as i128)
                    <= 0x10_0000_0000i128 * 0x10_0000_0000i128) by (nonlinear_arith)
                    requires
                        -0x10_0000_0000 <= w2 as i128 <= 0x10_0000_0000,
                        -0x10_0000_0000 <= dy as i128 <= 0x10_0000_0000,
                ;
                assert(-0x10_0000_0000i128 * 0x10_0000_0000i128 <= (h2 as i128) * (dx as i128)
                    <= 0x10_0000_0000i128 * 0x10_0000_0000i128) by (nonlinear_arith)
                    requires
                        -0x10_0000_0000 <= h2 as i128 <= 0x10_0000_0000,
                        -0x10_0000_0000 <= dx as i128 <= 0x10_0000_0000,
                ;
            }
            let wy: i128 = (w2 as i128) * (dy as i128);
            let hx: i128 = (h2 as i128) * (dx as i128);

            if wy > hx && wy > -hx {
                Some(CollisionSide::Top)
            } else if wy > hx {
                Some(CollisionSide::Right)
            } else if wy > -hx {
                Some(CollisionSide::Left)
            } else {
                Some(CollisionSide::Bottom)
            }
        } else {
            None
        }
    }
}

impl Collision<SpriteRectangle> for Rect {
    fn collides_with(&self, other: &SpriteRectangle) -> (r: Option<CollisionSide>)
        ensures
            r == spec_collides(*self, other.spec_rect()),
    {
        Collision::<Rect>::collides_with(self, &other.to_rect())
    }
}

impl Collision<Rect> for SpriteRectangle {
    fn collides_with(&self, other: &Rect) -> (r: Option<CollisionSide>)
        ensures
            r == spec_collides(self.spec_rect(), *other),
    {
        Collision::<Rect>::collides_with(&self.to_rect(), other)
    }
}

impl Collision<SpriteRectangle> for SpriteRectangle {
    fn collides_with(&self, other: &SpriteRectangle) -> (r: Option<CollisionSide>)
        ensures
            r == spec_collides(self.spec_rect(), other.spec_rect()),
    {
        Collision::<Rect>::collides_with(&self.to_rect(), &other.to_rect())
    }
}

/// The most precise collision shape an actor can carry; a rectangle today,
/// extensible to other shapes.
#[derive(Clone, Copy, PartialEq, Eq, Structural)]
pub enum BoundingBox {
    Rectangle(SpriteRectangle),
}

impl BoundingBox {
    /// Moves the bounding box by the translation part of `change`
    /// (the size of a bounding box never changes).
    pub fn apply_change(&mut self, change: &PositionChange)
        requires
            match *old(self) {
                BoundingBox::Rectangle(r) => {
                    &&& i32::MIN <= r.x + change.x <= i32::MAX
                    &&& i32::MIN <= r.y + change.y <= i32::MAX
                },
            },
        ensures
            match (*old(self), *final(self)) {
                (BoundingBox::Rectangle(r0), BoundingBox::Rectangle(r1)) => {
                    &&& r1.x == r0.x + change.x
                    &&& r1.y == r0.y + change.y
                    &&& r1.w == r0.w
                    &&& r1.h == r0.h
                },
            },
    {
        match self {
            BoundingBox::Rectangle(rect) => {
                rect.x = rect.x + change.x;
                rect.y = rect.y + change.y;
            },
        }
    }
}

impl Collision<BoundingBox> for BoundingBox {
    fn collides_with(&self, other: &BoundingBox) -> (r: Option<CollisionSide>)
        ensures
            match (*self, *other) {
                (BoundingBox::Rectangle(r1), BoundingBox::Rectangle(r2)) => r == spec_collides(
                    r1.spec_rect(),
                    r2.spec_rect(),
                ),
            },
    {
        match (self, other) {
            (BoundingBox::Rectangle(rect1), BoundingBox::Rectangle(rect2)) => rect1.collides_with(
                rect2,
            ),
        }
    }
}

/// Collision symmetry: away from the exact diagonal ties, classifying
/// `a` against `b` and flipping the side equals classifying `b` against
/// `a` directly.  On the ties themselves (`wy == hx` or `wy == -hx`) the
/// deliberately asymmetric tie-break of [`spec_collides`] makes the two
/// orders disagree, so those inputs are excluded.
pub proof fn lemma_collision_symmetry(a: Rect, b: Rect)
    requires
        (a.w + b.w) * (cy2(a) - cy2(b)) != (a.h + b.h) * (cx2(a) - cx2(b)),
        (a.w + b.w) * (cy2(a) - cy2(b)) != -((a.h + b.h) * (cx2(a) - cx2(b))),
    ensures
        match spec_collides(a, b) {
            Some(side) => spec_collides(b, a) == Some(flip_side(side)),
            None => spec_collides(b, a) is None,
        },
{
    assert((b.w + a.w) * (cy2(b) - cy2(a)) == -((a.w + b.w) * (cy2(a) - cy2(b))))
        by (nonlinear_arith);
    assert((b.h + a.h) * (cx2(b) - cx2(a)) == -((a.h + b.h) * (cx2(a) - cx2(b))))
        by (nonlinear_arith);
}

} // verus!
