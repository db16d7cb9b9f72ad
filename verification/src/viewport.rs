//! The camera: constrains coordinates from an open world into the current
//! window view, which allows scrolling for levels larger than the screen.
use vstd::prelude::*;
use crate::Window;
use crate::collision::{cx2, cy2, Rect};

verus! {

/// Truncating halving: the integer nearest to `v / 2` in the direction of
/// zero, matching what a cast of the real midpoint to an integer yields.
pub open spec fn half_toward_zero(v: int) -> int {
    if v >= 0 {
        v / 2
    } else {
        -((-v) / 2)
    }
}

/// The origin coordinate of the viewport on one axis, given the doubled
/// centre coordinate and the window and map extents: the centre is kept in
/// the middle of the window, clamped so that the view never leaves the map
/// on the left and never scrolls past its right end.
pub open spec fn spec_viewport_point(center: int, window: int, map: int) -> int {
    let from_center = 2 * center - window;
    let against_map = if 2 * map - 2 * window <= abs_int(from_center) {
        2 * map - 2 * window
    } else {
        abs_int(from_center)
    };
    let low_clamped = if from_center >= 0 {
        from_center
    } else {
        0
    };
    half_toward_zero(if low_clamped <= against_map {
        low_clamped
    } else {
        against_map
    })
}

/// The absolute value of an integer.
pub open spec fn abs_int(v: int) -> int {
    if v >= 0 {
        v
    } else {
        -v
    }
}

/// Calculates the origin coordinate for the viewport given the centre
/// coordinate, the window extent, and the map extent on one axis.
fn calc_viewport_point(center_coord: i32, window_coord: i32, map_coord: i32) -> (r: i32)
    requires
        0 <= window_coord,
        0 <= map_coord,
    ensures
        r == spec_viewport_point(center_coord as int, window_coord as int, map_coord as int),
{
    let from_center: i64 = 2 * (center_coord as i64) - (window_coord as i64);
    let from_center_abs: i64 = if from_center >= 0 {
        from_center
    } else {
        -from_center
    };
    let against_map: i64 = {
        let edge: i64 = 2 * (map_coord as i64) - 2 * (window_coord as i64);
        if edge <= from_center_abs {
            edge
        } else {
            from_center_abs
        }
    };
    let low_clamped: i64 = if from_center >= 0 {
        from_center
    } else {
        0
    };
    let doubled: i64 = if low_clamped <= against_map {
        low_clamped
    } else {
        against_map
    };
    let halved: i64 = if doubled >= 0 {
        ((doubled as u64) / 2) as i64
    } else {
        -((((-doubled) as u64) / 2) as i64)
    };
    halved as i32
}

/// Constrains coordinates from an open world into the current window view.
#[derive(Clone, Copy, Debug)]
pub struct Viewport {
    /// The x value of the origin coordinate of the viewport.
    pub x: i32,
    /// The y value of the origin coordinate of the viewport.
    pub y: i32,
    /// Width and height of the window.
    pub window_dimensions: (i32, i32),
    /// Width and height of the map.
    pub map_dimensions: (i32, i32),
}

impl Viewport {
    /// Dimensions are never negative; everything else is unconstrained.
    pub open spec fn wf(self) -> bool {
        &&& 0 <= self.window_dimensions.0
        &&& 0 <= self.window_dimensions.1
        &&& 0 <= self.map_dimensions.0
        &&& 0 <= self.map_dimensions.1
    }

    /// The camera rectangle's far corner stays within the machine range;
    /// the collision protocol needs this of the camera it is given, and
    /// re-centring the camera keeps it true.
    pub open spec fn camera_in_range(self) -> bool {
        &&& self.x + self.window_dimensions.0 <= i32::MAX
        &&& self.y + self.window_dimensions.1 <= i32::MAX
    }

    /// Whether a point lies inside the camera-visible region: the window
    /// rectangle widened by a 32 pixel margin on its left and top edges.
    pub open spec fn spec_in_viewport(self, point: (int, int)) -> bool {
        &&& self.x - 32 <= point.0 <= self.x + self.window_dimensions.0
        &&& self.y - 32 <= point.1 <= self.y + self.window_dimensions.1
    }

    /// Whether any corner of the rectangle lies in the camera-visible
    /// region.
    pub open spec fn spec_rect_in_viewport(self, rect: Rect) -> bool {
        ||| self.spec_in_viewport((rect.x as int, rect.y as int))
        ||| self.spec_in_viewport((rect.x + rect.w, rect.y as int))
        ||| self.spec_in_viewport((rect.x as int, rect.y + rect.h))
        ||| self.spec_in_viewport((rect.x + rect.w, rect.y + rect.h))
    }

    pub fn new(window: &Window, map_dimensions: (i32, i32)) -> (r: Viewport)
        requires
            window.width <= i32::MAX,
            window.height <= i32::MAX,
            0 <= map_dimensions.0,
            0 <= map_dimensions.1,
        ensures
            r.wf(),
            r.x == 0,
            r.y == 0,
            r.window_dimensions == (window.width as i32, window.height as i32),
            r.map_dimensions == map_dimensions,
    {
        Viewport {
            x: 0,
            y: 0,
            window_dimensions: (window.width as i32, window.height as i32),
            map_dimensions,
        }
    }

    /// Re-centres the viewport on a point, clamped to the map edges.
    pub fn set_position(&mut self, new_center: (i32, i32))
        requires
            old(self).wf(),
        ensures
            final(self).wf(),
            final(self).x == spec_viewport_point(
                new_center.0 as int,
                old(self).window_dimensions.0 as int,
                old(self).map_dimensions.0 as int,
            ),
            final(self).y == spec_viewport_point(
                new_center.1 as int,
                old(self).window_dimensions.1 as int,
                old(self).map_dimensions.1 as int,
            ),
            final(self).window_dimensions == old(self).window_dimensions,
            final(self).map_dimensions == old(self).map_dimensions,
            // The clamping never scrolls the view past the map's far
            // edge, so the camera rectangle stays in the machine range.
            final(self).x + final(self).window_dimensions.0 <= old(self).map_dimensions.0,
            final(self).y + final(self).window_dimensions.1 <= old(self).map_dimensions.1,
    {
        let new_x = calc_viewport_point(
            new_center.0,
            self.window_dimensions.0,
            self.map_dimensions.0,
        );
        let new_y = calc_viewport_point(
            new_center.1,
            self.window_dimensions.1,
            self.map_dimensions.1,
        );
        self.x = new_x;
        self.y = new_y;
    }

    /// Returns true if the point is inside the viewport, false otherwise.
    pub fn in_viewport(&self, point: (i32, i32)) -> (r: bool)
        ensures
            r == self.spec_in_viewport((point.0 as int, point.1 as int)),
    {
        self.in_viewport_wide(point.0 as i64, point.1 as i64)
    }

    /// The same visibility test on coordinates that may exceed the i32
    /// range (a rectangle's far corner can).
    pub(crate) fn in_viewport_wide(&self, px: i64, py: i64) -> (r: bool)
        ensures
            r == self.spec_in_viewport((px as int, py as int)),
    {
        let margin: i64 = 32;

        let v_min_x: i64 = self.x as i64 - margin;
        let v_max_x: i64 = self.x as i64 + self.window_dimensions.0 as i64;
        let v_min_y: i64 = self.y as i64 - margin;
        let v_max_y: i64 = self.y as i64 + self.window_dimensions.1 as i64;

        px >= v_min_x && px <= v_max_x && py >= v_min_y && py <= v_max_y
    }

    /// Returns the point in the game relative to the viewpoint.
    pub fn relative_point(&self, map_point: (i32, i32)) -> (r: (i32, i32))
        requires
            i32::MIN <= map_point.0 - self.x <= i32::MAX,
            i32::MIN <= map_point.1 - self.y <= i32::MAX,
        ensures
            r.0 == map_point.0 - self.x,
            r.1 == map_point.1 - self.y,
    {
        (map_point.0 - self.x, map_point.1 - self.y)
    }

    /// Returns true if any corner of the rectangle is inside the viewport.
    pub fn rect_in_viewport(&self, rect: &Rect) -> (r: bool)
        ensures
            r == self.spec_rect_in_viewport(*rect),
    {
        let x_min: i64 = rect.x as i64;
        let x_max: i64 = rect.x as i64 + rect.w as i64;
        let y_min: i64 = rect.y as i64;
        let y_max: i64 = rect.y as i64 + rect.h as i64;

        self.in_viewport_wide(x_min, y_min) || self.in_viewport_wide(x_max, y_min)
            || self.in_viewport_wide(x_min, y_max) || self.in_viewport_wide(x_max, y_max)
    }

    /// Returns a rectangle whose corner is the rectangle's centre mapped to
    /// viewport coordinates, or None if the rectangle is not in the
    /// viewport.
    pub fn constrain_to_viewport(&self, rect: &Rect) -> (r: Option<Rect>)
        requires
            i32::MIN <= half_toward_zero(cx2(*rect)) - self.x <= i32::MAX,
            i32::MIN <= half_toward_zero(cy2(*rect)) - self.y <= i32::MAX,
        ensures
            match r {
                Some(c) => self.spec_rect_in_viewport(*rect) && c == (Rect {
                    x: (half_toward_zero(cx2(*rect)) - self.x) as i32,
                    y: (half_toward_zero(cy2(*rect)) - self.y) as i32,
                    w: rect.w,
                    h: rect.h,
                }),
                None => !self.spec_rect_in_viewport(*rect),
            },
    {
        if self.rect_in_viewport(rect) {
            let cx_doubled: i64 = 2 * (rect.x as i64) + (rect.w as i64);
            let cy_doubled: i64 = 2 * (rect.y as i64) + (rect.h as i64);
            let cx: i64 = if cx_doubled >= 0 {
                ((cx_doubled as u64) / 2) as i64
            } else {
                -((((-cx_doubled) as u64) / 2) as i64)
            };
            let cy: i64 = if cy_doubled >= 0 {
                ((cy_doubled as u64) / 2) as i64
            } else {
                -((((-cy_doubled) as u64) / 2) as i64)
            };
            let x: i64 = cx - self.x as i64;
            let y: i64 = cy - self.y as i64;
            Some(Rect { x: x as i32, y: y as i32, w: rect.w, h: rect.h })
        } else {
            None
        }
    }
}

} // verus!
