//! Polylines to paint.

use vstd::prelude::*;
use crate::color::RGBColor;
use crate::drawable::{Drawable, HasColor, HasPoint, HasZIndex, Point};

verus! {

/// A polyline to paint through at least one point.
pub struct Line {
    id: usize,
    points: Vec<Point>,
    color: RGBColor,
    z_index: i32,
}

impl Line {
    #[verifier::type_invariant]
    spec fn has_points(self) -> bool {
        self.points@.len() > 0
    }

    pub closed spec fn points_of(&self) -> Seq<Point> {
        self.points@
    }

    pub fn new(id: usize, points: Vec<Point>, color: RGBColor, z_index: i32) -> (r: Self)
        requires
            points@.len() > 0,
        ensures
            r.id_of() == id,
            r.points_of() == points@,
            r.color_of() == color,
            r.z_index_of() == z_index,
    {
        Self { id, points, color, z_index }
    }

    /// The points, in drawing order.
    pub fn fetch_points(&self) -> (r: &Vec<Point>)
        ensures
            r@ == self.points_of(),
            r@.len() > 0,
    {
        proof {
            use_type_invariant(self);
        }
        &self.points
    }
}

impl HasColor for Line {
    closed spec fn color_of(&self) -> RGBColor {
        self.color
    }

    fn fetch_color(&self) -> (r: RGBColor) {
        self.color
    }
}

impl HasPoint for Line {
    /// The first point.
    closed spec fn origin_of(&self) -> Point {
        self.points@[0]
    }

    fn fetch_origin(&self) -> (r: Point) {
        proof {
            use_type_invariant(self);
        }
        self.points[0]
    }
}

impl HasZIndex for Line {
    closed spec fn z_index_of(&self) -> i32 {
        self.z_index
    }

    fn fetch_z_index(&self) -> (r: i32) {
        self.z_index
    }
}

impl Drawable for Line {
    closed spec fn id_of(&self) -> usize {
        self.id
    }

    fn fetch_id(&self) -> (r: usize) {
        self.id
    }
}

} // verus!
