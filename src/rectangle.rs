//! Filled rectangles to paint.

use vstd::prelude::*;
use crate::color::{Colors, RGBColor, rgb_of};
use crate::drawable::{Dimensions, Drawable, HasColor, HasDimensions, HasPoint, HasZIndex, Point};

verus! {

pub const DEF_WIDTH: i32 = 40;

pub const DEF_HEIGHT: i32 = 40;

/// A filled rectangle to paint.
#[derive(Clone, Copy, Debug, PartialEq, Eq, Structural)]
pub struct Rectangle {
    pub id: usize,
    pub origin: Point,
    pub dims: Dimensions,
    pub color: RGBColor,
    pub z_index: i32,
}

impl Rectangle {
    pub fn new(id: usize, origin: Point, dims: Dimensions, color: RGBColor, z_index: i32) -> (r:
        Rectangle)
        ensures
            r == (Rectangle { id, origin, dims, color, z_index }),
    {
        Rectangle { id, origin, dims, color, z_index }
    }
}

impl Default for Rectangle {
    fn default() -> (r: Self)
        ensures
            r.id == 0,
            r.origin == (Point { x: 0, y: 0 }),
            r.dims == (Dimensions { w: 0, h: 0 }),
            (r.color.r, r.color.g, r.color.b) == rgb_of(Colors::WHITE),
            r.color.a == 255,
            r.z_index == 0,
    {
        Self {
            id: 0,
            origin: Point::new(0, 0),
            dims: Dimensions::new(0, 0),
            color: Colors::WHITE.as_rgb(),
            z_index: 0,
        }
    }
}

impl HasColor for Rectangle {
    open spec fn color_of(&self) -> RGBColor {
        self.color
    }

    fn fetch_color(&self) -> (r: RGBColor) {
        self.color
    }
}

impl HasDimensions for Rectangle {
    open spec fn dimensions_of(&self) -> Dimensions {
        self.dims
    }

    fn fetch_dimensions(&self) -> (r: Dimensions) {
        self.dims
    }
}

impl HasPoint for Rectangle {
    open spec fn origin_of(&self) -> Point {
        self.origin
    }

    fn fetch_origin(&self) -> (r: Point) {
        self.origin
    }
}

impl HasZIndex for Rectangle {
    open spec fn z_index_of(&self) -> i32 {
        self.z_index
    }

    fn fetch_z_index(&self) -> (r: i32) {
        self.z_index
    }
}

impl Drawable for Rectangle {
    open spec fn id_of(&self) -> usize {
        self.id
    }

    fn fetch_id(&self) -> (r: usize) {
        self.id
    }
}

} // verus!
