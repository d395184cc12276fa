//! Screen points and sizes, and what a drawable thing exposes.

use vstd::prelude::*;
use crate::color::RGBColor;

verus! {

/// A screen point in whole pixels.
#[derive(Clone, Copy, Debug, PartialEq, Eq, Structural, Hash)]
pub struct Point {
    pub x: i32,
    pub y: i32,
}

impl Point {
    pub fn new(x: i32, y: i32) -> (r: Self)
        ensures
            r == (Point { x, y }),
    {
        Self { x, y }
    }

    pub fn from_tuple(x_y: (i32, i32)) -> (r: Self)
        ensures
            r == (Point { x: x_y.0, y: x_y.1 }),
    {
        Self { x: x_y.0, y: x_y.1 }
    }

    pub fn update(&mut self, x: i32, y: i32)
        ensures
            *final(self) == (Point { x, y }),
    {
        self.x = x;
        self.y = y;
    }
}

/// A screen size in whole pixels.
#[derive(Clone, Copy, Debug, PartialEq, Eq, Structural)]
pub struct Dimensions {
    pub w: i32,
    pub h: i32,
}

impl Dimensions {
    pub fn new(w: i32, h: i32) -> (r: Self)
        ensures
            r == (Dimensions { w, h }),
    {
        Self { w, h }
    }
}

pub trait HasPoint {
    spec fn origin_of(&self) -> Point;

    fn fetch_origin(&self) -> (r: Point)
        ensures
            r == self.origin_of(),
    ;
}

pub trait HasZIndex {
    spec fn z_index_of(&self) -> i32;

    fn fetch_z_index(&self) -> (r: i32)
        ensures
            r == self.z_index_of(),
    ;
}

pub trait HasDimensions {
    spec fn dimensions_of(&self) -> Dimensions;

    fn fetch_dimensions(&self) -> (r: Dimensions)
        ensures
            r == self.dimensions_of(),
    ;
}

pub trait HasColor {
    spec fn color_of(&self) -> RGBColor;

    fn fetch_color(&self) -> (r: RGBColor)
        ensures
            r == self.color_of(),
    ;
}

/// Something the renderer paints: it has a frame-local id, an origin, a
/// colour and a paint priority.
pub trait Drawable: HasPoint + HasColor + HasZIndex {
    spec fn id_of(&self) -> usize;

    fn fetch_id(&self) -> (r: usize)
        ensures
            r == self.id_of(),
    ;
}

} // verus!
