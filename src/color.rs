//! Colours.

use vstd::prelude::*;

verus! {

const DEFAULT_ALPHA: u8 = 255;

fn build_rgb_tuple(r: u8, g: u8, b: u8) -> (t: (u8, u8, u8))
    ensures
        t == (r, g, b),
{
    (r, g, b)
}

pub fn new(r: u8, g: u8, b: u8, a: u8) -> (c: RGBColor)
    ensures
        c == (RGBColor { r, g, b, a }),
{
    RGBColor { r, g, b, a }
}

#[derive(Clone, Copy, Debug, PartialEq, Eq, Structural, Hash)]
pub struct RGBColor {
    pub r: u8,
    pub g: u8,
    pub b: u8,
    pub a: u8,
}

impl RGBColor {
    pub fn new(r: u8, g: u8, b: u8, a: u8) -> (c: Self)
        ensures
            c == (RGBColor { r, g, b, a }),
    {
        Self { r, g, b, a }
    }

    pub fn as_tuple(&self) -> (t: (u8, u8, u8, u8))
        ensures
            t == (self.r, self.g, self.b, self.a),
    {
        (self.r, self.g, self.b, self.a)
    }
}

#[allow(non_camel_case_types)]
#[derive(Clone, Copy, Debug, PartialEq, Eq, Structural)]
pub enum Colors {
    RED,
    BLUE,
    GREEN,
    MAGENTA,
    BLACK,
    WHITE,
    YELLOW,
    GREY,
    CYAN,
}

/// Red, green and blue of each named colour.
pub open spec fn rgb_of(c: Colors) -> (u8, u8, u8) {
    match c {
        Colors::RED => (255, 0, 0),
        Colors::GREEN => (0, 255, 0),
        Colors::BLUE => (0, 0, 255),
        Colors::MAGENTA => (255, 0, 255),
        Colors::BLACK => (0, 0, 0),
        Colors::WHITE => (255, 255, 255),
        Colors::YELLOW => (255, 255, 0),
        Colors::GREY => (128, 128, 128),
        Colors::CYAN => (0, 255, 255),
    }
}

impl Colors {
    /// The colour, fully opaque.
    pub fn as_rgb(&self) -> (c: RGBColor)
        ensures
            (c.r, c.g, c.b) == rgb_of(*self),
            c.a == 255,
    {
        self.as_rgba(DEFAULT_ALPHA)
    }

    /// The colour with alpha `a`.
    pub fn as_rgba(&self, a: u8) -> (c: RGBColor)
        ensures
            (c.r, c.g, c.b) == rgb_of(*self),
            c.a == a,
    {
        let (r, g, b) = match self {
            Colors::RED => build_rgb_tuple(255, 0, 0),
            Colors::GREEN => build_rgb_tuple(0, 255, 0),
            Colors::BLUE => build_rgb_tuple(0, 0, 255),
            Colors::MAGENTA => build_rgb_tuple(255, 0, 255),
            Colors::BLACK => build_rgb_tuple(0, 0, 0),
            Colors::WHITE => build_rgb_tuple(255, 255, 255),
            Colors::YELLOW => build_rgb_tuple(255, 255, 0),
            Colors::GREY => build_rgb_tuple(128, 128, 128),
            Colors::CYAN => build_rgb_tuple(0, 255, 255),
        };
        RGBColor::new(r, g, b, a)
    }
}

} // verus!
