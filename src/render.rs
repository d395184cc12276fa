//! Turning entities into drawings.

use vstd::prelude::*;
use crate::behaviors::movement_result;
use crate::color::{Colors, RGBColor, rgb_of};
use crate::drawable::{Dimensions, Drawable, HasColor, HasZIndex, Point};
use crate::line::Line;
use crate::objects::{GameObject, ObjectDimensions, ObjectType, pixel_of};
use crate::rectangle::Rectangle;
use crate::vectors::UNITS_PER_PIXEL;

verus! {

/// The named colour, fully opaque.
pub open spec fn opaque(c: Colors) -> RGBColor {
    RGBColor { r: rgb_of(c).0, g: rgb_of(c).1, b: rgb_of(c).2, a: 255 }
}

/// Colour and paint priority of each entity type: walls first, then goals,
/// then everything else.
pub open spec fn paint_of(t: ObjectType) -> (RGBColor, i32) {
    match t {
        ObjectType::BALL => (opaque(Colors::YELLOW), 1),
        ObjectType::PADDLE => (opaque(Colors::WHITE), 1),
        ObjectType::WALL => (opaque(Colors::GREY), 3),
        ObjectType::GOAL => (opaque(Colors::BLACK), 2),
        ObjectType::CUSTOM => (opaque(Colors::RED), 1),
    }
}

/// A length in thousandths of a pixel as whole pixels, held to `i32::MAX`.
pub open spec fn pixels_i32(v: int) -> i32 {
    if v / (UNITS_PER_PIXEL as int) > i32::MAX {
        i32::MAX
    } else {
        (v / (UNITS_PER_PIXEL as int)) as i32
    }
}

/// The screen point of a position.
pub open spec fn screen_point(x: int, y: int) -> Point {
    Point { x: pixel_of(x) as i32, y: pixel_of(y) as i32 }
}

/// The rectangle that stands for `obj` in a frame, with frame-local id `id`.
pub open spec fn drawing_of(id: usize, obj: GameObject) -> Rectangle {
    Rectangle {
        id,
        origin: screen_point(obj.pos.x_pos as int, obj.pos.y_pos as int),
        dims: Dimensions {
            w: pixels_i32(obj.dim.width as int),
            h: pixels_i32(obj.dim.height as int),
        },
        color: paint_of(obj.object_type).0,
        z_index: paint_of(obj.object_type).1,
    }
}

fn pixels(v: i64) -> (r: i32)
    requires
        v >= 0,
    ensures
        r == pixels_i32(v as int),
{
    let p: i64 = v / UNITS_PER_PIXEL;
    if p > i32::MAX as i64 {
        i32::MAX
    } else {
        p as i32
    }
}

/// Box size in whole pixels.
pub fn object_dimensions_to_dimensions(dims: &ObjectDimensions) -> (r: Dimensions)
    requires
        dims.wf(),
    ensures
        r == (Dimensions { w: pixels_i32(dims.width as int), h: pixels_i32(dims.height as int) }),
{
    Dimensions::new(pixels(dims.get_width()), pixels(dims.get_height()))
}

pub fn convert_usize_tuple_to_i32_tuple(tup: (usize, usize)) -> (r: (i32, i32))
    ensures
        r == (tup.0 as i32, tup.1 as i32),
{
    (tup.0 as i32, tup.1 as i32)
}

/// The rectangle for `obj`, with colour and priority by its type.
pub fn convert_game_object_to_drawing(id: usize, obj: &GameObject) -> (r: Rectangle)
    requires
        obj.wf(),
    ensures
        r == drawing_of(id, *obj),
{
    let (color, priority) = match obj.object_type {
        ObjectType::BALL => (Colors::YELLOW.as_rgb(), 1),
        ObjectType::PADDLE => (Colors::WHITE.as_rgb(), 1),
        ObjectType::WALL => (Colors::GREY.as_rgb(), 3),
        ObjectType::GOAL => (Colors::BLACK.as_rgb(), 2),
        ObjectType::CUSTOM => (Colors::RED.as_rgb(), 1),
    };
    Rectangle::new(
        id,
        Point::from_tuple(convert_usize_tuple_to_i32_tuple(obj.pos.as_discrete_tuple())),
        object_dimensions_to_dimensions(&obj.dim),
        color,
        priority,
    )
}

/// A blue line from `obj`'s position to where it moves next.
pub fn create_vector_drawing(id: usize, obj: &GameObject) -> (r: Line)
    requires
        obj.wf(),
    ensures
        r.id_of() == id,
        r.points_of() == seq![
            screen_point(obj.pos.x_pos as int, obj.pos.y_pos as int),
            screen_point(
                movement_result(obj.behavior.movement_behavior.kind, *obj).x_pos as int,
                movement_result(obj.behavior.movement_behavior.kind, *obj).y_pos as int,
            ),
        ],
        r.color_of() == opaque(Colors::BLUE),
        r.z_index_of() == 0,
{
    let mut points: Vec<Point> = Vec::new();
    points.push(Point::from_tuple(convert_usize_tuple_to_i32_tuple(obj.pos.as_discrete_tuple())));
    points.push(
        Point::from_tuple(convert_usize_tuple_to_i32_tuple(obj.next_pos().as_discrete_tuple())),
    );
    Line::new(id, points, Colors::BLUE.as_rgb(), 0)
}

/// The rectangles of a frame. The frame is drained from its end, so the
/// last entity gets id 0, the one before it id 1, and so on.
pub fn frame_drawings(frame: &Vec<GameObject>) -> (r: Vec<Rectangle>)
    requires
        forall|k: int| 0 <= k < frame@.len() ==> (#[trigger] frame@[k]).wf(),
    ensures
        r@.len() == frame@.len(),
        forall|i: int|
            0 <= i < r@.len() ==> #[trigger] r@[i] == drawing_of(
                i as usize,
                frame@[frame@.len() - 1 - i],
            ),
{
    let n = frame.len();
    let mut r: Vec<Rectangle> = Vec::new();
    let mut id: usize = 0;
    while id < n
        invariant
            n == frame@.len(),
            0 <= id <= n,
            r@.len() == id,
            forall|k: int| 0 <= k < frame@.len() ==> (#[trigger] frame@[k]).wf(),
            forall|i: int|
                0 <= i < id ==> #[trigger] r@[i] == drawing_of(i as usize, frame@[n - 1 - i]),
        decreases n - id,
    {
        r.push(convert_game_object_to_drawing(id, &frame[n - 1 - id]));
        id = id + 1;
    }
    r
}

} // verus!
