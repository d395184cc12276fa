use pong::color::{self, Colors, RGBColor};

use pong::drawable::{Dimensions, Drawable, HasColor, HasDimensions, HasPoint, HasZIndex, Point};
use pong::factory::GameObjectFactory;
use pong::line::Line;
use pong::objects::ObjectType;
use pong::paint_queue::paint_order;
use pong::rectangle::Rectangle;
use pong::render::{
    convert_game_object_to_drawing, convert_usize_tuple_to_i32_tuple, create_vector_drawing,
    frame_drawings, object_dimensions_to_dimensions,
};

#[test]
fn colours_by_name() {
    assert_eq!(Colors::YELLOW.as_rgb().as_tuple(), (255, 255, 0, 255));
    assert_eq!(Colors::GREY.as_rgba(7).as_tuple(), (128, 128, 128, 7));
    assert_eq!(Colors::CYAN.as_rgb(), RGBColor::new(0, 255, 255, 255));
    assert_eq!(color::new(1, 2, 3, 4), RGBColor { r: 1, g: 2, b: 3, a: 4 });
}

#[test]
fn points_and_dimensions() {
    let mut p = Point::new(1, 2);
    assert_eq!(p, Point::from_tuple((1, 2)));
    p.update(-3, 4);
    assert_eq!(p, Point { x: -3, y: 4 });
    assert_eq!(Dimensions::new(5, 6), Dimensions { w: 5, h: 6 });
    assert_eq!(convert_usize_tuple_to_i32_tuple((7, 8)), (7, 8));
}

#[test]
fn rectangle_accessors() {
    let r = Rectangle::new(3, Point::new(1, 2), Dimensions::new(4, 5), Colors::RED.as_rgb(), 2);
    assert_eq!(r.fetch_id(), 3);
    assert_eq!(r.fetch_origin(), Point::new(1, 2));
    assert_eq!(r.fetch_dimensions(), Dimensions::new(4, 5));
    assert_eq!(r.fetch_color(), Colors::RED.as_rgb());
    assert_eq!(r.fetch_z_index(), 2);
    let d = Rectangle::default();
    assert_eq!(d.fetch_color(), Colors::WHITE.as_rgb());
    assert_eq!(d.fetch_dimensions(), Dimensions::new(0, 0));
}

#[test]
fn entity_drawings_by_type() {
    let mut factory = GameObjectFactory::new();
    let wall = factory.create(ObjectType::WALL, 12, 34, 10, 600);
    let r = convert_game_object_to_drawing(5, &wall);
    assert_eq!(r, Rectangle::new(5, Point::new(12, 34), Dimensions::new(10, 600), Colors::GREY.as_rgb(), 3));
    let goal = factory.create(ObjectType::GOAL, 0, 0, 1, 1);
    assert_eq!(convert_game_object_to_drawing(0, &goal).z_index, 2);
    assert_eq!(convert_game_object_to_drawing(0, &goal).color, Colors::BLACK.as_rgb());
    let ball = factory.create(ObjectType::BALL, 0, 0, 1, 1);
    assert_eq!(convert_game_object_to_drawing(0, &ball).color, Colors::YELLOW.as_rgb());
    assert_eq!(object_dimensions_to_dimensions(&ball.dim), Dimensions::new(1, 1));
}

#[test]
fn vector_drawing_runs_to_next_position() {
    let mut factory = GameObjectFactory::new();
    let ball = factory.create(ObjectType::BALL, 10, 10, 20, 20);
    let line: Line = create_vector_drawing(9, &ball);
    assert_eq!(line.fetch_id(), 9);
    assert_eq!(line.fetch_origin(), Point::new(10, 10));
    assert_eq!(line.fetch_points().clone(), vec![Point::new(10, 10), Point::new(10, 10)]);
    assert_eq!(line.fetch_color(), Colors::BLUE.as_rgb());
    assert_eq!(line.fetch_z_index(), 0);
}

#[test]
fn frame_ids_count_from_the_last_entity() {
    let c = pong::controller::default(800, 600);
    let frame = c.snapshot();
    let drawings = frame_drawings(&frame);
    assert_eq!(drawings.len(), 9);
    assert_eq!(drawings[0].id, 0);
    assert_eq!(drawings[0].color, Colors::YELLOW.as_rgb());
    assert_eq!(drawings[8].z_index, 3);
    assert_eq!(drawings[8].origin, Point::new(0, 0));
}

#[test]
fn paint_order_puts_higher_priority_first() {
    let c = pong::controller::default(800, 600);
    let drawings = frame_drawings(&c.snapshot());
    let order = paint_order(&drawings);
    assert_eq!(order.len(), 9);
    let z: Vec<i32> = order.iter().map(|&i| drawings[i].z_index).collect();
    assert_eq!(z, vec![3, 3, 3, 3, 2, 2, 1, 1, 1]);
    let mut seen = order.clone();
    seen.sort();
    assert_eq!(seen, (0..9).collect::<Vec<usize>>());
    assert!(paint_order(&Vec::new()).is_empty());
}
