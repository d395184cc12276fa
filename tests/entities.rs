use pong::behaviors::{
    ObjectBehavior, ObjectInteractBehavior, ObjectInteractBehaviors, ObjectMovementBehavior,
    ObjectMovementBehaviors,
};
use pong::factory::GameObjectFactory;
use pong::objects::{GameObject, ObjectDimensions, ObjectId, ObjectType, Position, COORD_LIMIT};
use pong::play_area::{Bounds, PlayArea, MAX_SPEED};
use pong::vectors::EuclideanVector;

#[test]
fn factory_numbers_instances_per_type() {
    let mut factory = GameObjectFactory::new();
    let b0 = factory.create(ObjectType::BALL, 1, 2, 3, 4);
    let w0 = factory.create(ObjectType::WALL, 0, 0, 1, 1);
    let b1 = factory.create(ObjectType::BALL, 5, 6, 7, 8);
    assert_eq!(b0.get_id(), "BALL_0");
    assert_eq!(w0.get_id(), "WALL_0");
    assert_eq!(b1.get_id(), "BALL_1");
    assert_eq!(b1.id, ObjectId::ID(ObjectType::BALL, 1));
    assert_eq!(b1.pos, Position::new(5000, 6000));
    assert_eq!(b1.dim, ObjectDimensions::new(7, 8));
    assert_eq!(b1.dim.get_width(), 7000);
    assert!(b0 != b1);
    let mut moved = b0;
    moved.pos.inc_x_pos(99);
    assert!(moved == b0);
}

#[test]
fn factory_defaults_per_type() {
    let mut factory = GameObjectFactory::new();
    let ball = factory.create(ObjectType::BALL, 0, 0, 1, 1);
    let paddle = factory.create(ObjectType::PADDLE, 0, 0, 1, 1);
    let wall = factory.create(ObjectType::WALL, 0, 0, 1, 1);
    let goal = factory.create(ObjectType::GOAL, 0, 0, 1, 1);
    let custom = factory.create(ObjectType::CUSTOM, 0, 0, 1, 1);
    assert_eq!(ball.vec, EuclideanVector::new(1000, 45));
    assert_eq!(paddle.vec, EuclideanVector::new(1000, 0));
    assert_eq!(wall.vec, EuclideanVector::new(1000, 45));
    assert_eq!(goal.vec, EuclideanVector::new(0, 0));
    assert_eq!(custom.vec, EuclideanVector::new(0, 0));
    assert_eq!(ball.behavior.movement_behavior.kind, ObjectMovementBehaviors::MOVING);
    assert_eq!(ball.behavior.interact_behavior.kind, ObjectInteractBehaviors::LOSSLESS_COLLISION);
    assert_eq!(paddle.behavior.movement_behavior.kind, ObjectMovementBehaviors::STATIONARY);
    assert_eq!(paddle.behavior.interact_behavior.kind, ObjectInteractBehaviors::LOSSLESS_COLLISION);
    assert_eq!(wall.behavior.interact_behavior.kind, ObjectInteractBehaviors::NOTHING);
    assert_eq!(goal.behavior.interact_behavior.kind, ObjectInteractBehaviors::NOTHING);
    assert_eq!(custom.behavior.movement_behavior.kind, ObjectMovementBehaviors::STATIONARY);
}

#[test]
fn positions_move_and_stop_at_the_coordinate_limit() {
    let mut p = Position::new(1500, 2500);
    p.inc_x_pos(-2000);
    p.inc_y_pos(700);
    assert_eq!(p.as_tuple(), (-500, 3200));
    assert_eq!(p.as_discrete_tuple(), (0, 3));
    let mut far = Position::new(COORD_LIMIT - 1, 0);
    far.inc_x_pos(i64::MAX);
    assert_eq!(far.get_x_pos(), COORD_LIMIT);
    assert_eq!(Position::default(), Position::new(0, 0));
}

#[test]
fn intersecting_tests_only_the_corners_of_self() {
    let mut factory = GameObjectFactory::new();
    let big = factory.create(ObjectType::CUSTOM, 0, 0, 100, 100);
    let small = factory.create(ObjectType::CUSTOM, 40, 40, 10, 10);
    assert!(small.intersecting(&big));
    assert!(!big.intersecting(&small));
    let left = factory.create(ObjectType::CUSTOM, 0, 0, 10, 10);
    let touching = factory.create(ObjectType::CUSTOM, 10, 0, 10, 10);
    // Ranges are half-open: the left box's right edge is the other's left edge.
    assert!(left.intersecting(&touching));
    assert!(!touching.intersecting(&left));
    let apart = factory.create(ObjectType::CUSTOM, 30, 30, 5, 5);
    assert!(!left.intersecting(&apart));
}

#[test]
fn extents_midpoint_and_boundaries() {
    let mut factory = GameObjectFactory::new();
    let o = factory.create(ObjectType::PADDLE, 10, 20, 10, 50);
    assert_eq!(o.x_extent(), 20_000);
    assert_eq!(o.y_extent(), 70_000);
    assert_eq!(o.midpoint(), Position::new(15_000, 45_000));
    assert_eq!(o.dim_boundaries(), ((10_000, 20_000), (20_000, 70_000)));
}

#[test]
fn update_pos_keeps_previous_position() {
    let mut factory = GameObjectFactory::new();
    let mut o = factory.create(ObjectType::BALL, 10, 10, 20, 20);
    let next = o.next_pos();
    assert_eq!(next, Position::new(10_705, 10_705));
    o.update_pos(next);
    assert_eq!(o.fetch_last_position(), Position::new(10_000, 10_000));
    assert_eq!(o.pos, next);
    o.kill_velocity();
    assert_eq!(o.vec, EuclideanVector::new(0, 0));
}

#[test]
fn behaviours_dispatch_by_kind() {
    let mut factory = GameObjectFactory::new();
    let mut paddle = factory.create(ObjectType::PADDLE, 0, 0, 10, 50);
    let wall = factory.create(ObjectType::WALL, 0, 0, 10, 10);
    let ball = factory.create(ObjectType::BALL, 0, 0, 10, 10);
    paddle.behavior.set_interact_behavior(ObjectInteractBehavior::create(ObjectInteractBehaviors::HALT_AT_WALL));
    let mut halted = paddle;
    paddle.interact_with(&ball);
    assert_eq!(paddle.vec, EuclideanVector::new(1000, 0));
    halted.interact_with(&wall);
    assert_eq!(halted.vec, EuclideanVector::new(0, 0));

    let behavior = ObjectBehavior::new(
        ObjectInteractBehavior::create(ObjectInteractBehaviors::LOSSLESS_COLLISION),
        ObjectMovementBehavior::new(ObjectMovementBehaviors::STATIONARY),
    );
    let mut b = ball;
    behavior.interact(&mut b, &wall);
    assert_eq!(b.vec, EuclideanVector::new(1000, -135));
    assert_eq!(behavior.movement(&ball), ball.pos);
    assert_eq!(ObjectMovementBehaviors::stationary(&ball), ball.pos);
    assert_eq!(ObjectMovementBehaviors::moving(&ball), Position::new(705, 705));
    let mut c = ball;
    ObjectInteractBehaviors::nothing(&mut c, &wall);
    assert_eq!(c.vec, ball.vec);
    ObjectInteractBehaviors::lossless_collision(&mut c, &paddle);
    assert_eq!(c.vec, EuclideanVector::new(1000, 135));
}

fn field_with_ball_inside_box() -> PlayArea {
    let mut factory = GameObjectFactory::new();
    let mut area = PlayArea::from_bounds(Bounds::new(800, 600));
    let field = factory.create(ObjectType::CUSTOM, 0, 0, 800, 600);
    let ball = factory.create(ObjectType::BALL, 390, 290, 20, 20);
    assert!(area.object_within_bounds(&field));
    area.add_game_object(field);
    area.add_game_object(ball);
    area
}

#[test]
fn speed_ramps_to_exactly_max_and_stays() {
    let mut area = field_with_ball_inside_box();
    for tick in 1..=30u32 {
        area.resolve_object_behaviors();
        let m = area.game_objects[1].vec.get_magnitude();
        assert!(m <= MAX_SPEED);
        if tick <= 20 {
            assert_eq!(m, 1000 + 200 * tick);
        } else {
            assert_eq!(m, MAX_SPEED);
        }
    }
    assert_eq!(area.game_objects[1].vec.get_magnitude(), 5000);
}

#[test]
fn only_balls_interact_and_stationary_entities_stay() {
    let mut area = field_with_ball_inside_box();
    let before = area.game_objects[0];
    area.resolve_object_behaviors();
    assert_eq!(area.game_objects[0].pos, before.pos);
    assert_eq!(area.game_objects[0].vec, before.vec);
    // The ball touched the box once, sped up, then moved by its new components.
    let ball = area.game_objects[1];
    assert_eq!(ball.vec, EuclideanVector::new(1200, 45));
    assert_eq!(ball.pos, Position::new(390_000 + 847, 290_000 + 847));
    assert_eq!(ball.fetch_last_position(), Position::new(390_000, 290_000));
}

#[test]
fn bounds_and_dimensions_of_play_area() {
    let area = PlayArea::new(800, 600);
    assert_eq!(area.get_width(), 800);
    assert_eq!(area.get_height(), 600);
    assert_eq!(area.dims_as_tuple(), (800, 600));
    let default_area = PlayArea::default();
    assert_eq!(default_area.dims_as_tuple(), (90, 50));
    let mut factory = GameObjectFactory::new();
    let outside = factory.create(ObjectType::CUSTOM, 795, 0, 10, 10);
    assert!(!area.object_within_bounds(&outside));
    let edge = factory.create(ObjectType::CUSTOM, 790, 590, 10, 10);
    assert!(area.object_within_bounds(&edge));
    let placed: GameObject = edge;
    assert_eq!(placed.object_type, ObjectType::CUSTOM);
}

#[test]
fn ids_as_text() {
    assert_eq!(ObjectType::CUSTOM.name(), "CUSTOM");
    assert_eq!(ObjectType::PADDLE.name(), "PADDLE");
    assert_eq!(ObjectId::ID(ObjectType::GOAL, 0).label(), "GOAL_0");
    assert_eq!(ObjectId::ID(ObjectType::PADDLE, 1203).label(), "PADDLE_1203");
    assert_eq!(ObjectId::ID(ObjectType::BALL, u32::MAX).label(), "BALL_4294967295");
}

#[test]
fn bounds_contain_pixels_on_the_field() {
    let b = Bounds::new(800, 600);
    assert!(b.contains_x(799));
    assert!(!b.contains_x(800));
    assert!(b.contains_y(0));
    assert!(!b.contains_y(600));
    assert!(b.contains(&Position::new(799_999, 599_999)));
    assert!(!b.contains(&Position::new(800_000, 10)));
    assert!(!b.contains(&Position::new(-1, 10)));
}

#[test]
fn one_contact_speeds_up_by_a_fifth_up_to_max() {
    let mut factory = GameObjectFactory::new();
    let mut ball = factory.create(ObjectType::BALL, 0, 0, 20, 20);
    let before = ball;
    PlayArea::resolve_speed_increase(&mut ball);
    assert_eq!(ball.vec, EuclideanVector::new(1200, 45));
    assert_eq!((ball.pos, ball.dim, ball.id), (before.pos, before.dim, before.id));
    ball.vec.set_magnitude(4900);
    PlayArea::resolve_speed_increase(&mut ball);
    assert_eq!(ball.vec.get_magnitude(), MAX_SPEED);
    PlayArea::resolve_speed_increase(&mut ball);
    assert_eq!(ball.vec.get_magnitude(), MAX_SPEED);
    ball.vec.set_magnitude(7000);
    PlayArea::resolve_speed_increase(&mut ball);
    assert_eq!(ball.vec.get_magnitude(), MAX_SPEED);
}
