//! The default session layout: walls, paddles, goals and ball.

use vstd::prelude::*;
use crate::behaviors::{
    ObjectBehavior,
    ObjectInteractBehavior,
    ObjectInteractBehaviors,
    ObjectMovementBehavior,
};
use crate::factory::{GameObjectFactory, default_interaction, default_movement, default_vector};
use crate::objects::{COORD_LIMIT, GameObject, ObjectDimensions, ObjectId, ObjectType, Position};
use crate::play_area::{PlayArea, box_within};
use crate::vectors::{EuclideanVector, UNITS_PER_PIXEL};

verus! {

pub const WALL_THICKNESS: usize = 10;

pub const BALL_WIDTH: usize = 20;

pub const PADDLE_WIDTH: usize = 10;

pub const PADDLE_HEIGHT: usize = 50;

pub const GOAL_WIDTH: usize = 30;

/// Pixels between a paddle and the wall behind it.
pub const PADDLE_GAP: usize = 30;

/// Sizes (in pixels) on which the default layout fits.
pub open spec fn playable(width: usize, height: usize) -> bool {
    &&& width >= WALL_THICKNESS + PADDLE_GAP + PADDLE_WIDTH
    &&& height >= WALL_THICKNESS + PADDLE_GAP + PADDLE_HEIGHT
    &&& width * UNITS_PER_PIXEL <= COORD_LIMIT
    &&& height * UNITS_PER_PIXEL <= COORD_LIMIT
}

/// The entity that the factory makes as instance `n` of type `t` at pixel
/// `(x, y)` with a `w` by `h` pixel box, vector `v` and interaction policy `i`.
pub open spec fn placed(
    t: ObjectType,
    n: u32,
    x: int,
    y: int,
    w: int,
    h: int,
    v: EuclideanVector,
    i: ObjectInteractBehaviors,
) -> GameObject {
    let pos = Position { x_pos: (x * UNITS_PER_PIXEL) as i64, y_pos: (y * UNITS_PER_PIXEL) as i64 };
    GameObject {
        id: ObjectId::ID(t, n),
        object_type: t,
        pos,
        last_pos: pos,
        dim: ObjectDimensions {
            width: (w * UNITS_PER_PIXEL) as i64,
            height: (h * UNITS_PER_PIXEL) as i64,
        },
        vec: v,
        behavior: ObjectBehavior {
            interact_behavior: ObjectInteractBehavior { kind: i },
            movement_behavior: ObjectMovementBehavior { kind: default_movement(t) },
        },
    }
}

/// A wall of the default layout, its vector pointing along `angle`.
pub open spec fn wall(n: u32, x: int, y: int, w: int, h: int, angle: i64) -> GameObject {
    placed(
        ObjectType::WALL,
        n,
        x,
        y,
        w,
        h,
        EuclideanVector { angle, ..default_vector(ObjectType::WALL) },
        ObjectInteractBehaviors::NOTHING,
    )
}

/// An entity of the default layout with its type's defaults.
pub open spec fn standard(t: ObjectType, n: u32, x: int, y: int, w: int, h: int) -> GameObject {
    placed(t, n, x, y, w, h, default_vector(t), default_interaction(t))
}

/// The four walls (top, bottom, left, right) of thickness `t`, numbered from `n`.
pub open spec fn walls(n: u32, t: int, width: int, height: int) -> Seq<GameObject> {
    seq![
        wall(n, 0, 0, width, t, 90),
        wall((n + 1) as u32, 0, height - t, width, t, 270),
        wall((n + 2) as u32, 0, 0, t, height, 180),
        wall((n + 3) as u32, width - t, 0, t, height, 0),
    ]
}

/// The player's and the opponent's paddles, numbered from `n`.
pub open spec fn paddles(n: u32, width: int) -> Seq<GameObject> {
    let t = WALL_THICKNESS as int;
    let g = PADDLE_GAP as int;
    let pw = PADDLE_WIDTH as int;
    let ph = PADDLE_HEIGHT as int;
    seq![
        placed(
            ObjectType::PADDLE,
            n,
            t + g,
            t + g,
            pw,
            ph,
            default_vector(ObjectType::PADDLE),
            ObjectInteractBehaviors::HALT_AT_WALL,
        ),
        standard(ObjectType::PADDLE, (n + 1) as u32, width - (t + pw + g), t + g, pw, ph),
    ]
}

/// The left and right goals, numbered from `n`.
pub open spec fn goals(n: u32, width: int, height: int) -> Seq<GameObject> {
    let t = WALL_THICKNESS as int;
    let gw = GOAL_WIDTH as int;
    seq![
        standard(ObjectType::GOAL, n, t, t, gw, height - 2 * t),
        standard(ObjectType::GOAL, (n + 1) as u32, width - (t + gw), t, gw, height - 2 * t),
    ]
}

/// The ball, numbered `n`, in the middle of the playfield.
pub open spec fn ball(n: u32, width: int, height: int) -> GameObject {
    let b = BALL_WIDTH as int;
    standard(ObjectType::BALL, n, width / 2 - b / 2, height / 2 - b / 2, b, b)
}

/// The default session's entities, in the order they are added: four walls
/// (top, bottom, left, right), the player's and the opponent's paddles, the
/// left and right goals, and the ball.
pub open spec fn default_layout(width: int, height: int) -> Seq<GameObject> {
    walls(0, WALL_THICKNESS as int, width, height) + paddles(0, width) + goals(0, width, height) + seq![
        ball(0, width, height),
    ]
}

/// Every entity of the default layout lies inside the playfield, no two
/// share an id, and the top and bottom walls enclose both goals' vertical extent.
pub proof fn lemma_default_layout_in_bounds(width: usize, height: usize)
    requires
        playable(width, height),
    ensures
        default_layout(width as int, height as int).len() == 9,
        forall|k: int|
            0 <= k < 9 ==> box_within(
                #[trigger] default_layout(width as int, height as int)[k],
                width as int,
                height as int,
            ),
        forall|i: int, j: int|
            0 <= i < 9 && 0 <= j < 9 && i != j ==> default_layout(width as int, height as int)[i].id
                != default_layout(width as int, height as int)[j].id,
        forall|k: int|
            6 <= k < 8 ==> default_layout(width as int, height as int)[0].bottom()
                <= (#[trigger] default_layout(width as int, height as int)[k]).pos.y_pos
                && default_layout(width as int, height as int)[k].bottom() <= default_layout(
                width as int,
                height as int,
            )[1].pos.y_pos,
{
    let w = width as int;
    let h = height as int;
    let l = default_layout(w, h);
    assert(l =~= seq![
        walls(0, WALL_THICKNESS as int, w, h)[0],
        walls(0, WALL_THICKNESS as int, w, h)[1],
        walls(0, WALL_THICKNESS as int, w, h)[2],
        walls(0, WALL_THICKNESS as int, w, h)[3],
        paddles(0, w)[0],
        paddles(0, w)[1],
        goals(0, w, h)[0],
        goals(0, w, h)[1],
        ball(0, w, h),
    ]);
    assert(box_within(l[0], w, h));
    assert(box_within(l[1], w, h));
    assert(box_within(l[2], w, h));
    assert(box_within(l[3], w, h));
    assert(box_within(l[4], w, h));
    assert(box_within(l[5], w, h));
    assert(box_within(l[6], w, h));
    assert(box_within(l[7], w, h));
    assert(box_within(l[8], w, h));
}

/// Creates an entity and adds it to the play area.
fn add_created(
    play_area: &mut PlayArea,
    factory: &mut GameObjectFactory,
    obj_type: ObjectType,
    x: usize,
    y: usize,
    w: usize,
    h: usize,
) -> (r: GameObject)
    requires
        old(play_area).wf(),
        old(factory).count(obj_type) < u32::MAX,
        (x + w) * UNITS_PER_PIXEL <= old(play_area).dims.w * UNITS_PER_PIXEL,
        (y + h) * UNITS_PER_PIXEL <= old(play_area).dims.h * UNITS_PER_PIXEL,
    ensures
        r == standard(obj_type, old(factory).count(obj_type), x as int, y as int, w as int, h as int),
        final(play_area).wf(),
        final(play_area).dims == old(play_area).dims,
        final(play_area).game_objects@ == old(play_area).game_objects@.push(r),
        final(factory).count(obj_type) == old(factory).count(obj_type) + 1,
        forall|t: ObjectType| t != obj_type ==> #[trigger] final(factory).count(t) == old(factory).count(t),
{
    let obj = factory.create(obj_type, x, y, w, h);
    play_area.add_game_object(obj);
    obj
}

fn add_wall(
    play_area: &mut PlayArea,
    factory: &mut GameObjectFactory,
    x: usize,
    y: usize,
    w: usize,
    h: usize,
    angle: i64,
)
    requires
        old(play_area).wf(),
        old(factory).count(ObjectType::WALL) < u32::MAX,
        (x + w) * UNITS_PER_PIXEL <= old(play_area).dims.w * UNITS_PER_PIXEL,
        (y + h) * UNITS_PER_PIXEL <= old(play_area).dims.h * UNITS_PER_PIXEL,
    ensures
        final(play_area).wf(),
        final(play_area).dims == old(play_area).dims,
        final(play_area).game_objects@ == old(play_area).game_objects@.push(
            wall(old(factory).count(ObjectType::WALL), x as int, y as int, w as int, h as int, angle),
        ),
        final(factory).count(ObjectType::WALL) == old(factory).count(ObjectType::WALL) + 1,
        forall|t: ObjectType|
            t != ObjectType::WALL ==> #[trigger] final(factory).count(t) == old(factory).count(t),
{
    let mut obj = factory.create(ObjectType::WALL, x, y, w, h);
    obj.vec.set_angle(angle);
    play_area.add_game_object(obj);
}

fn add_walls(play_area: &mut PlayArea, factory: &mut GameObjectFactory, wall_thickness: usize)
    requires
        old(play_area).wf(),
        wall_thickness == WALL_THICKNESS,
        wall_thickness <= old(play_area).dims.w,
        wall_thickness <= old(play_area).dims.h,
        old(factory).count(ObjectType::WALL) <= u32::MAX - 4,
    ensures
        final(play_area).wf(),
        final(play_area).dims == old(play_area).dims,
        final(play_area).game_objects@ == old(play_area).game_objects@ + walls(
            old(factory).count(ObjectType::WALL),
            wall_thickness as int,
            old(play_area).dims.w as int,
            old(play_area).dims.h as int,
        ),
        final(factory).count(ObjectType::WALL) == old(factory).count(ObjectType::WALL) + 4,
        forall|t: ObjectType|
            t != ObjectType::WALL ==> #[trigger] final(factory).count(t) == old(factory).count(t),
{
    let width = play_area.get_width();
    let height = play_area.get_height();
    add_wall(play_area, factory, 0, 0, width, wall_thickness, 90);
    add_wall(play_area, factory, 0, height - wall_thickness, width, wall_thickness, 270);
    add_wall(play_area, factory, 0, 0, wall_thickness, height, 180);
    add_wall(play_area, factory, width - wall_thickness, 0, wall_thickness, height, 0);
    assert(play_area.game_objects@ =~= old(play_area).game_objects@ + walls(
        old(factory).count(ObjectType::WALL),
        wall_thickness as int,
        width as int,
        height as int,
    ));
}

fn add_paddles(
    play_area: &mut PlayArea,
    factory: &mut GameObjectFactory,
    paddle_dims: (usize, usize),
    wall_thickness: usize,
    gap: usize,
)
    requires
        old(play_area).wf(),
        paddle_dims == (PADDLE_WIDTH, PADDLE_HEIGHT),
        wall_thickness == WALL_THICKNESS,
        gap == PADDLE_GAP,
        wall_thickness + gap + paddle_dims.0 <= old(play_area).dims.w,
        wall_thickness + gap + paddle_dims.1 <= old(play_area).dims.h,
        old(factory).count(ObjectType::PADDLE) <= u32::MAX - 2,
    ensures
        final(play_area).wf(),
        final(play_area).dims == old(play_area).dims,
        final(play_area).game_objects@ == old(play_area).game_objects@ + paddles(
            old(factory).count(ObjectType::PADDLE),
            old(play_area).dims.w as int,
        ),
        final(factory).count(ObjectType::PADDLE) == old(factory).count(ObjectType::PADDLE) + 2,
        forall|t: ObjectType|
            t != ObjectType::PADDLE ==> #[trigger] final(factory).count(t) == old(factory).count(t),
{
    let mut left_paddle = factory.create(
        ObjectType::PADDLE,
        wall_thickness + gap,
        wall_thickness + gap,
        paddle_dims.0,
        paddle_dims.1,
    );
    let right_paddle = factory.create(
        ObjectType::PADDLE,
        play_area.get_width() - (wall_thickness + paddle_dims.0 + gap),
        wall_thickness + gap,
        paddle_dims.0,
        paddle_dims.1,
    );
    left_paddle.behavior.set_interact_behavior(
        ObjectInteractBehavior::create(ObjectInteractBehaviors::HALT_AT_WALL),
    );
    play_area.add_game_object(left_paddle);
    play_area.add_game_object(right_paddle);
    assert(play_area.game_objects@ =~= old(play_area).game_objects@ + paddles(
        old(factory).count(ObjectType::PADDLE),
        play_area.dims.w as int,
    ));
}

fn add_goals(
    play_area: &mut PlayArea,
    factory: &mut GameObjectFactory,
    goal_width: usize,
    wall_thickness: usize,
)
    requires
        old(play_area).wf(),
        goal_width == GOAL_WIDTH,
        wall_thickness == WALL_THICKNESS,
        wall_thickness + goal_width <= old(play_area).dims.w,
        2 * wall_thickness <= old(play_area).dims.h,
        old(factory).count(ObjectType::GOAL) <= u32::MAX - 2,
    ensures
        final(play_area).wf(),
        final(play_area).dims == old(play_area).dims,
        final(play_area).game_objects@ == old(play_area).game_objects@ + goals(
            old(factory).count(ObjectType::GOAL),
            old(play_area).dims.w as int,
            old(play_area).dims.h as int,
        ),
        final(factory).count(ObjectType::GOAL) == old(factory).count(ObjectType::GOAL) + 2,
        forall|t: ObjectType|
            t != ObjectType::GOAL ==> #[trigger] final(factory).count(t) == old(factory).count(t),
{
    let width = play_area.get_width();
    let height = play_area.get_height();
    add_created(
        play_area,
        factory,
        ObjectType::GOAL,
        wall_thickness,
        wall_thickness,
        goal_width,
        height - 2 * wall_thickness,
    );
    add_created(
        play_area,
        factory,
        ObjectType::GOAL,
        width - (wall_thickness + goal_width),
        wall_thickness,
        goal_width,
        height - 2 * wall_thickness,
    );
    assert(play_area.game_objects@ =~= old(play_area).game_objects@ + goals(
        old(factory).count(ObjectType::GOAL),
        width as int,
        height as int,
    ));
}

fn add_ball(play_area: &mut PlayArea, factory: &mut GameObjectFactory, ball_width: usize)
    requires
        old(play_area).wf(),
        ball_width == BALL_WIDTH,
        ball_width <= old(play_area).dims.w,
        ball_width <= old(play_area).dims.h,
        old(factory).count(ObjectType::BALL) < u32::MAX,
    ensures
        final(play_area).wf(),
        final(play_area).dims == old(play_area).dims,
        final(play_area).game_objects@ == old(play_area).game_objects@.push(
            ball(old(factory).count(ObjectType::BALL), old(play_area).dims.w as int, old(play_area).dims.h as int),
        ),
        final(factory).count(ObjectType::BALL) == old(factory).count(ObjectType::BALL) + 1,
        forall|t: ObjectType|
            t != ObjectType::BALL ==> #[trigger] final(factory).count(t) == old(factory).count(t),
{
    let width = play_area.get_width();
    let height = play_area.get_height();
    add_created(
        play_area,
        factory,
        ObjectType::BALL,
        width / 2 - ball_width / 2,
        height / 2 - ball_width / 2,
        ball_width,
        ball_width,
    );
}

/// A `width` by `height` pixel play area with the default layout.
pub fn init_playarea(width: usize, height: usize) -> (r: PlayArea)
    requires
        playable(width, height),
    ensures
        r.wf(),
        r.dims.w == width,
        r.dims.h == height,
        r.game_objects@ == default_layout(width as int, height as int),
{
    let mut factory = GameObjectFactory::new();
    let mut play_area = PlayArea::new(width, height);
    let wall_thickness: usize = WALL_THICKNESS;
    let ball_width: usize = BALL_WIDTH;
    let paddle_dims: (usize, usize) = (PADDLE_WIDTH, PADDLE_HEIGHT);
    let goal_width: usize = GOAL_WIDTH;
    let pixel_gap_between_paddle_and_wall: usize = PADDLE_GAP;
    add_walls(&mut play_area, &mut factory, wall_thickness);
    add_paddles(
        &mut play_area,
        &mut factory,
        paddle_dims,
        wall_thickness,
        pixel_gap_between_paddle_and_wall,
    );
    add_goals(&mut play_area, &mut factory, goal_width, wall_thickness);
    add_ball(&mut play_area, &mut factory, ball_width);
    assert(play_area.game_objects@ =~= default_layout(width as int, height as int));
    play_area
}

} // verus!
