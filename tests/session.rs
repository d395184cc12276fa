use pong::controller::{Controller, SessionState, KEY_DOWN, KEY_ESCAPE, KEY_UP};
use pong::layout::init_playarea;
use pong::objects::{ObjectType, Position};
use pong::vectors::EuclideanVector;

const NO_KEY: i32 = -1;

fn session() -> Controller {
    pong::controller::default(800, 600)
}

#[test]
fn default_layout_order_and_places() {
    let c = session();
    let objs = &c.play_area.game_objects;
    assert_eq!(objs.len(), 9);
    let types: Vec<ObjectType> = objs.iter().map(|o| o.object_type).collect();
    assert_eq!(
        types,
        vec![
            ObjectType::WALL,
            ObjectType::WALL,
            ObjectType::WALL,
            ObjectType::WALL,
            ObjectType::PADDLE,
            ObjectType::PADDLE,
            ObjectType::GOAL,
            ObjectType::GOAL,
            ObjectType::BALL
        ]
    );
    assert_eq!(objs[1].pos, Position::new(0, 590_000));
    assert_eq!(objs[1].vec.get_angle(), 270);
    assert_eq!(objs[3].pos, Position::new(790_000, 0));
    assert_eq!(objs[5].pos, Position::new(750_000, 40_000));
    assert_eq!(objs[7].pos, Position::new(760_000, 10_000));
    assert_eq!(objs[7].dim.get_height(), 580_000);
    assert_eq!(objs[8].pos, Position::new(390_000, 290_000));
    assert_eq!(objs[8].vec, EuclideanVector::new(1000, 45));
    for o in objs.iter() {
        assert!(c.play_area.object_within_bounds(o));
    }
    let area = init_playarea(50, 90);
    assert_eq!(area.game_objects.len(), 9);
    for o in area.game_objects.iter() {
        assert!(area.object_within_bounds(o));
    }
    // Both goals lie between the top and bottom walls.
    for g in &c.play_area.game_objects[6..8] {
        assert!(objs[0].y_extent() <= g.pos.get_y_pos());
        assert!(g.y_extent() <= objs[1].pos.get_y_pos());
    }
}

#[test]
fn up_key_builds_momentum_to_its_bound() {
    let mut c = session();
    let y0 = c.play_area.game_objects[4].pos.get_y_pos();
    c.step(KEY_UP, false);
    assert_eq!(c.plyr_momentum, -500);
    assert_eq!(c.play_area.game_objects[4].pos.get_y_pos(), y0 - 500);
    for _ in 0..10 {
        c.step(KEY_UP, false);
    }
    assert_eq!(c.plyr_momentum, -2500);
    c.step(KEY_DOWN, false);
    assert_eq!(c.plyr_momentum, -2000);
}

#[test]
fn idle_momentum_decays_linearly() {
    let mut c = session();
    c.step(KEY_DOWN, false);
    assert_eq!(c.plyr_momentum, 500);
    let mut seen = Vec::new();
    for _ in 0..6 {
        c.step(NO_KEY, false);
        seen.push(c.plyr_momentum);
    }
    assert_eq!(seen, vec![400, 300, 200, 100, 0, 0]);
}

#[test]
fn opponent_tracks_the_ball() {
    let mut c = session();
    // The opponent's paddle centre (y 65) is above the ball's (y 300): it moves down.
    c.step(NO_KEY, false);
    assert_eq!(c.comp_momentum, 500);
    assert_eq!(c.play_area.game_objects[5].pos.get_y_pos(), 40_000 + 500);
    // Put the ball above the paddle: it moves up.
    c.play_area.game_objects[8].pos = Position::new(390_000, 10_000);
    c.step(NO_KEY, false);
    assert_eq!(c.comp_momentum, 0);
    c.step(NO_KEY, false);
    assert_eq!(c.comp_momentum, -500);
}

#[test]
fn score_in_left_goal_serves_from_centre() {
    for heads in [true, false] {
        let mut c = session();
        c.plyr_momentum = 1500;
        c.comp_momentum = -1000;
        c.play_area.game_objects[8].pos = Position::new(20_000, 300_000);
        c.check_if_score(heads);
        assert_eq!(c.comp_score, 1);
        assert_eq!(c.plyr_score, 0);
        assert_eq!(c.play_area.game_objects[8].pos, Position::new(390_000, 290_000));
        let expected = if heads { -135 } else { 45 };
        assert_eq!(c.play_area.game_objects[8].vec, EuclideanVector::new(1000, expected));
        assert_eq!((c.plyr_momentum, c.comp_momentum), (0, 0));
    }
}

#[test]
fn score_in_right_goal_counts_for_player() {
    let mut c = session();
    c.play_area.game_objects[8].pos = Position::new(765_000, 300_000);
    c.check_if_score(false);
    assert_eq!((c.plyr_score, c.comp_score), (1, 0));
    c.check_if_score(false);
    assert_eq!((c.plyr_score, c.comp_score), (1, 0));
}

#[test]
fn reset_serves_ball() {
    let mut c = session();
    c.play_area.game_objects[8].pos = Position::new(1, 2);
    c.reset(true);
    assert_eq!(c.play_area.game_objects[8].pos, Position::new(390_000, 290_000));
    assert_eq!(c.play_area.game_objects[8].vec, EuclideanVector::new(1000, -135));
}

#[test]
fn third_goal_stops_the_session_for_good() {
    let mut c = session();
    c.comp_score = 2;
    c.play_area.game_objects[8].pos = Position::new(20_000, 300_000);
    c.play_area.game_objects[8].vec = EuclideanVector::new(0, 0);
    c.step(NO_KEY, false);
    assert_eq!(c.comp_score, 3);
    assert_eq!(c.state, SessionState::Stopped);
    assert!(!c.is_running());
    c.play_area.game_objects[8].pos = Position::new(20_000, 300_000);
    let before = c.snapshot();
    for _ in 0..5 {
        let frame = c.step(NO_KEY, true);
        assert_eq!(frame.len(), 9);
    }
    assert_eq!((c.plyr_score, c.comp_score), (0, 3));
    assert_eq!(c.snapshot()[8].pos, before[8].pos);
}

#[test]
fn win_check_stops_at_three() {
    let mut c = session();
    c.plyr_score = 3;
    c.check_win_condition();
    assert_eq!(c.state, SessionState::Stopped);
    let mut d = session();
    d.plyr_score = 2;
    d.check_win_condition();
    assert_eq!(d.state, SessionState::Running);
}

#[test]
fn escape_stops_the_session() {
    let mut c = session();
    c.step(KEY_ESCAPE, false);
    assert_eq!(c.state, SessionState::Stopped);
    let frame = c.step(KEY_UP, false);
    assert_eq!(frame.len(), 9);
    assert_eq!(c.plyr_momentum, 0);
}

#[test]
fn frame_is_taken_before_the_physics_step() {
    let mut c = session();
    let frame = c.step(NO_KEY, false);
    assert_eq!(frame[8].pos, Position::new(390_000, 290_000));
    assert_eq!(c.play_area.game_objects[8].pos, Position::new(390_705, 290_705));
    assert_eq!(frame[5].pos.get_y_pos(), 40_500);
}

#[test]
fn ball_bounces_off_a_wall_before_any_goal() {
    let mut c = session();
    let mut bounced = false;
    for _ in 0..2000 {
        c.step(NO_KEY, false);
        if c.plyr_score + c.comp_score > 0 {
            break;
        }
        if c.play_area.game_objects[8].vec.get_magnitude() > 1000 {
            bounced = true;
            break;
        }
    }
    assert!(bounced);
    assert_eq!((c.plyr_score, c.comp_score), (0, 0));
}

#[test]
fn random_tick_runs_a_tick() {
    let mut c = session();
    let frame = c.tick(NO_KEY);
    assert_eq!(frame.len(), 9);
    assert_eq!(c.play_area.game_objects[8].pos, Position::new(390_705, 290_705));
    c.play_area.game_objects[8].pos = Position::new(20_000, 300_000);
    c.tick(NO_KEY);
    let angle = c.play_area.game_objects[8].vec.get_angle();
    assert!(angle == 45 || angle == -135);
    assert_eq!(c.comp_score, 1);
}
