//! Session rules: input, scripted opponent, scoring, serving and the win condition.

use vstd::prelude::*;
use crate::layout::{default_layout, init_playarea, playable};
use crate::objects::{GameObject, Position, clamp_coord};
use crate::behaviors::ObjectMovementBehaviors;
use crate::play_area::{Bounds, PlayArea, box_within, step};
use crate::vectors::{EuclideanVector, UNITS_PER_PIXEL};

verus! {

/// Score that ends the session.
pub const WIN_SCORE: u8 = 3;

/// Paddle momentum bounds and steps, in thousandths of a pixel per tick.
pub const MOMENTUM_UPPER: i64 = 2500;

pub const MOMENTUM_LOWER: i64 = -2500;

pub const MOMENTUM_INCREMENT: i64 = 500;

pub const MOMENTUM_DECAY: i64 = 100;

pub const RESTING: i64 = 0;

/// Key codes that the session reacts to.
pub const KEY_ESCAPE: i32 = 27;

pub const KEY_UP: i32 = 119;

pub const KEY_DOWN: i32 = 115;

#[derive(Clone, Copy, Debug, PartialEq, Eq, Structural)]
pub enum SessionState {
    Running,
    Stopped,
}

/// Where the entities with a part in the rules stand among the play area's entities.
#[derive(Clone, Copy, Debug, PartialEq, Eq, Structural)]
pub struct Roles {
    pub player_paddle: usize,
    pub opponent_paddle: usize,
    pub left_goal: usize,
    pub right_goal: usize,
    pub ball: usize,
}

/// The roles in the default layout.
pub open spec fn default_roles() -> Roles {
    Roles { player_paddle: 4, opponent_paddle: 5, left_goal: 6, right_goal: 7, ball: 8 }
}

/// The mathematical state of a session.
pub struct Session {
    pub objects: Seq<GameObject>,
    pub bounds: Bounds,
    pub roles: Roles,
    pub plyr_momentum: int,
    pub comp_momentum: int,
    pub plyr_score: int,
    pub comp_score: int,
    pub state: SessionState,
}

/// Momentum after an "up" push: half a pixel more upward, down to the lower bound.
pub open spec fn momentum_up(m: int) -> int {
    if m > MOMENTUM_LOWER {
        if m - MOMENTUM_INCREMENT < MOMENTUM_LOWER {
            MOMENTUM_LOWER as int
        } else {
            m - MOMENTUM_INCREMENT
        }
    } else {
        m
    }
}

/// Momentum after a "down" push: half a pixel more downward, up to the upper bound.
pub open spec fn momentum_down(m: int) -> int {
    if m < MOMENTUM_UPPER {
        if m + MOMENTUM_INCREMENT > MOMENTUM_UPPER {
            MOMENTUM_UPPER as int
        } else {
            m + MOMENTUM_INCREMENT
        }
    } else {
        m
    }
}

/// Momentum after an idle tick: a tenth of a pixel closer to rest.
pub open spec fn decayed(m: int) -> int {
    if m > RESTING {
        m - MOMENTUM_DECAY
    } else if m < RESTING {
        m + MOMENTUM_DECAY
    } else {
        m
    }
}

/// `objs` with the entity at `k` moved down by `m`.
pub open spec fn shifted(objs: Seq<GameObject>, k: int, m: int) -> Seq<GameObject> {
    objs.update(
        k,
        GameObject { pos: Position { y_pos: clamp_coord(objs[k].pos.y_pos + m) as i64, ..objs[k].pos }, ..objs[k] },
    )
}

/// The player's paddle gets momentum `m` and moves by it.
pub open spec fn player_moves(s: Session, m: int) -> Session {
    Session { plyr_momentum: m, objects: shifted(s.objects, s.roles.player_paddle as int, m), ..s }
}

/// The opponent's paddle gets momentum `m` and moves by it.
pub open spec fn opponent_moves(s: Session, m: int) -> Session {
    Session { comp_momentum: m, objects: shifted(s.objects, s.roles.opponent_paddle as int, m), ..s }
}

/// The player's key: escape stops the session, up and down push the paddle,
/// anything else lets its momentum decay. The paddle moves by its momentum
/// unless the key was escape.
pub open spec fn input_phase(s: Session, key: i32) -> Session {
    if key == KEY_ESCAPE {
        Session { state: SessionState::Stopped, ..s }
    } else if key == KEY_UP {
        player_moves(s, momentum_up(s.plyr_momentum))
    } else if key == KEY_DOWN {
        player_moves(s, momentum_down(s.plyr_momentum))
    } else {
        player_moves(s, decayed(s.plyr_momentum))
    }
}

/// Twice the vertical centre of `o`'s box.
pub open spec fn twice_center_y(o: GameObject) -> int {
    2 * o.pos.y_pos + o.dim.height
}

/// The scripted opponent pushes its paddle toward the ball's vertical centre.
pub open spec fn opponent_phase(s: Session) -> Session {
    let paddle = twice_center_y(s.objects[s.roles.opponent_paddle as int]);
    let ball = twice_center_y(s.objects[s.roles.ball as int]);
    if paddle > ball {
        opponent_moves(s, momentum_up(s.comp_momentum))
    } else if paddle < ball {
        opponent_moves(s, momentum_down(s.comp_momentum))
    } else {
        s
    }
}

/// One step of the play area.
pub open spec fn physics_phase(s: Session) -> Session {
    Session { objects: step(s.objects), ..s }
}

/// Where a reset puts a ball of width `ball_width`: the playfield's centre
/// less half the ball's width on both axes.
pub open spec fn center_position(b: Bounds, ball_width: int) -> Position {
    Position {
        x_pos: (b.w * UNITS_PER_PIXEL / 2 - ball_width / 2) as i64,
        y_pos: (b.h * UNITS_PER_PIXEL / 2 - ball_width / 2) as i64,
    }
}

/// The angle a served ball takes: -135 degrees on heads, 45 on tails.
pub open spec fn serve_angle(heads: bool) -> i64 {
    if heads {
        -135i64
    } else {
        45
    }
}

/// Both momenta rest and the ball is served from the centre.
pub open spec fn reset_phase(s: Session, heads: bool) -> Session {
    let b = s.objects[s.roles.ball as int];
    Session {
        plyr_momentum: 0,
        comp_momentum: 0,
        objects: s.objects.update(
            s.roles.ball as int,
            GameObject {
                pos: center_position(s.bounds, b.dim.width as int),
                vec: EuclideanVector { magnitude: UNITS_PER_PIXEL as u32, angle: serve_angle(heads) },
                ..b
            },
        ),
        ..s
    }
}

/// A ball in the left goal scores for the opponent, one in the right goal
/// for the player; either serves the ball anew.
pub open spec fn scoring_phase(s: Session, heads: bool) -> Session {
    let b = s.objects[s.roles.ball as int];
    if b.touches(s.objects[s.roles.left_goal as int]) {
        reset_phase(Session { comp_score: s.comp_score + 1, ..s }, heads)
    } else if b.touches(s.objects[s.roles.right_goal as int]) {
        reset_phase(Session { plyr_score: s.plyr_score + 1, ..s }, heads)
    } else {
        s
    }
}

/// The session stops once either side has `WIN_SCORE`.
pub open spec fn win_phase(s: Session) -> Session {
    if s.plyr_score == WIN_SCORE || s.comp_score == WIN_SCORE {
        Session { state: SessionState::Stopped, ..s }
    } else {
        s
    }
}

/// The session before the physics step of a tick: what the renderer is shown.
pub open spec fn pre_physics(s: Session, key: i32) -> Session {
    opponent_phase(input_phase(s, key))
}

/// One tick: input, opponent, physics, scoring, win check. A stopped session
/// does not change.
pub open spec fn tick(s: Session, key: i32, heads: bool) -> Session {
    if s.state == SessionState::Stopped {
        s
    } else {
        win_phase(scoring_phase(physics_phase(pre_physics(s, key)), heads))
    }
}

/// The state of a session: the play area and the rules' own state.
pub struct Controller {
    pub play_area: PlayArea,
    pub roles: Roles,
    pub plyr_momentum: i64,
    pub comp_momentum: i64,
    pub plyr_score: u8,
    pub comp_score: u8,
    pub state: SessionState,
}

impl View for Controller {
    type V = Session;

    open spec fn view(&self) -> Session {
        Session {
            objects: self.play_area.game_objects@,
            bounds: self.play_area.dims,
            roles: self.roles,
            plyr_momentum: self.plyr_momentum as int,
            comp_momentum: self.comp_momentum as int,
            plyr_score: self.plyr_score as int,
            comp_score: self.comp_score as int,
            state: self.state,
        }
    }
}

/// Rules of a well-formed session state.
pub open spec fn session_wf(s: Session) -> bool {
    &&& session_shape(s)
    &&& s.state == SessionState::Running ==> s.plyr_score < WIN_SCORE && s.comp_score < WIN_SCORE
}

/// Every role names an entity, momenta and scores are within their bounds.
pub open spec fn session_shape(s: Session) -> bool {
    &&& s.roles.player_paddle < s.objects.len()
    &&& s.roles.opponent_paddle < s.objects.len()
    &&& s.roles.left_goal < s.objects.len()
    &&& s.roles.right_goal < s.objects.len()
    &&& s.roles.ball < s.objects.len()
    &&& MOMENTUM_LOWER <= s.plyr_momentum <= MOMENTUM_UPPER
    &&& MOMENTUM_LOWER <= s.comp_momentum <= MOMENTUM_UPPER
    &&& 0 <= s.plyr_score <= WIN_SCORE
    &&& 0 <= s.comp_score <= WIN_SCORE
}

/// A new session on a `width` by `height` pixel play area with the default layout.
pub fn default(width: usize, height: usize) -> (r: Controller)
    requires
        playable(width, height),
    ensures
        r.wf(),
        r@.objects == default_layout(width as int, height as int),
        r@.bounds == (Bounds { w: width, h: height }),
        r@.roles == default_roles(),
        r@.plyr_momentum == 0 && r@.comp_momentum == 0,
        r@.plyr_score == 0 && r@.comp_score == 0,
        r@.state == SessionState::Running,
{
    Controller {
        play_area: init_playarea(width, height),
        roles: Roles { player_paddle: 4, opponent_paddle: 5, left_goal: 6, right_goal: 7, ball: 8 },
        plyr_momentum: 0,
        comp_momentum: 0,
        plyr_score: 0,
        comp_score: 0,
        state: SessionState::Running,
    }
}

/// A stopped session is final: a tick changes nothing, scores included.
pub proof fn lemma_stopped_session_is_final(s: Session, key: i32, heads: bool)
    requires
        s.state == SessionState::Stopped,
    ensures
        tick(s, key, heads) == s,
{
}

/// Win condition: no tick takes a score past `WIN_SCORE`, and a tick that
/// leaves either side at `WIN_SCORE` leaves the session stopped.
pub proof fn lemma_win_stops_session(s: Session, key: i32, heads: bool)
    requires
        session_wf(s),
    ensures
        0 <= tick(s, key, heads).plyr_score <= WIN_SCORE,
        0 <= tick(s, key, heads).comp_score <= WIN_SCORE,
        tick(s, key, heads).plyr_score == WIN_SCORE || tick(s, key, heads).comp_score == WIN_SCORE
            ==> tick(s, key, heads).state == SessionState::Stopped,
{
    let p = pre_physics(s, key);
    crate::play_area::lemma_step_len(p.objects);
}

/// A serve puts the ball back inside the playfield: a square ball no wider
/// than the playfield's width or height lands inside it.
pub proof fn lemma_serve_in_bounds(s: Session, heads: bool)
    requires
        session_shape(s),
        s.objects[s.roles.ball as int].dim.width == s.objects[s.roles.ball as int].dim.height,
        0 <= s.objects[s.roles.ball as int].dim.width <= s.bounds.w * UNITS_PER_PIXEL,
        s.objects[s.roles.ball as int].dim.width <= s.bounds.h * UNITS_PER_PIXEL,
        s.bounds.w * UNITS_PER_PIXEL <= crate::objects::COORD_LIMIT,
        s.bounds.h * UNITS_PER_PIXEL <= crate::objects::COORD_LIMIT,
    ensures
        box_within(
            reset_phase(s, heads).objects[s.roles.ball as int],
            s.bounds.w as int,
            s.bounds.h as int,
        ),
{
}

/// Score and serve: a ball that touches the left goal gives the opponent
/// exactly one point, comes back to the playfield's centre less half its
/// width, and leaves at one pixel per tick at 45 or -135 degrees; both
/// momenta rest and the player's score stays.
pub proof fn lemma_left_goal_scores_for_opponent(s: Session, heads: bool)
    requires
        session_shape(s),
        s.objects[s.roles.ball as int].touches(s.objects[s.roles.left_goal as int]),
    ensures
        scoring_phase(s, heads).comp_score == s.comp_score + 1,
        scoring_phase(s, heads).plyr_score == s.plyr_score,
        scoring_phase(s, heads).objects[s.roles.ball as int].pos == center_position(
            s.bounds,
            s.objects[s.roles.ball as int].dim.width as int,
        ),
        scoring_phase(s, heads).objects[s.roles.ball as int].vec.magnitude == UNITS_PER_PIXEL,
        scoring_phase(s, heads).objects[s.roles.ball as int].vec.angle == 45
            || scoring_phase(s, heads).objects[s.roles.ball as int].vec.angle == -135,
        scoring_phase(s, heads).plyr_momentum == 0,
        scoring_phase(s, heads).comp_momentum == 0,
{
}

/// Walls and goals stay inside the playfield: a tick moves neither paddle
/// role nor the ball's role onto any other entity, so one with the
/// stationary policy whose box was inside the playfield stays inside it.
pub proof fn lemma_tick_keeps_field_in_bounds(s: Session, key: i32, heads: bool, k: int)
    requires
        session_wf(s),
        0 <= k < s.objects.len(),
        k != s.roles.player_paddle,
        k != s.roles.opponent_paddle,
        k != s.roles.ball,
        s.objects[k].behavior.movement_behavior.kind == ObjectMovementBehaviors::STATIONARY,
        box_within(s.objects[k], s.bounds.w as int, s.bounds.h as int),
    ensures
        box_within(tick(s, key, heads).objects[k], s.bounds.w as int, s.bounds.h as int),
{
    let p = pre_physics(s, key);
    assert(p.objects[k] == s.objects[k]);
    crate::play_area::lemma_step_keeps_stationary_in_bounds(
        p.objects,
        s.bounds.w as int,
        s.bounds.h as int,
        k,
    );
    crate::play_area::lemma_step_len(p.objects);
}

/// Relies on `rand::random`: a value of `T` drawn by the thread-local
/// generator. Nothing is promised of which value comes.
pub assume_specification<T>[ rand::random::<T> ]() -> (r: T)
    where
        rand::distributions::Standard: rand::distributions::Distribution<T>,
;

impl Controller {
    pub open spec fn wf(self) -> bool {
        &&& self.play_area.wf()
        &&& session_wf(self@)
    }

    /// The state but for the rule that a running session has no winner yet.
    pub open spec fn shaped(self) -> bool {
        &&& self.play_area.wf()
        &&& session_shape(self@)
    }

    /// A copy of every entity, in order: the frame handed to the renderer.
    pub fn snapshot(&self) -> (r: Vec<GameObject>)
        ensures
            r@ == self@.objects,
    {
        let mut r: Vec<GameObject> = Vec::new();
        let mut i: usize = 0;
        while i < self.play_area.game_objects.len()
            invariant
                0 <= i <= self.play_area.game_objects.len(),
                r@ == self.play_area.game_objects@.subrange(0, i as int),
            decreases self.play_area.game_objects.len() - i,
        {
            r.push(self.play_area.game_objects[i]);
            i = i + 1;
            assert(r@ =~= self.play_area.game_objects@.subrange(0, i as int));
        }
        assert(r@ =~= self.play_area.game_objects@);
        r
    }

    fn momentum_decay(&mut self)
        requires
            old(self).shaped(),
        ensures
            final(self).shaped(),
            final(self).state == old(self).state,
            final(self)@ == player_moves(old(self)@, decayed(old(self)@.plyr_momentum)),
    {
        Self::decay(&mut self.plyr_momentum);
        let k = self.roles.player_paddle;
        let mut paddle = self.play_area.game_objects[k];
        Self::resolve_move(&mut paddle, &self.plyr_momentum);
        self.play_area.game_objects.set(k, paddle);
        assert(self@.objects =~= shifted(old(self)@.objects, k as int, self.plyr_momentum as int));
    }

    /// Reacts to the last key the player pressed.
    fn handle_input(&mut self, key: i32)
        requires
            old(self).shaped(),
        ensures
            final(self).shaped(),
            final(self)@ == input_phase(old(self)@, key),
    {
        let k = self.roles.player_paddle;
        if key == KEY_ESCAPE {
            self.state = SessionState::Stopped;
        } else if key == KEY_UP {
            let mut paddle = self.play_area.game_objects[k];
            Self::move_up(&mut paddle, &mut self.plyr_momentum);
            self.play_area.game_objects.set(k, paddle);
            assert(self@.objects =~= shifted(old(self)@.objects, k as int, self.plyr_momentum as int));
        } else if key == KEY_DOWN {
            let mut paddle = self.play_area.game_objects[k];
            Self::move_down(&mut paddle, &mut self.plyr_momentum);
            self.play_area.game_objects.set(k, paddle);
            assert(self@.objects =~= shifted(old(self)@.objects, k as int, self.plyr_momentum as int));
        } else {
            self.momentum_decay();
        }
    }

    /// The scripted opponent's move: push its paddle toward the ball.
    fn resolve_computer_turn(&mut self)
        requires
            old(self).shaped(),
        ensures
            final(self).shaped(),
            final(self)@ == opponent_phase(old(self)@),
    {
        let ball = self.play_area.game_objects[self.roles.ball];
        let k = self.roles.opponent_paddle;
        let mut paddle = self.play_area.game_objects[k];
        let ball_center: i64 = 2 * ball.pos.get_y_pos() + ball.dim.get_height();
        let paddle_center: i64 = 2 * paddle.pos.get_y_pos() + paddle.dim.get_height();
        if paddle_center > ball_center {
            Self::move_up(&mut paddle, &mut self.comp_momentum);
            self.play_area.game_objects.set(k, paddle);
            assert(self@.objects =~= shifted(old(self)@.objects, k as int, self.comp_momentum as int));
        } else if paddle_center < ball_center {
            Self::move_down(&mut paddle, &mut self.comp_momentum);
            self.play_area.game_objects.set(k, paddle);
            assert(self@.objects =~= shifted(old(self)@.objects, k as int, self.comp_momentum as int));
        }
    }

    /// Copies the entities for the renderer, then advances the play area one tick.
    fn resolve_model(&mut self) -> (r: Vec<GameObject>)
        requires
            old(self).shaped(),
        ensures
            final(self).shaped(),
            final(self)@ == physics_phase(old(self)@),
            r@ == old(self)@.objects,
    {
        let frame = self.snapshot();
        proof {
            crate::play_area::lemma_step_len(self.play_area.game_objects@);
        }
        self.play_area.resolve_object_behaviors();
        frame
    }

    /// Rests both momenta and serves the ball from the centre, at -135
    /// degrees when `heads`, else at 45.
    pub fn reset(&mut self, heads: bool)
        requires
            old(self).shaped(),
        ensures
            final(self).shaped(),
            final(self)@ == reset_phase(old(self)@, heads),
    {
        self.plyr_momentum = 0;
        self.comp_momentum = 0;
        let (w, h) = self.play_area.dims_as_tuple();
        let k = self.roles.ball;
        let mut ball = self.play_area.game_objects[k];
        let ball_width = ball.dim.get_width();
        ball.pos = Position::new(
            (w as i64) * UNITS_PER_PIXEL / 2 - ball_width / 2,
            (h as i64) * UNITS_PER_PIXEL / 2 - ball_width / 2,
        );
        ball.vec = EuclideanVector::new(
            UNITS_PER_PIXEL as u32,
            if heads {
                -135
            } else {
                45
            },
        );
        self.play_area.game_objects.set(k, ball);
        assert(self@.objects =~= reset_phase(old(self)@, heads).objects);
    }

    /// Scores a ball that reached a goal and serves it anew (see `scoring_phase`).
    pub fn check_if_score(&mut self, heads: bool)
        requires
            old(self).shaped(),
            old(self).plyr_score < WIN_SCORE,
            old(self).comp_score < WIN_SCORE,
        ensures
            final(self).shaped(),
            final(self)@ == scoring_phase(old(self)@, heads),
    {
        let left_score_zone = self.play_area.game_objects[self.roles.left_goal];
        let right_score_zone = self.play_area.game_objects[self.roles.right_goal];
        let ball = self.play_area.game_objects[self.roles.ball];
        if ball.intersecting(&left_score_zone) {
            self.comp_score = self.comp_score + 1;
            self.reset(heads);
        } else if ball.intersecting(&right_score_zone) {
            self.plyr_score = self.plyr_score + 1;
            self.reset(heads);
        }
    }

    /// Stops the session once either side has `WIN_SCORE`.
    pub fn check_win_condition(&mut self)
        requires
            old(self).shaped(),
        ensures
            final(self).shaped(),
            final(self)@ == win_phase(old(self)@),
            final(self).state == SessionState::Running ==> final(self).wf(),
    {
        if self.plyr_score == WIN_SCORE || self.comp_score == WIN_SCORE {
            self.state = SessionState::Stopped;
        }
    }

    /// One tick, with the coin for a serve given: returns the frame for the
    /// renderer (the entities after input and the opponent's move, before the
    /// physics step). A stopped session stays as it is and returns its entities.
    pub fn step(&mut self, key: i32, heads: bool) -> (r: Vec<GameObject>)
        requires
            old(self).wf(),
        ensures
            final(self).wf(),
            final(self)@ == tick(old(self)@, key, heads),
            old(self).state == SessionState::Running ==> r@ == pre_physics(old(self)@, key).objects,
            old(self).state == SessionState::Stopped ==> r@ == old(self)@.objects,
    {
        if self.state == SessionState::Stopped {
            return self.snapshot();
        }
        self.handle_input(key);
        self.resolve_computer_turn();
        let frame = self.resolve_model();
        self.check_if_score(heads);
        self.check_win_condition();
        frame
    }

    /// One tick, tossing a fair coin for the serve should a goal be scored.
    pub fn tick(&mut self, key: i32) -> (r: Vec<GameObject>)
        requires
            old(self).wf(),
        ensures
            final(self).wf(),
            final(self)@ == tick(old(self)@, key, true) || final(self)@ == tick(old(self)@, key, false),
            old(self).state == SessionState::Running ==> r@ == pre_physics(old(self)@, key).objects,
            old(self).state == SessionState::Stopped ==> r@ == old(self)@.objects,
    {
        let heads: bool = rand::random::<bool>();
        self.step(key, heads)
    }

    /// Whether the session still runs.
    pub fn is_running(&self) -> (r: bool)
        ensures
            r == (self.state == SessionState::Running),
    {
        self.state == SessionState::Running
    }

    fn move_up(paddle: &mut GameObject, momentum: &mut i64)
        requires
            old(paddle).wf(),
            MOMENTUM_LOWER <= *old(momentum) <= MOMENTUM_UPPER,
        ensures
            *final(momentum) == momentum_up(*old(momentum) as int),
            *final(paddle) == shifted(seq![*old(paddle)], 0, *final(momentum) as int)[0],
            final(paddle).wf(),
    {
        if *momentum > MOMENTUM_LOWER {
            if *momentum - MOMENTUM_INCREMENT < MOMENTUM_LOWER {
                *momentum = MOMENTUM_LOWER;
            } else {
                *momentum = *momentum - MOMENTUM_INCREMENT;
            }
        }
        Self::resolve_move(paddle, momentum)
    }

    fn move_down(paddle: &mut GameObject, momentum: &mut i64)
        requires
            old(paddle).wf(),
            MOMENTUM_LOWER <= *old(momentum) <= MOMENTUM_UPPER,
        ensures
            *final(momentum) == momentum_down(*old(momentum) as int),
            *final(paddle) == shifted(seq![*old(paddle)], 0, *final(momentum) as int)[0],
            final(paddle).wf(),
    {
        if *momentum < MOMENTUM_UPPER {
            if *momentum + MOMENTUM_INCREMENT > MOMENTUM_UPPER {
                *momentum = MOMENTUM_UPPER;
            } else {
                *momentum = *momentum + MOMENTUM_INCREMENT;
            }
        }
        Self::resolve_move(paddle, momentum);
    }

    fn decay(momentum: &mut i64)
        requires
            MOMENTUM_LOWER <= *old(momentum) <= MOMENTUM_UPPER,
        ensures
            *final(momentum) == decayed(*old(momentum) as int),
    {
        if *momentum > RESTING {
            *momentum = *momentum - MOMENTUM_DECAY;
        } else if *momentum < RESTING {
            *momentum = *momentum + MOMENTUM_DECAY;
        }
    }

    fn resolve_move(paddle: &mut GameObject, momentum: &i64)
        requires
            old(paddle).wf(),
        ensures
            *final(paddle) == shifted(seq![*old(paddle)], 0, *momentum as int)[0],
            final(paddle).wf(),
    {
        paddle.pos.inc_y_pos(*momentum)
    }
}

} // verus!
