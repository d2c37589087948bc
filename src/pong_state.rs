use vstd::prelude::*;

use crate::constants::{
    BALL_HEIGHT, BALL_WIDTH, CENTER_X, CENTER_Y, GAME_HEIGHT, GAME_WIDTH, HALF_PADDLE_WIDTH, MAX_PADDLE_Y, P1_X_POS,
    P2_X_POS, PADDLE_HEIGHT, PADDLE_WIDTH, PLAYER_MOVE_UNIT, SPAWN_VEL_X, SPAWN_VEL_Y,
};

verus! {

/// A player's movement decision for one tick.
#[derive(Debug, Copy, Clone, PartialEq, Eq, Structural)]
pub enum PlayerMovement {
    Up,
    Down,
    Still,
}

/// The complete state of one match, as the server simulates it and
/// broadcasts it.
#[derive(Copy, Clone, Debug)]
pub struct PongState {
    /// Vertical offset of player 1's paddle.
    pub p1: i32,
    /// The latest known move of player 1.
    pub p1_move: Option<PlayerMovement>,
    /// Vertical offset of player 2's paddle.
    pub p2: i32,
    /// The latest known move of player 2.
    pub p2_move: Option<PlayerMovement>,
    /// (x, y) coordinates of the ball's top left corner.
    pub ball: (i32, i32),
    /// Velocity of the ball, added to its position once per tick.
    pub ball_vel: (i32, i32),
}

fn same_move(a: Option<PlayerMovement>, b: Option<PlayerMovement>) -> (r: bool)
    ensures
        r == (a == b),
{
    match (a, b) {
        (None, None) => true,
        (Some(x), Some(y)) => x == y,
        _ => false,
    }
}

impl PartialEq for PongState {
    fn eq(&self, o: &PongState) -> (r: bool) {
        self.p1 == o.p1 && same_move(self.p1_move, o.p1_move) && self.p2 == o.p2 && same_move(
            self.p2_move,
            o.p2_move,
        ) && self.ball.0 == o.ball.0 && self.ball.1 == o.ball.1 && self.ball_vel.0 == o.ball_vel.0
            && self.ball_vel.1 == o.ball_vel.1
    }
}

impl vstd::std_specs::cmp::PartialEqSpecImpl for PongState {
    open spec fn obeys_eq_spec() -> bool {
        true
    }

    open spec fn eq_spec(&self, o: &PongState) -> bool {
        *self == *o
    }
}

impl Eq for PongState {

}

/// A paddle's offset after one move, kept within `[0, MAX_PADDLE_Y]`.
pub open spec fn moved_paddle(pos: i32, m: Option<PlayerMovement>) -> i32 {
    match m {
        Some(PlayerMovement::Up) => if pos - PLAYER_MOVE_UNIT < 0 {
            0
        } else {
            (pos - PLAYER_MOVE_UNIT) as i32
        },
        Some(PlayerMovement::Down) => if pos + PLAYER_MOVE_UNIT > MAX_PADDLE_Y {
            MAX_PADDLE_Y
        } else {
            (pos + PLAYER_MOVE_UNIT) as i32
        },
        _ => pos,
    }
}

/// Whether two axis-aligned rectangles touch or overlap (edges included).
pub open spec fn rects_overlap(
    ax: int,
    ay: int,
    aw: int,
    ah: int,
    bx: int,
    by: int,
    bw: int,
    bh: int,
) -> bool {
    &&& ax <= bx + bw
    &&& ax + aw >= bx
    &&& ay <= by + bh
    &&& ay + ah >= by
}

/// Whether the ball at `ball` overlaps a paddle whose top left corner is at
/// (`paddle_x`, `paddle_y`).
pub open spec fn ball_overlaps_paddle(ball: (i32, i32), paddle_x: i32, paddle_y: i32) -> bool {
    rects_overlap(
        ball.0 as int,
        ball.1 as int,
        BALL_WIDTH as int,
        BALL_HEIGHT as int,
        paddle_x as int,
        paddle_y as int,
        PADDLE_WIDTH as int,
        PADDLE_HEIGHT as int,
    )
}

/// The ball has fully crossed the left or the right edge of the field.
pub open spec fn passed_a_paddle(ball: (i32, i32)) -> bool {
    ball.0 > GAME_WIDTH || ball.0 + BALL_WIDTH < 0
}

/// The ball crosses the top or the bottom edge of the field.
pub open spec fn touching_top_or_bottom(ball: (i32, i32)) -> bool {
    ball.1 + BALL_HEIGHT > GAME_HEIGHT || ball.1 < 0
}

impl PongState {
    /// The state a match starts in: paddles at the top, ball centered, moving
    /// with the spawn velocity.
    pub open spec fn initial() -> PongState {
        PongState {
            p1: 0,
            p1_move: None,
            p2: 0,
            p2_move: None,
            ball: (CENTER_X, CENTER_Y),
            ball_vel: (SPAWN_VEL_X, SPAWN_VEL_Y),
        }
    }

    pub open spec fn paddles_in_bounds(self) -> bool {
        &&& 0 <= self.p1 <= MAX_PADDLE_Y
        &&& 0 <= self.p2 <= MAX_PADDLE_Y
    }

    /// The ball's next position fits in an `i32`, and so does every later one:
    /// a speed is bounded by how far an `i32` reaches past the field.
    pub open spec fn motion_fits(self) -> bool {
        &&& -(i32::MAX - GAME_WIDTH) <= self.ball_vel.0 <= i32::MAX - GAME_WIDTH
        &&& -(i32::MAX - GAME_HEIGHT) <= self.ball_vel.1 <= i32::MAX - GAME_HEIGHT
        &&& i32::MIN <= self.ball.0 + self.ball_vel.0 <= i32::MAX
        &&& i32::MIN <= self.ball.1 + self.ball_vel.1 <= i32::MAX
    }

    /// One tick of this state can be computed in `i32`: the moved ball fits,
    /// and either velocity component can change its sign.
    pub open spec fn can_tick(self) -> bool {
        &&& self.paddles_in_bounds()
        &&& i32::MIN <= self.ball.0 + self.ball_vel.0 <= i32::MAX
        &&& i32::MIN <= self.ball.1 + self.ball_vel.1 <= i32::MAX
        &&& self.ball_vel.0 != i32::MIN
        &&& self.ball_vel.1 != i32::MIN
    }

    /// A state that can be ticked forever.
    pub open spec fn wf(self) -> bool {
        self.paddles_in_bounds() && self.motion_fits()
    }

    /// The state after both paddles have applied their intents, which are
    /// remembered as the latest known moves.
    pub open spec fn with_moves(
        self,
        p1_move: Option<PlayerMovement>,
        p2_move: Option<PlayerMovement>,
    ) -> PongState {
        PongState {
            p1: moved_paddle(self.p1, p1_move),
            p1_move: p1_move,
            p2: moved_paddle(self.p2, p2_move),
            p2_move: p2_move,
            ..self
        }
    }

    /// The state after the ball has moved by its velocity.
    pub open spec fn with_ball_moved(self) -> PongState {
        PongState {
            ball: (
                (self.ball.0 + self.ball_vel.0) as i32,
                (self.ball.1 + self.ball_vel.1) as i32,
            ),
            ..self
        }
    }

    /// The ball moves toward a paddle it overlaps and has not yet gone past
    /// that paddle's half width.
    pub open spec fn bounces_off_paddle(self) -> bool {
        ||| (self.ball_vel.0 < 0 && self.ball.0 > HALF_PADDLE_WIDTH && ball_overlaps_paddle(
            self.ball,
            P1_X_POS,
            self.p1,
        ))
        ||| (self.ball_vel.0 > 0 && self.ball.0 < GAME_WIDTH - HALF_PADDLE_WIDTH
            && ball_overlaps_paddle(self.ball, P2_X_POS, self.p2))
    }

    /// Collision handling on a state whose ball has already moved: the first
    /// of reset, vertical bounce and paddle bounce that applies.
    pub open spec fn collided(self) -> PongState {
        if passed_a_paddle(self.ball) {
            PongState {
                ball: (CENTER_X, CENTER_Y),
                ball_vel: (SPAWN_VEL_X, SPAWN_VEL_Y),
                ..self
            }
        } else if touching_top_or_bottom(self.ball) {
            PongState { ball_vel: (self.ball_vel.0, (-self.ball_vel.1) as i32), ..self }
        } else if self.bounces_off_paddle() {
            PongState { ball_vel: ((-self.ball_vel.0) as i32, self.ball_vel.1), ..self }
        } else {
            self
        }
    }

    /// One simulation tick.
    pub open spec fn next(
        self,
        p1_move: Option<PlayerMovement>,
        p2_move: Option<PlayerMovement>,
    ) -> PongState {
        self.with_moves(p1_move, p2_move).with_ball_moved().collided()
    }

    /// The state after one tick per pair of intents, in order.
    pub open spec fn run(
        self,
        intents: Seq<(Option<PlayerMovement>, Option<PlayerMovement>)>,
    ) -> PongState
        decreases intents.len(),
    {
        if intents.len() == 0 {
            self
        } else {
            self.next(intents[0].0, intents[0].1).run(intents.subrange(1, intents.len() as int))
        }
    }

    pub fn new() -> (r: Self)
        ensures
            r == PongState::initial(),
            r.wf(),
    {
        Self {
            p1: 0,
            p1_move: None,
            p2: 0,
            p2_move: None,
            ball: (CENTER_X, CENTER_Y),
            ball_vel: (SPAWN_VEL_X, SPAWN_VEL_Y),
        }
    }

    /// Whether one tick of this state can be computed (`can_tick`).
    pub fn is_valid(&self) -> (r: bool)
        ensures
            r == self.can_tick(),
    {
        let nx = self.ball.0 as i64 + self.ball_vel.0 as i64;
        let ny = self.ball.1 as i64 + self.ball_vel.1 as i64;
        0 <= self.p1 && self.p1 <= MAX_PADDLE_Y && 0 <= self.p2 && self.p2 <= MAX_PADDLE_Y
            && i32::MIN as i64 <= nx && nx <= i32::MAX as i64 && i32::MIN as i64 <= ny && ny
            <= i32::MAX as i64 && self.ball_vel.0 != i32::MIN && self.ball_vel.1 != i32::MIN
    }

    /// Ticks with `p1_move` as player 1's intent and player 2's latest known
    /// move as theirs.
    pub fn extrapolate_p1(&mut self, p1_move: PlayerMovement)
        requires
            old(self).can_tick(),
        ensures
            *final(self) == old(self).next(Some(p1_move), old(self).p2_move),
            final(self).paddles_in_bounds(),
            old(self).wf() ==> final(self).wf(),
    {
        let p2_move = self.p2_move;
        self.tick(Some(p1_move), p2_move);
    }

    /// Ticks with `p2_move` as player 2's intent and player 1's latest known
    /// move as theirs.
    pub fn extrapolate_p2(&mut self, p2_move: PlayerMovement)
        requires
            old(self).can_tick(),
        ensures
            *final(self) == old(self).next(old(self).p1_move, Some(p2_move)),
            final(self).paddles_in_bounds(),
            old(self).wf() ==> final(self).wf(),
    {
        let p1_move = self.p1_move;
        self.tick(p1_move, Some(p2_move));
    }

    /// Advances the simulation by one tick. The result depends on the state
    /// and the two intents alone.
    pub fn tick(&mut self, p1_move: Option<PlayerMovement>, p2_move: Option<PlayerMovement>)
        requires
            old(self).can_tick(),
        ensures
            *final(self) == old(self).next(p1_move, p2_move),
            final(self).paddles_in_bounds(),
            old(self).wf() ==> final(self).wf(),
    {
        self.update_player_movements(p1_move, p2_move);
        self.update_ball_movement();

        if self.ball_passed_a_paddle() {
            self.reset();
        } else if self.ball_touching_top_or_bottom() {
            self.vertically_bounce_ball();
        } else if self.ball_touching_any_paddle() {
            self.horizontally_bounce_ball();
        }
    }

    fn move_paddle(pos: i32, m: Option<PlayerMovement>) -> (r: i32)
        ensures
            r == moved_paddle(pos, m),
    {
        match m {
            Some(PlayerMovement::Up) => {
                let p = pos as i64 - PLAYER_MOVE_UNIT as i64;
                if p < 0 {
                    0
                } else {
                    p as i32
                }
            },
            Some(PlayerMovement::Down) => {
                let p = pos as i64 + PLAYER_MOVE_UNIT as i64;
                if p > MAX_PADDLE_Y as i64 {
                    MAX_PADDLE_Y
                } else {
                    p as i32
                }
            },
            _ => pos,
        }
    }

    fn update_player_movements(
        &mut self,
        p1_move: Option<PlayerMovement>,
        p2_move: Option<PlayerMovement>,
    )
        ensures
            *final(self) == old(self).with_moves(p1_move, p2_move),
    {
        self.p1_move = p1_move;
        self.p1 = Self::move_paddle(self.p1, p1_move);
        self.p2_move = p2_move;
        self.p2 = Self::move_paddle(self.p2, p2_move);
    }

    fn reset(&mut self)
        ensures
            *final(self) == (PongState {
                ball: (CENTER_X, CENTER_Y),
                ball_vel: (SPAWN_VEL_X, SPAWN_VEL_Y),
                ..*old(self)
            }),
    {
        self.ball = (CENTER_X, CENTER_Y);
        self.ball_vel = (SPAWN_VEL_X, SPAWN_VEL_Y);
    }

    fn ball_passed_a_paddle(&self) -> (r: bool)
        ensures
            r == passed_a_paddle(self.ball),
    {
        self.ball.0 > GAME_WIDTH || (self.ball.0 as i64 + BALL_WIDTH as i64) < 0
    }

    fn ball_touching_top_or_bottom(&self) -> (r: bool)
        ensures
            r == touching_top_or_bottom(self.ball),
    {
        (self.ball.1 as i64 + BALL_HEIGHT as i64) > GAME_HEIGHT as i64 || self.ball.1 < 0
    }

    /// Whether a ball at `ball` overlaps the paddle at (`paddle_x`, `paddle_y`).
    fn overlaps_paddle(ball: (i32, i32), paddle_x: i32, paddle_y: i32) -> (r: bool)
        ensures
            r == ball_overlaps_paddle(ball, paddle_x, paddle_y),
    {
        let bx = ball.0 as i64;
        let by = ball.1 as i64;
        let px = paddle_x as i64;
        let py = paddle_y as i64;
        bx <= px + PADDLE_WIDTH as i64 && bx + BALL_WIDTH as i64 >= px && by <= py
            + PADDLE_HEIGHT as i64 && by + BALL_HEIGHT as i64 >= py
    }

    fn ball_touching_any_paddle(&self) -> (r: bool)
        ensures
            r == self.bounces_off_paddle(),
    {
        // Only a ball that moves toward a paddle and has not yet passed its
        // middle bounces: one already inside or behind it must not flip its
        // velocity back and forth on every tick.
        let towards_left_paddle = self.ball_vel.0 < 0 && self.ball.0 > HALF_PADDLE_WIDTH;
        let towards_right_paddle = self.ball_vel.0 > 0 && self.ball.0 < (GAME_WIDTH
            - HALF_PADDLE_WIDTH);

        (towards_left_paddle && Self::overlaps_paddle(self.ball, P1_X_POS, self.p1)) || (
        towards_right_paddle && Self::overlaps_paddle(self.ball, P2_X_POS, self.p2))
    }

    fn vertically_bounce_ball(&mut self)
        requires
            old(self).ball_vel.1 != i32::MIN,
        ensures
            *final(self) == (PongState {
                ball_vel: (old(self).ball_vel.0, (-old(self).ball_vel.1) as i32),
                ..*old(self)
            }),
    {
        self.ball_vel = (self.ball_vel.0, -self.ball_vel.1);
    }

    fn horizontally_bounce_ball(&mut self)
        requires
            old(self).ball_vel.0 != i32::MIN,
        ensures
            *final(self) == (PongState {
                ball_vel: ((-old(self).ball_vel.0) as i32, old(self).ball_vel.1),
                ..*old(self)
            }),
    {
        self.ball_vel = (-self.ball_vel.0, self.ball_vel.1);
    }

    fn update_ball_movement(&mut self)
        requires
            i32::MIN <= old(self).ball.0 + old(self).ball_vel.0 <= i32::MAX,
            i32::MIN <= old(self).ball.1 + old(self).ball_vel.1 <= i32::MAX,
        ensures
            *final(self) == old(self).with_ball_moved(),
    {
        self.ball = (self.ball.0 + self.ball_vel.0, self.ball.1 + self.ball_vel.1);
    }
}

/// Determinism: two equal states ticked with equal intents give equal states.
pub proof fn lemma_tick_deterministic(
    a: PongState,
    b: PongState,
    p1_move: Option<PlayerMovement>,
    p2_move: Option<PlayerMovement>,
)
    requires
        a == b,
    ensures
        a.next(p1_move, p2_move) == b.next(p1_move, p2_move),
{
}

/// Paddle bounds: from a state whose paddles are in bounds, the paddles stay
/// within `[0, MAX_PADDLE_Y]` whatever intents are applied, tick after tick.
pub proof fn lemma_paddles_stay_in_bounds(
    s: PongState,
    intents: Seq<(Option<PlayerMovement>, Option<PlayerMovement>)>,
)
    requires
        s.paddles_in_bounds(),
    ensures
        s.run(intents).paddles_in_bounds(),
    decreases intents.len(),
{
    if intents.len() > 0 {
        lemma_paddles_stay_in_bounds(
            s.next(intents[0].0, intents[0].1),
            intents.subrange(1, intents.len() as int),
        );
    }
}

/// Reset: when the moved ball has fully left the field on either side, the
/// tick puts it at the center with the spawn velocity, whatever its velocity
/// was.
pub proof fn lemma_reset_on_pass(
    s: PongState,
    p1_move: Option<PlayerMovement>,
    p2_move: Option<PlayerMovement>,
)
    requires
        passed_a_paddle(s.with_moves(p1_move, p2_move).with_ball_moved().ball),
    ensures
        s.next(p1_move, p2_move).ball == (CENTER_X, CENTER_Y),
        s.next(p1_move, p2_move).ball_vel == (SPAWN_VEL_X, SPAWN_VEL_Y),
{
}

/// Vertical bounce: when the moved ball crosses the top or the bottom edge,
/// a reset takes priority; otherwise only the sign of the vertical velocity
/// changes, and the moved position and the horizontal velocity are kept.
pub proof fn lemma_vertical_bounce(
    s: PongState,
    p1_move: Option<PlayerMovement>,
    p2_move: Option<PlayerMovement>,
)
    requires
        s.can_tick(),
        touching_top_or_bottom(s.with_moves(p1_move, p2_move).with_ball_moved().ball),
    ensures
        ({
            let moved = s.with_moves(p1_move, p2_move).with_ball_moved();
            let n = s.next(p1_move, p2_move);
            &&& passed_a_paddle(moved.ball) ==> n.ball_vel == (SPAWN_VEL_X, SPAWN_VEL_Y)
                && n.ball == (CENTER_X, CENTER_Y)
            &&& !passed_a_paddle(moved.ball) ==> n.ball == moved.ball && n.ball_vel.0
                == s.ball_vel.0 && n.ball_vel.1 == -s.ball_vel.1
        }),
{
}

/// Paddle-bounce guard: a moved ball that overlaps a paddle while moving
/// away from it keeps its horizontal velocity.
pub proof fn lemma_no_bounce_moving_away(
    s: PongState,
    p1_move: Option<PlayerMovement>,
    p2_move: Option<PlayerMovement>,
)
    requires
        ({
            let moved = s.with_moves(p1_move, p2_move).with_ball_moved();
            ||| ball_overlaps_paddle(moved.ball, P1_X_POS, moved.p1) && s.ball_vel.0 > 0
            ||| ball_overlaps_paddle(moved.ball, P2_X_POS, moved.p2) && s.ball_vel.0 < 0
        }),
    ensures
        s.next(p1_move, p2_move).ball_vel.0 == s.ball_vel.0,
{
}

/// Paddle-bounce guard: a moved ball that is still in the field and moves
/// toward a paddle, but has already gone past that paddle's half width, keeps
/// its horizontal velocity.
pub proof fn lemma_no_bounce_past_half_width(
    s: PongState,
    p1_move: Option<PlayerMovement>,
    p2_move: Option<PlayerMovement>,
)
    requires
        ({
            let moved = s.with_moves(p1_move, p2_move).with_ball_moved();
            !passed_a_paddle(moved.ball) && (s.ball_vel.0 < 0 && moved.ball.0 <= HALF_PADDLE_WIDTH
                || s.ball_vel.0 > 0 && moved.ball.0 >= GAME_WIDTH - HALF_PADDLE_WIDTH)
        }),
    ensures
        s.next(p1_move, p2_move).ball_vel.0 == s.ball_vel.0,
{
}

} // verus!
