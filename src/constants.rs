use vstd::prelude::*;

verus! {

pub const GAME_WIDTH: i32 = 640;

pub const GAME_HEIGHT: i32 = 480;

pub const PADDLE_WIDTH: i32 = 25;

pub const PADDLE_HEIGHT: i32 = 100;

/// `PADDLE_WIDTH / 2`, rounded down.
pub const HALF_PADDLE_WIDTH: i32 = 12;

pub const BALL_WIDTH: i32 = 25;

pub const BALL_HEIGHT: i32 = 25;

/// How far a paddle moves in one tick.
pub const PLAYER_MOVE_UNIT: i32 = 5;

/// The largest vertical offset a paddle may have.
pub const MAX_PADDLE_Y: i32 = GAME_HEIGHT - PADDLE_HEIGHT;

// Horizontal positions of the paddles.
pub const P1_X_POS: i32 = 0;

pub const P2_X_POS: i32 = GAME_WIDTH - PADDLE_WIDTH;

/// Where a ball spawns: the middle of the field.
pub const CENTER_X: i32 = 320;

pub const CENTER_Y: i32 = 240;

/// Velocity of a freshly spawned ball.
pub const SPAWN_VEL_X: i32 = 5;

pub const SPAWN_VEL_Y: i32 = 7;

pub const CLIENT_UPDATES_PER_SECOND: u64 = 60;

/// `1000 / CLIENT_UPDATES_PER_SECOND`, rounded down.
pub const MS_PER_UPDATE: u64 = 16;

pub const MS_PER_PING: u64 = 500;

pub const MS_PER_STATE_BROADCAST: u64 = 50;

/// Pause between iterations while the server waits for players.
pub const MS_PER_MATCHMAKING_POLL: u64 = 500;

} // verus!
