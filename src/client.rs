use vstd::prelude::*;

use crate::constants::MS_PER_UPDATE;
use crate::messages::{ClientMsg, PlayerOrder, ServerMsg};
use crate::pong_state::{PlayerMovement, PongState};
use crate::session::elapsed_ms;

verus! {

/// The keys a human player steers with.
#[derive(Debug, Clone, Copy, PartialEq, Eq, Structural)]
pub enum Key {
    Up,
    Down,
}

/// Sending to the server failed.
#[derive(Debug)]
pub enum ConnectionError {
    FailedToSend(String),
}

/// A client's view of the game: its slot, its latest (possibly locally
/// extrapolated) snapshot and the keys held down.
#[derive(Debug, Clone, Copy)]
pub struct ClientGame {
    /// The latest snapshot, unset until the server sends one.
    pub pong_state: Option<PongState>,
    /// Which paddle this client controls, unset until the server says.
    pub player: Option<PlayerOrder>,
    pub up: bool,
    pub down: bool,
    /// Whether the client plays by itself.
    pub cpu: bool,
    /// When the last local tick ran, in milliseconds.
    pub last_update: u64,
}

/// The reply a client owes to a message from the server.
pub open spec fn reply_to(msg: ServerMsg) -> Option<ClientMsg> {
    match msg {
        ServerMsg::Ping => Some(ClientMsg::Pong),
        ServerMsg::Abort => Some(ClientMsg::Hi),
        _ => None,
    }
}

/// The replies owed to `msgs`, in order.
pub open spec fn replies(msgs: Seq<ServerMsg>) -> Seq<ClientMsg>
    decreases msgs.len(),
{
    if msgs.len() == 0 {
        seq![]
    } else {
        replies(msgs.drop_last()) + match reply_to(msgs.last()) {
            Some(m) => seq![m],
            None => seq![],
        }
    }
}

impl ClientGame {
    pub open spec fn spec_movement(self) -> PlayerMovement {
        if self.up && !self.down {
            PlayerMovement::Up
        } else if self.down && !self.up {
            PlayerMovement::Down
        } else {
            PlayerMovement::Still
        }
    }

    /// The view after one message from the server. A snapshot replaces the
    /// whole local view, whatever was predicted before it.
    pub open spec fn after_msg(self, msg: ServerMsg) -> ClientGame {
        match msg {
            ServerMsg::Start(order) => ClientGame { player: Some(order), ..self },
            ServerMsg::State(s) => ClientGame { pong_state: Some(s), ..self },
            ServerMsg::Abort => ClientGame { pong_state: None, player: None, ..self },
            _ => self,
        }
    }

    pub open spec fn after_msgs(self, msgs: Seq<ServerMsg>) -> ClientGame
        decreases msgs.len(),
    {
        if msgs.len() == 0 {
            self
        } else {
            self.after_msgs(msgs.drop_last()).after_msg(msgs.last())
        }
    }

    /// The view after one local tick of prediction: the own paddle follows the
    /// held keys, the other one its latest known move. A snapshot whose next
    /// tick cannot be computed in `i32` stays as it is.
    pub open spec fn extrapolated(self) -> ClientGame {
        match (self.pong_state, self.player) {
            (Some(s), _) if !s.can_tick() => self,
            (Some(s), Some(PlayerOrder::P1)) => ClientGame {
                pong_state: Some(s.next(Some(self.spec_movement()), s.p2_move)),
                ..self
            },
            (Some(s), Some(PlayerOrder::P2)) => ClientGame {
                pong_state: Some(s.next(s.p1_move, Some(self.spec_movement()))),
                ..self
            },
            _ => self,
        }
    }

    pub open spec fn ball_moving_away(self) -> bool {
        match (self.pong_state, self.player) {
            (Some(s), Some(PlayerOrder::P1)) => s.ball_vel.0 > 0,
            (Some(s), Some(PlayerOrder::P2)) => s.ball_vel.0 < 0,
            _ => false,
        }
    }

    pub open spec fn ball_above_me(self) -> bool {
        match (self.pong_state, self.player) {
            (Some(s), Some(PlayerOrder::P1)) => s.ball.1 < s.p1,
            (Some(s), Some(PlayerOrder::P2)) => s.ball.1 < s.p2,
            _ => false,
        }
    }

    /// The keys a computer player holds: toward the ball while it comes
    /// closer, none while it moves away.
    pub open spec fn cpu_moved(self) -> ClientGame {
        if !self.cpu {
            self
        } else if !self.ball_moving_away() {
            ClientGame { up: self.ball_above_me(), down: !self.ball_above_me(), ..self }
        } else {
            ClientGame { up: false, down: false, ..self }
        }
    }

    /// The move message a human player sends for its held keys.
    pub open spec fn move_seq(self) -> Seq<ClientMsg> {
        if self.cpu {
            seq![]
        } else {
            match self.spec_movement() {
                PlayerMovement::Up => seq![ClientMsg::MoveUp],
                PlayerMovement::Down => seq![ClientMsg::MoveDown],
                PlayerMovement::Still => seq![],
            }
        }
    }

    pub fn new(cpu: bool, now_ms: u64) -> (r: Self)
        ensures
            r == (ClientGame {
                pong_state: None,
                player: None,
                up: false,
                down: false,
                cpu,
                last_update: now_ms,
            }),
    {
        Self { cpu, player: None, pong_state: None, up: false, down: false, last_update: now_ms }
    }

    /// Whether a local tick is due at `now_ms`; calls in between are skipped.
    pub fn update_due(&self, now_ms: u64) -> (r: bool)
        ensures
            r == (elapsed_ms(now_ms, self.last_update) >= MS_PER_UPDATE),
    {
        now_ms >= self.last_update && now_ms - self.last_update >= MS_PER_UPDATE
    }

    /// One local tick at `now_ms`, given every message drained from the server
    /// since the last one, in order. Returns what to send, in order: the
    /// replies owed, then a human player's move.
    pub fn game_loop(&mut self, inbox: &Vec<ServerMsg>, now_ms: u64) -> (r: Vec<ClientMsg>)
        ensures
            ({
                let polled = old(self).after_msgs(inbox@).extrapolated();
                let steered = if polled.pong_state is Some {
                    polled.cpu_moved()
                } else {
                    polled
                };
                &&& *final(self) == (ClientGame { last_update: now_ms, ..steered })
                &&& r@ == replies(inbox@) + if polled.pong_state is Some {
                    steered.move_seq()
                } else {
                    seq![]
                }
            }),
    {
        let mut out = self.poll_server_events(inbox);
        self.extrapolate();

        if self.game_has_started() {
            self.update_cpu_movement();
            if !self.cpu {
                if self.moving_up() {
                    out.push(ClientMsg::MoveUp);
                } else if self.moving_down() {
                    out.push(ClientMsg::MoveDown);
                }
            }
        }
        self.last_update = now_ms;
        out
    }

    pub fn moving_up(&self) -> (r: bool)
        ensures
            r == (self.spec_movement() == PlayerMovement::Up),
    {
        self.up && !self.down
    }

    pub fn moving_down(&self) -> (r: bool)
        ensures
            r == (self.spec_movement() == PlayerMovement::Down),
    {
        self.down && !self.up
    }

    /// The intent the held keys stand for.
    pub fn movement(&self) -> (r: PlayerMovement)
        ensures
            r == self.spec_movement(),
    {
        if self.moving_up() {
            PlayerMovement::Up
        } else if self.moving_down() {
            PlayerMovement::Down
        } else {
            PlayerMovement::Still
        }
    }

    pub fn game_has_started(&self) -> (r: bool)
        ensures
            r == self.pong_state is Some,
    {
        self.pong_state.is_some()
    }

    fn abort_game(&mut self)
        ensures
            *final(self) == (ClientGame { pong_state: None, player: None, ..*old(self) }),
    {
        self.pong_state = None;
        self.player = None;
    }

    fn update_cpu_movement(&mut self)
        ensures
            *final(self) == old(self).cpu_moved(),
    {
        if !self.cpu {
            return;
        }
        if !self.is_ball_moving_away() {
            let above = self.is_ball_above_me();
            self.up = above;
            self.down = !above;
        } else {
            self.up = false;
            self.down = false;
        }
    }

    pub fn is_ball_moving_away(&self) -> (r: bool)
        ensures
            r == self.ball_moving_away(),
    {
        match (self.pong_state, self.player) {
            (Some(s), Some(PlayerOrder::P1)) => s.ball_vel.0 > 0,
            (Some(s), Some(PlayerOrder::P2)) => s.ball_vel.0 < 0,
            _ => false,
        }
    }

    pub fn is_ball_above_me(&self) -> (r: bool)
        ensures
            r == self.ball_above_me(),
    {
        match (self.pong_state, self.player) {
            (Some(s), Some(PlayerOrder::P1)) => s.ball.1 < s.p1,
            (Some(s), Some(PlayerOrder::P2)) => s.ball.1 < s.p2,
            _ => false,
        }
    }

    /// Applies one message from the server and returns the reply it asks
    /// for, if any.
    pub fn receive(&mut self, msg: ServerMsg) -> (r: Option<ClientMsg>)
        ensures
            *final(self) == old(self).after_msg(msg),
            r == reply_to(msg),
    {
        match msg {
            ServerMsg::Start(order) => {
                self.player = Some(order);
                None
            },
            ServerMsg::State(state) => {
                self.pong_state = Some(state);
                None
            },
            ServerMsg::Abort => {
                self.abort_game();
                Some(ClientMsg::Hi)
            },
            ServerMsg::Ping => Some(ClientMsg::Pong),
            _ => None,
        }
    }

    /// Applies every message drained from the server, in order, and returns
    /// the replies they ask for, in order.
    pub fn poll_server_events(&mut self, inbox: &Vec<ServerMsg>) -> (r: Vec<ClientMsg>)
        ensures
            *final(self) == old(self).after_msgs(inbox@),
            r@ == replies(inbox@),
    {
        let mut out: Vec<ClientMsg> = Vec::new();
        let mut i: usize = 0;
        while i < inbox.len()
            invariant
                0 <= i <= inbox@.len(),
                *self == old(self).after_msgs(inbox@.take(i as int)),
                out@ == replies(inbox@.take(i as int)),
            decreases inbox@.len() - i,
        {
            let reply = self.receive(inbox[i]);
            if let Some(m) = reply {
                out.push(m);
            }
            assert(inbox@.take(i + 1).drop_last() =~= inbox@.take(i as int));
            i += 1;
        }
        assert(inbox@.take(inbox@.len() as int) =~= inbox@);
        out
    }

    /// Runs one tick of local prediction on the snapshot, if there is one, the
    /// slot is known and the tick can be computed.
    pub fn extrapolate(&mut self)
        ensures
            *final(self) == old(self).extrapolated(),
    {
        let movement = self.movement();
        let player = self.player;
        if let Some(state) = &mut self.pong_state {
            if !state.is_valid() {
                return;
            }
            match player {
                Some(PlayerOrder::P1) => {
                    state.extrapolate_p1(movement);
                },
                Some(PlayerOrder::P2) => {
                    state.extrapolate_p2(movement);
                },
                None => {},
            }
        }
    }

    /// A key went down. A computer player ignores the keyboard.
    pub fn key_down(&mut self, key: Key)
        ensures
            *final(self) == if old(self).cpu {
                *old(self)
            } else {
                match key {
                    Key::Up => ClientGame { up: true, ..*old(self) },
                    Key::Down => ClientGame { down: true, ..*old(self) },
                }
            },
    {
        if self.cpu {
            return;
        }
        match key {
            Key::Up => { self.up = true },
            Key::Down => { self.down = true },
        }
    }

    /// A key went up. A computer player ignores the keyboard.
    pub fn key_up(&mut self, key: Key)
        ensures
            *final(self) == if old(self).cpu {
                *old(self)
            } else {
                match key {
                    Key::Up => ClientGame { up: false, ..*old(self) },
                    Key::Down => ClientGame { down: false, ..*old(self) },
                }
            },
    {
        if self.cpu {
            return;
        }
        match key {
            Key::Up => { self.up = false },
            Key::Down => { self.down = false },
        }
    }
}

/// A snapshot from the server replaces the whole local view, however far
/// local prediction had moved it: nothing predicted survives. The next local
/// tick then predicts exactly one tick beyond that snapshot, when that tick can
/// be computed.
pub proof fn lemma_snapshot_replaces_prediction(g: ClientGame, snapshot: PongState)
    ensures
        g.after_msg(ServerMsg::State(snapshot)).pong_state == Some(snapshot),
        snapshot.can_tick() && g.player == Some(PlayerOrder::P1) ==> g.after_msg(
            ServerMsg::State(snapshot),
        ).extrapolated().pong_state == Some(
            snapshot.next(Some(g.spec_movement()), snapshot.p2_move),
        ),
        snapshot.can_tick() && g.player == Some(PlayerOrder::P2) ==> g.after_msg(
            ServerMsg::State(snapshot),
        ).extrapolated().pong_state == Some(
            snapshot.next(snapshot.p1_move, Some(g.spec_movement())),
        ),
        !snapshot.can_tick() ==> g.after_msg(ServerMsg::State(snapshot)).extrapolated().pong_state
            == Some(snapshot),
{
}

} // verus!
