use vstd::prelude::*;

use crate::constants::{
    MS_PER_MATCHMAKING_POLL, MS_PER_PING, MS_PER_STATE_BROADCAST, MS_PER_UPDATE,
};
use crate::messages::{ClientMsg, PeerId, PlayerOrder, ServerMsg};
use crate::pong_state::{PlayerMovement, PongState};

verus! {

/// A message the server received, with its sender.
#[derive(Debug, Clone, Copy, PartialEq, Eq, Structural)]
pub struct Inbound {
    pub from: PeerId,
    pub msg: ClientMsg,
}

/// A message the server is to send, with its recipient.
#[derive(Debug, Clone, Copy)]
pub struct Outbound {
    pub to: PeerId,
    pub msg: ServerMsg,
}

/// Milliseconds from `since` to `now`; zero if the clock reads earlier.
pub open spec fn elapsed_ms(now: u64, since: u64) -> int {
    if now >= since {
        now - since
    } else {
        0
    }
}

fn elapsed(now: u64, since: u64) -> (r: u64)
    ensures
        r == elapsed_ms(now, since),
{
    if now >= since {
        now - since
    } else {
        0
    }
}

/// A peer of the match leaves it: the transport reports it timed out or
/// disconnected.
pub open spec fn is_leave(ev: Inbound, p1: PeerId, p2: PeerId) -> bool {
    &&& (ev.msg is Timeout || ev.msg is Disconnect)
    &&& (ev.from == p1 || ev.from == p2)
}

pub open spec fn any_leave(inbox: Seq<Inbound>, p1: PeerId, p2: PeerId) -> bool {
    exists|i: int| 0 <= i < inbox.len() && #[trigger] is_leave(inbox[i], p1, p2)
}

/// The intent of `peer` for this tick: its last move message among `inbox`,
/// or none.
pub open spec fn intent_of(inbox: Seq<Inbound>, peer: PeerId) -> Option<PlayerMovement>
    decreases inbox.len(),
{
    if inbox.len() == 0 {
        None
    } else if inbox.last().from == peer && inbox.last().msg is MoveUp {
        Some(PlayerMovement::Up)
    } else if inbox.last().from == peer && inbox.last().msg is MoveDown {
        Some(PlayerMovement::Down)
    } else {
        intent_of(inbox.drop_last(), peer)
    }
}

/// The server waits for a first player to say hi.
#[derive(Debug, Clone, Copy)]
pub struct WaitingForP1 {}

/// The server has one player and waits for a second, different one.
#[derive(Debug, Clone, Copy)]
pub struct WaitingForP2 {
    pub p1: PeerId,
}

/// A match between two peers is under way.
#[derive(Debug, Clone, Copy)]
pub struct Running {
    pub p1: PeerId,
    pub p2: PeerId,
    /// What each player asked for during the current tick. Intents are not
    /// carried over: a player keeps moving only by asking on every tick.
    pub p1_move: Option<PlayerMovement>,
    pub p2_move: Option<PlayerMovement>,
    pub pong_state: PongState,
    /// When the players were last pinged, in milliseconds.
    pub last_ping: u64,
    /// When the state was last broadcast, in milliseconds.
    pub last_state_broadcast: u64,
}

/// The server's session: exactly one of its states is live.
#[derive(Debug, Clone, Copy)]
pub enum ServerState {
    WaitingForP1(WaitingForP1),
    WaitingForP2(WaitingForP2),
    Running(Running),
}

/// What one tick of a running match decided: the state to move to, if any,
/// and the messages to send, in order.
#[derive(Debug)]
pub struct Step {
    pub next: Option<ServerState>,
    pub outbox: Vec<Outbound>,
}

impl ServerState {
    pub open spec fn wf(self) -> bool {
        match self {
            ServerState::Running(r) => r.wf(),
            _ => true,
        }
    }

    /// The messages to send when this state is entered.
    pub open spec fn entry_messages(self) -> Seq<Outbound> {
        match self {
            ServerState::Running(r) => r.start_seq(),
            _ => seq![],
        }
    }

    /// The session a server starts in.
    pub fn new() -> (r: Self)
        ensures
            r == ServerState::WaitingForP1(WaitingForP1 {}),
    {
        ServerState::WaitingForP1(WaitingForP1::new())
    }

    pub fn on_enter(&self) -> (r: Vec<Outbound>)
        ensures
            r@ == self.entry_messages(),
    {
        match self {
            ServerState::Running(r) => r.start_messages(),
            _ => Vec::new(),
        }
    }

    /// How long to pause between two iterations in this state.
    pub fn sleep_time_ms(&self) -> (r: u64)
        ensures
            r == match self {
                ServerState::Running(_) => MS_PER_UPDATE,
                _ => MS_PER_MATCHMAKING_POLL,
            },
    {
        match self {
            ServerState::WaitingForP1(s) => s.sleep_time_ms(),
            ServerState::WaitingForP2(s) => s.sleep_time_ms(),
            ServerState::Running(s) => s.sleep_time_ms(),
        }
    }

    /// How long to pause after an iteration that took `spent_ms`: a running
    /// match sleeps only what is left of its tick, the waiting states a fixed
    /// interval.
    pub fn pause_ms(&self, spent_ms: u64) -> (r: u64)
        ensures
            r == match self {
                ServerState::Running(_) => if spent_ms >= MS_PER_UPDATE {
                    0
                } else {
                    (MS_PER_UPDATE - spent_ms) as u64
                },
                _ => MS_PER_MATCHMAKING_POLL,
            },
    {
        let interval = self.sleep_time_ms();
        match self {
            ServerState::Running(_) => if spent_ms >= interval {
                0
            } else {
                interval - spent_ms
            },
            _ => interval,
        }
    }
}

impl WaitingForP1 {
    pub fn new() -> (r: Self)
        ensures
            r == (WaitingForP1 {}),
    {
        Self {}
    }

    pub fn sleep_time_ms(&self) -> (r: u64)
        ensures
            r == MS_PER_MATCHMAKING_POLL,
    {
        MS_PER_MATCHMAKING_POLL
    }

    /// Handles what one poll brought: a hi from a peer makes it the first
    /// player; everything else is ignored.
    pub fn update(&self, event: Option<Inbound>) -> (r: Option<ServerState>)
        ensures
            r == match event {
                Some(ev) => if ev.msg is Hi {
                    Some(ServerState::WaitingForP2(WaitingForP2 { p1: ev.from }))
                } else {
                    None
                },
                None => None,
            },
    {
        match event {
            Some(Inbound { from, msg: ClientMsg::Hi }) => Some(
                ServerState::WaitingForP2(WaitingForP2::new(from)),
            ),
            _ => None,
        }
    }
}

impl WaitingForP2 {
    pub fn new(p1: PeerId) -> (r: Self)
        ensures
            r.p1 == p1,
    {
        Self { p1 }
    }

    pub fn sleep_time_ms(&self) -> (r: u64)
        ensures
            r == MS_PER_MATCHMAKING_POLL,
    {
        MS_PER_MATCHMAKING_POLL
    }

    /// The ping sent to the first player before each poll.
    pub fn ping(&self) -> (r: Outbound)
        ensures
            r == (Outbound { to: self.p1, msg: ServerMsg::Ping }),
    {
        Outbound { to: self.p1, msg: ServerMsg::Ping }
    }

    /// Handles what one poll brought, at time `now_ms`: a hi from another
    /// peer starts a match, a hi from the first player again is ignored, and
    /// a timeout or disconnect from any peer drops the first player.
    pub fn update(&self, event: Option<Inbound>, now_ms: u64) -> (r: Option<ServerState>)
        ensures
            r == match event {
                Some(ev) => if ev.msg is Hi && ev.from != self.p1 {
                    Some(ServerState::Running(Running::initial(self.p1, ev.from, now_ms)))
                } else if ev.msg is Timeout || ev.msg is Disconnect {
                    Some(ServerState::WaitingForP1(WaitingForP1 {}))
                } else {
                    None
                },
                None => None,
            },
            r matches Some(s) ==> s.wf(),
    {
        match event {
            Some(Inbound { from, msg: ClientMsg::Hi }) => {
                if from != self.p1 {
                    Some(ServerState::Running(Running::new(self.p1, from, now_ms)))
                } else {
                    None
                }
            },
            Some(Inbound { from: _, msg: ClientMsg::Timeout })
            | Some(Inbound { from: _, msg: ClientMsg::Disconnect }) => {
                Some(ServerState::WaitingForP1(WaitingForP1::new()))
            },
            _ => None,
        }
    }
}

impl Running {
    /// Two different peers, and a state that can be ticked forever.
    pub open spec fn wf(self) -> bool {
        self.p1 != self.p2 && self.pong_state.wf()
    }

    pub open spec fn initial(p1: PeerId, p2: PeerId, now_ms: u64) -> Running {
        Running {
            p1,
            p2,
            p1_move: None,
            p2_move: None,
            pong_state: PongState::initial(),
            last_ping: now_ms,
            last_state_broadcast: now_ms,
        }
    }

    pub open spec fn start_seq(self) -> Seq<Outbound> {
        seq![
            Outbound { to: self.p1, msg: ServerMsg::Start(PlayerOrder::P1) },
            Outbound { to: self.p2, msg: ServerMsg::Start(PlayerOrder::P2) },
        ]
    }

    pub open spec fn abort_seq(self) -> Seq<Outbound> {
        seq![
            Outbound { to: self.p1, msg: ServerMsg::Abort },
            Outbound { to: self.p2, msg: ServerMsg::Abort },
        ]
    }

    pub open spec fn ping_due(self, now_ms: u64) -> bool {
        elapsed_ms(now_ms, self.last_ping) >= MS_PER_PING
    }

    pub open spec fn broadcast_due(self, now_ms: u64) -> bool {
        elapsed_ms(now_ms, self.last_state_broadcast) >= MS_PER_STATE_BROADCAST
    }

    /// The pings owed at `now_ms`.
    pub open spec fn ping_seq(self, now_ms: u64) -> Seq<Outbound> {
        if self.ping_due(now_ms) {
            seq![
                Outbound { to: self.p1, msg: ServerMsg::Ping },
                Outbound { to: self.p2, msg: ServerMsg::Ping },
            ]
        } else {
            seq![]
        }
    }

    /// The state broadcast owed at `now_ms`.
    pub open spec fn broadcast_seq(self, now_ms: u64) -> Seq<Outbound> {
        if self.broadcast_due(now_ms) {
            seq![
                Outbound { to: self.p1, msg: ServerMsg::State(self.pong_state) },
                Outbound { to: self.p2, msg: ServerMsg::State(self.pong_state) },
            ]
        } else {
            seq![]
        }
    }

    /// A fresh match between `p1` and `p2` that starts at `now_ms`.
    pub fn new(p1: PeerId, p2: PeerId, now_ms: u64) -> (r: Self)
        requires
            p1 != p2,
        ensures
            r == Running::initial(p1, p2, now_ms),
            r.wf(),
    {
        Self {
            p1,
            p2,
            p1_move: None,
            p2_move: None,
            pong_state: PongState::new(),
            last_ping: now_ms,
            last_state_broadcast: now_ms,
        }
    }

    pub fn sleep_time_ms(&self) -> (r: u64)
        ensures
            r == MS_PER_UPDATE,
    {
        MS_PER_UPDATE
    }

    /// Tells each peer which paddle it controls.
    pub fn start_messages(&self) -> (r: Vec<Outbound>)
        ensures
            r@ == self.start_seq(),
    {
        let mut v: Vec<Outbound> = Vec::new();
        v.push(Outbound { to: self.p1, msg: ServerMsg::Start(PlayerOrder::P1) });
        v.push(Outbound { to: self.p2, msg: ServerMsg::Start(PlayerOrder::P2) });
        v
    }

    fn maybe_ping_clients(&mut self, now_ms: u64, out: &mut Vec<Outbound>)
        ensures
            final(out)@ == old(out)@ + old(self).ping_seq(now_ms),
            *final(self) == (Running {
                last_ping: if old(self).ping_due(now_ms) {
                    now_ms
                } else {
                    old(self).last_ping
                },
                ..*old(self)
            }),
    {
        if elapsed(now_ms, self.last_ping) >= MS_PER_PING {
            out.push(Outbound { to: self.p1, msg: ServerMsg::Ping });
            out.push(Outbound { to: self.p2, msg: ServerMsg::Ping });
            self.last_ping = now_ms;
        }
    }

    fn maybe_send_pong_state(&mut self, now_ms: u64, out: &mut Vec<Outbound>)
        ensures
            final(out)@ == old(out)@ + old(self).broadcast_seq(now_ms),
            *final(self) == (Running {
                last_state_broadcast: if old(self).broadcast_due(now_ms) {
                    now_ms
                } else {
                    old(self).last_state_broadcast
                },
                ..*old(self)
            }),
    {
        if elapsed(now_ms, self.last_state_broadcast) >= MS_PER_STATE_BROADCAST {
            out.push(Outbound { to: self.p1, msg: ServerMsg::State(self.pong_state) });
            out.push(Outbound { to: self.p2, msg: ServerMsg::State(self.pong_state) });
            self.last_state_broadcast = now_ms;
        }
    }

    /// One tick of the match at time `now_ms`, given every message drained
    /// since the last tick, in order of arrival.
    ///
    /// If either player timed out or disconnected, both are told to abort and
    /// the server goes back to waiting for a first player. Otherwise the
    /// simulation advances by one tick with each player's last move of this
    /// tick, then pings and the state broadcast go out when they are due.
    pub fn update(&mut self, inbox: &Vec<Inbound>, now_ms: u64) -> (r: Step)
        requires
            old(self).wf(),
        ensures
            final(self).wf(),
            final(self).p1 == old(self).p1,
            final(self).p2 == old(self).p2,
            any_leave(inbox@, old(self).p1, old(self).p2) ==> {
                &&& r.next == Some(ServerState::WaitingForP1(WaitingForP1 {}))
                &&& r.outbox@ == old(self).abort_seq()
            },
            !any_leave(inbox@, old(self).p1, old(self).p2) ==> {
                let ticked = Running {
                    p1_move: None,
                    p2_move: None,
                    pong_state: old(self).pong_state.next(
                        intent_of(inbox@, old(self).p1),
                        intent_of(inbox@, old(self).p2),
                    ),
                    ..*old(self)
                };
                &&& r.next is None
                &&& r.outbox@ == ticked.ping_seq(now_ms) + ticked.broadcast_seq(now_ms)
                &&& *final(self) == (Running {
                    last_ping: if ticked.ping_due(now_ms) {
                        now_ms
                    } else {
                        ticked.last_ping
                    },
                    last_state_broadcast: if ticked.broadcast_due(now_ms) {
                        now_ms
                    } else {
                        ticked.last_state_broadcast
                    },
                    ..ticked
                })
            },
    {
        self.p1_move = None;
        self.p2_move = None;
        let mut i: usize = 0;
        while i < inbox.len()
            invariant
                self.wf(),
                self.p1 == old(self).p1,
                self.p2 == old(self).p2,
                self.pong_state == old(self).pong_state,
                self.last_ping == old(self).last_ping,
                self.last_state_broadcast == old(self).last_state_broadcast,
                0 <= i <= inbox@.len(),
                forall|j: int| 0 <= j < i ==> !#[trigger] is_leave(inbox@[j], self.p1, self.p2),
                self.p1_move == intent_of(inbox@.take(i as int), self.p1),
                self.p2_move == intent_of(inbox@.take(i as int), self.p2),
            decreases inbox@.len() - i,
        {
            let ev = inbox[i];
            match ev.msg {
                ClientMsg::Timeout | ClientMsg::Disconnect => {
                    if ev.from == self.p1 || ev.from == self.p2 {
                        assert(is_leave(inbox@[i as int], self.p1, self.p2));
                        let mut outbox: Vec<Outbound> = Vec::new();
                        outbox.push(Outbound { to: self.p1, msg: ServerMsg::Abort });
                        outbox.push(Outbound { to: self.p2, msg: ServerMsg::Abort });
                        return Step {
                            next: Some(ServerState::WaitingForP1(WaitingForP1::new())),
                            outbox,
                        };
                    }
                },
                ClientMsg::MoveUp => {
                    if ev.from == self.p1 {
                        self.p1_move = Some(PlayerMovement::Up);
                    } else if ev.from == self.p2 {
                        self.p2_move = Some(PlayerMovement::Up);
                    }
                },
                ClientMsg::MoveDown => {
                    if ev.from == self.p1 {
                        self.p1_move = Some(PlayerMovement::Down);
                    } else if ev.from == self.p2 {
                        self.p2_move = Some(PlayerMovement::Down);
                    }
                },
                _ => {},
            }
            assert(inbox@.take(i + 1).drop_last() =~= inbox@.take(i as int));
            i += 1;
        }
        assert(inbox@.take(inbox@.len() as int) =~= inbox@);

        let p1_move = self.p1_move;
        let p2_move = self.p2_move;
        self.pong_state.tick(p1_move, p2_move);
        self.p1_move = None;
        self.p2_move = None;

        let mut outbox: Vec<Outbound> = Vec::new();
        self.maybe_ping_clients(now_ms, &mut outbox);
        self.maybe_send_pong_state(now_ms, &mut outbox);
        Step { next: None, outbox }
    }
}

} // verus!
