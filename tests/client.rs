use pong::client::{ClientGame, ConnectionError, Key};
use pong::messages::{ClientMsg, PlayerOrder, ServerMsg};
use pong::pong_state::{PlayerMovement, PongState};

fn started(order: PlayerOrder, cpu: bool) -> ClientGame {
    let mut game = ClientGame::new(cpu, 0);
    let out = game.game_loop(&vec![ServerMsg::Start(order), ServerMsg::State(PongState::new())], 16);
    assert!(out.is_empty());
    game
}

#[test]
fn new_client_has_no_slot_and_no_snapshot() {
    let game = ClientGame::new(false, 7);
    assert!(game.player.is_none());
    assert!(game.pong_state.is_none());
    assert!(!game.game_has_started());
    assert_eq!(game.movement(), PlayerMovement::Still);
}

#[test]
fn held_keys_give_intent() {
    let mut game = ClientGame::new(false, 0);
    game.key_down(Key::Up);
    assert_eq!(game.movement(), PlayerMovement::Up);
    game.key_down(Key::Down);
    assert_eq!(game.movement(), PlayerMovement::Still);
    game.key_up(Key::Up);
    assert_eq!(game.movement(), PlayerMovement::Down);
    game.key_up(Key::Down);
    assert_eq!(game.movement(), PlayerMovement::Still);
}

#[test]
fn cpu_ignores_keyboard() {
    let mut game = ClientGame::new(true, 0);
    game.key_down(Key::Up);
    assert!(!game.up);
    assert_eq!(game.movement(), PlayerMovement::Still);
}

#[test]
fn start_sets_slot_and_ping_is_answered() {
    let mut game = ClientGame::new(false, 0);
    let out = game.poll_server_events(&vec![
        ServerMsg::Start(PlayerOrder::P2),
        ServerMsg::Ping,
        ServerMsg::Connect,
    ]);
    assert_eq!(out, vec![ClientMsg::Pong]);
    assert_eq!(game.player, Some(PlayerOrder::P2));
    assert!(game.pong_state.is_none());
}

#[test]
fn abort_clears_view_and_greets_again() {
    let mut game = started(PlayerOrder::P1, false);
    assert!(game.game_has_started());
    let reply = game.receive(ServerMsg::Abort);
    assert_eq!(reply, Some(ClientMsg::Hi));
    assert!(game.player.is_none());
    assert!(game.pong_state.is_none());
}

#[test]
fn snapshot_replaces_local_prediction() {
    let mut game = started(PlayerOrder::P1, false);
    game.key_down(Key::Down);
    let mut now = 16;
    for _ in 0..25 {
        now += 16;
        let out = game.game_loop(&vec![], now);
        assert_eq!(out, vec![ClientMsg::MoveDown]);
    }
    assert_ne!(game.pong_state, Some(PongState::new()));

    let mut snapshot = PongState::new();
    snapshot.p2 = 40;
    snapshot.ball = (100, 200);
    snapshot.ball_vel = (-3, 2);
    game.receive(ServerMsg::State(snapshot));
    assert_eq!(game.pong_state, Some(snapshot));
}

#[test]
fn every_snapshot_replaces_view() {
    let mut game = started(PlayerOrder::P1, false);
    let mut odd = PongState::new();
    odd.p1 = -1;
    odd.ball_vel = (i32::MIN, 3);
    assert_eq!(game.receive(ServerMsg::State(odd)), None);
    assert_eq!(game.pong_state, Some(odd));
}

#[test]
fn snapshot_that_cannot_tick_is_kept_as_is() {
    let mut game = started(PlayerOrder::P1, false);
    let mut odd = PongState::new();
    odd.ball = (i32::MAX - 1, 0);
    assert!(!odd.is_valid());
    let out = game.game_loop(&vec![ServerMsg::State(odd)], 32);
    assert!(out.is_empty());
    assert_eq!(game.pong_state, Some(odd));
}

#[test]
fn fast_snapshot_is_predicted_one_tick() {
    let mut game = started(PlayerOrder::P1, false);
    game.key_down(Key::Up);
    for t in 2..6u64 {
        game.game_loop(&vec![], 16 * t);
    }
    let mut fast = PongState::new();
    fast.ball = (0, 0);
    fast.ball_vel = (2147483547, 7);
    assert!(fast.is_valid());
    let out = game.game_loop(&vec![ServerMsg::State(fast)], 200);
    assert_eq!(out, vec![ClientMsg::MoveUp]);
    let mut expected = fast;
    expected.extrapolate_p1(PlayerMovement::Up);
    assert_eq!(game.pong_state, Some(expected));
    // The ball left the field on the right: it is back at the center.
    assert_eq!(expected.ball, (320, 240));
    assert_eq!(expected.ball_vel, (5, 7));
}

#[test]
fn game_loop_extrapolates_own_paddle() {
    let mut game = started(PlayerOrder::P2, false);
    // The first loop already ran one tick of prediction with no keys held.
    let mut expected = PongState::new();
    expected.extrapolate_p2(PlayerMovement::Still);
    assert_eq!(game.pong_state, Some(expected));

    game.key_down(Key::Up);
    game.key_down(Key::Down);
    let out = game.game_loop(&vec![ServerMsg::Ping], 32);
    assert_eq!(out, vec![ClientMsg::Pong]);

    game.key_up(Key::Up);
    let out = game.game_loop(&vec![], 48);
    assert_eq!(out, vec![ClientMsg::MoveDown]);
    assert_eq!(game.pong_state.unwrap().p2, 5);
    assert_eq!(game.last_update, 48);
}

#[test]
fn no_moves_sent_before_a_snapshot() {
    let mut game = ClientGame::new(false, 0);
    game.key_down(Key::Up);
    let out = game.game_loop(&vec![ServerMsg::Start(PlayerOrder::P1)], 16);
    assert!(out.is_empty());
}

#[test]
fn cpu_follows_approaching_ball_without_sending() {
    let mut game = ClientGame::new(true, 0);
    let mut snapshot = PongState::new();
    snapshot.p1 = 300;
    snapshot.ball = (400, 100);
    snapshot.ball_vel = (-5, 1);
    let out = game.game_loop(&vec![ServerMsg::Start(PlayerOrder::P1), ServerMsg::State(snapshot)], 16);
    assert!(out.is_empty());
    assert!(game.is_ball_above_me());
    assert!(!game.is_ball_moving_away());
    assert_eq!(game.movement(), PlayerMovement::Up);

    // The ball now moves away from player 1: the computer holds still.
    snapshot.ball_vel = (5, 1);
    game.game_loop(&vec![ServerMsg::State(snapshot)], 32);
    assert!(game.is_ball_moving_away());
    assert_eq!(game.movement(), PlayerMovement::Still);
}

#[test]
fn updates_are_rate_limited() {
    let game = ClientGame::new(false, 100);
    assert!(!game.update_due(100));
    assert!(!game.update_due(115));
    assert!(game.update_due(116));
    assert!(!game.update_due(50));
}

#[test]
fn connection_error_carries_reason() {
    let e = ConnectionError::FailedToSend(String::from("Could not send"));
    assert!(format!("{:?}", e).contains("Could not send"));
}
