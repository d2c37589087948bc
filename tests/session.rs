use pong::constants::{GAME_HEIGHT, GAME_WIDTH, MS_PER_UPDATE};
use pong::messages::{ClientMsg, PeerId, PlayerOrder, ServerMsg};
use pong::pong_state::{PlayerMovement, PongState};
use pong::session::{Inbound, Outbound, Running, ServerState, WaitingForP1, WaitingForP2};

// 127.0.0.1:45456, as an IPv4-mapped IPv6 address.
fn p1_addr() -> PeerId {
    PeerId { ip: 0xffff_7f00_0001, port: 45456 }
}

fn other_addr() -> PeerId {
    PeerId { ip: 0xffff_7f00_0001, port: 20000 }
}

fn third_addr() -> PeerId {
    PeerId { ip: 0xffff_7f00_0002, port: 20000 }
}

fn msg(from: PeerId, msg: ClientMsg) -> Inbound {
    Inbound { from, msg }
}

fn assert_state_update(state: &Option<ServerState>, new_state: &str) {
    let name = format!("{:?}", state);
    assert!(name.contains(new_state));
}

fn is_msg_to(o: &Outbound, to: PeerId, expected: &str) -> bool {
    o.to == to && format!("{:?}", o.msg) == expected
}

#[test]
fn test_waiting_for_p1_transitions_to_waiting_to_p2() {
    let state = WaitingForP1::new();
    let next = state.update(Some(msg(other_addr(), ClientMsg::Hi)));
    assert_state_update(&next, "WaitingForP2");
}

#[test]
fn test_waiting_for_p2_transitions_to_running_on_new_connect() {
    let state = WaitingForP2::new(p1_addr());
    let next = state.update(Some(msg(other_addr(), ClientMsg::Hi)), 0);
    assert_state_update(&next, "Running");
}

#[test]
fn test_waiting_for_p2_does_not_transition_if_same_client_connects_twice() {
    let state = WaitingForP2::new(p1_addr());

    // Same user says hi again, shouldn't trigger Running state.
    let next = state.update(Some(msg(p1_addr(), ClientMsg::Hi)), 0);
    assert!(next.is_none());

    let next = state.update(Some(msg(p1_addr(), ClientMsg::Disconnect)), 0);
    assert_state_update(&next, "WaitingForP1");
}

#[test]
fn test_waiting_for_p2_transitions_to_waiting_to_p1_on_disconnect() {
    let state = WaitingForP2::new(p1_addr());
    let next = state.update(Some(msg(other_addr(), ClientMsg::Disconnect)), 0);
    assert_state_update(&next, "WaitingForP1");
}

#[test]
fn first_hi_selects_first_peer() {
    let state = ServerState::new();
    assert!(matches!(state, ServerState::WaitingForP1(_)));
    match WaitingForP1::new().update(Some(msg(third_addr(), ClientMsg::Hi))) {
        Some(ServerState::WaitingForP2(w)) => assert_eq!(w.p1, third_addr()),
        other => panic!("unexpected {:?}", other),
    }
}

#[test]
fn waiting_for_p1_ignores_other_messages_and_silence() {
    let state = WaitingForP1::new();
    assert!(state.update(None).is_none());
    assert!(state.update(Some(msg(p1_addr(), ClientMsg::Pong))).is_none());
    assert!(state.update(Some(msg(p1_addr(), ClientMsg::Disconnect))).is_none());
    assert!(state.update(Some(msg(p1_addr(), ClientMsg::MoveUp))).is_none());
    assert_eq!(state.sleep_time_ms(), 500);
}

#[test]
fn waiting_for_p2_pings_first_peer_and_drops_it_on_timeout() {
    let state = WaitingForP2::new(p1_addr());
    let ping = state.ping();
    assert!(is_msg_to(&ping, p1_addr(), "Ping"));
    assert!(state.update(None, 0).is_none());
    assert!(state.update(Some(msg(other_addr(), ClientMsg::Pong)), 0).is_none());
    let next = state.update(Some(msg(third_addr(), ClientMsg::Timeout)), 0);
    assert!(matches!(next, Some(ServerState::WaitingForP1(_))));
    assert_eq!(state.sleep_time_ms(), 500);
}

#[test]
fn second_peer_starts_a_fresh_match() {
    let state = WaitingForP2::new(p1_addr());
    match state.update(Some(msg(other_addr(), ClientMsg::Hi)), 1234) {
        Some(ServerState::Running(r)) => {
            assert_eq!(r.p1, p1_addr());
            assert_eq!(r.p2, other_addr());
            assert_eq!(r.pong_state.ball, (GAME_WIDTH / 2, GAME_HEIGHT / 2));
            assert_eq!(r.pong_state.ball_vel, (5, 7));
            assert_eq!(r.pong_state.p1, 0);
            assert_eq!(r.pong_state.p2, 0);
            assert_eq!(r.last_ping, 1234);
            assert_eq!(r.last_state_broadcast, 1234);
            assert_eq!(r.sleep_time_ms(), MS_PER_UPDATE);
        },
        other => panic!("unexpected {:?}", other),
    }
}

#[test]
fn running_announces_slots_on_entry() {
    let state = ServerState::Running(Running::new(p1_addr(), other_addr(), 0));
    let out = state.on_enter();
    assert_eq!(out.len(), 2);
    assert!(is_msg_to(&out[0], p1_addr(), "Start(P1)"));
    assert!(is_msg_to(&out[1], other_addr(), "Start(P2)"));
    assert!(matches!(out[0].msg, ServerMsg::Start(PlayerOrder::P1)));
    assert!(ServerState::new().on_enter().is_empty());
    assert_eq!(state.sleep_time_ms(), MS_PER_UPDATE);
    assert_eq!(ServerState::new().sleep_time_ms(), 500);
}

#[test]
fn disconnect_from_either_peer_aborts_match() {
    for leaver in [p1_addr(), other_addr()] {
        let mut running = Running::new(p1_addr(), other_addr(), 0);
        let inbox = vec![
            msg(p1_addr(), ClientMsg::MoveUp),
            msg(leaver, ClientMsg::Disconnect),
        ];
        let step = running.update(&inbox, 10);
        assert!(matches!(step.next, Some(ServerState::WaitingForP1(_))));
        assert_eq!(step.outbox.len(), 2);
        assert!(is_msg_to(&step.outbox[0], p1_addr(), "Abort"));
        assert!(is_msg_to(&step.outbox[1], other_addr(), "Abort"));
    }
}

#[test]
fn timeout_aborts_match() {
    let mut running = Running::new(p1_addr(), other_addr(), 0);
    let step = running.update(&vec![msg(other_addr(), ClientMsg::Timeout)], 10);
    assert!(matches!(step.next, Some(ServerState::WaitingForP1(_))));
    assert_eq!(step.outbox.len(), 2);
}

#[test]
fn running_ticks_with_this_ticks_intents_only() {
    let mut running = Running::new(p1_addr(), other_addr(), 0);
    let inbox = vec![
        msg(p1_addr(), ClientMsg::MoveDown),
        msg(other_addr(), ClientMsg::MoveDown),
        msg(other_addr(), ClientMsg::MoveUp),
        msg(p1_addr(), ClientMsg::Pong),
    ];
    let step = running.update(&inbox, 1);
    assert!(step.next.is_none());
    assert!(step.outbox.is_empty());
    assert_eq!(running.pong_state.p1, 5);
    assert_eq!(running.pong_state.p2, 0);
    assert_eq!(running.pong_state.p1_move, Some(PlayerMovement::Down));
    assert_eq!(running.pong_state.p2_move, Some(PlayerMovement::Up));
    assert_eq!(running.p1_move, None);
    assert_eq!(running.p2_move, None);

    // Nothing arrives: nobody moves.
    let step = running.update(&vec![], 2);
    assert!(step.next.is_none());
    assert_eq!(running.pong_state.p1, 5);
    assert_eq!(running.pong_state.p1_move, None);
}

#[test]
fn running_ignores_strangers() {
    let mut running = Running::new(p1_addr(), other_addr(), 0);
    let inbox = vec![
        msg(third_addr(), ClientMsg::MoveDown),
        msg(third_addr(), ClientMsg::Disconnect),
    ];
    let step = running.update(&inbox, 1);
    assert!(step.next.is_none());
    assert_eq!(running.pong_state.p1, 0);
    assert_eq!(running.pong_state.p2, 0);
}

#[test]
fn running_pings_and_broadcasts_when_due() {
    let mut running = Running::new(p1_addr(), other_addr(), 0);

    let step = running.update(&vec![], 49);
    assert!(step.outbox.is_empty());

    let step = running.update(&vec![], 50);
    assert_eq!(step.outbox.len(), 2);
    assert!(matches!(step.outbox[0].msg, ServerMsg::State(_)));
    assert_eq!(step.outbox[0].to, p1_addr());
    assert_eq!(step.outbox[1].to, other_addr());
    match step.outbox[1].msg {
        ServerMsg::State(s) => assert_eq!(s, running.pong_state),
        _ => panic!("expected a state"),
    }
    assert_eq!(running.last_state_broadcast, 50);

    let step = running.update(&vec![], 500);
    assert_eq!(step.outbox.len(), 4);
    assert!(is_msg_to(&step.outbox[0], p1_addr(), "Ping"));
    assert!(is_msg_to(&step.outbox[1], other_addr(), "Ping"));
    assert!(matches!(step.outbox[2].msg, ServerMsg::State(_)));
    assert!(matches!(step.outbox[3].msg, ServerMsg::State(_)));
    assert_eq!(running.last_ping, 500);
    assert_eq!(running.last_state_broadcast, 500);

    // A clock that reads earlier counts as no time elapsed.
    let step = running.update(&vec![], 100);
    assert!(step.outbox.is_empty());
}

#[test]
fn running_tick_matches_simulation_tick() {
    let mut running = Running::new(p1_addr(), other_addr(), 0);
    let mut expected = PongState::new();
    for t in 1..40u64 {
        running.update(&vec![msg(other_addr(), ClientMsg::MoveDown)], t);
        expected.tick(None, Some(PlayerMovement::Down));
        assert_eq!(running.pong_state, expected);
    }
}
