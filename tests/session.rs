use rocketsim_rs::arena::{kickoff_seed, DropshotTileState, DropshotTilesState, NoCarFound, TileState};
use rocketsim_rs::bytes::DecodeError;
use rocketsim_rs::session::{pace, Inbound, PacketType, Pacing, Phase, Session, SessionError, TickAction, SPEED_ONE};
use rocketsim_rs::state::GameState;
use rocketsim_rs::sim::GameMode;
use rocketsim_rs::math::{RotMat, Vec3};
use rocketsim_rs::sim::{BallState, HeatseekerInfo};
use rocketsim_rs::bytes::ToBytes;

fn connected() -> Session {
    let mut s = Session::new();
    assert_eq!(s.phase(), Phase::Disconnected);
    assert_eq!(s.start_handshake(), Some(2));
    assert_eq!(s.phase(), Phase::Handshaking);
    assert_eq!(s.start_handshake(), None);
    assert!(s.peer_replied());
    assert_eq!(s.phase(), Phase::Connected);
    assert!(!s.peer_replied());
    s
}

#[test]
fn peer_quit_sends_quit_and_stops() {
    let mut s = connected();
    assert_eq!(s.begin_iteration(false), None);
    assert!(matches!(s.handle_packet(&[0]), Ok(Inbound::Quit)));
    assert_eq!(PacketType::Quit.tag(), 0);
    assert_eq!(s.phase(), Phase::Disconnecting);
    assert!(!s.may_receive());
    for _ in 0..3 {
        assert_eq!(s.tick_action(), TickAction::Stop);
        assert_eq!(s.begin_iteration(true), None);
    }
}

#[test]
fn speed_packet_divides_interval() {
    let mut s = connected();
    let mut packet = vec![4u8];
    packet.extend_from_slice(&2.0f32.to_le_bytes());
    match s.handle_packet(&packet) {
        Ok(Inbound::SpeedChanged(bits)) => assert_eq!(f32::from_bits(bits), 2.0),
        _ => panic!("speed not taken"),
    }
    let base = 1.0f32 / 120.0;
    assert_eq!(base / f32::from_bits(s.speed()), base / 2.0);
    assert_eq!(s.tick_action(), TickAction::StepAndSend);
}

#[test]
fn pause_packet_stops_stepping() {
    let mut s = connected();
    assert!(matches!(s.handle_packet(&[3, 1]), Ok(Inbound::PauseChanged(true))));
    assert!(s.paused());
    let mut tick_count = 0u64;
    let mut frames_sent = 0;
    for _ in 0..5 {
        assert_eq!(s.begin_iteration(false), None);
        match s.tick_action() {
            TickAction::StepAndSend => {
                tick_count += 1;
                frames_sent += 1;
            }
            TickAction::Wait => {}
            TickAction::Stop => panic!("stopped"),
        }
    }
    assert_eq!(tick_count, 0);
    assert_eq!(frames_sent, 0);
    assert!(matches!(s.handle_packet(&[3, 0]), Ok(Inbound::PauseChanged(false))));
    assert_eq!(s.tick_action(), TickAction::StepAndSend);
}

#[test]
fn cancellation_sends_quit_once() {
    let mut s = connected();
    assert_eq!(s.begin_iteration(true), Some(0));
    assert_eq!(s.phase(), Phase::Disconnecting);
    assert_eq!(s.tick_action(), TickAction::Stop);
    assert_eq!(s.begin_iteration(true), None);
}

#[test]
fn session_errors() {
    let mut fresh = Session::new();
    assert_eq!(fresh.handle_packet(&[2]).err(), Some(SessionError::NotConnected));
    assert_eq!(fresh.tick_action(), TickAction::Stop);
    let mut s = connected();
    assert_eq!(s.handle_packet(&[]).err(), Some(SessionError::Empty));
    assert_eq!(s.handle_packet(&[6]).err(), Some(SessionError::UnknownPacketType(6)));
    assert_eq!(s.handle_packet(&[5]).err(), Some(SessionError::UnexpectedPacket(PacketType::Render)));
    assert_eq!(s.handle_packet(&[4, 0, 0]).err(), Some(SessionError::Decode(DecodeError::Truncated)));
    assert_eq!(s.handle_packet(&[4, 0, 0, 0, 0]).err(), Some(SessionError::InvalidSpeed(0)));
    let inf = f32::INFINITY.to_le_bytes();
    assert_eq!(s.handle_packet(&[4, inf[0], inf[1], inf[2], inf[3]]).err(), Some(SessionError::InvalidSpeed(f32::INFINITY.to_bits())));
    let neg = (-1.0f32).to_le_bytes();
    assert_eq!(s.handle_packet(&[4, neg[0], neg[1], neg[2], neg[3]]).err(), Some(SessionError::InvalidSpeed((-1.0f32).to_bits())));
    assert_eq!(s.speed(), SPEED_ONE);
    assert_eq!(s.handle_packet(&[3]).err(), Some(SessionError::Decode(DecodeError::Truncated)));
    assert_eq!(s.handle_packet(&[3, 7]).err(), Some(SessionError::Decode(DecodeError::InvalidBool)));
    assert_eq!(s.handle_packet(&[1, 0, 0]).err(), Some(SessionError::Decode(DecodeError::Truncated)));
    assert!(matches!(s.handle_packet(&[2]), Ok(Inbound::Connection)));
    assert_eq!(s.phase(), Phase::Connected);
}

#[test]
fn inbound_game_state_is_decoded() {
    let zero = Vec3::new(0, 0, 0);
    let state = GameState {
        tick_count: 9,
        tick_rate: 120f32.to_bits(),
        game_mode: GameMode::Hoops,
        ball: BallState {
            update_counter: 0,
            pos: zero,
            rot_mat: RotMat::new(zero, zero, zero),
            vel: zero,
            ang_vel: zero,
            hs_info: HeatseekerInfo { y_target_dir: 0, cur_target_speed: 0, time_since_hit: 0 },
        },
        pads: vec![],
        cars: vec![],
    };
    let mut packet = vec![PacketType::GameState.tag()];
    packet.extend(state.to_bytes());
    let mut s = connected();
    match s.handle_packet(&packet) {
        Ok(Inbound::ApplyState(got)) => {
            assert_eq!(got.tick_count, 9);
            assert_eq!(got.game_mode, GameMode::Hoops);
        }
        _ => panic!("state not decoded"),
    }
}

#[test]
fn drain_is_capped_per_iteration() {
    let mut s = connected();
    let mut handled = 0;
    while s.may_receive() {
        let _ = s.handle_packet(&[2]);
        handled += 1;
    }
    assert_eq!(handled, 256);
    s.begin_iteration(false);
    assert!(s.may_receive());
}

#[test]
fn pacing_keeps_absolute_deadlines() {
    assert_eq!(pace(100, 150, 40), Pacing { sleep_nanos: 50, next_deadline: 190 });
    assert_eq!(pace(150, 150, 40), Pacing { sleep_nanos: 0, next_deadline: 190 });
    assert_eq!(pace(500, 150, 40), Pacing { sleep_nanos: 0, next_deadline: 540 });
    assert_eq!(pace(0, u64::MAX, 5), Pacing { sleep_nanos: u64::MAX, next_deadline: u64::MAX });
}

#[test]
fn arena_helpers() {
    assert_eq!(kickoff_seed(None), -1);
    assert_eq!(kickoff_seed(Some(7)), 7);
    assert_eq!(kickoff_seed(Some(u32::MAX)), -1);
    assert_eq!(NoCarFound::check(true, 4), Ok(()));
    assert_eq!(NoCarFound::check(false, 4), Err(NoCarFound(4)));
    let tiles = DropshotTilesState::new(DropshotTileState::STATE_DAMAGED);
    assert!(tiles.states.iter().all(|row| row.iter().all(|t| t.damage_state == 1)));
    assert_eq!(tiles.states[1][69].state(), Ok(TileState::Damaged));
    assert_eq!(DropshotTileState::new(2).state(), Ok(TileState::Broken));
    assert_eq!(TileState::from_damage(3), Err(()));
    assert_eq!(DropshotTileState::default().damage_state, 0);
}
