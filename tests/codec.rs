use rocketsim_rs::bytes::{ByteReader, ByteWriter, DecodeError, FromBytes, FromBytesExact, ToBytes, ToBytesExact};
use rocketsim_rs::math::{RotMat, Vec3};
use rocketsim_rs::render::{Color, Render, RenderMessage, Vec2};
use rocketsim_rs::sim::{
    BallHitInfo, BallState, BoostPadConfig, BoostPadState, CarConfig, CarContact, CarControls, CarState, GameMode,
    HeatseekerInfo, Team, WheelPairConfig, WorldContact,
};
use rocketsim_rs::state::{BoostPad, CarInfo, GameState, HEADER_NUM_BYTES};

fn f(x: f32) -> u32 {
    x.to_bits()
}

fn v3(x: f32, y: f32, z: f32) -> Vec3 {
    Vec3::new(f(x), f(y), f(z))
}

fn identity() -> RotMat {
    RotMat::new(v3(1., 0., 0.), v3(0., 1., 0.), v3(0., 0., 1.))
}

fn sample_car_state() -> CarState {
    CarState {
        update_counter: 7,
        pos: v3(100., -200., 17.),
        rot_mat: identity(),
        vel: v3(-0.0, f32::MAX, f32::MIN_POSITIVE),
        ang_vel: v3(f32::INFINITY, f32::NEG_INFINITY, 1e-45),
        is_on_ground: true,
        wheels_with_contact: [true, false, true, false],
        has_jumped: false,
        has_double_jumped: true,
        has_flipped: false,
        flip_rel_torque: v3(0.5, 0.25, 0.125),
        jump_time: f(0.1),
        flip_time: f(0.2),
        is_flipping: true,
        is_jumping: false,
        air_time: f(1.5),
        air_time_since_jump: f(0.75),
        boost: f(100. / 3.),
        time_spent_boosting: f(2.0),
        is_supersonic: false,
        supersonic_time: f(0.0),
        handbrake_val: f(1.0),
        is_auto_flipping: false,
        auto_flip_timer: f(0.0),
        auto_flip_torque_scale: f(-0.0),
        world_contact: WorldContact { has_contact: true, contact_normal: v3(0., 0., 1.) },
        car_contact: CarContact { other_car_id: 3, cooldown_timer: f(0.25) },
        is_demoed: false,
        demo_respawn_timer: f(3.0),
        ball_hit_info: BallHitInfo {
            is_valid: true,
            relative_pos_on_ball: v3(1., 2., 3.),
            ball_pos: v3(4., 5., 6.),
            extra_hit_vel: v3(7., 8., 9.),
            tick_count_when_hit: 40,
            tick_count_when_extra_impulse_applied: u64::MAX,
        },
        last_controls: CarControls {
            throttle: f(1.0),
            steer: f(0.2),
            pitch: f(-0.1),
            yaw: f(0.0),
            roll: f(0.0),
            boost: true,
            jump: false,
            handbrake: false,
        },
    }
}

fn sample_config() -> CarConfig {
    let wheels = WheelPairConfig { wheel_radius: f(12.5), suspension_rest_length: f(38.755), connection_point_offset: v3(51., 25.9, 20.755) };
    CarConfig {
        hitbox_size: v3(120.507, 86.6994, 38.6591),
        hitbox_pos_offset: v3(13.8757, 0., 20.755),
        front_wheels: wheels,
        back_wheels: wheels,
        dodge_deadzone: f(0.5),
    }
}

fn sample_ball() -> BallState {
    BallState {
        update_counter: 1,
        pos: v3(0., 0., 93.15),
        rot_mat: identity(),
        vel: v3(742.26917, 1717.2388, -1419.7668),
        ang_vel: v3(-0.2784555, 2.6806574, 0.9157419),
        hs_info: HeatseekerInfo { y_target_dir: f(0.), cur_target_speed: f(2900.), time_since_hit: f(0.) },
    }
}

fn sample_pad(i: u32) -> BoostPad {
    BoostPad {
        config: BoostPadConfig { is_big: i % 2 == 0, position: v3(i as f32, -(i as f32), 73.) },
        state: BoostPadState { is_active: true, cooldown: f(0.5), cur_locked_car_id: i, prev_locked_car_id: 0 },
    }
}

fn sample_state(num_pads: u32, num_cars: u32) -> GameState {
    GameState {
        tick_count: 42,
        tick_rate: f(120.0),
        game_mode: GameMode::Soccar,
        ball: sample_ball(),
        pads: (0..num_pads).map(sample_pad).collect(),
        cars: (0..num_cars)
            .map(|i| CarInfo { id: i + 1, team: if i % 2 == 0 { Team::Blue } else { Team::Orange }, state: sample_car_state(), config: sample_config() })
            .collect(),
    }
}

#[test]
fn vec3_encoding_is_little_endian_bits() {
    let v = v3(1.0, -0.0, 2.0);
    assert_eq!(ToBytesExact::to_bytes(&v), vec![0x00, 0x00, 0x80, 0x3f, 0x00, 0x00, 0x00, 0x80, 0x00, 0x00, 0x00, 0x40]);
    assert_eq!(Vec3::from_bytes(&ToBytesExact::to_bytes(&v)), Ok(v));
}

#[test]
fn primitive_round_trips() {
    for x in [0u64, 1, 0x0102_0304_0506_0708, u64::MAX] {
        let b = ToBytesExact::to_bytes(&x);
        assert_eq!(b.len(), 8);
        assert_eq!(u64::from_exact_bytes(&b), Ok(x));
    }
    assert_eq!(ToBytesExact::to_bytes(&0x0102_0304u32), vec![4, 3, 2, 1]);
    assert_eq!(ToBytesExact::to_bytes(&-2i32), vec![0xfe, 0xff, 0xff, 0xff]);
    assert_eq!(i32::from_exact_bytes(&[0xfe, 0xff, 0xff, 0xff]), Ok(-2));
    assert_eq!(ToBytesExact::to_bytes(&0xabcdu16), vec![0xcd, 0xab]);
    assert_eq!(ToBytesExact::to_bytes(&true), vec![1]);
    assert_eq!(bool::from_exact_bytes(&[0]), Ok(false));
    assert_eq!(bool::from_exact_bytes(&[2]), Err(DecodeError::InvalidBool));
    let nan = f32::NAN.to_bits() | 1;
    assert_eq!(u32::from_exact_bytes(&ToBytesExact::to_bytes(&nan)), Ok(nan));
}

#[test]
fn fixed_records_round_trip() {
    let car = sample_car_state();
    let b = ToBytesExact::to_bytes(&car);
    assert_eq!(b.len(), CarState::num_bytes());
    assert_eq!(b.len(), 246);
    assert_eq!(CarState::from_bytes(&b), Ok(car));
    let info = CarInfo { id: 9, team: Team::Orange, state: car, config: sample_config() };
    let b = ToBytesExact::to_bytes(&info);
    assert_eq!(b.len(), 319);
    assert_eq!(CarInfo::from_bytes(&b), Ok(info));
    let ball = sample_ball();
    let b = ToBytesExact::to_bytes(&ball);
    assert_eq!(b.len(), 92);
    assert_eq!(BallState::from_bytes(&b), Ok(ball));
    let pad = sample_pad(3);
    let b = ToBytesExact::to_bytes(&pad);
    assert_eq!(b.len(), 26);
    assert_eq!(BoostPad::from_bytes(&b), Ok(pad));
    assert_eq!(CarConfig::num_bytes(), 68);
    assert_eq!(CarControls::num_bytes(), 23);
    assert_eq!(BallHitInfo::num_bytes(), 53);
}

#[test]
fn fixed_record_errors() {
    let info = CarInfo { id: 9, team: Team::Orange, state: sample_car_state(), config: sample_config() };
    let mut b = ToBytesExact::to_bytes(&info);
    assert_eq!(CarInfo::from_bytes(&b[..318]), Err(DecodeError::Truncated));
    b[4] = 2;
    assert_eq!(CarInfo::from_bytes(&b), Err(DecodeError::InvalidTeam));
    b[4] = 1;
    b[5 + 8 + 12 + 36 + 12 + 12] = 7;
    assert_eq!(CarInfo::from_bytes(&b), Err(DecodeError::InvalidBool));
    assert_eq!(Team::from_exact_bytes(&[1]), Ok(Team::Orange));
    assert_eq!(GameMode::from_exact_bytes(&[5]), Ok(GameMode::TheVoid));
    assert_eq!(GameMode::from_exact_bytes(&[6]), Err(DecodeError::InvalidGameMode));
}

#[test]
fn reader_and_writer() {
    let mut w = ByteWriter::new();
    w.write(&7u8);
    w.write(&0x0102u16);
    w.write(&v3(1., 2., 3.));
    let bytes = w.inner();
    assert_eq!(bytes.len(), 15);
    let mut r = ByteReader::new(&bytes);
    assert_eq!(r.read::<u8>(), Ok(7));
    assert_eq!(r.read::<u16>(), Ok(0x0102));
    assert!(!r.debug_assert_num_bytes(15));
    assert_eq!(r.read::<Vec3>(), Ok(v3(1., 2., 3.)));
    assert!(r.debug_assert_num_bytes(15));
    assert_eq!(r.remaining(), 0);
    assert_eq!(r.read::<u8>(), Err(DecodeError::Truncated));
}

#[test]
fn game_state_with_one_car_round_trips() {
    let state = sample_state(0, 1);
    let bytes = state.to_bytes();
    let decoded = GameState::from_bytes(&bytes).unwrap();
    assert_eq!(decoded.tick_count, 42);
    assert_eq!(f32::from_bits(decoded.tick_rate), 120.0);
    assert_eq!(decoded.game_mode, GameMode::Soccar);
    assert_eq!(decoded.pads.len(), 0);
    assert_eq!(decoded.cars.len(), 1);
    let (a, b) = (&state.cars[0].state, &decoded.cars[0].state);
    assert_eq!(a.update_counter, b.update_counter);
    assert_eq!(a.pos, b.pos);
    assert_eq!(a.rot_mat, b.rot_mat);
    assert_eq!(a.vel, b.vel);
    assert_eq!(a.ang_vel, b.ang_vel);
    assert_eq!(a.wheels_with_contact, b.wheels_with_contact);
    assert_eq!(a.boost, b.boost);
    assert_eq!(a.world_contact, b.world_contact);
    assert_eq!(a.car_contact, b.car_contact);
    assert_eq!(a.ball_hit_info, b.ball_hit_info);
    assert_eq!(a.last_controls, b.last_controls);
    assert_eq!(a, b);
    assert_eq!(decoded.cars[0], state.cars[0]);
    assert_eq!(decoded.ball, state.ball);
}

#[test]
fn total_size_from_header_matches_encoding() {
    for (p, c) in [(0, 0), (0, 1), (34, 6), (3, 0)] {
        let bytes = sample_state(p, c).to_bytes();
        assert_eq!(GameState::get_num_bytes(&bytes[..HEADER_NUM_BYTES]), bytes.len() as u64);
        assert_eq!(bytes.len(), 113 + 26 * p as usize + 319 * c as usize);
        assert_eq!(GameState::read_num_pads(&bytes), p as usize);
        assert_eq!(GameState::read_num_cars(&bytes), c as usize);
        assert_eq!(GameState::read_tick_count(&bytes), 42);
        assert_eq!(GameState::read_tick_rate(&bytes), 120f32.to_bits());
        assert_eq!(GameState::read_game_mode(&bytes), Ok(GameMode::Soccar));
    }
}

#[test]
fn frame_decodes_exactly_and_rejects_short_buffers() {
    let state = sample_state(2, 2);
    let bytes = state.to_bytes();
    let decoded = GameState::from_bytes(&bytes).unwrap();
    assert_eq!(decoded.pads, state.pads);
    assert_eq!(decoded.cars, state.cars);
    for k in [0, 1, 20, 21, 112, 113, bytes.len() - 1] {
        assert!(matches!(GameState::from_bytes(&bytes[..k]), Err(DecodeError::Truncated)));
    }
    let mut bad = bytes.clone();
    bad[12] = 9;
    assert!(matches!(GameState::from_bytes(&bad), Err(DecodeError::InvalidGameMode)));
    let mut bad = bytes.clone();
    bad[113 + 52 + 4] = 3;
    assert!(matches!(GameState::from_bytes(&bad), Err(DecodeError::InvalidTeam)));
}

fn sample_renders() -> Vec<Render> {
    let red = Color { r: f(1.), g: f(0.), b: f(0.), a: f(1.) };
    vec![
        Render::Line2D { start: Vec2 { x: f(0.), y: f(0.) }, end: Vec2 { x: f(10.), y: f(20.) }, color: red },
        Render::Line { start: v3(0., 0., 0.), end: v3(1., 2., 3.), color: red },
        Render::LineStrip { positions: vec![v3(1., 1., 1.), v3(2., 2., 2.), v3(3., 3., 3.)], color: red },
    ]
}

#[test]
fn render_primitives_round_trip_by_tag() {
    for (tag, render) in sample_renders().into_iter().enumerate() {
        let bytes = render.to_bytes();
        assert_eq!(bytes[0] as usize, tag);
        let mut reader = ByteReader::new(&bytes);
        let back = Render::from_reader(&mut reader).unwrap();
        assert_eq!(back.to_bytes(), bytes);
        assert_eq!(reader.remaining(), 0);
        match (tag, back) {
            (0, Render::Line2D { .. }) | (1, Render::Line { .. }) | (2, Render::LineStrip { .. }) => {}
            _ => panic!("wrong variant"),
        }
    }
    assert_eq!(sample_renders()[0].to_bytes().len(), 33);
    assert_eq!(sample_renders()[1].to_bytes().len(), 41);
    assert_eq!(sample_renders()[2].to_bytes().len(), 19 + 36);
}

#[test]
fn render_unknown_tag_is_an_error() {
    let mut bytes = sample_renders()[1].to_bytes();
    bytes[0] = 99;
    let mut reader = ByteReader::new(&bytes);
    assert!(matches!(Render::from_reader(&mut reader), Err(DecodeError::InvalidRenderKind)));
}

#[test]
fn render_messages_round_trip() {
    let add = RenderMessage::AddRender(-5, sample_renders());
    let bytes = add.to_bytes();
    assert_eq!(bytes.len(), 11 + 33 + 41 + 55);
    assert_eq!(RenderMessage::get_num_bytes(&bytes), bytes.len());
    match RenderMessage::from_bytes(&bytes).unwrap() {
        RenderMessage::AddRender(id, renders) => {
            assert_eq!(id, -5);
            assert_eq!(renders.len(), 3);
            assert_eq!(RenderMessage::AddRender(id, renders).to_bytes(), bytes);
        }
        _ => panic!("wrong kind"),
    }
    let remove = RenderMessage::RemoveRender(12);
    let bytes = remove.to_bytes();
    assert_eq!(bytes, vec![9, 0, 0, 0, 1, 12, 0, 0, 0]);
    assert!(matches!(RenderMessage::from_bytes(&bytes), Ok(RenderMessage::RemoveRender(12))));
}

#[test]
fn render_message_errors() {
    let bytes = RenderMessage::AddRender(1, sample_renders()).to_bytes();
    assert!(matches!(RenderMessage::from_bytes(&bytes[..bytes.len() - 1]), Err(DecodeError::Truncated)));
    let mut bad = bytes.clone();
    bad[4] = 2;
    assert!(matches!(RenderMessage::from_bytes(&bad), Err(DecodeError::InvalidMessageKind)));
    let mut bad = bytes.clone();
    bad[0] = bad[0].wrapping_add(1);
    assert!(matches!(RenderMessage::from_bytes(&bad), Err(DecodeError::LengthMismatch)));
    let mut bad = bytes.clone();
    bad[11] = 99;
    assert!(matches!(RenderMessage::from_bytes(&bad), Err(DecodeError::InvalidRenderKind)));
}

#[test]
fn color_and_point_constructors() {
    let c = Color::rgb(f(0.5), f(0.25), f(0.));
    assert_eq!(f32::from_bits(c.a), 1.0);
    assert_eq!(c, Color::rgba(f(0.5), f(0.25), f(0.), f(1.0)));
    let p = Vec2::new(f(3.), f(4.));
    assert_eq!(ToBytesExact::to_bytes(&p), vec![0, 0, 0x40, 0x40, 0, 0, 0x80, 0x40]);
}

#[test]
fn counted_sizes_match_encodings() {
    for (p, c) in [(0, 0), (5, 2)] {
        let state = sample_state(p, c);
        assert_eq!(state.count_bytes(), state.to_bytes().len() as u64);
    }
    for r in sample_renders() {
        assert_eq!(r.count_bytes(), r.to_bytes().len());
    }
}
