//! The simulation records exchanged in a game state frame, with their codecs.
//!
//! Every `u32` field that holds a time, speed, amount or coordinate is a
//! single-precision float held as its IEEE-754 bit pattern.
use crate::bytes::{
    decode_at, decode_prefix, lemma_empty_concat, lemma_split_prefix, lemma_whole, ByteReader, ByteWriter, DecodeError, FromBytes,
    FromBytesExact, ToBytesExact,
};
use crate::math::{RotMat, Vec3};
use vstd::prelude::*;

verus! {

/// The side a car plays for.
#[derive(Clone, Copy, Debug, Hash, PartialEq, Eq, Structural)]
pub enum Team {
    Blue,
    Orange,
}

impl Team {
    /// The byte that stands for this team on the wire.
    pub open spec fn spec_tag(&self) -> u8 {
        match self {
            Team::Blue => 0,
            Team::Orange => 1,
        }
    }

    pub open spec fn spec_from_tag(value: u8) -> Result<Team, ()> {
        if value == 0 {
            Ok(Team::Blue)
        } else if value == 1 {
            Ok(Team::Orange)
        } else {
            Err(())
        }
    }

    pub fn tag(&self) -> (r: u8)
        ensures
            r == self.spec_tag(),
    {
        match self {
            Team::Blue => 0,
            Team::Orange => 1,
        }
    }

    /// The value a wire byte stands for.
    pub fn from_tag(value: u8) -> (r: Result<Team, ()>)
        ensures
            r == Team::spec_from_tag(value),
    {
        if value == 0 {
            Ok(Team::Blue)
        } else if value == 1 {
            Ok(Team::Orange)
        } else {
            Err(())
        }
    }
}

impl FromBytesExact for Team {
    open spec fn spec_num_bytes() -> nat {
        1
    }

    open spec fn spec_from_bytes(b: Seq<u8>) -> Result<Team, DecodeError> {
        match Team::spec_from_tag(b[0]) {
            Ok(team) => Ok(team),
            Err(_) => Err(DecodeError::InvalidTeam),
        }
    }

    fn num_bytes() -> (n: usize) {
        1
    }

    fn from_exact_bytes(bytes: &[u8]) -> (r: Result<Team, DecodeError>) {
        match Team::from_tag(bytes[0]) {
            Ok(team) => Ok(team),
            Err(_) => Err(DecodeError::InvalidTeam),
        }
    }
}

impl ToBytesExact for Team {
    open spec fn spec_to_bytes(&self) -> Seq<u8> {
        seq![self.spec_tag()]
    }

    proof fn lemma_round_trip(&self) {
    }

    fn to_bytes(&self) -> (r: Vec<u8>) {
        vec![self.tag()]
    }
}

/// The rule set an arena is played under.
#[derive(Clone, Copy, Debug, Hash, PartialEq, Eq, Structural)]
pub enum GameMode {
    Soccar,
    Hoops,
    Heatseeker,
    Snowday,
    Dropshot,
    TheVoid,
}

impl GameMode {
    /// The byte that stands for this mode on the wire.
    pub open spec fn spec_tag(&self) -> u8 {
        match self {
            GameMode::Soccar => 0,
            GameMode::Hoops => 1,
            GameMode::Heatseeker => 2,
            GameMode::Snowday => 3,
            GameMode::Dropshot => 4,
            GameMode::TheVoid => 5,
        }
    }

    pub open spec fn spec_from_tag(value: u8) -> Result<GameMode, ()> {
        if value == 0 {
            Ok(GameMode::Soccar)
        } else if value == 1 {
            Ok(GameMode::Hoops)
        } else if value == 2 {
            Ok(GameMode::Heatseeker)
        } else if value == 3 {
            Ok(GameMode::Snowday)
        } else if value == 4 {
            Ok(GameMode::Dropshot)
        } else if value == 5 {
            Ok(GameMode::TheVoid)
        } else {
            Err(())
        }
    }

    pub fn tag(&self) -> (r: u8)
        ensures
            r == self.spec_tag(),
    {
        match self {
            GameMode::Soccar => 0,
            GameMode::Hoops => 1,
            GameMode::Heatseeker => 2,
            GameMode::Snowday => 3,
            GameMode::Dropshot => 4,
            GameMode::TheVoid => 5,
        }
    }

    /// The value a wire byte stands for.
    pub fn from_tag(value: u8) -> (r: Result<GameMode, ()>)
        ensures
            r == GameMode::spec_from_tag(value),
    {
        match value {
            0 => Ok(GameMode::Soccar),
            1 => Ok(GameMode::Hoops),
            2 => Ok(GameMode::Heatseeker),
            3 => Ok(GameMode::Snowday),
            4 => Ok(GameMode::Dropshot),
            5 => Ok(GameMode::TheVoid),
            _ => Err(()),
        }
    }
}

impl FromBytesExact for GameMode {
    open spec fn spec_num_bytes() -> nat {
        1
    }

    open spec fn spec_from_bytes(b: Seq<u8>) -> Result<GameMode, DecodeError> {
        match GameMode::spec_from_tag(b[0]) {
            Ok(mode) => Ok(mode),
            Err(_) => Err(DecodeError::InvalidGameMode),
        }
    }

    fn num_bytes() -> (n: usize) {
        1
    }

    fn from_exact_bytes(bytes: &[u8]) -> (r: Result<GameMode, DecodeError>) {
        match GameMode::from_tag(bytes[0]) {
            Ok(mode) => Ok(mode),
            Err(_) => Err(DecodeError::InvalidGameMode),
        }
    }
}

impl ToBytesExact for GameMode {
    open spec fn spec_to_bytes(&self) -> Seq<u8> {
        seq![self.spec_tag()]
    }

    proof fn lemma_round_trip(&self) {
    }

    fn to_bytes(&self) -> (r: Vec<u8>) {
        vec![self.tag()]
    }
}

/// How much memory an arena trades for speed.
#[derive(Clone, Copy, Debug, Hash, PartialEq, Eq, Structural)]
pub enum ArenaMemWeightMode {
    Heavy,
    Light,
}

/// When cars demolish each other.
#[derive(Clone, Copy, Debug, Hash, PartialEq, Eq, Structural)]
pub enum DemoMode {
    Normal,
    OnContact,
    Disabled,
}

/// Heatseeker-mode state of the ball.
#[derive(Clone, Copy, Debug, PartialEq, Eq, Structural)]
pub struct HeatseekerInfo {
    /// Which net the ball seeks; 0.0 for none.
    pub y_target_dir: u32,
    pub cur_target_speed: u32,
    pub time_since_hit: u32,
}

impl FromBytesExact for HeatseekerInfo {
    open spec fn spec_num_bytes() -> nat {
        12
    }

    open spec fn spec_from_bytes(buf: Seq<u8>) -> Result<HeatseekerInfo, DecodeError> {
        let y_target_dir = decode_at::<u32>(buf, 0);
        let cur_target_speed = decode_at::<u32>(buf, 4);
        let time_since_hit = decode_at::<u32>(buf, 8);
        Ok(HeatseekerInfo {
            y_target_dir: y_target_dir->Ok_0,
            cur_target_speed: cur_target_speed->Ok_0,
            time_since_hit: time_since_hit->Ok_0,
        })
    }

    fn num_bytes() -> (n: usize) {
        12
    }

    fn from_exact_bytes(bytes: &[u8]) -> (r: Result<HeatseekerInfo, DecodeError>) {
        let mut reader = ByteReader::new(bytes);
        let y_target_dir = reader.read::<u32>()?;
        let cur_target_speed = reader.read::<u32>()?;
        let time_since_hit = reader.read::<u32>()?;
        Ok(HeatseekerInfo { y_target_dir, cur_target_speed, time_since_hit })
    }
}

impl ToBytesExact for HeatseekerInfo {
    open spec fn spec_to_bytes(&self) -> Seq<u8> {
        self.y_target_dir.spec_to_bytes()
            + self.cur_target_speed.spec_to_bytes()
            + self.time_since_hit.spec_to_bytes()
    }

    proof fn lemma_round_trip(&self) {
        self.y_target_dir.lemma_round_trip();
        self.cur_target_speed.lemma_round_trip();
        self.time_since_hit.lemma_round_trip();
        let b = self.spec_to_bytes();
        assert(b.subrange(0, 4) =~= self.y_target_dir.spec_to_bytes());
        assert(b.subrange(4, 8) =~= self.cur_target_speed.spec_to_bytes());
        assert(b.subrange(8, 12) =~= self.time_since_hit.spec_to_bytes());
    }

    fn to_bytes(&self) -> (r: Vec<u8>) {
        let mut w = ByteWriter::new();
        w.write(&self.y_target_dir);
        w.write(&self.cur_target_speed);
        w.write(&self.time_since_hit);
        proof {
            lemma_empty_concat(self.y_target_dir.spec_to_bytes());
        }
        w.inner()
    }
}

impl FromBytes for HeatseekerInfo {
    fn from_bytes(bytes: &[u8]) -> (r: Result<HeatseekerInfo, DecodeError>)
        ensures
            r == decode_prefix::<HeatseekerInfo>(bytes@),
    {
        let mut reader = ByteReader::new(bytes);
        reader.read::<HeatseekerInfo>()
    }
}

/// State of the ball.
#[derive(Clone, Copy, Debug, PartialEq, Eq, Structural)]
pub struct BallState {
    /// Increases with every update of this state.
    pub update_counter: u64,
    pub pos: Vec3,
    pub rot_mat: RotMat,
    pub vel: Vec3,
    pub ang_vel: Vec3,
    pub hs_info: HeatseekerInfo,
}

impl FromBytesExact for BallState {
    open spec fn spec_num_bytes() -> nat {
        92
    }

    open spec fn spec_from_bytes(buf: Seq<u8>) -> Result<BallState, DecodeError> {
        let update_counter = decode_at::<u64>(buf, 0);
        let pos = decode_at::<Vec3>(buf, 8);
        let rot_mat = decode_at::<RotMat>(buf, 20);
        let vel = decode_at::<Vec3>(buf, 56);
        let ang_vel = decode_at::<Vec3>(buf, 68);
        let hs_info = decode_at::<HeatseekerInfo>(buf, 80);
        Ok(BallState {
            update_counter: update_counter->Ok_0,
            pos: pos->Ok_0,
            rot_mat: rot_mat->Ok_0,
            vel: vel->Ok_0,
            ang_vel: ang_vel->Ok_0,
            hs_info: hs_info->Ok_0,
        })
    }

    fn num_bytes() -> (n: usize) {
        92
    }

    fn from_exact_bytes(bytes: &[u8]) -> (r: Result<BallState, DecodeError>) {
        let mut reader = ByteReader::new(bytes);
        let update_counter = reader.read::<u64>()?;
        let pos = reader.read::<Vec3>()?;
        let rot_mat = reader.read::<RotMat>()?;
        let vel = reader.read::<Vec3>()?;
        let ang_vel = reader.read::<Vec3>()?;
        let hs_info = reader.read::<HeatseekerInfo>()?;
        Ok(BallState { update_counter, pos, rot_mat, vel, ang_vel, hs_info })
    }
}

impl ToBytesExact for BallState {
    open spec fn spec_to_bytes(&self) -> Seq<u8> {
        self.update_counter.spec_to_bytes()
            + self.pos.spec_to_bytes()
            + self.rot_mat.spec_to_bytes()
            + self.vel.spec_to_bytes()
            + self.ang_vel.spec_to_bytes()
            + self.hs_info.spec_to_bytes()
    }

    proof fn lemma_round_trip(&self) {
        self.update_counter.lemma_round_trip();
        self.pos.lemma_round_trip();
        self.rot_mat.lemma_round_trip();
        self.vel.lemma_round_trip();
        self.ang_vel.lemma_round_trip();
        self.hs_info.lemma_round_trip();
        let b = self.spec_to_bytes();
        assert(b.subrange(0, 8) =~= self.update_counter.spec_to_bytes());
        assert(b.subrange(8, 20) =~= self.pos.spec_to_bytes());
        assert(b.subrange(20, 56) =~= self.rot_mat.spec_to_bytes());
        assert(b.subrange(56, 68) =~= self.vel.spec_to_bytes());
        assert(b.subrange(68, 80) =~= self.ang_vel.spec_to_bytes());
        assert(b.subrange(80, 92) =~= self.hs_info.spec_to_bytes());
    }

    fn to_bytes(&self) -> (r: Vec<u8>) {
        let mut w = ByteWriter::new();
        w.write(&self.update_counter);
        w.write(&self.pos);
        w.write(&self.rot_mat);
        w.write(&self.vel);
        w.write(&self.ang_vel);
        w.write(&self.hs_info);
        proof {
            lemma_empty_concat(self.update_counter.spec_to_bytes());
        }
        w.inner()
    }
}

impl FromBytes for BallState {
    fn from_bytes(bytes: &[u8]) -> (r: Result<BallState, DecodeError>)
        ensures
            r == decode_prefix::<BallState>(bytes@),
    {
        let mut reader = ByteReader::new(bytes);
        reader.read::<BallState>()
    }
}

/// Dynamic state of a boost pad.
#[derive(Clone, Copy, Debug, PartialEq, Eq, Structural)]
pub struct BoostPadState {
    pub is_active: bool,
    pub cooldown: u32,
    pub cur_locked_car_id: u32,
    pub prev_locked_car_id: u32,
}

impl FromBytesExact for BoostPadState {
    open spec fn spec_num_bytes() -> nat {
        13
    }

    open spec fn spec_from_bytes(buf: Seq<u8>) -> Result<BoostPadState, DecodeError> {
        let is_active = decode_at::<bool>(buf, 0);
        let cooldown = decode_at::<u32>(buf, 1);
        let cur_locked_car_id = decode_at::<u32>(buf, 5);
        let prev_locked_car_id = decode_at::<u32>(buf, 9);
        if is_active is Err {
            Err(is_active->Err_0)
        } else {
            Ok(BoostPadState {
                is_active: is_active->Ok_0,
                cooldown: cooldown->Ok_0,
                cur_locked_car_id: cur_locked_car_id->Ok_0,
                prev_locked_car_id: prev_locked_car_id->Ok_0,
            })
        }
    }

    fn num_bytes() -> (n: usize) {
        13
    }

    fn from_exact_bytes(bytes: &[u8]) -> (r: Result<BoostPadState, DecodeError>) {
        let mut reader = ByteReader::new(bytes);
        let is_active = match reader.read::<bool>() {
            Ok(v) => v,
            Err(e) => return Err(e),
        };
        let cooldown = reader.read::<u32>()?;
        let cur_locked_car_id = reader.read::<u32>()?;
        let prev_locked_car_id = reader.read::<u32>()?;
        Ok(BoostPadState { is_active, cooldown, cur_locked_car_id, prev_locked_car_id })
    }
}

impl ToBytesExact for BoostPadState {
    open spec fn spec_to_bytes(&self) -> Seq<u8> {
        self.is_active.spec_to_bytes()
            + self.cooldown.spec_to_bytes()
            + self.cur_locked_car_id.spec_to_bytes()
            + self.prev_locked_car_id.spec_to_bytes()
    }

    proof fn lemma_round_trip(&self) {
        self.is_active.lemma_round_trip();
        self.cooldown.lemma_round_trip();
        self.cur_locked_car_id.lemma_round_trip();
        self.prev_locked_car_id.lemma_round_trip();
        let b = self.spec_to_bytes();
        assert(b.subrange(0, 1) =~= self.is_active.spec_to_bytes());
        assert(b.subrange(1, 5) =~= self.cooldown.spec_to_bytes());
        assert(b.subrange(5, 9) =~= self.cur_locked_car_id.spec_to_bytes());
        assert(b.subrange(9, 13) =~= self.prev_locked_car_id.spec_to_bytes());
    }

    fn to_bytes(&self) -> (r: Vec<u8>) {
        let mut w = ByteWriter::new();
        w.write(&self.is_active);
        w.write(&self.cooldown);
        w.write(&self.cur_locked_car_id);
        w.write(&self.prev_locked_car_id);
        proof {
            lemma_empty_concat(self.is_active.spec_to_bytes());
        }
        w.inner()
    }
}

impl FromBytes for BoostPadState {
    fn from_bytes(bytes: &[u8]) -> (r: Result<BoostPadState, DecodeError>)
        ensures
            r == decode_prefix::<BoostPadState>(bytes@),
    {
        let mut reader = ByteReader::new(bytes);
        reader.read::<BoostPadState>()
    }
}

/// Static configuration of a boost pad.
#[derive(Clone, Copy, Debug, PartialEq, Eq, Structural)]
pub struct BoostPadConfig {
    pub is_big: bool,
    pub position: Vec3,
}

impl FromBytesExact for BoostPadConfig {
    open spec fn spec_num_bytes() -> nat {
        13
    }

    open spec fn spec_from_bytes(buf: Seq<u8>) -> Result<BoostPadConfig, DecodeError> {
        let is_big = decode_at::<bool>(buf, 0);
        let position = decode_at::<Vec3>(buf, 1);
        if is_big is Err {
            Err(is_big->Err_0)
        } else {
            Ok(BoostPadConfig {
                is_big: is_big->Ok_0,
                position: position->Ok_0,
            })
        }
    }

    fn num_bytes() -> (n: usize) {
        13
    }

    fn from_exact_bytes(bytes: &[u8]) -> (r: Result<BoostPadConfig, DecodeError>) {
        let mut reader = ByteReader::new(bytes);
        let is_big = match reader.read::<bool>() {
            Ok(v) => v,
            Err(e) => return Err(e),
        };
        let position = reader.read::<Vec3>()?;
        Ok(BoostPadConfig { is_big, position })
    }
}

impl ToBytesExact for BoostPadConfig {
    open spec fn spec_to_bytes(&self) -> Seq<u8> {
        self.is_big.spec_to_bytes()
            + self.position.spec_to_bytes()
    }

    proof fn lemma_round_trip(&self) {
        self.is_big.lemma_round_trip();
        self.position.lemma_round_trip();
        let b = self.spec_to_bytes();
        assert(b.subrange(0, 1) =~= self.is_big.spec_to_bytes());
        assert(b.subrange(1, 13) =~= self.position.spec_to_bytes());
    }

    fn to_bytes(&self) -> (r: Vec<u8>) {
        let mut w = ByteWriter::new();
        w.write(&self.is_big);
        w.write(&self.position);
        proof {
            lemma_empty_concat(self.is_big.spec_to_bytes());
        }
        w.inner()
    }
}

impl FromBytes for BoostPadConfig {
    fn from_bytes(bytes: &[u8]) -> (r: Result<BoostPadConfig, DecodeError>)
        ensures
            r == decode_prefix::<BoostPadConfig>(bytes@),
    {
        let mut reader = ByteReader::new(bytes);
        reader.read::<BoostPadConfig>()
    }
}

/// What is known of the last touch of the ball by a car.
#[derive(Clone, Copy, Debug, PartialEq, Eq, Structural)]
pub struct BallHitInfo {
    pub is_valid: bool,
    pub relative_pos_on_ball: Vec3,
    pub ball_pos: Vec3,
    pub extra_hit_vel: Vec3,
    pub tick_count_when_hit: u64,
    pub tick_count_when_extra_impulse_applied: u64,
}

impl FromBytesExact for BallHitInfo {
    open spec fn spec_num_bytes() -> nat {
        53
    }

    open spec fn spec_from_bytes(buf: Seq<u8>) -> Result<BallHitInfo, DecodeError> {
        let is_valid = decode_at::<bool>(buf, 0);
        let relative_pos_on_ball = decode_at::<Vec3>(buf, 1);
        let ball_pos = decode_at::<Vec3>(buf, 13);
        let extra_hit_vel = decode_at::<Vec3>(buf, 25);
        let tick_count_when_hit = decode_at::<u64>(buf, 37);
        let tick_count_when_extra_impulse_applied = decode_at::<u64>(buf, 45);
        if is_valid is Err {
            Err(is_valid->Err_0)
        } else {
            Ok(BallHitInfo {
                is_valid: is_valid->Ok_0,
                relative_pos_on_ball: relative_pos_on_ball->Ok_0,
                ball_pos: ball_pos->Ok_0,
                extra_hit_vel: extra_hit_vel->Ok_0,
                tick_count_when_hit: tick_count_when_hit->Ok_0,
                tick_count_when_extra_impulse_applied: tick_count_when_extra_impulse_applied->Ok_0,
            })
        }
    }

    fn num_bytes() -> (n: usize) {
        53
    }

    fn from_exact_bytes(bytes: &[u8]) -> (r: Result<BallHitInfo, DecodeError>) {
        let mut reader = ByteReader::new(bytes);
        let is_valid = match reader.read::<bool>() {
            Ok(v) => v,
            Err(e) => return Err(e),
        };
        let relative_pos_on_ball = reader.read::<Vec3>()?;
        let ball_pos = reader.read::<Vec3>()?;
        let extra_hit_vel = reader.read::<Vec3>()?;
        let tick_count_when_hit = reader.read::<u64>()?;
        let tick_count_when_extra_impulse_applied = reader.read::<u64>()?;
        Ok(BallHitInfo { is_valid, relative_pos_on_ball, ball_pos, extra_hit_vel, tick_count_when_hit, tick_count_when_extra_impulse_applied })
    }
}

impl ToBytesExact for BallHitInfo {
    open spec fn spec_to_bytes(&self) -> Seq<u8> {
        self.is_valid.spec_to_bytes()
            + self.relative_pos_on_ball.spec_to_bytes()
            + self.ball_pos.spec_to_bytes()
            + self.extra_hit_vel.spec_to_bytes()
            + self.tick_count_when_hit.spec_to_bytes()
            + self.tick_count_when_extra_impulse_applied.spec_to_bytes()
    }

    proof fn lemma_round_trip(&self) {
        self.is_valid.lemma_round_trip();
        self.relative_pos_on_ball.lemma_round_trip();
        self.ball_pos.lemma_round_trip();
        self.extra_hit_vel.lemma_round_trip();
        self.tick_count_when_hit.lemma_round_trip();
        self.tick_count_when_extra_impulse_applied.lemma_round_trip();
        let b = self.spec_to_bytes();
        assert(b.subrange(0, 1) =~= self.is_valid.spec_to_bytes());
        assert(b.subrange(1, 13) =~= self.relative_pos_on_ball.spec_to_bytes());
        assert(b.subrange(13, 25) =~= self.ball_pos.spec_to_bytes());
        assert(b.subrange(25, 37) =~= self.extra_hit_vel.spec_to_bytes());
        assert(b.subrange(37, 45) =~= self.tick_count_when_hit.spec_to_bytes());
        assert(b.subrange(45, 53) =~= self.tick_count_when_extra_impulse_applied.spec_to_bytes());
    }

    fn to_bytes(&self) -> (r: Vec<u8>) {
        let mut w = ByteWriter::new();
        w.write(&self.is_valid);
        w.write(&self.relative_pos_on_ball);
        w.write(&self.ball_pos);
        w.write(&self.extra_hit_vel);
        w.write(&self.tick_count_when_hit);
        w.write(&self.tick_count_when_extra_impulse_applied);
        proof {
            lemma_empty_concat(self.is_valid.spec_to_bytes());
        }
        w.inner()
    }
}

impl FromBytes for BallHitInfo {
    fn from_bytes(bytes: &[u8]) -> (r: Result<BallHitInfo, DecodeError>)
        ensures
            r == decode_prefix::<BallHitInfo>(bytes@),
    {
        let mut reader = ByteReader::new(bytes);
        reader.read::<BallHitInfo>()
    }
}

/// Inputs applied to a car.
#[derive(Clone, Copy, Debug, PartialEq, Eq, Structural)]
pub struct CarControls {
    pub throttle: u32,
    pub steer: u32,
    pub pitch: u32,
    pub yaw: u32,
    pub roll: u32,
    pub boost: bool,
    pub jump: bool,
    pub handbrake: bool,
}

impl FromBytesExact for CarControls {
    open spec fn spec_num_bytes() -> nat {
        23
    }

    open spec fn spec_from_bytes(buf: Seq<u8>) -> Result<CarControls, DecodeError> {
        let throttle = decode_at::<u32>(buf, 0);
        let steer = decode_at::<u32>(buf, 4);
        let pitch = decode_at::<u32>(buf, 8);
        let yaw = decode_at::<u32>(buf, 12);
        let roll = decode_at::<u32>(buf, 16);
        let boost = decode_at::<bool>(buf, 20);
        let jump = decode_at::<bool>(buf, 21);
        let handbrake = decode_at::<bool>(buf, 22);
        if boost is Err {
            Err(boost->Err_0)
        } else if jump is Err {
            Err(jump->Err_0)
        } else if handbrake is Err {
            Err(handbrake->Err_0)
        } else {
            Ok(CarControls {
                throttle: throttle->Ok_0,
                steer: steer->Ok_0,
                pitch: pitch->Ok_0,
                yaw: yaw->Ok_0,
                roll: roll->Ok_0,
                boost: boost->Ok_0,
                jump: jump->Ok_0,
                handbrake: handbrake->Ok_0,
            })
        }
    }

    fn num_bytes() -> (n: usize) {
        23
    }

    fn from_exact_bytes(bytes: &[u8]) -> (r: Result<CarControls, DecodeError>) {
        let mut reader = ByteReader::new(bytes);
        let throttle = reader.read::<u32>()?;
        let steer = reader.read::<u32>()?;
        let pitch = reader.read::<u32>()?;
        let yaw = reader.read::<u32>()?;
        let roll = reader.read::<u32>()?;
        let boost = match reader.read::<bool>() {
            Ok(v) => v,
            Err(e) => return Err(e),
        };
        let jump = match reader.read::<bool>() {
            Ok(v) => v,
            Err(e) => return Err(e),
        };
        let handbrake = match reader.read::<bool>() {
            Ok(v) => v,
            Err(e) => return Err(e),
        };
        Ok(CarControls { throttle, steer, pitch, yaw, roll, boost, jump, handbrake })
    }
}

impl ToBytesExact for CarControls {
    open spec fn spec_to_bytes(&self) -> Seq<u8> {
        self.throttle.spec_to_bytes()
            + self.steer.spec_to_bytes()
            + self.pitch.spec_to_bytes()
            + self.yaw.spec_to_bytes()
            + self.roll.spec_to_bytes()
            + self.boost.spec_to_bytes()
            + self.jump.spec_to_bytes()
            + self.handbrake.spec_to_bytes()
    }

    proof fn lemma_round_trip(&self) {
        self.throttle.lemma_round_trip();
        self.steer.lemma_round_trip();
        self.pitch.lemma_round_trip();
        self.yaw.lemma_round_trip();
        self.roll.lemma_round_trip();
        self.boost.lemma_round_trip();
        self.jump.lemma_round_trip();
        self.handbrake.lemma_round_trip();
        let b = self.spec_to_bytes();
        assert(b.subrange(0, 4) =~= self.throttle.spec_to_bytes());
        assert(b.subrange(4, 8) =~= self.steer.spec_to_bytes());
        assert(b.subrange(8, 12) =~= self.pitch.spec_to_bytes());
        assert(b.subrange(12, 16) =~= self.yaw.spec_to_bytes());
        assert(b.subrange(16, 20) =~= self.roll.spec_to_bytes());
        assert(b.subrange(20, 21) =~= self.boost.spec_to_bytes());
        assert(b.subrange(21, 22) =~= self.jump.spec_to_bytes());
        assert(b.subrange(22, 23) =~= self.handbrake.spec_to_bytes());
    }

    fn to_bytes(&self) -> (r: Vec<u8>) {
        let mut w = ByteWriter::new();
        w.write(&self.throttle);
        w.write(&self.steer);
        w.write(&self.pitch);
        w.write(&self.yaw);
        w.write(&self.roll);
        w.write(&self.boost);
        w.write(&self.jump);
        w.write(&self.handbrake);
        proof {
            lemma_empty_concat(self.throttle.spec_to_bytes());
        }
        w.inner()
    }
}

impl FromBytes for CarControls {
    fn from_bytes(bytes: &[u8]) -> (r: Result<CarControls, DecodeError>)
        ensures
            r == decode_prefix::<CarControls>(bytes@),
    {
        let mut reader = ByteReader::new(bytes);
        reader.read::<CarControls>()
    }
}

/// Contact of a car with the world.
#[derive(Clone, Copy, Debug, PartialEq, Eq, Structural)]
pub struct WorldContact {
    pub has_contact: bool,
    pub contact_normal: Vec3,
}

impl FromBytesExact for WorldContact {
    open spec fn spec_num_bytes() -> nat {
        13
    }

    open spec fn spec_from_bytes(buf: Seq<u8>) -> Result<WorldContact, DecodeError> {
        let has_contact = decode_at::<bool>(buf, 0);
        let contact_normal = decode_at::<Vec3>(buf, 1);
        if has_contact is Err {
            Err(has_contact->Err_0)
        } else {
            Ok(WorldContact {
                has_contact: has_contact->Ok_0,
                contact_normal: contact_normal->Ok_0,
            })
        }
    }

    fn num_bytes() -> (n: usize) {
        13
    }

    fn from_exact_bytes(bytes: &[u8]) -> (r: Result<WorldContact, DecodeError>) {
        let mut reader = ByteReader::new(bytes);
        let has_contact = match reader.read::<bool>() {
            Ok(v) => v,
            Err(e) => return Err(e),
        };
        let contact_normal = reader.read::<Vec3>()?;
        Ok(WorldContact { has_contact, contact_normal })
    }
}

impl ToBytesExact for WorldContact {
    open spec fn spec_to_bytes(&self) -> Seq<u8> {
        self.has_contact.spec_to_bytes()
            + self.contact_normal.spec_to_bytes()
    }

    proof fn lemma_round_trip(&self) {
        self.has_contact.lemma_round_trip();
        self.contact_normal.lemma_round_trip();
        let b = self.spec_to_bytes();
        assert(b.subrange(0, 1) =~= self.has_contact.spec_to_bytes());
        assert(b.subrange(1, 13) =~= self.contact_normal.spec_to_bytes());
    }

    fn to_bytes(&self) -> (r: Vec<u8>) {
        let mut w = ByteWriter::new();
        w.write(&self.has_contact);
        w.write(&self.contact_normal);
        proof {
            lemma_empty_concat(self.has_contact.spec_to_bytes());
        }
        w.inner()
    }
}

impl FromBytes for WorldContact {
    fn from_bytes(bytes: &[u8]) -> (r: Result<WorldContact, DecodeError>)
        ensures
            r == decode_prefix::<WorldContact>(bytes@),
    {
        let mut reader = ByteReader::new(bytes);
        reader.read::<WorldContact>()
    }
}

/// Contact of a car with another car.
#[derive(Clone, Copy, Debug, PartialEq, Eq, Structural)]
pub struct CarContact {
    pub other_car_id: u32,
    pub cooldown_timer: u32,
}

impl FromBytesExact for CarContact {
    open spec fn spec_num_bytes() -> nat {
        8
    }

    open spec fn spec_from_bytes(buf: Seq<u8>) -> Result<CarContact, DecodeError> {
        let other_car_id = decode_at::<u32>(buf, 0);
        let cooldown_timer = decode_at::<u32>(buf, 4);
        Ok(CarContact {
            other_car_id: other_car_id->Ok_0,
            cooldown_timer: cooldown_timer->Ok_0,
        })
    }

    fn num_bytes() -> (n: usize) {
        8
    }

    fn from_exact_bytes(bytes: &[u8]) -> (r: Result<CarContact, DecodeError>) {
        let mut reader = ByteReader::new(bytes);
        let other_car_id = reader.read::<u32>()?;
        let cooldown_timer = reader.read::<u32>()?;
        Ok(CarContact { other_car_id, cooldown_timer })
    }
}

impl ToBytesExact for CarContact {
    open spec fn spec_to_bytes(&self) -> Seq<u8> {
        self.other_car_id.spec_to_bytes()
            + self.cooldown_timer.spec_to_bytes()
    }

    proof fn lemma_round_trip(&self) {
        self.other_car_id.lemma_round_trip();
        self.cooldown_timer.lemma_round_trip();
        let b = self.spec_to_bytes();
        assert(b.subrange(0, 4) =~= self.other_car_id.spec_to_bytes());
        assert(b.subrange(4, 8) =~= self.cooldown_timer.spec_to_bytes());
    }

    fn to_bytes(&self) -> (r: Vec<u8>) {
        let mut w = ByteWriter::new();
        w.write(&self.other_car_id);
        w.write(&self.cooldown_timer);
        proof {
            lemma_empty_concat(self.other_car_id.spec_to_bytes());
        }
        w.inner()
    }
}

impl FromBytes for CarContact {
    fn from_bytes(bytes: &[u8]) -> (r: Result<CarContact, DecodeError>)
        ensures
            r == decode_prefix::<CarContact>(bytes@),
    {
        let mut reader = ByteReader::new(bytes);
        reader.read::<CarContact>()
    }
}

/// State of a car.
#[derive(Clone, Copy, Debug, PartialEq, Eq)]
pub struct CarState {
    pub update_counter: u64,
    pub pos: Vec3,
    pub rot_mat: RotMat,
    pub vel: Vec3,
    pub ang_vel: Vec3,
    pub is_on_ground: bool,
    pub wheels_with_contact: [bool; 4],
    pub has_jumped: bool,
    pub has_double_jumped: bool,
    pub has_flipped: bool,
    pub flip_rel_torque: Vec3,
    pub jump_time: u32,
    pub flip_time: u32,
    pub is_flipping: bool,
    pub is_jumping: bool,
    pub air_time: u32,
    pub air_time_since_jump: u32,
    pub boost: u32,
    pub time_spent_boosting: u32,
    pub is_supersonic: bool,
    pub supersonic_time: u32,
    pub handbrake_val: u32,
    pub is_auto_flipping: bool,
    pub auto_flip_timer: u32,
    pub auto_flip_torque_scale: u32,
    pub world_contact: WorldContact,
    pub car_contact: CarContact,
    pub is_demoed: bool,
    pub demo_respawn_timer: u32,
    pub ball_hit_info: BallHitInfo,
    pub last_controls: CarControls,
}

impl FromBytesExact for CarState {
    open spec fn spec_num_bytes() -> nat {
        246
    }

    open spec fn spec_from_bytes(buf: Seq<u8>) -> Result<CarState, DecodeError> {
        let update_counter = decode_at::<u64>(buf, 0);
        let pos = decode_at::<Vec3>(buf, 8);
        let rot_mat = decode_at::<RotMat>(buf, 20);
        let vel = decode_at::<Vec3>(buf, 56);
        let ang_vel = decode_at::<Vec3>(buf, 68);
        let is_on_ground = decode_at::<bool>(buf, 80);
        let wheels_with_contact = decode_at::<[bool; 4]>(buf, 81);
        let has_jumped = decode_at::<bool>(buf, 85);
        let has_double_jumped = decode_at::<bool>(buf, 86);
        let has_flipped = decode_at::<bool>(buf, 87);
        let flip_rel_torque = decode_at::<Vec3>(buf, 88);
        let jump_time = decode_at::<u32>(buf, 100);
        let flip_time = decode_at::<u32>(buf, 104);
        let is_flipping = decode_at::<bool>(buf, 108);
        let is_jumping = decode_at::<bool>(buf, 109);
        let air_time = decode_at::<u32>(buf, 110);
        let air_time_since_jump = decode_at::<u32>(buf, 114);
        let boost = decode_at::<u32>(buf, 118);
        let time_spent_boosting = decode_at::<u32>(buf, 122);
        let is_supersonic = decode_at::<bool>(buf, 126);
        let supersonic_time = decode_at::<u32>(buf, 127);
        let handbrake_val = decode_at::<u32>(buf, 131);
        let is_auto_flipping = decode_at::<bool>(buf, 135);
        let auto_flip_timer = decode_at::<u32>(buf, 136);
        let auto_flip_torque_scale = decode_at::<u32>(buf, 140);
        let world_contact = decode_at::<WorldContact>(buf, 144);
        let car_contact = decode_at::<CarContact>(buf, 157);
        let is_demoed = decode_at::<bool>(buf, 165);
        let demo_respawn_timer = decode_at::<u32>(buf, 166);
        let ball_hit_info = decode_at::<BallHitInfo>(buf, 170);
        let last_controls = decode_at::<CarControls>(buf, 223);
        if is_on_ground is Err {
            Err(is_on_ground->Err_0)
        } else if wheels_with_contact is Err {
            Err(wheels_with_contact->Err_0)
        } else if has_jumped is Err {
            Err(has_jumped->Err_0)
        } else if has_double_jumped is Err {
            Err(has_double_jumped->Err_0)
        } else if has_flipped is Err {
            Err(has_flipped->Err_0)
        } else if is_flipping is Err {
            Err(is_flipping->Err_0)
        } else if is_jumping is Err {
            Err(is_jumping->Err_0)
        } else if is_supersonic is Err {
            Err(is_supersonic->Err_0)
        } else if is_auto_flipping is Err {
            Err(is_auto_flipping->Err_0)
        } else if world_contact is Err {
            Err(world_contact->Err_0)
        } else if is_demoed is Err {
            Err(is_demoed->Err_0)
        } else if ball_hit_info is Err {
            Err(ball_hit_info->Err_0)
        } else if last_controls is Err {
            Err(last_controls->Err_0)
        } else {
            Ok(CarState {
                update_counter: update_counter->Ok_0,
                pos: pos->Ok_0,
                rot_mat: rot_mat->Ok_0,
                vel: vel->Ok_0,
                ang_vel: ang_vel->Ok_0,
                is_on_ground: is_on_ground->Ok_0,
                wheels_with_contact: wheels_with_contact->Ok_0,
                has_jumped: has_jumped->Ok_0,
                has_double_jumped: has_double_jumped->Ok_0,
                has_flipped: has_flipped->Ok_0,
                flip_rel_torque: flip_rel_torque->Ok_0,
                jump_time: jump_time->Ok_0,
                flip_time: flip_time->Ok_0,
                is_flipping: is_flipping->Ok_0,
                is_jumping: is_jumping->Ok_0,
                air_time: air_time->Ok_0,
                air_time_since_jump: air_time_since_jump->Ok_0,
                boost: boost->Ok_0,
                time_spent_boosting: time_spent_boosting->Ok_0,
                is_supersonic: is_supersonic->Ok_0,
                supersonic_time: supersonic_time->Ok_0,
                handbrake_val: handbrake_val->Ok_0,
                is_auto_flipping: is_auto_flipping->Ok_0,
                auto_flip_timer: auto_flip_timer->Ok_0,
                auto_flip_torque_scale: auto_flip_torque_scale->Ok_0,
                world_contact: world_contact->Ok_0,
                car_contact: car_contact->Ok_0,
                is_demoed: is_demoed->Ok_0,
                demo_respawn_timer: demo_respawn_timer->Ok_0,
                ball_hit_info: ball_hit_info->Ok_0,
                last_controls: last_controls->Ok_0,
            })
        }
    }

    fn num_bytes() -> (n: usize) {
        246
    }

    fn from_exact_bytes(bytes: &[u8]) -> (r: Result<CarState, DecodeError>) {
        let mut reader = ByteReader::new(bytes);
        let update_counter = reader.read::<u64>()?;
        let pos = reader.read::<Vec3>()?;
        let rot_mat = reader.read::<RotMat>()?;
        let vel = reader.read::<Vec3>()?;
        let ang_vel = reader.read::<Vec3>()?;
        let is_on_ground = match reader.read::<bool>() {
            Ok(v) => v,
            Err(e) => return Err(e),
        };
        let wheels_with_contact = match reader.read::<[bool; 4]>() {
            Ok(v) => v,
            Err(e) => return Err(e),
        };
        let has_jumped = match reader.read::<bool>() {
            Ok(v) => v,
            Err(e) => return Err(e),
        };
        let has_double_jumped = match reader.read::<bool>() {
            Ok(v) => v,
            Err(e) => return Err(e),
        };
        let has_flipped = match reader.read::<bool>() {
            Ok(v) => v,
            Err(e) => return Err(e),
        };
        let flip_rel_torque = reader.read::<Vec3>()?;
        let jump_time = reader.read::<u32>()?;
        let flip_time = reader.read::<u32>()?;
        let is_flipping = match reader.read::<bool>() {
            Ok(v) => v,
            Err(e) => return Err(e),
        };
        let is_jumping = match reader.read::<bool>() {
            Ok(v) => v,
            Err(e) => return Err(e),
        };
        let air_time = reader.read::<u32>()?;
        let air_time_since_jump = reader.read::<u32>()?;
        let boost = reader.read::<u32>()?;
        let time_spent_boosting = reader.read::<u32>()?;
        let is_supersonic = match reader.read::<bool>() {
            Ok(v) => v,
            Err(e) => return Err(e),
        };
        let supersonic_time = reader.read::<u32>()?;
        let handbrake_val = reader.read::<u32>()?;
        let is_auto_flipping = match reader.read::<bool>() {
            Ok(v) => v,
            Err(e) => return Err(e),
        };
        let auto_flip_timer = reader.read::<u32>()?;
        let auto_flip_torque_scale = reader.read::<u32>()?;
        let world_contact = match reader.read::<WorldContact>() {
            Ok(v) => v,
            Err(e) => return Err(e),
        };
        let car_contact = reader.read::<CarContact>()?;
        let is_demoed = match reader.read::<bool>() {
            Ok(v) => v,
            Err(e) => return Err(e),
        };
        let demo_respawn_timer = reader.read::<u32>()?;
        let ball_hit_info = match reader.read::<BallHitInfo>() {
            Ok(v) => v,
            Err(e) => return Err(e),
        };
        let last_controls = match reader.read::<CarControls>() {
            Ok(v) => v,
            Err(e) => return Err(e),
        };
        Ok(CarState { update_counter, pos, rot_mat, vel, ang_vel, is_on_ground, wheels_with_contact, has_jumped, has_double_jumped, has_flipped, flip_rel_torque, jump_time, flip_time, is_flipping, is_jumping, air_time, air_time_since_jump, boost, time_spent_boosting, is_supersonic, supersonic_time, handbrake_val, is_auto_flipping, auto_flip_timer, auto_flip_torque_scale, world_contact, car_contact, is_demoed, demo_respawn_timer, ball_hit_info, last_controls })
    }
}

/// Where each field's encoding sits in the encoding of a CarState.
proof fn lemma_car_state_layout(x: CarState)
    requires
        x.update_counter.spec_to_bytes().len() == u64::spec_num_bytes(),
        x.pos.spec_to_bytes().len() == Vec3::spec_num_bytes(),
        x.rot_mat.spec_to_bytes().len() == RotMat::spec_num_bytes(),
        x.vel.spec_to_bytes().len() == Vec3::spec_num_bytes(),
        x.ang_vel.spec_to_bytes().len() == Vec3::spec_num_bytes(),
        x.is_on_ground.spec_to_bytes().len() == bool::spec_num_bytes(),
        x.wheels_with_contact.spec_to_bytes().len() == <[bool; 4]>::spec_num_bytes(),
        x.has_jumped.spec_to_bytes().len() == bool::spec_num_bytes(),
        x.has_double_jumped.spec_to_bytes().len() == bool::spec_num_bytes(),
        x.has_flipped.spec_to_bytes().len() == bool::spec_num_bytes(),
        x.flip_rel_torque.spec_to_bytes().len() == Vec3::spec_num_bytes(),
        x.jump_time.spec_to_bytes().len() == u32::spec_num_bytes(),
        x.flip_time.spec_to_bytes().len() == u32::spec_num_bytes(),
        x.is_flipping.spec_to_bytes().len() == bool::spec_num_bytes(),
        x.is_jumping.spec_to_bytes().len() == bool::spec_num_bytes(),
        x.air_time.spec_to_bytes().len() == u32::spec_num_bytes(),
        x.air_time_since_jump.spec_to_bytes().len() == u32::spec_num_bytes(),
        x.boost.spec_to_bytes().len() == u32::spec_num_bytes(),
        x.time_spent_boosting.spec_to_bytes().len() == u32::spec_num_bytes(),
        x.is_supersonic.spec_to_bytes().len() == bool::spec_num_bytes(),
        x.supersonic_time.spec_to_bytes().len() == u32::spec_num_bytes(),
        x.handbrake_val.spec_to_bytes().len() == u32::spec_num_bytes(),
        x.is_auto_flipping.spec_to_bytes().len() == bool::spec_num_bytes(),
        x.auto_flip_timer.spec_to_bytes().len() == u32::spec_num_bytes(),
        x.auto_flip_torque_scale.spec_to_bytes().len() == u32::spec_num_bytes(),
        x.world_contact.spec_to_bytes().len() == WorldContact::spec_num_bytes(),
        x.car_contact.spec_to_bytes().len() == CarContact::spec_num_bytes(),
        x.is_demoed.spec_to_bytes().len() == bool::spec_num_bytes(),
        x.demo_respawn_timer.spec_to_bytes().len() == u32::spec_num_bytes(),
        x.ball_hit_info.spec_to_bytes().len() == BallHitInfo::spec_num_bytes(),
        x.last_controls.spec_to_bytes().len() == CarControls::spec_num_bytes(),
    ensures
        x.spec_to_bytes().subrange(0, 8) == x.update_counter.spec_to_bytes(),
        x.spec_to_bytes().subrange(8, 20) == x.pos.spec_to_bytes(),
        x.spec_to_bytes().subrange(20, 56) == x.rot_mat.spec_to_bytes(),
        x.spec_to_bytes().subrange(56, 68) == x.vel.spec_to_bytes(),
        x.spec_to_bytes().subrange(68, 80) == x.ang_vel.spec_to_bytes(),
        x.spec_to_bytes().subrange(80, 81) == x.is_on_ground.spec_to_bytes(),
        x.spec_to_bytes().subrange(81, 85) == x.wheels_with_contact.spec_to_bytes(),
        x.spec_to_bytes().subrange(85, 86) == x.has_jumped.spec_to_bytes(),
        x.spec_to_bytes().subrange(86, 87) == x.has_double_jumped.spec_to_bytes(),
        x.spec_to_bytes().subrange(87, 88) == x.has_flipped.spec_to_bytes(),
        x.spec_to_bytes().subrange(88, 100) == x.flip_rel_torque.spec_to_bytes(),
        x.spec_to_bytes().subrange(100, 104) == x.jump_time.spec_to_bytes(),
        x.spec_to_bytes().subrange(104, 108) == x.flip_time.spec_to_bytes(),
        x.spec_to_bytes().subrange(108, 109) == x.is_flipping.spec_to_bytes(),
        x.spec_to_bytes().subrange(109, 110) == x.is_jumping.spec_to_bytes(),
        x.spec_to_bytes().subrange(110, 114) == x.air_time.spec_to_bytes(),
        x.spec_to_bytes().subrange(114, 118) == x.air_time_since_jump.spec_to_bytes(),
        x.spec_to_bytes().subrange(118, 122) == x.boost.spec_to_bytes(),
        x.spec_to_bytes().subrange(122, 126) == x.time_spent_boosting.spec_to_bytes(),
        x.spec_to_bytes().subrange(126, 127) == x.is_supersonic.spec_to_bytes(),
        x.spec_to_bytes().subrange(127, 131) == x.supersonic_time.spec_to_bytes(),
        x.spec_to_bytes().subrange(131, 135) == x.handbrake_val.spec_to_bytes(),
        x.spec_to_bytes().subrange(135, 136) == x.is_auto_flipping.spec_to_bytes(),
        x.spec_to_bytes().subrange(136, 140) == x.auto_flip_timer.spec_to_bytes(),
        x.spec_to_bytes().subrange(140, 144) == x.auto_flip_torque_scale.spec_to_bytes(),
        x.spec_to_bytes().subrange(144, 157) == x.world_contact.spec_to_bytes(),
        x.spec_to_bytes().subrange(157, 165) == x.car_contact.spec_to_bytes(),
        x.spec_to_bytes().subrange(165, 166) == x.is_demoed.spec_to_bytes(),
        x.spec_to_bytes().subrange(166, 170) == x.demo_respawn_timer.spec_to_bytes(),
        x.spec_to_bytes().subrange(170, 223) == x.ball_hit_info.spec_to_bytes(),
        x.spec_to_bytes().subrange(223, 246) == x.last_controls.spec_to_bytes(),
{
    let b = x.spec_to_bytes();
    lemma_whole(b);
    lemma_split_prefix(b, x.update_counter.spec_to_bytes() + x.pos.spec_to_bytes() + x.rot_mat.spec_to_bytes() + x.vel.spec_to_bytes() + x.ang_vel.spec_to_bytes() + x.is_on_ground.spec_to_bytes() + x.wheels_with_contact.spec_to_bytes() + x.has_jumped.spec_to_bytes() + x.has_double_jumped.spec_to_bytes() + x.has_flipped.spec_to_bytes() + x.flip_rel_torque.spec_to_bytes() + x.jump_time.spec_to_bytes() + x.flip_time.spec_to_bytes() + x.is_flipping.spec_to_bytes() + x.is_jumping.spec_to_bytes() + x.air_time.spec_to_bytes() + x.air_time_since_jump.spec_to_bytes() + x.boost.spec_to_bytes() + x.time_spent_boosting.spec_to_bytes() + x.is_supersonic.spec_to_bytes() + x.supersonic_time.spec_to_bytes() + x.handbrake_val.spec_to_bytes() + x.is_auto_flipping.spec_to_bytes() + x.auto_flip_timer.spec_to_bytes() + x.auto_flip_torque_scale.spec_to_bytes() + x.world_contact.spec_to_bytes() + x.car_contact.spec_to_bytes() + x.is_demoed.spec_to_bytes() + x.demo_respawn_timer.spec_to_bytes() + x.ball_hit_info.spec_to_bytes(), x.last_controls.spec_to_bytes());
    lemma_split_prefix(b, x.update_counter.spec_to_bytes() + x.pos.spec_to_bytes() + x.rot_mat.spec_to_bytes() + x.vel.spec_to_bytes() + x.ang_vel.spec_to_bytes() + x.is_on_ground.spec_to_bytes() + x.wheels_with_contact.spec_to_bytes() + x.has_jumped.spec_to_bytes() + x.has_double_jumped.spec_to_bytes() + x.has_flipped.spec_to_bytes() + x.flip_rel_torque.spec_to_bytes() + x.jump_time.spec_to_bytes() + x.flip_time.spec_to_bytes() + x.is_flipping.spec_to_bytes() + x.is_jumping.spec_to_bytes() + x.air_time.spec_to_bytes() + x.air_time_since_jump.spec_to_bytes() + x.boost.spec_to_bytes() + x.time_spent_boosting.spec_to_bytes() + x.is_supersonic.spec_to_bytes() + x.supersonic_time.spec_to_bytes() + x.handbrake_val.spec_to_bytes() + x.is_auto_flipping.spec_to_bytes() + x.auto_flip_timer.spec_to_bytes() + x.auto_flip_torque_scale.spec_to_bytes() + x.world_contact.spec_to_bytes() + x.car_contact.spec_to_bytes() + x.is_demoed.spec_to_bytes() + x.demo_respawn_timer.spec_to_bytes(), x.ball_hit_info.spec_to_bytes());
    lemma_split_prefix(b, x.update_counter.spec_to_bytes() + x.pos.spec_to_bytes() + x.rot_mat.spec_to_bytes() + x.vel.spec_to_bytes() + x.ang_vel.spec_to_bytes() + x.is_on_ground.spec_to_bytes() + x.wheels_with_contact.spec_to_bytes() + x.has_jumped.spec_to_bytes() + x.has_double_jumped.spec_to_bytes() + x.has_flipped.spec_to_bytes() + x.flip_rel_torque.spec_to_bytes() + x.jump_time.spec_to_bytes() + x.flip_time.spec_to_bytes() + x.is_flipping.spec_to_bytes() + x.is_jumping.spec_to_bytes() + x.air_time.spec_to_bytes() + x.air_time_since_jump.spec_to_bytes() + x.boost.spec_to_bytes() + x.time_spent_boosting.spec_to_bytes() + x.is_supersonic.spec_to_bytes() + x.supersonic_time.spec_to_bytes() + x.handbrake_val.spec_to_bytes() + x.is_auto_flipping.spec_to_bytes() + x.auto_flip_timer.spec_to_bytes() + x.auto_flip_torque_scale.spec_to_bytes() + x.world_contact.spec_to_bytes() + x.car_contact.spec_to_bytes() + x.is_demoed.spec_to_bytes(), x.demo_respawn_timer.spec_to_bytes());
    lemma_split_prefix(b, x.update_counter.spec_to_bytes() + x.pos.spec_to_bytes() + x.rot_mat.spec_to_bytes() + x.vel.spec_to_bytes() + x.ang_vel.spec_to_bytes() + x.is_on_ground.spec_to_bytes() + x.wheels_with_contact.spec_to_bytes() + x.has_jumped.spec_to_bytes() + x.has_double_jumped.spec_to_bytes() + x.has_flipped.spec_to_bytes() + x.flip_rel_torque.spec_to_bytes() + x.jump_time.spec_to_bytes() + x.flip_time.spec_to_bytes() + x.is_flipping.spec_to_bytes() + x.is_jumping.spec_to_bytes() + x.air_time.spec_to_bytes() + x.air_time_since_jump.spec_to_bytes() + x.boost.spec_to_bytes() + x.time_spent_boosting.spec_to_bytes() + x.is_supersonic.spec_to_bytes() + x.supersonic_time.spec_to_bytes() + x.handbrake_val.spec_to_bytes() + x.is_auto_flipping.spec_to_bytes() + x.auto_flip_timer.spec_to_bytes() + x.auto_flip_torque_scale.spec_to_bytes() + x.world_contact.spec_to_bytes() + x.car_contact.spec_to_bytes(), x.is_demoed.spec_to_bytes());
    lemma_split_prefix(b, x.update_counter.spec_to_bytes() + x.pos.spec_to_bytes() + x.rot_mat.spec_to_bytes() + x.vel.spec_to_bytes() + x.ang_vel.spec_to_bytes() + x.is_on_ground.spec_to_bytes() + x.wheels_with_contact.spec_to_bytes() + x.has_jumped.spec_to_bytes() + x.has_double_jumped.spec_to_bytes() + x.has_flipped.spec_to_bytes() + x.flip_rel_torque.spec_to_bytes() + x.jump_time.spec_to_bytes() + x.flip_time.spec_to_bytes() + x.is_flipping.spec_to_bytes() + x.is_jumping.spec_to_bytes() + x.air_time.spec_to_bytes() + x.air_time_since_jump.spec_to_bytes() + x.boost.spec_to_bytes() + x.time_spent_boosting.spec_to_bytes() + x.is_supersonic.spec_to_bytes() + x.supersonic_time.spec_to_bytes() + x.handbrake_val.spec_to_bytes() + x.is_auto_flipping.spec_to_bytes() + x.auto_flip_timer.spec_to_bytes() + x.auto_flip_torque_scale.spec_to_bytes() + x.world_contact.spec_to_bytes(), x.car_contact.spec_to_bytes());
    lemma_split_prefix(b, x.update_counter.spec_to_bytes() + x.pos.spec_to_bytes() + x.rot_mat.spec_to_bytes() + x.vel.spec_to_bytes() + x.ang_vel.spec_to_bytes() + x.is_on_ground.spec_to_bytes() + x.wheels_with_contact.spec_to_bytes() + x.has_jumped.spec_to_bytes() + x.has_double_jumped.spec_to_bytes() + x.has_flipped.spec_to_bytes() + x.flip_rel_torque.spec_to_bytes() + x.jump_time.spec_to_bytes() + x.flip_time.spec_to_bytes() + x.is_flipping.spec_to_bytes() + x.is_jumping.spec_to_bytes() + x.air_time.spec_to_bytes() + x.air_time_since_jump.spec_to_bytes() + x.boost.spec_to_bytes() + x.time_spent_boosting.spec_to_bytes() + x.is_supersonic.spec_to_bytes() + x.supersonic_time.spec_to_bytes() + x.handbrake_val.spec_to_bytes() + x.is_auto_flipping.spec_to_bytes() + x.auto_flip_timer.spec_to_bytes() + x.auto_flip_torque_scale.spec_to_bytes(), x.world_contact.spec_to_bytes());
    lemma_split_prefix(b, x.update_counter.spec_to_bytes() + x.pos.spec_to_bytes() + x.rot_mat.spec_to_bytes() + x.vel.spec_to_bytes() + x.ang_vel.spec_to_bytes() + x.is_on_ground.spec_to_bytes() + x.wheels_with_contact.spec_to_bytes() + x.has_jumped.spec_to_bytes() + x.has_double_jumped.spec_to_bytes() + x.has_flipped.spec_to_bytes() + x.flip_rel_torque.spec_to_bytes() + x.jump_time.spec_to_bytes() + x.flip_time.spec_to_bytes() + x.is_flipping.spec_to_bytes() + x.is_jumping.spec_to_bytes() + x.air_time.spec_to_bytes() + x.air_time_since_jump.spec_to_bytes() + x.boost.spec_to_bytes() + x.time_spent_boosting.spec_to_bytes() + x.is_supersonic.spec_to_bytes() + x.supersonic_time.spec_to_bytes() + x.handbrake_val.spec_to_bytes() + x.is_auto_flipping.spec_to_bytes() + x.auto_flip_timer.spec_to_bytes(), x.auto_flip_torque_scale.spec_to_bytes());
    lemma_split_prefix(b, x.update_counter.spec_to_bytes() + x.pos.spec_to_bytes() + x.rot_mat.spec_to_bytes() + x.vel.spec_to_bytes() + x.ang_vel.spec_to_bytes() + x.is_on_ground.spec_to_bytes() + x.wheels_with_contact.spec_to_bytes() + x.has_jumped.spec_to_bytes() + x.has_double_jumped.spec_to_bytes() + x.has_flipped.spec_to_bytes() + x.flip_rel_torque.spec_to_bytes() + x.jump_time.spec_to_bytes() + x.flip_time.spec_to_bytes() + x.is_flipping.spec_to_bytes() + x.is_jumping.spec_to_bytes() + x.air_time.spec_to_bytes() + x.air_time_since_jump.spec_to_bytes() + x.boost.spec_to_bytes() + x.time_spent_boosting.spec_to_bytes() + x.is_supersonic.spec_to_bytes() + x.supersonic_time.spec_to_bytes() + x.handbrake_val.spec_to_bytes() + x.is_auto_flipping.spec_to_bytes(), x.auto_flip_timer.spec_to_bytes());
    lemma_split_prefix(b, x.update_counter.spec_to_bytes() + x.pos.spec_to_bytes() + x.rot_mat.spec_to_bytes() + x.vel.spec_to_bytes() + x.ang_vel.spec_to_bytes() + x.is_on_ground.spec_to_bytes() + x.wheels_with_contact.spec_to_bytes() + x.has_jumped.spec_to_bytes() + x.has_double_jumped.spec_to_bytes() + x.has_flipped.spec_to_bytes() + x.flip_rel_torque.spec_to_bytes() + x.jump_time.spec_to_bytes() + x.flip_time.spec_to_bytes() + x.is_flipping.spec_to_bytes() + x.is_jumping.spec_to_bytes() + x.air_time.spec_to_bytes() + x.air_time_since_jump.spec_to_bytes() + x.boost.spec_to_bytes() + x.time_spent_boosting.spec_to_bytes() + x.is_supersonic.spec_to_bytes() + x.supersonic_time.spec_to_bytes() + x.handbrake_val.spec_to_bytes(), x.is_auto_flipping.spec_to_bytes());
    lemma_split_prefix(b, x.update_counter.spec_to_bytes() + x.pos.spec_to_bytes() + x.rot_mat.spec_to_bytes() + x.vel.spec_to_bytes() + x.ang_vel.spec_to_bytes() + x.is_on_ground.spec_to_bytes() + x.wheels_with_contact.spec_to_bytes() + x.has_jumped.spec_to_bytes() + x.has_double_jumped.spec_to_bytes() + x.has_flipped.spec_to_bytes() + x.flip_rel_torque.spec_to_bytes() + x.jump_time.spec_to_bytes() + x.flip_time.spec_to_bytes() + x.is_flipping.spec_to_bytes() + x.is_jumping.spec_to_bytes() + x.air_time.spec_to_bytes() + x.air_time_since_jump.spec_to_bytes() + x.boost.spec_to_bytes() + x.time_spent_boosting.spec_to_bytes() + x.is_supersonic.spec_to_bytes() + x.supersonic_time.spec_to_bytes(), x.handbrake_val.spec_to_bytes());
    lemma_split_prefix(b, x.update_counter.spec_to_bytes() + x.pos.spec_to_bytes() + x.rot_mat.spec_to_bytes() + x.vel.spec_to_bytes() + x.ang_vel.spec_to_bytes() + x.is_on_ground.spec_to_bytes() + x.wheels_with_contact.spec_to_bytes() + x.has_jumped.spec_to_bytes() + x.has_double_jumped.spec_to_bytes() + x.has_flipped.spec_to_bytes() + x.flip_rel_torque.spec_to_bytes() + x.jump_time.spec_to_bytes() + x.flip_time.spec_to_bytes() + x.is_flipping.spec_to_bytes() + x.is_jumping.spec_to_bytes() + x.air_time.spec_to_bytes() + x.air_time_since_jump.spec_to_bytes() + x.boost.spec_to_bytes() + x.time_spent_boosting.spec_to_bytes() + x.is_supersonic.spec_to_bytes(), x.supersonic_time.spec_to_bytes());
    lemma_split_prefix(b, x.update_counter.spec_to_bytes() + x.pos.spec_to_bytes() + x.rot_mat.spec_to_bytes() + x.vel.spec_to_bytes() + x.ang_vel.spec_to_bytes() + x.is_on_ground.spec_to_bytes() + x.wheels_with_contact.spec_to_bytes() + x.has_jumped.spec_to_bytes() + x.has_double_jumped.spec_to_bytes() + x.has_flipped.spec_to_bytes() + x.flip_rel_torque.spec_to_bytes() + x.jump_time.spec_to_bytes() + x.flip_time.spec_to_bytes() + x.is_flipping.spec_to_bytes() + x.is_jumping.spec_to_bytes() + x.air_time.spec_to_bytes() + x.air_time_since_jump.spec_to_bytes() + x.boost.spec_to_bytes() + x.time_spent_boosting.spec_to_bytes(), x.is_supersonic.spec_to_bytes());
    lemma_split_prefix(b, x.update_counter.spec_to_bytes() + x.pos.spec_to_bytes() + x.rot_mat.spec_to_bytes() + x.vel.spec_to_bytes() + x.ang_vel.spec_to_bytes() + x.is_on_ground.spec_to_bytes() + x.wheels_with_contact.spec_to_bytes() + x.has_jumped.spec_to_bytes() + x.has_double_jumped.spec_to_bytes() + x.has_flipped.spec_to_bytes() + x.flip_rel_torque.spec_to_bytes() + x.jump_time.spec_to_bytes() + x.flip_time.spec_to_bytes() + x.is_flipping.spec_to_bytes() + x.is_jumping.spec_to_bytes() + x.air_time.spec_to_bytes() + x.air_time_since_jump.spec_to_bytes() + x.boost.spec_to_bytes(), x.time_spent_boosting.spec_to_bytes());
    lemma_split_prefix(b, x.update_counter.spec_to_bytes() + x.pos.spec_to_bytes() + x.rot_mat.spec_to_bytes() + x.vel.spec_to_bytes() + x.ang_vel.spec_to_bytes() + x.is_on_ground.spec_to_bytes() + x.wheels_with_contact.spec_to_bytes() + x.has_jumped.spec_to_bytes() + x.has_double_jumped.spec_to_bytes() + x.has_flipped.spec_to_bytes() + x.flip_rel_torque.spec_to_bytes() + x.jump_time.spec_to_bytes() + x.flip_time.spec_to_bytes() + x.is_flipping.spec_to_bytes() + x.is_jumping.spec_to_bytes() + x.air_time.spec_to_bytes() + x.air_time_since_jump.spec_to_bytes(), x.boost.spec_to_bytes());
    lemma_split_prefix(b, x.update_counter.spec_to_bytes() + x.pos.spec_to_bytes() + x.rot_mat.spec_to_bytes() + x.vel.spec_to_bytes() + x.ang_vel.spec_to_bytes() + x.is_on_ground.spec_to_bytes() + x.wheels_with_contact.spec_to_bytes() + x.has_jumped.spec_to_bytes() + x.has_double_jumped.spec_to_bytes() + x.has_flipped.spec_to_bytes() + x.flip_rel_torque.spec_to_bytes() + x.jump_time.spec_to_bytes() + x.flip_time.spec_to_bytes() + x.is_flipping.spec_to_bytes() + x.is_jumping.spec_to_bytes() + x.air_time.spec_to_bytes(), x.air_time_since_jump.spec_to_bytes());
    lemma_split_prefix(b, x.update_counter.spec_to_bytes() + x.pos.spec_to_bytes() + x.rot_mat.spec_to_bytes() + x.vel.spec_to_bytes() + x.ang_vel.spec_to_bytes() + x.is_on_ground.spec_to_bytes() + x.wheels_with_contact.spec_to_bytes() + x.has_jumped.spec_to_bytes() + x.has_double_jumped.spec_to_bytes() + x.has_flipped.spec_to_bytes() + x.flip_rel_torque.spec_to_bytes() + x.jump_time.spec_to_bytes() + x.flip_time.spec_to_bytes() + x.is_flipping.spec_to_bytes() + x.is_jumping.spec_to_bytes(), x.air_time.spec_to_bytes());
    lemma_split_prefix(b, x.update_counter.spec_to_bytes() + x.pos.spec_to_bytes() + x.rot_mat.spec_to_bytes() + x.vel.spec_to_bytes() + x.ang_vel.spec_to_bytes() + x.is_on_ground.spec_to_bytes() + x.wheels_with_contact.spec_to_bytes() + x.has_jumped.spec_to_bytes() + x.has_double_jumped.spec_to_bytes() + x.has_flipped.spec_to_bytes() + x.flip_rel_torque.spec_to_bytes() + x.jump_time.spec_to_bytes() + x.flip_time.spec_to_bytes() + x.is_flipping.spec_to_bytes(), x.is_jumping.spec_to_bytes());
    lemma_split_prefix(b, x.update_counter.spec_to_bytes() + x.pos.spec_to_bytes() + x.rot_mat.spec_to_bytes() + x.vel.spec_to_bytes() + x.ang_vel.spec_to_bytes() + x.is_on_ground.spec_to_bytes() + x.wheels_with_contact.spec_to_bytes() + x.has_jumped.spec_to_bytes() + x.has_double_jumped.spec_to_bytes() + x.has_flipped.spec_to_bytes() + x.flip_rel_torque.spec_to_bytes() + x.jump_time.spec_to_bytes() + x.flip_time.spec_to_bytes(), x.is_flipping.spec_to_bytes());
    lemma_split_prefix(b, x.update_counter.spec_to_bytes() + x.pos.spec_to_bytes() + x.rot_mat.spec_to_bytes() + x.vel.spec_to_bytes() + x.ang_vel.spec_to_bytes() + x.is_on_ground.spec_to_bytes() + x.wheels_with_contact.spec_to_bytes() + x.has_jumped.spec_to_bytes() + x.has_double_jumped.spec_to_bytes() + x.has_flipped.spec_to_bytes() + x.flip_rel_torque.spec_to_bytes() + x.jump_time.spec_to_bytes(), x.flip_time.spec_to_bytes());
    lemma_split_prefix(b, x.update_counter.spec_to_bytes() + x.pos.spec_to_bytes() + x.rot_mat.spec_to_bytes() + x.vel.spec_to_bytes() + x.ang_vel.spec_to_bytes() + x.is_on_ground.spec_to_bytes() + x.wheels_with_contact.spec_to_bytes() + x.has_jumped.spec_to_bytes() + x.has_double_jumped.spec_to_bytes() + x.has_flipped.spec_to_bytes() + x.flip_rel_torque.spec_to_bytes(), x.jump_time.spec_to_bytes());
    lemma_split_prefix(b, x.update_counter.spec_to_bytes() + x.pos.spec_to_bytes() + x.rot_mat.spec_to_bytes() + x.vel.spec_to_bytes() + x.ang_vel.spec_to_bytes() + x.is_on_ground.spec_to_bytes() + x.wheels_with_contact.spec_to_bytes() + x.has_jumped.spec_to_bytes() + x.has_double_jumped.spec_to_bytes() + x.has_flipped.spec_to_bytes(), x.flip_rel_torque.spec_to_bytes());
    lemma_split_prefix(b, x.update_counter.spec_to_bytes() + x.pos.spec_to_bytes() + x.rot_mat.spec_to_bytes() + x.vel.spec_to_bytes() + x.ang_vel.spec_to_bytes() + x.is_on_ground.spec_to_bytes() + x.wheels_with_contact.spec_to_bytes() + x.has_jumped.spec_to_bytes() + x.has_double_jumped.spec_to_bytes(), x.has_flipped.spec_to_bytes());
    lemma_split_prefix(b, x.update_counter.spec_to_bytes() + x.pos.spec_to_bytes() + x.rot_mat.spec_to_bytes() + x.vel.spec_to_bytes() + x.ang_vel.spec_to_bytes() + x.is_on_ground.spec_to_bytes() + x.wheels_with_contact.spec_to_bytes() + x.has_jumped.spec_to_bytes(), x.has_double_jumped.spec_to_bytes());
    lemma_split_prefix(b, x.update_counter.spec_to_bytes() + x.pos.spec_to_bytes() + x.rot_mat.spec_to_bytes() + x.vel.spec_to_bytes() + x.ang_vel.spec_to_bytes() + x.is_on_ground.spec_to_bytes() + x.wheels_with_contact.spec_to_bytes(), x.has_jumped.spec_to_bytes());
    lemma_split_prefix(b, x.update_counter.spec_to_bytes() + x.pos.spec_to_bytes() + x.rot_mat.spec_to_bytes() + x.vel.spec_to_bytes() + x.ang_vel.spec_to_bytes() + x.is_on_ground.spec_to_bytes(), x.wheels_with_contact.spec_to_bytes());
    lemma_split_prefix(b, x.update_counter.spec_to_bytes() + x.pos.spec_to_bytes() + x.rot_mat.spec_to_bytes() + x.vel.spec_to_bytes() + x.ang_vel.spec_to_bytes(), x.is_on_ground.spec_to_bytes());
    lemma_split_prefix(b, x.update_counter.spec_to_bytes() + x.pos.spec_to_bytes() + x.rot_mat.spec_to_bytes() + x.vel.spec_to_bytes(), x.ang_vel.spec_to_bytes());
    lemma_split_prefix(b, x.update_counter.spec_to_bytes() + x.pos.spec_to_bytes() + x.rot_mat.spec_to_bytes(), x.vel.spec_to_bytes());
    lemma_split_prefix(b, x.update_counter.spec_to_bytes() + x.pos.spec_to_bytes(), x.rot_mat.spec_to_bytes());
    lemma_split_prefix(b, x.update_counter.spec_to_bytes(), x.pos.spec_to_bytes());
}

impl ToBytesExact for CarState {
    open spec fn spec_to_bytes(&self) -> Seq<u8> {
        self.update_counter.spec_to_bytes()
            + self.pos.spec_to_bytes()
            + self.rot_mat.spec_to_bytes()
            + self.vel.spec_to_bytes()
            + self.ang_vel.spec_to_bytes()
            + self.is_on_ground.spec_to_bytes()
            + self.wheels_with_contact.spec_to_bytes()
            + self.has_jumped.spec_to_bytes()
            + self.has_double_jumped.spec_to_bytes()
            + self.has_flipped.spec_to_bytes()
            + self.flip_rel_torque.spec_to_bytes()
            + self.jump_time.spec_to_bytes()
            + self.flip_time.spec_to_bytes()
            + self.is_flipping.spec_to_bytes()
            + self.is_jumping.spec_to_bytes()
            + self.air_time.spec_to_bytes()
            + self.air_time_since_jump.spec_to_bytes()
            + self.boost.spec_to_bytes()
            + self.time_spent_boosting.spec_to_bytes()
            + self.is_supersonic.spec_to_bytes()
            + self.supersonic_time.spec_to_bytes()
            + self.handbrake_val.spec_to_bytes()
            + self.is_auto_flipping.spec_to_bytes()
            + self.auto_flip_timer.spec_to_bytes()
            + self.auto_flip_torque_scale.spec_to_bytes()
            + self.world_contact.spec_to_bytes()
            + self.car_contact.spec_to_bytes()
            + self.is_demoed.spec_to_bytes()
            + self.demo_respawn_timer.spec_to_bytes()
            + self.ball_hit_info.spec_to_bytes()
            + self.last_controls.spec_to_bytes()
    }

    proof fn lemma_round_trip(&self) {
        self.update_counter.lemma_round_trip();
        self.pos.lemma_round_trip();
        self.rot_mat.lemma_round_trip();
        self.vel.lemma_round_trip();
        self.ang_vel.lemma_round_trip();
        self.is_on_ground.lemma_round_trip();
        self.wheels_with_contact.lemma_round_trip();
        self.has_jumped.lemma_round_trip();
        self.has_double_jumped.lemma_round_trip();
        self.has_flipped.lemma_round_trip();
        self.flip_rel_torque.lemma_round_trip();
        self.jump_time.lemma_round_trip();
        self.flip_time.lemma_round_trip();
        self.is_flipping.lemma_round_trip();
        self.is_jumping.lemma_round_trip();
        self.air_time.lemma_round_trip();
        self.air_time_since_jump.lemma_round_trip();
        self.boost.lemma_round_trip();
        self.time_spent_boosting.lemma_round_trip();
        self.is_supersonic.lemma_round_trip();
        self.supersonic_time.lemma_round_trip();
        self.handbrake_val.lemma_round_trip();
        self.is_auto_flipping.lemma_round_trip();
        self.auto_flip_timer.lemma_round_trip();
        self.auto_flip_torque_scale.lemma_round_trip();
        self.world_contact.lemma_round_trip();
        self.car_contact.lemma_round_trip();
        self.is_demoed.lemma_round_trip();
        self.demo_respawn_timer.lemma_round_trip();
        self.ball_hit_info.lemma_round_trip();
        self.last_controls.lemma_round_trip();
        lemma_car_state_layout(*self);
    }

    fn to_bytes(&self) -> (r: Vec<u8>) {
        let mut w = ByteWriter::new();
        w.write(&self.update_counter);
        w.write(&self.pos);
        w.write(&self.rot_mat);
        w.write(&self.vel);
        w.write(&self.ang_vel);
        w.write(&self.is_on_ground);
        w.write(&self.wheels_with_contact);
        w.write(&self.has_jumped);
        w.write(&self.has_double_jumped);
        w.write(&self.has_flipped);
        w.write(&self.flip_rel_torque);
        w.write(&self.jump_time);
        w.write(&self.flip_time);
        w.write(&self.is_flipping);
        w.write(&self.is_jumping);
        w.write(&self.air_time);
        w.write(&self.air_time_since_jump);
        w.write(&self.boost);
        w.write(&self.time_spent_boosting);
        w.write(&self.is_supersonic);
        w.write(&self.supersonic_time);
        w.write(&self.handbrake_val);
        w.write(&self.is_auto_flipping);
        w.write(&self.auto_flip_timer);
        w.write(&self.auto_flip_torque_scale);
        w.write(&self.world_contact);
        w.write(&self.car_contact);
        w.write(&self.is_demoed);
        w.write(&self.demo_respawn_timer);
        w.write(&self.ball_hit_info);
        w.write(&self.last_controls);
        proof {
            lemma_empty_concat(self.update_counter.spec_to_bytes());
        }
        w.inner()
    }
}

impl FromBytes for CarState {
    fn from_bytes(bytes: &[u8]) -> (r: Result<CarState, DecodeError>)
        ensures
            r == decode_prefix::<CarState>(bytes@),
    {
        let mut reader = ByteReader::new(bytes);
        reader.read::<CarState>()
    }
}

/// Configuration of a front or back pair of wheels.
#[derive(Clone, Copy, Debug, PartialEq, Eq, Structural)]
pub struct WheelPairConfig {
    pub wheel_radius: u32,
    pub suspension_rest_length: u32,
    pub connection_point_offset: Vec3,
}

impl FromBytesExact for WheelPairConfig {
    open spec fn spec_num_bytes() -> nat {
        20
    }

    open spec fn spec_from_bytes(buf: Seq<u8>) -> Result<WheelPairConfig, DecodeError> {
        let wheel_radius = decode_at::<u32>(buf, 0);
        let suspension_rest_length = decode_at::<u32>(buf, 4);
        let connection_point_offset = decode_at::<Vec3>(buf, 8);
        Ok(WheelPairConfig {
            wheel_radius: wheel_radius->Ok_0,
            suspension_rest_length: suspension_rest_length->Ok_0,
            connection_point_offset: connection_point_offset->Ok_0,
        })
    }

    fn num_bytes() -> (n: usize) {
        20
    }

    fn from_exact_bytes(bytes: &[u8]) -> (r: Result<WheelPairConfig, DecodeError>) {
        let mut reader = ByteReader::new(bytes);
        let wheel_radius = reader.read::<u32>()?;
        let suspension_rest_length = reader.read::<u32>()?;
        let connection_point_offset = reader.read::<Vec3>()?;
        Ok(WheelPairConfig { wheel_radius, suspension_rest_length, connection_point_offset })
    }
}

impl ToBytesExact for WheelPairConfig {
    open spec fn spec_to_bytes(&self) -> Seq<u8> {
        self.wheel_radius.spec_to_bytes()
            + self.suspension_rest_length.spec_to_bytes()
            + self.connection_point_offset.spec_to_bytes()
    }

    proof fn lemma_round_trip(&self) {
        self.wheel_radius.lemma_round_trip();
        self.suspension_rest_length.lemma_round_trip();
        self.connection_point_offset.lemma_round_trip();
        let b = self.spec_to_bytes();
        assert(b.subrange(0, 4) =~= self.wheel_radius.spec_to_bytes());
        assert(b.subrange(4, 8) =~= self.suspension_rest_length.spec_to_bytes());
        assert(b.subrange(8, 20) =~= self.connection_point_offset.spec_to_bytes());
    }

    fn to_bytes(&self) -> (r: Vec<u8>) {
        let mut w = ByteWriter::new();
        w.write(&self.wheel_radius);
        w.write(&self.suspension_rest_length);
        w.write(&self.connection_point_offset);
        proof {
            lemma_empty_concat(self.wheel_radius.spec_to_bytes());
        }
        w.inner()
    }
}

impl FromBytes for WheelPairConfig {
    fn from_bytes(bytes: &[u8]) -> (r: Result<WheelPairConfig, DecodeError>)
        ensures
            r == decode_prefix::<WheelPairConfig>(bytes@),
    {
        let mut reader = ByteReader::new(bytes);
        reader.read::<WheelPairConfig>()
    }
}

/// Hitbox and wheel configuration of a car body.
#[derive(Clone, Copy, Debug, PartialEq, Eq, Structural)]
pub struct CarConfig {
    pub hitbox_size: Vec3,
    pub hitbox_pos_offset: Vec3,
    pub front_wheels: WheelPairConfig,
    pub back_wheels: WheelPairConfig,
    pub dodge_deadzone: u32,
}

impl FromBytesExact for CarConfig {
    open spec fn spec_num_bytes() -> nat {
        68
    }

    open spec fn spec_from_bytes(buf: Seq<u8>) -> Result<CarConfig, DecodeError> {
        let hitbox_size = decode_at::<Vec3>(buf, 0);
        let hitbox_pos_offset = decode_at::<Vec3>(buf, 12);
        let front_wheels = decode_at::<WheelPairConfig>(buf, 24);
        let back_wheels = decode_at::<WheelPairConfig>(buf, 44);
        let dodge_deadzone = decode_at::<u32>(buf, 64);
        Ok(CarConfig {
            hitbox_size: hitbox_size->Ok_0,
            hitbox_pos_offset: hitbox_pos_offset->Ok_0,
            front_wheels: front_wheels->Ok_0,
            back_wheels: back_wheels->Ok_0,
            dodge_deadzone: dodge_deadzone->Ok_0,
        })
    }

    fn num_bytes() -> (n: usize) {
        68
    }

    fn from_exact_bytes(bytes: &[u8]) -> (r: Result<CarConfig, DecodeError>) {
        let mut reader = ByteReader::new(bytes);
        let hitbox_size = reader.read::<Vec3>()?;
        let hitbox_pos_offset = reader.read::<Vec3>()?;
        let front_wheels = reader.read::<WheelPairConfig>()?;
        let back_wheels = reader.read::<WheelPairConfig>()?;
        let dodge_deadzone = reader.read::<u32>()?;
        Ok(CarConfig { hitbox_size, hitbox_pos_offset, front_wheels, back_wheels, dodge_deadzone })
    }
}

impl ToBytesExact for CarConfig {
    open spec fn spec_to_bytes(&self) -> Seq<u8> {
        self.hitbox_size.spec_to_bytes()
            + self.hitbox_pos_offset.spec_to_bytes()
            + self.front_wheels.spec_to_bytes()
            + self.back_wheels.spec_to_bytes()
            + self.dodge_deadzone.spec_to_bytes()
    }

    proof fn lemma_round_trip(&self) {
        self.hitbox_size.lemma_round_trip();
        self.hitbox_pos_offset.lemma_round_trip();
        self.front_wheels.lemma_round_trip();
        self.back_wheels.lemma_round_trip();
        self.dodge_deadzone.lemma_round_trip();
        let b = self.spec_to_bytes();
        assert(b.subrange(0, 12) =~= self.hitbox_size.spec_to_bytes());
        assert(b.subrange(12, 24) =~= self.hitbox_pos_offset.spec_to_bytes());
        assert(b.subrange(24, 44) =~= self.front_wheels.spec_to_bytes());
        assert(b.subrange(44, 64) =~= self.back_wheels.spec_to_bytes());
        assert(b.subrange(64, 68) =~= self.dodge_deadzone.spec_to_bytes());
    }

    fn to_bytes(&self) -> (r: Vec<u8>) {
        let mut w = ByteWriter::new();
        w.write(&self.hitbox_size);
        w.write(&self.hitbox_pos_offset);
        w.write(&self.front_wheels);
        w.write(&self.back_wheels);
        w.write(&self.dodge_deadzone);
        proof {
            lemma_empty_concat(self.hitbox_size.spec_to_bytes());
        }
        w.inner()
    }
}

impl FromBytes for CarConfig {
    fn from_bytes(bytes: &[u8]) -> (r: Result<CarConfig, DecodeError>)
        ensures
            r == decode_prefix::<CarConfig>(bytes@),
    {
        let mut reader = ByteReader::new(bytes);
        reader.read::<CarConfig>()
    }
}

} // verus!
