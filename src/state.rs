//! Per-car and per-pad records, and the variable-length game state frame.
//!
//! A frame is a fixed header (tick count, tick rate, game mode, pad count,
//! car count), then the ball, then the pads, then the cars. Its total length
//! follows from the header alone, so a reader can peek at the header before it
//! takes the whole frame.
use crate::bytes::{
    concat_bytes, decode_at, decode_prefix, decode_seq, lemma_concat_len, lemma_decode_seq,
    lemma_decode_seq_err, lemma_empty_concat, lemma_split_prefix, lemma_whole, ByteReader,
    ByteWriter, DecodeError, FromBytes, FromBytesExact, ToBytes, ToBytesExact,
};
use crate::math::Vec3;
use crate::sim::{
    BallState, BoostPadConfig, BoostPadState, CarConfig, CarState, GameMode, Team,
};
use vstd::prelude::*;
use vstd::slice::slice_subrange;

verus! {

/// A boost pad: where it is and what it is doing.
#[derive(Clone, Copy, Debug, PartialEq, Eq, Structural)]
pub struct BoostPad {
    pub config: BoostPadConfig,
    pub state: BoostPadState,
}

impl FromBytesExact for BoostPad {
    open spec fn spec_num_bytes() -> nat {
        26
    }

    open spec fn spec_from_bytes(buf: Seq<u8>) -> Result<BoostPad, DecodeError> {
        let config = decode_at::<BoostPadConfig>(buf, 0);
        let state = decode_at::<BoostPadState>(buf, 13);
        if config is Err {
            Err(config->Err_0)
        } else if state is Err {
            Err(state->Err_0)
        } else {
            Ok(BoostPad {
                config: config->Ok_0,
                state: state->Ok_0,
            })
        }
    }

    fn num_bytes() -> (n: usize) {
        26
    }

    fn from_exact_bytes(bytes: &[u8]) -> (r: Result<BoostPad, DecodeError>) {
        let mut reader = ByteReader::new(bytes);
        let config = match reader.read::<BoostPadConfig>() {
            Ok(v) => v,
            Err(e) => return Err(e),
        };
        let state = match reader.read::<BoostPadState>() {
            Ok(v) => v,
            Err(e) => return Err(e),
        };
        Ok(BoostPad { config, state })
    }
}

impl ToBytesExact for BoostPad {
    open spec fn spec_to_bytes(&self) -> Seq<u8> {
        self.config.spec_to_bytes()
            + self.state.spec_to_bytes()
    }

    proof fn lemma_round_trip(&self) {
        self.config.lemma_round_trip();
        self.state.lemma_round_trip();
        let b = self.spec_to_bytes();
        assert(b.subrange(0, 13) =~= self.config.spec_to_bytes());
        assert(b.subrange(13, 26) =~= self.state.spec_to_bytes());
    }

    fn to_bytes(&self) -> (r: Vec<u8>) {
        let mut w = ByteWriter::new();
        w.write(&self.config);
        w.write(&self.state);
        proof {
            lemma_empty_concat(self.config.spec_to_bytes());
        }
        w.inner()
    }
}

impl FromBytes for BoostPad {
    fn from_bytes(bytes: &[u8]) -> (r: Result<BoostPad, DecodeError>)
        ensures
            r == decode_prefix::<BoostPad>(bytes@),
    {
        let mut reader = ByteReader::new(bytes);
        reader.read::<BoostPad>()
    }
}

/// Everything a frame carries about one car.
#[derive(Clone, Copy, Debug, PartialEq, Eq)]
pub struct CarInfo {
    pub id: u32,
    pub team: Team,
    pub state: CarState,
    pub config: CarConfig,
}

impl FromBytesExact for CarInfo {
    open spec fn spec_num_bytes() -> nat {
        319
    }

    open spec fn spec_from_bytes(buf: Seq<u8>) -> Result<CarInfo, DecodeError> {
        let id = decode_at::<u32>(buf, 0);
        let team = decode_at::<Team>(buf, 4);
        let state = decode_at::<CarState>(buf, 5);
        let config = decode_at::<CarConfig>(buf, 251);
        if team is Err {
            Err(team->Err_0)
        } else if state is Err {
            Err(state->Err_0)
        } else {
            Ok(CarInfo {
                id: id->Ok_0,
                team: team->Ok_0,
                state: state->Ok_0,
                config: config->Ok_0,
            })
        }
    }

    fn num_bytes() -> (n: usize) {
        319
    }

    fn from_exact_bytes(bytes: &[u8]) -> (r: Result<CarInfo, DecodeError>) {
        let mut reader = ByteReader::new(bytes);
        let id = reader.read::<u32>()?;
        let team = match reader.read::<Team>() {
            Ok(v) => v,
            Err(e) => return Err(e),
        };
        let state = match reader.read::<CarState>() {
            Ok(v) => v,
            Err(e) => return Err(e),
        };
        let config = reader.read::<CarConfig>()?;
        Ok(CarInfo { id, team, state, config })
    }
}

impl ToBytesExact for CarInfo {
    open spec fn spec_to_bytes(&self) -> Seq<u8> {
        self.id.spec_to_bytes()
            + self.team.spec_to_bytes()
            + self.state.spec_to_bytes()
            + self.config.spec_to_bytes()
    }

    proof fn lemma_round_trip(&self) {
        self.id.lemma_round_trip();
        self.team.lemma_round_trip();
        self.state.lemma_round_trip();
        self.config.lemma_round_trip();
        let b = self.spec_to_bytes();
        assert(b.subrange(0, 4) =~= self.id.spec_to_bytes());
        assert(b.subrange(4, 5) =~= self.team.spec_to_bytes());
        assert(b.subrange(5, 251) =~= self.state.spec_to_bytes());
        assert(b.subrange(251, 319) =~= self.config.spec_to_bytes());
    }

    fn to_bytes(&self) -> (r: Vec<u8>) {
        let mut w = ByteWriter::new();
        w.write(&self.id);
        w.write(&self.team);
        w.write(&self.state);
        w.write(&self.config);
        proof {
            lemma_empty_concat(self.id.spec_to_bytes());
        }
        w.inner()
    }
}

impl FromBytes for CarInfo {
    fn from_bytes(bytes: &[u8]) -> (r: Result<CarInfo, DecodeError>)
        ensures
            r == decode_prefix::<CarInfo>(bytes@),
    {
        let mut reader = ByteReader::new(bytes);
        reader.read::<CarInfo>()
    }
}

/// The length of a frame's header.
pub const HEADER_NUM_BYTES: usize = 21;

/// A snapshot of a whole arena, as a frame carries it.
#[derive(Clone, Debug)]
pub struct GameState {
    pub tick_count: u64,
    /// Ticks per second, as an IEEE-754 single-precision bit pattern.
    pub tick_rate: u32,
    pub game_mode: GameMode,
    pub ball: BallState,
    pub pads: Vec<BoostPad>,
    pub cars: Vec<CarInfo>,
}

/// The mathematical content of a [`GameState`].
pub struct GameStateView {
    pub tick_count: u64,
    pub tick_rate: u32,
    pub game_mode: GameMode,
    pub ball: BallState,
    pub pads: Seq<BoostPad>,
    pub cars: Seq<CarInfo>,
}

impl View for GameState {
    type V = GameStateView;

    open spec fn view(&self) -> GameStateView {
        GameStateView {
            tick_count: self.tick_count,
            tick_rate: self.tick_rate,
            game_mode: self.game_mode,
            ball: self.ball,
            pads: self.pads@,
            cars: self.cars@,
        }
    }
}

/// The length of a frame holding `num_pads` pads and `num_cars` cars.
pub open spec fn frame_len(num_pads: nat, num_cars: nat) -> nat {
    113 + 26 * num_pads + 319 * num_cars
}

/// The header of a frame.
pub open spec fn header_bytes(
    tick_count: u64,
    tick_rate: u32,
    game_mode: GameMode,
    num_pads: u32,
    num_cars: u32,
) -> Seq<u8> {
    tick_count.spec_to_bytes() + tick_rate.spec_to_bytes() + game_mode.spec_to_bytes()
        + num_pads.spec_to_bytes() + num_cars.spec_to_bytes()
}

/// The frame that encodes `v`; the counts in its header are the list lengths.
pub open spec fn frame_bytes(v: GameStateView) -> Seq<u8> {
    header_bytes(v.tick_count, v.tick_rate, v.game_mode, v.pads.len() as u32, v.cars.len() as u32)
        + v.ball.spec_to_bytes() + concat_bytes(v.pads) + concat_bytes(v.cars)
}

/// The pad count that a header announces.
pub open spec fn header_num_pads(b: Seq<u8>) -> nat {
    decode_at::<u32>(b, 13)->Ok_0 as nat
}

/// The car count that a header announces.
pub open spec fn header_num_cars(b: Seq<u8>) -> nat {
    decode_at::<u32>(b, 17)->Ok_0 as nat
}

/// What a buffer holding a frame decodes to. Bytes past the frame's length are ignored.
pub open spec fn decode_frame(b: Seq<u8>) -> Result<GameStateView, DecodeError> {
    if b.len() < 21 {
        Err(DecodeError::Truncated)
    } else if decode_at::<GameMode>(b, 12) is Err {
        Err(DecodeError::InvalidGameMode)
    } else if b.len() < frame_len(header_num_pads(b), header_num_cars(b)) {
        Err(DecodeError::Truncated)
    } else {
        let pads = decode_seq::<BoostPad>(b, 113, header_num_pads(b));
        let cars = decode_seq::<CarInfo>(b, (113 + 26 * header_num_pads(b)) as int, header_num_cars(b));
        if pads is Err {
            Err(pads->Err_0)
        } else if cars is Err {
            Err(cars->Err_0)
        } else {
            Ok(
                GameStateView {
                    tick_count: decode_at::<u64>(b, 0)->Ok_0,
                    tick_rate: decode_at::<u32>(b, 8)->Ok_0,
                    game_mode: decode_at::<GameMode>(b, 12)->Ok_0,
                    ball: decode_at::<BallState>(b, 21)->Ok_0,
                    pads: pads->Ok_0,
                    cars: cars->Ok_0,
                },
            )
        }
    }
}

impl GameState {
    pub fn read_tick_count(bytes: &[u8]) -> (r: u64)
        requires
            bytes@.len() >= 21,
        ensures
            r == decode_at::<u64>(bytes@, 0)->Ok_0,
    {
        match u64::from_exact_bytes(slice_subrange(bytes, 0, 8)) {
            Ok(v) => v,
            Err(_) => 0,
        }
    }

    /// The tick rate, as an IEEE-754 single-precision bit pattern.
    pub fn read_tick_rate(bytes: &[u8]) -> (r: u32)
        requires
            bytes@.len() >= 21,
        ensures
            r == decode_at::<u32>(bytes@, 8)->Ok_0,
    {
        match u32::from_exact_bytes(slice_subrange(bytes, 8, 12)) {
            Ok(v) => v,
            Err(_) => 0,
        }
    }

    pub fn read_game_mode(bytes: &[u8]) -> (r: Result<GameMode, DecodeError>)
        requires
            bytes@.len() >= 21,
        ensures
            r == decode_at::<GameMode>(bytes@, 12),
    {
        GameMode::from_exact_bytes(slice_subrange(bytes, 12, 13))
    }

    pub fn read_num_pads(bytes: &[u8]) -> (r: usize)
        requires
            bytes@.len() >= 21,
        ensures
            r == header_num_pads(bytes@),
    {
        match u32::from_exact_bytes(slice_subrange(bytes, 13, 17)) {
            Ok(v) => v as usize,
            Err(_) => 0,
        }
    }

    pub fn read_num_cars(bytes: &[u8]) -> (r: usize)
        requires
            bytes@.len() >= 21,
        ensures
            r == header_num_cars(bytes@),
    {
        match u32::from_exact_bytes(slice_subrange(bytes, 17, 21)) {
            Ok(v) => v as usize,
            Err(_) => 0,
        }
    }

    /// The length of the whole frame whose header starts `bytes`.
    pub fn get_num_bytes(bytes: &[u8]) -> (r: u64)
        requires
            bytes@.len() >= 21,
        ensures
            r == frame_len(header_num_pads(bytes@), header_num_cars(bytes@)),
    {
        let num_pads = Self::read_num_pads(bytes) as u64;
        let num_cars = Self::read_num_cars(bytes) as u64;
        113 + 26 * num_pads + 319 * num_cars
    }
}

impl FromBytes for GameState {
    fn from_bytes(bytes: &[u8]) -> (r: Result<GameState, DecodeError>)
        ensures
            match r {
                Ok(gs) => decode_frame(bytes@) == Ok::<GameStateView, DecodeError>(gs@),
                Err(e) => decode_frame(bytes@) == Err::<GameStateView, DecodeError>(e),
            },
    {
        if bytes.len() < HEADER_NUM_BYTES {
            return Err(DecodeError::Truncated);
        }
        let mut reader = ByteReader::new(bytes);
        let tick_count = reader.read::<u64>()?;
        let tick_rate = reader.read::<u32>()?;
        let game_mode = match reader.read::<GameMode>() {
            Ok(m) => m,
            Err(e) => return Err(e),
        };
        let num_pads = reader.read::<u32>()? as usize;
        let num_cars = reader.read::<u32>()? as usize;
        if (bytes.len() as u64) < Self::get_num_bytes(bytes) {
            return Err(DecodeError::Truncated);
        }
        let ball = reader.read::<BallState>()?;
        let pads = match reader.read_many::<BoostPad>(num_pads) {
            Ok(v) => v,
            Err(e) => return Err(e),
        };
        let cars = match reader.read_many::<CarInfo>(num_cars) {
            Ok(v) => v,
            Err(e) => return Err(e),
        };
        Ok(GameState { tick_count, tick_rate, game_mode, ball, pads, cars })
    }
}

impl GameState {
    /// The length of this state's frame: header, ball, then each pad and car.
    pub fn count_bytes(&self) -> (r: u64)
        requires
            self.pads@.len() <= u32::MAX,
            self.cars@.len() <= u32::MAX,
        ensures
            r == frame_len(self.pads@.len(), self.cars@.len()),
            r == frame_bytes(self@).len(),
    {
        proof {
            lemma_frame_layout(self@);
        }
        113 + 26 * (self.pads.len() as u64) + 319 * (self.cars.len() as u64)
    }
}

impl ToBytes for GameState {
    fn to_bytes(&self) -> (r: Vec<u8>)
        ensures
            r@ == frame_bytes(self@),
    {
        let mut w = ByteWriter::new();
        w.write(&self.tick_count);
        w.write(&self.tick_rate);
        w.write(&self.game_mode);
        w.write(&(self.pads.len() as u32));
        w.write(&(self.cars.len() as u32));
        w.write(&self.ball);
        w.write_many(self.pads.as_slice());
        w.write_many(self.cars.as_slice());
        proof {
            lemma_empty_concat(self.tick_count.spec_to_bytes());
        }
        w.inner()
    }
}

/// Where each part of a frame sits in the frame.
proof fn lemma_frame_layout(v: GameStateView)
    requires
        v.pads.len() <= u32::MAX,
        v.cars.len() <= u32::MAX,
    ensures
        ({
            let b = frame_bytes(v);
            let np = v.pads.len() as int;
            let nc = v.cars.len() as int;
            &&& b.len() == frame_len(v.pads.len(), v.cars.len())
            &&& b.subrange(0, 8) == v.tick_count.spec_to_bytes()
            &&& b.subrange(8, 12) == v.tick_rate.spec_to_bytes()
            &&& b.subrange(12, 13) == v.game_mode.spec_to_bytes()
            &&& b.subrange(13, 17) == (np as u32).spec_to_bytes()
            &&& b.subrange(17, 21) == (nc as u32).spec_to_bytes()
            &&& b.subrange(21, 113) == v.ball.spec_to_bytes()
            &&& b.subrange(113, 113 + 26 * np) == concat_bytes(v.pads)
            &&& b.subrange(113 + 26 * np, 113 + 26 * np + 319 * nc) == concat_bytes(v.cars)
        }),
{
    let np = v.pads.len() as u32;
    let nc = v.cars.len() as u32;
    v.tick_count.lemma_round_trip();
    v.tick_rate.lemma_round_trip();
    v.game_mode.lemma_round_trip();
    np.lemma_round_trip();
    nc.lemma_round_trip();
    v.ball.lemma_round_trip();
    lemma_concat_len(v.pads);
    lemma_concat_len(v.cars);
    let t = v.tick_count.spec_to_bytes();
    let r = v.tick_rate.spec_to_bytes();
    let m = v.game_mode.spec_to_bytes();
    let p = np.spec_to_bytes();
    let c = nc.spec_to_bytes();
    let h = t + r + m + p + c;
    let ball = v.ball.spec_to_bytes();
    let pads = concat_bytes(v.pads);
    let cars = concat_bytes(v.cars);
    let b = frame_bytes(v);
    lemma_whole(b);
    lemma_split_prefix(b, h + ball + pads, cars);
    lemma_split_prefix(b, h + ball, pads);
    lemma_split_prefix(b, h, ball);
    lemma_split_prefix(b, t + r + m + p, c);
    lemma_split_prefix(b, t + r + m, p);
    lemma_split_prefix(b, t + r, m);
    lemma_split_prefix(b, t, r);
}

/// Decoding the encoding of a game state gives the game state back.
pub proof fn lemma_frame_round_trip(v: GameStateView)
    requires
        v.pads.len() <= u32::MAX,
        v.cars.len() <= u32::MAX,
    ensures
        decode_frame(frame_bytes(v)) == Ok::<GameStateView, DecodeError>(v),
{
    let b = frame_bytes(v);
    let np = v.pads.len() as int;
    let nc = v.cars.len() as int;
    lemma_frame_layout(v);
    v.tick_count.lemma_round_trip();
    v.tick_rate.lemma_round_trip();
    v.game_mode.lemma_round_trip();
    (np as u32).lemma_round_trip();
    (nc as u32).lemma_round_trip();
    v.ball.lemma_round_trip();
    lemma_decode_seq(b, 113, v.pads);
    lemma_decode_seq(b, 113 + 26 * np, v.cars);
}

/// The total size computed from the header of an encoded game state alone is
/// the length of its encoding.
pub proof fn lemma_total_size(v: GameStateView)
    requires
        v.pads.len() <= u32::MAX,
        v.cars.len() <= u32::MAX,
    ensures
        ({
            let header = frame_bytes(v).subrange(0, 21);
            frame_len(header_num_pads(header), header_num_cars(header)) == frame_bytes(v).len()
        }),
{
    let b = frame_bytes(v);
    lemma_frame_layout(v);
    (v.pads.len() as u32).lemma_round_trip();
    (v.cars.len() as u32).lemma_round_trip();
    assert(b.subrange(0, 21).subrange(13, 17) =~= b.subrange(13, 17));
    assert(b.subrange(0, 21).subrange(17, 21) =~= b.subrange(17, 21));
}

/// Any buffer shorter than an encoded game state's frame, holding its first
/// bytes, fails to decode as truncated.
pub proof fn lemma_truncated_frame(v: GameStateView, k: int)
    requires
        v.pads.len() <= u32::MAX,
        v.cars.len() <= u32::MAX,
        0 <= k < frame_bytes(v).len(),
    ensures
        decode_frame(frame_bytes(v).subrange(0, k)) == Err::<GameStateView, DecodeError>(
            DecodeError::Truncated,
        ),
{
    let b = frame_bytes(v);
    let s = b.subrange(0, k);
    lemma_frame_layout(v);
    v.game_mode.lemma_round_trip();
    (v.pads.len() as u32).lemma_round_trip();
    (v.cars.len() as u32).lemma_round_trip();
    if k >= 21 {
        assert(s.subrange(12, 13) =~= b.subrange(12, 13));
        assert(s.subrange(13, 17) =~= b.subrange(13, 17));
        assert(s.subrange(17, 21) =~= b.subrange(17, 21));
    }
}

} // verus!
