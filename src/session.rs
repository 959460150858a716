//! The decisions of the synchronisation session with a viewer.
//!
//! The session never touches a socket, a clock or the engine. Its driver hands
//! it each inbound datagram (tag byte followed by payload) and asks it, once per
//! loop iteration, what to do; the session answers with plain values.
use crate::bytes::{decode_at, DecodeError, FromBytes, FromBytesExact};
use crate::state::{decode_frame, GameState, GameStateView};
use vstd::prelude::*;
use vstd::slice::slice_subrange;

verus! {

/// The one-byte tag that opens every datagram.
#[derive(Clone, Copy, Debug, PartialEq, Eq, Structural)]
pub enum PacketType {
    Quit,
    GameState,
    Connection,
    Paused,
    Speed,
    Render,
}

impl PacketType {
    pub open spec fn spec_tag(&self) -> u8 {
        match self {
            PacketType::Quit => 0,
            PacketType::GameState => 1,
            PacketType::Connection => 2,
            PacketType::Paused => 3,
            PacketType::Speed => 4,
            PacketType::Render => 5,
        }
    }

    pub open spec fn spec_from_tag(tag: u8) -> Option<PacketType> {
        if tag == 0 {
            Some(PacketType::Quit)
        } else if tag == 1 {
            Some(PacketType::GameState)
        } else if tag == 2 {
            Some(PacketType::Connection)
        } else if tag == 3 {
            Some(PacketType::Paused)
        } else if tag == 4 {
            Some(PacketType::Speed)
        } else if tag == 5 {
            Some(PacketType::Render)
        } else {
            None
        }
    }

    pub fn tag(&self) -> (r: u8)
        ensures
            r == self.spec_tag(),
    {
        match self {
            PacketType::Quit => 0,
            PacketType::GameState => 1,
            PacketType::Connection => 2,
            PacketType::Paused => 3,
            PacketType::Speed => 4,
            PacketType::Render => 5,
        }
    }

    pub fn from_tag(tag: u8) -> (r: Option<PacketType>)
        ensures
            r == PacketType::spec_from_tag(tag),
    {
        match tag {
            0 => Some(PacketType::Quit),
            1 => Some(PacketType::GameState),
            2 => Some(PacketType::Connection),
            3 => Some(PacketType::Paused),
            4 => Some(PacketType::Speed),
            5 => Some(PacketType::Render),
            _ => None,
        }
    }
}

/// Where the session stands.
#[derive(Clone, Copy, Debug, PartialEq, Eq, Structural)]
pub enum Phase {
    /// Bound locally; no peer known.
    Disconnected,
    /// The connection tag was sent; waiting for the peer's first byte.
    Handshaking,
    /// Exchanging frames.
    Connected,
    /// Quit was decided; nothing more is sent after the quit tag.
    Disconnecting,
}

/// What a handled inbound datagram asks the driver to do.
#[derive(Clone, Debug)]
pub enum Inbound {
    /// Apply this state to the engine, car by car; a car that cannot be found
    /// is reported and skipped.
    ApplyState(GameState),
    /// The peer announced itself; nothing to do.
    Connection,
    /// The playback speed is now this positive, finite float (bit pattern):
    /// the loop interval becomes the base interval divided by it.
    SpeedChanged(u32),
    /// Stepping is now paused (`true`) or running (`false`).
    PauseChanged(bool),
    /// The peer asked to quit: send the quit tag and stop.
    Quit,
}

/// Why an inbound datagram was refused.
#[derive(Clone, Copy, Debug, PartialEq, Eq, Structural)]
pub enum SessionError {
    /// The session is not connected.
    NotConnected,
    /// The datagram is empty.
    Empty,
    /// The tag byte names no packet type.
    UnknownPacketType(u8),
    /// A packet type that a viewer never sends.
    UnexpectedPacket(PacketType),
    /// A speed that is not a positive, finite float (bit pattern).
    InvalidSpeed(u32),
    /// The payload could not be decoded.
    Decode(DecodeError),
}

/// What to do with the engine in this iteration.
#[derive(Clone, Copy, Debug, PartialEq, Eq, Structural)]
pub enum TickAction {
    /// Advance the engine one tick, then send the game state tag and the frame.
    StepAndSend,
    /// Paused: leave the engine alone and send nothing.
    Wait,
    /// The session is over (or not yet connected): send nothing.
    Stop,
}

/// How long to sleep and the deadline of the next iteration, in nanoseconds.
#[derive(Clone, Copy, Debug, PartialEq, Eq, Structural)]
pub struct Pacing {
    pub sleep_nanos: u64,
    pub next_deadline: u64,
}

/// The bit pattern of the float 1.0: the speed a session starts at.
pub const SPEED_ONE: u32 = 0x3F80_0000;

/// The bit pattern of positive infinity; every smaller positive pattern is a
/// positive finite float.
pub const POSITIVE_INFINITY: u32 = 0x7F80_0000;

/// How many inbound datagrams one iteration handles at most, so that a flood
/// cannot stall the loop.
pub const MAX_PACKETS_PER_TICK: u32 = 256;

/// Whether `bits` is the pattern of a positive, finite float.
pub open spec fn valid_speed(bits: u32) -> bool {
    0 < bits < POSITIVE_INFINITY
}

/// The session's state.
pub struct Session {
    phase: Phase,
    paused: bool,
    speed: u32,
    received: u32,
}

impl Session {
    pub closed spec fn spec_phase(&self) -> Phase {
        self.phase
    }

    pub closed spec fn spec_paused(&self) -> bool {
        self.paused
    }

    /// The playback speed, as a float bit pattern.
    pub closed spec fn spec_speed(&self) -> u32 {
        self.speed
    }

    /// How many datagrams this iteration has handled.
    pub closed spec fn spec_received(&self) -> u32 {
        self.received
    }

    pub open spec fn wf(&self) -> bool {
        &&& valid_speed(self.spec_speed())
        &&& self.spec_received() <= MAX_PACKETS_PER_TICK
    }

    pub fn new() -> (r: Session)
        ensures
            r.wf(),
            r.spec_phase() == Phase::Disconnected,
            !r.spec_paused(),
            r.spec_speed() == SPEED_ONE,
            r.spec_received() == 0,
    {
        Session { phase: Phase::Disconnected, paused: false, speed: SPEED_ONE, received: 0 }
    }

    pub fn phase(&self) -> (r: Phase)
        ensures
            r == self.spec_phase(),
    {
        self.phase
    }

    pub fn paused(&self) -> (r: bool)
        ensures
            r == self.spec_paused(),
    {
        self.paused
    }

    /// The playback speed, as a float bit pattern.
    pub fn speed(&self) -> (r: u32)
        ensures
            r == self.spec_speed(),
    {
        self.speed
    }

    /// Starts the handshake: from `Disconnected`, returns the connection tag to
    /// send to the peer and moves to `Handshaking`; otherwise changes nothing.
    pub fn start_handshake(&mut self) -> (r: Option<u8>)
        requires
            old(self).wf(),
        ensures
            final(self).wf(),
            old(self).spec_phase() == Phase::Disconnected ==> {
                &&& r == Some(PacketType::Connection.spec_tag())
                &&& final(self).spec_phase() == Phase::Handshaking
            },
            old(self).spec_phase() != Phase::Disconnected ==> {
                &&& r.is_none()
                &&& final(self).spec_phase() == old(self).spec_phase()
            },
            final(self).spec_paused() == old(self).spec_paused(),
            final(self).spec_speed() == old(self).spec_speed(),
            final(self).spec_received() == old(self).spec_received(),
    {
        if self.phase == Phase::Disconnected {
            self.phase = Phase::Handshaking;
            Some(PacketType::Connection.tag())
        } else {
            None
        }
    }

    /// The peer's first byte arrived: from `Handshaking`, moves to `Connected`
    /// and returns `true`; otherwise changes nothing and returns `false`.
    pub fn peer_replied(&mut self) -> (r: bool)
        requires
            old(self).wf(),
        ensures
            final(self).wf(),
            r == (old(self).spec_phase() == Phase::Handshaking),
            final(self).spec_phase() == if r {
                Phase::Connected
            } else {
                old(self).spec_phase()
            },
            final(self).spec_paused() == old(self).spec_paused(),
            final(self).spec_speed() == old(self).spec_speed(),
            final(self).spec_received() == old(self).spec_received(),
    {
        if self.phase == Phase::Handshaking {
            self.phase = Phase::Connected;
            true
        } else {
            false
        }
    }

    /// Starts a loop iteration. When connected and `cancelled`, moves to
    /// `Disconnecting` and returns the quit tag to send before stopping.
    /// Otherwise the count of datagrams handled is reset and nothing is sent.
    pub fn begin_iteration(&mut self, cancelled: bool) -> (r: Option<u8>)
        requires
            old(self).wf(),
        ensures
            final(self).wf(),
            (old(self).spec_phase() == Phase::Connected && cancelled) ==> {
                &&& r == Some(PacketType::Quit.spec_tag())
                &&& final(self).spec_phase() == Phase::Disconnecting
            },
            !(old(self).spec_phase() == Phase::Connected && cancelled) ==> {
                &&& r.is_none()
                &&& final(self).spec_phase() == old(self).spec_phase()
            },
            final(self).spec_paused() == old(self).spec_paused(),
            final(self).spec_speed() == old(self).spec_speed(),
            final(self).spec_received() == 0,
    {
        self.received = 0;
        if self.phase == Phase::Connected && cancelled {
            self.phase = Phase::Disconnecting;
            Some(PacketType::Quit.tag())
        } else {
            None
        }
    }

    /// Whether another inbound datagram may be handled in this iteration.
    pub fn may_receive(&self) -> (r: bool)
        ensures
            r == (self.spec_phase() == Phase::Connected && self.spec_received()
                < MAX_PACKETS_PER_TICK),
    {
        self.phase == Phase::Connected && self.received < MAX_PACKETS_PER_TICK
    }

    /// Handles one inbound datagram: its tag byte, then its payload.
    pub fn handle_packet(&mut self, packet: &[u8]) -> (r: Result<Inbound, SessionError>)
        requires
            old(self).wf(),
        ensures
            final(self).wf(),
            outcome(*old(self), packet@, r, *final(self)),
    {
        if self.phase != Phase::Connected {
            return Err(SessionError::NotConnected);
        }
        if self.received < MAX_PACKETS_PER_TICK {
            self.received = self.received + 1;
        }
        if packet.len() == 0 {
            return Err(SessionError::Empty);
        }
        let payload = slice_subrange(packet, 1, packet.len());
        match PacketType::from_tag(packet[0]) {
            None => Err(SessionError::UnknownPacketType(packet[0])),
            Some(PacketType::Quit) => {
                self.phase = Phase::Disconnecting;
                Ok(Inbound::Quit)
            },
            Some(PacketType::GameState) => match GameState::from_bytes(payload) {
                Ok(state) => Ok(Inbound::ApplyState(state)),
                Err(e) => Err(SessionError::Decode(e)),
            },
            Some(PacketType::Connection) => Ok(Inbound::Connection),
            Some(PacketType::Paused) => {
                if payload.len() < 1 {
                    return Err(SessionError::Decode(DecodeError::Truncated));
                }
                match bool::from_exact_bytes(slice_subrange(payload, 0, 1)) {
                    Ok(paused) => {
                        self.paused = paused;
                        Ok(Inbound::PauseChanged(paused))
                    },
                    Err(e) => Err(SessionError::Decode(e)),
                }
            },
            Some(PacketType::Speed) => {
                if payload.len() < 4 {
                    return Err(SessionError::Decode(DecodeError::Truncated));
                }
                let bits = match u32::from_exact_bytes(slice_subrange(payload, 0, 4)) {
                    Ok(b) => b,
                    Err(e) => return Err(SessionError::Decode(e)),
                };
                if 0 < bits && bits < POSITIVE_INFINITY {
                    self.speed = bits;
                    Ok(Inbound::SpeedChanged(bits))
                } else {
                    Err(SessionError::InvalidSpeed(bits))
                }
            },
            Some(PacketType::Render) => Err(SessionError::UnexpectedPacket(PacketType::Render)),
        }
    }

    /// What to do with the engine once the inbound datagrams are handled.
    pub fn tick_action(&self) -> (r: TickAction)
        ensures
            r == spec_tick_action(self.spec_phase(), self.spec_paused()),
    {
        if self.phase != Phase::Connected {
            TickAction::Stop
        } else if self.paused {
            TickAction::Wait
        } else {
            TickAction::StepAndSend
        }
    }
}

pub open spec fn spec_tick_action(phase: Phase, paused: bool) -> TickAction {
    if phase != Phase::Connected {
        TickAction::Stop
    } else if paused {
        TickAction::Wait
    } else {
        TickAction::StepAndSend
    }
}

/// How handling `packet` takes the session from `s` to `t` with result `r`.
pub open spec fn outcome(
    s: Session,
    packet: Seq<u8>,
    r: Result<Inbound, SessionError>,
    t: Session,
) -> bool {
    let payload = packet.subrange(1, packet.len() as int);
    if s.spec_phase() != Phase::Connected {
        &&& r == Err::<Inbound, SessionError>(SessionError::NotConnected)
        &&& t == s
    } else {
        &&& t.spec_received() == if s.spec_received() < MAX_PACKETS_PER_TICK {
            (s.spec_received() + 1) as u32
        } else {
            s.spec_received()
        }
        &&& if packet.len() == 0 {
            &&& r == Err::<Inbound, SessionError>(SessionError::Empty)
            &&& unchanged_but_count(s, t)
        } else {
            match PacketType::spec_from_tag(packet[0]) {
                None => {
                    &&& r == Err::<Inbound, SessionError>(
                        SessionError::UnknownPacketType(packet[0]),
                    )
                    &&& unchanged_but_count(s, t)
                },
                Some(PacketType::Quit) => {
                    &&& r matches Ok(Inbound::Quit)
                    &&& t.spec_phase() == Phase::Disconnecting
                    &&& t.spec_paused() == s.spec_paused()
                    &&& t.spec_speed() == s.spec_speed()
                },
                Some(PacketType::GameState) => {
                    &&& unchanged_but_count(s, t)
                    &&& match r {
                        Ok(Inbound::ApplyState(state)) => decode_frame(payload) == Ok::<
                            GameStateView,
                            DecodeError,
                        >(state@),
                        Err(SessionError::Decode(e)) => decode_frame(payload) == Err::<
                            GameStateView,
                            DecodeError,
                        >(e),
                        _ => false,
                    }
                },
                Some(PacketType::Connection) => {
                    &&& r matches Ok(Inbound::Connection)
                    &&& unchanged_but_count(s, t)
                },
                Some(PacketType::Paused) => {
                    &&& t.spec_phase() == s.spec_phase()
                    &&& t.spec_speed() == s.spec_speed()
                    &&& if payload.len() < 1 {
                        &&& r == Err::<Inbound, SessionError>(
                            SessionError::Decode(DecodeError::Truncated),
                        )
                        &&& t.spec_paused() == s.spec_paused()
                    } else {
                        match decode_at::<bool>(payload, 0) {
                            Ok(p) => {
                                &&& r matches Ok(Inbound::PauseChanged(q)) && q == p
                                &&& t.spec_paused() == p
                            },
                            Err(e) => {
                                &&& r == Err::<Inbound, SessionError>(SessionError::Decode(e))
                                &&& t.spec_paused() == s.spec_paused()
                            },
                        }
                    }
                },
                Some(PacketType::Speed) => {
                    &&& t.spec_phase() == s.spec_phase()
                    &&& t.spec_paused() == s.spec_paused()
                    &&& if payload.len() < 4 {
                        &&& r == Err::<Inbound, SessionError>(
                            SessionError::Decode(DecodeError::Truncated),
                        )
                        &&& t.spec_speed() == s.spec_speed()
                    } else {
                        let bits = decode_at::<u32>(payload, 0)->Ok_0;
                        if valid_speed(bits) {
                            &&& r matches Ok(Inbound::SpeedChanged(b)) && b == bits
                            &&& t.spec_speed() == bits
                        } else {
                            &&& r == Err::<Inbound, SessionError>(SessionError::InvalidSpeed(bits))
                            &&& t.spec_speed() == s.spec_speed()
                        }
                    }
                },
                Some(PacketType::Render) => {
                    &&& r == Err::<Inbound, SessionError>(
                        SessionError::UnexpectedPacket(PacketType::Render),
                    )
                    &&& unchanged_but_count(s, t)
                },
            }
        }
    }
}

/// `t` is `s` with at most the count of handled datagrams changed.
pub open spec fn unchanged_but_count(s: Session, t: Session) -> bool {
    &&& t.spec_phase() == s.spec_phase()
    &&& t.spec_paused() == s.spec_paused()
    &&& t.spec_speed() == s.spec_speed()
}

/// Sleeps until the iteration's absolute deadline and sets the next deadline
/// one interval after it; an iteration that overran its deadline proceeds at
/// once, and the next deadline is one interval after now, so that late
/// iterations are not made up in a burst.
pub fn pace(now: u64, deadline: u64, interval: u64) -> (r: Pacing)
    ensures
        now < deadline ==> r.sleep_nanos == deadline - now,
        now >= deadline ==> r.sleep_nanos == 0,
        r.next_deadline == if now < deadline {
            if deadline + interval <= u64::MAX { (deadline + interval) as u64 } else { u64::MAX }
        } else {
            if now + interval <= u64::MAX { (now + interval) as u64 } else { u64::MAX }
        },
{
    if now < deadline {
        Pacing { sleep_nanos: deadline - now, next_deadline: deadline.saturating_add(interval) }
    } else {
        Pacing { sleep_nanos: 0, next_deadline: now.saturating_add(interval) }
    }
}

} // verus!
