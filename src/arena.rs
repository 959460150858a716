//! Plain records and decisions of the arena interface that do not need the
//! engine itself.
use vstd::array::array_fill_for_copy_types;
use vstd::prelude::*;

verus! {

/// How far the engine's global initialisation has come.
#[derive(Clone, Copy, Debug, Hash, PartialEq, Eq, Structural)]
pub enum Stages {
    Uninitialized,
    Initializing,
    Initialized,
}

/// A car id that names no car of the arena.
#[derive(Clone, Copy, Debug, PartialEq, Eq, Structural)]
pub struct NoCarFound(pub u32);

impl NoCarFound {
    /// The outcome of an engine call on a car, from whether the engine found it.
    pub fn check(found: bool, car_id: u32) -> (r: Result<(), NoCarFound>)
        ensures
            found ==> r == Ok::<(), NoCarFound>(()),
            !found ==> r == Err::<(), NoCarFound>(NoCarFound(car_id)),
    {
        if found {
            Ok(())
        } else {
            Err(NoCarFound(car_id))
        }
    }
}

/// The seed handed to the engine to reset to a kickoff: the given seed, or
/// `-1` for a random one.
pub fn kickoff_seed(seed: Option<u32>) -> (r: i32)
    ensures
        r == match seed {
            Some(s) => s as i32,
            None => -1i32,
        },
{
    match seed {
        Some(s) => s as i32,
        None => -1,
    }
}

/// The damage of a dropshot tile.
#[derive(Clone, Copy, Debug, PartialEq, Eq, Structural)]
pub enum TileState {
    Full,
    Damaged,
    Broken,
}

impl TileState {
    pub open spec fn spec_from_damage(value: u8) -> Result<TileState, ()> {
        if value == 0 {
            Ok(TileState::Full)
        } else if value == 1 {
            Ok(TileState::Damaged)
        } else if value == 2 {
            Ok(TileState::Broken)
        } else {
            Err(())
        }
    }

    /// The tile state a damage byte stands for.
    pub fn from_damage(value: u8) -> (r: Result<TileState, ()>)
        ensures
            r == TileState::spec_from_damage(value),
    {
        match value {
            0 => Ok(TileState::Full),
            1 => Ok(TileState::Damaged),
            2 => Ok(TileState::Broken),
            _ => Err(()),
        }
    }
}

/// The damage state of one dropshot tile, as the engine stores it.
#[derive(Clone, Copy, Debug, PartialEq, Eq, Structural)]
pub struct DropshotTileState {
    pub damage_state: u8,
}

impl DropshotTileState {
    pub const STATE_FULL: u8 = 0;
    pub const STATE_DAMAGED: u8 = 1;
    pub const STATE_BROKEN: u8 = 2;

    pub fn new(damage_state: u8) -> (r: Self)
        requires
            damage_state <= 2,
        ensures
            r.damage_state == damage_state,
    {
        DropshotTileState { damage_state }
    }

    /// The tile's damage as a [`TileState`].
    pub fn state(&self) -> (r: Result<TileState, ()>)
        ensures
            r == TileState::spec_from_damage(self.damage_state),
    {
        TileState::from_damage(self.damage_state)
    }
}

impl Default for DropshotTileState {
    fn default() -> (r: Self)
        ensures
            r.damage_state == 0,
    {
        DropshotTileState::new(0)
    }
}

/// The damage states of all dropshot tiles: 70 per team, blue then orange.
#[derive(Clone, Copy, Debug)]
pub struct DropshotTilesState {
    pub states: [[DropshotTileState; 70]; 2],
}

impl DropshotTilesState {
    pub fn new(damage_state: u8) -> (r: Self)
        requires
            damage_state <= 2,
        ensures
            forall|team: int, i: int|
                0 <= team < 2 && 0 <= i < 70 ==> (#[trigger] r.states[team][i]).damage_state
                    == damage_state,
    {
        let tile = DropshotTileState::new(damage_state);
        let row = array_fill_for_copy_types::<DropshotTileState, 70>(tile);
        let states = array_fill_for_copy_types::<[DropshotTileState; 70], 2>(row);
        DropshotTilesState { states }
    }
}

impl Default for DropshotTilesState {
    fn default() -> (r: Self)
        ensures
            forall|team: int, i: int|
                0 <= team < 2 && 0 <= i < 70 ==> (#[trigger] r.states[team][i]).damage_state == 0,
    {
        DropshotTilesState::new(0)
    }
}

} // verus!
