//! A fortress world stored as a stack of tile layers, one per height, with the
//! rules that decide which tiles are solid, which are shown for the height the
//! viewer looks at, and how dark the overlay above each shown tile is.

use vstd::prelude::*;

pub mod camera;
pub mod map_gen;
pub mod texture_loader;
pub mod tiles;

verus! {

/// The stages a session passes through, in order.
#[derive(Debug, Clone, Copy, PartialEq, Eq, Structural, Hash)]
pub enum GameState {
    InitalizeAssets,
    MainMenu,
    WorldGen,
    Game,
}

impl GameState {
    /// The number of a stage: its place in the order, counted from zero.
    pub open spec fn number(self) -> u8 {
        match self {
            GameState::InitalizeAssets => 0,
            GameState::MainMenu => 1,
            GameState::WorldGen => 2,
            GameState::Game => 3,
        }
    }

    /// The number of the stage.
    pub fn int_value(self) -> (value: u8)
        ensures
            value == self.number(),
    {
        match self {
            GameState::InitalizeAssets => 0,
            GameState::MainMenu => 1,
            GameState::WorldGen => 2,
            GameState::Game => 3,
        }
    }

    /// The stage with the number `value`, if there is one.
    pub fn from_int(value: u8) -> (state: Option<GameState>)
        ensures
            value <= 3 <==> state.is_some(),
            state matches Some(found) ==> found.number() == value,
    {
        if value == 0 {
            Some(GameState::InitalizeAssets)
        } else if value == 1 {
            Some(GameState::MainMenu)
        } else if value == 2 {
            Some(GameState::WorldGen)
        } else if value == 3 {
            Some(GameState::Game)
        } else {
            None
        }
    }
}

/// The stage that follows `current`; the last stage has none.
pub fn next_game_state(current: GameState) -> (next: Option<GameState>)
    ensures
        current == GameState::Game <==> next.is_none(),
        next matches Some(state) ==> state.number() == current.number() + 1,
{
    GameState::from_int(current.int_value() + 1)
}

/// Sent once every `GameSpeed` engine ticks.
#[derive(Debug, Clone, Copy, PartialEq, Eq, Structural)]
pub struct GameTickEvent;

/// The number of engine ticks that make one game tick.
#[derive(Debug, Clone, Copy, PartialEq, Eq, Structural)]
pub struct GameSpeed(pub usize);

impl Default for GameSpeed {
    fn default() -> (speed: Self)
        ensures
            speed.0 == 20,
    {
        Self(20)
    }
}

/// Counts one engine tick. When the count reaches the game speed, a game tick
/// is due: the event is handed out and the count starts again from zero.
pub fn gametick_event_counter(game_speed: &GameSpeed, tick_counter: &mut usize) -> (event: Option<
    GameTickEvent,
>)
    requires
        *old(tick_counter) < usize::MAX,
    ensures
        event.is_some() <==> *old(tick_counter) + 1 >= game_speed.0,
        event.is_some() ==> *final(tick_counter) == 0,
        event.is_none() ==> *final(tick_counter) == *old(tick_counter) + 1,
{
    *tick_counter += 1;
    if *tick_counter >= game_speed.0 {
        *tick_counter = 0;
        Some(GameTickEvent)
    } else {
        None
    }
}

} // verus!
