//! The phase of the game and its score.

use vstd::prelude::*;

verus! {

/// The phase that the game is in.
#[derive(Clone, Copy, Debug, PartialEq, Eq, Structural)]
pub enum GameState {
    StartMenu,
    Starting,
    Running,
    Paused,
    GameOver,
}

/// Whether the game can go from one phase to another in one step.
///
/// From the start menu a game can only be started. A game that is starting
/// runs next. A running game can be paused, started over or lost; a paused
/// one goes on or is started over; a lost one can only be started over.
pub open spec fn may_follow(from: GameState, to: GameState) -> bool {
    match from {
        GameState::StartMenu => to == GameState::Starting,
        GameState::Starting => to == GameState::Running,
        GameState::Running => to == GameState::Paused || to == GameState::Starting || to
            == GameState::GameOver,
        GameState::Paused => to == GameState::Running || to == GameState::Starting,
        GameState::GameOver => to == GameState::Starting,
    }
}

/// A request to change the phase of the game.
#[derive(Clone, Copy, Debug, PartialEq, Eq, Structural)]
pub enum GameStateEvent {
    Restart,
}

/// Marks an entity that belongs to the running game and goes when a new game
/// starts.
#[derive(Clone, Copy, Debug, PartialEq, Eq, Structural)]
pub struct GameEntity;

/// The score of the running game and the best score seen so far.
#[derive(Clone, Copy, Debug, PartialEq, Eq, Structural)]
pub struct Game {
    pub score: i64,
    pub best_score: i64,
}

impl Default for Game {
    fn default() -> (game: Game)
        ensures
            game == (Game { score: 0, best_score: 0 }),
    {
        Game { score: 0, best_score: 0 }
    }
}

} // verus!
