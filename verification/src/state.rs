//! What the game remembers from one frame to the next.

use crate::timer::{Timer, TimerView};
use vstd::prelude::*;

verus! {

/// Time between two spawns, in nanoseconds.
pub const SPAWN_PERIOD_NANOS: u64 = 2_000_000_000;

/// The score board, the counter that names enemies, and the spawn timer.
#[derive(Clone, Copy, Debug)]
pub struct GameState {
    pub high_score: u32,
    pub score: u32,
    pub enemy_index: i32,
    pub spawn_timer: Timer,
}

/// A [`GameState`] as mathematical integers.
pub struct GameStateView {
    pub high_score: nat,
    pub score: nat,
    pub enemy_index: int,
    pub spawn_timer: TimerView,
}

impl GameStateView {
    /// The state a game starts in: nothing scored, no enemy named yet, and
    /// the spawn timer at the start of its first cycle.
    pub open spec fn initial() -> GameStateView {
        GameStateView {
            high_score: 0,
            score: 0,
            enemy_index: 0,
            spawn_timer: TimerView {
                period: SPAWN_PERIOD_NANOS as nat,
                elapsed: 0,
                times_finished_this_tick: 0,
            },
        }
    }
}

impl View for GameState {
    type V = GameStateView;

    open spec fn view(&self) -> GameStateView {
        GameStateView {
            high_score: self.high_score as nat,
            score: self.score as nat,
            enemy_index: self.enemy_index as int,
            spawn_timer: self.spawn_timer@,
        }
    }
}

impl DeepView for GameState {
    type V = GameStateView;

    open spec fn deep_view(&self) -> GameStateView {
        self@
    }
}

impl Default for GameState {
    fn default() -> (state: GameState)
        ensures
            state@ == GameStateView::initial(),
    {
        GameState {
            high_score: 0,
            score: 0,
            enemy_index: 0,
            spawn_timer: Timer::new(SPAWN_PERIOD_NANOS),
        }
    }
}

} // verus!
