//! The game orchestrator: it owns the player and the food, the coarse
//! running state, and the buffered input direction, and composes one
//! simulation tick out of the entity updates.

use vstd::prelude::*;
use crate::geometry::{Point, Direction};
use crate::player::{Player, update_spec};
use crate::food::{Food, food_update_spec};

verus! {

/// The coarse state the host loop steers by.
#[derive(Debug, Copy, Clone, PartialEq, Eq, Structural)]
pub enum RunningState {
    Paused,
    Running,
    Exit,
}

/// An abstract input event, as the platform layer hands it to the core:
/// a quit request, a pause/resume toggle, or a directional intent.
#[derive(Debug, Copy, Clone, PartialEq, Eq, Structural)]
pub enum GameEvent {
    Quit,
    TogglePause,
    Move(Direction),
}

/// What the pause/resume toggle does to the running state; `Exit` is
/// terminal.
pub open spec fn spec_toggled(s: RunningState) -> RunningState {
    match s {
        RunningState::Running => RunningState::Paused,
        RunningState::Paused => RunningState::Running,
        RunningState::Exit => RunningState::Exit,
    }
}

/// The simulation state: one player, one food item, the running state, and
/// the latest buffered directional intent. Buffering keeps input that
/// arrives between ticks from being applied mid-tick.
pub struct GameState {
    pub player: Player,
    pub food: Food,
    pub running_state: RunningState,
    pub input_direction: Direction,
}

impl GameState {
    /// A fresh simulation: new player and food, paused, facing right.
    pub fn new() -> (g: GameState)
        ensures
            g.player.body@ == seq![Point(1, 1), Point(2, 1), Point(3, 1)],
            g.player.direction == Direction::Right,
            g.player.alive == true,
            g.player.score == 3,
            g.player.wf(),
            g.food.location == Point(3, 3),
            g.running_state == RunningState::Paused,
            g.input_direction == Direction::Right,
    {
        GameState {
            player: Player::new(),
            food: Food::new(),
            running_state: RunningState::Paused,
            input_direction: Direction::Right,
        }
    }

    /// One simulation tick: move the player against the buffered input,
    /// relocate the food off the (possibly grown) body, and drop to `Exit`
    /// when the move was fatal.
    pub fn update(&mut self)
        requires
            old(self).player.wf(),
            old(self).player.score < u32::MAX,
        ensures
            update_spec(
                old(self).player,
                final(self).player,
                old(self).food.location,
                old(self).input_direction,
            ),
            final(self).player.wf(),
            food_update_spec(old(self).food, final(self).food, final(self).player.body@),
            final(self).running_state == if !final(self).player.alive {
                RunningState::Exit
            } else {
                old(self).running_state
            },
            final(self).input_direction == old(self).input_direction,
    {
        let input = self.input_direction;
        self.player.update(&self.food, input);
        self.food.update(&self.player);

        if self.player.is_dead() {
            self.running_state = RunningState::Exit;
        }
    }

    /// Feed one abstract input event into the state machine:
    /// - `Quit` drops to `Exit` from every state;
    /// - `TogglePause` switches between `Paused` and `Running` and leaves
    ///   `Exit` alone;
    /// - a directional intent is buffered only while running, so that no
    ///   fatal direction can be queued up while paused or after exit.
    pub fn process_events(&mut self, event: GameEvent)
        ensures
            final(self).player == old(self).player,
            final(self).food == old(self).food,
            match event {
                GameEvent::Quit => final(self).running_state == RunningState::Exit
                    && final(self).input_direction == old(self).input_direction,
                GameEvent::TogglePause => final(self).running_state == spec_toggled(
                    old(self).running_state,
                ) && final(self).input_direction == old(self).input_direction,
                GameEvent::Move(d) => final(self).running_state == old(self).running_state
                    && final(self).input_direction == if old(self).running_state
                    == RunningState::Running {
                    d
                } else {
                    old(self).input_direction
                },
            },
    {
        match event {
            GameEvent::Quit => {
                self.running_state = RunningState::Exit;
            },
            GameEvent::TogglePause => {
                self.running_state = match self.running_state {
                    RunningState::Running => RunningState::Paused,
                    RunningState::Paused => RunningState::Running,
                    RunningState::Exit => RunningState::Exit,
                };
            },
            GameEvent::Move(d) => {
                if self.running_state == RunningState::Running {
                    self.input_direction = d;
                }
            },
        }
    }
}

} // verus!
