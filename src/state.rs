//! The game's states and the transitions between them.
use vstd::prelude::*;

verus! {

/// The one current state of the game.
#[derive(Clone, Copy, Debug, PartialEq, Eq, Structural)]
pub enum GameState {
    /// Waiting for the first input; nothing moves.
    Idle,
    /// The round is running.
    Going,
    /// The round is frozen until the player resumes it.
    Paused,
    /// The bird hit something; waiting for a restart.
    GameOver,
}

/// What the player does during one tick.
#[derive(Clone, Copy, Debug, PartialEq, Eq, Structural)]
pub struct Input {
    /// The primary action ("flap") is held down.
    pub primary_pressed: bool,
    /// The primary action went down during this tick.
    pub primary_just_pressed: bool,
    /// The secondary action ("pause") went down during this tick.
    pub secondary_just_pressed: bool,
}

/// When the bird flaps.
#[derive(Clone, Copy, Debug, PartialEq, Eq, Structural)]
pub enum FlapTrigger {
    /// On every tick while the primary action is held: holding it keeps the
    /// bird rising.
    Held,
    /// Only on the tick the primary action goes down.
    JustPressed,
}

/// Whether the bird flaps this tick.
pub open spec fn flap_requested(trigger: FlapTrigger, input: Input) -> bool {
    match trigger {
        FlapTrigger::Held => input.primary_pressed,
        FlapTrigger::JustPressed => input.primary_just_pressed,
    }
}

/// The state after a tick that started in `s`. The primary action starts or
/// resumes a round from every state but `Going`; while `Going`, a collision
/// ends the round and otherwise the secondary action pauses it. Any other
/// request leaves the state as it is.
pub open spec fn next_state(s: GameState, input: Input, collided: bool) -> GameState {
    match s {
        GameState::Going => if collided {
            GameState::GameOver
        } else if input.secondary_just_pressed {
            GameState::Paused
        } else {
            GameState::Going
        },
        _ => if input.primary_just_pressed {
            GameState::Going
        } else {
            s
        },
    }
}

/// Whether going from `from` to `to` starts a fresh round.
pub open spec fn starts_round(from: GameState, to: GameState) -> bool {
    to == GameState::Going && (from == GameState::Idle || from == GameState::GameOver)
}

/// Only the five transitions of the game happen: Idle to Going, Going to
/// Paused, Paused to Going, Going to GameOver and GameOver to Going. Every
/// other request leaves the state unchanged.
pub proof fn lemma_only_legal_transitions(s: GameState, input: Input, collided: bool)
    ensures
        next_state(s, input, collided) == s || (s == GameState::Idle && next_state(
            s,
            input,
            collided,
        ) == GameState::Going) || (s == GameState::Going && next_state(s, input, collided)
            == GameState::Paused) || (s == GameState::Paused && next_state(s, input, collided)
            == GameState::Going) || (s == GameState::Going && next_state(s, input, collided)
            == GameState::GameOver) || (s == GameState::GameOver && next_state(
            s,
            input,
            collided,
        ) == GameState::Going),
{
}

impl FlapTrigger {
    /// Whether the bird flaps this tick under this trigger.
    pub fn flaps(&self, input: Input) -> (r: bool)
        ensures
            r == flap_requested(*self, input),
    {
        match self {
            FlapTrigger::Held => input.primary_pressed,
            FlapTrigger::JustPressed => input.primary_just_pressed,
        }
    }
}

impl GameState {
    /// Whether the simulation runs in this state.
    pub fn is_going(&self) -> (r: bool)
        ensures
            r == (*self == GameState::Going),
    {
        match self {
            GameState::Going => true,
            _ => false,
        }
    }

    /// The state after a tick in this state; `collided` tells whether the
    /// bird hit an obstacle during the tick.
    pub fn next(&self, input: Input, collided: bool) -> (r: GameState)
        ensures
            r == next_state(*self, input, collided),
    {
        match self {
            GameState::Going => if collided {
                GameState::GameOver
            } else if input.secondary_just_pressed {
                GameState::Paused
            } else {
                GameState::Going
            },
            _ => if input.primary_just_pressed {
                GameState::Going
            } else {
                *self
            },
        }
    }
}

} // verus!
