//! The game state machine: five states gating which per-tick systems run,
//! driven by collision reports, pause/resume/acknowledge input, and the
//! spawn/clean-up lifecycle events.

use vstd::prelude::*;

verus! {

/// The process-wide game phase. Exactly one value is active at a time.
#[derive(PartialEq, Eq, Structural, Clone, Copy, Debug, Hash)]
pub enum GameState {
    Paused,
    Playing,
    GameOver,
    CleanUp,
    Spawn,
}

impl Default for GameState {
    /// The machine starts paused, before the first spawn.
    fn default() -> (r: GameState)
        ensures
            r == GameState::Paused,
    {
        GameState::Paused
    }
}

/// Everything that can drive a state transition in one tick.
#[derive(PartialEq, Eq, Structural, Clone, Copy, Debug)]
pub enum StateEvent {
    /// The collision detector reported a hit on the avatar.
    Collision,
    /// The pause key was pressed during play.
    PauseKey,
    /// The resume (flap/cast) key was pressed while paused.
    ResumeKey,
    /// The player acknowledged the game-over screen.
    AcknowledgeKey,
    /// Startup is finished; the first spawn may begin.
    GameReady,
    /// The level (avatar, kit, obstacle field) has been materialized.
    LevelReady,
    /// Every despawn of the old level has been carried out.
    CleanUpDone,
}

/// An internal-consistency violation: the machine was driven with an event
/// that its mutual-exclusion guarantees rule out. Fatal, never recoverable.
#[derive(PartialEq, Eq, Structural, Clone, Copy, Debug)]
pub enum StateFault {
    /// A second collision was reported while already in `GameOver`: the
    /// single collision-to-game-over transition guarantee was broken.
    CollisionAfterGameOver,
}

/// The complete transition relation. Pairs not named leave the state as it
/// is: an event arriving in a state that does not react to it is a no-op.
pub open spec fn spec_step(s: GameState, e: StateEvent) -> Result<GameState, StateFault> {
    match s {
        GameState::Paused => match e {
            StateEvent::ResumeKey => Ok(GameState::Playing),
            StateEvent::GameReady => Ok(GameState::Spawn),
            _ => Ok(s),
        },
        GameState::Playing => match e {
            StateEvent::Collision => Ok(GameState::GameOver),
            StateEvent::PauseKey => Ok(GameState::Paused),
            _ => Ok(s),
        },
        GameState::GameOver => match e {
            StateEvent::AcknowledgeKey => Ok(GameState::CleanUp),
            StateEvent::Collision => Err(StateFault::CollisionAfterGameOver),
            _ => Ok(s),
        },
        GameState::CleanUp => match e {
            StateEvent::CleanUpDone => Ok(GameState::Spawn),
            _ => Ok(s),
        },
        GameState::Spawn => match e {
            StateEvent::LevelReady => Ok(GameState::Playing),
            _ => Ok(s),
        },
    }
}

/// Applies one event to the machine. `Err` means a fatal invariant
/// violation: a collision observed while already in `GameOver`.
pub fn step(s: GameState, e: StateEvent) -> (r: Result<GameState, StateFault>)
    ensures
        r == spec_step(s, e),
{
    match s {
        GameState::Paused => match e {
            StateEvent::ResumeKey => Ok(GameState::Playing),
            StateEvent::GameReady => Ok(GameState::Spawn),
            _ => Ok(s),
        },
        GameState::Playing => match e {
            StateEvent::Collision => Ok(GameState::GameOver),
            StateEvent::PauseKey => Ok(GameState::Paused),
            _ => Ok(s),
        },
        GameState::GameOver => match e {
            StateEvent::AcknowledgeKey => Ok(GameState::CleanUp),
            StateEvent::Collision => Err(StateFault::CollisionAfterGameOver),
            _ => Ok(s),
        },
        GameState::CleanUp => match e {
            StateEvent::CleanUpDone => Ok(GameState::Spawn),
            _ => Ok(s),
        },
        GameState::Spawn => match e {
            StateEvent::LevelReady => Ok(GameState::Playing),
            _ => Ok(s),
        },
    }
}

/// True exactly in `Playing`: movement, collision, side-scroll and skill
/// casting run only then; every other state suppresses them entirely.
pub fn runs_gameplay(s: GameState) -> (r: bool)
    ensures
        r == (s == GameState::Playing),
{
    match s {
        GameState::Playing => true,
        _ => false,
    }
}

} // verus!
