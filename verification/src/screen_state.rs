//! The screens the driver cycles through, and the transition rule between
//! them.
use vstd::prelude::*;

verus! {

/// Represent which screen is displayed.
#[derive(Clone, Copy, PartialEq, Eq, Structural, Debug)]
pub enum ScreenState {
    /// Main screen
    Lobby,
    /// Loading screen while connection is being established
    Connecting,
    /// Main game
    Game,
}

/// An event that can move the driver from one screen to another.
#[derive(Clone, Copy, PartialEq, Eq, Structural, Debug)]
pub enum ScreenEvent {
    /// The lobby handed over a room identifier.
    RoomObtained,
    /// A peer connected and a session was constructed.
    SessionStarted,
    /// The user aborted while waiting for a connection.
    Aborted,
    /// A paddle reached the winning score.
    MatchEnded,
}

/// The screen that follows `current` when `event` happens; every other
/// combination keeps the current screen.
pub open spec fn spec_next_screen(current: ScreenState, event: ScreenEvent) -> ScreenState {
    match (current, event) {
        (ScreenState::Lobby, ScreenEvent::RoomObtained) => ScreenState::Connecting,
        (ScreenState::Connecting, ScreenEvent::SessionStarted) => ScreenState::Game,
        (ScreenState::Connecting, ScreenEvent::Aborted) => ScreenState::Lobby,
        (ScreenState::Game, ScreenEvent::MatchEnded) => ScreenState::Lobby,
        _ => current,
    }
}

/// Apply one event to the screen state machine.
pub fn next_screen(current: ScreenState, event: ScreenEvent) -> (r: ScreenState)
    ensures
        r == spec_next_screen(current, event),
{
    match (current, event) {
        (ScreenState::Lobby, ScreenEvent::RoomObtained) => ScreenState::Connecting,
        (ScreenState::Connecting, ScreenEvent::SessionStarted) => ScreenState::Game,
        (ScreenState::Connecting, ScreenEvent::Aborted) => ScreenState::Lobby,
        (ScreenState::Game, ScreenEvent::MatchEnded) => ScreenState::Lobby,
        _ => current,
    }
}

} // verus!
