use vstd::prelude::*;

verus! {

/// Reasons for which a game operation is rejected; a rejected operation
/// leaves the game exactly as it was.
#[derive(Clone, Copy, Debug, PartialEq, Eq, Structural)]
pub enum Error {
    AnotherPlayerShouldTurn,
    CoordinateAlreadyFilled,
    CoordinateNotExists,
    GameNotStarted,
    GameAlreadyOver,
    ForGameNeedsAtLeast2Players,
    UnknownPlayer,
    WaitingAnotherDefinedPlayer,
    GameAlreadyStarted,
}

} // verus!
