use vstd::prelude::*;

use crate::board::Player;

verus! {

/// Phase of a game. `PlayerWin` and `Draw` are terminal.
#[derive(Clone, Copy, Debug, PartialEq, Eq, Structural)]
pub enum GameStatus {
    NotStarted,
    PlayerTurning(Player),
    PlayerWin(Player),
    Draw,
}

/// A status that admits no further move.
pub open spec fn is_terminal(s: GameStatus) -> bool {
    s is PlayerWin || s is Draw
}

/// Compact code of a status, as persisted.
pub open spec fn status_code(s: GameStatus) -> u8 {
    match s {
        GameStatus::NotStarted => 0,
        GameStatus::PlayerTurning(Player::XPlayer) => 1,
        GameStatus::PlayerTurning(Player::OPlayer) => 2,
        GameStatus::PlayerWin(Player::XPlayer) => 3,
        GameStatus::PlayerWin(Player::OPlayer) => 4,
        GameStatus::Draw => 5,
    }
}

/// The status a persisted code stands for; codes above 5 read as `Draw`.
pub open spec fn code_status(num: u8) -> GameStatus {
    if num == 0 {
        GameStatus::NotStarted
    } else if num == 1 {
        GameStatus::PlayerTurning(Player::XPlayer)
    } else if num == 2 {
        GameStatus::PlayerTurning(Player::OPlayer)
    } else if num == 3 {
        GameStatus::PlayerWin(Player::XPlayer)
    } else if num == 4 {
        GameStatus::PlayerWin(Player::OPlayer)
    } else {
        GameStatus::Draw
    }
}

impl From<GameStatus> for u8 {
    fn from(gs: GameStatus) -> (r: u8)
        ensures
            r == status_code(gs),
    {
        match gs {
            GameStatus::NotStarted => 0,
            GameStatus::PlayerTurning(Player::XPlayer) => 1,
            GameStatus::PlayerTurning(Player::OPlayer) => 2,
            GameStatus::PlayerWin(Player::XPlayer) => 3,
            GameStatus::PlayerWin(Player::OPlayer) => 4,
            GameStatus::Draw => 5,
        }
    }
}

impl vstd::std_specs::convert::FromSpecImpl<GameStatus> for u8 {
    open spec fn obeys_from_spec() -> bool {
        true
    }

    open spec fn from_spec(gs: GameStatus) -> u8 {
        status_code(gs)
    }
}

impl From<u8> for GameStatus {
    fn from(num: u8) -> (r: GameStatus)
        ensures
            r == code_status(num),
    {
        match num {
            0 => GameStatus::NotStarted,
            1 => GameStatus::PlayerTurning(Player::XPlayer),
            2 => GameStatus::PlayerTurning(Player::OPlayer),
            3 => GameStatus::PlayerWin(Player::XPlayer),
            4 => GameStatus::PlayerWin(Player::OPlayer),
            _ => GameStatus::Draw,
        }
    }
}

impl vstd::std_specs::convert::FromSpecImpl<u8> for GameStatus {
    open spec fn obeys_from_spec() -> bool {
        true
    }

    open spec fn from_spec(num: u8) -> GameStatus {
        code_status(num)
    }
}

/// Decoding a persisted status gives back the status that was encoded.
pub proof fn lemma_status_code_round_trip(s: GameStatus)
    ensures
        code_status(status_code(s)) == s,
        status_code(s) <= 5,
{
}

} // verus!
