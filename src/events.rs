use vstd::prelude::*;

use crate::game::AccountId;

verus! {

/// A game was created and waits for its second player.
#[derive(Clone, Copy, Debug, PartialEq, Eq)]
pub struct WaitingOpponent {
    pub contract_account_id: AccountId,
    pub player_x: AccountId,
    pub player_0: Option<AccountId>,
}

/// The second player joined and the game began.
#[derive(Clone, Copy, Debug, PartialEq, Eq)]
pub struct GameStarted {
    pub contract_account_id: AccountId,
    pub player_x: AccountId,
    pub player_o: AccountId,
}

/// A move was made and the game goes on.
#[derive(Clone, Copy, Debug, PartialEq, Eq)]
pub struct PlayerTurn {
    pub contract_account_id: AccountId,
    pub turned_player: AccountId,
    pub next_player: AccountId,
}

/// The game ended; `winner` is `None` on a draw.
#[derive(Clone, Copy, Debug, PartialEq, Eq)]
pub struct GameEnd {
    pub winner: Option<AccountId>,
    pub contract_account_id: AccountId,
}

} // verus!
