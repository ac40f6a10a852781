use vstd::prelude::*;

use crate::board::{cell_holds, mark_code, mark_of, other, Board, Mark, Player};
use crate::errors::Error;
use crate::events::{GameEnd, GameStarted, PlayerTurn, WaitingOpponent};
use crate::game_status::{code_status, is_terminal, GameStatus};

verus! {

/// Opaque identity of a participant; the game only compares identities.
pub type AccountId = [u8; 32];

/// Number of cells in a row or a column.
pub const LENGTH: usize = 3;

/// Number of cells on the board.
pub const SIZE: usize = LENGTH * LENGTH;

/// Everything a game holds, as plain values.
pub struct GameView {
    pub player_x: AccountId,
    pub player_o: Option<AccountId>,
    pub board: Seq<Option<u8>>,
    pub status: GameStatus,
}

impl GameView {
    /// A reachable game: nine cells, and a bound second player once started.
    pub open spec fn wf(self) -> bool {
        &&& self.board.len() == 9
        &&& self.status != GameStatus::NotStarted ==> self.player_o is Some
    }
}

/// The nine empty cells of a new game.
pub open spec fn empty_board() -> Seq<Option<u8>> {
    Seq::new(9, |i: int| None::<u8>)
}

/// A game waiting for its second player.
pub open spec fn waiting_game(player_x: AccountId, player_o: Option<AccountId>) -> GameView {
    GameView { player_x, player_o, board: empty_board(), status: GameStatus::NotStarted }
}

/// The three cells `i`, `j`, `k` all hold the mark of `p`.
pub open spec fn line_held(b: Seq<Option<u8>>, p: Player, i: int, j: int, k: int) -> bool {
    cell_holds(b[i], p) && cell_holds(b[j], p) && cell_holds(b[k], p)
}

/// After `p` played at `coordinate`: the row or the column through it, or
/// either diagonal, is complete for `p`.
pub open spec fn wins_with(b: Seq<Option<u8>>, p: Player, coordinate: int) -> bool {
    let row = coordinate / 3;
    let col = coordinate % 3;
    ||| line_held(b, p, row * 3, row * 3 + 1, row * 3 + 2)
    ||| line_held(b, p, col, col + 3, col + 6)
    ||| line_held(b, p, 0, 4, 8)
    ||| line_held(b, p, 2, 4, 6)
}

/// Every cell is occupied.
pub open spec fn board_full(b: Seq<Option<u8>>) -> bool {
    forall|i: int| 0 <= i < b.len() ==> (#[trigger] b[i]) is Some
}

/// Terminal status reached by the move of `p` at `coordinate`, if any.
pub open spec fn evaluate(b: Seq<Option<u8>>, p: Player, coordinate: int) -> Option<GameStatus> {
    if wins_with(b, p, coordinate) {
        Some(GameStatus::PlayerWin(p))
    } else if board_full(b) {
        Some(GameStatus::Draw)
    } else {
        None
    }
}

/// Identity whose turn it is, if the game is in a turn.
pub open spec fn turning_account(g: GameView) -> Option<AccountId> {
    match g.status {
        GameStatus::PlayerTurning(Player::XPlayer) => Some(g.player_x),
        GameStatus::PlayerTurning(Player::OPlayer) => g.player_o,
        _ => None,
    }
}

/// Identity of the winner of a won game.
pub open spec fn winner_account(g: GameView) -> Option<AccountId> {
    match g.status {
        GameStatus::PlayerWin(Player::XPlayer) => Some(g.player_x),
        GameStatus::PlayerWin(Player::OPlayer) => g.player_o,
        _ => None,
    }
}

/// Outcome of `caller` joining game `g`.
pub open spec fn join_result(g: GameView, caller: AccountId) -> Result<GameView, Error> {
    if g.status != GameStatus::NotStarted {
        Err(Error::GameAlreadyStarted)
    } else if caller == g.player_x {
        Err(Error::ForGameNeedsAtLeast2Players)
    } else if g.player_o is Some && g.player_o->Some_0 != caller {
        Err(Error::WaitingAnotherDefinedPlayer)
    } else {
        Ok(
            GameView {
                player_x: g.player_x,
                player_o: Some(caller),
                board: g.board,
                status: GameStatus::PlayerTurning(Player::XPlayer),
            },
        )
    }
}

/// Game after `role` filled the empty cell `coordinate`.
pub open spec fn after_move(g: GameView, role: Player, coordinate: int) -> GameView {
    let board = g.board.update(coordinate, Some(mark_code(mark_of(role))));
    GameView {
        player_x: g.player_x,
        player_o: g.player_o,
        board,
        status: match evaluate(board, role, coordinate) {
            Some(s) => s,
            None => GameStatus::PlayerTurning(other(role)),
        },
    }
}

/// Outcome of `caller` playing at `coordinate` in game `g`.
pub open spec fn turn_result(g: GameView, caller: AccountId, coordinate: int) -> Result<
    GameView,
    Error,
> {
    match g.player_o {
        None => Err(Error::GameNotStarted),
        Some(o) => {
            if caller != o && caller != g.player_x {
                Err(Error::UnknownPlayer)
            } else {
                let role = if caller == o {
                    Player::OPlayer
                } else {
                    Player::XPlayer
                };
                match g.status {
                    GameStatus::NotStarted => Err(Error::GameNotStarted),
                    GameStatus::PlayerWin(_) => Err(Error::GameAlreadyOver),
                    GameStatus::Draw => Err(Error::GameAlreadyOver),
                    GameStatus::PlayerTurning(turning) => {
                        if turning != role {
                            Err(Error::AnotherPlayerShouldTurn)
                        } else if !(0 <= coordinate < 9) {
                            Err(Error::CoordinateNotExists)
                        } else if g.board[coordinate] is Some {
                            Err(Error::CoordinateAlreadyFilled)
                        } else {
                            Ok(after_move(g, role, coordinate))
                        }
                    },
                }
            }
        },
    }
}

/// An operation returned `r` and left `after` where `expected` describes
/// its outcome from `before`: on failure nothing changed.
pub open spec fn applied(
    r: Result<(), Error>,
    before: GameView,
    after: GameView,
    expected: Result<GameView, Error>,
) -> bool {
    match expected {
        Ok(g) => r is Ok && after == g,
        Err(e) => r == Err::<(), Error>(e) && after == before,
    }
}

/// The two identities are the same.
fn same_account(a: &AccountId, b: &AccountId) -> (r: bool)
    ensures
        r == (*a == *b),
{
    let mut i: usize = 0;
    while i < 32
        invariant
            i <= 32,
            a@.len() == 32,
            b@.len() == 32,
            forall|j: int| 0 <= j < i ==> a@[j] == b@[j],
        decreases 32 - i,
    {
        if a[i] != b[i] {
            return false;
        }
        i += 1;
    }
    proof {
        vstd::array::axiom_array_ext_equal(*a, *b);
    }
    true
}

/// One game between a first mover (`X`) and a second mover (`O`).
pub struct TicTacToe {
    player_x_account: AccountId,
    player_o_account: Option<AccountId>,
    board: [Option<u8>; SIZE],
    game_status: GameStatus,
}

impl View for TicTacToe {
    type V = GameView;

    closed spec fn view(&self) -> GameView {
        GameView {
            player_x: self.player_x_account,
            player_o: self.player_o_account,
            board: self.board@,
            status: self.game_status,
        }
    }
}

impl TicTacToe {
    #[verifier::type_invariant]
    spec fn inv(&self) -> bool {
        self@.wf()
    }

    /// A game created by `caller`, open to any opponent.
    pub fn new(caller: AccountId) -> (s: Self)
        ensures
            s@ == waiting_game(caller, None),
    {
        let board = Board::default();
        Self {
            player_x_account: caller,
            player_o_account: None,
            board: board.cells(),
            game_status: GameStatus::NotStarted,
        }
    }

    /// A game created by `caller` that only `player_o_account` may join.
    pub fn with_opponent(caller: AccountId, player_o_account: AccountId) -> (s: Self)
        ensures
            s@ == waiting_game(caller, Some(player_o_account)),
    {
        let board = Board::default();
        Self {
            player_x_account: caller,
            player_o_account: Some(player_o_account),
            board: board.cells(),
            game_status: GameStatus::NotStarted,
        }
    }

    /// A game rebuilt from its persisted parts, with the status given by its
    /// compact code; `None` when a started status comes without a second player.
    pub fn restore(
        player_x_account: AccountId,
        player_o_account: Option<AccountId>,
        board: [Option<u8>; SIZE],
        game_status: u8,
    ) -> (r: Option<Self>)
        ensures
            r is Some <==> (code_status(game_status) != GameStatus::NotStarted ==> player_o_account is Some),
            r is Some ==> r->Some_0@ == (GameView {
                player_x: player_x_account,
                player_o: player_o_account,
                board: board@,
                status: code_status(game_status),
            }),
    {
        let status = GameStatus::from(game_status);
        if !matches!(status, GameStatus::NotStarted) && player_o_account.is_none() {
            None
        } else {
            Some(Self { player_x_account, player_o_account, board, game_status: status })
        }
    }

    /// Identity of the first mover.
    pub fn get_player_x(&self) -> (r: AccountId)
        ensures
            r == self@.player_x,
    {
        self.player_x_account
    }

    /// Identity of the second mover, once bound.
    pub fn get_player_o(&self) -> (r: Option<AccountId>)
        ensures
            r == self@.player_o,
    {
        self.player_o_account
    }

    /// `caller` joins as the second mover, and the first mover's turn begins.
    pub fn join_game(&mut self, caller: AccountId) -> (r: Result<(), Error>)
        ensures
            applied(r, old(self)@, final(self)@, join_result(old(self)@, caller)),
            final(self)@.wf(),
    {
        proof {
            use_type_invariant(&*self);
        }
        if !matches!(self.game_status, GameStatus::NotStarted) {
            Err(Error::GameAlreadyStarted)
        } else if same_account(&caller, &self.player_x_account) {
            Err(Error::ForGameNeedsAtLeast2Players)
        } else if match &self.player_o_account {
            Some(second_player) => !same_account(second_player, &caller),
            None => false,
        } {
            Err(Error::WaitingAnotherDefinedPlayer)
        } else {
            self.player_o_account = Some(caller);
            self.game_status = GameStatus::PlayerTurning(Player::XPlayer);
            Ok(())
        }
    }

    /// `caller` places their mark at `coordinate`.
    pub fn turn(&mut self, caller: AccountId, coordinate: u8) -> (r: Result<(), Error>)
        ensures
            applied(r, old(self)@, final(self)@, turn_result(old(self)@, caller, coordinate as int)),
            final(self)@.wf(),
    {
        proof {
            use_type_invariant(&*self);
        }
        let o_player = match self.player_o_account {
            Some(o) => o,
            None => return Err(Error::GameNotStarted),
        };
        let player = if same_account(&caller, &o_player) {
            Player::OPlayer
        } else if same_account(&caller, &self.player_x_account) {
            Player::XPlayer
        } else {
            return Err(Error::UnknownPlayer);
        };
        match self.game_status {
            GameStatus::NotStarted => Err(Error::GameNotStarted),
            GameStatus::PlayerWin(_) => Err(Error::GameAlreadyOver),
            GameStatus::Draw => Err(Error::GameAlreadyOver),
            GameStatus::PlayerTurning(turning_player) => {
                if turning_player != player {
                    return Err(Error::AnotherPlayerShouldTurn);
                }
                let mut board = Board::new(self.board);
                match board.turn(player, coordinate as usize) {
                    Ok(()) => {},
                    Err(e) => return Err(e),
                }
                self.board = board.cells();
                match Self::check_state(board, player, coordinate as usize) {
                    None => self.switch_player(),
                    Some(gs) => self.game_status = gs,
                }
                Ok(())
            },
        }
    }

    /// Identity of the player whose turn it is.
    pub fn get_turning_player(&self) -> (r: Option<AccountId>)
        ensures
            r == turning_account(self@),
    {
        match self.game_status {
            GameStatus::PlayerTurning(Player::XPlayer) => Some(self.player_x_account),
            GameStatus::PlayerTurning(Player::OPlayer) => self.player_o_account,
            _ => None,
        }
    }

    /// Current board.
    pub fn get_board(&self) -> (r: Board<u8, 9>)
        ensures
            r@ == self@.board,
    {
        Board::new(self.board)
    }

    /// Current status.
    pub fn get_game_status(&self) -> (r: GameStatus)
        ensures
            r == self@.status,
    {
        self.game_status
    }

    /// Notice that the game waits for its second player.
    pub fn waiting_opponent(&self, contract_account_id: AccountId) -> (e: WaitingOpponent)
        ensures
            e.contract_account_id == contract_account_id,
            e.player_x == self@.player_x,
            e.player_0 == self@.player_o,
    {
        WaitingOpponent {
            contract_account_id,
            player_x: self.player_x_account,
            player_0: self.player_o_account,
        }
    }

    /// Notice that the game began, once it has.
    pub fn game_started(&self, contract_account_id: AccountId) -> (r: Option<GameStarted>)
        ensures
            r is Some <==> self@.status != GameStatus::NotStarted,
            r is Some ==> {
                &&& r->Some_0.contract_account_id == contract_account_id
                &&& r->Some_0.player_x == self@.player_x
                &&& self@.player_o == Some(r->Some_0.player_o)
            },
    {
        proof {
            use_type_invariant(self);
        }
        match (self.game_status, self.player_o_account) {
            (GameStatus::NotStarted, _) => None,
            (_, Some(player_o)) => Some(
                GameStarted { contract_account_id, player_x: self.player_x_account, player_o },
            ),
            (_, None) => None,
        }
    }

    /// Notice that `turned_player` moved and whose turn it is now, while the
    /// game goes on.
    pub fn player_turn(&self, contract_account_id: AccountId, turned_player: AccountId) -> (r:
        Option<PlayerTurn>)
        ensures
            r is Some <==> turning_account(self@) is Some,
            r is Some ==> {
                &&& r->Some_0.contract_account_id == contract_account_id
                &&& r->Some_0.turned_player == turned_player
                &&& turning_account(self@) == Some(r->Some_0.next_player)
            },
    {
        match self.get_turning_player() {
            Some(next_player) => Some(
                PlayerTurn { contract_account_id, turned_player, next_player },
            ),
            None => None,
        }
    }

    /// Notice that the game ended, with its winner, once it has.
    pub fn game_end(&self, contract_account_id: AccountId) -> (r: Option<GameEnd>)
        ensures
            r is Some <==> is_terminal(self@.status),
            r is Some ==> {
                &&& r->Some_0.contract_account_id == contract_account_id
                &&& r->Some_0.winner == winner_account(self@)
            },
    {
        match self.game_status {
            GameStatus::PlayerWin(Player::XPlayer) => Some(
                GameEnd { winner: Some(self.player_x_account), contract_account_id },
            ),
            GameStatus::PlayerWin(Player::OPlayer) => Some(
                GameEnd { winner: self.player_o_account, contract_account_id },
            ),
            GameStatus::Draw => Some(GameEnd { winner: None, contract_account_id }),
            _ => None,
        }
    }

    /// Hands the turn to the other player.
    fn switch_player(&mut self)
        requires
            old(self)@.status is PlayerTurning,
        ensures
            final(self)@ == (GameView {
                status: GameStatus::PlayerTurning(other(old(self)@.status->PlayerTurning_0)),
                ..old(self)@
            }),
    {
        proof {
            use_type_invariant(&*self);
        }
        self.game_status = match self.game_status {
            GameStatus::PlayerTurning(Player::XPlayer) => GameStatus::PlayerTurning(Player::OPlayer),
            _ => GameStatus::PlayerTurning(Player::XPlayer),
        };
    }

    /// Whether the move of `p` at `coordinate` ended the game: a win when the
    /// row or the column through `coordinate`, or either diagonal, is complete
    /// for `p`; else a draw when every cell is filled.
    pub fn check_state(board: Board<u8, 9>, p: Player, coordinate: usize) -> (r: Option<GameStatus>)
        requires
            coordinate < 9,
        ensures
            r == evaluate(board@, p, coordinate as int),
    {
        let cells = board.cells();
        let y = coordinate / LENGTH;
        let x = coordinate % LENGTH;
        assert(y * 3 + 2 < 9) by (nonlinear_arith)
            requires
                y == coordinate / 3,
                coordinate < 9,
        ;
        let vert = Self::line_complete(&cells, p, y * LENGTH, 1);
        let horizontal = Self::line_complete(&cells, p, x, LENGTH);
        let main_diagonal = Self::line_complete(&cells, p, 0, LENGTH + 1);
        let secondary_diagonal = Self::line_complete(&cells, p, LENGTH - 1, LENGTH - 1);
        let mut all_filled = true;
        let mut i: usize = 0;
        while i < SIZE
            invariant
                i <= 9,
                cells@.len() == 9,
                all_filled == (forall|j: int| 0 <= j < i ==> (#[trigger] cells@[j]) is Some),
            decreases 9 - i,
        {
            if cells[i].is_none() {
                all_filled = false;
            }
            i += 1;
        }
        if vert || horizontal || main_diagonal || secondary_diagonal {
            Some(GameStatus::PlayerWin(p))
        } else if all_filled {
            Some(GameStatus::Draw)
        } else {
            None
        }
    }

    /// The cells `start`, `start + step` and `start + 2 * step` hold the mark of `p`.
    fn line_complete(cells: &[Option<u8>; 9], p: Player, start: usize, step: usize) -> (r: bool)
        requires
            start + 2 * step < 9,
        ensures
            r == line_held(cells@, p, start as int, start + step, start + 2 * step),
    {
        Self::holds(cells[start], p) && Self::holds(cells[start + step], p) && Self::holds(
            cells[start + 2 * step],
            p,
        )
    }

    /// The cell holds the mark of `p`.
    fn holds(cell: Option<u8>, p: Player) -> (r: bool)
        ensures
            r == cell_holds(cell, p),
    {
        match cell {
            Some(code) => match p {
                Player::XPlayer => Mark::from(code).is_x(),
                Player::OPlayer => Mark::from(code).is_o(),
            },
            None => false,
        }
    }
}

/// A move that does not end the game hands the turn to the other player:
/// the mover never keeps the turn.
pub proof fn lemma_turns_alternate(g: GameView, caller: AccountId, coordinate: int)
    requires
        turn_result(g, caller, coordinate) is Ok,
        !is_terminal(turn_result(g, caller, coordinate)->Ok_0.status),
    ensures
        g.status is PlayerTurning,
        turn_result(g, caller, coordinate)->Ok_0.status == GameStatus::PlayerTurning(
            other(g.status->PlayerTurning_0),
        ),
        turn_result(g, caller, coordinate)->Ok_0.status != g.status,
{
}

/// A won or drawn game accepts no further move, whoever plays wherever;
/// either of its players is told that the game is over.
pub proof fn lemma_terminal_is_final(g: GameView, caller: AccountId, coordinate: int)
    requires
        g.wf(),
        is_terminal(g.status),
    ensures
        turn_result(g, caller, coordinate) is Err,
        caller == g.player_x || g.player_o == Some(caller) ==> turn_result(g, caller, coordinate)
            == Err::<GameView, Error>(Error::GameAlreadyOver),
{
}

/// The first mover can never join their own game; and of two different
/// players joining an open game, the first is admitted and the second refused.
pub proof fn lemma_join_guards(g: GameView, a: AccountId, b: AccountId)
    ensures
        join_result(g, g.player_x) is Err,
        g.status == GameStatus::NotStarted ==> join_result(g, g.player_x) == Err::<GameView, Error>(
            Error::ForGameNeedsAtLeast2Players,
        ),
        g.status == GameStatus::NotStarted && g.player_o is None && a != g.player_x && b
            != g.player_x && a != b ==> {
            &&& join_result(g, a) is Ok
            &&& join_result(join_result(g, a)->Ok_0, b) == Err::<GameView, Error>(
                Error::GameAlreadyStarted,
            )
        },
{
}

/// A move by an identity that is neither bound player is refused as unknown.
pub proof fn lemma_unknown_player_rejected(g: GameView, caller: AccountId, coordinate: int)
    requires
        g.player_o is Some,
        caller != g.player_x,
        caller != g.player_o->Some_0,
    ensures
        turn_result(g, caller, coordinate) == Err::<GameView, Error>(Error::UnknownPlayer),
{
}

} // verus!
