use vstd::prelude::*;

use crate::errors::Error;

verus! {

/// The two roles of a game: `XPlayer` moves first, `OPlayer` second.
#[derive(Clone, Copy, Debug, PartialEq, Eq, Structural)]
pub enum Player {
    XPlayer,
    OPlayer,
}

/// The two symbols a cell can hold.
#[derive(Clone, Copy, Debug, PartialEq, Eq, Structural)]
pub enum Mark {
    X,
    O,
}

/// The symbol that a role places.
pub open spec fn mark_of(p: Player) -> Mark {
    match p {
        Player::XPlayer => Mark::X,
        Player::OPlayer => Mark::O,
    }
}

/// The role that moves after `p`.
pub open spec fn other(p: Player) -> Player {
    match p {
        Player::XPlayer => Player::OPlayer,
        Player::OPlayer => Player::XPlayer,
    }
}

/// Compact code of a mark.
pub open spec fn mark_code(m: Mark) -> u8 {
    match m {
        Mark::X => 0,
        Mark::O => 1,
    }
}

/// The mark a stored code stands for: `0` is `X`, every other code `O`.
pub open spec fn code_mark(code: u8) -> Mark {
    if code == 0 {
        Mark::X
    } else {
        Mark::O
    }
}

/// Decoding a mark's code gives back the mark, and every code read back as a
/// mark encodes to `0` or `1`.
pub proof fn lemma_mark_code_round_trip(m: Mark, code: u8)
    ensures
        code_mark(mark_code(m)) == m,
        mark_code(m) <= 1,
        code <= 1 ==> mark_code(code_mark(code)) == code,
{
}

/// A cell holds the mark of role `p`.
pub open spec fn cell_holds(cell: Option<u8>, p: Player) -> bool {
    match cell {
        Some(code) => code_mark(code) == mark_of(p),
        None => false,
    }
}

impl Mark {
    pub fn is_x(&self) -> (r: bool)
        ensures
            r == (*self == Mark::X),
    {
        matches!(self, Mark::X)
    }

    pub fn is_o(&self) -> (r: bool)
        ensures
            r == (*self == Mark::O),
    {
        matches!(self, Mark::O)
    }
}

impl From<Mark> for u8 {
    fn from(m: Mark) -> (r: u8)
        ensures
            r == mark_code(m),
    {
        match m {
            Mark::X => 0,
            Mark::O => 1,
        }
    }
}

impl vstd::std_specs::convert::FromSpecImpl<Mark> for u8 {
    open spec fn obeys_from_spec() -> bool {
        true
    }

    open spec fn from_spec(m: Mark) -> u8 {
        mark_code(m)
    }
}

impl From<u8> for Mark {
    fn from(num: u8) -> (r: Mark)
        ensures
            r == code_mark(num),
    {
        match num {
            0 => Mark::X,
            _ => Mark::O,
        }
    }
}

impl vstd::std_specs::convert::FromSpecImpl<u8> for Mark {
    open spec fn obeys_from_spec() -> bool {
        true
    }

    open spec fn from_spec(num: u8) -> Mark {
        code_mark(num)
    }
}

/// A grid of `LEN` cells, row-major, each empty or holding a mark's code.
/// Cells are only ever written through `turn`, which fills one empty cell.
#[derive(Clone, Copy, Debug)]
pub struct Board<T, const LEN: usize>([Option<T>; LEN]);

impl<T, const LEN: usize> View for Board<T, LEN> {
    type V = Seq<Option<T>>;

    closed spec fn view(&self) -> Seq<Option<T>> {
        self.0@
    }
}

impl Board<u8, 9> {
    pub fn new(arr: [Option<u8>; 9]) -> (b: Self)
        ensures
            b@ == arr@,
    {
        Board(arr)
    }

    pub fn default() -> (b: Self)
        ensures
            b@ == Seq::new(9, |i: int| None::<u8>),
            b@.len() == 9,
    {
        let b = Board([None, None, None, None, None, None, None, None, None]);
        assert(b@ =~= Seq::new(9, |i: int| None::<u8>));
        b
    }

    /// The cells, in row-major order.
    pub fn cells(&self) -> (r: [Option<u8>; 9])
        ensures
            r@ == self@,
            self@.len() == 9,
    {
        self.0
    }

    /// Places the mark of `p` into the empty cell `coordinate`.
    pub fn turn(&mut self, p: Player, coordinate: usize) -> (r: Result<(), Error>)
        ensures
            coordinate >= 9 ==> r == Err::<(), Error>(Error::CoordinateNotExists),
            coordinate < 9 && old(self)@[coordinate as int] is Some ==> r == Err::<(), Error>(
                Error::CoordinateAlreadyFilled,
            ),
            coordinate < 9 && old(self)@[coordinate as int] is None ==> r is Ok,
            r is Ok ==> final(self)@ == old(self)@.update(
                coordinate as int,
                Some(mark_code(mark_of(p))),
            ),
            r is Err ==> final(self)@ == old(self)@,
            final(self)@.len() == 9,
    {
        if coordinate >= 9 {
            return Err(Error::CoordinateNotExists);
        }
        if self.0[coordinate].is_none() {
            let code = match p {
                Player::XPlayer => u8::from(Mark::X),
                Player::OPlayer => u8::from(Mark::O),
            };
            self.0[coordinate] = Some(code);
            Ok(())
        } else {
            Err(Error::CoordinateAlreadyFilled)
        }
    }
}

} // verus!
