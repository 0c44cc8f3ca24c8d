//! The board of probabilistic markers and the grid of settled colours.

use vstd::prelude::*;
use crate::piece::{DefinitePiece, ProbPiece};

verus! {

/// Side length of the square board.
pub const BOARD_SIZE: usize = 15;

/// Why an action was turned down. A rejected action changes nothing.
#[derive(Clone, Copy, Debug, PartialEq, Eq, Structural)]
pub enum Rejection {
    OutOfBounds,
    CellOccupied,
    WrongPhase,
    PreviewExhausted,
    GameOver,
}

/// `(r, c)` names a cell of the board.
pub open spec fn on_board(r: int, c: int) -> bool {
    0 <= r < BOARD_SIZE && 0 <= c < BOARD_SIZE
}

/// A grid as a sequence of rows: the model of both kinds of board.
pub open spec fn grid_view<T>(cells: [[T; BOARD_SIZE]; BOARD_SIZE]) -> Seq<Seq<T>> {
    Seq::new(BOARD_SIZE as nat, |r: int| Seq::new(BOARD_SIZE as nat, |c: int| cells[r][c]))
}

/// `g` has the shape of a board.
pub open spec fn is_grid<T>(g: Seq<Seq<T>>) -> bool {
    &&& g.len() == BOARD_SIZE
    &&& forall|r: int| 0 <= r < BOARD_SIZE ==> (#[trigger] g[r]).len() == BOARD_SIZE
}

/// The grid `g` with the cell `(r, c)` replaced by `value`.
pub open spec fn grid_set<T>(g: Seq<Seq<T>>, r: int, c: int, value: T) -> Seq<Seq<T>> {
    g.update(r, g[r].update(c, value))
}

/// The grid that holds `value` in every cell.
pub open spec fn grid_filled<T>(value: T) -> Seq<Seq<T>> {
    Seq::new(BOARD_SIZE as nat, |r: int| Seq::new(BOARD_SIZE as nat, |c: int| value))
}

/// No cell of `g` holds a marker.
pub open spec fn no_markers(g: Seq<Seq<ProbPiece>>) -> bool {
    forall|r: int, c: int| on_board(r, c) ==> g[r][c] == ProbPiece::Empty
}

/// What placing at `(r, c)` of `g` answers, whatever the marker.
pub open spec fn place_verdict(g: Seq<Seq<ProbPiece>>, r: int, c: int) -> Result<(), Rejection> {
    if !on_board(r, c) {
        Err(Rejection::OutOfBounds)
    } else if g[r][c] != ProbPiece::Empty {
        Err(Rejection::CellOccupied)
    } else {
        Ok(())
    }
}

/// The board after an attempt to place `marker` at `(r, c)` of `g`.
pub open spec fn place_effect(g: Seq<Seq<ProbPiece>>, r: int, c: int, marker: ProbPiece) -> Seq<
    Seq<ProbPiece>,
> {
    if place_verdict(g, r, c) is Ok {
        grid_set(g, r, c, marker)
    } else {
        g
    }
}

/// The grid of markers that the players have placed.
#[derive(Clone, Copy, Debug, PartialEq, Eq)]
pub struct Board {
    pub cells: [[ProbPiece; BOARD_SIZE]; BOARD_SIZE],
}

/// A grid of settled colours, as one observation of a board shows it.
#[derive(Clone, Copy, Debug, PartialEq, Eq)]
pub struct ResolvedBoard {
    pub cells: [[DefinitePiece; BOARD_SIZE]; BOARD_SIZE],
}

impl View for Board {
    type V = Seq<Seq<ProbPiece>>;

    open spec fn view(&self) -> Seq<Seq<ProbPiece>> {
        grid_view(self.cells)
    }
}

impl View for ResolvedBoard {
    type V = Seq<Seq<DefinitePiece>>;

    open spec fn view(&self) -> Seq<Seq<DefinitePiece>> {
        grid_view(self.cells)
    }
}

impl Board {
    /// The board before the first move.
    pub fn new() -> (b: Board)
        ensures
            b@ == grid_filled(ProbPiece::Empty),
    {
        let row = [ProbPiece::Empty; BOARD_SIZE];
        let cells = [row; BOARD_SIZE];
        proof {
            lemma_filled_array(cells, row, ProbPiece::Empty);
        }
        Board { cells }
    }

    /// The marker at `(row, col)`, if that is a cell of the board.
    pub fn get(&self, row: usize, col: usize) -> (p: Option<ProbPiece>)
        ensures
            p == if on_board(row as int, col as int) {
                Some(self@[row as int][col as int])
            } else {
                None
            },
    {
        if row < BOARD_SIZE && col < BOARD_SIZE {
            Some(self.cells[row][col])
        } else {
            None
        }
    }

    /// Puts `marker` on the cell `(row, col)` if that cell exists and is
    /// empty, and changes nothing otherwise.
    pub fn place(&mut self, row: usize, col: usize, marker: ProbPiece) -> (res: Result<
        (),
        Rejection,
    >)
        ensures
            res == place_verdict(old(self)@, row as int, col as int),
            final(self)@ == place_effect(old(self)@, row as int, col as int, marker),
    {
        if row >= BOARD_SIZE || col >= BOARD_SIZE {
            return Err(Rejection::OutOfBounds);
        }
        if self.cells[row][col] != ProbPiece::Empty {
            return Err(Rejection::CellOccupied);
        }
        self.cells[row][col] = marker;
        assert(self@ =~~= grid_set(old(self)@, row as int, col as int, marker));
        Ok(())
    }
}

impl ResolvedBoard {
    /// The grid in which no cell shows a colour.
    pub fn new() -> (b: ResolvedBoard)
        ensures
            b@ == grid_filled(DefinitePiece::Empty),
    {
        let row = [DefinitePiece::Empty; BOARD_SIZE];
        let cells = [row; BOARD_SIZE];
        proof {
            lemma_filled_array(cells, row, DefinitePiece::Empty);
        }
        ResolvedBoard { cells }
    }

    /// The colour at `(row, col)`, if that is a cell of the board.
    pub fn get(&self, row: usize, col: usize) -> (p: Option<DefinitePiece>)
        ensures
            p == if on_board(row as int, col as int) {
                Some(self@[row as int][col as int])
            } else {
                None
            },
    {
        if row < BOARD_SIZE && col < BOARD_SIZE {
            Some(self.cells[row][col])
        } else {
            None
        }
    }
}

/// Rows that all hold `value` in every cell make the grid filled with it.
proof fn lemma_filled_array<T>(cells: [[T; BOARD_SIZE]; BOARD_SIZE], row: [T; BOARD_SIZE], value: T)
    requires
        forall|r: int| 0 <= r < BOARD_SIZE ==> cells@[r] == row,
        forall|c: int| 0 <= c < BOARD_SIZE ==> row@[c] == value,
    ensures
        grid_view(cells) == grid_filled(value),
{
    assert forall|r: int| 0 <= r < BOARD_SIZE implies #[trigger] grid_view(cells)[r]
        =~= grid_filled(value)[r] by {
        assert forall|c: int| 0 <= c < BOARD_SIZE implies #[trigger] grid_view(cells)[r][c]
            == value by {
            assert(cells@[r] == row);
            assert(row@[c] == value);
        }
    }
    assert(grid_view(cells) =~= grid_filled(value));
}

} // verus!
