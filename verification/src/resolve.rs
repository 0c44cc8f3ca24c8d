//! Observation: settling every marker of a board by a draw of its own.

use vstd::prelude::*;
use rand::rngs::ThreadRng;
use rand::Rng;
use crate::board::{
    grid_filled, grid_view, is_grid, no_markers, on_board, Board, ResolvedBoard, BOARD_SIZE,
};
use crate::piece::{definite_of, DefinitePiece, ProbPiece};
use crate::win::{
    check_winner, has_line, line_at, shows, win_outcome, winning_line, WinOutcome, WinningPieces,
};

verus! {

/// Exclusive upper bound of a draw: draws are whole percents.
pub const DRAW_BOUND: u32 = 100;

/// Some draw below the bound makes `d` of `piece`.
pub open spec fn can_settle(piece: ProbPiece, d: DefinitePiece) -> bool {
    exists|draw: int| 0 <= draw < DRAW_BOUND && d == #[trigger] definite_of(piece, draw)
}

/// `resolved` is an observation of `board`: cell by cell, some draw below
/// the bound makes the one of the other.
pub open spec fn may_resolve_to(
    board: Seq<Seq<ProbPiece>>,
    resolved: Seq<Seq<DefinitePiece>>,
) -> bool {
    &&& is_grid(resolved)
    &&& forall|r: int, c: int|
        on_board(r, c) ==> can_settle(#[trigger] board[r][c], resolved[r][c])
}

/// The observation of `board` in which the cell `(r, c)` is settled by the
/// draw `draws[r][c]`.
pub open spec fn resolve_grid(board: Seq<Seq<ProbPiece>>, draws: Seq<Seq<u32>>) -> Seq<
    Seq<DefinitePiece>,
> {
    Seq::new(
        BOARD_SIZE as nat,
        |r: int| Seq::new(BOARD_SIZE as nat, |c: int| definite_of(board[r][c], draws[r][c] as int)),
    )
}

/// One observation of a board: the settled colours, how the game stands on
/// them, and the cells credited to each colour.
#[derive(Clone, Debug, PartialEq, Eq)]
pub struct Resolution {
    pub board: ResolvedBoard,
    pub winner: Option<WinOutcome>,
    pub winning_pieces: WinningPieces,
}

impl Resolution {
    /// The outcome and the credited cells are those of the settled board.
    pub open spec fn wf(&self) -> bool {
        &&& self.winner == win_outcome(self.board@)
        &&& self.winning_pieces.black@ == winning_line(self.board@, DefinitePiece::Black)
        &&& self.winning_pieces.white@ == winning_line(self.board@, DefinitePiece::White)
    }
}

/// `rand::rngs::ThreadRng`, the handle of the generator that each thread
/// owns. It is carried from one call to the next; nothing is known of what
/// it holds.
#[verifier::external_type_specification]
#[verifier::external_body]
pub struct ExThreadRng(rand::rngs::ThreadRng);

/// `rand::thread_rng` hands out the handle of the calling thread's
/// generator. Nothing is claimed of the handle. The generator is seeded
/// from the operating system on a thread's first call, and `rand` panics if
/// the system gives no seed.
pub assume_specification[ rand::thread_rng ]() -> (rng: ThreadRng);

/// One draw by `rand::Rng::gen_range` from the range `low..high`. The claim
/// is the one that its documentation makes: the value lies in the range
/// that was asked for. Nothing is claimed of how the values are spread, nor
/// of the generator afterwards. `gen_range` panics on an empty range, so
/// the range is not empty.
#[verifier::external_body]
fn draw_in_range(rng: &mut ThreadRng, low: u32, high: u32) -> (draw: u32)
    requires
        low < high,
    ensures
        low <= draw < high,
{
    rng.gen_range(low..high)
}

/// Settles `piece` by a fresh draw. An empty cell stays empty and costs no
/// draw; a marker comes out Black or White, as some draw below a hundred
/// decides.
pub fn prob_to_definite(piece: ProbPiece) -> (d: DefinitePiece)
    ensures
        can_settle(piece, d),
{
    let mut rng = rand::thread_rng();
    match piece {
        ProbPiece::Empty => {
            assert(DefinitePiece::Empty == definite_of(piece, 0));
            DefinitePiece::Empty
        },
        _ => {
            let draw = draw_in_range(&mut rng, 0, DRAW_BOUND);
            let d = piece.resolve_with(draw);
            assert(d == definite_of(piece, draw as int));
            d
        },
    }
}

/// A marker can come out Black or White and nothing else; an empty cell can
/// only stay empty.
pub proof fn lemma_can_settle(piece: ProbPiece, d: DefinitePiece)
    ensures
        can_settle(piece, d) <==> ((d == DefinitePiece::Empty) <==> (piece == ProbPiece::Empty)),
{
    if (d == DefinitePiece::Empty) == (piece == ProbPiece::Empty) {
        if d == DefinitePiece::Black {
            assert(d == definite_of(piece, 0));
        } else {
            assert(d == definite_of(piece, 99));
        }
    }
}

/// On a grid that shows no colour the game is undecided and no cell is
/// credited to either colour.
pub proof fn lemma_empty_grid_is_undecided()
    ensures
        win_outcome(grid_filled(DefinitePiece::Empty)) == None::<WinOutcome>,
        !has_line(grid_filled(DefinitePiece::Empty), DefinitePiece::Black),
        !has_line(grid_filled(DefinitePiece::Empty), DefinitePiece::White),
        winning_line(grid_filled(DefinitePiece::Empty), DefinitePiece::Black) == Seq::<
            (usize, usize),
        >::empty(),
        winning_line(grid_filled(DefinitePiece::Empty), DefinitePiece::White) == Seq::<
            (usize, usize),
        >::empty(),
{
    let g = grid_filled(DefinitePiece::Empty);
    assert forall|color: DefinitePiece, r: int, c: int, d: int| !line_at(g, color, r, c, d) by {
        if line_at(g, color, r, c, d) {
            assert(shows(g, color, r, c, d, 0));
        }
    }
    assert(g[0][0] == DefinitePiece::Empty);
    assert(on_board(0, 0));
}

/// An observation of a board without markers shows no colour.
pub proof fn lemma_no_markers_resolve_empty(
    board: Seq<Seq<ProbPiece>>,
    resolved: Seq<Seq<DefinitePiece>>,
)
    requires
        no_markers(board),
        may_resolve_to(board, resolved),
    ensures
        resolved == grid_filled(DefinitePiece::Empty),
{
    assert forall|r: int, c: int| on_board(r, c) implies #[trigger] resolved[r][c]
        == DefinitePiece::Empty by {
        assert(can_settle(board[r][c], resolved[r][c]));
    }
    assert(resolved =~~= grid_filled(DefinitePiece::Empty));
}

impl Board {
    /// Observes the board: every marker is settled by a fresh draw of its
    /// own, in row order, and the game is decided on the result. Two
    /// observations of one board may differ.
    pub fn resolve(&self) -> (res: Resolution)
        ensures
            res.wf(),
            may_resolve_to(self@, res.board@),
            no_markers(self@) ==> res.board@ == grid_filled(DefinitePiece::Empty) && res.winner
                == None::<WinOutcome>,
    {
        let mut observation = ResolvedBoard::new();
        for row in 0..BOARD_SIZE
            invariant
                forall|r: int, c: int|
                    0 <= r < row && 0 <= c < BOARD_SIZE ==> can_settle(
                        #[trigger] self@[r][c],
                        observation@[r][c],
                    ),
        {
            for col in 0..BOARD_SIZE
                invariant
                    row < BOARD_SIZE,
                    forall|r: int, c: int|
                        0 <= r < row && 0 <= c < BOARD_SIZE ==> can_settle(
                            #[trigger] self@[r][c],
                            observation@[r][c],
                        ),
                    forall|c: int|
                        0 <= c < col ==> can_settle(
                            #[trigger] self@[row as int][c],
                            observation@[row as int][c],
                        ),
            {
                observation.cells[row][col] = prob_to_definite(self.cells[row][col]);
            }
        }
        let (winner, winning_pieces) = check_winner(&observation);
        proof {
            if no_markers(self@) {
                lemma_no_markers_resolve_empty(self@, observation@);
                lemma_empty_grid_is_undecided();
            }
        }
        Resolution { board: observation, winner, winning_pieces }
    }

    /// Observes the board with given draws: the cell `(r, c)` is settled by
    /// `draws[r][c]`, and the game is decided on the result.
    pub fn resolve_with(&self, draws: &[[u32; BOARD_SIZE]; BOARD_SIZE]) -> (res: Resolution)
        ensures
            res.wf(),
            res.board@ == resolve_grid(self@, grid_view(*draws)),
    {
        let mut observation = ResolvedBoard::new();
        for row in 0..BOARD_SIZE
            invariant
                forall|r: int, c: int|
                    0 <= r < row && 0 <= c < BOARD_SIZE ==> observation@[r][c] == definite_of(
                        #[trigger] self@[r][c],
                        draws[r][c] as int,
                    ),
        {
            for col in 0..BOARD_SIZE
                invariant
                    row < BOARD_SIZE,
                    forall|r: int, c: int|
                        0 <= r < row && 0 <= c < BOARD_SIZE ==> observation@[r][c] == definite_of(
                            #[trigger] self@[r][c],
                            draws[r][c] as int,
                        ),
                    forall|c: int|
                        0 <= c < col ==> observation@[row as int][c] == definite_of(
                            #[trigger] self@[row as int][c],
                            draws[row as int][c] as int,
                        ),
            {
                observation.cells[row][col] = self.cells[row][col].resolve_with(draws[row][col]);
            }
        }
        assert(observation@ =~~= resolve_grid(self@, grid_view(*draws)));
        let (winner, winning_pieces) = check_winner(&observation);
        Resolution { board: observation, winner, winning_pieces }
    }
}

} // verus!
