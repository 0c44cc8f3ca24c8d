//! Win detection on a grid of settled colours.
//!
//! A line is five cells in a row, read from its origin in one of four
//! directions: right, down, down and right, down and left. Each colour is
//! credited with the first of its lines in scan order: origins row by row,
//! and at one origin the directions in the order just given.

use vstd::prelude::*;
use crate::board::{on_board, ResolvedBoard, BOARD_SIZE};
use crate::piece::DefinitePiece;

verus! {

/// Number of cells that make a line.
pub const LINE_LENGTH: usize = 5;

/// Number of directions in which a line is read from its origin.
pub const DIRECTIONS: usize = 4;

/// The direction along a row, to the right.
pub const RIGHT: usize = 0;

/// The direction along a column, downwards.
pub const DOWN: usize = 1;

/// The direction of the diagonal that runs down and to the right.
pub const DOWN_RIGHT: usize = 2;

/// The direction of the diagonal that runs down and to the left.
pub const DOWN_LEFT: usize = 3;

#[derive(Clone, Copy, Debug, PartialEq, Eq, Structural)]
pub enum DrawReason {
    /// Both colours hold a line.
    BothWin,
    /// Every cell shows a colour and neither colour holds a line.
    BoardFull,
}

#[derive(Clone, Copy, Debug, PartialEq, Eq, Structural)]
pub enum WinOutcome {
    BlackWins,
    WhiteWins,
    Draw(DrawReason),
}

/// For each colour the cells of its winning line, from the origin on; empty
/// for a colour that holds no line.
#[derive(Clone, Debug, PartialEq, Eq)]
pub struct WinningPieces {
    pub black: Vec<(usize, usize)>,
    pub white: Vec<(usize, usize)>,
}

/// The words in which an outcome is announced.
pub open spec fn outcome_text(outcome: WinOutcome) -> Seq<char> {
    match outcome {
        WinOutcome::BlackWins => "Black Wins!"@,
        WinOutcome::WhiteWins => "White Wins!"@,
        WinOutcome::Draw(DrawReason::BothWin) => "Draw! Both Players Win!"@,
        WinOutcome::Draw(DrawReason::BoardFull) => "Draw! Board Full!"@,
    }
}

impl WinOutcome {
    /// The words in which this outcome is announced.
    pub fn message(self) -> (text: &'static str)
        ensures
            text@ == outcome_text(self),
    {
        match self {
            WinOutcome::BlackWins => "Black Wins!",
            WinOutcome::WhiteWins => "White Wins!",
            WinOutcome::Draw(DrawReason::BothWin) => "Draw! Both Players Win!",
            WinOutcome::Draw(DrawReason::BoardFull) => "Draw! Board Full!",
        }
    }
}

impl WinningPieces {
    /// No cell credited to either colour.
    pub fn new() -> (w: WinningPieces)
        ensures
            w.black@ == Seq::<(usize, usize)>::empty(),
            w.white@ == Seq::<(usize, usize)>::empty(),
    {
        WinningPieces { black: Vec::new(), white: Vec::new() }
    }
}

impl Default for WinningPieces {
    fn default() -> (w: WinningPieces)
        ensures
            w.black@ == Seq::<(usize, usize)>::empty(),
            w.white@ == Seq::<(usize, usize)>::empty(),
    {
        WinningPieces::new()
    }
}

/// Row of the `k`-th cell of the line that starts in row `r` in direction `d`.
pub open spec fn line_row(r: int, d: int, k: int) -> int {
    if d == RIGHT {
        r
    } else {
        r + k
    }
}

/// Column of the `k`-th cell of the line that starts in column `c` in
/// direction `d`.
pub open spec fn line_col(c: int, d: int, k: int) -> int {
    if d == DOWN {
        c
    } else if d == DOWN_LEFT {
        c - k
    } else {
        c + k
    }
}

/// The `k`-th cell of the line from `(r, c)` in direction `d` lies on the
/// board and shows `color`.
pub open spec fn shows(
    g: Seq<Seq<DefinitePiece>>,
    color: DefinitePiece,
    r: int,
    c: int,
    d: int,
    k: int,
) -> bool {
    &&& on_board(line_row(r, d, k), line_col(c, d, k))
    &&& g[line_row(r, d, k)][line_col(c, d, k)] == color
}

/// The first `n` cells of the line from `(r, c)` in direction `d` show `color`.
pub open spec fn run_of(
    g: Seq<Seq<DefinitePiece>>,
    color: DefinitePiece,
    r: int,
    c: int,
    d: int,
    n: int,
) -> bool {
    forall|k: int| 0 <= k < n ==> #[trigger] shows(g, color, r, c, d, k)
}

/// `color` holds the line that starts at `(r, c)` and runs in direction `d`.
pub open spec fn line_at(
    g: Seq<Seq<DefinitePiece>>,
    color: DefinitePiece,
    r: int,
    c: int,
    d: int,
) -> bool {
    &&& on_board(r, c)
    &&& 0 <= d < DIRECTIONS
    &&& color != DefinitePiece::Empty
    &&& run_of(g, color, r, c, d, LINE_LENGTH as int)
}

/// `color` holds a line somewhere on `g`.
pub open spec fn has_line(g: Seq<Seq<DefinitePiece>>, color: DefinitePiece) -> bool {
    exists|r: int, c: int, d: int| line_at(g, color, r, c, d)
}

/// Place of the line `(r, c, d)` in scan order.
pub open spec fn scan_rank(r: int, c: int, d: int) -> int {
    (r * BOARD_SIZE + c) * DIRECTIONS + d
}

/// The place in scan order at which the scan has passed every line.
pub open spec fn scan_end() -> int {
    scan_rank(BOARD_SIZE as int, 0, 0)
}

/// Every line of `color` stands at `rank` or later in scan order.
pub open spec fn none_before(g: Seq<Seq<DefinitePiece>>, color: DefinitePiece, rank: int) -> bool {
    forall|r: int, c: int, d: int| #[trigger]
        line_at(g, color, r, c, d) ==> rank <= scan_rank(r, c, d)
}

/// `(r, c, d)` is the line of `color` that the scan meets first.
pub open spec fn is_first_line(
    g: Seq<Seq<DefinitePiece>>,
    color: DefinitePiece,
    r: int,
    c: int,
    d: int,
) -> bool {
    line_at(g, color, r, c, d) && none_before(g, color, scan_rank(r, c, d))
}

/// The line of `color` that the scan meets first, where `color` holds one.
pub open spec fn first_line(g: Seq<Seq<DefinitePiece>>, color: DefinitePiece) -> (int, int, int) {
    choose|r: int, c: int, d: int| is_first_line(g, color, r, c, d)
}

/// The cells of the line `(r, c, d)`, from the origin on.
pub open spec fn line_cells(r: int, c: int, d: int) -> Seq<(usize, usize)> {
    Seq::new(
        LINE_LENGTH as nat,
        |k: int| (line_row(r, d, k) as usize, line_col(c, d, k) as usize),
    )
}

/// The cells credited to `color`: those of its first line, or none.
pub open spec fn winning_line(g: Seq<Seq<DefinitePiece>>, color: DefinitePiece) -> Seq<
    (usize, usize),
> {
    if has_line(g, color) {
        let (r, c, d) = first_line(g, color);
        line_cells(r, c, d)
    } else {
        Seq::empty()
    }
}

/// Every cell of `g` shows a colour.
pub open spec fn is_full(g: Seq<Seq<DefinitePiece>>) -> bool {
    forall|r: int, c: int| on_board(r, c) ==> g[r][c] != DefinitePiece::Empty
}

/// How the game stands on `g`, if it is decided.
pub open spec fn win_outcome(g: Seq<Seq<DefinitePiece>>) -> Option<WinOutcome> {
    let black = has_line(g, DefinitePiece::Black);
    let white = has_line(g, DefinitePiece::White);
    if black && white {
        Some(WinOutcome::Draw(DrawReason::BothWin))
    } else if black {
        Some(WinOutcome::BlackWins)
    } else if white {
        Some(WinOutcome::WhiteWins)
    } else if is_full(g) {
        Some(WinOutcome::Draw(DrawReason::BoardFull))
    } else {
        None
    }
}

/// Two lines with the same place in scan order are the same line.
pub proof fn lemma_scan_rank_injective(r1: int, c1: int, d1: int, r2: int, c2: int, d2: int)
    requires
        on_board(r1, c1),
        on_board(r2, c2),
        0 <= d1 < DIRECTIONS,
        0 <= d2 < DIRECTIONS,
        scan_rank(r1, c1, d1) == scan_rank(r2, c2, d2),
    ensures
        r1 == r2,
        c1 == c2,
        d1 == d2,
{
}

/// The first line of a colour is the only one that qualifies as first, so
/// it is the one that the colour is credited with.
pub proof fn lemma_first_line_is_credited(
    g: Seq<Seq<DefinitePiece>>,
    color: DefinitePiece,
    r: int,
    c: int,
    d: int,
)
    requires
        is_first_line(g, color, r, c, d),
    ensures
        has_line(g, color),
        first_line(g, color) == (r, c, d),
        winning_line(g, color) == line_cells(r, c, d),
{
    let (r2, c2, d2) = first_line(g, color);
    assert(is_first_line(g, color, r2, c2, d2));
    assert(line_at(g, color, r, c, d));
    assert(line_at(g, color, r2, c2, d2));
    lemma_scan_rank_injective(r, c, d, r2, c2, d2);
}

/// A colour without a line before the end of the scan holds no line.
pub proof fn lemma_no_line_is_credited_nothing(g: Seq<Seq<DefinitePiece>>, color: DefinitePiece)
    requires
        none_before(g, color, scan_end()),
    ensures
        !has_line(g, color),
        winning_line(g, color) == Seq::<(usize, usize)>::empty(),
{
    assert forall|r: int, c: int, d: int| !line_at(g, color, r, c, d) by {
        if line_at(g, color, r, c, d) {
            assert(scan_end() <= scan_rank(r, c, d));
        }
    }
}

/// What the scan knows of `color` when every line before `rank` has been
/// looked at: either no line yet and nothing credited, or the first line,
/// which starts at `origin`, and its cells.
pub open spec fn scanned(
    g: Seq<Seq<DefinitePiece>>,
    color: DefinitePiece,
    found: bool,
    cells: Seq<(usize, usize)>,
    origin: (int, int, int),
    rank: int,
) -> bool {
    if found {
        &&& is_first_line(g, color, origin.0, origin.1, origin.2)
        &&& cells == line_cells(origin.0, origin.1, origin.2)
    } else {
        &&& none_before(g, color, rank)
        &&& cells.len() == 0
    }
}

/// A scan that has found no line at one place has found none up to the next.
proof fn lemma_scan_passes(
    g: Seq<Seq<DefinitePiece>>,
    color: DefinitePiece,
    r: int,
    c: int,
    d: int,
)
    requires
        on_board(r, c),
        0 <= d < DIRECTIONS,
        none_before(g, color, scan_rank(r, c, d)),
        !line_at(g, color, r, c, d),
    ensures
        none_before(g, color, scan_rank(r, c, d) + 1),
{
    assert forall|r2: int, c2: int, d2: int| #[trigger]
        line_at(g, color, r2, c2, d2) implies scan_rank(r, c, d) + 1 <= scan_rank(r2, c2, d2) by {
        if scan_rank(r2, c2, d2) == scan_rank(r, c, d) {
            lemma_scan_rank_injective(r, c, d, r2, c2, d2);
        }
    }
}

/// A line belongs to the colour of its origin and to no other.
proof fn lemma_origin_decides(
    g: Seq<Seq<DefinitePiece>>,
    color: DefinitePiece,
    r: int,
    c: int,
    d: int,
)
    requires
        g[r][c] != color,
    ensures
        !line_at(g, color, r, c, d),
{
    if line_at(g, color, r, c, d) {
        assert(shows(g, color, r, c, d, 0));
    }
}

/// The scan moves past a place where `color` holds no line.
proof fn lemma_scanned_passes(
    g: Seq<Seq<DefinitePiece>>,
    color: DefinitePiece,
    found: bool,
    cells: Seq<(usize, usize)>,
    origin: (int, int, int),
    r: int,
    c: int,
    d: int,
)
    requires
        on_board(r, c),
        0 <= d < DIRECTIONS,
        scanned(g, color, found, cells, origin, scan_rank(r, c, d)),
        found || !line_at(g, color, r, c, d),
    ensures
        scanned(g, color, found, cells, origin, scan_rank(r, c, d) + 1),
{
    if !found {
        lemma_scan_passes(g, color, r, c, d);
    }
}

/// The scan moves past an origin that does not show `color`.
proof fn lemma_scanned_passes_origin(
    g: Seq<Seq<DefinitePiece>>,
    color: DefinitePiece,
    found: bool,
    cells: Seq<(usize, usize)>,
    origin: (int, int, int),
    r: int,
    c: int,
)
    requires
        on_board(r, c),
        g[r][c] != color,
        scanned(g, color, found, cells, origin, scan_rank(r, c, RIGHT as int)),
    ensures
        scanned(g, color, found, cells, origin, scan_rank(r, c, DIRECTIONS as int)),
{
    lemma_origin_decides(g, color, r, c, RIGHT as int);
    lemma_scanned_passes(g, color, found, cells, origin, r, c, RIGHT as int);
    lemma_origin_decides(g, color, r, c, DOWN as int);
    lemma_scanned_passes(g, color, found, cells, origin, r, c, DOWN as int);
    lemma_origin_decides(g, color, r, c, DOWN_RIGHT as int);
    lemma_scanned_passes(g, color, found, cells, origin, r, c, DOWN_RIGHT as int);
    lemma_origin_decides(g, color, r, c, DOWN_LEFT as int);
    lemma_scanned_passes(g, color, found, cells, origin, r, c, DOWN_LEFT as int);
}

/// What the finished scan knows of `color` is what `color` is credited with.
proof fn lemma_scanned_to_the_end(
    g: Seq<Seq<DefinitePiece>>,
    color: DefinitePiece,
    found: bool,
    cells: Seq<(usize, usize)>,
    origin: (int, int, int),
)
    requires
        scanned(g, color, found, cells, origin, scan_end()),
    ensures
        found == has_line(g, color),
        cells == winning_line(g, color),
{
    if found {
        lemma_first_line_is_credited(g, color, origin.0, origin.1, origin.2);
    } else {
        lemma_no_line_is_credited_nothing(g, color);
        assert(cells =~= Seq::<(usize, usize)>::empty());
    }
}

/// The `k`-th cell of the line from `(row, col)` in direction `d`, if it lies
/// on the board.
fn step_from(row: usize, col: usize, d: usize, k: usize) -> (cell: Option<(usize, usize)>)
    requires
        on_board(row as int, col as int),
        d < DIRECTIONS,
        k < LINE_LENGTH,
    ensures
        cell == if on_board(
            line_row(row as int, d as int, k as int),
            line_col(col as int, d as int, k as int),
        ) {
            Some(
                (
                    line_row(row as int, d as int, k as int) as usize,
                    line_col(col as int, d as int, k as int) as usize,
                ),
            )
        } else {
            None::<(usize, usize)>
        },
{
    if d == DOWN_LEFT && col < k {
        return None;
    }
    let r: usize = if d == RIGHT {
        row
    } else {
        row + k
    };
    let c: usize = if d == DOWN {
        col
    } else if d == DOWN_LEFT {
        col - k
    } else {
        col + k
    };
    if r < BOARD_SIZE && c < BOARD_SIZE {
        Some((r, c))
    } else {
        None
    }
}

/// The cells that the scan collects from `(row, col)` in direction `d`: the
/// origin, then the cells after it as long as they lie on the board and show
/// the origin's colour, five cells at most.
fn run_from(board: &ResolvedBoard, row: usize, col: usize, d: usize) -> (run: Vec<(usize, usize)>)
    requires
        on_board(row as int, col as int),
        d < DIRECTIONS,
    ensures
        1 <= run@.len() <= LINE_LENGTH,
        run@ == line_cells(row as int, col as int, d as int).take(run@.len() as int),
        run_of(
            board@,
            board@[row as int][col as int],
            row as int,
            col as int,
            d as int,
            run@.len() as int,
        ),
        run@.len() < LINE_LENGTH ==> !shows(
            board@,
            board@[row as int][col as int],
            row as int,
            col as int,
            d as int,
            run@.len() as int,
        ),
{
    let current = board.cells[row][col];
    let mut run: Vec<(usize, usize)> = Vec::new();
    run.push((row, col));
    assert(run@ =~= line_cells(row as int, col as int, d as int).take(1));
    let mut step: usize = 1;
    while step < LINE_LENGTH
        invariant
            on_board(row as int, col as int),
            d < DIRECTIONS,
            current == board@[row as int][col as int],
            1 <= step <= LINE_LENGTH,
            run@.len() == step,
            run@ == line_cells(row as int, col as int, d as int).take(step as int),
            run_of(board@, current, row as int, col as int, d as int, step as int),
        ensures
            1 <= run@.len() <= LINE_LENGTH,
            run@ == line_cells(row as int, col as int, d as int).take(run@.len() as int),
            run_of(board@, current, row as int, col as int, d as int, run@.len() as int),
            run@.len() < LINE_LENGTH ==> !shows(
                board@,
                current,
                row as int,
                col as int,
                d as int,
                run@.len() as int,
            ),
        decreases LINE_LENGTH - step,
    {
        match step_from(row, col, d, step) {
            None => {
                break ;
            },
            Some((r, c)) => {
                if board.cells[r][c] == current {
                    run.push((r, c));
                    assert(run@ =~= line_cells(row as int, col as int, d as int).take(step + 1));
                    step += 1;
                } else {
                    break ;
                }
            },
        }
    }
    run
}

/// Whether every cell of `board` shows a colour.
fn board_is_full(board: &ResolvedBoard) -> (full: bool)
    ensures
        full == is_full(board@),
{
    for row in 0..BOARD_SIZE
        invariant
            forall|r: int, c: int|
                0 <= r < row && 0 <= c < BOARD_SIZE ==> board@[r][c] != DefinitePiece::Empty,
    {
        for col in 0..BOARD_SIZE
            invariant
                row < BOARD_SIZE,
                forall|r: int, c: int|
                    0 <= r < row && 0 <= c < BOARD_SIZE ==> board@[r][c] != DefinitePiece::Empty,
                forall|c: int| 0 <= c < col ==> board@[row as int][c] != DefinitePiece::Empty,
        {
            if board.cells[row][col] == DefinitePiece::Empty {
                assert(on_board(row as int, col as int));
                return false;
            }
        }
    }
    true
}

/// Decides the game on an observed board. Each colour is credited with the
/// first of its lines in scan order; a later line of the same colour changes
/// nothing. Both colours holding a line is a draw, and so is a full board on
/// which neither holds one.
pub fn check_winner(board: &ResolvedBoard) -> (out: (Option<WinOutcome>, WinningPieces))
    ensures
        out.0 == win_outcome(board@),
        out.1.black@ == winning_line(board@, DefinitePiece::Black),
        out.1.white@ == winning_line(board@, DefinitePiece::White),
{
    let mut black_has_win = false;
    let mut white_has_win = false;
    let mut winning_pieces = WinningPieces::new();
    let ghost g = board@;
    let ghost mut black_origin = (0int, 0int, 0int);
    let ghost mut white_origin = (0int, 0int, 0int);

    for row in 0..BOARD_SIZE
        invariant
            g == board@,
            scanned(
                g,
                DefinitePiece::Black,
                black_has_win,
                winning_pieces.black@,
                black_origin,
                scan_rank(row as int, 0, 0),
            ),
            scanned(
                g,
                DefinitePiece::White,
                white_has_win,
                winning_pieces.white@,
                white_origin,
                scan_rank(row as int, 0, 0),
            ),
    {
        for col in 0..BOARD_SIZE
            invariant
                g == board@,
                row < BOARD_SIZE,
                scanned(
                    g,
                    DefinitePiece::Black,
                    black_has_win,
                    winning_pieces.black@,
                    black_origin,
                    scan_rank(row as int, col as int, 0),
                ),
                scanned(
                    g,
                    DefinitePiece::White,
                    white_has_win,
                    winning_pieces.white@,
                    white_origin,
                    scan_rank(row as int, col as int, 0),
                ),
        {
            let current = board.cells[row][col];
            if current == DefinitePiece::Empty {
                proof {
                    lemma_scanned_passes_origin(
                        g,
                        DefinitePiece::Black,
                        black_has_win,
                        winning_pieces.black@,
                        black_origin,
                        row as int,
                        col as int,
                    );
                    lemma_scanned_passes_origin(
                        g,
                        DefinitePiece::White,
                        white_has_win,
                        winning_pieces.white@,
                        white_origin,
                        row as int,
                        col as int,
                    );
                }
            } else {
                for d in 0..DIRECTIONS
                    invariant
                        g == board@,
                        on_board(row as int, col as int),
                        current == g[row as int][col as int],
                        current != DefinitePiece::Empty,
                        scanned(
                            g,
                            DefinitePiece::Black,
                            black_has_win,
                            winning_pieces.black@,
                            black_origin,
                            scan_rank(row as int, col as int, d as int),
                        ),
                        scanned(
                            g,
                            DefinitePiece::White,
                            white_has_win,
                            winning_pieces.white@,
                            white_origin,
                            scan_rank(row as int, col as int, d as int),
                        ),
                {
                    let run = run_from(board, row, col, d);
                    let ghost here = line_at(g, current, row as int, col as int, d as int);
                    proof {
                        if run@.len() >= LINE_LENGTH {
                            assert(run@ =~= line_cells(row as int, col as int, d as int));
                        }
                        assert(here == (run@.len() >= LINE_LENGTH));
                        if current != DefinitePiece::Black {
                            lemma_origin_decides(
                                g,
                                DefinitePiece::Black,
                                row as int,
                                col as int,
                                d as int,
                            );
                        }
                        if current != DefinitePiece::White {
                            lemma_origin_decides(
                                g,
                                DefinitePiece::White,
                                row as int,
                                col as int,
                                d as int,
                            );
                        }
                    }
                    if run.len() >= LINE_LENGTH {
                        if current == DefinitePiece::Black && !black_has_win {
                            black_has_win = true;
                            winning_pieces.black = run;
                            proof {
                                black_origin = (row as int, col as int, d as int);
                            }
                        } else if current == DefinitePiece::White && !white_has_win {
                            white_has_win = true;
                            winning_pieces.white = run;
                            proof {
                                white_origin = (row as int, col as int, d as int);
                            }
                        }
                    }
                    proof {
                        lemma_scanned_passes(
                            g,
                            DefinitePiece::Black,
                            black_has_win,
                            winning_pieces.black@,
                            black_origin,
                            row as int,
                            col as int,
                            d as int,
                        );
                        lemma_scanned_passes(
                            g,
                            DefinitePiece::White,
                            white_has_win,
                            winning_pieces.white@,
                            white_origin,
                            row as int,
                            col as int,
                            d as int,
                        );
                    }
                }
            }
        }
    }

    proof {
        lemma_scanned_to_the_end(
            g,
            DefinitePiece::Black,
            black_has_win,
            winning_pieces.black@,
            black_origin,
        );
        lemma_scanned_to_the_end(
            g,
            DefinitePiece::White,
            white_has_win,
            winning_pieces.white@,
            white_origin,
        );
    }
    let result = if black_has_win && white_has_win {
        Some(WinOutcome::Draw(DrawReason::BothWin))
    } else if black_has_win {
        Some(WinOutcome::BlackWins)
    } else if white_has_win {
        Some(WinOutcome::WhiteWins)
    } else if board_is_full(board) {
        Some(WinOutcome::Draw(DrawReason::BoardFull))
    } else {
        None
    };
    (result, winning_pieces)
}

} // verus!
