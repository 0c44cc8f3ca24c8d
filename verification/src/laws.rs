//! What holds of the rules in general, proved from the definitions that the
//! contracts of the library are stated in.

use vstd::prelude::*;
use crate::board::{
    grid_filled, is_grid, no_markers, on_board, place_verdict, Rejection, BOARD_SIZE,
};
use crate::game::{
    after_end_turn, after_place_piece, after_preview, end_turn_verdict, initial_model,
    markers_behind, model_wf, next_marker, place_piece_verdict, preview_verdict, GameModel,
    PreviewChange,
};
use crate::piece::{definite_of, DefinitePiece, Player, ProbPiece};
use crate::resolve::{
    can_settle, lemma_empty_grid_is_undecided, lemma_no_markers_resolve_empty, may_resolve_to,
    resolve_grid, DRAW_BOUND,
};
use crate::win::{
    first_line, has_line, is_first_line, is_full, lemma_scan_rank_injective, line_at, line_col,
    line_row, none_before, scan_end, scan_rank, shows, win_outcome, winning_line, DrawReason,
    WinOutcome, DIRECTIONS, LINE_LENGTH,
};

verus! {

/// One request of a front end. A preview carries what an observation of the
/// board would show; only a preview that observes reads it.
pub enum Action {
    Place { row: int, col: int },
    Preview { observed: Seq<Seq<DefinitePiece>> },
    EndTurn,
    Restart,
}

/// The session after the request `a` in `s`.
pub open spec fn step(s: GameModel, a: Action) -> GameModel {
    match a {
        Action::Place { row, col } => after_place_piece(s, row, col),
        Action::Preview { observed } => after_preview(s, observed),
        Action::EndTurn => after_end_turn(s),
        Action::Restart => initial_model(),
    }
}

/// Why the request `a` is turned down in `s`, if it is.
pub open spec fn rejection(s: GameModel, a: Action) -> Option<Rejection> {
    match a {
        Action::Place { row, col } => match place_piece_verdict(s, row, col) {
            Ok(_) => None,
            Err(kind) => Some(kind),
        },
        Action::Preview { observed } => match preview_verdict(s) {
            Ok(_) => None,
            Err(kind) => Some(kind),
        },
        Action::EndTurn => match end_turn_verdict(s) {
            Ok(_) => None,
            Err(kind) => Some(kind),
        },
        Action::Restart => None,
    }
}

/// The request `a` observes the board of `s`.
pub open spec fn observes(s: GameModel, a: Action) -> bool {
    a is Preview && preview_verdict(s) == Ok::<PreviewChange, Rejection>(PreviewChange::Shown)
}

/// What a preview in `a` carries is an observation that the rules can
/// record: a grid whose colours stand on markers of the board of `s`.
pub open spec fn admissible(s: GameModel, a: Action) -> bool {
    a matches Action::Preview { observed } ==> is_grid(observed) && markers_behind(
        s.board,
        observed,
    )
}

/// The session after the requests `actions`, one after the other, from `s`.
pub open spec fn run(s: GameModel, actions: Seq<Action>) -> GameModel
    decreases actions.len(),
{
    if actions.len() == 0 {
        s
    } else {
        step(run(s, actions.drop_last()), actions.last())
    }
}

/// None of `actions` ends the turn or the game: each places or previews.
pub open spec fn within_turn(actions: Seq<Action>) -> bool {
    forall|i: int|
        0 <= i < actions.len() ==> (#[trigger] actions[i]) is Place || actions[i] is Preview
}

/// Every preview among `actions`, played one after the other from `s`,
/// carries an observation that the rules can record.
pub open spec fn playable(s: GameModel, actions: Seq<Action>) -> bool
    decreases actions.len(),
{
    actions.len() == 0 || (playable(s, actions.drop_last()) && admissible(
        run(s, actions.drop_last()),
        actions.last(),
    ))
}

/// None of `actions` starts the game over.
pub open spec fn without_restart(actions: Seq<Action>) -> bool {
    forall|i: int| 0 <= i < actions.len() ==> !((#[trigger] actions[i]) is Restart)
}

/// The session starts in a state that play can reach.
pub proof fn law_initial_is_wf()
    ensures
        model_wf(initial_model()),
{
    lemma_empty_grid_is_undecided();
}

/// Every request leads from a state that play can reach to another one.
pub proof fn law_step_preserves_wf(s: GameModel, a: Action)
    requires
        model_wf(s),
        admissible(s, a),
    ensures
        model_wf(step(s, a)),
{
    match a {
        Action::Place { row, col } => {
            let t = after_place_piece(s, row, col);
            if place_piece_verdict(s, row, col) is Ok {
                assert(is_grid(t.board));
                assert(markers_behind(t.board, t.observation_board));
            }
        },
        Action::Preview { observed } => {},
        Action::EndTurn => {
            if end_turn_verdict(s) is Ok {
                assert(win_outcome(s.observation_board) is None);
                assert(!has_line(s.observation_board, DefinitePiece::Black));
                assert(!has_line(s.observation_board, DefinitePiece::White));
            }
        },
        Action::Restart => {
            law_initial_is_wf();
        },
    }
}

/// Play leads from a state that it can reach to states that it can reach:
/// what holds at the start of a game holds ever after.
pub proof fn law_play_preserves_wf(s: GameModel, actions: Seq<Action>)
    requires
        model_wf(s),
        playable(s, actions),
    ensures
        model_wf(run(s, actions)),
    decreases actions.len(),
{
    if actions.len() > 0 {
        law_play_preserves_wf(s, actions.drop_last());
        law_step_preserves_wf(run(s, actions.drop_last()), actions.last());
    }
}

/// A request that is turned down changes nothing.
pub proof fn law_rejection_changes_nothing(s: GameModel, a: Action)
    requires
        rejection(s, a) is Some,
    ensures
        step(s, a) == s,
{
}

/// A marker, once placed, stays where it is and what it is, whatever is
/// requested, until the game is started over.
pub proof fn law_markers_stay(s: GameModel, a: Action, r: int, c: int)
    requires
        is_grid(s.board),
        on_board(r, c),
        s.board[r][c] != ProbPiece::Empty,
        !(a is Restart),
    ensures
        step(s, a).board[r][c] == s.board[r][c],
{
}

/// Short of starting over, only a placement changes the board, and only a
/// preview that observes changes what the last observation showed.
pub proof fn law_who_changes_what(s: GameModel, a: Action)
    requires
        !(a is Restart),
    ensures
        !(a is Place) ==> step(s, a).board == s.board,
        !observes(s, a) ==> step(s, a).observation_board == s.observation_board,
        observes(s, a) ==> step(s, a).observation_board == a->observed,
{
}

/// The board keeps its shape, whatever is requested.
proof fn lemma_board_keeps_shape(s: GameModel, actions: Seq<Action>)
    requires
        is_grid(s.board),
    ensures
        is_grid(run(s, actions).board),
    decreases actions.len(),
{
    if actions.len() > 0 {
        lemma_board_keeps_shape(s, actions.drop_last());
    }
}

/// A marker outlasts every course of play that does not start the game
/// over.
pub proof fn law_markers_outlast_play(s: GameModel, actions: Seq<Action>, r: int, c: int)
    requires
        is_grid(s.board),
        on_board(r, c),
        s.board[r][c] != ProbPiece::Empty,
        without_restart(actions),
    ensures
        run(s, actions).board[r][c] == s.board[r][c],
    decreases actions.len(),
{
    if actions.len() > 0 {
        let before = actions.drop_last();
        assert forall|i: int| 0 <= i < before.len() implies !((#[trigger] before[i])
            is Restart) by {
            assert(before[i] == actions[i]);
        }
        law_markers_outlast_play(s, before, r, c);
        lemma_board_keeps_shape(s, before);
        law_markers_stay(run(s, before), actions.last(), r, c);
    }
}

/// Placing on a cell that is taken or outside the board is turned down and
/// changes nothing; where the turn admits a placement, the answer names
/// which of the two it was.
pub proof fn law_place_on_taken_or_outside_cell(s: GameModel, row: int, col: int)
    requires
        !on_board(row, col) || s.board[row][col] != ProbPiece::Empty,
    ensures
        place_piece_verdict(s, row, col) is Err,
        after_place_piece(s, row, col) == s,
        place_verdict(s.board, row, col) == if on_board(row, col) {
            Err::<(), Rejection>(Rejection::CellOccupied)
        } else {
            Err::<(), Rejection>(Rejection::OutOfBounds)
        },
        !s.game_over && !s.show_observation && s.current_turn_move_count == 0
            ==> place_piece_verdict(s, row, col) == place_verdict(s.board, row, col),
{
}

/// From the start of a game, one placement on the board and the end of the
/// turn hand the move to White and advance Black's rotation index to 1.
pub proof fn law_first_turn(row: int, col: int)
    requires
        on_board(row, col),
    ensures
        place_piece_verdict(initial_model(), row, col) is Ok,
        end_turn_verdict(after_place_piece(initial_model(), row, col)) is Ok,
        after_end_turn(after_place_piece(initial_model(), row, col)).current_player
            == Player::White,
        after_end_turn(after_place_piece(initial_model(), row, col)).black_prob_index == 1,
        after_end_turn(after_place_piece(initial_model(), row, col)).white_prob_index == 0,
{
}

/// The end of a turn hands the move to the other player and advances the
/// rotation index of the one who moved, and of nobody else.
pub proof fn law_turns_alternate(s: GameModel)
    requires
        model_wf(s),
        end_turn_verdict(s) is Ok,
    ensures
        after_end_turn(s).current_player == s.current_player.spec_opponent(),
        after_end_turn(s).current_player != s.current_player,
        s.current_player == Player::Black ==> after_end_turn(s).black_prob_index == 1
            - s.black_prob_index && after_end_turn(s).white_prob_index == s.white_prob_index,
        s.current_player == Player::White ==> after_end_turn(s).white_prob_index == 1
            - s.white_prob_index && after_end_turn(s).black_prob_index == s.black_prob_index,
        next_marker(after_end_turn(s)) != ProbPiece::Empty,
{
}

/// Ending a turn in which nothing was placed is turned down and changes
/// nothing: the move stays where it is and no rotation index advances.
pub proof fn law_end_turn_needs_a_placement(s: GameModel)
    requires
        s.current_turn_move_count == 0,
    ensures
        end_turn_verdict(s) is Err,
        !s.game_over ==> end_turn_verdict(s) == Err::<(), Rejection>(Rejection::WrongPhase),
        after_end_turn(s) == s,
{
}

/// A finished game admits no placement, no end of a turn and no further
/// observation: what is on display can be put away, and nothing else.
pub proof fn law_finished_game_is_final(s: GameModel, row: int, col: int)
    requires
        model_wf(s),
        s.game_over,
    ensures
        place_piece_verdict(s, row, col) == Err::<(), Rejection>(Rejection::GameOver),
        end_turn_verdict(s) == Err::<(), Rejection>(Rejection::GameOver),
        preview_verdict(s) == if s.show_observation {
            Ok::<PreviewChange, Rejection>(PreviewChange::Hidden)
        } else {
            Err::<PreviewChange, Rejection>(Rejection::PreviewExhausted)
        },
        forall|observed: Seq<Seq<DefinitePiece>>|
            (#[trigger] after_preview(s, observed)).game_over,
{
}

/// Requests that keep within the turn never give back a preview.
proof fn lemma_allowance_never_grows(s: GameModel, actions: Seq<Action>)
    requires
        within_turn(actions),
    ensures
        run(s, actions).observe_remaining <= s.observe_remaining,
    decreases actions.len(),
{
    if actions.len() > 0 {
        lemma_allowance_never_grows(s, actions.drop_last());
    }
}

/// Once the board has been observed, no request within the same turn
/// observes it again: whatever was placed or put away in between, a further
/// preview puts the observation away if it is on display, and is turned
/// down as exhausted and changes nothing if it is not.
pub proof fn law_one_observation_per_turn(
    s: GameModel,
    observed: Seq<Seq<DefinitePiece>>,
    actions: Seq<Action>,
    again: Seq<Seq<DefinitePiece>>,
)
    requires
        model_wf(s),
        preview_verdict(s) == Ok::<PreviewChange, Rejection>(PreviewChange::Shown),
        within_turn(actions),
    ensures
        ({
            let later = run(after_preview(s, observed), actions);
            &&& !observes(later, (Action::Preview { observed: again }))
            &&& preview_verdict(later) == if later.show_observation {
                Ok::<PreviewChange, Rejection>(PreviewChange::Hidden)
            } else {
                Err::<PreviewChange, Rejection>(Rejection::PreviewExhausted)
            }
            &&& !later.show_observation ==> after_preview(later, again) == later
        }),
{
    lemma_allowance_never_grows(after_preview(s, observed), actions);
}

/// Starting over leads to the state at the start of a game from every
/// state, a finished game included.
pub proof fn law_restart_is_total(s: GameModel)
    ensures
        step(s, Action::Restart) == initial_model(),
        rejection(s, Action::Restart) is None,
        model_wf(step(s, Action::Restart)),
{
    law_initial_is_wf();
}

/// An observation of a board without markers shows no colour and decides
/// nothing.
pub proof fn law_empty_board_is_undecided(
    board: Seq<Seq<ProbPiece>>,
    observed: Seq<Seq<DefinitePiece>>,
)
    requires
        no_markers(board),
        may_resolve_to(board, observed),
    ensures
        observed == grid_filled(DefinitePiece::Empty),
        win_outcome(observed) == None::<WinOutcome>,
        winning_line(observed, DefinitePiece::Black).len() == 0,
        winning_line(observed, DefinitePiece::White).len() == 0,
{
    lemma_no_markers_resolve_empty(board, observed);
    lemma_empty_grid_is_undecided();
}

/// Draws below the bound give an observation of the board.
pub proof fn law_draws_give_an_observation(board: Seq<Seq<ProbPiece>>, draws: Seq<Seq<u32>>)
    requires
        forall|r: int, c: int| on_board(r, c) ==> #[trigger] draws[r][c] < DRAW_BOUND,
    ensures
        may_resolve_to(board, resolve_grid(board, draws)),
{
    let resolved = resolve_grid(board, draws);
    assert forall|r: int, c: int| on_board(r, c) implies can_settle(
        #[trigger] board[r][c],
        resolved[r][c],
    ) by {
        assert(draws[r][c] < DRAW_BOUND);
        assert(resolved[r][c] == definite_of(board[r][c], draws[r][c] as int));
    }
}

/// The draw below the bound that settles `piece` as `d`, where there is one.
pub open spec fn draw_behind(piece: ProbPiece, d: DefinitePiece) -> int {
    choose|draw: int| 0 <= draw < DRAW_BOUND && d == #[trigger] definite_of(piece, draw)
}

/// Every observation of a board is the work of draws below the bound, one
/// for each cell.
pub proof fn law_observation_has_draws(
    board: Seq<Seq<ProbPiece>>,
    observed: Seq<Seq<DefinitePiece>>,
)
    requires
        may_resolve_to(board, observed),
    ensures
        exists|draws: Seq<Seq<u32>>|
            is_grid(draws) && (forall|r: int, c: int|
                on_board(r, c) ==> #[trigger] draws[r][c] < DRAW_BOUND) && observed
                == #[trigger] resolve_grid(board, draws),
{
    let draws = Seq::new(
        BOARD_SIZE as nat,
        |r: int|
            Seq::new(BOARD_SIZE as nat, |c: int| draw_behind(board[r][c], observed[r][c]) as u32),
    );
    assert forall|r: int, c: int| on_board(r, c) implies #[trigger] draws[r][c] < DRAW_BOUND
        && observed[r][c] == definite_of(board[r][c], draws[r][c] as int) by {
        assert(can_settle(board[r][c], observed[r][c]));
    }
    assert(observed =~~= resolve_grid(board, draws));
}

/// Where both colours hold a line the game is a draw, and each colour is
/// credited with a full line.
pub proof fn law_two_lines_are_a_draw(g: Seq<Seq<DefinitePiece>>)
    requires
        has_line(g, DefinitePiece::Black),
        has_line(g, DefinitePiece::White),
    ensures
        win_outcome(g) == Some(WinOutcome::Draw(DrawReason::BothWin)),
        winning_line(g, DefinitePiece::Black).len() == LINE_LENGTH,
        winning_line(g, DefinitePiece::White).len() == LINE_LENGTH,
{
}

/// A board on which every cell shows a colour and neither colour holds a
/// line is a draw.
pub proof fn law_full_board_without_line_is_a_draw(g: Seq<Seq<DefinitePiece>>)
    requires
        is_full(g),
        !has_line(g, DefinitePiece::Black),
        !has_line(g, DefinitePiece::White),
    ensures
        win_outcome(g) == Some(WinOutcome::Draw(DrawReason::BoardFull)),
{
}

/// A colour that alone holds a line wins.
pub proof fn law_single_line_wins(g: Seq<Seq<DefinitePiece>>)
    ensures
        has_line(g, DefinitePiece::Black) && !has_line(g, DefinitePiece::White) ==> win_outcome(g)
            == Some(WinOutcome::BlackWins),
        has_line(g, DefinitePiece::White) && !has_line(g, DefinitePiece::Black) ==> win_outcome(g)
            == Some(WinOutcome::WhiteWins),
        win_outcome(g) is None <==> !has_line(g, DefinitePiece::Black) && !has_line(
            g,
            DefinitePiece::White,
        ) && !is_full(g),
{
}

/// The line that stands at place `rank` in scan order.
spec fn line_of_rank(rank: int) -> (int, int, int) {
    (
        rank / DIRECTIONS as int / BOARD_SIZE as int,
        rank / DIRECTIONS as int % BOARD_SIZE as int,
        rank % DIRECTIONS as int,
    )
}

/// Among the lines of a colour from `rank` on there is a first one.
proof fn lemma_least_line(g: Seq<Seq<DefinitePiece>>, color: DefinitePiece, rank: int)
    requires
        0 <= rank,
        has_line(g, color),
        none_before(g, color, rank),
    ensures
        exists|r: int, c: int, d: int| is_first_line(g, color, r, c, d),
    decreases scan_end() - rank,
{
    let (r0, c0, d0) = choose|r: int, c: int, d: int| line_at(g, color, r, c, d);
    assert(line_at(g, color, r0, c0, d0));
    assert(rank <= scan_rank(r0, c0, d0) < scan_end());
    let (r, c, d) = line_of_rank(rank);
    assert(on_board(r, c) && 0 <= d < DIRECTIONS && scan_rank(r, c, d) == rank);
    if line_at(g, color, r, c, d) {
        assert(is_first_line(g, color, r, c, d));
    } else {
        assert forall|r2: int, c2: int, d2: int| #[trigger]
            line_at(g, color, r2, c2, d2) implies rank + 1 <= scan_rank(r2, c2, d2) by {
            if scan_rank(r2, c2, d2) == rank {
                lemma_scan_rank_injective(r, c, d, r2, c2, d2);
            }
        }
        lemma_least_line(g, color, rank + 1);
    }
}

/// A colour that holds a line is credited with one of its lines: the cells
/// credited to it lie on the board in a row and show that colour, and no
/// line of the colour stands earlier in scan order.
pub proof fn law_credited_cells_are_a_line(g: Seq<Seq<DefinitePiece>>, color: DefinitePiece)
    requires
        has_line(g, color),
    ensures
        is_first_line(
            g,
            color,
            first_line(g, color).0,
            first_line(g, color).1,
            first_line(g, color).2,
        ),
        forall|k: int|
            0 <= k < LINE_LENGTH ==> on_board(
                (#[trigger] winning_line(g, color)[k]).0 as int,
                winning_line(g, color)[k].1 as int,
            ) && g[winning_line(g, color)[k].0 as int][winning_line(g, color)[k].1 as int] == color,
{
    lemma_least_line(g, color, 0);
    let (r, c, d) = first_line(g, color);
    assert(is_first_line(g, color, r, c, d));
    assert forall|k: int| 0 <= k < LINE_LENGTH implies on_board(
        (#[trigger] winning_line(g, color)[k]).0 as int,
        winning_line(g, color)[k].1 as int,
    ) && g[winning_line(g, color)[k].0 as int][winning_line(g, color)[k].1 as int] == color by {
        assert(shows(g, color, r, c, d, k));
    }
}

/// Five cells of one colour in a row make a line whichever way they are
/// read: read backwards from `(r, c)`, they are the line that starts at the
/// far end.
pub proof fn law_line_read_backwards(
    g: Seq<Seq<DefinitePiece>>,
    color: DefinitePiece,
    r: int,
    c: int,
    d: int,
)
    requires
        0 <= d < DIRECTIONS,
        color != DefinitePiece::Empty,
        forall|k: int| 0 <= k < LINE_LENGTH ==> #[trigger] shows(g, color, r, c, d, -k),
    ensures
        line_at(g, color, line_row(r, d, 1 - LINE_LENGTH), line_col(c, d, 1 - LINE_LENGTH), d),
        has_line(g, color),
{
    let r0 = line_row(r, d, 1 - LINE_LENGTH);
    let c0 = line_col(c, d, 1 - LINE_LENGTH);
    assert forall|k: int| 0 <= k < LINE_LENGTH implies #[trigger] shows(g, color, r0, c0, d, k) by {
        assert(shows(g, color, r, c, d, -(LINE_LENGTH - 1 - k)));
    }
    assert(shows(g, color, r0, c0, d, 0));
    assert(line_at(g, color, r0, c0, d));
}

} // verus!
