//! The session: whose turn it is, what may be done next, and what the last
//! observation showed.
//!
//! A turn is one placement followed by the end of the turn. Once per turn the
//! board may be observed; an observation that decides the game ends it.
//! Every action either applies in full or is rejected and changes nothing.

use vstd::prelude::*;
use crate::board::{
    grid_filled, grid_set, grid_view, is_grid, on_board, place_verdict, Board, Rejection,
    ResolvedBoard, BOARD_SIZE,
};
use crate::piece::{marker_of, DefinitePiece, Player, ProbPiece};
use crate::resolve::{
    lemma_can_settle, lemma_empty_grid_is_undecided, may_resolve_to, resolve_grid, Resolution,
};
use crate::win::{win_outcome, winning_line, WinOutcome, WinningPieces};

verus! {

/// What an accepted preview action did.
#[derive(Clone, Copy, Debug, PartialEq, Eq, Structural)]
pub enum PreviewChange {
    /// The board was observed and the observation is on display.
    Shown,
    /// The observation on display was put away.
    Hidden,
}

/// The two halves of a turn.
#[derive(Clone, Copy, Debug, PartialEq, Eq, Structural)]
pub enum Phase {
    AwaitingPlacement,
    AwaitingTurnEnd,
}

/// The session as a mathematical value.
#[verifier::ext_equal]
pub struct GameModel {
    pub board: Seq<Seq<ProbPiece>>,
    pub show_observation: bool,
    pub observation_board: Seq<Seq<DefinitePiece>>,
    pub observation_winner: Option<WinOutcome>,
    pub observe_remaining: int,
    pub current_player: Player,
    pub black_prob_index: int,
    pub white_prob_index: int,
    pub winning_black: Seq<(usize, usize)>,
    pub winning_white: Seq<(usize, usize)>,
    pub game_over: bool,
    pub current_turn_move_count: int,
    pub show_prob_hint: bool,
}

/// Every colour of the observation `observed` stands on a marker of `board`.
pub open spec fn markers_behind(
    board: Seq<Seq<ProbPiece>>,
    observed: Seq<Seq<DefinitePiece>>,
) -> bool {
    forall|r: int, c: int|
        on_board(r, c) && #[trigger] observed[r][c] != DefinitePiece::Empty ==> board[r][c]
            != ProbPiece::Empty
}

/// What holds of the session in every state that play can reach.
pub open spec fn model_wf(s: GameModel) -> bool {
    &&& is_grid(s.board)
    &&& is_grid(s.observation_board)
    &&& markers_behind(s.board, s.observation_board)
    &&& 0 <= s.black_prob_index <= 1
    &&& 0 <= s.white_prob_index <= 1
    &&& 0 <= s.current_turn_move_count <= 1
    &&& 0 <= s.observe_remaining <= 1
    &&& s.show_prob_hint == (s.current_turn_move_count == 0)
    &&& s.show_observation ==> s.observe_remaining == 0
    &&& s.game_over ==> s.observe_remaining == 0
    &&& s.game_over == (s.observation_winner is Some)
    &&& s.observation_winner == win_outcome(s.observation_board)
    &&& s.winning_black == winning_line(s.observation_board, DefinitePiece::Black)
    &&& s.winning_white == winning_line(s.observation_board, DefinitePiece::White)
}

/// The session at the start of a game.
pub open spec fn initial_model() -> GameModel {
    GameModel {
        board: grid_filled(ProbPiece::Empty),
        show_observation: false,
        observation_board: grid_filled(DefinitePiece::Empty),
        observation_winner: None,
        observe_remaining: 1,
        current_player: Player::Black,
        black_prob_index: 0,
        white_prob_index: 0,
        winning_black: Seq::empty(),
        winning_white: Seq::empty(),
        game_over: false,
        current_turn_move_count: 0,
        show_prob_hint: true,
    }
}

/// The half of the turn that `s` is in.
pub open spec fn phase_of(s: GameModel) -> Phase {
    if s.current_turn_move_count == 0 {
        Phase::AwaitingPlacement
    } else {
        Phase::AwaitingTurnEnd
    }
}

/// The marker that the player to move places next.
pub open spec fn next_marker(s: GameModel) -> ProbPiece {
    marker_of(s.current_player, rotation_index_of(s, s.current_player))
}

/// The rotation index of `player` in `s`.
pub open spec fn rotation_index_of(s: GameModel, player: Player) -> int {
    match player {
        Player::Black => s.black_prob_index,
        Player::White => s.white_prob_index,
    }
}

/// The answer to placing at `(row, col)` in `s`.
pub open spec fn place_piece_verdict(s: GameModel, row: int, col: int) -> Result<(), Rejection> {
    if s.game_over {
        Err(Rejection::GameOver)
    } else if s.show_observation || s.current_turn_move_count > 0 {
        Err(Rejection::WrongPhase)
    } else {
        place_verdict(s.board, row, col)
    }
}

/// The session after an attempt to place at `(row, col)` in `s`.
pub open spec fn after_place_piece(s: GameModel, row: int, col: int) -> GameModel {
    if place_piece_verdict(s, row, col) is Ok {
        GameModel {
            board: grid_set(s.board, row, col, next_marker(s)),
            current_turn_move_count: 1,
            show_prob_hint: false,
            ..s
        }
    } else {
        s
    }
}

/// The answer to a preview action in `s`. A game is finished by the
/// observation that spends the preview of its last turn, so in play the
/// answer to a further request is `PreviewExhausted`, never `GameOver`.
pub open spec fn preview_verdict(s: GameModel) -> Result<PreviewChange, Rejection> {
    if s.show_observation {
        Ok(PreviewChange::Hidden)
    } else if s.observe_remaining <= 0 {
        Err(Rejection::PreviewExhausted)
    } else if s.game_over {
        Err(Rejection::GameOver)
    } else {
        Ok(PreviewChange::Shown)
    }
}

/// The session after a preview action in `s`, where `observed` is what an
/// observation of the board shows. Only an action that observes reads it.
pub open spec fn after_preview(s: GameModel, observed: Seq<Seq<DefinitePiece>>) -> GameModel {
    match preview_verdict(s) {
        Ok(PreviewChange::Hidden) => GameModel { show_observation: false, ..s },
        Ok(PreviewChange::Shown) => GameModel {
            show_observation: true,
            observe_remaining: s.observe_remaining - 1,
            observation_board: observed,
            observation_winner: win_outcome(observed),
            winning_black: winning_line(observed, DefinitePiece::Black),
            winning_white: winning_line(observed, DefinitePiece::White),
            game_over: win_outcome(observed) is Some,
            ..s
        },
        Err(_) => s,
    }
}

/// The answer to ending the turn in `s`.
pub open spec fn end_turn_verdict(s: GameModel) -> Result<(), Rejection> {
    if s.game_over {
        Err(Rejection::GameOver)
    } else if s.current_turn_move_count <= 0 {
        Err(Rejection::WrongPhase)
    } else {
        Ok(())
    }
}

/// The session `s` with the rotation index of the player to move advanced.
pub open spec fn with_rotated_index(s: GameModel) -> GameModel {
    match s.current_player {
        Player::Black => GameModel { black_prob_index: (s.black_prob_index + 1) % 2, ..s },
        Player::White => GameModel { white_prob_index: (s.white_prob_index + 1) % 2, ..s },
    }
}

/// The session after an attempt to end the turn in `s`.
pub open spec fn after_end_turn(s: GameModel) -> GameModel {
    if end_turn_verdict(s) is Ok {
        GameModel {
            current_player: s.current_player.spec_opponent(),
            observe_remaining: 1,
            show_observation: false,
            observation_winner: None,
            winning_black: Seq::empty(),
            winning_white: Seq::empty(),
            current_turn_move_count: 0,
            show_prob_hint: true,
            ..with_rotated_index(s)
        }
    } else {
        s
    }
}

/// The session of one game.
#[derive(Debug)]
pub struct GameState {
    board: Board,
    show_observation: bool,
    observation_board: ResolvedBoard,
    observation_winner: Option<WinOutcome>,
    observe_remaining: u8,
    current_player: Player,
    black_prob_index: usize,
    white_prob_index: usize,
    winning_pieces: WinningPieces,
    game_over: bool,
    current_turn_move_count: u8,
    show_prob_hint: bool,
}

/// What a front end may see of the session.
#[derive(Clone, Debug, PartialEq, Eq)]
pub struct GameView {
    pub board: Board,
    /// The last observation, while it is on display.
    pub observation: Option<ResolvedBoard>,
    pub current_player: Player,
    pub next_piece: ProbPiece,
    pub phase: Phase,
    pub show_observation: bool,
    pub observe_remaining: u8,
    pub winner: Option<WinOutcome>,
    pub winning_pieces: WinningPieces,
    pub game_over: bool,
    pub show_prob_hint: bool,
}

impl View for GameState {
    type V = GameModel;

    closed spec fn view(&self) -> GameModel {
        GameModel {
            board: self.board@,
            show_observation: self.show_observation,
            observation_board: self.observation_board@,
            observation_winner: self.observation_winner,
            observe_remaining: self.observe_remaining as int,
            current_player: self.current_player,
            black_prob_index: self.black_prob_index as int,
            white_prob_index: self.white_prob_index as int,
            winning_black: self.winning_pieces.black@,
            winning_white: self.winning_pieces.white@,
            game_over: self.game_over,
            current_turn_move_count: self.current_turn_move_count as int,
            show_prob_hint: self.show_prob_hint,
        }
    }
}

/// A copy of a list of cells.
fn copy_cells(cells: &Vec<(usize, usize)>) -> (out: Vec<(usize, usize)>)
    ensures
        out@ == cells@,
{
    let mut out: Vec<(usize, usize)> = Vec::new();
    for i in 0..cells.len()
        invariant
            out@ == cells@.take(i as int),
    {
        out.push(cells[i]);
        assert(out@ =~= cells@.take(i + 1));
    }
    assert(cells@.take(cells@.len() as int) =~= cells@);
    out
}

impl GameState {
    /// The session is in a state that play can reach.
    pub open spec fn wf(&self) -> bool {
        model_wf(self@)
    }

    /// A session at the start of a game: an empty board, Black to move with
    /// the strong marker, one preview in hand.
    pub fn new() -> (s: GameState)
        ensures
            s.wf(),
            s@ == initial_model(),
    {
        proof {
            lemma_empty_grid_is_undecided();
        }
        GameState {
            board: Board::new(),
            show_observation: false,
            observation_board: ResolvedBoard::new(),
            observation_winner: None,
            observe_remaining: 1,
            current_player: Player::Black,
            black_prob_index: 0,
            white_prob_index: 0,
            winning_pieces: WinningPieces::new(),
            game_over: false,
            current_turn_move_count: 0,
            show_prob_hint: true,
        }
    }

    /// The marker that the player to move places next.
    pub fn get_current_prob_piece(&self) -> (m: ProbPiece)
        ensures
            m == next_marker(self@),
    {
        match self.current_player {
            Player::Black => Player::Black.marker(self.black_prob_index),
            Player::White => Player::White.marker(self.white_prob_index),
        }
    }

    /// Advances the rotation index of the player to move.
    fn switch_player_prob(&mut self)
        requires
            old(self).wf(),
        ensures
            final(self)@ == with_rotated_index(old(self)@),
    {
        match self.current_player {
            Player::Black => {
                self.black_prob_index = (self.black_prob_index + 1) % 2;
            },
            Player::White => {
                self.white_prob_index = (self.white_prob_index + 1) % 2;
            },
        }
    }

    /// Places the marker of the player to move at `(row, col)`. This is
    /// accepted once per turn, while no observation is on display, on an
    /// empty cell of the board. It is turned down as `GameOver` once the
    /// game is decided; else as `WrongPhase` while an observation is on
    /// display or after the placement of this turn; else as `OutOfBounds`
    /// where the board has no such cell; else as `CellOccupied` where the
    /// cell holds a marker.
    pub fn place_piece(&mut self, row: usize, col: usize) -> (res: Result<(), Rejection>)
        requires
            old(self).wf(),
        ensures
            final(self).wf(),
            res == place_piece_verdict(old(self)@, row as int, col as int),
            final(self)@ == after_place_piece(old(self)@, row as int, col as int),
    {
        if self.game_over {
            return Err(Rejection::GameOver);
        }
        if self.show_observation || self.current_turn_move_count > 0 {
            return Err(Rejection::WrongPhase);
        }
        let marker = self.get_current_prob_piece();
        match self.board.place(row, col, marker) {
            Ok(()) => {
                self.current_turn_move_count = 1;
                self.show_prob_hint = false;
                Ok(())
            },
            Err(rejection) => Err(rejection),
        }
    }

    /// What a preview action would answer now.
    fn preview_intent(&self) -> (res: Result<PreviewChange, Rejection>)
        ensures
            res == preview_verdict(self@),
    {
        if self.show_observation {
            Ok(PreviewChange::Hidden)
        } else if self.observe_remaining == 0 {
            Err(Rejection::PreviewExhausted)
        } else if self.game_over {
            Err(Rejection::GameOver)
        } else {
            Ok(PreviewChange::Shown)
        }
    }

    /// Spends the preview of this turn on `resolution` and puts it on
    /// display. An observation that decides the game ends it.
    fn record_observation(&mut self, resolution: Resolution)
        requires
            old(self).wf(),
            preview_verdict(old(self)@) == Ok::<PreviewChange, Rejection>(PreviewChange::Shown),
            resolution.wf(),
            is_grid(resolution.board@),
            markers_behind(old(self)@.board, resolution.board@),
        ensures
            final(self).wf(),
            final(self)@ == after_preview(old(self)@, resolution.board@),
    {
        let Resolution { board, winner, winning_pieces } = resolution;
        self.observe_remaining -= 1;
        self.observation_board = board;
        self.observation_winner = winner;
        self.winning_pieces = winning_pieces;
        self.show_observation = true;
        if winner.is_some() {
            self.game_over = true;
        }
    }

    /// The preview action. While an observation is on display it puts the
    /// observation away. Otherwise it observes the board with fresh draws,
    /// if the preview of this turn is still in hand, and displays the
    /// result; an observation that decides the game ends it. With no
    /// preview in hand, as in a finished game, it is turned down as
    /// `PreviewExhausted`. What the observation shows is up to the draws:
    /// the session afterwards is the one that the rules give for the
    /// observation it holds.
    pub fn request_preview(&mut self) -> (res: Result<PreviewChange, Rejection>)
        requires
            old(self).wf(),
        ensures
            final(self).wf(),
            res == preview_verdict(old(self)@),
            final(self)@ == after_preview(old(self)@, final(self)@.observation_board),
            res == Ok::<PreviewChange, Rejection>(PreviewChange::Shown) ==> may_resolve_to(
                old(self)@.board,
                final(self)@.observation_board,
            ),
    {
        let verdict = self.preview_intent();
        match verdict {
            Ok(PreviewChange::Hidden) => {
                self.show_observation = false;
            },
            Ok(PreviewChange::Shown) => {
                let resolution = self.board.resolve();
                proof {
                    assert forall|r: int, c: int|
                        on_board(r, c) && #[trigger] resolution.board@[r][c]
                            != DefinitePiece::Empty implies self@.board[r][c]
                        != ProbPiece::Empty by {
                        lemma_can_settle(self@.board[r][c], resolution.board@[r][c]);
                    }
                }
                self.record_observation(resolution);
            },
            Err(_) => {},
        }
        verdict
    }

    /// The preview action with given draws in place of fresh ones: where it
    /// observes, the cell `(r, c)` is settled by `draws[r][c]`.
    pub fn request_preview_with(&mut self, draws: &[[u32; BOARD_SIZE]; BOARD_SIZE]) -> (res: Result<
        PreviewChange,
        Rejection,
    >)
        requires
            old(self).wf(),
        ensures
            final(self).wf(),
            res == preview_verdict(old(self)@),
            final(self)@ == after_preview(
                old(self)@,
                resolve_grid(old(self)@.board, grid_view(*draws)),
            ),
    {
        let verdict = self.preview_intent();
        match verdict {
            Ok(PreviewChange::Hidden) => {
                self.show_observation = false;
            },
            Ok(PreviewChange::Shown) => {
                let resolution = self.board.resolve_with(draws);
                self.record_observation(resolution);
            },
            Err(_) => {},
        }
        verdict
    }

    /// Ends the turn of the player to move, once they have placed: their
    /// rotation index advances, the other player is to move, and the new
    /// turn starts with one preview in hand and nothing on display. It is
    /// turned down as `GameOver` once the game is decided, else as
    /// `WrongPhase` before the placement of this turn.
    pub fn end_turn(&mut self) -> (res: Result<(), Rejection>)
        requires
            old(self).wf(),
        ensures
            final(self).wf(),
            res == end_turn_verdict(old(self)@),
            final(self)@ == after_end_turn(old(self)@),
    {
        if self.game_over {
            return Err(Rejection::GameOver);
        }
        if self.current_turn_move_count == 0 {
            return Err(Rejection::WrongPhase);
        }
        self.switch_player_prob();
        self.current_player = self.current_player.opponent();
        self.observe_remaining = 1;
        self.show_observation = false;
        self.observation_winner = None;
        self.winning_pieces = WinningPieces::new();
        self.current_turn_move_count = 0;
        self.show_prob_hint = true;
        Ok(())
    }

    /// Starts the game over, whatever state it is in.
    pub fn restart(&mut self)
        ensures
            final(self).wf(),
            final(self)@ == initial_model(),
    {
        *self = GameState::new();
    }

    /// The markers on the board.
    pub fn board(&self) -> (b: &Board)
        ensures
            b@ == self@.board,
    {
        &self.board
    }

    /// The player to move.
    pub fn current_player(&self) -> (p: Player)
        ensures
            p == self@.current_player,
    {
        self.current_player
    }

    /// The rotation index of `player`: 0 while their next marker is the
    /// strong one, 1 while it is the weak one.
    pub fn rotation_index(&self, player: Player) -> (index: usize)
        ensures
            index == rotation_index_of(self@, player),
    {
        match player {
            Player::Black => self.black_prob_index,
            Player::White => self.white_prob_index,
        }
    }

    /// The half of the turn that the session is in.
    pub fn phase(&self) -> (p: Phase)
        ensures
            p == phase_of(self@),
    {
        if self.current_turn_move_count == 0 {
            Phase::AwaitingPlacement
        } else {
            Phase::AwaitingTurnEnd
        }
    }

    /// Whether an observation has decided the game.
    pub fn is_game_over(&self) -> (over: bool)
        ensures
            over == self@.game_over,
    {
        self.game_over
    }

    /// What a front end may see of the session.
    pub fn snapshot(&self) -> (v: GameView)
        ensures
            v.board@ == self@.board,
            v.observation is Some == self@.show_observation,
            v.observation matches Some(observed) ==> observed@ == self@.observation_board,
            v.current_player == self@.current_player,
            v.next_piece == next_marker(self@),
            v.phase == phase_of(self@),
            v.show_observation == self@.show_observation,
            v.observe_remaining == self@.observe_remaining,
            v.winner == self@.observation_winner,
            v.winning_pieces.black@ == self@.winning_black,
            v.winning_pieces.white@ == self@.winning_white,
            v.game_over == self@.game_over,
            v.show_prob_hint == self@.show_prob_hint,
    {
        GameView {
            board: self.board,
            observation: if self.show_observation {
                Some(self.observation_board)
            } else {
                None
            },
            current_player: self.current_player,
            next_piece: self.get_current_prob_piece(),
            phase: self.phase(),
            show_observation: self.show_observation,
            observe_remaining: self.observe_remaining,
            winner: self.observation_winner,
            winning_pieces: WinningPieces {
                black: copy_cells(&self.winning_pieces.black),
                white: copy_cells(&self.winning_pieces.white),
            },
            game_over: self.game_over,
            show_prob_hint: self.show_prob_hint,
        }
    }
}

} // verus!
