//! The pieces of the game: probabilistic markers, definite colours and players.

use vstd::prelude::*;

verus! {

/// A marker on the board. The number in a variant's name is the chance, in
/// percent, that the marker turns out Black when it is observed.
#[derive(Clone, Copy, Debug, PartialEq, Eq, Structural)]
pub enum ProbPiece {
    Black90,
    Black70,
    Black30,
    Black10,
    Empty,
}

/// What a cell shows once it has been observed.
#[derive(Clone, Copy, Debug, PartialEq, Eq, Structural)]
pub enum DefinitePiece {
    Black,
    White,
    Empty,
}

/// The two sides. Black moves first.
#[derive(Clone, Copy, Debug, PartialEq, Eq, Structural)]
pub enum Player {
    Black,
    White,
}

/// The number of draws out of a hundred that make `piece` Black.
pub open spec fn black_threshold(piece: ProbPiece) -> int {
    match piece {
        ProbPiece::Black90 => 90,
        ProbPiece::Black70 => 70,
        ProbPiece::Black30 => 30,
        ProbPiece::Black10 => 10,
        ProbPiece::Empty => 0,
    }
}

/// The colour that `piece` takes under the draw `draw`: an empty cell stays
/// empty, a marker is Black exactly when the draw is below its threshold.
pub open spec fn definite_of(piece: ProbPiece, draw: int) -> DefinitePiece {
    if piece == ProbPiece::Empty {
        DefinitePiece::Empty
    } else if draw < black_threshold(piece) {
        DefinitePiece::Black
    } else {
        DefinitePiece::White
    }
}

/// The marker that `player` places when their rotation index is `index`:
/// the strong marker at 0, the weak one at 1, the strong one otherwise.
pub open spec fn marker_of(player: Player, index: int) -> ProbPiece {
    match player {
        Player::Black => if index == 1 {
            ProbPiece::Black70
        } else {
            ProbPiece::Black90
        },
        Player::White => if index == 1 {
            ProbPiece::Black30
        } else {
            ProbPiece::Black10
        },
    }
}

impl ProbPiece {
    pub fn black_percent(self) -> (t: u32)
        ensures
            t == black_threshold(self),
    {
        match self {
            ProbPiece::Black90 => 90,
            ProbPiece::Black70 => 70,
            ProbPiece::Black30 => 30,
            ProbPiece::Black10 => 10,
            ProbPiece::Empty => 0,
        }
    }

    /// Settles the colour of this piece from a draw that was made elsewhere.
    pub fn resolve_with(self, draw: u32) -> (d: DefinitePiece)
        ensures
            d == definite_of(self, draw as int),
    {
        match self {
            ProbPiece::Empty => DefinitePiece::Empty,
            _ => if draw < self.black_percent() {
                DefinitePiece::Black
            } else {
                DefinitePiece::White
            },
        }
    }
}

impl Player {
    pub open spec fn spec_opponent(self) -> Player {
        match self {
            Player::Black => Player::White,
            Player::White => Player::Black,
        }
    }

    #[verifier::when_used_as_spec(spec_opponent)]
    pub fn opponent(self) -> (p: Player)
        ensures
            p == self.spec_opponent(),
    {
        match self {
            Player::Black => Player::White,
            Player::White => Player::Black,
        }
    }

    /// The marker this player places at rotation index `index`.
    pub fn marker(self, index: usize) -> (m: ProbPiece)
        ensures
            m == marker_of(self, index as int),
    {
        match self {
            Player::Black => match index {
                0 => ProbPiece::Black90,
                1 => ProbPiece::Black70,
                _ => ProbPiece::Black90,
            },
            Player::White => match index {
                0 => ProbPiece::Black10,
                1 => ProbPiece::Black30,
                _ => ProbPiece::Black10,
            },
        }
    }
}

} // verus!
