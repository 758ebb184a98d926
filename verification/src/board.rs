//! The 3x3 board game state machine: cells, move validation, strict turn
//! alternation, and win detection over rows, columns and diagonals.

use vstd::prelude::*;

verus! {

/// One of the two markers a player places on the grid.
#[derive(Clone, Copy, PartialEq, Eq, Structural, Debug)]
pub enum Piece {
    X,
    O,
}

impl Piece {
    /// The marker that moves after this one.
    pub open spec fn other_spec(self) -> Piece {
        match self {
            Piece::X => Piece::O,
            Piece::O => Piece::X,
        }
    }

    /// Returns the marker that moves after this one.
    pub fn other(self) -> (r: Piece)
        ensures
            r == self.other_spec(),
    {
        match self {
            Piece::X => Piece::O,
            Piece::O => Piece::X,
        }
    }
}

/// One addressable position of the grid, holding at most one marker.
#[derive(Clone, Copy)]
pub struct Square {
    pub piece: Option<Piece>,
}

impl Square {
    /// An unoccupied square.
    pub fn new() -> (s: Square)
        ensures
            s.piece is None,
    {
        Square { piece: None }
    }

    /// The one-character text shown for this square: the marker, or `.`
    /// when the square is empty.
    pub open spec fn symbol_spec(self) -> Seq<char> {
        match self.piece {
            Some(Piece::X) => "X"@,
            Some(Piece::O) => "O"@,
            None => "."@,
        }
    }

    /// Returns the text shown for this square.
    pub fn symbol(&self) -> (r: &'static str)
        ensures
            r@ == self.symbol_spec(),
    {
        match self.piece {
            Some(Piece::X) => "X",
            Some(Piece::O) => "O",
            None => ".",
        }
    }
}

/// Why a placement was rejected. A rejected placement leaves the board
/// unchanged.
#[derive(Clone, Copy, PartialEq, Eq, Structural, Debug)]
pub enum PlaceError {
    /// The row or column lies outside the 3x3 grid.
    OutOfBounds,
    /// The addressed square already holds a marker.
    CellOccupied,
    /// The supplied marker is not the one whose turn it is; the payload is
    /// the marker that is permitted to move.
    WrongTurn(Piece),
}

impl PlaceError {
    /// Returns the message printed for this rejection.
    pub fn message(&self) -> (r: &'static str)
        ensures
            *self is OutOfBounds ==> r@ == "Position is out of bounds"@,
            *self is CellOccupied ==> r@ == "Position is already occupied"@,
            *self == PlaceError::WrongTurn(Piece::X) ==> r@ == "It's X's turn!"@,
            *self == PlaceError::WrongTurn(Piece::O) ==> r@ == "It's O's turn!"@,
    {
        match self {
            PlaceError::OutOfBounds => "Position is out of bounds",
            PlaceError::CellOccupied => "Position is already occupied",
            PlaceError::WrongTurn(Piece::X) => "It's X's turn!",
            PlaceError::WrongTurn(Piece::O) => "It's O's turn!",
        }
    }
}

/// One when the square holds a marker, zero when it is empty.
pub open spec fn count_cell(c: Option<Piece>) -> int {
    if c is Some {
        1
    } else {
        0
    }
}

/// The 3x3 grid together with the move counter whose parity decides whose
/// turn it is.
pub struct Board {
    pub current_turn: i64,
    pub squares: [[Square; 3]; 3],
}

impl Board {
    /// The marker in the square at `row`, `col`, if any.
    pub open spec fn cell(self, row: int, col: int) -> Option<Piece> {
        self.squares[row][col].piece
    }

    /// How many squares hold a marker.
    pub open spec fn marked_count(self) -> int {
        count_cell(self.cell(0, 0)) + count_cell(self.cell(0, 1)) + count_cell(self.cell(0, 2))
            + count_cell(self.cell(1, 0)) + count_cell(self.cell(1, 1)) + count_cell(
            self.cell(1, 2),
        ) + count_cell(self.cell(2, 0)) + count_cell(self.cell(2, 1)) + count_cell(
            self.cell(2, 2),
        )
    }

    /// The move counter always exceeds the number of marked squares by
    /// exactly one: it starts at one on the empty board and each accepted
    /// move marks one square and advances it by one.
    pub open spec fn wf(self) -> bool {
        self.current_turn == 1 + self.marked_count()
    }

    /// The marker permitted to move next: the counter's parity decides,
    /// and `X` moves first.
    pub open spec fn turn_owner(self) -> Piece {
        if self.current_turn % 2 == 1 {
            Piece::X
        } else {
            Piece::O
        }
    }

    /// Returns the empty board: no square marked, `X` to move.
    pub fn new() -> (b: Board)
        ensures
            b.wf(),
            forall|r: int, c: int| 0 <= r < 3 && 0 <= c < 3 ==> b.cell(r, c) is None,
            b.turn_owner() == Piece::X,
            b.current_turn == 1,
    {
        let squares = [[Square::new(); 3]; 3];
        Board { current_turn: 1, squares }
    }

    /// Attempts to mark the square at `row`, `col` with `piece`.
    ///
    /// The move is rejected, in this order of precedence, when the
    /// coordinates leave the grid, when the square is already marked, and
    /// when `piece` is not the marker whose turn it is; a rejected move
    /// leaves the board exactly as it was. An accepted move marks the one
    /// square and advances the move counter, so the turn passes to the
    /// other marker.
    pub fn place(&mut self, piece: Piece, row: usize, col: usize) -> (r: Result<(), PlaceError>)
        requires
            old(self).wf(),
        ensures
            final(self).wf(),
            r == Err::<(), PlaceError>(PlaceError::OutOfBounds) <==> !(row < 3 && col < 3),
            r == Err::<(), PlaceError>(PlaceError::CellOccupied) <==> (row < 3 && col < 3 && old(self).cell(
                row as int,
                col as int,
            ) is Some),
            r == Err::<(), PlaceError>(PlaceError::WrongTurn(old(self).turn_owner())) <==> (row < 3 && col < 3
                && old(self).cell(row as int, col as int) is None && piece != old(
                self,
            ).turn_owner()),
            r is Err ==> (r matches Err(e) && (e is OutOfBounds || e is CellOccupied || e
                == PlaceError::WrongTurn(old(self).turn_owner()))),
            r is Ok <==> (row < 3 && col < 3 && old(self).cell(row as int, col as int) is None
                && piece == old(self).turn_owner()),
            r is Err ==> *final(self) == *old(self),
            r is Ok ==> final(self).cell(row as int, col as int) == Some(piece),
            r is Ok ==> forall|i: int, j: int|
                0 <= i < 3 && 0 <= j < 3 && !(i == row && j == col) ==> final(self).cell(i, j)
                    == old(self).cell(i, j),
            r is Ok ==> final(self).current_turn == old(self).current_turn + 1,
            r is Ok ==> final(self).turn_owner() == piece.other_spec(),
    {
        if row >= 3 || col >= 3 {
            Err(PlaceError::OutOfBounds)
        } else if self.squares[row][col].piece.is_some() {
            Err(PlaceError::CellOccupied)
        } else if !self.turn_matches(piece) {
            Err(PlaceError::WrongTurn(self.turn_owner_exec()))
        } else {
            let mut line = self.squares[row];
            line[col] = Square { piece: Some(piece) };
            self.squares[row] = line;
            self.current_turn = self.current_turn + 1;
            Ok(())
        }
    }

    /// All three squares of row `r` hold `p`.
    pub open spec fn row_won(self, p: Piece, r: int) -> bool {
        self.cell(r, 0) == Some(p) && self.cell(r, 1) == Some(p) && self.cell(r, 2) == Some(p)
    }

    /// All three squares of column `c` hold `p`.
    pub open spec fn col_won(self, p: Piece, c: int) -> bool {
        self.cell(0, c) == Some(p) && self.cell(1, c) == Some(p) && self.cell(2, c) == Some(p)
    }

    /// All three squares of the main diagonal hold `p`.
    pub open spec fn diag_won(self, p: Piece) -> bool {
        self.cell(0, 0) == Some(p) && self.cell(1, 1) == Some(p) && self.cell(2, 2) == Some(p)
    }

    /// All three squares of the anti-diagonal hold `p`.
    pub open spec fn anti_diag_won(self, p: Piece) -> bool {
        self.cell(0, 2) == Some(p) && self.cell(1, 1) == Some(p) && self.cell(2, 0) == Some(p)
    }

    /// Some terminal line -- a row, a column, or a diagonal -- is fully
    /// occupied by `p`.
    pub open spec fn wins(self, p: Piece) -> bool {
        self.row_won(p, 0) || self.row_won(p, 1) || self.row_won(p, 2) || self.col_won(p, 0)
            || self.col_won(p, 1) || self.col_won(p, 2) || self.diag_won(p) || self.anti_diag_won(
            p,
        )
    }

    /// The winner that a scan reports: rows first, then columns, then the
    /// two diagonals, and within each group `O` is looked for before `X`.
    /// The first fully occupied line found decides.
    pub open spec fn winner(self) -> Option<Piece> {
        if self.row_won(Piece::O, 0) {
            Some(Piece::O)
        } else if self.row_won(Piece::X, 0) {
            Some(Piece::X)
        } else if self.row_won(Piece::O, 1) {
            Some(Piece::O)
        } else if self.row_won(Piece::X, 1) {
            Some(Piece::X)
        } else if self.row_won(Piece::O, 2) {
            Some(Piece::O)
        } else if self.row_won(Piece::X, 2) {
            Some(Piece::X)
        } else if self.col_won(Piece::O, 0) {
            Some(Piece::O)
        } else if self.col_won(Piece::X, 0) {
            Some(Piece::X)
        } else if self.col_won(Piece::O, 1) {
            Some(Piece::O)
        } else if self.col_won(Piece::X, 1) {
            Some(Piece::X)
        } else if self.col_won(Piece::O, 2) {
            Some(Piece::O)
        } else if self.col_won(Piece::X, 2) {
            Some(Piece::X)
        } else if self.diag_won(Piece::O) || self.anti_diag_won(Piece::O) {
            Some(Piece::O)
        } else if self.diag_won(Piece::X) || self.anti_diag_won(Piece::X) {
            Some(Piece::X)
        } else {
            None
        }
    }

    /// Returns the winner found by the scan, or `None` while the game is
    /// still in progress.
    ///
    /// This is a pure query: it never changes the board, and the caller
    /// re-invokes it after every accepted placement to detect termination.
    pub fn check_state(&self) -> (r: Option<Piece>)
        ensures
            r == self.winner(),
    {
        if self.line_is(0, 0, 0, 1, 0, 2, Piece::O) {
            Some(Piece::O)
        } else if self.line_is(0, 0, 0, 1, 0, 2, Piece::X) {
            Some(Piece::X)
        } else if self.line_is(1, 0, 1, 1, 1, 2, Piece::O) {
            Some(Piece::O)
        } else if self.line_is(1, 0, 1, 1, 1, 2, Piece::X) {
            Some(Piece::X)
        } else if self.line_is(2, 0, 2, 1, 2, 2, Piece::O) {
            Some(Piece::O)
        } else if self.line_is(2, 0, 2, 1, 2, 2, Piece::X) {
            Some(Piece::X)
        } else if self.line_is(0, 0, 1, 0, 2, 0, Piece::O) {
            Some(Piece::O)
        } else if self.line_is(0, 0, 1, 0, 2, 0, Piece::X) {
            Some(Piece::X)
        } else if self.line_is(0, 1, 1, 1, 2, 1, Piece::O) {
            Some(Piece::O)
        } else if self.line_is(0, 1, 1, 1, 2, 1, Piece::X) {
            Some(Piece::X)
        } else if self.line_is(0, 2, 1, 2, 2, 2, Piece::O) {
            Some(Piece::O)
        } else if self.line_is(0, 2, 1, 2, 2, 2, Piece::X) {
            Some(Piece::X)
        } else if self.line_is(0, 0, 1, 1, 2, 2, Piece::O) || self.line_is(0, 2, 1, 1, 2, 0, Piece::O) {
            Some(Piece::O)
        } else if self.line_is(0, 0, 1, 1, 2, 2, Piece::X) || self.line_is(0, 2, 1, 1, 2, 0, Piece::X) {
            Some(Piece::X)
        } else {
            None
        }
    }

    /// Returns whether the three addressed squares all hold `p`.
    fn line_is(&self, r0: usize, c0: usize, r1: usize, c1: usize, r2: usize, c2: usize, p: Piece) -> (b: bool)
        requires
            r0 < 3, c0 < 3, r1 < 3, c1 < 3, r2 < 3, c2 < 3,
        ensures
            b == (self.cell(r0 as int, c0 as int) == Some(p) && self.cell(r1 as int, c1 as int)
                == Some(p) && self.cell(r2 as int, c2 as int) == Some(p)),
    {
        self.cell_is(r0, c0, p) && self.cell_is(r1, c1, p) && self.cell_is(r2, c2, p)
    }

    /// Returns whether the square at `row`, `col` holds exactly `p`.
    fn cell_is(&self, row: usize, col: usize, p: Piece) -> (b: bool)
        requires
            row < 3,
            col < 3,
        ensures
            b == (self.cell(row as int, col as int) == Some(p)),
    {
        match self.squares[row][col].piece {
            Some(q) => q == p,
            None => false,
        }
    }

    /// Returns the marker whose turn it is.
    fn turn_owner_exec(&self) -> (p: Piece)
        requires
            self.wf(),
        ensures
            p == self.turn_owner(),
    {
        if self.current_turn % 2 == 1 {
            Piece::X
        } else {
            Piece::O
        }
    }

    /// Returns whether `piece` is the marker whose turn it is.
    fn turn_matches(&self, piece: Piece) -> (b: bool)
        requires
            self.wf(),
        ensures
            b == (piece == self.turn_owner()),
    {
        let owner = self.turn_owner_exec();
        piece == owner
    }
}

impl Board {
    /// The text of one rendered grid row: each square between `| ` and
    /// ` |`, then a line break and a separator line.
    pub open spec fn render_row_spec(self, r: int) -> Seq<char> {
        "| "@ + self.squares[r][0].symbol_spec() + " |"@ + "| "@ + self.squares[r][1].symbol_spec()
            + " |"@ + "| "@ + self.squares[r][2].symbol_spec() + " |"@ + "\n---------------\n"@
    }

    /// The full rendered grid: a separator line on top, then the three
    /// rows, each followed by its own separator line.
    pub open spec fn render_spec(self) -> Seq<char> {
        "---------------\n"@ + self.render_row_spec(0) + self.render_row_spec(1)
            + self.render_row_spec(2)
    }

    /// Returns the text of one rendered grid row.
    fn render_row(&self, r: usize) -> (s: String)
        requires
            r < 3,
        ensures
            s@ == self.render_row_spec(r as int),
    {
        let mut out = String::new();
        out.append("| ");
        out.append(self.squares[r][0].symbol());
        out.append(" |");
        out.append("| ");
        out.append(self.squares[r][1].symbol());
        out.append(" |");
        out.append("| ");
        out.append(self.squares[r][2].symbol());
        out.append(" |");
        out.append("\n---------------\n");
        proof {
            assert(out@ =~= self.render_row_spec(r as int));
        }
        out
    }

    /// Returns the fixed-width text projection of the grid, `.` standing
    /// for an empty square.
    pub fn render(&self) -> (r: String)
        ensures
            r@ == self.render_spec(),
    {
        let mut out = String::new();
        out.append("---------------\n");
        let row0 = self.render_row(0);
        out.append(row0.as_str());
        let row1 = self.render_row(1);
        out.append(row1.as_str());
        let row2 = self.render_row(2);
        out.append(row2.as_str());
        proof {
            assert(out@ =~= self.render_spec());
        }
        out
    }
}

/// Turn alternation: on any well-formed board the turn owner is decided
/// by the parity of the number of marked squares, `X` first. Together
/// with the contract of `place` -- an accepted move marks exactly one
/// square and is owed exactly to the owner -- the accepted moves on any
/// board alternate `X`, `O`, `X`, ... from the empty board on.
pub proof fn lemma_turn_alternation(b: Board)
    requires
        b.wf(),
    ensures
        b.marked_count() % 2 == 0 ==> b.turn_owner() == Piece::X,
        b.marked_count() % 2 == 1 ==> b.turn_owner() == Piece::O,
{
}

/// The scan reports a winner exactly when some terminal line is fully
/// occupied by one marker, and any winner it reports owns such a line.
/// In particular the empty board, and any board without a completed line,
/// report no winner.
pub proof fn lemma_winner_characterization(b: Board)
    ensures
        b.winner() is Some <==> (b.wins(Piece::X) || b.wins(Piece::O)),
        b.winner() == Some(Piece::X) ==> b.wins(Piece::X),
        b.winner() == Some(Piece::O) ==> b.wins(Piece::O),
{
}

} // verus!
