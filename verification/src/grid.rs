//! The board as a mathematical value: a grid of cells, the count of mines
//! around each coordinate, what the grid shows as text, and the facts about
//! them that the board and the game rest on.

use vstd::prelude::*;
use crate::cell::CellView;
use crate::text::decimal;

verus! {

/// Whether the second coordinate is a neighbour of the first: another
/// coordinate, at most one step away along the rows and along the columns.
pub open spec fn adjacent(row: int, column: int, near_row: int, near_column: int) -> bool {
    &&& row - 1 <= near_row <= row + 1
    &&& column - 1 <= near_column <= column + 1
    &&& (near_row != row || near_column != column)
}

/// A board as a plain mathematical value: its dimensions and its cells, row
/// by row.
pub struct BoardView {
    pub width: nat,
    pub height: nat,
    pub cells: Seq<CellView>,
}

impl BoardView {
    /// Both dimensions are positive and there is one cell for each coordinate.
    pub open spec fn wf(self) -> bool {
        &&& 0 < self.width
        &&& 0 < self.height
        &&& self.cells.len() == self.height * self.width
    }

    /// The coordinate lies on the board.
    pub open spec fn in_bounds(self, row: int, column: int) -> bool {
        0 <= row < self.height && 0 <= column < self.width
    }

    /// The cell at a coordinate.
    pub open spec fn cell(self, row: int, column: int) -> CellView
        recommends
            self.in_bounds(row, column),
    {
        self.cells[row * self.width + column]
    }

    /// The coordinate lies on the board and its cell holds a mine.
    pub open spec fn mine_at(self, row: int, column: int) -> bool {
        self.in_bounds(row, column) && self.cell(row, column).is_mine
    }

    /// One if there is a mine at the coordinate, zero if there is none or if
    /// the coordinate lies off the board.
    pub open spec fn mines_at(self, row: int, column: int) -> nat {
        if self.mine_at(row, column) {
            1
        } else {
            0
        }
    }

    /// The number of mines among the up to eight neighbours of a coordinate:
    /// the cells one step away along a row, a column or a diagonal.
    pub open spec fn neighbor_mines(self, row: int, column: int) -> nat {
        self.mines_at(row - 1, column - 1) + self.mines_at(row - 1, column) + self.mines_at(
            row - 1,
            column + 1,
        ) + self.mines_at(row, column - 1) + self.mines_at(row, column + 1) + self.mines_at(
            row + 1,
            column - 1,
        ) + self.mines_at(row + 1, column) + self.mines_at(row + 1, column + 1)
    }

    /// The neighbours of a coordinate that lie on the board and hold a mine.
    pub open spec fn mined_neighbors(self, row: int, column: int) -> Set<(int, int)> {
        Set::new(|at: (int, int)| adjacent(row, column, at.0, at.1) && self.mine_at(at.0, at.1))
    }

    /// The count that the cell at a coordinate has to carry: the number of
    /// mines around it, and by convention zero where the cell is itself a mine.
    pub open spec fn local_mines(self, row: int, column: int) -> nat
        recommends
            self.in_bounds(row, column),
    {
        if self.cell(row, column).is_mine {
            0
        } else {
            self.neighbor_mines(row, column)
        }
    }

    /// Every cell carries the count that the mines around it give.
    pub open spec fn counted(self) -> bool {
        forall|row: int, column: int|
            self.in_bounds(row, column) ==> (#[trigger] self.cell(row, column)).local_mines
                == self.local_mines(row, column)
    }

    /// No cell has been revealed or flagged.
    pub open spec fn untouched(self) -> bool {
        forall|row: int, column: int|
            self.in_bounds(row, column) ==> !(#[trigger] self.cell(row, column)).is_revealed
                && !self.cell(row, column).is_flagged
    }

    /// The same board with every cell revealed: the answer key.
    pub open spec fn revealed(self) -> BoardView {
        BoardView { cells: self.cells.map_values(|cell: CellView| cell.revealed()), ..self }
    }

    /// The column indices of the first `columns` columns, each followed by a
    /// space.
    pub open spec fn header_text(columns: nat) -> Seq<char>
        decreases columns,
    {
        if columns == 0 {
            Seq::empty()
        } else {
            Self::header_text((columns - 1) as nat) + decimal((columns - 1) as nat) + seq![' ']
        }
    }

    /// The line under the header: two dashes for each of `columns` columns.
    pub open spec fn rule_text(columns: nat) -> Seq<char>
        decreases columns,
    {
        if columns == 0 {
            Seq::empty()
        } else {
            Self::rule_text((columns - 1) as nat) + seq!['-', '-']
        }
    }

    /// The first `columns` cells of a row as they show, each followed by a
    /// space.
    pub open spec fn cells_text(self, row: int, columns: nat) -> Seq<char>
        decreases columns,
    {
        if columns == 0 {
            Seq::empty()
        } else {
            self.cells_text(row, (columns - 1) as nat) + self.cell(row, columns - 1).text()
                + seq![' ']
        }
    }

    /// One line of the grid: the row's index, a bar, the row's cells, and a
    /// line break.
    pub open spec fn row_text(self, row: int) -> Seq<char> {
        decimal(row as nat) + seq![' ', '|'] + self.cells_text(row, self.width) + seq!['\n']
    }

    /// The lines of the first `rows` rows.
    pub open spec fn rows_text(self, rows: nat) -> Seq<char>
        decreases rows,
    {
        if rows == 0 {
            Seq::empty()
        } else {
            self.rows_text((rows - 1) as nat) + self.row_text(rows - 1)
        }
    }

    /// The board as a text grid: a header line with the column indices, a
    /// rule, and one line for each row.
    pub open spec fn text(self) -> Seq<char> {
        seq![' ', ' ', ' '] + Self::header_text(self.width) + seq!['\n', ' ', ' ', ' ']
            + Self::rule_text(self.width) + seq!['\n'] + self.rows_text(self.height)
    }

    /// The board with the cell at one coordinate replaced.
    pub open spec fn with_cell(self, row: int, column: int, cell: CellView) -> BoardView
        recommends
            self.in_bounds(row, column),
    {
        BoardView { cells: self.cells.update(row * self.width + column, cell), ..self }
    }
}

/// The set `found`, and the coordinate with it if there is a mine at it.
spec fn with_mine_at(board: BoardView, found: Set<(int, int)>, row: int, column: int) -> Set<
    (int, int),
> {
    if board.mine_at(row, column) {
        found.insert((row, column))
    } else {
        found
    }
}

/// The number of mines around a coordinate is the number of its neighbours
/// that lie on the board and hold a mine.
pub proof fn lemma_neighbor_mines_is_the_number(board: BoardView, row: int, column: int)
    ensures
        board.mined_neighbors(row, column).finite(),
        board.mined_neighbors(row, column).len() == board.neighbor_mines(row, column),
        board.neighbor_mines(row, column) <= 8,
{
    let s0 = Set::<(int, int)>::empty();
    let s1 = with_mine_at(board, s0, row - 1, column - 1);
    let s2 = with_mine_at(board, s1, row - 1, column);
    let s3 = with_mine_at(board, s2, row - 1, column + 1);
    let s4 = with_mine_at(board, s3, row, column - 1);
    let s5 = with_mine_at(board, s4, row, column + 1);
    let s6 = with_mine_at(board, s5, row + 1, column - 1);
    let s7 = with_mine_at(board, s6, row + 1, column);
    let s8 = with_mine_at(board, s7, row + 1, column + 1);
    assert(s1.finite() && s1.len() == board.mines_at(row - 1, column - 1));
    assert(s2.finite() && s2.len() == s1.len() + board.mines_at(row - 1, column));
    assert(s3.finite() && s3.len() == s2.len() + board.mines_at(row - 1, column + 1));
    assert(s4.finite() && s4.len() == s3.len() + board.mines_at(row, column - 1));
    assert(s5.finite() && s5.len() == s4.len() + board.mines_at(row, column + 1));
    assert(s6.finite() && s6.len() == s5.len() + board.mines_at(row + 1, column - 1));
    assert(s7.finite() && s7.len() == s6.len() + board.mines_at(row + 1, column));
    assert(s8.finite() && s8.len() == s7.len() + board.mines_at(row + 1, column + 1));
    assert(s8 =~= board.mined_neighbors(row, column));
}

/// On a board whose cells are counted, a cell without a mine carries the
/// exact number of its neighbours on the board that hold a mine, and a cell
/// with a mine carries zero, however many mines surround it.
pub proof fn lemma_counted_cell(board: BoardView, row: int, column: int)
    requires
        board.counted(),
        board.in_bounds(row, column),
    ensures
        !board.cell(row, column).is_mine ==> board.cell(row, column).local_mines
            == board.mined_neighbors(row, column).len(),
        board.cell(row, column).is_mine ==> board.cell(row, column).local_mines == 0,
        board.cell(row, column).local_mines <= 8,
{
    lemma_neighbor_mines_is_the_number(board, row, column);
}

/// A coordinate on the board has its place in the buffer.
pub proof fn lemma_position_in_range(board: BoardView, row: int, column: int)
    requires
        board.wf(),
        board.in_bounds(row, column),
    ensures
        0 <= row * board.width + column < board.cells.len(),
{
    assert(0 <= row * board.width && (row + 1) * board.width <= board.height * board.width)
        by (nonlinear_arith)
        requires
            0 <= row < board.height,
            0 < board.width,
    ;
    assert((row + 1) * board.width == row * board.width + board.width) by (nonlinear_arith);
}

/// Two coordinates on the board that share a place in the buffer are the same.
pub proof fn lemma_position_unique(board: BoardView, row: int, column: int, row2: int, column2: int)
    requires
        board.wf(),
        board.in_bounds(row, column),
        board.in_bounds(row2, column2),
        row * board.width + column == row2 * board.width + column2,
    ensures
        row == row2,
        column == column2,
{
    let w = board.width as int;
    if row < row2 {
        assert((row + 1) * w <= row2 * w) by (nonlinear_arith)
            requires
                row + 1 <= row2,
                0 < w,
        ;
        assert((row + 1) * w == row * w + w) by (nonlinear_arith);
    } else if row2 < row {
        assert((row2 + 1) * w <= row * w) by (nonlinear_arith)
            requires
                row2 + 1 <= row,
                0 < w,
        ;
        assert((row2 + 1) * w == row2 * w + w) by (nonlinear_arith);
    }
}

/// Replacing one cell changes that cell and no other.
pub proof fn lemma_with_cell(board: BoardView, row: int, column: int, cell: CellView)
    requires
        board.wf(),
        board.in_bounds(row, column),
    ensures
        board.with_cell(row, column, cell).wf(),
        board.with_cell(row, column, cell).width == board.width,
        board.with_cell(row, column, cell).height == board.height,
        board.with_cell(row, column, cell).cell(row, column) == cell,
        forall|r: int, c: int|
            board.in_bounds(r, c) && (r != row || c != column) ==> #[trigger] board.with_cell(
                row,
                column,
                cell,
            ).cell(r, c) == board.cell(r, c),
{
    lemma_position_in_range(board, row, column);
    assert forall|r: int, c: int|
        board.in_bounds(r, c) && (r != row || c != column) implies #[trigger] board.with_cell(
        row,
        column,
        cell,
    ).cell(r, c) == board.cell(r, c) by {
        lemma_position_in_range(board, r, c);
        if r * board.width + c == row * board.width + column {
            lemma_position_unique(board, r, c, row, column);
        }
    }
}

/// The count of a cell depends on where the mines lie and on nothing else.
pub proof fn lemma_counts_follow_mines(before: BoardView, after: BoardView)
    requires
        before.wf(),
        after.wf(),
        before.width == after.width,
        before.height == after.height,
        forall|row: int, column: int|
            before.in_bounds(row, column) ==> (#[trigger] after.cell(row, column)).is_mine
                == before.cell(row, column).is_mine,
    ensures
        forall|row: int, column: int|
            before.in_bounds(row, column) ==> #[trigger] after.local_mines(row, column)
                == before.local_mines(row, column),
{
    assert forall|row: int, column: int| before.in_bounds(row, column) implies #[trigger]
    after.local_mines(row, column) == before.local_mines(row, column) by {
        assert(after.mines_at(row - 1, column - 1) == before.mines_at(row - 1, column - 1));
        assert(after.mines_at(row - 1, column) == before.mines_at(row - 1, column));
        assert(after.mines_at(row - 1, column + 1) == before.mines_at(row - 1, column + 1));
        assert(after.mines_at(row, column - 1) == before.mines_at(row, column - 1));
        assert(after.mines_at(row, column + 1) == before.mines_at(row, column + 1));
        assert(after.mines_at(row + 1, column - 1) == before.mines_at(row + 1, column - 1));
        assert(after.mines_at(row + 1, column) == before.mines_at(row + 1, column));
        assert(after.mines_at(row + 1, column + 1) == before.mines_at(row + 1, column + 1));
    }
}

/// The answer key has the dimensions, mines, flags and counts of the board
/// it was taken from, and every cell of it is revealed.
pub proof fn lemma_revealed(board: BoardView)
    requires
        board.wf(),
    ensures
        board.revealed().wf(),
        board.revealed().width == board.width,
        board.revealed().height == board.height,
        forall|row: int, column: int|
            board.in_bounds(row, column) ==> #[trigger] board.revealed().cell(row, column)
                == board.cell(row, column).revealed(),
        board.counted() ==> board.revealed().counted(),
        board.revealed().revealed() == board.revealed(),
{
    assert forall|row: int, column: int| board.in_bounds(row, column) implies #[trigger]
    board.revealed().cell(row, column) == board.cell(row, column).revealed() by {
        lemma_position_in_range(board, row, column);
    }
    lemma_counts_follow_mines(board, board.revealed());
    assert(board.revealed().revealed().cells =~= board.revealed().cells);
}

} // verus!
