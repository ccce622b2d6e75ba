//! The board: a grid of cells of fixed width and height, kept row by row in
//! one buffer.

use vstd::prelude::*;
use vstd::string::*;
use crate::cell::{Cell, CellView};
use crate::grid::{
    BoardView, lemma_counts_follow_mines, lemma_neighbor_mines_is_the_number,
    lemma_position_in_range, lemma_with_cell,
};
use crate::probability::Probability;
use crate::text::{decimal, push_decimal};

verus! {

/// The plain values of a buffer of cells.
pub open spec fn views(cells: Seq<Cell>) -> Seq<CellView> {
    cells.map_values(|cell: Cell| cell@)
}

/// A grid of cells, `width` columns by `height` rows.
#[derive(Debug)]
pub struct Board {
    width: usize,
    height: usize,
    /// The cells row by row: the cell at `(row, column)` is at
    /// `row * width + column`.
    cells: Vec<Cell>,
}

impl View for Board {
    type V = BoardView;

    closed spec fn view(&self) -> BoardView {
        BoardView {
            width: self.width as nat,
            height: self.height as nat,
            cells: views(self.cells@),
        }
    }
}

impl Clone for Board {
    /// A copy of the board, cell for cell.
    fn clone(&self) -> (copy: Board)
        ensures
            copy@ == self@,
    {
        let copy = Board { width: self.width, height: self.height, cells: self.cells.clone() };
        assert(copy@.cells =~= self@.cells);
        copy
    }
}

impl vstd::std_specs::core::IndexSpecImpl<(usize, usize)> for Board {
    /// A coordinate can be indexed if it lies on the board.
    open spec fn index_req(&self, index: &(usize, usize)) -> bool {
        self.wf() && self@.in_bounds(index.0 as int, index.1 as int)
    }
}

impl std::ops::Index<(usize, usize)> for Board {
    type Output = Cell;

    /// The cell at `index`, as `(row, column)`, which must lie on the board.
    fn index(&self, index: (usize, usize)) -> (cell: &Cell)
        ensures
            cell@ == self@.cell(index.0 as int, index.1 as int),
    {
        let place = self.position(index.0, index.1);
        &self.cells[place]
    }
}

/// The index before `i`, if there is one.
fn step_back(i: usize) -> (stepped: Option<usize>)
    ensures
        stepped == if i > 0 {
            Some((i - 1) as usize)
        } else {
            None
        },
{
    if i > 0 {
        Some(i - 1)
    } else {
        None
    }
}

/// The index after `i`, if it stays under `bound`.
fn step_forward(i: usize, bound: usize) -> (stepped: Option<usize>)
    requires
        i < bound,
    ensures
        stepped == if i + 1 < bound {
            Some((i + 1) as usize)
        } else {
            None
        },
{
    if i + 1 < bound {
        Some(i + 1)
    } else {
        None
    }
}

impl Board {
    /// The board is a grid, and small enough for the machine to index.
    pub open spec fn wf(&self) -> bool {
        self@.wf() && self@.cells.len() <= usize::MAX
    }

    /// The place of a coordinate in the buffer.
    fn position(&self, row: usize, column: usize) -> (place: usize)
        requires
            self.wf(),
            self@.in_bounds(row as int, column as int),
        ensures
            place == row * self.width + column,
            place < self.cells@.len(),
            self.cells@[place as int]@ == self@.cell(row as int, column as int),
    {
        proof {
            lemma_position_in_range(self@, row as int, column as int);
        }
        row * self.width + column
    }

    /// Whether a candidate coordinate, of which either part may have fallen
    /// off the board, holds a mine.
    fn holds_mine(&self, row: Option<usize>, column: Option<usize>) -> (mine: bool)
        requires
            self.wf(),
            row matches Some(r) ==> r < self@.height,
            column matches Some(c) ==> c < self@.width,
        ensures
            mine == (row is Some && column is Some && self@.mine_at(
                row.unwrap() as int,
                column.unwrap() as int,
            )),
    {
        match (row, column) {
            (Some(r), Some(c)) => {
                let place = self.position(r, c);
                self.cells[place].is_mine()
            },
            _ => false,
        }
    }

    /// Counts the mines in the cells around the one at `index`, as
    /// `(row, column)`: the number of its up to eight neighbours on the board
    /// that hold a mine. For a cell that is itself a mine the count is zero,
    /// whatever surrounds it.
    pub fn count_local_mines(&self, index: (usize, usize)) -> (count: usize)
        requires
            self.wf(),
            self@.in_bounds(index.0 as int, index.1 as int),
        ensures
            count == self@.local_mines(index.0 as int, index.1 as int),
            self@.cell(index.0 as int, index.1 as int).is_mine ==> count == 0,
            !self@.cell(index.0 as int, index.1 as int).is_mine ==> count
                == self@.mined_neighbors(index.0 as int, index.1 as int).len(),
    {
        proof {
            lemma_neighbor_mines_is_the_number(self@, index.0 as int, index.1 as int);
        }
        let row = index.0;
        let column = index.1;
        let mut local_mine_count: usize = 0;
        if !self.holds_mine(Some(row), Some(column)) {
            let above = step_back(row);
            let below = step_forward(row, self.height);
            let left = step_back(column);
            let right = step_forward(column, self.width);
            if self.holds_mine(above, left) {
                local_mine_count += 1;
            }
            if self.holds_mine(above, Some(column)) {
                local_mine_count += 1;
            }
            if self.holds_mine(above, right) {
                local_mine_count += 1;
            }
            if self.holds_mine(Some(row), left) {
                local_mine_count += 1;
            }
            if self.holds_mine(Some(row), right) {
                local_mine_count += 1;
            }
            if self.holds_mine(below, left) {
                local_mine_count += 1;
            }
            if self.holds_mine(below, Some(column)) {
                local_mine_count += 1;
            }
            if self.holds_mine(below, right) {
                local_mine_count += 1;
            }
        }
        local_mine_count
    }

    /// Gives every cell its count of neighbouring mines. The counts are taken
    /// from the mines as they lie; writing a count moves no mine.
    fn initialize_local_mines(&mut self)
        requires
            old(self).wf(),
        ensures
            final(self).wf(),
            final(self)@.width == old(self)@.width,
            final(self)@.height == old(self)@.height,
            forall|row: int, column: int|
                old(self)@.in_bounds(row, column) ==> #[trigger] final(self)@.cell(row, column)
                    == old(self)@.cell(row, column).with_local_mines(
                    old(self)@.local_mines(row, column),
                ),
            final(self)@.counted(),
    {
        let ghost before = self@;
        let mut row: usize = 0;
        while row < self.height
            invariant
                self.wf(),
                before.wf(),
                self@.width == before.width,
                self@.height == before.height,
                row <= self.height,
                forall|r: int, c: int|
                    before.in_bounds(r, c) ==> (#[trigger] self@.cell(r, c)).is_mine
                        == before.cell(r, c).is_mine,
                forall|r: int, c: int|
                    before.in_bounds(r, c) && r < row ==> #[trigger] self@.cell(r, c)
                        == before.cell(r, c).with_local_mines(before.local_mines(r, c)),
                forall|r: int, c: int|
                    before.in_bounds(r, c) && r >= row ==> #[trigger] self@.cell(r, c)
                        == before.cell(r, c),
            decreases self.height - row,
        {
            let mut column: usize = 0;
            while column < self.width
                invariant
                    self.wf(),
                    before.wf(),
                    self@.width == before.width,
                    self@.height == before.height,
                    row < self.height,
                    column <= self.width,
                    forall|r: int, c: int|
                        before.in_bounds(r, c) ==> (#[trigger] self@.cell(r, c)).is_mine
                            == before.cell(r, c).is_mine,
                    forall|r: int, c: int|
                        before.in_bounds(r, c) && (r < row || (r == row && c < column))
                            ==> #[trigger] self@.cell(r, c) == before.cell(r, c).with_local_mines(
                            before.local_mines(r, c),
                        ),
                    forall|r: int, c: int|
                        before.in_bounds(r, c) && (r > row || (r == row && c >= column))
                            ==> #[trigger] self@.cell(r, c) == before.cell(r, c),
                decreases self.width - column,
            {
                let ghost earlier = self@;
                let local_mine_count = self.count_local_mines((row, column));
                let place = self.position(row, column);
                self.cells[place].set_local_mines(local_mine_count);
                proof {
                    let counted = earlier.cell(row as int, column as int).with_local_mines(
                        local_mine_count as nat,
                    );
                    lemma_counts_follow_mines(before, earlier);
                    assert(self@.cells =~= earlier.with_cell(row as int, column as int, counted).cells);
                    lemma_with_cell(earlier, row as int, column as int, counted);
                }
                column += 1;
            }
            row += 1;
        }
        proof {
            lemma_counts_follow_mines(before, self@);
        }
    }

    /// A buffer of `width * height` fresh cells, each of which holds a mine
    /// with the given probability, drawn cell by cell.
    fn random_cells(width: usize, height: usize, is_mine_percentage: Probability) -> (cells: Vec<
        Cell,
    >)
        requires
            height * width <= usize::MAX,
        ensures
            cells@.len() == height * width,
            forall|i: int|
                0 <= i < cells@.len() ==> (#[trigger] cells@[i])@ == CellView::fresh(
                    cells@[i]@.is_mine,
                ),
            is_mine_percentage.is_never() ==> forall|i: int|
                0 <= i < cells@.len() ==> !(#[trigger] cells@[i])@.is_mine,
            is_mine_percentage.is_always() ==> forall|i: int|
                0 <= i < cells@.len() ==> (#[trigger] cells@[i])@.is_mine,
    {
        let total: usize = height * width;
        let mut cells: Vec<Cell> = Vec::new();
        while cells.len() < total
            invariant
                cells@.len() <= total,
                forall|i: int|
                    0 <= i < cells@.len() ==> (#[trigger] cells@[i])@ == CellView::fresh(
                        cells@[i]@.is_mine,
                    ),
                is_mine_percentage.is_never() ==> forall|i: int|
                    0 <= i < cells@.len() ==> !(#[trigger] cells@[i])@.is_mine,
                is_mine_percentage.is_always() ==> forall|i: int|
                    0 <= i < cells@.len() ==> (#[trigger] cells@[i])@.is_mine,
            decreases total - cells@.len(),
        {
            cells.push(Cell::random(is_mine_percentage));
        }
        cells
    }

    /// A board of the given dimensions on which every cell holds a mine with
    /// the given probability, independently of the others. The mines are all
    /// placed first and the counts taken afterwards, so that every count
    /// reflects the whole layout.
    pub fn random(width: usize, height: usize, is_mine_percentage: Probability) -> (board: Board)
        requires
            0 < width,
            0 < height,
            height * width <= usize::MAX,
        ensures
            board.wf(),
            board@.width == width,
            board@.height == height,
            board@.untouched(),
            board@.counted(),
            is_mine_percentage.is_never() ==> forall|row: int, column: int|
                board@.in_bounds(row, column) ==> !(#[trigger] board@.cell(row, column)).is_mine,
            is_mine_percentage.is_always() ==> forall|row: int, column: int|
                board@.in_bounds(row, column) ==> (#[trigger] board@.cell(row, column)).is_mine,
    {
        let cells = Board::random_cells(width, height, is_mine_percentage);
        let mut board = Board { width, height, cells };
        proof {
            assert forall|row: int, column: int| board@.in_bounds(row, column) implies (
            #[trigger] board@.cell(row, column)) == CellView::fresh(
                board@.cell(row, column).is_mine,
            ) && (is_mine_percentage.is_never() ==> !board@.cell(row, column).is_mine) && (
            is_mine_percentage.is_always() ==> board@.cell(row, column).is_mine) by {
                lemma_position_in_range(board@, row, column);
            }
        }
        let ghost placed = board@;
        board.initialize_local_mines();
        assert forall|row: int, column: int| board@.in_bounds(row, column) implies !(
        #[trigger] board@.cell(row, column)).is_revealed && !board@.cell(row, column).is_flagged
            && board@.cell(row, column).is_mine == placed.cell(row, column).is_mine by {}
        board
    }

    /// A board of the given dimensions with a mine at each of the listed
    /// coordinates, as `(row, column)`, and nowhere else. A listed coordinate
    /// that lies off the board places nothing.
    pub fn with_mines(width: usize, height: usize, mines: &Vec<(usize, usize)>) -> (board: Board)
        requires
            0 < width,
            0 < height,
            height * width <= usize::MAX,
        ensures
            board.wf(),
            board@.width == width,
            board@.height == height,
            board@.untouched(),
            board@.counted(),
            forall|row: int, column: int|
                board@.in_bounds(row, column) ==> ((#[trigger] board@.cell(row, column)).is_mine
                    <==> mines@.contains((row as usize, column as usize))),
    {
        let total: usize = height * width;
        let mut cells: Vec<Cell> = Vec::new();
        while cells.len() < total
            invariant
                cells@.len() <= total,
                forall|i: int| 0 <= i < cells@.len() ==> (#[trigger] cells@[i])@ == CellView::clear(),
            decreases total - cells@.len(),
        {
            cells.push(Cell::clear());
        }
        let mut board = Board { width, height, cells };
        proof {
            assert forall|row: int, column: int| board@.in_bounds(row, column) implies (
            #[trigger] board@.cell(row, column)) == CellView::clear() by {
                lemma_position_in_range(board@, row, column);
            }
        }
        let mut next: usize = 0;
        while next < mines.len()
            invariant
                board.wf(),
                board@.width == width,
                board@.height == height,
                next <= mines@.len(),
                forall|row: int, column: int|
                    board@.in_bounds(row, column) ==> (#[trigger] board@.cell(row, column))
                        == CellView::fresh(
                        mines@.take(next as int).contains((row as usize, column as usize)),
                    ),
            decreases mines@.len() - next,
        {
            let (row, column) = mines[next];
            let ghost earlier = board@;
            assert(mines@.take(next + 1) =~= mines@.take(next as int).push((row, column)));
            if row < height && column < width {
                let place = board.position(row, column);
                board.cells.set(place, Cell::new(true));
                proof {
                    assert(board@.cells =~= earlier.with_cell(
                        row as int,
                        column as int,
                        CellView::fresh(true),
                    ).cells);
                    lemma_with_cell(earlier, row as int, column as int, CellView::fresh(true));
                }
            }
            proof {
                let listed = mines@.take(next as int);
                assert forall|r: int, c: int| board@.in_bounds(r, c) implies (#[trigger] board@.cell(
                    r,
                    c,
                )) == CellView::fresh(
                    listed.push((row, column)).contains((r as usize, c as usize)),
                ) by {
                    let at = (r as usize, c as usize);
                    if at == (row, column) {
                        assert(listed.push((row, column))[listed.len() as int] == at);
                    } else if listed.contains(at) {
                        let i = choose|i: int| 0 <= i < listed.len() && listed[i] == at;
                        assert(listed.push((row, column))[i] == at);
                    }
                }
            }
            next += 1;
        }
        assert(mines@.take(next as int) =~= mines@);
        let ghost placed = board@;
        board.initialize_local_mines();
        assert forall|row: int, column: int| board@.in_bounds(row, column) implies !(
        #[trigger] board@.cell(row, column)).is_revealed && !board@.cell(row, column).is_flagged
            && board@.cell(row, column).is_mine == placed.cell(row, column).is_mine by {}
        board
    }

    /// The number of columns.
    pub fn width(&self) -> (width: usize)
        ensures
            width == self@.width,
    {
        self.width
    }

    /// The number of rows.
    pub fn height(&self) -> (height: usize)
        ensures
            height == self@.height,
    {
        self.height
    }

    /// The cell at `index`, as `(row, column)`, or nothing where the
    /// coordinate lies off the board.
    pub fn get_cell(&self, index: (usize, usize)) -> (cell: Option<&Cell>)
        requires
            self.wf(),
        ensures
            cell is Some <==> self@.in_bounds(index.0 as int, index.1 as int),
            cell matches Some(found) ==> found@ == self@.cell(index.0 as int, index.1 as int),
    {
        if index.0 < self.height && index.1 < self.width {
            let place = self.position(index.0, index.1);
            Some(&self.cells[place])
        } else {
            None
        }
    }

    /// The cell at `index`, as `(row, column)`, to be changed in place, or
    /// nothing where the coordinate lies off the board.
    pub fn get_cell_mut(&mut self, index: (usize, usize)) -> (cell: Option<&mut Cell>)
        requires
            old(self).wf(),
        ensures
            cell is Some <==> old(self)@.in_bounds(index.0 as int, index.1 as int),
            cell is None ==> final(self)@ == old(self)@,
            cell matches Some(found) ==> found@ == old(self)@.cell(index.0 as int, index.1 as int)
                && final(self)@ == old(self)@.with_cell(
                index.0 as int,
                index.1 as int,
                final(found)@,
            ),
    {
        if index.0 < self.height && index.1 < self.width {
            let place = self.position(index.0, index.1);
            let found = &mut self.cells[place];
            assert(views(after_borrow(self.cells)@) =~= views(old(self).cells@).update(
                place as int,
                final(found)@,
            ));
            Some(found)
        } else {
            None
        }
    }

    /// The cells of the board, row by row.
    pub fn cells(&self) -> (cells: &[Cell])
        ensures
            views(cells@) == self@.cells,
    {
        self.cells.as_slice()
    }

    /// The cells of the board, row by row, to be changed in place. What is
    /// handed out is a slice: its cells can be changed, their number cannot.
    pub fn cells_mut(&mut self) -> (cells: &mut [Cell])
        ensures
            views(cells@) == old(self)@.cells,
            final(self)@ == (BoardView { cells: views(final(cells)@), ..old(self)@ }),
    {
        self.cells.as_mut_slice()
    }

    /// A copy of the board on which every cell is revealed. The board itself
    /// is only read.
    pub fn clone_revealed(&self) -> (clone: Board)
        ensures
            clone@ == self@.revealed(),
            self.wf() ==> clone.wf(),
    {
        let mut cells: Vec<Cell> = Vec::new();
        let mut next: usize = 0;
        while next < self.cells.len()
            invariant
                next <= self.cells@.len(),
                cells@.len() == next,
                forall|i: int| 0 <= i < next ==> (#[trigger] cells@[i])@ == self.cells@[i]@.revealed(),
            decreases self.cells@.len() - next,
        {
            let mut cell = self.cells[next];
            cell.uncover();
            cells.push(cell);
            next += 1;
        }
        let clone = Board { width: self.width, height: self.height, cells };
        assert(clone@.cells =~= self@.revealed().cells);
        clone
    }

    /// The board as a text grid: a header line with the column indices, a
    /// rule under it, and one line for each row, which starts with the row's
    /// index and shows each cell followed by a space.
    pub fn render_text(&self) -> (text: String)
        requires
            self.wf(),
        ensures
            text@ == self@.text(),
    {
        proof {
            reveal_strlit("   ");
            reveal_strlit("\n   ");
            reveal_strlit("\n");
        }
        let mut text = String::from_str("   ");
        let mut column: usize = 0;
        while column < self.width
            invariant
                column <= self.width,
                text@ == seq![' ', ' ', ' '] + BoardView::header_text(column as nat),
            decreases self.width - column,
        {
            push_decimal(&mut text, column);
            text.append(" ");
            column += 1;
            proof {
                reveal_strlit(" ");
            }
            assert(text@ =~= seq![' ', ' ', ' '] + (BoardView::header_text((column - 1) as nat)
                + decimal((column - 1) as nat) + seq![' ']));
        }
        text.append("\n   ");
        let ghost above = text@;
        let mut column: usize = 0;
        while column < self.width
            invariant
                column <= self.width,
                text@ == above + BoardView::rule_text(column as nat),
            decreases self.width - column,
        {
            text.append("--");
            column += 1;
            proof {
                reveal_strlit("--");
            }
            assert(text@ =~= above + (BoardView::rule_text((column - 1) as nat) + seq!['-', '-']));
        }
        text.append("\n");
        let ghost top = text@;
        assert(top == seq![' ', ' ', ' '] + BoardView::header_text(self@.width) + seq![
            '\n',
            ' ',
            ' ',
            ' ',
        ] + BoardView::rule_text(self@.width) + seq!['\n']);
        let mut row: usize = 0;
        while row < self.height
            invariant
                self.wf(),
                row <= self.height,
                text@ == top + self@.rows_text(row as nat),
            decreases self.height - row,
        {
            let ghost done = text@;
            push_decimal(&mut text, row);
            text.append(" |");
            let ghost start = text@;
            let mut column: usize = 0;
            while column < self.width
                invariant
                    self.wf(),
                    row < self.height,
                    column <= self.width,
                    text@ == start + self@.cells_text(row as int, column as nat),
                decreases self.width - column,
            {
                let place = self.position(row, column);
                let shown = self.cells[place].render_text();
                text.append(shown.as_str());
                text.append(" ");
                column += 1;
                proof {
                    reveal_strlit(" ");
                }
                assert(text@ =~= start + (self@.cells_text(row as int, (column - 1) as nat)
                    + self@.cell(row as int, column - 1).text() + seq![' ']));
            }
            text.append("\n");
            proof {
                reveal_strlit("\n");
                reveal_strlit(" |");
            }
            assert(text@ =~= done + self@.row_text(row as int));
            row += 1;
            assert(text@ =~= top + (self@.rows_text((row - 1) as nat) + self@.row_text(row - 1)));
        }
        text
    }
}

} // verus!
