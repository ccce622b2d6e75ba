//! One square of the board: whether it hides a mine, how many of its
//! neighbours do, and what the player has done to it.

use vstd::prelude::*;
use vstd::string::*;
use crate::probability::Probability;
use crate::text::{decimal, decimal_string};

verus! {

/// A cell as a plain mathematical value.
pub struct CellView {
    pub is_mine: bool,
    pub local_mines: nat,
    pub is_revealed: bool,
    pub is_flagged: bool,
}

/// The fill colour with which a cell is painted.
#[derive(Debug, Clone, Copy, PartialEq, Eq, Structural)]
pub enum CellColor {
    /// A hidden cell that carries a flag.
    Green,
    /// A hidden cell without a flag.
    Gray,
    /// A revealed cell without a mine.
    LightGray,
    /// A revealed mine.
    Red,
}

/// The glyph of a revealed mine.
pub open spec fn mine_glyph() -> char {
    '*'
}

/// The glyph of a hidden cell that carries a flag.
pub open spec fn flag_glyph() -> char {
    '\u{2691}'
}

/// The glyph of a hidden cell without a flag.
pub open spec fn hidden_glyph() -> char {
    '#'
}

impl CellView {
    /// The cell with no mine, no neighbouring mines, hidden and unflagged.
    pub open spec fn clear() -> CellView {
        CellView { is_mine: false, local_mines: 0, is_revealed: false, is_flagged: false }
    }

    /// A freshly placed cell: hidden, unflagged, its neighbours not yet counted.
    pub open spec fn fresh(is_mine: bool) -> CellView {
        CellView { is_mine, local_mines: 0, is_revealed: false, is_flagged: false }
    }

    /// The cell after it has been revealed.
    pub open spec fn revealed(self) -> CellView {
        CellView { is_revealed: true, ..self }
    }

    /// The cell after a flag has been put on it.
    pub open spec fn flagged(self) -> CellView {
        CellView { is_flagged: true, ..self }
    }

    /// The cell after its flag has been taken off.
    pub open spec fn unflagged(self) -> CellView {
        CellView { is_flagged: false, ..self }
    }

    /// The cell with its count of neighbouring mines replaced.
    pub open spec fn with_local_mines(self, count: nat) -> CellView {
        CellView { local_mines: count, ..self }
    }

    /// What the cell shows in a text grid. A revealed cell shows its content,
    /// the mine or the count; a hidden one shows its flag, or the blank glyph.
    pub open spec fn text(self) -> Seq<char> {
        if self.is_revealed {
            if self.is_mine {
                seq![mine_glyph()]
            } else {
                decimal(self.local_mines)
            }
        } else if self.is_flagged {
            seq![flag_glyph()]
        } else {
            seq![hidden_glyph()]
        }
    }

    /// The colour in which the cell is painted.
    pub open spec fn color(self) -> CellColor {
        if !self.is_revealed {
            if self.is_flagged {
                CellColor::Green
            } else {
                CellColor::Gray
            }
        } else if self.is_mine {
            CellColor::Red
        } else {
            CellColor::LightGray
        }
    }
}

/// Revealing a cell a second time changes nothing.
pub proof fn lemma_reveal_idempotent(cell: CellView)
    ensures
        cell.revealed().revealed() == cell.revealed(),
{
}

/// Flagging and unflagging are idempotent, and the later of the two decides.
pub proof fn lemma_flag_idempotent(cell: CellView)
    ensures
        cell.flagged().flagged() == cell.flagged(),
        cell.unflagged().unflagged() == cell.unflagged(),
        cell.flagged().unflagged() == cell.unflagged(),
        cell.unflagged().flagged() == cell.flagged(),
{
}

/// No player action moves a mine or changes a count.
pub proof fn lemma_actions_keep_layout(cell: CellView)
    ensures
        cell.revealed().is_mine == cell.is_mine,
        cell.flagged().is_mine == cell.is_mine,
        cell.unflagged().is_mine == cell.is_mine,
        cell.revealed().local_mines == cell.local_mines,
        cell.flagged().local_mines == cell.local_mines,
        cell.unflagged().local_mines == cell.local_mines,
{
}

/// One square of the board.
#[derive(Debug, Clone, Copy)]
pub struct Cell {
    is_mine: bool,
    /// Number of mines in the cells around this one.
    local_mines: usize,
    /// Whether the player has uncovered the cell.
    is_revealed: bool,
    /// Whether the player has marked the cell as a suspected mine.
    is_flagged: bool,
}

impl View for Cell {
    type V = CellView;

    closed spec fn view(&self) -> CellView {
        CellView {
            is_mine: self.is_mine,
            local_mines: self.local_mines as nat,
            is_revealed: self.is_revealed,
            is_flagged: self.is_flagged,
        }
    }
}

impl Cell {
    /// A clear cell, the default value of a square.
    pub fn clear() -> (cell: Cell)
        ensures
            cell@ == CellView::clear(),
    {
        Cell { is_mine: false, local_mines: 0, is_revealed: false, is_flagged: false }
    }

    /// A fresh cell that holds a mine or not, as told.
    pub fn new(is_mine: bool) -> (cell: Cell)
        ensures
            cell@ == CellView::fresh(is_mine),
    {
        Cell { is_mine, local_mines: 0, is_revealed: false, is_flagged: false }
    }

    /// A fresh cell that holds a mine with the given probability.
    pub fn random(is_mine_percentage: Probability) -> (cell: Cell)
        ensures
            cell@ == CellView::fresh(cell@.is_mine),
            is_mine_percentage.is_never() ==> !cell@.is_mine,
            is_mine_percentage.is_always() ==> cell@.is_mine,
    {
        Cell::new(is_mine_percentage.sample())
    }

    /// The number of mines around the cell, as counted when the board was made.
    pub fn local_mines(&self) -> (count: usize)
        ensures
            count == self@.local_mines,
    {
        self.local_mines
    }

    /// Uncovers the cell.
    pub fn uncover(&mut self)
        ensures
            final(self)@ == old(self)@.revealed(),
    {
        self.is_revealed = true;
    }

    /// Puts a flag on the cell. A revealed cell takes the flag too, and goes
    /// on showing what it holds.
    pub fn flag(&mut self)
        ensures
            final(self)@ == old(self)@.flagged(),
    {
        self.is_flagged = true;
    }

    /// Takes the flag off the cell.
    pub fn unflag(&mut self)
        ensures
            final(self)@ == old(self)@.unflagged(),
    {
        self.is_flagged = false;
    }

    /// Whether the cell holds a mine.
    pub fn is_mine(&self) -> (mine: bool)
        ensures
            mine == self@.is_mine,
    {
        self.is_mine
    }

    /// Whether the cell has been uncovered.
    pub fn is_revealed(&self) -> (revealed: bool)
        ensures
            revealed == self@.is_revealed,
    {
        self.is_revealed
    }

    /// Whether the cell carries a flag.
    pub fn is_flagged(&self) -> (flagged: bool)
        ensures
            flagged == self@.is_flagged,
    {
        self.is_flagged
    }

    /// Records the number of mines around the cell.
    pub fn set_local_mines(&mut self, local_mine_count: usize)
        ensures
            final(self)@ == old(self)@.with_local_mines(local_mine_count as nat),
    {
        self.local_mines = local_mine_count;
    }

    /// The colour in which the cell is painted.
    pub fn color(&self) -> (color: CellColor)
        ensures
            color == self@.color(),
    {
        match (self.is_revealed, self.is_flagged, self.is_mine) {
            (false, true, _) => CellColor::Green,
            (false, _, _) => CellColor::Gray,
            (true, _, false) => CellColor::LightGray,
            (true, _, true) => CellColor::Red,
        }
    }

    /// What the cell shows in a text grid.
    pub fn render_text(&self) -> (text: String)
        ensures
            text@ == self@.text(),
    {
        if self.is_revealed {
            if self.is_mine {
                proof {
                    reveal_strlit("*");
                }
                let text = String::from_str("*");
                assert(text@ =~= self@.text());
                text
            } else {
                decimal_string(self.local_mines)
            }
        } else if self.is_flagged {
            proof {
                reveal_strlit("\u{2691}");
            }
            let text = String::from_str("\u{2691}");
            assert(text@ =~= self@.text());
            text
        } else {
            proof {
                reveal_strlit("#");
            }
            let text = String::from_str("#");
            assert(text@ =~= self@.text());
            text
        }
    }
}

} // verus!
