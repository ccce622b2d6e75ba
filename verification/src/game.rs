//! The turn controller: one board, the cell and the action that the player
//! has selected, and whether the round is still being played.

use vstd::prelude::*;
use crate::board::Board;
use crate::grid::{BoardView, lemma_counts_follow_mines, lemma_position_in_range, lemma_with_cell};
use crate::cell::CellView;
use crate::input::Action;
use crate::probability::{Probability, Ratio};

verus! {

/// The number of columns of the board of a new game.
pub const WIDTH: usize = 32;

/// The number of rows of the board of a new game.
pub const HEIGHT: usize = WIDTH;

/// The chance of a mine in each cell of an easy board: one in sixteen.
pub fn easy_mines() -> (chance: Probability)
    ensures
        chance@ == (Ratio { numerator: 1, denominator: 16 }),
{
    Probability::new(1, 16).unwrap()
}

/// The chance of a mine in each cell of a medium board: one in eight.
pub fn medium_mines() -> (chance: Probability)
    ensures
        chance@ == (Ratio { numerator: 1, denominator: 8 }),
{
    Probability::new(1, 8).unwrap()
}

/// The chance of a mine in each cell of a hard board: one in four.
pub fn hard_mines() -> (chance: Probability)
    ensures
        chance@ == (Ratio { numerator: 1, denominator: 4 }),
{
    Probability::new(1, 4).unwrap()
}

/// Where a round stands.
#[derive(Debug, Clone, Copy, PartialEq, Eq, Structural)]
pub enum GameState {
    /// A mine has been revealed.
    GameOver,
    /// The player may take a turn.
    Playing,
    /// The player has declined another round.
    Quit,
}

impl GameState {
    /// Whether a mine has been revealed.
    pub fn is_game_over(&self) -> (over: bool)
        ensures
            over == (*self == GameState::GameOver),
    {
        if let GameState::GameOver = self {
            true
        } else {
            false
        }
    }
}

/// The action that a press of the secondary button makes of the pending
/// one: it turns flagging into unflagging and back, and leaves any other.
pub open spec fn toggled(action: Action) -> Action {
    match action {
        Action::Flag => Action::Unflag,
        Action::Unflag => Action::Flag,
        other => other,
    }
}

/// A game as a plain mathematical value.
pub struct GameView {
    pub board: BoardView,
    pub state: GameState,
    /// The selected cell, as `(row, column)`.
    pub cell_index: (usize, usize),
    pub action: Action,
}

impl GameView {
    /// The board is a grid and the selected cell lies on it.
    pub open spec fn wf(self) -> bool {
        self.board.wf() && self.board.in_bounds(self.cell_index.0 as int, self.cell_index.1 as int)
    }

    /// The first turn of a round on the given board: nothing selected but the
    /// corner cell and the action that does nothing.
    pub open spec fn opening(board: BoardView) -> GameView {
        GameView { board, state: GameState::Playing, cell_index: (0, 0), action: Action::Cancel }
    }

    /// The selected cell.
    pub open spec fn selected(self) -> CellView {
        self.board.cell(self.cell_index.0 as int, self.cell_index.1 as int)
    }

    /// The game with the selected cell replaced.
    pub open spec fn with_selected(self, cell: CellView) -> GameView {
        GameView {
            board: self.board.with_cell(self.cell_index.0 as int, self.cell_index.1 as int, cell),
            ..self
        }
    }

    /// The game after the player has pointed at a coordinate: the coordinate
    /// is selected if it lies on the board, and nothing changes if not.
    pub open spec fn selecting(self, cell_index: (usize, usize)) -> GameView {
        if self.board.in_bounds(cell_index.0 as int, cell_index.1 as int) {
            GameView { cell_index, ..self }
        } else {
            self
        }
    }

    /// The game after the selected action has been applied to the selected
    /// cell. Revealing a mine ends the round; once the round is not being
    /// played, nothing is applied any more.
    pub open spec fn acted(self) -> GameView {
        if self.state != GameState::Playing {
            self
        } else {
            match self.action {
                Action::Reveal => GameView {
                    state: if self.selected().is_mine {
                        GameState::GameOver
                    } else {
                        GameState::Playing
                    },
                    ..self.with_selected(self.selected().revealed())
                },
                Action::Flag => self.with_selected(self.selected().flagged()),
                Action::Unflag => self.with_selected(self.selected().unflagged()),
                Action::Cancel => self,
            }
        }
    }

    /// The game after the pointer's buttons have been read. `target` is the
    /// cell under the pointer, if there is one. A press of the primary
    /// button selects revealing; a press of the secondary button alone
    /// toggles a pending flag or unflag. A press over a cell of the board
    /// selects that cell and applies the action to it. Without a press, or
    /// with a press that falls on no cell, nothing changes.
    pub open spec fn clicked(
        self,
        left_released: bool,
        right_released: bool,
        target: Option<(usize, usize)>,
    ) -> GameView {
        if (left_released || right_released) && target is Some && self.board.in_bounds(
            target.unwrap().0 as int,
            target.unwrap().1 as int,
        ) {
            (GameView {
                cell_index: target.unwrap(),
                action: if left_released {
                    Action::Reveal
                } else {
                    toggled(self.action)
                },
                ..self
            }).acted()
        } else {
            self
        }
    }

    /// The game after one frame of play with the pointer: while the round is
    /// being played the buttons are read, and a press over a cell applies the
    /// action to that cell. A frame without a press, or with a press that
    /// falls on no cell, changes nothing.
    pub open spec fn updated(
        self,
        left_released: bool,
        right_released: bool,
        target: Option<(usize, usize)>,
    ) -> GameView {
        if self.state == GameState::Playing {
            self.clicked(left_released, right_released, target)
        } else {
            self
        }
    }
}

/// The controller of one round.
#[derive(Debug)]
pub struct Game {
    board: Board,
    state: GameState,
    cell_index: (usize, usize),
    action: Action,
}

impl View for Game {
    type V = GameView;

    closed spec fn view(&self) -> GameView {
        GameView {
            board: self.board@,
            state: self.state,
            cell_index: self.cell_index,
            action: self.action,
        }
    }
}

impl Clone for Game {
    /// A copy of the game, board and selection.
    fn clone(&self) -> (copy: Game)
        ensures
            copy@ == self@,
    {
        Game {
            board: self.board.clone(),
            state: self.state,
            cell_index: self.cell_index,
            action: self.action,
        }
    }
}

impl Game {
    /// The game is well formed: its board is, and the selected cell lies on
    /// it.
    pub open spec fn wf(&self) -> bool {
        self@.wf() && self@.board.cells.len() <= usize::MAX
    }

    /// A new round on a random board of `WIDTH` by `HEIGHT` cells with the
    /// medium chance of a mine in each.
    pub fn new() -> (game: Game)
        ensures
            game.wf(),
            game@ == GameView::opening(game@.board),
            game@.board.width == WIDTH,
            game@.board.height == HEIGHT,
            game@.board.untouched(),
            game@.board.counted(),
    {
        Game {
            board: Board::random(WIDTH, HEIGHT, medium_mines()),
            state: GameState::Playing,
            cell_index: (0, 0),
            action: Action::Cancel,
        }
    }

    /// A new round on the given board.
    pub fn with_board(board: Board) -> (game: Game)
        requires
            board.wf(),
        ensures
            game.wf(),
            game@ == GameView::opening(board@),
    {
        Game { board, state: GameState::Playing, cell_index: (0, 0), action: Action::Cancel }
    }

    /// Applies the selected action to the selected cell.
    pub fn execute_action(&mut self)
        requires
            old(self).wf(),
        ensures
            final(self).wf(),
            final(self)@ == old(self)@.acted(),
    {
        proof {
            lemma_with_cell(
                self.board@,
                self.cell_index.0 as int,
                self.cell_index.1 as int,
                self@.selected().revealed(),
            );
            lemma_with_cell(
                self.board@,
                self.cell_index.0 as int,
                self.cell_index.1 as int,
                self@.selected().flagged(),
            );
            lemma_with_cell(
                self.board@,
                self.cell_index.0 as int,
                self.cell_index.1 as int,
                self@.selected().unflagged(),
            );
        }
        if let GameState::Playing = self.state {
            match self.action {
                Action::Reveal => {
                    let mut is_mine = false;
                    if let Some(cell) = self.board.get_cell_mut(self.cell_index) {
                        cell.uncover();
                        is_mine = cell.is_mine();
                    }
                    if is_mine {
                        self.state = GameState::GameOver;
                    }
                },
                Action::Flag => {
                    if let Some(cell) = self.board.get_cell_mut(self.cell_index) {
                        cell.flag();
                    }
                },
                Action::Unflag => {
                    if let Some(cell) = self.board.get_cell_mut(self.cell_index) {
                        cell.unflag();
                    }
                },
                Action::Cancel => (),
            }
        }
    }

    /// Selects the action of the turn.
    pub fn set_action(&mut self, action: Action)
        ensures
            final(self)@ == (GameView { action, ..old(self)@ }),
            old(self).wf() ==> final(self).wf(),
    {
        self.action = action;
    }

    /// Selects the cell of the turn, if the coordinate lies on the board.
    /// Says whether it does; a coordinate off the board changes nothing.
    pub fn set_cell_index(&mut self, cell_index: (usize, usize)) -> (accepted: bool)
        requires
            old(self).wf(),
        ensures
            final(self).wf(),
            accepted == old(self)@.board.in_bounds(cell_index.0 as int, cell_index.1 as int),
            final(self)@ == old(self)@.selecting(cell_index),
    {
        if self.board.get_cell(cell_index).is_some() {
            self.cell_index = cell_index;
            true
        } else {
            false
        }
    }

    /// Takes in what the pointer did since the last frame: which buttons
    /// were let go, and the cell under the pointer, if there is one.
    pub fn handle_input(
        &mut self,
        left_released: bool,
        right_released: bool,
        target: Option<(usize, usize)>,
    )
        requires
            old(self).wf(),
        ensures
            final(self).wf(),
            final(self)@ == old(self)@.clicked(left_released, right_released, target),
    {
        if left_released || right_released {
            if let Some(cell_index) = target {
                if self.board.get_cell(cell_index).is_some() {
                    if left_released {
                        self.action = Action::Reveal;
                    } else {
                        match self.action {
                            Action::Flag => self.action = Action::Unflag,
                            Action::Unflag => self.action = Action::Flag,
                            _ => {},
                        }
                    }
                    self.cell_index = cell_index;
                    self.execute_action();
                }
            }
        }
    }

    /// Plays one frame with the pointer and says where the round stands.
    pub fn update(
        &mut self,
        left_released: bool,
        right_released: bool,
        target: Option<(usize, usize)>,
    ) -> (state: GameState)
        requires
            old(self).wf(),
        ensures
            final(self).wf(),
            final(self)@ == old(self)@.updated(left_released, right_released, target),
            state == final(self)@.state,
    {
        if let GameState::Playing = self.state {
            self.handle_input(left_released, right_released, target);
        }
        self.state
    }

    /// Settles a lost round by the player's answer to the question whether
    /// to stop: the game is quit, or a new round starts on a fresh board of
    /// the same dimensions. While the round is not lost nothing changes.
    pub fn handle_game_over_terminal(&mut self, quit: bool)
        requires
            old(self).wf(),
        ensures
            final(self).wf(),
            old(self)@.state != GameState::GameOver ==> final(self)@ == old(self)@,
            old(self)@.state == GameState::GameOver && quit ==> final(self)@ == (GameView {
                state: GameState::Quit,
                ..old(self)@
            }),
            old(self)@.state == GameState::GameOver && !quit ==> {
                &&& final(self)@ == GameView::opening(final(self)@.board)
                &&& final(self)@.board.width == old(self)@.board.width
                &&& final(self)@.board.height == old(self)@.board.height
                &&& final(self)@.board.untouched()
                &&& final(self)@.board.counted()
            },
    {
        if let GameState::GameOver = self.state {
            if quit {
                self.state = GameState::Quit;
            } else {
                let width = self.board.width();
                let height = self.board.height();
                self.board = Board::random(width, height, medium_mines());
                self.state = GameState::Playing;
                self.cell_index = (0, 0);
                self.action = Action::Cancel;
            }
        }
    }

    /// The board of the round.
    pub fn board(&self) -> (board: &Board)
        ensures
            board@ == self@.board,
            self.wf() ==> board.wf(),
    {
        &self.board
    }

    /// Where the round stands.
    pub fn state(&self) -> (state: GameState)
        ensures
            state == self@.state,
    {
        self.state
    }

    /// The selected cell, as `(row, column)`.
    pub fn cell_index(&self) -> (cell_index: (usize, usize))
        ensures
            cell_index == self@.cell_index,
    {
        self.cell_index
    }

    /// The selected action.
    pub fn action(&self) -> (action: Action)
        ensures
            action == self@.action,
    {
        self.action
    }
}

/// From a round that is being played, the selected action ends the round
/// exactly when it reveals a mine; revealing any other cell, flagging,
/// unflagging and cancelling leave the round being played.
pub proof fn lemma_turn_outcome(game: GameView)
    requires
        game.wf(),
        game.state == GameState::Playing,
    ensures
        game.acted().state == GameState::GameOver <==> game.action == Action::Reveal
            && game.selected().is_mine,
        game.acted().state != GameState::GameOver ==> game.acted().state == GameState::Playing,
{
}

/// Once a round is not being played any more, no action and no press of a
/// button changes anything.
pub proof fn lemma_nothing_after_the_end(
    game: GameView,
    left_released: bool,
    right_released: bool,
    target: Option<(usize, usize)>,
)
    requires
        game.state != GameState::Playing,
    ensures
        game.acted() == game,
        game.updated(left_released, right_released, target) == game,
        game.clicked(left_released, right_released, target).board == game.board,
        game.clicked(left_released, right_released, target).state == game.state,
{
}

/// A frame without a press, and a press that falls on no cell of the board,
/// change nothing: not the board, not the state, not what is selected.
pub proof fn lemma_press_on_no_cell(
    game: GameView,
    left_released: bool,
    right_released: bool,
    target: Option<(usize, usize)>,
)
    requires
        !(left_released || right_released) || !(target matches Some(at) && game.board.in_bounds(
            at.0 as int,
            at.1 as int,
        )),
    ensures
        game.clicked(left_released, right_released, target) == game,
        game.updated(left_released, right_released, target) == game,
{
}

/// A turn changes at most the selected cell, moves no mine and changes no
/// count, so a board whose counts are right stays so; and the selected cell
/// still lies on the board.
pub proof fn lemma_turn_keeps_layout(game: GameView)
    requires
        game.wf(),
    ensures
        game.acted().wf(),
        game.acted().board.width == game.board.width,
        game.acted().board.height == game.board.height,
        game.acted().cell_index == game.cell_index,
        game.acted().action == game.action,
        forall|row: int, column: int|
            game.board.in_bounds(row, column) && (row, column) != (
                game.cell_index.0 as int,
                game.cell_index.1 as int,
            ) ==> #[trigger] game.acted().board.cell(row, column) == game.board.cell(row, column),
        forall|row: int, column: int|
            game.board.in_bounds(row, column) ==> (#[trigger] game.acted().board.cell(
                row,
                column,
            )).is_mine == game.board.cell(row, column).is_mine && game.acted().board.cell(
                row,
                column,
            ).local_mines == game.board.cell(row, column).local_mines,
        game.board.counted() ==> game.acted().board.counted(),
{
    let row = game.cell_index.0 as int;
    let column = game.cell_index.1 as int;
    lemma_with_cell(game.board, row, column, game.selected().revealed());
    lemma_with_cell(game.board, row, column, game.selected().flagged());
    lemma_with_cell(game.board, row, column, game.selected().unflagged());
    lemma_counts_follow_mines(game.board, game.acted().board);
}

/// Applying the selected action a second time changes nothing.
pub proof fn lemma_turn_idempotent(game: GameView)
    requires
        game.wf(),
    ensures
        game.acted().acted() == game.acted(),
{
    let row = game.cell_index.0 as int;
    let column = game.cell_index.1 as int;
    lemma_turn_keeps_layout(game);
    lemma_with_cell(game.board, row, column, game.selected().revealed());
    lemma_with_cell(game.board, row, column, game.selected().flagged());
    lemma_with_cell(game.board, row, column, game.selected().unflagged());
    lemma_position_in_range(game.board, row, column);
    let once = game.acted();
    assert(once.selected() == once.board.cell(row, column));
    assert(once.acted().board.cells =~= once.board.cells);
}

} // verus!
