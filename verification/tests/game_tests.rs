use minesweeper::board::Board;
use minesweeper::game::{easy_mines, hard_mines, medium_mines, Game, GameState, HEIGHT, WIDTH};
use minesweeper::input::Action;

fn shown(game: &Game) -> Vec<bool> {
    game.board().cells().iter().map(|cell| cell.is_revealed()).collect()
}

fn flags(game: &Game) -> Vec<bool> {
    game.board().cells().iter().map(|cell| cell.is_flagged()).collect()
}

/// A game on a board of three by three cells with one mine, in the corner.
fn corner_game() -> Game {
    Game::with_board(Board::with_mines(3, 3, &vec![(0, 0)]))
}

#[test]
fn new_game_opens_on_a_fresh_board() {
    let game = Game::new();
    assert_eq!(WIDTH, 32);
    assert_eq!(HEIGHT, 32);
    assert_eq!(game.state(), GameState::Playing);
    assert_eq!(game.cell_index(), (0, 0));
    assert_eq!(game.action(), Action::Cancel);
    assert_eq!(game.board().width(), 32);
    assert_eq!(game.board().height(), 32);
    assert_eq!(game.board().cells().len(), 1024);
    assert!(shown(&game).iter().all(|shown| !shown));
    assert!(flags(&game).iter().all(|flag| !flag));
}

#[test]
fn presets_of_the_chance_of_a_mine() {
    assert_eq!((easy_mines().numerator(), easy_mines().denominator()), (1, 16));
    assert_eq!((medium_mines().numerator(), medium_mines().denominator()), (1, 8));
    assert_eq!((hard_mines().numerator(), hard_mines().denominator()), (1, 4));
}

#[test]
fn game_with_board_opens_on_that_board() {
    let game = corner_game();
    assert_eq!(game.state(), GameState::Playing);
    assert_eq!(game.cell_index(), (0, 0));
    assert_eq!(game.action(), Action::Cancel);
    assert_eq!(game.board().width(), 3);
    assert!(game.board().get_cell((0, 0)).unwrap().is_mine());
}

#[test]
fn coordinate_off_the_board_is_rejected() {
    let mut game = Game::with_board(Board::with_mines(10, 10, &vec![]));
    assert!(game.set_cell_index((4, 7)));
    assert_eq!(game.cell_index(), (4, 7));
    assert!(!game.set_cell_index((10, 10)));
    assert_eq!(game.cell_index(), (4, 7));
    assert!(!game.set_cell_index((10, 0)));
    assert!(!game.set_cell_index((0, 10)));
    assert!(!game.set_cell_index((usize::MAX, usize::MAX)));
    assert_eq!(game.cell_index(), (4, 7));
    assert!(game.set_cell_index((9, 9)));
    assert_eq!(game.cell_index(), (9, 9));
    assert_eq!(game.state(), GameState::Playing);
    assert!(shown(&game).iter().all(|shown| !shown));
}

#[test]
fn rejected_coordinate_leaves_the_default_selection() {
    let mut game = Game::with_board(Board::with_mines(10, 10, &vec![]));
    assert!(!game.set_cell_index((10, 10)));
    assert_eq!(game.cell_index(), (0, 0));
}

#[test]
fn rows_come_first_in_a_coordinate() {
    let mut game = Game::with_board(Board::with_mines(5, 2, &vec![]));
    assert!(game.set_cell_index((1, 4)));
    assert!(!game.set_cell_index((4, 1)));
    assert_eq!(game.cell_index(), (1, 4));
}

#[test]
fn set_action_stores_the_action() {
    let mut game = corner_game();
    for action in [Action::Reveal, Action::Flag, Action::Unflag, Action::Cancel] {
        game.set_action(action);
        assert_eq!(game.action(), action);
        assert_eq!(game.state(), GameState::Playing);
        assert_eq!(game.cell_index(), (0, 0));
    }
}

#[test]
fn revealing_a_mine_ends_the_round() {
    let mut game = corner_game();
    game.set_action(Action::Reveal);
    game.execute_action();
    assert_eq!(game.state(), GameState::GameOver);
    assert!(game.state().is_game_over());
    assert_eq!(
        shown(&game),
        vec![true, false, false, false, false, false, false, false, false]
    );
}

#[test]
fn revealing_a_cell_without_a_mine_goes_on() {
    let mut game = corner_game();
    assert!(game.set_cell_index((1, 1)));
    game.set_action(Action::Reveal);
    game.execute_action();
    assert_eq!(game.state(), GameState::Playing);
    assert_eq!(
        shown(&game),
        vec![false, false, false, false, true, false, false, false, false]
    );
    assert_eq!(game.board().get_cell((1, 1)).unwrap().local_mines(), 1);
}

#[test]
fn flagging_and_unflagging_go_on_even_on_a_mine() {
    let mut game = corner_game();
    game.set_action(Action::Flag);
    game.execute_action();
    assert_eq!(game.state(), GameState::Playing);
    assert_eq!(
        flags(&game),
        vec![true, false, false, false, false, false, false, false, false]
    );
    assert!(shown(&game).iter().all(|shown| !shown));
    game.set_action(Action::Unflag);
    game.execute_action();
    assert_eq!(game.state(), GameState::Playing);
    assert!(flags(&game).iter().all(|flag| !flag));
    assert!(shown(&game).iter().all(|shown| !shown));
}

#[test]
fn cancel_changes_nothing() {
    let mut game = corner_game();
    assert!(game.set_cell_index((2, 1)));
    game.set_action(Action::Cancel);
    let before = game.board().render_text();
    game.execute_action();
    assert_eq!(game.state(), GameState::Playing);
    assert_eq!(game.board().render_text(), before);
    assert_eq!(game.cell_index(), (2, 1));
    assert_eq!(game.action(), Action::Cancel);
}

#[test]
fn turns_leave_mines_and_counts_alone() {
    let mut game = Game::with_board(Board::with_mines(3, 3, &vec![(0, 0), (2, 2)]));
    let mines = |game: &Game| {
        game.board().cells().iter().map(|cell| cell.is_mine()).collect::<Vec<_>>()
    };
    let counts = |game: &Game| {
        game.board().cells().iter().map(|cell| cell.local_mines()).collect::<Vec<_>>()
    };
    let mines_before = mines(&game);
    let counts_before = counts(&game);
    assert_eq!(counts_before, vec![0, 1, 0, 1, 2, 1, 0, 1, 0]);
    for (at, action) in [
        ((0, 1), Action::Flag),
        ((1, 1), Action::Reveal),
        ((0, 1), Action::Unflag),
        ((2, 0), Action::Cancel),
        ((2, 2), Action::Flag),
        ((2, 2), Action::Reveal),
    ] {
        assert!(game.set_cell_index(at));
        game.set_action(action);
        game.execute_action();
        assert_eq!(mines(&game), mines_before);
        assert_eq!(counts(&game), counts_before);
    }
    assert_eq!(game.state(), GameState::GameOver);
}

#[test]
fn nothing_is_applied_once_the_round_is_over() {
    let mut game = corner_game();
    game.set_action(Action::Reveal);
    game.execute_action();
    assert_eq!(game.state(), GameState::GameOver);
    let board = game.board().render_text();
    let shown_then = shown(&game);
    for (at, action) in [
        ((1, 1), Action::Reveal),
        ((1, 2), Action::Flag),
        ((0, 0), Action::Flag),
        ((0, 0), Action::Unflag),
        ((2, 2), Action::Reveal),
    ] {
        assert!(game.set_cell_index(at));
        game.set_action(action);
        game.execute_action();
        assert_eq!(game.state(), GameState::GameOver);
        assert_eq!(game.board().render_text(), board);
        assert_eq!(shown(&game), shown_then);
        assert!(flags(&game).iter().all(|flag| !flag));
    }
    assert_eq!(game.update(true, false, Some((2, 2))), GameState::GameOver);
    assert_eq!(game.update(false, true, Some((1, 1))), GameState::GameOver);
    assert_eq!(game.board().render_text(), board);
}

#[test]
fn nothing_is_applied_once_the_game_is_quit() {
    let mut game = corner_game();
    game.set_action(Action::Reveal);
    game.execute_action();
    game.handle_game_over_terminal(true);
    assert_eq!(game.state(), GameState::Quit);
    let board = game.board().render_text();
    assert!(game.set_cell_index((1, 1)));
    game.set_action(Action::Reveal);
    game.execute_action();
    assert_eq!(game.update(true, false, Some((2, 2))), GameState::Quit);
    assert_eq!(game.state(), GameState::Quit);
    assert_eq!(game.board().render_text(), board);
}

#[test]
fn a_press_of_the_primary_button_reveals_the_cell_under_the_pointer() {
    let mut game = corner_game();
    game.handle_input(true, false, Some((1, 2)));
    assert_eq!(game.action(), Action::Reveal);
    assert_eq!(game.cell_index(), (1, 2));
    assert_eq!(game.state(), GameState::Playing);
    assert_eq!(
        shown(&game),
        vec![false, false, false, false, false, true, false, false, false]
    );
    game.handle_input(true, false, Some((0, 0)));
    assert_eq!(game.cell_index(), (0, 0));
    assert_eq!(game.state(), GameState::GameOver);
    assert_eq!(
        shown(&game),
        vec![true, false, false, false, false, true, false, false, false]
    );
}

#[test]
fn a_press_that_falls_on_no_cell_does_nothing() {
    let mut game = corner_game();
    assert!(game.set_cell_index((2, 2)));
    game.set_action(Action::Flag);
    for target in [None, Some((3, 0)), Some((0, 3)), Some((usize::MAX, usize::MAX))] {
        game.handle_input(true, false, target);
        game.handle_input(false, true, target);
        game.handle_input(true, true, target);
        assert_eq!(game.action(), Action::Flag);
        assert_eq!(game.cell_index(), (2, 2));
        assert_eq!(game.state(), GameState::Playing);
        assert!(shown(&game).iter().all(|shown| !shown));
        assert!(flags(&game).iter().all(|flag| !flag));
    }
}

#[test]
fn without_a_press_the_pointer_does_nothing() {
    let mut game = corner_game();
    game.set_action(Action::Reveal);
    game.handle_input(false, false, Some((0, 0)));
    assert_eq!(game.cell_index(), (0, 0));
    assert_eq!(game.state(), GameState::Playing);
    assert!(shown(&game).iter().all(|shown| !shown));
}

#[test]
fn a_press_of_the_secondary_button_toggles_a_pending_flag() {
    let mut game = corner_game();
    game.set_action(Action::Flag);
    game.handle_input(false, true, Some((1, 1)));
    assert_eq!(game.action(), Action::Unflag);
    assert_eq!(game.cell_index(), (1, 1));
    assert!(flags(&game).iter().all(|flag| !flag));
    game.handle_input(false, true, Some((1, 1)));
    assert_eq!(game.action(), Action::Flag);
    assert_eq!(
        flags(&game),
        vec![false, false, false, false, true, false, false, false, false]
    );
    game.handle_input(false, true, Some((1, 1)));
    assert_eq!(game.action(), Action::Unflag);
    assert!(flags(&game).iter().all(|flag| !flag));
    assert!(shown(&game).iter().all(|shown| !shown));
    assert_eq!(game.state(), GameState::Playing);
}

#[test]
fn a_press_of_the_secondary_button_keeps_any_other_action() {
    let mut game = corner_game();
    game.handle_input(false, true, Some((1, 1)));
    assert_eq!(game.action(), Action::Cancel);
    assert_eq!(game.cell_index(), (1, 1));
    assert!(shown(&game).iter().all(|shown| !shown));
    assert!(flags(&game).iter().all(|flag| !flag));
    game.set_action(Action::Reveal);
    game.handle_input(false, true, Some((2, 2)));
    assert_eq!(game.action(), Action::Reveal);
    assert_eq!(
        shown(&game),
        vec![false, false, false, false, false, false, false, false, true]
    );
}

#[test]
fn both_buttons_together_reveal() {
    let mut game = corner_game();
    game.set_action(Action::Flag);
    game.handle_input(true, true, Some((0, 1)));
    assert_eq!(game.action(), Action::Reveal);
    assert_eq!(
        shown(&game),
        vec![false, true, false, false, false, false, false, false, false]
    );
    assert!(flags(&game).iter().all(|flag| !flag));
}

#[test]
fn update_plays_a_frame_and_reports_the_state() {
    let mut game = corner_game();
    assert_eq!(game.update(false, false, None), GameState::Playing);
    assert!(shown(&game).iter().all(|shown| !shown));
    assert_eq!(game.update(true, false, Some((2, 0))), GameState::Playing);
    assert_eq!(
        shown(&game),
        vec![false, false, false, false, false, false, true, false, false]
    );
    assert_eq!(game.update(false, false, Some((0, 0))), GameState::Playing);
    assert_eq!(
        shown(&game),
        vec![false, false, false, false, false, false, true, false, false]
    );
    assert_eq!(game.update(true, false, Some((0, 0))), GameState::GameOver);
    assert_eq!(game.state(), GameState::GameOver);
    assert_eq!(
        shown(&game),
        vec![true, false, false, false, false, false, true, false, false]
    );
}

#[test]
fn update_without_a_press_applies_nothing() {
    let mut game = corner_game();
    assert!(game.set_cell_index((1, 0)));
    game.set_action(Action::Flag);
    assert_eq!(game.update(false, false, None), GameState::Playing);
    assert_eq!(game.update(false, false, Some((1, 0))), GameState::Playing);
    assert!(flags(&game).iter().all(|flag| !flag));
    assert!(shown(&game).iter().all(|shown| !shown));
    assert_eq!(game.cell_index(), (1, 0));
    assert_eq!(game.action(), Action::Flag);
}

#[test]
fn update_with_a_press_on_no_cell_applies_nothing() {
    let mut game = Game::with_board(Board::with_mines(1, 1, &vec![(0, 0)]));
    game.set_action(Action::Reveal);
    for target in [None, Some((1, 0)), Some((0, 1)), Some((usize::MAX, usize::MAX))] {
        assert_eq!(game.update(true, false, target), GameState::Playing);
        assert_eq!(game.update(false, true, target), GameState::Playing);
        assert_eq!(game.update(true, true, target), GameState::Playing);
        assert_eq!(game.update(false, false, target), GameState::Playing);
    }
    assert_eq!(game.state(), GameState::Playing);
    assert_eq!(shown(&game), vec![false]);
    assert_eq!(flags(&game), vec![false]);
    assert_eq!(game.action(), Action::Reveal);
    assert_eq!(game.cell_index(), (0, 0));
    assert_eq!(game.update(true, false, Some((0, 0))), GameState::GameOver);
    assert_eq!(shown(&game), vec![true]);
}

#[test]
fn update_applies_a_press_over_a_cell_once() {
    let mut game = corner_game();
    game.set_action(Action::Flag);
    assert_eq!(game.update(false, true, Some((1, 1))), GameState::Playing);
    assert_eq!(game.action(), Action::Unflag);
    assert!(flags(&game).iter().all(|flag| !flag));
    assert_eq!(game.update(false, true, Some((1, 1))), GameState::Playing);
    assert_eq!(game.action(), Action::Flag);
    assert_eq!(
        flags(&game),
        vec![false, false, false, false, true, false, false, false, false]
    );
}

#[test]
fn declining_after_a_loss_quits() {
    let mut game = corner_game();
    game.set_action(Action::Reveal);
    game.execute_action();
    let board = game.board().render_text();
    game.handle_game_over_terminal(true);
    assert_eq!(game.state(), GameState::Quit);
    assert!(!game.state().is_game_over());
    assert_eq!(game.board().render_text(), board);
    assert_eq!(game.action(), Action::Reveal);
    assert_eq!(game.cell_index(), (0, 0));
}

#[test]
fn playing_again_after_a_loss_starts_a_new_round() {
    let mut game = Game::with_board(Board::with_mines(4, 3, &vec![(2, 3)]));
    assert!(game.set_cell_index((2, 3)));
    game.set_action(Action::Reveal);
    game.execute_action();
    assert_eq!(game.state(), GameState::GameOver);
    game.handle_game_over_terminal(false);
    assert_eq!(game.state(), GameState::Playing);
    assert_eq!(game.cell_index(), (0, 0));
    assert_eq!(game.action(), Action::Cancel);
    assert_eq!(game.board().width(), 4);
    assert_eq!(game.board().height(), 3);
    assert!(shown(&game).iter().all(|shown| !shown));
    assert!(flags(&game).iter().all(|flag| !flag));
}

#[test]
fn a_round_that_is_not_lost_is_not_settled() {
    let mut game = corner_game();
    assert!(game.set_cell_index((1, 1)));
    game.set_action(Action::Reveal);
    game.execute_action();
    let board = game.board().render_text();
    game.handle_game_over_terminal(true);
    assert_eq!(game.state(), GameState::Playing);
    game.handle_game_over_terminal(false);
    assert_eq!(game.state(), GameState::Playing);
    assert_eq!(game.board().render_text(), board);
    assert_eq!(game.cell_index(), (1, 1));
    assert_eq!(game.action(), Action::Reveal);
}

#[test]
fn is_game_over_tells_a_loss_from_the_rest() {
    assert!(GameState::GameOver.is_game_over());
    assert!(!GameState::Playing.is_game_over());
    assert!(!GameState::Quit.is_game_over());
}

#[test]
fn the_answer_key_of_a_lost_round_shows_every_cell() {
    let mut game = corner_game();
    game.set_action(Action::Reveal);
    game.execute_action();
    let key = game.board().clone_revealed();
    assert_eq!(key.render_text(), "   0 1 2 \n   ------\n0 |* 1 0 \n1 |1 1 0 \n2 |0 0 0 \n");
    assert_eq!(
        game.board().render_text(),
        "   0 1 2 \n   ------\n0 |* # # \n1 |# # # \n2 |# # # \n"
    );
}

#[test]
fn a_cloned_game_is_played_on_its_own() {
    let mut game = corner_game();
    assert!(game.set_cell_index((1, 1)));
    game.set_action(Action::Flag);
    let mut copy = game.clone();
    assert_eq!(copy.cell_index(), (1, 1));
    assert_eq!(copy.action(), Action::Flag);
    assert_eq!(copy.state(), GameState::Playing);
    copy.execute_action();
    assert!(copy.board().get_cell((1, 1)).unwrap().is_flagged());
    assert!(!game.board().get_cell((1, 1)).unwrap().is_flagged());
}
