use chess_tui::app::App;
use chess_tui::constants::{DisplayMode, Pages, Popups};
use chess_tui::coord::Coord;
use chess_tui::game::{Game, GameState};
use chess_tui::opponent::Opponent;
use chess_tui::pieces::PieceColor;

#[test]
fn menu_cursor_wraps() {
    let mut app = App::default();
    app.menu_cursor_up(4);
    assert_eq!(app.menu_cursor, 3);
    app.menu_cursor_down(4);
    assert_eq!(app.menu_cursor, 0);
    app.menu_cursor_right(2);
    assert_eq!(app.menu_cursor, 1);
    app.menu_cursor_right(2);
    assert_eq!(app.menu_cursor, 0);
    app.menu_cursor_left(2);
    assert_eq!(app.menu_cursor, 1);
    app.menu_cursor_left(2);
    assert_eq!(app.menu_cursor, 0);
}

#[test]
fn popups_and_pages() {
    let mut app = App::default();
    assert!(app.running);
    app.toggle_help_popup();
    assert_eq!(app.current_popup, Some(Popups::Help));
    app.toggle_help_popup();
    assert_eq!(app.current_popup, None);
    app.toggle_credit_popup();
    assert_eq!(app.current_page, Pages::Credit);
    app.toggle_credit_popup();
    assert_eq!(app.current_page, Pages::Home);
    app.menu_cursor = 3;
    app.menu_select();
    assert_eq!(app.current_page, Pages::Credit);
    app.go_to_home();
    assert_eq!(app.current_page, Pages::Home);
    app.menu_cursor = 0;
    app.menu_select();
    assert_eq!(app.current_page, Pages::Solo);
    app.menu_cursor = 2;
    app.menu_select();
    assert_eq!(app.current_popup, Some(Popups::Help));
    app.tick();
    app.quit();
    assert!(!app.running);
}

#[test]
fn display_mode_switch() {
    let mut app = App::default();
    assert_eq!(app.game.ui.display_mode, DisplayMode::DEFAULT);
    app.menu_cursor = 1;
    app.menu_select();
    assert_eq!(app.game.ui.display_mode, DisplayMode::ASCII);
    assert_eq!(app.game.ui.display_mode.to_string(), "ASCII");
    app.menu_select();
    assert_eq!(app.game.ui.display_mode.to_string(), "DEFAULT");
}

#[test]
fn color_selection_and_reset() {
    let mut app = App::default();
    app.current_popup = Some(Popups::ColorSelection);
    app.menu_cursor = 1;
    app.color_selection();
    assert_eq!(app.selected_color, Some(PieceColor::Black));
    assert_eq!(app.current_popup, None);
    app.menu_cursor = 0;
    app.color_selection();
    assert_eq!(app.selected_color, Some(PieceColor::White));
    app.game.execute_move(&Coord::new(6, 4), &Coord::new(4, 4));
    assert_eq!(app.game.game_board.move_history.len(), 1);
    app.restart();
    assert_eq!(app.game.game_board.move_history.len(), 0);
    assert_eq!(app.selected_color, Some(PieceColor::White));
    app.menu_cursor = 2;
    app.reset();
    assert_eq!(app.selected_color, None);
    assert_eq!(app.menu_cursor, 0);
    assert_eq!(app.game.game_state, GameState::Playing);
}

#[test]
fn opponent_colors() {
    let o = Opponent::new(Some(PieceColor::White));
    assert!(o.opponent_will_move);
    assert_eq!(o.color, PieceColor::White);
    assert!(!o.game_started);
    let o = Opponent::new(None);
    assert_eq!(o.color, PieceColor::Black);
    assert!(!o.opponent_will_move);
    let o = Opponent::new(Some(PieceColor::Black));
    assert!(!o.opponent_will_move);
    assert_eq!(o.copy(), o);
    assert_eq!(Opponent::default(), Opponent::new(None));
}

#[test]
fn game_setters() {
    let mut game = Game::default();
    game.switch_player_turn();
    assert_eq!(game.player_turn, PieceColor::Black);
    game.set_player_turn(PieceColor::White);
    assert_eq!(game.player_turn, PieceColor::White);
    let other = Game::default();
    game.execute_move(&Coord::new(6, 0), &Coord::new(5, 0));
    game.set_board(other.game_board);
    assert_eq!(game.game_board.move_history.len(), 0);
}
