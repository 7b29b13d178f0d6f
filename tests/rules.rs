use chess_tui::coord::Coord;
use chess_tui::game::{Game, GameState};
use chess_tui::game_board::{starting_board, GameBoard, DRAW_PLY_LIMIT};
use chess_tui::pieces::{PieceColor, PieceType};
use chess_tui::rules::Board;

fn empty_board() -> Board {
    [None; 64]
}

fn put(b: &mut Board, r: usize, c: usize, kind: PieceType, color: PieceColor) {
    b[r * 8 + c] = Some((kind, color));
}

fn play(game: &mut Game, fr: u8, fc: u8, tr: u8, tc: u8) {
    let before = game.game_board.move_history.len();
    game.execute_move(&Coord::new(fr, fc), &Coord::new(tr, tc));
    assert_eq!(game.game_board.move_history.len(), before + 1, "move {fr},{fc} -> {tr},{tc} was refused");
    game.switch_player_turn();
}

fn targets(gb: &GameBoard, color: PieceColor, r: u8, c: u8) -> Vec<(u8, u8)> {
    gb.get_authorized_positions(color, Coord::new(r, c)).iter().map(|c| (c.row, c.col)).collect()
}

#[test]
fn coord_validity() {
    assert!(Coord::new(0, 0).is_valid());
    assert!(Coord::new(7, 7).is_valid());
    assert!(!Coord::new(8, 0).is_valid());
    assert!(!Coord::new(0, 8).is_valid());
    assert!(!Coord::undefined().is_valid());
    assert_ne!(Coord::undefined(), Coord::new(0, 0));
}

#[test]
fn starting_position_targets() {
    let gb = GameBoard::default();
    assert_eq!(gb.board_history.len(), 1);
    assert_eq!(gb.get_piece(&Coord::new(7, 4)), Some((PieceType::King, PieceColor::White)));
    assert_eq!(gb.get_piece(&Coord::new(0, 3)), Some((PieceType::Queen, PieceColor::Black)));
    assert_eq!(gb.get_piece(&Coord::new(4, 4)), None);
    assert_eq!(gb.get_piece(&Coord::undefined()), None);
    assert_eq!(targets(&gb, PieceColor::White, 7, 1), vec![(5, 0), (5, 2)]);
    assert_eq!(targets(&gb, PieceColor::White, 6, 4), vec![(4, 4), (5, 4)]);
    assert_eq!(targets(&gb, PieceColor::White, 7, 0), vec![]);
    assert_eq!(targets(&gb, PieceColor::Black, 7, 1), vec![]);
    assert_eq!(targets(&gb, PieceColor::White, 4, 4), vec![]);
    assert!(!gb.is_getting_checked(PieceColor::White));
    assert!(gb.has_legal_moves(PieceColor::White));
    assert!(!gb.is_checkmate(PieceColor::White));
    assert!(!gb.is_draw(PieceColor::Black));
}

#[test]
fn authorized_targets_never_leave_king_struck() {
    // White king on e1 pinned bishop on e2 by a black rook on e8.
    let mut b = empty_board();
    put(&mut b, 7, 4, PieceType::King, PieceColor::White);
    put(&mut b, 6, 4, PieceType::Bishop, PieceColor::White);
    put(&mut b, 0, 4, PieceType::Rook, PieceColor::Black);
    put(&mut b, 0, 0, PieceType::King, PieceColor::Black);
    let gb = GameBoard::new(b);
    assert_eq!(targets(&gb, PieceColor::White, 6, 4), vec![]);
    for (r, c) in targets(&gb, PieceColor::White, 7, 4) {
        assert_ne!(c, 4, "king may not stay on the rook's file");
        let mut game = Game::new(GameBoard::new(b), PieceColor::White);
        game.execute_move(&Coord::new(7, 4), &Coord::new(r, c));
        assert!(!game.game_board.is_getting_checked(PieceColor::White));
    }
    assert_eq!(targets(&gb, PieceColor::White, 7, 4), vec![(6, 3), (6, 5), (7, 3), (7, 5)]);
}

#[test]
fn fools_mate() {
    let mut game = Game::default();
    play(&mut game, 6, 5, 5, 5);
    play(&mut game, 1, 4, 3, 4);
    play(&mut game, 6, 6, 4, 6);
    play(&mut game, 0, 3, 4, 7);
    assert_eq!(game.player_turn, PieceColor::White);
    assert!(game.game_board.is_getting_checked(PieceColor::White));
    assert!(game.game_board.is_checkmate(PieceColor::White));
    assert!(!game.game_board.is_draw(PieceColor::White));
    assert_eq!(game.game_board.board_history.len(), game.game_board.move_history.len() + 1);
}

#[test]
fn fools_mate_by_clicks() {
    let mut game = Game::default();
    let clicks = [((6, 5), (5, 5)), ((1, 4), (3, 4)), ((6, 6), (4, 6)), ((0, 3), (4, 7))];
    for ((fr, fc), (tr, tc)) in clicks {
        game.ui.cursor_coordinates = Coord::new(fr, fc);
        game.handle_cell_click();
        assert_eq!(game.ui.selected_coordinates, Coord::new(fr, fc));
        game.ui.cursor_coordinates = Coord::new(tr, tc);
        game.handle_cell_click();
        assert!(!game.ui.is_cell_selected());
    }
    assert_eq!(game.game_state, GameState::Checkmate);
    assert_eq!(game.game_board.move_history.len(), 4);
    // A finished game ignores clicks.
    game.ui.cursor_coordinates = Coord::new(6, 0);
    game.handle_cell_click();
    assert_eq!(game.game_board.move_history.len(), 4);
    assert!(!game.ui.is_cell_selected());
}

#[test]
fn illegal_move_is_ignored() {
    let mut game = Game::default();
    game.execute_move(&Coord::new(6, 4), &Coord::new(3, 4));
    assert_eq!(game.game_board.move_history.len(), 0);
    game.execute_move(&Coord::new(1, 4), &Coord::new(3, 4));
    assert_eq!(game.game_board.move_history.len(), 0);
    game.execute_move(&Coord::undefined(), &Coord::new(3, 4));
    assert_eq!(game.game_board.move_history.len(), 0);
    assert_eq!(game.game_board.board, starting_board());
    // Through the click path the turn is not consumed either.
    game.ui.selected_coordinates = Coord::new(6, 4);
    game.ui.cursor_coordinates = Coord::new(3, 4);
    game.already_selected_cell_action();
    assert_eq!(game.player_turn, PieceColor::White);
    assert!(!game.ui.is_cell_selected());
}

fn castling_board() -> Board {
    let mut b = starting_board();
    b[7 * 8 + 5] = None;
    b[7 * 8 + 6] = None;
    b
}

#[test]
fn castling_moves_king_and_rook() {
    let mut game = Game::new(GameBoard::new(castling_board()), PieceColor::White);
    assert!(targets(&game.game_board, PieceColor::White, 7, 4).contains(&(7, 6)));
    game.execute_move(&Coord::new(7, 4), &Coord::new(7, 6));
    let gb = &game.game_board;
    assert_eq!(gb.move_history.len(), 1);
    assert_eq!(gb.board_history.len(), 2);
    assert_eq!(gb.get_piece(&Coord::new(7, 6)), Some((PieceType::King, PieceColor::White)));
    assert_eq!(gb.get_piece(&Coord::new(7, 5)), Some((PieceType::Rook, PieceColor::White)));
    assert_eq!(gb.get_piece(&Coord::new(7, 7)), None);
    assert_eq!(gb.get_piece(&Coord::new(7, 4)), None);
    assert_eq!(gb.board_history[1], gb.board);
}

#[test]
fn castling_refused_through_struck_cell() {
    let mut b = castling_board();
    // Open the f-file and put a black rook on it: f1 is struck.
    b[6 * 8 + 5] = None;
    b[1 * 8 + 5] = None;
    put(&mut b, 3, 5, PieceType::Rook, PieceColor::Black);
    let gb = GameBoard::new(b);
    assert!(!targets(&gb, PieceColor::White, 7, 4).contains(&(7, 6)));
    assert!(targets(&gb, PieceColor::White, 7, 4).contains(&(7, 5)) == false);
}

#[test]
fn castling_refused_after_king_moved() {
    let mut game = Game::new(GameBoard::new(castling_board()), PieceColor::White);
    play(&mut game, 7, 4, 7, 5);
    play(&mut game, 1, 0, 2, 0);
    play(&mut game, 7, 5, 7, 4);
    play(&mut game, 2, 0, 3, 0);
    assert!(!targets(&game.game_board, PieceColor::White, 7, 4).contains(&(7, 6)));
}

fn en_passant_setup() -> Game {
    let mut game = Game::default();
    play(&mut game, 6, 4, 4, 4);
    play(&mut game, 1, 0, 2, 0);
    play(&mut game, 4, 4, 3, 4);
    play(&mut game, 1, 3, 3, 3);
    game
}

#[test]
fn en_passant_capture() {
    let mut game = en_passant_setup();
    assert!(targets(&game.game_board, PieceColor::White, 3, 4).contains(&(2, 3)));
    game.execute_move(&Coord::new(3, 4), &Coord::new(2, 3));
    let gb = &game.game_board;
    assert_eq!(gb.get_piece(&Coord::new(2, 3)), Some((PieceType::Pawn, PieceColor::White)));
    assert_eq!(gb.get_piece(&Coord::new(3, 3)), None);
    assert_eq!(gb.get_piece(&Coord::new(3, 4)), None);
    assert_eq!(gb.consecutive_non_pawn_or_capture, 0);
}

#[test]
fn en_passant_expires() {
    let mut game = en_passant_setup();
    play(&mut game, 6, 7, 5, 7);
    play(&mut game, 2, 0, 3, 0);
    assert!(!targets(&game.game_board, PieceColor::White, 3, 4).contains(&(2, 3)));
}

fn promotion_game() -> Game {
    let mut b = empty_board();
    put(&mut b, 7, 4, PieceType::King, PieceColor::White);
    put(&mut b, 2, 0, PieceType::King, PieceColor::Black);
    put(&mut b, 1, 7, PieceType::Pawn, PieceColor::White);
    Game::new(GameBoard::new(b), PieceColor::White)
}

#[test]
fn promotion_rewrites_last_entry() {
    let mut game = promotion_game();
    game.ui.cursor_coordinates = Coord::new(1, 7);
    game.handle_cell_click();
    assert_eq!(game.ui.cursor_coordinates, Coord::new(0, 7));
    game.handle_cell_click();
    assert_eq!(game.game_state, GameState::Promotion);
    assert_eq!(game.game_board.move_history.len(), 1);
    assert_eq!(game.game_board.move_history[0].piece_type, PieceType::Pawn);
    assert!(game.game_board.is_latest_move_promotion());
    game.ui.promotion_cursor = 1;
    game.handle_cell_click();
    assert_eq!(game.game_state, GameState::Playing);
    assert_eq!(game.game_board.move_history.len(), 1);
    assert_eq!(game.game_board.board_history.len(), 2);
    assert_eq!(game.game_board.move_history[0].piece_type, PieceType::Rook);
    assert_eq!(game.game_board.get_piece(&Coord::new(0, 7)), Some((PieceType::Rook, PieceColor::White)));
    assert_eq!(game.game_board.board_history[1], game.game_board.board);
    assert_eq!(game.ui.promotion_cursor, 0);
    assert!(!game.game_board.is_latest_move_promotion());
}

#[test]
fn promotion_to_each_piece() {
    let kinds = [PieceType::Queen, PieceType::Rook, PieceType::Bishop, PieceType::Knight];
    for (i, kind) in kinds.iter().enumerate() {
        let mut game = promotion_game();
        game.execute_move(&Coord::new(1, 7), &Coord::new(0, 7));
        game.ui.promotion_cursor = i as i8;
        game.promote_piece();
        assert_eq!(game.game_board.get_piece(&Coord::new(0, 7)), Some((*kind, PieceColor::White)));
        assert_eq!(game.game_board.move_history[0].piece_type, *kind);
        assert_eq!(game.game_state, GameState::Playing);
    }
}

#[test]
fn draw_after_quiet_plies() {
    let mut b = empty_board();
    put(&mut b, 7, 4, PieceType::King, PieceColor::White);
    put(&mut b, 0, 4, PieceType::King, PieceColor::Black);
    put(&mut b, 7, 1, PieceType::Knight, PieceColor::White);
    put(&mut b, 0, 1, PieceType::Knight, PieceColor::Black);
    put(&mut b, 6, 0, PieceType::Pawn, PieceColor::White);
    let mut game = Game::new(GameBoard::new(b), PieceColor::White);
    for i in 0..DRAW_PLY_LIMIT {
        assert!(!game.game_board.is_draw(game.player_turn));
        let (fr, tr) = if i % 4 < 2 { (0, 2) } else { (2, 0) };
        let row = |r: u8, white: bool| if white { 7 - r } else { r };
        let white = game.player_turn == PieceColor::White;
        let from_col = if i % 4 < 2 { 1 } else { 2 };
        let to_col = if i % 4 < 2 { 2 } else { 1 };
        play(&mut game, row(fr, white), from_col, row(tr, white), to_col);
        assert_eq!(game.game_board.consecutive_non_pawn_or_capture, i + 1);
    }
    assert!(game.game_board.is_draw(game.player_turn));
    assert!(game.game_board.is_draw(PieceColor::Black));
    // A pawn move resets the counter.
    game.set_player_turn(PieceColor::White);
    play(&mut game, 6, 0, 5, 0);
    assert_eq!(game.game_board.consecutive_non_pawn_or_capture, 0);
    assert!(!game.game_board.is_draw(game.player_turn));
}

#[test]
fn capture_resets_counter() {
    let mut b = empty_board();
    put(&mut b, 7, 4, PieceType::King, PieceColor::White);
    put(&mut b, 0, 4, PieceType::King, PieceColor::Black);
    put(&mut b, 4, 0, PieceType::Rook, PieceColor::White);
    put(&mut b, 4, 7, PieceType::Knight, PieceColor::Black);
    let mut gb = GameBoard::new(b);
    gb.consecutive_non_pawn_or_capture = 12;
    let mut game = Game::new(gb, PieceColor::White);
    play(&mut game, 4, 0, 4, 6);
    assert_eq!(game.game_board.consecutive_non_pawn_or_capture, 13);
    play(&mut game, 0, 4, 0, 3);
    assert_eq!(game.game_board.consecutive_non_pawn_or_capture, 14);
    play(&mut game, 4, 6, 4, 7);
    assert_eq!(game.game_board.consecutive_non_pawn_or_capture, 0);
}

#[test]
fn stalemate_is_draw() {
    let mut b = empty_board();
    put(&mut b, 0, 0, PieceType::King, PieceColor::Black);
    put(&mut b, 2, 1, PieceType::Queen, PieceColor::White);
    put(&mut b, 7, 7, PieceType::King, PieceColor::White);
    let gb = GameBoard::new(b);
    assert!(!gb.is_getting_checked(PieceColor::Black));
    assert!(!gb.has_legal_moves(PieceColor::Black));
    assert!(gb.is_draw(PieceColor::Black));
    assert!(!gb.is_checkmate(PieceColor::Black));
    let mut game = Game::new(gb, PieceColor::Black);
    game.handle_cell_click();
    assert_eq!(game.game_state, GameState::Draw);
}

#[test]
fn back_rank_mate_is_checkmate() {
    let mut b = empty_board();
    put(&mut b, 0, 6, PieceType::King, PieceColor::Black);
    put(&mut b, 1, 5, PieceType::Pawn, PieceColor::Black);
    put(&mut b, 1, 6, PieceType::Pawn, PieceColor::Black);
    put(&mut b, 1, 7, PieceType::Pawn, PieceColor::Black);
    put(&mut b, 0, 0, PieceType::Rook, PieceColor::White);
    put(&mut b, 7, 7, PieceType::King, PieceColor::White);
    let gb = GameBoard::new(b);
    assert!(gb.is_getting_checked(PieceColor::Black));
    assert!(gb.is_checkmate(PieceColor::Black));
    assert!(!gb.is_draw(PieceColor::Black));
}

#[test]
fn flip_keeps_cells() {
    let mut gb = GameBoard::default();
    gb.flip_the_board();
    assert!(gb.is_flipped);
    assert_eq!(gb.board, starting_board());
    assert_eq!(targets(&gb, PieceColor::White, 7, 6), vec![(5, 5), (5, 7)]);
    gb.reset();
    assert!(!gb.is_flipped);
}

#[test]
fn pseudo_legal_destinations_ignore_pins() {
    let mut b = empty_board();
    put(&mut b, 7, 4, PieceType::King, PieceColor::White);
    put(&mut b, 6, 4, PieceType::Rook, PieceColor::White);
    put(&mut b, 0, 4, PieceType::Rook, PieceColor::Black);
    put(&mut b, 0, 0, PieceType::King, PieceColor::Black);
    let gb = GameBoard::new(b);
    let pseudo: Vec<(u8, u8)> = gb.pseudo_legal_destinations(Coord::new(6, 4)).iter().map(|c| (c.row, c.col)).collect();
    assert_eq!(pseudo.len(), 13);
    assert!(pseudo.contains(&(6, 0)));
    assert!(pseudo.contains(&(0, 4)));
    assert!(!pseudo.contains(&(7, 4)));
    assert_eq!(targets(&gb, PieceColor::White, 6, 4), vec![(0, 4), (1, 4), (2, 4), (3, 4), (4, 4), (5, 4)]);
}

#[test]
fn place_and_clear() {
    let mut gb = GameBoard::new(empty_board());
    gb.place(&Coord::new(3, 3), (PieceType::Queen, PieceColor::Black));
    assert_eq!(gb.get_piece(&Coord::new(3, 3)), Some((PieceType::Queen, PieceColor::Black)));
    assert_eq!(gb.get_piece_type(&Coord::new(3, 3)), Some(PieceType::Queen));
    assert_eq!(gb.get_piece_color(&Coord::new(3, 3)), Some(PieceColor::Black));
    gb.clear(&Coord::new(3, 3));
    assert_eq!(gb.get_piece(&Coord::new(3, 3)), None);
    assert_eq!(gb.move_history.len(), 0);
    gb.increment_consecutive_non_pawn_or_capture(PieceType::Rook, None);
    assert_eq!(gb.consecutive_non_pawn_or_capture, 1);
    gb.increment_consecutive_non_pawn_or_capture(PieceType::Rook, Some(PieceType::Pawn));
    assert_eq!(gb.consecutive_non_pawn_or_capture, 0);
}

#[test]
fn promotion_into_checkmate_ends_game() {
    let mut b = empty_board();
    put(&mut b, 7, 4, PieceType::King, PieceColor::White);
    put(&mut b, 0, 0, PieceType::King, PieceColor::Black);
    put(&mut b, 1, 0, PieceType::Pawn, PieceColor::Black);
    put(&mut b, 1, 1, PieceType::Pawn, PieceColor::Black);
    put(&mut b, 1, 7, PieceType::Pawn, PieceColor::White);
    let mut game = Game::new(GameBoard::new(b), PieceColor::White);
    game.ui.cursor_coordinates = Coord::new(1, 7);
    game.handle_cell_click();
    game.ui.cursor_coordinates = Coord::new(0, 7);
    game.handle_cell_click();
    assert_eq!(game.game_state, GameState::Promotion);
    game.ui.promotion_cursor = 0;
    game.handle_cell_click();
    assert_eq!(game.game_state, GameState::Checkmate);
    assert_eq!(game.game_board.move_history[0].piece_type, PieceType::Queen);
    assert!(game.game_board.is_checkmate(PieceColor::Black));
}

#[test]
fn finished_game_keeps_its_state() {
    let mut b = empty_board();
    put(&mut b, 0, 0, PieceType::King, PieceColor::Black);
    put(&mut b, 2, 1, PieceType::Queen, PieceColor::White);
    put(&mut b, 7, 7, PieceType::King, PieceColor::White);
    let mut game = Game::new(GameBoard::new(b), PieceColor::Black);
    game.game_state = GameState::Checkmate;
    game.ui.cursor_coordinates = Coord::new(0, 0);
    game.handle_cell_click();
    assert_eq!(game.game_state, GameState::Checkmate);
    assert!(!game.ui.is_cell_selected());
}

#[test]
fn no_promotion_without_a_ply() {
    let mut game = promotion_game();
    game.execute_move(&Coord::new(1, 7), &Coord::new(0, 7));
    game.switch_player_turn();
    // A click that plays nothing leaves the game in play.
    game.ui.cursor_coordinates = Coord::new(4, 4);
    game.handle_cell_click();
    assert_eq!(game.game_state, GameState::Playing);
}

#[test]
fn castling_refused_with_rook_that_came_to_corner() {
    let mut b = empty_board();
    put(&mut b, 7, 4, PieceType::King, PieceColor::White);
    put(&mut b, 7, 0, PieceType::Rook, PieceColor::White);
    put(&mut b, 3, 7, PieceType::Rook, PieceColor::White);
    put(&mut b, 0, 0, PieceType::King, PieceColor::Black);
    let mut game = Game::new(GameBoard::new(b), PieceColor::White);
    assert!(!targets(&game.game_board, PieceColor::White, 7, 4).contains(&(7, 6)));
    play(&mut game, 3, 7, 7, 7);
    play(&mut game, 0, 0, 0, 1);
    let kt = targets(&game.game_board, PieceColor::White, 7, 4);
    assert!(!kt.contains(&(7, 6)));
    assert!(kt.contains(&(7, 2)));
}
