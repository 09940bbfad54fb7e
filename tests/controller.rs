use legendary_chess::board::Square;
use legendary_chess::controller::{
    contains_position, BoardController, Decoration, GameStatus, Language, Move, Screen,
};
use legendary_chess::pieces::Colour;

const WHITE_PAWN: &str = "\u{265F}";
const BLACK_PAWN: &str = "\u{2659}";
const EMPTY: &str = "\u{25A2}";

fn names(list: &[&str]) -> Vec<String> {
    list.iter().map(|s| s.to_string()).collect()
}

fn playing() -> BoardController {
    let mut c = BoardController::new();
    c.choose_language(Language::English);
    c
}

#[test]
fn starts_on_language_screen() {
    let c = BoardController::new();
    assert_eq!(c.screen, Screen::LanguageSelect);
    assert_eq!(c.language, None);
    assert!(!c.special_mod);
    assert_eq!(c.chosen_piece, None);
    assert_eq!(Screen::default(), Screen::LanguageSelect);
}

#[test]
fn english_goes_straight_to_board() {
    let c = playing();
    assert_eq!(c.screen, Screen::GameScreen);
    assert_eq!(c.language, Some(Language::English));
}

#[test]
fn turkish_asks_for_special_mode() {
    let mut c = BoardController::new();
    c.choose_language(Language::Turkish);
    assert_eq!(c.screen, Screen::SpecialModeAsk);
    c.choose_special_mode(true);
    assert_eq!(c.screen, Screen::GameScreen);
    assert!(c.special_mod);

    let mut d = BoardController::new();
    d.choose_language(Language::Turkish);
    d.choose_special_mode(false);
    assert_eq!(d.screen, Screen::GameScreen);
    assert!(!d.special_mod);
}

#[test]
fn inputs_off_their_screen_change_nothing() {
    let mut c = BoardController::new();
    c.choose_special_mode(true);
    c.observe_status(GameStatus::GameOver);
    assert_eq!(c, BoardController::new());

    let mut p = playing();
    p.choose_language(Language::Turkish);
    p.choose_special_mode(true);
    assert_eq!(p, playing());
}

#[test]
fn game_over_status_ends_the_game_and_restart_resumes() {
    let mut c = playing();
    c.observe_status(GameStatus::InProgress);
    assert_eq!(c.screen, Screen::GameScreen);
    c.observe_status(GameStatus::Check);
    assert_eq!(c.screen, Screen::GameScreen);
    c.observe_status(GameStatus::GameOver);
    assert_eq!(c.screen, Screen::GameIsOver);
    c.restart();
    assert_eq!(c.screen, Screen::GameScreen);
    assert_eq!(c.chosen_piece, None);
    assert_eq!(c.language, Some(Language::English));
}

#[test]
fn restart_clears_selection_and_keeps_settings() {
    let mut c = BoardController::new();
    c.choose_language(Language::Turkish);
    c.choose_special_mode(true);
    c.handle_square_click(Square::new(6, 4), &Vec::new(), Colour::White, WHITE_PAWN);
    assert_eq!(c.chosen_piece, Some(Square::new(6, 4)));
    c.restart();
    assert_eq!(c.chosen_piece, None);
    assert_eq!(c.screen, Screen::GameScreen);
    assert_eq!(c.language, Some(Language::Turkish));
    assert!(c.special_mod);
}

#[test]
fn fresh_controller_pawn_move_scenario() {
    let mut c = playing();
    let r = c.handle_square_click(Square::new(6, 4), &Vec::new(), Colour::White, WHITE_PAWN);
    assert_eq!(r, None);
    assert_eq!(c.chosen_piece, Some(Square::new(6, 4)));
    let dests = names(&["e3", "e4"]);
    let r = c.handle_square_click(Square::new(4, 4), &dests, Colour::White, EMPTY);
    assert_eq!(
        r,
        Some(Move { from: Square::new(6, 4), to: Square::new(4, 4) })
    );
    assert_eq!(c.chosen_piece, None);
    c.observe_status(GameStatus::InProgress);
    assert_eq!(c.screen, Screen::GameScreen);
}

#[test]
fn click_on_empty_square_without_selection_is_a_no_op() {
    let mut c = playing();
    let before = c;
    let r = c.handle_square_click(Square::new(4, 4), &Vec::new(), Colour::White, EMPTY);
    assert_eq!(r, None);
    assert_eq!(c, before);
    assert_eq!(c.chosen_piece, None);
    assert_eq!(c.screen, Screen::GameScreen);
}

#[test]
fn click_on_opponent_piece_without_selection_is_a_no_op() {
    let mut c = playing();
    let r = c.handle_square_click(Square::new(1, 4), &Vec::new(), Colour::White, BLACK_PAWN);
    assert_eq!(r, None);
    assert_eq!(c.chosen_piece, None);
}

#[test]
fn misclick_keeps_selection() {
    let mut c = playing();
    c.handle_square_click(Square::new(6, 4), &Vec::new(), Colour::White, WHITE_PAWN);
    let dests = names(&["e3", "e4"]);
    let r = c.handle_square_click(Square::new(3, 3), &dests, Colour::White, EMPTY);
    assert_eq!(r, None);
    assert_eq!(c.chosen_piece, Some(Square::new(6, 4)));
    let r = c.handle_square_click(Square::new(1, 0), &dests, Colour::White, BLACK_PAWN);
    assert_eq!(r, None);
    assert_eq!(c.chosen_piece, Some(Square::new(6, 4)));
}

#[test]
fn click_on_own_piece_moves_selection() {
    let mut c = playing();
    c.handle_square_click(Square::new(6, 4), &Vec::new(), Colour::White, WHITE_PAWN);
    let dests = names(&["e3", "e4"]);
    let r = c.handle_square_click(Square::new(6, 3), &dests, Colour::White, WHITE_PAWN);
    assert_eq!(r, None);
    assert_eq!(c.chosen_piece, Some(Square::new(6, 3)));
}

#[test]
fn black_selects_only_black_pieces() {
    let mut c = playing();
    c.handle_square_click(Square::new(6, 4), &Vec::new(), Colour::Black, WHITE_PAWN);
    assert_eq!(c.chosen_piece, None);
    c.handle_square_click(Square::new(1, 4), &Vec::new(), Colour::Black, BLACK_PAWN);
    assert_eq!(c.chosen_piece, Some(Square::new(1, 4)));
}

#[test]
fn unselected_board_is_checkered() {
    let c = playing();
    let dests = names(&["a8", "e4"]);
    for row in 0..8 {
        for col in 0..8 {
            let expected = if (row + col) % 2 == 0 { Decoration::Light } else { Decoration::Dark };
            assert_eq!(c.square_decoration(Square::new(row, col), &dests), expected);
        }
    }
}

#[test]
fn selection_and_destinations_are_highlighted() {
    let mut c = playing();
    c.handle_square_click(Square::new(6, 4), &Vec::new(), Colour::White, WHITE_PAWN);
    let dests = names(&["e3", "e4"]);
    assert_eq!(c.square_decoration(Square::new(6, 4), &dests), Decoration::Selected);
    assert_eq!(c.square_decoration(Square::new(5, 4), &dests), Decoration::LegalDestination);
    assert_eq!(c.square_decoration(Square::new(4, 4), &dests), Decoration::LegalDestination);
    assert_eq!(c.square_decoration(Square::new(3, 4), &dests), Decoration::Dark);
    assert_eq!(c.square_decoration(Square::new(0, 0), &dests), Decoration::Light);
}

#[test]
fn selected_square_wins_over_destination() {
    let mut c = playing();
    c.handle_square_click(Square::new(6, 4), &Vec::new(), Colour::White, WHITE_PAWN);
    let dests = names(&["e2"]);
    assert_eq!(c.square_decoration(Square::new(6, 4), &dests), Decoration::Selected);
}

#[test]
fn membership_of_square_names() {
    let dests = names(&["e3", "e4"]);
    assert!(contains_position(&dests, &"e4".to_string()));
    assert!(!contains_position(&dests, &"e5".to_string()));
    assert!(!contains_position(&Vec::new(), &"e4".to_string()));
}
