use vstd::prelude::*;

use crate::board::{algebraic, position_converter, Square};
use crate::pieces::{is_this_colors_turn, shows, Colour, Piece};

verus! {

/// The top-level screen the interface shows.
#[derive(Clone, Copy, Debug, PartialEq, Eq, Structural)]
pub enum Screen {
    LanguageSelect,
    SpecialModeAsk,
    GameScreen,
    GameIsOver,
}

impl Default for Screen {
    fn default() -> (r: Screen)
        ensures
            r == Screen::LanguageSelect,
    {
        Screen::LanguageSelect
    }
}

/// The two languages of the interface; English is the default one.
#[derive(Clone, Copy, Debug, PartialEq, Eq, Structural)]
pub enum Language {
    English,
    Turkish,
}

/// What the engine says of the game in progress.
#[derive(Clone, Copy, Debug, PartialEq, Eq, Structural)]
pub enum GameStatus {
    InProgress,
    Check,
    GameOver,
}

/// How a square of the board is painted.
#[derive(Clone, Copy, Debug, PartialEq, Eq, Structural)]
pub enum Decoration {
    Light,
    Dark,
    Selected,
    LegalDestination,
}

/// A move for the engine to make.
#[derive(Clone, Copy, Debug, PartialEq, Eq, Structural)]
pub struct Move {
    pub from: Square,
    pub to: Square,
}

/// The interface state around a game: the screen shown, the display
/// settings chosen at the start, and the piece the player has picked.
#[derive(Clone, Copy, Debug, PartialEq, Eq, Structural)]
pub struct BoardController {
    pub screen: Screen,
    pub language: Option<Language>,
    pub special_mod: bool,
    pub chosen_piece: Option<Square>,
}

/// The screen changes the interface allows: a language choice leads to the
/// board (English) or to the question on the special mode (Turkish); the
/// answer to that question leads to the board; the end of a game leads from
/// the board to the final screen, and a restart leads back.
pub open spec fn screen_edge(from: Screen, to: Screen) -> bool {
    ||| from == Screen::LanguageSelect && to == Screen::GameScreen
    ||| from == Screen::LanguageSelect && to == Screen::SpecialModeAsk
    ||| from == Screen::SpecialModeAsk && to == Screen::GameScreen
    ||| from == Screen::GameScreen && to == Screen::GameIsOver
    ||| from == Screen::GameIsOver && to == Screen::GameScreen
}

/// Some name in `names` is the engine's name of `sq`.
pub open spec fn names_square(names: Seq<String>, sq: Square) -> bool {
    exists|i: int| 0 <= i < names.len() && names[i]@ == algebraic(sq.row as int, sq.col as int)
}

/// The paint of a square when no piece is picked: light where the row and
/// column add up to an even number.
pub open spec fn parity_decoration(sq: Square) -> Decoration {
    if (sq.row + sq.col) % 2 == 0 {
        Decoration::Light
    } else {
        Decoration::Dark
    }
}

/// The paint of `sq`, where `destinations` are the engine's names of the
/// squares the picked piece (if any) can move to.
pub open spec fn decoration_of(c: BoardController, sq: Square, destinations: Seq<String>) -> Decoration {
    match c.chosen_piece {
        Some(sel) => if sel == sq {
            Decoration::Selected
        } else if names_square(destinations, sq) {
            Decoration::LegalDestination
        } else {
            parity_decoration(sq)
        },
        None => parity_decoration(sq),
    }
}

/// The state after the player picks a language.
pub open spec fn after_language(c: BoardController, lang: Language) -> BoardController {
    if c.screen == Screen::LanguageSelect {
        BoardController {
            screen: match lang {
                Language::English => Screen::GameScreen,
                Language::Turkish => Screen::SpecialModeAsk,
            },
            language: Some(lang),
            ..c
        }
    } else {
        c
    }
}

/// The state after the player answers the question on the special mode.
pub open spec fn after_special_mode(c: BoardController, on: bool) -> BoardController {
    if c.screen == Screen::SpecialModeAsk {
        BoardController { screen: Screen::GameScreen, special_mod: on, ..c }
    } else {
        c
    }
}

/// The state after the engine reported `status` during a pass over the board.
pub open spec fn after_status(c: BoardController, status: GameStatus) -> BoardController {
    if c.screen == Screen::GameScreen && status == GameStatus::GameOver {
        BoardController { screen: Screen::GameIsOver, ..c }
    } else {
        c
    }
}

/// The state after a restart: no piece is picked, and the final screen gives
/// way to the board.
pub open spec fn after_restart(c: BoardController) -> BoardController {
    BoardController {
        screen: if c.screen == Screen::GameIsOver {
            Screen::GameScreen
        } else {
            c.screen
        },
        chosen_piece: None,
        ..c
    }
}

/// The state and the move after a click on `sq`. `destinations` are the
/// engine's names of the squares the picked piece can move to, `turn` is the
/// side to move, and `symbol` is the engine's text for `sq`.
pub open spec fn after_click(
    c: BoardController,
    sq: Square,
    destinations: Seq<String>,
    turn: Colour,
    symbol: Seq<char>,
) -> (BoardController, Option<Move>) {
    let own = exists|p: Piece| shows(symbol, p) && p.colour == turn;
    match c.chosen_piece {
        Some(sel) => if names_square(destinations, sq) {
            (BoardController { chosen_piece: None, ..c }, Some(Move { from: sel, to: sq }))
        } else if own {
            (BoardController { chosen_piece: Some(sq), ..c }, None)
        } else {
            (c, None)
        },
        None => if own {
            (BoardController { chosen_piece: Some(sq), ..c }, None)
        } else {
            (c, None)
        },
    }
}

/// Whether some name in `destinations` equals `name`.
pub fn contains_position(destinations: &Vec<String>, name: &String) -> (r: bool)
    ensures
        r == exists|i: int| 0 <= i < destinations@.len() && destinations@[i]@ == name@,
{
    let mut i: usize = 0;
    while i < destinations.len()
        invariant
            i <= destinations@.len(),
            forall|j: int| 0 <= j < i ==> destinations@[j]@ != name@,
        decreases destinations@.len() - i,
    {
        if destinations[i] == *name {
            return true;
        }
        i = i + 1;
    }
    false
}

impl BoardController {
    /// The picked square, if any, lies on the board.
    pub open spec fn wf(self) -> bool {
        match self.chosen_piece {
            Some(sq) => sq.wf(),
            None => true,
        }
    }

    /// The state at start-up: the language screen, nothing chosen yet.
    pub fn new() -> (r: BoardController)
        ensures
            r.screen == Screen::LanguageSelect,
            r.language is None,
            !r.special_mod,
            r.chosen_piece is None,
            r.wf(),
    {
        BoardController {
            screen: Screen::default(),
            language: None,
            special_mod: false,
            chosen_piece: None,
        }
    }

    pub fn choose_language(&mut self, lang: Language)
        ensures
            *final(self) == after_language(*old(self), lang),
    {
        if self.screen == Screen::LanguageSelect {
            self.screen = match lang {
                Language::English => Screen::GameScreen,
                Language::Turkish => Screen::SpecialModeAsk,
            };
            self.language = Some(lang);
        }
    }

    pub fn choose_special_mode(&mut self, on: bool)
        ensures
            *final(self) == after_special_mode(*old(self), on),
    {
        if self.screen == Screen::SpecialModeAsk {
            self.screen = Screen::GameScreen;
            self.special_mod = on;
        }
    }

    pub fn observe_status(&mut self, status: GameStatus)
        ensures
            *final(self) == after_status(*old(self), status),
    {
        if self.screen == Screen::GameScreen && status == GameStatus::GameOver {
            self.screen = Screen::GameIsOver;
        }
    }

    /// Forgets the picked piece and leaves the final screen; the caller starts
    /// a fresh game in the engine.
    pub fn restart(&mut self)
        ensures
            *final(self) == after_restart(*old(self)),
            final(self).chosen_piece is None,
    {
        self.chosen_piece = None;
        if self.screen == Screen::GameIsOver {
            self.screen = Screen::GameScreen;
        }
    }

    /// Handles a click on `square`, and returns the move to make, if any.
    /// `destinations` are the engine's names of the squares the picked piece
    /// can move to, `turn` the side to move and `symbol` the engine's text
    /// for `square`.
    pub fn handle_square_click(
        &mut self,
        square: Square,
        destinations: &Vec<String>,
        turn: Colour,
        symbol: &str,
    ) -> (r: Option<Move>)
        requires
            old(self).wf(),
            square.wf(),
        ensures
            (*final(self), r) == after_click(*old(self), square, destinations@, turn, symbol@),
            final(self).wf(),
    {
        match self.chosen_piece {
            Some(sel) => {
                let name = position_converter(square.row, square.col);
                if contains_position(destinations, &name) {
                    self.chosen_piece = None;
                    Some(Move { from: sel, to: square })
                } else {
                    if is_this_colors_turn(turn, symbol) {
                        self.chosen_piece = Some(square);
                    }
                    None
                }
            },
            None => {
                if is_this_colors_turn(turn, symbol) {
                    self.chosen_piece = Some(square);
                }
                None
            },
        }
    }

    /// How to paint `square`; `destinations` are the engine's names of the
    /// squares the picked piece (if any) can move to.
    pub fn square_decoration(&self, square: Square, destinations: &Vec<String>) -> (r: Decoration)
        requires
            square.wf(),
        ensures
            r == decoration_of(*self, square, destinations@),
            self.chosen_piece is None ==> r == parity_decoration(square),
    {
        if let Some(sel) = self.chosen_piece {
            if sel == square {
                return Decoration::Selected;
            }
            let name = position_converter(square.row, square.col);
            if contains_position(destinations, &name) {
                return Decoration::LegalDestination;
            }
        }
        if (square.row + square.col) % 2 == 0 {
            Decoration::Light
        } else {
            Decoration::Dark
        }
    }
}

/// With no piece picked, the paint of a square depends on the parity of its
/// row plus its column alone.
pub proof fn lemma_unselected_paint_is_parity(
    c: BoardController,
    a: Square,
    b: Square,
    da: Seq<String>,
    db: Seq<String>,
)
    requires
        c.chosen_piece is None,
    ensures
        decoration_of(c, a, da) == parity_decoration(a),
        (a.row + a.col) % 2 == (b.row + b.col) % 2 ==> decoration_of(c, a, da) == decoration_of(
            c,
            b,
            db,
        ),
{
}

/// With `a` picked, a click on a square that is neither a destination of
/// `a` nor holds a piece of the side to move keeps `a` picked, and moves
/// nothing.
pub proof fn lemma_misclick_keeps_selection(
    c: BoardController,
    a: Square,
    b: Square,
    destinations: Seq<String>,
    turn: Colour,
    symbol: Seq<char>,
)
    requires
        c.chosen_piece == Some(a),
        !names_square(destinations, b),
        !exists|p: Piece| shows(symbol, p) && p.colour == turn,
    ensures
        after_click(c, b, destinations, turn, symbol) == (c, None::<Move>),
        after_click(c, b, destinations, turn, symbol).0.chosen_piece == Some(a),
{
}

/// With `a` picked, a click on a destination `b` of `a` asks for exactly the
/// move from `a` to `b`, and leaves nothing picked.
pub proof fn lemma_click_on_destination_moves(
    c: BoardController,
    a: Square,
    b: Square,
    destinations: Seq<String>,
    turn: Colour,
    symbol: Seq<char>,
)
    requires
        c.chosen_piece == Some(a),
        names_square(destinations, b),
    ensures
        after_click(c, b, destinations, turn, symbol).0.chosen_piece is None,
        after_click(c, b, destinations, turn, symbol).1 == Some(Move { from: a, to: b }),
        after_click(c, b, destinations, turn, symbol).0.screen == c.screen,
{
}

/// A restart always leaves nothing picked.
pub proof fn lemma_restart_clears_selection(c: BoardController)
    ensures
        after_restart(c).chosen_piece is None,
        after_restart(c).language == c.language,
        after_restart(c).special_mod == c.special_mod,
{
}

/// The screen stays, or moves along an edge of `screen_edge`, whatever the
/// input: a language choice, an answer on the special mode, a status
/// report, a restart or a click.
pub proof fn lemma_screen_moves_along_edges(
    c: BoardController,
    lang: Language,
    on: bool,
    status: GameStatus,
    sq: Square,
    destinations: Seq<String>,
    turn: Colour,
    symbol: Seq<char>,
)
    ensures
        after_language(c, lang).screen == c.screen || screen_edge(
            c.screen,
            after_language(c, lang).screen,
        ),
        after_special_mode(c, on).screen == c.screen || screen_edge(
            c.screen,
            after_special_mode(c, on).screen,
        ),
        after_status(c, status).screen == c.screen || screen_edge(
            c.screen,
            after_status(c, status).screen,
        ),
        after_restart(c).screen == c.screen || screen_edge(c.screen, after_restart(c).screen),
        after_click(c, sq, destinations, turn, symbol).0.screen == c.screen,
{
}

} // verus!
