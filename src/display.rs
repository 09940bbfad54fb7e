use vstd::prelude::*;

use crate::controller::{BoardController, GameStatus, Language};
use crate::pieces::{Colour, Piece, PieceKind};

verus! {

/// The texts are in English only when English was chosen; otherwise they are
/// in Turkish.
pub open spec fn in_english(c: BoardController) -> bool {
    c.language == Some(Language::English)
}

/// The special mode changes texts only in Turkish.
pub open spec fn special_texts(c: BoardController) -> bool {
    !in_english(c) && c.special_mod
}

pub open spec fn quit_text(c: BoardController) -> Seq<char> {
    if in_english(c) { "Quit"@ } else { "Çık"@ }
}

pub open spec fn restart_text(c: BoardController) -> Seq<char> {
    if in_english(c) { "Restart"@ } else { "Yeniden Başlat"@ }
}

pub open spec fn turn_text(c: BoardController, turn: Colour) -> Seq<char> {
    if in_english(c) {
        if turn == Colour::White { "White's turn"@ } else { "Black's turn"@ }
    } else if c.special_mod {
        if turn == Colour::White { "Sıra Türk Milleti'nde"@ } else { "Sıra AKP'de"@ }
    } else {
        if turn == Colour::White { "Sıra Beyazda"@ } else { "Sıra Siyahta"@ }
    }
}

pub open spec fn status_text(c: BoardController, status: GameStatus) -> Option<Seq<char>> {
    match status {
        GameStatus::InProgress => Some(
            if in_english(c) {
                "Current Game Status: In Progress..."@
            } else {
                "Mevcut Oyun Durumu: Devam Ediyor..."@
            },
        ),
        GameStatus::Check => Some(
            if in_english(c) {
                "Current Game State: Check"@
            } else {
                "Mevcut Oyun Durumu: Şah Çekildi!"@
            },
        ),
        GameStatus::GameOver => None,
    }
}

pub open spec fn game_over_text(c: BoardController) -> Seq<char> {
    if in_english(c) { "GAME OVER"@ } else { "OYUN BİTTİ!"@ }
}

/// The line of the final screen; `turn` is the side the engine reports to
/// move when the game ended.
pub open spec fn winner_text(c: BoardController, turn: Colour) -> Seq<char> {
    if in_english(c) {
        if turn == Colour::White { "White Won!"@ } else { "Black Won!"@ }
    } else if c.special_mod {
        if turn == Colour::White { "TÜRK MİLLETİ KAZANDI!"@ } else { "Yine akp kazandı..."@ }
    } else {
        if turn == Colour::White { "Beyaz kazandı!"@ } else { "Siyah kazandı!"@ }
    }
}

impl BoardController {
    pub fn is_english(&self) -> (r: bool)
        ensures
            r == in_english(*self),
    {
        match self.language {
            Some(Language::English) => true,
            _ => false,
        }
    }

    pub fn quit_label(&self) -> (r: &'static str)
        ensures
            r@ == quit_text(*self),
    {
        if self.is_english() { "Quit" } else { "Çık" }
    }

    pub fn restart_label(&self) -> (r: &'static str)
        ensures
            r@ == restart_text(*self),
    {
        if self.is_english() { "Restart" } else { "Yeniden Başlat" }
    }

    pub fn turn_label(&self, turn: Colour) -> (r: &'static str)
        ensures
            r@ == turn_text(*self, turn),
    {
        let white = turn == Colour::White;
        if self.is_english() {
            if white { "White's turn" } else { "Black's turn" }
        } else if self.special_mod {
            if white { "Sıra Türk Milleti'nde" } else { "Sıra AKP'de" }
        } else {
            if white { "Sıra Beyazda" } else { "Sıra Siyahta" }
        }
    }

    /// The status line under the board; `None` when the game is over, as the
    /// final screen then takes over.
    pub fn status_label(&self, status: GameStatus) -> (r: Option<&'static str>)
        ensures
            match r {
                Some(t) => status_text(*self, status) == Some(t@),
                None => status_text(*self, status) is None,
            },
    {
        let english = self.is_english();
        match status {
            GameStatus::InProgress => Some(
                if english {
                    "Current Game Status: In Progress..."
                } else {
                    "Mevcut Oyun Durumu: Devam Ediyor..."
                },
            ),
            GameStatus::Check => Some(
                if english {
                    "Current Game State: Check"
                } else {
                    "Mevcut Oyun Durumu: Şah Çekildi!"
                },
            ),
            GameStatus::GameOver => None,
        }
    }

    pub fn game_over_heading(&self) -> (r: &'static str)
        ensures
            r@ == game_over_text(*self),
    {
        if self.is_english() { "GAME OVER" } else { "OYUN BİTTİ!" }
    }

    pub fn winner_label(&self, turn: Colour) -> (r: &'static str)
        ensures
            r@ == winner_text(*self, turn),
    {
        let white = turn == Colour::White;
        if self.is_english() {
            if white { "White Won!" } else { "Black Won!" }
        } else if self.special_mod {
            if white { "TÜRK MİLLETİ KAZANDI!" } else { "Yine akp kazandı..." }
        } else {
            if white { "Beyaz kazandı!" } else { "Siyah kazandı!" }
        }
    }
}

pub open spec fn mode_dir(special: bool) -> Seq<char> {
    if special { "special-mode"@ } else { "regular-mode"@ }
}

pub open spec fn colour_name(c: Colour) -> Seq<char> {
    match c {
        Colour::White => "white"@,
        Colour::Black => "black"@,
    }
}

pub open spec fn kind_name(k: PieceKind) -> Seq<char> {
    match k {
        PieceKind::King => "king"@,
        PieceKind::Queen => "queen"@,
        PieceKind::Rook => "rook"@,
        PieceKind::Bishop => "bishop"@,
        PieceKind::Knight => "knight"@,
        PieceKind::Pawn => "pawn"@,
    }
}

/// The picture file of `p`, such as "images/regular-mode/white_pawn.png".
pub open spec fn image_path_of(special: bool, p: Piece) -> Seq<char> {
    "images/"@ + mode_dir(special) + "/"@ + colour_name(p.colour) + "_"@ + kind_name(p.kind)
        + ".png"@
}

/// The picture file of `piece`, from the set of the special mode or of the
/// regular one.
pub fn image_path(special: bool, piece: Piece) -> (r: String)
    ensures
        r@ == image_path_of(special, piece),
{
    let dir = if special { "special-mode" } else { "regular-mode" };
    let colour = match piece.colour {
        Colour::White => "white",
        Colour::Black => "black",
    };
    let kind = match piece.kind {
        PieceKind::King => "king",
        PieceKind::Queen => "queen",
        PieceKind::Rook => "rook",
        PieceKind::Bishop => "bishop",
        PieceKind::Knight => "knight",
        PieceKind::Pawn => "pawn",
    };
    String::from_str("images/").concat(dir).concat("/").concat(colour).concat("_").concat(
        kind,
    ).concat(".png")
}

} // verus!
