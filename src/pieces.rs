use vstd::prelude::*;

verus! {

/// The two sides of a game.
#[derive(Clone, Copy, Debug, PartialEq, Eq, Structural)]
pub enum Colour {
    White,
    Black,
}

#[derive(Clone, Copy, Debug, PartialEq, Eq, Structural)]
pub enum PieceKind {
    King,
    Queen,
    Rook,
    Bishop,
    Knight,
    Pawn,
}

/// What stands on an occupied square.
#[derive(Clone, Copy, Debug, PartialEq, Eq, Structural)]
pub struct Piece {
    pub colour: Colour,
    pub kind: PieceKind,
}

/// The character the engine prints for a piece. White pieces are drawn
/// with the filled chess glyphs (U+265A to U+265F), Black pieces with the
/// outlined ones (U+2654 to U+2659), in the order king, queen, rook, bishop,
/// knight, pawn.
pub open spec fn symbol_of(p: Piece) -> char {
    let base: int = match p.colour {
        Colour::White => 0x265A,
        Colour::Black => 0x2654,
    };
    let offset: int = match p.kind {
        PieceKind::King => 0,
        PieceKind::Queen => 1,
        PieceKind::Rook => 2,
        PieceKind::Bishop => 3,
        PieceKind::Knight => 4,
        PieceKind::Pawn => 5,
    };
    (base + offset) as char
}

/// `symbol` is the engine's text for a square holding `p`.
pub open spec fn shows(symbol: Seq<char>, p: Piece) -> bool {
    symbol == seq![symbol_of(p)]
}

/// Different pieces are printed differently.
pub proof fn lemma_symbol_injective(p: Piece, q: Piece)
    ensures
        symbol_of(p) == symbol_of(q) ==> p == q,
{
}

/// Reads the engine's text for a square: the piece it names, or `None` for
/// an empty square (or any text that names no piece).
pub fn piece_from_symbol(symbol: &str) -> (r: Option<Piece>)
    ensures
        match r {
            Some(p) => shows(symbol@, p),
            None => forall|p: Piece| !shows(symbol@, p),
        },
{
    if symbol.unicode_len() != 1 {
        return None;
    }
    let c = symbol.get_char(0);
    let code = c as u32;
    if code < 0x2654 || code > 0x265F {
        assert forall|p: Piece| !shows(symbol@, p) by {
            if shows(symbol@, p) {
                assert(symbol@[0] == symbol_of(p));
            }
        }
        return None;
    }
    let colour = if code >= 0x265A { Colour::White } else { Colour::Black };
    let offset = if code >= 0x265A { code - 0x265A } else { code - 0x2654 };
    let kind = match offset {
        0 => PieceKind::King,
        1 => PieceKind::Queen,
        2 => PieceKind::Rook,
        3 => PieceKind::Bishop,
        4 => PieceKind::Knight,
        _ => PieceKind::Pawn,
    };
    let p = Piece { colour, kind };
    assert(symbol@ =~= seq![symbol_of(p)]);
    Some(p)
}

/// Whether the square whose engine text is `symbol` holds a piece of the
/// side to move.
pub fn is_this_colors_turn(turn: Colour, symbol: &str) -> (r: bool)
    ensures
        r == exists|p: Piece| shows(symbol@, p) && p.colour == turn,
{
    match piece_from_symbol(symbol) {
        Some(p) => {
            assert forall|q: Piece| shows(symbol@, q) implies q == p by {
                assert(symbol@[0] == symbol_of(q));
                lemma_symbol_injective(p, q);
            }
            p.colour == turn
        },
        None => false,
    }
}

} // verus!
