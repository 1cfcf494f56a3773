use vstd::prelude::*;

use crate::bitboard::Bitboard;
use crate::errors::BoardError;
use crate::loc::Loc;

verus! {

/// All the different types of chess pieces.
#[derive(Debug, Clone, Copy, PartialEq, Eq, Structural)]
pub enum PieceKind {
    Pawn,
    Knight,
    Bishop,
    Rook,
    Queen,
    King,
}

/// A complete description of a chess piece: its kind and whether it is
/// white.
#[derive(Debug, Clone, Copy, PartialEq, Eq, Structural)]
pub struct Piece {
    pub kind: PieceKind,
    pub white: bool,
}

/// A complete information on piece placement.
///
/// This structure encapsulates positioning of every piece on the chessboard,
/// but does not keep all information regarding state of the game, such as
/// active colour or potential en passant. It holds one mask per color and
/// one per piece kind; the builder ORs bits in without validation, so the
/// one-color/one-kind invariants are assumed by the query API and violations
/// are reported as corruption when a square is read through `at`.
#[derive(Debug, Clone, Copy, PartialEq, Eq, Structural)]
pub struct Board {
    black: Bitboard,
    white: Bitboard,
    pawns: Bitboard,
    knights: Bitboard,
    bishops: Bitboard,
    rooks: Bitboard,
    queens: Bitboard,
    kings: Bitboard,
}

/// A builder for `Board` structs: a mutable accumulator that stamps out
/// immutable board snapshots.
#[derive(Debug)]
pub struct BoardBuilder {
    board: Board,
}

impl Board {
    /// The mask of all squares holding a piece of the given color.
    pub closed spec fn spec_color_mask(self, white: bool) -> Bitboard {
        if white {
            self.white
        } else {
            self.black
        }
    }

    /// The mask of all squares holding a piece of the given kind.
    pub closed spec fn spec_kind_mask(self, kind: PieceKind) -> Bitboard {
        match kind {
            PieceKind::Pawn => self.pawns,
            PieceKind::Knight => self.knights,
            PieceKind::Bishop => self.bishops,
            PieceKind::Rook => self.rooks,
            PieceKind::Queen => self.queens,
            PieceKind::King => self.kings,
        }
    }

    /// The first piece kind whose mask holds square `i`, scanning in the
    /// fixed order pawn, knight, bishop, rook, queen, king; `None` when no
    /// kind mask holds the square.
    pub open spec fn kind_at(self, i: int) -> Option<PieceKind> {
        if self.spec_kind_mask(PieceKind::Pawn).has(i) {
            Some(PieceKind::Pawn)
        } else if self.spec_kind_mask(PieceKind::Knight).has(i) {
            Some(PieceKind::Knight)
        } else if self.spec_kind_mask(PieceKind::Bishop).has(i) {
            Some(PieceKind::Bishop)
        } else if self.spec_kind_mask(PieceKind::Rook).has(i) {
            Some(PieceKind::Rook)
        } else if self.spec_kind_mask(PieceKind::Queen).has(i) {
            Some(PieceKind::Queen)
        } else if self.spec_kind_mask(PieceKind::King).has(i) {
            Some(PieceKind::King)
        } else {
            None
        }
    }

    /// Starts a `Board` build process and yields a `BoardBuilder` whose
    /// masks are all empty.
    pub fn builder() -> (r: BoardBuilder)
        ensures
            forall|k: PieceKind| #[trigger] r.spec_board().spec_kind_mask(k)@ == 0,
            forall|c: bool| #[trigger] r.spec_board().spec_color_mask(c)@ == 0,
            forall|k: PieceKind, i: int| !(#[trigger] r.spec_board().spec_kind_mask(k).has(i)),
            forall|c: bool, i: int| !(#[trigger] r.spec_board().spec_color_mask(c).has(i)),
    {
        let r = BoardBuilder::default();
        proof {
            assert forall|k: PieceKind, i: int|
                !(#[trigger] r.spec_board().spec_kind_mask(k).has(i)) by {
                crate::bitboard::lemma_empty_bit(i);
            }
            assert forall|c: bool, i: int|
                !(#[trigger] r.spec_board().spec_color_mask(c).has(i)) by {
                crate::bitboard::lemma_empty_bit(i);
            }
        }
        r
    }

    /// Returns the mask of all squares holding a piece of the given kind,
    /// of either color.
    pub fn kind_mask(&self, kind: PieceKind) -> (r: Bitboard)
        ensures
            r == self.spec_kind_mask(kind),
    {
        match kind {
            PieceKind::Pawn => self.pawns,
            PieceKind::Knight => self.knights,
            PieceKind::Bishop => self.bishops,
            PieceKind::Rook => self.rooks,
            PieceKind::Queen => self.queens,
            PieceKind::King => self.kings,
        }
    }

    /// Returns the mask of all squares holding a piece of the given color,
    /// of any kind.
    pub fn color_mask(&self, white: bool) -> (r: Bitboard)
        ensures
            r == self.spec_color_mask(white),
    {
        if white {
            self.white
        } else {
            self.black
        }
    }

    /// Returns the piece (if any) located at a given square.
    ///
    /// An empty square is the ordinary `Ok(None)` result. A square whose
    /// bits violate the board invariants is reported as a corruption error:
    /// "two colors" when both color masks hold the square, and "color with
    /// no piece" when a color mask holds it but no kind mask does.
    pub fn at(&self, loc: &Loc) -> (r: Result<Option<Piece>, BoardError>)
        ensures
            ({
                let w = self.spec_color_mask(true).has(loc@);
                let b = self.spec_color_mask(false).has(loc@);
                &&& (!w && !b) ==> r == Ok::<Option<Piece>, BoardError>(None)
                &&& (w && b) ==> (r matches Err(BoardError::BoardCorruption(m)) && m@
                    == "two colors"@)
                &&& (w != b) ==> match self.kind_at(loc@) {
                    Some(k) => r == Ok::<Option<Piece>, BoardError>(
                        Some((Piece { kind: k, white: w })),
                    ),
                    None => (r matches Err(BoardError::BoardCorruption(m)) && m@
                        == "color with no piece"@),
                }
            }),
    {
        let w = self.white.at(*loc);
        let b = self.black.at(*loc);
        if !w && !b {
            return Ok(None);
        }
        if w && b {
            return Err(BoardError::board_corruption("two colors"));
        }
        let kind = if self.pawns.at(*loc) {
            Some(PieceKind::Pawn)
        } else if self.knights.at(*loc) {
            Some(PieceKind::Knight)
        } else if self.bishops.at(*loc) {
            Some(PieceKind::Bishop)
        } else if self.rooks.at(*loc) {
            Some(PieceKind::Rook)
        } else if self.queens.at(*loc) {
            Some(PieceKind::Queen)
        } else if self.kings.at(*loc) {
            Some(PieceKind::King)
        } else {
            None
        };
        match kind {
            Some(kind) => Ok(Some(Piece { kind, white: w })),
            None => Err(BoardError::board_corruption("color with no piece")),
        }
    }

    /// Returns the squares holding exactly the given kind and color of
    /// piece: the intersection of the matching kind mask and color mask.
    pub fn pieces(&self, pattern: &Piece) -> (r: Bitboard)
        ensures
            r@ == (self.spec_kind_mask(pattern.kind)@ & self.spec_color_mask(pattern.white)@),
            forall|i: int| #[trigger]
                r.has(i) <==> (self.spec_kind_mask(pattern.kind).has(i)
                    && self.spec_color_mask(pattern.white).has(i)),
    {
        self.kind_mask(pattern.kind).intersect(self.color_mask(pattern.white))
    }
}

impl Default for Board {
    /// The empty board: every mask is the empty square set.
    fn default() -> (r: Self)
        ensures
            forall|k: PieceKind| #[trigger] r.spec_kind_mask(k)@ == 0,
            forall|c: bool| #[trigger] r.spec_color_mask(c)@ == 0,
    {
        Board {
            black: Bitboard::from_u64(0),
            white: Bitboard::from_u64(0),
            pawns: Bitboard::from_u64(0),
            knights: Bitboard::from_u64(0),
            bishops: Bitboard::from_u64(0),
            rooks: Bitboard::from_u64(0),
            queens: Bitboard::from_u64(0),
            kings: Bitboard::from_u64(0),
        }
    }
}

impl BoardBuilder {
    /// The board accumulated so far.
    pub closed spec fn spec_board(self) -> Board {
        self.board
    }

    /// Places a piece on the board under construction: the bit for `loc` is
    /// set in the kind mask matching `piece.kind` and in the color mask
    /// matching `piece.white`, and every other mask is left unchanged.
    ///
    /// No validation is done: placing two pieces on the same square is
    /// accepted silently, and shows up later as a corruption error when the
    /// square is queried through `Board::at`.
    pub fn add_piece(self, piece: &Piece, loc: &Loc) -> (r: Self)
        ensures
            r.spec_board().spec_kind_mask(piece.kind)@ == (self.spec_board().spec_kind_mask(
                piece.kind,
            )@ | (1u64 << (loc@ as u64))),
            r.spec_board().spec_color_mask(piece.white)@ == (self.spec_board().spec_color_mask(
                piece.white,
            )@ | (1u64 << (loc@ as u64))),
            forall|i: int| #[trigger]
                r.spec_board().spec_kind_mask(piece.kind).has(i) <==> (self.spec_board()
                    .spec_kind_mask(piece.kind)
                    .has(i) || i == loc@),
            forall|i: int| #[trigger]
                r.spec_board().spec_color_mask(piece.white).has(i) <==> (self.spec_board()
                    .spec_color_mask(piece.white)
                    .has(i) || i == loc@),
            forall|k: PieceKind|
                k != piece.kind ==> #[trigger] r.spec_board().spec_kind_mask(k)
                    == self.spec_board().spec_kind_mask(k),
            r.spec_board().spec_color_mask(!piece.white) == self.spec_board().spec_color_mask(
                !piece.white,
            ),
    {
        let new = Bitboard::from_single(*loc);
        let mut board = self.board;
        match piece.kind {
            PieceKind::Pawn => board.pawns = board.pawns.union(new),
            PieceKind::Knight => board.knights = board.knights.union(new),
            PieceKind::Bishop => board.bishops = board.bishops.union(new),
            PieceKind::Rook => board.rooks = board.rooks.union(new),
            PieceKind::Queen => board.queens = board.queens.union(new),
            PieceKind::King => board.kings = board.kings.union(new),
        }
        if piece.white {
            board.white = board.white.union(new);
        } else {
            board.black = board.black.union(new);
        }
        BoardBuilder { board }
    }

    /// Completes the build process and yields a `Board` snapshot of the
    /// state accumulated so far.
    ///
    /// The builder keeps its state, so the same builder may be used several
    /// times to create identical, independently owned boards.
    pub fn build(&self) -> (r: Board)
        ensures
            r == self.spec_board(),
    {
        self.board
    }
}

impl Default for BoardBuilder {
    /// A builder starting from the all-empty board.
    fn default() -> (r: Self)
        ensures
            forall|k: PieceKind| #[trigger] r.spec_board().spec_kind_mask(k)@ == 0,
            forall|c: bool| #[trigger] r.spec_board().spec_color_mask(c)@ == 0,
    {
        BoardBuilder { board: Board::default() }
    }
}

} // verus!
