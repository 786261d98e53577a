use vstd::prelude::*;

verus! {

/// Squares 0..16, the white side's home half.
pub const WHITE_HALF: u64 = 0x0000_0000_0000_FFFF;

/// Squares 48..64, the black side's home half.
pub const BLACK_HALF: u64 = 0xFFFF_0000_0000_0000;

/// The six kinds of piece, in the order in which a square is searched.
#[derive(Clone, Copy, PartialEq, Eq, Structural, Debug)]
pub enum PieceKind {
    Pawn,
    Knight,
    Bishop,
    Rook,
    Queen,
    King,
}

/// A side of the board.
#[derive(Clone, Copy, PartialEq, Eq, Structural, Debug)]
pub enum Side {
    White,
    Black,
}

impl Side {
    pub open spec fn flipped(self) -> Side {
        match self {
            Side::White => Side::Black,
            Side::Black => Side::White,
        }
    }
}

/// One bit per square for each piece kind, the two side-occupancy masks, and
/// the squares whose piece belongs to white (an owner bit moves with its piece).
#[derive(Clone, Copy, PartialEq, Eq, Structural, Debug)]
pub struct Bitboard {
    pub pawns: u64,
    pub knights: u64,
    pub bishops: u64,
    pub rooks: u64,
    pub queens: u64,
    pub kings: u64,
    pub white_pieces: u64,
    pub black_pieces: u64,
    pub white_owned: u64,
}

/// One occupied square, as handed to clients.
#[derive(Clone, Copy, PartialEq, Eq, Structural, Debug)]
pub struct PieceInfo {
    pub piece_type: PieceKind,
    pub color: Side,
    pub position: usize,
}

/// A request to relocate whatever stands on `from` to `to`.
#[derive(Clone, Copy, PartialEq, Eq, Structural, Debug)]
pub struct MoveData {
    pub from: usize,
    pub to: usize,
}

/// Whether mask `m` has square `p` set.
pub open spec fn has(m: u64, p: u64) -> bool {
    m & (1u64 << p) != 0
}

impl Bitboard {
    pub open spec fn mask(self, k: PieceKind) -> u64 {
        match k {
            PieceKind::Pawn => self.pawns,
            PieceKind::Knight => self.knights,
            PieceKind::Bishop => self.bishops,
            PieceKind::Rook => self.rooks,
            PieceKind::Queen => self.queens,
            PieceKind::King => self.kings,
        }
    }

    /// Every square that holds a piece of any kind.
    pub open spec fn union(self) -> u64 {
        self.pawns | self.knights | self.bishops | self.rooks | self.queens | self.kings
    }

    /// No square is set in two piece-kind masks.
    pub open spec fn kinds_disjoint(self) -> bool {
        &&& self.pawns & self.knights == 0
        &&& self.pawns & self.bishops == 0
        &&& self.pawns & self.rooks == 0
        &&& self.pawns & self.queens == 0
        &&& self.pawns & self.kings == 0
        &&& self.knights & self.bishops == 0
        &&& self.knights & self.rooks == 0
        &&& self.knights & self.queens == 0
        &&& self.knights & self.kings == 0
        &&& self.bishops & self.rooks == 0
        &&& self.bishops & self.queens == 0
        &&& self.bishops & self.kings == 0
        &&& self.rooks & self.queens == 0
        &&& self.rooks & self.kings == 0
        &&& self.queens & self.kings == 0
    }

    /// The board's invariant: kinds are disjoint, and each side mask is the union
    /// of the kind masks restricted to that side's home half.
    pub open spec fn wf(self) -> bool {
        &&& self.kinds_disjoint()
        &&& self.white_pieces == self.union() & WHITE_HALF
        &&& self.black_pieces == self.union() & BLACK_HALF
    }

    /// The same kind masks, with both side masks recomputed from them.
    pub open spec fn with_occupancy(self) -> Bitboard {
        Bitboard {
            white_pieces: self.union() & WHITE_HALF,
            black_pieces: self.union() & BLACK_HALF,
            ..self
        }
    }
}

/// The first kind, in search order, whose mask has square `p`.
pub open spec fn kind_at(b: Bitboard, p: u64) -> Option<PieceKind> {
    if has(b.pawns, p) {
        Some(PieceKind::Pawn)
    } else if has(b.knights, p) {
        Some(PieceKind::Knight)
    } else if has(b.bishops, p) {
        Some(PieceKind::Bishop)
    } else if has(b.rooks, p) {
        Some(PieceKind::Rook)
    } else if has(b.queens, p) {
        Some(PieceKind::Queen)
    } else if has(b.kings, p) {
        Some(PieceKind::King)
    } else {
        None
    }
}

/// A kind mask after a piece of kind `mover` went from square `f` to square `t`.
pub open spec fn relocated(m: u64, kind: PieceKind, mover: PieceKind, f: u64, t: u64) -> u64 {
    if kind == mover {
        ((m & !(1u64 << f)) & !(1u64 << t)) | (1u64 << t)
    } else {
        m & !(1u64 << t)
    }
}

/// The owner mask after the piece on `f` moved to `t`: `t` is white's exactly
/// when the piece on `f` was.
pub open spec fn owner_moved(m: u64, f: u64, t: u64) -> u64 {
    let cleared = (m & !(1u64 << f)) & !(1u64 << t);
    if has(m, f) {
        cleared | (1u64 << t)
    } else {
        cleared
    }
}

/// The board after the piece of kind `k` on `f` moved to `t`, capturing whatever stood there.
pub open spec fn moved(b: Bitboard, k: PieceKind, f: u64, t: u64) -> Bitboard {
    Bitboard {
        pawns: relocated(b.pawns, PieceKind::Pawn, k, f, t),
        knights: relocated(b.knights, PieceKind::Knight, k, f, t),
        bishops: relocated(b.bishops, PieceKind::Bishop, k, f, t),
        rooks: relocated(b.rooks, PieceKind::Rook, k, f, t),
        queens: relocated(b.queens, PieceKind::Queen, k, f, t),
        kings: relocated(b.kings, PieceKind::King, k, f, t),
        white_owned: owner_moved(b.white_owned, f, t),
        ..b
    }.with_occupancy()
}

/// What a call of `apply_move` leaves: the moved board, or the same board where
/// `from` is empty.
pub open spec fn after_move(b: Bitboard, f: u64, t: u64) -> Bitboard {
    match kind_at(b, f) {
        Some(k) => moved(b, k, f, t),
        None => b,
    }
}

/// The owner of the piece on square `p`, read from the owner mask.
pub open spec fn owner_at(b: Bitboard, p: u64) -> Side {
    if has(b.white_owned, p) {
        Side::White
    } else {
        Side::Black
    }
}

/// The entry for square `p`, if a piece stands there.
pub open spec fn piece_on(b: Bitboard, p: u64) -> Option<PieceInfo> {
    match kind_at(b, p) {
        Some(k) => Some(PieceInfo { piece_type: k, color: owner_at(b, p), position: p as usize }),
        None => None,
    }
}

/// The entries for squares `0..n`, in ascending order.
pub open spec fn pieces_below(b: Bitboard, n: nat) -> Seq<PieceInfo>
    decreases n,
{
    if n == 0 {
        seq![]
    } else {
        let rest = pieces_below(b, (n - 1) as nat);
        match piece_on(b, (n - 1) as u64) {
            Some(pi) => rest.push(pi),
            None => rest,
        }
    }
}

/// The piece list of a board: one entry per occupied square, by ascending square.
pub open spec fn piece_list(b: Bitboard) -> Seq<PieceInfo> {
    pieces_below(b, 64)
}

/// The standard starting arrangement.
pub open spec fn initial_board() -> Bitboard {
    Bitboard {
        pawns: 0x00FF_0000_0000_FF00,
        knights: 0x4200_0000_0000_0042,
        bishops: 0x2400_0000_0000_0024,
        rooks: 0x8100_0000_0000_0081,
        queens: 0x0800_0000_0000_0008,
        kings: 0x1000_0000_0000_0010,
        white_pieces: 0x0000_0000_0000_FFFF,
        black_pieces: 0xFFFF_0000_0000_0000,
        white_owned: 0x0000_0000_0000_FFFF,
    }
}

proof fn lemma_clear_keeps_disjoint(a: u64, b: u64, tb: u64)
    requires
        a & b == 0,
    ensures
        (a & !tb) & (b & !tb) == 0,
{
    assert((a & !tb) & (b & !tb) == 0) by (bit_vector)
        requires
            a & b == 0,
    ;
}

proof fn lemma_move_keeps_disjoint(a: u64, b: u64, fb: u64, tb: u64)
    requires
        a & b == 0,
    ensures
        (((a & !fb) & !tb) | tb) & (b & !tb) == 0,
        (b & !tb) & (((a & !fb) & !tb) | tb) == 0,
{
    assert((((a & !fb) & !tb) | tb) & (b & !tb) == 0) by (bit_vector)
        requires
            a & b == 0,
    ;
    assert((b & !tb) & (((a & !fb) & !tb) | tb) == 0) by (bit_vector)
        requires
            a & b == 0,
    ;
}

proof fn lemma_relocated_disjoint(a: u64, ka: PieceKind, b: u64, kb: PieceKind, k: PieceKind, f: u64, t: u64)
    requires
        a & b == 0,
        ka != kb,
    ensures
        relocated(a, ka, k, f, t) & relocated(b, kb, k, f, t) == 0,
{
    if ka == k {
        lemma_move_keeps_disjoint(a, b, 1u64 << f, 1u64 << t);
    } else if kb == k {
        assert(b & a == 0) by (bit_vector)
            requires
                a & b == 0,
        ;
        lemma_move_keeps_disjoint(b, a, 1u64 << f, 1u64 << t);
    } else {
        lemma_clear_keeps_disjoint(a, b, 1u64 << t);
    }
}

/// A move keeps the board's invariant.
pub proof fn lemma_moved_wf(b: Bitboard, k: PieceKind, f: u64, t: u64)
    requires
        b.wf(),
    ensures
        moved(b, k, f, t).wf(),
{
    lemma_relocated_disjoint(b.pawns, PieceKind::Pawn, b.knights, PieceKind::Knight, k, f, t);
    lemma_relocated_disjoint(b.pawns, PieceKind::Pawn, b.bishops, PieceKind::Bishop, k, f, t);
    lemma_relocated_disjoint(b.pawns, PieceKind::Pawn, b.rooks, PieceKind::Rook, k, f, t);
    lemma_relocated_disjoint(b.pawns, PieceKind::Pawn, b.queens, PieceKind::Queen, k, f, t);
    lemma_relocated_disjoint(b.pawns, PieceKind::Pawn, b.kings, PieceKind::King, k, f, t);
    lemma_relocated_disjoint(b.knights, PieceKind::Knight, b.bishops, PieceKind::Bishop, k, f, t);
    lemma_relocated_disjoint(b.knights, PieceKind::Knight, b.rooks, PieceKind::Rook, k, f, t);
    lemma_relocated_disjoint(b.knights, PieceKind::Knight, b.queens, PieceKind::Queen, k, f, t);
    lemma_relocated_disjoint(b.knights, PieceKind::Knight, b.kings, PieceKind::King, k, f, t);
    lemma_relocated_disjoint(b.bishops, PieceKind::Bishop, b.rooks, PieceKind::Rook, k, f, t);
    lemma_relocated_disjoint(b.bishops, PieceKind::Bishop, b.queens, PieceKind::Queen, k, f, t);
    lemma_relocated_disjoint(b.bishops, PieceKind::Bishop, b.kings, PieceKind::King, k, f, t);
    lemma_relocated_disjoint(b.rooks, PieceKind::Rook, b.queens, PieceKind::Queen, k, f, t);
    lemma_relocated_disjoint(b.rooks, PieceKind::Rook, b.kings, PieceKind::King, k, f, t);
    lemma_relocated_disjoint(b.queens, PieceKind::Queen, b.kings, PieceKind::King, k, f, t);
}

/// The starting arrangement satisfies the board's invariant.
pub proof fn lemma_initial_wf()
    ensures
        initial_board().wf(),
{
    assert(0x00FF_0000_0000_FF00u64 & 0x4200_0000_0000_0042u64 == 0) by (bit_vector);
    assert(0x00FF_0000_0000_FF00u64 & 0x2400_0000_0000_0024u64 == 0) by (bit_vector);
    assert(0x00FF_0000_0000_FF00u64 & 0x8100_0000_0000_0081u64 == 0) by (bit_vector);
    assert(0x00FF_0000_0000_FF00u64 & 0x0800_0000_0000_0008u64 == 0) by (bit_vector);
    assert(0x00FF_0000_0000_FF00u64 & 0x1000_0000_0000_0010u64 == 0) by (bit_vector);
    assert(0x4200_0000_0000_0042u64 & 0x2400_0000_0000_0024u64 == 0) by (bit_vector);
    assert(0x4200_0000_0000_0042u64 & 0x8100_0000_0000_0081u64 == 0) by (bit_vector);
    assert(0x4200_0000_0000_0042u64 & 0x0800_0000_0000_0008u64 == 0) by (bit_vector);
    assert(0x4200_0000_0000_0042u64 & 0x1000_0000_0000_0010u64 == 0) by (bit_vector);
    assert(0x2400_0000_0000_0024u64 & 0x8100_0000_0000_0081u64 == 0) by (bit_vector);
    assert(0x2400_0000_0000_0024u64 & 0x0800_0000_0000_0008u64 == 0) by (bit_vector);
    assert(0x2400_0000_0000_0024u64 & 0x1000_0000_0000_0010u64 == 0) by (bit_vector);
    assert(0x8100_0000_0000_0081u64 & 0x0800_0000_0000_0008u64 == 0) by (bit_vector);
    assert(0x8100_0000_0000_0081u64 & 0x1000_0000_0000_0010u64 == 0) by (bit_vector);
    assert(0x0800_0000_0000_0008u64 & 0x1000_0000_0000_0010u64 == 0) by (bit_vector);
    assert((0x00FF_0000_0000_FF00u64 | 0x4200_0000_0000_0042u64 | 0x2400_0000_0000_0024u64
        | 0x8100_0000_0000_0081u64 | 0x0800_0000_0000_0008u64 | 0x1000_0000_0000_0010u64)
        & 0x0000_0000_0000_FFFFu64 == 0x0000_0000_0000_FFFFu64) by (bit_vector);
    assert((0x00FF_0000_0000_FF00u64 | 0x4200_0000_0000_0042u64 | 0x2400_0000_0000_0024u64
        | 0x8100_0000_0000_0081u64 | 0x0800_0000_0000_0008u64 | 0x1000_0000_0000_0010u64)
        & 0xFFFF_0000_0000_0000u64 == 0xFFFF_0000_0000_0000u64) by (bit_vector);
}

/// A board in the standard starting arrangement.
pub fn init_bitboard() -> (r: Bitboard)
    ensures
        r == initial_board(),
        r.wf(),
{
    proof {
        lemma_initial_wf();
    }
    let mut bitboard = Bitboard {
        pawns: 0,
        knights: 0,
        bishops: 0,
        rooks: 0,
        queens: 0,
        kings: 0,
        white_pieces: 0,
        black_pieces: 0,
        white_owned: 0,
    };
    bitboard.pawns = 0x0000_0000_0000_FF00 | 0x00FF_0000_0000_0000;
    bitboard.rooks = 0x0000_0000_0000_0081 | 0x8100_0000_0000_0000;
    bitboard.knights = 0x0000_0000_0000_0042 | 0x4200_0000_0000_0000;
    bitboard.bishops = 0x0000_0000_0000_0024 | 0x2400_0000_0000_0000;
    bitboard.queens = 0x0000_0000_0000_0008 | 0x0800_0000_0000_0000;
    bitboard.kings = 0x0000_0000_0000_0010 | 0x1000_0000_0000_0000;
    bitboard.white_pieces = WHITE_HALF;
    bitboard.black_pieces = BLACK_HALF;
    bitboard.white_owned = WHITE_HALF;
    assert(0x0000_0000_0000_FF00u64 | 0x00FF_0000_0000_0000u64 == 0x00FF_0000_0000_FF00u64)
        by (bit_vector);
    assert(0x0000_0000_0000_0081u64 | 0x8100_0000_0000_0000u64 == 0x8100_0000_0000_0081u64)
        by (bit_vector);
    assert(0x0000_0000_0000_0042u64 | 0x4200_0000_0000_0000u64 == 0x4200_0000_0000_0042u64)
        by (bit_vector);
    assert(0x0000_0000_0000_0024u64 | 0x2400_0000_0000_0000u64 == 0x2400_0000_0000_0024u64)
        by (bit_vector);
    assert(0x0000_0000_0000_0008u64 | 0x0800_0000_0000_0000u64 == 0x0800_0000_0000_0008u64)
        by (bit_vector);
    assert(0x0000_0000_0000_0010u64 | 0x1000_0000_0000_0000u64 == 0x1000_0000_0000_0010u64)
        by (bit_vector);
    bitboard
}

/// The kind of the piece on square `p`, searched in kind order.
fn kind_on(bitboard: &Bitboard, p: u64) -> (r: Option<PieceKind>)
    requires
        p < 64,
    ensures
        r == kind_at(*bitboard, p),
{
    let sq = 1u64 << p;
    if bitboard.pawns & sq != 0 {
        Some(PieceKind::Pawn)
    } else if bitboard.knights & sq != 0 {
        Some(PieceKind::Knight)
    } else if bitboard.bishops & sq != 0 {
        Some(PieceKind::Bishop)
    } else if bitboard.rooks & sq != 0 {
        Some(PieceKind::Rook)
    } else if bitboard.queens & sq != 0 {
        Some(PieceKind::Queen)
    } else if bitboard.kings & sq != 0 {
        Some(PieceKind::King)
    } else {
        None
    }
}

/// Relocates the piece on `move_data.from` to `move_data.to`, removing whatever
/// stood on the destination, carries the piece's owner bit along, and recomputes
/// both side masks. No legality check is made. Returns `false`, with the board
/// untouched, when `from` is empty.
pub fn apply_move(bitboard: &mut Bitboard, move_data: &MoveData) -> (r: bool)
    requires
        move_data.from < 64,
        move_data.to < 64,
    ensures
        r == kind_at(*old(bitboard), move_data.from as u64).is_some(),
        *final(bitboard) == after_move(*old(bitboard), move_data.from as u64, move_data.to as u64),
        !r ==> *final(bitboard) == *old(bitboard),
        old(bitboard).wf() ==> final(bitboard).wf(),
{
    let f = move_data.from as u64;
    let t = move_data.to as u64;
    let from_bb = 1u64 << f;
    let to_bb = 1u64 << t;
    let piece_type_moving = kind_on(bitboard, f);
    match piece_type_moving {
        Some(piece_type) => {
            match piece_type {
                PieceKind::Pawn => bitboard.pawns = bitboard.pawns & !from_bb,
                PieceKind::Knight => bitboard.knights = bitboard.knights & !from_bb,
                PieceKind::Bishop => bitboard.bishops = bitboard.bishops & !from_bb,
                PieceKind::Rook => bitboard.rooks = bitboard.rooks & !from_bb,
                PieceKind::Queen => bitboard.queens = bitboard.queens & !from_bb,
                PieceKind::King => bitboard.kings = bitboard.kings & !from_bb,
            }
            bitboard.pawns = bitboard.pawns & !to_bb;
            bitboard.knights = bitboard.knights & !to_bb;
            bitboard.bishops = bitboard.bishops & !to_bb;
            bitboard.rooks = bitboard.rooks & !to_bb;
            bitboard.queens = bitboard.queens & !to_bb;
            bitboard.kings = bitboard.kings & !to_bb;
            match piece_type {
                PieceKind::Pawn => bitboard.pawns = bitboard.pawns | to_bb,
                PieceKind::Knight => bitboard.knights = bitboard.knights | to_bb,
                PieceKind::Bishop => bitboard.bishops = bitboard.bishops | to_bb,
                PieceKind::Rook => bitboard.rooks = bitboard.rooks | to_bb,
                PieceKind::Queen => bitboard.queens = bitboard.queens | to_bb,
                PieceKind::King => bitboard.kings = bitboard.kings | to_bb,
            }
            let mover_white = bitboard.white_owned & from_bb != 0;
            bitboard.white_owned = (bitboard.white_owned & !from_bb) & !to_bb;
            if mover_white {
                bitboard.white_owned = bitboard.white_owned | to_bb;
            }
            update_occupancy(bitboard);
            proof {
                if old(bitboard).wf() {
                    lemma_moved_wf(*old(bitboard), piece_type, f, t);
                }
            }
            true
        },
        None => false,
    }
}

/// Sets each side mask to the union of the kind masks restricted to its home half.
fn update_occupancy(bitboard: &mut Bitboard)
    ensures
        *final(bitboard) == old(bitboard).with_occupancy(),
{
    let all = bitboard.pawns | bitboard.knights | bitboard.bishops | bitboard.rooks
        | bitboard.queens | bitboard.kings;
    bitboard.white_pieces = all & WHITE_HALF;
    bitboard.black_pieces = all & BLACK_HALF;
}

/// One entry per occupied square, by ascending square, with the owner that the
/// owner mask records.
pub fn bitboard_to_pieces(bitboard: &Bitboard) -> (r: Vec<PieceInfo>)
    ensures
        r@ == piece_list(*bitboard),
{
    let mut pieces: Vec<PieceInfo> = Vec::new();
    let mut position: u64 = 0;
    while position < 64
        invariant
            position <= 64,
            pieces@ == pieces_below(*bitboard, position as nat),
        decreases 64 - position,
    {
        let bb = 1u64 << position;
        let piece_type = kind_on(bitboard, position);
        match piece_type {
            Some(pt) => {
                let color = if bitboard.white_owned & bb != 0 {
                    Side::White
                } else {
                    Side::Black
                };
                pieces.push(PieceInfo { piece_type: pt, color, position: position as usize });
            },
            None => {},
        }
        position = position + 1;
    }
    pieces
}

} // verus!
