use chess_relay::bitboard::{apply_move, bitboard_to_pieces, init_bitboard, Bitboard, MoveData, PieceKind, Side};

fn count(pieces: &[chess_relay::bitboard::PieceInfo], kind: PieceKind, side: Side) -> usize {
    pieces.iter().filter(|p| p.piece_type == kind && p.color == side).count()
}

fn check_invariant(b: &Bitboard) {
    let masks = [b.pawns, b.knights, b.bishops, b.rooks, b.queens, b.kings];
    for i in 0..6 {
        for j in (i + 1)..6 {
            assert_eq!(masks[i] & masks[j], 0);
        }
    }
    let all = masks.iter().fold(0u64, |acc, m| acc | m);
    assert_eq!(b.white_pieces, all & 0x0000_0000_0000_FFFF);
    assert_eq!(b.black_pieces, all & 0xFFFF_0000_0000_0000);
}

#[test]
fn fresh_board_has_thirty_two_pieces() {
    let pieces = bitboard_to_pieces(&init_bitboard());
    assert_eq!(pieces.len(), 32);
    for side in [Side::White, Side::Black] {
        assert_eq!(pieces.iter().filter(|p| p.color == side).count(), 16);
        assert_eq!(count(&pieces, PieceKind::Pawn, side), 8);
        assert_eq!(count(&pieces, PieceKind::Rook, side), 2);
        assert_eq!(count(&pieces, PieceKind::Knight, side), 2);
        assert_eq!(count(&pieces, PieceKind::Bishop, side), 2);
        assert_eq!(count(&pieces, PieceKind::Queen, side), 1);
        assert_eq!(count(&pieces, PieceKind::King, side), 1);
    }
}

#[test]
fn piece_list_is_in_ascending_square_order() {
    let pieces = bitboard_to_pieces(&init_bitboard());
    for w in pieces.windows(2) {
        assert!(w[0].position < w[1].position);
    }
    assert_eq!(pieces[0].position, 0);
    assert_eq!(pieces[0].piece_type, PieceKind::Rook);
    assert_eq!(pieces[4].piece_type, PieceKind::King);
    assert_eq!(pieces[3].piece_type, PieceKind::Queen);
    assert_eq!(pieces[31].position, 63);
    assert_eq!(pieces[31].color, Side::Black);
}

#[test]
fn fresh_board_masks() {
    let b = init_bitboard();
    assert_eq!(b.pawns, 0x00FF_0000_0000_FF00);
    assert_eq!(b.kings, 0x1000_0000_0000_0010);
    assert_eq!(b.white_pieces, 0x0000_0000_0000_FFFF);
    assert_eq!(b.black_pieces, 0xFFFF_0000_0000_0000);
    check_invariant(&b);
}

#[test]
fn move_from_empty_square_changes_nothing() {
    let mut b = init_bitboard();
    let before = b;
    assert!(!apply_move(&mut b, &MoveData { from: 30, to: 12 }));
    assert_eq!(b, before);
}

#[test]
fn pawn_advance_relocates_the_pawn() {
    let mut b = init_bitboard();
    assert!(apply_move(&mut b, &MoveData { from: 12, to: 28 }));
    assert_eq!(b.pawns & (1 << 12), 0);
    assert_ne!(b.pawns & (1 << 28), 0);
    // Square 28 lies outside both home halves, so neither side mask has it.
    assert_eq!(b.white_pieces & (1 << 28), 0);
    assert_eq!(b.white_pieces & (1 << 12), 0);
    // The piece list still has it, as white's.
    let pieces = bitboard_to_pieces(&b);
    assert_eq!(pieces.len(), 32);
    assert!(pieces.iter().all(|p| p.position != 12));
    let moved = pieces.iter().find(|p| p.position == 28).unwrap();
    assert_eq!(moved.piece_type, PieceKind::Pawn);
    assert_eq!(moved.color, Side::White);
    check_invariant(&b);
}

#[test]
fn capture_removes_the_target() {
    let mut b = init_bitboard();
    // White queen onto the black pawn on square 51.
    assert!(apply_move(&mut b, &MoveData { from: 3, to: 51 }));
    assert_ne!(b.queens & (1 << 51), 0);
    assert_eq!(b.pawns & (1 << 51), 0);
    assert_eq!(b.queens & (1 << 3), 0);
    assert_eq!(bitboard_to_pieces(&b).len(), 31);
    check_invariant(&b);
}

#[test]
fn move_onto_itself_keeps_the_piece() {
    let mut b = init_bitboard();
    assert!(apply_move(&mut b, &MoveData { from: 4, to: 4 }));
    assert_eq!(b, init_bitboard());
}

#[test]
fn invariant_holds_over_a_sequence_of_moves() {
    let mut b = init_bitboard();
    let moves = [(12, 28), (52, 36), (6, 21), (57, 42), (28, 36), (3, 59), (59, 60), (0, 63)];
    for (from, to) in moves {
        assert!(apply_move(&mut b, &MoveData { from, to }));
        check_invariant(&b);
    }
    assert!(!apply_move(&mut b, &MoveData { from: 12, to: 20 }));
    check_invariant(&b);
}

#[test]
fn owner_moves_with_the_piece() {
    let mut b = init_bitboard();
    assert!(apply_move(&mut b, &MoveData { from: 62, to: 45 }));
    assert!(apply_move(&mut b, &MoveData { from: 45, to: 11 }));
    let pieces = bitboard_to_pieces(&b);
    assert_eq!(pieces.len(), 31);
    let knight = pieces.iter().find(|p| p.position == 11).unwrap();
    assert_eq!(knight.piece_type, PieceKind::Knight);
    assert_eq!(knight.color, Side::Black);
    assert!(pieces.iter().all(|p| p.position != 45 && p.position != 62));
    check_invariant(&b);
}
