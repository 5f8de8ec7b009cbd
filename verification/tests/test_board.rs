use rusty_board::board::Board;
use rusty_board::board::CastlingRights;
use rusty_board::board::MoveError;
use rusty_board::moves::Move;
use rusty_board::piece::Piece;
use rusty_board::piece::PieceKind;
use rusty_board::square::Color;
use rusty_board::square::File;
use rusty_board::square::Rank;
use rusty_board::square::Square;

fn sq(file: File, rank: Rank) -> Square {
    Square::from_file_and_rank(file, rank)
}

#[test]
fn test_board_test_board() {
    let mut b = Board::new();
    for i in 0u32..64 {
        let s = Square::from_int(i);
        if let Some(p) = b.get_piece(s) {
            println!("{:} {:?}", s.name(), p);
        }
    }
    let white_pawn = Piece::new(PieceKind::Pawn, Color::White);
    let e2 = sq(File::E, Rank::Second);
    let e4 = sq(File::E, Rank::Fourth);
    let m = Move::new(white_pawn, e2, e4, None, None, false, false);
    assert_eq!(b.do_move_inplace(m), Ok(()));
    assert_eq!(b.get_piece(e4), Some(white_pawn));
    let e3 = sq(File::E, Rank::Third);
    assert_eq!(b.get_en_passant_square(), Some(e3));
}

#[test]
fn standard_position_back_rank() {
    // Position number 518 is the standard game: R N B Q K B N R.
    let b = Board::new_chess960(518);
    let expected = [
        PieceKind::Rook,
        PieceKind::Knight,
        PieceKind::Bishop,
        PieceKind::Queen,
        PieceKind::King,
        PieceKind::Bishop,
        PieceKind::Knight,
        PieceKind::Rook,
    ];
    for f in 0u32..8 {
        let white = b.get_piece(Square::from_int(f)).unwrap();
        assert_eq!(white.get_kind(), expected[f as usize]);
        assert_eq!(white.get_color(), Color::White);
        let black = b.get_piece(Square::from_int(56 + f)).unwrap();
        assert_eq!(black.get_kind(), expected[f as usize]);
        assert_eq!(black.get_color(), Color::Black);
        let wp = b.get_piece(Square::from_int(8 + f)).unwrap();
        assert_eq!(wp.get_kind(), PieceKind::Pawn);
        let bp = b.get_piece(Square::from_int(48 + f)).unwrap();
        assert_eq!(bp.get_kind(), PieceKind::Pawn);
    }
    assert_eq!(b.get_side_to_move(), Color::White);
    assert_eq!(b.get_en_passant_square(), None);
    assert_eq!(b.get_initial_king_file(), File::E);
    assert_eq!(b.get_initial_queenside_rook_file(), File::A);
    assert_eq!(b.get_initial_kingside_rook_file(), File::H);
    assert_eq!(Board::new(), b);
}

#[test]
fn chess960_all_positions_valid() {
    // Every starting position puts exactly one king strictly between the
    // two rooks, and the two bishops on opposite-colored squares.
    for n in 0u32..960 {
        let b = Board::new_chess960(n);
        let mut king_file: Option<u32> = None;
        let mut rook_files: Vec<u32> = Vec::new();
        let mut bishop_files: Vec<u32> = Vec::new();
        for f in 0u32..8 {
            let p = b.get_piece(Square::from_int(f)).unwrap();
            assert_eq!(p.get_color(), Color::White);
            // The black home rank mirrors the white one.
            let bp = b.get_piece(Square::from_int(56 + f)).unwrap();
            assert_eq!(bp.get_kind(), p.get_kind());
            assert_eq!(bp.get_color(), Color::Black);
            match p.get_kind() {
                PieceKind::King => {
                    assert!(king_file.is_none());
                    king_file = Some(f);
                }
                PieceKind::Rook => rook_files.push(f),
                PieceKind::Bishop => bishop_files.push(f),
                _ => {}
            }
        }
        let k = king_file.unwrap();
        assert_eq!(rook_files.len(), 2);
        assert!(rook_files[0] < k && k < rook_files[1]);
        assert_eq!(bishop_files.len(), 2);
        assert_eq!((bishop_files[0] + bishop_files[1]) % 2, 1);
    }
}

#[test]
fn chess960_numbers_repeat_modulo_960() {
    for n in 0u32..960 {
        assert_eq!(Board::new_chess960(n), Board::new_chess960(n + 960));
    }
    assert_eq!(Board::new_chess960(518), Board::new_chess960(518 + 2 * 960));
}

#[test]
fn double_push_sets_and_other_moves_clear_en_passant() {
    let mut b = Board::new();
    let white_pawn = Piece::new(PieceKind::Pawn, Color::White);
    let m = Move::new(white_pawn, sq(File::E, Rank::Second), sq(File::E, Rank::Fourth), None,
        None, false, false);
    assert_eq!(b.do_move_inplace(m), Ok(()));
    assert_eq!(b.get_en_passant_square(), Some(sq(File::E, Rank::Third)));
    // A knight move clears the previously set target.
    let black_knight = Piece::new(PieceKind::Knight, Color::Black);
    let m2 = Move::new(black_knight, sq(File::G, Rank::Eighth), sq(File::F, Rank::Sixth), None,
        None, false, false);
    assert_eq!(b.do_move_inplace(m2), Ok(()));
    assert_eq!(b.get_en_passant_square(), None);
    // A single pawn step does not set one either.
    let m3 = Move::new(white_pawn, sq(File::D, Rank::Second), sq(File::D, Rank::Third), None,
        None, false, false);
    assert_eq!(b.do_move_inplace(m3), Ok(()));
    assert_eq!(b.get_en_passant_square(), None);
}

#[test]
fn en_passant_capture_applies_and_undoes() {
    let mut b = Board::new();
    let wp = Piece::new(PieceKind::Pawn, Color::White);
    let bp = Piece::new(PieceKind::Pawn, Color::Black);
    // 1. e4 a6 2. e5 d5 — now e5xd6 en passant is available.
    assert_eq!(b.do_move_inplace(Move::new(wp, sq(File::E, Rank::Second),
        sq(File::E, Rank::Fourth), None, None, false, false)), Ok(()));
    assert_eq!(b.do_move_inplace(Move::new(bp, sq(File::A, Rank::Seventh),
        sq(File::A, Rank::Sixth), None, None, false, false)), Ok(()));
    assert_eq!(b.do_move_inplace(Move::new(wp, sq(File::E, Rank::Fourth),
        sq(File::E, Rank::Fifth), None, None, false, false)), Ok(()));
    assert_eq!(b.do_move_inplace(Move::new(bp, sq(File::D, Rank::Seventh),
        sq(File::D, Rank::Fifth), None, None, false, false)), Ok(()));
    assert_eq!(b.get_en_passant_square(), Some(sq(File::D, Rank::Sixth)));
    let before = b.clone();
    let ep = Move::new(wp, sq(File::E, Rank::Fifth), sq(File::D, Rank::Sixth), Some(bp), None,
        true, false);
    assert_eq!(b.do_move_inplace(ep), Ok(()));
    assert_eq!(b.get_piece(sq(File::D, Rank::Sixth)), Some(wp));
    assert_eq!(b.get_piece(sq(File::D, Rank::Fifth)), None);
    assert_eq!(b.get_piece(sq(File::E, Rank::Fifth)), None);
    assert_eq!(b.undo_move_inplace(), Ok(()));
    assert_eq!(b, before);
}

#[test]
fn promotion_applies_and_undoes() {
    // Walk a white pawn to h7, then promote by capturing the g8 knight.
    let mut b = Board::new();
    let wp = Piece::new(PieceKind::Pawn, Color::White);
    let bp = Piece::new(PieceKind::Pawn, Color::Black);
    assert_eq!(b.do_move_inplace(Move::new(wp, sq(File::H, Rank::Second),
        sq(File::H, Rank::Fourth), None, None, false, false)), Ok(()));
    assert_eq!(b.do_move_inplace(Move::new(bp, sq(File::G, Rank::Seventh),
        sq(File::G, Rank::Fifth), None, None, false, false)), Ok(()));
    assert_eq!(b.do_move_inplace(Move::new(wp, sq(File::H, Rank::Fourth),
        sq(File::G, Rank::Fifth), Some(bp), None, false, false)), Ok(()));
    assert_eq!(b.do_move_inplace(Move::new(bp, sq(File::H, Rank::Seventh),
        sq(File::H, Rank::Sixth), None, None, false, false)), Ok(()));
    assert_eq!(b.do_move_inplace(Move::new(wp, sq(File::G, Rank::Fifth),
        sq(File::H, Rank::Sixth), Some(bp), None, false, false)), Ok(()));
    assert_eq!(b.do_move_inplace(Move::new(bp, sq(File::D, Rank::Seventh),
        sq(File::D, Rank::Sixth), None, None, false, false)), Ok(()));
    assert_eq!(b.do_move_inplace(Move::new(wp, sq(File::H, Rank::Sixth),
        sq(File::H, Rank::Seventh), None, None, false, false)), Ok(()));
    assert_eq!(b.do_move_inplace(Move::new(bp, sq(File::D, Rank::Sixth),
        sq(File::D, Rank::Fifth), None, None, false, false)), Ok(()));
    let before = b.clone();
    let bn = Piece::new(PieceKind::Knight, Color::Black);
    let promo = Move::new(wp, sq(File::H, Rank::Seventh), sq(File::G, Rank::Eighth), Some(bn),
        Some(PieceKind::Queen), false, false);
    assert_eq!(b.do_move_inplace(promo), Ok(()));
    assert_eq!(b.get_piece(sq(File::G, Rank::Eighth)),
        Some(Piece::new(PieceKind::Queen, Color::White)));
    assert_eq!(b.get_piece(sq(File::H, Rank::Seventh)), None);
    assert_eq!(b.undo_move_inplace(), Ok(()));
    assert_eq!(b, before);
}

#[test]
fn kingside_castling_applies_and_undoes() {
    // 1. Nf3 g6 2. e4 Bg7 3. Be2 Nf6 — then White castles kingside.
    let mut b = Board::new();
    let wn = Piece::new(PieceKind::Knight, Color::White);
    let wp = Piece::new(PieceKind::Pawn, Color::White);
    let wb = Piece::new(PieceKind::Bishop, Color::White);
    let wk = Piece::new(PieceKind::King, Color::White);
    let bp = Piece::new(PieceKind::Pawn, Color::Black);
    let bb = Piece::new(PieceKind::Bishop, Color::Black);
    let bn = Piece::new(PieceKind::Knight, Color::Black);
    assert_eq!(b.do_move_inplace(Move::new(wn, sq(File::G, Rank::First),
        sq(File::F, Rank::Third), None, None, false, false)), Ok(()));
    assert_eq!(b.do_move_inplace(Move::new(bp, sq(File::G, Rank::Seventh),
        sq(File::G, Rank::Sixth), None, None, false, false)), Ok(()));
    assert_eq!(b.do_move_inplace(Move::new(wp, sq(File::E, Rank::Second),
        sq(File::E, Rank::Fourth), None, None, false, false)), Ok(()));
    assert_eq!(b.do_move_inplace(Move::new(bb, sq(File::F, Rank::Eighth),
        sq(File::G, Rank::Seventh), None, None, false, false)), Ok(()));
    assert_eq!(b.do_move_inplace(Move::new(wb, sq(File::F, Rank::First),
        sq(File::E, Rank::Second), None, None, false, false)), Ok(()));
    assert_eq!(b.do_move_inplace(Move::new(bn, sq(File::G, Rank::Eighth),
        sq(File::F, Rank::Sixth), None, None, false, false)), Ok(()));
    assert!(b.get_castling_right(CastlingRights::WhiteKingside));
    let before = b.clone();
    let castle = Move::new(wk, sq(File::E, Rank::First), sq(File::G, Rank::First), None, None,
        false, true);
    assert_eq!(b.do_move_inplace(castle), Ok(()));
    assert_eq!(b.get_piece(sq(File::G, Rank::First)), Some(wk));
    assert_eq!(b.get_piece(sq(File::F, Rank::First)),
        Some(Piece::new(PieceKind::Rook, Color::White)));
    assert_eq!(b.get_piece(sq(File::E, Rank::First)), None);
    assert_eq!(b.get_piece(sq(File::H, Rank::First)), None);
    assert_eq!(b.get_king_square(Color::White), sq(File::G, Rank::First));
    assert!(!b.get_castling_right(CastlingRights::WhiteKingside));
    assert!(!b.get_castling_right(CastlingRights::WhiteQueenside));
    assert!(b.get_castling_right(CastlingRights::BlackKingside));
    assert_eq!(b.undo_move_inplace(), Ok(()));
    assert_eq!(b, before);
}

#[test]
fn wrong_mover_is_rejected() {
    let mut b = Board::new();
    let white_pawn = Piece::new(PieceKind::Pawn, Color::White);
    // e3 is empty, so no pawn can move from it.
    let m = Move::new(white_pawn, sq(File::E, Rank::Third), sq(File::E, Rank::Fourth), None,
        None, false, false);
    let before = b.clone();
    assert_eq!(b.do_move_inplace(m), Err(MoveError::WrongMover));
    assert_eq!(b, before);
    // e2 holds a pawn, not a queen.
    let white_queen = Piece::new(PieceKind::Queen, Color::White);
    let m2 = Move::new(white_queen, sq(File::E, Rank::Second), sq(File::E, Rank::Fourth), None,
        None, false, false);
    assert_eq!(b.do_move_inplace(m2), Err(MoveError::WrongMover));
    assert_eq!(b, before);
}

#[test]
fn wrong_capture_is_rejected() {
    let mut b = Board::new();
    let white_pawn = Piece::new(PieceKind::Pawn, Color::White);
    let black_pawn = Piece::new(PieceKind::Pawn, Color::Black);
    // e3 is empty: declaring a capture there does not match the board.
    let m = Move::new(white_pawn, sq(File::E, Rank::Second), sq(File::E, Rank::Third),
        Some(black_pawn), None, false, false);
    let before = b.clone();
    assert_eq!(b.do_move_inplace(m), Err(MoveError::WrongCapture));
    assert_eq!(b, before);
}

#[test]
fn nothing_to_undo_is_reported() {
    let mut b = Board::new();
    assert_eq!(b.undo_move_inplace(), Err(MoveError::NothingToUndo));
    assert!(b.undo_move().is_err());
}

#[test]
fn do_move_returns_new_board_and_leaves_original() {
    let b = Board::new();
    let white_pawn = Piece::new(PieceKind::Pawn, Color::White);
    let m = Move::new(white_pawn, sq(File::E, Rank::Second), sq(File::E, Rank::Fourth), None,
        None, false, false);
    let b2 = b.do_move(m).unwrap();
    assert_eq!(b.get_piece(sq(File::E, Rank::Second)), Some(white_pawn));
    assert_eq!(b2.get_piece(sq(File::E, Rank::Second)), None);
    assert_eq!(b2.get_piece(sq(File::E, Rank::Fourth)), Some(white_pawn));
    let b3 = b2.undo_move().unwrap();
    assert_eq!(b3, b);
}

#[test]
fn halfmove_and_fullmove_counters() {
    let mut b = Board::new();
    let wn = Piece::new(PieceKind::Knight, Color::White);
    let bn = Piece::new(PieceKind::Knight, Color::Black);
    // Knight moves raise the halfmove clock; the fullmove number ticks
    // after Black's move.
    assert_eq!(b.do_move_inplace(Move::new(wn, sq(File::G, Rank::First),
        sq(File::F, Rank::Third), None, None, false, false)), Ok(()));
    assert_eq!(b.do_move_inplace(Move::new(bn, sq(File::G, Rank::Eighth),
        sq(File::F, Rank::Sixth), None, None, false, false)), Ok(()));
    // A pawn move resets the clock.
    let wp = Piece::new(PieceKind::Pawn, Color::White);
    assert_eq!(b.do_move_inplace(Move::new(wp, sq(File::E, Rank::Second),
        sq(File::E, Rank::Third), None, None, false, false)), Ok(()));
    // Undo all three and compare with a fresh board.
    assert_eq!(b.undo_move_inplace(), Ok(()));
    assert_eq!(b.undo_move_inplace(), Ok(()));
    assert_eq!(b.undo_move_inplace(), Ok(()));
    assert_eq!(b, Board::new());
}
