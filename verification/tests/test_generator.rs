use rusty_board::board::Board;
use rusty_board::generator::generate_pseudo_legal_moves;
use rusty_board::moves::Move;
use rusty_board::piece::Piece;
use rusty_board::piece::PieceKind;
use rusty_board::square::Color;
use rusty_board::square::File;
use rusty_board::square::Rank;
use rusty_board::square::Square;

fn sq(file: File, rank: Rank) -> Square {
    Square::from_file_and_rank(file, rank)
}

#[test]
fn test_generator_test_board() {
    let b = Board::new();
    let moves = generate_pseudo_legal_moves(b);
    println!("{:?}", moves);
    assert_eq!(moves.len(), 20);
}

#[test]
fn initial_position_move_breakdown() {
    // 16 pawn moves (8 single, 8 double) and 4 knight moves.
    let b = Board::new();
    let moves = generate_pseudo_legal_moves(b);
    let pawn_moves = moves.iter().filter(|m| m.get_moving_piece().get_kind()
        == PieceKind::Pawn).count();
    let knight_moves = moves.iter().filter(|m| m.get_moving_piece().get_kind()
        == PieceKind::Knight).count();
    assert_eq!(pawn_moves, 16);
    assert_eq!(knight_moves, 4);
    let doubles = moves.iter().filter(|m| {
        m.get_moving_piece().get_kind() == PieceKind::Pawn
            && m.get_square_to().as_index() - m.get_square_from().as_index() == 16
    }).count();
    assert_eq!(doubles, 8);
    for m in &moves {
        assert_eq!(m.get_moving_piece().get_color(), Color::White);
        assert!(m.get_captured_piece().is_none());
        assert!(m.get_promoted_to().is_none());
        assert!(m.is_normal_move());
    }
}

#[test]
fn initial_position_scan_order() {
    // Moves appear grouped by origin square in increasing index order: the
    // b1 knight first (c3 then a3), then the g1 knight (h3 then f3), then
    // the pawns file by file, single step before double step.
    let moves = generate_pseudo_legal_moves(Board::new());
    assert_eq!(moves[0].get_square_from(), sq(File::B, Rank::First));
    assert_eq!(moves[0].get_square_to(), sq(File::C, Rank::Third));
    assert_eq!(moves[1].get_square_to(), sq(File::A, Rank::Third));
    assert_eq!(moves[2].get_square_from(), sq(File::G, Rank::First));
    assert_eq!(moves[2].get_square_to(), sq(File::H, Rank::Third));
    assert_eq!(moves[3].get_square_to(), sq(File::F, Rank::Third));
    assert_eq!(moves[4].get_square_from(), sq(File::A, Rank::Second));
    assert_eq!(moves[4].get_square_to(), sq(File::A, Rank::Third));
    assert_eq!(moves[5].get_square_to(), sq(File::A, Rank::Fourth));
    assert_eq!(moves[18].get_square_from(), sq(File::H, Rank::Second));
    assert_eq!(moves[19].get_square_to(), sq(File::H, Rank::Fourth));
    // Equal positions yield identical move lists.
    assert_eq!(moves, generate_pseudo_legal_moves(Board::new()));
}

#[test]
fn apply_then_undo_restores_position_for_every_generated_move() {
    // Check the round trip from the starting position and from a position a
    // few plies deep.
    let mut b = Board::new();
    check_round_trips(&b);
    let wp = Piece::new(PieceKind::Pawn, Color::White);
    let bp = Piece::new(PieceKind::Pawn, Color::Black);
    assert_eq!(b.do_move_inplace(Move::new(wp, sq(File::E, Rank::Second),
        sq(File::E, Rank::Fourth), None, None, false, false)), Ok(()));
    assert_eq!(b.do_move_inplace(Move::new(bp, sq(File::D, Rank::Seventh),
        sq(File::D, Rank::Fifth), None, None, false, false)), Ok(()));
    check_round_trips(&b);
    assert_eq!(b.do_move_inplace(Move::new(wp, sq(File::E, Rank::Fourth),
        sq(File::E, Rank::Fifth), None, None, false, false)), Ok(()));
    assert_eq!(b.do_move_inplace(Move::new(bp, sq(File::F, Rank::Seventh),
        sq(File::F, Rank::Fifth), None, None, false, false)), Ok(()));
    // En passant is among the generated moves here; the round trip must
    // restore the captured pawn and the target square.
    let moves = generate_pseudo_legal_moves(b.clone());
    assert!(moves.iter().any(|m| m.is_en_passant()));
    check_round_trips(&b);
}

fn check_round_trips(b: &Board) {
    let moves = generate_pseudo_legal_moves(b.clone());
    for m in moves {
        let mut c = b.clone();
        assert_eq!(c.do_move_inplace(m), Ok(()));
        assert_eq!(c.undo_move_inplace(), Ok(()));
        assert_eq!(&c, b);
    }
}

#[test]
fn sliders_stop_at_first_occupied_square() {
    // 1. e4 a6 — the f1 bishop now sees e2, d3, c4, b5 and captures on a6,
    // and nothing beyond it.
    let mut b = Board::new();
    let wp = Piece::new(PieceKind::Pawn, Color::White);
    let bp = Piece::new(PieceKind::Pawn, Color::Black);
    assert_eq!(b.do_move_inplace(Move::new(wp, sq(File::E, Rank::Second),
        sq(File::E, Rank::Fourth), None, None, false, false)), Ok(()));
    assert_eq!(b.do_move_inplace(Move::new(bp, sq(File::A, Rank::Seventh),
        sq(File::A, Rank::Sixth), None, None, false, false)), Ok(()));
    let moves = generate_pseudo_legal_moves(b.clone());
    let from_f1: Vec<&Move> = moves.iter().filter(|m| m.get_square_from()
        == sq(File::F, Rank::First)).collect();
    let mut targets: Vec<usize> = from_f1.iter().map(|m| m.get_square_to().as_index()).collect();
    targets.sort();
    let expected: Vec<usize> = vec![
        sq(File::E, Rank::Second).as_index(),
        sq(File::D, Rank::Third).as_index(),
        sq(File::C, Rank::Fourth).as_index(),
        sq(File::B, Rank::Fifth).as_index(),
        sq(File::A, Rank::Sixth).as_index(),
    ];
    assert_eq!(targets, expected);
    // The only capture is the enemy pawn on a6; nothing of White's own
    // color is ever captured.
    for m in &moves {
        if let Some(q) = m.get_captured_piece() {
            assert_eq!(q.get_color(), Color::Black);
        }
    }
    let captures: Vec<&&Move> = from_f1.iter().filter(|m| m.get_captured_piece()
        .is_some()).collect();
    assert_eq!(captures.len(), 1);
    assert_eq!(captures[0].get_square_to(), sq(File::A, Rank::Sixth));
}

#[test]
fn castling_is_generated_when_path_is_clear() {
    // 1. Nf3 g6 2. e4 Bg7 3. Be2 Nf6 — White may castle kingside.
    let mut b = Board::new();
    let wn = Piece::new(PieceKind::Knight, Color::White);
    let wp = Piece::new(PieceKind::Pawn, Color::White);
    let wb = Piece::new(PieceKind::Bishop, Color::White);
    let bp = Piece::new(PieceKind::Pawn, Color::Black);
    let bb = Piece::new(PieceKind::Bishop, Color::Black);
    let bn = Piece::new(PieceKind::Knight, Color::Black);
    assert_eq!(b.do_move_inplace(Move::new(wn, sq(File::G, Rank::First),
        sq(File::F, Rank::Third), None, None, false, false)), Ok(()));
    assert_eq!(b.do_move_inplace(Move::new(bp, sq(File::G, Rank::Seventh),
        sq(File::G, Rank::Sixth), None, None, false, false)), Ok(()));
    assert_eq!(b.do_move_inplace(Move::new(wp, sq(File::E, Rank::Second),
        sq(File::E, Rank::Fourth), None, None, false, false)), Ok(()));
    assert_eq!(b.do_move_inplace(Move::new(bb, sq(File::F, Rank::Eighth),
        sq(File::G, Rank::Seventh), None, None, false, false)), Ok(()));
    assert_eq!(b.do_move_inplace(Move::new(wb, sq(File::F, Rank::First),
        sq(File::E, Rank::Second), None, None, false, false)), Ok(()));
    assert_eq!(b.do_move_inplace(Move::new(bn, sq(File::G, Rank::Eighth),
        sq(File::F, Rank::Sixth), None, None, false, false)), Ok(()));
    let moves = generate_pseudo_legal_moves(b.clone());
    let castles: Vec<&Move> = moves.iter().filter(|m| m.is_castling()).collect();
    assert_eq!(castles.len(), 1);
    let castle = *castles[0];
    assert_eq!(castle.get_square_from(), sq(File::E, Rank::First));
    assert_eq!(castle.get_square_to(), sq(File::G, Rank::First));
    // It applies and undoes exactly like any generated move.
    let mut c = b.clone();
    assert_eq!(c.do_move_inplace(castle), Ok(()));
    assert_eq!(c.undo_move_inplace(), Ok(()));
    assert_eq!(c, b);
    // No castling is generated before the squares between king and rook
    // are empty.
    let fresh_moves = generate_pseudo_legal_moves(Board::new());
    assert!(fresh_moves.iter().all(|m| !m.is_castling()));
}

#[test]
fn promotions_are_generated_four_ways() {
    // Walk a white pawn to h7 while the black knight stays on g8, then
    // generate: the push to h8 is blocked by the rook, and the capture on
    // g8 is offered once per promotion kind.
    let mut b = Board::new();
    let wp = Piece::new(PieceKind::Pawn, Color::White);
    let bp = Piece::new(PieceKind::Pawn, Color::Black);
    assert_eq!(b.do_move_inplace(Move::new(wp, sq(File::H, Rank::Second),
        sq(File::H, Rank::Fourth), None, None, false, false)), Ok(()));
    assert_eq!(b.do_move_inplace(Move::new(bp, sq(File::G, Rank::Seventh),
        sq(File::G, Rank::Fifth), None, None, false, false)), Ok(()));
    assert_eq!(b.do_move_inplace(Move::new(wp, sq(File::H, Rank::Fourth),
        sq(File::G, Rank::Fifth), Some(bp), None, false, false)), Ok(()));
    assert_eq!(b.do_move_inplace(Move::new(bp, sq(File::H, Rank::Seventh),
        sq(File::H, Rank::Sixth), None, None, false, false)), Ok(()));
    assert_eq!(b.do_move_inplace(Move::new(wp, sq(File::G, Rank::Fifth),
        sq(File::H, Rank::Sixth), Some(bp), None, false, false)), Ok(()));
    assert_eq!(b.do_move_inplace(Move::new(bp, sq(File::D, Rank::Seventh),
        sq(File::D, Rank::Sixth), None, None, false, false)), Ok(()));
    assert_eq!(b.do_move_inplace(Move::new(wp, sq(File::H, Rank::Sixth),
        sq(File::H, Rank::Seventh), None, None, false, false)), Ok(()));
    assert_eq!(b.do_move_inplace(Move::new(bp, sq(File::D, Rank::Sixth),
        sq(File::D, Rank::Fifth), None, None, false, false)), Ok(()));
    let moves = generate_pseudo_legal_moves(b.clone());
    let promos: Vec<&Move> = moves.iter().filter(|m| m.get_square_from()
        == sq(File::H, Rank::Seventh)).collect();
    assert_eq!(promos.len(), 4);
    for m in &promos {
        let k = m.get_promoted_to().unwrap();
        assert!(k == PieceKind::Knight || k == PieceKind::Bishop || k == PieceKind::Rook
            || k == PieceKind::Queen);
        assert_eq!(m.get_square_to(), sq(File::G, Rank::Eighth));
        assert_eq!(m.get_captured_piece(),
            Some(Piece::new(PieceKind::Knight, Color::Black)));
    }
    check_all_round_trip(&b);
}

fn check_all_round_trip(b: &Board) {
    for m in generate_pseudo_legal_moves(b.clone()) {
        let mut c = b.clone();
        assert_eq!(c.do_move_inplace(m), Ok(()));
        assert_eq!(c.undo_move_inplace(), Ok(()));
        assert_eq!(&c, b);
    }
}

#[test]
fn chess960_positions_generate_twenty_opening_moves() {
    // From any Chess960 starting position the side to move has 16 pawn
    // moves plus the knight moves; the pawn count is always 16.
    for n in [0u32, 1, 100, 518, 959] {
        let b = Board::new_chess960(n);
        let moves = generate_pseudo_legal_moves(b);
        let pawn_moves = moves.iter().filter(|m| m.get_moving_piece().get_kind()
            == PieceKind::Pawn).count();
        assert_eq!(pawn_moves, 16);
        for m in &moves {
            assert_eq!(m.get_moving_piece().get_color(), Color::White);
            assert!(m.get_captured_piece().is_none());
        }
    }
}
