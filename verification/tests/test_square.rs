use rusty_board::square::Color;
use rusty_board::square::File;
use rusty_board::square::Rank;
use rusty_board::square::Square;

#[test]
fn test_square() {
    let e5: Square = Square::from_file_and_rank(File::E, Rank::Fifth);
    assert_eq!(e5.name(), "e5");
}

#[test]
fn test_adjacent() {
    let e5: Square = Square::from_file_and_rank(File::E, Rank::Fifth);
    let e6: Square = Square::from_file_and_rank(File::E, Rank::Sixth);
    let e4: Square = Square::from_file_and_rank(File::E, Rank::Fourth);
    let d5: Square = Square::from_file_and_rank(File::D, Rank::Fifth);
    let f5: Square = Square::from_file_and_rank(File::F, Rank::Fifth);

    assert_eq!(e5.get_up(), Some(e6));
    assert_eq!(e5.get_down(), Some(e4));
    assert_eq!(e5.get_left(), Some(d5));
    assert_eq!(e5.get_right(), Some(f5));

    assert_eq!(e5.get_forward(Color::White), Some(e6));
    assert_eq!(e5.get_forward(Color::Black), Some(e4));
    assert_eq!(e5.get_back(Color::White), Some(e4));
    assert_eq!(e5.get_back(Color::Black), Some(e6));

    let h8: Square = Square::from_file_and_rank(File::H, Rank::Eighth);
    let g8: Square = Square::from_file_and_rank(File::G, Rank::Eighth);
    let h7: Square = Square::from_file_and_rank(File::H, Rank::Seventh);

    assert_eq!(h8.get_up(), None);
    assert_eq!(h8.get_down(), Some(h7));
    assert_eq!(h8.get_left(), Some(g8));
    assert_eq!(h8.get_right(), None);

    let a1: Square = Square::from_file_and_rank(File::A, Rank::First);
    let b1: Square = Square::from_file_and_rank(File::B, Rank::First);
    let a2: Square = Square::from_file_and_rank(File::A, Rank::Second);

    assert_eq!(a1.get_up(), Some(a2));
    assert_eq!(a1.get_down(), None);
    assert_eq!(a1.get_left(), None);
    assert_eq!(a1.get_right(), Some(b1));

    assert_eq!(e5.get_knight_moves().len(), 8);
    assert_eq!(h8.get_knight_moves().len(), 2);
    assert_eq!(b1.get_knight_moves().len(), 3);
}

#[test]
fn knight_target_counts_by_region() {
    // A corner reaches 2 squares, an interior square 8, and an edge square
    // at least two files or ranks from every corner reaches 4.
    let a1: Square = Square::from_file_and_rank(File::A, Rank::First);
    let h1: Square = Square::from_file_and_rank(File::H, Rank::First);
    let a8: Square = Square::from_file_and_rank(File::A, Rank::Eighth);
    assert_eq!(a1.get_knight_moves().len(), 2);
    assert_eq!(h1.get_knight_moves().len(), 2);
    assert_eq!(a8.get_knight_moves().len(), 2);
    let e1: Square = Square::from_file_and_rank(File::E, Rank::First);
    let a4: Square = Square::from_file_and_rank(File::A, Rank::Fourth);
    let h5: Square = Square::from_file_and_rank(File::H, Rank::Fifth);
    let d8: Square = Square::from_file_and_rank(File::D, Rank::Eighth);
    assert_eq!(e1.get_knight_moves().len(), 4);
    assert_eq!(a4.get_knight_moves().len(), 4);
    assert_eq!(h5.get_knight_moves().len(), 4);
    assert_eq!(d8.get_knight_moves().len(), 4);
    let d4: Square = Square::from_file_and_rank(File::D, Rank::Fourth);
    let c6: Square = Square::from_file_and_rank(File::C, Rank::Sixth);
    assert_eq!(d4.get_knight_moves().len(), 8);
    assert_eq!(c6.get_knight_moves().len(), 8);
}

#[test]
fn square_encoding_round_trip() {
    for i in 0u32..64 {
        let s = Square::from_int(i);
        assert_eq!(s.as_index(), i as usize);
        let s2 = Square::from_file_and_rank(s.get_file(), s.get_rank());
        assert_eq!(s2, s);
    }
    // Numbers are reduced modulo 64.
    assert_eq!(Square::from_int(64), Square::from_int(0));
    assert_eq!(Square::from_int(130), Square::from_int(2));
}
