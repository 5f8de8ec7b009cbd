use vstd::prelude::*;
use crate::piece::PieceKind;

verus! {

// The back-rank derivation works on a sequence of eight entries, one per
// file. An entry still holding `Pawn` marks a file not yet assigned — pawns
// never stand on the back rank, so the marker is unambiguous.

/// The number of unassigned entries of `s` at positions `i` and beyond.
pub open spec fn free_count_from(s: Seq<PieceKind>, i: int) -> int
    decreases 8 - i,
{
    if i < 0 || i >= 8 {
        0
    } else {
        (if s[i] == PieceKind::Pawn {
            1int
        } else {
            0int
        }) + free_count_from(s, i + 1)
    }
}

/// The position of the `k`-th unassigned entry of `s` at or after `i`
/// (counting from zero), or 8 when there is none.
pub open spec fn nth_free_from(s: Seq<PieceKind>, i: int, k: int) -> int
    decreases 8 - i,
{
    if i < 0 || i >= 8 {
        8
    } else if s[i] == PieceKind::Pawn {
        if k == 0 {
            i
        } else {
            nth_free_from(s, i + 1, k - 1)
        }
    } else {
        nth_free_from(s, i + 1, k)
    }
}

/// The position of the `k`-th unassigned entry of `s`.
pub open spec fn nth_free(s: Seq<PieceKind>, k: int) -> int {
    nth_free_from(s, 0, k)
}

/// The file of the bishop placed on an odd (light) back-rank square.
pub open spec fn first_bishop_index(n: int) -> int {
    2 * (n % 4) + 1
}

/// The file of the bishop placed on an even (dark) back-rank square.
pub open spec fn second_bishop_index(n: int) -> int {
    2 * ((n / 4) % 4)
}

/// Which of the six remaining free files receives the queen.
pub open spec fn queen_choice(n: int) -> int {
    (n / 16) % 6
}

/// Which of the ten unordered pairs of remaining files receives the knights.
pub open spec fn knight_choice(n: int) -> int {
    n / 96
}

/// The smaller member of the chosen knight pair, as a free-file ordinal.
pub open spec fn knight_pair_low(c: int) -> int {
    if c <= 3 {
        0
    } else if c <= 6 {
        1
    } else if c <= 8 {
        2
    } else {
        3
    }
}

/// The larger member of the chosen knight pair, as a free-file ordinal.
pub open spec fn knight_pair_high(c: int) -> int {
    if c == 0 {
        1
    } else if c == 1 {
        2
    } else if c == 2 {
        3
    } else if c == 3 {
        4
    } else if c == 4 {
        2
    } else if c == 5 {
        3
    } else if c == 6 {
        4
    } else if c == 7 {
        3
    } else if c == 8 {
        4
    } else {
        4
    }
}

/// The rank after both bishops are placed.
pub open spec fn rank_after_bishops(n: int) -> Seq<PieceKind> {
    Seq::new(8, |i: int| PieceKind::Pawn).update(first_bishop_index(n), PieceKind::Bishop).update(
        second_bishop_index(n),
        PieceKind::Bishop,
    )
}

/// The file of the queen.
pub open spec fn queen_index(n: int) -> int {
    nth_free(rank_after_bishops(n), queen_choice(n))
}

/// The rank after the queen is placed on its chosen free file.
pub open spec fn rank_after_queen(n: int) -> Seq<PieceKind> {
    rank_after_bishops(n).update(queen_index(n), PieceKind::Queen)
}

/// The lower file of the two knights.
pub open spec fn first_knight_index(n: int) -> int {
    nth_free(rank_after_queen(n), knight_pair_low(knight_choice(n)))
}

/// The higher file of the two knights.
pub open spec fn second_knight_index(n: int) -> int {
    nth_free(rank_after_queen(n), knight_pair_high(knight_choice(n)))
}

/// The rank after the two knights are placed on their chosen free files.
pub open spec fn rank_after_knights(n: int) -> Seq<PieceKind> {
    rank_after_queen(n).update(second_knight_index(n), PieceKind::Knight).update(
        first_knight_index(n),
        PieceKind::Knight,
    )
}

/// The file of the lower-file (queenside) rook.
pub open spec fn queens_rook_index(n: int) -> int {
    nth_free(rank_after_knights(n), 0)
}

/// The file of the king.
pub open spec fn king_index(n: int) -> int {
    nth_free(rank_after_knights(n), 1)
}

/// The file of the higher-file (kingside) rook.
pub open spec fn kings_rook_index(n: int) -> int {
    nth_free(rank_after_knights(n), 2)
}

/// The whole derived back rank for position number `n` in `[0, 960)`:
/// bishops, queen and knights on their chosen files, and the three files
/// left over filled rook, king, rook in increasing order.
pub open spec fn back_rank(n: int) -> Seq<PieceKind> {
    rank_after_knights(n).update(queens_rook_index(n), PieceKind::Rook).update(
        king_index(n),
        PieceKind::King,
    ).update(kings_rook_index(n), PieceKind::Rook)
}

proof fn lemma_count_all_free(s: Seq<PieceKind>, i: int)
    requires
        s.len() == 8,
        0 <= i <= 8,
        forall|j: int| 0 <= j < 8 ==> s[j] == PieceKind::Pawn,
    ensures
        free_count_from(s, i) == 8 - i,
    decreases 8 - i,
{
    if i < 8 {
        lemma_count_all_free(s, i + 1);
    }
}

proof fn lemma_free_count_nonneg(s: Seq<PieceKind>, i: int)
    ensures
        free_count_from(s, i) >= 0,
    decreases 8 - i,
{
    if 0 <= i < 8 {
        lemma_free_count_nonneg(s, i + 1);
    }
}

proof fn lemma_free_count_update(s: Seq<PieceKind>, j: int, p: PieceKind, i: int)
    requires
        s.len() == 8,
        0 <= j < 8,
        s[j] == PieceKind::Pawn,
        p != PieceKind::Pawn,
        0 <= i <= 8,
    ensures
        free_count_from(s.update(j, p), i) == free_count_from(s, i) - (if i <= j {
            1int
        } else {
            0int
        }),
    decreases 8 - i,
{
    if i < 8 {
        lemma_free_count_update(s, j, p, i + 1);
    }
}

proof fn lemma_nth_free_props(s: Seq<PieceKind>, i: int, k: int)
    requires
        s.len() == 8,
        0 <= i <= 8,
        0 <= k,
        k < free_count_from(s, i),
    ensures
        i <= nth_free_from(s, i, k) < 8,
        s[nth_free_from(s, i, k)] == PieceKind::Pawn,
    decreases 8 - i,
{
    if i < 8 {
        if s[i] == PieceKind::Pawn {
            if k > 0 {
                lemma_nth_free_props(s, i + 1, k - 1);
            }
        } else {
            lemma_nth_free_props(s, i + 1, k);
        }
    }
}

proof fn lemma_nth_free_mono(s: Seq<PieceKind>, i: int, k1: int, k2: int)
    requires
        s.len() == 8,
        0 <= i <= 8,
        0 <= k1 < k2,
        k2 < free_count_from(s, i),
    ensures
        nth_free_from(s, i, k1) < nth_free_from(s, i, k2),
    decreases 8 - i,
{
    lemma_free_count_nonneg(s, i + 1);
    if i < 8 {
        if s[i] == PieceKind::Pawn {
            if k1 == 0 {
                lemma_nth_free_props(s, i + 1, k2 - 1);
            } else {
                lemma_nth_free_mono(s, i + 1, k1 - 1, k2 - 1);
            }
        } else {
            lemma_nth_free_mono(s, i + 1, k1, k2);
        }
    }
}

proof fn lemma_free_has_ordinal(s: Seq<PieceKind>, i: int, x: int)
    requires
        s.len() == 8,
        0 <= i <= 8,
        i <= x < 8,
        s[x] == PieceKind::Pawn,
    ensures
        exists|k: int|
            0 <= k < free_count_from(s, i) && #[trigger] nth_free_from(s, i, k) == x,
    decreases 8 - i,
{
    lemma_free_count_nonneg(s, i + 1);
    if i == x {
        assert(nth_free_from(s, i, 0) == x);
    } else {
        lemma_free_has_ordinal(s, i + 1, x);
        let k0 = choose|k: int|
            0 <= k < free_count_from(s, i + 1) && #[trigger] nth_free_from(s, i + 1, k) == x;
        if s[i] == PieceKind::Pawn {
            assert(nth_free_from(s, i, k0 + 1) == x);
        } else {
            assert(nth_free_from(s, i, k0) == x);
        }
    }
}

/// The structure of every derived back rank: eight entries, no free file
/// left, the king on exactly one file and strictly between the two rook
/// files, the queen on exactly one file and the knights on exactly two,
/// and the two bishops on exactly one odd and one even file — that is, on
/// squares of opposite color. Together these pin the piece on every file,
/// so each rank holds exactly two rooks, two knights, two bishops, one
/// queen and one king.
#[verifier::rlimit(100)]
pub proof fn lemma_back_rank_structure(n: int)
    requires
        0 <= n < 960,
    ensures
        back_rank(n).len() == 8,
        0 <= queens_rook_index(n),
        queens_rook_index(n) < king_index(n),
        king_index(n) < kings_rook_index(n),
        kings_rook_index(n) < 8,
        forall|i: int|
            0 <= i < 8 ==> ((#[trigger] back_rank(n)[i] == PieceKind::King) <==> i == king_index(
                n,
            )),
        forall|i: int|
            0 <= i < 8 ==> ((#[trigger] back_rank(n)[i] == PieceKind::Rook) <==> (i
                == queens_rook_index(n) || i == kings_rook_index(n))),
        forall|i: int|
            0 <= i < 8 ==> ((#[trigger] back_rank(n)[i] == PieceKind::Bishop) <==> (i
                == first_bishop_index(n) || i == second_bishop_index(n))),
        forall|i: int|
            0 <= i < 8 ==> ((#[trigger] back_rank(n)[i] == PieceKind::Queen) <==> i == queen_index(
                n,
            )),
        forall|i: int|
            0 <= i < 8 ==> ((#[trigger] back_rank(n)[i] == PieceKind::Knight) <==> (i
                == first_knight_index(n) || i == second_knight_index(n))),
        first_knight_index(n) < second_knight_index(n),
        first_bishop_index(n) % 2 == 1,
        second_bishop_index(n) % 2 == 0,
        forall|i: int| 0 <= i < 8 ==> #[trigger] back_rank(n)[i] != PieceKind::Pawn,
{
    let b1 = first_bishop_index(n);
    let b2 = second_bishop_index(n);
    let s0 = Seq::new(8, |i: int| PieceKind::Pawn);
    let s0b = s0.update(b1, PieceKind::Bishop);
    let s1 = rank_after_bishops(n);
    assert(1 <= b1 < 8 && 0 <= b2 < 8 && b1 != b2);
    lemma_count_all_free(s0, 0);
    assert(free_count_from(s0, 0) == 8);
    let q = queen_choice(n);
    let qi = nth_free(s1, q);
    let s2 = rank_after_queen(n);
    let c = knight_choice(n);
    let lo = knight_pair_low(c);
    let hi = knight_pair_high(c);
    let ni = nth_free(s2, lo);
    let nj = nth_free(s2, hi);
    let s3 = rank_after_knights(n);
    let r0 = queens_rook_index(n);
    let r1 = king_index(n);
    let r2 = kings_rook_index(n);
    // Free counts shrink by one with each placement.
    lemma_free_count_update(s0, b1, PieceKind::Bishop, 0);
    lemma_free_count_update(s0b, b2, PieceKind::Bishop, 0);
    assert(free_count_from(s1, 0) == 6);
    assert(0 <= q < 6);
    lemma_nth_free_props(s1, 0, q);
    lemma_free_count_update(s1, qi, PieceKind::Queen, 0);
    assert(free_count_from(s2, 0) == 5);
    assert(0 <= c < 10);
    assert(0 <= lo < hi < 5);
    lemma_nth_free_props(s2, 0, lo);
    lemma_nth_free_props(s2, 0, hi);
    lemma_nth_free_mono(s2, 0, lo, hi);
    let s2h = s2.update(nj, PieceKind::Knight);
    lemma_free_count_update(s2, nj, PieceKind::Knight, 0);
    lemma_free_count_update(s2h, ni, PieceKind::Knight, 0);
    assert(free_count_from(s3, 0) == 3);
    lemma_nth_free_props(s3, 0, 0);
    lemma_nth_free_props(s3, 0, 1);
    lemma_nth_free_props(s3, 0, 2);
    lemma_nth_free_mono(s3, 0, 0, 1);
    lemma_nth_free_mono(s3, 0, 1, 2);
    assert(0 <= r0 < r1 < r2 < 8);
    // Each entry of each stage is determined.
    assert(forall|i: int|
        0 <= i < 8 ==> #[trigger] s1[i] == (if i == b1 || i == b2 {
            PieceKind::Bishop
        } else {
            PieceKind::Pawn
        }));
    assert(forall|i: int|
        0 <= i < 8 ==> #[trigger] s2[i] == (if i == qi {
            PieceKind::Queen
        } else if i == b1 || i == b2 {
            PieceKind::Bishop
        } else {
            PieceKind::Pawn
        }));
    assert(forall|i: int|
        0 <= i < 8 ==> #[trigger] s3[i] == (if i == ni || i == nj {
            PieceKind::Knight
        } else if i == qi {
            PieceKind::Queen
        } else if i == b1 || i == b2 {
            PieceKind::Bishop
        } else {
            PieceKind::Pawn
        }));
    // The three files still free in s3 are exactly r0, r1, r2.
    assert forall|x: int| 0 <= x < 8 && s3[x] == PieceKind::Pawn implies x == r0 || x == r1 || x
        == r2 by {
        lemma_free_has_ordinal(s3, 0, x);
        let k = choose|k: int|
            0 <= k < free_count_from(s3, 0) && #[trigger] nth_free_from(s3, 0, k) == x;
        assert(k == 0 || k == 1 || k == 2);
    }
    assert(forall|i: int|
        0 <= i < 8 ==> #[trigger] back_rank(n)[i] == (if i == r1 {
            PieceKind::King
        } else if i == r0 || i == r2 {
            PieceKind::Rook
        } else {
            s3[i]
        }));
}

/// Finds the position of the `k`-th still-unassigned entry at or after `i`.
fn find_free(order: &Vec<PieceKind>, i: usize, k: usize) -> (r: usize)
    requires
        order@.len() == 8,
        i <= 8,
        k < free_count_from(order@, i as int),
    ensures
        r == nth_free_from(order@, i as int, k as int),
        i <= r < 8,
        order@[r as int] == PieceKind::Pawn,
    decreases 8 - i,
{
    proof {
        lemma_free_count_nonneg(order@, i as int);
        assert(i < 8);
    }
    if order[i] == PieceKind::Pawn {
        if k == 0 {
            i
        } else {
            find_free(order, i + 1, k - 1)
        }
    } else {
        find_free(order, i + 1, k)
    }
}

/// Derives the back rank for position number `n` in `[0, 960)`. Returns the
/// eight piece kinds in file order together with the files of the queenside
/// rook, the king, and the kingside rook.
pub(crate) fn build_back_rank(n: u32) -> (r: (Vec<PieceKind>, u8, u8, u8))
    requires
        n < 960,
    ensures
        r.0@ == back_rank(n as int),
        r.1 == queens_rook_index(n as int),
        r.2 == king_index(n as int),
        r.3 == kings_rook_index(n as int),
{
    proof {
        lemma_back_rank_structure(n as int);
    }
    let ghost nn = n as int;
    let mut order: Vec<PieceKind> = vec![PieceKind::Pawn; 8];
    proof {
        assert(order@ =~= Seq::new(8, |i: int| PieceKind::Pawn));
    }
    let b1: usize = (2 * (n % 4) + 1) as usize;
    let b2: usize = (2 * ((n / 4) % 4)) as usize;
    order[b1] = PieceKind::Bishop;
    order[b2] = PieceKind::Bishop;
    proof {
        assert(order@ =~= rank_after_bishops(nn));
        let s0 = Seq::new(8, |i: int| PieceKind::Pawn);
        lemma_count_all_free(s0, 0);
        lemma_free_count_update(s0, b1 as int, PieceKind::Bishop, 0);
        lemma_free_count_update(s0.update(b1 as int, PieceKind::Bishop), b2 as int,
            PieceKind::Bishop, 0);
        assert(free_count_from(order@, 0) == 6);
    }
    let q: usize = ((n / 16) % 6) as usize;
    let qi = find_free(&order, 0, q);
    proof {
        lemma_free_count_update(order@, qi as int, PieceKind::Queen, 0);
    }
    order[qi] = PieceKind::Queen;
    proof {
        assert(order@ =~= rank_after_queen(nn));
        assert(free_count_from(order@, 0) == 5);
    }
    let ch: u32 = n / 96;
    let lo: usize = if ch <= 3 {
        0
    } else if ch <= 6 {
        1
    } else if ch <= 8 {
        2
    } else {
        3
    };
    let hi: usize = match ch {
        0 => 1,
        1 => 2,
        2 => 3,
        3 => 4,
        4 => 2,
        5 => 3,
        6 => 4,
        7 => 3,
        8 => 4,
        _ => 4,
    };
    proof {
        assert(lo == knight_pair_low(ch as int));
        assert(hi == knight_pair_high(ch as int));
        lemma_nth_free_mono(order@, 0, lo as int, hi as int);
    }
    let ni = find_free(&order, 0, lo);
    let nj = find_free(&order, 0, hi);
    proof {
        lemma_free_count_update(order@, nj as int, PieceKind::Knight, 0);
        lemma_free_count_update(order@.update(nj as int, PieceKind::Knight), ni as int,
            PieceKind::Knight, 0);
    }
    order[nj] = PieceKind::Knight;
    order[ni] = PieceKind::Knight;
    proof {
        assert(order@ =~= rank_after_knights(nn));
        assert(free_count_from(order@, 0) == 3);
    }
    let r0 = find_free(&order, 0, 0);
    let r1 = find_free(&order, 0, 1);
    let r2 = find_free(&order, 0, 2);
    order[r0] = PieceKind::Rook;
    order[r1] = PieceKind::King;
    order[r2] = PieceKind::Rook;
    proof {
        assert(order@ =~= back_rank(nn));
    }
    (order, r0 as u8, r1 as u8, r2 as u8)
}

} // verus!
