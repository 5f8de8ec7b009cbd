use vstd::prelude::*;
use crate::board::Board;
use crate::board::BoardView;
use crate::board::CastlingRights;
use crate::board::apply_enabled;
use crate::board::back_rank_of;
use crate::board::is_kingside;
use crate::board::right_value;
use crate::moves::Move;
use crate::piece::Piece;
use crate::piece::PieceKind;
use crate::square::Color;
use crate::square::Direction;
use crate::square::Square;
use crate::square::dir_file_delta;
use crate::square::dir_rank_delta;
use crate::square::file_index;
use crate::square::file_of;
use crate::square::forward_of;
use crate::square::knight_targets;
use crate::square::rank_of;
use crate::square::square_at;
use crate::square::square_of;
use crate::square::step_of;

verus! {

broadcast use crate::square::lemma_square_of_roundtrip;

/// The directions a slider of the given kind may move in.
pub open spec fn slider_dir_ok(kind: PieceKind, d: Direction) -> bool {
    match kind {
        PieceKind::Rook => match d {
            Direction::Up | Direction::Down | Direction::Left | Direction::Right => true,
            _ => false,
        },
        PieceKind::Bishop => match d {
            Direction::UpLeft | Direction::UpRight | Direction::DownLeft
                | Direction::DownRight => true,
            _ => false,
        },
        PieceKind::Queen => true,
        _ => false,
    }
}

/// The move's destination lies exactly `k` steps from its origin along
/// direction `d`, with every strictly intermediate square of the ray empty.
pub open spec fn slider_reach(v: BoardView, m: Move, d: Direction, k: int) -> bool {
    let f0 = file_of(m.from@);
    let r0 = rank_of(m.from@);
    let df = dir_file_delta(d);
    let dr = dir_rank_delta(d);
    &&& 1 <= k
    &&& 0 <= f0 + k * df < 8
    &&& 0 <= r0 + k * dr < 8
    &&& m.to@ == square_at(f0 + k * df, r0 + k * dr)
    &&& forall|j: int|
        1 <= j < k ==> (#[trigger] v.squares[square_at(f0 + j * df, r0 + j * dr)]) is None
}

/// Shape of a sliding move: it runs along a ray allowed for its kind and
/// stops no later than the first occupied square.
pub open spec fn slider_shape(v: BoardView, m: Move) -> bool {
    &&& exists|d: Direction, k: int|
        slider_dir_ok(m.moving_piece.kind, d) && #[trigger] slider_reach(v, m, d, k)
    &&& m.promoted_to is None
}

/// The rank a pawn of the given color promotes on.
pub open spec fn promo_rank(c: Color) -> int {
    match c {
        Color::White => 7,
        Color::Black => 0,
    }
}

/// Shape of a non-capturing pawn advance: one square forward, or two from
/// the color's starting rank with the skipped square empty.
pub open spec fn pawn_push_shape(v: BoardView, m: Move) -> bool {
    let c = m.moving_piece.color;
    &&& m.captured_piece is None
    &&& (forward_of(m.from@, c) == Some(m.to@) || (forward_of(m.from@, c) matches Some(mid)
        && forward_of(mid, c) == Some(m.to@) && v.squares[mid] is None && rank_of(m.from@) == (
        if c == Color::White {
            1int
        } else {
            6int
        })))
}

/// Shape of a pawn capture: one square diagonally forward.
pub open spec fn pawn_capture_shape(v: BoardView, m: Move) -> bool {
    let c = m.moving_piece.color;
    &&& m.captured_piece is Some
    &&& (forward_of(m.from@, c) matches Some(mid) && (step_of(mid, Direction::Left) == Some(m.to@)
        || step_of(mid, Direction::Right) == Some(m.to@)))
}

/// Shape of an ordinary pawn move, promotion discipline included: a pawn
/// move promotes exactly when it reaches the far rank, and only to a
/// knight, bishop, rook or queen.
pub open spec fn pawn_shape(v: BoardView, m: Move) -> bool {
    let c = m.moving_piece.color;
    &&& (pawn_push_shape(v, m) || pawn_capture_shape(v, m))
    &&& ((m.promoted_to is Some) <==> rank_of(m.to@) == promo_rank(c))
    &&& (m.promoted_to matches Some(k) ==> (k == PieceKind::Knight || k == PieceKind::Bishop || k
        == PieceKind::Rook || k == PieceKind::Queen))
}

/// Shape of an en-passant capture: a diagonal pawn step onto the current
/// en-passant target, taking an enemy pawn.
pub open spec fn ep_shape(v: BoardView, m: Move) -> bool {
    let c = m.moving_piece.color;
    &&& v.en_passant_square == Some(m.to@)
    &&& (forward_of(m.from@, c) matches Some(mid) && (step_of(mid, Direction::Left) == Some(m.to@)
        || step_of(mid, Direction::Right) == Some(m.to@)))
    &&& (m.captured_piece matches Some(q) && q.kind == PieceKind::Pawn && q.color != c)
    &&& m.promoted_to is None
}

/// Shape of a knight move: the destination is one of the origin's knight
/// targets.
pub open spec fn knight_shape(v: BoardView, m: Move) -> bool {
    &&& knight_targets(m.from@).contains(m.to@)
    &&& m.promoted_to is None
}

/// Shape of an ordinary king move: a single step in some direction.
pub open spec fn king_step_shape(v: BoardView, m: Move) -> bool {
    &&& exists|d: Direction| (#[trigger] step_of(m.from@, d)) == Some(m.to@)
    &&& m.promoted_to is None
}

/// The castling permission that covers the given color and side.
pub open spec fn castle_right_for(c: Color, kingside: bool) -> CastlingRights {
    match c {
        Color::White => if kingside {
            CastlingRights::WhiteKingside
        } else {
            CastlingRights::WhiteQueenside
        },
        Color::Black => if kingside {
            CastlingRights::BlackKingside
        } else {
            CastlingRights::BlackQueenside
        },
    }
}

/// Shape of a generated castling move: the matching permission still
/// stands and every square strictly between the king's and the rook's
/// starting files on the home rank is empty.
pub open spec fn castle_shape(v: BoardView, m: Move) -> bool {
    let c = m.moving_piece.color;
    let kf = file_index(v.initial_king_file);
    let rfile = if is_kingside(m) {
        file_index(v.initial_kings_rook_file)
    } else {
        file_index(v.initial_queens_rook_file)
    };
    let lof = if kf <= rfile {
        kf
    } else {
        rfile
    };
    let hif = if kf <= rfile {
        rfile
    } else {
        kf
    };
    &&& right_value(v.castling, castle_right_for(c, is_kingside(m)))
    &&& forall|x: int|
        lof < x < hif ==> v.squares[square_at(x, back_rank_of(c))] is None
}

/// Everything the generator promises of each move it emits: the board
/// accepts the move (so it can be applied and then undone exactly), it is
/// made by a piece of the side to move, it never captures a piece of the
/// mover's own color, and its geometry fits its piece — in particular a
/// sliding move never passes the first occupied square of its ray.
pub open spec fn generated_ok(v: BoardView, m: Move) -> bool {
    &&& apply_enabled(v, m)
    &&& m.moving_piece.color == v.side_to_move
    &&& (m.captured_piece matches Some(q) ==> q.color != v.side_to_move)
    &&& (m.en_passant ==> m.moving_piece.kind == PieceKind::Pawn)
    &&& (m.castling ==> m.moving_piece.kind == PieceKind::King)
    &&& match m.moving_piece.kind {
        PieceKind::Pawn => if m.en_passant {
            ep_shape(v, m)
        } else {
            !m.castling && pawn_shape(v, m)
        },
        PieceKind::Knight => !m.en_passant && !m.castling && knight_shape(v, m),
        PieceKind::Bishop | PieceKind::Rook | PieceKind::Queen => !m.en_passant && !m.castling
            && slider_shape(v, m),
        PieceKind::King => if m.castling {
            castle_shape(v, m)
        } else {
            !m.en_passant && king_step_shape(v, m)
        },
    }
}


// ---------------------------------------------------------------------------
// The functional specification of the generator: `pseudo_legal_moves` fixes
// the exact sequence of emitted moves — squares scanned in index order
// 0..63, and for each piece its targets and directions in the fixed order
// the functions below define. The generator's contract states equality with
// this sequence, so the result is fully determined by the position.
// ---------------------------------------------------------------------------

/// A one-move sequence when `cond` holds, else empty.
pub open spec fn cond_move(cond: bool, m: Move) -> Seq<Move> {
    if cond {
        seq![m]
    } else {
        Seq::empty()
    }
}

/// The move record with the given origin and destination indices.
pub open spec fn make_move(
    p: Piece,
    from: int,
    to: int,
    captured: Option<Piece>,
    promoted: Option<PieceKind>,
    ep: bool,
    castling: bool,
) -> Move {
    Move {
        moving_piece: p,
        from: square_of(from),
        to: square_of(to),
        captured_piece: captured,
        promoted_to: promoted,
        en_passant: ep,
        castling,
    }
}

/// Whether square `s` is on the double-push starting rank of color `c`.
pub open spec fn on_start_rank(s: int, c: Color) -> bool {
    rank_of(s) == (if c == Color::White {
        1int
    } else {
        6int
    })
}

/// The quiet or capturing move of piece `p` from `s` onto square `t`:
/// a capture when an enemy stands there, nothing when a friend does.
pub open spec fn step_move_at(v: BoardView, s: int, p: Piece, t: int) -> Seq<Move> {
    match v.squares[t] {
        Some(q) => cond_move(q.color != p.color, make_move(p, s, t, Some(q), None, false, false)),
        None => seq![make_move(p, s, t, None, None, false, false)],
    }
}

/// The non-promoting pawn advances from `s`: the single step to `t1` when
/// it is empty, followed by the double step to `t2` from the starting rank
/// when that is empty too.
pub open spec fn pawn_push_moves(v: BoardView, s: int, p: Piece, t1: int, t2: int) -> Seq<Move> {
    if v.squares[t1] is None {
        seq![make_move(p, s, t1, None, None, false, false)] + cond_move(
            on_start_rank(s, p.color) && v.squares[t2] is None,
            make_move(p, s, t2, None, None, false, false),
        )
    } else {
        Seq::empty()
    }
}

/// The en-passant capture of the pawn on `s` onto the empty square `t`:
/// emitted exactly when `t` is the current en-passant target and the
/// bypassed square holds an enemy pawn.
pub open spec fn pawn_ep_moves(v: BoardView, s: int, p: Piece, t: int) -> Seq<Move> {
    if v.en_passant_square == Some(t) {
        match v.squares[square_at(file_of(t), rank_of(s))] {
            Some(q) => cond_move(
                q.kind == PieceKind::Pawn && q.color != p.color,
                make_move(p, s, t, Some(q), None, true, false),
            ),
            None => Seq::empty(),
        }
    } else {
        Seq::empty()
    }
}

/// The captures of the pawn on `s` toward one side of its forward square
/// `t1`: an ordinary capture when an enemy stands on the diagonal, the
/// en-passant capture when the diagonal is empty.
pub open spec fn pawn_capture_moves(v: BoardView, s: int, p: Piece, t1: int, left: bool) -> Seq<
    Move,
> {
    match step_of(t1, if left {
        Direction::Left
    } else {
        Direction::Right
    }) {
        Some(t) => match v.squares[t] {
            Some(q) => cond_move(
                q.color != p.color,
                make_move(p, s, t, Some(q), None, false, false),
            ),
            None => pawn_ep_moves(v, s, p, t),
        },
        None => Seq::empty(),
    }
}

/// The capturing promotion of the pawn on `s` toward one side, for one
/// promotion kind.
pub open spec fn promo_capture_moves(
    v: BoardView,
    s: int,
    p: Piece,
    t1: int,
    pk: PieceKind,
    left: bool,
) -> Seq<Move> {
    match step_of(t1, if left {
        Direction::Left
    } else {
        Direction::Right
    }) {
        Some(t) => match v.squares[t] {
            Some(q) => cond_move(
                q.color != p.color,
                make_move(p, s, t, Some(q), Some(pk), false, false),
            ),
            None => Seq::empty(),
        },
        None => Seq::empty(),
    }
}

/// The promoting moves of the pawn on `s` for one promotion kind: the
/// forward promotion when the far-rank square `t1` is empty, then the two
/// capturing promotions.
pub open spec fn pawn_promo_moves(v: BoardView, s: int, p: Piece, t1: int, pk: PieceKind) -> Seq<
    Move,
> {
    cond_move(v.squares[t1] is None, make_move(p, s, t1, None, Some(pk), false, false))
        + promo_capture_moves(v, s, p, t1, pk, true) + promo_capture_moves(v, s, p, t1, pk, false)
}

/// Every move of the pawn on `s`: pushes then left and right captures, or,
/// when the forward square lies on the far rank, the promotions once per
/// kind in the order knight, bishop, rook, queen.
pub open spec fn pawn_moves_at(v: BoardView, s: int, p: Piece) -> Seq<Move> {
    match forward_of(s, p.color) {
        Some(t1) => match forward_of(t1, p.color) {
            Some(t2) => pawn_push_moves(v, s, p, t1, t2) + pawn_capture_moves(v, s, p, t1, true)
                + pawn_capture_moves(v, s, p, t1, false),
            None => pawn_promo_moves(v, s, p, t1, PieceKind::Knight) + pawn_promo_moves(
                v,
                s,
                p,
                t1,
                PieceKind::Bishop,
            ) + pawn_promo_moves(v, s, p, t1, PieceKind::Rook) + pawn_promo_moves(
                v,
                s,
                p,
                t1,
                PieceKind::Queen,
            ),
        },
        None => Seq::empty(),
    }
}

/// The moves of the knight on `s` onto its first `i` knight targets, in
/// target order.
pub open spec fn knight_moves_upto(v: BoardView, s: int, p: Piece, ts: Seq<int>, i: int) -> Seq<
    Move,
>
    decreases i,
{
    if i <= 0 {
        Seq::empty()
    } else {
        knight_moves_upto(v, s, p, ts, i - 1) + step_move_at(v, s, p, ts[i - 1])
    }
}

/// Every move of the knight on `s`, in knight-target order.
pub open spec fn knight_moves_at(v: BoardView, s: int, p: Piece) -> Seq<Move> {
    knight_moves_upto(v, s, p, knight_targets(s), knight_targets(s).len() as int)
}

/// The moves of the slider on `s` along the ray in direction `d` starting
/// after square `cur`: a quiet move per empty square, then at most one
/// capture where the ray stops. The fuel only bounds the recursion; eight
/// steps always outrun the board.
pub open spec fn ray_moves(v: BoardView, s: int, p: Piece, d: Direction, cur: int, fuel: nat) -> Seq<
    Move,
>
    decreases fuel,
{
    if fuel == 0 {
        Seq::empty()
    } else {
        match step_of(cur, d) {
            Some(u) => match v.squares[u] {
                Some(q) => cond_move(
                    q.color != p.color,
                    make_move(p, s, u, Some(q), None, false, false),
                ),
                None => seq![make_move(p, s, u, None, None, false, false)] + ray_moves(
                    v,
                    s,
                    p,
                    d,
                    u,
                    (fuel - 1) as nat,
                ),
            },
            None => Seq::empty(),
        }
    }
}

/// Every move of the slider on `s`, ray by ray in the fixed direction
/// order of its kind.
pub open spec fn slider_moves_at(v: BoardView, s: int, p: Piece) -> Seq<Move> {
    match p.kind {
        PieceKind::Rook => ray_moves(v, s, p, Direction::Up, s, 8) + ray_moves(
            v,
            s,
            p,
            Direction::Down,
            s,
            8,
        ) + ray_moves(v, s, p, Direction::Left, s, 8) + ray_moves(v, s, p, Direction::Right, s, 8),
        PieceKind::Bishop => ray_moves(v, s, p, Direction::UpLeft, s, 8) + ray_moves(
            v,
            s,
            p,
            Direction::UpRight,
            s,
            8,
        ) + ray_moves(v, s, p, Direction::DownLeft, s, 8) + ray_moves(
            v,
            s,
            p,
            Direction::DownRight,
            s,
            8,
        ),
        _ => ray_moves(v, s, p, Direction::Up, s, 8) + ray_moves(v, s, p, Direction::Down, s, 8)
            + ray_moves(v, s, p, Direction::Left, s, 8) + ray_moves(v, s, p, Direction::Right, s, 8)
            + ray_moves(v, s, p, Direction::UpLeft, s, 8) + ray_moves(
            v,
            s,
            p,
            Direction::UpRight,
            s,
            8,
        ) + ray_moves(v, s, p, Direction::DownLeft, s, 8) + ray_moves(
            v,
            s,
            p,
            Direction::DownRight,
            s,
            8,
        ),
    }
}

/// The king's single step from `s` in direction `d`, when it stays on the
/// board and does not land on a friendly piece.
pub open spec fn king_step_moves(v: BoardView, s: int, p: Piece, d: Direction) -> Seq<Move> {
    match step_of(s, d) {
        Some(t) => step_move_at(v, s, p, t),
        None => Seq::empty(),
    }
}

/// Every single-step move of the king on `s`, in the fixed direction order.
pub open spec fn king_moves_at(v: BoardView, s: int, p: Piece) -> Seq<Move> {
    king_step_moves(v, s, p, Direction::Up) + king_step_moves(v, s, p, Direction::Down)
        + king_step_moves(v, s, p, Direction::Left) + king_step_moves(v, s, p, Direction::Right)
        + king_step_moves(v, s, p, Direction::UpLeft) + king_step_moves(
        v,
        s,
        p,
        Direction::UpRight,
    ) + king_step_moves(v, s, p, Direction::DownLeft) + king_step_moves(
        v,
        s,
        p,
        Direction::DownRight,
    )
}

/// The castling move of the king on `s` toward one side: emitted exactly
/// when the permission stands, the rook is on its starting square, the
/// files strictly between king and rook are empty, and both destination
/// squares are free or about to be vacated by the king or rook themselves.
pub open spec fn castle_side_moves(v: BoardView, s: int, p: Piece, kingside: bool) -> Seq<Move> {
    let c = p.color;
    let br = back_rank_of(c);
    let kf = file_index(v.initial_king_file);
    let rfile = if kingside {
        file_index(v.initial_kings_rook_file)
    } else {
        file_index(v.initial_queens_rook_file)
    };
    let rf = square_at(rfile, br);
    let lof = if kf < rfile {
        kf
    } else {
        rfile
    };
    let hif = if kf < rfile {
        rfile
    } else {
        kf
    };
    let to = square_at(
        if kingside {
            6int
        } else {
            2int
        },
        br,
    );
    let rt = square_at(
        if kingside {
            5int
        } else {
            3int
        },
        br,
    );
    cond_move(
        right_value(v.castling, castle_right_for(c, kingside)) && v.squares[rf] == Some(
            Piece { kind: PieceKind::Rook, color: c },
        ) && (forall|y: int| lof < y < hif ==> v.squares[square_at(y, br)] is None) && (to == s
            || to == rf || v.squares[to] is None) && (rt == s || rt == rf
            || v.squares[rt] is None),
        make_move(p, s, to, None, None, false, true),
    )
}

/// The castling moves of the king on `s`: kingside then queenside, and
/// none at all unless `s` is the recorded initial king square.
pub open spec fn castle_moves_at(v: BoardView, s: int, p: Piece) -> Seq<Move> {
    if s == square_at(file_index(v.initial_king_file), back_rank_of(p.color)) {
        castle_side_moves(v, s, p, true) + castle_side_moves(v, s, p, false)
    } else {
        Seq::empty()
    }
}

/// Every move emitted for square `s`: none unless it holds a piece of the
/// side to move, else the moves of that piece in its fixed order.
pub open spec fn moves_at(v: BoardView, s: int) -> Seq<Move> {
    match v.squares[s] {
        Some(p) => if p.color == v.side_to_move {
            match p.kind {
                PieceKind::Pawn => pawn_moves_at(v, s, p),
                PieceKind::Knight => knight_moves_at(v, s, p),
                PieceKind::Bishop | PieceKind::Rook | PieceKind::Queen => slider_moves_at(v, s, p),
                PieceKind::King => king_moves_at(v, s, p) + castle_moves_at(v, s, p),
            }
        } else {
            Seq::empty()
        },
        None => Seq::empty(),
    }
}

/// The moves of the first `n` squares, in scan order.
pub open spec fn moves_from_squares(v: BoardView, n: int) -> Seq<Move>
    decreases n,
{
    if n <= 0 {
        Seq::empty()
    } else {
        moves_from_squares(v, n - 1) + moves_at(v, n - 1)
    }
}

/// The whole pseudo-legal move list of a position.
pub open spec fn pseudo_legal_moves(v: BoardView) -> Seq<Move> {
    moves_from_squares(v, 64)
}

/// Emits the captures of one pawn toward one side, the en-passant capture
/// included, when the pawn is not about to promote.
#[verifier::rlimit(60)]
fn gen_pawn_side_capture(b: &Board, s: Square, p: Piece, t1: Square, left: bool, res: &mut Vec<Move>)
    requires
        b.wf(),
        0 <= s@ < 64,
        b@.squares[s@] == Some(p),
        p.color == b@.side_to_move,
        p.kind == PieceKind::Pawn,
        forward_of(s@, p.color) == Some(t1@),
        forward_of(t1@, p.color) is Some,
    ensures
        final(res)@.len() >= old(res)@.len(),
        forall|i: int| 0 <= i < old(res)@.len() ==> final(res)@[i] == old(res)@[i],
        forall|i: int|
            old(res)@.len() <= i < final(res)@.len() ==> generated_ok(b@, #[trigger] final(res)@[i]),
        final(res)@ =~= old(res)@ + pawn_capture_moves(b@, s@, p, t1@, left),
{
    let c = p.color;
    let to = if left {
        t1.get_left()
    } else {
        t1.get_right()
    };
    if let Some(t) = to {
        match b.get_piece(t) {
            Some(q) => {
                if q.get_color() != c {
                    let m = Move::new(p, s, t, Some(q), None, false, false);
                    proof {
                        assert(generated_ok(b@, m));
                    }
                    res.push(m);
                }
            },
            None => {
                if let Some(eps) = b.get_en_passant_square() {
                    if eps == t {
                        let cap_sq = Square::from_int(
                            (t.as_index() % 8 + 8 * (s.as_index() / 8)) as u32,
                        );
                        if let Some(q2) = b.get_piece(cap_sq) {
                            if q2.get_kind() == PieceKind::Pawn && q2.get_color() != c {
                                let m = Move::new(p, s, t, Some(q2), None, true, false);
                                proof {
                                    assert(generated_ok(b@, m));
                                }
                                res.push(m);
                            }
                        }
                    }
                }
            },
        }
    }
}

/// Emits the moves of one pawn that is one step from the far rank, for one
/// promotion kind: the forward promotion and the two capturing promotions.
#[verifier::rlimit(60)]
fn gen_pawn_promos(b: &Board, s: Square, p: Piece, t1: Square, pk: PieceKind, res: &mut Vec<Move>)
    requires
        b.wf(),
        0 <= s@ < 64,
        b@.squares[s@] == Some(p),
        p.color == b@.side_to_move,
        p.kind == PieceKind::Pawn,
        forward_of(s@, p.color) == Some(t1@),
        forward_of(t1@, p.color) is None,
        pk == PieceKind::Knight || pk == PieceKind::Bishop || pk == PieceKind::Rook || pk
            == PieceKind::Queen,
    ensures
        final(res)@.len() >= old(res)@.len(),
        forall|i: int| 0 <= i < old(res)@.len() ==> final(res)@[i] == old(res)@[i],
        forall|i: int|
            old(res)@.len() <= i < final(res)@.len() ==> generated_ok(b@, #[trigger] final(res)@[i]),
        final(res)@ =~= old(res)@ + pawn_promo_moves(b@, s@, p, t1@, pk),
{
    let c = p.color;
    if b.get_piece(t1).is_none() {
        let m = Move::new(p, s, t1, None, Some(pk), false, false);
        proof {
            assert(generated_ok(b@, m));
        }
        res.push(m);
    }
    if let Some(t) = t1.get_left() {
        if let Some(q) = b.get_piece(t) {
            if q.get_color() != c {
                let m = Move::new(p, s, t, Some(q), Some(pk), false, false);
                proof {
                    assert(generated_ok(b@, m));
                }
                res.push(m);
            }
        }
    }
    if let Some(t) = t1.get_right() {
        if let Some(q) = b.get_piece(t) {
            if q.get_color() != c {
                let m = Move::new(p, s, t, Some(q), Some(pk), false, false);
                proof {
                    assert(generated_ok(b@, m));
                }
                res.push(m);
            }
        }
    }
}

/// Emits every move of the pawn on square `s`.
fn gen_pawn_moves(b: &Board, s: Square, p: Piece, res: &mut Vec<Move>)
    requires
        b.wf(),
        0 <= s@ < 64,
        b@.squares[s@] == Some(p),
        p.color == b@.side_to_move,
        p.kind == PieceKind::Pawn,
    ensures
        final(res)@.len() >= old(res)@.len(),
        forall|i: int| 0 <= i < old(res)@.len() ==> final(res)@[i] == old(res)@[i],
        forall|i: int|
            old(res)@.len() <= i < final(res)@.len() ==> generated_ok(b@, #[trigger] final(res)@[i]),
        final(res)@ =~= old(res)@ + pawn_moves_at(b@, s@, p),
{
    let c = p.color;
    if let Some(t1) = s.get_forward(c) {
        if let Some(t2) = t1.get_forward(c) {
            if b.get_piece(t1).is_none() {
                let m = Move::new(p, s, t1, None, None, false, false);
                proof {
                    assert(generated_ok(b@, m));
                }
                res.push(m);
                let r0 = s.as_index() / 8;
                let on_start = match c {
                    Color::White => r0 == 1,
                    Color::Black => r0 == 6,
                };
                if on_start && b.get_piece(t2).is_none() {
                    let m2 = Move::new(p, s, t2, None, None, false, false);
                    proof {
                        assert(generated_ok(b@, m2));
                    }
                    res.push(m2);
                }
            }
            proof {
                assert(res@ =~= old(res)@ + pawn_push_moves(b@, s@, p, t1@, t2@));
            }
            gen_pawn_side_capture(b, s, p, t1, true, res);
            gen_pawn_side_capture(b, s, p, t1, false, res);
            proof {
                assert(res@ =~= old(res)@ + pawn_moves_at(b@, s@, p));
            }
        } else {
            gen_pawn_promos(b, s, p, t1, PieceKind::Knight, res);
            gen_pawn_promos(b, s, p, t1, PieceKind::Bishop, res);
            gen_pawn_promos(b, s, p, t1, PieceKind::Rook, res);
            gen_pawn_promos(b, s, p, t1, PieceKind::Queen, res);
            proof {
                assert(res@ =~= old(res)@ + pawn_moves_at(b@, s@, p));
            }
        }
    }
}

/// Emits every move of the knight on square `s`.
fn gen_knight_moves(b: &Board, s: Square, p: Piece, res: &mut Vec<Move>)
    requires
        b.wf(),
        0 <= s@ < 64,
        b@.squares[s@] == Some(p),
        p.color == b@.side_to_move,
        p.kind == PieceKind::Knight,
    ensures
        final(res)@.len() >= old(res)@.len(),
        forall|i: int| 0 <= i < old(res)@.len() ==> final(res)@[i] == old(res)@[i],
        forall|i: int|
            old(res)@.len() <= i < final(res)@.len() ==> generated_ok(b@, #[trigger] final(res)@[i]),
        final(res)@ =~= old(res)@ + knight_moves_at(b@, s@, p),
{
    let c = p.color;
    let ts = s.get_knight_moves();
    let mut i: usize = 0;
    while i < ts.len()
        invariant
            b.wf(),
            0 <= s@ < 64,
            b@.squares[s@] == Some(p),
            p.color == b@.side_to_move,
            p.kind == PieceKind::Knight,
            c == p.color,
            ts@.map_values(|q: Square| q@) == knight_targets(s@),
            i <= ts@.len(),
            res@.len() >= old(res)@.len(),
            forall|j: int| 0 <= j < old(res)@.len() ==> res@[j] == old(res)@[j],
            forall|j: int|
                old(res)@.len() <= j < res@.len() ==> generated_ok(b@, #[trigger] res@[j]),
            res@ =~= old(res)@ + knight_moves_upto(b@, s@, p, knight_targets(s@), i as int),
        decreases ts@.len() - i,
    {
        let t = ts[i];
        let _bound = t.as_index();
        proof {
            assert(ts@.map_values(|q: Square| q@)[i as int] == knight_targets(s@)[i as int]);
            assert(knight_targets(s@).contains(t@));
        }
        match b.get_piece(t) {
            Some(q) => {
                if q.get_color() != c {
                    let m = Move::new(p, s, t, Some(q), None, false, false);
                    proof {
                        assert(generated_ok(b@, m));
                    }
                    res.push(m);
                }
            },
            None => {
                let m = Move::new(p, s, t, None, None, false, false);
                proof {
                    assert(generated_ok(b@, m));
                }
                res.push(m);
            },
        }
        proof {
            assert(knight_moves_upto(b@, s@, p, knight_targets(s@), i as int + 1)
                == knight_moves_upto(b@, s@, p, knight_targets(s@), i as int) + step_move_at(
                b@,
                s@,
                p,
                knight_targets(s@)[i as int],
            ));
            assert(res@ =~= old(res)@ + knight_moves_upto(b@, s@, p, knight_targets(s@), i as int
                + 1));
        }
        i = i + 1;
    }
    proof {
        assert(res@ =~= old(res)@ + knight_moves_at(b@, s@, p));
    }
}

/// Emits the moves of the slider on square `s` along one ray: a quiet move
/// for each empty square, then at most one capture at the first occupied
/// square, where the ray stops.
#[verifier::rlimit(100)]
fn gen_slider_dir(b: &Board, s: Square, p: Piece, d: Direction, res: &mut Vec<Move>)
    requires
        b.wf(),
        0 <= s@ < 64,
        b@.squares[s@] == Some(p),
        p.color == b@.side_to_move,
        p.kind == PieceKind::Bishop || p.kind == PieceKind::Rook || p.kind == PieceKind::Queen,
        slider_dir_ok(p.kind, d),
    ensures
        final(res)@.len() >= old(res)@.len(),
        forall|i: int| 0 <= i < old(res)@.len() ==> final(res)@[i] == old(res)@[i],
        forall|i: int|
            old(res)@.len() <= i < final(res)@.len() ==> generated_ok(b@, #[trigger] final(res)@[i]),
        final(res)@ =~= old(res)@ + ray_moves(b@, s@, p, d, s@, 8),
{
    let c = p.color;
    let mut cur: Square = s;
    let ghost mut k: int = 0;
    let mut done: bool = false;
    let mut steps: usize = 0;
    while steps < 8 && !done
        invariant
            b.wf(),
            0 <= s@ < 64,
            b@.squares[s@] == Some(p),
            p.color == b@.side_to_move,
            p.kind == PieceKind::Bishop || p.kind == PieceKind::Rook || p.kind == PieceKind::Queen,
            slider_dir_ok(p.kind, d),
            c == p.color,
            0 <= cur@ < 64,
            k >= 0,
            file_of(cur@) == file_of(s@) + k * dir_file_delta(d),
            rank_of(cur@) == rank_of(s@) + k * dir_rank_delta(d),
            forall|j: int|
                1 <= j <= k ==> (#[trigger] b@.squares[square_at(
                    file_of(s@) + j * dir_file_delta(d),
                    rank_of(s@) + j * dir_rank_delta(d),
                )]) is None,
            res@.len() >= old(res)@.len(),
            forall|j: int| 0 <= j < old(res)@.len() ==> res@[j] == old(res)@[j],
            forall|j: int|
                old(res)@.len() <= j < res@.len() ==> generated_ok(b@, #[trigger] res@[j]),
            steps <= 8,
            !done ==> k == steps,
            !done ==> old(res)@ + ray_moves(b@, s@, p, d, s@, 8) =~= res@ + ray_moves(
                b@,
                s@,
                p,
                d,
                cur@,
                (8 - k) as nat,
            ),
            done ==> res@ =~= old(res)@ + ray_moves(b@, s@, p, d, s@, 8),
        decreases 8 - steps,
    {
        match cur.get_by_dir(d) {
            None => {
                proof {
                    assert(ray_moves(b@, s@, p, d, cur@, (8 - k) as nat) =~= Seq::<Move>::empty());
                    assert(res@ =~= old(res)@ + ray_moves(b@, s@, p, d, s@, 8));
                }
                done = true;
            },
            Some(u) => {
                match b.get_piece(u) {
                    Some(q) => {
                        let ghost rest = ray_moves(b@, s@, p, d, cur@, (8 - k) as nat);
                        if q.get_color() != c {
                            let m = Move::new(p, s, u, Some(q), None, false, false);
                            proof {
                                assert((k + 1) * dir_file_delta(d) == k * dir_file_delta(d)
                                    + dir_file_delta(d)) by (nonlinear_arith);
                                assert((k + 1) * dir_rank_delta(d) == k * dir_rank_delta(d)
                                    + dir_rank_delta(d)) by (nonlinear_arith);
                                assert(slider_reach(b@, m, d, k + 1));
                                assert(generated_ok(b@, m));
                                assert(rest =~= seq![m]);
                            }
                            res.push(m);
                        } else {
                            proof {
                                assert(rest =~= Seq::<Move>::empty());
                            }
                        }
                        proof {
                            assert(res@ =~= old(res)@ + ray_moves(b@, s@, p, d, s@, 8));
                        }
                        done = true;
                    },
                    None => {
                        let m = Move::new(p, s, u, None, None, false, false);
                        proof {
                            assert((k + 1) * dir_file_delta(d) == k * dir_file_delta(d)
                                + dir_file_delta(d)) by (nonlinear_arith);
                            assert((k + 1) * dir_rank_delta(d) == k * dir_rank_delta(d)
                                + dir_rank_delta(d)) by (nonlinear_arith);
                            assert(slider_reach(b@, m, d, k + 1));
                            assert(generated_ok(b@, m));
                            assert(ray_moves(b@, s@, p, d, cur@, (8 - k) as nat) == seq![m]
                                + ray_moves(b@, s@, p, d, u@, (8 - (k + 1)) as nat));
                        }
                        res.push(m);
                        cur = u;
                        proof {
                            k = k + 1;
                        }
                    },
                }
            },
        }
        steps = steps + 1;
    }
    proof {
        if !done {
            assert(ray_moves(b@, s@, p, d, cur@, (8 - k) as nat) =~= Seq::<Move>::empty());
        }
        assert(res@ =~= old(res)@ + ray_moves(b@, s@, p, d, s@, 8));
    }
}

/// Emits every move of the slider on square `s`, ray by ray.
#[verifier::rlimit(100)]
fn gen_slider_moves(b: &Board, s: Square, p: Piece, res: &mut Vec<Move>)
    requires
        b.wf(),
        0 <= s@ < 64,
        b@.squares[s@] == Some(p),
        p.color == b@.side_to_move,
        p.kind == PieceKind::Bishop || p.kind == PieceKind::Rook || p.kind == PieceKind::Queen,
    ensures
        final(res)@.len() >= old(res)@.len(),
        forall|i: int| 0 <= i < old(res)@.len() ==> final(res)@[i] == old(res)@[i],
        forall|i: int|
            old(res)@.len() <= i < final(res)@.len() ==> generated_ok(b@, #[trigger] final(res)@[i]),
        final(res)@ =~= old(res)@ + slider_moves_at(b@, s@, p),
{
    match p.get_kind() {
        PieceKind::Rook => {
            gen_slider_dir(b, s, p, Direction::Up, res);
            gen_slider_dir(b, s, p, Direction::Down, res);
            gen_slider_dir(b, s, p, Direction::Left, res);
            gen_slider_dir(b, s, p, Direction::Right, res);
        },
        PieceKind::Bishop => {
            gen_slider_dir(b, s, p, Direction::UpLeft, res);
            gen_slider_dir(b, s, p, Direction::UpRight, res);
            gen_slider_dir(b, s, p, Direction::DownLeft, res);
            gen_slider_dir(b, s, p, Direction::DownRight, res);
        },
        _ => {
            gen_slider_dir(b, s, p, Direction::Up, res);
            gen_slider_dir(b, s, p, Direction::Down, res);
            gen_slider_dir(b, s, p, Direction::Left, res);
            gen_slider_dir(b, s, p, Direction::Right, res);
            gen_slider_dir(b, s, p, Direction::UpLeft, res);
            gen_slider_dir(b, s, p, Direction::UpRight, res);
            gen_slider_dir(b, s, p, Direction::DownLeft, res);
            gen_slider_dir(b, s, p, Direction::DownRight, res);
        },
    }
    proof {
        assert(res@ =~= old(res)@ + slider_moves_at(b@, s@, p));
    }
}

/// Emits the king's single step in one direction, if it stays on the board
/// and does not land on a friendly piece.
fn gen_king_step(b: &Board, s: Square, p: Piece, d: Direction, res: &mut Vec<Move>)
    requires
        b.wf(),
        0 <= s@ < 64,
        b@.squares[s@] == Some(p),
        p.color == b@.side_to_move,
        p.kind == PieceKind::King,
    ensures
        final(res)@.len() >= old(res)@.len(),
        forall|i: int| 0 <= i < old(res)@.len() ==> final(res)@[i] == old(res)@[i],
        forall|i: int|
            old(res)@.len() <= i < final(res)@.len() ==> generated_ok(b@, #[trigger] final(res)@[i]),
        final(res)@ =~= old(res)@ + king_step_moves(b@, s@, p, d),
{
    let c = p.color;
    if let Some(t) = s.get_by_dir(d) {
        match b.get_piece(t) {
            Some(q) => {
                if q.get_color() != c {
                    let m = Move::new(p, s, t, Some(q), None, false, false);
                    proof {
                        assert((#[trigger] step_of(m.from@, d)) == Some(m.to@));
                        assert(generated_ok(b@, m));
                    }
                    res.push(m);
                }
            },
            None => {
                let m = Move::new(p, s, t, None, None, false, false);
                proof {
                    assert((#[trigger] step_of(m.from@, d)) == Some(m.to@));
                    assert(generated_ok(b@, m));
                }
                res.push(m);
            },
        }
    }
}

/// Emits the castling move of the king on square `s` toward one side, when
/// the permission stands, the rook is on its starting square, the files
/// strictly between king and rook are empty, and both destination squares
/// are free or about to be vacated by the king or rook themselves.
fn gen_castle_side(b: &Board, s: Square, p: Piece, kingside: bool, res: &mut Vec<Move>)
    requires
        b.wf(),
        0 <= s@ < 64,
        b@.squares[s@] == Some(p),
        p.color == b@.side_to_move,
        p.kind == PieceKind::King,
        s@ == square_at(file_index(b@.initial_king_file), back_rank_of(p.color)),
    ensures
        final(res)@.len() >= old(res)@.len(),
        forall|i: int| 0 <= i < old(res)@.len() ==> final(res)@[i] == old(res)@[i],
        forall|i: int|
            old(res)@.len() <= i < final(res)@.len() ==> generated_ok(b@, #[trigger] final(res)@[i]),
        final(res)@ =~= old(res)@ + castle_side_moves(b@, s@, p, kingside),
{
    let c = p.color;
    let right = match c {
        Color::White => if kingside {
            CastlingRights::WhiteKingside
        } else {
            CastlingRights::WhiteQueenside
        },
        Color::Black => if kingside {
            CastlingRights::BlackKingside
        } else {
            CastlingRights::BlackQueenside
        },
    };
    if !b.get_castling_right(right) {
        return ;
    }
    let br: usize = match c {
        Color::White => 0,
        Color::Black => 7,
    };
    let kf = crate::square::file_to_index(b.get_initial_king_file()) as usize;
    let rfile: usize = if kingside {
        crate::square::file_to_index(b.get_initial_kingside_rook_file()) as usize
    } else {
        crate::square::file_to_index(b.get_initial_queenside_rook_file()) as usize
    };
    let rf_idx = rfile + 8 * br;
    let rook = Piece::new(PieceKind::Rook, c);
    match b.get_piece(Square::from_int(rf_idx as u32)) {
        Some(q) => {
            if q != rook {
                return ;
            }
        },
        None => {
            return ;
        },
    }
    let lof = if kf < rfile {
        kf
    } else {
        rfile
    };
    let hif = if kf < rfile {
        rfile
    } else {
        kf
    };
    let mut clear = true;
    let mut x = lof + 1;
    while x < hif
        invariant
            b.wf(),
            lof < x,
            x <= hif || lof + 1 > hif,
            hif < 8,
            br == 0 || br == 7,
            clear ==> forall|y: int|
                lof < y < x ==> b@.squares[square_at(y, br as int)] is None,
            !clear ==> exists|y: int|
                lof < y < hif && (#[trigger] b@.squares[square_at(y, br as int)]) is Some,
        decreases hif - x,
    {
        if b.get_piece(Square::from_int((x + 8 * br) as u32)).is_some() {
            proof {
                assert(b@.squares[square_at(x as int, br as int)] is Some);
            }
            clear = false;
        }
        x = x + 1;
    }
    if !clear {
        proof {
            let y0 = choose|y: int|
                lof < y < hif && (#[trigger] b@.squares[square_at(y, br as int)]) is Some;
            assert(b@.squares[square_at(y0, back_rank_of(p.color))] is Some);
            assert(res@ =~= old(res)@ + castle_side_moves(b@, s@, p, kingside));
        }
        return ;
    }
    let from_idx = s.as_index();
    let to_file: usize = if kingside {
        6
    } else {
        2
    };
    let to_idx = to_file + 8 * br;
    let rt_idx = (if kingside {
        5
    } else {
        3
    }) + 8 * br;
    if !(to_idx == from_idx || to_idx == rf_idx) && b.get_piece(
        Square::from_int(to_idx as u32),
    ).is_some() {
        return ;
    }
    if !(rt_idx == from_idx || rt_idx == rf_idx) && b.get_piece(
        Square::from_int(rt_idx as u32),
    ).is_some() {
        return ;
    }
    let m = Move::new(p, s, Square::from_int(to_idx as u32), None, None, false, true);
    proof {
        assert(generated_ok(b@, m));
    }
    res.push(m);
}

/// Emits the castling moves of the king on square `s`, when it stands on
/// its recorded starting square: kingside first, then queenside.
fn gen_castles(b: &Board, s: Square, p: Piece, res: &mut Vec<Move>)
    requires
        b.wf(),
        0 <= s@ < 64,
        b@.squares[s@] == Some(p),
        p.color == b@.side_to_move,
        p.kind == PieceKind::King,
    ensures
        final(res)@.len() >= old(res)@.len(),
        forall|i: int| 0 <= i < old(res)@.len() ==> final(res)@[i] == old(res)@[i],
        forall|i: int|
            old(res)@.len() <= i < final(res)@.len() ==> generated_ok(b@, #[trigger] final(res)@[i]),
        final(res)@ =~= old(res)@ + castle_moves_at(b@, s@, p),
{
    let br: usize = match p.get_color() {
        Color::White => 0,
        Color::Black => 7,
    };
    let kf = crate::square::file_to_index(b.get_initial_king_file()) as usize;
    if s.as_index() == kf + 8 * br {
        gen_castle_side(b, s, p, true, res);
        gen_castle_side(b, s, p, false, res);
    }
}

/// Computes every pseudo-legal move of the side to move, scanning the
/// squares in index order and, for each piece, its directions in a fixed
/// order. Every emitted move is accepted by `do_move_inplace` on this
/// board, moves a piece of the side to move, never captures a piece of its
/// own color, and — for sliders — never passes the first occupied square
/// of its ray. Whether a move leaves the mover's own king attacked is not
/// examined here: that filtering belongs to the caller.
/// Emits every move for one square: none unless it holds a piece of the
/// side to move, else that piece's moves in their fixed order.
#[verifier::rlimit(100)]
fn gen_square_moves(b: &Board, s: Square, res: &mut Vec<Move>)
    requires
        b.wf(),
        0 <= s@ < 64,
    ensures
        final(res)@.len() >= old(res)@.len(),
        forall|i: int| 0 <= i < old(res)@.len() ==> final(res)@[i] == old(res)@[i],
        forall|i: int|
            old(res)@.len() <= i < final(res)@.len() ==> generated_ok(b@, #[trigger] final(res)@[i]),
        final(res)@ =~= old(res)@ + moves_at(b@, s@),
{
    let ghost res0 = res@;
    if let Some(p) = b.get_piece(s) {
        if p.get_color() == b.get_side_to_move() {
            match p.get_kind() {
                PieceKind::Pawn => gen_pawn_moves(b, s, p, res),
                PieceKind::Knight => gen_knight_moves(b, s, p, res),
                PieceKind::Bishop | PieceKind::Rook | PieceKind::Queen => gen_slider_moves(
                    b,
                    s,
                    p,
                    res,
                ),
                PieceKind::King => {
                    gen_king_step(b, s, p, Direction::Up, res);
                    gen_king_step(b, s, p, Direction::Down, res);
                    gen_king_step(b, s, p, Direction::Left, res);
                    gen_king_step(b, s, p, Direction::Right, res);
                    gen_king_step(b, s, p, Direction::UpLeft, res);
                    gen_king_step(b, s, p, Direction::UpRight, res);
                    gen_king_step(b, s, p, Direction::DownLeft, res);
                    gen_king_step(b, s, p, Direction::DownRight, res);
                    proof {
                        assert(res@ =~= res0 + king_moves_at(b@, s@, p));
                    }
                    gen_castles(b, s, p, res);
                },
            }
        }
    }
    proof {
        assert(res@ =~= res0 + moves_at(b@, s@));
    }
}

/// Computes every pseudo-legal move of the side to move: the result is
/// proved equal to `pseudo_legal_moves(board@)`, the specification-level
/// list built square by square in index order 0..63 with a fixed target
/// and direction order per piece — so the output is fully determined by
/// the position, and in particular deterministic. Every emitted move is
/// also accepted by `do_move_inplace` on this board, moves a piece of the
/// side to move, never captures a piece of its own color, and — for
/// sliders — never passes the first occupied square of its ray. Whether a
/// move leaves the mover's own king attacked is not examined here: that
/// filtering belongs to the caller.
pub fn generate_pseudo_legal_moves(board: Board) -> (res: Vec<Move>)
    requires
        board.wf(),
    ensures
        res@ == pseudo_legal_moves(board@),
        forall|i: int| 0 <= i < res@.len() ==> generated_ok(board@, #[trigger] res@[i]),
{
    let mut res: Vec<Move> = Vec::new();
    let mut i: u32 = 0;
    while i < 64
        invariant
            board.wf(),
            i <= 64,
            forall|j: int| 0 <= j < res@.len() ==> generated_ok(board@, #[trigger] res@[j]),
            res@ =~= moves_from_squares(board@, i as int),
        decreases 64 - i,
    {
        let s = Square::from_int(i);
        gen_square_moves(&board, s, &mut res);
        proof {
            assert(s@ == i as int);
            assert(res@ =~= moves_from_squares(board@, i as int + 1));
        }
        i = i + 1;
    }
    proof {
        assert(res@ =~= pseudo_legal_moves(board@));
    }
    res
}

} // verus!
