use vstd::prelude::*;

verus! {

/// The two sides of the game.
#[derive(Copy, Clone, Debug, PartialEq, Eq, Structural)]
pub enum Color {
    White,
    Black,
}

/// The eight ranks of the board, from White's home rank to Black's.
#[derive(Copy, Clone, Debug, PartialEq, Eq, Structural)]
pub enum Rank {
    First,
    Second,
    Third,
    Fourth,
    Fifth,
    Sixth,
    Seventh,
    Eighth,
}

/// The eight files of the board, from the queenside edge to the kingside edge.
#[derive(Copy, Clone, Debug, PartialEq, Eq, Structural)]
pub enum File {
    A,
    B,
    C,
    D,
    E,
    F,
    G,
    H,
}

/// The eight single-step directions a piece can move in.
#[derive(Copy, Clone, Debug, PartialEq, Eq, Structural)]
pub enum Direction {
    Up,
    Down,
    Left,
    Right,
    UpLeft,
    UpRight,
    DownLeft,
    DownRight,
}

/// Returns the opposite color.
pub open spec fn other_color(c: Color) -> Color {
    match c {
        Color::White => Color::Black,
        Color::Black => Color::White,
    }
}

/// The 0-based index of a file (A is 0, H is 7).
pub open spec fn file_index(f: File) -> int {
    match f {
        File::A => 0,
        File::B => 1,
        File::C => 2,
        File::D => 3,
        File::E => 4,
        File::F => 5,
        File::G => 6,
        File::H => 7,
    }
}

/// The 0-based index of a rank (First is 0, Eighth is 7).
pub open spec fn rank_index(r: Rank) -> int {
    match r {
        Rank::First => 0,
        Rank::Second => 1,
        Rank::Third => 2,
        Rank::Fourth => 3,
        Rank::Fifth => 4,
        Rank::Sixth => 5,
        Rank::Seventh => 6,
        Rank::Eighth => 7,
    }
}

/// The file with the given 0-based index (7 and above map to H).
pub open spec fn file_with_index(i: int) -> File {
    if i == 0 {
        File::A
    } else if i == 1 {
        File::B
    } else if i == 2 {
        File::C
    } else if i == 3 {
        File::D
    } else if i == 4 {
        File::E
    } else if i == 5 {
        File::F
    } else if i == 6 {
        File::G
    } else {
        File::H
    }
}

/// The file coordinate of a square index.
pub open spec fn file_of(s: int) -> int {
    s % 8
}

/// The rank coordinate of a square index.
pub open spec fn rank_of(s: int) -> int {
    s / 8
}

/// The square index with the given file and rank coordinates.
pub open spec fn square_at(f: int, r: int) -> int {
    f + 8 * r
}

/// The change in file coordinate caused by one step in direction `d`.
pub open spec fn dir_file_delta(d: Direction) -> int {
    match d {
        Direction::Up => 0,
        Direction::Down => 0,
        Direction::Left => -1,
        Direction::Right => 1,
        Direction::UpLeft => -1,
        Direction::UpRight => 1,
        Direction::DownLeft => -1,
        Direction::DownRight => 1,
    }
}

/// The change in rank coordinate caused by one step in direction `d`.
pub open spec fn dir_rank_delta(d: Direction) -> int {
    match d {
        Direction::Up => 1,
        Direction::Down => -1,
        Direction::Left => 0,
        Direction::Right => 0,
        Direction::UpLeft => 1,
        Direction::UpRight => 1,
        Direction::DownLeft => -1,
        Direction::DownRight => -1,
    }
}

/// One step from square `s` in direction `d`: the destination index,
/// or `None` when the step would leave the board.
pub open spec fn step_of(s: int, d: Direction) -> Option<int> {
    let f = file_of(s) + dir_file_delta(d);
    let r = rank_of(s) + dir_rank_delta(d);
    if 0 <= f < 8 && 0 <= r < 8 {
        Some(square_at(f, r))
    } else {
        None
    }
}

/// The pawn-relative forward step: up the board for White, down for Black.
pub open spec fn forward_of(s: int, c: Color) -> Option<int> {
    match c {
        Color::White => step_of(s, Direction::Up),
        Color::Black => step_of(s, Direction::Down),
    }
}

/// The pawn-relative backward step.
pub open spec fn back_of(s: int, c: Color) -> Option<int> {
    match c {
        Color::White => step_of(s, Direction::Down),
        Color::Black => step_of(s, Direction::Up),
    }
}

/// The view of an optional square as an optional index.
pub open spec fn osv(o: Option<Square>) -> Option<int> {
    match o {
        Some(s) => Some(s@),
        None => None,
    }
}

/// A singleton target sequence when `cond` holds, else empty.
pub open spec fn maybe_target(cond: bool, t: int) -> Seq<int> {
    if cond {
        seq![t]
    } else {
        Seq::empty()
    }
}

/// The knight-move destinations of square `s`, in a fixed scan order.
pub open spec fn knight_targets(s: int) -> Seq<int> {
    let f = file_of(s);
    let r = rank_of(s);
    maybe_target(r <= 5 && f <= 6, s + 17) + maybe_target(r <= 5 && f >= 1, s + 15)
        + maybe_target(r >= 2 && f <= 6, s - 15) + maybe_target(r >= 2 && f >= 1, s - 17)
        + maybe_target(r <= 6 && f <= 5, s + 10) + maybe_target(r <= 6 && f >= 2, s + 6)
        + maybe_target(r >= 1 && f <= 5, s - 6) + maybe_target(r >= 1 && f >= 2, s - 10)
}

/// The lowercase letter naming a file coordinate.
pub open spec fn file_char(f: int) -> char {
    if f == 0 {
        'a'
    } else if f == 1 {
        'b'
    } else if f == 2 {
        'c'
    } else if f == 3 {
        'd'
    } else if f == 4 {
        'e'
    } else if f == 5 {
        'f'
    } else if f == 6 {
        'g'
    } else {
        'h'
    }
}

/// The digit naming a rank coordinate.
pub open spec fn rank_char(r: int) -> char {
    if r == 0 {
        '1'
    } else if r == 1 {
        '2'
    } else if r == 2 {
        '3'
    } else if r == 3 {
        '4'
    } else if r == 4 {
        '5'
    } else if r == 5 {
        '6'
    } else if r == 6 {
        '7'
    } else {
        '8'
    }
}

/// A board square, encoded as `file + 8 * rank` in the range `[0, 64)`.
#[derive(Copy, Clone, Debug, PartialEq, Eq, Structural)]
pub struct Square {
    idx: u8,
}

impl View for Square {
    type V = int;

    closed spec fn view(&self) -> int {
        self.idx as int
    }
}

/// The square value with the given index, for use in specifications.
pub closed spec fn square_of(i: int) -> Square {
    Square { idx: i as u8 }
}

/// A square equals the specification-level square built from its own index.
pub broadcast proof fn lemma_square_of_roundtrip(s: Square)
    ensures
        #[trigger] square_of(s@) == s,
{
}

/// Relies on std's `format!` with two `char` arguments: `Display` for `char`
/// writes exactly that character, so the result is the two characters in order.
#[verifier::external_body]
fn concat_chars(a: char, b: char) -> (s: String)
    ensures
        s@ == seq![a, b],
{
    format!("{}{}", a, b)
}

impl Square {
    #[verifier::type_invariant]
    spec fn bounded(self) -> bool {
        self.idx < 64
    }

    /// Builds the square with index `num`, reduced modulo 64.
    pub fn from_int(num: u32) -> (s: Square)
        ensures
            s@ == (num as int) % 64,
    {
        Square { idx: (num % 64) as u8 }
    }

    /// Builds the square on the given file and rank.
    pub fn from_file_and_rank(file: File, rank: Rank) -> (s: Square)
        ensures
            s@ == square_at(file_index(file), rank_index(rank)),
    {
        let f: u8 = file_to_index(file);
        let r: u8 = rank_to_index(rank);
        Square { idx: f + 8 * r }
    }

    /// The file this square lies on.
    pub fn get_file(&self) -> (f: File)
        ensures
            file_index(f) == file_of(self@),
    {
        proof {
            use_type_invariant(&*self);
        }
        match self.idx % 8 {
            0 => File::A,
            1 => File::B,
            2 => File::C,
            3 => File::D,
            4 => File::E,
            5 => File::F,
            6 => File::G,
            _ => File::H,
        }
    }

    /// The rank this square lies on.
    pub fn get_rank(&self) -> (r: Rank)
        ensures
            rank_index(r) == rank_of(self@),
    {
        proof {
            use_type_invariant(&*self);
        }
        match self.idx / 8 {
            0 => Rank::First,
            1 => Rank::Second,
            2 => Rank::Third,
            3 => Rank::Fourth,
            4 => Rank::Fifth,
            5 => Rank::Sixth,
            6 => Rank::Seventh,
            _ => Rank::Eighth,
        }
    }

    /// The square one rank up, if any.
    pub fn get_up(&self) -> (r: Option<Square>)
        ensures
            osv(r) == step_of(self@, Direction::Up),
    {
        proof {
            use_type_invariant(&*self);
        }
        if self.idx / 8 != 7 {
            Some(Square { idx: self.idx + 8 })
        } else {
            None
        }
    }

    /// The square one rank down, if any.
    pub fn get_down(&self) -> (r: Option<Square>)
        ensures
            osv(r) == step_of(self@, Direction::Down),
    {
        proof {
            use_type_invariant(&*self);
        }
        if self.idx / 8 != 0 {
            Some(Square { idx: self.idx - 8 })
        } else {
            None
        }
    }

    /// The square one file to the left, if any.
    pub fn get_left(&self) -> (r: Option<Square>)
        ensures
            osv(r) == step_of(self@, Direction::Left),
    {
        proof {
            use_type_invariant(&*self);
        }
        if self.idx % 8 != 0 {
            Some(Square { idx: self.idx - 1 })
        } else {
            None
        }
    }

    /// The square one file to the right, if any.
    pub fn get_right(&self) -> (r: Option<Square>)
        ensures
            osv(r) == step_of(self@, Direction::Right),
    {
        proof {
            use_type_invariant(&*self);
        }
        if self.idx % 8 != 7 {
            Some(Square { idx: self.idx + 1 })
        } else {
            None
        }
    }

    /// The square one step up-left, if any.
    pub fn get_up_left(&self) -> (r: Option<Square>)
        ensures
            osv(r) == step_of(self@, Direction::UpLeft),
    {
        proof {
            use_type_invariant(&*self);
        }
        if self.idx / 8 != 7 && self.idx % 8 != 0 {
            Some(Square { idx: self.idx + 7 })
        } else {
            None
        }
    }

    /// The square one step up-right, if any.
    pub fn get_up_right(&self) -> (r: Option<Square>)
        ensures
            osv(r) == step_of(self@, Direction::UpRight),
    {
        proof {
            use_type_invariant(&*self);
        }
        if self.idx / 8 != 7 && self.idx % 8 != 7 {
            Some(Square { idx: self.idx + 9 })
        } else {
            None
        }
    }

    /// The square one step down-left, if any.
    pub fn get_down_left(&self) -> (r: Option<Square>)
        ensures
            osv(r) == step_of(self@, Direction::DownLeft),
    {
        proof {
            use_type_invariant(&*self);
        }
        if self.idx / 8 != 0 && self.idx % 8 != 0 {
            Some(Square { idx: self.idx - 9 })
        } else {
            None
        }
    }

    /// The square one step down-right, if any.
    pub fn get_down_right(&self) -> (r: Option<Square>)
        ensures
            osv(r) == step_of(self@, Direction::DownRight),
    {
        proof {
            use_type_invariant(&*self);
        }
        if self.idx / 8 != 0 && self.idx % 8 != 7 {
            Some(Square { idx: self.idx - 7 })
        } else {
            None
        }
    }

    /// The pawn-relative forward step for the given color.
    pub fn get_forward(&self, color: Color) -> (r: Option<Square>)
        ensures
            osv(r) == forward_of(self@, color),
    {
        match color {
            Color::White => self.get_up(),
            Color::Black => self.get_down(),
        }
    }

    /// The pawn-relative backward step for the given color.
    pub fn get_back(&self, color: Color) -> (r: Option<Square>)
        ensures
            osv(r) == back_of(self@, color),
    {
        match color {
            Color::White => self.get_down(),
            Color::Black => self.get_up(),
        }
    }

    /// All knight-move destinations of this square, in a fixed scan order.
    pub fn get_knight_moves(&self) -> (res: Vec<Square>)
        ensures
            res@.map_values(|q: Square| q@) == knight_targets(self@),
    {
        proof {
            use_type_invariant(&*self);
        }
        let f: u8 = self.idx % 8;
        let r: u8 = self.idx / 8;
        let mut res: Vec<Square> = Vec::new();
        if r <= 5 && f <= 6 {
            res.push(Square { idx: self.idx + 17 });
        }
        if r <= 5 && f >= 1 {
            res.push(Square { idx: self.idx + 15 });
        }
        if r >= 2 && f <= 6 {
            res.push(Square { idx: self.idx - 15 });
        }
        if r >= 2 && f >= 1 {
            res.push(Square { idx: self.idx - 17 });
        }
        if r <= 6 && f <= 5 {
            res.push(Square { idx: self.idx + 10 });
        }
        if r <= 6 && f >= 2 {
            res.push(Square { idx: self.idx + 6 });
        }
        if r >= 1 && f <= 5 {
            res.push(Square { idx: self.idx - 6 });
        }
        if r >= 1 && f >= 2 {
            res.push(Square { idx: self.idx - 10 });
        }
        proof {
            assert(res@.map_values(|q: Square| q@) =~= knight_targets(self@));
        }
        res
    }

    /// One step in the given direction, if it stays on the board.
    pub fn get_by_dir(&self, dir: Direction) -> (r: Option<Square>)
        ensures
            osv(r) == step_of(self@, dir),
    {
        match dir {
            Direction::Up => self.get_up(),
            Direction::Down => self.get_down(),
            Direction::Left => self.get_left(),
            Direction::Right => self.get_right(),
            Direction::UpLeft => self.get_up_left(),
            Direction::UpRight => self.get_up_right(),
            Direction::DownLeft => self.get_down_left(),
            Direction::DownRight => self.get_down_right(),
        }
    }

    /// The integer encoding of this square, always below 64.
    pub fn as_index(&self) -> (i: usize)
        ensures
            i == self@,
            i < 64,
    {
        proof {
            use_type_invariant(&*self);
        }
        self.idx as usize
    }

    /// The algebraic name of this square: file letter then rank digit.
    pub fn name(&self) -> (s: String)
        ensures
            s@ == seq![file_char(file_of(self@)), rank_char(rank_of(self@))],
    {
        proof {
            use_type_invariant(&*self);
        }
        let fc: char = match self.idx % 8 {
            0 => 'a',
            1 => 'b',
            2 => 'c',
            3 => 'd',
            4 => 'e',
            5 => 'f',
            6 => 'g',
            _ => 'h',
        };
        let rc: char = match self.idx / 8 {
            0 => '1',
            1 => '2',
            2 => '3',
            3 => '4',
            4 => '5',
            5 => '6',
            6 => '7',
            _ => '8',
        };
        concat_chars(fc, rc)
    }
}

/// The file with the given 0-based index.
pub(crate) fn file_from_index(n: u8) -> (f: File)
    requires
        n < 8,
    ensures
        file_index(f) == n,
{
    match n {
        0 => File::A,
        1 => File::B,
        2 => File::C,
        3 => File::D,
        4 => File::E,
        5 => File::F,
        6 => File::G,
        _ => File::H,
    }
}

/// The 0-based index of a file, as an executable value.
pub(crate) fn file_to_index(f: File) -> (n: u8)
    ensures
        n == file_index(f),
{
    match f {
        File::A => 0,
        File::B => 1,
        File::C => 2,
        File::D => 3,
        File::E => 4,
        File::F => 5,
        File::G => 6,
        File::H => 7,
    }
}

/// The 0-based index of a rank, as an executable value.
pub(crate) fn rank_to_index(r: Rank) -> (n: u8)
    ensures
        n == rank_index(r),
{
    match r {
        Rank::First => 0,
        Rank::Second => 1,
        Rank::Third => 2,
        Rank::Fourth => 3,
        Rank::Fifth => 4,
        Rank::Sixth => 5,
        Rank::Seventh => 6,
        Rank::Eighth => 7,
    }
}

/// Knight-reach counts at the board's extremes: a corner square reaches 2
/// targets, a fully interior square 8, and an edge square at least two files
/// or ranks away from every corner reaches 4. Nearer a corner the count
/// drops to 3, so those squares are left out here.
pub proof fn lemma_knight_target_counts(s: int)
    requires
        0 <= s < 64,
    ensures
        (file_of(s) == 0 || file_of(s) == 7) && (rank_of(s) == 0 || rank_of(s) == 7)
            ==> knight_targets(s).len() == 2,
        2 <= file_of(s) <= 5 && 2 <= rank_of(s) <= 5 ==> knight_targets(s).len() == 8,
        (file_of(s) == 0 || file_of(s) == 7) && 2 <= rank_of(s) <= 5 ==> knight_targets(s).len()
            == 4,
        (rank_of(s) == 0 || rank_of(s) == 7) && 2 <= file_of(s) <= 5 ==> knight_targets(s).len()
            == 4,
{
}

} // verus!
