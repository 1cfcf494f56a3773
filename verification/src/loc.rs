use vstd::prelude::*;

verus! {

/// The letter of a file in algebraic notation: file 0 is 'A', file 7 is 'H'.
pub open spec fn file_letter(file: int) -> char {
    if file == 0 {
        'A'
    } else if file == 1 {
        'B'
    } else if file == 2 {
        'C'
    } else if file == 3 {
        'D'
    } else if file == 4 {
        'E'
    } else if file == 5 {
        'F'
    } else if file == 6 {
        'G'
    } else {
        'H'
    }
}

/// The digit of a rank in algebraic notation: rank 0 is '1', rank 7 is '8'.
pub open spec fn rank_digit(rank: int) -> char {
    if rank == 0 {
        '1'
    } else if rank == 1 {
        '2'
    } else if rank == 2 {
        '3'
    } else if rank == 3 {
        '4'
    } else if rank == 4 {
        '5'
    } else if rank == 5 {
        '6'
    } else if rank == 6 {
        '7'
    } else {
        '8'
    }
}

/// Coordinates of a square on the board.
///
/// Squares are numbered in little-endian rank-file order: the index is
/// `rank * 8 + file`, so `A1` maps to 0, `B1` to 1 and `A2` to 8.
#[derive(Debug, Clone, Copy, PartialEq, Eq, Structural)]
pub struct Loc(u8);

impl View for Loc {
    type V = int;

    closed spec fn view(&self) -> int {
        self.0 as int
    }
}

impl Loc {
    #[verifier::type_invariant]
    spec fn inv(self) -> bool {
        self.0 < 64
    }

    /// Creates new square coordinates from a zero-based rank and file,
    /// each of which must lie in [0, 8).
    pub fn new(rank: u8, file: u8) -> (r: Option<Loc>)
        ensures
            r is Some <==> (rank < 8 && file < 8),
            r matches Some(l) ==> l@ == rank * 8 + file,
    {
        proof {
            assert(((rank | file) < 8) == (rank < 8 && file < 8)) by (bit_vector);
        }
        if (rank | file) >= 8 {
            return None;
        }
        Some(Loc(rank * 8 + file))
    }

    /// Creates new square coordinates from a linear index in [0, 64).
    pub fn from_index(index: u8) -> (r: Option<Loc>)
        ensures
            r is Some <==> index < 64,
            r matches Some(l) ==> l@ == index,
    {
        if index >= 64 {
            return None;
        }
        Some(Loc(index))
    }

    /// Returns the linear index of the square.
    pub fn index(&self) -> (r: u8)
        ensures
            r == self@,
            r < 64,
    {
        proof {
            use_type_invariant(*self);
        }
        self.0
    }

    /// Returns the zero-based rank and file of the square.
    pub fn rank_file(&self) -> (r: (u8, u8))
        ensures
            r.0 == self@ / 8,
            r.1 == self@ % 8,
            self@ == r.0 * 8 + r.1,
            r.0 < 8 && r.1 < 8,
    {
        proof {
            use_type_invariant(*self);
        }
        (self.0 / 8, self.0 % 8)
    }

    /// The algebraic form of the square: its file letter followed by its
    /// one-based rank digit.
    pub open spec fn algebraic(self) -> Seq<char> {
        seq![file_letter(self@ % 8), rank_digit(self@ / 8)]
    }

    /// Renders the square in algebraic notation, e.g. index 0 as "A1" and
    /// index 8 as "A2".
    pub fn to_algebraic(&self) -> (r: String)
        ensures
            r@ == self.algebraic(),
    {
        let (rank, file) = self.rank_file();
        let f: &str = if file == 0 {
            "A"
        } else if file == 1 {
            "B"
        } else if file == 2 {
            "C"
        } else if file == 3 {
            "D"
        } else if file == 4 {
            "E"
        } else if file == 5 {
            "F"
        } else if file == 6 {
            "G"
        } else {
            "H"
        };
        let k: &str = if rank == 0 {
            "1"
        } else if rank == 1 {
            "2"
        } else if rank == 2 {
            "3"
        } else if rank == 3 {
            "4"
        } else if rank == 4 {
            "5"
        } else if rank == 5 {
            "6"
        } else if rank == 6 {
            "7"
        } else {
            "8"
        };
        proof {
            reveal_strlit("A");
            reveal_strlit("B");
            reveal_strlit("C");
            reveal_strlit("D");
            reveal_strlit("E");
            reveal_strlit("F");
            reveal_strlit("G");
            reveal_strlit("H");
            reveal_strlit("1");
            reveal_strlit("2");
            reveal_strlit("3");
            reveal_strlit("4");
            reveal_strlit("5");
            reveal_strlit("6");
            reveal_strlit("7");
            reveal_strlit("8");
            assert(f@ + k@ =~= self.algebraic());
        }
        f.to_owned().concat(k)
    }
}

/// Two squares with the same index are the same square.
pub proof fn lemma_loc_eq(a: Loc, b: Loc)
    requires
        a@ == b@,
    ensures
        a == b,
{
}

/// Round trip between the two constructors and `rank_file`: for any rank and
/// file in [0, 8), the index `rank * 8 + file` is a valid square index, so
/// `new(rank, file)` and `from_index(rank * 8 + file)` construct the same
/// square, and dividing that index back out recovers exactly the rank and
/// the file that `rank_file` returns.
pub proof fn lemma_rank_file_round_trip(rank: u8, file: u8)
    requires
        rank < 8,
        file < 8,
    ensures
        0 <= rank * 8 + file < 64,
        (rank * 8 + file) / 8 == rank,
        (rank * 8 + file) % 8 == file,
{
}

/// The algebraic rendering of a square has exactly two characters: the
/// letter 'A' shifted up by the square's file, then the digit of its
/// one-based rank.
pub proof fn lemma_algebraic_form(l: Loc)
    requires
        0 <= l@ < 64,
    ensures
        l.algebraic().len() == 2,
        l.algebraic()[0] as int == 'A' as int + l@ % 8,
        l.algebraic()[1] as int == '0' as int + 1 + l@ / 8,
{
    lemma_file_letter_code(l@ % 8);
    lemma_rank_digit_code(l@ / 8);
}

/// The file letter of a square is 'A' shifted up by the file number.
pub proof fn lemma_file_letter_code(file: int)
    requires
        0 <= file < 8,
    ensures
        file_letter(file) as int == 'A' as int + file,
{
}

/// The rank digit of a square is the character of the one-based rank,
/// i.e. '0' shifted up by rank + 1.
pub proof fn lemma_rank_digit_code(rank: int)
    requires
        0 <= rank < 8,
    ensures
        rank_digit(rank) as int == '0' as int + rank + 1,
{
}

} // verus!
