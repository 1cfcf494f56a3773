use vstd::prelude::*;

use crate::loc::Loc;

verus! {

/// Whether bit `i` of `v` is set, i.e. whether square `i` is a member of the
/// square set that `v` encodes. Out-of-range indices are never members.
pub open spec fn bit_at(v: u64, i: int) -> bool {
    0 <= i < 64 && ((v >> (i as u64)) & 1u64) == 1u64
}

/// A single bitboard.
///
/// Bitboards are a basic building block of bitboard board representation.
/// Under such representation a board is a collection of bitmasks. If bit n is
/// set in a bitboard, that represents a square with index n containing a
/// piece.
#[derive(Debug, Clone, Copy, PartialEq, Eq, Structural)]
pub struct Bitboard(u64);

/// An iterator over the set bits of a `Bitboard`.
///
/// This struct is created by the `Bitboard::iter()` method. It walks a
/// snapshot of the bitboard's value, so later changes to the bitboard do not
/// affect a traversal already under way.
#[derive(Debug, Clone, Copy, PartialEq, Eq, Structural)]
pub struct BitboardIter(u64);

impl View for Bitboard {
    type V = u64;

    closed spec fn view(&self) -> u64 {
        self.0
    }
}

impl View for BitboardIter {
    type V = u64;

    closed spec fn view(&self) -> u64 {
        self.0
    }
}

proof fn lemma_or_bit(a: u64, b: u64, i: int)
    ensures
        bit_at(a | b, i) <==> (bit_at(a, i) || bit_at(b, i)),
{
    if 0 <= i < 64 {
        let iu = i as u64;
        assert(((((a | b) >> iu) & 1u64) == 1u64) <==> ((((a >> iu) & 1u64) == 1u64) || (((b
            >> iu) & 1u64) == 1u64))) by (bit_vector);
    }
}

proof fn lemma_and_bit(a: u64, b: u64, i: int)
    ensures
        bit_at(a & b, i) <==> (bit_at(a, i) && bit_at(b, i)),
{
    if 0 <= i < 64 {
        let iu = i as u64;
        assert(((((a & b) >> iu) & 1u64) == 1u64) <==> ((((a >> iu) & 1u64) == 1u64) && (((b
            >> iu) & 1u64) == 1u64))) by (bit_vector);
    }
}

proof fn lemma_xor_bit(a: u64, b: u64, i: int)
    ensures
        bit_at(a ^ b, i) <==> (bit_at(a, i) != bit_at(b, i)),
{
    if 0 <= i < 64 {
        let iu = i as u64;
        assert(((((a ^ b) >> iu) & 1u64) == 1u64) <==> ((((a >> iu) & 1u64) == 1u64) != (((b
            >> iu) & 1u64) == 1u64))) by (bit_vector);
    }
}

proof fn lemma_single_bit(l: u64, i: int)
    requires
        l < 64,
    ensures
        bit_at(1u64 << l, i) <==> i == l,
{
    if 0 <= i < 64 {
        let iu = i as u64;
        assert(((((1u64 << l) >> iu) & 1u64) == 1u64) <==> iu == l) by (bit_vector)
            requires
                l < 64,
                iu < 64,
        ;
    }
}

proof fn lemma_clear_bit(v: u64, l: u64, i: int)
    requires
        l < 64,
    ensures
        bit_at(v & !(1u64 << l), i) <==> (bit_at(v, i) && i != l),
{
    if 0 <= i < 64 {
        let iu = i as u64;
        assert(((((v & !(1u64 << l)) >> iu) & 1u64) == 1u64) <==> ((((v >> iu) & 1u64) == 1u64)
            && iu != l)) by (bit_vector)
            requires
                l < 64,
                iu < 64,
        ;
    }
}

impl Bitboard {
    /// Whether the square with index `i` is a member of this set.
    pub open spec fn has(self, i: int) -> bool {
        bit_at(self@, i)
    }

    /// Creates a new bitboard holding exactly the squares listed in
    /// `indices`; listing a square twice is the same as listing it once.
    pub fn new(indices: &[Loc]) -> (r: Self)
        ensures
            forall|i: int| #[trigger]
                r.has(i) <==> (exists|k: int| 0 <= k < indices@.len() && indices@[k]@ == i),
    {
        let mut acc: u64 = 0;
        let mut j: usize = 0;
        proof {
            assert(forall|i: int| !bit_at(0u64, i)) by {
                assert(forall|iu: u64| iu < 64 ==> ((0u64 >> iu) & 1u64) == 0u64) by (bit_vector);
            }
        }
        while j < indices.len()
            invariant
                j <= indices@.len(),
                forall|i: int| #[trigger]
                    bit_at(acc, i) <==> (exists|k: int| 0 <= k < j && indices@[k]@ == i),
            decreases indices@.len() - j,
        {
            let idx = indices[j].index();
            let ghost prev = acc;
            acc = acc | (1u64 << idx);
            proof {
                assert forall|i: int| #[trigger]
                    bit_at(acc, i) <==> (exists|k: int|
                        0 <= k < j + 1 && indices@[k]@ == i) by {
                    lemma_or_bit(prev, 1u64 << idx, i);
                    lemma_single_bit(idx as u64, i);
                    if bit_at(prev, i) {
                        let kk = choose|k: int| 0 <= k < j && indices@[k]@ == i;
                        assert(0 <= kk < j + 1 && indices@[kk]@ == i);
                    }
                    if exists|k: int| 0 <= k < j + 1 && indices@[k]@ == i {
                        let kk = choose|k: int| 0 <= k < j + 1 && indices@[k]@ == i;
                        if kk < j {
                            assert(bit_at(prev, i));
                        }
                    }
                }
            }
            j += 1;
        }
        Bitboard(acc)
    }

    /// Initializes a bitboard containing a single square.
    pub fn from_single(loc: Loc) -> (r: Self)
        ensures
            r@ == (1u64 << (loc@ as u64)),
            forall|i: int| #[trigger] r.has(i) <==> i == loc@,
    {
        let idx = loc.index();
        let r = Bitboard(1u64 << idx);
        proof {
            assert forall|i: int| #[trigger] r.has(i) <==> i == loc@ by {
                lemma_single_bit(idx as u64, i);
            }
        }
        r
    }

    /// Initializes a bitboard from a raw 64-bit unsigned integer, taken
    /// verbatim as a set of squares.
    pub fn from_u64(raw: u64) -> (r: Self)
        ensures
            r@ == raw,
    {
        Bitboard(raw)
    }

    /// Checks whether the given square is set.
    pub fn at(&self, loc: Loc) -> (r: bool)
        ensures
            r == self.has(loc@),
    {
        let idx = loc.index();
        let r = (self.0 & (1u64 << idx)) != 0;
        proof {
            let v = self@;
            let l = idx as u64;
            assert(((v & (1u64 << l)) != 0) <==> (((v >> l) & 1u64) == 1u64)) by (bit_vector)
                requires
                    l < 64,
            ;
        }
        r
    }

    /// Creates an iterator over the set squares of the bitboard, from the
    /// lowest index up. The iterator walks the bitboard's value as it is at
    /// this call.
    pub fn iter(&self) -> (r: BitboardIter)
        ensures
            r@ == self@,
    {
        BitboardIter(self.0)
    }

    /// Returns the union of the two square sets.
    pub fn union(self, rhs: Self) -> (r: Self)
        ensures
            r@ == (self@ | rhs@),
            forall|i: int| #[trigger] r.has(i) <==> (self.has(i) || rhs.has(i)),
    {
        let r = Bitboard(self.0 | rhs.0);
        proof {
            assert forall|i: int| #[trigger] r.has(i) <==> (self.has(i) || rhs.has(i)) by {
                lemma_or_bit(self@, rhs@, i);
            }
        }
        r
    }

    /// Returns the intersection of the two square sets.
    pub fn intersect(self, rhs: Self) -> (r: Self)
        ensures
            r@ == (self@ & rhs@),
            forall|i: int| #[trigger] r.has(i) <==> (self.has(i) && rhs.has(i)),
    {
        let r = Bitboard(self.0 & rhs.0);
        proof {
            assert forall|i: int| #[trigger] r.has(i) <==> (self.has(i) && rhs.has(i)) by {
                lemma_and_bit(self@, rhs@, i);
            }
        }
        r
    }

    /// Returns the symmetric difference of the two square sets.
    pub fn sym_diff(self, rhs: Self) -> (r: Self)
        ensures
            r@ == (self@ ^ rhs@),
            forall|i: int| #[trigger] r.has(i) <==> (self.has(i) != rhs.has(i)),
    {
        let r = Bitboard(self.0 ^ rhs.0);
        proof {
            assert forall|i: int| #[trigger] r.has(i) <==> (self.has(i) != rhs.has(i)) by {
                lemma_xor_bit(self@, rhs@, i);
            }
        }
        r
    }

    /// Replaces this set with its union with `rhs`.
    pub fn union_assign(&mut self, rhs: Self)
        ensures
            final(self)@ == (old(self)@ | rhs@),
            forall|i: int| #[trigger]
                final(self).has(i) <==> (old(self).has(i) || rhs.has(i)),
    {
        let ghost prev = self@;
        self.0 = self.0 | rhs.0;
        proof {
            assert forall|i: int| #[trigger]
                self.has(i) <==> (bit_at(prev, i) || rhs.has(i)) by {
                lemma_or_bit(prev, rhs@, i);
            }
        }
    }

    /// Replaces this set with its intersection with `rhs`.
    pub fn intersect_assign(&mut self, rhs: Self)
        ensures
            final(self)@ == (old(self)@ & rhs@),
            forall|i: int| #[trigger]
                final(self).has(i) <==> (old(self).has(i) && rhs.has(i)),
    {
        let ghost prev = self@;
        self.0 = self.0 & rhs.0;
        proof {
            assert forall|i: int| #[trigger]
                self.has(i) <==> (bit_at(prev, i) && rhs.has(i)) by {
                lemma_and_bit(prev, rhs@, i);
            }
        }
    }

    /// Replaces this set with its symmetric difference with `rhs`.
    pub fn sym_diff_assign(&mut self, rhs: Self)
        ensures
            final(self)@ == (old(self)@ ^ rhs@),
            forall|i: int| #[trigger]
                final(self).has(i) <==> (old(self).has(i) != rhs.has(i)),
    {
        let ghost prev = self@;
        self.0 = self.0 ^ rhs.0;
        proof {
            assert forall|i: int| #[trigger]
                self.has(i) <==> (bit_at(prev, i) != rhs.has(i)) by {
                lemma_xor_bit(prev, rhs@, i);
            }
        }
    }
}

impl Default for Bitboard {
    /// The empty square set.
    fn default() -> (r: Self)
        ensures
            r@ == 0,
    {
        Bitboard(0)
    }
}

impl BitboardIter {
    /// Yields the lowest set square still to be walked, or `None` once none
    /// is left. A yielded square is removed from the remaining traversal, so
    /// the squares come out in strictly ascending index order.
    pub fn next(&mut self) -> (r: Option<Loc>)
        ensures
            r is Some <==> old(self)@ != 0,
            r is None ==> final(self)@ == old(self)@,
            r matches Some(l) ==> {
                &&& bit_at(old(self)@, l@)
                &&& forall|j: int| 0 <= j < l@ ==> !bit_at(old(self)@, j)
                &&& forall|i: int| #[trigger]
                    bit_at(final(self)@, i) <==> (bit_at(old(self)@, i) && i != l@)
            },
    {
        if self.0 == 0 {
            return None;
        }
        let tz: u32 = self.0.trailing_zeros();
        proof {
            vstd::std_specs::bits::axiom_u64_trailing_zeros(self@);
        }
        let idx: u8 = tz as u8;
        let ghost prev = self@;
        self.0 = self.0 & !(1u64 << idx);
        proof {
            let t = idx as u64;
            assert(bit_at(prev, t as int)) by {
                assert(((prev >> t) & 1u64) == 1u64);
            }
            assert forall|j: int| 0 <= j < t as int implies !bit_at(prev, j) by {
                assert(((prev >> (j as u64)) & 1u64) == 0u64);
            }
            assert forall|i: int| #[trigger]
                bit_at(self@, i) <==> (bit_at(prev, i) && i != t as int) by {
                lemma_clear_bit(prev, t, i);
            }
        }
        Loc::from_index(idx)
    }
}

/// The empty square set holds no squares.
pub proof fn lemma_empty_bit(i: int)
    ensures
        !bit_at(0u64, i),
{
    if 0 <= i < 64 {
        let iu = i as u64;
        assert(((0u64 >> iu) & 1u64) == 0u64) by (bit_vector);
    }
}

/// Union of square sets is commutative.
pub proof fn lemma_union_comm(a: Bitboard, b: Bitboard)
    ensures
        (a@ | b@) == (b@ | a@),
{
    let x = a@;
    let y = b@;
    assert((x | y) == (y | x)) by (bit_vector);
}

/// Intersection of square sets is commutative.
pub proof fn lemma_intersect_comm(a: Bitboard, b: Bitboard)
    ensures
        (a@ & b@) == (b@ & a@),
{
    let x = a@;
    let y = b@;
    assert((x & y) == (y & x)) by (bit_vector);
}

/// Intersecting a square set with itself leaves it unchanged.
pub proof fn lemma_intersect_self(a: Bitboard)
    ensures
        (a@ & a@) == a@,
{
    let x = a@;
    assert((x & x) == x) by (bit_vector);
}

/// The symmetric difference of a square set with itself is empty.
pub proof fn lemma_sym_diff_self(a: Bitboard)
    ensures
        (a@ ^ a@) == 0,
{
    let x = a@;
    assert((x ^ x) == 0) by (bit_vector);
}

/// Union with the empty square set leaves a set unchanged.
pub proof fn lemma_union_empty(a: Bitboard)
    ensures
        (a@ | 0) == a@,
{
    let x = a@;
    assert((x | 0) == x) by (bit_vector);
}

} // verus!
