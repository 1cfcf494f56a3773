use rookie::bitboard::Bitboard;
use rookie::loc::Loc;

fn loc(index: u8) -> Loc {
    Loc::from_index(index).unwrap()
}

#[test]
fn membership_matches_construction_list() {
    let set = [0u8, 5, 13, 22];
    let locs: Vec<Loc> = set.iter().map(|&i| loc(i)).collect();
    let board = Bitboard::new(&locs);
    for index in 0u8..64 {
        assert_eq!(board.at(loc(index)), set.contains(&index));
    }
}

#[test]
fn duplicate_locations_are_idempotent() {
    let once = Bitboard::new(&[loc(13)]);
    let twice = Bitboard::new(&[loc(13), loc(13)]);
    assert_eq!(once, twice);
}

#[test]
fn empty_list_gives_empty_board() {
    let board = Bitboard::new(&[]);
    for index in 0u8..64 {
        assert!(!board.at(loc(index)));
    }
}

#[test]
fn from_single_sets_one_square() {
    let board = Bitboard::from_single(loc(22));
    for index in 0u8..64 {
        assert_eq!(board.at(loc(index)), index == 22);
    }
}

#[test]
fn from_u64_raw_pattern() {
    let board = Bitboard::from_u64(0b0000_1001);
    assert!(board.at(loc(0)));
    assert!(board.at(loc(3)));
    assert!(!board.at(loc(1)));
    assert!(!board.at(loc(2)));
}

#[test]
fn iteration_ascending() {
    let board = Bitboard::from_u64(0b0010_1000);
    let mut iter = board.iter();
    assert_eq!(iter.next().map(|l| l.index()), Some(3));
    assert_eq!(iter.next().map(|l| l.index()), Some(5));
    assert_eq!(iter.next().map(|l| l.index()), None);
}

#[test]
fn iteration_of_empty_board_yields_nothing() {
    let board = Bitboard::from_u64(0);
    let mut iter = board.iter();
    assert_eq!(iter.next().map(|l| l.index()), None);
    assert_eq!(iter.next().map(|l| l.index()), None);
}

#[test]
fn iteration_walks_a_snapshot() {
    let mut board = Bitboard::from_u64(0b0010_1000);
    let mut iter = board.iter();
    assert_eq!(iter.next().map(|l| l.index()), Some(3));
    board.union_assign(Bitboard::from_single(loc(4)));
    assert_eq!(iter.next().map(|l| l.index()), Some(5));
    assert_eq!(iter.next().map(|l| l.index()), None);
}

#[test]
fn union_is_commutative() {
    let a = Bitboard::from_u64(0xDEAD_BEEF_0123_4567);
    let b = Bitboard::from_u64(0x0F0F_F0F0_AAAA_5555);
    assert_eq!(a.union(b), b.union(a));
}

#[test]
fn intersection_is_commutative() {
    let a = Bitboard::from_u64(0xDEAD_BEEF_0123_4567);
    let b = Bitboard::from_u64(0x0F0F_F0F0_AAAA_5555);
    assert_eq!(a.intersect(b), b.intersect(a));
}

#[test]
fn intersection_with_self_is_identity() {
    let a = Bitboard::from_u64(0xDEAD_BEEF_0123_4567);
    assert_eq!(a.intersect(a), a);
}

#[test]
fn sym_diff_with_self_is_empty() {
    let a = Bitboard::from_u64(0xDEAD_BEEF_0123_4567);
    assert_eq!(a.sym_diff(a), Bitboard::from_u64(0));
}

#[test]
fn union_with_empty_is_identity() {
    let a = Bitboard::from_u64(0xDEAD_BEEF_0123_4567);
    assert_eq!(a.union(Bitboard::from_u64(0)), a);
}

#[test]
fn union_combines_bits() {
    let a = Bitboard::from_u64(0b0011);
    let b = Bitboard::from_u64(0b0110);
    assert_eq!(a.union(b), Bitboard::from_u64(0b0111));
}

#[test]
fn intersect_keeps_common_bits() {
    let a = Bitboard::from_u64(0b0011);
    let b = Bitboard::from_u64(0b0110);
    assert_eq!(a.intersect(b), Bitboard::from_u64(0b0010));
}

#[test]
fn sym_diff_keeps_exclusive_bits() {
    let a = Bitboard::from_u64(0b0011);
    let b = Bitboard::from_u64(0b0110);
    assert_eq!(a.sym_diff(b), Bitboard::from_u64(0b0101));
}

#[test]
fn in_place_operators_match_pure_ones() {
    let a = Bitboard::from_u64(0b0011);
    let b = Bitboard::from_u64(0b0110);

    let mut u = a;
    u.union_assign(b);
    assert_eq!(u, a.union(b));

    let mut i = a;
    i.intersect_assign(b);
    assert_eq!(i, a.intersect(b));

    let mut x = a;
    x.sym_diff_assign(b);
    assert_eq!(x, a.sym_diff(b));
}

#[test]
fn default_bitboard_is_empty() {
    assert_eq!(Bitboard::default(), Bitboard::from_u64(0));
}
