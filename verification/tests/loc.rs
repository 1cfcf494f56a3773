use rookie::loc::Loc;

#[test]
fn round_trip_all_squares() {
    for rank in 0u8..8 {
        for file in 0u8..8 {
            let by_coords = Loc::new(rank, file).unwrap();
            let by_index = Loc::from_index(rank * 8 + file).unwrap();
            assert_eq!(by_coords, by_index);
            assert_eq!(by_coords.index(), rank * 8 + file);
            assert_eq!(by_coords.rank_file(), (rank, file));
        }
    }
}

#[test]
fn known_indices() {
    assert_eq!(Loc::new(0, 0).unwrap().index(), 0);
    assert_eq!(Loc::new(0, 1).unwrap().index(), 1);
    assert_eq!(Loc::new(1, 0).unwrap().index(), 8);
    assert_eq!(Loc::new(7, 7).unwrap().index(), 63);
}

#[test]
fn algebraic_rendering_corners() {
    assert_eq!(Loc::from_index(0).unwrap().to_algebraic(), "A1");
    assert_eq!(Loc::from_index(1).unwrap().to_algebraic(), "B1");
    assert_eq!(Loc::from_index(8).unwrap().to_algebraic(), "A2");
    assert_eq!(Loc::from_index(63).unwrap().to_algebraic(), "H8");
}

#[test]
fn algebraic_rendering_all_squares() {
    for index in 0u8..64 {
        let loc = Loc::from_index(index).unwrap();
        let letter = (b'A' + index % 8) as char;
        let number = 1 + index / 8;
        assert_eq!(loc.to_algebraic(), format!("{}{}", letter, number));
    }
}

#[test]
fn out_of_range_rank_or_file() {
    assert!(Loc::new(8, 0).is_none());
    assert!(Loc::new(0, 8).is_none());
    assert!(Loc::new(8, 8).is_none());
    assert!(Loc::new(255, 0).is_none());
    assert!(Loc::new(3, 200).is_none());
}

#[test]
fn out_of_range_index() {
    assert!(Loc::from_index(64).is_none());
    assert!(Loc::from_index(100).is_none());
    assert!(Loc::from_index(255).is_none());
    assert!(Loc::from_index(63).is_some());
}
