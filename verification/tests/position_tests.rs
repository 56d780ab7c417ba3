use rubik_cube::position::CubePosition;

#[test]
fn encode_decode_round_trip_all_cells() {
    for x in 0u8..3 {
        for y in 0u8..3 {
            for z in 0u8..3 {
                let pos = CubePosition::encode(x, y, z);
                assert!(pos.code() < 27);
                let (dx, dy, dz) = pos.decode();
                assert_eq!((dx, dy, dz), (x, y, z));
            }
        }
    }
}

#[test]
fn encode_injective_over_full_domain() {
    let mut seen = [false; 27];
    for x in 0u8..3 {
        for y in 0u8..3 {
            for z in 0u8..3 {
                let code = CubePosition::encode(x, y, z).code() as usize;
                assert!(!seen[code], "two cells share code {}", code);
                seen[code] = true;
            }
        }
    }
    assert!(seen.iter().all(|&s| s));
}

#[test]
fn encode_matches_fixed_formula() {
    // x varies fastest, then mirrored z, then mirrored y.
    assert_eq!(CubePosition::encode(0, 2, 2).code(), 0);
    assert_eq!(CubePosition::encode(1, 2, 2).code(), 1);
    assert_eq!(CubePosition::encode(2, 2, 2).code(), 2);
    assert_eq!(CubePosition::encode(0, 2, 1).code(), 3);
    assert_eq!(CubePosition::encode(0, 1, 2).code(), 9);
    assert_eq!(CubePosition::encode(2, 0, 0).code(), 26);
}

#[test]
fn try_from_u8_accepts_exactly_the_27_codes() {
    for code in 0u8..27 {
        let pos = CubePosition::try_from_u8(code).expect("code in range must decode");
        assert_eq!(pos.code(), code);
    }
    assert!(CubePosition::try_from_u8(27).is_none());
    assert!(CubePosition::try_from_u8(100).is_none());
    assert!(CubePosition::try_from_u8(255).is_none());
}
