use rubik_cube::names::{cube_position_name, rubik_name};
use rubik_cube::position::CubePosition;

#[test]
fn the_aggregate_cube_has_its_fixed_name() {
    assert_eq!(rubik_name(), "Rubik");
}

#[test]
fn position_names_spell_the_decoded_coordinates() {
    let first = CubePosition::try_from_u8(0).unwrap();
    assert_eq!(cube_position_name(first), "X0Y2Z2");
    let last = CubePosition::try_from_u8(26).unwrap();
    assert_eq!(cube_position_name(last), "X2Y0Z0");
    for code in 0u8..27 {
        let pos = CubePosition::try_from_u8(code).unwrap();
        let (x, y, z) = pos.decode();
        assert_eq!(cube_position_name(pos), format!("X{}Y{}Z{}", x, y, z));
    }
}

#[test]
fn position_names_are_stable_and_distinct() {
    for c1 in 0u8..27 {
        let p1 = CubePosition::try_from_u8(c1).unwrap();
        assert_eq!(cube_position_name(p1), cube_position_name(p1));
        for c2 in 0u8..27 {
            if c1 != c2 {
                let p2 = CubePosition::try_from_u8(c2).unwrap();
                assert_ne!(cube_position_name(p1), cube_position_name(p2));
            }
        }
    }
}
