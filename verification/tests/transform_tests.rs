use rubik_cube::permutation::CubePermutation;
use rubik_cube::position::CubePosition;
use rubik_cube::transform::{RotationAxis, RubikLayer, RubikLayerTransform};

const ALL_LAYERS: [RubikLayer; 6] = [
    RubikLayer::F,
    RubikLayer::B,
    RubikLayer::L,
    RubikLayer::R,
    RubikLayer::U,
    RubikLayer::D,
];

fn all_transforms() -> Vec<RubikLayerTransform> {
    let mut out = Vec::new();
    for layer in ALL_LAYERS {
        out.push(RubikLayerTransform::new(layer, true));
        out.push(RubikLayerTransform::new(layer, false));
    }
    out
}

#[test]
fn each_layer_holds_exactly_nine_cells() {
    for layer in ALL_LAYERS {
        let mut count = 0;
        for code in 0u8..27 {
            let pos = CubePosition::try_from_u8(code).unwrap();
            if layer.contains(pos) {
                count += 1;
            }
        }
        assert_eq!(count, 9);
    }
}

#[test]
fn layer_membership_reads_the_outer_slice() {
    for code in 0u8..27 {
        let pos = CubePosition::try_from_u8(code).unwrap();
        let (x, y, z) = pos.decode();
        assert_eq!(RubikLayer::R.contains(pos), x == 2);
        assert_eq!(RubikLayer::L.contains(pos), x == 0);
        assert_eq!(RubikLayer::U.contains(pos), y == 2);
        assert_eq!(RubikLayer::D.contains(pos), y == 0);
        assert_eq!(RubikLayer::F.contains(pos), z == 2);
        assert_eq!(RubikLayer::B.contains(pos), z == 0);
    }
}

#[test]
fn remap_round_trips_for_every_layer_and_both_directions() {
    for t in all_transforms() {
        let inv = t.inverse();
        for code in 0u8..27 {
            let pos = CubePosition::try_from_u8(code).unwrap();
            assert_eq!(inv.apply_on_position(t.apply_on_position(pos)), pos);
            assert_eq!(t.apply_on_position(inv.apply_on_position(pos)), pos);
        }
    }
}

#[test]
fn remap_is_a_bijection_of_the_grid() {
    for t in all_transforms() {
        let mut seen = [false; 27];
        for code in 0u8..27 {
            let pos = CubePosition::try_from_u8(code).unwrap();
            let image = t.apply_on_position(pos).code() as usize;
            assert!(!seen[image]);
            seen[image] = true;
        }
        assert!(seen.iter().all(|&s| s));
    }
}

#[test]
fn remap_fixes_cells_outside_the_layer_and_keeps_members_inside() {
    for t in all_transforms() {
        for code in 0u8..27 {
            let pos = CubePosition::try_from_u8(code).unwrap();
            let image = t.apply_on_position(pos);
            if t.layer.contains(pos) {
                assert!(t.layer.contains(image));
            } else {
                assert_eq!(image, pos);
            }
        }
    }
}

#[test]
fn four_quarter_turns_restore_every_cell() {
    for t in all_transforms() {
        for code in 0u8..27 {
            let mut pos = CubePosition::try_from_u8(code).unwrap();
            for _ in 0..4 {
                pos = t.apply_on_position(pos);
            }
            assert_eq!(pos.code(), code);
        }
    }
}

#[test]
fn remap_moves_a_sample_cell_as_the_formula_says() {
    // Cell (2,2,2) has code 2; the clockwise right-layer turn sends it to
    // (2,2,0), whose code is 8.
    let t = RubikLayerTransform::r();
    let pos = CubePosition::encode(2, 2, 2);
    assert_eq!(pos.code(), 2);
    assert_eq!(t.apply_on_position(pos).code(), 8);
}

#[test]
fn inverse_flips_the_direction_and_keeps_the_layer() {
    for t in all_transforms() {
        let inv = t.inverse();
        assert_eq!(inv.layer, t.layer);
        assert_eq!(inv.clockwise, !t.clockwise);
        assert_eq!(inv.inverse(), t);
    }
}

#[test]
fn axis_follows_the_face() {
    assert_eq!(RubikLayer::R.axis(), RotationAxis::X);
    assert_eq!(RubikLayer::L.axis(), RotationAxis::X);
    assert_eq!(RubikLayer::U.axis(), RotationAxis::Y);
    assert_eq!(RubikLayer::D.axis(), RotationAxis::Y);
    assert_eq!(RubikLayer::F.axis(), RotationAxis::Z);
    assert_eq!(RubikLayer::B.axis(), RotationAxis::Z);
}

#[test]
fn deltas_are_quarter_turns_and_invert_with_the_move() {
    for t in all_transforms() {
        let delta = t.rotation();
        let delta_inv = t.inverse().rotation();
        assert_eq!(delta.compose(delta_inv), CubePermutation::unit());
        let d2 = delta.compose(delta);
        let d4 = d2.compose(d2);
        assert_ne!(d2, CubePermutation::unit());
        assert_eq!(d4, CubePermutation::unit());
    }
    assert_eq!(RubikLayerTransform::r().rotation(), CubePermutation::x_1());
    assert_eq!(RubikLayerTransform::ri().rotation(), CubePermutation::x_3());
}
