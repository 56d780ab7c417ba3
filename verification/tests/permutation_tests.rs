use rubik_cube::animations::{
    perm_to_quat, FlipRot, HalfTurnRot, ThirdTurnRot, VisualRotation,
};
use rubik_cube::permutation::CubePermutation;

fn all_elements() -> Vec<CubePermutation> {
    let mut out = Vec::new();
    for half in 0u8..4 {
        for third in 0u8..3 {
            for flip in 0u8..2 {
                out.push(CubePermutation { half, third, flip });
            }
        }
    }
    out
}

#[test]
fn unit_is_neutral_on_both_sides() {
    let unit = CubePermutation::unit();
    for p in all_elements() {
        assert_eq!(p.compose(unit), p);
        assert_eq!(unit.compose(p), p);
    }
}

#[test]
fn composition_is_associative_exhaustively() {
    let all = all_elements();
    for &a in &all {
        for &b in &all {
            for &c in &all {
                assert_eq!(a.compose(b).compose(c), a.compose(b.compose(c)));
            }
        }
    }
}

#[test]
fn composition_is_closed_and_every_element_has_an_inverse() {
    let all = all_elements();
    for &a in &all {
        let mut hit = false;
        for &b in &all {
            let ab = a.compose(b);
            assert!(ab.half < 4 && ab.third < 3 && ab.flip < 2);
            if ab == CubePermutation::unit() {
                hit = true;
            }
        }
        assert!(hit, "element {:?} has no inverse", a);
    }
}

#[test]
fn factor_3_recomposes_to_the_element() {
    for p in all_elements() {
        let (f0, f1, f2) = p.factor_3();
        assert_eq!(f0.third, 0);
        assert_eq!(f0.flip, 0);
        assert_eq!(f1.half, 0);
        assert_eq!(f1.flip, 0);
        assert_eq!(f2.half, 0);
        assert_eq!(f2.third, 0);
        assert_eq!(f0.compose(f1).compose(f2), p);
    }
}

#[test]
fn quarter_turns_square_to_half_turns() {
    assert_eq!(CubePermutation::x_1().compose(CubePermutation::x_1()), CubePermutation::x_2());
    assert_eq!(CubePermutation::y_1().compose(CubePermutation::y_1()), CubePermutation::y_2());
    assert_eq!(CubePermutation::z_1().compose(CubePermutation::z_1()), CubePermutation::z_2());
}

#[test]
fn quarter_turns_cancel_with_their_inverses() {
    assert_eq!(CubePermutation::x_1().compose(CubePermutation::x_3()), CubePermutation::unit());
    assert_eq!(CubePermutation::x_3().compose(CubePermutation::x_1()), CubePermutation::unit());
    assert_eq!(CubePermutation::y_1().compose(CubePermutation::y_3()), CubePermutation::unit());
    assert_eq!(CubePermutation::y_3().compose(CubePermutation::y_1()), CubePermutation::unit());
    assert_eq!(CubePermutation::z_1().compose(CubePermutation::z_3()), CubePermutation::unit());
    assert_eq!(CubePermutation::z_3().compose(CubePermutation::z_1()), CubePermutation::unit());
}

#[test]
fn quarter_turns_have_order_four() {
    for q in [
        CubePermutation::x_1(),
        CubePermutation::x_3(),
        CubePermutation::y_1(),
        CubePermutation::y_3(),
        CubePermutation::z_1(),
        CubePermutation::z_3(),
    ] {
        let q2 = q.compose(q);
        let q4 = q2.compose(q2);
        assert_ne!(q2, CubePermutation::unit());
        assert_eq!(q4, CubePermutation::unit());
    }
}

#[test]
fn diagonal_turns_have_order_three() {
    let c1 = CubePermutation::c1();
    let c2 = CubePermutation::c2();
    assert_eq!(c1.compose(c2), CubePermutation::unit());
    assert_eq!(c1.compose(c1), c2);
    assert_eq!(c1.compose(c1).compose(c1), CubePermutation::unit());
}

#[test]
fn perm_to_quat_is_deterministic() {
    for p in all_elements() {
        assert_eq!(perm_to_quat(p), perm_to_quat(p));
    }
}

#[test]
fn perm_to_quat_maps_the_named_factors() {
    assert_eq!(
        perm_to_quat(CubePermutation::unit()),
        VisualRotation {
            half: HalfTurnRot::Identity,
            third: ThirdTurnRot::Identity,
            flip: FlipRot::Identity,
        }
    );
    assert_eq!(perm_to_quat(CubePermutation::x_2()).half, HalfTurnRot::AboutZ);
    assert_eq!(perm_to_quat(CubePermutation::y_2()).half, HalfTurnRot::AboutX);
    assert_eq!(perm_to_quat(CubePermutation::z_2()).half, HalfTurnRot::AboutY);
    assert_eq!(perm_to_quat(CubePermutation::c1()).third, ThirdTurnRot::DiagPlus);
    assert_eq!(perm_to_quat(CubePermutation::c2()).third, ThirdTurnRot::DiagMinus);
    assert_eq!(perm_to_quat(CubePermutation::i_flip()).flip, FlipRot::EdgeFlip);
}

#[test]
fn perm_to_quat_is_total_and_injective_on_the_group() {
    let all = all_elements();
    for (i, &a) in all.iter().enumerate() {
        for &b in all.iter().skip(i + 1) {
            assert_ne!(perm_to_quat(a), perm_to_quat(b));
        }
    }
}
