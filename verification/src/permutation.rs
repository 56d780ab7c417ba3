//! The orientation algebra of a block: the 24 rotations of a cube.
//!
//! An element is held in a canonical factored form with three parts:
//! a half-turn part (the identity or one of the three 180-degree turns),
//! a third-turn part (a power of the 120-degree turn about the main
//! diagonal), and a flip part (an optional 180-degree turn about an edge
//! axis). Every rotation is exactly one such product, giving
//! 4 x 3 x 2 = 24 elements, and composition follows the semidirect
//! product rules proved below: associativity, the identity laws, and the
//! factoring law.

use vstd::arithmetic::div_mod::{lemma_add_mod_noop_right, lemma_sub_mod_noop_right};
use vstd::prelude::*;

verus! {

/// Product in the half-turn (Klein four) part: 0 is the identity and
/// 1, 2, 3 are the three 180-degree axis turns; two distinct turns
/// compose to the third, and each is its own inverse.
pub open spec fn klein_mul(a: int, b: int) -> int {
    if a == 0 {
        b
    } else if b == 0 {
        a
    } else if a == b {
        0
    } else {
        6 - a - b
    }
}

/// How the 120-degree diagonal turn permutes the three half-turn axes.
pub open spec fn diag_cycle(v: int) -> int {
    if v == 0 {
        0
    } else if v == 3 {
        1
    } else {
        v + 1
    }
}

/// How the edge flip permutes the three half-turn axes: it swaps the
/// first two and fixes the third.
pub open spec fn flip_swap(v: int) -> int {
    if v == 1 {
        2
    } else if v == 2 {
        1
    } else {
        v
    }
}

/// The conjugation action of the third-turn/flip part on the half-turn
/// part: apply the flip first, then the diagonal cycle `p` times.
pub open spec fn rot_act(p: int, q: int, v: int) -> int {
    let w = if q == 1 { flip_swap(v) } else { v };
    if p == 0 {
        w
    } else if p == 1 {
        diag_cycle(w)
    } else {
        diag_cycle(diag_cycle(w))
    }
}

/// Third-turn power of a product: the flip reverses the sense of the
/// diagonal turn, as in a dihedral group.
pub open spec fn rot_mul_p(p1: int, q1: int, p2: int) -> int {
    if q1 == 0 {
        (p1 + p2) % 3
    } else {
        (p1 + 3 - p2) % 3
    }
}

/// Flip bit of a product: the flips cancel in pairs.
pub open spec fn rot_mul_q(q1: int, q2: int) -> int {
    (q1 + q2) % 2
}

/// A cumulative orientation of a block: one of the 24 rotations of the
/// cube, in canonical factored form.
#[derive(Clone, Copy, Debug, PartialEq, Eq, Structural)]
pub struct CubePermutation {
    /// The half-turn part: 0 (none) or an axis 1, 2, 3.
    pub half: u8,
    /// The power of the 120-degree main-diagonal turn: 0, 1 or 2.
    pub third: u8,
    /// The edge-flip bit: 0 or 1.
    pub flip: u8,
}

impl CubePermutation {
    /// An element is well formed when each part lies in its range.
    pub open spec fn wf(self) -> bool {
        self.half < 4 && self.third < 3 && self.flip < 2
    }

    /// The identity element: the unrotated orientation.
    pub open spec fn unit_spec() -> Self {
        CubePermutation { half: 0, third: 0, flip: 0 }
    }

    /// Composition: first this rotation, then `other`, renormalised to
    /// the canonical factored form by the semidirect product rules.
    pub open spec fn compose_spec(self, other: Self) -> Self {
        CubePermutation {
            half: klein_mul(
                self.half as int,
                rot_act(self.third as int, self.flip as int, other.half as int),
            ) as u8,
            third: rot_mul_p(self.third as int, self.flip as int, other.third as int) as u8,
            flip: rot_mul_q(self.flip as int, other.flip as int) as u8,
        }
    }

    /// The half-turn factor of this element, as a full element.
    pub open spec fn factor0_spec(self) -> Self {
        CubePermutation { half: self.half, third: 0, flip: 0 }
    }

    /// The third-turn factor of this element, as a full element.
    pub open spec fn factor1_spec(self) -> Self {
        CubePermutation { half: 0, third: self.third, flip: 0 }
    }

    /// The flip factor of this element, as a full element.
    pub open spec fn factor2_spec(self) -> Self {
        CubePermutation { half: 0, third: 0, flip: self.flip }
    }

    /// The identity element.
    pub fn unit() -> (r: Self)
        ensures
            r == Self::unit_spec(),
            r.wf(),
    {
        CubePermutation { half: 0, third: 0, flip: 0 }
    }

    /// The 180-degree turn about the first axis.
    pub fn x_2() -> (r: Self)
        ensures
            r == (CubePermutation { half: 1, third: 0, flip: 0 }),
            r.wf(),
    {
        CubePermutation { half: 1, third: 0, flip: 0 }
    }

    /// The 180-degree turn about the second axis.
    pub fn y_2() -> (r: Self)
        ensures
            r == (CubePermutation { half: 2, third: 0, flip: 0 }),
            r.wf(),
    {
        CubePermutation { half: 2, third: 0, flip: 0 }
    }

    /// The 180-degree turn about the third axis.
    pub fn z_2() -> (r: Self)
        ensures
            r == (CubePermutation { half: 3, third: 0, flip: 0 }),
            r.wf(),
    {
        CubePermutation { half: 3, third: 0, flip: 0 }
    }

    /// The 120-degree turn about the main diagonal.
    pub fn c1() -> (r: Self)
        ensures
            r == (CubePermutation { half: 0, third: 1, flip: 0 }),
            r.wf(),
    {
        CubePermutation { half: 0, third: 1, flip: 0 }
    }

    /// The 240-degree turn about the main diagonal.
    pub fn c2() -> (r: Self)
        ensures
            r == (CubePermutation { half: 0, third: 2, flip: 0 }),
            r.wf(),
    {
        CubePermutation { half: 0, third: 2, flip: 0 }
    }

    /// The edge flip: the 180-degree turn about an edge axis.
    pub fn i_flip() -> (r: Self)
        ensures
            r == (CubePermutation { half: 0, third: 0, flip: 1 }),
            r.wf(),
    {
        CubePermutation { half: 0, third: 0, flip: 1 }
    }

    /// The quarter turn about the first axis.
    pub fn x_1() -> (r: Self)
        ensures
            r == (CubePermutation { half: 2, third: 2, flip: 1 }),
            r.wf(),
    {
        CubePermutation { half: 2, third: 2, flip: 1 }
    }

    /// The inverse quarter turn about the first axis.
    pub fn x_3() -> (r: Self)
        ensures
            r == (CubePermutation { half: 3, third: 2, flip: 1 }),
            r.wf(),
    {
        CubePermutation { half: 3, third: 2, flip: 1 }
    }

    /// The quarter turn about the second axis.
    pub fn y_1() -> (r: Self)
        ensures
            r == (CubePermutation { half: 1, third: 1, flip: 1 }),
            r.wf(),
    {
        CubePermutation { half: 1, third: 1, flip: 1 }
    }

    /// The inverse quarter turn about the second axis.
    pub fn y_3() -> (r: Self)
        ensures
            r == (CubePermutation { half: 3, third: 1, flip: 1 }),
            r.wf(),
    {
        CubePermutation { half: 3, third: 1, flip: 1 }
    }

    /// The quarter turn about the third axis.
    pub fn z_1() -> (r: Self)
        ensures
            r == (CubePermutation { half: 1, third: 0, flip: 1 }),
            r.wf(),
    {
        CubePermutation { half: 1, third: 0, flip: 1 }
    }

    /// The inverse quarter turn about the third axis.
    pub fn z_3() -> (r: Self)
        ensures
            r == (CubePermutation { half: 2, third: 0, flip: 1 }),
            r.wf(),
    {
        CubePermutation { half: 2, third: 0, flip: 1 }
    }

    /// Composes this rotation with `other` (this one first).
    pub fn compose(self, other: Self) -> (r: Self)
        requires
            self.wf(),
            other.wf(),
        ensures
            r == self.compose_spec(other),
            r.wf(),
    {
        let w = if self.flip == 1 {
            if other.half == 1 {
                2
            } else if other.half == 2 {
                1
            } else {
                other.half
            }
        } else {
            other.half
        };
        let acted = if self.third == 0 {
            w
        } else if self.third == 1 {
            if w == 0 { 0 } else if w == 3 { 1 } else { w + 1 }
        } else {
            let w1 = if w == 0 { 0 } else if w == 3 { 1 } else { w + 1 };
            if w1 == 0 { 0 } else if w1 == 3 { 1 } else { w1 + 1 }
        };
        let half = if self.half == 0 {
            acted
        } else if acted == 0 {
            self.half
        } else if self.half == acted {
            0
        } else {
            6 - self.half - acted
        };
        let third = if self.flip == 0 {
            (self.third + other.third) % 3
        } else {
            (self.third + 3 - other.third) % 3
        };
        let flip = (self.flip + other.flip) % 2;
        CubePermutation { half, third, flip }
    }

    /// Splits this element into its three canonical factors: the
    /// half-turn part, the third-turn part and the flip part. Their
    /// ordered composition is exactly this element, and each factor
    /// ranges over its enumerated set alone.
    pub fn factor_3(self) -> (r: (Self, Self, Self))
        requires
            self.wf(),
        ensures
            r.0 == self.factor0_spec() && r.0.wf() && r.0.third == 0 && r.0.flip == 0,
            r.1 == self.factor1_spec() && r.1.wf() && r.1.half == 0 && r.1.flip == 0,
            r.2 == self.factor2_spec() && r.2.wf() && r.2.half == 0 && r.2.third == 0,
            r.0.compose_spec(r.1).compose_spec(r.2) == self,
    {
        let f0 = CubePermutation { half: self.half, third: 0, flip: 0 };
        let f1 = CubePermutation { half: 0, third: self.third, flip: 0 };
        let f2 = CubePermutation { half: 0, third: 0, flip: self.flip };
        (f0, f1, f2)
    }
}

/// Composition stays inside the 24 well-formed elements.
pub proof fn lemma_compose_wf(a: CubePermutation, b: CubePermutation)
    requires
        a.wf(),
        b.wf(),
    ensures
        a.compose_spec(b).wf(),
{
}

/// The identity laws: the unit element is neutral on both sides.
pub proof fn lemma_unit_identity(a: CubePermutation)
    requires
        a.wf(),
    ensures
        a.compose_spec(CubePermutation::unit_spec()) == a,
        CubePermutation::unit_spec().compose_spec(a) == a,
{
}

/// The conjugation action respects products in the half-turn part.
proof fn lemma_act_klein(p: int, q: int, a: int, b: int)
    requires
        0 <= p < 3,
        0 <= q < 2,
        0 <= a < 4,
        0 <= b < 4,
    ensures
        rot_act(p, q, klein_mul(a, b)) == klein_mul(rot_act(p, q, a), rot_act(p, q, b)),
{
}

/// The conjugation action respects products in the third-turn/flip part.
proof fn lemma_act_mul(p1: int, q1: int, p2: int, q2: int, v: int)
    requires
        0 <= p1 < 3,
        0 <= q1 < 2,
        0 <= p2 < 3,
        0 <= q2 < 2,
        0 <= v < 4,
    ensures
        rot_act(rot_mul_p(p1, q1, p2), rot_mul_q(q1, q2), v)
            == rot_act(p1, q1, rot_act(p2, q2, v)),
{
}

/// The third-turn/flip part composes associatively.
proof fn lemma_rot_mul_assoc(p1: int, q1: int, p2: int, q2: int, p3: int, q3: int)
    requires
        0 <= p1 < 3,
        0 <= q1 < 2,
        0 <= p2 < 3,
        0 <= q2 < 2,
        0 <= p3 < 3,
        0 <= q3 < 2,
    ensures
        rot_mul_p(rot_mul_p(p1, q1, p2), rot_mul_q(q1, q2), p3)
            == rot_mul_p(p1, q1, rot_mul_p(p2, q2, p3)),
        rot_mul_q(rot_mul_q(q1, q2), q3) == rot_mul_q(q1, rot_mul_q(q2, q3)),
{
    if q1 == 0 && q2 == 0 {
        lemma_add_mod_noop_right(p3, p1 + p2, 3);
        lemma_add_mod_noop_right(p1, p2 + p3, 3);
    } else if q1 == 0 && q2 == 1 {
        lemma_add_mod_noop_right(3 - p3, p1 + p2, 3);
        lemma_add_mod_noop_right(p1, p2 + 3 - p3, 3);
    } else if q1 == 1 && q2 == 0 {
        lemma_add_mod_noop_right(3 - p3, p1 + 3 - p2, 3);
        lemma_sub_mod_noop_right(p1 + 3, p2 + p3, 3);
        lemma_add_mod_noop_right(p1 + 3 - p2 - p3, 3, 3);
    } else {
        lemma_add_mod_noop_right(p3, p1 + 3 - p2, 3);
        lemma_sub_mod_noop_right(p1 + 3, p2 + 3 - p3, 3);
        lemma_add_mod_noop_right(p1 - p2 + p3, 3, 3);
    }
}

/// The half-turn part composes associatively.
proof fn lemma_klein_assoc(a: int, b: int, c: int)
    requires
        0 <= a < 4,
        0 <= b < 4,
        0 <= c < 4,
    ensures
        klein_mul(klein_mul(a, b), c) == klein_mul(a, klein_mul(b, c)),
{
}

/// Composition of orientations is associative.
pub proof fn lemma_compose_assoc(a: CubePermutation, b: CubePermutation, c: CubePermutation)
    requires
        a.wf(),
        b.wf(),
        c.wf(),
    ensures
        a.compose_spec(b).compose_spec(c) == a.compose_spec(b.compose_spec(c)),
{
    let p1 = a.third as int;
    let q1 = a.flip as int;
    let p2 = b.third as int;
    let q2 = b.flip as int;
    let p3 = c.third as int;
    let q3 = c.flip as int;
    let va = a.half as int;
    let vb = b.half as int;
    let vc = c.half as int;
    lemma_rot_mul_assoc(p1, q1, p2, q2, p3, q3);
    lemma_act_mul(p1, q1, p2, q2, vc);
    lemma_act_klein(p1, q1, vb, rot_act(p2, q2, vc));
    lemma_klein_assoc(va, rot_act(p1, q1, vb), rot_act(p1, q1, rot_act(p2, q2, vc)));
}

} // verus!
