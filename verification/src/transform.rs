//! Layers of the cube and the discrete moves that turn them.
//!
//! A move names one of the six face layers and a direction. It carries a
//! position remap (a bijection over the 27 cells that rotates the member
//! cells a quarter turn about the layer's axis and fixes the rest) and a
//! fixed orientation delta composed onto every block that moves.

use vstd::prelude::*;

use crate::permutation::CubePermutation;
use crate::position::{
    code_x, code_y, code_z, coord_valid, encode_spec, lemma_decode_encode,
    lemma_encode_decode, CubePosition,
};

verus! {

/// One of the six face layers of the cube.
#[derive(Clone, Copy, Debug, PartialEq, Eq, Structural)]
pub enum RubikLayer {
    F,
    B,
    L,
    R,
    U,
    D,
}

/// A geometric axis of the cube, used as the rotation axis of the
/// animation that follows a move.
#[derive(Clone, Copy, Debug, PartialEq, Eq, Structural)]
pub enum RotationAxis {
    X,
    Y,
    Z,
}

/// Whether the cell with code `c` lies in the given face layer.
pub open spec fn in_layer(l: RubikLayer, c: int) -> bool {
    match l {
        RubikLayer::R => code_x(c) == 2,
        RubikLayer::L => code_x(c) == 0,
        RubikLayer::U => code_y(c) == 2,
        RubikLayer::D => code_y(c) == 0,
        RubikLayer::F => code_z(c) == 2,
        RubikLayer::B => code_z(c) == 0,
    }
}

impl RubikLayer {
    /// The axis the layer turns about.
    pub open spec fn axis_spec(self) -> RotationAxis {
        match self {
            RubikLayer::R => RotationAxis::X,
            RubikLayer::L => RotationAxis::X,
            RubikLayer::U => RotationAxis::Y,
            RubikLayer::D => RotationAxis::Y,
            RubikLayer::F => RotationAxis::Z,
            RubikLayer::B => RotationAxis::Z,
        }
    }

    /// The axis the layer turns about.
    pub fn axis(self) -> (r: RotationAxis)
        ensures
            r == self.axis_spec(),
    {
        match self {
            RubikLayer::R => RotationAxis::X,
            RubikLayer::L => RotationAxis::X,
            RubikLayer::U => RotationAxis::Y,
            RubikLayer::D => RotationAxis::Y,
            RubikLayer::F => RotationAxis::Z,
            RubikLayer::B => RotationAxis::Z,
        }
    }

    /// Whether a position lies in this layer.
    pub fn contains(self, pos: CubePosition) -> (r: bool)
        requires
            pos.wf(),
        ensures
            r == in_layer(self, pos@),
    {
        let (x, y, z) = pos.decode();
        match self {
            RubikLayer::R => x == 2,
            RubikLayer::L => x == 0,
            RubikLayer::U => y == 2,
            RubikLayer::D => y == 0,
            RubikLayer::F => z == 2,
            RubikLayer::B => z == 0,
        }
    }
}

/// A quarter turn of a cell about the x axis, in the positive sense.
pub open spec fn turn_x_pos(c: int) -> int {
    encode_spec(code_x(c), code_z(c), 2 - code_y(c))
}

/// A quarter turn of a cell about the x axis, in the negative sense.
pub open spec fn turn_x_neg(c: int) -> int {
    encode_spec(code_x(c), 2 - code_z(c), code_y(c))
}

/// A quarter turn of a cell about the y axis, in the positive sense.
pub open spec fn turn_y_pos(c: int) -> int {
    encode_spec(2 - code_z(c), code_y(c), code_x(c))
}

/// A quarter turn of a cell about the y axis, in the negative sense.
pub open spec fn turn_y_neg(c: int) -> int {
    encode_spec(code_z(c), code_y(c), 2 - code_x(c))
}

/// A quarter turn of a cell about the z axis, in the positive sense.
pub open spec fn turn_z_pos(c: int) -> int {
    encode_spec(code_y(c), 2 - code_x(c), code_z(c))
}

/// A quarter turn of a cell about the z axis, in the negative sense.
pub open spec fn turn_z_neg(c: int) -> int {
    encode_spec(2 - code_y(c), code_x(c), code_z(c))
}

/// A discrete move: turn the named face layer a quarter turn, clockwise
/// as seen from outside that face, or the other way.
#[derive(Clone, Copy, Debug, PartialEq, Eq, Structural)]
pub struct RubikLayerTransform {
    pub layer: RubikLayer,
    pub clockwise: bool,
}

impl RubikLayerTransform {
    /// Clockwise turn of the right layer.
    pub fn r() -> (t: Self)
        ensures
            t == (RubikLayerTransform { layer: RubikLayer::R, clockwise: true }),
    {
        RubikLayerTransform { layer: RubikLayer::R, clockwise: true }
    }

    /// Counter-clockwise turn of the right layer.
    pub fn ri() -> (t: Self)
        ensures
            t == (RubikLayerTransform { layer: RubikLayer::R, clockwise: false }),
    {
        RubikLayerTransform { layer: RubikLayer::R, clockwise: false }
    }

    /// The move that turns the given layer in the given direction.
    pub fn new(layer: RubikLayer, clockwise: bool) -> (t: Self)
        ensures
            t == (RubikLayerTransform { layer, clockwise }),
    {
        RubikLayerTransform { layer, clockwise }
    }

    /// The inverse move: the same layer, turned the other way.
    pub open spec fn inverse_spec(self) -> Self {
        RubikLayerTransform { layer: self.layer, clockwise: !self.clockwise }
    }

    /// The inverse move: the same layer, turned the other way.
    pub fn inverse(self) -> (t: Self)
        ensures
            t == self.inverse_spec(),
    {
        RubikLayerTransform { layer: self.layer, clockwise: !self.clockwise }
    }

    /// Whether this move turns in the positive sense about its axis:
    /// seen from outside, clockwise on the positive faces comes out as
    /// the negative rotation sense of the axis, and the other way round
    /// on the opposite faces.
    pub open spec fn turns_positive(self) -> bool {
        match self.layer {
            RubikLayer::R => self.clockwise,
            RubikLayer::U => self.clockwise,
            RubikLayer::F => self.clockwise,
            RubikLayer::L => !self.clockwise,
            RubikLayer::D => !self.clockwise,
            RubikLayer::B => !self.clockwise,
        }
    }

    /// Where the move sends the cell with code `c`: member cells turn a
    /// quarter turn about the layer's axis, all others stay put.
    pub open spec fn remap_spec(self, c: int) -> int {
        if in_layer(self.layer, c) {
            match self.layer.axis_spec() {
                RotationAxis::X => if self.turns_positive() {
                    turn_x_pos(c)
                } else {
                    turn_x_neg(c)
                },
                RotationAxis::Y => if self.turns_positive() {
                    turn_y_pos(c)
                } else {
                    turn_y_neg(c)
                },
                RotationAxis::Z => if self.turns_positive() {
                    turn_z_pos(c)
                } else {
                    turn_z_neg(c)
                },
            }
        } else {
            c
        }
    }

    /// Applies the move's position remap to one position.
    pub fn apply_on_position(self, pos: CubePosition) -> (r: CubePosition)
        requires
            pos.wf(),
        ensures
            r.wf(),
            r@ == self.remap_spec(pos@),
    {
        proof {
            lemma_remap_wf(self, pos@);
        }
        let (x, y, z) = pos.decode();
        if !self.layer.contains(pos) {
            return pos;
        }
        let positive = match self.layer {
            RubikLayer::R => self.clockwise,
            RubikLayer::U => self.clockwise,
            RubikLayer::F => self.clockwise,
            RubikLayer::L => !self.clockwise,
            RubikLayer::D => !self.clockwise,
            RubikLayer::B => !self.clockwise,
        };
        match self.layer.axis() {
            RotationAxis::X => if positive {
                CubePosition::encode(x, z, 2 - y)
            } else {
                CubePosition::encode(x, 2 - z, y)
            },
            RotationAxis::Y => if positive {
                CubePosition::encode(2 - z, y, x)
            } else {
                CubePosition::encode(z, y, 2 - x)
            },
            RotationAxis::Z => if positive {
                CubePosition::encode(y, 2 - x, z)
            } else {
                CubePosition::encode(2 - y, x, z)
            },
        }
    }

    /// The fixed orientation delta the move composes onto every block it
    /// moves: the quarter turn of the orientation algebra about the
    /// layer's axis, in the move's sense.
    pub open spec fn delta_spec(self) -> CubePermutation {
        match self.layer.axis_spec() {
            RotationAxis::X => if self.turns_positive() {
                CubePermutation { half: 2, third: 2, flip: 1 }
            } else {
                CubePermutation { half: 3, third: 2, flip: 1 }
            },
            RotationAxis::Y => if self.turns_positive() {
                CubePermutation { half: 1, third: 1, flip: 1 }
            } else {
                CubePermutation { half: 3, third: 1, flip: 1 }
            },
            RotationAxis::Z => if self.turns_positive() {
                CubePermutation { half: 1, third: 0, flip: 1 }
            } else {
                CubePermutation { half: 2, third: 0, flip: 1 }
            },
        }
    }

    /// The fixed orientation delta of this move.
    pub fn rotation(self) -> (r: CubePermutation)
        ensures
            r == self.delta_spec(),
            r.wf(),
    {
        let positive = match self.layer {
            RubikLayer::R => self.clockwise,
            RubikLayer::U => self.clockwise,
            RubikLayer::F => self.clockwise,
            RubikLayer::L => !self.clockwise,
            RubikLayer::D => !self.clockwise,
            RubikLayer::B => !self.clockwise,
        };
        match self.layer.axis() {
            RotationAxis::X => if positive {
                CubePermutation::x_1()
            } else {
                CubePermutation::x_3()
            },
            RotationAxis::Y => if positive {
                CubePermutation::y_1()
            } else {
                CubePermutation::y_3()
            },
            RotationAxis::Z => if positive {
                CubePermutation::z_1()
            } else {
                CubePermutation::z_3()
            },
        }
    }
}

/// The orientation deltas of a move and of its inverse cancel: composed
/// in either order they give the identity orientation.
pub proof fn lemma_delta_inverse(t: RubikLayerTransform)
    ensures
        t.delta_spec().compose_spec(t.inverse_spec().delta_spec())
            == CubePermutation::unit_spec(),
        t.inverse_spec().delta_spec().compose_spec(t.delta_spec())
            == CubePermutation::unit_spec(),
{
}

/// The two quarter turns about one axis undo one another, keep the cell
/// inside the grid, and leave the axis coordinate unchanged.
proof fn lemma_turn_axis(c: int)
    requires
        0 <= c < 27,
    ensures
        0 <= turn_x_pos(c) < 27 && 0 <= turn_x_neg(c) < 27,
        0 <= turn_y_pos(c) < 27 && 0 <= turn_y_neg(c) < 27,
        0 <= turn_z_pos(c) < 27 && 0 <= turn_z_neg(c) < 27,
        turn_x_neg(turn_x_pos(c)) == c && turn_x_pos(turn_x_neg(c)) == c,
        turn_y_neg(turn_y_pos(c)) == c && turn_y_pos(turn_y_neg(c)) == c,
        turn_z_neg(turn_z_pos(c)) == c && turn_z_pos(turn_z_neg(c)) == c,
        code_x(turn_x_pos(c)) == code_x(c) && code_x(turn_x_neg(c)) == code_x(c),
        code_y(turn_y_pos(c)) == code_y(c) && code_y(turn_y_neg(c)) == code_y(c),
        code_z(turn_z_pos(c)) == code_z(c) && code_z(turn_z_neg(c)) == code_z(c),
{
    let x = code_x(c);
    let y = code_y(c);
    let z = code_z(c);
    lemma_encode_decode(c);
    lemma_decode_encode(x, z, 2 - y);
    lemma_decode_encode(x, 2 - z, y);
    lemma_decode_encode(2 - z, y, x);
    lemma_decode_encode(z, y, 2 - x);
    lemma_decode_encode(y, 2 - x, z);
    lemma_decode_encode(2 - y, x, z);
    crate::position::lemma_encode_in_range(x, z, 2 - y);
    crate::position::lemma_encode_in_range(x, 2 - z, y);
    crate::position::lemma_encode_in_range(2 - z, y, x);
    crate::position::lemma_encode_in_range(z, y, 2 - x);
    crate::position::lemma_encode_in_range(y, 2 - x, z);
    crate::position::lemma_encode_in_range(2 - y, x, z);
}

/// The remap keeps every cell inside the grid and never moves a cell
/// into or out of the turned layer.
pub proof fn lemma_remap_wf(t: RubikLayerTransform, c: int)
    requires
        0 <= c < 27,
    ensures
        0 <= t.remap_spec(c) < 27,
        in_layer(t.layer, t.remap_spec(c)) == in_layer(t.layer, c),
{
    if in_layer(t.layer, c) {
        lemma_turn_axis(c);
        lemma_encode_decode(c);
    }
}

/// Round trip of the remap: a move followed by its inverse puts every
/// cell back, in either order.
pub proof fn lemma_remap_round_trip(t: RubikLayerTransform, c: int)
    requires
        0 <= c < 27,
    ensures
        t.inverse_spec().remap_spec(t.remap_spec(c)) == c,
{
    lemma_remap_wf(t, c);
    if in_layer(t.layer, c) {
        lemma_turn_axis(c);
        lemma_encode_decode(c);
    }
}

/// The remap is injective over the 27 cells: distinct cells stay
/// distinct, so the remap is a bijection of the grid.
pub proof fn lemma_remap_injective(t: RubikLayerTransform, c1: int, c2: int)
    requires
        0 <= c1 < 27,
        0 <= c2 < 27,
        t.remap_spec(c1) == t.remap_spec(c2),
    ensures
        c1 == c2,
{
    lemma_remap_round_trip(t, c1);
    lemma_remap_round_trip(t, c2);
}

} // verus!
