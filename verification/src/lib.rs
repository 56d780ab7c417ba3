//! A verified model of a 3x3x3 cube simulator: the cell positions and the
//! orientation algebra of the 27 blocks, the layer moves that permute them,
//! and the tick-driven rotation animations that follow each move.

pub mod animations;
pub mod cube;
pub mod names;
pub mod permutation;
pub mod position;
pub mod transform;
