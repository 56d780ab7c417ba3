//! The 27 cells of the 3x3x3 cube, addressed by grid coordinates
//! `(x, y, z)` in `{0, 1, 2}` and encoded as a single code in `0..27`.

use vstd::prelude::*;

verus! {

/// Grid coordinates lie in `{0, 1, 2}` on each axis.
pub open spec fn coord_valid(x: int, y: int, z: int) -> bool {
    0 <= x < 3 && 0 <= y < 3 && 0 <= z < 3
}

/// The fixed encoding of a cell: `x` varies fastest, then the mirrored
/// `z`, then the mirrored `y`, giving every cell a distinct code in `0..27`.
pub open spec fn encode_spec(x: int, y: int, z: int) -> int {
    x + 3 * (2 - z) + 9 * (2 - y)
}

/// The `x` coordinate recovered from a code.
pub open spec fn code_x(c: int) -> int {
    c % 3
}

/// The `y` coordinate recovered from a code.
pub open spec fn code_y(c: int) -> int {
    2 - c / 9
}

/// The `z` coordinate recovered from a code.
pub open spec fn code_z(c: int) -> int {
    2 - (c / 3) % 3
}

/// One of the 27 cells of the cube, held as its code.
#[derive(Clone, Copy, Debug, PartialEq, Eq, Hash, Structural)]
pub struct CubePosition {
    code: u8,
}

impl CubePosition {
    /// The code of this cell, as a mathematical integer.
    pub closed spec fn view(self) -> int {
        self.code as int
    }

    /// A position is well formed when its code is one of the 27.
    pub open spec fn wf(self) -> bool {
        0 <= self@ < 27
    }

    /// Builds the position for a raw code, refusing anything outside `0..27`.
    pub fn try_from_u8(code: u8) -> (r: Option<CubePosition>)
        ensures
            code < 27 ==> (r is Some && r->Some_0.wf() && r->Some_0@ == code as int),
            code >= 27 ==> r is None,
    {
        if code < 27 {
            Some(CubePosition { code })
        } else {
            None
        }
    }

    /// Builds the position for a code already known to be one of the 27.
    pub fn from_code(code: u8) -> (r: CubePosition)
        requires
            code < 27,
        ensures
            r.wf(),
            r@ == code as int,
    {
        CubePosition { code }
    }

    /// The raw code of this cell.
    pub fn code(self) -> (r: u8)
        ensures
            r as int == self@,
    {
        self.code
    }

    /// Builds the position of the cell at `(x, y, z)`.
    pub fn encode(x: u8, y: u8, z: u8) -> (r: CubePosition)
        requires
            coord_valid(x as int, y as int, z as int),
        ensures
            r.wf(),
            r@ == encode_spec(x as int, y as int, z as int),
    {
        proof {
            lemma_encode_in_range(x as int, y as int, z as int);
        }
        CubePosition { code: x + 3 * (2 - z) + 9 * (2 - y) }
    }

    /// Recovers the grid coordinates of this cell.
    pub fn decode(self) -> (r: (u8, u8, u8))
        requires
            self.wf(),
        ensures
            r.0 as int == code_x(self@),
            r.1 as int == code_y(self@),
            r.2 as int == code_z(self@),
            coord_valid(r.0 as int, r.1 as int, r.2 as int),
    {
        let x = self.code % 3;
        let y = 2 - self.code / 9;
        let z = 2 - (self.code / 3) % 3;
        (x, y, z)
    }
}

/// The encoding stays inside `0..27` over the whole coordinate domain.
pub proof fn lemma_encode_in_range(x: int, y: int, z: int)
    requires
        coord_valid(x, y, z),
    ensures
        0 <= encode_spec(x, y, z) < 27,
{
}

/// Decoding undoes encoding: every cell's coordinates round-trip through
/// its code.
pub proof fn lemma_decode_encode(x: int, y: int, z: int)
    requires
        coord_valid(x, y, z),
    ensures
        code_x(encode_spec(x, y, z)) == x,
        code_y(encode_spec(x, y, z)) == y,
        code_z(encode_spec(x, y, z)) == z,
{
    let c = encode_spec(x, y, z);
    assert(c == x + 3 * (2 - z) + 9 * (2 - y));
    assert(c % 3 == x) by (nonlinear_arith)
        requires
            coord_valid(x, y, z) && c == x + 3 * (2 - z) + 9 * (2 - y),
    ;
    assert(c / 9 == 2 - y) by (nonlinear_arith)
        requires
            coord_valid(x, y, z) && c == x + 3 * (2 - z) + 9 * (2 - y),
    ;
    assert((c / 3) % 3 == 2 - z) by (nonlinear_arith)
        requires
            coord_valid(x, y, z) && c == x + 3 * (2 - z) + 9 * (2 - y),
    ;
}

/// The encoding is injective: two distinct cells never share a code.
pub proof fn lemma_encode_injective(
    x1: int, y1: int, z1: int,
    x2: int, y2: int, z2: int,
)
    requires
        coord_valid(x1, y1, z1),
        coord_valid(x2, y2, z2),
        encode_spec(x1, y1, z1) == encode_spec(x2, y2, z2),
    ensures
        x1 == x2 && y1 == y2 && z1 == z2,
{
    lemma_decode_encode(x1, y1, z1);
    lemma_decode_encode(x2, y2, z2);
}

/// Every code in `0..27` is the encoding of its own decoded coordinates,
/// so decoding always succeeds on an encoded value and encoding is onto.
pub proof fn lemma_encode_decode(c: int)
    requires
        0 <= c < 27,
    ensures
        coord_valid(code_x(c), code_y(c), code_z(c)),
        encode_spec(code_x(c), code_y(c), code_z(c)) == c,
{
    assert(coord_valid(code_x(c), code_y(c), code_z(c))
        && encode_spec(code_x(c), code_y(c), code_z(c)) == c) by (nonlinear_arith)
        requires
            0 <= c < 27,
    ;
}

} // verus!
