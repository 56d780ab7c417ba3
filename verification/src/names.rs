//! Stable entity names: one for the aggregate cube and one per cell,
//! derived from the cell's decoded grid coordinates, so outside scene
//! tooling can address any block by path.

use vstd::prelude::*;

use crate::position::CubePosition;

verus! {

/// The name of the aggregate cube entity.
pub open spec fn rubik_name_spec() -> Seq<char> {
    "Rubik"@
}

/// The name of the cell with code `c`: the letter of each axis followed
/// by that axis's decoded coordinate.
pub open spec fn pos_name_spec(c: int) -> Seq<char> {
    if c == 0 { "X0Y2Z2"@ }
    else if c == 1 { "X1Y2Z2"@ }
    else if c == 2 { "X2Y2Z2"@ }
    else if c == 3 { "X0Y2Z1"@ }
    else if c == 4 { "X1Y2Z1"@ }
    else if c == 5 { "X2Y2Z1"@ }
    else if c == 6 { "X0Y2Z0"@ }
    else if c == 7 { "X1Y2Z0"@ }
    else if c == 8 { "X2Y2Z0"@ }
    else if c == 9 { "X0Y1Z2"@ }
    else if c == 10 { "X1Y1Z2"@ }
    else if c == 11 { "X2Y1Z2"@ }
    else if c == 12 { "X0Y1Z1"@ }
    else if c == 13 { "X1Y1Z1"@ }
    else if c == 14 { "X2Y1Z1"@ }
    else if c == 15 { "X0Y1Z0"@ }
    else if c == 16 { "X1Y1Z0"@ }
    else if c == 17 { "X2Y1Z0"@ }
    else if c == 18 { "X0Y0Z2"@ }
    else if c == 19 { "X1Y0Z2"@ }
    else if c == 20 { "X2Y0Z2"@ }
    else if c == 21 { "X0Y0Z1"@ }
    else if c == 22 { "X1Y0Z1"@ }
    else if c == 23 { "X2Y0Z1"@ }
    else if c == 24 { "X0Y0Z0"@ }
    else if c == 25 { "X1Y0Z0"@ }
    else { "X2Y0Z0"@ }
}

/// The stable name of the aggregate cube entity.
pub fn rubik_name() -> (r: String)
    ensures
        r@ == rubik_name_spec(),
{
    String::from_str("Rubik")
}

/// The stable name of one cell, the same string on every call.
pub fn cube_position_name(pos: CubePosition) -> (r: String)
    requires
        pos.wf(),
    ensures
        r@ == pos_name_spec(pos@),
{
    let code = pos.code();
    match code {
        0 => String::from_str("X0Y2Z2"),
        1 => String::from_str("X1Y2Z2"),
        2 => String::from_str("X2Y2Z2"),
        3 => String::from_str("X0Y2Z1"),
        4 => String::from_str("X1Y2Z1"),
        5 => String::from_str("X2Y2Z1"),
        6 => String::from_str("X0Y2Z0"),
        7 => String::from_str("X1Y2Z0"),
        8 => String::from_str("X2Y2Z0"),
        9 => String::from_str("X0Y1Z2"),
        10 => String::from_str("X1Y1Z2"),
        11 => String::from_str("X2Y1Z2"),
        12 => String::from_str("X0Y1Z1"),
        13 => String::from_str("X1Y1Z1"),
        14 => String::from_str("X2Y1Z1"),
        15 => String::from_str("X0Y1Z0"),
        16 => String::from_str("X1Y1Z0"),
        17 => String::from_str("X2Y1Z0"),
        18 => String::from_str("X0Y0Z2"),
        19 => String::from_str("X1Y0Z2"),
        20 => String::from_str("X2Y0Z2"),
        21 => String::from_str("X0Y0Z1"),
        22 => String::from_str("X1Y0Z1"),
        23 => String::from_str("X2Y0Z1"),
        24 => String::from_str("X0Y0Z0"),
        25 => String::from_str("X1Y0Z0"),
        _ => String::from_str("X2Y0Z0"),
    }
}

/// Distinct cells carry distinct names, so a name addresses exactly one
/// block.
pub proof fn lemma_position_names_distinct(c1: int, c2: int)
    requires
        0 <= c1 < 27,
        0 <= c2 < 27,
        c1 != c2,
    ensures
        pos_name_spec(c1) != pos_name_spec(c2),
{
    reveal_strlit("X0Y2Z2");
    reveal_strlit("X1Y2Z2");
    reveal_strlit("X2Y2Z2");
    reveal_strlit("X0Y2Z1");
    reveal_strlit("X1Y2Z1");
    reveal_strlit("X2Y2Z1");
    reveal_strlit("X0Y2Z0");
    reveal_strlit("X1Y2Z0");
    reveal_strlit("X2Y2Z0");
    reveal_strlit("X0Y1Z2");
    reveal_strlit("X1Y1Z2");
    reveal_strlit("X2Y1Z2");
    reveal_strlit("X0Y1Z1");
    reveal_strlit("X1Y1Z1");
    reveal_strlit("X2Y1Z1");
    reveal_strlit("X0Y1Z0");
    reveal_strlit("X1Y1Z0");
    reveal_strlit("X2Y1Z0");
    reveal_strlit("X0Y0Z2");
    reveal_strlit("X1Y0Z2");
    reveal_strlit("X2Y0Z2");
    reveal_strlit("X0Y0Z1");
    reveal_strlit("X1Y0Z1");
    reveal_strlit("X2Y0Z1");
    reveal_strlit("X0Y0Z0");
    reveal_strlit("X1Y0Z0");
    reveal_strlit("X2Y0Z0");
    let s1 = pos_name_spec(c1);
    let s2 = pos_name_spec(c2);
    assert(s1[1] != s2[1] || s1[3] != s2[3] || s1[5] != s2[5]);
}

} // verus!
