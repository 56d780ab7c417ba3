//! The cube state: 27 block records, their animation tasks, and the move
//! dispatcher that turns a discrete trigger into per-block updates.
//!
//! The per-block records are the authoritative state; the aggregate
//! position list mirrors them entry for entry and both are mutated in
//! the same dispatch, before any animation starts. The dispatcher only
//! touches blocks without a live animation task, and the controller only
//! touches blocks with one.

use vstd::prelude::*;

use crate::animations::{
    anim_step_task, perm_to_quat, tick_step, visual_of, RotateAnimation, VisualRotation,
    ROTATE_DURATION_MS,
};
use crate::permutation::{lemma_compose_assoc, lemma_unit_identity, CubePermutation};
use crate::position::CubePosition;
use crate::transform::{
    in_layer, lemma_delta_inverse, lemma_remap_injective, lemma_remap_round_trip,
    lemma_remap_wf, RubikLayerTransform,
};

verus! {

/// One of the 27 persistent blocks: its current cell and its cumulative
/// orientation since the solved state.
#[derive(Clone, Copy, Debug, PartialEq, Eq, Structural)]
pub struct RubikBlock {
    pub position: CubePosition,
    pub perm: CubePermutation,
}

/// The stable identity of a block: the cell it occupied in the solved
/// layout, which never changes afterwards.
#[derive(Clone, Copy, Debug, PartialEq, Eq, Structural)]
pub struct BlockId {
    pub init_position: CubePosition,
}

/// The whole cube state: the 27 block records indexed by block identity,
/// their animation slots and committed visual rotations, and the
/// aggregate position list that mirrors the blocks entry for entry.
#[derive(Clone, Debug)]
pub struct Rubik {
    pub blocks: Vec<RubikBlock>,
    pub anims: Vec<Option<RotateAnimation>>,
    pub visuals: Vec<VisualRotation>,
    pub aggregate: Vec<CubePosition>,
}

/// Whether the dispatcher selects block `i` for the move `t`: the block
/// must be free of any animation task and its current cell must lie in
/// the turned layer.
pub open spec fn block_moves(pre: Rubik, t: RubikLayerTransform, i: int) -> bool {
    pre.anims@[i] is None && in_layer(t.layer, pre.blocks@[i].position@)
}

/// What one dispatch does to entry `i`. A selected block gets its
/// remapped position and its orientation composed with the move's delta,
/// with the aggregate entry updated in the same step; with animation it
/// gets a fresh task from its old to its new visual rotation, without it
/// the visual rotation snaps at once. Every other entry is untouched.
pub open spec fn moved_entry_ok(
    pre: Rubik,
    post: Rubik,
    t: RubikLayerTransform,
    animate: bool,
    i: int,
) -> bool {
    if block_moves(pre, t, i) {
        &&& post.blocks@[i].position@ == t.remap_spec(pre.blocks@[i].position@)
        &&& post.blocks@[i].perm == pre.blocks@[i].perm.compose_spec(t.delta_spec())
        &&& post.aggregate@[i] == post.blocks@[i].position
        &&& if animate {
            &&& post.anims@[i] == Some(
                RotateAnimation {
                    axis: t.layer.axis_spec(),
                    elapsed_ms: 0,
                    duration_ms: ROTATE_DURATION_MS,
                    from: visual_of(pre.blocks@[i].perm),
                    to: visual_of(post.blocks@[i].perm),
                },
            )
            &&& post.visuals@[i] == pre.visuals@[i]
        } else {
            &&& post.anims@[i] is None
            &&& post.visuals@[i] == visual_of(post.blocks@[i].perm)
        }
    } else {
        &&& post.blocks@[i] == pre.blocks@[i]
        &&& post.anims@[i] == pre.anims@[i]
        &&& post.visuals@[i] == pre.visuals@[i]
        &&& post.aggregate@[i] == pre.aggregate@[i]
    }
}

/// One whole dispatch of the move `t`: every entry follows
/// `moved_entry_ok` and no entry appears or disappears.
pub open spec fn move_step(pre: Rubik, post: Rubik, t: RubikLayerTransform, animate: bool) -> bool {
    &&& post.blocks@.len() == pre.blocks@.len()
    &&& post.anims@.len() == pre.anims@.len()
    &&& post.visuals@.len() == pre.visuals@.len()
    &&& post.aggregate@.len() == pre.aggregate@.len()
    &&& forall|i: int|
        0 <= i < pre.blocks@.len() ==> #[trigger] moved_entry_ok(pre, post, t, animate, i)
}

impl Rubik {
    /// A well-formed cube state: all four lists cover exactly the 27
    /// blocks, every position and orientation is well formed, every live
    /// task is well formed, and the aggregate mirrors the blocks.
    pub open spec fn wf(self) -> bool {
        &&& self.blocks@.len() == 27
        &&& self.anims@.len() == 27
        &&& self.visuals@.len() == 27
        &&& self.aggregate@.len() == 27
        &&& forall|i: int| 0 <= i < 27 ==> (#[trigger] self.blocks@[i]).position.wf()
        &&& forall|i: int| 0 <= i < 27 ==> (#[trigger] self.blocks@[i]).perm.wf()
        &&& forall|i: int| 0 <= i < 27 ==> #[trigger] self.aggregate@[i] == self.blocks@[i].position
        &&& forall|i: int|
            0 <= i < 27 ==> (#[trigger] self.anims@[i]) is Some ==> self.anims@[i]->Some_0.wf()
    }

    /// No two blocks share a cell: the 27 positions are a permutation of
    /// the 27 cells.
    pub open spec fn distinct_positions(self) -> bool {
        forall|i: int, j: int|
            #![trigger self.blocks@[i], self.blocks@[j]]
            0 <= i < 27 && 0 <= j < 27 && i != j ==> self.blocks@[i].position@
                != self.blocks@[j].position@
    }

    /// The cube is at rest when no block holds an animation task.
    pub open spec fn at_rest(self) -> bool {
        forall|i: int| 0 <= i < self.anims@.len() ==> (#[trigger] self.anims@[i]) is None
    }

    /// The solved cube: block `i` sits at the cell with code `i`, every
    /// orientation is the identity, no animation runs, and the aggregate
    /// mirrors the blocks.
    pub fn new() -> (r: Rubik)
        ensures
            r.wf(),
            r.distinct_positions(),
            r.at_rest(),
            forall|i: int| 0 <= i < 27 ==> (#[trigger] r.blocks@[i]).position@ == i,
            forall|i: int|
                0 <= i < 27 ==> (#[trigger] r.blocks@[i]).perm == CubePermutation::unit_spec(),
            forall|i: int|
                0 <= i < 27 ==> #[trigger] r.visuals@[i] == visual_of(CubePermutation::unit_spec()),
    {
        let mut blocks: Vec<RubikBlock> = Vec::new();
        let mut anims: Vec<Option<RotateAnimation>> = Vec::new();
        let mut visuals: Vec<VisualRotation> = Vec::new();
        let mut aggregate: Vec<CubePosition> = Vec::new();
        let mut code: u8 = 0;
        while code < 27
            invariant
                code <= 27,
                blocks@.len() == code as int,
                anims@.len() == code as int,
                visuals@.len() == code as int,
                aggregate@.len() == code as int,
                forall|i: int|
                    0 <= i < code as int ==> (#[trigger] blocks@[i]).position.wf()
                        && blocks@[i].position@ == i && blocks@[i].perm
                        == CubePermutation::unit_spec(),
                forall|i: int| 0 <= i < code as int ==> (#[trigger] anims@[i]) is None,
                forall|i: int|
                    0 <= i < code as int ==> #[trigger] visuals@[i] == visual_of(
                        CubePermutation::unit_spec(),
                    ),
                forall|i: int|
                    0 <= i < code as int ==> #[trigger] aggregate@[i] == blocks@[i].position,
            decreases 27 - code as int,
        {
            let pos = CubePosition::from_code(code);
            let unit = CubePermutation::unit();
            blocks.push(RubikBlock { position: pos, perm: unit });
            anims.push(None);
            visuals.push(perm_to_quat(unit));
            aggregate.push(pos);
            code += 1;
        }
        Rubik { blocks, anims, visuals, aggregate }
    }

    /// The stable identity of block `i`: the cell with code `i`, its
    /// position in the solved layout.
    pub fn block_id(&self, i: usize) -> (r: BlockId)
        requires
            i < 27,
        ensures
            r.init_position.wf(),
            r.init_position@ == i as int,
    {
        BlockId { init_position: CubePosition::from_code(i as u8) }
    }

    /// One dispatch: applies the move `t` to every selected block, with
    /// or without spawning animation tasks.
    fn apply_move(&mut self, t: RubikLayerTransform, animate: bool)
        requires
            old(self).wf(),
        ensures
            final(self).wf(),
            move_step(*old(self), *final(self), t, animate),
    {
        let ghost pre = *self;
        let mut i: usize = 0;
        while i < 27
            invariant
                pre.wf(),
                self.blocks@.len() == 27,
                self.anims@.len() == 27,
                self.visuals@.len() == 27,
                self.aggregate@.len() == 27,
                i <= 27,
                forall|j: int| 0 <= j < i ==> #[trigger] moved_entry_ok(pre, *self, t, animate, j),
                forall|j: int| i <= j < 27 ==> #[trigger] self.blocks@[j] == pre.blocks@[j],
                forall|j: int| i <= j < 27 ==> #[trigger] self.anims@[j] == pre.anims@[j],
                forall|j: int| i <= j < 27 ==> #[trigger] self.visuals@[j] == pre.visuals@[j],
                forall|j: int| i <= j < 27 ==> #[trigger] self.aggregate@[j] == pre.aggregate@[j],
                forall|j: int| 0 <= j < 27 ==> (#[trigger] self.blocks@[j]).position.wf(),
                forall|j: int| 0 <= j < 27 ==> (#[trigger] self.blocks@[j]).perm.wf(),
                forall|j: int|
                    0 <= j < 27 ==> #[trigger] self.aggregate@[j] == self.blocks@[j].position,
                forall|j: int|
                    0 <= j < 27 ==> (#[trigger] self.anims@[j]) is Some
                        ==> self.anims@[j]->Some_0.wf(),
            decreases 27 - i,
        {
            let ghost snap = *self;
            let block = self.blocks[i];
            let free = self.anims[i].is_none();
            if free && t.layer.contains(block.position) {
                let delta = t.rotation();
                let new_perm = block.perm.compose(delta);
                let new_pos = t.apply_on_position(block.position);
                let from_v = perm_to_quat(block.perm);
                let to_v = perm_to_quat(new_perm);
                self.blocks.set(i, RubikBlock { position: new_pos, perm: new_perm });
                self.aggregate.set(i, new_pos);
                if animate {
                    self.anims.set(
                        i,
                        Some(
                            RotateAnimation {
                                axis: t.layer.axis(),
                                elapsed_ms: 0,
                                duration_ms: ROTATE_DURATION_MS,
                                from: from_v,
                                to: to_v,
                            },
                        ),
                    );
                } else {
                    self.visuals.set(i, to_v);
                }
            }
            proof {
                assert forall|j: int| 0 <= j < i as int implies #[trigger] moved_entry_ok(
                    pre,
                    *self,
                    t,
                    animate,
                    j,
                ) by {
                    assert(moved_entry_ok(pre, snap, t, animate, j));
                }
                assert(moved_entry_ok(pre, *self, t, animate, i as int));
            }
            i += 1;
        }
    }

    /// The move dispatcher. On a plain trigger it dispatches the move
    /// `t` with an animation per selected block; with the inverse
    /// modifier held it dispatches the inverse move at once, updating
    /// the authoritative and aggregate state in the same way but
    /// spawning no animation tasks. Blocks already mid-animation are
    /// never selected either way.
    pub fn handle_permutation_input(&mut self, t: RubikLayerTransform, inverse: bool)
        requires
            old(self).wf(),
        ensures
            final(self).wf(),
            inverse ==> move_step(*old(self), *final(self), t.inverse_spec(), false),
            !inverse ==> move_step(*old(self), *final(self), t, true),
    {
        if inverse {
            let ti = t.inverse();
            self.apply_move(ti, false);
        } else {
            self.apply_move(t, true);
        }
    }
}

/// A block under a live animation task is never a move target: one
/// dispatch leaves such a block, its task, its visual rotation and its
/// aggregate entry exactly as they were.
pub proof fn lemma_active_block_untouched(
    pre: Rubik,
    post: Rubik,
    t: RubikLayerTransform,
    animate: bool,
    i: int,
)
    requires
        move_step(pre, post, t, animate),
        0 <= i < pre.blocks@.len(),
        pre.anims@[i] is Some,
    ensures
        post.blocks@[i] == pre.blocks@[i],
        post.anims@[i] == pre.anims@[i],
        post.visuals@[i] == pre.visuals@[i],
        post.aggregate@[i] == pre.aggregate@[i],
{
    assert(moved_entry_ok(pre, post, t, animate, i));
}

/// Dispatched at rest, a move keeps the 27 positions pairwise distinct:
/// the remap is injective on the member cells and never sends a member
/// cell to a cell outside the layer.
pub proof fn lemma_move_at_rest_keeps_distinct(
    pre: Rubik,
    post: Rubik,
    t: RubikLayerTransform,
    animate: bool,
)
    requires
        pre.wf(),
        pre.at_rest(),
        pre.distinct_positions(),
        move_step(pre, post, t, animate),
    ensures
        post.distinct_positions(),
{
    assert forall|i: int, j: int|
        #![trigger post.blocks@[i], post.blocks@[j]]
        0 <= i < 27 && 0 <= j < 27 && i != j implies post.blocks@[i].position@
        != post.blocks@[j].position@ by {
        assert(moved_entry_ok(pre, post, t, animate, i));
        assert(moved_entry_ok(pre, post, t, animate, j));
        let pi = pre.blocks@[i].position@;
        let pj = pre.blocks@[j].position@;
        lemma_remap_wf(t, pi);
        lemma_remap_wf(t, pj);
        if block_moves(pre, t, i) && block_moves(pre, t, j) && t.remap_spec(pi) == t.remap_spec(
            pj,
        ) {
            lemma_remap_injective(t, pi, pj);
        }
    }
}

/// The codes of a list of positions.
pub open spec fn position_codes(s: Seq<CubePosition>) -> Seq<int> {
    s.map_values(|p: CubePosition| p@)
}

/// What a move does to the aggregate state seen as a list of codes:
/// every member cell is remapped, every other cell stays.
pub open spec fn execute_spec(s: Seq<int>, t: RubikLayerTransform) -> Seq<int> {
    s.map_values(|c: int| t.remap_spec(c))
}

/// Round trip on the aggregate state: a layer transform followed by its
/// inverse restores every position, for every layer and both directions.
pub proof fn lemma_execute_round_trip(s: Seq<int>, t: RubikLayerTransform)
    requires
        forall|i: int| 0 <= i < s.len() ==> 0 <= #[trigger] s[i] < 27,
    ensures
        execute_spec(execute_spec(s, t), t.inverse_spec()) =~= s,
{
    assert forall|i: int| 0 <= i < s.len() implies execute_spec(
        execute_spec(s, t),
        t.inverse_spec(),
    )[i] == s[i] by {
        lemma_remap_round_trip(t, s[i]);
    }
}

/// A tick of the animation controller never moves a block: the 27
/// positions stay pairwise distinct across any tick.
pub proof fn lemma_tick_keeps_distinct(pre: Rubik, post: Rubik, delta_ms: u64)
    requires
        pre.distinct_positions(),
        tick_step(pre, post, delta_ms),
    ensures
        post.distinct_positions(),
{
}

/// Round trip through the dispatcher: a move dispatched at rest, its
/// animations run to completion, then the inverse move dispatched on the
/// settled state put every block back at its cell with its orientation,
/// leaving the cube at rest again.
pub proof fn lemma_move_then_inverse_restores(
    pre: Rubik,
    mid: Rubik,
    settled: Rubik,
    fin: Rubik,
    t: RubikLayerTransform,
    delta_ms: u64,
)
    requires
        pre.wf(),
        pre.at_rest(),
        move_step(pre, mid, t, true),
        tick_step(mid, settled, delta_ms),
        delta_ms >= ROTATE_DURATION_MS,
        move_step(settled, fin, t.inverse_spec(), false),
    ensures
        forall|i: int|
            0 <= i < 27 ==> (#[trigger] fin.blocks@[i]).position@ == pre.blocks@[i].position@,
        forall|i: int| 0 <= i < 27 ==> (#[trigger] fin.blocks@[i]).perm == pre.blocks@[i].perm,
        fin.at_rest(),
{
    assert forall|i: int|
        0 <= i < 27 implies (#[trigger] fin.blocks@[i]).position@ == pre.blocks@[i].position@
        && fin.blocks@[i].perm == pre.blocks@[i].perm && fin.anims@[i] is None by {
        assert(moved_entry_ok(pre, mid, t, true, i));
        assert(settled.anims@[i] == anim_step_task(mid.anims@[i], delta_ms));
        assert(moved_entry_ok(settled, fin, t.inverse_spec(), false, i));
        let p0 = pre.blocks@[i].position@;
        if block_moves(pre, t, i) {
            lemma_remap_wf(t, p0);
            assert(settled.anims@[i] is None);
            assert(block_moves(settled, t.inverse_spec(), i));
            lemma_remap_round_trip(t, p0);
            lemma_delta_inverse(t);
            lemma_compose_assoc(
                pre.blocks@[i].perm,
                t.delta_spec(),
                t.inverse_spec().delta_spec(),
            );
            lemma_unit_identity(pre.blocks@[i].perm);
        } else {
            assert(pre.anims@[i] is None);
            assert(!in_layer(t.layer, p0));
            assert(!block_moves(settled, t.inverse_spec(), i));
        }
    }
    assert forall|i: int| 0 <= i < fin.anims@.len() implies (#[trigger] fin.anims@[i]) is None by {
        assert(fin.blocks@[i].perm == pre.blocks@[i].perm);
    }
}

/// Dispatched at rest, a move drives the aggregate state exactly as
/// `execute_spec` says: at rest the selected blocks are precisely the
/// members of the turned layer.
pub proof fn lemma_move_at_rest_executes(
    pre: Rubik,
    post: Rubik,
    t: RubikLayerTransform,
    animate: bool,
)
    requires
        pre.wf(),
        pre.at_rest(),
        move_step(pre, post, t, animate),
    ensures
        position_codes(post.aggregate@) =~= execute_spec(position_codes(pre.aggregate@), t),
{
    assert forall|i: int| 0 <= i < 27 implies position_codes(post.aggregate@)[i] == execute_spec(
        position_codes(pre.aggregate@),
        t,
    )[i] by {
        assert(moved_entry_ok(pre, post, t, animate, i));
        assert(pre.anims@[i] is None);
    }
}

} // verus!
