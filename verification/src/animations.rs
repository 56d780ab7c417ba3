//! Visual rotations and the tick-driven animation of a move.
//!
//! A visual rotation is held symbolically, as the ordered composition of
//! the three factor rotations of an orientation element; the rendering
//! host turns each factor into its fixed concrete 3D rotation and
//! composes them. An animation task carries integer tick time: its
//! progress is `elapsed_ms / duration_ms`, and the task completes the
//! tick that ratio reaches one.

use vstd::prelude::*;

use crate::cube::Rubik;
use crate::permutation::CubePermutation;
use crate::transform::RotationAxis;

verus! {

/// How long the rotation animation of one move runs.
pub const ROTATE_DURATION_MS: u64 = 1000;

/// The concrete rotation of the half-turn factor: the identity or a
/// fixed 180-degree rotation about one coordinate axis.
#[derive(Clone, Copy, Debug, PartialEq, Eq, Structural)]
pub enum HalfTurnRot {
    Identity,
    AboutZ,
    AboutX,
    AboutY,
}

/// The concrete rotation of the third-turn factor: the identity or a
/// 120-degree rotation about the cube's main diagonal, either way.
#[derive(Clone, Copy, Debug, PartialEq, Eq, Structural)]
pub enum ThirdTurnRot {
    Identity,
    DiagPlus,
    DiagMinus,
}

/// The concrete rotation of the flip factor: the identity or the fixed
/// 180-degree rotation about an edge axis.
#[derive(Clone, Copy, Debug, PartialEq, Eq, Structural)]
pub enum FlipRot {
    Identity,
    EdgeFlip,
}

/// A visual rotation: the ordered composition of the three factor
/// rotations, kept in symbolic form.
#[derive(Clone, Copy, Debug, PartialEq, Eq, Structural)]
pub struct VisualRotation {
    pub half: HalfTurnRot,
    pub third: ThirdTurnRot,
    pub flip: FlipRot,
}

impl VisualRotation {
    /// The visual rotation of the unrotated orientation.
    pub open spec fn identity_spec() -> Self {
        VisualRotation {
            half: HalfTurnRot::Identity,
            third: ThirdTurnRot::Identity,
            flip: FlipRot::Identity,
        }
    }
}

/// The visual rotation of an orientation element: each canonical factor
/// is sent to its fixed concrete rotation by a total lookup.
pub open spec fn visual_of(p: CubePermutation) -> VisualRotation {
    VisualRotation {
        half: if p.half == 0 {
            HalfTurnRot::Identity
        } else if p.half == 1 {
            HalfTurnRot::AboutZ
        } else if p.half == 2 {
            HalfTurnRot::AboutX
        } else {
            HalfTurnRot::AboutY
        },
        third: if p.third == 0 {
            ThirdTurnRot::Identity
        } else if p.third == 1 {
            ThirdTurnRot::DiagPlus
        } else {
            ThirdTurnRot::DiagMinus
        },
        flip: if p.flip == 0 {
            FlipRot::Identity
        } else {
            FlipRot::EdgeFlip
        },
    }
}

/// The orientation-to-visual-rotation mapper. It factors the element
/// into its three sub-rotations and maps each through the fixed lookup;
/// the function is total over well-formed elements and returns the same
/// rotation for the same element on every call.
pub fn perm_to_quat(perm: CubePermutation) -> (r: VisualRotation)
    requires
        perm.wf(),
    ensures
        r == visual_of(perm),
{
    let (f0, f1, f2) = perm.factor_3();
    let half = if f0.half == 0 {
        HalfTurnRot::Identity
    } else if f0.half == 1 {
        HalfTurnRot::AboutZ
    } else if f0.half == 2 {
        HalfTurnRot::AboutX
    } else {
        HalfTurnRot::AboutY
    };
    let third = if f1.third == 0 {
        ThirdTurnRot::Identity
    } else if f1.third == 1 {
        ThirdTurnRot::DiagPlus
    } else {
        ThirdTurnRot::DiagMinus
    };
    let flip = if f2.flip == 0 {
        FlipRot::Identity
    } else {
        FlipRot::EdgeFlip
    };
    VisualRotation { half, third, flip }
}

/// The mapper is deterministic: two calls with the same orientation
/// element yield the same visual rotation.
pub proof fn lemma_perm_to_quat_deterministic(p: CubePermutation, q: CubePermutation)
    requires
        p == q,
    ensures
        visual_of(p) == visual_of(q),
{
}

/// A rotation animation, attached to exactly one block for exactly one
/// move. Progress is `elapsed_ms / duration_ms`; the task lives while
/// that ratio is below one.
#[derive(Clone, Copy, Debug, PartialEq, Eq, Structural)]
pub struct RotateAnimation {
    /// The geometric axis of the turned layer.
    pub axis: RotationAxis,
    /// Tick time the task has run so far.
    pub elapsed_ms: u64,
    /// Total duration fixed at creation.
    pub duration_ms: u64,
    /// The visual rotation the block had before the move.
    pub from: VisualRotation,
    /// The visual rotation committed when the task completes.
    pub to: VisualRotation,
}

impl RotateAnimation {
    /// A live task has run for less than its duration.
    pub open spec fn wf(self) -> bool {
        self.elapsed_ms < self.duration_ms
    }

    /// The progress fraction as a numerator and denominator pair, for
    /// the host's interpolation between `from` and `to`.
    pub fn progress(&self) -> (r: (u64, u64))
        ensures
            r.0 == self.elapsed_ms,
            r.1 == self.duration_ms,
    {
        (self.elapsed_ms, self.duration_ms)
    }
}

/// Whether a tick of `delta_ms` brings the task to or past its duration.
pub open spec fn anim_completes(a: RotateAnimation, delta_ms: u64) -> bool {
    a.elapsed_ms + delta_ms >= a.duration_ms
}

/// The task after a tick that does not complete it.
pub open spec fn anim_advanced(a: RotateAnimation, delta_ms: u64) -> RotateAnimation {
    RotateAnimation { elapsed_ms: (a.elapsed_ms + delta_ms) as u64, ..a }
}

/// What one tick leaves of a block's animation task: a completed task
/// detaches, a live one advances, no task stays none.
pub open spec fn anim_step_task(
    a: Option<RotateAnimation>,
    delta_ms: u64,
) -> Option<RotateAnimation> {
    match a {
        Some(task) => if anim_completes(task, delta_ms) {
            None
        } else {
            Some(anim_advanced(task, delta_ms))
        },
        None => None,
    }
}

/// What one tick leaves of a block's committed visual rotation: it snaps
/// exactly to the task's target the tick the task completes, and is
/// otherwise untouched.
pub open spec fn anim_step_visual(
    a: Option<RotateAnimation>,
    v: VisualRotation,
    delta_ms: u64,
) -> VisualRotation {
    match a {
        Some(task) => if anim_completes(task, delta_ms) {
            task.to
        } else {
            v
        },
        None => v,
    }
}

/// One tick of the animation controller: every block's task and
/// committed visual rotation follow the per-block step, and the
/// authoritative positions and orientations are untouched.
pub open spec fn tick_step(pre: Rubik, post: Rubik, delta_ms: u64) -> bool {
    &&& post.blocks@ == pre.blocks@
    &&& post.aggregate@ == pre.aggregate@
    &&& post.anims@.len() == pre.anims@.len()
    &&& post.visuals@.len() == pre.visuals@.len()
    &&& forall|i: int|
        0 <= i < pre.anims@.len() ==> #[trigger] post.anims@[i] == anim_step_task(
            pre.anims@[i],
            delta_ms,
        )
    &&& forall|i: int|
        0 <= i < pre.visuals@.len() ==> #[trigger] post.visuals@[i] == anim_step_visual(
            pre.anims@[i],
            pre.visuals@[i],
            delta_ms,
        )
}

/// The rotation animation controller: runs once per tick and advances
/// every live task by `delta_ms`. A task that reaches its duration
/// commits the block's visual rotation to exactly its target and
/// detaches; every other task merely advances.
pub fn rotate_animation_system(rubik: &mut Rubik, delta_ms: u64)
    requires
        old(rubik).wf(),
    ensures
        final(rubik).wf(),
        tick_step(*old(rubik), *final(rubik), delta_ms),
{
    let ghost pre = *rubik;
    let n = rubik.anims.len();
    let mut i: usize = 0;
    while i < n
        invariant
            n == 27,
            rubik.anims@.len() == 27,
            rubik.visuals@.len() == 27,
            i <= n,
            pre.wf(),
            rubik.blocks@ == pre.blocks@,
            rubik.aggregate@ == pre.aggregate@,
            forall|j: int|
                0 <= j < i ==> #[trigger] rubik.anims@[j] == anim_step_task(
                    pre.anims@[j],
                    delta_ms,
                ),
            forall|j: int|
                0 <= j < i ==> #[trigger] rubik.visuals@[j] == anim_step_visual(
                    pre.anims@[j],
                    pre.visuals@[j],
                    delta_ms,
                ),
            forall|j: int| i <= j < 27 ==> #[trigger] rubik.anims@[j] == pre.anims@[j],
            forall|j: int| i <= j < 27 ==> #[trigger] rubik.visuals@[j] == pre.visuals@[j],
        decreases n - i,
    {
        match rubik.anims[i] {
            Some(task) => {
                if delta_ms >= task.duration_ms - task.elapsed_ms {
                    rubik.visuals.set(i, task.to);
                    rubik.anims.set(i, None);
                } else {
                    rubik.anims.set(
                        i,
                        Some(RotateAnimation { elapsed_ms: task.elapsed_ms + delta_ms, ..task }),
                    );
                }
            },
            None => {},
        }
        i += 1;
    }
}

/// The tick times of a run of controller calls, summed without bound.
pub open spec fn total_ms(ds: Seq<u64>) -> int
    decreases ds.len(),
{
    if ds.len() == 0 {
        0
    } else {
        ds[0] + total_ms(ds.drop_first())
    }
}

/// A block's task after a whole run of ticks.
pub open spec fn run_ticks_task(a: Option<RotateAnimation>, ds: Seq<u64>) -> Option<
    RotateAnimation,
>
    decreases ds.len(),
{
    if ds.len() == 0 {
        a
    } else {
        run_ticks_task(anim_step_task(a, ds[0]), ds.drop_first())
    }
}

/// A block's committed visual rotation after a whole run of ticks.
pub open spec fn run_ticks_visual(
    a: Option<RotateAnimation>,
    v: VisualRotation,
    ds: Seq<u64>,
) -> VisualRotation
    decreases ds.len(),
{
    if ds.len() == 0 {
        v
    } else {
        run_ticks_visual(anim_step_task(a, ds[0]), anim_step_visual(a, v, ds[0]), ds.drop_first())
    }
}

/// A detached block stays detached: once a block has no task, no run of
/// ticks attaches one or moves its committed visual rotation.
pub proof fn lemma_detached_stays_detached(v: VisualRotation, ds: Seq<u64>)
    ensures
        run_ticks_task(None, ds) is None,
        run_ticks_visual(None, v, ds) == v,
    decreases ds.len(),
{
    if ds.len() > 0 {
        lemma_detached_stays_detached(v, ds.drop_first());
    }
}

/// A task of duration `D` completes once time at least `D` has elapsed,
/// over one tick or many: its progress fraction has reached one, the
/// block's visual rotation equals the target exactly, and the task is
/// detached.
pub proof fn lemma_animation_completes(a: RotateAnimation, v: VisualRotation, ds: Seq<u64>)
    requires
        a.wf(),
        a.elapsed_ms + total_ms(ds) >= a.duration_ms,
    ensures
        run_ticks_task(Some(a), ds) is None,
        run_ticks_visual(Some(a), v, ds) == a.to,
    decreases ds.len(),
{
    if ds.len() > 0 {
        let d0 = ds[0];
        if anim_completes(a, d0) {
            lemma_detached_stays_detached(a.to, ds.drop_first());
        } else {
            lemma_animation_completes(anim_advanced(a, d0), v, ds.drop_first());
        }
    }
}

} // verus!
