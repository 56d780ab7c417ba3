use rubik_cube::animations::{rotate_animation_system, RotateAnimation, ROTATE_DURATION_MS};
use rubik_cube::cube::Rubik;
use rubik_cube::permutation::CubePermutation;
use rubik_cube::transform::{RotationAxis, RubikLayer, RubikLayerTransform};

const ALL_LAYERS: [RubikLayer; 6] = [
    RubikLayer::F,
    RubikLayer::B,
    RubikLayer::L,
    RubikLayer::R,
    RubikLayer::U,
    RubikLayer::D,
];

fn assert_solved_layout(r: &Rubik) {
    assert_eq!(r.blocks.len(), 27);
    assert_eq!(r.anims.len(), 27);
    assert_eq!(r.visuals.len(), 27);
    assert_eq!(r.aggregate.len(), 27);
    for (i, block) in r.blocks.iter().enumerate() {
        assert_eq!(block.position.code() as usize, i);
        assert_eq!(block.perm, CubePermutation::unit());
        assert!(r.anims[i].is_none());
        assert_eq!(r.aggregate[i], block.position);
    }
}

#[test]
fn new_cube_is_solved_and_at_rest() {
    let r = Rubik::new();
    assert_solved_layout(&r);
}

#[test]
fn rotate_r_moves_exactly_the_nine_member_blocks() {
    let mut r = Rubik::new();
    let before = r.clone();
    let t = RubikLayerTransform::r();
    r.handle_permutation_input(t, false);
    let delta = t.rotation();
    let mut moved = 0;
    for i in 0..27 {
        let old = &before.blocks[i];
        let new = &r.blocks[i];
        if t.layer.contains(old.position) {
            moved += 1;
            assert_eq!(new.position, t.apply_on_position(old.position));
            assert_eq!(new.perm, old.perm.compose(delta));
            assert_eq!(r.aggregate[i], new.position);
            let task = r.anims[i].expect("moved block must get a task");
            assert_eq!(
                task,
                RotateAnimation {
                    axis: RotationAxis::X,
                    elapsed_ms: 0,
                    duration_ms: ROTATE_DURATION_MS,
                    from: rubik_cube::animations::perm_to_quat(old.perm),
                    to: rubik_cube::animations::perm_to_quat(new.perm),
                }
            );
            assert_eq!(r.visuals[i], before.visuals[i]);
        } else {
            assert_eq!(new, old);
            assert!(r.anims[i].is_none());
            assert_eq!(r.visuals[i], before.visuals[i]);
            assert_eq!(r.aggregate[i], before.aggregate[i]);
        }
    }
    assert_eq!(moved, 9);
}

#[test]
fn inverse_modifier_mutates_state_but_spawns_no_task() {
    let mut r = Rubik::new();
    let before = r.clone();
    let t = RubikLayerTransform::r();
    r.handle_permutation_input(t, true);
    let inv = t.inverse();
    let delta_inv = inv.rotation();
    for i in 0..27 {
        assert!(r.anims[i].is_none(), "no block may receive a task");
        let old = &before.blocks[i];
        let new = &r.blocks[i];
        if inv.layer.contains(old.position) {
            assert_eq!(new.position, inv.apply_on_position(old.position));
            assert_eq!(new.perm, old.perm.compose(delta_inv));
            assert_eq!(r.aggregate[i], new.position);
        } else {
            assert_eq!(new, old);
        }
    }
}

#[test]
fn double_trigger_skips_blocks_still_mid_animation() {
    let mut r = Rubik::new();
    let t = RubikLayerTransform::r();
    r.handle_permutation_input(t, false);
    let after_first: Vec<_> = r.blocks.clone();
    let anims_first: Vec<_> = r.anims.clone();
    // Second trigger in the same burst: every member block still animates,
    // so the dispatcher must select none of them.
    r.handle_permutation_input(t, false);
    for i in 0..27 {
        assert_eq!(r.blocks[i], after_first[i]);
        assert_eq!(r.anims[i], anims_first[i]);
    }
}

#[test]
fn transform_then_inverse_restores_the_cube_for_every_layer() {
    for layer in ALL_LAYERS {
        for clockwise in [true, false] {
            let mut r = Rubik::new();
            let t = RubikLayerTransform::new(layer, clockwise);
            r.handle_permutation_input(t, false);
            // Let the spawned animations run to completion.
            rotate_animation_system(&mut r, ROTATE_DURATION_MS);
            // The modifier path dispatches the inverse move.
            r.handle_permutation_input(t, true);
            assert_solved_layout(&r);
        }
    }
}

#[test]
fn positions_stay_a_permutation_across_moves() {
    let mut r = Rubik::new();
    for (layer, clockwise) in [
        (RubikLayer::R, true),
        (RubikLayer::U, false),
        (RubikLayer::F, true),
        (RubikLayer::B, false),
    ] {
        r.handle_permutation_input(RubikLayerTransform::new(layer, clockwise), false);
        rotate_animation_system(&mut r, ROTATE_DURATION_MS);
        let mut seen = [false; 27];
        for block in r.blocks.iter() {
            let code = block.position.code() as usize;
            assert!(!seen[code]);
            seen[code] = true;
        }
        assert!(seen.iter().all(|&s| s));
    }
}

#[test]
fn animation_advances_and_completes_exactly_at_duration() {
    let mut r = Rubik::new();
    let t = RubikLayerTransform::r();
    r.handle_permutation_input(t, false);
    let member = (0..27)
        .find(|&i| r.anims[i].is_some())
        .expect("some block must animate");
    let task = r.anims[member].unwrap();
    assert_eq!(task.elapsed_ms, 0);
    assert_eq!(task.duration_ms, ROTATE_DURATION_MS);

    rotate_animation_system(&mut r, 400);
    let running = r.anims[member].expect("task must still run below its duration");
    assert_eq!(running.elapsed_ms, 400);
    assert_ne!(r.visuals[member], task.to);

    rotate_animation_system(&mut r, ROTATE_DURATION_MS - 400);
    assert!(r.anims[member].is_none(), "task must detach at its duration");
    assert_eq!(r.visuals[member], task.to, "visual rotation must equal the target exactly");
}

#[test]
fn animation_completes_over_many_small_ticks() {
    let mut r = Rubik::new();
    let t = RubikLayerTransform::r();
    r.handle_permutation_input(t, false);
    let member = (0..27).find(|&i| r.anims[i].is_some()).unwrap();
    let target = r.anims[member].unwrap().to;
    let mut elapsed: u64 = 0;
    while elapsed < ROTATE_DURATION_MS {
        rotate_animation_system(&mut r, 99);
        elapsed += 99;
    }
    assert!(r.anims[member].is_none());
    assert_eq!(r.visuals[member], target);
}

#[test]
fn tick_leaves_blocks_and_aggregate_alone() {
    let mut r = Rubik::new();
    r.handle_permutation_input(RubikLayerTransform::r(), false);
    let blocks = r.blocks.clone();
    let aggregate = r.aggregate.clone();
    rotate_animation_system(&mut r, 250);
    for i in 0..27 {
        assert_eq!(r.blocks[i], blocks[i]);
        assert_eq!(r.aggregate[i], aggregate[i]);
    }
}

#[test]
fn block_ids_name_the_initial_cells() {
    let r = Rubik::new();
    for i in 0..27 {
        let id = r.block_id(i);
        assert_eq!(id.init_position.code() as usize, i);
    }
}
