//! Other players' bodies: how they move, what they are built of and what they wear.
use ashwend_client::inventory::slot::InventoryUiState;
use ashwend_client::items::{HeldMesh, Vec3Net};
use ashwend_client::menu::{MenuState, Screen};
use ashwend_client::players::interpolation::{
    NetworkPlayerInterpolation, Pose, REMOTE_PLAYER_INTERPOLATION, SNAP_DISTANCE, is_too_far,
};
use ashwend_client::players::locomotion::{
    BodyMotion, ItemModel, LEG_SWING_RUN, LEG_SWING_WALK, LOCOMOTION_MOVE_THRESHOLD,
    LOCOMOTION_RUN_SPEED, LOCOMOTION_WALK_SPEED, animate_body, held_charge_pose,
    locomotion_leg_amplitude, pitch_shares, still_motion,
};
use ashwend_client::players::preview::{PaperdollPreview, preview_visible, sync_preview};
use ashwend_client::players::rig::{
    ArmorJoint, PartSpec, PlayerPart, PlayerRig, RemoteEquipment, Repaint, RigAppearance,
    appearance_plan, armor_joint_entities, armor_targets, assemble_rig, mesh_parts, rig_parents,
};
use ashwend_client::players::visuals::{
    Placement, RemotePlayerEntities, RemotePlayerSnapshot, ReplicatedPlayer, apply_snapshot,
    snapshot_of, spawn_remote_player_visual, update_remote_player_visual,
};

fn at(x: i32, y: i32, z: i32) -> Vec3Net {
    Vec3Net { x, y, z }
}

fn pose(x: i32) -> Pose {
    Pose { position: at(x, 0, 0), yaw: 0 }
}

#[test]
fn preview_only_renders_on_the_plain_inventory_tab() {
    let inventory_ui = InventoryUiState::new();
    let mut menu = MenuState::new();
    menu.screen = Screen::InGame;
    assert!(!preview_visible(&menu, &inventory_ui));

    menu.inventory_open = true;
    assert!(preview_visible(&menu, &inventory_ui));

    menu.pause_open = true;
    assert!(!preview_visible(&menu, &inventory_ui));
    menu.pause_open = false;

    let mut admin_ui = InventoryUiState::new();
    admin_ui.admin_tab = true;
    assert!(!preview_visible(&menu, &admin_ui));

    menu.screen = Screen::MainMenu;
    assert!(!preview_visible(&menu, &inventory_ui));
}

#[test]
fn the_preview_follows_what_is_worn_and_held() {
    let mut menu = MenuState::new();
    menu.screen = Screen::InGame;
    menu.inventory_open = true;
    let inventory_ui = InventoryUiState::new();
    let mut preview = PaperdollPreview {
        camera_active: false,
        last_equipment: RemoteEquipment::bare(),
        armor_layers: vec![4, 5],
        last_held: None,
        held_layers: vec![6],
        carry_posed: false,
    };
    let worn = RemoteEquipment { head: Some(3), ..RemoteEquipment::bare() };
    let plan = sync_preview(&mut preview, &menu, &inventory_ui, worn, Some(HeldMesh::WoodenBow));
    assert_eq!(plan.camera, Some(true));
    assert_eq!(plan.despawn, vec![4, 5, 6]);
    assert_eq!(plan.wear, Some(vec![3]));
    assert_eq!(plan.hold, Some(Some(HeldMesh::WoodenBow)));
    assert_eq!(plan.carry, Some(true));

    let again = sync_preview(&mut preview, &menu, &inventory_ui, worn, Some(HeldMesh::WoodenBow));
    assert_eq!(again.camera, None);
    assert!(again.despawn.is_empty());
    assert_eq!(again.wear, None);
    assert_eq!(again.hold, None);
    assert_eq!(again.carry, None);
}

#[test]
fn remote_player_interpolation_blends_between_snapshot_targets() {
    let current = pose(0);
    let target = Pose { position: at(4_000, 0, 0), yaw: 3_142 };
    let mut interpolation = NetworkPlayerInterpolation::new(1, current);

    interpolation.retarget(2, current, target);
    let halfway = interpolation.advance(REMOTE_PLAYER_INTERPOLATION / 2);

    assert!((f64::from(halfway.position.x) / 1000.0 - 2.0).abs() < 0.001);
    let share = halfway.share.part as f64 / halfway.share.whole as f64;
    let turned = f64::from(halfway.from_yaw)
        + f64::from(halfway.to_yaw - halfway.from_yaw) * share;
    assert!((turned - f64::from(current.yaw)) / 1000.0 > 0.1);
    assert!((f64::from(target.yaw) - turned) / 1000.0 > 0.1);
}

#[test]
fn remote_player_interpolation_snaps_on_respawn_regardless_of_distance() {
    let current = pose(0);
    let mut interpolation = NetworkPlayerInterpolation::new(1, current);
    let nearby_spawn = pose(2_000);
    assert!(!is_too_far(current.position, nearby_spawn.position));

    interpolation.snap_to(2, nearby_spawn);
    let result = interpolation.advance(REMOTE_PLAYER_INTERPOLATION / 10);
    assert_eq!(result.position, nearby_spawn.position);
}

#[test]
fn remote_player_interpolation_snaps_extreme_corrections() {
    let current = pose(0);
    let target = pose(SNAP_DISTANCE as i32 + 1_000);
    let mut interpolation = NetworkPlayerInterpolation::new(1, current);

    interpolation.retarget(2, current, target);
    let corrected = interpolation.advance(0);

    assert_eq!(corrected.position, target.position);
}

#[test]
fn remote_player_interpolation_ignores_stale_ticks() {
    let current = pose(0);
    let mut interpolation = NetworkPlayerInterpolation::new(5, current);
    let target = pose(3_000);

    interpolation.retarget(5, current, target);
    let after = interpolation.advance(REMOTE_PLAYER_INTERPOLATION);
    assert_eq!(after.position, current.position);
}

#[test]
fn a_blend_ends_where_the_report_put_the_body() {
    let mut interpolation = NetworkPlayerInterpolation::new(1, pose(0));
    interpolation.retarget(2, pose(0), pose(5_000));
    assert_eq!(interpolation.advance(25_000).position, at(1_250, 0, 0));
    assert_eq!(interpolation.advance(10_000_000).position, at(5_000, 0, 0));
    assert_eq!(interpolation.advance(1).position, at(5_000, 0, 0));
}

#[test]
fn torso_lean_and_arm_aim_sum_to_the_full_look_pitch() {
    let look = 0.9_f64;
    let (torso_share, arm_share) = pitch_shares(true);
    let torso = look * f64::from(torso_share) / 1000.0;
    let arm = look * f64::from(arm_share) / 1000.0;
    assert!((torso + arm - look).abs() < 1e-5);
    assert_eq!(pitch_shares(false), (600, 0));
}

#[test]
fn locomotion_amplitude_is_zero_when_idle_and_ramps_with_speed() {
    assert_eq!(locomotion_leg_amplitude(0), 0);
    assert_eq!(locomotion_leg_amplitude(LOCOMOTION_MOVE_THRESHOLD), 0);

    let walk = locomotion_leg_amplitude(LOCOMOTION_WALK_SPEED);
    let run = locomotion_leg_amplitude(LOCOMOTION_RUN_SPEED);
    assert!(walk.abs_diff(LEG_SWING_WALK) < 1_000);
    assert!(run.abs_diff(LEG_SWING_RUN) < 1_000);

    let mut last = 0;
    for step in 0..=20 {
        let amp = locomotion_leg_amplitude(step * 400);
        assert!(amp >= last, "amplitude should not decrease");
        last = amp;
    }
}

#[test]
fn an_action_swings_once() {
    let mut motion = still_motion();
    let first = animate_body(&mut motion, false, false, true, 1, ItemModel::Spear, 400_000, 100_000);
    match first {
        BodyMotion::Live { seed_pitch, carry, swing, lock_hand } => {
            assert!(seed_pitch && carry && lock_hand);
            let (model, share) = swing.unwrap();
            assert_eq!(model, ItemModel::Spear);
            assert_eq!(share.part * 4, share.whole);
        }
        other => panic!("expected a live body, got {other:?}"),
    }
    let ended = animate_body(&mut motion, false, false, true, 1, ItemModel::Spear, 400_000, 300_000);
    match ended {
        BodyMotion::Live { seed_pitch, .. } => assert!(!seed_pitch),
        other => panic!("expected a live body, got {other:?}"),
    }
    let after = animate_body(&mut motion, false, false, true, 1, ItemModel::Spear, 400_000, 1);
    match after {
        BodyMotion::Live { swing, .. } => assert!(swing.is_none()),
        other => panic!("expected a live body, got {other:?}"),
    }
    assert_eq!(
        animate_body(&mut motion, false, true, true, 2, ItemModel::Spear, 400_000, 1),
        BodyMotion::Relax
    );
    assert_eq!(
        animate_body(&mut motion, true, true, true, 2, ItemModel::Spear, 400_000, 1),
        BodyMotion::Collapse
    );
}

#[test]
fn a_drawn_bow_is_posed() {
    let drawn = held_charge_pose(false, Some(HeldMesh::WoodenBow), 2_000_000).unwrap();
    assert_eq!((drawn.model, drawn.charge, drawn.drawing), (ItemModel::Bow, 1_000_000, true));
    let idle = held_charge_pose(false, Some(HeldMesh::Bandage), -5).unwrap();
    assert_eq!((idle.model, idle.charge, idle.drawing), (ItemModel::Bandage, 0, false));
    assert!(held_charge_pose(true, Some(HeldMesh::WoodenBow), 500_000).is_none());
    assert!(held_charge_pose(false, Some(HeldMesh::Other { index: 2 }), 500_000).is_none());
    assert!(held_charge_pose(false, None, 500_000).is_none());
}

fn test_rig() -> PlayerRig {
    PlayerRig {
        body: 1,
        upper_arm_l: 2,
        upper_arm_r: 3,
        forearm_l: 4,
        forearm_r: 5,
        hand_anchor: 6,
        thigh_l: 7,
        thigh_r: 8,
        shin_l: 9,
        shin_r: 10,
    }
}

#[test]
fn armor_joints_map_to_the_contract_rig_parts() {
    let rig = test_rig();
    assert_eq!(armor_joint_entities(&rig, ArmorJoint::Body), vec![rig.body]);
    assert_eq!(
        armor_joint_entities(&rig, ArmorJoint::UpperArmsBoth),
        vec![rig.upper_arm_l, rig.upper_arm_r]
    );
    assert_eq!(
        armor_joint_entities(&rig, ArmorJoint::ThighsBoth),
        vec![rig.thigh_l, rig.thigh_r]
    );
    assert_eq!(armor_joint_entities(&rig, ArmorJoint::ShinsBoth), vec![rig.shin_l, rig.shin_r]);
}

#[test]
fn a_full_chest_piece_resolves_to_three_attachment_targets() {
    let rig = test_rig();
    let targets = armor_targets(&rig, &vec![ArmorJoint::Body, ArmorJoint::UpperArmsBoth]);
    assert_eq!(targets, vec![rig.body, rig.upper_arm_l, rig.upper_arm_r]);
}

#[test]
fn remote_equipment_edge_detection_fires_only_on_a_change() {
    let bare = RemoteEquipment::bare();
    let helmed = RemoteEquipment { head: Some(1), ..RemoteEquipment::bare() };
    assert!(bare.same(&RemoteEquipment::bare()));
    assert!(!bare.same(&helmed));
    let iron_helmed = RemoteEquipment { head: Some(2), ..RemoteEquipment::bare() };
    assert!(!helmed.same(&iron_helmed));
}

#[test]
fn a_rig_is_built_parents_first() {
    let layout: Vec<PartSpec> = vec![
        PartSpec { part: PlayerPart::Body, parent: None },
        PartSpec { part: PlayerPart::UpperArmL, parent: Some(PlayerPart::Body) },
        PartSpec { part: PlayerPart::UpperArmR, parent: Some(PlayerPart::Body) },
        PartSpec { part: PlayerPart::ForearmL, parent: Some(PlayerPart::UpperArmL) },
        PartSpec { part: PlayerPart::ForearmR, parent: Some(PlayerPart::UpperArmR) },
        PartSpec { part: PlayerPart::HandAnchor, parent: Some(PlayerPart::ForearmR) },
        PartSpec { part: PlayerPart::ThighL, parent: None },
        PartSpec { part: PlayerPart::ThighR, parent: None },
        PartSpec { part: PlayerPart::ShinL, parent: Some(PlayerPart::ThighL) },
        PartSpec { part: PlayerPart::ShinR, parent: Some(PlayerPart::ThighR) },
    ];
    assert_eq!(
        rig_parents(&layout),
        vec![
            None,
            Some(0),
            Some(0),
            Some(1),
            Some(2),
            Some(4),
            None,
            None,
            Some(6),
            Some(7)
        ]
    );
    let rig = assemble_rig(&layout, &(11..=20).collect());
    assert_eq!(rig.body, 11);
    assert_eq!(rig.hand_anchor, 16);
    assert_eq!(rig.shin_r, 20);
    assert_eq!(mesh_parts(&rig), vec![11, 12, 13, 14, 15, 17, 18, 19, 20]);
}

#[test]
fn a_corpse_is_repainted_once() {
    let mut rig = RigAppearance {
        last_held: None,
        held_layers: vec![1],
        last_equipment: RemoteEquipment::bare(),
        armor_layers: vec![2],
        corpse_faded: false,
    };
    let dying = appearance_plan(&mut rig, None, RemoteEquipment::bare(), true);
    assert_eq!(dying.repaint, Some(Repaint::Corpse));
    assert!(dying.despawn.is_empty());
    let still = appearance_plan(&mut rig, None, RemoteEquipment::bare(), true);
    assert_eq!(still.repaint, None);
    let revived = appearance_plan(
        &mut rig,
        Some(HeldMesh::Bandage),
        RemoteEquipment { feet: Some(9), ..RemoteEquipment::bare() },
        false,
    );
    assert_eq!(revived.repaint, Some(Repaint::Living));
    assert_eq!(revived.despawn, vec![1, 2]);
    assert_eq!(revived.hold, Some(Some(HeldMesh::Bandage)));
    assert_eq!(revived.wear, Some(vec![9]));
}

fn reported(client_id: u64, dead: bool, tick: u64) -> RemotePlayerSnapshot {
    snapshot_of(&ReplicatedPlayer {
        client_id,
        dead: Some(dead),
        sleeping: None,
        held: None,
        equipment: None,
        action: None,
        charge: None,
        horizontal_speed: 1_200,
        grounded: true,
        pitch: 40,
        tick,
        target: pose(1_000),
    })
}

#[test]
fn what_was_not_replicated_is_taken_as_nothing() {
    let report = reported(7, false, 3);
    assert!(!report.is_dead && !report.is_sleeping);
    assert_eq!(report.held_mesh, None);
    assert_eq!(report.equipment, RemoteEquipment::bare());
    assert_eq!((report.action_seq, report.action_model), (0, ItemModel::Bag));
    assert_eq!(report.charge, 0);
    assert_eq!((report.horizontal_speed, report.pitch, report.tick), (1_200, 40, 3));
}

#[test]
fn bodies_come_and_go_with_the_reports() {
    let mut entities = RemotePlayerEntities::new();
    let seen = vec![reported(1, false, 1), reported(2, false, 1), reported(3, true, 1)];
    let plan = apply_snapshot(&mut entities, Some(1), &seen);
    // The local player has no body here, and nobody appears as a corpse.
    assert_eq!(plan.spawns, vec![1]);
    assert!(plan.updates.is_empty() && plan.despawns.is_empty());
    entities.register(2, 77);
    assert_eq!(entities.get(2), Some(77));

    let next = apply_snapshot(&mut entities, Some(1), &vec![reported(2, true, 2)]);
    assert_eq!(next.updates, vec![(77, 0)]);
    assert!(next.spawns.is_empty() && next.despawns.is_empty());

    entities.register(4, 78);
    entities.register(5, 79);
    let mut left = apply_snapshot(&mut entities, Some(1), &vec![reported(2, false, 3)]);
    left.despawns.sort();
    assert_eq!(left.despawns, vec![78, 79]);
    assert_eq!((entities.get(2), entities.get(4), entities.get(5)), (Some(77), None, None));

    let gone = apply_snapshot(&mut entities, None, &vec![reported(2, true, 4)]);
    assert_eq!(gone.despawns, vec![77]);
    assert_eq!(entities.get(2), None);
}

#[test]
fn a_respawned_body_jumps() {
    let spawned = spawn_remote_player_visual(&reported(2, false, 1));
    assert_eq!(spawned.name, "Player 2");
    assert!(!spawned.lying);
    let mut visual = spawned.visual;

    let died = update_remote_player_visual(&mut visual, pose(1_000), &reported(2, true, 2), 10_000);
    assert_eq!(died.starts_dying, Some(false));
    assert_eq!(died.placement, Placement::Untouched);
    assert!(visual.dying);

    let back = update_remote_player_visual(&mut visual, pose(4_000), &reported(2, false, 3), 10_000);
    assert!(back.respawned);
    assert!(!visual.dying);
    match back.placement {
        Placement::Blended(blended) => assert_eq!(blended.position, at(1_000, 0, 0)),
        other => panic!("expected a blended pose, got {other:?}"),
    }
}
