//! What every frame decides around the game itself.
use ashwend_client::death_splash::{
    BLACK_FADE, CLOSE_FADE, TITLE_FADE, death_splash_view, respawn_requested, tick_death_splash,
};
use ashwend_client::floating_text::{
    DamageSight, FLOATING_TEXT_LIFETIME, FloatingDamageText, damage_label,
};
use ashwend_client::icons::{icon_paths, item_tint, placeholder_glyph, slot_placeholder};
use ashwend_client::in_game::{
    BuildingCostReadout, HudSettings, Layer, PlacedStructure, TutorialStep, building_cost_overlay,
    collect_nearby_stations, in_game_layers, tutorial_active, tutorial_frame, tutorial_plan,
};
use ashwend_client::color::{opaque, translucent};
use ashwend_client::menu::{DeathSplash, MenuState, Screen};
use ashwend_client::network::{FloatingDamageRole, SessionEndReason, WirePosition};
use ashwend_client::node_death::{
    LONGEST_STEP, NodeDeath, TREE_FADE_DURATION, TREE_LANDED_HOLD, burst_seed, falls_away,
    felling_tree, node_death, tick_felling_tree,
};
use ashwend_client::render_stats::measure_render_stats;
use ashwend_client::replication_trace::{
    BagTransformSighting, Change, Component, InventorySighting, NodeSighting, PlayerSighting,
    ReplicationFrame, ReplicationTraceState, TraceRow, TraceValue, body_rows,
    log_replicated_storage_changes, player_rows, trace_row, transform_rows,
};
use ashwend_client::screen::{
    FrameStart, GlobalLayer, LoadingSplashKind, SignInGate, WorldEntry, entity_spawn_backlog,
    frame_start, global_layers, splash_log_due, ui_zoom_factor, world_ready_for_play, zoom_change,
};
use ashwend_client::settings::{
    SETTINGS_SAVE_DEBOUNCE, ViewRadiusTier, save_due, view_radius_due, view_radius_sent,
};
use ashwend_client::snapshot::{
    KeptSnapshot, NodeRow, PlayerPrivate, PlayerPublic, PlayerRow, Replicated, keep_snapshot,
    synthesize_snapshot,
};
use ashwend_client::sorting::sort_numbers;
use ashwend_client::sounds::{
    ButtonSound, ButtonSoundRequests, InventorySoundEvent, InventorySoundRequests, PickupMaterials,
    SoundId, button_sound_id, inventory_sound_id, pickup_sound_for,
};
use ashwend_client::test_mode::{
    MonitorInfo, TestModeConfig, WindowPlacement, apply_test_mode_overrides,
    multiplayer_test_owns_window, reposition_test_window,
};
use ashwend_client::text::{comes_before, contains_text, join, keep_digits, signed_decimal};
use ashwend_client::torch_fire::{
    FLAME_INTERVAL, TorchChange, burn, puff_ages, sync_torch_fire, torch_is_near,
};
use ashwend_client::update::{
    UpdateInputs, UpdateStep, UpdaterOutcome, apply_update, updater_started,
};
use ashwend_client::world_map::{
    MapInputs, delete_failure, texture_due, world_map_input,
};
use ashwend_client::items::{
    ArmorProfile, DeployableKind, DeployableProfile, EquipmentSlot, HeldMesh, ItemDefinition,
    ItemStack, ItemTint, PlayerInventoryState, ToolProfile, Vec3Net
};

fn item(id: &str, name: &str, description: &str, stack_size: u16) -> ItemDefinition {
    ItemDefinition {
        id: id.to_owned(),
        name: name.to_owned(),
        description: description.to_owned(),
        stack_size,
        tint: ItemTint { r: 120, g: 110, b: 100 },
        equipable: false,
        held_mesh: HeldMesh::Other { index: 0 },
        tool: None,
        deployable: None,
        armor: None,
        ammo_item: None,
        explosive: None,
        consumable: false,
    }
}

fn deployable(id: &str, name: &str, kind: DeployableKind, station_radius: u32) -> ItemDefinition {
    let mut definition = item(id, name, "Place it.", 1);
    definition.deployable = Some(DeployableProfile {
        kind,
        label: name.to_owned(),
        station_radius,
        collider_half_height: 500,
    });
    definition
}

fn armor(id: &str, name: &str, slot: EquipmentSlot, pct: (u8, u8, u8)) -> ItemDefinition {
    let mut definition = item(id, name, "Padded cloth.", 1);
    definition.armor = Some(ArmorProfile {
        slot,
        melee_protection_pct: pct.0,
        projectile_protection_pct: pct.1,
        blast_protection_pct: pct.2,
        max_durability: Some(120),
    });
    definition
}

fn tool(id: &str, name: &str, kind: &str) -> ItemDefinition {
    let mut definition = item(id, name, "A tool.", 1);
    definition.equipable = true;
    definition.tool = Some(ToolProfile {
        kind_label: kind.to_owned(),
        tier: 1,
        gather_amount: 4,
        max_durability: Some(200),
    });
    definition
}

fn registered_items() -> Vec<ItemDefinition> {
    vec![
        item("wood", "Wood", "Rough timber.", 200),
        item("stone", "Stone", "A chunk of rock.", 200),
        item("fiber", "Fiber", "Stringy grass.", 200),
        item("plant_twine", "Plant Twine", "A length of cord.", 100),
        item("coal", "Coal", "Burns hot.", 200),
        item("sulfur", "Sulfur", "Smells bad.", 200),
        item("gunpowder", "Gunpowder", "Handle with care.", 200),
        item("cloth", "Cloth", "Woven fabric.", 100),
        item("powder_bomb", "Powder Bomb", "Throw it.", 20),
        tool("stone_hatchet", "Stone Hatchet", "Axe"),
        tool("stone_pickaxe", "Stone Pickaxe", "Pickaxe"),
        tool("iron_hatchet", "Iron Hatchet", "Axe"),
        tool("basic_pickaxe", "Basic Pickaxe", "Pickaxe"),
        armor("padded_hood", "Padded Hood", EquipmentSlot::Head, (2, 2, 1)),
        armor("padded_tunic", "Padded Tunic", EquipmentSlot::Chest, (5, 4, 2)),
        armor("padded_leggings", "Padded Leggings", EquipmentSlot::Legs, (3, 2, 1)),
        armor("padded_wraps", "Padded Wraps", EquipmentSlot::Feet, (2, 2, 0)),
        deployable("workbench_t1", "Workbench", DeployableKind::Workbench { tier: 1 }, 5_000),
        deployable("crude_furnace", "Crude Furnace", DeployableKind::Furnace { tier: 1 }, 3_000),
        deployable("building_wall", "Wall", DeployableKind::Building, 0),
        deployable("ruin_cache", "Salvage Chest", DeployableKind::RuinCache, 0),
    ]
}

fn stack(id: &str, quantity: u16) -> ItemStack {
    ItemStack { item_id: id.to_owned(), quantity, durability: None }
}

fn empty_inventory() -> PlayerInventoryState {
    PlayerInventoryState {
        inventory_slots: (0..60).map(|_| None).collect(),
        actionbar_slots: (0..8).map(|_| None).collect(),
        equipment_slots: (0..4).map(|_| None).collect(),
        active_actionbar_slot: 0,
    }
}

const MIN_UI_SCALE: i64 = 750;
const MAX_UI_SCALE: i64 = 1_500;

fn in_game() -> MenuState {
    let mut menu = MenuState::new();
    menu.screen = Screen::InGame;
    menu
}

fn at(x: i32, y: i32, z: i32) -> Vec3Net {
    Vec3Net { x, y, z }
}

fn materials() -> PickupMaterials {
    PickupMaterials {
        wood: "wood".to_owned(),
        stone: "stone".to_owned(),
        coal: "coal".to_owned(),
        iron_ore: "iron_ore".to_owned(),
        sulfur_ore: "sulfur_ore".to_owned(),
    }
}

#[test]
fn button_sounds_map_to_distinct_ui_pool_ids() {
    assert_eq!(button_sound_id(ButtonSound::Click), SoundId::UiButtonClick);
    assert_eq!(button_sound_id(ButtonSound::Hover), SoundId::UiButtonHover);
}

#[test]
fn ui_zoom_factor_passes_through_in_range_scale() {
    assert_eq!(ui_zoom_factor(Some(1_250), MIN_UI_SCALE, MAX_UI_SCALE), 1_250);
}

#[test]
fn ui_zoom_factor_clamps_extremes() {
    assert_eq!(ui_zoom_factor(Some(10_000), MIN_UI_SCALE, MAX_UI_SCALE), MAX_UI_SCALE);
    assert_eq!(ui_zoom_factor(Some(0), MIN_UI_SCALE, MAX_UI_SCALE), MIN_UI_SCALE);
}

#[test]
fn ui_zoom_factor_falls_back_on_non_finite() {
    let thousandths = |scale: f32| scale.is_finite().then_some((scale * 1000.0) as i64);
    assert_eq!(ui_zoom_factor(thousandths(f32::NAN), MIN_UI_SCALE, MAX_UI_SCALE), 1_000);
    assert_eq!(ui_zoom_factor(thousandths(f32::NEG_INFINITY), MIN_UI_SCALE, MAX_UI_SCALE), 1_000);
}

#[test]
fn ui_zoom_factor_clamps_to_exact_bounds_at_the_edges() {
    assert_eq!(ui_zoom_factor(Some(MIN_UI_SCALE), MIN_UI_SCALE, MAX_UI_SCALE), MIN_UI_SCALE);
    assert_eq!(ui_zoom_factor(Some(MAX_UI_SCALE), MIN_UI_SCALE, MAX_UI_SCALE), MAX_UI_SCALE);
    assert_eq!(zoom_change(1_000, 1_250), Some(1_250));
    assert_eq!(zoom_change(1_250, 1_250), None);
}

#[test]
fn inventory_sounds_map_to_distinct_pool_ids() {
    let materials = materials();
    assert_eq!(
        inventory_sound_id(&materials, &InventorySoundEvent::Pickup { item_id: None }),
        SoundId::InventoryPickup
    );
    assert_eq!(
        inventory_sound_id(&materials, &InventorySoundEvent::Drop),
        SoundId::InventoryDrop
    );
    assert_eq!(
        inventory_sound_id(&materials, &InventorySoundEvent::Move),
        SoundId::InventoryMove
    );
}

#[test]
fn pickup_cue_matches_the_material() {
    let materials = materials();
    let cue = |id: &str| pickup_sound_for(&materials, Some(&id.to_owned()));
    assert_eq!(cue("wood"), SoundId::PickupSticks);
    assert_eq!(cue("stone"), SoundId::PickupStones);
    assert_eq!(cue("iron_ore"), SoundId::PickupStones);
    assert_eq!(cue("fiber"), SoundId::InventoryPickup);
    assert_eq!(pickup_sound_for(&materials, None), SoundId::InventoryPickup);
}

#[test]
fn button_sound_requests_queue_hover_events() {
    let mut requests = ButtonSoundRequests::new();
    requests.push_hover();
    requests.push_hover();
    assert_eq!(requests.queue.len(), 2);
    assert_eq!(requests.drain(), vec![SoundId::UiButtonHover, SoundId::UiButtonHover]);
    assert!(requests.queue.is_empty());
}

#[test]
fn inventory_sounds_are_drained_in_order() {
    let mut requests = InventorySoundRequests::new();
    requests.push(InventorySoundEvent::Drop);
    requests.push(InventorySoundEvent::Pickup { item_id: Some("wood".to_owned()) });
    assert_eq!(
        requests.drain(&materials()),
        vec![SoundId::InventoryDrop, SoundId::PickupSticks]
    );
    assert!(requests.drain(&materials()).is_empty());
}

fn map_inputs() -> MapInputs {
    MapInputs {
        connected: true,
        focused: None,
        key_pressed: true,
        dialog_open: false,
        stale: true,
    }
}

#[test]
fn the_map_key_opens_and_closes() {
    let mut menu = in_game();
    let mut dirty = true;
    let opened = world_map_input(&mut menu, &mut dirty, map_inputs());
    assert!(menu.world_map_open);
    assert!(opened.request_map);
    assert!(!dirty, "a map that was closed starts afresh");
    dirty = true;
    let closed = world_map_input(&mut menu, &mut dirty, map_inputs());
    assert!(!menu.world_map_open);
    assert!(!closed.request_map);
    assert!(!dirty);
}

#[test]
fn a_panel_closes_the_map_and_keeps_it_closed() {
    let mut menu = in_game();
    menu.world_map_open = true;
    menu.inventory_open = true;
    let mut dirty = true;
    world_map_input(&mut menu, &mut dirty, map_inputs());
    assert!(!menu.world_map_open && !dirty);
    world_map_input(&mut menu, &mut dirty, map_inputs());
    assert!(!menu.world_map_open);
}

#[test]
fn unfocused_windows_and_dialogs_swallow_the_map_key() {
    for inputs in [
        MapInputs { focused: Some(false), ..map_inputs() },
        MapInputs { dialog_open: true, ..map_inputs() },
        MapInputs { key_pressed: false, ..map_inputs() },
    ] {
        let mut menu = in_game();
        let mut dirty = false;
        world_map_input(&mut menu, &mut dirty, inputs);
        assert!(!menu.world_map_open);
    }
}

#[test]
fn a_confirmed_marker_deletion_is_sent_once() {
    let mut menu = in_game();
    menu.world_map_open = true;
    menu.world_map_delete_pending = Some(12);
    let mut dirty = true;
    let quiet = MapInputs { key_pressed: false, ..map_inputs() };
    assert_eq!(world_map_input(&mut menu, &mut dirty, quiet).remove_marker, Some(12));
    assert!(dirty && menu.world_map_open);
    assert_eq!(world_map_input(&mut menu, &mut dirty, quiet).remove_marker, None);
    assert_eq!(delete_failure("gone"), "couldn't delete marker: gone");

    menu.world_map_delete_pending = Some(13);
    menu.screen = Screen::MainMenu;
    assert_eq!(world_map_input(&mut menu, &mut dirty, quiet).remove_marker, None);
    assert!(!menu.world_map_open);
    assert_eq!(menu.world_map_delete_pending, Some(13));
}

#[test]
fn the_map_picture_is_made_once() {
    let mut menu = in_game();
    assert!(!texture_due(&menu, false, true));
    menu.world_map_open = true;
    assert!(texture_due(&menu, false, true));
    assert!(!texture_due(&menu, true, true));
    assert!(!texture_due(&menu, false, false));
}

#[test]
fn the_view_radius_is_told_once_per_session() {
    let near = ViewRadiusTier { index: 1 };
    let mut last = None;
    assert!(view_radius_due(&mut last, near, true));
    view_radius_sent(&mut last, near, false);
    assert!(view_radius_due(&mut last, near, true), "a failed send is tried again");
    view_radius_sent(&mut last, near, true);
    assert!(!view_radius_due(&mut last, near, true));
    assert!(!view_radius_due(&mut last, near, false));
    assert_eq!(last, None);
    assert!(view_radius_due(&mut last, near, true));
}

#[test]
fn settings_are_saved_after_a_rest() {
    let mut pending = None;
    assert!(!save_due(&mut pending, false, 400_000));
    assert!(!save_due(&mut pending, true, 200_000));
    assert!(!save_due(&mut pending, true, 200_000));
    assert_eq!(pending, Some(200_000));
    assert!(save_due(&mut pending, false, SETTINGS_SAVE_DEBOUNCE - 200_000));
    assert_eq!(pending, None);
    assert!(!save_due(&mut pending, false, 10_000_000));
}

fn applying() -> UpdateInputs {
    UpdateInputs { applying: true, has_session: false, saves_finished: true, staged: true }
}

#[test]
fn an_update_waits_for_the_world_to_be_saved() {
    let mut menu = in_game();
    menu.pause_open = true;
    menu.world_map_open = true;
    let idle = apply_update(&mut menu, UpdateInputs { applying: false, ..applying() });
    assert!(matches!(idle, UpdateStep::Nothing));
    let ends = apply_update(&mut menu, UpdateInputs { has_session: true, ..applying() });
    assert!(matches!(ends, UpdateStep::EndSession(SessionEndReason::UserQuit)));
    assert_eq!(menu.screen, Screen::MainMenu);
    assert!(!menu.pause_open && menu.world_map_open);
    let waits = apply_update(&mut menu, UpdateInputs { saves_finished: false, ..applying() });
    assert!(matches!(waits, UpdateStep::Wait));
    match apply_update(&mut menu, UpdateInputs { staged: false, ..applying() }) {
        UpdateStep::Fail { reason } => assert_eq!(reason, "no staged update to apply"),
        _ => panic!("expected a failure"),
    }
    assert!(matches!(apply_update(&mut menu, applying()), UpdateStep::StartUpdater));
    assert!(matches!(updater_started(Ok(())), UpdaterOutcome::Exit));
    match updater_started(Err("denied".to_owned())) {
        UpdaterOutcome::Fail { reason } => assert_eq!(reason, "could not start updater: denied"),
        UpdaterOutcome::Exit => panic!("expected a failure"),
    }
}

fn public(client_id: u64) -> PlayerPublic {
    PlayerPublic {
        client_id,
        steam_id: 900 + client_id,
        name: "Robin".to_owned(),
        position: at(1, 2, 3),
        velocity: at(0, 0, 0),
        yaw: 10,
        pitch: -20,
        health: 75_000,
        grounded: true,
        is_admin: false,
        chat_bubble: None,
    }
}

fn replicated() -> Replicated {
    let mut inventory = empty_inventory();
    inventory.inventory_slots[0] = Some(stack("wood", 4));
    Replicated {
        players: vec![
            PlayerRow {
                public: public(1),
                private: Some(PlayerPrivate {
                    last_processed_input: 55,
                    inventory,
                    crafting: vec![],
                    open_furnace: Some(8),
                }),
            },
            PlayerRow { public: public(2), private: None },
        ],
        dropped_items: vec![],
        resource_nodes: vec![NodeRow {
            id: 5,
            definition_id: "pine".to_owned(),
            position: at(9, 9, 9),
            yaw: 1,
            storage: vec![stack("wood", 30)],
        }],
        deployed_entities: vec![],
    }
}

#[test]
fn the_picture_follows_what_is_replicated() {
    let mut tick = 6;
    assert!(synthesize_snapshot(false, &mut tick, replicated()).is_none());
    assert_eq!(tick, 6);
    let snapshot = synthesize_snapshot(true, &mut tick, replicated()).unwrap();
    assert_eq!((tick, snapshot.tick), (7, 7));
    assert_eq!(snapshot.players[0].last_processed_input, 55);
    assert_eq!(snapshot.players[0].open_furnace, Some(8));
    assert!(snapshot.players[0].inventory.is_some());
    assert_eq!(snapshot.players[1].public.steam_id, 902);
    assert_eq!(snapshot.players[1].last_processed_input, 0);
    assert!(snapshot.players[1].inventory.is_none() && snapshot.players[1].crafting.is_none());
    assert_eq!(snapshot.resource_nodes[0].storage[0].quantity, 30);
    assert_eq!(snapshot.resource_nodes[0].respawn_progress, None);

    let mut kept = KeptSnapshot { snapshot: None, collider_version: 3 };
    assert!(keep_snapshot(&mut kept, snapshot, 4));
    let again = synthesize_snapshot(true, &mut tick, replicated()).unwrap();
    assert!(!keep_snapshot(&mut kept, again, 4));
    assert_eq!(kept.snapshot.unwrap().tick, 8);

    let mut last = u64::MAX;
    assert_eq!(synthesize_snapshot(true, &mut last, replicated()).unwrap().tick, 0);
}

fn run_config() -> TestModeConfig {
    TestModeConfig {
        spawn_offset_x: 500,
        spawn_offset_z: -250,
        spawn_yaw: Some(1_571),
        inventory_open_on_join: true,
        auto_test_kit_on_join: true,
        window: Some(1),
    }
}

#[test]
fn test_overrides_are_applied_once() {
    let config = run_config();
    let mut applied = false;
    let mut menu = MenuState::new();
    let here = Some(at(1_000, 0, 2_000));
    assert!(apply_test_mode_overrides(&mut applied, &config, true, &mut menu, here, true).is_none());
    menu.screen = Screen::InGame;
    assert!(apply_test_mode_overrides(&mut applied, &config, true, &mut menu, None, true).is_none());
    assert!(!applied && !menu.inventory_open);
    let changes =
        apply_test_mode_overrides(&mut applied, &config, true, &mut menu, here, true).unwrap();
    assert_eq!((changes.x, changes.z, changes.yaw), (1_500, 1_750, Some(1_571)));
    assert_eq!(changes.command.as_deref(), Some("test-kit"));
    assert!(applied && menu.inventory_open);
    assert!(apply_test_mode_overrides(&mut applied, &config, true, &mut menu, here, true).is_none());
}

fn monitor(entity: u64, x: i32) -> MonitorInfo {
    MonitorInfo { entity, x, y: 0, width: 3_000, height: 2_000, scale: 2_000 }
}

#[test]
fn test_windows_fill_the_screens_from_left_to_right() {
    let monitors = vec![monitor(1, 1_920), monitor(2, -1_280), monitor(3, 1_920)];
    let place = |index: u32| {
        let mut applied = false;
        let config = TestModeConfig { window: Some(index), ..run_config() };
        let placement = reposition_test_window(&mut applied, &config, &monitors, true);
        assert!(applied);
        placement.unwrap()
    };
    assert_eq!(place(0), WindowPlacement::Fullscreen { monitor: 2 });
    assert_eq!(place(1), WindowPlacement::Fullscreen { monitor: 1 });
    assert_eq!(place(2), WindowPlacement::Fullscreen { monitor: 3 });
    assert_eq!(place(9), WindowPlacement::Fullscreen { monitor: 3 });
}

#[test]
fn a_single_screen_is_shared() {
    let mut applied = false;
    let config = run_config();
    assert!(reposition_test_window(&mut applied, &config, &vec![], true).is_none());
    assert!(reposition_test_window(&mut applied, &config, &vec![monitor(1, 64)], false).is_none());
    assert!(!applied);
    assert_eq!(
        reposition_test_window(&mut applied, &config, &vec![monitor(1, 64)], true),
        Some(WindowPlacement::Tiled { width: 1_500, height: 1_000, x: 64, y: 0 })
    );
    assert!(reposition_test_window(&mut applied, &config, &vec![monitor(1, 64)], true).is_none());
    let mut unasked = false;
    let plain = TestModeConfig { window: None, ..run_config() };
    assert!(reposition_test_window(&mut unasked, &plain, &vec![monitor(1, 64)], true).is_none());
    assert!(unasked);
    assert!(multiplayer_test_owns_window(Some(&config)));
    assert!(!multiplayer_test_owns_window(Some(&plain)));
    assert!(!multiplayer_test_owns_window(None));
}

#[test]
fn only_lit_torches_burn() {
    assert_eq!(sync_torch_fire(DeployableKind::Torch, true, None), TorchChange::Light);
    assert_eq!(sync_torch_fire(DeployableKind::Torch, true, Some(4)), TorchChange::Keep);
    assert_eq!(sync_torch_fire(DeployableKind::Torch, false, Some(4)), TorchChange::PutOut(4));
    assert_eq!(sync_torch_fire(DeployableKind::Torch, false, None), TorchChange::Keep);
    assert_eq!(sync_torch_fire(DeployableKind::Door, true, None), TorchChange::Keep);
    assert_eq!(sync_torch_fire(DeployableKind::Door, true, Some(4)), TorchChange::PutOut(4));
}

#[test]
fn far_torches_are_cards() {
    assert!(torch_is_near(at(0, 0, 0), None));
    assert!(torch_is_near(at(0, 0, 0), Some(at(16_000, 0, 0))));
    assert!(!torch_is_near(at(0, 0, 0), Some(at(16_000, 0, 1))));
    let mut wait = FLAME_INTERVAL as i64;
    let far = burn(&mut wait, false, 60_000);
    assert!(far.card_visible && !far.puff);
    assert_eq!(wait, 50_000);
    let near = burn(&mut wait, true, 20_000);
    assert!(!near.card_visible && !near.puff);
    let due = burn(&mut wait, true, 30_000);
    assert!(due.puff);
    assert_eq!(wait, 50_000);
    let mut age = 90;
    assert!(!puff_ages(&mut age, 90, 0));
    assert!(!puff_ages(&mut age, 100, 9));
    assert!(puff_ages(&mut age, 100, 1));
}

#[test]
fn crude_models_route_to_a_pickup_burst_not_a_fall() {
    assert!(matches!(node_death(1, false, true, false), NodeDeath::PickupBurst { .. }));
    assert_eq!(node_death(1, true, false, true), NodeDeath::FellTree);
    assert_eq!(node_death(1, true, false, false), NodeDeath::Nothing);
    assert!(matches!(node_death(1, false, false, false), NodeDeath::ShatterOre { .. }));
    assert_eq!(burst_seed(0x1_0000_0003), 3u32.wrapping_mul(0xC2B2_AE35));
}

#[test]
fn trunks_fall_away_from_a_player_who_stands_off() {
    let tree = at(4_000, 0, 0);
    assert!(falls_away(tree, Some(at(0, 9_000, 0))));
    assert!(!falls_away(tree, Some(at(3_900, 0, 0))));
    assert!(falls_away(tree, Some(at(3_899, 0, 0))));
    assert!(!falls_away(tree, None));
}

#[test]
fn a_felled_trunk_lands_bounces_and_fades() {
    let mut tree = felling_tree();
    let idle = tick_felling_tree(&mut tree, 0, true);
    assert_eq!(idle.swing, None);
    let falling = tick_felling_tree(&mut tree, 400_000, false);
    assert_eq!(falling.swing, Some(LONGEST_STEP));
    assert!(!falling.kick && falling.bounce.is_none());
    let landing = tick_felling_tree(&mut tree, 10_000, true);
    assert!(landing.kick && landing.chips);
    assert_eq!(landing.bounce.unwrap().part, 0);
    assert!(landing.left.is_none());
    let next = tick_felling_tree(&mut tree, 50_000, true);
    assert!(!next.kick && !next.chips && next.swing.is_none());
    let mut lain = 50_000;
    loop {
        let step = tick_felling_tree(&mut tree, 50_000, false);
        lain += 50_000;
        assert_eq!(step.left.is_some(), lain >= TREE_LANDED_HOLD);
        assert_eq!(step.gone, lain >= TREE_LANDED_HOLD + TREE_FADE_DURATION);
        if step.gone {
            assert_eq!(step.left.unwrap().part, 0);
            break;
        }
    }
}

#[test]
fn meshes_are_counted_while_shown() {
    assert_eq!(measure_render_stats(false, &vec![true]), None);
    assert_eq!(measure_render_stats(true, &vec![true, false, true]), Some((3, 2)));
    assert_eq!(measure_render_stats(true, &vec![]), Some((0, 0)));
}

#[test]
fn building_pieces_have_no_picture() {
    let items = registered_items();
    let icons = icon_paths(&items);
    assert_eq!(icons.len(), items.len() - 1);
    assert_eq!(icons[0].path, "items/wood/icon.png");
    assert!(icons.iter().all(|icon| icon.item_id != "building_wall"));
    assert_eq!(placeholder_glyph("wood"), 'W');
    assert_eq!(placeholder_glyph("\u{e9}clair"), '\u{e9}');
    assert_eq!(placeholder_glyph(""), '?');
    assert_eq!(item_tint(&items, "wood"), opaque(120, 110, 100));
    assert_eq!(item_tint(&items, "nothing"), opaque(146, 158, 171));
    assert_eq!(
        slot_placeholder(&items, "wood", false),
        (translucent(120, 110, 100, 224), translucent(255, 255, 255, 74))
    );
    assert_eq!(
        slot_placeholder(&items, "nothing", true),
        (translucent(140, 150, 162, 96), translucent(255, 255, 255, 32))
    );
}

fn complete_world() -> WorldEntry {
    WorldEntry {
        has_client_id: true,
        has_world: true,
        has_local_player: true,
        scene_version: Some(4),
        world_version: 4,
        nodes_caught_up: true,
        deployables_caught_up: true,
        dropped_items_caught_up: true,
        grass_off: false,
        grass_caught_up: true,
        stream_settled: Some(true),
    }
}

#[test]
fn the_world_is_shown_when_it_is_complete() {
    assert!(world_ready_for_play(&complete_world()));
    assert!(!world_ready_for_play(&WorldEntry { has_client_id: false, ..complete_world() }));
    assert!(!world_ready_for_play(&WorldEntry { scene_version: Some(3), ..complete_world() }));
    assert!(!world_ready_for_play(&WorldEntry { nodes_caught_up: false, ..complete_world() }));
    assert!(!world_ready_for_play(&WorldEntry { grass_caught_up: false, ..complete_world() }));
    assert!(world_ready_for_play(&WorldEntry {
        grass_caught_up: false,
        grass_off: true,
        ..complete_world()
    }));
    assert!(!world_ready_for_play(&WorldEntry {
        stream_settled: Some(false),
        ..complete_world()
    }));
    assert_eq!(entity_spawn_backlog(3, 4), 7);
}

#[test]
fn signing_in_comes_before_every_screen() {
    assert_eq!(
        frame_start(SignInGate::Authenticated, false, Screen::Worlds),
        FrameStart::Show(Screen::Worlds)
    );
    assert_eq!(frame_start(SignInGate::LoggedOut, true, Screen::InGame), FrameStart::Login);
    assert_eq!(frame_start(SignInGate::InFlight, false, Screen::InGame), FrameStart::Blank);
    assert!(global_layers(Screen::InGame).contains(&GlobalLayer::LoadingSplash));
}

#[test]
fn a_long_splash_is_logged_every_second() {
    let mut waited = 0;
    let splash = Some(LoadingSplashKind::EnteringWorld);
    assert!(!splash_log_due(&mut waited, 600_000, splash, false));
    assert!(splash_log_due(&mut waited, 600_000, splash, false));
    assert_eq!(waited, 0);
    assert!(!splash_log_due(&mut waited, 600_000, None, false));
}

fn everything_shown() -> HudSettings {
    HudSettings { show_hud: true, show_chat: true, onboarding_completed: false }
}

#[test]
fn options_cover_the_game() {
    let mut menu = in_game();
    let plain = in_game_layers(&menu, everything_shown(), false);
    assert!(plain.contains(&Layer::Hud) && plain.contains(&Layer::Chat));
    assert!(plain.contains(&Layer::Deployables));
    menu.pause_open = true;
    menu.pause_options_open = true;
    assert_eq!(in_game_layers(&menu, everything_shown(), false)[0], Layer::Options);
}

#[test]
fn panels_hide_the_labels_of_the_world() {
    let mut menu = in_game();
    menu.inventory_open = true;
    let layers = in_game_layers(&menu, everything_shown(), false);
    assert!(!layers.contains(&Layer::Deployables));
    assert!(layers.contains(&Layer::InventoryPanel));
}

#[test]
fn the_tutorial_ends_once() {
    assert!(tutorial_active(&in_game(), everything_shown(), true));
    assert!(!tutorial_active(&in_game(), everything_shown(), false));
    let mut paused = in_game();
    paused.pause_open = true;
    assert!(!tutorial_active(&paused, everything_shown(), true));
    let mut optioned = in_game();
    optioned.pause_options_open = true;
    assert!(!tutorial_active(&optioned, everything_shown(), true));
    let crafting = tutorial_plan(true, TutorialStep::CraftTools);
    assert!(crafting.pin_recipes && crafting.show == Some(TutorialStep::CraftTools));
    let done = tutorial_plan(true, TutorialStep::Done);
    assert!(done.complete && done.show.is_none());
    assert!(!tutorial_plan(false, TutorialStep::Done).complete);
    let mut settings = everything_shown();
    let step = TutorialStep::Done;
    assert!(!tutorial_frame(&optioned, &mut settings, true, step).complete);
    assert!(!settings.onboarding_completed);
    assert!(tutorial_frame(&in_game(), &mut settings, true, step).complete);
    assert!(settings.onboarding_completed);
    assert!(!tutorial_frame(&in_game(), &mut settings, true, step).complete);
}

#[test]
fn building_costs_tell_what_is_missing() {
    let mut readout =
        BuildingCostReadout { required: 20, material: "wood".to_owned(), have: 25 };
    let enough = building_cost_overlay(Some(&readout)).unwrap();
    assert_eq!(enough.text, "20 wood");
    readout.have = 5;
    let short = building_cost_overlay(Some(&readout)).unwrap();
    assert_eq!(short.text, "20 wood (have 5)");
    assert_ne!(enough.color, short.color);
    assert!(building_cost_overlay(None).is_none());
}

#[test]
fn stations_take_their_reach_from_the_registry() {
    let stations = collect_nearby_stations(
        &registered_items(),
        &vec![PlacedStructure {
            item_id: "workbench_t1".to_owned(),
            kind: DeployableKind::Workbench { tier: 1 },
            position: at(1, 2, 3),
        }],
    );
    assert_eq!(stations.len(), 1);
}

fn splash(elapsed: u64, closing_elapsed: Option<u64>) -> DeathSplash {
    DeathSplash { killer_name: Some("Wolf".to_owned()), elapsed, closing_elapsed }
}

#[test]
fn the_death_title_waits_for_black() {
    let start = death_splash_view(&splash(0, None));
    assert_eq!(start.backdrop.a, 0);
    assert!(start.title.is_none());
    let black = death_splash_view(&splash(BLACK_FADE + TITLE_FADE, None));
    assert_eq!(black.backdrop.a, 255);
    let title = black.title.as_ref().unwrap();
    assert_eq!(title.subline, "Killed by Wolf");
    assert!(respawn_requested(&black, true, true));
    assert!(!respawn_requested(&black, true, false));
    assert!(!respawn_requested(&start, true, true));
}

#[test]
fn a_closing_splash_goes_away() {
    let mut menu = in_game();
    menu.death_splash = Some(splash(9_000_000, Some(0)));
    tick_death_splash(&mut menu, CLOSE_FADE / 2);
    assert!(menu.death_splash.is_some());
    tick_death_splash(&mut menu, CLOSE_FADE);
    assert!(menu.death_splash.is_none());
}

#[test]
fn damage_numbers_fade_and_expire() {
    let anchor = WirePosition { x: 1, y: 2, z: 3 };
    let mut text = FloatingDamageText::new(anchor, 42, FloatingDamageRole::Dealt, 7);
    assert_eq!(text.alpha(), 255);
    let sight = DamageSight { in_front: true, distance: 1_000, on_screen: true };
    assert_eq!(damage_label(&text, sight).unwrap().text, "-42");
    assert!(damage_label(&text, DamageSight { in_front: false, ..sight }).is_none());
    assert!(damage_label(&text, DamageSight { distance: 30_001, ..sight }).is_none());
    assert!(!text.tick(FLOATING_TEXT_LIFETIME - 1));
    assert!(text.alpha() < 255);
    assert!(text.tick(1));
}

fn sighting(component: Component, change: Change, value: u64) -> TraceRow {
    TraceRow {
        component,
        owner: 4,
        entity: "12v1".to_owned(),
        change,
        value: TraceValue::Number(value),
        spawn_text: None,
        tail: String::new(),
    }
}

#[test]
fn every_report_of_health_is_logged() {
    let mut state = ReplicationTraceState::new();
    let mut line = |change: Change, value: u64| {
        trace_row(&mut state, &sighting(Component::DeployableHealth, change, value))
    };
    assert_eq!(
        line(Change::Added, 100).as_deref(),
        Some("client: DeployableHealth   SPAWN  id=4 entity=12v1 hp=100")
    );
    assert_eq!(
        line(Change::Changed, 60).as_deref(),
        Some("client: DeployableHealth   RECV   id=4 entity=12v1 100 -> 60")
    );
    assert_eq!(
        line(Change::Changed, 60).as_deref(),
        Some("client: DeployableHealth   RECV   id=4 entity=12v1 60 -> 60")
    );
    assert!(line(Change::Same, 10).is_none());
}

#[test]
fn stability_is_logged_when_it_really_changes() {
    let mut state = ReplicationTraceState::new();
    let mut line = |change: Change, value: u64| {
        trace_row(&mut state, &sighting(Component::DeployableStability, change, value))
    };
    assert!(line(Change::Added, 100).is_some());
    assert!(line(Change::Changed, 100).is_none());
    assert_eq!(
        line(Change::Changed, 60).as_deref(),
        Some("client: DeployableStability RECV   id=4 entity=12v1 100 -> 60")
    );
    assert!(line(Change::Changed, 60).is_none());
}

fn empty_frame() -> ReplicationFrame {
    ReplicationFrame {
        nodes: vec![],
        deployables: vec![],
        players: vec![],
        inventories: vec![],
        bags: vec![],
        bag_transforms: vec![],
        drops: vec![],
    }
}

fn player_seen(client_id: u64, change: Change, seq: u32) -> PlayerSighting {
    PlayerSighting {
        client_id,
        entity: format!("{client_id}v0"),
        pose: Some((change, "(1.0, 2.0)".to_owned())),
        health: Some((change, "100".to_owned())),
        input_ack: Some((change, 31)),
        armor: Some((change, 12)),
        lifecycle: Some((change, "Alive".to_owned())),
        sleeping: Some((change, true)),
        held: Some((change, "None".to_owned())),
        action: Some((change, seq, "Axe".to_owned())),
    }
}

#[test]
fn a_frame_logs_its_players_component_by_component() {
    let mut state = ReplicationTraceState::new();
    let seen = |change: Change, seq: u32| ReplicationFrame {
        players: vec![
            player_seen(1, change, seq),
            PlayerSighting { pose: None, armor: None, ..player_seen(2, change, seq) },
        ],
        inventories: vec![InventorySighting {
            client_id: 1,
            entity: "1v0".to_owned(),
            change,
            inventory_slots: vec![None],
            actionbar_slots: vec![],
        }],
        bag_transforms: vec![BagTransformSighting {
            id: 9,
            entity: "9v0".to_owned(),
            change,
            position: "(3.0, 4.0)".to_owned(),
        }],
        ..empty_frame()
    };
    assert_eq!(
        log_replicated_storage_changes(&mut state, &seen(Change::Added, 5)),
        vec![
            "client: PlayerPose         SPAWN  client=1 entity=1v0 pos=(1.0, 2.0)",
            "client: PlayerHealth       SPAWN  client=1 entity=1v0 hp=100",
            "client: PlayerHealth       SPAWN  client=2 entity=2v0 hp=100",
            "client: PlayerInventory    SPAWN  client=1 entity=1v0 occupied=0",
            "client: PlayerInputAck     SPAWN  client=1 entity=1v0 last_input=31",
            "client: PlayerInputAck     SPAWN  client=2 entity=2v0 last_input=31",
            "client: PlayerArmor        SPAWN  client=1 entity=1v0 armor=12",
            "client: PlayerLifecycle    SPAWN  client=1 entity=1v0 state=Alive",
            "client: PlayerLifecycle    SPAWN  client=2 entity=2v0 state=Alive",
            "client: PlayerSleeping     SPAWN  client=1 entity=1v0 sleeping=true",
            "client: PlayerSleeping     SPAWN  client=2 entity=2v0 sleeping=true",
            "client: PlayerHeldItem     SPAWN  client=1 entity=1v0 held=None",
            "client: PlayerHeldItem     SPAWN  client=2 entity=2v0 held=None",
            "client: PlayerAction       SPAWN  client=1 entity=1v0 seq=5 tool=Axe",
            "client: PlayerAction       SPAWN  client=2 entity=2v0 seq=5 tool=Axe",
            "client: LootBagTransform     SPAWN  id=9 entity=9v0 pos=(3.0, 4.0)",
        ]
    );
    let later = log_replicated_storage_changes(&mut state, &seen(Change::Changed, 6));
    assert_eq!(
        later[later.len() - 3..],
        [
            "client: PlayerAction       RECV   client=1 entity=1v0 seq 5 -> 6 tool=Axe",
            "client: PlayerAction       RECV   client=2 entity=2v0 seq 5 -> 6 tool=Axe",
            "client: LootBagTransform     RECV   id=9 entity=9v0 pos=(3.0, 4.0)",
        ]
    );
    assert!(later.iter().all(|line| !line.contains("PlayerHeldItem")));
    assert_eq!(body_rows(&seen(Change::Added, 5).players).len(), 3);
    assert_eq!(player_rows(&seen(Change::Added, 5).players).len(), 11);
    assert_eq!(transform_rows(&seen(Change::Added, 5).bag_transforms).len(), 1);
}

#[test]
fn a_frame_logs_its_nodes() {
    let mut state = ReplicationTraceState::new();
    let frame = |change: Change, quantity: u16| ReplicationFrame {
        nodes: vec![NodeSighting {
            id: 1,
            entity: "3v0".to_owned(),
            change,
            quantities: vec![quantity, 5],
        }],
        ..empty_frame()
    };
    assert_eq!(
        log_replicated_storage_changes(&mut state, &frame(Change::Added, 10)),
        vec!["client: ResourceNodeStorage SPAWN  id=1 entity=3v0 qty=15".to_owned()]
    );
    assert_eq!(
        log_replicated_storage_changes(&mut state, &frame(Change::Changed, 9)),
        vec!["client: ResourceNodeStorage RECV   id=1 entity=3v0 15 -> 14".to_owned()]
    );
    assert!(log_replicated_storage_changes(&mut state, &frame(Change::Same, 9)).is_empty());
}

#[test]
fn texts_are_written_and_compared() {
    assert_eq!(signed_decimal(-120), "-120");
    assert_eq!(signed_decimal(i64::MIN), "-9223372036854775808");
    assert_eq!(keep_digits("1a2b 3"), "123");
    assert!(contains_text("stone hatchet", "hat"));
    assert!(!contains_text("stone", "tone hatchet"));
    assert!(contains_text("", ""));
    assert!(comes_before("abc", "abd") && comes_before("ab", "abc"));
    assert!(!comes_before("b", "abc") && !comes_before("abc", "abc"));
    assert_eq!(join(&vec!["a".to_owned(), "b".to_owned()], ", "), "a, b");
    assert_eq!(sort_numbers(&vec![3, 1, 2, 1]), vec![1, 1, 2, 3]);
}
