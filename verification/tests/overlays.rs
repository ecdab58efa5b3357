//! What is drawn over the world: nameplates, bars, warnings and the sign-in.
use ashwend_client::color::{Rgba, opaque, translucent};
use ashwend_client::deployable_overlay::{
    DeployableOverlayEntry, PlacedDeployable, ReplicatedDeployable, Sight,
    collect_deployable_overlay_entries, deployable_label, distance_fade, health_fill_color,
    kind_label, scaled, with_alpha,
};
use ashwend_client::fraction::Fraction;
use ashwend_client::furnace::{
    FurnaceClicks, FurnaceCommand, bar_fill, furnace_frame, inventory_rows, toggle_button,
};
use ashwend_client::hud::combat::{damage_arrow, hit_marker};
use ashwend_client::hud::health::{claim_indicator, health_bar};
use ashwend_client::hud::layers::{
    HudInputs, HudLayer, connection_lag_indicator, hud_layers, voice_indicator,
};
use ashwend_client::hud::meteor::{
    MeteorEvent, meteor_shower_danger_intensity, meteor_shower_danger_warning,
    meteor_shower_intensity,
};
use ashwend_client::hud::perf::{PerfStatsSnapshot, frame_time_stats, millis, perf_box};
use ashwend_client::hud::ranged::{
    HeldCharge, PixelRect, RangedDraw, RangedHudFill, RangedHudView, consume_hud_view,
    ranged_bar_rects, ranged_hud, ranged_hud_view, throw_hud_view,
};
use ashwend_client::hud::vignette::{
    VignetteRamp, clear_centre, frame_indices, vignette_ramp,
};
use ashwend_client::inventory::slot::{
    FurnaceSlotRef, InventoryUiState, UnifiedSlotRef, slot_flash, slot_outline, wear_color,
};
use ashwend_client::login::{
    AuthFlow, LoginClicks, LoginView, ScreenHint, login_frame, login_view,
};
use ashwend_client::menu::MenuState;
use ashwend_client::items::{
    ArmorProfile, DeployableKind, DeployableProfile, EquipmentSlot, HeldMesh, ItemContainerSlot,
    ItemDefinition, ItemStack, ItemTint, PlayerInventoryState, ToolProfile, Vec3Net,
};

fn item(id: &str, name: &str, description: &str, stack_size: u16) -> ItemDefinition {
    ItemDefinition {
        id: id.to_owned(),
        name: name.to_owned(),
        description: description.to_owned(),
        stack_size,
        tint: ItemTint { r: 120, g: 110, b: 100 },
        equipable: false,
        held_mesh: HeldMesh::Other { index: 0 },
        tool: None,
        deployable: None,
        armor: None,
        ammo_item: None,
        explosive: None,
        consumable: false,
    }
}

fn deployable(id: &str, name: &str, kind: DeployableKind, station_radius: u32) -> ItemDefinition {
    let mut definition = item(id, name, "Place it.", 1);
    definition.deployable = Some(DeployableProfile {
        kind,
        label: name.to_owned(),
        station_radius,
        collider_half_height: 500,
    });
    definition
}

fn armor(id: &str, name: &str, slot: EquipmentSlot, pct: (u8, u8, u8)) -> ItemDefinition {
    let mut definition = item(id, name, "Padded cloth.", 1);
    definition.armor = Some(ArmorProfile {
        slot,
        melee_protection_pct: pct.0,
        projectile_protection_pct: pct.1,
        blast_protection_pct: pct.2,
        max_durability: Some(120),
    });
    definition
}

fn tool(id: &str, name: &str, kind: &str) -> ItemDefinition {
    let mut definition = item(id, name, "A tool.", 1);
    definition.equipable = true;
    definition.tool = Some(ToolProfile {
        kind_label: kind.to_owned(),
        tier: 1,
        gather_amount: 4,
        max_durability: Some(200),
    });
    definition
}

fn registered_items() -> Vec<ItemDefinition> {
    vec![
        item("wood", "Wood", "Rough timber.", 200),
        item("stone", "Stone", "A chunk of rock.", 200),
        item("fiber", "Fiber", "Stringy grass.", 200),
        item("plant_twine", "Plant Twine", "A length of cord.", 100),
        item("coal", "Coal", "Burns hot.", 200),
        item("sulfur", "Sulfur", "Smells bad.", 200),
        item("gunpowder", "Gunpowder", "Handle with care.", 200),
        item("cloth", "Cloth", "Woven fabric.", 100),
        item("powder_bomb", "Powder Bomb", "Throw it.", 20),
        tool("stone_hatchet", "Stone Hatchet", "Axe"),
        tool("stone_pickaxe", "Stone Pickaxe", "Pickaxe"),
        tool("iron_hatchet", "Iron Hatchet", "Axe"),
        tool("basic_pickaxe", "Basic Pickaxe", "Pickaxe"),
        armor("padded_hood", "Padded Hood", EquipmentSlot::Head, (2, 2, 1)),
        armor("padded_tunic", "Padded Tunic", EquipmentSlot::Chest, (5, 4, 2)),
        armor("padded_leggings", "Padded Leggings", EquipmentSlot::Legs, (3, 2, 1)),
        armor("padded_wraps", "Padded Wraps", EquipmentSlot::Feet, (2, 2, 0)),
        deployable("workbench_t1", "Workbench", DeployableKind::Workbench { tier: 1 }, 5_000),
        deployable("crude_furnace", "Crude Furnace", DeployableKind::Furnace { tier: 1 }, 3_000),
        deployable("building_wall", "Wall", DeployableKind::Building, 0),
        deployable("ruin_cache", "Salvage Chest", DeployableKind::RuinCache, 0),
    ]
}

fn stack(id: &str, quantity: u16) -> ItemStack {
    ItemStack { item_id: id.to_owned(), quantity, durability: None }
}

fn empty_inventory() -> PlayerInventoryState {
    PlayerInventoryState {
        inventory_slots: (0..60).map(|_| None).collect(),
        actionbar_slots: (0..8).map(|_| None).collect(),
        equipment_slots: (0..4).map(|_| None).collect(),
        active_actionbar_slot: 0,
    }
}

const MAX_HEALTH: u32 = 100_000;
const REACH: u32 = 40_000;

fn entry(health: u32, max_health: u32) -> DeployableOverlayEntry {
    DeployableOverlayEntry {
        id: 7,
        kind: DeployableKind::Workbench { tier: 1 },
        health,
        max_health,
        position: Vec3Net { x: 0, y: 0, z: 0 },
        anchor_height: 2_000,
        look_height: 1_000,
    }
}

fn share(part: u128, whole: u128) -> Fraction {
    Fraction { part, whole }
}

#[test]
fn distance_fade_starts_full_then_drops_to_zero() {
    let draw_distance = REACH + 1_000;
    assert_eq!(distance_fade(0, REACH), 1_000);
    assert_eq!(distance_fade(REACH, REACH), 1_000);
    assert_eq!(distance_fade(draw_distance + 1_000, REACH), 0);
    let mid = distance_fade((REACH + draw_distance) / 2, REACH);
    assert!(mid > 0 && mid < 1_000);
}

#[test]
fn kind_label_includes_tier() {
    assert_eq!(
        kind_label(DeployableKind::Workbench { tier: 1 }).as_deref(),
        Some("Workbench T1")
    );
    assert_eq!(kind_label(DeployableKind::Furnace { tier: 2 }).as_deref(), Some("Furnace T2"));
    assert_eq!(kind_label(DeployableKind::Door), None);
}

#[test]
fn health_fill_color_maps_three_tiers() {
    assert_eq!(health_fill_color(share(1, 1)), opaque(125, 196, 55));
    assert_eq!(health_fill_color(share(1, 2)), opaque(232, 188, 64));
    assert_eq!(health_fill_color(share(1, 10)), opaque(228, 96, 78));
    assert_eq!(health_fill_color(share(6, 10)), opaque(232, 188, 64));
    assert_eq!(health_fill_color(share(3, 10)), opaque(228, 96, 78));
}

#[test]
fn scaled_and_with_alpha_apply_and_clamp_fade() {
    assert_eq!(scaled(100, 1_000), 100);
    assert_eq!(scaled(100, 0), 0);
    assert_eq!(scaled(100, 500), 50);
    assert_eq!(scaled(100, 5_000), 100);
    assert_eq!(scaled(100, -2_000), 0);
    assert_eq!(with_alpha(opaque(9, 8, 7), 200), translucent(9, 8, 7, 200));
    assert_eq!(with_alpha(opaque(9, 8, 7), 255), opaque(9, 8, 7));
}

#[test]
fn nameplate_renders_at_full_and_damaged_fade() {
    let sight = Sight { distance: 1_000, looked_at: true, on_screen: true };
    let full = deployable_label(&entry(500, 500), sight, REACH).unwrap();
    let damaged = deployable_label(&entry(120, 500), sight, REACH).unwrap();
    // An undamaged structure is written invisibly, a damaged one in full.
    assert_eq!(full.background.a, 0);
    assert_eq!(full.label_color.a, 0);
    assert_eq!(damaged.background.a, 186);
    assert_eq!(damaged.label_color.a, 255);
    assert_eq!(damaged.label.as_deref(), Some("Workbench T1"));
    assert_eq!((damaged.bar.part, damaged.bar.whole), (120, 500));
}

#[test]
fn a_structure_out_of_sight_has_no_plate() {
    let shown = Sight { distance: 1_000, looked_at: true, on_screen: true };
    assert!(deployable_label(&entry(1, 5), Sight { looked_at: false, ..shown }, REACH).is_none());
    assert!(deployable_label(&entry(1, 5), Sight { on_screen: false, ..shown }, REACH).is_none());
    assert!(
        deployable_label(&entry(1, 5), Sight { distance: REACH + 1_001, ..shown }, REACH).is_none()
    );
}

#[test]
fn collect_entries_pairs_placed_with_replicated_state() {
    let mut items = registered_items();
    for definition in &mut items {
        if definition.id == "crude_furnace" {
            definition.deployable.as_mut().unwrap().collider_half_height = 900;
        }
    }
    let position = Vec3Net { x: 2_000, y: 0, z: -3_000 };
    let placed = vec![
        PlacedDeployable { id: 10, position },
        PlacedDeployable { id: 11, position },
        PlacedDeployable { id: 99, position },
    ];
    let replicated = vec![
        ReplicatedDeployable {
            id: 10,
            item_id: "workbench_t1".to_owned(),
            kind: DeployableKind::Workbench { tier: 1 },
            health: 250,
            max_health: 500,
        },
        ReplicatedDeployable {
            id: 11,
            item_id: "crude_furnace".to_owned(),
            kind: DeployableKind::Furnace { tier: 1 },
            health: 800,
            max_health: 800,
        },
    ];

    let mut entries = collect_deployable_overlay_entries(&items, &placed, &replicated);
    entries.sort_by_key(|e| e.id);

    assert_eq!(entries.len(), 2);
    assert_eq!(entries[0].id, 10);
    assert_eq!(entries[0].health, 250);
    assert_eq!(entries[0].max_health, 500);
    assert_eq!(entries[1].id, 11);
    assert_eq!(entries[1].health, 800);
    assert!(entries[1].anchor_height > entries[0].anchor_height);
    assert!(entries[0].look_height < entries[0].anchor_height);
}

fn no_clicks() -> FurnaceClicks {
    FurnaceClicks { backdrop: false, toggle: false, close: false }
}

#[test]
fn furnace_ui_noop_without_open_furnace() {
    let menu = MenuState::new();
    let mut inv_ui = InventoryUiState::new();
    let frame = furnace_frame(&menu, &mut inv_ui, None, no_clicks());
    assert!(!frame.drawn);
    assert!(frame.commands.is_empty());
}

#[test]
fn furnace_ui_suppressed_while_paused() {
    let mut menu = MenuState::new();
    menu.pause_open = true;
    let mut inv_ui = InventoryUiState::new();
    let frame = furnace_frame(&menu, &mut inv_ui, Some(true), no_clicks());
    assert!(!frame.drawn);
}

#[test]
fn furnace_ui_renders_panel_and_records_rect() {
    let menu = MenuState::new();
    let mut inv_ui = InventoryUiState::new();
    let frame = furnace_frame(&menu, &mut inv_ui, Some(true), no_clicks());
    assert!(frame.drawn);
    assert!(frame.commands.is_empty());
}

#[test]
fn furnace_ui_renders_with_inactive_furnace() {
    let menu = MenuState::new();
    let mut inv_ui = InventoryUiState::new();
    let frame = furnace_frame(&menu, &mut inv_ui, Some(false), no_clicks());
    assert!(frame.drawn);
    assert_eq!(toggle_button(false).0, "Turn on");
    assert_eq!(toggle_button(true).0, "Turn off");
}

#[test]
fn every_pending_slot_is_transferred() {
    for from in [
        UnifiedSlotRef::Bag(3),
        UnifiedSlotRef::Furnace(FurnaceSlotRef::Fuel),
        UnifiedSlotRef::Player(ItemContainerSlot::inventory(1)),
    ] {
        let mut inv_ui = InventoryUiState::new();
        inv_ui.pending_quick_transfer = Some(from);
        let frame = furnace_frame(&MenuState::new(), &mut inv_ui, Some(false), no_clicks());
        assert_eq!(frame.commands, vec![FurnaceCommand::QuickTransfer { from }]);
        assert!(inv_ui.pending_quick_transfer.is_none());
    }
}

#[test]
fn furnace_clicks_become_commands() {
    let menu = MenuState::new();
    let mut inv_ui = InventoryUiState::new();
    let toggled = furnace_frame(
        &menu,
        &mut inv_ui,
        Some(false),
        FurnaceClicks { toggle: true, close: true, ..no_clicks() },
    );
    assert!(matches!(toggled.commands[0], FurnaceCommand::SetActive { active: true }));
    assert!(matches!(toggled.commands[1], FurnaceCommand::Close));
    let backdrop = furnace_frame(
        &menu,
        &mut inv_ui,
        Some(false),
        FurnaceClicks { backdrop: true, toggle: true, close: false },
    );
    assert!(!backdrop.drawn);
    assert_eq!(backdrop.commands.len(), 1);
    assert_eq!(inventory_rows()[4], (48, 60));
}

#[test]
fn draw_progress_bar_fills_and_empties() {
    assert_eq!(bar_fill(1_000), Some(1_000));
    assert_eq!(bar_fill(0), None);
    assert_eq!(bar_fill(250), Some(250));
    assert_eq!(bar_fill(7_000), Some(1_000));
}

fn nothing_shown() -> HudInputs {
    HudInputs {
        show_perf_stats: false,
        lagging: false,
        has_local_view: false,
        ranged_view: false,
        throw_view: false,
        consume_view: false,
    }
}

#[test]
fn hud_renders_with_and_without_local_player() {
    let without = hud_layers(nothing_shown());
    assert!(!without.contains(&HudLayer::Health));
    let with = hud_layers(HudInputs { has_local_view: true, ..nothing_shown() });
    assert!(with.contains(&HudLayer::Health));
    assert_eq!(health_bar(75_000, MAX_HEALTH).text, "75");
}

#[test]
fn voice_indicator_appears_when_envelope_above_zero() {
    let chip = voice_indicator(500_000).unwrap();
    assert_eq!(chip.label, "Voice On");
    assert_eq!(chip.background, translucent(6, 9, 13, 115));
    assert!(chip.moving);
}

#[test]
fn voice_indicator_hidden_when_idle() {
    assert!(voice_indicator(0).is_none());
}

#[test]
fn perf_overlay_is_gated_by_the_settings_toggle() {
    let off = hud_layers(nothing_shown());
    assert!(!off.contains(&HudLayer::PerfStats));
    let on = hud_layers(HudInputs { show_perf_stats: true, ..nothing_shown() });
    assert!(on.contains(&HudLayer::PerfStats));
    let waiting = perf_box(frame_time_stats(None, None, &vec![]), None, None, None);
    assert_eq!(waiting.waiting.as_deref(), Some("waiting for server\u{2026}"));
}

#[test]
fn voice_indicator_envelope_just_above_floor_hides() {
    assert!(voice_indicator(4_000).is_none());
    assert!(voice_indicator(5_000).is_none());
    assert!(voice_indicator(5_001).is_some());
}

#[test]
fn claim_indicator_draws_both_standings() {
    assert_eq!(claim_indicator(true).label, "Authorized");
    assert_eq!(claim_indicator(false).label, "Unauthorized");
    assert_ne!(claim_indicator(true).border, claim_indicator(false).border);
}

#[test]
fn combat_feedback_overlay_draws_when_active() {
    assert!(hit_marker(0, true).is_none());
    assert_eq!(hit_marker(1_000_000, true), Some(translucent(255, 90, 78, 235)));
    assert_eq!(hit_marker(1_000_000, false), Some(translucent(240, 242, 245, 235)));
    assert_eq!(damage_arrow(5_000, 5_000, 1_000_000), Some(translucent(214, 40, 40, 220)));
    assert!(damage_arrow(0, 0, 1_000_000).is_none());
    // A fade over all strengthens the colour until it is full.
    assert_eq!(hit_marker(1_050_000, true), Some(translucent(255, 90, 78, 246)));
    assert_eq!(hit_marker(u32::MAX, true), Some(translucent(255, 90, 78, 255)));
    assert_eq!(damage_arrow(5_000, 5_000, 1_100_000), Some(translucent(214, 40, 40, 242)));
    assert_eq!(damage_arrow(5_000, 5_000, 2_000_000), Some(translucent(214, 40, 40, 255)));
}

#[test]
fn health_bar_clamps_extreme_values() {
    let below = health_bar(-10_000, MAX_HEALTH);
    assert_eq!(below.share.part, 0);
    let above = health_bar(i64::from(MAX_HEALTH) * 2, MAX_HEALTH);
    assert_eq!(above.share.part, above.share.whole);
}

#[test]
fn health_bar_renders_full_mid_and_empty() {
    for (health, text) in [(0, "0"), (50_000, "50"), (100_000, "100")] {
        let bar = health_bar(health, MAX_HEALTH);
        assert_eq!(bar.text, text);
        assert_eq!(bar.share.part * u128::from(MAX_HEALTH), bar.share.whole * health as u128);
    }
}

#[test]
fn meteor_shower_danger_intensity_ramps_over_the_final_minute() {
    assert_eq!(meteor_shower_danger_intensity(120_000), 0);
    assert_eq!(meteor_shower_danger_intensity(60_000), 0);
    assert_eq!(meteor_shower_danger_intensity(30_000), 30_000);
    assert_eq!(meteor_shower_danger_intensity(0), 60_000);
    assert_eq!(meteor_shower_danger_intensity(-5_000), 60_000);
    assert!(meteor_shower_danger_intensity(10_000) > meteor_shower_danger_intensity(40_000));
}

#[test]
fn the_worst_meteor_sets_the_warning() {
    let meteor = |x: i32, millis_to_impact: i64, impacted: bool| MeteorEvent {
        impact_position: Vec3Net { x, y: 0, z: 0 },
        size: 1_000,
        impacted,
        millis_to_impact,
    };
    let here = Some(Vec3Net { x: 0, y: 5_000, z: 0 });
    let events = vec![
        meteor(0, 45_000, false),
        meteor(1_000, 15_000, false),
        meteor(0, 1_000, true),
        meteor(9_000_000, 1_000, false),
    ];
    assert_eq!(meteor_shower_intensity(&events, 20_000, here), Some(45_000));
    assert_eq!(meteor_shower_intensity(&events, 20_000, None), None);
    assert_eq!(meteor_shower_intensity(&vec![meteor(0, 1, true)], 20_000, here), None);
    let calm = meteor_shower_danger_warning(0);
    let worst = meteor_shower_danger_warning(60_000);
    assert_eq!(calm.text, "Meteor incoming. Evacuate the area.");
    assert_eq!(calm.text_color, opaque(255, 200, 170));
    assert_eq!(worst.text_color, opaque(255, 120, 170));
    assert_eq!(worst.background, translucent(48, 6, 4, 240));
    let beyond = meteor_shower_danger_warning(u32::MAX);
    assert_eq!((beyond.text_color, beyond.background), (worst.text_color, worst.background));
}

#[test]
fn perf_overlay_renders_with_server_stats() {
    let world = PerfStatsSnapshot {
        player_chunk_x: -2,
        player_chunk_z: 5,
        classification: "Forest".to_owned(),
        loaded_chunks: 9,
        live_nodes: 42,
        aoi_visible_nodes: 7,
        pending_regrows: 3,
    };
    let shown = perf_box(frame_time_stats(None, None, &vec![]), None, None, Some(&world));
    assert!(shown.waiting.is_none());
    let values: Vec<&str> = shown.rows.iter().map(|row| row.value.as_str()).collect();
    assert!(values.contains(&"42"));
    assert!(values.contains(&"9"));
    assert!(values.iter().any(|value| value.contains("-2")));
}

#[test]
fn frame_time_stats_defaults_to_zero_without_diagnostics() {
    let stats = frame_time_stats(None, None, &vec![]);
    assert_eq!(stats.fps, 0);
    assert_eq!(stats.last, 0);
    assert_eq!(stats.p99, 0);
    assert_eq!(stats.max, 0);
}

#[test]
fn the_slowest_frames_are_found() {
    let samples: Vec<u64> = (1..=200).rev().collect();
    let stats = frame_time_stats(Some(60), Some(3), &samples);
    assert_eq!((stats.fps, stats.last), (60, 3));
    assert_eq!(stats.max, 200);
    assert_eq!(stats.p99, 199);
    let one = frame_time_stats(None, None, &vec![7]);
    assert_eq!((one.p99, one.max), (7, 7));
    assert_eq!(millis(16_667), "16.67 ms");
}

#[test]
fn connection_lag_indicator_draws_a_chip() {
    let chip = connection_lag_indicator();
    assert_eq!(chip.label, "Connection unstable");
    let layers = hud_layers(HudInputs { lagging: true, ..nothing_shown() });
    assert!(layers.contains(&HudLayer::ConnectionLag));
}

fn armory() -> Vec<ItemDefinition> {
    let mut items = registered_items();
    for id in ["wooden_bow", "crossbow"] {
        let mut bow = item(id, id, "Shoots.", 1);
        bow.equipable = true;
        bow.ammo_item = Some("arrow".to_owned());
        items.push(bow);
    }
    items.push(item("arrow", "Arrow", "Pointy.", 50));
    let mut bomb = item("bomb", "Bomb", "Throw it.", 10);
    bomb.explosive = Some(ashwend_client::items::ExplosiveDelivery::Thrown);
    items.push(bomb);
    let mut bandage = item("bandage", "Bandage", "Patch up.", 10);
    bandage.consumable = true;
    items.push(bandage);
    items
}

fn holding(item_id: &str, arrows: u16) -> PlayerInventoryState {
    let mut inventory = empty_inventory();
    inventory.actionbar_slots[0] = Some(stack(item_id, 1));
    if arrows > 0 {
        inventory.inventory_slots[0] = Some(stack("arrow", arrows));
    }
    inventory
}

fn idle_draw() -> RangedDraw {
    RangedDraw { drawing: false, draw_fraction: 0, reloading: false, reload_fraction: 0 }
}

#[test]
fn ranged_hud_is_silent_for_melee_or_empty_hands() {
    let items = armory();
    assert!(ranged_hud_view(&items, None, idle_draw()).is_none());
    assert!(
        ranged_hud_view(&items, Some(&holding("stone_hatchet", 5)), idle_draw()).is_none(),
        "a melee tool never shows the ranged HUD"
    );
}

#[test]
fn ranged_hud_view_reports_ammo_and_draw_fill() {
    let items = armory();
    let local = holding("wooden_bow", 5);
    let idle = ranged_hud_view(&items, Some(&local), idle_draw()).expect("a held bow shows the HUD");
    assert_eq!(idle.ammo, 5);
    assert_eq!(idle.fill, None, "no bar fill while not drawing");

    let draw = RangedDraw { drawing: true, draw_fraction: 500_000, ..idle_draw() };
    let drawn = ranged_hud_view(&items, Some(&local), draw).expect("still holding the bow");
    match drawn.fill {
        Some(RangedHudFill::Draw(f)) => assert!(f > 0, "the bar fills with the draw"),
        other => panic!("expected a draw fill, got {other:?}"),
    }
}

#[test]
fn ranged_hud_view_shows_reload_progress_for_the_crossbow() {
    let items = armory();
    let local = holding("crossbow", 3);
    let reload = RangedDraw { reloading: true, reload_fraction: 250_000, ..idle_draw() };
    let view = ranged_hud_view(&items, Some(&local), reload).expect("crossbow shows the HUD");
    match view.fill {
        Some(RangedHudFill::Reload(f)) => {
            assert!(f > 0 && f < 1_000_000, "the bar tracks the reload, got {f}");
        }
        other => panic!("expected a reload fill, got {other:?}"),
    }
}

#[test]
fn throws_and_bandages_show_their_charge() {
    let items = armory();
    let charge = HeldCharge { fraction: Some(400_000) };
    let bomb = holding("bomb", 0);
    let bandage = holding("bandage", 0);
    let thrown = throw_hud_view(&items, Some(&bomb), charge).unwrap();
    assert_eq!(thrown, RangedHudView { ammo: 1, fill: Some(RangedHudFill::Draw(400_000)) });
    assert!(throw_hud_view(&items, Some(&bomb), HeldCharge { fraction: None }).is_none());
    assert!(throw_hud_view(&items, Some(&bandage), charge).is_none());
    assert!(consume_hud_view(&items, Some(&bandage), charge).is_some());
    assert!(consume_hud_view(&items, Some(&bomb), charge).is_none());
}

fn actionbar() -> PixelRect {
    PixelRect { left: 300_000, top: 540_000, right: 500_000, bottom: 584_000 }
}

#[test]
fn ranged_hud_paints_the_count_and_bar_when_the_actionbar_rect_is_known() {
    let view = RangedHudView { ammo: 12, fill: Some(RangedHudFill::Draw(600_000)) };
    let shown = ranged_hud(view, Some(actionbar())).unwrap();
    assert_eq!(shown.ammo_text, "12");
    assert!(shown.bar.is_some());
}

#[test]
fn ranged_hud_is_silent_without_a_known_actionbar_rect() {
    let view = RangedHudView { ammo: 12, fill: Some(RangedHudFill::Draw(600_000)) };
    assert!(ranged_hud(view, None).is_none());
}

#[test]
fn ranged_bar_sits_above_the_actionbar_and_fills_left_to_right() {
    let actionbar = actionbar();
    let (track, fill) = ranged_bar_rects(actionbar, 0);
    assert!(track.bottom <= actionbar.top, "the bar sits above the actionbar");
    assert_eq!(track.left, actionbar.left);
    assert_eq!(track.right, actionbar.right);
    assert_eq!(fill.right - fill.left, 0, "an empty draw has no fill");

    let (track, fill) = ranged_bar_rects(actionbar, 500_000);
    assert_eq!((fill.right - fill.left) * 2, track.right - track.left);
    assert_eq!(fill.left, track.left, "fills from the left");

    let (track, fill) = ranged_bar_rects(actionbar, 2_000_000);
    assert_eq!(fill.right - fill.left, track.right - track.left);
}

fn clear_inset(ramp: VignetteRamp) -> f64 {
    ramp.clear_inset.part as f64 / ramp.clear_inset.whole as f64
}

fn edge_alpha(ramp: VignetteRamp) -> f64 {
    (ramp.severity.part as f64 / ramp.severity.whole as f64).powf(2.2) * 225.0
}

#[test]
fn low_health_vignette_appears_only_when_hurt() {
    assert!(vignette_ramp(i64::from(MAX_HEALTH), MAX_HEALTH).is_none());
    assert!(vignette_ramp(i64::from(MAX_HEALTH) / 10, MAX_HEALTH).is_some());
}

#[test]
fn vignette_ramps_in_from_the_threshold_and_crowds_inward_as_health_empties() {
    assert!(vignette_ramp(100_000, MAX_HEALTH).is_none());
    assert!(vignette_ramp(75_000, MAX_HEALTH).is_none());

    let scratched = vignette_ramp(70_000, MAX_HEALTH).expect("in band");
    assert!(edge_alpha(scratched) < 8.0, "a light wound should be nearly invisible");
    assert_eq!(scratched.critical.part, 0);
    assert_eq!(scratched.wash_alpha, 0);
    assert!((clear_inset(scratched) - 0.30).abs() < 1e-6);

    let mut previous = vignette_ramp(74_000, MAX_HEALTH).expect("in band");
    for step in 1..=74 {
        let health = 74_000 - step * 1_000;
        let shape = vignette_ramp(health, MAX_HEALTH).expect("in band");
        assert!(
            edge_alpha(shape) >= edge_alpha(previous),
            "alpha must not fall as health drops (at {health})"
        );
        assert!(
            clear_inset(shape) <= clear_inset(previous) + 1e-6,
            "the clear center must not reopen as health drops (at {health})"
        );
        assert!(
            shape.wash_alpha >= previous.wash_alpha,
            "the wash must not fade as health drops (at {health})"
        );
        previous = shape;
    }

    let empty = vignette_ramp(0, MAX_HEALTH).expect("in band");
    assert!((edge_alpha(empty) - 225.0).abs() < 1e-3);
    assert_eq!(empty.wash_alpha, 120_000);
    assert!((clear_inset(empty) - 0.08).abs() < 1e-6);
    assert_eq!(empty.critical.part, empty.critical.whole);
    assert!(clear_inset(empty) > 0.0);
    assert!(empty.wash_alpha < 128_000, "the wash must never blind the player");
    assert!(clear_inset(empty) < 0.5 && clear_inset(scratched) < 0.5);
    assert_eq!(frame_indices().len(), 24);
}

#[test]
fn the_red_closes_in_around_the_crosshair() {
    let screen = PixelRect { left: 0, top: 0, right: 1_600_000, bottom: 1_000_000 };
    let margin = |health: i64| {
        let clear = clear_centre(screen, health, MAX_HEALTH)?;
        assert_eq!(clear.screen, screen);
        Some(clear.margin.part as f64 / clear.margin.whole as f64)
    };
    assert_eq!(margin(i64::from(MAX_HEALTH)), None);
    // The radius is three tenths of the smaller side at first, and eight
    // hundredths of it at the end.
    assert_eq!(margin(70_000), Some(200_000.0));
    assert_eq!(margin(0), Some(420_000.0));
    let mut previous = margin(30_000).unwrap();
    for health in (0..30_000).rev() {
        let next = margin(health).unwrap();
        assert!(previous < next);
        previous = next;
    }
}

#[test]
fn flashing_slot_paints_overlay() {
    assert_eq!(slot_flash(0), None);
    assert_eq!(
        slot_flash(1_000_000),
        Some((translucent(255, 214, 138, 140), translucent(255, 232, 180, 210)))
    );
    assert_eq!(slot_flash(u32::MAX), slot_flash(1_000_000));
    assert_eq!(slot_outline(true), (opaque(96, 168, 255), 2));
}

#[test]
fn wear_runs_from_green_to_red() {
    assert_eq!(wear_color(100, 100), Some(opaque(25, 200, 70)));
    assert_eq!(wear_color(75, 100), Some(opaque(140, 200, 70)));
    assert_eq!(wear_color(50, 100), Some(opaque(235, 230, 50)));
    assert_eq!(wear_color(1, 100), Some(opaque(235, 34, 50)));
    assert_eq!(wear_color(0, 100), None);
}

fn idle() -> LoginClicks {
    LoginClicks { sign_in: false, create_account: false, quit: false }
}

#[test]
fn logged_out_view_renders_without_triggering_actions() {
    let mut auth = AuthFlow::LoggedOut { error: None };
    let mut menu = MenuState::new();
    assert!(login_view(&auth).is_some(), "the login splash should draw");
    let wanted = login_frame(&mut auth, &mut menu, idle());
    assert!(wanted.is_none());
    assert!(matches!(auth, AuthFlow::LoggedOut { .. }));
    assert!(!menu.quit_requested);
}

#[test]
fn logged_out_view_renders_an_error_message() {
    let mut auth = AuthFlow::LoggedOut { error: Some("sign-in rejected".to_owned()) };
    let mut menu = MenuState::new();
    match login_view(&auth) {
        Some(LoginView::LoggedOut { error }) => assert_eq!(error.as_deref(), Some("sign-in rejected")),
        _ => panic!("expected the login splash"),
    }
    login_frame(&mut auth, &mut menu, idle());
    assert!(matches!(auth, AuthFlow::LoggedOut { error: Some(_) }));
}

#[test]
fn busy_views_render_the_spinner_splash() {
    for auth in [AuthFlow::Verifying, AuthFlow::Authenticating] {
        assert!(
            matches!(login_view(&auth), Some(LoginView::Busy { .. })),
            "the busy splash should draw"
        );
    }
}

#[test]
fn authenticated_view_returns_early() {
    let mut auth = AuthFlow::Authenticated;
    let mut menu = MenuState::new();
    assert!(login_view(&auth).is_none());
    let clicks = LoginClicks { sign_in: true, create_account: true, quit: true };
    assert!(login_frame(&mut auth, &mut menu, clicks).is_none());
    assert!(matches!(auth, AuthFlow::Authenticated));
    assert!(!menu.quit_requested);
}

#[test]
fn signing_in_opens_the_browser() {
    let mut auth = AuthFlow::LoggedOut { error: None };
    let mut menu = MenuState::new();
    let wanted = login_frame(&mut auth, &mut menu, LoginClicks { sign_in: true, ..idle() });
    assert!(matches!(wanted, Some(ScreenHint::SignIn)));
    assert!(matches!(auth, AuthFlow::Authenticating));
    let mut auth = AuthFlow::LoggedOut { error: None };
    login_frame(&mut auth, &mut menu, LoginClicks { quit: true, ..idle() });
    assert!(menu.quit_requested);
}

#[test]
fn transparent_colours_hold_nothing() {
    assert_eq!(translucent(9, 8, 7, 0), Rgba { r: 0, g: 0, b: 0, a: 0 });
    assert_eq!(translucent(255, 255, 255, 128), Rgba { r: 128, g: 128, b: 128, a: 128 });
}
