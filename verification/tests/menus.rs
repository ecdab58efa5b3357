//! Item grants, confirmation dialogs, the recording slate and the session.
use ashwend_client::admin::{
    GrantClicks, SendOutcome, clicked_amounts, grant, grant_amounts, grant_failure, grant_hint,
    grantable_items,
};
use ashwend_client::cinematic::{CinematicOverlayPhase, cinematic_slate, shot_title};
use ashwend_client::color::translucent;
use ashwend_client::confirm::{
    ConfirmationAction, ConfirmationChoice, ConfirmationDialog, ModalOutput,
    apply_confirmation_action, confirmation_frame, notice_frame,
};
use ashwend_client::items::{ToolKind, item_definition};
use ashwend_client::menu::{DeathSplash, MenuState, NoticeDialog, Screen};
use ashwend_client::network::{
    FloatingDamageRole, NetworkAction, ResourceImpactKind, ServerMessage, SurfaceMaterial, TickOutcome, WirePosition,
    begin_tick, finish_tick, handle_message, handle_next, measure_round_trip, network_tick_allowed,
    position_seed, remote_impact_event, remote_impact_tool_and_surface, show_auth_rejected_notice,
    show_kick_notice, show_version_mismatch_notice,
};
use ashwend_client::items::{
    ArmorProfile, DeployableKind, DeployableProfile, EquipmentSlot, HeldMesh, ItemDefinition,
    ItemStack, ItemTint, PlayerInventoryState, ToolProfile,
};

fn item(id: &str, name: &str, description: &str, stack_size: u16) -> ItemDefinition {
    ItemDefinition {
        id: id.to_owned(),
        name: name.to_owned(),
        description: description.to_owned(),
        stack_size,
        tint: ItemTint { r: 120, g: 110, b: 100 },
        equipable: false,
        held_mesh: HeldMesh::Other { index: 0 },
        tool: None,
        deployable: None,
        armor: None,
        ammo_item: None,
        explosive: None,
        consumable: false,
    }
}

fn deployable(id: &str, name: &str, kind: DeployableKind, station_radius: u32) -> ItemDefinition {
    let mut definition = item(id, name, "Place it.", 1);
    definition.deployable = Some(DeployableProfile {
        kind,
        label: name.to_owned(),
        station_radius,
        collider_half_height: 500,
    });
    definition
}

fn armor(id: &str, name: &str, slot: EquipmentSlot, pct: (u8, u8, u8)) -> ItemDefinition {
    let mut definition = item(id, name, "Padded cloth.", 1);
    definition.armor = Some(ArmorProfile {
        slot,
        melee_protection_pct: pct.0,
        projectile_protection_pct: pct.1,
        blast_protection_pct: pct.2,
        max_durability: Some(120),
    });
    definition
}

fn tool(id: &str, name: &str, kind: &str) -> ItemDefinition {
    let mut definition = item(id, name, "A tool.", 1);
    definition.equipable = true;
    definition.tool = Some(ToolProfile {
        kind_label: kind.to_owned(),
        tier: 1,
        gather_amount: 4,
        max_durability: Some(200),
    });
    definition
}

fn registered_items() -> Vec<ItemDefinition> {
    vec![
        item("wood", "Wood", "Rough timber.", 200),
        item("stone", "Stone", "A chunk of rock.", 200),
        item("fiber", "Fiber", "Stringy grass.", 200),
        item("plant_twine", "Plant Twine", "A length of cord.", 100),
        item("coal", "Coal", "Burns hot.", 200),
        item("sulfur", "Sulfur", "Smells bad.", 200),
        item("gunpowder", "Gunpowder", "Handle with care.", 200),
        item("cloth", "Cloth", "Woven fabric.", 100),
        item("powder_bomb", "Powder Bomb", "Throw it.", 20),
        tool("stone_hatchet", "Stone Hatchet", "Axe"),
        tool("stone_pickaxe", "Stone Pickaxe", "Pickaxe"),
        tool("iron_hatchet", "Iron Hatchet", "Axe"),
        tool("basic_pickaxe", "Basic Pickaxe", "Pickaxe"),
        armor("padded_hood", "Padded Hood", EquipmentSlot::Head, (2, 2, 1)),
        armor("padded_tunic", "Padded Tunic", EquipmentSlot::Chest, (5, 4, 2)),
        armor("padded_leggings", "Padded Leggings", EquipmentSlot::Legs, (3, 2, 1)),
        armor("padded_wraps", "Padded Wraps", EquipmentSlot::Feet, (2, 2, 0)),
        deployable("workbench_t1", "Workbench", DeployableKind::Workbench { tier: 1 }, 5_000),
        deployable("crude_furnace", "Crude Furnace", DeployableKind::Furnace { tier: 1 }, 3_000),
        deployable("building_wall", "Wall", DeployableKind::Building, 0),
        deployable("ruin_cache", "Salvage Chest", DeployableKind::RuinCache, 0),
    ]
}

fn stack(id: &str, quantity: u16) -> ItemStack {
    ItemStack { item_id: id.to_owned(), quantity, durability: None }
}

fn empty_inventory() -> PlayerInventoryState {
    PlayerInventoryState {
        inventory_slots: (0..60).map(|_| None).collect(),
        actionbar_slots: (0..8).map(|_| None).collect(),
        equipment_slots: (0..4).map(|_| None).collect(),
        active_actionbar_slot: 0,
    }
}

#[test]
fn grant_amounts_scale_with_stack_size() {
    let items = registered_items();
    let wood = item_definition(&items, "wood").unwrap();
    assert!(wood.stack_size >= 100, "wood is the bulk archetype");
    assert_eq!(grant_amounts(wood), (100, 250));
    let bomb = item_definition(&items, "powder_bomb").unwrap();
    assert!(bomb.stack_size > 1 && bomb.stack_size < 100);
    assert_eq!(grant_amounts(bomb), (1, 10));
    let hatchet = item_definition(&items, "iron_hatchet").unwrap();
    assert_eq!(hatchet.stack_size, 1);
    assert_eq!(grant_amounts(hatchet), (1, 1));
}

#[test]
fn grantable_items_hide_building_rows_and_the_ruin_cache() {
    let items = registered_items();
    let offered = grantable_items(&items, "ruin_cache");
    let ids: Vec<&str> = offered.iter().map(|definition| definition.id.as_str()).collect();
    assert!(ids.contains(&"wood"));
    assert!(ids.contains(&"powder_bomb"));
    assert!(!ids.contains(&"ruin_cache"), "world-spawned, not givable");
    for definition in &items {
        let hidden_building = matches!(
            definition.deployable.as_ref().map(|profile| profile.kind),
            Some(DeployableKind::Building)
        );
        assert_eq!(
            ids.contains(&definition.id.as_str()),
            !hidden_building && definition.id != "ruin_cache",
            "{} filtered wrong",
            definition.id
        );
    }
}

#[test]
fn grants_are_typed_as_commands() {
    assert_eq!(grant("wood", 250), "give wood 250");
    assert_eq!(grant_failure(&SendOutcome::Sent), None);
    assert_eq!(
        grant_failure(&SendOutcome::NotConnected).as_deref(),
        Some("give failed: not connected")
    );
    assert_eq!(
        grant_failure(&SendOutcome::Failed { error: "pipe closed".to_owned() }).as_deref(),
        Some("give failed: pipe closed")
    );
    let items = registered_items();
    let wood = item_definition(&items, "wood").unwrap();
    assert_eq!(grant_hint(wood), "Left click: +100    Right click: +250");
    let hatchet = item_definition(&items, "iron_hatchet").unwrap();
    assert_eq!(grant_hint(hatchet), "Click: +1");
    let both = GrantClicks { primary: true, secondary: true };
    assert_eq!(clicked_amounts(wood, both), vec![100, 250]);
}

fn delete_dialog() -> Option<ConfirmationDialog> {
    Some(ConfirmationDialog {
        action: ConfirmationAction::DeleteWorld { world_id: 7 },
        closing: false,
        confirmed: false,
    })
}

#[test]
fn a_confirmed_dialog_acts_once_it_is_gone() {
    let mut dialog = delete_dialog();
    let press =
        ModalOutput { choice: Some(ConfirmationChoice::Confirm), finished_closing: false };
    assert_eq!(confirmation_frame(&mut dialog, press), None);
    assert!(dialog.unwrap().closing);
    let gone = ModalOutput { choice: None, finished_closing: true };
    assert_eq!(
        confirmation_frame(&mut dialog, gone),
        Some(ConfirmationAction::DeleteWorld { world_id: 7 })
    );
    assert!(dialog.is_none());
    assert_eq!(confirmation_frame(&mut dialog, gone), None);
}

#[test]
fn a_cancelled_dialog_does_not_act() {
    let mut dialog = delete_dialog();
    let press = ModalOutput { choice: Some(ConfirmationChoice::Cancel), finished_closing: false };
    assert_eq!(confirmation_frame(&mut dialog, press), None);
    let gone = ModalOutput { choice: None, finished_closing: true };
    assert_eq!(confirmation_frame(&mut dialog, gone), None);
    assert!(dialog.is_none());
    assert_eq!(notice_frame(false, press), (true, true));
    assert_eq!(notice_frame(true, gone), (true, false));
}

#[test]
fn delete_confirmation_action_refreshes_world_list() {
    let mut menu = MenuState::new();
    assert!(apply_confirmation_action(&mut menu, Ok(())));
    assert!(menu.status.is_none());
}

#[test]
fn delete_confirmation_reports_store_errors() {
    let mut menu = MenuState::new();
    assert!(!apply_confirmation_action(&mut menu, Err("world list failed".to_owned())));
    assert!(menu.status.expect("status should exist").contains("world list failed"));
}

#[test]
fn the_slate_counts_down() {
    let shots = vec!["Dawn".to_owned(), "Raid".to_owned()];
    assert_eq!(shot_title(&shots, 1), "Shot 2/2  \u{2022}  Raid");
    assert_eq!(shot_title(&shots, 5), "Shot 6");
    let phase = CinematicOverlayPhase::Countdown { shot_index: 0, length: 3_000 };
    let number = |elapsed: u64| {
        cinematic_slate(&shots, phase, elapsed).expect("a slate").lines[1].text.clone()
    };
    assert_eq!(number(0), "3");
    assert_eq!(number(1), "3");
    assert_eq!(number(2_000), "1");
    assert_eq!(number(9_000), "1");
    assert!(cinematic_slate(&shots, CinematicOverlayPhase::Playing, 0).is_none());
    let slate = cinematic_slate(&shots, CinematicOverlayPhase::Preparing, 2_100).expect("a slate");
    assert_eq!(slate.lines[1].text, "...");
    assert_eq!(slate.dim, Some(translucent(0, 0, 0, 200)));
    let done = CinematicOverlayPhase::Intermission { next_shot_index: None };
    assert_eq!(
        cinematic_slate(&shots, done, 0).expect("a slate").lines[0].text,
        "Sequence complete"
    );
}

fn at(x: f32, y: f32, z: f32) -> WirePosition {
    WirePosition { x: x.to_bits(), y: y.to_bits(), z: z.to_bits() }
}

fn in_game() -> MenuState {
    let mut menu = MenuState::new();
    menu.screen = Screen::InGame;
    menu
}

#[test]
fn pause_menu_does_not_block_network_ticks() {
    let mut paused = in_game();
    paused.pause_open = true;
    assert!(network_tick_allowed(&paused));
    assert!(!network_tick_allowed(&MenuState::new()));
}

#[test]
fn kick_notice_returns_to_main_menu() {
    let mut menu = in_game();
    menu.pause_open = true;
    menu.inventory_open = true;
    menu.chat_open = true;
    menu.chat_focus_pending = true;

    show_kick_notice(&mut menu, "Server restart".to_owned());

    assert_eq!(menu.screen, Screen::MainMenu);
    assert!(!menu.pause_open);
    assert!(!menu.inventory_open);
    assert!(!menu.chat_open);
    assert_eq!(menu.notice.as_ref().map(NoticeDialog::body).as_deref(), Some("Server restart"));
}

#[test]
fn auth_rejected_notice_returns_to_main_menu_and_clears_join_overlay() {
    let mut menu = in_game();
    menu.inventory_open = true;
    menu.chat_open = true;
    menu.chat_focus_pending = true;
    assert!(menu.loading_splash);

    show_auth_rejected_notice(&mut menu, "bad token".to_owned());

    assert_eq!(menu.screen, Screen::MainMenu);
    assert!(!menu.loading_splash);
    assert!(!menu.direct_connect);
    assert!(!menu.inventory_open);
    assert!(!menu.chat_open);
    assert!(!menu.chat_focus_pending);
    let notice = menu.notice.as_ref().expect("auth-rejected notice set");
    assert_eq!(notice.title(), "Couldn't join server");
    assert!(notice.body().contains("bad token"));
}

#[test]
fn version_mismatch_notice_returns_to_main_menu_with_both_versions() {
    let mut menu = in_game();
    menu.inventory_open = true;

    show_version_mismatch_notice(&mut menu, "1.2.3", "9.9.9".to_owned());

    assert_eq!(menu.screen, Screen::MainMenu);
    assert!(!menu.loading_splash);
    assert!(!menu.inventory_open);
    let notice = menu.notice.as_ref().expect("version-mismatch notice set");
    assert_eq!(notice.title(), "Version mismatch");
    assert!(notice.body().contains("9.9.9"), "shows the server version");
    assert!(notice.body().contains("1.2.3"), "shows the client's own version");
}

#[test]
fn remote_impact_tool_and_surface_maps_each_kind() {
    let expected = [
        (ResourceImpactKind::Tree, ToolKind::Axe, SurfaceMaterial::Wood),
        (ResourceImpactKind::CoalOre, ToolKind::Pickaxe, SurfaceMaterial::Coal),
        (ResourceImpactKind::IronOre, ToolKind::Pickaxe, SurfaceMaterial::Iron),
        (ResourceImpactKind::SulfurOre, ToolKind::Pickaxe, SurfaceMaterial::Sulfur),
        (ResourceImpactKind::StoneVein, ToolKind::Pickaxe, SurfaceMaterial::Stone),
        (ResourceImpactKind::Branches, ToolKind::Hands, SurfaceMaterial::Wood),
        (ResourceImpactKind::SurfaceStone, ToolKind::Hands, SurfaceMaterial::Stone),
        (ResourceImpactKind::HayGrass, ToolKind::Hands, SurfaceMaterial::Dirt),
    ];
    for (kind, tool, surface) in expected {
        assert_eq!(remote_impact_tool_and_surface(kind), (tool, surface));
    }
}

#[test]
fn remote_impact_event_carries_position_and_resolved_pair() {
    let position = at(1.0, 2.0, 3.0);
    let event = remote_impact_event(position, ResourceImpactKind::Tree);
    assert_eq!(event.anchor, at(1.0, 2.0, 3.0));
    assert_eq!(event.tool, ToolKind::Axe);
    assert!(!event.is_player_hit);
    assert_eq!(event.seed, position_seed(position));
}

#[test]
fn position_seed_is_stable_and_varies_with_position() {
    let a = at(1.0, 2.0, 3.0);
    let b = at(1.0, 2.0, 3.0);
    let c = at(1.0, 2.0, 4.0);
    assert_eq!(position_seed(a), position_seed(b));
    assert_ne!(position_seed(a), position_seed(c));
}

#[test]
fn network_tick_allowed_only_in_game() {
    assert!(network_tick_allowed(&in_game()));
    assert!(!network_tick_allowed(&MenuState::new()));
}

#[test]
fn round_trips_saturate() {
    assert_eq!(measure_round_trip(150, 100), 50);
    assert_eq!(measure_round_trip(9, 40), 0);
    assert_eq!(measure_round_trip(100_000, 0), u16::MAX);
}

#[test]
fn a_probe_is_sent_once_per_second() {
    let menu = in_game();
    let mut since: u64 = 0;
    let first = begin_tick(&menu, &mut since, 999_999, true, 40, 12);
    assert!(first.allowed && first.probe.is_none());
    let second = begin_tick(&menu, &mut since, 1, true, 41, 12);
    assert_eq!(second.probe.map(|probe| (probe.client_time_ms, probe.rtt_ms)), Some((41, 12)));
}

#[test]
fn a_failed_session_is_reported() {
    let report = finish_tick(TickOutcome::Failed { error: "timed out".to_owned() });
    assert_eq!(report.error.as_deref(), Some("network error: timed out"));
    assert!(report.silent && report.run.messages.is_empty());
    let nothing = finish_tick(TickOutcome::NoSession);
    assert!(nothing.error.is_none() && nothing.silent);
}

#[test]
fn each_message_is_handled_for_the_player_who_is_local_by_then() {
    let mut menu = in_game();
    menu.death_splash = Some(DeathSplash::new(None));
    let alive = || ServerMessage::Correction { client_id: 9, alive: true };
    let report = finish_tick(TickOutcome::Messages(vec![alive(), ServerMessage::Other, alive()]));
    assert!(report.error.is_none() && !report.silent);
    let mut run = report.run;
    let first = handle_next(&mut menu, &mut run, None, 0, "1.2.3");
    assert_eq!(first, Some(vec![NetworkAction::ApplyMessage]));
    assert!(menu.death_splash.as_ref().unwrap().closing_elapsed.is_none());
    // Applying the second message tells the client who it is.
    assert!(handle_next(&mut menu, &mut run, None, 0, "1.2.3").is_some());
    assert!(handle_next(&mut menu, &mut run, Some(9), 0, "1.2.3").is_some());
    assert!(menu.death_splash.as_ref().unwrap().closing_elapsed.is_some());
    assert_eq!(run.next, 3);
    assert!(handle_next(&mut menu, &mut run, Some(9), 0, "1.2.3").is_none());
    assert_eq!(run.next, 3);
}

#[test]
fn messages_behind_a_kick_are_still_handled() {
    let mut menu = in_game();
    let kick = ServerMessage::Kicked { reason: "idle".to_owned() };
    let mut run = finish_tick(TickOutcome::Messages(vec![kick, ServerMessage::Toast])).run;
    assert!(handle_next(&mut menu, &mut run, Some(1), 0, "1.2.3").is_some());
    assert_eq!(menu.screen, Screen::MainMenu);
    assert_eq!(
        handle_next(&mut menu, &mut run, Some(1), 0, "1.2.3"),
        Some(vec![NetworkAction::ShowToast, NetworkAction::ApplyMessage])
    );
}

#[test]
fn damage_is_shown_to_the_target_and_to_bystanders() {
    let hit = ServerMessage::PlayerImpact {
        attacker: 1,
        target: 2,
        position: at(1.0, 0.0, 0.0),
        attacker_position: at(0.0, 0.0, 0.0),
        tool: ToolKind::Axe,
        damage_dealt: 7,
    };
    let seen_by = |client: u64| handle_message(&mut in_game(), &hit, Some(client), 0, "1.2.3");
    let shows = |actions: &Vec<NetworkAction>, wanted: FloatingDamageRole| {
        actions.iter().any(|action| {
            matches!(action, NetworkAction::ShowDamage { value: 7, role, .. } if *role == wanted)
        })
    };
    let kicks = |actions: &Vec<NetworkAction>| {
        actions.iter().any(|action| matches!(action, NetworkAction::KickCamera(ToolKind::Axe)))
    };
    let taken = seen_by(2);
    assert!(kicks(&taken) && shows(&taken, FloatingDamageRole::Taken));
    let watched = seen_by(3);
    assert!(!kicks(&watched) && shows(&watched, FloatingDamageRole::Dealt));
    let dealt = seen_by(1);
    assert!(!kicks(&dealt));
    assert!(!shows(&dealt, FloatingDamageRole::Dealt) && !shows(&dealt, FloatingDamageRole::Taken));
}
