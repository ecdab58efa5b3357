//! The slots, what can be dragged between them, and the panel around them.
use ashwend_client::color::{opaque, translucent};
use ashwend_client::inventory::drag::{
    ButtonReleases, PredictedAction, PredictionState, SlotCommand, SurfaceHits, drag_preview,
    handle_drag_release, predict_drop, send_move_command,
};
use ashwend_client::inventory::panel::{
    FRAME_MARGINS, INVENTORY_COLUMNS, INVENTORY_DISPLAY_ROWS, INVENTORY_SLOT_COUNT, PANEL_WIDTH,
    PanelPress, SLOT_GAP, Tab, active_tab, grid_slot, holds_item, hotbar_alpha, hotbar_slot,
    hotbar_slots, offered_tabs, panel_frame, panel_press, select_tab, slots_used_text,
};
use ashwend_client::inventory::paperdoll::{
    ArmorProtection, PAPERDOLL_COLUMN_GAP, PAPERDOLL_COLUMN_WIDTH, equipped_protection,
    protection_row, summary_protection, worn_slot_label,
};
use ashwend_client::inventory::pickup::{
    CupboardAuthState, KindLabels, PickupTargetState, ResourceNodeDefinition, SleepingPlayer,
    deployable_tooltip_text, pickup_tooltip, pickup_tooltip_text,
};
use ashwend_client::inventory::slot::{
    FurnaceSlotRef, InventoryDrag, InventoryDragButton, InventoryUiState, SLOT_SIZE, SlotPointer,
    UnifiedSlotRef, count_badge, draw_slot, durability_bar, item_tooltip_body, slot_fill,
    split_quantity,
};
use ashwend_client::items::ToolKind;
use ashwend_client::menu::MenuState;
use ashwend_client::items::{
    ArmorProfile, DeployableKind, DeployableProfile, EquipmentSlot, HeldMesh, ItemDefinition,
    ItemStack, ItemTint, PlayerInventoryState, ToolProfile, ItemContainerSlot, slot_stack,
};

fn item(id: &str, name: &str, description: &str, stack_size: u16) -> ItemDefinition {
    ItemDefinition {
        id: id.to_owned(),
        name: name.to_owned(),
        description: description.to_owned(),
        stack_size,
        tint: ItemTint { r: 120, g: 110, b: 100 },
        equipable: false,
        held_mesh: HeldMesh::Other { index: 0 },
        tool: None,
        deployable: None,
        armor: None,
        ammo_item: None,
        explosive: None,
        consumable: false,
    }
}

fn deployable(id: &str, name: &str, kind: DeployableKind, station_radius: u32) -> ItemDefinition {
    let mut definition = item(id, name, "Place it.", 1);
    definition.deployable = Some(DeployableProfile {
        kind,
        label: name.to_owned(),
        station_radius,
        collider_half_height: 500,
    });
    definition
}

fn armor(id: &str, name: &str, slot: EquipmentSlot, pct: (u8, u8, u8)) -> ItemDefinition {
    let mut definition = item(id, name, "Padded cloth.", 1);
    definition.armor = Some(ArmorProfile {
        slot,
        melee_protection_pct: pct.0,
        projectile_protection_pct: pct.1,
        blast_protection_pct: pct.2,
        max_durability: Some(120),
    });
    definition
}

fn tool(id: &str, name: &str, kind: &str) -> ItemDefinition {
    let mut definition = item(id, name, "A tool.", 1);
    definition.equipable = true;
    definition.tool = Some(ToolProfile {
        kind_label: kind.to_owned(),
        tier: 1,
        gather_amount: 4,
        max_durability: Some(200),
    });
    definition
}

fn registered_items() -> Vec<ItemDefinition> {
    vec![
        item("wood", "Wood", "Rough timber.", 200),
        item("stone", "Stone", "A chunk of rock.", 200),
        item("fiber", "Fiber", "Stringy grass.", 200),
        item("plant_twine", "Plant Twine", "A length of cord.", 100),
        item("coal", "Coal", "Burns hot.", 200),
        item("sulfur", "Sulfur", "Smells bad.", 200),
        item("gunpowder", "Gunpowder", "Handle with care.", 200),
        item("cloth", "Cloth", "Woven fabric.", 100),
        item("powder_bomb", "Powder Bomb", "Throw it.", 20),
        tool("stone_hatchet", "Stone Hatchet", "Axe"),
        tool("stone_pickaxe", "Stone Pickaxe", "Pickaxe"),
        tool("iron_hatchet", "Iron Hatchet", "Axe"),
        tool("basic_pickaxe", "Basic Pickaxe", "Pickaxe"),
        armor("padded_hood", "Padded Hood", EquipmentSlot::Head, (2, 2, 1)),
        armor("padded_tunic", "Padded Tunic", EquipmentSlot::Chest, (5, 4, 2)),
        armor("padded_leggings", "Padded Leggings", EquipmentSlot::Legs, (3, 2, 1)),
        armor("padded_wraps", "Padded Wraps", EquipmentSlot::Feet, (2, 2, 0)),
        deployable("workbench_t1", "Workbench", DeployableKind::Workbench { tier: 1 }, 5_000),
        deployable("crude_furnace", "Crude Furnace", DeployableKind::Furnace { tier: 1 }, 3_000),
        deployable("building_wall", "Wall", DeployableKind::Building, 0),
        deployable("ruin_cache", "Salvage Chest", DeployableKind::RuinCache, 0),
    ]
}

fn stack(id: &str, quantity: u16) -> ItemStack {
    ItemStack { item_id: id.to_owned(), quantity, durability: None }
}

fn empty_inventory() -> PlayerInventoryState {
    PlayerInventoryState {
        inventory_slots: (0..60).map(|_| None).collect(),
        actionbar_slots: (0..8).map(|_| None).collect(),
        equipment_slots: (0..4).map(|_| None).collect(),
        active_actionbar_slot: 0,
    }
}

fn player_slot(index: usize) -> UnifiedSlotRef {
    UnifiedSlotRef::Player(ItemContainerSlot::inventory(index))
}

fn drag_state(source: UnifiedSlotRef) -> InventoryUiState {
    let mut state = InventoryUiState::new();
    state.drag = Some(InventoryDrag {
        source,
        stack: stack("coal", 6),
        quantity: 6,
        button: InventoryDragButton::Primary,
    });
    state
}

fn off_surface() -> SurfaceHits {
    SurfaceHits {
        pointer: true,
        inventory: false,
        actionbar: false,
        furnace: false,
        loot_bag: false,
        equipment: false,
    }
}

fn inventory_with_hood() -> PlayerInventoryState {
    let mut inventory = empty_inventory();
    inventory.inventory_slots[0] = Some(stack("padded_hood", 1));
    inventory
}

fn worn_set() -> PlayerInventoryState {
    let mut worn = empty_inventory();
    worn.equipment_slots[EquipmentSlot::Head.index()] = Some(stack("padded_hood", 1));
    worn.equipment_slots[EquipmentSlot::Chest.index()] = Some(stack("padded_tunic", 1));
    worn.equipment_slots[EquipmentSlot::Legs.index()] = Some(stack("padded_leggings", 1));
    worn.equipment_slots[EquipmentSlot::Feet.index()] = Some(stack("padded_wraps", 1));
    worn
}

#[test]
fn right_drag_takes_half_rounded_up() {
    assert_eq!(split_quantity(1), 1);
    assert_eq!(split_quantity(2), 1);
    assert_eq!(split_quantity(3), 2);
}

#[test]
fn tooltip_body_uses_registry_stack_limits() {
    let body = item_tooltip_body(&registered_items(), &stack("coal", 3));
    assert!(body.contains("3/200"));
}

#[test]
fn tooltip_body_hides_the_stack_line_for_unstackable_items() {
    let body = item_tooltip_body(&registered_items(), &stack("basic_pickaxe", 1));
    assert!(!body.contains("Stack:"), "no stack line for tools: {body}");
    assert!(body.contains("Equipable"));
}

#[test]
fn tooltip_body_surfaces_tool_stats() {
    let body = item_tooltip_body(&registered_items(), &stack("basic_pickaxe", 1));
    assert!(body.contains("Pickaxe"), "tool class shown: {body}");
    assert!(body.contains("per hit"), "gather yield shown: {body}");
}

#[test]
fn tooltip_body_marks_deployables_as_placeable() {
    let body = item_tooltip_body(&registered_items(), &stack("crude_furnace", 1));
    assert!(body.contains("Deployable"), "placeable hint shown: {body}");
    assert!(body.contains("left-click"), "placement control shown: {body}");
}

#[test]
fn tooltip_body_surfaces_armor_stats() {
    let tunic = ItemStack { durability: Some(120), ..stack("padded_tunic", 1) };
    let body = item_tooltip_body(&registered_items(), &tunic);
    assert!(body.contains("Chest slot"), "fits slot shown: {body}");
    assert!(body.contains("Protection:"), "protection line shown: {body}");
    assert!(body.contains('%'), "protection percentages shown: {body}");
    assert!(body.contains("Durability:"), "durability shown: {body}");
}

#[test]
fn tooltip_body_handles_unknown_item() {
    let body = item_tooltip_body(&registered_items(), &stack("not_a_real_item", 9));
    assert!(body.contains("Unknown item"));
    assert!(body.contains("Quantity: 9"));
}

#[test]
fn empty_inventory_slot_lookup_is_safe() {
    let inventory = empty_inventory();
    assert!(slot_stack(&inventory, ItemContainerSlot::inventory(INVENTORY_SLOT_COUNT)).is_none());
}

#[test]
fn slot_stack_reads_inventory_and_actionbar() {
    let mut inventory = empty_inventory();
    inventory.inventory_slots[2] = Some(stack("coal", 5));
    inventory.actionbar_slots[1] = Some(stack("coal", 9));
    assert_eq!(
        slot_stack(&inventory, ItemContainerSlot::inventory(2)).map(|s| s.quantity),
        Some(5)
    );
    assert_eq!(
        slot_stack(&inventory, ItemContainerSlot::actionbar(1)).map(|s| s.quantity),
        Some(9)
    );
    assert!(slot_stack(&inventory, ItemContainerSlot::inventory(0)).is_none());
}

fn pointer_away() -> SlotPointer {
    SlotPointer {
        over_slot: false,
        response_hovered: false,
        primary_pressed: false,
        secondary_pressed: false,
        shift_held: false,
    }
}

#[test]
fn non_interactive_slot_paints_without_recording_hover() {
    let mut state = InventoryUiState::new();
    let slot = UnifiedSlotRef::Player(ItemContainerSlot::actionbar(0));
    let held = stack("coal", 4);
    let pointer = SlotPointer { over_slot: true, ..pointer_away() };
    draw_slot(&mut state, slot, Some(&held), false, false, pointer);
    assert!(state.hovered_slot.is_none());
}

#[test]
fn interactive_slot_without_pointer_leaves_hover_unset() {
    let mut state = InventoryUiState::new();
    let held = stack("coal", 2);
    draw_slot(&mut state, player_slot(0), Some(&held), true, false, pointer_away());
    assert!(state.hovered_slot.is_none());
}

#[test]
fn interactive_slot_with_pointer_marks_hovered() {
    let mut state = InventoryUiState::new();
    let held = stack("coal", 2);
    let pointer = SlotPointer { over_slot: true, ..pointer_away() };
    draw_slot(&mut state, player_slot(0), Some(&held), true, false, pointer);
    assert_eq!(state.hovered_slot, Some(player_slot(0)));
}

#[test]
fn pressing_a_slot_starts_a_drag() {
    let held = stack("coal", 7);
    let mut state = InventoryUiState::new();
    let press = SlotPointer { over_slot: true, primary_pressed: true, ..pointer_away() };
    draw_slot(&mut state, player_slot(3), Some(&held), true, false, press);
    assert_eq!(state.drag.as_ref().map(|drag| drag.quantity), Some(7));

    let mut state = InventoryUiState::new();
    let press = SlotPointer { over_slot: true, secondary_pressed: true, ..pointer_away() };
    draw_slot(&mut state, player_slot(3), Some(&held), true, false, press);
    assert_eq!(state.drag.as_ref().map(|drag| drag.quantity), Some(4));
}

#[test]
fn active_slot_paints_differently_than_idle() {
    let idle = slot_fill(false, false);
    let active = slot_fill(true, false);
    assert_ne!(idle, active);
    assert_eq!(active, translucent(21, 44, 72, 236));
}

#[test]
fn badges_and_wear_bars_follow_the_stack() {
    assert_eq!(count_badge(&stack("coal", 1)), None);
    assert_eq!(count_badge(&stack("coal", 12)).as_deref(), Some("12"));
    let items = registered_items();
    let worn = ItemStack { durability: Some(50), ..stack("basic_pickaxe", 1) };
    assert_eq!(durability_bar(&items, &worn), Some((50, 200)));
    assert_eq!(durability_bar(&items, &stack("basic_pickaxe", 1)), None);
}

#[test]
fn colours_are_premultiplied() {
    let half = translucent(255, 100, 0, 128);
    assert_eq!((half.r, half.g, half.b, half.a), (128, 50, 0, 128));
    let clear = translucent(255, 100, 0, 0);
    assert_eq!((clear.r, clear.g, clear.b, clear.a), (0, 0, 0, 0));
    assert_eq!(translucent(9, 8, 7, 255), opaque(9, 8, 7));
}

#[test]
fn multiplied_channels_are_rounded() {
    for value in 0..=255_u8 {
        for alpha in 0..=255_u8 {
            let nearest = (2 * u32::from(value) * u32::from(alpha) + 255) / 510;
            assert_eq!(u32::from(translucent(value, 0, 0, alpha).r), nearest);
        }
    }
}

#[test]
fn protection_summary_matches_equipped_protection() {
    let items = registered_items();
    let worn = worn_set();
    let summary = summary_protection(&items, Some(&worn));
    assert_eq!(summary, equipped_protection(&items, &worn.equipment_slots));
    assert_eq!(summary.melee, 12);
    assert_eq!(summary.projectile, 10);
    assert_eq!(summary.blast, 4);
}

#[test]
fn protection_summary_is_zero_without_inventory() {
    assert_eq!(
        summary_protection(&registered_items(), None),
        ArmorProtection { melee: 0, projectile: 0, blast: 0 }
    );
}

#[test]
fn protection_saturates() {
    let items = vec![armor("plate", "Plate", EquipmentSlot::Chest, (200, 10, 0))];
    let slots = vec![Some(stack("plate", 1)), Some(stack("plate", 1)), None];
    assert_eq!(
        equipped_protection(&items, &slots),
        ArmorProtection { melee: 255, projectile: 20, blast: 0 }
    );
}

#[test]
fn protection_rows_dim_at_zero() {
    let row = protection_row("Melee", 12);
    assert_eq!(row.text, "Melee 12%");
    assert!(!row.dimmed);
    assert!(protection_row("Blast", 0).dimmed);
}

#[test]
fn worn_slots_name_themselves_while_empty() {
    let worn = worn_set();
    assert_eq!(worn_slot_label(Some(&worn), EquipmentSlot::Head), None);
    assert_eq!(
        worn_slot_label(Some(&empty_inventory()), EquipmentSlot::Head).as_deref(),
        Some("Head")
    );
    assert_eq!(worn_slot_label(None, EquipmentSlot::Feet).as_deref(), Some("Feet"));
}

fn target() -> PickupTargetState {
    PickupTargetState {
        stack: None,
        sleeping_player: None,
        deployable_kind: None,
        deployable_labels: KindLabels { name: "Wall".to_owned(), tier: "Sticks".to_owned() },
        deployable_stability: None,
        deployable_cupboard_auth: None,
        loot_bag_id: None,
        resource_definition_id: None,
        on_screen: true,
    }
}

fn nodes() -> Vec<ResourceNodeDefinition> {
    vec![
        ResourceNodeDefinition {
            id: "coal_node".to_owned(),
            name: "Ore Vein".to_owned(),
            required_tool: ToolKind::Pickaxe,
            required_label: "Pickaxe".to_owned(),
            storage: vec!["coal".to_owned()],
        },
        ResourceNodeDefinition {
            id: "branches".to_owned(),
            name: "Branches".to_owned(),
            required_tool: ToolKind::Hands,
            required_label: "Hands".to_owned(),
            storage: vec!["wood".to_owned()],
        },
    ]
}

#[test]
fn pickup_tooltip_renders_available_target() {
    let seen = PickupTargetState { stack: Some(stack("unknown-item", 3)), ..target() };
    let hint = pickup_tooltip(&registered_items(), &nodes(), &MenuState::new(), &seen, false);
    assert!(hint.is_some());
    let hidden = PickupTargetState { on_screen: false, ..seen };
    assert!(pickup_tooltip(&registered_items(), &nodes(), &MenuState::new(), &hidden, false).is_none());
}

#[test]
fn pickup_tooltip_is_hidden_when_ui_blocks_pickup() {
    let cases: Vec<(&str, fn(&mut MenuState))> = vec![
        ("inventory_open", |m| m.inventory_open = true),
        ("crafting_open", |m| m.crafting_open = true),
        ("furnace_open", |m| m.furnace_open = true),
        ("chat_open", |m| m.chat_open = true),
        ("pause_open", |m| m.pause_open = true),
    ];
    for (label, set_flag) in cases {
        let mut menu = MenuState::new();
        set_flag(&mut menu);
        let seen = PickupTargetState { stack: Some(stack("unknown-item", 1)), ..target() };
        assert!(
            pickup_tooltip(&registered_items(), &nodes(), &menu, &seen, false).is_none(),
            "tooltip should be hidden for {label}",
        );
    }
}

#[test]
fn building_tooltip_only_shows_with_the_hammer() {
    let wall = PickupTargetState {
        deployable_kind: Some(DeployableKind::Building),
        deployable_stability: Some(90),
        ..target()
    };
    assert!(
        pickup_tooltip_text(&registered_items(), &nodes(), &wall, false).is_none(),
        "building blocks stay quiet without the hammer"
    );
    let (title, body) = pickup_tooltip_text(&registered_items(), &nodes(), &wall, true)
        .expect("hammer shows the readout");
    assert_eq!(title, "Wall (Sticks)");
    assert!(body.contains("Stability: 90%"));

    let bag = PickupTargetState {
        deployable_kind: Some(DeployableKind::SleepingBag),
        ..target()
    };
    assert!(pickup_tooltip_text(&registered_items(), &nodes(), &bag, false).is_some());
}

#[test]
fn resource_tooltip_shows_requirement_but_not_remaining_yield() {
    let vein = PickupTargetState {
        resource_definition_id: Some("coal_node".to_owned()),
        ..target()
    };
    let (_, body) = pickup_tooltip_text(&registered_items(), &nodes(), &vein, false)
        .expect("resource tooltip");
    assert!(body.contains("Requires: Pickaxe"));
    assert!(!body.contains("tier"));
    assert!(!body.contains("Contents"));
    assert!(!body.contains("Coal"));

    let branches = PickupTargetState {
        resource_definition_id: Some("branches".to_owned()),
        ..target()
    };
    let (_, body) = pickup_tooltip_text(&registered_items(), &nodes(), &branches, false)
        .expect("resource tooltip");
    assert_eq!(body, "Press E to pick up");
}

#[test]
fn sleeping_bodies_show_whole_health() {
    let sleeper = |health: i64| PickupTargetState {
        sleeping_player: Some(SleepingPlayer { name: "Ash".to_owned(), health }),
        ..target()
    };
    let body = |health: i64| {
        pickup_tooltip_text(&registered_items(), &nodes(), &sleeper(health), false)
            .expect("sleeper tooltip")
            .1
    };
    assert_eq!(body(41_500), "Sleeping\n42 HP\nPress E to loot");
    assert_eq!(body(41_499), "Sleeping\n41 HP\nPress E to loot");
    assert_eq!(body(-3_000), "Sleeping\n0 HP\nPress E to loot");
}

#[test]
fn cupboards_tell_the_standing() {
    let labels = KindLabels { name: String::new(), tier: String::new() };
    let (title, body) = deployable_tooltip_text(
        DeployableKind::ToolCupboard,
        &labels,
        None,
        Some(CupboardAuthState::Authorized),
    );
    assert_eq!(title, "Tool Cupboard");
    assert!(body.starts_with("You are authorized here"));
    let (_, body) = deployable_tooltip_text(DeployableKind::ToolCupboard, &labels, None, None);
    assert!(body.starts_with("You are not authorized here"));
}

const NOTHING: ButtonReleases = ButtonReleases { primary: false, secondary: false };
const LEFT: ButtonReleases = ButtonReleases { primary: true, secondary: false };
const RIGHT: ButtonReleases = ButtonReleases { primary: false, secondary: true };

#[test]
fn release_with_no_surface_open_cancels_drag() {
    let menu = MenuState::new();
    let mut prediction = PredictionState::new();
    let mut state = drag_state(player_slot(0));
    let outcome = handle_drag_release(
        &registered_items(), &menu, &mut prediction, None, &mut state, NOTHING, off_surface(),
    );
    assert!(state.drag.is_none());
    assert_eq!(outcome.release, None);
}

fn bag_open() -> MenuState {
    let mut menu = MenuState::new();
    menu.inventory_open = true;
    menu
}

#[test]
fn no_release_event_keeps_drag_alive() {
    let mut prediction = PredictionState::new();
    let mut state = drag_state(player_slot(0));
    handle_drag_release(
        &registered_items(), &bag_open(), &mut prediction, None, &mut state, NOTHING, off_surface(),
    );
    assert!(state.drag.is_some(), "drag persists until the button is released");
}

#[test]
fn release_over_target_sends_move_and_clears_drag() {
    let mut prediction = PredictionState::new();
    let mut state = drag_state(player_slot(0));
    state.hovered_slot = Some(player_slot(5));
    let outcome = handle_drag_release(
        &registered_items(), &bag_open(), &mut prediction, None, &mut state, LEFT, off_surface(),
    );
    assert!(state.drag.is_none());
    assert_eq!(
        outcome.release,
        Some(SlotCommand::InventoryMove {
            from: ItemContainerSlot::inventory(0),
            to: ItemContainerSlot::inventory(5),
            quantity: Some(6),
            seq: 0,
        })
    );
}

#[test]
fn release_on_same_slot_is_a_noop_move() {
    let mut prediction = PredictionState::new();
    let mut state = drag_state(player_slot(2));
    state.hovered_slot = Some(player_slot(2));
    let outcome = handle_drag_release(
        &registered_items(), &bag_open(), &mut prediction, None, &mut state, LEFT, off_surface(),
    );
    assert!(state.drag.is_none());
    assert_eq!(outcome.release, None, "dropping onto the source slot sends nothing");
}

#[test]
fn release_outside_surfaces_drops_player_item() {
    let mut prediction = PredictionState::new();
    let mut state = drag_state(player_slot(0));
    state.hovered_slot = None;
    let outcome = handle_drag_release(
        &registered_items(), &bag_open(), &mut prediction, None, &mut state, LEFT, off_surface(),
    );
    assert!(state.drag.is_none());
    assert_eq!(
        outcome.release,
        Some(SlotCommand::InventoryDrop {
            from: ItemContainerSlot::inventory(0),
            quantity: Some(6),
            seq: 0,
        })
    );
}

#[test]
fn bag_source_release_over_player_routes_loot_bag_command() {
    let mut menu = MenuState::new();
    menu.loot_bag_open = true;
    let mut prediction = PredictionState::new();
    let mut state = drag_state(UnifiedSlotRef::Bag(0));
    state.hovered_slot = Some(player_slot(1));
    let outcome = handle_drag_release(
        &registered_items(), &menu, &mut prediction, None, &mut state, LEFT, off_surface(),
    );
    assert!(state.drag.is_none());
    assert_eq!(
        outcome.release,
        Some(SlotCommand::LootBagMove {
            from: UnifiedSlotRef::Bag(0),
            to: player_slot(1),
            quantity: Some(6),
        })
    );
}

#[test]
fn a_drag_ends_with_the_button_that_began_it() {
    let mut prediction = PredictionState::new();
    let mut state = drag_state(player_slot(0));
    state.hovered_slot = Some(player_slot(5));
    let other = handle_drag_release(
        &registered_items(), &bag_open(), &mut prediction, None, &mut state, RIGHT, off_surface(),
    );
    assert_eq!(other.release, None);
    assert!(state.drag.is_some());
    if let Some(drag) = state.drag.as_mut() {
        drag.button = InventoryDragButton::Secondary;
    }
    let own = handle_drag_release(
        &registered_items(), &bag_open(), &mut prediction, None, &mut state, RIGHT, off_surface(),
    );
    assert!(own.release.is_some());
    assert!(state.drag.is_none());
}

#[test]
fn every_move_becomes_one_command() {
    let bag = UnifiedSlotRef::Bag(2);
    let fuel = UnifiedSlotRef::Furnace(FurnaceSlotRef::Fuel);
    let mut prediction = PredictionState::new();
    for (from, to) in [(bag, fuel), (fuel, bag), (bag, bag), (player_slot(3), bag)] {
        assert_eq!(
            send_move_command(&mut prediction, None, from, to, Some(4)),
            SlotCommand::LootBagMove { from, to, quantity: Some(4) }
        );
    }
    assert_eq!(
        send_move_command(&mut prediction, None, fuel, player_slot(3), None),
        SlotCommand::FurnaceMove {
            from: FurnaceSlotRef::Fuel,
            to: FurnaceSlotRef::Player(ItemContainerSlot::inventory(3)),
            quantity: None,
        }
    );
    assert_eq!(
        send_move_command(&mut prediction, None, player_slot(3), fuel, None),
        SlotCommand::FurnaceMove {
            from: FurnaceSlotRef::Player(ItemContainerSlot::inventory(3)),
            to: FurnaceSlotRef::Fuel,
            quantity: None,
        }
    );
    assert!(prediction.is_idle());
}

#[test]
fn a_drop_is_predicted_also_from_an_empty_slot() {
    let inventory = empty_inventory();
    let mut prediction = PredictionState::new();
    let from = ItemContainerSlot::inventory(7);
    assert_eq!(predict_drop(&mut prediction, Some(&inventory), from, None), 1);
    assert_eq!(
        prediction.pending,
        vec![PredictedAction::Drop { seq: 1, from, quantity: None }]
    );
    let mut unknown = PredictionState::new();
    assert_eq!(predict_drop(&mut unknown, None, from, None), 0);
    assert!(unknown.is_idle());
}

#[test]
fn release_over_equipment_slot_predicts_equip_move() {
    let inventory = inventory_with_hood();
    let mut prediction = PredictionState::new();
    let mut state = InventoryUiState::new();
    state.drag = Some(InventoryDrag {
        source: player_slot(0),
        stack: stack("padded_hood", 1),
        quantity: 1,
        button: InventoryDragButton::Primary,
    });
    state.hovered_slot =
        Some(UnifiedSlotRef::Player(ItemContainerSlot::equipment(EquipmentSlot::Head)));
    handle_drag_release(
        &registered_items(),
        &bag_open(),
        &mut prediction,
        Some(&inventory),
        &mut state,
        LEFT,
        off_surface(),
    );
    assert!(state.drag.is_none());
    assert_eq!(
        prediction.pending,
        vec![PredictedAction::Move {
            seq: 1,
            from: ItemContainerSlot::inventory(0),
            to: ItemContainerSlot::equipment(EquipmentSlot::Head),
            quantity: Some(1),
        }],
        "drag onto the head slot equips the hood"
    );
}

#[test]
fn shift_click_quick_equips_armor_to_its_matching_slot() {
    let inventory = inventory_with_hood();
    let mut prediction = PredictionState::new();
    let mut state = InventoryUiState::new();
    state.pending_quick_transfer = Some(player_slot(0));
    let outcome = handle_drag_release(
        &registered_items(),
        &bag_open(),
        &mut prediction,
        Some(&inventory),
        &mut state,
        NOTHING,
        off_surface(),
    );
    assert!(state.pending_quick_transfer.is_none());
    assert_eq!(
        prediction.pending,
        vec![PredictedAction::Move {
            seq: 1,
            from: ItemContainerSlot::inventory(0),
            to: ItemContainerSlot::equipment(EquipmentSlot::Head),
            quantity: None,
        }],
        "shift+click sends the hood to the head slot"
    );
    assert!(outcome.equip.is_some());
}

#[test]
fn shift_click_ignores_non_armor() {
    let mut inventory = empty_inventory();
    inventory.inventory_slots[0] = Some(stack("coal", 5));
    let mut prediction = PredictionState::new();
    let mut state = InventoryUiState::new();
    state.pending_quick_transfer = Some(player_slot(0));
    handle_drag_release(
        &registered_items(),
        &bag_open(),
        &mut prediction,
        Some(&inventory),
        &mut state,
        NOTHING,
        off_surface(),
    );
    assert!(prediction.is_idle(), "no equip predicted for a non-armor item");
}

#[test]
fn draw_drag_preview_paints_only_while_dragging() {
    assert!(drag_preview(&InventoryUiState::new(), true).is_none());
    let dragging = drag_state(player_slot(0));
    assert!(drag_preview(&dragging, true).is_some());
}

#[test]
fn admin_tab_is_a_view_of_the_inventory_open_state() {
    let mut state = InventoryUiState::new();
    state.admin_tab = true;
    let mut menu = MenuState::new();
    menu.inventory_open = true;
    assert_eq!(active_tab(&menu, &state), Some(Tab::Admin));
    let mut menu = MenuState::new();
    menu.crafting_open = true;
    assert_eq!(active_tab(&menu, &state), Some(Tab::Crafting));
    assert_eq!(active_tab(&MenuState::new(), &state), None);
}

#[test]
fn non_admin_never_sees_the_admin_view() {
    let mut state = InventoryUiState::new();
    state.admin_tab = true;
    let plan = panel_frame(&bag_open(), &mut state, false, true);
    assert!(!state.admin_tab, "non-admin admin flag must reset");
    assert_eq!(plan.drawn, Some(Tab::Inventory));
}

#[test]
fn closing_the_panel_resets_the_admin_view() {
    let mut state = InventoryUiState::new();
    state.admin_tab = true;
    state.was_open = true;
    panel_frame(&MenuState::new(), &mut state, true, true);
    assert!(!state.admin_tab);
}

#[test]
fn select_tab_keeps_menu_bools_and_admin_flag_consistent() {
    let mut menu = MenuState::new();
    let mut state = InventoryUiState::new();

    select_tab(&mut menu, &mut state, Tab::Admin);
    assert!(menu.inventory_open && !menu.crafting_open && state.admin_tab);

    assert!(select_tab(&mut menu, &mut state, Tab::Crafting));
    assert!(!menu.inventory_open && menu.crafting_open && !state.admin_tab);

    select_tab(&mut menu, &mut state, Tab::Admin);
    select_tab(&mut menu, &mut state, Tab::Inventory);
    assert!(menu.inventory_open && !menu.crafting_open && !state.admin_tab);
}

#[test]
fn inventory_tab_records_drag_surface_rect() {
    let mut state = InventoryUiState::new();
    assert!(!panel_frame(&MenuState::new(), &mut state, false, true).drag_surface);
    let mut state = InventoryUiState::new();
    assert!(panel_frame(&bag_open(), &mut state, false, true).drag_surface);
}

#[test]
fn equipment_rects_registered_only_on_inventory_tab() {
    let mut state = InventoryUiState::new();
    assert!(!panel_frame(&MenuState::new(), &mut state, false, true).drag_surface);
    let mut state = InventoryUiState::new();
    assert!(panel_frame(&bag_open(), &mut state, false, true).drag_surface);
    let mut menu = MenuState::new();
    menu.crafting_open = true;
    let mut state = InventoryUiState::new();
    assert!(!panel_frame(&menu, &mut state, false, true).drag_surface);
}

#[test]
fn panel_width_matches_the_paperdoll_plus_grid_layout() {
    const COLUMNS: u32 = 12;
    assert_eq!(SLOT_SIZE, 56);
    assert_eq!(SLOT_GAP, 6);
    assert_eq!(FRAME_MARGINS, 48);
    assert_eq!(INVENTORY_COLUMNS, 12);
    let grid = COLUMNS * SLOT_SIZE + (COLUMNS - 1) * SLOT_GAP;
    let expected = PAPERDOLL_COLUMN_WIDTH + PAPERDOLL_COLUMN_GAP + grid + FRAME_MARGINS;
    assert_eq!(PANEL_WIDTH, expected);
}

#[test]
fn crafting_tab_leaves_inventory_rect_none() {
    let mut menu = MenuState::new();
    menu.crafting_open = true;
    let mut state = InventoryUiState::new();
    let plan = panel_frame(&menu, &mut state, false, true);
    assert!(!plan.drag_surface);
    assert_eq!(plan.drawn, Some(Tab::Crafting));
}

#[test]
fn pause_hides_panel_and_actionbar() {
    let mut menu = bag_open();
    menu.pause_open = true;
    let mut state = InventoryUiState::new();
    let plan = panel_frame(&menu, &mut state, false, true);
    assert!(!plan.drag_surface);
    assert!(plan.hotbar.is_none());
    assert!(plan.drawn.is_none());
}

#[test]
fn closing_panel_cancels_in_progress_drag() {
    let mut state = drag_state(player_slot(0));
    state.was_open = true;
    let plan = panel_frame(&MenuState::new(), &mut state, false, true);
    assert!(state.drag.is_none());
    assert!(!state.was_open);
    assert!(plan.stop_text_input);
}

#[test]
fn backdrop_click_does_not_close_panel_mid_drag() {
    let mut menu = bag_open();
    let mut state = drag_state(player_slot(0));
    let press = PanelPress { backdrop: true, tab: None };
    panel_press(&mut menu, &mut state, Tab::Inventory, press);
    assert!(menu.inventory_open, "drag in flight must keep the panel open");
    state.cancel_drag();
    panel_press(&mut menu, &mut state, Tab::Inventory, press);
    assert!(!menu.inventory_open);
}

#[test]
fn only_admins_are_offered_the_grants() {
    assert_eq!(offered_tabs(true), vec![Tab::Inventory, Tab::Crafting, Tab::Admin]);
    assert_eq!(offered_tabs(false), vec![Tab::Inventory, Tab::Crafting]);
    assert_eq!(Tab::Admin.label(), "Admin");
}

#[test]
fn the_grid_holds_every_slot_and_fillers() {
    assert_eq!(grid_slot(0, 0), Some(0));
    assert_eq!(grid_slot(4, 11), Some(59));
    assert_eq!(grid_slot(5, 0), None);
    assert_eq!(grid_slot(INVENTORY_DISPLAY_ROWS - 1, INVENTORY_COLUMNS - 1), None);
}

#[test]
fn actionbar_frame_dims_when_inventory_closed() {
    assert!(hotbar_alpha(false) < hotbar_alpha(true));
    assert_eq!((hotbar_alpha(true), hotbar_alpha(false)), (236, 176));
}

#[test]
fn hotbar_slots_are_numbered_from_one() {
    let mut inventory = empty_inventory();
    inventory.active_actionbar_slot = 2;
    inventory.actionbar_slots[2] = Some(stack("hammer", 1));
    let slot = hotbar_slot(&inventory, 2);
    assert_eq!(slot.label, "3");
    assert!(slot.active);
    assert!(!hotbar_slot(&inventory, 0).active);
    assert!(holds_item(Some(&inventory), "hammer"));
    assert!(!holds_item(Some(&inventory), "coal"));
    assert!(!holds_item(None, "hammer"));
}

#[test]
fn actionbar_records_rect_when_inventory_present() {
    let slots = hotbar_slots(Some(&empty_inventory()), 8).unwrap();
    assert_eq!(slots.len(), 8);
    assert_eq!(slots[7].label, "8");
    assert!(slots[0].active && !slots[1].active);
}

#[test]
fn actionbar_absent_without_private_state() {
    assert!(hotbar_slots(None, 8).is_none());
}

fn drawn_stacks(inventory: &PlayerInventoryState) -> usize {
    let mut drawn = 0;
    for row in 0..INVENTORY_DISPLAY_ROWS {
        for column in 0..INVENTORY_COLUMNS {
            if let Some(index) = grid_slot(row, column) {
                if slot_stack(inventory, ItemContainerSlot::inventory(index)).is_some() {
                    drawn += 1;
                }
            }
        }
    }
    drawn
}

#[test]
fn populated_grid_renders_more_than_empty() {
    let mut full = empty_inventory();
    full.inventory_slots[0] = Some(stack("coal", 42));
    assert!(drawn_stacks(&full) > drawn_stacks(&empty_inventory()));
    assert_eq!(count_badge(&stack("coal", 42)).as_deref(), Some("42"));
}

#[test]
fn worn_set_paints_more_than_empty() {
    let slots = [
        EquipmentSlot::Head,
        EquipmentSlot::Chest,
        EquipmentSlot::Legs,
        EquipmentSlot::Feet,
    ];
    let worn = worn_set();
    let filled = |inventory: &PlayerInventoryState| {
        slots.iter().filter(|slot| worn_slot_label(Some(inventory), **slot).is_none()).count()
    };
    assert_eq!(filled(&worn), 4);
    assert_eq!(filled(&empty_inventory()), 0);
    let summary = summary_protection(&registered_items(), Some(&worn));
    assert!(!protection_row("Melee", summary.melee).dimmed);
}

#[test]
fn the_bag_header_counts_stacks() {
    let mut inventory = empty_inventory();
    inventory.inventory_slots[3] = Some(stack("coal", 5));
    inventory.inventory_slots[9] = Some(stack("wood", 5));
    assert_eq!(slots_used_text(&inventory), "2 / 60 slots used");
}
