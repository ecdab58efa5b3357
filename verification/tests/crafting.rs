//! The recipe browser: what is listed, what it costs and what can be queued.
use ashwend_client::crafting::browser::{
    CraftingUiState, StatusDot, crafting_body, effective_selection_index, empty_list_text, list_row,
};
use ashwend_client::crafting::details::{
    ButtonKind, ControlEvents, ingredient_status, station_met_label, station_requirement,
};
use ashwend_client::crafting::filter::{
    FilterPress, RecipeFilter, chip_selected, collect_sorted_recipes, is_tutorial_recipe,
    matches_search, press_chip, search_needle,
};
use ashwend_client::crafting::quantities::QuantityBook;
use ashwend_client::crafting::recipes::{
    CraftingInput, MAX_CRAFT_BATCH_SIZE, RecipeCategory, RecipeDefinition, RecipeStation, Registry,
    has_all_inputs, max_craftable_batch, recipe_definition,
};
use ashwend_client::crafting::rows::{Tone, inputs_line, recipe_row};
use ashwend_client::crafting::stations::{NearbyStation, StationContext, station_satisfied};
use ashwend_client::items::{
    ArmorProfile, DeployableKind, DeployableProfile, EquipmentSlot, HeldMesh, ItemDefinition,
    ItemStack, ItemTint, PlayerInventoryState, ToolProfile, Vec3Net, count_in_inventory,
};

fn item(id: &str, name: &str, description: &str, stack_size: u16) -> ItemDefinition {
    ItemDefinition {
        id: id.to_owned(),
        name: name.to_owned(),
        description: description.to_owned(),
        stack_size,
        tint: ItemTint { r: 120, g: 110, b: 100 },
        equipable: false,
        held_mesh: HeldMesh::Other { index: 0 },
        tool: None,
        deployable: None,
        armor: None,
        ammo_item: None,
        explosive: None,
        consumable: false,
    }
}

fn deployable(id: &str, name: &str, kind: DeployableKind, station_radius: u32) -> ItemDefinition {
    let mut definition = item(id, name, "Place it.", 1);
    definition.deployable = Some(DeployableProfile {
        kind,
        label: name.to_owned(),
        station_radius,
        collider_half_height: 500,
    });
    definition
}

fn armor(id: &str, name: &str, slot: EquipmentSlot, pct: (u8, u8, u8)) -> ItemDefinition {
    let mut definition = item(id, name, "Padded cloth.", 1);
    definition.armor = Some(ArmorProfile {
        slot,
        melee_protection_pct: pct.0,
        projectile_protection_pct: pct.1,
        blast_protection_pct: pct.2,
        max_durability: Some(120),
    });
    definition
}

fn tool(id: &str, name: &str, kind: &str) -> ItemDefinition {
    let mut definition = item(id, name, "A tool.", 1);
    definition.equipable = true;
    definition.tool = Some(ToolProfile {
        kind_label: kind.to_owned(),
        tier: 1,
        gather_amount: 4,
        max_durability: Some(200),
    });
    definition
}

fn registered_items() -> Vec<ItemDefinition> {
    vec![
        item("wood", "Wood", "Rough timber.", 200),
        item("stone", "Stone", "A chunk of rock.", 200),
        item("fiber", "Fiber", "Stringy grass.", 200),
        item("plant_twine", "Plant Twine", "A length of cord.", 100),
        item("coal", "Coal", "Burns hot.", 200),
        item("sulfur", "Sulfur", "Smells bad.", 200),
        item("gunpowder", "Gunpowder", "Handle with care.", 200),
        item("cloth", "Cloth", "Woven fabric.", 100),
        item("powder_bomb", "Powder Bomb", "Throw it.", 20),
        tool("stone_hatchet", "Stone Hatchet", "Axe"),
        tool("stone_pickaxe", "Stone Pickaxe", "Pickaxe"),
        tool("iron_hatchet", "Iron Hatchet", "Axe"),
        tool("basic_pickaxe", "Basic Pickaxe", "Pickaxe"),
        armor("padded_hood", "Padded Hood", EquipmentSlot::Head, (2, 2, 1)),
        armor("padded_tunic", "Padded Tunic", EquipmentSlot::Chest, (5, 4, 2)),
        armor("padded_leggings", "Padded Leggings", EquipmentSlot::Legs, (3, 2, 1)),
        armor("padded_wraps", "Padded Wraps", EquipmentSlot::Feet, (2, 2, 0)),
        deployable("workbench_t1", "Workbench", DeployableKind::Workbench { tier: 1 }, 5_000),
        deployable("crude_furnace", "Crude Furnace", DeployableKind::Furnace { tier: 1 }, 3_000),
        deployable("building_wall", "Wall", DeployableKind::Building, 0),
        deployable("ruin_cache", "Salvage Chest", DeployableKind::RuinCache, 0),
    ]
}

fn stack(id: &str, quantity: u16) -> ItemStack {
    ItemStack { item_id: id.to_owned(), quantity, durability: None }
}

fn empty_inventory() -> PlayerInventoryState {
    PlayerInventoryState {
        inventory_slots: (0..60).map(|_| None).collect(),
        actionbar_slots: (0..8).map(|_| None).collect(),
        equipment_slots: (0..4).map(|_| None).collect(),
        active_actionbar_slot: 0,
    }
}

const MATERIALS: RecipeCategory = RecipeCategory { index: 0 };
const TOOLS: RecipeCategory = RecipeCategory { index: 1 };

fn recipe(
    id: &str,
    name: &str,
    description: &str,
    category: RecipeCategory,
    station: RecipeStation,
    inputs: &[(&str, u16)],
) -> RecipeDefinition {
    RecipeDefinition {
        id: id.to_owned(),
        name: name.to_owned(),
        description: description.to_owned(),
        category,
        tier: 1,
        station,
        inputs: inputs
            .iter()
            .map(|(item_id, quantity)| CraftingInput {
                item_id: (*item_id).to_owned(),
                quantity: *quantity,
            })
            .collect(),
        output_item: id.to_owned(),
        output_quantity: 1,
        craft_millis: 2_500,
    }
}

fn registry() -> Registry {
    let bench = RecipeStation::Workbench { min_tier: 1 };
    Registry {
        items: registered_items(),
        recipes: vec![
            recipe("plant_twine", "Plant Twine", "Twist handfuls of fiber.", MATERIALS,
                RecipeStation::Hand, &[("fiber", 3)]),
            recipe("cloth", "Cloth", "Weave fiber.", MATERIALS, RecipeStation::Hand, &[("fiber", 4)]),
            recipe("gunpowder", "Gunpowder", "Grind it fine.", MATERIALS, bench,
                &[("coal", 2), ("sulfur", 1)]),
            recipe("stone_hatchet", "Stone Hatchet", "Chops trees.", TOOLS, RecipeStation::Hand,
                &[("wood", 5), ("stone", 3), ("plant_twine", 1)]),
            recipe("stone_pickaxe", "Stone Pickaxe", "Mines ore.", TOOLS, RecipeStation::Hand,
                &[("wood", 5), ("stone", 4), ("plant_twine", 1)]),
        ],
        category_labels: vec!["Materials".to_owned(), "Tools".to_owned()],
        tutorial_recipes: vec![
            "plant_twine".to_owned(),
            "stone_hatchet".to_owned(),
            "stone_pickaxe".to_owned(),
        ],
    }
}

const ORIGIN: Vec3Net = Vec3Net { x: 0, y: 0, z: 0 };

fn bench_at(tier: u8, x: i32, z: i32) -> NearbyStation {
    NearbyStation::new(
        DeployableKind::Workbench { tier },
        "workbench_t1".to_owned(),
        Vec3Net { x, y: 0, z },
    )
}

fn bench_in_range() -> StationContext {
    StationContext::new(Some(ORIGIN), vec![bench_at(1, 0, 0)])
}

fn no_stations() -> StationContext {
    StationContext::new(Some(ORIGIN), Vec::new())
}

fn inventory_with(id: &str, quantity: u16) -> PlayerInventoryState {
    let mut inventory = empty_inventory();
    inventory.inventory_slots[0] = Some(stack(id, quantity));
    inventory
}

fn everything() -> RecipeFilter {
    RecipeFilter { search: String::new(), category_filter: None, only_craftable: false }
}

fn fresh_state() -> CraftingUiState {
    CraftingUiState {
        filter: everything(),
        selected_recipe: None,
        quantities: QuantityBook::new(),
        scroll_reset_pending: false,
    }
}

fn idle() -> ControlEvents {
    ControlEvents { minus: false, edited: None, plus: false, max: false, craft: false }
}

fn known<'a>(registry: &'a Registry, id: &str) -> &'a RecipeDefinition {
    recipe_definition(&registry.recipes, id).expect("recipe")
}

#[test]
fn max_craftable_batch_returns_zero_without_inventory() {
    let registry = registry();
    assert_eq!(max_craftable_batch(None, known(&registry, "plant_twine")), 0);
}

#[test]
fn max_craftable_batch_floors_to_fewest_complete_set() {
    let registry = registry();
    let inventory = inventory_with("fiber", 11);
    assert_eq!(max_craftable_batch(Some(&inventory), known(&registry, "plant_twine")), 3);
}

#[test]
fn max_craftable_batch_clamps_at_protocol_max() {
    let registry = registry();
    let inventory = inventory_with("fiber", u16::MAX);
    assert_eq!(
        max_craftable_batch(Some(&inventory), known(&registry, "plant_twine")),
        MAX_CRAFT_BATCH_SIZE
    );
}

#[test]
fn has_all_inputs_requires_every_input() {
    let registry = registry();
    let hatchet = known(&registry, "stone_hatchet");
    assert!(!has_all_inputs(&inventory_with("wood", 10), hatchet));

    let twine = known(&registry, "plant_twine");
    assert!(has_all_inputs(&inventory_with("fiber", 3), twine));
    assert!(!has_all_inputs(&inventory_with("fiber", 2), twine));
}

#[test]
fn count_in_inventory_sums_across_inventory_and_actionbar() {
    let mut inventory = empty_inventory();
    inventory.inventory_slots[0] = Some(stack("wood", 5));
    inventory.inventory_slots[4] = Some(stack("wood", 7));
    inventory.actionbar_slots[1] = Some(stack("wood", 3));
    inventory.inventory_slots[2] = Some(stack("stone", 99));
    assert_eq!(count_in_inventory(&inventory, "wood"), 15);
    assert_eq!(count_in_inventory(&inventory, "stone"), 99);
    assert_eq!(count_in_inventory(&inventory, "fiber"), 0);
}

#[test]
fn matches_search_hits_name_and_input_material() {
    let registry = registry();
    let hatchet = known(&registry, "stone_hatchet");
    assert!(matches_search(&registry.items, hatchet, "hatchet"));
    assert!(matches_search(&registry.items, hatchet, "wood"));
    assert!(!matches_search(&registry.items, hatchet, "zzzznotathing"));
}

#[test]
fn collect_sorted_recipes_filters_by_category() {
    let registry = registry();
    let filter = RecipeFilter { category_filter: Some(TOOLS), ..everything() };
    let entries = collect_sorted_recipes(&registry, &filter, None, &no_stations(), false);
    assert!(!entries.is_empty());
    assert!(entries.iter().all(|entry| entry.recipe.category == TOOLS));
}

#[test]
fn collect_sorted_recipes_search_narrows_to_one() {
    let registry = registry();
    let filter = RecipeFilter { search: "handfuls".to_owned(), ..everything() };
    let entries = collect_sorted_recipes(&registry, &filter, None, &no_stations(), false);
    assert_eq!(entries.len(), 1);
    assert_eq!(entries[0].recipe.id, "plant_twine");
}

#[test]
fn search_ignores_case_and_surrounding_blanks() {
    let registry = registry();
    let filter = RecipeFilter { search: "  HANDFULS ".to_owned(), ..everything() };
    let entries = collect_sorted_recipes(&registry, &filter, None, &no_stations(), false);
    assert_eq!(entries.len(), 1);
    assert_eq!(entries[0].recipe.id, "plant_twine");
}

#[test]
fn search_texts_are_trimmed_and_lowered_once() {
    assert_eq!(search_needle("  Stone HATCHET\n"), "stone hatchet");
    assert_eq!(search_needle("stone hatchet"), "stone hatchet");
    assert_eq!(search_needle(" \u{c4}xte "), "\u{e4}xte");
    assert_eq!(search_needle(""), "");
    for text in (0..128_u8).map(char::from) {
        let once = search_needle(&text.to_string());
        assert_eq!(search_needle(&once), once);
        assert_eq!(search_needle(&text.to_ascii_uppercase().to_string()), once);
    }
}

#[test]
fn filters_leave_lines_out_and_nothing_else() {
    let registry = registry();
    let inventory = inventory_with("fiber", 100);
    let lines = |filter: &RecipeFilter| {
        collect_sorted_recipes(&registry, filter, Some(&inventory), &bench_in_range(), true)
            .iter()
            .map(|entry| (entry.recipe.id.clone(), entry.craftable, entry.station_met))
            .collect::<Vec<_>>()
    };
    let all = lines(&everything());
    for filter in [
        RecipeFilter { category_filter: Some(TOOLS), ..everything() },
        RecipeFilter { search: "wood".to_owned(), ..everything() },
        RecipeFilter { only_craftable: true, ..everything() },
    ] {
        let narrowed = lines(&filter);
        assert!(!narrowed.is_empty() && narrowed.len() < all.len());
        let kept: Vec<_> =
            all.iter().filter(|line| narrowed.contains(line)).cloned().collect();
        assert_eq!(kept, narrowed);
    }
    assert_eq!(lines(&RecipeFilter { search: "  ".to_owned(), ..everything() }), all);
}

#[test]
fn collect_sorted_recipes_orders_craftable_first() {
    let registry = registry();
    let inventory = inventory_with("fiber", 100);
    let entries =
        collect_sorted_recipes(&registry, &everything(), Some(&inventory), &bench_in_range(), false);
    let first_non_craftable = entries.iter().position(|entry| !entry.craftable);
    let last_craftable = entries.iter().rposition(|entry| entry.craftable);
    if let (Some(non), Some(craft)) = (first_non_craftable, last_craftable) {
        assert!(craft < non, "craftable recipes must sort before missing ones");
    }
    let twine = entries
        .iter()
        .find(|entry| entry.recipe.id == "plant_twine")
        .expect("twine present");
    assert!(twine.craftable);
}

#[test]
fn collect_sorted_recipes_pins_tutorial_recipes_when_focused() {
    let registry = registry();
    let inventory = inventory_with("fiber", 100);
    let entries =
        collect_sorted_recipes(&registry, &everything(), Some(&inventory), &bench_in_range(), true);
    assert!(entries.len() >= 3);
    for entry in entries.iter().take(3) {
        assert!(
            is_tutorial_recipe(&registry.tutorial_recipes, &entry.recipe.id),
            "expected a pinned tutorial recipe at the top, got {}",
            entry.recipe.id
        );
    }
}

#[test]
fn collect_sorted_recipes_only_craftable_hides_unaffordable() {
    let registry = registry();
    let inventory = inventory_with("fiber", 100);
    let filter = RecipeFilter { only_craftable: true, ..everything() };
    let entries =
        collect_sorted_recipes(&registry, &filter, Some(&inventory), &bench_in_range(), false);
    assert!(entries.iter().all(|entry| entry.craftable));
    assert!(!entries.iter().any(|entry| entry.recipe.id == "stone_pickaxe"));
}

#[test]
fn ingredient_status_reports_shortfall_and_batch_cost() {
    let registry = registry();
    let input = &known(&registry, "plant_twine").inputs[0];
    let inventory = inventory_with("fiber", 10);

    let none = ingredient_status(None, input, 1);
    assert_eq!((none.have, none.needed), (0, 3));
    assert!(none.short());

    let ok = ingredient_status(Some(&inventory), input, 1);
    assert_eq!((ok.have, ok.needed), (10, 3));
    assert!(!ok.short());

    let batch = ingredient_status(Some(&inventory), input, 4);
    assert_eq!((batch.have, batch.needed), (10, 12));
    assert!(batch.short());

    let zero = ingredient_status(Some(&inventory), input, 0);
    assert_eq!(zero.needed, 3);
}

#[test]
fn effective_selection_prefers_stored_id_and_falls_back_to_top() {
    let registry = registry();
    let inventory = inventory_with("fiber", 100);
    let entries =
        collect_sorted_recipes(&registry, &everything(), Some(&inventory), &bench_in_range(), false);
    assert!(entries.len() >= 2);

    assert_eq!(effective_selection_index(&entries, &None), 0);

    let last = entries.last().expect("entries").recipe.id.clone();
    assert_eq!(effective_selection_index(&entries, &Some(last)), entries.len() - 1);

    assert_eq!(effective_selection_index(&entries, &Some("not_a_real_recipe".to_owned())), 0);
}

#[test]
fn crafting_body_renders_recipe_rows() {
    let registry = registry();
    let inventory = inventory_with("fiber", 9);
    let mut state = fresh_state();
    state.scroll_reset_pending = true;
    state.selected_recipe = Some("plant_twine".to_owned());

    let frame = crafting_body(
        &registry, &mut state, Some(&inventory), 0, 8, &bench_in_range(), false, None, &idle(),
    )
    .expect("recipes are listed");

    assert!(!frame.entries.is_empty());
    assert_eq!(frame.entries[frame.selected].recipe.id, "plant_twine");
    assert!(!state.scroll_reset_pending);
    assert!(state.quantities.get("plant_twine").is_some());
    assert_eq!(state.quantities.fields.len(), 1);
}

#[test]
fn crafting_body_filtered_to_nothing_still_renders_empty_state() {
    let registry = registry();
    let mut state = fresh_state();
    state.filter.search = "zzzznomatch".to_owned();

    let frame = crafting_body(
        &registry, &mut state, None, 0, 8, &bench_in_range(), false, None, &idle(),
    );
    assert!(frame.is_none());
    assert_eq!(empty_list_text(), "No recipes match your filter.");
}

#[test]
fn station_labels_read_met_vs_unmet_and_skip_hand_recipes() {
    assert_eq!(station_met_label(RecipeStation::Hand), None);
    assert_eq!(station_requirement(RecipeStation::Hand), None);
    assert_eq!(
        station_met_label(RecipeStation::Workbench { min_tier: 1 }).as_deref(),
        Some("Workbench Tier 1"),
    );
    assert_eq!(
        station_requirement(RecipeStation::Workbench { min_tier: 2 }).as_deref(),
        Some("Requires Workbench Tier 2"),
    );
}

fn powder_makings() -> PlayerInventoryState {
    let mut inventory = empty_inventory();
    inventory.inventory_slots[0] = Some(stack("coal", 10));
    inventory.inventory_slots[1] = Some(stack("sulfur", 10));
    inventory
}

#[test]
fn row_state_folds_station_gate_into_craftable_for_gunpowder() {
    let registry = registry();
    let inventory = powder_makings();

    let no_bench =
        collect_sorted_recipes(&registry, &everything(), Some(&inventory), &no_stations(), false);
    let without = no_bench
        .iter()
        .find(|entry| entry.recipe.id == "gunpowder")
        .expect("gunpowder present");
    assert!(!without.station_met, "no bench => station unmet");
    assert!(!without.craftable, "affordable but station-unmet must not count as craftable");

    let with_bench =
        collect_sorted_recipes(&registry, &everything(), Some(&inventory), &bench_in_range(), false);
    let with = with_bench
        .iter()
        .find(|entry| entry.recipe.id == "gunpowder")
        .expect("gunpowder present");
    assert!(with.station_met, "bench in range => station met");
    assert!(with.craftable, "affordable and station-met must be craftable");
}

#[test]
fn hand_recipe_is_station_met_without_any_station() {
    let registry = registry();
    let inventory = inventory_with("fiber", 10);
    let entries =
        collect_sorted_recipes(&registry, &everything(), Some(&inventory), &no_stations(), false);
    let cloth = entries.iter().find(|entry| entry.recipe.id == "cloth").expect("cloth present");
    assert!(cloth.station_met, "hand recipe is always station-met");
    assert!(cloth.craftable, "affordable hand recipe is craftable");
}

#[test]
fn only_craftable_filter_hides_station_unmet_gunpowder() {
    let registry = registry();
    let inventory = powder_makings();
    let filter = RecipeFilter { only_craftable: true, ..everything() };
    let entries =
        collect_sorted_recipes(&registry, &filter, Some(&inventory), &no_stations(), false);
    assert!(
        !entries.iter().any(|entry| entry.recipe.id == "gunpowder"),
        "station-unmet gunpowder must be hidden by the craftable-only filter",
    );
}

#[test]
fn hand_recipes_are_always_satisfied() {
    assert!(station_satisfied(&registered_items(), RecipeStation::Hand, ORIGIN, &Vec::new()));
}

#[test]
fn workbench_in_radius_satisfies_but_out_of_radius_does_not() {
    let items = registered_items();
    let needed = RecipeStation::Workbench { min_tier: 1 };
    assert!(station_satisfied(&items, needed, ORIGIN, &vec![bench_at(1, 2_000, 0)]));
    assert!(!station_satisfied(&items, needed, ORIGIN, &vec![bench_at(1, 10_000, 0)]));
}

#[test]
fn station_radius_is_inclusive() {
    let items = registered_items();
    let needed = RecipeStation::Workbench { min_tier: 1 };
    assert!(station_satisfied(&items, needed, ORIGIN, &vec![bench_at(1, 3_000, 4_000)]));
    assert!(!station_satisfied(&items, needed, ORIGIN, &vec![bench_at(1, 3_000, 4_001)]));
}

#[test]
fn vertical_offset_never_changes_range() {
    let under = NearbyStation::new(
        DeployableKind::Workbench { tier: 1 },
        "workbench_t1".to_owned(),
        Vec3Net { x: 0, y: -20_000, z: 0 },
    );
    assert!(station_satisfied(
        &registered_items(),
        RecipeStation::Workbench { min_tier: 1 },
        ORIGIN,
        &vec![under],
    ));
}

#[test]
fn tier_one_bench_does_not_satisfy_a_min_tier_two_recipe() {
    assert!(!station_satisfied(
        &registered_items(),
        RecipeStation::Workbench { min_tier: 2 },
        ORIGIN,
        &vec![bench_at(1, 1_000, 0)],
    ));
}

#[test]
fn tier_two_bench_satisfies_a_min_tier_one_recipe() {
    assert!(station_satisfied(
        &registered_items(),
        RecipeStation::Workbench { min_tier: 1 },
        ORIGIN,
        &vec![bench_at(2, 1_000, 0)],
    ));
}

#[test]
fn context_met_treats_hand_recipes_as_always_satisfied() {
    let context = StationContext::new(None, Vec::new());
    assert!(context.met(&registered_items(), RecipeStation::Hand));
}

#[test]
fn context_met_is_false_for_workbench_recipe_without_a_known_position() {
    let context = StationContext::new(None, vec![bench_at(1, 0, 0)]);
    assert!(!context.met(&registered_items(), RecipeStation::Workbench { min_tier: 1 }));
}

#[test]
fn context_met_resolves_a_workbench_recipe_against_nearby_benches() {
    let items = registered_items();
    let context = StationContext::new(Some(ORIGIN), vec![bench_at(1, 2_000, 0)]);
    assert!(context.met(&items, RecipeStation::Workbench { min_tier: 1 }));
    assert!(!context.met(&items, RecipeStation::Workbench { min_tier: 2 }));
}

#[test]
fn non_workbench_deployables_never_satisfy_a_workbench_requirement() {
    let furnace = NearbyStation::new(
        DeployableKind::Furnace { tier: 1 },
        "crude_furnace".to_owned(),
        Vec3Net { x: 1_000, y: 0, z: 0 },
    );
    assert!(!station_satisfied(
        &registered_items(),
        RecipeStation::Workbench { min_tier: 1 },
        ORIGIN,
        &vec![furnace],
    ));
}

#[test]
fn chips_choose_a_category_or_all() {
    assert_eq!(press_chip(FilterPress::All), None);
    assert_eq!(press_chip(FilterPress::Category(TOOLS)), Some(TOOLS));
    assert!(chip_selected(None, FilterPress::All));
    assert!(chip_selected(Some(TOOLS), FilterPress::Category(TOOLS)));
    assert!(!chip_selected(Some(TOOLS), FilterPress::Category(MATERIALS)));
}

#[test]
fn list_rows_tell_what_blocks_a_recipe() {
    let registry = registry();
    let inventory = powder_makings();
    let entries =
        collect_sorted_recipes(&registry, &everything(), Some(&inventory), &no_stations(), false);
    let powder = entries.iter().find(|entry| entry.recipe.id == "gunpowder").expect("gunpowder");
    let row = list_row(powder, true, false);
    assert_eq!(row.dot, StatusDot::Station);
    assert!(row.dimmed);
    assert_eq!(row.hint.as_deref(), Some("Needs a crafting station in range."));
    let twine = entries.iter().find(|entry| entry.recipe.id == "plant_twine").expect("twine");
    assert_eq!(list_row(twine, false, false).hint.as_deref(), Some("Missing materials."));
}

#[test]
fn craft_button_queues_the_typed_batch() {
    let registry = registry();
    let inventory = inventory_with("fiber", 9);
    let mut state = fresh_state();
    state.selected_recipe = Some("plant_twine".to_owned());
    let mut events = idle();
    events.plus = true;
    crafting_body(
        &registry, &mut state, Some(&inventory), 0, 8, &bench_in_range(), false, None, &events,
    )
    .expect("recipes are listed");
    assert_eq!(state.quantities.get("plant_twine").as_deref(), Some("2"));
    let mut events = idle();
    events.craft = true;
    let frame = crafting_body(
        &registry, &mut state, Some(&inventory), 0, 8, &bench_in_range(), false, None, &events,
    )
    .expect("recipes are listed");
    assert_eq!(frame.card.controls.enqueue, Some(2));
    assert_eq!(frame.card.controls.kind, ButtonKind::Primary);
}

#[test]
fn a_full_queue_takes_nothing() {
    let registry = registry();
    let inventory = inventory_with("fiber", 9);
    let mut state = fresh_state();
    state.selected_recipe = Some("plant_twine".to_owned());
    let mut events = idle();
    events.craft = true;
    let frame = crafting_body(
        &registry, &mut state, Some(&inventory), 8, 8, &bench_in_range(), false, None, &events,
    )
    .expect("recipes are listed");
    assert!(frame.queue_full);
    assert_eq!(frame.card.controls.enqueue, None);
    assert!(frame.card.controls.disabled.is_some());
}

#[test]
fn rows_mark_what_is_missing() {
    let registry = registry();
    let twine = known(&registry, "plant_twine");
    let chunks = inputs_line(&registry.items, Some(&inventory_with("fiber", 2)), twine, 1);
    assert!(chunks.iter().any(|chunk| chunk.tone == Tone::Missing));
    let chunks = inputs_line(&registry.items, Some(&inventory_with("fiber", 3)), twine, 1);
    assert!(chunks.iter().all(|chunk| chunk.tone != Tone::Missing));
}

#[test]
fn rows_queue_the_largest_batch() {
    let registry = registry();
    let twine = known(&registry, "plant_twine");
    let mut book = QuantityBook::new();
    let mut events = idle();
    events.max = true;
    let row = recipe_row(
        &registry.items,
        "Materials",
        twine,
        Some(&inventory_with("fiber", 11)),
        true,
        false,
        &mut book,
        &events,
    );
    assert_eq!(row.enqueue_max, Some(3));
    assert_eq!(row.enqueue, None);
}
