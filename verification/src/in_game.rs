//! The layers of the interface in the game, from the bottom up.
use vstd::prelude::*;
use crate::color::{Rgba, opaque, solid};
use crate::crafting::stations::NearbyStation;
use crate::inventory::pickup::{
    ResourceNodeDefinition, first_node_of_the_id_is_found, node_of, resource_node_definition,
};
use crate::items::{
    DeployableKind, ItemDefinition, ToolKind, Vec3Net, first_row_of_the_id_is_found,
    item_definition, item_of,
};
use crate::menu::MenuState;
use crate::text::{concat3, decimal, digits};

verus! {

/// The layers in the game.
#[derive(Clone, Copy, Debug, PartialEq, Eq, Structural)]
pub enum Layer {
    Options,
    Hud,
    Peers,
    FloatingDamage,
    Deployables,
    BuildingCost,
    WorldMap,
    InventoryPanel,
    Tutorial,
    CompletionBanner,
    Furnace,
    Workbench,
    LootBag,
    DragRelease,
    DragPreview,
    CraftingQueue,
    Chat,
    Toasts,
    Wheel,
    TextPrompt,
    DeathSplash,
    Pause,
}

/// What of the interface the player wants to see.
#[derive(Clone, Copy, Debug, PartialEq, Eq, Structural)]
pub struct HudSettings {
    /// The master switch of everything that is always on.
    pub show_hud: bool,
    pub show_chat: bool,
    pub onboarding_completed: bool,
}

/// The steps of the tutorial.
#[derive(Clone, Copy, Debug, PartialEq, Eq, Structural)]
pub enum TutorialStep {
    Gather,
    OpenInventory,
    OpenCrafting,
    CraftTools,
    Done,
}

/// A layer that is drawn on a condition.
pub open spec fn layer_if(condition: bool, layer: Layer) -> Seq<Layer> {
    if condition {
        seq![layer]
    } else {
        Seq::empty()
    }
}

/// Adds a layer on a condition.
fn push_if(layers: &mut Vec<Layer>, condition: bool, layer: Layer)
    ensures
        final(layers)@ == old(layers)@ + layer_if(condition, layer),
{
    if condition {
        layers.push(layer);
    }
    proof {
        assert(layers@ =~= old(layers)@ + layer_if(condition, layer));
    }
}

/// No panel hides the world.
pub open spec fn overlays_visible(menu: MenuState) -> bool {
    !menu.inventory_open && !menu.crafting_open && !menu.furnace_open && !menu.loot_bag_open
        && !menu.workbench_open && !menu.world_map_open
}

/// Whether names, numbers and labels over the world are visible.
pub fn world_overlays_visible(menu: &MenuState) -> (r: bool)
    ensures
        r == overlays_visible(*menu),
{
    !menu.inventory_open && !menu.crafting_open && !menu.furnace_open && !menu.loot_bag_open
        && !menu.workbench_open && !menu.world_map_open
}

/// The layers under the panels: the options alone while they are open, else the
/// always-on display, what labels the world, and the map.
pub open spec fn layers_under_panels(menu: MenuState, settings: HudSettings) -> Seq<Layer> {
    if menu.pause_options_open {
        seq![Layer::Options]
    } else {
        let labels = overlays_visible(menu) && settings.show_hud;
        layer_if(settings.show_hud, Layer::Hud) + layer_if(labels, Layer::Peers) + layer_if(
            labels,
            Layer::FloatingDamage,
        ) + layer_if(labels, Layer::Deployables) + layer_if(labels, Layer::BuildingCost) + layer_if(
            menu.world_map_open && settings.show_hud,
            Layer::WorldMap,
        )
    }
}

/// Lists the layers under the panels.
pub fn base_layers(menu: &MenuState, settings: HudSettings) -> (r: Vec<Layer>)
    ensures
        r@ == layers_under_panels(*menu, settings),
{
    let mut layers: Vec<Layer> = Vec::new();
    if menu.pause_options_open {
        layers.push(Layer::Options);
        proof {
            assert(layers@ =~= seq![Layer::Options]);
        }
        return layers;
    }
    let labels: bool = world_overlays_visible(menu) && settings.show_hud;
    push_if(&mut layers, settings.show_hud, Layer::Hud);
    push_if(&mut layers, labels, Layer::Peers);
    push_if(&mut layers, labels, Layer::FloatingDamage);
    push_if(&mut layers, labels, Layer::Deployables);
    push_if(&mut layers, labels, Layer::BuildingCost);
    push_if(&mut layers, menu.world_map_open && settings.show_hud, Layer::WorldMap);
    proof {
        assert(layers@ =~= layers_under_panels(*menu, settings));
    }
    layers
}

/// The tutorial runs: it is not completed, the display is on, the world is ready,
/// and none of the pause menu, its options and the death screen is up.
pub open spec fn tutorial_runs(menu: MenuState, settings: HudSettings, world_ready: bool) -> bool {
    !settings.onboarding_completed && settings.show_hud && world_ready && !menu.pause_open
        && !menu.pause_options_open && menu.death_splash is None
}

/// What the tutorial does in a frame.
#[derive(Clone, Copy, Debug, PartialEq, Eq)]
pub struct TutorialPlan {
    /// Whether the step has to be known at all.
    pub active: bool,
    /// Whether the recipes in focus are pinned to the top of the list.
    pub pin_recipes: bool,
    /// Whether the tutorial is completed in this frame, and celebrated.
    pub complete: bool,
    /// The step that is shown.
    pub show: Option<TutorialStep>,
}

/// Decides whether the tutorial runs, before its step is worked out.
pub fn tutorial_active(menu: &MenuState, settings: HudSettings, world_ready: bool) -> (r: bool)
    ensures
        r == tutorial_runs(*menu, settings, world_ready),
{
    !settings.onboarding_completed && settings.show_hud && world_ready && !menu.pause_open
        && !menu.pause_options_open && menu.death_splash.is_none()
}

/// Plans what the tutorial does: the last step completes it, and every other is
/// shown. A tutorial that does not run does nothing.
pub fn tutorial_plan(active: bool, step: TutorialStep) -> (r: TutorialPlan)
    ensures
        r.active == active,
        r.pin_recipes == (active && step == TutorialStep::CraftTools),
        r.complete == (active && step == TutorialStep::Done),
        r.show == if active && step != TutorialStep::Done {
            Some(step)
        } else {
            None
        },
        active ==> (r.complete <==> r.show is None),
        !active ==> !r.complete && r.show is None && !r.pin_recipes,
        r.pin_recipes ==> r.show == Some(TutorialStep::CraftTools),
{
    let done: bool = match step {
        TutorialStep::Done => true,
        _ => false,
    };
    TutorialPlan {
        active,
        pin_recipes: match step {
            TutorialStep::CraftTools => active,
            _ => false,
        },
        complete: active && done,
        show: if active && !done {
            Some(step)
        } else {
            None
        },
    }
}

/// Runs a frame of the tutorial: plans it, and remembers that it is completed.
pub fn tutorial_frame(
    menu: &MenuState,
    settings: &mut HudSettings,
    world_ready: bool,
    step: TutorialStep,
) -> (r: TutorialPlan)
    ensures
        r.active == tutorial_runs(*menu, *old(settings), world_ready),
        r.pin_recipes == (r.active && step == TutorialStep::CraftTools),
        r.complete == (r.active && step == TutorialStep::Done),
        r.show == if r.active && step != TutorialStep::Done {
            Some(step)
        } else {
            None
        },
        *final(settings) == (HudSettings {
            onboarding_completed: old(settings).onboarding_completed || r.complete,
            ..*old(settings)
        }),
{
    let active = tutorial_active(menu, *settings, world_ready);
    let plan = tutorial_plan(active, step);
    if plan.complete {
        settings.onboarding_completed = true;
    }
    plan
}

/// Once the tutorial is completed it never runs again.
pub proof fn completed_tutorial_stays_completed(
    menu: MenuState,
    settings: HudSettings,
    world_ready: bool,
)
    requires
        settings.onboarding_completed,
    ensures
        !tutorial_runs(menu, settings, world_ready),
{
}

/// The layers from the panels up to the dialogs.
pub open spec fn layers_of_panels(settings: HudSettings, tutorial_shown: bool) -> Seq<Layer> {
    seq![Layer::InventoryPanel] + layer_if(tutorial_shown, Layer::Tutorial) + layer_if(
        settings.show_hud,
        Layer::CompletionBanner,
    ) + seq![
        Layer::Furnace,
        Layer::Workbench,
        Layer::LootBag,
        Layer::DragRelease,
        Layer::DragPreview,
    ] + layer_if(settings.show_hud, Layer::CraftingQueue) + layer_if(
        settings.show_chat,
        Layer::Chat,
    ) + layer_if(settings.show_hud, Layer::Toasts) + seq![Layer::Wheel, Layer::TextPrompt]
}

/// Lists the layers from the panels up to the dialogs. A released drag is handled
/// after every panel with slots was drawn.
pub fn panel_layers(settings: HudSettings, tutorial_shown: bool) -> (r: Vec<Layer>)
    ensures
        r@ == layers_of_panels(settings, tutorial_shown),
{
    let mut layers: Vec<Layer> = Vec::new();
    layers.push(Layer::InventoryPanel);
    push_if(&mut layers, tutorial_shown, Layer::Tutorial);
    push_if(&mut layers, settings.show_hud, Layer::CompletionBanner);
    layers.push(Layer::Furnace);
    layers.push(Layer::Workbench);
    layers.push(Layer::LootBag);
    layers.push(Layer::DragRelease);
    layers.push(Layer::DragPreview);
    push_if(&mut layers, settings.show_hud, Layer::CraftingQueue);
    push_if(&mut layers, settings.show_chat, Layer::Chat);
    push_if(&mut layers, settings.show_hud, Layer::Toasts);
    layers.push(Layer::Wheel);
    layers.push(Layer::TextPrompt);
    proof {
        assert(layers@ =~= layers_of_panels(settings, tutorial_shown));
    }
    layers
}

/// The layers over all others: the death screen, unless the options cover
/// everything, and the pause menu, unless its options are open.
pub open spec fn layers_on_top(menu: MenuState, options_shown: bool) -> Seq<Layer> {
    layer_if(!options_shown && menu.death_splash is Some, Layer::DeathSplash) + layer_if(
        menu.pause_open && !menu.pause_options_open,
        Layer::Pause,
    )
}

/// Lists the layers over all others. What the panels changed counts already;
/// `options_shown` tells whether the frame began with the options.
pub fn top_layers(menu: &MenuState, options_shown: bool) -> (r: Vec<Layer>)
    ensures
        r@ == layers_on_top(*menu, options_shown),
{
    let mut layers: Vec<Layer> = Vec::new();
    push_if(&mut layers, !options_shown && menu.death_splash.is_some(), Layer::DeathSplash);
    push_if(&mut layers, menu.pause_open && !menu.pause_options_open, Layer::Pause);
    proof {
        assert(layers@ =~= layers_on_top(*menu, options_shown));
    }
    layers
}

/// All layers of a frame in which no panel changes the menu.
pub open spec fn frame_layers(
    menu: MenuState,
    settings: HudSettings,
    tutorial_shown: bool,
) -> Seq<Layer> {
    layers_under_panels(menu, settings) + (if menu.pause_options_open {
        Seq::empty()
    } else {
        layers_of_panels(settings, tutorial_shown)
    }) + layers_on_top(menu, menu.pause_options_open)
}

/// Lists all layers of a frame in which no panel changes the menu.
pub fn in_game_layers(menu: &MenuState, settings: HudSettings, tutorial_shown: bool) -> (r: Vec<
    Layer,
>)
    ensures
        r@ == frame_layers(*menu, settings, tutorial_shown),
{
    let mut layers = base_layers(menu, settings);
    if !menu.pause_options_open {
        let mut panels = panel_layers(settings, tutorial_shown);
        layers.append(&mut panels);
    }
    let mut top = top_layers(menu, menu.pause_options_open);
    layers.append(&mut top);
    proof {
        assert(layers@ =~= frame_layers(*menu, settings, tutorial_shown));
    }
    layers
}

/// Open options are the only layer of a frame.
pub proof fn options_stand_alone(menu: MenuState, settings: HudSettings, tutorial_shown: bool)
    requires
        menu.pause_options_open,
    ensures
        frame_layers(menu, settings, tutorial_shown) == seq![Layer::Options],
{
    assert(frame_layers(menu, settings, tutorial_shown) =~= seq![Layer::Options]);
}

/// The layers that label the world.
pub open spec fn labels_world(layer: Layer) -> bool {
    layer == Layer::Peers || layer == Layer::FloatingDamage || layer == Layer::Deployables || layer
        == Layer::BuildingCost
}

/// The labels over the world never show through an open panel or the map.
pub proof fn panels_hide_the_world_labels(
    menu: MenuState,
    settings: HudSettings,
    tutorial_shown: bool,
    i: int,
)
    requires
        menu.inventory_open || menu.crafting_open || menu.furnace_open || menu.loot_bag_open
            || menu.workbench_open || menu.world_map_open,
        0 <= i < frame_layers(menu, settings, tutorial_shown).len(),
    ensures
        !labels_world(frame_layers(menu, settings, tutorial_shown)[i]),
{
    let under = layers_under_panels(menu, settings);
    let panels = if menu.pause_options_open {
        Seq::empty()
    } else {
        layers_of_panels(settings, tutorial_shown)
    };
    let top = layers_on_top(menu, menu.pause_options_open);
    if i < under.len() {
        assert(frame_layers(menu, settings, tutorial_shown)[i] == under[i]);
        if !menu.pause_options_open {
            assert(under =~= layer_if(settings.show_hud, Layer::Hud) + layer_if(
                menu.world_map_open && settings.show_hud,
                Layer::WorldMap,
            ));
        }
    } else if i < under.len() + panels.len() {
        assert(frame_layers(menu, settings, tutorial_shown)[i] == panels[i - under.len()]);
        no_label_among_panels(settings, tutorial_shown, i - under.len());
    } else {
        assert(frame_layers(menu, settings, tutorial_shown)[i] == top[i - under.len()
            - panels.len()]);
    }
}

proof fn no_label_among_panels(settings: HudSettings, tutorial_shown: bool, i: int)
    requires
        0 <= i < layers_of_panels(settings, tutorial_shown).len(),
    ensures
        !labels_world(layers_of_panels(settings, tutorial_shown)[i]),
{
}

/// With the display switched off neither the display nor its company is drawn;
/// the chat goes by its own switch.
pub proof fn hidden_display_leaves_the_chat(
    menu: MenuState,
    settings: HudSettings,
    tutorial_shown: bool,
)
    requires
        !settings.show_hud,
        !menu.pause_options_open,
    ensures
        ({
            let layers = frame_layers(menu, settings, tutorial_shown);
            &&& !layers.contains(Layer::Hud)
            &&& !layers.contains(Layer::WorldMap)
            &&& !layers.contains(Layer::CraftingQueue)
            &&& !layers.contains(Layer::Toasts)
            &&& !layers.contains(Layer::CompletionBanner)
            &&& (layers.contains(Layer::Chat) <==> settings.show_chat)
        }),
{
    let layers = frame_layers(menu, settings, tutorial_shown);
    if settings.show_chat {
        let at: int = 6 + (if tutorial_shown {
            1int
        } else {
            0int
        });
        assert(layers[at] == Layer::Chat);
    }
}

/// A resource node near the player.
pub struct NearbyNode {
    pub definition_id: String,
    pub position: Vec3Net,
}

/// A node that hands can pick, and what it yields.
pub struct CrudeNode {
    pub position: Vec3Net,
    pub yields: String,
}

/// What a node yields to bare hands.
pub open spec fn crude_yield(nodes: Seq<ResourceNodeDefinition>, node: NearbyNode) -> Option<
    (Vec3Net, Seq<char>),
> {
    match node_of(nodes, node.definition_id@) {
        Some(definition) => if definition.required_tool == ToolKind::Hands
            && definition.storage@.len() > 0 {
            Some((node.position, definition.storage@[0]@))
        } else {
            None
        },
        None => None,
    }
}

/// What the nodes yield to bare hands, in order.
pub open spec fn crude_yields(
    nodes: Seq<ResourceNodeDefinition>,
    nearby: Seq<NearbyNode>,
) -> Seq<(Vec3Net, Seq<char>)>
    decreases nearby.len(),
{
    if nearby.len() == 0 {
        Seq::empty()
    } else {
        let rest = crude_yields(nodes, nearby.drop_last());
        match crude_yield(nodes, nearby.last()) {
            Some(found) => rest.push(found),
            None => rest,
        }
    }
}

/// The nodes as position and yield.
pub open spec fn crude_view(found: Seq<CrudeNode>) -> Seq<(Vec3Net, Seq<char>)> {
    found.map_values(|node: CrudeNode| (node.position, node.yields@))
}

/// Finds the nodes that hands can pick, with what they yield first.
pub fn nearby_crude_nodes(
    nodes: &Vec<ResourceNodeDefinition>,
    nearby: &Vec<NearbyNode>,
) -> (r: Vec<CrudeNode>)
    ensures
        crude_view(r@) == crude_yields(nodes@, nearby@),
{
    let mut found: Vec<CrudeNode> = Vec::new();
    proof {
        assert(crude_view(found@) =~= crude_yields(nodes@, nearby@.take(0)));
    }
    let mut i: usize = 0;
    while i < nearby.len()
        invariant
            i <= nearby.len(),
            crude_view(found@) == crude_yields(nodes@, nearby@.take(i as int)),
        decreases nearby.len() - i,
    {
        let ghost before = found@;
        proof {
            assert(nearby@.take(i + 1).drop_last() =~= nearby@.take(i as int));
            assert(nearby@.take(i + 1).last() == nearby@[i as int]);
        }
        if let Some(definition) = resource_node_definition(
            nodes,
            nearby[i].definition_id.as_str(),
        ) {
            let by_hand: bool = match definition.required_tool {
                ToolKind::Hands => true,
                _ => false,
            };
            if by_hand && definition.storage.len() > 0 {
                let node = CrudeNode {
                    position: nearby[i].position,
                    yields: definition.storage[0].clone(),
                };
                found.push(node);
                proof {
                    assert(crude_view(found@) =~= crude_view(before).push(
                        (node.position, node.yields@),
                    ));
                }
            }
        }
        i = i + 1;
    }
    proof {
        assert(nearby@.take(i as int) =~= nearby@);
    }
    found
}

/// A structure near the player.
pub struct PlacedStructure {
    pub item_id: String,
    pub kind: DeployableKind,
    pub position: Vec3Net,
}

/// A station as plain values.
pub open spec fn station_view(station: NearbyStation) -> (DeployableKind, Seq<char>, Vec3Net) {
    (station.kind, station.item_id@, station.position)
}

/// The structures that are crafting stations: those whose item has a radius.
pub open spec fn stations_of(
    items: Seq<ItemDefinition>,
    placed: Seq<PlacedStructure>,
) -> Seq<(DeployableKind, Seq<char>, Vec3Net)>
    decreases placed.len(),
{
    if placed.len() == 0 {
        Seq::empty()
    } else {
        let rest = stations_of(items, placed.drop_last());
        let last = placed.last();
        match item_of(items, last.item_id@) {
            Some(definition) => match definition.deployable {
                Some(profile) => if profile.station_radius > 0 {
                    rest.push((last.kind, definition.id@, last.position))
                } else {
                    rest
                },
                None => rest,
            },
            None => rest,
        }
    }
}

/// Finds the crafting stations among the structures.
pub fn collect_nearby_stations(
    items: &Vec<ItemDefinition>,
    placed: &Vec<PlacedStructure>,
) -> (r: Vec<NearbyStation>)
    ensures
        r@.map_values(|station: NearbyStation| station_view(station)) == stations_of(
            items@,
            placed@,
        ),
{
    let mut found: Vec<NearbyStation> = Vec::new();
    let ghost plain = |station: NearbyStation| station_view(station);
    proof {
        assert(found@.map_values(plain) =~= stations_of(items@, placed@.take(0)));
    }
    let mut i: usize = 0;
    while i < placed.len()
        invariant
            i <= placed.len(),
            plain == (|station: NearbyStation| station_view(station)),
            found@.map_values(plain) == stations_of(items@, placed@.take(i as int)),
        decreases placed.len() - i,
    {
        let ghost before = found@;
        proof {
            assert(placed@.take(i + 1).drop_last() =~= placed@.take(i as int));
            assert(placed@.take(i + 1).last() == placed@[i as int]);
        }
        if let Some(definition) = item_definition(items, placed[i].item_id.as_str()) {
            if let Some(profile) = &definition.deployable {
                if profile.station_radius > 0 {
                    let station = NearbyStation::new(
                        placed[i].kind,
                        definition.id.clone(),
                        placed[i].position,
                    );
                    found.push(station);
                    proof {
                        assert(found@.map_values(plain) =~= before.map_values(plain).push(
                            station_view(station),
                        ));
                    }
                }
            }
        }
        i = i + 1;
    }
    proof {
        assert(placed@.take(i as int) =~= placed@);
    }
    found
}

/// What a piece costs, and how much of it the player has.
pub struct BuildingCostReadout {
    pub required: u32,
    pub material: String,
    pub have: u32,
}

/// The label under a piece that is being placed.
pub struct CostLabel {
    pub text: String,
    pub color: Rgba,
}

/// Writes the cost under a piece: green where the player can pay, else red with
/// what there is. Without a cost there is no label.
pub fn building_cost_overlay(readout: Option<&BuildingCostReadout>) -> (r: Option<CostLabel>)
    ensures
        r is Some == (readout is Some),
        match (readout, r) {
            (Some(cost), Some(label)) => if cost.have >= cost.required {
                &&& label.text@ == digits(cost.required as nat) + " "@ + cost.material@
                &&& label.color == solid(120, 230, 130)
            } else {
                &&& label.text@ == digits(cost.required as nat) + " "@ + cost.material@
                    + " (have "@ + digits(cost.have as nat) + ")"@
                &&& label.color == solid(240, 110, 110)
            },
            _ => true,
        },
        readout is Some ==> (r->0.color == solid(120, 230, 130) <==> readout->0.have
            >= readout->0.required),
        readout is Some ==> (digits(readout->0.required as nat) + " "@
            + readout->0.material@).is_prefix_of(r->0.text@),
{
    let cost = match readout {
        Some(cost) => cost,
        None => {
            return None;
        },
    };
    let required = decimal(cost.required as u64);
    let mut text = concat3(required.as_str(), " ", cost.material.as_str());
    if cost.have >= cost.required {
        Some(CostLabel { text, color: opaque(120, 230, 130) })
    } else {
        let have = decimal(cost.have as u64);
        text.append(" (have ");
        text.append(have.as_str());
        text.append(")");
        Some(CostLabel { text, color: opaque(240, 110, 110) })
    }
}

proof fn joined_layers_hold(a: Seq<Layer>, b: Seq<Layer>, layer: Layer)
    ensures
        (a + b).contains(layer) <==> a.contains(layer) || b.contains(layer),
{
    if a.contains(layer) {
        let i = choose|i: int| 0 <= i < a.len() && a[i] == layer;
        assert((a + b)[i] == layer);
    }
    if b.contains(layer) {
        let i = choose|i: int| 0 <= i < b.len() && b[i] == layer;
        assert((a + b)[a.len() + i] == layer);
    }
    if (a + b).contains(layer) {
        let i = choose|i: int| 0 <= i < (a + b).len() && (a + b)[i] == layer;
        if i < a.len() {
            assert(a[i] == layer);
        } else {
            assert(b[i - a.len()] == layer);
        }
    }
}

proof fn conditional_layer_holds(condition: bool, layer: Layer, other: Layer)
    ensures
        layer_if(condition, layer).contains(other) <==> condition && other == layer,
{
    if condition {
        assert(layer_if(condition, layer)[0] == layer);
    }
}

/// Under the panels lie the display by its own switch, the labels of the world while
/// nothing hides it, and the open map.
pub proof fn layers_under_the_panels_are_these(
    menu: MenuState,
    settings: HudSettings,
    layer: Layer,
)
    requires
        !menu.pause_options_open,
    ensures
        layers_under_panels(menu, settings).contains(layer) <==> settings.show_hud && (layer
            == Layer::Hud || (layer == Layer::WorldMap && menu.world_map_open) || ((layer
            == Layer::Peers || layer == Layer::FloatingDamage || layer == Layer::Deployables
            || layer == Layer::BuildingCost) && !menu.inventory_open && !menu.crafting_open
            && !menu.furnace_open && !menu.loot_bag_open && !menu.workbench_open
            && !menu.world_map_open)),
{
    let labels = overlays_visible(menu) && settings.show_hud;
    let map = menu.world_map_open && settings.show_hud;
    let a = layer_if(settings.show_hud, Layer::Hud);
    let b = layer_if(labels, Layer::Peers);
    let c = layer_if(labels, Layer::FloatingDamage);
    let d = layer_if(labels, Layer::Deployables);
    let e = layer_if(labels, Layer::BuildingCost);
    let f = layer_if(map, Layer::WorldMap);
    conditional_layer_holds(settings.show_hud, Layer::Hud, layer);
    conditional_layer_holds(labels, Layer::Peers, layer);
    conditional_layer_holds(labels, Layer::FloatingDamage, layer);
    conditional_layer_holds(labels, Layer::Deployables, layer);
    conditional_layer_holds(labels, Layer::BuildingCost, layer);
    conditional_layer_holds(map, Layer::WorldMap, layer);
    joined_layers_hold(a, b, layer);
    joined_layers_hold(a + b, c, layer);
    joined_layers_hold(a + b + c, d, layer);
    joined_layers_hold(a + b + c + d, e, layer);
    joined_layers_hold(a + b + c + d + e, f, layer);
}

/// The panels, the drag, the wheel and the prompt are always among the panel layers; the
/// company of the display goes by its switch, the chat and the tutorial by their own.
pub proof fn layers_of_the_panels_are_these(
    settings: HudSettings,
    tutorial_shown: bool,
    layer: Layer,
)
    ensures
        layers_of_panels(settings, tutorial_shown).contains(layer) <==> {
            ||| layer == Layer::InventoryPanel || layer == Layer::Furnace || layer
                == Layer::Workbench || layer == Layer::LootBag
            ||| layer == Layer::DragRelease || layer == Layer::DragPreview
            ||| layer == Layer::Wheel || layer == Layer::TextPrompt
            ||| layer == Layer::Tutorial && tutorial_shown
            ||| layer == Layer::Chat && settings.show_chat
            ||| settings.show_hud && (layer == Layer::CompletionBanner || layer
                == Layer::CraftingQueue || layer == Layer::Toasts)
        },
{
    let hud = settings.show_hud;
    let a = seq![Layer::InventoryPanel];
    let b = layer_if(tutorial_shown, Layer::Tutorial);
    let c = layer_if(hud, Layer::CompletionBanner);
    let d = seq![
        Layer::Furnace,
        Layer::Workbench,
        Layer::LootBag,
        Layer::DragRelease,
        Layer::DragPreview,
    ];
    let e = layer_if(hud, Layer::CraftingQueue);
    let f = layer_if(settings.show_chat, Layer::Chat);
    let g = layer_if(hud, Layer::Toasts);
    let h = seq![Layer::Wheel, Layer::TextPrompt];
    assert(a[0] == Layer::InventoryPanel);
    assert(d[0] == Layer::Furnace);
    assert(d[1] == Layer::Workbench);
    assert(d[2] == Layer::LootBag);
    assert(d[3] == Layer::DragRelease);
    assert(d[4] == Layer::DragPreview);
    assert(h[0] == Layer::Wheel);
    assert(h[1] == Layer::TextPrompt);
    conditional_layer_holds(tutorial_shown, Layer::Tutorial, layer);
    conditional_layer_holds(hud, Layer::CompletionBanner, layer);
    conditional_layer_holds(hud, Layer::CraftingQueue, layer);
    conditional_layer_holds(settings.show_chat, Layer::Chat, layer);
    conditional_layer_holds(hud, Layer::Toasts, layer);
    joined_layers_hold(a, b, layer);
    joined_layers_hold(a + b, c, layer);
    joined_layers_hold(a + b + c, d, layer);
    joined_layers_hold(a + b + c + d, e, layer);
    joined_layers_hold(a + b + c + d + e, f, layer);
    joined_layers_hold(a + b + c + d + e + f, g, layer);
    joined_layers_hold(a + b + c + d + e + f + g, h, layer);
}

/// A frame without options draws what lies under the panels, the panels, and on top of
/// them the death screen while there is one and the pause menu while it is open.
pub proof fn frames_draw_every_part(
    menu: MenuState,
    settings: HudSettings,
    tutorial_shown: bool,
    layer: Layer,
)
    requires
        !menu.pause_options_open,
    ensures
        frame_layers(menu, settings, tutorial_shown).contains(layer) <==> {
            ||| layers_under_panels(menu, settings).contains(layer)
            ||| layers_of_panels(settings, tutorial_shown).contains(layer)
            ||| layer == Layer::DeathSplash && menu.death_splash is Some
            ||| layer == Layer::Pause && menu.pause_open
        },
{
    let under = layers_under_panels(menu, settings);
    let panels = layers_of_panels(settings, tutorial_shown);
    let dead = menu.death_splash is Some;
    joined_layers_hold(under, panels, layer);
    joined_layers_hold(under + panels, layers_on_top(menu, false), layer);
    joined_layers_hold(
        layer_if(dead, Layer::DeathSplash),
        layer_if(menu.pause_open, Layer::Pause),
        layer,
    );
    conditional_layer_holds(dead, Layer::DeathSplash, layer);
    conditional_layer_holds(menu.pause_open, Layer::Pause, layer);
}

/// The height of a layer in the stack.
pub open spec fn height_of(layer: Layer) -> int {
    match layer {
        Layer::Options => 0,
        Layer::Hud => 1,
        Layer::Peers => 2,
        Layer::FloatingDamage => 3,
        Layer::Deployables => 4,
        Layer::BuildingCost => 5,
        Layer::WorldMap => 6,
        Layer::InventoryPanel => 7,
        Layer::Tutorial => 8,
        Layer::CompletionBanner => 9,
        Layer::Furnace => 10,
        Layer::Workbench => 11,
        Layer::LootBag => 12,
        Layer::DragRelease => 13,
        Layer::DragPreview => 14,
        Layer::CraftingQueue => 15,
        Layer::Chat => 16,
        Layer::Toasts => 17,
        Layer::Wheel => 18,
        Layer::TextPrompt => 19,
        Layer::DeathSplash => 20,
        Layer::Pause => 21,
    }
}

/// The layers stand one over the other, all of them between two heights.
pub open spec fn stacked(layers: Seq<Layer>, low: int, high: int) -> bool {
    &&& forall|i: int|
        0 <= i < layers.len() ==> low <= height_of(#[trigger] layers[i]) <= high
    &&& forall|i: int, j: int|
        0 <= i < j < layers.len() ==> height_of(#[trigger] layers[i]) < height_of(
            #[trigger] layers[j],
        )
}

proof fn stacks_join(
    a: Seq<Layer>,
    b: Seq<Layer>,
    low: int,
    middle: int,
    next: int,
    high: int,
)
    requires
        stacked(a, low, middle),
        stacked(b, next, high),
        low <= middle < next <= high,
    ensures
        stacked(a + b, low, high),
{
    let all = a + b;
    assert forall|i: int| 0 <= i < all.len() implies low <= height_of(#[trigger] all[i])
        <= high by {
        if i < a.len() {
            assert(all[i] == a[i]);
        } else {
            assert(all[i] == b[i - a.len()]);
        }
    }
    assert forall|i: int, j: int| 0 <= i < j < all.len() implies height_of(#[trigger] all[i])
        < height_of(#[trigger] all[j]) by {
        if j < a.len() {
            assert(all[i] == a[i] && all[j] == a[j]);
        } else if i >= a.len() {
            assert(all[i] == b[i - a.len()] && all[j] == b[j - a.len()]);
        } else {
            assert(all[i] == a[i] && all[j] == b[j - a.len()]);
        }
    }
}

proof fn layers_under_panels_are_stacked(menu: MenuState, settings: HudSettings)
    requires
        !menu.pause_options_open,
    ensures
        stacked(layers_under_panels(menu, settings), 1, 6),
{
    let labels = overlays_visible(menu) && settings.show_hud;
    let map = menu.world_map_open && settings.show_hud;
    let a = layer_if(settings.show_hud, Layer::Hud);
    let b = layer_if(labels, Layer::Peers);
    let c = layer_if(labels, Layer::FloatingDamage);
    let d = layer_if(labels, Layer::Deployables);
    let e = layer_if(labels, Layer::BuildingCost);
    let f = layer_if(map, Layer::WorldMap);
    stacks_join(a, b, 1, 1, 2, 2);
    stacks_join(a + b, c, 1, 2, 3, 3);
    stacks_join(a + b + c, d, 1, 3, 4, 4);
    stacks_join(a + b + c + d, e, 1, 4, 5, 5);
    stacks_join(a + b + c + d + e, f, 1, 5, 6, 6);
}

proof fn layers_of_panels_are_stacked(settings: HudSettings, tutorial_shown: bool)
    ensures
        stacked(layers_of_panels(settings, tutorial_shown), 7, 19),
{
    let hud = settings.show_hud;
    let a = seq![Layer::InventoryPanel];
    let b = layer_if(tutorial_shown, Layer::Tutorial);
    let c = layer_if(hud, Layer::CompletionBanner);
    let d = seq![
        Layer::Furnace,
        Layer::Workbench,
        Layer::LootBag,
        Layer::DragRelease,
        Layer::DragPreview,
    ];
    let e = layer_if(hud, Layer::CraftingQueue);
    let f = layer_if(settings.show_chat, Layer::Chat);
    let g = layer_if(hud, Layer::Toasts);
    let h = seq![Layer::Wheel, Layer::TextPrompt];
    stacks_join(a, b, 7, 7, 8, 8);
    stacks_join(a + b, c, 7, 8, 9, 9);
    stacks_join(a + b + c, d, 7, 9, 10, 14);
    stacks_join(a + b + c + d, e, 7, 14, 15, 15);
    stacks_join(a + b + c + d + e, f, 7, 15, 16, 16);
    stacks_join(a + b + c + d + e + f, g, 7, 16, 17, 17);
    stacks_join(a + b + c + d + e + f + g, h, 7, 17, 18, 19);
}

/// The layers of a frame always stand in the same order, so that what lies over what
/// never changes, and each is drawn at most once. A released drag is handled over every
/// panel with slots.
pub proof fn layers_keep_their_order(menu: MenuState, settings: HudSettings, tutorial_shown: bool)
    ensures
        stacked(frame_layers(menu, settings, tutorial_shown), 0, 21),
{
    if menu.pause_options_open {
        options_stand_alone(menu, settings, tutorial_shown);
    } else {
        let under = layers_under_panels(menu, settings);
        let panels = layers_of_panels(settings, tutorial_shown);
        layers_under_panels_are_stacked(menu, settings);
        layers_of_panels_are_stacked(settings, tutorial_shown);
        stacks_join(under, panels, 1, 6, 7, 19);
        stacks_join(
            layer_if(menu.death_splash is Some, Layer::DeathSplash),
            layer_if(menu.pause_open, Layer::Pause),
            20,
            20,
            21,
            21,
        );
        stacks_join(under + panels, layers_on_top(menu, false), 1, 19, 20, 21);
    }
}

/// The tutorial runs exactly while it is not completed, the display is on, the world is
/// ready and nothing stops the game.
pub proof fn tutorial_runs_in_the_running_game(
    menu: MenuState,
    settings: HudSettings,
    world_ready: bool,
)
    ensures
        tutorial_runs(menu, settings, world_ready) <==> {
            &&& world_ready
            &&& settings.show_hud
            &&& !settings.onboarding_completed
            &&& !menu.pause_open
            &&& !menu.pause_options_open
            &&& menu.death_splash is None
        },
{
}

/// Hands pick exactly the nodes that ask for them and hold something, and get what the
/// node yields first, where the node stands.
pub proof fn hands_pick_what_asks_for_them(
    nodes: Seq<ResourceNodeDefinition>,
    node: NearbyNode,
    k: int,
)
    requires
        0 <= k < nodes.len(),
        nodes[k].id@ == node.definition_id@,
        forall|i: int| 0 <= i < k ==> (#[trigger] nodes[i]).id@ != node.definition_id@,
    ensures
        crude_yield(nodes, node) is Some <==> nodes[k].required_tool == ToolKind::Hands
            && nodes[k].storage@.len() > 0,
        crude_yield(nodes, node) matches Some((position, item)) ==> position == node.position
            && item == nodes[k].storage@[0]@,
{
    first_node_of_the_id_is_found(nodes, node.definition_id@, k);
}

/// One more node near the player adds what it yields behind the others, or nothing.
pub proof fn each_node_adds_its_yield(
    nodes: Seq<ResourceNodeDefinition>,
    nearby: Seq<NearbyNode>,
    next: NearbyNode,
)
    ensures
        crude_yields(nodes, Seq::empty()).len() == 0,
        crude_yield(nodes, next) is None ==> crude_yields(nodes, nearby.push(next))
            == crude_yields(nodes, nearby),
        crude_yield(nodes, next) matches Some(found) ==> crude_yields(nodes, nearby.push(next))
            == crude_yields(nodes, nearby).push(found),
{
    assert(nearby.push(next).drop_last() =~= nearby);
}

/// One more structure near the player is a station exactly where its item has a radius,
/// and then stands behind the others with its own kind and place.
pub proof fn each_structure_with_a_radius_is_a_station(
    items: Seq<ItemDefinition>,
    placed: Seq<PlacedStructure>,
    next: PlacedStructure,
    k: int,
)
    requires
        0 <= k < items.len(),
        items[k].id@ == next.item_id@,
        forall|i: int| 0 <= i < k ==> (#[trigger] items[i]).id@ != next.item_id@,
    ensures
        stations_of(items, Seq::empty()).len() == 0,
        items[k].deployable is Some && items[k].deployable->0.station_radius > 0 ==> stations_of(
            items,
            placed.push(next),
        ) == stations_of(items, placed).push((next.kind, next.item_id@, next.position)),
        items[k].deployable is None || items[k].deployable->0.station_radius == 0 ==> stations_of(
            items,
            placed.push(next),
        ) == stations_of(items, placed),
{
    first_row_of_the_id_is_found(items, next.item_id@, k);
    assert(placed.push(next).drop_last() =~= placed);
}

/// What is found near the player reads as it is: a node as its place and its yield, a
/// station as its kind, its item and its place.
pub proof fn nearby_things_read_as_they_are(
    found: Seq<CrudeNode>,
    station: NearbyStation,
    i: int,
)
    requires
        0 <= i < found.len(),
    ensures
        crude_view(found).len() == found.len(),
        crude_view(found)[i].0 == found[i].position,
        crude_view(found)[i].1 == found[i].yields@,
        station_view(station).0 == station.kind,
        station_view(station).1 == station.item_id@,
        station_view(station).2 == station.position,
{
}

} // verus!
