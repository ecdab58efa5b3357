//! The hint about what lies under the crosshair.
use vstd::prelude::*;
use crate::items::{DeployableKind, ItemDefinition, ItemStack, ToolKind, display_name, name_of};
use crate::menu::MenuState;
use crate::text::{concat2, concat3, decimal, digits, same_text};

verus! {

/// One row of the resource node registry.
pub struct ResourceNodeDefinition {
    pub id: String,
    pub name: String,
    pub required_tool: ToolKind,
    /// How the requirement reads.
    pub required_label: String,
    /// The items that the node yields.
    pub storage: Vec<String>,
}

/// The node definition with the given id; the first of them where several have
/// it.
pub open spec fn node_of(nodes: Seq<ResourceNodeDefinition>, id: Seq<char>) -> Option<
    ResourceNodeDefinition,
>
    decreases nodes.len(),
{
    if nodes.len() == 0 {
        None
    } else if nodes[0].id@ == id {
        Some(nodes[0])
    } else {
        node_of(nodes.drop_first(), id)
    }
}

/// Looks a node definition up.
pub fn resource_node_definition<'a>(nodes: &'a Vec<ResourceNodeDefinition>, id: &str) -> (r: Option<
    &'a ResourceNodeDefinition,
>)
    ensures
        r is Some <==> node_of(nodes@, id@) is Some,
        r is Some ==> *r->0 == node_of(nodes@, id@)->0,
{
    let mut i: usize = 0;
    proof {
        assert(nodes@.skip(0) =~= nodes@);
    }
    while i < nodes.len()
        invariant
            i <= nodes.len(),
            node_of(nodes@, id@) == node_of(nodes@.skip(i as int), id@),
        decreases nodes.len() - i,
    {
        proof {
            assert(nodes@.skip(i as int)[0] == nodes@[i as int]);
            assert(nodes@.skip(i as int).drop_first() =~= nodes@.skip(i + 1));
        }
        if same_text(nodes[i].id.as_str(), id) {
            return Some(&nodes[i]);
        }
        i = i + 1;
    }
    None
}

/// Whether the player is on a tool cupboard's list.
#[derive(Clone, Copy, Debug, PartialEq, Eq, Structural)]
pub enum CupboardAuthState {
    Authorized,
    Unauthorized,
}

/// The names that a structure's hint is made of: the piece, door, box or
/// explosive, and the building tier.
pub struct KindLabels {
    pub name: String,
    pub tier: String,
}

/// A body that sleeps. Health is in thousandths of a point.
pub struct SleepingPlayer {
    pub name: String,
    pub health: i64,
}

/// What lies under the crosshair.
pub struct PickupTargetState {
    pub stack: Option<ItemStack>,
    pub sleeping_player: Option<SleepingPlayer>,
    pub deployable_kind: Option<DeployableKind>,
    pub deployable_labels: KindLabels,
    pub deployable_stability: Option<u8>,
    pub deployable_cupboard_auth: Option<CupboardAuthState>,
    pub loot_bag_id: Option<u64>,
    pub resource_definition_id: Option<String>,
    /// Whether the target is on screen.
    pub on_screen: bool,
}

/// Health as whole points: the nearest, the upper of two equally near, and
/// never below zero.
pub open spec fn shown_health(health: i64) -> nat {
    if health < 0 {
        0
    } else {
        ((health + 500) / 1000) as nat
    }
}

/// The hint of a structure.
pub open spec fn deployable_hint(
    kind: DeployableKind,
    labels: KindLabels,
    stability: Option<u8>,
    auth: Option<CupboardAuthState>,
) -> (Seq<char>, Seq<char>) {
    match kind {
        DeployableKind::Furnace { tier } => (
            "Furnace T"@ + digits(tier as nat),
            "Press E to open\nLoad fuel + smeltable ore"@,
        ),
        DeployableKind::Workbench { tier } => (
            "Workbench lvl "@ + digits(tier as nat),
            "Crafting station. Tier-1 recipes unlock while you're in range."@,
        ),
        DeployableKind::Building => (
            labels.name@ + " ("@ + labels.tier@ + ")"@,
            match stability {
                Some(pct) => "Stability: "@ + digits(pct as nat) + "%\n"@,
                None => Seq::empty(),
            } + "Repair with a hammer swing\nHold right click with a hammer for options"@,
        ),
        DeployableKind::Door => (
            labels.name@,
            "Press E to open or close\nHold E to pick up\nHold right click to change the code"@,
        ),
        DeployableKind::SleepingBag => (
            "Sleeping Bag"@,
            "Press E to pick up\nHold E to rename"@,
        ),
        DeployableKind::StorageBox => (labels.name@, "Press E to open"@),
        DeployableKind::RuinCache => (
            "Salvage Chest"@,
            "Press E to loot\nSalvaged fittings and supplies. Restocks over time."@,
        ),
        DeployableKind::Torch => ("Torch"@, "Burns for hours to light the area."@),
        DeployableKind::ToolCupboard => (
            "Tool Cupboard"@,
            if auth == Some(CupboardAuthState::Authorized) {
                "You are authorized here\nPress E to remove yourself\nHold E for options"@
            } else {
                "You are not authorized here\nPress E to authorize yourself\nHold E for options"@
            },
        ),
        DeployableKind::Explosive => (
            labels.name@,
            "Armed and ticking\nHold E to defuse it (recover half the materials)\nOr hit it to fizzle it, no refund"@,
        ),
    }
}

/// Writes the hint of a structure.
pub fn deployable_tooltip_text(
    kind: DeployableKind,
    labels: &KindLabels,
    stability: Option<u8>,
    cupboard_auth: Option<CupboardAuthState>,
) -> (r: (String, String))
    ensures
        (r.0@, r.1@) == deployable_hint(kind, *labels, stability, cupboard_auth),
{
    match kind {
        DeployableKind::Furnace { tier } => {
            let tier_text = decimal(tier as u64);
            (
                concat2("Furnace T", tier_text.as_str()),
                "Press E to open\nLoad fuel + smeltable ore".to_owned(),
            )
        },
        DeployableKind::Workbench { tier } => {
            let tier_text = decimal(tier as u64);
            (
                concat2("Workbench lvl ", tier_text.as_str()),
                "Crafting station. Tier-1 recipes unlock while you're in range.".to_owned(),
            )
        },
        DeployableKind::Building => {
            let mut title = concat3(labels.name.as_str(), " (", labels.tier.as_str());
            title.append(")");
            let mut body: String = match stability {
                Some(pct) => {
                    let number = decimal(pct as u64);
                    concat3("Stability: ", number.as_str(), "%\n")
                },
                None => String::new(),
            };
            body.append(
                "Repair with a hammer swing\nHold right click with a hammer for options",
            );
            (title, body)
        },
        DeployableKind::Door => (
            labels.name.clone(),
            "Press E to open or close\nHold E to pick up\nHold right click to change the code".to_owned(),
        ),
        DeployableKind::SleepingBag => (
            "Sleeping Bag".to_owned(),
            "Press E to pick up\nHold E to rename".to_owned(),
        ),
        DeployableKind::StorageBox => (labels.name.clone(), "Press E to open".to_owned()),
        DeployableKind::RuinCache => (
            "Salvage Chest".to_owned(),
            "Press E to loot\nSalvaged fittings and supplies. Restocks over time.".to_owned(),
        ),
        DeployableKind::Torch => (
            "Torch".to_owned(),
            "Burns for hours to light the area.".to_owned(),
        ),
        DeployableKind::ToolCupboard => {
            let body: String = match cupboard_auth {
                Some(CupboardAuthState::Authorized) => {
                    "You are authorized here\nPress E to remove yourself\nHold E for options".to_owned()
                },
                _ => {
                    "You are not authorized here\nPress E to authorize yourself\nHold E for options".to_owned()
                },
            };
            ("Tool Cupboard".to_owned(), body)
        },
        DeployableKind::Explosive => (
            labels.name.clone(),
            "Armed and ticking\nHold E to defuse it (recover half the materials)\nOr hit it to fizzle it, no refund".to_owned(),
        ),
    }
}

/// The hint of a target: an item before a sleeping body, a body before a
/// structure, a structure before a bag, a bag before a resource node. Building
/// blocks hint at something only with the hammer in hand.
pub open spec fn target_hint(
    items: Seq<ItemDefinition>,
    nodes: Seq<ResourceNodeDefinition>,
    target: PickupTargetState,
    hammer_equipped: bool,
) -> Option<(Seq<char>, Seq<char>)> {
    if target.stack is Some {
        Some((name_of(items, target.stack->0.item_id@), "Press E to pick up"@))
    } else if target.sleeping_player is Some {
        let body = target.sleeping_player->0;
        Some(
            (
                body.name@,
                "Sleeping\n"@ + digits(shown_health(body.health)) + " HP\nPress E to loot"@,
            ),
        )
    } else if target.deployable_kind is Some {
        if target.deployable_kind->0 == DeployableKind::Building && !hammer_equipped {
            None
        } else {
            Some(
                deployable_hint(
                    target.deployable_kind->0,
                    target.deployable_labels,
                    target.deployable_stability,
                    target.deployable_cupboard_auth,
                ),
            )
        }
    } else if target.loot_bag_id is Some {
        Some(
            (
                "Loot bag"@,
                "Press E to open\nDrag items between the bag and your inventory."@,
            ),
        )
    } else {
        match target.resource_definition_id {
            Some(id) => match node_of(nodes, id@) {
                Some(definition) => Some(
                    (
                        definition.name@,
                        if definition.required_tool == ToolKind::Hands {
                            "Press E to pick up"@
                        } else {
                            "Hold Left Mouse to gather\nRequires: "@ + definition.required_label@
                        },
                    ),
                ),
                None => None,
            },
            None => None,
        }
    }
}

/// What two optional texts hold.
pub open spec fn hint_text(hint: Option<(String, String)>) -> Option<(Seq<char>, Seq<char>)> {
    match hint {
        Some((title, body)) => Some((title@, body@)),
        None => None,
    }
}

/// Writes the hint of a target.
pub fn pickup_tooltip_text(
    items: &Vec<ItemDefinition>,
    nodes: &Vec<ResourceNodeDefinition>,
    target: &PickupTargetState,
    hammer_equipped: bool,
) -> (r: Option<(String, String)>)
    ensures
        hint_text(r) == target_hint(items@, nodes@, *target, hammer_equipped),
{
    if let Some(stack) = &target.stack {
        return Some(
            (display_name(items, stack.item_id.as_str()), "Press E to pick up".to_owned()),
        );
    }
    if let Some(body) = &target.sleeping_player {
        let points: u64 = if body.health < 0 {
            0
        } else {
            ((body.health as u64) + 500) / 1000
        };
        let shown = decimal(points);
        return Some(
            (body.name.clone(), concat3("Sleeping\n", shown.as_str(), " HP\nPress E to loot")),
        );
    }
    if let Some(kind) = target.deployable_kind {
        if kind == DeployableKind::Building && !hammer_equipped {
            return None;
        }
        return Some(
            deployable_tooltip_text(
                kind,
                &target.deployable_labels,
                target.deployable_stability,
                target.deployable_cupboard_auth,
            ),
        );
    }
    if target.loot_bag_id.is_some() {
        return Some(
            (
                "Loot bag".to_owned(),
                "Press E to open\nDrag items between the bag and your inventory.".to_owned(),
            ),
        );
    }
    match &target.resource_definition_id {
        Some(id) => match resource_node_definition(nodes, id.as_str()) {
            Some(definition) => {
                let body: String = if definition.required_tool == ToolKind::Hands {
                    "Press E to pick up".to_owned()
                } else {
                    concat2(
                        "Hold Left Mouse to gather\nRequires: ",
                        definition.required_label.as_str(),
                    )
                };
                Some((definition.name.clone(), body))
            },
            None => None,
        },
        None => None,
    }
}

/// Decides whether the hint is shown, and what it says: nothing while a panel
/// covers the world, and nothing for a target that is not on screen.
pub fn pickup_tooltip(
    items: &Vec<ItemDefinition>,
    nodes: &Vec<ResourceNodeDefinition>,
    menu: &MenuState,
    target: &PickupTargetState,
    hammer_equipped: bool,
) -> (r: Option<(String, String)>)
    ensures
        hint_text(r) == if menu.covers_world() || !target.on_screen {
            None
        } else {
            target_hint(items@, nodes@, *target, hammer_equipped)
        },
{
    if menu.world_covered() {
        return None;
    }
    if !target.on_screen {
        return None;
    }
    pickup_tooltip_text(items, nodes, target, hammer_equipped)
}

/// A building block without the hammer in hand is never hinted at, whatever
/// else is known of it.
pub proof fn building_blocks_need_the_hammer(
    items: Seq<ItemDefinition>,
    nodes: Seq<ResourceNodeDefinition>,
    target: PickupTargetState,
)
    requires
        target.stack is None,
        target.sleeping_player is None,
        target.deployable_kind == Some(DeployableKind::Building),
    ensures
        target_hint(items, nodes, target, false) is None,
        target_hint(items, nodes, target, true) is Some,
{
}

/// The first definition of an id is the one that counts.
pub proof fn first_node_of_the_id_is_found(
    nodes: Seq<ResourceNodeDefinition>,
    id: Seq<char>,
    k: int,
)
    requires
        0 <= k < nodes.len(),
        nodes[k].id@ == id,
        forall|i: int| 0 <= i < k ==> (#[trigger] nodes[i]).id@ != id,
    ensures
        node_of(nodes, id) == Some(nodes[k]),
    decreases k,
{
    if k > 0 {
        assert(nodes[0].id@ != id);
        let rest = nodes.drop_first();
        assert(rest[k - 1] == nodes[k]);
        assert forall|i: int| 0 <= i < k - 1 implies (#[trigger] rest[i]).id@ != id by {
            assert(rest[i] == nodes[i + 1]);
        }
        first_node_of_the_id_is_found(rest, id, k - 1);
    }
}

/// The shown points lie at most half a point off, halves go up, and what is below zero
/// counts as zero.
pub proof fn shown_health_is_the_nearest(health: i64)
    ensures
        health >= 0 ==> -500 < 1000 * shown_health(health) - health <= 500,
        health <= 0 ==> shown_health(health) == 0,
{
}

/// What lies in front is hinted at alone: an item hides everything else, a sleeping body
/// everything but an item, a structure the bag and the node, and a bag the node.
pub proof fn front_target_hides_the_others(
    items: Seq<ItemDefinition>,
    nodes: Seq<ResourceNodeDefinition>,
    a: PickupTargetState,
    b: PickupTargetState,
    hammer: bool,
)
    requires
        a.stack == b.stack,
    ensures
        a.stack matches Some(stack) ==> target_hint(items, nodes, a, hammer) == Some(
            (name_of(items, stack.item_id@), "Press E to pick up"@),
        ),
        a.stack is None && a.sleeping_player is Some && a.sleeping_player == b.sleeping_player
            ==> target_hint(items, nodes, a, hammer) == target_hint(items, nodes, b, !hammer),
        a.stack is None && a.sleeping_player is Some ==> (target_hint(
            items,
            nodes,
            a,
            hammer,
        ) matches Some((title, _)) && title == a.sleeping_player->0.name@),
        a.stack is None && a.sleeping_player is None && a.deployable_kind is Some
            && a.deployable_kind->0 != DeployableKind::Building ==> target_hint(
            items,
            nodes,
            a,
            hammer,
        ) == Some(
            deployable_hint(
                a.deployable_kind->0,
                a.deployable_labels,
                a.deployable_stability,
                a.deployable_cupboard_auth,
            ),
        ),
        a.stack is None && a.sleeping_player is None && a.deployable_kind is None
            && a.loot_bag_id is Some ==> (target_hint(items, nodes, a, hammer) matches Some(
            (title, _),
        ) && title == "Loot bag"@),
        a.stack is None && a.sleeping_player is None && a.deployable_kind is None
            && a.loot_bag_id is None && a.resource_definition_id is None ==> target_hint(
            items,
            nodes,
            a,
            hammer,
        ) is None,
{
}

/// A resource node is hinted at by its name; what is taken by hand by the key, and
/// everything else by the tool that it needs.
pub proof fn nodes_name_the_tool_they_need(
    items: Seq<ItemDefinition>,
    nodes: Seq<ResourceNodeDefinition>,
    target: PickupTargetState,
    hammer: bool,
    k: int,
)
    requires
        target.stack is None,
        target.sleeping_player is None,
        target.deployable_kind is None,
        target.loot_bag_id is None,
        target.resource_definition_id is Some,
        0 <= k < nodes.len(),
        nodes[k].id@ == target.resource_definition_id->0@,
        forall|i: int|
            0 <= i < k ==> (#[trigger] nodes[i]).id@ != target.resource_definition_id->0@,
    ensures
        target_hint(items, nodes, target, hammer) == Some(
            (
                nodes[k].name@,
                if nodes[k].required_tool == ToolKind::Hands {
                    "Press E to pick up"@
                } else {
                    "Hold Left Mouse to gather\nRequires: "@ + nodes[k].required_label@
                },
            ),
        ),
{
    first_node_of_the_id_is_found(nodes, target.resource_definition_id->0@, k);
}

/// A body is hinted at with its health, and a cupboard tells whether the player is on
/// its list; a building block tells its stability where that is known.
pub proof fn hints_tell_the_state_of_the_target(
    labels: KindLabels,
    stability: Option<u8>,
    auth: Option<CupboardAuthState>,
    tier: u8,
)
    ensures
        deployable_hint(DeployableKind::Furnace { tier }, labels, stability, auth).0
            == "Furnace T"@ + digits(tier as nat),
        deployable_hint(DeployableKind::Workbench { tier }, labels, stability, auth).0
            == "Workbench lvl "@ + digits(tier as nat),
        deployable_hint(DeployableKind::Door, labels, stability, auth).0 == labels.name@,
        deployable_hint(DeployableKind::StorageBox, labels, stability, auth).0 == labels.name@,
        deployable_hint(DeployableKind::Explosive, labels, stability, auth).0 == labels.name@,
        deployable_hint(DeployableKind::Building, labels, stability, auth).0 == labels.name@
            + " ("@ + labels.tier@ + ")"@,
        stability matches Some(pct) ==> deployable_hint(
            DeployableKind::Building,
            labels,
            stability,
            auth,
        ).1 == "Stability: "@ + digits(pct as nat) + "%\n"@ + deployable_hint(
            DeployableKind::Building,
            labels,
            None,
            auth,
        ).1,
        deployable_hint(DeployableKind::ToolCupboard, labels, stability, auth).1 == deployable_hint(
            DeployableKind::ToolCupboard,
            labels,
            None,
            Some(CupboardAuthState::Authorized),
        ).1 || auth != Some(CupboardAuthState::Authorized),
        deployable_hint(
            DeployableKind::ToolCupboard,
            labels,
            stability,
            Some(CupboardAuthState::Authorized),
        ).1 == "You are authorized here\nPress E to remove yourself\nHold E for options"@,
        auth != Some(CupboardAuthState::Authorized) ==> deployable_hint(
            DeployableKind::ToolCupboard,
            labels,
            stability,
            auth,
        ).1 == "You are not authorized here\nPress E to authorize yourself\nHold E for options"@,
{
    assert(Seq::<char>::empty()
        + "Repair with a hammer swing\nHold right click with a hammer for options"@
        =~= "Repair with a hammer swing\nHold right click with a hammer for options"@);
}

} // verus!
