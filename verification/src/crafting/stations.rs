//! Which crafting stations stand near enough.
use vstd::prelude::*;
use crate::crafting::recipes::RecipeStation;
use crate::items::{
    DeployableKind, ItemDefinition, Vec3Net, item_definition, item_of, within_range,
};

verus! {

/// Whether a structure of the given kind fulfils a station requirement.
pub open spec fn kind_satisfies(station: RecipeStation, kind: DeployableKind) -> bool {
    match station {
        RecipeStation::Hand => true,
        RecipeStation::Workbench { min_tier } => match kind {
            DeployableKind::Workbench { tier } => tier >= min_tier,
            _ => false,
        },
    }
}

impl RecipeStation {
    /// Whether a structure of the given kind fulfils the requirement: a
    /// workbench does for its own tier and every lower one.
    pub fn satisfied_by(self, kind: DeployableKind) -> (r: bool)
        ensures
            r == kind_satisfies(self, kind),
    {
        match self {
            RecipeStation::Hand => true,
            RecipeStation::Workbench { min_tier } => match kind {
                DeployableKind::Workbench { tier } => tier >= min_tier,
                _ => false,
            },
        }
    }
}

/// A placed structure that may serve as a crafting station.
pub struct NearbyStation {
    pub kind: DeployableKind,
    pub item_id: String,
    pub position: Vec3Net,
}

impl NearbyStation {
    /// A structure of the given kind, made from the given item, at a position.
    pub fn new(kind: DeployableKind, item_id: String, position: Vec3Net) -> (r: Self)
        ensures
            r.kind == kind,
            r.item_id == item_id,
            r.position == position,
    {
        NearbyStation { kind, item_id, position }
    }
}

/// Whether one structure fulfils the requirement for a player standing at
/// `player`: it has to be of the right kind, and the player within the reach
/// that its registry entry gives it.
pub open spec fn serves(
    items: Seq<ItemDefinition>,
    station: RecipeStation,
    player: Vec3Net,
    entry: NearbyStation,
) -> bool {
    &&& kind_satisfies(station, entry.kind)
    &&& match item_of(items, entry.item_id@) {
        Some(definition) => match definition.deployable {
            Some(profile) => within_range(
                player,
                entry.position,
                profile.station_radius as int,
            ),
            None => false,
        },
        None => false,
    }
}

/// Whether the requirement is fulfilled at `player` by any of the structures.
/// Recipes made by hand need none.
pub open spec fn satisfied_at(
    items: Seq<ItemDefinition>,
    station: RecipeStation,
    player: Vec3Net,
    stations: Seq<NearbyStation>,
) -> bool {
    station == RecipeStation::Hand || exists|i: int|
        0 <= i < stations.len() && serves(items, station, player, #[trigger] stations[i])
}

/// Whether the requirement is fulfilled for a player standing at `player_pos`.
pub fn station_satisfied(
    items: &Vec<ItemDefinition>,
    station: RecipeStation,
    player_pos: Vec3Net,
    stations: &Vec<NearbyStation>,
) -> (r: bool)
    ensures
        r == satisfied_at(items@, station, player_pos, stations@),
{
    if station == RecipeStation::Hand {
        return true;
    }
    let mut i: usize = 0;
    while i < stations.len()
        invariant
            i <= stations.len(),
            forall|k: int|
                0 <= k < i ==> !serves(items@, station, player_pos, #[trigger] stations@[k]),
        decreases stations.len() - i,
    {
        let entry = &stations[i];
        if station.satisfied_by(entry.kind) {
            if let Some(definition) = item_definition(items, entry.item_id.as_str()) {
                if let Some(profile) = &definition.deployable {
                    if player_pos.within_horizontal_range(entry.position, profile.station_radius) {
                        proof {
                            assert(serves(items@, station, player_pos, stations@[i as int]));
                        }
                        return true;
                    }
                }
            }
        }
        i = i + 1;
    }
    false
}

/// The stations that the local player may reach. The position is unknown until
/// the first prediction.
pub struct StationContext {
    pub player_pos: Option<Vec3Net>,
    pub stations: Vec<NearbyStation>,
}

impl StationContext {
    /// Whether a requirement is fulfilled right now; without a known position
    /// only recipes made by hand are.
    pub open spec fn meets(self, items: Seq<ItemDefinition>, station: RecipeStation) -> bool {
        match self.player_pos {
            Some(player) => satisfied_at(items, station, player, self.stations@),
            None => station == RecipeStation::Hand,
        }
    }

    /// Collects what the requirements are checked against.
    pub fn new(player_pos: Option<Vec3Net>, stations: Vec<NearbyStation>) -> (r: Self)
        ensures
            r.player_pos == player_pos,
            r.stations == stations,
    {
        StationContext { player_pos, stations }
    }

    /// Whether a requirement is fulfilled right now.
    pub fn met(&self, items: &Vec<ItemDefinition>, station: RecipeStation) -> (r: bool)
        ensures
            r == self.meets(items@, station),
    {
        if station == RecipeStation::Hand {
            return true;
        }
        match self.player_pos {
            None => false,
            Some(player) => station_satisfied(items, station, player, &self.stations),
        }
    }
}

/// A bench that serves a tier serves every lower tier: what is met for a
/// requirement stays met for a weaker one.
pub proof fn higher_tiers_serve_lower_requirements(
    items: Seq<ItemDefinition>,
    context: StationContext,
    high: u8,
    low: u8,
)
    requires
        low <= high,
        context.meets(items, RecipeStation::Workbench { min_tier: high }),
    ensures
        context.meets(items, RecipeStation::Workbench { min_tier: low }),
{
    let player = context.player_pos->0;
    let strong = RecipeStation::Workbench { min_tier: high };
    let i = choose|i: int|
        0 <= i < context.stations@.len() && serves(
            items,
            strong,
            player,
            #[trigger] context.stations@[i],
        );
    assert(serves(
        items,
        RecipeStation::Workbench { min_tier: low },
        player,
        context.stations@[i],
    ));
}

/// Height never matters: moving a structure or the player up or down changes
/// nothing.
pub proof fn height_never_matters(a: Vec3Net, b: Vec3Net, y: i32, range: int)
    ensures
        within_range(a, b, range) == within_range(a, Vec3Net { x: b.x, y, z: b.z }, range),
        within_range(a, b, range) == within_range(Vec3Net { x: a.x, y, z: a.z }, b, range),
{
}

/// Only a workbench serves recipes that need one, and only from the asked tier up;
/// anything serves what is made by hand.
pub proof fn benches_serve_their_tier(kind: DeployableKind, min_tier: u8)
    ensures
        kind_satisfies(RecipeStation::Hand, kind),
        kind_satisfies(RecipeStation::Workbench { min_tier }, kind) <==> (
        kind matches DeployableKind::Workbench { tier } && min_tier <= tier),
{
}

/// A requirement is met wherever one structure of the right kind stands within the reach
/// that its item gives it, be it any of them.
pub proof fn one_bench_in_reach_is_enough(
    items: Seq<ItemDefinition>,
    min_tier: u8,
    context: StationContext,
    k: int,
)
    requires
        0 <= k < context.stations@.len(),
        context.stations@[k].kind matches DeployableKind::Workbench { tier } && tier >= min_tier,
        context.player_pos is Some,
        item_of(items, context.stations@[k].item_id@) is Some,
        item_of(items, context.stations@[k].item_id@)->0.deployable is Some,
        within_range(
            context.player_pos->0,
            context.stations@[k].position,
            item_of(
                items,
                context.stations@[k].item_id@,
            )->0.deployable->0.station_radius as int,
        ),
    ensures
        context.meets(items, RecipeStation::Workbench { min_tier }),
{
    assert(serves(
        items,
        RecipeStation::Workbench { min_tier },
        context.player_pos->0,
        context.stations@[k],
    ));
}

/// A bench requirement is met only at a known place and by a bench of the tier in reach.
pub proof fn met_requirement_has_its_bench(
    items: Seq<ItemDefinition>,
    min_tier: u8,
    context: StationContext,
)
    requires
        context.meets(items, RecipeStation::Workbench { min_tier }),
    ensures
        context.player_pos is Some,
        exists|k: int|
            0 <= k < context.stations@.len() && ((
            #[trigger] context.stations@[k]).kind matches DeployableKind::Workbench { tier }
                && tier >= min_tier) && item_of(
                items,
                context.stations@[k].item_id@,
            ) is Some && item_of(items, context.stations@[k].item_id@)->0.deployable is Some
                && within_range(
                context.player_pos->0,
                context.stations@[k].position,
                item_of(
                    items,
                    context.stations@[k].item_id@,
                )->0.deployable->0.station_radius as int,
            ),
{
    let station = RecipeStation::Workbench { min_tier };
    let k = choose|k: int|
        0 <= k < context.stations@.len() && serves(
            items,
            station,
            context.player_pos->0,
            #[trigger] context.stations@[k],
        );
    assert(serves(items, station, context.player_pos->0, context.stations@[k]));
}

/// What is made by hand needs nothing, not even a known place.
pub proof fn hands_are_always_at_hand(items: Seq<ItemDefinition>, context: StationContext)
    ensures
        context.meets(items, RecipeStation::Hand),
{
}

} // verus!
