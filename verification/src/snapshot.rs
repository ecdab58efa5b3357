//! The picture of the world that a frame works with, put together from what the
//! server replicates.
use vstd::prelude::*;
use crate::crafting::queue::CraftingJob;
use crate::items::{DeployableKind, ItemStack, PlayerInventoryState, Vec3Net};

verus! {

/// What everyone is told of a player. Lengths are in millimetres, speeds in
/// millimetres per second, angles in thousandths of a radian.
pub struct PlayerPublic {
    pub client_id: u64,
    pub steam_id: u64,
    pub name: String,
    pub position: Vec3Net,
    pub velocity: Vec3Net,
    pub yaw: i32,
    pub pitch: i32,
    pub health: u32,
    pub grounded: bool,
    pub is_admin: bool,
    pub chat_bubble: Option<String>,
}

/// What only a player is told of themselves.
pub struct PlayerPrivate {
    pub last_processed_input: u32,
    pub inventory: PlayerInventoryState,
    pub crafting: Vec<CraftingJob>,
    /// The furnace whose panel is open.
    pub open_furnace: Option<u64>,
}

/// A replicated player.
pub struct PlayerRow {
    pub public: PlayerPublic,
    pub private: Option<PlayerPrivate>,
}

/// A player in the picture.
pub struct PlayerState {
    pub public: PlayerPublic,
    pub last_processed_input: u32,
    pub inventory: Option<PlayerInventoryState>,
    pub crafting: Option<Vec<CraftingJob>>,
    pub open_furnace: Option<u64>,
}

/// The player of a row. Without the private part there is no input to answer for,
/// nothing carried and nothing open.
pub open spec fn player_of(row: PlayerRow) -> PlayerState {
    match row.private {
        Some(private) => PlayerState {
            public: row.public,
            last_processed_input: private.last_processed_input,
            inventory: Some(private.inventory),
            crafting: Some(private.crafting),
            open_furnace: private.open_furnace,
        },
        None => PlayerState {
            public: row.public,
            last_processed_input: 0,
            inventory: None,
            crafting: None,
            open_furnace: None,
        },
    }
}

/// Takes the player of a row.
pub fn player_state(row: PlayerRow) -> (r: PlayerState)
    ensures
        r == player_of(row),
{
    match row.private {
        Some(private) => PlayerState {
            public: row.public,
            last_processed_input: private.last_processed_input,
            inventory: Some(private.inventory),
            crafting: Some(private.crafting),
            open_furnace: private.open_furnace,
        },
        None => PlayerState {
            public: row.public,
            last_processed_input: 0,
            inventory: None,
            crafting: None,
            open_furnace: None,
        },
    }
}

/// A stack on the ground. The rotation is a quaternion in millionths.
pub struct DroppedWorldItem {
    pub id: u64,
    pub stack: ItemStack,
    pub position: Vec3Net,
    pub yaw: i32,
    pub rotation: [i32; 4],
}

/// A replicated resource node.
pub struct NodeRow {
    pub id: u64,
    pub definition_id: String,
    pub position: Vec3Net,
    pub yaw: i32,
    pub storage: Vec<ItemStack>,
}

/// A resource node in the picture.
pub struct ResourceNodeState {
    pub id: u64,
    pub definition_id: String,
    pub position: Vec3Net,
    pub yaw: i32,
    pub storage: Vec<ItemStack>,
    pub respawn_progress: Option<u32>,
}

/// The node of a row: replicated nodes are never about to grow back.
pub open spec fn node_of(row: NodeRow) -> ResourceNodeState {
    ResourceNodeState {
        id: row.id,
        definition_id: row.definition_id,
        position: row.position,
        yaw: row.yaw,
        storage: row.storage,
        respawn_progress: None,
    }
}

/// A placed structure.
pub struct DeployedEntityState {
    pub id: u64,
    pub item_id: String,
    pub kind: DeployableKind,
    pub position: Vec3Net,
    pub yaw: i32,
    pub health: u32,
    pub max_health: u32,
    pub active: bool,
}

/// The picture of the world.
pub struct WorldSnapshot {
    pub tick: u64,
    pub players: Vec<PlayerState>,
    pub dropped_items: Vec<DroppedWorldItem>,
    pub resource_nodes: Vec<ResourceNodeState>,
    pub deployed_entities: Vec<DeployedEntityState>,
}

/// What is replicated in a frame.
pub struct Replicated {
    pub players: Vec<PlayerRow>,
    pub dropped_items: Vec<DroppedWorldItem>,
    pub resource_nodes: Vec<NodeRow>,
    pub deployed_entities: Vec<DeployedEntityState>,
}

fn player_states(rows: Vec<PlayerRow>) -> (r: Vec<PlayerState>)
    ensures
        r@ == rows@.map_values(|row: PlayerRow| player_of(row)),
{
    let mut players: Vec<PlayerState> = Vec::new();
    let ghost all = rows@;
    for row in iter: rows
        invariant
            iter.seq() == all,
            players@ == all.take(iter.index()).map_values(|row: PlayerRow| player_of(row)),
    {
        players.push(player_state(row));
        proof {
            assert(players@ =~= all.take(iter.index() + 1).map_values(
                |row: PlayerRow| player_of(row),
            ));
        }
    }
    proof {
        assert(all.take(all.len() as int) =~= all);
    }
    players
}

fn node_states(rows: Vec<NodeRow>) -> (r: Vec<ResourceNodeState>)
    ensures
        r@ == rows@.map_values(|row: NodeRow| node_of(row)),
{
    let mut nodes: Vec<ResourceNodeState> = Vec::new();
    let ghost all = rows@;
    for row in iter: rows
        invariant
            iter.seq() == all,
            nodes@ == all.take(iter.index()).map_values(|row: NodeRow| node_of(row)),
    {
        nodes.push(
            ResourceNodeState {
                id: row.id,
                definition_id: row.definition_id,
                position: row.position,
                yaw: row.yaw,
                storage: row.storage,
                respawn_progress: None,
            },
        );
        proof {
            assert(nodes@ =~= all.take(iter.index() + 1).map_values(|row: NodeRow| node_of(row)));
        }
    }
    proof {
        assert(all.take(all.len() as int) =~= all);
    }
    nodes
}

/// Puts the picture of a frame together, with the next number, which is never that
/// of the picture before. Between sessions there is none, and no number is used up.
pub fn synthesize_snapshot(in_session: bool, tick: &mut u64, replicated: Replicated) -> (r:
    Option<WorldSnapshot>)
    ensures
        r is Some == in_session,
        *final(tick) == if in_session {
            (*old(tick) + 1) % 0x1_0000_0000_0000_0000
        } else {
            *old(tick) as int
        },
        in_session ==> *final(tick) != *old(tick),
        r matches Some(snapshot) ==> {
            &&& snapshot.tick == *final(tick)
            &&& snapshot.players@ == replicated.players@.map_values(
                |row: PlayerRow| player_of(row),
            )
            &&& snapshot.dropped_items == replicated.dropped_items
            &&& snapshot.resource_nodes@ == replicated.resource_nodes@.map_values(
                |row: NodeRow| node_of(row),
            )
            &&& snapshot.deployed_entities == replicated.deployed_entities
        },
{
    if !in_session {
        return None;
    }
    *tick = if *tick == u64::MAX {
        0
    } else {
        *tick + 1
    };
    Some(
        WorldSnapshot {
            tick: *tick,
            players: player_states(replicated.players),
            dropped_items: replicated.dropped_items,
            resource_nodes: node_states(replicated.resource_nodes),
            deployed_entities: replicated.deployed_entities,
        },
    )
}

/// The picture that is kept, and the version of the colliders that the collision
/// grid was built for.
pub struct KeptSnapshot {
    pub snapshot: Option<WorldSnapshot>,
    pub collider_version: u64,
}

/// Keeps a new picture; tells whether the collision grid has to be built anew,
/// which is where the version of its colliders is another one.
pub fn keep_snapshot(kept: &mut KeptSnapshot, snapshot: WorldSnapshot, version: u64) -> (r: bool)
    ensures
        r == (version != old(kept).collider_version),
        final(kept).snapshot == Some(snapshot),
        final(kept).collider_version == version,
{
    let changed: bool = version != kept.collider_version;
    kept.collider_version = version;
    kept.snapshot = Some(snapshot);
    changed
}

/// Everyone is told the public part; what is private is there exactly where it was
/// replicated, and as it was.
pub proof fn private_part_is_passed_on(row: PlayerRow)
    ensures
        ({
            let player = player_of(row);
            &&& player.public == row.public
            &&& player.inventory is Some <==> row.private is Some
            &&& player.crafting is Some <==> row.private is Some
            &&& row.private is None ==> player.open_furnace is None && player.last_processed_input
                == 0
            &&& row.private matches Some(private) ==> {
                &&& player.inventory == Some(private.inventory)
                &&& player.crafting == Some(private.crafting)
                &&& player.open_furnace == private.open_furnace
                &&& player.last_processed_input == private.last_processed_input
            }
        }),
{
}

/// A node keeps everything it was replicated with, and never grows back.
pub proof fn nodes_are_passed_on(row: NodeRow)
    ensures
        ({
            let node = node_of(row);
            &&& node.id == row.id
            &&& node.definition_id == row.definition_id
            &&& node.position == row.position
            &&& node.yaw == row.yaw
            &&& node.storage == row.storage
            &&& node.respawn_progress is None
        }),
{
}

} // verus!
