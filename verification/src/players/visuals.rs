//! Which bodies are shown, and how each follows its player's reports.
use std::collections::HashMap;
use vstd::prelude::*;
use vstd::std_specs::iter::IteratorSpec;
use crate::items::HeldMesh;
use crate::players::interpolation::{
    BlendedPose, NetworkPlayerInterpolation, Pose, place_between, snapped_body_stands_still,
};
use crate::players::locomotion::ItemModel;
use crate::players::rig::RemoteEquipment;
use crate::text::{concat2, decimal, digits};

verus! {

broadcast use vstd::std_specs::hash::group_hash_axioms;

/// What the server replicates of a player. Speed is in millimetres per second,
/// the pitch in thousandths of a radian, the charge in millionths.
pub struct ReplicatedPlayer {
    pub client_id: u64,
    /// Whether the player is dead; unknown until it was replicated.
    pub dead: Option<bool>,
    pub sleeping: Option<bool>,
    pub held: Option<Option<HeldMesh>>,
    pub equipment: Option<RemoteEquipment>,
    pub action: Option<(u32, ItemModel)>,
    pub charge: Option<u32>,
    pub horizontal_speed: u32,
    pub grounded: bool,
    pub pitch: i32,
    pub tick: u64,
    pub target: Pose,
}

/// What a body shows of a report.
#[derive(Clone, Copy, Debug, PartialEq, Eq)]
pub struct RemotePlayerSnapshot {
    pub client_id: u64,
    pub is_dead: bool,
    pub is_sleeping: bool,
    pub held_mesh: Option<HeldMesh>,
    pub equipment: RemoteEquipment,
    pub action_seq: u32,
    pub action_model: ItemModel,
    pub charge: u32,
    pub horizontal_speed: u32,
    pub grounded: bool,
    pub pitch: i32,
    pub tick: u64,
    pub target: Pose,
}

/// The report of a player, with what was not replicated yet taken as nothing.
pub open spec fn report_of(player: ReplicatedPlayer) -> RemotePlayerSnapshot {
    RemotePlayerSnapshot {
        client_id: player.client_id,
        is_dead: player.dead == Some(true),
        is_sleeping: player.sleeping == Some(true),
        held_mesh: match player.held {
            Some(mesh) => mesh,
            None => None,
        },
        equipment: match player.equipment {
            Some(equipment) => equipment,
            None => RemoteEquipment { head: None, chest: None, legs: None, feet: None },
        },
        action_seq: match player.action {
            Some((seq, _)) => seq,
            None => 0,
        },
        action_model: match player.action {
            Some((_, model)) => model,
            None => ItemModel::Bag,
        },
        charge: match player.charge {
            Some(charge) => charge,
            None => 0,
        },
        horizontal_speed: player.horizontal_speed,
        grounded: player.grounded,
        pitch: player.pitch,
        tick: player.tick,
        target: player.target,
    }
}

/// Takes the report of a player.
pub fn snapshot_of(player: &ReplicatedPlayer) -> (r: RemotePlayerSnapshot)
    ensures
        r == report_of(*player),
{
    let (action_seq, action_model): (u32, ItemModel) = match player.action {
        Some(action) => action,
        None => (0, ItemModel::Bag),
    };
    RemotePlayerSnapshot {
        client_id: player.client_id,
        is_dead: match player.dead {
            Some(dead) => dead,
            None => false,
        },
        is_sleeping: match player.sleeping {
            Some(sleeping) => sleeping,
            None => false,
        },
        held_mesh: match player.held {
            Some(mesh) => mesh,
            None => None,
        },
        equipment: match player.equipment {
            Some(equipment) => equipment,
            None => RemoteEquipment::bare(),
        },
        action_seq,
        action_model,
        charge: match player.charge {
            Some(charge) => charge,
            None => 0,
        },
        horizontal_speed: player.horizontal_speed,
        grounded: player.grounded,
        pitch: player.pitch,
        tick: player.tick,
        target: player.target,
    }
}

/// What a body mirrors of its player for the animators.
#[derive(Clone, Copy, Debug, PartialEq, Eq)]
pub struct RemoteMirror {
    pub speed: u32,
    pub grounded: bool,
    pub pitch: i32,
    pub charge: u32,
    pub held: Option<HeldMesh>,
    pub equipment: RemoteEquipment,
    pub action_seq: u32,
    pub action_model: ItemModel,
}

/// The mirror of a report.
pub open spec fn mirror_of(snapshot: RemotePlayerSnapshot) -> RemoteMirror {
    RemoteMirror {
        speed: snapshot.horizontal_speed,
        grounded: snapshot.grounded,
        pitch: snapshot.pitch,
        charge: snapshot.charge,
        held: snapshot.held_mesh,
        equipment: snapshot.equipment,
        action_seq: snapshot.action_seq,
        action_model: snapshot.action_model,
    }
}

fn mirror(snapshot: &RemotePlayerSnapshot) -> (r: RemoteMirror)
    ensures
        r == mirror_of(*snapshot),
{
    RemoteMirror {
        speed: snapshot.horizontal_speed,
        grounded: snapshot.grounded,
        pitch: snapshot.pitch,
        charge: snapshot.charge,
        held: snapshot.held_mesh,
        equipment: snapshot.equipment,
        action_seq: snapshot.action_seq,
        action_model: snapshot.action_model,
    }
}

/// A body that is shown.
#[derive(Clone, Copy, Debug, PartialEq, Eq)]
pub struct RemoteVisual {
    pub interpolation: NetworkPlayerInterpolation,
    pub mirror: RemoteMirror,
    pub dying: bool,
    pub asleep: bool,
}

/// Where a body is put.
#[derive(Clone, Copy, Debug, PartialEq, Eq)]
pub enum Placement {
    /// A corpse is moved by its collapse alone.
    Untouched,
    /// A sleeper lies at its pose.
    Lying(Pose),
    Blended(BlendedPose),
}

/// What a report changes on a body.
#[derive(Clone, Copy, Debug, PartialEq, Eq)]
pub struct VisualUpdate {
    /// The player died in this frame; a sleeper does not collapse first.
    pub starts_dying: Option<bool>,
    /// The player lives again: the corpse is dropped and shown in full.
    pub respawned: bool,
    /// The sleeping mark is set or taken away.
    pub sleep_mark: Option<bool>,
    pub placement: Placement,
}

/// Where a living body that is awake is headed after a report: a body that just
/// stood up from death or sleep is put there, and any other glides.
pub open spec fn followed(
    visual: RemoteVisual,
    current: Pose,
    snapshot: RemotePlayerSnapshot,
) -> NetworkPlayerInterpolation {
    if visual.dying || visual.asleep {
        NetworkPlayerInterpolation::at_rest(snapshot.tick, snapshot.target)
    } else {
        visual.interpolation.retargeted(snapshot.tick, current, snapshot.target)
    }
}

/// Lets a body follow a report. `current` is where it is now.
pub fn update_remote_player_visual(
    visual: &mut RemoteVisual,
    current: Pose,
    snapshot: &RemotePlayerSnapshot,
    delta: u64,
) -> (r: VisualUpdate)
    ensures
        r.starts_dying == if snapshot.is_dead && !old(visual).dying {
            Some(snapshot.is_sleeping)
        } else {
            None
        },
        r.respawned == (!snapshot.is_dead && old(visual).dying),
        final(visual).dying == snapshot.is_dead,
        if snapshot.is_dead {
            &&& r.placement == Placement::Untouched
            &&& r.sleep_mark is None
            &&& final(visual).interpolation == old(visual).interpolation
            &&& final(visual).mirror == old(visual).mirror
            &&& final(visual).asleep == old(visual).asleep
        } else {
            &&& final(visual).mirror == mirror_of(*snapshot)
            &&& final(visual).asleep == snapshot.is_sleeping
            &&& r.sleep_mark == if snapshot.is_sleeping != old(visual).asleep {
                Some(snapshot.is_sleeping)
            } else {
                None
            }
            &&& if snapshot.is_sleeping {
                &&& r.placement == Placement::Lying(snapshot.target)
                &&& final(visual).interpolation == NetworkPlayerInterpolation::at_rest(
                    snapshot.tick,
                    snapshot.target,
                )
            } else {
                let next = followed(*old(visual), current, *snapshot).later(delta);
                &&& final(visual).interpolation == next
                &&& r.placement matches Placement::Blended(pose)
                &&& pose.share == next.gone()
                &&& (pose.position.x as int, pose.position.y as int, pose.position.z as int)
                    == place_between(next.from.position, next.to.position, next.gone())
                &&& pose.from_yaw == next.from.yaw
                &&& pose.to_yaw == next.to.yaw
            }
        },
        r.placement is Untouched <==> snapshot.is_dead,
        r.placement is Lying <==> !snapshot.is_dead && snapshot.is_sleeping,
        r.starts_dying is Some <==> snapshot.is_dead && !old(visual).dying,
        !snapshot.is_dead && !snapshot.is_sleeping && (old(visual).dying || old(visual).asleep)
            ==> (r.placement matches Placement::Blended(pose) && pose.position
            == snapshot.target.position && pose.to_yaw == snapshot.target.yaw),
{
    proof {
        snapped_body_stands_still(snapshot.tick, snapshot.target, delta);
    }
    let starts_dying: Option<bool> = if snapshot.is_dead && !visual.dying {
        Some(snapshot.is_sleeping)
    } else {
        None
    };
    let respawned: bool = !snapshot.is_dead && visual.dying;
    visual.dying = snapshot.is_dead;
    if snapshot.is_dead {
        return VisualUpdate {
            starts_dying,
            respawned,
            sleep_mark: None,
            placement: Placement::Untouched,
        };
    }
    visual.mirror = mirror(snapshot);
    let woke: bool = visual.asleep && !snapshot.is_sleeping;
    let sleep_mark: Option<bool> = if snapshot.is_sleeping && !visual.asleep {
        Some(true)
    } else if woke {
        Some(false)
    } else {
        None
    };
    visual.asleep = snapshot.is_sleeping;
    let mut interpolation = visual.interpolation;
    let placement: Placement = if snapshot.is_sleeping {
        interpolation.snap_to(snapshot.tick, snapshot.target);
        Placement::Lying(snapshot.target)
    } else {
        if respawned || woke {
            interpolation.snap_to(snapshot.tick, snapshot.target);
        } else {
            interpolation.retarget(snapshot.tick, current, snapshot.target);
        }
        Placement::Blended(interpolation.advance(delta))
    };
    visual.interpolation = interpolation;
    VisualUpdate { starts_dying, respawned, sleep_mark, placement }
}

/// A body that is shown for the first time.
pub struct SpawnedVisual {
    pub name: String,
    pub visual: RemoteVisual,
    pub lying: bool,
}

/// Shows a body for the first time: in the looks of the report, and a sleeper
/// lying at once.
pub fn spawn_remote_player_visual(snapshot: &RemotePlayerSnapshot) -> (r: SpawnedVisual)
    ensures
        r.name@ == "Player "@ + digits(snapshot.client_id as nat),
        r.lying == snapshot.is_sleeping,
        r.visual == (RemoteVisual {
            interpolation: NetworkPlayerInterpolation::at_rest(snapshot.tick, snapshot.target),
            mirror: mirror_of(*snapshot),
            dying: false,
            asleep: snapshot.is_sleeping,
        }),
{
    let id = decimal(snapshot.client_id);
    SpawnedVisual {
        name: concat2("Player ", id.as_str()),
        visual: RemoteVisual {
            interpolation: NetworkPlayerInterpolation::new(snapshot.tick, snapshot.target),
            mirror: mirror(snapshot),
            dying: false,
            asleep: snapshot.is_sleeping,
        },
        lying: snapshot.is_sleeping,
    }
}

/// The bodies that are shown, one at most for each player.
pub struct RemotePlayerEntities {
    pub bodies: HashMap<u64, u64>,
}

/// The entity of a player's body.
pub open spec fn body_of(bodies: Map<u64, u64>, client_id: u64) -> Option<u64> {
    if bodies.contains_key(client_id) {
        Some(bodies[client_id])
    } else {
        None
    }
}

impl RemotePlayerEntities {
    /// Nobody is shown.
    pub fn new() -> (r: Self)
        ensures
            r.bodies@ == Map::<u64, u64>::empty(),
    {
        RemotePlayerEntities { bodies: HashMap::new() }
    }

    /// Finds the body of a player.
    pub fn get(&self, client_id: u64) -> (r: Option<u64>)
        ensures
            r == body_of(self.bodies@, client_id),
    {
        match self.bodies.get(&client_id) {
            Some(entity) => Some(*entity),
            None => None,
        }
    }

    /// Records the body of a player; one recorded earlier is forgotten.
    pub fn register(&mut self, client_id: u64, entity: u64)
        ensures
            final(self).bodies@ == old(self).bodies@.insert(client_id, entity),
    {
        self.bodies.insert(client_id, entity);
    }
}

/// The sequence goes through the players of a set, each once.
pub open spec fn goes_through(order: Seq<u64>, players: Set<u64>) -> bool {
    &&& order.no_duplicates()
    &&& forall|id: u64| #[trigger] order.contains(id) <==> players.contains(id)
}

/// The bodies of the players of a set, in some order.
pub open spec fn bodies_in_some_order(
    entities: Seq<u64>,
    bodies: Map<u64, u64>,
    players: Set<u64>,
) -> bool {
    exists|order: Seq<u64>|
        {
            &&& #[trigger] goes_through(order, players)
            &&& entities == order.map_values(|id: u64| bodies[id])
        }
}

/// The players who have a body, in some order.
fn players_shown(bodies: &HashMap<u64, u64>) -> (r: Vec<u64>)
    ensures
        goes_through(r@, bodies@.dom()),
{
    let mut players: Vec<u64> = Vec::new();
    let keys = bodies.keys();
    let ghost all: Seq<&u64> = keys.remaining();
    for id in it: keys
        invariant
            it.seq() == all,
            players@.len() == it.index(),
            forall|i: int| 0 <= i < players@.len() ==> players@[i] == *#[trigger] all[i],
    {
        players.push(*id);
    }
    proof {
        assert(players@ =~= all.unref());
        assert(players@.to_set() == bodies@.dom());
        assert forall|id: u64| #[trigger] players@.contains(id) == bodies@.dom().contains(id) by {
            assert(players@.to_set().contains(id) == players@.contains(id));
        }
    }
    players
}

/// The player is reported, and is not this one.
pub open spec fn visible(seen: Seq<RemotePlayerSnapshot>, local: u64, client_id: u64) -> bool {
    client_id != local && exists|i: int|
        0 <= i < seen.len() && (#[trigger] seen[i]).client_id == client_id
}

/// The player is reported alive before a place of the list.
pub open spec fn alive_before(seen: Seq<RemotePlayerSnapshot>, i: int, client_id: u64) -> bool {
    exists|j: int|
        0 <= j < i && (#[trigger] seen[j]).client_id == client_id && !seen[j].is_dead
}

/// The report at a place shows a player for the first time: one who has no body,
/// lives, and was not shown by an earlier report.
pub open spec fn shows_new(
    bodies: Map<u64, u64>,
    local: u64,
    seen: Seq<RemotePlayerSnapshot>,
    i: int,
) -> bool {
    &&& seen[i].client_id != local
    &&& body_of(bodies, seen[i].client_id) is None
    &&& !seen[i].is_dead
    &&& !alive_before(seen, i, seen[i].client_id)
}

/// The bodies that follow a report, each with the report's place.
pub open spec fn updates_of(
    bodies: Map<u64, u64>,
    local: u64,
    seen: Seq<RemotePlayerSnapshot>,
    count: int,
) -> Seq<(u64, usize)>
    decreases count,
{
    if count <= 0 {
        Seq::empty()
    } else {
        let rest = updates_of(bodies, local, seen, count - 1);
        let report = seen[count - 1];
        match body_of(bodies, report.client_id) {
            Some(entity) => if report.client_id != local {
                rest.push((entity, (count - 1) as usize))
            } else {
                rest
            },
            None => rest,
        }
    }
}

/// The places of the reports that show a player for the first time.
pub open spec fn spawns_of(
    bodies: Map<u64, u64>,
    local: u64,
    seen: Seq<RemotePlayerSnapshot>,
    count: int,
) -> Seq<usize>
    decreases count,
{
    if count <= 0 {
        Seq::empty()
    } else {
        let rest = spawns_of(bodies, local, seen, count - 1);
        if shows_new(bodies, local, seen, count - 1) {
            rest.push((count - 1) as usize)
        } else {
            rest
        }
    }
}

/// The players with a body who are no longer reported.
pub open spec fn leaving(
    bodies: Map<u64, u64>,
    seen: Seq<RemotePlayerSnapshot>,
    local: u64,
) -> Set<u64> {
    bodies.dom().filter(|id: u64| !visible(seen, local, id))
}

/// The bodies of players who are still reported.
pub open spec fn staying(
    bodies: Map<u64, u64>,
    seen: Seq<RemotePlayerSnapshot>,
    local: u64,
) -> Map<u64, u64> {
    bodies.restrict(Set::new(|id: u64| visible(seen, local, id)))
}

/// What the reports of a frame ask for.
pub struct SnapshotPlan {
    /// Bodies that follow a report, each with the report's place.
    pub updates: Vec<(u64, usize)>,
    /// Places of the reports that show a player for the first time.
    pub spawns: Vec<usize>,
    /// Bodies that go.
    pub despawns: Vec<u64>,
}

fn is_visible(seen: &Vec<RemotePlayerSnapshot>, local: u64, client_id: u64) -> (r: bool)
    ensures
        r == visible(seen@, local, client_id),
{
    if client_id == local {
        return false;
    }
    let mut i: usize = 0;
    while i < seen.len()
        invariant
            i <= seen.len(),
            client_id != local,
            forall|k: int| 0 <= k < i ==> (#[trigger] seen@[k]).client_id != client_id,
        decreases seen.len() - i,
    {
        if seen[i].client_id == client_id {
            assert(seen@[i as int].client_id == client_id);
            return true;
        }
        i = i + 1;
    }
    false
}

fn was_alive_before(seen: &Vec<RemotePlayerSnapshot>, count: usize, client_id: u64) -> (r: bool)
    requires
        count <= seen.len(),
    ensures
        r == alive_before(seen@, count as int, client_id),
{
    let mut i: usize = 0;
    while i < count
        invariant
            i <= count <= seen.len(),
            forall|k: int|
                0 <= k < i ==> !((#[trigger] seen@[k]).client_id == client_id && !seen@[k].is_dead),
        decreases count - i,
    {
        if seen[i].client_id == client_id && !seen[i].is_dead {
            assert(seen@[i as int].client_id == client_id);
            return true;
        }
        i = i + 1;
    }
    false
}

/// Takes out the bodies of the players who are not to be shown any more.
fn take_leaving(
    bodies: &mut HashMap<u64, u64>,
    seen: &Vec<RemotePlayerSnapshot>,
    local: u64,
) -> (r: Vec<u64>)
    ensures
        bodies_in_some_order(r@, old(bodies)@, leaving(old(bodies)@, seen@, local)),
        final(bodies)@ == staying(old(bodies)@, seen@, local),
{
    let ghost known = bodies@;
    let ghost mut gone: Seq<u64> = Seq::empty();
    let players = players_shown(bodies);
    let mut entities: Vec<u64> = Vec::new();
    let mut i: usize = 0;
    proof {
        assert(bodies@ =~= known.restrict(Set::new(|id: u64| !gone.contains(id))));
        assert(entities@ =~= gone.map_values(|id: u64| known[id]));
    }
    while i < players.len()
        invariant
            i <= players.len(),
            goes_through(players@, known.dom()),
            gone.no_duplicates(),
            forall|id: u64| #[trigger]
                gone.contains(id) <==> players@.take(i as int).contains(id) && !visible(
                    seen@,
                    local,
                    id,
                ),
            bodies@ == known.restrict(Set::new(|id: u64| !gone.contains(id))),
            entities@ == gone.map_values(|id: u64| known[id]),
        decreases players.len() - i,
    {
        let id: u64 = players[i];
        let ghost before = gone;
        proof {
            let shorter = players@.take(i as int);
            let longer = players@.take(i + 1);
            assert(longer =~= shorter.push(id));
            assert forall|k: u64| longer.contains(k) == (shorter.contains(k) || k == id) by {
                if shorter.contains(k) {
                    let at = choose|at: int| 0 <= at < shorter.len() && shorter[at] == k;
                    assert(longer[at] == k);
                }
                assert(longer[i as int] == id);
            }
            assert(!shorter.contains(id));
            assert(players@.contains(id));
            assert(!gone.contains(id));
        }
        if !is_visible(seen, local, id) {
            if let Some(entity) = bodies.remove(&id) {
                entities.push(entity);
                proof {
                    gone = gone.push(id);
                    assert forall|k: u64| gone.contains(k) == (before.contains(k) || k == id) by {
                        if before.contains(k) {
                            let at = choose|at: int| 0 <= at < before.len() && before[at] == k;
                            assert(gone[at] == k);
                        }
                        assert(gone[before.len() as int] == id);
                    }
                    assert(entities@ =~= gone.map_values(|id: u64| known[id]));
                    assert(bodies@ =~= known.restrict(Set::new(|id: u64| !gone.contains(id))));
                }
            }
        }
        i = i + 1;
    }
    proof {
        assert(players@.take(i as int) =~= players@);
        assert(goes_through(gone, leaving(known, seen@, local)));
        assert(bodies@ =~= staying(known, seen@, local));
    }
    entities
}

/// Works out what the reports of a frame ask for. Without an id of its own the
/// client is not connected, and every body goes. Bodies go in no particular order.
pub fn apply_snapshot(
    entities: &mut RemotePlayerEntities,
    local: Option<u64>,
    seen: &Vec<RemotePlayerSnapshot>,
) -> (r: SnapshotPlan)
    ensures
        match local {
            None => {
                &&& r.updates@.len() == 0
                &&& r.spawns@.len() == 0
                &&& bodies_in_some_order(
                    r.despawns@,
                    old(entities).bodies@,
                    old(entities).bodies@.dom(),
                )
                &&& final(entities).bodies@ == Map::<u64, u64>::empty()
            },
            Some(id) => {
                &&& r.updates@ == updates_of(old(entities).bodies@, id, seen@, seen@.len() as int)
                &&& r.spawns@ == spawns_of(old(entities).bodies@, id, seen@, seen@.len() as int)
                &&& bodies_in_some_order(
                    r.despawns@,
                    old(entities).bodies@,
                    leaving(old(entities).bodies@, seen@, id),
                )
                &&& final(entities).bodies@ == staying(old(entities).bodies@, seen@, id)
            },
        },
{
    let ghost known = entities.bodies@;
    let mut updates: Vec<(u64, usize)> = Vec::new();
    let mut spawns: Vec<usize> = Vec::new();
    let id = match local {
        Some(id) => id,
        None => {
            let nobody: Vec<RemotePlayerSnapshot> = Vec::new();
            let despawns = take_leaving(&mut entities.bodies, &nobody, 0);
            proof {
                assert(leaving(known, nobody@, 0) =~= known.dom());
                assert(entities.bodies@ =~= Map::<u64, u64>::empty());
            }
            return SnapshotPlan { updates, spawns, despawns };
        },
    };
    let mut i: usize = 0;
    while i < seen.len()
        invariant
            i <= seen.len(),
            entities.bodies@ == known,
            updates@ == updates_of(known, id, seen@, i as int),
            spawns@ == spawns_of(known, id, seen@, i as int),
        decreases seen.len() - i,
    {
        let client_id: u64 = seen[i].client_id;
        if client_id != id {
            match entities.get(client_id) {
                Some(entity) => {
                    updates.push((entity, i));
                },
                None => {
                    if !seen[i].is_dead && !was_alive_before(seen, i, client_id) {
                        spawns.push(i);
                    }
                },
            }
        }
        i = i + 1;
    }
    let despawns = take_leaving(&mut entities.bodies, seen, id);
    SnapshotPlan { updates, spawns, despawns }
}

/// A body stays exactly when its player is still reported, every other one goes,
/// and this player never has one.
pub proof fn bodies_follow_the_reports(
    bodies: Map<u64, u64>,
    seen: Seq<RemotePlayerSnapshot>,
    local: u64,
    client_id: u64,
)
    ensures
        body_of(staying(bodies, seen, local), client_id) == if visible(seen, local, client_id) {
            body_of(bodies, client_id)
        } else {
            None
        },
        leaving(bodies, seen, local).contains(client_id) <==> bodies.contains_key(client_id)
            && body_of(staying(bodies, seen, local), client_id) is None,
        body_of(staying(bodies, seen, local), local) is None,
{
}

/// Every report that shows a new body is of a living player other than this one,
/// who had no body.
pub proof fn new_bodies_are_of_living_players(
    bodies: Map<u64, u64>,
    local: u64,
    seen: Seq<RemotePlayerSnapshot>,
    count: int,
    k: int,
)
    requires
        0 <= count <= seen.len() <= usize::MAX,
        0 <= k < spawns_of(bodies, local, seen, count).len(),
    ensures
        ({
            let at = spawns_of(bodies, local, seen, count)[k] as int;
            &&& 0 <= at < count
            &&& !seen[at].is_dead
            &&& seen[at].client_id != local
            &&& body_of(bodies, seen[at].client_id) is None
        }),
    decreases count,
{
    if count > 0 && k < spawns_of(bodies, local, seen, count - 1).len() {
        new_bodies_are_of_living_players(bodies, local, seen, count - 1, k);
    }
}

/// No player gets two bodies in a frame.
pub proof fn one_new_body_per_player(
    bodies: Map<u64, u64>,
    local: u64,
    seen: Seq<RemotePlayerSnapshot>,
    i: int,
    j: int,
)
    requires
        0 <= i < j < seen.len(),
        shows_new(bodies, local, seen, i),
        shows_new(bodies, local, seen, j),
    ensures
        seen[i].client_id != seen[j].client_id,
{
    if seen[i].client_id == seen[j].client_id {
        assert(alive_before(seen, j, seen[j].client_id));
    }
}

/// A report keeps what was replicated, and takes what was not as nothing: nobody is dead
/// or asleep, holds or wears something, swings or charges before that was told.
pub proof fn reports_keep_what_was_replicated(player: ReplicatedPlayer)
    ensures
        ({
            let report = report_of(player);
            &&& report.client_id == player.client_id
            &&& report.is_dead <==> player.dead is Some && player.dead->0
            &&& report.is_sleeping <==> player.sleeping is Some && player.sleeping->0
            &&& player.held matches Some(mesh) ==> report.held_mesh == mesh
            &&& player.held is None ==> report.held_mesh is None
            &&& player.equipment matches Some(worn) ==> report.equipment == worn
            &&& player.equipment is None ==> report.equipment.head is None
                && report.equipment.chest is None && report.equipment.legs is None
                && report.equipment.feet is None
            &&& player.action matches Some((seq, model)) ==> report.action_seq == seq
                && report.action_model == model
            &&& player.action is None ==> report.action_seq == 0
            &&& player.charge matches Some(charge) ==> report.charge == charge
            &&& player.charge is None ==> report.charge == 0
            &&& report.horizontal_speed == player.horizontal_speed
            &&& report.grounded == player.grounded
            &&& report.pitch == player.pitch
            &&& report.tick == player.tick
            &&& report.target == player.target
        }),
{
}

/// The animators see of a report what moves the body.
pub proof fn mirrors_show_the_report(snapshot: RemotePlayerSnapshot)
    ensures
        ({
            let mirror = mirror_of(snapshot);
            &&& mirror.speed == snapshot.horizontal_speed
            &&& mirror.grounded == snapshot.grounded
            &&& mirror.pitch == snapshot.pitch
            &&& mirror.charge == snapshot.charge
            &&& mirror.held == snapshot.held_mesh
            &&& mirror.equipment == snapshot.equipment
            &&& mirror.action_seq == snapshot.action_seq
            &&& mirror.action_model == snapshot.action_model
        }),
{
}

/// Who stands up from death or sleep is at the reported pose at once, whatever was
/// blended before; everyone else follows the report.
pub proof fn risen_bodies_are_put_in_place(
    visual: RemoteVisual,
    current: Pose,
    snapshot: RemotePlayerSnapshot,
)
    ensures
        ({
            let next = followed(visual, current, snapshot);
            &&& visual.dying || visual.asleep ==> next.from == snapshot.target && next.to
                == snapshot.target && next.snapshot_tick == snapshot.tick && next.gone().part
                == next.gone().whole
            &&& !visual.dying && !visual.asleep && snapshot.tick
                > visual.interpolation.snapshot_tick ==> next.to == snapshot.target
                && next.elapsed == 0 && next.snapshot_tick == snapshot.tick
            &&& !visual.dying && !visual.asleep && snapshot.tick
                <= visual.interpolation.snapshot_tick ==> next == visual.interpolation
        }),
{
}

/// Every report of another player with a body moves that very body.
pub proof fn every_reported_body_follows(
    bodies: Map<u64, u64>,
    local: u64,
    seen: Seq<RemotePlayerSnapshot>,
    count: int,
    k: int,
)
    requires
        0 <= k < count <= seen.len() <= usize::MAX,
        seen[k].client_id != local,
        bodies.contains_key(seen[k].client_id),
    ensures
        updates_of(bodies, local, seen, count).contains((bodies[seen[k].client_id], k as usize)),
    decreases count,
{
    let rest = updates_of(bodies, local, seen, count - 1);
    let all = updates_of(bodies, local, seen, count);
    let wanted = (bodies[seen[k].client_id], k as usize);
    if k == count - 1 {
        assert(all[all.len() - 1] == wanted);
    } else {
        every_reported_body_follows(bodies, local, seen, count - 1, k);
        let at = choose|at: int| 0 <= at < rest.len() && rest[at] == wanted;
        assert(all[at] == wanted);
    }
}

/// A body that follows a report is that of the reported player, who is never this one.
pub proof fn bodies_follow_their_own_report(
    bodies: Map<u64, u64>,
    local: u64,
    seen: Seq<RemotePlayerSnapshot>,
    count: int,
    i: int,
)
    requires
        0 <= count <= seen.len() <= usize::MAX,
        0 <= i < updates_of(bodies, local, seen, count).len(),
    ensures
        ({
            let (entity, at) = updates_of(bodies, local, seen, count)[i];
            &&& 0 <= at < count
            &&& seen[at as int].client_id != local
            &&& bodies.contains_key(seen[at as int].client_id)
            &&& entity == bodies[seen[at as int].client_id]
        }),
    decreases count,
{
    let rest = updates_of(bodies, local, seen, count - 1);
    if i < rest.len() {
        bodies_follow_their_own_report(bodies, local, seen, count - 1, i);
        assert(updates_of(bodies, local, seen, count)[i] == rest[i]);
    }
}

/// Every first report of another living player without a body shows one.
pub proof fn every_new_player_is_shown(
    bodies: Map<u64, u64>,
    local: u64,
    seen: Seq<RemotePlayerSnapshot>,
    count: int,
    k: int,
)
    requires
        0 <= k < count <= seen.len() <= usize::MAX,
        seen[k].client_id != local,
        !bodies.contains_key(seen[k].client_id),
        !seen[k].is_dead,
        forall|j: int|
            0 <= j < k ==> (#[trigger] seen[j]).client_id != seen[k].client_id || seen[j].is_dead,
    ensures
        spawns_of(bodies, local, seen, count).contains(k as usize),
    decreases count,
{
    let rest = spawns_of(bodies, local, seen, count - 1);
    let all = spawns_of(bodies, local, seen, count);
    if k == count - 1 {
        assert(shows_new(bodies, local, seen, k));
        assert(all[all.len() - 1] == k as usize);
    } else {
        every_new_player_is_shown(bodies, local, seen, count - 1, k);
        let at = choose|at: int| 0 <= at < rest.len() && rest[at] == k as usize;
        assert(all[at] == k as usize);
    }
}

/// Whoever is reported, alive or dead, is visible, but never this player.
pub proof fn reported_players_are_visible(
    seen: Seq<RemotePlayerSnapshot>,
    local: u64,
    k: int,
)
    requires
        0 <= k < seen.len(),
    ensures
        visible(seen, local, seen[k].client_id) <==> seen[k].client_id != local,
        !visible(seen, local, local),
        !visible(Seq::empty(), local, seen[k].client_id),
{
}

} // verus!
