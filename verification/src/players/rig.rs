//! The parts of a body, what hangs off them, and when that is rebuilt.
use vstd::prelude::*;
use crate::items::HeldMesh;

verus! {

/// The parts of a body.
#[derive(Clone, Copy, Debug, PartialEq, Eq, Structural)]
pub enum PlayerPart {
    Body,
    UpperArmL,
    UpperArmR,
    ForearmL,
    ForearmR,
    HandAnchor,
    ThighL,
    ThighR,
    ShinL,
    ShinR,
}

/// Where a piece of armor sits; the symmetric ones sit on both sides.
#[derive(Clone, Copy, Debug, PartialEq, Eq, Structural)]
pub enum ArmorJoint {
    Body,
    UpperArmsBoth,
    ThighsBoth,
    ShinsBoth,
}

/// One part of the layout: what it is, and what it hangs off. A part without a
/// parent hangs off the root.
#[derive(Clone, Copy, Debug, PartialEq, Eq)]
pub struct PartSpec {
    pub part: PlayerPart,
    pub parent: Option<PlayerPart>,
}

/// The entities of a body's parts.
#[derive(Clone, Copy, Debug, PartialEq, Eq, Structural)]
pub struct PlayerRig {
    pub body: u64,
    pub upper_arm_l: u64,
    pub upper_arm_r: u64,
    pub forearm_l: u64,
    pub forearm_r: u64,
    pub hand_anchor: u64,
    pub thigh_l: u64,
    pub thigh_r: u64,
    pub shin_l: u64,
    pub shin_r: u64,
}

/// The place of a part in the layout; the last one where it occurs again.
pub open spec fn place_of(layout: Seq<PartSpec>, part: PlayerPart) -> Option<int>
    decreases layout.len(),
{
    if layout.len() == 0 {
        None
    } else if layout.last().part == part {
        Some(layout.len() - 1)
    } else {
        place_of(layout.drop_last(), part)
    }
}

/// Every part comes after what it hangs off.
pub open spec fn parents_first(layout: Seq<PartSpec>) -> bool {
    forall|i: int|
        0 <= i < layout.len() && (#[trigger] layout[i]).parent is Some ==> place_of(
            layout.take(i),
            layout[i].parent->0,
        ) is Some
}

proof fn place_is_in_layout(layout: Seq<PartSpec>, part: PlayerPart)
    ensures
        place_of(layout, part) matches Some(i) ==> 0 <= i < layout.len() && layout[i].part == part,
    decreases layout.len(),
{
    if layout.len() > 0 && layout.last().part != part {
        place_is_in_layout(layout.drop_last(), part);
    }
}

/// Finds the place of a part among the first places of the layout.
fn find_place(layout: &Vec<PartSpec>, count: usize, part: PlayerPart) -> (r: Option<usize>)
    requires
        count <= layout.len(),
    ensures
        match r {
            Some(i) => place_of(layout@.take(count as int), part) == Some(i as int) && i < count,
            None => place_of(layout@.take(count as int), part) is None,
        },
{
    let mut i: usize = count;
    while i > 0
        invariant
            i <= count <= layout.len(),
            place_of(layout@.take(count as int), part) == place_of(layout@.take(i as int), part),
        decreases i,
    {
        proof {
            assert(layout@.take(i as int).drop_last() =~= layout@.take(i - 1));
            assert(layout@.take(i as int).last() == layout@[i - 1]);
        }
        i = i - 1;
        if layout[i].part == part {
            return Some(i);
        }
    }
    None
}

/// Works out what each part hangs off: the place of its parent, or the root.
pub fn rig_parents(layout: &Vec<PartSpec>) -> (r: Vec<Option<usize>>)
    requires
        parents_first(layout@),
    ensures
        r@.len() == layout@.len(),
        forall|i: int|
            0 <= i < layout@.len() ==> match layout@[i].parent {
                None => (#[trigger] r@[i]) is None,
                Some(parent) => r@[i] is Some && place_of(layout@.take(i), parent) == Some(
                    r@[i]->0 as int,
                ),
            },
{
    let mut parents: Vec<Option<usize>> = Vec::new();
    let mut i: usize = 0;
    while i < layout.len()
        invariant
            i <= layout.len(),
            parents_first(layout@),
            parents@.len() == i,
            forall|k: int|
                0 <= k < i ==> match layout@[k].parent {
                    None => (#[trigger] parents@[k]) is None,
                    Some(parent) => parents@[k] is Some && place_of(layout@.take(k), parent)
                        == Some(parents@[k]->0 as int),
                },
        decreases layout.len() - i,
    {
        let spec_here = layout[i];
        assert(layout@[i as int].parent == spec_here.parent);
        let parent: Option<usize> = match spec_here.parent {
            Some(part) => find_place(layout, i, part),
            None => None,
        };
        parents.push(parent);
        i = i + 1;
    }
    parents
}

/// Every parent is a part that was built before.
pub proof fn parents_are_built_before(layout: Seq<PartSpec>, i: int)
    requires
        parents_first(layout),
        0 <= i < layout.len(),
        layout[i].parent is Some,
    ensures
        place_of(layout.take(i), layout[i].parent->0) is Some,
        0 <= place_of(layout.take(i), layout[i].parent->0)->0 < i,
{
    place_is_in_layout(layout.take(i), layout[i].parent->0);
}

/// The layout has every part of a body.
pub open spec fn complete(layout: Seq<PartSpec>) -> bool {
    forall|part: PlayerPart| (#[trigger] place_of(layout, part)) is Some
}

/// The entity that was spawned for a part.
pub open spec fn entity_of(
    layout: Seq<PartSpec>,
    entities: Seq<u64>,
    part: PlayerPart,
) -> u64 {
    entities[place_of(layout, part)->0]
}

fn part_entity(layout: &Vec<PartSpec>, entities: &Vec<u64>, part: PlayerPart) -> (r: u64)
    requires
        complete(layout@),
        entities@.len() == layout@.len(),
    ensures
        r == entity_of(layout@, entities@, part),
{
    proof {
        assert(layout@.take(layout@.len() as int) =~= layout@);
        assert(place_of(layout@, part) is Some);
    }
    match find_place(layout, layout.len(), part) {
        Some(i) => entities[i],
        None => 0,
    }
}

/// Assembles a body from the entities that were spawned for its layout.
pub fn assemble_rig(layout: &Vec<PartSpec>, entities: &Vec<u64>) -> (r: PlayerRig)
    requires
        complete(layout@),
        entities@.len() == layout@.len(),
    ensures
        r.body == entity_of(layout@, entities@, PlayerPart::Body),
        r.upper_arm_l == entity_of(layout@, entities@, PlayerPart::UpperArmL),
        r.upper_arm_r == entity_of(layout@, entities@, PlayerPart::UpperArmR),
        r.forearm_l == entity_of(layout@, entities@, PlayerPart::ForearmL),
        r.forearm_r == entity_of(layout@, entities@, PlayerPart::ForearmR),
        r.hand_anchor == entity_of(layout@, entities@, PlayerPart::HandAnchor),
        r.thigh_l == entity_of(layout@, entities@, PlayerPart::ThighL),
        r.thigh_r == entity_of(layout@, entities@, PlayerPart::ThighR),
        r.shin_l == entity_of(layout@, entities@, PlayerPart::ShinL),
        r.shin_r == entity_of(layout@, entities@, PlayerPart::ShinR),
{
    PlayerRig {
        body: part_entity(layout, entities, PlayerPart::Body),
        upper_arm_l: part_entity(layout, entities, PlayerPart::UpperArmL),
        upper_arm_r: part_entity(layout, entities, PlayerPart::UpperArmR),
        forearm_l: part_entity(layout, entities, PlayerPart::ForearmL),
        forearm_r: part_entity(layout, entities, PlayerPart::ForearmR),
        hand_anchor: part_entity(layout, entities, PlayerPart::HandAnchor),
        thigh_l: part_entity(layout, entities, PlayerPart::ThighL),
        thigh_r: part_entity(layout, entities, PlayerPart::ThighR),
        shin_l: part_entity(layout, entities, PlayerPart::ShinL),
        shin_r: part_entity(layout, entities, PlayerPart::ShinR),
    }
}

/// The entities that a joint stands for.
pub open spec fn joint_targets(rig: PlayerRig, joint: ArmorJoint) -> Seq<u64> {
    match joint {
        ArmorJoint::Body => seq![rig.body],
        ArmorJoint::UpperArmsBoth => seq![rig.upper_arm_l, rig.upper_arm_r],
        ArmorJoint::ThighsBoth => seq![rig.thigh_l, rig.thigh_r],
        ArmorJoint::ShinsBoth => seq![rig.shin_l, rig.shin_r],
    }
}

/// Lists the entities that a joint stands for. The head is part of the body, so
/// helmets sit there too.
pub fn armor_joint_entities(rig: &PlayerRig, joint: ArmorJoint) -> (r: Vec<u64>)
    ensures
        r@ == joint_targets(*rig, joint),
{
    let mut targets: Vec<u64> = Vec::new();
    match joint {
        ArmorJoint::Body => {
            targets.push(rig.body);
        },
        ArmorJoint::UpperArmsBoth => {
            targets.push(rig.upper_arm_l);
            targets.push(rig.upper_arm_r);
        },
        ArmorJoint::ThighsBoth => {
            targets.push(rig.thigh_l);
            targets.push(rig.thigh_r);
        },
        ArmorJoint::ShinsBoth => {
            targets.push(rig.shin_l);
            targets.push(rig.shin_r);
        },
    }
    proof {
        assert(targets@ =~= joint_targets(*rig, joint));
    }
    targets
}

/// The entities of a piece with several layers, layer by layer.
pub open spec fn piece_targets(rig: PlayerRig, joints: Seq<ArmorJoint>) -> Seq<u64>
    decreases joints.len(),
{
    if joints.len() == 0 {
        Seq::empty()
    } else {
        piece_targets(rig, joints.drop_last()) + joint_targets(rig, joints.last())
    }
}

/// Lists the entities that the layers of a piece attach to.
pub fn armor_targets(rig: &PlayerRig, joints: &Vec<ArmorJoint>) -> (r: Vec<u64>)
    ensures
        r@ == piece_targets(*rig, joints@),
{
    let mut targets: Vec<u64> = Vec::new();
    let mut i: usize = 0;
    while i < joints.len()
        invariant
            i <= joints.len(),
            targets@ == piece_targets(*rig, joints@.take(i as int)),
        decreases joints.len() - i,
    {
        proof {
            assert(joints@.take(i + 1).drop_last() =~= joints@.take(i as int));
            assert(joints@.take(i + 1).last() == joints@[i as int]);
        }
        let mut more = armor_joint_entities(rig, joints[i]);
        targets.append(&mut more);
        i = i + 1;
    }
    proof {
        assert(joints@.take(i as int) =~= joints@);
    }
    targets
}

/// The parts of a body that are seen: all but the empty hand anchor.
pub fn mesh_parts(rig: &PlayerRig) -> (r: Vec<u64>)
    ensures
        r@ == seq![
            rig.body,
            rig.upper_arm_l,
            rig.upper_arm_r,
            rig.forearm_l,
            rig.forearm_r,
            rig.thigh_l,
            rig.thigh_r,
            rig.shin_l,
            rig.shin_r,
        ],
{
    let mut parts: Vec<u64> = Vec::new();
    parts.push(rig.body);
    parts.push(rig.upper_arm_l);
    parts.push(rig.upper_arm_r);
    parts.push(rig.forearm_l);
    parts.push(rig.forearm_r);
    parts.push(rig.thigh_l);
    parts.push(rig.thigh_r);
    parts.push(rig.shin_l);
    parts.push(rig.shin_r);
    parts
}

/// What a body wears, as meshes.
#[derive(Clone, Copy, Debug, PartialEq, Eq)]
pub struct RemoteEquipment {
    pub head: Option<u16>,
    pub chest: Option<u16>,
    pub legs: Option<u16>,
    pub feet: Option<u16>,
}

impl RemoteEquipment {
    /// A body that wears nothing.
    pub fn bare() -> (r: Self)
        ensures
            r == (RemoteEquipment { head: None, chest: None, legs: None, feet: None }),
    {
        RemoteEquipment { head: None, chest: None, legs: None, feet: None }
    }

    /// The meshes from head to feet.
    pub open spec fn meshes(self) -> Seq<u16> {
        opt_seq(self.head) + opt_seq(self.chest) + opt_seq(self.legs) + opt_seq(self.feet)
    }

    /// Whether two bodies wear the same.
    pub fn same(&self, other: &RemoteEquipment) -> (r: bool)
        ensures
            r == (*self == *other),
    {
        same_mesh(self.head, other.head) && same_mesh(self.chest, other.chest) && same_mesh(
            self.legs,
            other.legs,
        ) && same_mesh(self.feet, other.feet)
    }

    /// Lists the meshes from head to feet.
    pub fn worn(&self) -> (r: Vec<u16>)
        ensures
            r@ == self.meshes(),
    {
        let mut meshes: Vec<u16> = Vec::new();
        push_mesh(&mut meshes, self.head);
        push_mesh(&mut meshes, self.chest);
        push_mesh(&mut meshes, self.legs);
        push_mesh(&mut meshes, self.feet);
        proof {
            assert(meshes@ =~= self.meshes());
        }
        meshes
    }
}

/// An optional mesh as a list.
pub open spec fn opt_seq(mesh: Option<u16>) -> Seq<u16> {
    match mesh {
        Some(m) => seq![m],
        None => Seq::empty(),
    }
}

fn push_mesh(meshes: &mut Vec<u16>, mesh: Option<u16>)
    ensures
        final(meshes)@ == old(meshes)@ + opt_seq(mesh),
{
    if let Some(m) = mesh {
        meshes.push(m);
    }
    proof {
        assert(meshes@ =~= old(meshes)@ + opt_seq(mesh));
    }
}

fn same_mesh(a: Option<u16>, b: Option<u16>) -> (r: bool)
    ensures
        r == (a == b),
{
    match (a, b) {
        (Some(x), Some(y)) => x == y,
        (None, None) => true,
        _ => false,
    }
}

/// Whether two hands hold the same.
pub fn same_held(a: Option<HeldMesh>, b: Option<HeldMesh>) -> (r: bool)
    ensures
        r == (a == b),
{
    match (a, b) {
        (Some(x), Some(y)) => x == y,
        (None, None) => true,
        _ => false,
    }
}

/// What is built on a body: the last seen looks, and the entities that show them.
pub struct RigAppearance {
    pub last_held: Option<HeldMesh>,
    pub held_layers: Vec<u64>,
    pub last_equipment: RemoteEquipment,
    pub armor_layers: Vec<u64>,
    pub corpse_faded: bool,
}

/// The material that the parts change to.
#[derive(Clone, Copy, Debug, PartialEq, Eq, Structural)]
pub enum Repaint {
    /// The fading one of this corpse.
    Corpse,
    /// The one that all living bodies share.
    Living,
}

/// What a change of looks asks for.
pub struct AppearancePlan {
    /// Layers that go.
    pub despawn: Vec<u64>,
    /// Whether the hand changes, and what it holds then.
    pub hold: Option<Option<HeldMesh>>,
    /// Whether the armor changes, and the meshes of the new one.
    pub wear: Option<Vec<u16>>,
    pub repaint: Option<Repaint>,
}

/// Works out what a body's looks ask for. Nothing is rebuilt while nothing
/// changed. The new layers are recorded by whoever builds them.
pub fn appearance_plan(
    rig: &mut RigAppearance,
    held: Option<HeldMesh>,
    equipment: RemoteEquipment,
    dying: bool,
) -> (r: AppearancePlan)
    ensures
        ({
            let rehold = held != old(rig).last_held;
            let rewear = equipment != old(rig).last_equipment;
            &&& final(rig).last_held == held
            &&& final(rig).last_equipment == equipment
            &&& final(rig).corpse_faded == dying
            &&& final(rig).held_layers@ == if rehold {
                Seq::empty()
            } else {
                old(rig).held_layers@
            }
            &&& final(rig).armor_layers@ == if rewear {
                Seq::empty()
            } else {
                old(rig).armor_layers@
            }
            &&& r.despawn@ == (if rehold {
                old(rig).held_layers@
            } else {
                Seq::empty()
            }) + (if rewear {
                old(rig).armor_layers@
            } else {
                Seq::empty()
            })
            &&& r.hold == if rehold {
                Some(held)
            } else {
                None
            }
            &&& r.wear is Some == rewear
            &&& rewear ==> r.wear->0@ == equipment.meshes()
            &&& r.repaint == if dying && !old(rig).corpse_faded {
                Some(Repaint::Corpse)
            } else if !dying && old(rig).corpse_faded {
                Some(Repaint::Living)
            } else {
                None
            }
        }),
        held == old(rig).last_held && equipment == old(rig).last_equipment ==> r.despawn@.len()
            == 0 && r.hold is None && r.wear is None,
        r.despawn@.len() + final(rig).held_layers@.len() + final(rig).armor_layers@.len() == old(
            rig,
        ).held_layers@.len() + old(rig).armor_layers@.len(),
        r.repaint is Some <==> dying != old(rig).corpse_faded,
        r.repaint == Some(Repaint::Corpse) ==> dying,
{
    let mut despawn: Vec<u64> = Vec::new();
    let mut hold: Option<Option<HeldMesh>> = None;
    if !same_held(held, rig.last_held) {
        rig.last_held = held;
        despawn.append(&mut rig.held_layers);
        hold = Some(held);
    }
    let mut wear: Option<Vec<u16>> = None;
    if !equipment.same(&rig.last_equipment) {
        rig.last_equipment = equipment;
        despawn.append(&mut rig.armor_layers);
        wear = Some(equipment.worn());
    }
    let repaint: Option<Repaint> = if dying && !rig.corpse_faded {
        Some(Repaint::Corpse)
    } else if !dying && rig.corpse_faded {
        Some(Repaint::Living)
    } else {
        None
    };
    rig.corpse_faded = dying;
    proof {
        assert(despawn@ =~= (if held != old(rig).last_held {
            old(rig).held_layers@
        } else {
            Seq::empty()
        }) + (if equipment != old(rig).last_equipment {
            old(rig).armor_layers@
        } else {
            Seq::empty()
        }));
    }
    AppearancePlan { despawn, hold, wear, repaint }
}

/// Of several places of a part the last one counts.
pub proof fn last_place_of_the_part_counts(layout: Seq<PartSpec>, part: PlayerPart, k: int)
    requires
        0 <= k < layout.len(),
        layout[k].part == part,
        forall|i: int| k < i < layout.len() ==> (#[trigger] layout[i]).part != part,
    ensures
        place_of(layout, part) == Some(k),
    decreases layout.len(),
{
    if k < layout.len() - 1 {
        assert(layout[layout.len() - 1].part != part);
        let rest = layout.drop_last();
        assert(rest[k] == layout[k]);
        assert forall|i: int| k < i < rest.len() implies (#[trigger] rest[i]).part != part by {
            assert(rest[i] == layout[i]);
        }
        last_place_of_the_part_counts(rest, part, k);
    }
}

/// The entity of a part is the one that was spawned at its place.
pub proof fn parts_have_the_entity_of_their_place(
    layout: Seq<PartSpec>,
    entities: Seq<u64>,
    k: int,
)
    requires
        0 <= k < layout.len() == entities.len(),
        forall|i: int| k < i < layout.len() ==> (#[trigger] layout[i]).part != layout[k].part,
    ensures
        entity_of(layout, entities, layout[k].part) == entities[k],
{
    last_place_of_the_part_counts(layout, layout[k].part, k);
}

/// Symmetric pieces sit on both sides, the left one first, and the others on the body.
pub proof fn pieces_sit_on_both_sides(rig: PlayerRig)
    ensures
        joint_targets(rig, ArmorJoint::Body) == seq![rig.body],
        joint_targets(rig, ArmorJoint::UpperArmsBoth).contains(rig.upper_arm_l),
        joint_targets(rig, ArmorJoint::UpperArmsBoth).contains(rig.upper_arm_r),
        joint_targets(rig, ArmorJoint::ThighsBoth).contains(rig.thigh_l),
        joint_targets(rig, ArmorJoint::ThighsBoth).contains(rig.thigh_r),
        joint_targets(rig, ArmorJoint::ShinsBoth).contains(rig.shin_l),
        joint_targets(rig, ArmorJoint::ShinsBoth).contains(rig.shin_r),
        forall|joint: ArmorJoint|
            joint != ArmorJoint::Body ==> (#[trigger] joint_targets(rig, joint)).len() == 2,
        joint_targets(rig, ArmorJoint::UpperArmsBoth)[0] == rig.upper_arm_l,
        joint_targets(rig, ArmorJoint::ThighsBoth)[0] == rig.thigh_l,
        joint_targets(rig, ArmorJoint::ShinsBoth)[0] == rig.shin_l,
{
    assert(joint_targets(rig, ArmorJoint::UpperArmsBoth)[1] == rig.upper_arm_r);
    assert(joint_targets(rig, ArmorJoint::ThighsBoth)[1] == rig.thigh_r);
    assert(joint_targets(rig, ArmorJoint::ShinsBoth)[1] == rig.shin_r);
}

/// One more layer adds its entities behind those of the others.
pub proof fn layers_add_their_entities(rig: PlayerRig, joints: Seq<ArmorJoint>, next: ArmorJoint)
    ensures
        piece_targets(rig, Seq::empty()).len() == 0,
        piece_targets(rig, joints.push(next)) == piece_targets(rig, joints) + joint_targets(
            rig,
            next,
        ),
{
    assert(joints.push(next).drop_last() =~= joints);
}

/// The worn meshes are listed from head to feet, each that is worn once.
pub proof fn meshes_go_from_head_to_feet(head: u16, chest: u16, legs: u16, feet: u16)
    ensures
        (RemoteEquipment {
            head: Some(head),
            chest: Some(chest),
            legs: Some(legs),
            feet: Some(feet),
        }).meshes() == seq![head, chest, legs, feet],
        (RemoteEquipment { head: None, chest: None, legs: None, feet: None }).meshes().len() == 0,
        forall|worn: RemoteEquipment|
            #![trigger worn.meshes()]
            worn.meshes().len() == (if worn.head is Some {
                1int
            } else {
                0
            }) + (if worn.chest is Some {
                1int
            } else {
                0
            }) + (if worn.legs is Some {
                1int
            } else {
                0
            }) + (if worn.feet is Some {
                1int
            } else {
                0
            }),
{
    assert((RemoteEquipment {
        head: Some(head),
        chest: Some(chest),
        legs: Some(legs),
        feet: Some(feet),
    }).meshes() =~= seq![head, chest, legs, feet]);
}

} // verus!
