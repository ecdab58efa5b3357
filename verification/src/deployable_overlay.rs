//! The nameplates over damaged structures. Lengths are in millimetres, fades in
//! thousandths.
use vstd::prelude::*;
use crate::color::{Rgba, opaque, shade, solid, translucent};
use crate::fraction::{
    Fraction, byte_share, rounded_share, rounded_share_is_the_nearest, share_stays_within_scale,
};
use crate::items::{
    DeployableKind, ItemDefinition, Vec3Net, first_row_of_the_id_is_found, item_definition,
    item_of,
};
use crate::text::{concat2, decimal, digits, opt_text};

verus! {

/// The gap between the top of a structure and its nameplate.
pub const NAMEPLATE_TOP_CLEARANCE: u32 = 200;

/// The name of a structure with its tier; others have no nameplate.
pub fn kind_label(kind: DeployableKind) -> (r: Option<String>)
    ensures
        opt_text(r) == match kind {
            DeployableKind::Workbench { tier } => Some("Workbench T"@ + digits(tier as nat)),
            DeployableKind::Furnace { tier } => Some("Furnace T"@ + digits(tier as nat)),
            _ => None,
        },
{
    match kind {
        DeployableKind::Workbench { tier } => {
            let number = decimal(tier as u64);
            Some(concat2("Workbench T", number.as_str()))
        },
        DeployableKind::Furnace { tier } => {
            let number = decimal(tier as u64);
            Some(concat2("Furnace T", number.as_str()))
        },
        _ => None,
    }
}

/// How solid a nameplate is at a distance: in full within reach, and gone one
/// metre beyond it.
pub open spec fn fade_at(distance: u32, reach: u32) -> int {
    if distance <= reach {
        1000
    } else if distance - reach >= 1000 {
        0
    } else {
        1000 - (distance - reach)
    }
}

/// Finds how solid a nameplate is at a distance.
pub fn distance_fade(distance: u32, reach: u32) -> (r: i64)
    ensures
        r == fade_at(distance, reach),
{
    if distance <= reach {
        1000
    } else if distance - reach >= 1000 {
        0
    } else {
        1000 - (distance - reach) as i64
    }
}

/// A fade between nothing and all.
pub open spec fn clamped_fade(fade: i64) -> int {
    if fade < 0 {
        0
    } else if fade > 1000 {
        1000
    } else {
        fade as int
    }
}

/// An opacity under a fade.
pub open spec fn scaled_alpha(base: u8, fade: i64) -> u8 {
    rounded_share(base as int, clamped_fade(fade), 1000) as u8
}

/// Fades an opacity.
pub fn scaled(base: u8, fade: i64) -> (r: u8)
    ensures
        r == scaled_alpha(base, fade),
        r <= base,
{
    let part: u64 = if fade < 0 {
        0
    } else if fade > 1000 {
        1000
    } else {
        fade as u64
    };
    byte_share(base, part, 1000)
}

/// Gives a solid colour an opacity.
pub fn with_alpha(color: Rgba, alpha: u8) -> (r: Rgba)
    ensures
        r == shade(color.r, color.g, color.b, alpha),
        alpha == 255 ==> r == solid(color.r, color.g, color.b),
{
    translucent(color.r, color.g, color.b, alpha)
}

/// The share of its health that a structure has left.
pub open spec fn health_share(health: u32, max_health: u32) -> Fraction {
    let max = if max_health < 1 {
        1
    } else {
        max_health
    };
    Fraction {
        part: (if health > max {
            max
        } else {
            health
        }) as u128,
        whole: max as u128,
    }
}

/// Finds the share of its health that a structure has left.
pub fn health_fraction(health: u32, max_health: u32) -> (r: Fraction)
    ensures
        r == health_share(health, max_health),
        r.valid(),
{
    let max: u32 = if max_health < 1 {
        1
    } else {
        max_health
    };
    Fraction {
        part: (if health > max {
            max
        } else {
            health
        }) as u128,
        whole: max as u128,
    }
}

/// The colour of a health bar: green above six tenths, yellow above three, else
/// red.
pub open spec fn health_color(share: Fraction) -> Rgba {
    if 10 * share.part > 6 * share.whole {
        solid(125, 196, 55)
    } else if 10 * share.part > 3 * share.whole {
        solid(232, 188, 64)
    } else {
        solid(228, 96, 78)
    }
}

/// Picks the colour of a health bar.
pub fn health_fill_color(share: Fraction) -> (r: Rgba)
    requires
        share.whole <= u64::MAX,
        share.part <= u64::MAX,
    ensures
        r == health_color(share),
{
    if 10 * share.part > 6 * share.whole {
        opaque(125, 196, 55)
    } else if 10 * share.part > 3 * share.whole {
        opaque(232, 188, 64)
    } else {
        opaque(228, 96, 78)
    }
}

/// A structure that is drawn.
#[derive(Clone, Copy, Debug, PartialEq, Eq, Structural)]
pub struct PlacedDeployable {
    pub id: u64,
    pub position: Vec3Net,
}

/// What the server replicates of a structure.
pub struct ReplicatedDeployable {
    pub id: u64,
    pub item_id: String,
    pub kind: DeployableKind,
    pub health: u32,
    pub max_health: u32,
}

/// A structure that may have a nameplate.
#[derive(Clone, Copy, Debug, PartialEq, Eq, Structural)]
pub struct DeployableOverlayEntry {
    pub id: u64,
    pub kind: DeployableKind,
    pub health: u32,
    pub max_health: u32,
    /// Where the structure stands.
    pub position: Vec3Net,
    /// The height of the nameplate, just over the top.
    pub anchor_height: i64,
    /// The height that is looked at, the middle of the body.
    pub look_height: i64,
}

/// The replicated state of a structure; the last one where several have the id.
pub open spec fn state_of(replicated: Seq<ReplicatedDeployable>, id: u64) -> Option<int>
    decreases replicated.len(),
{
    if replicated.len() == 0 {
        None
    } else if replicated.last().id == id {
        Some(replicated.len() - 1)
    } else {
        state_of(replicated.drop_last(), id)
    }
}

/// The entry of a structure in a given state.
pub open spec fn entry_of(
    items: Seq<ItemDefinition>,
    placed: PlacedDeployable,
    state: ReplicatedDeployable,
) -> Option<DeployableOverlayEntry> {
    match item_of(items, state.item_id@) {
        Some(definition) => match definition.deployable {
            Some(profile) => Some(
                DeployableOverlayEntry {
                    id: state.id,
                    kind: state.kind,
                    health: state.health,
                    max_health: state.max_health,
                    position: placed.position,
                    anchor_height: (placed.position.y + 2 * profile.collider_half_height
                        + NAMEPLATE_TOP_CLEARANCE) as i64,
                    look_height: (placed.position.y + profile.collider_half_height) as i64,
                },
            ),
            None => None,
        },
        None => None,
    }
}

/// A structure with the id was drawn at an earlier place.
pub open spec fn drawn_before(placed: Seq<PlacedDeployable>, i: int, id: u64) -> bool {
    exists|j: int| 0 <= j < i && (#[trigger] placed[j]).id == id
}

/// The entries of the first structures, in order. Each state is used once.
pub open spec fn entries_of(
    items: Seq<ItemDefinition>,
    placed: Seq<PlacedDeployable>,
    replicated: Seq<ReplicatedDeployable>,
    count: int,
) -> Seq<DeployableOverlayEntry>
    decreases count,
{
    if count <= 0 {
        Seq::empty()
    } else {
        let rest = entries_of(items, placed, replicated, count - 1);
        let here = placed[count - 1];
        match state_of(replicated, here.id) {
            Some(at) => if drawn_before(placed, count - 1, here.id) {
                rest
            } else {
                match entry_of(items, here, replicated[at]) {
                    Some(entry) => rest.push(entry),
                    None => rest,
                }
            },
            None => rest,
        }
    }
}

fn find_state(replicated: &Vec<ReplicatedDeployable>, id: u64) -> (r: Option<usize>)
    ensures
        match r {
            Some(i) => state_of(replicated@, id) == Some(i as int) && i < replicated@.len(),
            None => state_of(replicated@, id) is None,
        },
{
    let mut i: usize = replicated.len();
    proof {
        assert(replicated@.take(i as int) =~= replicated@);
    }
    while i > 0
        invariant
            i <= replicated.len(),
            state_of(replicated@, id) == state_of(replicated@.take(i as int), id),
        decreases i,
    {
        proof {
            assert(replicated@.take(i as int).drop_last() =~= replicated@.take(i - 1));
            assert(replicated@.take(i as int).last() == replicated@[i - 1]);
        }
        i = i - 1;
        if replicated[i].id == id {
            return Some(i);
        }
    }
    None
}

fn was_drawn_before(placed: &Vec<PlacedDeployable>, count: usize, id: u64) -> (r: bool)
    requires
        count <= placed.len(),
    ensures
        r == drawn_before(placed@, count as int, id),
{
    let mut i: usize = 0;
    while i < count
        invariant
            i <= count <= placed.len(),
            forall|k: int| 0 <= k < i ==> (#[trigger] placed@[k]).id != id,
        decreases count - i,
    {
        if placed[i].id == id {
            assert(placed@[i as int].id == id);
            return true;
        }
        i = i + 1;
    }
    false
}

/// Pairs the structures that are drawn with their replicated states.
pub fn collect_deployable_overlay_entries(
    items: &Vec<ItemDefinition>,
    placed: &Vec<PlacedDeployable>,
    replicated: &Vec<ReplicatedDeployable>,
) -> (r: Vec<DeployableOverlayEntry>)
    ensures
        r@ == entries_of(items@, placed@, replicated@, placed@.len() as int),
{
    let mut entries: Vec<DeployableOverlayEntry> = Vec::new();
    let mut i: usize = 0;
    while i < placed.len()
        invariant
            i <= placed.len(),
            entries@ == entries_of(items@, placed@, replicated@, i as int),
        decreases placed.len() - i,
    {
        let here = placed[i];
        if let Some(at) = find_state(replicated, here.id) {
            if !was_drawn_before(placed, i, here.id) {
                let state = &replicated[at];
                if let Some(definition) = item_definition(items, state.item_id.as_str()) {
                    if let Some(profile) = &definition.deployable {
                        let ground: i64 = here.position.y as i64;
                        let half: i64 = profile.collider_half_height as i64;
                        entries.push(
                            DeployableOverlayEntry {
                                id: state.id,
                                kind: state.kind,
                                health: state.health,
                                max_health: state.max_health,
                                position: here.position,
                                anchor_height: ground + 2 * half + NAMEPLATE_TOP_CLEARANCE as i64,
                                look_height: ground + half,
                            },
                        );
                    }
                }
            }
        }
        i = i + 1;
    }
    entries
}

/// Where a structure is seen.
#[derive(Clone, Copy, Debug, PartialEq, Eq, Structural)]
pub struct Sight {
    pub distance: u32,
    /// Whether it is within the cone that is looked at.
    pub looked_at: bool,
    pub on_screen: bool,
}

/// What a nameplate shows.
pub struct Nameplate {
    pub label: Option<String>,
    pub background: Rgba,
    pub border: Rgba,
    pub label_color: Rgba,
    pub bar_background: Rgba,
    pub bar: Fraction,
    pub bar_color: Rgba,
}

/// How solid the nameplate of a structure is: it keeps silent at full health.
pub open spec fn plate_fade(entry: DeployableOverlayEntry, distance: u32, reach: u32) -> int {
    if entry.health < entry.max_health {
        fade_at(distance, reach)
    } else {
        0
    }
}

/// Whether a structure has a nameplate at all, if only an invisible one.
pub open spec fn has_plate(sight: Sight, reach: u32) -> bool {
    sight.distance <= reach + 1000 && sight.looked_at && sight.on_screen
}

/// Draws up the nameplate of a structure, which is near, looked at and on screen.
pub fn deployable_label(entry: &DeployableOverlayEntry, sight: Sight, reach: u32) -> (r: Option<
    Nameplate,
>)
    ensures
        r is Some == has_plate(sight, reach),
        r matches Some(plate) ==> {
            let fade = plate_fade(*entry, sight.distance, reach) as i64;
            let share = health_share(entry.health, entry.max_health);
            let fill = health_color(share);
            &&& opt_text(plate.label) == match entry.kind {
                DeployableKind::Workbench { tier } => Some("Workbench T"@ + digits(tier as nat)),
                DeployableKind::Furnace { tier } => Some("Furnace T"@ + digits(tier as nat)),
                _ => None,
            }
            &&& plate.background == shade(8, 10, 14, scaled_alpha(186, fade))
            &&& plate.border == shade(120, 138, 160, scaled_alpha(120, fade))
            &&& plate.label_color == shade(232, 238, 246, scaled_alpha(255, fade))
            &&& plate.bar_background == shade(30, 32, 38, scaled_alpha(220, fade))
            &&& plate.bar == share
            &&& plate.bar_color == shade(fill.r, fill.g, fill.b, scaled_alpha(255, fade))
        },
{
    let farthest: u64 = reach as u64 + 1000;
    if sight.distance as u64 > farthest || !sight.looked_at || !sight.on_screen {
        return None;
    }
    let fade: i64 = if entry.health < entry.max_health {
        distance_fade(sight.distance, reach)
    } else {
        0
    };
    let share = health_fraction(entry.health, entry.max_health);
    let solid_alpha = scaled(255, fade);
    Some(
        Nameplate {
            label: kind_label(entry.kind),
            background: translucent(8, 10, 14, scaled(186, fade)),
            border: translucent(120, 138, 160, scaled(120, fade)),
            label_color: with_alpha(opaque(232, 238, 246), solid_alpha),
            bar_background: translucent(30, 32, 38, scaled(220, fade)),
            bar: share,
            bar_color: with_alpha(health_fill_color(share), solid_alpha),
        },
    )
}

/// Undamaged structures keep silent, whatever the distance.
pub proof fn undamaged_structures_are_silent(
    entry: DeployableOverlayEntry,
    distance: u32,
    reach: u32,
)
    requires
        entry.health >= entry.max_health,
    ensures
        scaled_alpha(255, plate_fade(entry, distance, reach) as i64) == 0,
        scaled_alpha(186, plate_fade(entry, distance, reach) as i64) == 0,
{
}

/// A nameplate fades with the distance, and is gone where it is not drawn.
pub proof fn nameplates_fade_with_distance(near: u32, far: u32, reach: u32)
    requires
        near <= far,
    ensures
        fade_at(far, reach) <= fade_at(near, reach),
        0 <= fade_at(far, reach) <= 1000,
        far > reach + 1000 ==> fade_at(far, reach) == 0,
{
}

/// Within reach a nameplate is solid, and beyond it loses a thousandth with each
/// millimetre until it is gone a metre out.
pub proof fn nameplates_fade_over_a_metre(reach: u32, beyond: u32)
    requires
        reach + beyond <= u32::MAX,
    ensures
        fade_at(reach, reach) == 1000,
        beyond <= 1000 ==> fade_at((reach + beyond) as u32, reach) == 1000 - beyond,
        beyond >= 1000 ==> fade_at((reach + beyond) as u32, reach) == 0,
{
}

/// A faded opacity is the nearest to its share; a full fade leaves the opacity as it is
/// and none leaves nothing.
pub proof fn faded_opacity_is_the_nearest(base: u8, fade: i64)
    ensures
        scaled_alpha(base, 1000) == base,
        scaled_alpha(base, 0) == 0,
        fade > 1000 ==> scaled_alpha(base, fade) == base,
        fade < 0 ==> scaled_alpha(base, fade) == 0,
        0 <= fade <= 1000 ==> -1000 < 2 * (scaled_alpha(base, fade) * 1000 - base * fade) <= 1000,
{
    let part = clamped_fade(fade);
    share_stays_within_scale(base as int, part, 1000);
    share_stays_within_scale(base as int, 1000, 1000);
    share_stays_within_scale(base as int, 0, 1000);
    rounded_share_is_the_nearest(base as int, part, 1000);
    assert(base as int * part == base * part);
}

/// The bar shows the health out of the most there can be: full from there up, and empty
/// without any. A structure without a most counts as one with one point.
pub proof fn bar_shows_the_health_left(health: u32, max: u32)
    ensures
        max > 0 ==> health_share(health, max).whole == max,
        0 < max && health <= max ==> health_share(health, max).part == health,
        health >= max && max > 0 ==> health_share(health, max).part == health_share(
            health,
            max,
        ).whole,
        health_share(0, max).part == 0,
        health_share(health, 0).whole == 1,
{
}

/// The bar is green above six tenths, red up to three tenths, and yellow in between.
pub proof fn bar_colour_tells_the_damage(share: Fraction)
    requires
        share.valid(),
    ensures
        health_color(share) == solid(125, 196, 55) <==> 10 * share.part > 6 * share.whole,
        health_color(share) == solid(228, 96, 78) <==> 10 * share.part <= 3 * share.whole,
        health_color(share) == solid(232, 188, 64) <==> 10 * share.part > 3 * share.whole && 10
            * share.part <= 6 * share.whole,
{
}

/// Of several states of an id the last one counts.
pub proof fn last_state_of_the_id_counts(replicated: Seq<ReplicatedDeployable>, id: u64, k: int)
    requires
        0 <= k < replicated.len(),
        replicated[k].id == id,
        forall|i: int| k < i < replicated.len() ==> (#[trigger] replicated[i]).id != id,
    ensures
        state_of(replicated, id) == Some(k),
    decreases replicated.len(),
{
    if k < replicated.len() - 1 {
        assert(replicated[replicated.len() - 1].id != id);
        let rest = replicated.drop_last();
        assert(rest[k] == replicated[k]);
        assert forall|i: int| k < i < rest.len() implies (#[trigger] rest[i]).id != id by {
            assert(rest[i] == replicated[i]);
        }
        last_state_of_the_id_counts(rest, id, k);
    }
}

proof fn state_has_its_id(replicated: Seq<ReplicatedDeployable>, id: u64)
    ensures
        state_of(replicated, id) matches Some(at) ==> 0 <= at < replicated.len()
            && replicated[at].id == id,
        state_of(replicated, id) is None ==> forall|i: int|
            0 <= i < replicated.len() ==> (#[trigger] replicated[i]).id != id,
    decreases replicated.len(),
{
    if replicated.len() > 0 && replicated.last().id != id {
        state_has_its_id(replicated.drop_last(), id);
        assert forall|i: int|
            state_of(replicated, id) is None && 0 <= i < replicated.len() implies (
        #[trigger] replicated[i]).id != id by {
            if i < replicated.len() - 1 {
                assert(replicated.drop_last()[i] == replicated[i]);
            }
        }
    }
}

/// An entry stands for its structure: state and health as replicated, the place as
/// drawn, the nameplate over the top of the body and the look at its middle.
pub proof fn entry_stands_for_its_structure(
    items: Seq<ItemDefinition>,
    placed: PlacedDeployable,
    state: ReplicatedDeployable,
    k: int,
)
    requires
        0 <= k < items.len(),
        items[k].id@ == state.item_id@,
        forall|i: int| 0 <= i < k ==> (#[trigger] items[i]).id@ != state.item_id@,
    ensures
        entry_of(items, placed, state) is Some <==> items[k].deployable is Some,
        entry_of(items, placed, state) matches Some(entry) ==> {
            let half = items[k].deployable->0.collider_half_height;
            &&& entry.id == state.id
            &&& entry.kind == state.kind
            &&& entry.health == state.health
            &&& entry.max_health == state.max_health
            &&& entry.position == placed.position
            &&& entry.look_height == placed.position.y + half
            &&& entry.anchor_height == entry.look_height + half + NAMEPLATE_TOP_CLEARANCE
        },
{
    first_row_of_the_id_is_found(items, state.item_id@, k);
}

/// The first drawn structure of each id that is replicated and has a body has an entry.
pub proof fn every_drawn_structure_has_an_entry(
    items: Seq<ItemDefinition>,
    placed: Seq<PlacedDeployable>,
    replicated: Seq<ReplicatedDeployable>,
    count: int,
    k: int,
    at: int,
)
    requires
        0 <= k < count <= placed.len(),
        0 <= at < replicated.len(),
        replicated[at].id == placed[k].id,
        forall|i: int|
            at < i < replicated.len() ==> (#[trigger] replicated[i]).id != placed[k].id,
        forall|i: int| 0 <= i < k ==> (#[trigger] placed[i]).id != placed[k].id,
        entry_of(items, placed[k], replicated[at]) is Some,
    ensures
        entries_of(items, placed, replicated, count).contains(
            entry_of(items, placed[k], replicated[at])->0,
        ),
    decreases count,
{
    let entry = entry_of(items, placed[k], replicated[at])->0;
    let rest = entries_of(items, placed, replicated, count - 1);
    let all = entries_of(items, placed, replicated, count);
    last_state_of_the_id_counts(replicated, placed[k].id, at);
    if k == count - 1 {
        assert(!drawn_before(placed, k, placed[k].id));
        assert(all[all.len() - 1] == entry);
    } else {
        every_drawn_structure_has_an_entry(items, placed, replicated, count - 1, k, at);
        let j = choose|j: int| 0 <= j < rest.len() && rest[j] == entry;
        assert(all[j] == entry);
    }
}

/// Every entry comes from a drawn structure and its replicated state.
pub proof fn every_entry_has_its_structure(
    items: Seq<ItemDefinition>,
    placed: Seq<PlacedDeployable>,
    replicated: Seq<ReplicatedDeployable>,
    count: int,
    j: int,
) -> (r: (int, int))
    requires
        0 <= count <= placed.len(),
        0 <= j < entries_of(items, placed, replicated, count).len(),
    ensures
        0 <= r.0 < count,
        0 <= r.1 < replicated.len(),
        replicated[r.1].id == placed[r.0].id,
        entry_of(items, placed[r.0], replicated[r.1]) == Some(
            entries_of(items, placed, replicated, count)[j],
        ),
    decreases count,
{
    let rest = entries_of(items, placed, replicated, count - 1);
    state_has_its_id(replicated, placed[count - 1].id);
    if j < rest.len() {
        let r = every_entry_has_its_structure(items, placed, replicated, count - 1, j);
        assert(entries_of(items, placed, replicated, count)[j] == rest[j]);
        r
    } else {
        (count - 1, state_of(replicated, placed[count - 1].id)->0)
    }
}

/// Only what is near, looked at and on screen has a nameplate, and only damage shows.
pub proof fn plates_show_damage_in_sight(
    entry: DeployableOverlayEntry,
    sight: Sight,
    reach: u32,
)
    ensures
        has_plate(sight, reach) <==> sight.looked_at && sight.on_screen && sight.distance <= reach
            + 1000,
        entry.health < entry.max_health && sight.distance <= reach ==> plate_fade(
            entry,
            sight.distance,
            reach,
        ) == 1000,
        entry.health >= entry.max_health ==> plate_fade(entry, sight.distance, reach) == 0,
{
}

/// The nameplate floats a fifth of a metre over the top of the body, and the look is
/// half the body above the ground.
pub proof fn nameplates_float_over_the_top(
    items: Seq<ItemDefinition>,
    placed: PlacedDeployable,
    state: ReplicatedDeployable,
)
    requires
        entry_of(items, placed, state) is Some,
    ensures
        ({
            let entry = entry_of(items, placed, state)->0;
            let body = 2 * (entry.look_height - placed.position.y);
            entry.anchor_height == placed.position.y + body + 200
        }),
{
}

} // verus!
