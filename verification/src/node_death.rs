//! What a resource node does when it is used up. Times are in microseconds,
//! lengths in millimetres.
use vstd::prelude::*;
use crate::fraction::Fraction;
use crate::items::Vec3Net;

verus! {

/// How long a felled trunk lies before it fades.
pub const TREE_LANDED_HOLD: u64 = 550_000;

/// How long a felled trunk takes to fade.
pub const TREE_FADE_DURATION: u64 = 1_050_000;

/// How long a felled trunk bounces.
pub const TREE_OVERSHOOT_DURATION: u64 = 280_000;

/// The longest step of a falling tree.
pub const LONGEST_STEP: u64 = 50_000;

/// How a node goes. Bursts start above the node, with a strength in thousandths.
#[derive(Clone, Copy, Debug, PartialEq, Eq, Structural)]
pub enum NodeDeath {
    Nothing,
    /// It falls over, with a crash.
    FellTree,
    PickupBurst { seed: u32, lift: u32, strength: u32 },
    /// It breaks, with a sound and a kick of the camera.
    ShatterOre { seed: u32, lift: u32, strength: u32 },
}

/// The seed of a node's burst.
pub open spec fn seed_of(node_id: u64) -> u32 {
    ((node_id % 0x1_0000_0000) * 0xC2B2_AE35 % 0x1_0000_0000) as u32
}

/// The seed of a node's burst: its number in 32 bits times a large odd number.
pub fn burst_seed(node_id: u64) -> (r: u32)
    ensures
        r == seed_of(node_id),
{
    let low: u64 = node_id % 0x1_0000_0000;
    proof {
        assert(0 <= low * 0xC2B2_AE35 <= 0xffff_ffff * 0xC2B2_AE35);
    }
    (low * 0xC2B2_AE35 % 0x1_0000_0000) as u32
}

/// Decides how a node goes: trees fall, as far as their height is known, what hands
/// pick is gone in a small burst, and the rest shatters.
pub fn node_death(node_id: u64, is_tree: bool, is_crude: bool, height_known: bool) -> (r: NodeDeath)
    ensures
        r == if is_tree {
            if height_known {
                NodeDeath::FellTree
            } else {
                NodeDeath::Nothing
            }
        } else if is_crude {
            NodeDeath::PickupBurst { seed: seed_of(node_id), lift: 120, strength: 1500 }
        } else {
            NodeDeath::ShatterOre { seed: seed_of(node_id), lift: 350, strength: 1000 }
        },
{
    if is_tree {
        if height_known {
            NodeDeath::FellTree
        } else {
            NodeDeath::Nothing
        }
    } else if is_crude {
        NodeDeath::PickupBurst { seed: burst_seed(node_id), lift: 120, strength: 1500 }
    } else {
        NodeDeath::ShatterOre { seed: burst_seed(node_id), lift: 350, strength: 1000 }
    }
}

/// The player stands far enough from the trunk to tell which way is away: more
/// than a tenth of a metre.
pub open spec fn tells_away(tree: Vec3Net, player: Option<Vec3Net>) -> bool {
    player matches Some(p) && (tree.x - p.x) * (tree.x - p.x) + (tree.z - p.z) * (tree.z - p.z)
        > 10_000
}

/// Whether a tree falls away from the player, or the way its node always falls.
pub fn falls_away(tree: Vec3Net, player: Option<Vec3Net>) -> (r: bool)
    ensures
        r == tells_away(tree, player),
{
    match player {
        Some(p) => {
            let dx: i64 = tree.x as i64 - p.x as i64;
            let dz: i64 = tree.z as i64 - p.z as i64;
            proof {
                assert(0 <= dx * dx < 0x1_0000_0000_0000_0000 && 0 <= dz * dz
                    < 0x1_0000_0000_0000_0000) by (nonlinear_arith)
                    requires
                        -0x1_0000_0000 < dx < 0x1_0000_0000,
                        -0x1_0000_0000 < dz < 0x1_0000_0000,
                ;
            }
            dx as i128 * dx as i128 + dz as i128 * dz as i128 > 10_000
        },
        None => false,
    }
}

/// A tree that falls or has fallen.
#[derive(Clone, Copy, Debug, PartialEq, Eq)]
pub struct FellingTree {
    pub age: u64,
    pub landed_age: Option<u64>,
    pub landing_kick_fired: bool,
    pub landing_chips_fired: bool,
}

/// A tree that starts to fall.
pub fn felling_tree() -> (r: FellingTree)
    ensures
        r == (FellingTree {
            age: 0,
            landed_age: None,
            landing_kick_fired: false,
            landing_chips_fired: false,
        }),
        r.wf(),
{
    FellingTree {
        age: 0,
        landed_age: None,
        landing_kick_fired: false,
        landing_chips_fired: false,
    }
}

impl FellingTree {
    /// A tree lands while it lives, and what its landing sets off comes with it.
    pub open spec fn wf(self) -> bool {
        &&& self.landed_age matches Some(at) ==> at <= self.age
        &&& self.landing_kick_fired ==> self.landed_age is Some
        &&& self.landing_chips_fired ==> self.landed_age is Some
    }
}

/// The part of a frame that a falling tree takes.
pub open spec fn step_of(delta: u64) -> int {
    if delta > LONGEST_STEP {
        LONGEST_STEP as int
    } else {
        delta as int
    }
}

/// What a frame does to a tree.
#[derive(Clone, Copy, Debug, PartialEq, Eq)]
pub struct TreeStep {
    /// The step to swing the trunk by, while it falls.
    pub swing: Option<u64>,
    /// Whether the camera is kicked.
    pub kick: bool,
    /// Whether chips fly.
    pub chips: bool,
    /// How far the bounce is, while it lasts.
    pub bounce: Option<Fraction>,
    /// How much of the trunk is left, once it fades.
    pub left: Option<Fraction>,
    pub gone: bool,
}

/// How much of a trunk is left some time after it landed.
pub open spec fn left_of(since: int) -> Option<Fraction> {
    if since < TREE_LANDED_HOLD {
        None
    } else {
        let faded = since - TREE_LANDED_HOLD;
        Some(
            Fraction {
                part: (if faded > TREE_FADE_DURATION {
                    0
                } else {
                    TREE_FADE_DURATION - faded
                }) as u128,
                whole: TREE_FADE_DURATION as u128,
            },
        )
    }
}

/// How far the bounce is some time after the landing.
pub open spec fn bounce_of(since: int) -> Option<Fraction> {
    if since >= TREE_OVERSHOOT_DURATION {
        None
    } else {
        Some(Fraction { part: since as u128, whole: TREE_OVERSHOOT_DURATION as u128 })
    }
}

/// Lets a tree go on for a frame. `lands` tells whether this swing brings it to
/// the ground. What the landing sets off comes once.
pub fn tick_felling_tree(tree: &mut FellingTree, delta: u64, lands: bool) -> (r: TreeStep)
    requires
        old(tree).wf(),
        old(tree).age <= u64::MAX - LONGEST_STEP,
    ensures
        final(tree).wf(),
        r.kick ==> !old(tree).landing_kick_fired && final(tree).landing_kick_fired,
        r.chips ==> !old(tree).landing_chips_fired && final(tree).landing_chips_fired,
        old(tree).landing_kick_fired ==> final(tree).landing_kick_fired,
        old(tree).landing_chips_fired ==> final(tree).landing_chips_fired,
        ({
            let step = step_of(delta);
            let age = old(tree).age + step;
            let landed = match old(tree).landed_age {
                Some(at) => Some(at),
                None => if lands && step > 0 {
                    Some(age as u64)
                } else {
                    None
                },
            };
            if step == 0 {
                &&& *final(tree) == *old(tree)
                &&& r == (TreeStep {
                    swing: None,
                    kick: false,
                    chips: false,
                    bounce: None,
                    left: None,
                    gone: false,
                })
            } else {
                &&& *final(tree) == (FellingTree {
                    age: age as u64,
                    landed_age: landed,
                    landing_kick_fired: old(tree).landing_kick_fired || landed is Some,
                    landing_chips_fired: old(tree).landing_chips_fired || landed is Some,
                })
                &&& r.swing == if old(tree).landed_age is None {
                    Some(step as u64)
                } else {
                    None
                }
                &&& r.kick == (landed is Some && !old(tree).landing_kick_fired)
                &&& r.chips == (landed is Some && !old(tree).landing_chips_fired)
                &&& match landed {
                    Some(at) => {
                        &&& r.bounce == bounce_of(age - at)
                        &&& r.left == left_of(age - at)
                        &&& r.gone == (age - at >= TREE_LANDED_HOLD + TREE_FADE_DURATION)
                    },
                    None => r.bounce is None && r.left is None && !r.gone,
                }
            }
        }),
{
    let step: u64 = if delta > LONGEST_STEP {
        LONGEST_STEP
    } else {
        delta
    };
    if step == 0 {
        return TreeStep {
            swing: None,
            kick: false,
            chips: false,
            bounce: None,
            left: None,
            gone: false,
        };
    }
    tree.age = tree.age + step;
    let swing: Option<u64> = if tree.landed_age.is_none() {
        Some(step)
    } else {
        None
    };
    if tree.landed_age.is_none() && lands {
        tree.landed_age = Some(tree.age);
    }
    match tree.landed_age {
        Some(at) => {
            let since: u64 = tree.age - at;
            let kick: bool = !tree.landing_kick_fired;
            let chips: bool = !tree.landing_chips_fired;
            tree.landing_kick_fired = true;
            tree.landing_chips_fired = true;
            let bounce: Option<Fraction> = if since >= TREE_OVERSHOOT_DURATION {
                None
            } else {
                Some(Fraction { part: since as u128, whole: TREE_OVERSHOOT_DURATION as u128 })
            };
            if since < TREE_LANDED_HOLD {
                return TreeStep { swing, kick, chips, bounce, left: None, gone: false };
            }
            let faded: u64 = since - TREE_LANDED_HOLD;
            let rest: u64 = if faded > TREE_FADE_DURATION {
                0
            } else {
                TREE_FADE_DURATION - faded
            };
            TreeStep {
                swing,
                kick,
                chips,
                bounce,
                left: Some(Fraction { part: rest as u128, whole: TREE_FADE_DURATION as u128 }),
                gone: faded >= TREE_FADE_DURATION,
            }
        },
        None => TreeStep {
            swing,
            kick: false,
            chips: false,
            bounce: None,
            left: None,
            gone: false,
        },
    }
}

/// A fading trunk only loses: later there is never more of it left, and nothing
/// when it goes.
pub proof fn trunks_only_fade(earlier: int, later: int)
    requires
        TREE_LANDED_HOLD <= earlier <= later,
    ensures
        left_of(earlier) is Some,
        left_of(later) is Some,
        left_of(later)->0.part <= left_of(earlier)->0.part,
        left_of(earlier)->0.valid(),
        later >= TREE_LANDED_HOLD + TREE_FADE_DURATION ==> left_of(later)->0.part == 0,
{
}

/// A trunk lies in full until its hold is over, then fades evenly and is gone with the
/// fade: what is left and the time since make up the whole.
pub proof fn trunks_fade_evenly(since: int)
    requires
        0 <= since,
    ensures
        left_of(since) is None <==> since < TREE_LANDED_HOLD,
        TREE_LANDED_HOLD <= since <= TREE_LANDED_HOLD + TREE_FADE_DURATION ==> left_of(
            since,
        )->0.part + since == TREE_LANDED_HOLD + TREE_FADE_DURATION && left_of(since)->0.whole
            == TREE_FADE_DURATION,
        since > TREE_LANDED_HOLD + TREE_FADE_DURATION ==> left_of(since)->0.part == 0,
{
}

/// A bounce runs evenly from the landing to its end.
pub proof fn bounces_run_to_their_end(since: int)
    requires
        0 <= since,
    ensures
        bounce_of(since) is Some <==> since < TREE_OVERSHOOT_DURATION,
        bounce_of(since) matches Some(share) ==> share.part == since && share.whole
            == TREE_OVERSHOOT_DURATION,
{
}

/// A frame counts in full up to the longest step.
pub proof fn long_frames_are_cut(delta: u64)
    ensures
        delta <= LONGEST_STEP ==> step_of(delta) == delta,
        delta >= LONGEST_STEP ==> step_of(delta) == LONGEST_STEP,
{
}

/// The trunk falls away from a player who stands more than a tenth of a metre off in
/// either direction, whatever the height, and from nobody else.
pub proof fn away_takes_a_tenth_of_a_metre(tree: Vec3Net, player: Vec3Net)
    ensures
        !tells_away(tree, None),
        !tells_away(tree, Some(tree)),
        tree.z == player.z ==> (tells_away(tree, Some(player)) <==> tree.x - player.x > 100
            || tree.x - player.x < -100),
        tree.x == player.x ==> (tells_away(tree, Some(player)) <==> tree.z - player.z > 100
            || tree.z - player.z < -100),
        tells_away(tree, Some(player)) == tells_away(player, Some(tree)),
        tells_away(tree, Some(player)) == tells_away(tree, Some(Vec3Net { y: 0, ..player })),
{
    let dx = tree.x - player.x;
    let dz = tree.z - player.z;
    assert(dx * dx > 10_000 <==> dx > 100 || dx < -100) by (nonlinear_arith);
    assert(dz * dz > 10_000 <==> dz > 100 || dz < -100) by (nonlinear_arith);
    assert(dx == 0 ==> dx * dx == 0) by (nonlinear_arith);
    assert(dz == 0 ==> dz * dz == 0) by (nonlinear_arith);
    assert((player.x - tree.x) * (player.x - tree.x) == dx * dx && (player.z - tree.z) * (player.z
        - tree.z) == dz * dz) by (nonlinear_arith)
        requires
            dx == tree.x - player.x,
            dz == tree.z - player.z,
    ;
    let zero = tree.x - tree.x;
    assert(zero * zero == 0) by (nonlinear_arith)
        requires
            zero == 0,
    ;
    assert((tree.z - tree.z) * (tree.z - tree.z) == 0) by (nonlinear_arith);
    assert((tree.x - tree.x) * (tree.x - tree.x) == 0) by (nonlinear_arith);
}

/// The seed goes through the 32-bit numbers by a large odd step: one node further turns
/// it by just that.
pub proof fn seeds_follow_the_number(node_id: u64)
    requires
        node_id < 0xffff_ffff,
    ensures
        (seed_of((node_id + 1) as u64) - seed_of(node_id) - 0xC2B2_AE35) % 0x1_0000_0000 == 0,
{
    let w: int = 0x1_0000_0000;
    let a = node_id * 0xC2B2_AE35;
    let b = (node_id + 1) * 0xC2B2_AE35;
    let p = a % w;
    let q = b % w;
    vstd::arithmetic::div_mod::lemma_fundamental_div_mod(a, w);
    vstd::arithmetic::div_mod::lemma_fundamental_div_mod(b, w);
    vstd::arithmetic::div_mod::lemma_mod_bound(a, w);
    vstd::arithmetic::div_mod::lemma_mod_bound(b, w);
    assert(seed_of(node_id) == p);
    assert(seed_of((node_id + 1) as u64) == q);
    assert(b - a == 0xC2B2_AE35);
    let k = a / w - b / w;
    assert(q - p - 0xC2B2_AE35 == k * w) by (nonlinear_arith)
        requires
            a == w * (a / w) + p,
            b == w * (b / w) + q,
            b - a == 0xC2B2_AE35,
            k == a / w - b / w,
    ;
    vstd::arithmetic::div_mod::lemma_mod_multiples_basic(k, w);
}

/// A trunk lies for just over half a second, is gone a good second and a half after it
/// landed, and bounces for a little over a quarter of a second; no frame counts for more
/// than a twentieth of one.
pub proof fn trunks_take_their_time(since: int, delta: u64)
    requires
        0 <= since,
    ensures
        left_of(since) is None <==> since < 550_000,
        left_of(since) is Some ==> (left_of(since)->0.part == 0 <==> since >= 1_600_000),
        bounce_of(since) is Some <==> since < 280_000,
        step_of(delta) <= 50_000,
        delta <= 50_000 ==> step_of(delta) == delta,
{
}

} // verus!
