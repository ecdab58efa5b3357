//! What a remote body does: whether it walks, swings or charges what it holds.
use vstd::prelude::*;
use crate::fraction::Fraction;
use crate::items::HeldMesh;

verus! {

/// Speed up to which a body stands, in millimetres per second.
pub const LOCOMOTION_MOVE_THRESHOLD: u32 = 500;

/// Speed of a full walk.
pub const LOCOMOTION_WALK_SPEED: u32 = 3_000;

/// Speed of a full run.
pub const LOCOMOTION_RUN_SPEED: u32 = 6_000;

/// Swing of the thighs at a full walk, in millionths of a radian.
pub const LEG_SWING_WALK: u32 = 420_000;

/// Swing of the thighs at a full run.
pub const LEG_SWING_RUN: u32 = 850_000;

/// A swing takes at least this long, in microseconds.
pub const SHORTEST_SWING: u64 = 50_000;

/// How a body swings what it holds.
#[derive(Clone, Copy, Debug, PartialEq, Eq, Structural)]
pub enum ItemModel {
    Bag,
    Hatchet,
    Pickaxe,
    Club,
    Spear,
    Sword,
    Bow,
    Bandage,
    Other { index: u16 },
}

/// A swing in progress. Times are in microseconds.
#[derive(Clone, Copy, Debug, PartialEq, Eq, Structural)]
pub struct RemoteSwing {
    pub model: ItemModel,
    pub elapsed: u64,
    pub duration: u64,
}

/// What a body keeps of its motion between frames.
#[derive(Clone, Copy, Debug, PartialEq, Eq)]
pub struct RigMotion {
    pub last_swing_seq: u32,
    pub swing: Option<RemoteSwing>,
    pub pitch_seeded: bool,
}

/// A body that has not moved yet.
pub fn still_motion() -> (r: RigMotion)
    ensures
        r == (RigMotion { last_swing_seq: 0, swing: None, pitch_seeded: false }),
{
    RigMotion { last_swing_seq: 0, swing: None, pitch_seeded: false }
}

/// What a body does in a frame.
#[derive(Clone, Copy, Debug, PartialEq, Eq)]
pub enum BodyMotion {
    /// A corpse keeps its limbs, and its torso is set upright.
    Collapse,
    /// A sleeper lies straight.
    Relax,
    /// A living body walks and swings.
    Live {
        /// Whether the look is taken over at once instead of eased towards.
        seed_pitch: bool,
        /// Whether the right arm carries something.
        carry: bool,
        /// The swing that is shown, and how far it is.
        swing: Option<(ItemModel, Fraction)>,
        /// Whether the held item keeps its direction, as a thrust does.
        lock_hand: bool,
    },
}

/// The swing that runs in a frame: a new one where the report counted on, else the
/// one that ran.
pub open spec fn running_swing(
    motion: RigMotion,
    action_seq: u32,
    model: ItemModel,
    duration: u64,
) -> Option<RemoteSwing> {
    if action_seq > motion.last_swing_seq {
        Some(
            RemoteSwing {
                model,
                elapsed: 0,
                duration: if duration < SHORTEST_SWING {
                    SHORTEST_SWING
                } else {
                    duration
                },
            },
        )
    } else {
        motion.swing
    }
}

/// A swing some time later; none once it is over.
pub open spec fn swing_after(swing: Option<RemoteSwing>, delta: u64) -> Option<RemoteSwing> {
    match swing {
        Some(active) => if active.elapsed + delta >= active.duration {
            None
        } else {
            Some(RemoteSwing { elapsed: (active.elapsed + delta) as u64, ..active })
        },
        None => None,
    }
}

/// A swing as model and share.
pub open spec fn swing_share(swing: Option<RemoteSwing>) -> Option<(ItemModel, Fraction)> {
    match swing {
        Some(active) => Some(
            (
                active.model,
                Fraction { part: active.elapsed as u128, whole: active.duration as u128 },
            ),
        ),
        None => None,
    }
}

/// What a living body keeps after a frame.
pub open spec fn motion_after(
    motion: RigMotion,
    action_seq: u32,
    model: ItemModel,
    duration: u64,
    delta: u64,
) -> RigMotion {
    RigMotion {
        last_swing_seq: if action_seq > motion.last_swing_seq {
            action_seq
        } else {
            motion.last_swing_seq
        },
        swing: swing_after(running_swing(motion, action_seq, model, duration), delta),
        pitch_seeded: true,
    }
}

/// Decides what a body does in a frame. `duration` is how long the reported swing
/// takes.
pub fn animate_body(
    motion: &mut RigMotion,
    dying: bool,
    sleeping: bool,
    holding: bool,
    action_seq: u32,
    model: ItemModel,
    duration: u64,
    delta: u64,
) -> (r: BodyMotion)
    ensures
        if dying {
            r == BodyMotion::Collapse && *final(motion) == *old(motion)
        } else if sleeping {
            r == BodyMotion::Relax && *final(motion) == (RigMotion { swing: None, ..*old(motion) })
        } else {
            let after = motion_after(*old(motion), action_seq, model, duration, delta);
            &&& r == (BodyMotion::Live {
                seed_pitch: !old(motion).pitch_seeded,
                carry: holding,
                swing: swing_share(after.swing),
                lock_hand: (after.swing matches Some(active) && active.model == ItemModel::Spear),
            })
            &&& *final(motion) == after
        },
        ({
            let whole: int = if duration < 50_000 {
                50_000
            } else {
                duration as int
            };
            !dying && !sleeping && action_seq > old(motion).last_swing_seq ==> {
                &&& final(motion).last_swing_seq == action_seq
                &&& delta < whole ==> (r matches BodyMotion::Live {
                    swing: Some((shown, share)),
                    lock_hand,
                    ..
                } && shown == model && share.part == delta && share.whole == whole && (lock_hand
                    <==> model == ItemModel::Spear))
                &&& delta >= whole ==> (r matches BodyMotion::Live { swing, lock_hand, .. }
                    && swing is None && !lock_hand)
            }
        }),
        !dying && !sleeping && action_seq <= old(motion).last_swing_seq ==> {
            &&& final(motion).last_swing_seq == old(motion).last_swing_seq
            &&& old(motion).swing is None ==> (r matches BodyMotion::Live { swing, .. } && swing
                is None)
            &&& old(motion).swing matches Some(ran) ==> {
                let now = ran.elapsed + delta;
                &&& now < ran.duration ==> (r matches BodyMotion::Live {
                    swing: Some((shown, share)),
                    lock_hand,
                    ..
                } && shown == ran.model && share.part == now && share.whole == ran.duration && (
                lock_hand <==> ran.model == ItemModel::Spear))
                &&& now >= ran.duration ==> (r matches BodyMotion::Live { swing, .. } && swing
                    is None)
            }
        },
        !dying && !sleeping ==> (r matches BodyMotion::Live { carry, seed_pitch, .. } && carry
            == holding && seed_pitch == !old(motion).pitch_seeded) && final(motion).pitch_seeded,
        r is Live <==> !dying && !sleeping,
        final(motion).last_swing_seq >= old(motion).last_swing_seq,
{
    if dying {
        return BodyMotion::Collapse;
    }
    if sleeping {
        motion.swing = None;
        return BodyMotion::Relax;
    }
    let seed_pitch: bool = !motion.pitch_seeded;
    motion.pitch_seeded = true;
    let mut swing: Option<RemoteSwing> = motion.swing;
    if action_seq > motion.last_swing_seq {
        motion.last_swing_seq = action_seq;
        swing = Some(
            RemoteSwing {
                model,
                elapsed: 0,
                duration: if duration < SHORTEST_SWING {
                    SHORTEST_SWING
                } else {
                    duration
                },
            },
        );
    }
    let next: Option<RemoteSwing> = match swing {
        Some(active) => if delta >= active.duration || active.elapsed >= active.duration - delta {
            None
        } else {
            Some(
                RemoteSwing {
                    model: active.model,
                    elapsed: active.elapsed + delta,
                    duration: active.duration,
                },
            )
        },
        None => None,
    };
    motion.swing = next;
    let (shown, lock_hand): (Option<(ItemModel, Fraction)>, bool) = match next {
        Some(active) => (
            Some(
                (
                    active.model,
                    Fraction { part: active.elapsed as u128, whole: active.duration as u128 },
                ),
            ),
            match active.model {
                ItemModel::Spear => true,
                _ => false,
            },
        ),
        None => (None, false),
    };
    BodyMotion::Live { seed_pitch, carry: holding, swing: shown, lock_hand }
}

/// A reported swing is shown once: the same report in the next frame starts no
/// other, and the swing that runs goes on.
pub proof fn swing_starts_once(
    motion: RigMotion,
    action_seq: u32,
    model: ItemModel,
    duration: u64,
    delta: u64,
)
    ensures
        ({
            let after = motion_after(motion, action_seq, model, duration, delta);
            running_swing(after, action_seq, model, duration) == after.swing
        }),
{
}

/// What of the look the torso and the arm bend, in thousandths. Only an arm that
/// holds something bends.
pub fn pitch_shares(holding: bool) -> (r: (u32, u32))
    ensures
        r.0 == 600,
        r.1 == if holding {
            400int
        } else {
            0
        },
        holding ==> r.0 + r.1 == 1000,
{
    (
        600,
        if holding {
            400
        } else {
            0
        },
    )
}

/// The swing of the thighs at a speed: none while standing, a smooth rise to the
/// full walk, and from there a straight rise to the full run.
pub open spec fn leg_amplitude(speed: u32) -> int {
    if speed <= LOCOMOTION_MOVE_THRESHOLD {
        0
    } else {
        walk_swing(if speed > 3_000 {
            3_000
        } else {
            speed as int
        }) + run_swing(if speed < 3_000 {
            0
        } else if speed > 6_000 {
            3_000
        } else {
            speed - 3_000
        })
    }
}

/// The part of the swing that a walk has, over the share of the walking speed.
pub open spec fn walk_swing(s: int) -> int {
    420_000 * (s * s * (9_000 - 2 * s)) / 27_000_000_000
}

/// The part of the swing that a run adds, over the speed beyond walking.
pub open spec fn run_swing(s: int) -> int {
    430_000 * s / 3_000
}

proof fn walk_swing_bounds(s: int)
    requires
        0 <= s <= 3_000,
    ensures
        0 <= s * s * (9_000 - 2 * s) <= 27_000_000_000,
        0 <= s * s <= 9_000_000,
        0 <= walk_swing(s) <= 420_000,
{
    assert(0 <= s * s <= 9_000_000) by (nonlinear_arith)
        requires
            0 <= s <= 3_000,
    ;
    cubic_rises(s, 3_000);
    cubic_rises(0, s);
}

proof fn cubic_steps_up(s: int)
    requires
        0 <= s < 3_000,
    ensures
        s * s * (9_000 - 2 * s) <= (s + 1) * (s + 1) * (9_000 - 2 * (s + 1)),
{
    let square = s * s;
    let left = 9_000 - 2 * s;
    assert((s + 1) * (s + 1) == square + 2 * s + 1) by (nonlinear_arith)
        requires
            square == s * s,
    ;
    assert((square + 2 * s + 1) * (left - 2) == square * left - 2 * square + (2 * s + 1) * (left
        - 2)) by (nonlinear_arith);
    assert((2 * s + 1) * (8_998 - 2 * s) == 17_994 * s - 4 * square + 8_998) by (nonlinear_arith)
        requires
            square == s * s,
    ;
    assert(square <= 2_999 * s) by (nonlinear_arith)
        requires
            square == s * s,
            0 <= s <= 2_999,
    ;
}

proof fn cubic_rises(s: int, t: int)
    requires
        0 <= s <= t <= 3_000,
    ensures
        s * s * (9_000 - 2 * s) <= t * t * (9_000 - 2 * t),
    decreases t - s,
{
    if s < t {
        cubic_steps_up(s);
        cubic_rises(s + 1, t);
    }
}

/// Computes the swing of the thighs at a speed, in millionths of a radian.
pub fn locomotion_leg_amplitude(speed: u32) -> (r: u32)
    ensures
        r == leg_amplitude(speed),
{
    if speed <= LOCOMOTION_MOVE_THRESHOLD {
        return 0;
    }
    let walk: u64 = if speed > 3_000 {
        3_000
    } else {
        speed as u64
    };
    let run: u64 = if speed < 3_000 {
        0
    } else if speed > 6_000 {
        3_000
    } else {
        speed as u64 - 3_000
    };
    proof {
        walk_swing_bounds(walk as int);
    }
    let rise: u64 = walk * walk * (9_000 - 2 * walk);
    let swing: u64 = 420_000 * rise / 27_000_000_000 + 430_000 * run / 3_000;
    swing as u32
}

/// The swing never falls as the speed grows; it is the walking swing at a full
/// walk and the running swing at a full run and beyond.
pub proof fn leg_amplitude_never_falls(slower: u32, faster: u32)
    requires
        slower <= faster,
    ensures
        leg_amplitude(slower) <= leg_amplitude(faster),
        leg_amplitude(LOCOMOTION_WALK_SPEED) == LEG_SWING_WALK,
        faster >= LOCOMOTION_RUN_SPEED ==> leg_amplitude(faster) == LEG_SWING_RUN,
{
    let a: int = if slower > 3_000 {
        3_000
    } else {
        slower as int
    };
    let b: int = if faster > 3_000 {
        3_000
    } else {
        faster as int
    };
    cubic_rises(a, b);
    walk_swing_bounds(a);
    walk_swing_bounds(b);
    let full: int = 3_000;
    assert(full * full == 9_000_000) by (nonlinear_arith)
        requires
            full == 3_000,
    ;
    let square = full * full;
    assert(square * (9_000 - 2 * full) == 27_000_000_000) by (nonlinear_arith)
        requires
            full == 3_000,
            square == 9_000_000,
    ;
    assert(walk_swing(full) == 420_000);
}

/// How an item that is drawn or wrapped is posed. The charge is in millionths.
#[derive(Clone, Copy, Debug, PartialEq, Eq, Structural)]
pub struct ChargePose {
    pub model: ItemModel,
    pub charge: u32,
    /// Whether the charge shows at all; else the item rests.
    pub drawing: bool,
}

/// Poses the held item of a body: only the bow and the bandage show a charge, and
/// the item of a corpse stays as it is.
pub fn held_charge_pose(dying: bool, held: Option<HeldMesh>, charge: i64) -> (r: Option<ChargePose>)
    ensures
        r == if dying {
            None
        } else {
            let clamped = if charge < 0 {
                0
            } else if charge > 1_000_000 {
                1_000_000
            } else {
                charge as int
            };
            match held {
                Some(HeldMesh::WoodenBow) => Some(
                    ChargePose {
                        model: ItemModel::Bow,
                        charge: clamped as u32,
                        drawing: clamped > 1_000,
                    },
                ),
                Some(HeldMesh::Bandage) => Some(
                    ChargePose {
                        model: ItemModel::Bandage,
                        charge: clamped as u32,
                        drawing: clamped > 1_000,
                    },
                ),
                _ => None,
            }
        },
{
    if dying {
        return None;
    }
    let clamped: u32 = if charge < 0 {
        0
    } else if charge > 1_000_000 {
        1_000_000
    } else {
        charge as u32
    };
    let model: ItemModel = match held {
        Some(HeldMesh::WoodenBow) => ItemModel::Bow,
        Some(HeldMesh::Bandage) => ItemModel::Bandage,
        _ => {
            return None;
        },
    };
    Some(ChargePose { model, charge: clamped, drawing: clamped > 1_000 })
}

/// Every report that counts on starts a swing of its own, whatever swing ran before and
/// however many were reported before: right away it shows the reported model from the
/// start, and it lasts as long as reported but never less than the shortest swing.
pub proof fn every_new_report_starts_a_swing(
    motion: RigMotion,
    action_seq: u32,
    model: ItemModel,
    duration: u64,
    delta: u64,
)
    requires
        action_seq > motion.last_swing_seq,
    ensures
        ({
            let after = motion_after(motion, action_seq, model, duration, delta);
            &&& after.last_swing_seq == action_seq
            &&& after.swing is Some <==> delta < duration || delta < SHORTEST_SWING
            &&& after.swing matches Some(swing) ==> {
                &&& swing.model == model
                &&& swing.elapsed == delta
                &&& swing.duration >= duration
                &&& swing.duration >= SHORTEST_SWING
                &&& swing.duration == duration || swing.duration == SHORTEST_SWING
            }
        }),
{
}

/// A running swing goes on by the time that passes, and two frames take it as far as
/// one frame of their length together.
pub proof fn frames_add_up(swing: RemoteSwing, first: u64, second: u64)
    requires
        first + second <= u64::MAX,
    ensures
        swing_after(swing_after(Some(swing), first), second) == swing_after(
            Some(swing),
            (first + second) as u64,
        ),
        swing_after(Some(swing), first) matches Some(later) ==> later.elapsed == swing.elapsed
            + first && later.model == swing.model && later.duration == swing.duration
            && later.elapsed < later.duration,
        swing_after(Some(swing), first) is None ==> swing.elapsed + first >= swing.duration,
        swing_after(None, first) is None,
{
}

/// A standing body keeps its legs still, and between a walk and a run each step of
/// speed adds its share.
pub proof fn standing_legs_are_still(speed: u32)
    ensures
        speed <= LOCOMOTION_MOVE_THRESHOLD ==> leg_amplitude(speed) == 0,
        LOCOMOTION_WALK_SPEED <= speed <= LOCOMOTION_RUN_SPEED ==> leg_amplitude(speed)
            == LEG_SWING_WALK + (LEG_SWING_RUN - LEG_SWING_WALK) * (speed - LOCOMOTION_WALK_SPEED)
            / (LOCOMOTION_RUN_SPEED - LOCOMOTION_WALK_SPEED),
        speed <= LOCOMOTION_WALK_SPEED ==> leg_amplitude(speed) <= LEG_SWING_WALK,
{
    leg_amplitude_never_falls(speed, speed);
    if speed <= LOCOMOTION_WALK_SPEED {
        leg_amplitude_never_falls(speed, LOCOMOTION_WALK_SPEED);
    }
    if LOCOMOTION_WALK_SPEED <= speed <= LOCOMOTION_RUN_SPEED {
        assert(run_swing(0) == 0);
        assert(leg_amplitude(LOCOMOTION_WALK_SPEED) == walk_swing(3_000) + run_swing(0));
        assert(walk_swing(3_000) == 420_000);
    }
}

} // verus!
