//! Bodies glide from one reported pose to the next instead of stepping.
use vstd::prelude::*;
use crate::fraction::Fraction;
use crate::items::Vec3Net;

verus! {

/// How long a body takes to reach a reported pose, in microseconds.
pub const REMOTE_PLAYER_INTERPOLATION: u64 = 100_000;

/// Corrections beyond this distance are not blended, in millimetres.
pub const SNAP_DISTANCE: u32 = 6_000;

/// Where a body stands and looks. The yaw is in thousandths of a radian.
#[derive(Clone, Copy, Debug, PartialEq, Eq, Structural)]
pub struct Pose {
    pub position: Vec3Net,
    pub yaw: i32,
}

/// The square of the distance of two places.
pub open spec fn distance_squared(a: Vec3Net, b: Vec3Net) -> int {
    (a.x - b.x) * (a.x - b.x) + (a.y - b.y) * (a.y - b.y) + (a.z - b.z) * (a.z - b.z)
}

/// Whether two places are further apart than a correction is blended.
pub open spec fn too_far(a: Vec3Net, b: Vec3Net) -> bool {
    distance_squared(a, b) > SNAP_DISTANCE * SNAP_DISTANCE
}

fn square(d: i64) -> (r: i128)
    requires
        -0x1_0000_0000 < d < 0x1_0000_0000,
    ensures
        r == d * d,
        0 <= r < 0x1_0000_0000_0000_0000,
{
    proof {
        assert(0 <= d * d < 0x1_0000_0000_0000_0000) by (nonlinear_arith)
            requires
                -0x1_0000_0000 < d < 0x1_0000_0000,
        ;
    }
    d as i128 * d as i128
}

/// Whether two places are too far apart to blend.
pub fn is_too_far(a: Vec3Net, b: Vec3Net) -> (r: bool)
    ensures
        r == too_far(a, b),
{
    let dx = square(a.x as i64 - b.x as i64);
    let dy = square(a.y as i64 - b.y as i64);
    let dz = square(a.z as i64 - b.z as i64);
    dx + dy + dz > 36_000_000
}

/// One coordinate on the way: the given share of it, rounded down.
pub open spec fn coordinate_between(from: i32, to: i32, part: int, whole: int) -> int {
    from + (to - from) * part / whole
}

/// The place on the way from one place to another.
pub open spec fn place_between(from: Vec3Net, to: Vec3Net, share: Fraction) -> (int, int, int) {
    (
        coordinate_between(from.x, to.x, share.part as int, share.whole as int),
        coordinate_between(from.y, to.y, share.part as int, share.whole as int),
        coordinate_between(from.z, to.z, share.part as int, share.whole as int),
    )
}

/// A coordinate on the way lies between its ends.
proof fn coordinate_stays_between(from: i32, to: i32, part: int, whole: int)
    requires
        0 <= part <= whole,
        0 < whole,
    ensures
        from <= to ==> from <= coordinate_between(from, to, part, whole) <= to,
        to <= from ==> to <= coordinate_between(from, to, part, whole) <= from,
        part == whole ==> coordinate_between(from, to, part, whole) == to,
        part == 0 ==> coordinate_between(from, to, part, whole) == from,
{
    let way = to - from;
    let moved = way * part / whole;
    if from <= to {
        assert(0 <= moved <= way) by (nonlinear_arith)
            requires
                moved == way * part / whole,
                0 <= part <= whole,
                0 < whole,
                0 <= way,
        ;
    }
    if to <= from {
        assert(way <= moved <= 0) by (nonlinear_arith)
            requires
                moved == way * part / whole,
                0 <= part <= whole,
                0 < whole,
                way <= 0,
        ;
    }
    if part == whole {
        assert(moved == way) by (nonlinear_arith)
            requires
                moved == way * whole / whole,
                0 < whole,
        ;
    }
    if part == 0 {
        assert(way * 0 == 0) by (nonlinear_arith);
    }
}

fn coordinate(from: i32, to: i32, part: u64) -> (r: i32)
    requires
        part <= REMOTE_PLAYER_INTERPOLATION,
    ensures
        r == coordinate_between(from, to, part as int, REMOTE_PLAYER_INTERPOLATION as int),
{
    proof {
        coordinate_stays_between(from, to, part as int, REMOTE_PLAYER_INTERPOLATION as int);
    }
    if from <= to {
        let way: u64 = (to as i64 - from as i64) as u64;
        proof {
            assert(0 <= way * part <= 0xffff_ffff * 100_000) by (nonlinear_arith)
                requires
                    0 <= way <= 0xffff_ffff,
                    0 <= part <= 100_000,
            ;
        }
        let moved: u64 = way * part / REMOTE_PLAYER_INTERPOLATION;
        (from as i64 + moved as i64) as i32
    } else {
        let way: u64 = (from as i64 - to as i64) as u64;
        proof {
            assert(0 <= way * part <= 0xffff_ffff * 100_000) by (nonlinear_arith)
                requires
                    0 <= way <= 0xffff_ffff,
                    0 <= part <= 100_000,
            ;
        }
        let product: u64 = way * part;
        let moved: u64 = (product + (REMOTE_PLAYER_INTERPOLATION - 1)) / REMOTE_PLAYER_INTERPOLATION;
        proof {
            assert((to - from) * part == -(way * part)) by (nonlinear_arith)
                requires
                    way == from - to,
            ;
            assert((-(product as int)) / 100_000 == -((product + 99_999) / 100_000));
        }
        (from as i64 - moved as i64) as i32
    }
}

/// Blends a body from where it is to where it was reported.
#[derive(Clone, Copy, Debug, PartialEq, Eq, Structural)]
pub struct NetworkPlayerInterpolation {
    /// The report that is followed.
    pub snapshot_tick: u64,
    pub from: Pose,
    pub to: Pose,
    pub elapsed: u64,
}

/// Where a body is on its way. The rotation is left to blend: from where, to
/// where, and how far.
#[derive(Clone, Copy, Debug, PartialEq, Eq, Structural)]
pub struct BlendedPose {
    pub position: Vec3Net,
    pub from_yaw: i32,
    pub to_yaw: i32,
    pub share: Fraction,
}

impl NetworkPlayerInterpolation {
    /// A body that stands at its pose.
    pub open spec fn at_rest(tick: u64, pose: Pose) -> Self {
        NetworkPlayerInterpolation {
            snapshot_tick: tick,
            from: pose,
            to: pose,
            elapsed: REMOTE_PLAYER_INTERPOLATION,
        }
    }

    /// The body after a report: an old one changes nothing, a near one is glided
    /// to from where the body is, and a far one is jumped to.
    pub open spec fn retargeted(self, tick: u64, current: Pose, target: Pose) -> Self {
        if tick <= self.snapshot_tick {
            self
        } else {
            NetworkPlayerInterpolation {
                snapshot_tick: tick,
                from: if too_far(current.position, target.position) {
                    target
                } else {
                    current
                },
                to: target,
                elapsed: 0,
            }
        }
    }

    /// The share of the way that is gone.
    pub open spec fn gone(self) -> Fraction {
        Fraction {
            part: (if self.elapsed > REMOTE_PLAYER_INTERPOLATION {
                REMOTE_PLAYER_INTERPOLATION
            } else {
                self.elapsed
            }) as u128,
            whole: REMOTE_PLAYER_INTERPOLATION as u128,
        }
    }

    /// The body some time later.
    pub open spec fn later(self, delta: u64) -> Self {
        NetworkPlayerInterpolation {
            elapsed: if self.elapsed + delta > u64::MAX {
                u64::MAX
            } else {
                (self.elapsed + delta) as u64
            },
            ..self
        }
    }

    /// A body that stands at its pose.
    pub fn new(snapshot_tick: u64, pose: Pose) -> (r: Self)
        ensures
            r == Self::at_rest(snapshot_tick, pose),
    {
        NetworkPlayerInterpolation {
            snapshot_tick,
            from: pose,
            to: pose,
            elapsed: REMOTE_PLAYER_INTERPOLATION,
        }
    }

    /// Jumps to a pose, however near it is.
    pub fn snap_to(&mut self, snapshot_tick: u64, target: Pose)
        ensures
            *final(self) == Self::at_rest(snapshot_tick, target),
    {
        self.from = target;
        self.to = target;
        self.elapsed = REMOTE_PLAYER_INTERPOLATION;
        self.snapshot_tick = snapshot_tick;
    }

    /// Follows a report.
    pub fn retarget(&mut self, snapshot_tick: u64, current: Pose, target: Pose)
        ensures
            *final(self) == old(self).retargeted(snapshot_tick, current, target),
    {
        if snapshot_tick <= self.snapshot_tick {
            return;
        }
        self.from = if is_too_far(current.position, target.position) {
            target
        } else {
            current
        };
        self.to = target;
        self.elapsed = 0;
        self.snapshot_tick = snapshot_tick;
    }

    /// Goes on for some time, and tells where the body is.
    pub fn advance(&mut self, delta: u64) -> (r: BlendedPose)
        ensures
            *final(self) == old(self).later(delta),
            r.share == final(self).gone(),
            (r.position.x as int, r.position.y as int, r.position.z as int) == place_between(
                final(self).from.position,
                final(self).to.position,
                final(self).gone(),
            ),
            r.from_yaw == old(self).from.yaw,
            r.to_yaw == old(self).to.yaw,
    {
        self.elapsed = self.elapsed.saturating_add(delta);
        let part: u64 = if self.elapsed > REMOTE_PLAYER_INTERPOLATION {
            REMOTE_PLAYER_INTERPOLATION
        } else {
            self.elapsed
        };
        BlendedPose {
            position: Vec3Net {
                x: coordinate(self.from.position.x, self.to.position.x, part),
                y: coordinate(self.from.position.y, self.to.position.y, part),
                z: coordinate(self.from.position.z, self.to.position.z, part),
            },
            from_yaw: self.from.yaw,
            to_yaw: self.to.yaw,
            share: Fraction {
                part: part as u128,
                whole: REMOTE_PLAYER_INTERPOLATION as u128,
            },
        }
    }
}

/// A body that jumped to a pose stands there, however little time passes.
pub proof fn snapped_body_stands_still(tick: u64, pose: Pose, delta: u64)
    ensures
        ({
            let body = NetworkPlayerInterpolation::at_rest(tick, pose).later(delta);
            place_between(body.from.position, body.to.position, body.gone()) == (
                pose.position.x as int,
                pose.position.y as int,
                pose.position.z as int,
            )
        }),
{
    let body = NetworkPlayerInterpolation::at_rest(tick, pose).later(delta);
    let part = body.gone().part as int;
    let whole = body.gone().whole as int;
    coordinate_stays_between(pose.position.x, pose.position.x, part, whole);
    coordinate_stays_between(pose.position.y, pose.position.y, part, whole);
    coordinate_stays_between(pose.position.z, pose.position.z, part, whole);
}

/// A body arrives exactly where it was reported once the blend is over, and a
/// correction that is too far arrives at once.
pub proof fn reported_pose_is_reached(
    body: NetworkPlayerInterpolation,
    tick: u64,
    current: Pose,
    target: Pose,
    delta: u64,
)
    requires
        tick > body.snapshot_tick,
        delta >= REMOTE_PLAYER_INTERPOLATION || too_far(current.position, target.position),
    ensures
        ({
            let after = body.retargeted(tick, current, target).later(delta);
            place_between(after.from.position, after.to.position, after.gone()) == (
                target.position.x as int,
                target.position.y as int,
                target.position.z as int,
            )
        }),
{
    let after = body.retargeted(tick, current, target).later(delta);
    let part = after.gone().part as int;
    let whole = after.gone().whole as int;
    coordinate_stays_between(after.from.position.x, after.to.position.x, part, whole);
    coordinate_stays_between(after.from.position.y, after.to.position.y, part, whole);
    coordinate_stays_between(after.from.position.z, after.to.position.z, part, whole);
}

/// A repeated report changes nothing.
pub proof fn stale_report_is_ignored(
    body: NetworkPlayerInterpolation,
    tick: u64,
    current: Pose,
    target: Pose,
)
    requires
        tick <= body.snapshot_tick,
    ensures
        body.retargeted(tick, current, target) == body,
{
}

/// The distance counts all three axes alike and both ways alike; along one of them it
/// is the plain one.
pub proof fn far_is_a_distance(a: Vec3Net, b: Vec3Net)
    ensures
        too_far(a, b) == too_far(b, a),
        !too_far(a, a),
        a.y == b.y && a.z == b.z ==> (too_far(a, b) <==> a.x - b.x > SNAP_DISTANCE || b.x - a.x
            > SNAP_DISTANCE),
        a.x == b.x && a.z == b.z ==> (too_far(a, b) <==> a.y - b.y > SNAP_DISTANCE || b.y - a.y
            > SNAP_DISTANCE),
        a.x == b.x && a.y == b.y ==> (too_far(a, b) <==> a.z - b.z > SNAP_DISTANCE || b.z - a.z
            > SNAP_DISTANCE),
{
    far_along(a.x - b.x);
    far_along(a.y - b.y);
    far_along(a.z - b.z);
    far_along(b.x - a.x);
    far_along(b.y - a.y);
    far_along(b.z - a.z);
    far_along(a.x - a.x);
    far_along(a.y - a.y);
    far_along(a.z - a.z);
}

proof fn far_along(d: int)
    ensures
        d * d > 36_000_000 <==> d > 6_000 || d < -6_000,
        d == 0 ==> d * d == 0,
        0 <= d * d,
        d * d == (-d) * (-d),
{
    assert(d * d > 36_000_000 <==> d > 6_000 || d < -6_000) by (nonlinear_arith);
    assert(d == 0 ==> d * d == 0) by (nonlinear_arith);
    assert(0 <= d * d) by (nonlinear_arith);
    assert(d * d == (-d) * (-d)) by (nonlinear_arith);
}

/// A body glides evenly and never past its ends: each coordinate has gone its share of
/// the way, rounded down.
pub proof fn bodies_glide_evenly(from: i32, to: i32, part: int, whole: int)
    requires
        0 <= part <= whole,
        0 < whole,
    ensures
        ({
            let moved = coordinate_between(from, to, part, whole) - from;
            moved * whole <= (to - from) * part < (moved + 1) * whole
        }),
        from <= to ==> from <= coordinate_between(from, to, part, whole) <= to,
        to <= from ==> to <= coordinate_between(from, to, part, whole) <= from,
        coordinate_between(from, to, whole, whole) == to,
        coordinate_between(from, to, 0, whole) == from,
{
    coordinate_stays_between(from, to, part, whole);
    coordinate_stays_between(from, to, whole, whole);
    coordinate_stays_between(from, to, 0, whole);
    let product = (to - from) * part;
    let moved = product / whole;
    assert(moved * whole <= product < (moved + 1) * whole) by (nonlinear_arith)
        requires
            moved == product / whole,
            0 < whole,
    ;
}

/// Each coordinate of a place on the way is that of its own axis.
pub proof fn axes_stay_apart(from: Vec3Net, to: Vec3Net, share: Fraction)
    requires
        share.valid(),
    ensures
        ({
            let place = place_between(from, to, share);
            &&& from.x == to.x ==> place.0 == from.x
            &&& from.y == to.y ==> place.1 == from.y
            &&& from.z == to.z ==> place.2 == from.z
            &&& share.part == share.whole ==> place == (to.x as int, to.y as int, to.z as int)
            &&& share.part == 0 ==> place == (from.x as int, from.y as int, from.z as int)
        }),
{
    bodies_glide_evenly(from.x, to.x, share.part as int, share.whole as int);
    bodies_glide_evenly(from.y, to.y, share.part as int, share.whole as int);
    bodies_glide_evenly(from.z, to.z, share.part as int, share.whole as int);
}

/// A newer report is followed from where the body is, right from the start of a blend;
/// the reported pose is where it goes, and a far one is where it begins too.
pub proof fn newer_reports_are_followed(
    body: NetworkPlayerInterpolation,
    tick: u64,
    current: Pose,
    target: Pose,
)
    requires
        tick > body.snapshot_tick,
    ensures
        ({
            let next = body.retargeted(tick, current, target);
            &&& next.snapshot_tick == tick
            &&& next.to == target
            &&& next.elapsed == 0
            &&& next.gone().part == 0
            &&& too_far(current.position, target.position) ==> next.from == target
            &&& !too_far(current.position, target.position) ==> next.from == current
        }),
{
}

/// The share of the way grows with the time, is all of it once the blend is over, and
/// two frames go as far as one of their length together.
pub proof fn blends_go_by_the_clock(body: NetworkPlayerInterpolation, first: u64, second: u64)
    requires
        body.elapsed + first + second <= u64::MAX,
    ensures
        body.later(first).later(second) == body.later((first + second) as u64),
        body.later(first).elapsed == body.elapsed + first,
        body.later(first).from == body.from && body.later(first).to == body.to,
        body.later(first).snapshot_tick == body.snapshot_tick,
        body.elapsed <= REMOTE_PLAYER_INTERPOLATION ==> body.gone().part == body.elapsed,
        body.elapsed >= REMOTE_PLAYER_INTERPOLATION ==> body.gone().part == body.gone().whole,
        body.gone().whole == REMOTE_PLAYER_INTERPOLATION,
        body.gone().part <= body.later(first).gone().part,
{
}

/// A body at rest is at its pose with the whole blend behind it.
pub proof fn resting_bodies_have_arrived(tick: u64, pose: Pose)
    ensures
        ({
            let body = NetworkPlayerInterpolation::at_rest(tick, pose);
            &&& body.from == pose
            &&& body.to == pose
            &&& body.snapshot_tick == tick
            &&& body.gone().part == body.gone().whole
        }),
{
}

/// A body takes a tenth of a second to a reported pose, and jumps further than six
/// metres.
pub proof fn bodies_take_a_tenth_of_a_second(body: NetworkPlayerInterpolation, a: Vec3Net, b: Vec3Net)
    ensures
        body.gone().part == body.gone().whole <==> body.elapsed >= 100_000,
        too_far(a, b) <==> distance_squared(a, b) > 36_000_000,
        distance_squared(a, b) == (a.x - b.x) * (a.x - b.x) + (a.y - b.y) * (a.y - b.y) + (a.z
            - b.z) * (a.z - b.z),
{
}

} // verus!
