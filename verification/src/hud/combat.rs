//! The marker of a hit, and the arrows towards whoever hit. Fades are in
//! millionths.
use vstd::prelude::*;
use crate::color::{Rgba, shade, translucent};

verus! {

/// The opacity at a fade, at most full.
pub open spec fn faded_alpha(scale: u8, fade: u32) -> u8 {
    if fade * scale / 1_000_000 > 255 {
        255
    } else {
        (fade * scale / 1_000_000) as u8
    }
}

fn faded(scale: u8, fade: u32) -> (r: u8)
    ensures
        r == faded_alpha(scale, fade),
{
    proof {
        assert(0 <= fade * scale <= 0xffff_ffff * 255) by (nonlinear_arith)
            requires
                0 <= fade <= 0xffff_ffff,
                0 <= scale <= 255,
        ;
    }
    let alpha: u64 = fade as u64 * scale as u64 / 1_000_000;
    if alpha > 255 {
        255
    } else {
        alpha as u8
    }
}

/// The colour of the hit marker: red for a player, white for the world; none once
/// it has faded.
pub fn hit_marker(fade: u32, is_player: bool) -> (r: Option<Rgba>)
    ensures
        r == if fade == 0 {
            None
        } else {
            let alpha = faded_alpha(235, fade);
            Some(
                if is_player {
                    shade(255, 90, 78, alpha)
                } else {
                    shade(240, 242, 245, alpha)
                },
            )
        },
{
    if fade == 0 {
        return None;
    }
    let alpha = faded(235, fade);
    Some(
        if is_player {
            translucent(255, 90, 78, alpha)
        } else {
            translucent(240, 242, 245, alpha)
        },
    )
}

/// Two places are too near to point from one to the other: less than a
/// centimetre. Lengths are in millimetres.
pub open spec fn no_direction(dx: i32, dz: i32) -> bool {
    dx * dx + dz * dz < 100
}

/// The colour of an arrow towards whoever hit; none where there is no direction.
pub fn damage_arrow(dx: i32, dz: i32, fade: u32) -> (r: Option<Rgba>)
    ensures
        r == if no_direction(dx, dz) {
            None
        } else {
            Some(shade(214, 40, 40, faded_alpha(220, fade)))
        },
{
    proof {
        assert(0 <= dx * dx <= 0x4000_0000_0000_0000 && 0 <= dz * dz <= 0x4000_0000_0000_0000)
            by (nonlinear_arith)
            requires
                -0x8000_0000 <= dx <= 0x7fff_ffff,
                -0x8000_0000 <= dz <= 0x7fff_ffff,
        ;
    }
    let across: i128 = dx as i128 * dx as i128 + dz as i128 * dz as i128;
    if across < 100 {
        return None;
    }
    Some(translucent(214, 40, 40, faded(220, fade)))
}

/// A full fade has the whole opacity, none has nothing, and in between the opacity is
/// the share of it, rounded down; it never falls as the fade grows.
pub proof fn fades_take_their_share(scale: u8, less: u32, more: u32)
    requires
        less <= more,
    ensures
        faded_alpha(scale, 1_000_000) == scale,
        faded_alpha(scale, 0) == 0,
        faded_alpha(scale, less) <= faded_alpha(scale, more),
        less <= 1_000_000 ==> faded_alpha(scale, less) * 1_000_000 <= less * scale < (faded_alpha(
            scale,
            less,
        ) + 1) * 1_000_000,
{
    let a = less * scale;
    let b = more * scale;
    assert(0 <= a <= b) by (nonlinear_arith)
        requires
            a == less * scale,
            b == more * scale,
            0 <= less <= more,
            0 <= scale,
    ;
    if less <= 1_000_000 {
        assert(a <= 1_000_000 * 255) by (nonlinear_arith)
            requires
                a == less * scale,
                0 <= less <= 1_000_000,
                0 <= scale <= 255,
        ;
    }
    assert(1_000_000 * scale / 1_000_000 == scale);
    let zero = 0u32;
    assert(zero * scale == 0) by (nonlinear_arith)
        requires
            zero == 0,
    ;
}

/// Whoever hit from a centimetre away or more is pointed at, whichever side they are on.
pub proof fn attackers_are_pointed_at_from_any_side(dx: i32, dz: i32)
    ensures
        -10 < dx < 10 || no_direction(dx, dz) == false,
        -10 < dz < 10 || no_direction(dx, dz) == false,
        dx == 0 ==> (no_direction(dx, dz) <==> -10 < dz < 10),
        dz == 0 ==> (no_direction(dx, dz) <==> -10 < dx < 10),
        no_direction(dx, dz) == no_direction(dz, dx),
{
    let x = dx as int;
    let z = dz as int;
    assert(0 <= x * x && 0 <= z * z) by (nonlinear_arith);
    assert(x * x < 100 <==> -10 < x < 10) by (nonlinear_arith);
    assert(z * z < 100 <==> -10 < z < 10) by (nonlinear_arith);
    assert(x == 0 ==> x * x == 0) by (nonlinear_arith);
    assert(z == 0 ==> z * z == 0) by (nonlinear_arith);
    assert(dx * dx == x * x && dz * dz == z * z);
}

} // verus!
