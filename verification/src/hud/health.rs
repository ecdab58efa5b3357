//! The health bar, and the standing on claimed ground above it.
use vstd::prelude::*;
use crate::color::{Rgba, opaque, shade, solid, translucent};
use crate::fraction::Fraction;
use crate::text::{decimal, digits};

verus! {

/// A number of thousandths as whole ones: the nearest, and the even one of two
/// equally near.
pub open spec fn nearest_even(thousandths: nat) -> nat {
    let floor = thousandths / 1000;
    let rest = thousandths % 1000;
    if rest < 500 || (rest == 500 && floor % 2 == 0) {
        floor
    } else {
        floor + 1
    }
}

/// Rounds thousandths to whole ones.
pub fn round_even(thousandths: u64) -> (r: u64)
    ensures
        r == nearest_even(thousandths as nat),
{
    let floor: u64 = thousandths / 1000;
    let rest: u64 = thousandths % 1000;
    if rest < 500 || (rest == 500 && floor % 2 == 0) {
        floor
    } else {
        floor + 1
    }
}

/// Health as it is written: without decimals, and with its sign.
pub open spec fn health_text(health: i64) -> Seq<char> {
    if health < 0 {
        "-"@ + digits(nearest_even((-health) as nat))
    } else {
        digits(nearest_even(health as nat))
    }
}

/// What the health bar shows.
pub struct HealthView {
    pub text: String,
    pub share: Fraction,
    pub fill: Rgba,
}

/// The share of the bar that is filled, between nothing and all.
pub open spec fn health_fill(health: i64, max_health: u32) -> Fraction {
    Fraction {
        part: (if health < 0 {
            0
        } else if health > max_health {
            max_health as int
        } else {
            health as int
        }) as u128,
        whole: max_health as u128,
    }
}

/// Draws up the health bar. Health is in thousandths of a point.
pub fn health_bar(health: i64, max_health: u32) -> (r: HealthView)
    requires
        max_health > 0,
    ensures
        r.text@ == health_text(health),
        r.share == health_fill(health, max_health),
        r.share.valid(),
        r.fill == solid(125, 196, 55),
{
    let text: String = if health < 0 {
        let size: u64 = (-(health as i128)) as u64;
        let number = decimal(round_even(size));
        let mut signed = "-".to_owned();
        signed.append(number.as_str());
        signed
    } else {
        decimal(round_even(health as u64))
    };
    let part: u128 = if health < 0 {
        0
    } else if health > max_health as i64 {
        max_health as u128
    } else {
        health as u128
    };
    HealthView {
        text,
        share: Fraction { part, whole: max_health as u128 },
        fill: opaque(125, 196, 55),
    }
}

/// What the strip over the health bar shows on claimed ground.
pub struct ClaimView {
    pub label: String,
    pub border: Rgba,
    pub backing: Rgba,
    pub fill: Rgba,
}

/// Draws up the standing on claimed ground: green where building is allowed, else
/// red.
pub fn claim_indicator(authorized: bool) -> (r: ClaimView)
    ensures
        r.label@ == if authorized {
            "Authorized"@
        } else {
            "Unauthorized"@
        },
        r.border == if authorized {
            solid(125, 196, 55)
        } else {
            solid(199, 62, 44)
        },
        r.backing == shade(30, 29, 24, 202),
        r.fill == shade(r.border.r, r.border.g, r.border.b, 130),
{
    let (border, label): (Rgba, String) = if authorized {
        (opaque(125, 196, 55), "Authorized".to_owned())
    } else {
        (opaque(199, 62, 44), "Unauthorized".to_owned())
    };
    ClaimView {
        label,
        border,
        backing: translucent(30, 29, 24, 202),
        fill: translucent(border.r, border.g, border.b, 130),
    }
}

/// The written number lies at most half a point off, and of two that do it is the even
/// one.
pub proof fn written_health_is_the_nearest(thousandths: nat)
    ensures
        ({
            let off = 1000 * nearest_even(thousandths) - thousandths;
            &&& -500 <= off <= 500
            &&& off == 500 || off == -500 ==> nearest_even(thousandths) % 2 == 0
        }),
{
}

/// The bar shows the health out of all there can be: empty without any, full from all
/// of it up. What is below zero is written with its sign.
pub proof fn health_bar_shows_what_is_left(health: i64, max_health: u32)
    ensures
        health_fill(health, max_health).whole == max_health,
        0 <= health <= max_health ==> health_fill(health, max_health).part == health,
        health <= 0 ==> health_fill(health, max_health).part == 0,
        health >= max_health ==> health_fill(health, max_health).part == max_health,
        health >= 0 ==> health_text(health) == digits(nearest_even(health as nat)),
        health < 0 ==> health_text(health) == "-"@ + digits(nearest_even((-health) as nat)),
{
}

} // verus!
